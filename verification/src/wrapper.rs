//! The envelopes in which the service answers a request: an object with
//! one member, named after what it holds.

use vstd::prelude::*;
use crate::decode::required;
use crate::decode::required_member;
use crate::decode::Decode;
use crate::json::Json;
use crate::json::JsonView;
use crate::schema::Category;
use crate::schema::CategoryView;
use crate::schema::ChatMessage;
use crate::schema::ChatMessageView;
use crate::schema::Entry;
use crate::schema::EntryView;
use crate::schema::Game;
use crate::schema::GameView;
use crate::schema::Race;
use crate::schema::RaceView;
use crate::schema::Run;
use crate::schema::RunView;
use crate::schema::Runner;
use crate::schema::RunnerView;

verus! {

/// An answer that holds a Run under `run`.
#[derive(Debug, PartialEq)]
pub struct ContainsRun {
    pub run: Run,
}

/// The mathematical value of a [`ContainsRun`].
pub struct ContainsRunView {
    pub run: RunView,
}

impl DeepView for ContainsRun {
    type V = ContainsRunView;

    open spec fn deep_view(&self) -> ContainsRunView {
        ContainsRunView { run: self.run.deep_view() }
    }
}

impl Decode for ContainsRun {
    open spec fn decoded(doc: JsonView) -> Option<ContainsRunView> {
        match required_member::<Run>(doc, "run"@) {
            Some(run) => Some(ContainsRunView { run }),
            None => None,
        }
    }

    fn from_json(doc: &Json) -> (r: Option<ContainsRun>) {
        let run = required::<Run>(doc, "run")?;
        Some(ContainsRun { run })
    }
}

/// An answer that holds a Runner under `runner`.
#[derive(Debug, PartialEq)]
pub struct ContainsRunner {
    pub runner: Runner,
}

/// The mathematical value of a [`ContainsRunner`].
pub struct ContainsRunnerView {
    pub runner: RunnerView,
}

impl DeepView for ContainsRunner {
    type V = ContainsRunnerView;

    open spec fn deep_view(&self) -> ContainsRunnerView {
        ContainsRunnerView { runner: self.runner.deep_view() }
    }
}

impl Decode for ContainsRunner {
    open spec fn decoded(doc: JsonView) -> Option<ContainsRunnerView> {
        match required_member::<Runner>(doc, "runner"@) {
            Some(runner) => Some(ContainsRunnerView { runner }),
            None => None,
        }
    }

    fn from_json(doc: &Json) -> (r: Option<ContainsRunner>) {
        let runner = required::<Runner>(doc, "runner")?;
        Some(ContainsRunner { runner })
    }
}

/// An answer that holds a Game under `game`.
#[derive(Debug, PartialEq)]
pub struct ContainsGame {
    pub game: Game,
}

/// The mathematical value of a [`ContainsGame`].
pub struct ContainsGameView {
    pub game: GameView,
}

impl DeepView for ContainsGame {
    type V = ContainsGameView;

    open spec fn deep_view(&self) -> ContainsGameView {
        ContainsGameView { game: self.game.deep_view() }
    }
}

impl Decode for ContainsGame {
    open spec fn decoded(doc: JsonView) -> Option<ContainsGameView> {
        match required_member::<Game>(doc, "game"@) {
            Some(game) => Some(ContainsGameView { game }),
            None => None,
        }
    }

    fn from_json(doc: &Json) -> (r: Option<ContainsGame>) {
        let game = required::<Game>(doc, "game")?;
        Some(ContainsGame { game })
    }
}

/// An answer that holds a Category under `category`.
#[derive(Debug, PartialEq)]
pub struct ContainsCategory {
    pub category: Category,
}

/// The mathematical value of a [`ContainsCategory`].
pub struct ContainsCategoryView {
    pub category: CategoryView,
}

impl DeepView for ContainsCategory {
    type V = ContainsCategoryView;

    open spec fn deep_view(&self) -> ContainsCategoryView {
        ContainsCategoryView { category: self.category.deep_view() }
    }
}

impl Decode for ContainsCategory {
    open spec fn decoded(doc: JsonView) -> Option<ContainsCategoryView> {
        match required_member::<Category>(doc, "category"@) {
            Some(category) => Some(ContainsCategoryView { category }),
            None => None,
        }
    }

    fn from_json(doc: &Json) -> (r: Option<ContainsCategory>) {
        let category = required::<Category>(doc, "category")?;
        Some(ContainsCategory { category })
    }
}

/// An answer that holds a Race under `race`.
#[derive(Debug, PartialEq)]
pub struct ContainsRace {
    pub race: Race,
}

/// The mathematical value of a [`ContainsRace`].
pub struct ContainsRaceView {
    pub race: RaceView,
}

impl DeepView for ContainsRace {
    type V = ContainsRaceView;

    open spec fn deep_view(&self) -> ContainsRaceView {
        ContainsRaceView { race: self.race.deep_view() }
    }
}

impl Decode for ContainsRace {
    open spec fn decoded(doc: JsonView) -> Option<ContainsRaceView> {
        match required_member::<Race>(doc, "race"@) {
            Some(race) => Some(ContainsRaceView { race }),
            None => None,
        }
    }

    fn from_json(doc: &Json) -> (r: Option<ContainsRace>) {
        let race = required::<Race>(doc, "race")?;
        Some(ContainsRace { race })
    }
}

/// An answer that holds an Entry under `entry`.
#[derive(Debug, PartialEq)]
pub struct ContainsEntry {
    pub entry: Entry,
}

/// The mathematical value of a [`ContainsEntry`].
pub struct ContainsEntryView {
    pub entry: EntryView,
}

impl DeepView for ContainsEntry {
    type V = ContainsEntryView;

    open spec fn deep_view(&self) -> ContainsEntryView {
        ContainsEntryView { entry: self.entry.deep_view() }
    }
}

impl Decode for ContainsEntry {
    open spec fn decoded(doc: JsonView) -> Option<ContainsEntryView> {
        match required_member::<Entry>(doc, "entry"@) {
            Some(entry) => Some(ContainsEntryView { entry }),
            None => None,
        }
    }

    fn from_json(doc: &Json) -> (r: Option<ContainsEntry>) {
        let entry = required::<Entry>(doc, "entry")?;
        Some(ContainsEntry { entry })
    }
}

/// An answer that holds a Chat Message under `chat_message`.
#[derive(Debug, PartialEq)]
pub struct ContainsChatMessage {
    pub chat_message: ChatMessage,
}

/// The mathematical value of a [`ContainsChatMessage`].
pub struct ContainsChatMessageView {
    pub chat_message: ChatMessageView,
}

impl DeepView for ContainsChatMessage {
    type V = ContainsChatMessageView;

    open spec fn deep_view(&self) -> ContainsChatMessageView {
        ContainsChatMessageView { chat_message: self.chat_message.deep_view() }
    }
}

impl Decode for ContainsChatMessage {
    open spec fn decoded(doc: JsonView) -> Option<ContainsChatMessageView> {
        match required_member::<ChatMessage>(doc, "chat_message"@) {
            Some(chat_message) => Some(ContainsChatMessageView { chat_message }),
            None => None,
        }
    }

    fn from_json(doc: &Json) -> (r: Option<ContainsChatMessage>) {
        let chat_message = required::<ChatMessage>(doc, "chat_message")?;
        Some(ContainsChatMessage { chat_message })
    }
}

/// An answer that holds a list of Runs under `runs`.
#[derive(Debug, PartialEq)]
pub struct ContainsRuns {
    pub runs: Vec<Run>,
}

/// The mathematical value of a [`ContainsRuns`].
pub struct ContainsRunsView {
    pub runs: Seq<RunView>,
}

impl DeepView for ContainsRuns {
    type V = ContainsRunsView;

    open spec fn deep_view(&self) -> ContainsRunsView {
        ContainsRunsView { runs: self.runs.deep_view() }
    }
}

impl Decode for ContainsRuns {
    open spec fn decoded(doc: JsonView) -> Option<ContainsRunsView> {
        match required_member::<Vec<Run>>(doc, "runs"@) {
            Some(runs) => Some(ContainsRunsView { runs }),
            None => None,
        }
    }

    fn from_json(doc: &Json) -> (r: Option<ContainsRuns>) {
        let runs = required::<Vec<Run>>(doc, "runs")?;
        Some(ContainsRuns { runs })
    }
}

/// An answer that holds a list of personal bests under `pbs`.
#[derive(Debug, PartialEq)]
pub struct ContainsPBs {
    pub pbs: Vec<Run>,
}

/// The mathematical value of a [`ContainsPBs`].
pub struct ContainsPBsView {
    pub pbs: Seq<RunView>,
}

impl DeepView for ContainsPBs {
    type V = ContainsPBsView;

    open spec fn deep_view(&self) -> ContainsPBsView {
        ContainsPBsView { pbs: self.pbs.deep_view() }
    }
}

impl Decode for ContainsPBs {
    open spec fn decoded(doc: JsonView) -> Option<ContainsPBsView> {
        match required_member::<Vec<Run>>(doc, "pbs"@) {
            Some(pbs) => Some(ContainsPBsView { pbs }),
            None => None,
        }
    }

    fn from_json(doc: &Json) -> (r: Option<ContainsPBs>) {
        let pbs = required::<Vec<Run>>(doc, "pbs")?;
        Some(ContainsPBs { pbs })
    }
}

/// An answer that holds a list of Runners under `runners`.
#[derive(Debug, PartialEq)]
pub struct ContainsRunners {
    pub runners: Vec<Runner>,
}

/// The mathematical value of a [`ContainsRunners`].
pub struct ContainsRunnersView {
    pub runners: Seq<RunnerView>,
}

impl DeepView for ContainsRunners {
    type V = ContainsRunnersView;

    open spec fn deep_view(&self) -> ContainsRunnersView {
        ContainsRunnersView { runners: self.runners.deep_view() }
    }
}

impl Decode for ContainsRunners {
    open spec fn decoded(doc: JsonView) -> Option<ContainsRunnersView> {
        match required_member::<Vec<Runner>>(doc, "runners"@) {
            Some(runners) => Some(ContainsRunnersView { runners }),
            None => None,
        }
    }

    fn from_json(doc: &Json) -> (r: Option<ContainsRunners>) {
        let runners = required::<Vec<Runner>>(doc, "runners")?;
        Some(ContainsRunners { runners })
    }
}

/// An answer that holds a list of Games under `games`.
#[derive(Debug, PartialEq)]
pub struct ContainsGames {
    pub games: Vec<Game>,
}

/// The mathematical value of a [`ContainsGames`].
pub struct ContainsGamesView {
    pub games: Seq<GameView>,
}

impl DeepView for ContainsGames {
    type V = ContainsGamesView;

    open spec fn deep_view(&self) -> ContainsGamesView {
        ContainsGamesView { games: self.games.deep_view() }
    }
}

impl Decode for ContainsGames {
    open spec fn decoded(doc: JsonView) -> Option<ContainsGamesView> {
        match required_member::<Vec<Game>>(doc, "games"@) {
            Some(games) => Some(ContainsGamesView { games }),
            None => None,
        }
    }

    fn from_json(doc: &Json) -> (r: Option<ContainsGames>) {
        let games = required::<Vec<Game>>(doc, "games")?;
        Some(ContainsGames { games })
    }
}

/// An answer that holds a list of Categories under `categories`.
#[derive(Debug, PartialEq)]
pub struct ContainsCategories {
    pub categories: Vec<Category>,
}

/// The mathematical value of a [`ContainsCategories`].
pub struct ContainsCategoriesView {
    pub categories: Seq<CategoryView>,
}

impl DeepView for ContainsCategories {
    type V = ContainsCategoriesView;

    open spec fn deep_view(&self) -> ContainsCategoriesView {
        ContainsCategoriesView { categories: self.categories.deep_view() }
    }
}

impl Decode for ContainsCategories {
    open spec fn decoded(doc: JsonView) -> Option<ContainsCategoriesView> {
        match required_member::<Vec<Category>>(doc, "categories"@) {
            Some(categories) => Some(ContainsCategoriesView { categories }),
            None => None,
        }
    }

    fn from_json(doc: &Json) -> (r: Option<ContainsCategories>) {
        let categories = required::<Vec<Category>>(doc, "categories")?;
        Some(ContainsCategories { categories })
    }
}

/// An answer that holds a list of Races under `races`.
#[derive(Debug, PartialEq)]
pub struct ContainsRaces {
    pub races: Vec<Race>,
}

/// The mathematical value of a [`ContainsRaces`].
pub struct ContainsRacesView {
    pub races: Seq<RaceView>,
}

impl DeepView for ContainsRaces {
    type V = ContainsRacesView;

    open spec fn deep_view(&self) -> ContainsRacesView {
        ContainsRacesView { races: self.races.deep_view() }
    }
}

impl Decode for ContainsRaces {
    open spec fn decoded(doc: JsonView) -> Option<ContainsRacesView> {
        match required_member::<Vec<Race>>(doc, "races"@) {
            Some(races) => Some(ContainsRacesView { races }),
            None => None,
        }
    }

    fn from_json(doc: &Json) -> (r: Option<ContainsRaces>) {
        let races = required::<Vec<Race>>(doc, "races")?;
        Some(ContainsRaces { races })
    }
}

/// An answer that holds a list of Entries under `entries`.
#[derive(Debug, PartialEq)]
pub struct ContainsEntries {
    pub entries: Vec<Entry>,
}

/// The mathematical value of a [`ContainsEntries`].
pub struct ContainsEntriesView {
    pub entries: Seq<EntryView>,
}

impl DeepView for ContainsEntries {
    type V = ContainsEntriesView;

    open spec fn deep_view(&self) -> ContainsEntriesView {
        ContainsEntriesView { entries: self.entries.deep_view() }
    }
}

impl Decode for ContainsEntries {
    open spec fn decoded(doc: JsonView) -> Option<ContainsEntriesView> {
        match required_member::<Vec<Entry>>(doc, "entries"@) {
            Some(entries) => Some(ContainsEntriesView { entries }),
            None => None,
        }
    }

    fn from_json(doc: &Json) -> (r: Option<ContainsEntries>) {
        let entries = required::<Vec<Entry>>(doc, "entries")?;
        Some(ContainsEntries { entries })
    }
}

/// An answer that holds a list of Chat Messages under `chat_messages`.
#[derive(Debug, PartialEq)]
pub struct ContainsChatMessages {
    pub chat_messages: Vec<ChatMessage>,
}

/// The mathematical value of a [`ContainsChatMessages`].
pub struct ContainsChatMessagesView {
    pub chat_messages: Seq<ChatMessageView>,
}

impl DeepView for ContainsChatMessages {
    type V = ContainsChatMessagesView;

    open spec fn deep_view(&self) -> ContainsChatMessagesView {
        ContainsChatMessagesView { chat_messages: self.chat_messages.deep_view() }
    }
}

impl Decode for ContainsChatMessages {
    open spec fn decoded(doc: JsonView) -> Option<ContainsChatMessagesView> {
        match required_member::<Vec<ChatMessage>>(doc, "chat_messages"@) {
            Some(chat_messages) => Some(ContainsChatMessagesView { chat_messages }),
            None => None,
        }
    }

    fn from_json(doc: &Json) -> (r: Option<ContainsChatMessages>) {
        let chat_messages = required::<Vec<ChatMessage>>(doc, "chat_messages")?;
        Some(ContainsChatMessages { chat_messages })
    }
}

} // verus!
