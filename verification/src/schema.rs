//! The data that the service sends: categories, games, runs, runners, races
//! and what belongs to them.
//!
//! Each type comes with its mathematical value (its `deep_view`) and with
//! the rule by which it is read from a JSON document ([`Decode`]). A member
//! of an optional type may be missing or `null`; every other member must be
//! there. Members that the types do not name are passed over. Durations
//! are kept as the numbers that the document holds.

use vstd::prelude::*;
use crate::decode::optional;
use crate::decode::optional_member;
use crate::decode::required;
use crate::decode::required_member;
use crate::decode::Decode;
use crate::id::Uuid;
use crate::json::same_text;
use crate::json::Json;
use crate::json::JsonView;
use crate::json::Number;

verus! {

/// A Category is a ruleset for a Game (Any%, 100%, MST, etc.) and an optional
/// container for Runs.
#[derive(Debug, PartialEq)]
pub struct Category {
    /// The time and date at which this category was created on splits.io. This
    /// field conforms to ISO 8601.
    pub created_at: String,
    /// The unique ID of the category.
    pub id: String,
    /// The name of the category.
    pub name: String,
    /// The time and date at which this category was most recently modified on
    /// splits.io. This field conforms to ISO 8601.
    pub updated_at: String,
}

/// The mathematical value of a [`Category`].
pub struct CategoryView {
    pub created_at: Seq<char>,
    pub id: Seq<char>,
    pub name: Seq<char>,
    pub updated_at: Seq<char>,
}

impl DeepView for Category {
    type V = CategoryView;

    open spec fn deep_view(&self) -> CategoryView {
        CategoryView {
            created_at: self.created_at.deep_view(),
            id: self.id.deep_view(),
            name: self.name.deep_view(),
            updated_at: self.updated_at.deep_view(),
        }
    }
}

impl Decode for Category {
    open spec fn decoded(doc: JsonView) -> Option<CategoryView> {
        if required_member::<String>(doc, "created_at"@) is Some
            && required_member::<String>(doc, "id"@) is Some
            && required_member::<String>(doc, "name"@) is Some
            && required_member::<String>(doc, "updated_at"@) is Some
        {
            Some(
                CategoryView {
                    created_at: required_member::<String>(doc, "created_at"@)->0,
                    id: required_member::<String>(doc, "id"@)->0,
                    name: required_member::<String>(doc, "name"@)->0,
                    updated_at: required_member::<String>(doc, "updated_at"@)->0,
                },
            )
        } else {
            None
        }
    }

    fn from_json(doc: &Json) -> (r: Option<Category>) {
        let created_at = required::<String>(doc, "created_at")?;
        let id = required::<String>(doc, "id")?;
        let name = required::<String>(doc, "name")?;
        let updated_at = required::<String>(doc, "updated_at")?;
        Some(Category { created_at, id, name, updated_at })
    }
}

/// A Chat Message is a shortform message sent by a user to a Race
#[derive(Debug, PartialEq)]
pub struct ChatMessage {
    /// The contents of the message.
    pub body: String,
    /// The time and date at which this message was created on splits.io. This
    /// field conforms to ISO 8601.
    pub created_at: String,
    /// Boolean indicating whether the sender was in the race when the message
    /// was sent.
    pub from_entrant: bool,
    /// The time and date at which this message was most recently modified on
    /// splits.io. This field conforms to ISO 8601.
    pub updated_at: String,
    /// The Runner that sent the message.
    pub user: Runner,
}

/// The mathematical value of a [`ChatMessage`].
pub struct ChatMessageView {
    pub body: Seq<char>,
    pub created_at: Seq<char>,
    pub from_entrant: bool,
    pub updated_at: Seq<char>,
    pub user: RunnerView,
}

impl DeepView for ChatMessage {
    type V = ChatMessageView;

    open spec fn deep_view(&self) -> ChatMessageView {
        ChatMessageView {
            body: self.body.deep_view(),
            created_at: self.created_at.deep_view(),
            from_entrant: self.from_entrant.deep_view(),
            updated_at: self.updated_at.deep_view(),
            user: self.user.deep_view(),
        }
    }
}

impl Decode for ChatMessage {
    open spec fn decoded(doc: JsonView) -> Option<ChatMessageView> {
        if required_member::<String>(doc, "body"@) is Some
            && required_member::<String>(doc, "created_at"@) is Some
            && required_member::<bool>(doc, "from_entrant"@) is Some
            && required_member::<String>(doc, "updated_at"@) is Some
            && required_member::<Runner>(doc, "user"@) is Some
        {
            Some(
                ChatMessageView {
                    body: required_member::<String>(doc, "body"@)->0,
                    created_at: required_member::<String>(doc, "created_at"@)->0,
                    from_entrant: required_member::<bool>(doc, "from_entrant"@)->0,
                    updated_at: required_member::<String>(doc, "updated_at"@)->0,
                    user: required_member::<Runner>(doc, "user"@)->0,
                },
            )
        } else {
            None
        }
    }

    fn from_json(doc: &Json) -> (r: Option<ChatMessage>) {
        let body = required::<String>(doc, "body")?;
        let created_at = required::<String>(doc, "created_at")?;
        let from_entrant = required::<bool>(doc, "from_entrant")?;
        let updated_at = required::<String>(doc, "updated_at")?;
        let user = required::<Runner>(doc, "user")?;
        Some(ChatMessage { body, created_at, from_entrant, updated_at, user })
    }
}

/// An Entry represents a Runner's participation in a Race or a ghost of a past
/// Run.
#[derive(Debug, PartialEq)]
pub struct Entry {
    /// The time and date at which this Entry was created on splits.io. This
    /// field conforms to ISO 8601.
    pub created_at: String,
    /// The user that created this Entry; can be different from runner if the
    /// Entry is a ghost.
    pub creator: Runner,
    /// The time and date at which the runner finished this Race, if at all.
    /// This field conforms to ISO 8601.
    pub finished_at: Option<String>,
    /// The time and date at which the runner forfeited from this Race, if at
    /// all. This field conforms to ISO 8601.
    pub forfeited_at: Option<String>,
    /// Whether the Entry represents a past recording of a run (true) or a real
    /// user that has entered into the race explicitly (false).
    pub is_ghost: bool,
    /// The unchanging unique ID of this Entry.
    pub id: Uuid,
    /// The time and date at which the runner readied up in the Race, if at all.
    /// This field conforms to ISO 8601.
    pub readied_at: Option<String>,
    /// The Run linked to the current Entry. It has more detailed info about
    /// this runner's run, such as splits and history.
    pub run: Option<Run>,
    /// The user participating in the race. If the entry is a ghost, this can
    /// differ from the creator.
    pub runner: Runner,
    /// The time and date at which this Entry was most recently modified on
    /// splits.io. This field conforms to ISO 8601.
    pub updated_at: String,
}

/// The mathematical value of a [`Entry`].
pub struct EntryView {
    pub created_at: Seq<char>,
    pub creator: RunnerView,
    pub finished_at: Option<Seq<char>>,
    pub forfeited_at: Option<Seq<char>>,
    pub is_ghost: bool,
    pub id: Uuid,
    pub readied_at: Option<Seq<char>>,
    pub run: Option<RunView>,
    pub runner: RunnerView,
    pub updated_at: Seq<char>,
}

impl DeepView for Entry {
    type V = EntryView;

    open spec fn deep_view(&self) -> EntryView {
        EntryView {
            created_at: self.created_at.deep_view(),
            creator: self.creator.deep_view(),
            finished_at: self.finished_at.deep_view(),
            forfeited_at: self.forfeited_at.deep_view(),
            is_ghost: self.is_ghost.deep_view(),
            id: self.id.deep_view(),
            readied_at: self.readied_at.deep_view(),
            run: self.run.deep_view(),
            runner: self.runner.deep_view(),
            updated_at: self.updated_at.deep_view(),
        }
    }
}

impl Decode for Entry {
    open spec fn decoded(doc: JsonView) -> Option<EntryView> {
        if required_member::<String>(doc, "created_at"@) is Some
            && required_member::<Runner>(doc, "creator"@) is Some
            && optional_member::<String>(doc, "finished_at"@) is Some
            && optional_member::<String>(doc, "forfeited_at"@) is Some
            && required_member::<bool>(doc, "ghost"@) is Some
            && required_member::<Uuid>(doc, "id"@) is Some
            && optional_member::<String>(doc, "readied_at"@) is Some
            && optional_member::<Run>(doc, "run"@) is Some
            && required_member::<Runner>(doc, "runner"@) is Some
            && required_member::<String>(doc, "updated_at"@) is Some
        {
            Some(
                EntryView {
                    created_at: required_member::<String>(doc, "created_at"@)->0,
                    creator: required_member::<Runner>(doc, "creator"@)->0,
                    finished_at: optional_member::<String>(doc, "finished_at"@)->0,
                    forfeited_at: optional_member::<String>(doc, "forfeited_at"@)->0,
                    is_ghost: required_member::<bool>(doc, "ghost"@)->0,
                    id: required_member::<Uuid>(doc, "id"@)->0,
                    readied_at: optional_member::<String>(doc, "readied_at"@)->0,
                    run: optional_member::<Run>(doc, "run"@)->0,
                    runner: required_member::<Runner>(doc, "runner"@)->0,
                    updated_at: required_member::<String>(doc, "updated_at"@)->0,
                },
            )
        } else {
            None
        }
    }

    fn from_json(doc: &Json) -> (r: Option<Entry>) {
        let created_at = required::<String>(doc, "created_at")?;
        let creator = required::<Runner>(doc, "creator")?;
        let finished_at = optional::<String>(doc, "finished_at")?;
        let forfeited_at = optional::<String>(doc, "forfeited_at")?;
        let is_ghost = required::<bool>(doc, "ghost")?;
        let id = required::<Uuid>(doc, "id")?;
        let readied_at = optional::<String>(doc, "readied_at")?;
        let run = optional::<Run>(doc, "run")?;
        let runner = required::<Runner>(doc, "runner")?;
        let updated_at = required::<String>(doc, "updated_at")?;
        Some(
            Entry {
                created_at,
                creator,
                finished_at,
                forfeited_at,
                is_ghost,
                id,
                readied_at,
                run,
                runner,
                updated_at,
            },
        )
    }
}

/// A Game is a collection of information about a game, and a container for
/// Categories.
#[derive(Debug, PartialEq)]
pub struct Game {
    /// The known speedrun categories for this game.
    pub categories: Option<Vec<Category>>,
    /// The time and date at which this game was created on splits.io. This
    /// field conforms to ISO 8601.
    pub created_at: String,
    /// The unique ID of the game.
    pub id: String,
    /// The full title of the game, like "Super Mario Sunshine".
    pub name: String,
    /// A shortened title of the game, like "sms", if it is known. Where
    /// possible, this name tries to match with those on SpeedRunsLive and/or
    /// Speedrun.com.
    pub shortname: Option<String>,
    /// The time and date at which this game was most recently modified on
    /// splits.io. This field conforms to ISO 8601.
    pub updated_at: String,
}

/// The mathematical value of a [`Game`].
pub struct GameView {
    pub categories: Option<Seq<CategoryView>>,
    pub created_at: Seq<char>,
    pub id: Seq<char>,
    pub name: Seq<char>,
    pub shortname: Option<Seq<char>>,
    pub updated_at: Seq<char>,
}

impl DeepView for Game {
    type V = GameView;

    open spec fn deep_view(&self) -> GameView {
        GameView {
            categories: self.categories.deep_view(),
            created_at: self.created_at.deep_view(),
            id: self.id.deep_view(),
            name: self.name.deep_view(),
            shortname: self.shortname.deep_view(),
            updated_at: self.updated_at.deep_view(),
        }
    }
}

impl Decode for Game {
    open spec fn decoded(doc: JsonView) -> Option<GameView> {
        if optional_member::<Vec<Category>>(doc, "categories"@) is Some
            && required_member::<String>(doc, "created_at"@) is Some
            && required_member::<String>(doc, "id"@) is Some
            && required_member::<String>(doc, "name"@) is Some
            && optional_member::<String>(doc, "shortname"@) is Some
            && required_member::<String>(doc, "updated_at"@) is Some
        {
            Some(
                GameView {
                    categories: optional_member::<Vec<Category>>(doc, "categories"@)->0,
                    created_at: required_member::<String>(doc, "created_at"@)->0,
                    id: required_member::<String>(doc, "id"@)->0,
                    name: required_member::<String>(doc, "name"@)->0,
                    shortname: optional_member::<String>(doc, "shortname"@)->0,
                    updated_at: required_member::<String>(doc, "updated_at"@)->0,
                },
            )
        } else {
            None
        }
    }

    fn from_json(doc: &Json) -> (r: Option<Game>) {
        let categories = optional::<Vec<Category>>(doc, "categories")?;
        let created_at = required::<String>(doc, "created_at")?;
        let id = required::<String>(doc, "id")?;
        let name = required::<String>(doc, "name")?;
        let shortname = optional::<String>(doc, "shortname")?;
        let updated_at = required::<String>(doc, "updated_at")?;
        Some(Game { categories, created_at, id, name, shortname, updated_at })
    }
}

/// Information about a past attempt associated with a Run.
#[derive(Debug, PartialEq)]
pub struct RunItemHistories {
    /// The corresponding attempt number this attempt was.
    pub attempt_number: u32,
    /// The gametime duration this attempt took in milliseconds.
    pub gametime_duration_ms: Number,
    /// The realtime duration this attempt took in milliseconds.
    pub realtime_duration_ms: Number,
}

/// The mathematical value of a [`RunItemHistories`].
pub struct RunItemHistoriesView {
    pub attempt_number: u32,
    pub gametime_duration_ms: Number,
    pub realtime_duration_ms: Number,
}

impl DeepView for RunItemHistories {
    type V = RunItemHistoriesView;

    open spec fn deep_view(&self) -> RunItemHistoriesView {
        RunItemHistoriesView {
            attempt_number: self.attempt_number.deep_view(),
            gametime_duration_ms: self.gametime_duration_ms.deep_view(),
            realtime_duration_ms: self.realtime_duration_ms.deep_view(),
        }
    }
}

impl Decode for RunItemHistories {
    open spec fn decoded(doc: JsonView) -> Option<RunItemHistoriesView> {
        if required_member::<u32>(doc, "attempt_number"@) is Some
            && required_member::<Number>(doc, "gametime_duration_ms"@) is Some
            && required_member::<Number>(doc, "realtime_duration_ms"@) is Some
        {
            Some(
                RunItemHistoriesView {
                    attempt_number: required_member::<u32>(doc, "attempt_number"@)->0,
                    gametime_duration_ms: required_member::<Number>(
                        doc,
                        "gametime_duration_ms"@,
                    )->0,
                    realtime_duration_ms: required_member::<Number>(
                        doc,
                        "realtime_duration_ms"@,
                    )->0,
                },
            )
        } else {
            None
        }
    }

    fn from_json(doc: &Json) -> (r: Option<RunItemHistories>) {
        let attempt_number = required::<u32>(doc, "attempt_number")?;
        let gametime_duration_ms = required::<Number>(doc, "gametime_duration_ms")?;
        let realtime_duration_ms = required::<Number>(doc, "realtime_duration_ms")?;
        Some(RunItemHistories { attempt_number, gametime_duration_ms, realtime_duration_ms })
    }
}

/// A Run maps 1:1 to an uploaded splits file.
#[derive(Debug, PartialEq)]
pub struct Run {
    /// The number of run attempts recorded by the timer that generated the
    /// run's source file, if supported by the source timer.
    pub attempts: Option<u32>,
    /// The category which was run, if it was supplied by the runner and
    /// determined from the source file.
    pub category: Option<Category>,
    /// The time and date at which this run's source file was uploaded to
    /// splits.io. This field conforms to ISO 8601.
    pub created_at: String,
    /// The timing method used for the run. Will be either real or game.
    pub default_timing: String,
    /// The game which was run, if it was supplied by the runner and determined
    /// from the source file.
    pub game: Option<Game>,
    /// Gametime duration in milliseconds of the run.
    pub gametime_duration_ms: Option<Number>,
    /// Gametime sum of best in milliseconds of the run.
    pub gametime_sum_of_best_ms: Option<Number>,
    /// Ordered history objects of all previous attempts. The first item is the
    /// first run recorded by the runner's timer into the source file. The last
    /// item is the most recent one. This field is only nonempty if the source
    /// timer records history.
    pub histories: Option<Vec<RunItemHistories>>,
    /// Unique ID for identifying the run on splits.io. This can be used to
    /// construct a user-facing URL or an API-facing one.
    pub id: Option<String>,
    /// A screenshot of the timer after a finished run, if it was supplied by
    /// the runner. This is typically supplied automatically by timers which
    /// support auto-uploading runs to splits.io.
    pub image_url: Option<String>,
    /// The name of the timer with which the run was recorded. This is typically
    /// an all lowercase, no-spaces version of the program name.
    pub program: String,
    /// Realtime duration in milliseconds of the run.
    pub realtime_duration_ms: Option<Number>,
    /// Realtime sum of best in milliseconds of the run.
    pub realtime_sum_of_best_ms: Option<Number>,
    /// The runner(s) who performed the run, if they claim credit.
    pub runners: Vec<Runner>,
    /// The associated segments for the run.
    pub segments: Vec<Segment>,
    /// Unique ID for identifying the run on Speedrun.com. This is typically
    /// supplied by the runner manually.
    pub srdc_id: Option<String>,
    /// The time and date at which this run was most recently modified on
    /// splits.io (modify events include disowning, adding a video or
    /// Speedrun.com association, and changing the run's game/category). This
    /// field conforms to ISO 8601.
    pub updated_at: String,
    /// A URL for a Twitch, YouTube, or Hitbox video which can be used as proof
    /// of the run. This is supplied by the runner.
    pub video_url: Option<String>,
}

/// The mathematical value of a [`Run`].
pub struct RunView {
    pub attempts: Option<u32>,
    pub category: Option<CategoryView>,
    pub created_at: Seq<char>,
    pub default_timing: Seq<char>,
    pub game: Option<GameView>,
    pub gametime_duration_ms: Option<Number>,
    pub gametime_sum_of_best_ms: Option<Number>,
    pub histories: Option<Seq<RunItemHistoriesView>>,
    pub id: Option<Seq<char>>,
    pub image_url: Option<Seq<char>>,
    pub program: Seq<char>,
    pub realtime_duration_ms: Option<Number>,
    pub realtime_sum_of_best_ms: Option<Number>,
    pub runners: Seq<RunnerView>,
    pub segments: Seq<SegmentView>,
    pub srdc_id: Option<Seq<char>>,
    pub updated_at: Seq<char>,
    pub video_url: Option<Seq<char>>,
}

impl DeepView for Run {
    type V = RunView;

    open spec fn deep_view(&self) -> RunView {
        RunView {
            attempts: self.attempts.deep_view(),
            category: self.category.deep_view(),
            created_at: self.created_at.deep_view(),
            default_timing: self.default_timing.deep_view(),
            game: self.game.deep_view(),
            gametime_duration_ms: self.gametime_duration_ms.deep_view(),
            gametime_sum_of_best_ms: self.gametime_sum_of_best_ms.deep_view(),
            histories: self.histories.deep_view(),
            id: self.id.deep_view(),
            image_url: self.image_url.deep_view(),
            program: self.program.deep_view(),
            realtime_duration_ms: self.realtime_duration_ms.deep_view(),
            realtime_sum_of_best_ms: self.realtime_sum_of_best_ms.deep_view(),
            runners: self.runners.deep_view(),
            segments: self.segments.deep_view(),
            srdc_id: self.srdc_id.deep_view(),
            updated_at: self.updated_at.deep_view(),
            video_url: self.video_url.deep_view(),
        }
    }
}

impl Decode for Run {
    open spec fn decoded(doc: JsonView) -> Option<RunView> {
        if optional_member::<u32>(doc, "attempts"@) is Some
            && optional_member::<Category>(doc, "category"@) is Some
            && required_member::<String>(doc, "created_at"@) is Some
            && required_member::<String>(doc, "default_timing"@) is Some
            && optional_member::<Game>(doc, "game"@) is Some
            && optional_member::<Number>(doc, "gametime_duration_ms"@) is Some
            && optional_member::<Number>(doc, "gametime_sum_of_best_ms"@) is Some
            && optional_member::<Vec<RunItemHistories>>(doc, "histories"@) is Some
            && optional_member::<String>(doc, "id"@) is Some
            && optional_member::<String>(doc, "image_url"@) is Some
            && required_member::<String>(doc, "program"@) is Some
            && optional_member::<Number>(doc, "realtime_duration_ms"@) is Some
            && optional_member::<Number>(doc, "realtime_sum_of_best_ms"@) is Some
            && required_member::<Vec<Runner>>(doc, "runners"@) is Some
            && required_member::<Vec<Segment>>(doc, "segments"@) is Some
            && optional_member::<String>(doc, "srdc_id"@) is Some
            && required_member::<String>(doc, "updated_at"@) is Some
            && optional_member::<String>(doc, "video_url"@) is Some
        {
            Some(
                RunView {
                    attempts: optional_member::<u32>(doc, "attempts"@)->0,
                    category: optional_member::<Category>(doc, "category"@)->0,
                    created_at: required_member::<String>(doc, "created_at"@)->0,
                    default_timing: required_member::<String>(doc, "default_timing"@)->0,
                    game: optional_member::<Game>(doc, "game"@)->0,
                    gametime_duration_ms: optional_member::<Number>(
                        doc,
                        "gametime_duration_ms"@,
                    )->0,
                    gametime_sum_of_best_ms: optional_member::<Number>(
                        doc,
                        "gametime_sum_of_best_ms"@,
                    )->0,
                    histories: optional_member::<Vec<RunItemHistories>>(doc, "histories"@)->0,
                    id: optional_member::<String>(doc, "id"@)->0,
                    image_url: optional_member::<String>(doc, "image_url"@)->0,
                    program: required_member::<String>(doc, "program"@)->0,
                    realtime_duration_ms: optional_member::<Number>(
                        doc,
                        "realtime_duration_ms"@,
                    )->0,
                    realtime_sum_of_best_ms: optional_member::<Number>(
                        doc,
                        "realtime_sum_of_best_ms"@,
                    )->0,
                    runners: required_member::<Vec<Runner>>(doc, "runners"@)->0,
                    segments: required_member::<Vec<Segment>>(doc, "segments"@)->0,
                    srdc_id: optional_member::<String>(doc, "srdc_id"@)->0,
                    updated_at: required_member::<String>(doc, "updated_at"@)->0,
                    video_url: optional_member::<String>(doc, "video_url"@)->0,
                },
            )
        } else {
            None
        }
    }

    fn from_json(doc: &Json) -> (r: Option<Run>) {
        let attempts = optional::<u32>(doc, "attempts")?;
        let category = optional::<Category>(doc, "category")?;
        let created_at = required::<String>(doc, "created_at")?;
        let default_timing = required::<String>(doc, "default_timing")?;
        let game = optional::<Game>(doc, "game")?;
        let gametime_duration_ms = optional::<Number>(doc, "gametime_duration_ms")?;
        let gametime_sum_of_best_ms = optional::<Number>(doc, "gametime_sum_of_best_ms")?;
        let histories = optional::<Vec<RunItemHistories>>(doc, "histories")?;
        let id = optional::<String>(doc, "id")?;
        let image_url = optional::<String>(doc, "image_url")?;
        let program = required::<String>(doc, "program")?;
        let realtime_duration_ms = optional::<Number>(doc, "realtime_duration_ms")?;
        let realtime_sum_of_best_ms = optional::<Number>(doc, "realtime_sum_of_best_ms")?;
        let runners = required::<Vec<Runner>>(doc, "runners")?;
        let segments = required::<Vec<Segment>>(doc, "segments")?;
        let srdc_id = optional::<String>(doc, "srdc_id")?;
        let updated_at = required::<String>(doc, "updated_at")?;
        let video_url = optional::<String>(doc, "video_url")?;
        Some(
            Run {
                attempts,
                category,
                created_at,
                default_timing,
                game,
                gametime_duration_ms,
                gametime_sum_of_best_ms,
                histories,
                id,
                image_url,
                program,
                realtime_duration_ms,
                realtime_sum_of_best_ms,
                runners,
                segments,
                srdc_id,
                updated_at,
                video_url,
            },
        )
    }
}

/// A Runner is a user who has at least one run tied to their account.
#[derive(Debug, PartialEq)]
pub struct Runner {
    /// The avatar of the user.
    pub avatar: Option<String>,
    /// The time and date at which this user first authenticated with splits.io.
    /// This field conforms to ISO 8601.
    pub created_at: String,
    /// The display name of the user.
    pub display_name: Option<String>,
    /// The unique ID of the user.
    pub id: String,
    /// The splits.io username of the user.
    pub name: String,
    /// The Twitch ID of the user.
    pub twitch_id: Option<String>,
    /// The Twitch name of the user.
    pub twitch_name: Option<String>,
    /// The time and date at which this user was most recently modified on
    /// splits.io. This field conforms to ISO 8601.
    pub updated_at: String,
}

/// The mathematical value of a [`Runner`].
pub struct RunnerView {
    pub avatar: Option<Seq<char>>,
    pub created_at: Seq<char>,
    pub display_name: Option<Seq<char>>,
    pub id: Seq<char>,
    pub name: Seq<char>,
    pub twitch_id: Option<Seq<char>>,
    pub twitch_name: Option<Seq<char>>,
    pub updated_at: Seq<char>,
}

impl DeepView for Runner {
    type V = RunnerView;

    open spec fn deep_view(&self) -> RunnerView {
        RunnerView {
            avatar: self.avatar.deep_view(),
            created_at: self.created_at.deep_view(),
            display_name: self.display_name.deep_view(),
            id: self.id.deep_view(),
            name: self.name.deep_view(),
            twitch_id: self.twitch_id.deep_view(),
            twitch_name: self.twitch_name.deep_view(),
            updated_at: self.updated_at.deep_view(),
        }
    }
}

impl Decode for Runner {
    open spec fn decoded(doc: JsonView) -> Option<RunnerView> {
        if optional_member::<String>(doc, "avatar"@) is Some
            && required_member::<String>(doc, "created_at"@) is Some
            && optional_member::<String>(doc, "display_name"@) is Some
            && required_member::<String>(doc, "id"@) is Some
            && required_member::<String>(doc, "name"@) is Some
            && optional_member::<String>(doc, "twitch_id"@) is Some
            && optional_member::<String>(doc, "twitch_name"@) is Some
            && required_member::<String>(doc, "updated_at"@) is Some
        {
            Some(
                RunnerView {
                    avatar: optional_member::<String>(doc, "avatar"@)->0,
                    created_at: required_member::<String>(doc, "created_at"@)->0,
                    display_name: optional_member::<String>(doc, "display_name"@)->0,
                    id: required_member::<String>(doc, "id"@)->0,
                    name: required_member::<String>(doc, "name"@)->0,
                    twitch_id: optional_member::<String>(doc, "twitch_id"@)->0,
                    twitch_name: optional_member::<String>(doc, "twitch_name"@)->0,
                    updated_at: required_member::<String>(doc, "updated_at"@)->0,
                },
            )
        } else {
            None
        }
    }

    fn from_json(doc: &Json) -> (r: Option<Runner>) {
        let avatar = optional::<String>(doc, "avatar")?;
        let created_at = required::<String>(doc, "created_at")?;
        let display_name = optional::<String>(doc, "display_name")?;
        let id = required::<String>(doc, "id")?;
        let name = required::<String>(doc, "name")?;
        let twitch_id = optional::<String>(doc, "twitch_id")?;
        let twitch_name = optional::<String>(doc, "twitch_name")?;
        let updated_at = required::<String>(doc, "updated_at")?;
        Some(
            Runner {
                avatar,
                created_at,
                display_name,
                id,
                name,
                twitch_id,
                twitch_name,
                updated_at,
            },
        )
    }
}

/// Information about a past attempt of a segment.
#[derive(Debug, PartialEq)]
pub struct SegmentItemHistories {
    /// The corresponding attempt number this attempt was.
    pub attempt_number: u32,
    /// The gametime duration this attempt took in milliseconds.
    pub gametime_duration_ms: Number,
    /// The realtime duration this attempt took in milliseconds.
    pub realtime_duration_ms: Number,
}

/// The mathematical value of a [`SegmentItemHistories`].
pub struct SegmentItemHistoriesView {
    pub attempt_number: u32,
    pub gametime_duration_ms: Number,
    pub realtime_duration_ms: Number,
}

impl DeepView for SegmentItemHistories {
    type V = SegmentItemHistoriesView;

    open spec fn deep_view(&self) -> SegmentItemHistoriesView {
        SegmentItemHistoriesView {
            attempt_number: self.attempt_number.deep_view(),
            gametime_duration_ms: self.gametime_duration_ms.deep_view(),
            realtime_duration_ms: self.realtime_duration_ms.deep_view(),
        }
    }
}

impl Decode for SegmentItemHistories {
    open spec fn decoded(doc: JsonView) -> Option<SegmentItemHistoriesView> {
        if required_member::<u32>(doc, "attempt_number"@) is Some
            && required_member::<Number>(doc, "gametime_duration_ms"@) is Some
            && required_member::<Number>(doc, "realtime_duration_ms"@) is Some
        {
            Some(
                SegmentItemHistoriesView {
                    attempt_number: required_member::<u32>(doc, "attempt_number"@)->0,
                    gametime_duration_ms: required_member::<Number>(
                        doc,
                        "gametime_duration_ms"@,
                    )->0,
                    realtime_duration_ms: required_member::<Number>(
                        doc,
                        "realtime_duration_ms"@,
                    )->0,
                },
            )
        } else {
            None
        }
    }

    fn from_json(doc: &Json) -> (r: Option<SegmentItemHistories>) {
        let attempt_number = required::<u32>(doc, "attempt_number")?;
        let gametime_duration_ms = required::<Number>(doc, "gametime_duration_ms")?;
        let realtime_duration_ms = required::<Number>(doc, "realtime_duration_ms")?;
        Some(SegmentItemHistories { attempt_number, gametime_duration_ms, realtime_duration_ms })
    }
}

/// A Segment maps to a single piece of a run, also called a split.
#[derive(Debug, PartialEq)]
pub struct Segment {
    /// Gametime duration in milliseconds of the segment.
    pub gametime_duration_ms: Option<Number>,
    /// The total elapsed time of the run at the moment when this segment was
    /// finished in gametime (such that the run's duration is equal to the final
    /// split's finish time). Provided in milliseconds.
    pub gametime_end_ms: Option<Number>,
    /// Whether or not this split was the shortest duration the runner has ever
    /// gotten on this segment in gametime. This field is shorthand for duration
    /// == best.
    pub gametime_gold: bool,
    /// Whether or not this segment was "reduced" in gametime; that is, had its
    /// duration affected by previous splits being skipped.
    pub gametime_reduced: bool,
    /// The shortest duration the runner has ever gotten on this segment in
    /// gametime. Provided in milliseconds.
    pub gametime_shortest_duration_ms: Option<Number>,
    /// Whether or not this split was skipped in gametime -- some timers let the
    /// runner skip over a split in case they forgot to hit their split button
    /// on time. Beware that a skipped split's duration is considered 0, and
    /// instead is rolled into the following split.
    pub gametime_skipped: bool,
    /// The total elapsed time of the run at the moment when this segment was
    /// started in gametime. Provided in milliseconds.
    pub gametime_start_ms: Option<Number>,
    /// Ordered history objects of all previous attempts of the segment. The
    /// first item is the first run recorded by the runner's timer into the
    /// source file. The last item is the most recent one. This field is only
    /// nonempty if the source timer records history.
    pub histories: Option<Vec<SegmentItemHistories>>,
    /// Internal ID of the segment.
    pub id: Uuid,
    /// Name of the segment. This value is an exact copy of timers' fields.
    pub name: String,
    /// Realtime duration in milliseconds of the segment.
    pub realtime_duration_ms: Number,
    /// The total elapsed time of the run at the moment when this segment was
    /// finished in realtime (such that the run's duration is equal to the final
    /// split's finish time). Provided in milliseconds.
    pub realtime_end_ms: Number,
    /// Whether or not this split was the shortest duration the runner has ever
    /// gotten on this segment in realtime. This field is shorthand for
    /// realtime_duration_ms == realtime_shortest_duration_ms.
    pub realtime_gold: bool,
    /// Whether or not this segment was "reduced" in realtime; that is, had its
    /// duration affected by previous splits being skipped.
    pub realtime_reduced: bool,
    /// The shortest duration the runner has ever gotten on this segment in
    /// realtime. Provided in milliseconds.
    pub realtime_shortest_duration_ms: Option<Number>,
    /// Whether or not this split was skipped in realtime -- some timers let the
    /// runner skip over a split in case they forgot to hit their split button
    /// on time. Beware that a skipped split's duration is considered 0, and
    /// instead is rolled into the following split.
    pub realtime_skipped: bool,
    /// The total elapsed time of the run at the moment when this segment was
    /// started in realtime. Provided in milliseconds.
    pub realtime_start_ms: Number,
    /// The index of the segment within the run. (This value starts at 0.)
    pub segment_number: u32,
}

/// The mathematical value of a [`Segment`].
pub struct SegmentView {
    pub gametime_duration_ms: Option<Number>,
    pub gametime_end_ms: Option<Number>,
    pub gametime_gold: bool,
    pub gametime_reduced: bool,
    pub gametime_shortest_duration_ms: Option<Number>,
    pub gametime_skipped: bool,
    pub gametime_start_ms: Option<Number>,
    pub histories: Option<Seq<SegmentItemHistoriesView>>,
    pub id: Uuid,
    pub name: Seq<char>,
    pub realtime_duration_ms: Number,
    pub realtime_end_ms: Number,
    pub realtime_gold: bool,
    pub realtime_reduced: bool,
    pub realtime_shortest_duration_ms: Option<Number>,
    pub realtime_skipped: bool,
    pub realtime_start_ms: Number,
    pub segment_number: u32,
}

impl DeepView for Segment {
    type V = SegmentView;

    open spec fn deep_view(&self) -> SegmentView {
        SegmentView {
            gametime_duration_ms: self.gametime_duration_ms.deep_view(),
            gametime_end_ms: self.gametime_end_ms.deep_view(),
            gametime_gold: self.gametime_gold.deep_view(),
            gametime_reduced: self.gametime_reduced.deep_view(),
            gametime_shortest_duration_ms: self.gametime_shortest_duration_ms.deep_view(),
            gametime_skipped: self.gametime_skipped.deep_view(),
            gametime_start_ms: self.gametime_start_ms.deep_view(),
            histories: self.histories.deep_view(),
            id: self.id.deep_view(),
            name: self.name.deep_view(),
            realtime_duration_ms: self.realtime_duration_ms.deep_view(),
            realtime_end_ms: self.realtime_end_ms.deep_view(),
            realtime_gold: self.realtime_gold.deep_view(),
            realtime_reduced: self.realtime_reduced.deep_view(),
            realtime_shortest_duration_ms: self.realtime_shortest_duration_ms.deep_view(),
            realtime_skipped: self.realtime_skipped.deep_view(),
            realtime_start_ms: self.realtime_start_ms.deep_view(),
            segment_number: self.segment_number.deep_view(),
        }
    }
}

impl Decode for Segment {
    open spec fn decoded(doc: JsonView) -> Option<SegmentView> {
        if optional_member::<Number>(doc, "gametime_duration_ms"@) is Some
            && optional_member::<Number>(doc, "gametime_end_ms"@) is Some
            && required_member::<bool>(doc, "gametime_gold"@) is Some
            && required_member::<bool>(doc, "gametime_reduced"@) is Some
            && optional_member::<Number>(doc, "gametime_shortest_duration_ms"@) is Some
            && required_member::<bool>(doc, "gametime_skipped"@) is Some
            && optional_member::<Number>(doc, "gametime_start_ms"@) is Some
            && optional_member::<Vec<SegmentItemHistories>>(doc, "histories"@) is Some
            && required_member::<Uuid>(doc, "id"@) is Some
            && required_member::<String>(doc, "name"@) is Some
            && required_member::<Number>(doc, "realtime_duration_ms"@) is Some
            && required_member::<Number>(doc, "realtime_end_ms"@) is Some
            && required_member::<bool>(doc, "realtime_gold"@) is Some
            && required_member::<bool>(doc, "realtime_reduced"@) is Some
            && optional_member::<Number>(doc, "realtime_shortest_duration_ms"@) is Some
            && required_member::<bool>(doc, "realtime_skipped"@) is Some
            && required_member::<Number>(doc, "realtime_start_ms"@) is Some
            && required_member::<u32>(doc, "segment_number"@) is Some
        {
            Some(
                SegmentView {
                    gametime_duration_ms: optional_member::<Number>(
                        doc,
                        "gametime_duration_ms"@,
                    )->0,
                    gametime_end_ms: optional_member::<Number>(doc, "gametime_end_ms"@)->0,
                    gametime_gold: required_member::<bool>(doc, "gametime_gold"@)->0,
                    gametime_reduced: required_member::<bool>(doc, "gametime_reduced"@)->0,
                    gametime_shortest_duration_ms: optional_member::<Number>(
                        doc,
                        "gametime_shortest_duration_ms"@,
                    )->0,
                    gametime_skipped: required_member::<bool>(doc, "gametime_skipped"@)->0,
                    gametime_start_ms: optional_member::<Number>(doc, "gametime_start_ms"@)->0,
                    histories: optional_member::<Vec<SegmentItemHistories>>(doc, "histories"@)->0,
                    id: required_member::<Uuid>(doc, "id"@)->0,
                    name: required_member::<String>(doc, "name"@)->0,
                    realtime_duration_ms: required_member::<Number>(
                        doc,
                        "realtime_duration_ms"@,
                    )->0,
                    realtime_end_ms: required_member::<Number>(doc, "realtime_end_ms"@)->0,
                    realtime_gold: required_member::<bool>(doc, "realtime_gold"@)->0,
                    realtime_reduced: required_member::<bool>(doc, "realtime_reduced"@)->0,
                    realtime_shortest_duration_ms: optional_member::<Number>(
                        doc,
                        "realtime_shortest_duration_ms"@,
                    )->0,
                    realtime_skipped: required_member::<bool>(doc, "realtime_skipped"@)->0,
                    realtime_start_ms: required_member::<Number>(doc, "realtime_start_ms"@)->0,
                    segment_number: required_member::<u32>(doc, "segment_number"@)->0,
                },
            )
        } else {
            None
        }
    }

    fn from_json(doc: &Json) -> (r: Option<Segment>) {
        let gametime_duration_ms = optional::<Number>(doc, "gametime_duration_ms")?;
        let gametime_end_ms = optional::<Number>(doc, "gametime_end_ms")?;
        let gametime_gold = required::<bool>(doc, "gametime_gold")?;
        let gametime_reduced = required::<bool>(doc, "gametime_reduced")?;
        let gametime_shortest_duration_ms = optional::<Number>(
            doc,
            "gametime_shortest_duration_ms",
        )?;
        let gametime_skipped = required::<bool>(doc, "gametime_skipped")?;
        let gametime_start_ms = optional::<Number>(doc, "gametime_start_ms")?;
        let histories = optional::<Vec<SegmentItemHistories>>(doc, "histories")?;
        let id = required::<Uuid>(doc, "id")?;
        let name = required::<String>(doc, "name")?;
        let realtime_duration_ms = required::<Number>(doc, "realtime_duration_ms")?;
        let realtime_end_ms = required::<Number>(doc, "realtime_end_ms")?;
        let realtime_gold = required::<bool>(doc, "realtime_gold")?;
        let realtime_reduced = required::<bool>(doc, "realtime_reduced")?;
        let realtime_shortest_duration_ms = optional::<Number>(
            doc,
            "realtime_shortest_duration_ms",
        )?;
        let realtime_skipped = required::<bool>(doc, "realtime_skipped")?;
        let realtime_start_ms = required::<Number>(doc, "realtime_start_ms")?;
        let segment_number = required::<u32>(doc, "segment_number")?;
        Some(
            Segment {
                gametime_duration_ms,
                gametime_end_ms,
                gametime_gold,
                gametime_reduced,
                gametime_shortest_duration_ms,
                gametime_skipped,
                gametime_start_ms,
                histories,
                id,
                name,
                realtime_duration_ms,
                realtime_end_ms,
                realtime_gold,
                realtime_reduced,
                realtime_shortest_duration_ms,
                realtime_skipped,
                realtime_start_ms,
                segment_number,
            },
        )
    }
}

/// A Race is a live competition between multiple Runners who share a start time
/// for their run.
#[derive(Debug, PartialEq)]
pub struct Race {
    /// Any attachments supplied by the race creator for the benefit of other
    /// entrants (e.g. for randomizers).
    pub attachments: Vec<Attachment>,
    /// The category being raced.
    pub category: Option<Category>,
    /// Chat messages for the Race. Only present when fetching the Race
    /// individually.
    pub chat_messages: Vec<ChatMessage>,
    /// The time and date at which this Race was created on splits.io. This
    /// field conforms to ISO 8601.
    pub created_at: String,
    /// All Entries currently in the Race.
    pub entries: Vec<Entry>,
    /// The game being raced.
    pub game: Option<Game>,
    /// The unique ID of the Race.
    pub id: Uuid,
    /// The token needed to join the race if it's invite-only or secret. Only
    /// provided to the owner as a response to creation.
    pub join_token: Option<String>,
    /// Any notes associatied with the Race.
    pub notes: Option<String>,
    /// The Runner who created the Race.
    pub owner: Runner,
    /// The user-friendly URL to the Race, to be given to a user when necessary.
    pub path: String,
    /// The time and date at which this Race was started on splits.io. This
    /// field conforms to ISO 8601.
    pub started_at: Option<String>,
    /// The time and date at which this Race was most recently modified on
    /// splits.io. This field conforms to ISO 8601.
    pub updated_at: String,
    /// The permission set for the Race.
    pub visibility: Visibility,
}

/// The mathematical value of a [`Race`].
pub struct RaceView {
    pub attachments: Seq<AttachmentView>,
    pub category: Option<CategoryView>,
    pub chat_messages: Seq<ChatMessageView>,
    pub created_at: Seq<char>,
    pub entries: Seq<EntryView>,
    pub game: Option<GameView>,
    pub id: Uuid,
    pub join_token: Option<Seq<char>>,
    pub notes: Option<Seq<char>>,
    pub owner: RunnerView,
    pub path: Seq<char>,
    pub started_at: Option<Seq<char>>,
    pub updated_at: Seq<char>,
    pub visibility: Visibility,
}

impl DeepView for Race {
    type V = RaceView;

    open spec fn deep_view(&self) -> RaceView {
        RaceView {
            attachments: self.attachments.deep_view(),
            category: self.category.deep_view(),
            chat_messages: self.chat_messages.deep_view(),
            created_at: self.created_at.deep_view(),
            entries: self.entries.deep_view(),
            game: self.game.deep_view(),
            id: self.id.deep_view(),
            join_token: self.join_token.deep_view(),
            notes: self.notes.deep_view(),
            owner: self.owner.deep_view(),
            path: self.path.deep_view(),
            started_at: self.started_at.deep_view(),
            updated_at: self.updated_at.deep_view(),
            visibility: self.visibility.deep_view(),
        }
    }
}

impl Decode for Race {
    open spec fn decoded(doc: JsonView) -> Option<RaceView> {
        if required_member::<Vec<Attachment>>(doc, "attachments"@) is Some
            && optional_member::<Category>(doc, "category"@) is Some
            && required_member::<Vec<ChatMessage>>(doc, "chat_messages"@) is Some
            && required_member::<String>(doc, "created_at"@) is Some
            && required_member::<Vec<Entry>>(doc, "entries"@) is Some
            && optional_member::<Game>(doc, "game"@) is Some
            && required_member::<Uuid>(doc, "id"@) is Some
            && optional_member::<String>(doc, "join_token"@) is Some
            && optional_member::<String>(doc, "notes"@) is Some
            && required_member::<Runner>(doc, "owner"@) is Some
            && required_member::<String>(doc, "path"@) is Some
            && optional_member::<String>(doc, "started_at"@) is Some
            && required_member::<String>(doc, "updated_at"@) is Some
            && required_member::<Visibility>(doc, "visibility"@) is Some
        {
            Some(
                RaceView {
                    attachments: required_member::<Vec<Attachment>>(doc, "attachments"@)->0,
                    category: optional_member::<Category>(doc, "category"@)->0,
                    chat_messages: required_member::<Vec<ChatMessage>>(doc, "chat_messages"@)->0,
                    created_at: required_member::<String>(doc, "created_at"@)->0,
                    entries: required_member::<Vec<Entry>>(doc, "entries"@)->0,
                    game: optional_member::<Game>(doc, "game"@)->0,
                    id: required_member::<Uuid>(doc, "id"@)->0,
                    join_token: optional_member::<String>(doc, "join_token"@)->0,
                    notes: optional_member::<String>(doc, "notes"@)->0,
                    owner: required_member::<Runner>(doc, "owner"@)->0,
                    path: required_member::<String>(doc, "path"@)->0,
                    started_at: optional_member::<String>(doc, "started_at"@)->0,
                    updated_at: required_member::<String>(doc, "updated_at"@)->0,
                    visibility: required_member::<Visibility>(doc, "visibility"@)->0,
                },
            )
        } else {
            None
        }
    }

    fn from_json(doc: &Json) -> (r: Option<Race>) {
        let attachments = required::<Vec<Attachment>>(doc, "attachments")?;
        let category = optional::<Category>(doc, "category")?;
        let chat_messages = required::<Vec<ChatMessage>>(doc, "chat_messages")?;
        let created_at = required::<String>(doc, "created_at")?;
        let entries = required::<Vec<Entry>>(doc, "entries")?;
        let game = optional::<Game>(doc, "game")?;
        let id = required::<Uuid>(doc, "id")?;
        let join_token = optional::<String>(doc, "join_token")?;
        let notes = optional::<String>(doc, "notes")?;
        let owner = required::<Runner>(doc, "owner")?;
        let path = required::<String>(doc, "path")?;
        let started_at = optional::<String>(doc, "started_at")?;
        let updated_at = required::<String>(doc, "updated_at")?;
        let visibility = required::<Visibility>(doc, "visibility")?;
        Some(
            Race {
                attachments,
                category,
                chat_messages,
                created_at,
                entries,
                game,
                id,
                join_token,
                notes,
                owner,
                path,
                started_at,
                updated_at,
                visibility,
            },
        )
    }
}

/// A file that is attached to a Race.
#[derive(Debug, PartialEq)]
pub struct Attachment {
    /// The unique ID of the attachment.
    pub id: Uuid,
    /// The time and date at which this attachment was created on splits.io.
    /// This field conforms to ISO 8601.
    pub created_at: String,
    /// The filename of the attachment.
    pub filename: String,
    /// The URL to use in order to download the attachment.
    pub url: String,
}

/// The mathematical value of a [`Attachment`].
pub struct AttachmentView {
    pub id: Uuid,
    pub created_at: Seq<char>,
    pub filename: Seq<char>,
    pub url: Seq<char>,
}

impl DeepView for Attachment {
    type V = AttachmentView;

    open spec fn deep_view(&self) -> AttachmentView {
        AttachmentView {
            id: self.id.deep_view(),
            created_at: self.created_at.deep_view(),
            filename: self.filename.deep_view(),
            url: self.url.deep_view(),
        }
    }
}

impl Decode for Attachment {
    open spec fn decoded(doc: JsonView) -> Option<AttachmentView> {
        if required_member::<Uuid>(doc, "id"@) is Some
            && required_member::<String>(doc, "created_at"@) is Some
            && required_member::<String>(doc, "filename"@) is Some
            && required_member::<String>(doc, "url"@) is Some
        {
            Some(
                AttachmentView {
                    id: required_member::<Uuid>(doc, "id"@)->0,
                    created_at: required_member::<String>(doc, "created_at"@)->0,
                    filename: required_member::<String>(doc, "filename"@)->0,
                    url: required_member::<String>(doc, "url"@)->0,
                },
            )
        } else {
            None
        }
    }

    fn from_json(doc: &Json) -> (r: Option<Attachment>) {
        let id = required::<Uuid>(doc, "id")?;
        let created_at = required::<String>(doc, "created_at")?;
        let filename = required::<String>(doc, "filename")?;
        let url = required::<String>(doc, "url")?;
        Some(Attachment { id, created_at, filename, url })
    }
}

/// The permission set for a Race.
#[derive(Clone, Copy, Debug, PartialEq, Eq, Structural)]
pub enum Visibility {
    /// Anyone can join the race.
    Public,
    /// An invitation is required in order to join the race.
    InviteOnly,
    /// The race can only be viewed by certain users.
    Secret,
}

impl DeepView for Visibility {
    type V = Visibility;

    open spec fn deep_view(&self) -> Visibility {
        *self
    }
}

impl Visibility {
    /// The name of the permission set in a document.
    pub open spec fn wire_name(self) -> Seq<char> {
        match self {
            Visibility::Public => "public"@,
            Visibility::InviteOnly => "invite_only"@,
            Visibility::Secret => "secret"@,
        }
    }

    /// The name of the permission set in a document.
    pub fn as_str(&self) -> (r: &'static str)
        ensures
            r@ == self.wire_name(),
    {
        match self {
            Visibility::Public => "public",
            Visibility::InviteOnly => "invite_only",
            Visibility::Secret => "secret",
        }
    }
}

impl Decode for Visibility {
    open spec fn decoded(doc: JsonView) -> Option<Visibility> {
        match doc {
            JsonView::Text(name) => if name == "public"@ {
                Some(Visibility::Public)
            } else if name == "invite_only"@ {
                Some(Visibility::InviteOnly)
            } else if name == "secret"@ {
                Some(Visibility::Secret)
            } else {
                None
            },
            _ => None,
        }
    }

    fn from_json(doc: &Json) -> (r: Option<Visibility>) {
        match doc {
            Json::Text(name) => {
                if same_text(name.as_str(), "public") {
                    Some(Visibility::Public)
                } else if same_text(name.as_str(), "invite_only") {
                    Some(Visibility::InviteOnly)
                } else if same_text(name.as_str(), "secret") {
                    Some(Visibility::Secret)
                } else {
                    None
                }
            },
            _ => None,
        }
    }
}

/// A permission set is read back from its own name.
pub proof fn lemma_visibility_round_trip(visibility: Visibility)
    ensures
        Visibility::decoded(JsonView::Text(visibility.wire_name())) == Some(visibility),
{
    reveal_strlit("public");
    reveal_strlit("invite_only");
    reveal_strlit("secret");
    assert("public"@.len() == 6);
    assert("invite_only"@.len() == 11);
    assert("secret"@[0] == 's');
    assert("public"@[0] == 'p');
}

/// Where an entry stands in its race, as its three timestamps tell.
#[derive(Clone, Copy, Debug, PartialEq, Eq, Structural)]
pub enum EntryStatus {
    /// Entered, and not ready yet.
    Entered,
    /// Ready to start.
    Ready,
    /// Finished the race.
    Finished,
    /// Gave the race up.
    Forfeited,
}

impl EntryView {
    /// The standing that the timestamps tell. A finish counts whatever else
    /// is set; a forfeit counts whether or not the entry was ready.
    pub open spec fn status(self) -> EntryStatus {
        if self.finished_at is Some {
            EntryStatus::Finished
        } else if self.forfeited_at is Some {
            EntryStatus::Forfeited
        } else if self.readied_at is Some {
            EntryStatus::Ready
        } else {
            EntryStatus::Entered
        }
    }
}

impl Entry {
    /// The standing of the entry. It is read off the three timestamps, each
    /// of which the service sets and clears by itself, so every combination
    /// of them has a standing.
    pub fn status(&self) -> (r: EntryStatus)
        ensures
            r == self.deep_view().status(),
    {
        if self.finished_at.is_some() {
            EntryStatus::Finished
        } else if self.forfeited_at.is_some() {
            EntryStatus::Forfeited
        } else if self.readied_at.is_some() {
            EntryStatus::Ready
        } else {
            EntryStatus::Entered
        }
    }
}

} // verus!
