//! The race module describes the requests that concern Races. A Race is a
//! competition between multiple Runners.
//!
//! An entry in a race carries three timestamps: when its runner readied up,
//! finished and forfeited. Each is set by a request of its own and cleared
//! by another, and no request touches more than one of them. What the
//! entry looks like afterwards is for the service to say.

use vstd::prelude::*;
use crate::id::hyphenated;
use crate::id::Uuid;
use crate::json::object_text;
use crate::json::quote;
use crate::json::quoted;
use crate::json::write_object;
use crate::request::address_at;
use crate::request::request_to;
use crate::request::Address;
use crate::request::Method;
use crate::request::Request;
use crate::request::AddressView;
use crate::request::RequestView;
use crate::schema::Attachment;
use crate::schema::Race;
use crate::schema::Visibility;

verus! {

/// The address of the collection of races.
pub open spec fn races_address() -> Seq<char> {
    "https://splits.io/api/v4/races"@
}

/// The settings for a Race.
#[derive(Debug, PartialEq)]
pub struct Settings<'a> {
    /// The ID of the Game that is being raced.
    pub game_id: Option<&'a str>,
    /// The ID of the Category that is being raced.
    pub category_id: Option<&'a str>,
    /// Any notes that are associated with the Race.
    pub notes: Option<&'a str>,
    /// The visibility of the Race.
    pub visibility: Option<Visibility>,
}

/// The mathematical value of [`Settings`].
pub struct SettingsView {
    pub game_id: Option<Seq<char>>,
    pub category_id: Option<Seq<char>>,
    pub notes: Option<Seq<char>>,
    pub visibility: Option<Visibility>,
}

impl<'a> DeepView for Settings<'a> {
    type V = SettingsView;

    open spec fn deep_view(&self) -> SettingsView {
        SettingsView {
            game_id: self.game_id.deep_view(),
            category_id: self.category_id.deep_view(),
            notes: self.notes.deep_view(),
            visibility: self.visibility,
        }
    }
}

impl<'a> Default for Settings<'a> {
    fn default() -> (r: Settings<'a>)
        ensures
            r.game_id is None,
            r.category_id is None,
            r.notes is None,
            r.visibility is None,
    {
        Settings { game_id: None, category_id: None, notes: None, visibility: None }
    }
}

/// The type of update to perform on the given property.
#[derive(Debug, PartialEq)]
pub enum Update<T> {
    /// Keep the previous value of the property.
    Keep,
    /// Clear the value of the property.
    Clear,
    /// Change the value of the property.
    Change(T),
}

impl<T: DeepView> DeepView for Update<T> {
    type V = Update<T::V>;

    open spec fn deep_view(&self) -> Update<T::V> {
        match self {
            Update::Keep => Update::Keep,
            Update::Clear => Update::Clear,
            Update::Change(value) => Update::Change(value.deep_view()),
        }
    }
}

impl<T> Update<T> {
    /// Whether the property keeps its value.
    pub fn is_keep(&self) -> (r: bool)
        ensures
            r == (self is Keep),
    {
        match self {
            Update::Keep => true,
            _ => false,
        }
    }
}

impl<T> Default for Update<T> {
    fn default() -> (r: Update<T>)
        ensures
            r is Keep,
    {
        Update::Keep
    }
}

/// The new properties to use for a Race when performing an update.
#[derive(Debug, PartialEq)]
pub struct UpdateSettings<'a> {
    /// The update to perform for the ID of the Game that is being raced.
    pub game_id: Update<&'a str>,
    /// The update to perform for the ID of the Category that is being raced.
    pub category_id: Update<&'a str>,
    /// The update to perform for any notes that are associated with the Race.
    pub notes: Update<&'a str>,
    /// The update to perform for the visibility of the Race.
    pub visibility: Option<Visibility>,
}

/// The mathematical value of [`UpdateSettings`].
pub struct UpdateSettingsView {
    pub game_id: Update<Seq<char>>,
    pub category_id: Update<Seq<char>>,
    pub notes: Update<Seq<char>>,
    pub visibility: Option<Visibility>,
}

impl<'a> DeepView for UpdateSettings<'a> {
    type V = UpdateSettingsView;

    open spec fn deep_view(&self) -> UpdateSettingsView {
        UpdateSettingsView {
            game_id: self.game_id.deep_view(),
            category_id: self.category_id.deep_view(),
            notes: self.notes.deep_view(),
            visibility: self.visibility,
        }
    }
}

impl<'a> Default for UpdateSettings<'a> {
    fn default() -> (r: UpdateSettings<'a>)
        ensures
            r.game_id is Keep,
            r.category_id is Keep,
            r.notes is Keep,
            r.visibility is None,
    {
        UpdateSettings {
            game_id: Update::Keep,
            category_id: Update::Keep,
            notes: Update::Keep,
            visibility: None,
        }
    }
}

/// The type of racer to join the Race as.
#[derive(Debug, PartialEq)]
pub enum JoinAs<'a> {
    /// Join the Race as a regular user.
    Myself,
    /// Join the Race as a ghost of a past Run.
    GhostOf(&'a str),
}

/// The mathematical value of [`JoinAs`].
pub enum JoinAsView {
    Myself,
    GhostOf(Seq<char>),
}

impl<'a> DeepView for JoinAs<'a> {
    type V = JoinAsView;

    open spec fn deep_view(&self) -> JoinAsView {
        match self {
            JoinAs::Myself => JoinAsView::Myself,
            JoinAs::GhostOf(run_id) => JoinAsView::GhostOf(run_id@),
        }
    }
}

/// A member that holds a string, where there is one: no member otherwise.
pub open spec fn text_member(name: Seq<char>, value: Option<Seq<char>>) -> Seq<
    (Seq<char>, Seq<char>),
> {
    match value {
        Some(text) => seq![(name, quoted(text))],
        None => Seq::empty(),
    }
}

/// A member for an update: none to keep the property, `null` to clear it, a
/// string to set it.
pub open spec fn update_member(name: Seq<char>, update: Update<Seq<char>>) -> Seq<
    (Seq<char>, Seq<char>),
> {
    match update {
        Update::Keep => Seq::empty(),
        Update::Clear => seq![(name, "null"@)],
        Update::Change(text) => seq![(name, quoted(text))],
    }
}

/// The member for the visibility, where one is given.
pub open spec fn visibility_member(visibility: Option<Visibility>) -> Seq<(Seq<char>, Seq<char>)> {
    match visibility {
        Some(v) => seq![("visibility"@, quoted(v.wire_name()))],
        None => Seq::empty(),
    }
}

/// The member that names the past Run of a ghost.
pub open spec fn ghost_member(join_as: JoinAsView) -> Seq<(Seq<char>, Seq<char>)> {
    match join_as {
        JoinAsView::Myself => Seq::empty(),
        JoinAsView::GhostOf(run_id) => seq![
            ("entry"@, object_text(seq![("run_id"@, quoted(run_id))])),
        ],
    }
}

impl SettingsView {
    /// The body of the request that creates a Race with these settings: an
    /// object with a member for each setting that is given.
    pub open spec fn body(self) -> Seq<char> {
        object_text(
            text_member("game_id"@, self.game_id) + text_member("category_id"@, self.category_id)
                + text_member("notes"@, self.notes) + visibility_member(self.visibility),
        )
    }
}

impl UpdateSettingsView {
    /// The body of the request that updates a Race: an object with a member
    /// for each property that does not keep its value.
    pub open spec fn body(self) -> Seq<char> {
        object_text(
            update_member("game_id"@, self.game_id) + update_member(
                "category_id"@,
                self.category_id,
            ) + update_member("notes"@, self.notes) + visibility_member(self.visibility),
        )
    }
}

/// The body of the request that joins a Race.
pub open spec fn join_body(join_as: JoinAsView, join_token: Option<Seq<char>>) -> Seq<char> {
    object_text(text_member("join_token"@, join_token) + ghost_member(join_as))
}

/// The body of the request that sends a chat message.
pub open spec fn chat_body(message: Seq<char>) -> Seq<char> {
    object_text(seq![("chat_message"@, object_text(seq![("body"@, quoted(message))]))])
}

/// Appends the members of `more`.
fn push_members(members: &mut Vec<(String, String)>, name: &str, value: Option<String>)
    ensures
        final(members).deep_view() == old(members).deep_view() + match value {
            Some(text) => seq![(name@, text@)],
            None => Seq::empty(),
        },
{
    match value {
        Some(text) => {
            members.push((name.to_owned(), text));
            assert(members.deep_view() =~= old(members).deep_view() + seq![(name@, text@)]);
        },
        None => {
            assert(members.deep_view() =~= old(members).deep_view() + Seq::empty());
        },
    }
}

/// The text of the value of a member that holds a string.
fn text_value(value: Option<&str>) -> (r: Option<String>)
    ensures
        r.deep_view() == match value {
            Some(text) => Some(quoted(text@)),
            None => None,
        },
{
    match value {
        Some(text) => Some(quote(text)),
        None => None,
    }
}

/// The text of the value of a member for an update.
fn update_value(update: &Update<&str>) -> (r: Option<String>)
    ensures
        r.deep_view() == match update.deep_view() {
            Update::Keep => None,
            Update::Clear => Some("null"@),
            Update::Change(text) => Some(quoted(text)),
        },
{
    match update {
        Update::Keep => None,
        Update::Clear => Some("null".to_owned()),
        Update::Change(text) => Some(quote(text)),
    }
}

/// The text of the value of the member for the visibility.
fn visibility_value(visibility: Option<Visibility>) -> (r: Option<String>)
    ensures
        r.deep_view() == match visibility {
            Some(v) => Some(quoted(v.wire_name())),
            None => None,
        },
{
    match visibility {
        Some(v) => Some(quote(v.as_str())),
        None => None,
    }
}

/// An object with one member.
fn single(name: &str, value: String) -> (r: String)
    ensures
        r@ == object_text(seq![(name@, value@)]),
{
    let mut members: Vec<(String, String)> = Vec::new();
    members.push((name.to_owned(), value));
    assert(members.deep_view() =~= seq![(name@, value@)]);
    write_object(&members)
}

impl<'a> Settings<'a> {
    /// Writes the body of the request that creates a Race.
    pub fn body(&self) -> (r: String)
        ensures
            r@ == self.deep_view().body(),
    {
        let mut members: Vec<(String, String)> = Vec::new();
        assert(members.deep_view() =~= Seq::empty());
        push_members(&mut members, "game_id", text_value(self.game_id));
        push_members(&mut members, "category_id", text_value(self.category_id));
        push_members(&mut members, "notes", text_value(self.notes));
        push_members(&mut members, "visibility", visibility_value(self.visibility));
        assert(members.deep_view() =~= text_member("game_id"@, self.game_id.deep_view())
            + text_member("category_id"@, self.category_id.deep_view()) + text_member(
            "notes"@,
            self.notes.deep_view(),
        ) + visibility_member(self.visibility));
        write_object(&members)
    }
}

impl<'a> UpdateSettings<'a> {
    /// Writes the body of the request that updates a Race.
    pub fn body(&self) -> (r: String)
        ensures
            r@ == self.deep_view().body(),
    {
        let mut members: Vec<(String, String)> = Vec::new();
        assert(members.deep_view() =~= Seq::empty());
        push_members(&mut members, "game_id", update_value(&self.game_id));
        push_members(&mut members, "category_id", update_value(&self.category_id));
        push_members(&mut members, "notes", update_value(&self.notes));
        push_members(&mut members, "visibility", visibility_value(self.visibility));
        assert(members.deep_view() =~= update_member("game_id"@, self.game_id.deep_view())
            + update_member("category_id"@, self.category_id.deep_view()) + update_member(
            "notes"@,
            self.notes.deep_view(),
        ) + visibility_member(self.visibility));
        write_object(&members)
    }
}

/// One of the three timestamps of an entry.
#[derive(Clone, Copy, Debug, PartialEq, Eq, Structural)]
pub enum Timestamp {
    /// When the runner readied up.
    ReadiedAt,
    /// When the runner finished.
    FinishedAt,
    /// When the runner forfeited.
    ForfeitedAt,
}

impl Timestamp {
    /// The name of the timestamp in a document.
    pub open spec fn name(self) -> Seq<char> {
        match self {
            Timestamp::ReadiedAt => "readied_at"@,
            Timestamp::FinishedAt => "finished_at"@,
            Timestamp::ForfeitedAt => "forfeited_at"@,
        }
    }

    /// The name of the timestamp in a document.
    pub fn as_str(&self) -> (r: &'static str)
        ensures
            r@ == self.name(),
    {
        match self {
            Timestamp::ReadiedAt => "readied_at",
            Timestamp::FinishedAt => "finished_at",
            Timestamp::ForfeitedAt => "forfeited_at",
        }
    }
}

/// The body of the request that sets a timestamp of an entry to the moment
/// at which the service gets it, or clears it: the entry with that one
/// timestamp, as `"now"` or as `null`.
pub open spec fn entry_body(timestamp: Timestamp, set: bool) -> Seq<char> {
    object_text(
        seq![
            (
                "entry"@,
                object_text(
                    seq![
                        (
                            timestamp.name(),
                            if set {
                                quoted("now"@)
                            } else {
                                "null"@
                            },
                        ),
                    ],
                ),
            ),
        ],
    )
}

/// A request that goes to the collection of races, or below it.
pub open spec fn races_request(
    method: Method,
    segments: Seq<Seq<char>>,
    body: Option<Seq<char>>,
) -> RequestView {
    RequestView {
        method,
        address: AddressView { base: races_address(), segments, query: None },
        headers: Seq::empty(),
        body,
    }
}

/// The address of the collection of races.
fn races() -> (r: Address)
    ensures
        r.deep_view() == address_at(races_address()),
{
    Address::new("https://splits.io/api/v4/races")
}

/// The request that sets or clears one timestamp of an entry. It names the
/// race and the entry, and its body names that timestamp and no other.
pub fn update_entry(race_id: Uuid, entry_id: Uuid, timestamp: Timestamp, set: bool) -> (r: Request)
    ensures
        r.deep_view() == races_request(
            Method::Patch,
            seq![hyphenated(race_id.0), "entries"@, hyphenated(entry_id.0)],
            Some(entry_body(timestamp, set)),
        ),
{
    let value = if set {
        quote("now")
    } else {
        "null".to_owned()
    };
    let body = single("entry", single(timestamp.as_str(), value));
    let address = races().segment(race_id.hyphenated().as_str()).segment("entries").segment(
        entry_id.hyphenated().as_str(),
    );
    assert(address.deep_view().segments =~= seq![
        hyphenated(race_id.0),
        "entries"@,
        hyphenated(entry_id.0),
    ]);
    Request::new(Method::Patch, address).json(body)
}

/// Gets all the currently active Races on splits.io.
pub fn get_active() -> (r: Request)
    ensures
        r.deep_view() == races_request(Method::Get, Seq::empty(), None),
{
    let address = races();
    assert(address.deep_view().segments =~= Seq::empty());
    Request::new(Method::Get, address)
}

/// Gets a Race by its ID.
pub fn get(id: Uuid) -> (r: Request)
    ensures
        r.deep_view() == races_request(Method::Get, seq![hyphenated(id.0)], None),
{
    let address = races().segment(id.hyphenated().as_str());
    assert(address.deep_view().segments =~= seq![hyphenated(id.0)]);
    Request::new(Method::Get, address)
}

/// Creates a new Race.
pub fn create(settings: Settings<'_>) -> (r: Request)
    ensures
        r.deep_view() == races_request(
            Method::Post,
            Seq::empty(),
            Some(settings.deep_view().body()),
        ),
{
    Request::new(Method::Post, races()).json(settings.body())
}

/// Updates a Race.
pub fn update(id: Uuid, settings: UpdateSettings<'_>) -> (r: Request)
    ensures
        r.deep_view() == races_request(
            Method::Patch,
            seq![hyphenated(id.0)],
            Some(settings.deep_view().body()),
        ),
{
    let address = races().segment(id.hyphenated().as_str());
    assert(address.deep_view().segments =~= seq![hyphenated(id.0)]);
    Request::new(Method::Patch, address).json(settings.body())
}

/// Gets all of the entries for a Race.
pub fn get_entries(id: Uuid) -> (r: Request)
    ensures
        r.deep_view() == races_request(Method::Get, seq![hyphenated(id.0), "entries"@], None),
{
    let address = races().segment(id.hyphenated().as_str()).segment("entries");
    assert(address.deep_view().segments =~= seq![hyphenated(id.0), "entries"@]);
    Request::new(Method::Get, address)
}

/// Gets the entry in a Race that is associated with the current user.
pub fn get_entry(id: Uuid) -> (r: Request)
    ensures
        r.deep_view() == races_request(Method::Get, seq![hyphenated(id.0), "entry"@], None),
{
    let address = races().segment(id.hyphenated().as_str()).segment("entry");
    assert(address.deep_view().segments =~= seq![hyphenated(id.0), "entry"@]);
    Request::new(Method::Get, address)
}

/// Joins the Race for the given entry.
pub fn join(race_id: Uuid, join_as: JoinAs<'_>, join_token: Option<&str>) -> (r: Request)
    ensures
        r.deep_view() == races_request(
            Method::Post,
            seq![hyphenated(race_id.0), "entries"@],
            Some(join_body(join_as.deep_view(), join_token.deep_view())),
        ),
{
    let mut members: Vec<(String, String)> = Vec::new();
    assert(members.deep_view() =~= Seq::empty());
    push_members(&mut members, "join_token", text_value(join_token));
    let entry = match join_as {
        JoinAs::Myself => None,
        JoinAs::GhostOf(run_id) => Some(single("run_id", quote(run_id))),
    };
    push_members(&mut members, "entry", entry);
    assert(members.deep_view() =~= text_member("join_token"@, join_token.deep_view())
        + ghost_member(join_as.deep_view()));
    let address = races().segment(race_id.hyphenated().as_str()).segment("entries");
    assert(address.deep_view().segments =~= seq![hyphenated(race_id.0), "entries"@]);
    Request::new(Method::Post, address).json(write_object(&members))
}

/// Leaves the Race for the given entry.
pub fn leave(race_id: Uuid, entry_id: Uuid) -> (r: Request)
    ensures
        r.deep_view() == races_request(
            Method::Delete,
            seq![hyphenated(race_id.0), "entries"@, hyphenated(entry_id.0)],
            None,
        ),
{
    let address = races().segment(race_id.hyphenated().as_str()).segment("entries").segment(
        entry_id.hyphenated().as_str(),
    );
    assert(address.deep_view().segments =~= seq![
        hyphenated(race_id.0),
        "entries"@,
        hyphenated(entry_id.0),
    ]);
    Request::new(Method::Delete, address)
}

/// Declares the given entry as ready for a Race.
pub fn ready_up(race_id: Uuid, entry_id: Uuid) -> (r: Request)
    ensures
        r.deep_view() == races_request(
            Method::Patch,
            seq![hyphenated(race_id.0), "entries"@, hyphenated(entry_id.0)],
            Some(entry_body(Timestamp::ReadiedAt, true)),
        ),
{
    update_entry(race_id, entry_id, Timestamp::ReadiedAt, true)
}

/// Undoes a ready for the given entry in a Race.
pub fn unready(race_id: Uuid, entry_id: Uuid) -> (r: Request)
    ensures
        r.deep_view() == races_request(
            Method::Patch,
            seq![hyphenated(race_id.0), "entries"@, hyphenated(entry_id.0)],
            Some(entry_body(Timestamp::ReadiedAt, false)),
        ),
{
    update_entry(race_id, entry_id, Timestamp::ReadiedAt, false)
}

/// Finishes the Race for the given entry.
pub fn finish(race_id: Uuid, entry_id: Uuid) -> (r: Request)
    ensures
        r.deep_view() == races_request(
            Method::Patch,
            seq![hyphenated(race_id.0), "entries"@, hyphenated(entry_id.0)],
            Some(entry_body(Timestamp::FinishedAt, true)),
        ),
{
    update_entry(race_id, entry_id, Timestamp::FinishedAt, true)
}

/// Undoes a finish for the given entry in a Race.
pub fn undo_finish(race_id: Uuid, entry_id: Uuid) -> (r: Request)
    ensures
        r.deep_view() == races_request(
            Method::Patch,
            seq![hyphenated(race_id.0), "entries"@, hyphenated(entry_id.0)],
            Some(entry_body(Timestamp::FinishedAt, false)),
        ),
{
    update_entry(race_id, entry_id, Timestamp::FinishedAt, false)
}

/// Forfeits the Race for the given entry.
pub fn forfeit(race_id: Uuid, entry_id: Uuid) -> (r: Request)
    ensures
        r.deep_view() == races_request(
            Method::Patch,
            seq![hyphenated(race_id.0), "entries"@, hyphenated(entry_id.0)],
            Some(entry_body(Timestamp::ForfeitedAt, true)),
        ),
{
    update_entry(race_id, entry_id, Timestamp::ForfeitedAt, true)
}

/// Undoes a forfeit for the given entry in a Race.
pub fn undo_forfeit(race_id: Uuid, entry_id: Uuid) -> (r: Request)
    ensures
        r.deep_view() == races_request(
            Method::Patch,
            seq![hyphenated(race_id.0), "entries"@, hyphenated(entry_id.0)],
            Some(entry_body(Timestamp::ForfeitedAt, false)),
        ),
{
    update_entry(race_id, entry_id, Timestamp::ForfeitedAt, false)
}

/// Gets all of the chat messages for a Race.
pub fn get_chat(id: Uuid) -> (r: Request)
    ensures
        r.deep_view() == races_request(Method::Get, seq![hyphenated(id.0), "chat"@], None),
{
    let address = races().segment(id.hyphenated().as_str()).segment("chat");
    assert(address.deep_view().segments =~= seq![hyphenated(id.0), "chat"@]);
    Request::new(Method::Get, address)
}

/// Sends a message in the chat for a Race.
pub fn send_chat_message(id: Uuid, message: &str) -> (r: Request)
    ensures
        r.deep_view() == races_request(
            Method::Post,
            seq![hyphenated(id.0), "chat"@],
            Some(chat_body(message@)),
        ),
{
    let body = single("chat_message", single("body", quote(message)));
    let address = races().segment(id.hyphenated().as_str()).segment("chat");
    assert(address.deep_view().segments =~= seq![hyphenated(id.0), "chat"@]);
    Request::new(Method::Post, address).json(body)
}

impl Race {
    /// Gets all the currently active Races on splits.io.
    pub fn get_active() -> (r: Request)
        ensures
            r.deep_view() == races_request(Method::Get, Seq::empty(), None),
    {
        self::get_active()
    }

    /// Gets a Race by its ID.
    pub fn get(id: Uuid) -> (r: Request)
        ensures
            r.deep_view() == races_request(Method::Get, seq![hyphenated(id.0)], None),
    {
        self::get(id)
    }

    /// Creates a new Race.
    pub fn create(settings: Settings<'_>) -> (r: Request)
        ensures
            r.deep_view() == races_request(
                Method::Post,
                Seq::empty(),
                Some(settings.deep_view().body()),
            ),
    {
        self::create(settings)
    }

    /// Updates the Race.
    pub fn update(&self, settings: UpdateSettings<'_>) -> (r: Request)
        ensures
            r.deep_view() == races_request(
                Method::Patch,
                seq![hyphenated(self.id.0)],
                Some(settings.deep_view().body()),
            ),
    {
        self::update(self.id, settings)
    }

    /// Gets all of the entries for the Race.
    pub fn entries(&self) -> (r: Request)
        ensures
            r.deep_view() == races_request(
                Method::Get,
                seq![hyphenated(self.id.0), "entries"@],
                None,
            ),
    {
        self::get_entries(self.id)
    }

    /// Gets the entry in the Race that is associated with the current user.
    pub fn my_entry(&self) -> (r: Request)
        ensures
            r.deep_view() == races_request(
                Method::Get,
                seq![hyphenated(self.id.0), "entry"@],
                None,
            ),
    {
        self::get_entry(self.id)
    }

    /// Joins the Race for the given entry.
    pub fn join(&self, join_as: JoinAs<'_>, join_token: Option<&str>) -> (r: Request)
        ensures
            r.deep_view() == races_request(
                Method::Post,
                seq![hyphenated(self.id.0), "entries"@],
                Some(join_body(join_as.deep_view(), join_token.deep_view())),
            ),
    {
        self::join(self.id, join_as, join_token)
    }

    /// Leaves the Race for the given entry.
    pub fn leave(&self, entry_id: Uuid) -> (r: Request)
        ensures
            r.deep_view() == races_request(
                Method::Delete,
                seq![hyphenated(self.id.0), "entries"@, hyphenated(entry_id.0)],
                None,
            ),
    {
        self::leave(self.id, entry_id)
    }

    /// Declares the given entry as ready for the Race.
    pub fn ready_up(&self, entry_id: Uuid) -> (r: Request)
        ensures
            r.deep_view() == races_request(
                Method::Patch,
                seq![hyphenated(self.id.0), "entries"@, hyphenated(entry_id.0)],
                Some(entry_body(Timestamp::ReadiedAt, true)),
            ),
    {
        self::ready_up(self.id, entry_id)
    }

    /// Undoes a ready for the given entry in the Race.
    pub fn unready(&self, entry_id: Uuid) -> (r: Request)
        ensures
            r.deep_view() == races_request(
                Method::Patch,
                seq![hyphenated(self.id.0), "entries"@, hyphenated(entry_id.0)],
                Some(entry_body(Timestamp::ReadiedAt, false)),
            ),
    {
        self::unready(self.id, entry_id)
    }

    /// Finishes the Race for the given entry.
    pub fn finish(&self, entry_id: Uuid) -> (r: Request)
        ensures
            r.deep_view() == races_request(
                Method::Patch,
                seq![hyphenated(self.id.0), "entries"@, hyphenated(entry_id.0)],
                Some(entry_body(Timestamp::FinishedAt, true)),
            ),
    {
        self::finish(self.id, entry_id)
    }

    /// Undoes a finish for the given entry in the Race.
    pub fn undo_finish(&self, entry_id: Uuid) -> (r: Request)
        ensures
            r.deep_view() == races_request(
                Method::Patch,
                seq![hyphenated(self.id.0), "entries"@, hyphenated(entry_id.0)],
                Some(entry_body(Timestamp::FinishedAt, false)),
            ),
    {
        self::undo_finish(self.id, entry_id)
    }

    /// Forfeits the Race for the given entry.
    pub fn forfeit(&self, entry_id: Uuid) -> (r: Request)
        ensures
            r.deep_view() == races_request(
                Method::Patch,
                seq![hyphenated(self.id.0), "entries"@, hyphenated(entry_id.0)],
                Some(entry_body(Timestamp::ForfeitedAt, true)),
            ),
    {
        self::forfeit(self.id, entry_id)
    }

    /// Undoes a forfeit for the given entry in the Race.
    pub fn undo_forfeit(&self, entry_id: Uuid) -> (r: Request)
        ensures
            r.deep_view() == races_request(
                Method::Patch,
                seq![hyphenated(self.id.0), "entries"@, hyphenated(entry_id.0)],
                Some(entry_body(Timestamp::ForfeitedAt, false)),
            ),
    {
        self::undo_forfeit(self.id, entry_id)
    }

    /// Gets all of the chat messages for the Race.
    pub fn chat_messages(&self) -> (r: Request)
        ensures
            r.deep_view() == races_request(Method::Get, seq![hyphenated(self.id.0), "chat"@], None),
    {
        self::get_chat(self.id)
    }

    /// Sends a message in the chat for the Race.
    pub fn send_chat_message(&self, message: &str) -> (r: Request)
        ensures
            r.deep_view() == races_request(
                Method::Post,
                seq![hyphenated(self.id.0), "chat"@],
                Some(chat_body(message@)),
            ),
    {
        self::send_chat_message(self.id, message)
    }
}

impl Attachment {
    /// Downloads the attachment.
    pub fn download(&self) -> (r: Request)
        ensures
            r.deep_view() == request_to(Method::Get, address_at(self.url@)),
    {
        Request::new(Method::Get, Address::new(self.url.as_str()))
    }
}

} // verus!
