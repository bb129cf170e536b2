//! The game module describes the requests that concern Games. A Game is a
//! collection of information about a game and may contain Categories.

use vstd::prelude::*;
use crate::client::Error;
use crate::client::ErrorView;
use crate::decode::result_view;
use crate::request::address_at;
use crate::request::request_to;
use crate::request::Address;
use crate::request::AddressView;
use crate::request::Method;
use crate::request::Request;
use crate::request::RequestView;
use crate::schema::Game;

verus! {

/// The address of the collection of games.
pub open spec fn games_address() -> Seq<char> {
    "https://splits.io/api/v4/games"@
}

/// The address of what belongs to a game: the game itself where `what` is
/// empty.
pub open spec fn game_address(shortname: Seq<char>, what: Seq<Seq<char>>) -> AddressView {
    AddressView { base: games_address(), segments: seq![shortname] + what, query: None }
}

/// Searches for a Game based on the name of the game.
pub fn search(name: &str) -> (r: Request)
    ensures
        r.deep_view() == request_to(
            Method::Get,
            address_at(games_address()).pair("search"@, name@),
        ),
{
    Request::new(Method::Get, Address::new("https://splits.io/api/v4/games").pair("search", name))
}

/// Gets a Game based on the shortened title of the game.
pub fn get(shortname: &str) -> (r: Request)
    ensures
        r.deep_view() == request_to(Method::Get, game_address(shortname@, Seq::empty())),
{
    let address = Address::new("https://splits.io/api/v4/games").segment(shortname);
    assert(address.deep_view().segments =~= seq![shortname@] + Seq::empty());
    Request::new(Method::Get, address)
}

/// Gets the Categories that belong to a Game based on the shortened title of the
/// game.
pub fn get_categories(shortname: &str) -> (r: Request)
    ensures
        r.deep_view() == request_to(Method::Get, game_address(shortname@, seq!["categories"@])),
{
    let address = Address::new("https://splits.io/api/v4/games").segment(shortname).segment(
        "categories",
    );
    assert(address.deep_view().segments =~= seq![shortname@] + seq!["categories"@]);
    Request::new(Method::Get, address)
}

/// Gets the Runs that belong to a Game based on the shortened title of the game.
pub fn get_runs(shortname: &str) -> (r: Request)
    ensures
        r.deep_view() == request_to(Method::Get, game_address(shortname@, seq!["runs"@])),
{
    let address = Address::new("https://splits.io/api/v4/games").segment(shortname).segment("runs");
    assert(address.deep_view().segments =~= seq![shortname@] + seq!["runs"@]);
    Request::new(Method::Get, address)
}

/// Gets the Runners that belong to a Game based on the shortened title of the
/// game.
pub fn get_runners(shortname: &str) -> (r: Request)
    ensures
        r.deep_view() == request_to(Method::Get, game_address(shortname@, seq!["runners"@])),
{
    let address = Address::new("https://splits.io/api/v4/games").segment(shortname).segment(
        "runners",
    );
    assert(address.deep_view().segments =~= seq![shortname@] + seq!["runners"@]);
    Request::new(Method::Get, address)
}

/// What is asked of a game by its shortened title: the request for what
/// belongs to the game, or the error of a game that has no such title.
pub open spec fn game_request(shortname: Option<Seq<char>>, what: Seq<char>) -> Result<
    RequestView,
    ErrorView,
> {
    match shortname {
        Some(shortname) => Ok(request_to(Method::Get, game_address(shortname, seq![what]))),
        None => Err(ErrorView::UnidentifiableResource),
    }
}

impl Game {
    /// Searches for a Game based on the name of the game.
    pub fn search(name: &str) -> (r: Request)
        ensures
            r.deep_view() == request_to(
                Method::Get,
                address_at(games_address()).pair("search"@, name@),
            ),
    {
        self::search(name)
    }

    /// Gets a Game based on the shortened title of the game.
    pub fn get(shortname: &str) -> (r: Request)
        ensures
            r.deep_view() == request_to(Method::Get, game_address(shortname@, Seq::empty())),
    {
        self::get(shortname)
    }

    /// Gets the Categories that belong to the Game based on the shortened title of
    /// the game.
    pub fn categories(&self) -> (r: Result<Request, Error>)
        ensures
            result_view(r) == game_request(self.shortname.deep_view(), "categories"@),
    {
        match &self.shortname {
            Some(shortname) => Ok(get_categories(shortname.as_str())),
            None => Err(Error::UnidentifiableResource),
        }
    }

    /// Gets the Runs that belong to the Game based on the shortened title of the
    /// game.
    pub fn runs(&self) -> (r: Result<Request, Error>)
        ensures
            result_view(r) == game_request(self.shortname.deep_view(), "runs"@),
    {
        match &self.shortname {
            Some(shortname) => Ok(get_runs(shortname.as_str())),
            None => Err(Error::UnidentifiableResource),
        }
    }

    /// Gets the Runners that belong to the Game based on the shortened title of
    /// the game.
    pub fn runners(&self) -> (r: Result<Request, Error>)
        ensures
            result_view(r) == game_request(self.shortname.deep_view(), "runners"@),
    {
        match &self.shortname {
            Some(shortname) => Ok(get_runners(shortname.as_str())),
            None => Err(Error::UnidentifiableResource),
        }
    }
}

} // verus!
