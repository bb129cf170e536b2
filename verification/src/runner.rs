//! The runner module describes the requests that concern Runners. A Runner
//! is a user with at least one Run tied to their splits.io account.

use vstd::prelude::*;
use crate::request::address_at;
use crate::request::request_to;
use crate::request::Address;
use crate::request::AddressView;
use crate::request::Method;
use crate::request::Request;
use crate::schema::Runner;

verus! {

/// The address of the collection of runners.
pub open spec fn runners_address() -> Seq<char> {
    "https://splits.io/api/v4/runners"@
}

/// The address of the runner that is the current user.
pub open spec fn myself_address() -> Seq<char> {
    "https://splits.io/api/v4/runner"@
}

/// The address of what belongs to a runner: the runner itself where `what`
/// is empty.
pub open spec fn runner_address(name: Seq<char>, what: Seq<Seq<char>>) -> AddressView {
    AddressView { base: runners_address(), segments: seq![name] + what, query: None }
}

/// Searches for a Runner based on the name of the runner.
pub fn search(name: &str) -> (r: Request)
    ensures
        r.deep_view() == request_to(
            Method::Get,
            address_at(runners_address()).pair("search"@, name@),
        ),
{
    Request::new(Method::Get, Address::new("https://splits.io/api/v4/runners").pair("search", name))
}

/// Gets the Runner that is associated with the current user.
pub fn myself() -> (r: Request)
    ensures
        r.deep_view() == request_to(Method::Get, address_at(myself_address())),
{
    Request::new(Method::Get, Address::new("https://splits.io/api/v4/runner"))
}

/// Gets a Runner based on the name of the runner.
pub fn get(name: &str) -> (r: Request)
    ensures
        r.deep_view() == request_to(Method::Get, runner_address(name@, Seq::empty())),
{
    let address = Address::new("https://splits.io/api/v4/runners").segment(name);
    assert(address.deep_view().segments =~= seq![name@] + Seq::empty());
    Request::new(Method::Get, address)
}

/// Gets the Runs that are associated with a Runner.
pub fn get_runs(name: &str) -> (r: Request)
    ensures
        r.deep_view() == request_to(Method::Get, runner_address(name@, seq!["runs"@])),
{
    let address = Address::new("https://splits.io/api/v4/runners").segment(name).segment("runs");
    assert(address.deep_view().segments =~= seq![name@] + seq!["runs"@]);
    Request::new(Method::Get, address)
}

/// Gets the personal best Runs that are associated with a Runner.
pub fn get_pbs(name: &str) -> (r: Request)
    ensures
        r.deep_view() == request_to(Method::Get, runner_address(name@, seq!["pbs"@])),
{
    let address = Address::new("https://splits.io/api/v4/runners").segment(name).segment("pbs");
    assert(address.deep_view().segments =~= seq![name@] + seq!["pbs"@]);
    Request::new(Method::Get, address)
}

/// Gets the Games that are associated with a Runner.
pub fn get_games(name: &str) -> (r: Request)
    ensures
        r.deep_view() == request_to(Method::Get, runner_address(name@, seq!["games"@])),
{
    let address = Address::new("https://splits.io/api/v4/runners").segment(name).segment("games");
    assert(address.deep_view().segments =~= seq![name@] + seq!["games"@]);
    Request::new(Method::Get, address)
}

/// Gets the Categories that are associated with a Runner.
pub fn get_categories(name: &str) -> (r: Request)
    ensures
        r.deep_view() == request_to(Method::Get, runner_address(name@, seq!["categories"@])),
{
    let address = Address::new("https://splits.io/api/v4/runners").segment(name).segment(
        "categories",
    );
    assert(address.deep_view().segments =~= seq![name@] + seq!["categories"@]);
    Request::new(Method::Get, address)
}

impl Runner {
    /// Searches for a Runner based on the name of the runner.
    pub fn search(name: &str) -> (r: Request)
        ensures
            r.deep_view() == request_to(
                Method::Get,
                address_at(runners_address()).pair("search"@, name@),
            ),
    {
        self::search(name)
    }

    /// Gets the Runner that is associated with the current user.
    pub fn myself() -> (r: Request)
        ensures
            r.deep_view() == request_to(Method::Get, address_at(myself_address())),
    {
        self::myself()
    }

    /// Gets a Runner based on the name of the runner.
    pub fn get(name: &str) -> (r: Request)
        ensures
            r.deep_view() == request_to(Method::Get, runner_address(name@, Seq::empty())),
    {
        self::get(name)
    }

    /// Gets the Runs that are associated with the Runner.
    pub fn runs(&self) -> (r: Request)
        ensures
            r.deep_view() == request_to(Method::Get, runner_address(self.name@, seq!["runs"@])),
    {
        get_runs(self.name.as_str())
    }

    /// Gets the personal best Runs that are associated with the Runner.
    pub fn pbs(&self) -> (r: Request)
        ensures
            r.deep_view() == request_to(Method::Get, runner_address(self.name@, seq!["pbs"@])),
    {
        get_pbs(self.name.as_str())
    }

    /// Gets the Games that are associated with the Runner.
    pub fn games(&self) -> (r: Request)
        ensures
            r.deep_view() == request_to(Method::Get, runner_address(self.name@, seq!["games"@])),
    {
        get_games(self.name.as_str())
    }

    /// Gets the Categories that are associated with the Runner.
    pub fn categories(&self) -> (r: Request)
        ensures
            r.deep_view() == request_to(
                Method::Get,
                runner_address(self.name@, seq!["categories"@]),
            ),
    {
        get_categories(self.name.as_str())
    }
}

} // verus!
