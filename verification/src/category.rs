//! The category module describes the requests that concern Categories. A
//! Category is a ruleset for a Game and may contain Runs.

use vstd::prelude::*;
use crate::request::request_to;
use crate::request::Address;
use crate::request::AddressView;
use crate::request::Method;
use crate::request::Request;
use crate::schema::Category;

verus! {

/// The address of the collection of categories.
pub open spec fn categories_address() -> Seq<char> {
    "https://splits.io/api/v4/categories"@
}

/// The address of what belongs to a category: the category itself where
/// `what` is empty.
pub open spec fn category_address(id: Seq<char>, what: Seq<Seq<char>>) -> AddressView {
    AddressView { base: categories_address(), segments: seq![id] + what, query: None }
}

/// Gets a Category.
pub fn get(id: &str) -> (r: Request)
    ensures
        r.deep_view() == request_to(Method::Get, category_address(id@, Seq::empty())),
{
    let address = Address::new("https://splits.io/api/v4/categories").segment(id);
    assert(address.deep_view().segments =~= seq![id@] + Seq::empty());
    Request::new(Method::Get, address)
}

/// Gets the Runners that belong to a Category.
pub fn get_runners(id: &str) -> (r: Request)
    ensures
        r.deep_view() == request_to(Method::Get, category_address(id@, seq!["runners"@])),
{
    let address = Address::new("https://splits.io/api/v4/categories").segment(id).segment(
        "runners",
    );
    assert(address.deep_view().segments =~= seq![id@] + seq!["runners"@]);
    Request::new(Method::Get, address)
}

/// Gets the Runs that belong to a Category.
pub fn get_runs(id: &str) -> (r: Request)
    ensures
        r.deep_view() == request_to(Method::Get, category_address(id@, seq!["runs"@])),
{
    let address = Address::new("https://splits.io/api/v4/categories").segment(id).segment("runs");
    assert(address.deep_view().segments =~= seq![id@] + seq!["runs"@]);
    Request::new(Method::Get, address)
}

impl Category {
    /// Gets a Category.
    pub fn get(id: &str) -> (r: Request)
        ensures
            r.deep_view() == request_to(Method::Get, category_address(id@, Seq::empty())),
    {
        self::get(id)
    }

    /// Gets the Runners that belong to the Category.
    pub fn runners(&self) -> (r: Request)
        ensures
            r.deep_view() == request_to(Method::Get, category_address(self.id@, seq!["runners"@])),
    {
        get_runners(self.id.as_str())
    }

    /// Gets the Runs that belong to the Category.
    pub fn runs(&self) -> (r: Request)
        ensures
            r.deep_view() == request_to(Method::Get, category_address(self.id@, seq!["runs"@])),
    {
        get_runs(self.id.as_str())
    }
}

} // verus!
