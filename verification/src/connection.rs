//! The envelope in which a page of a listing is handed out.

use vstd::prelude::*;
use vstd::std_specs::convert::FromSpecImpl;
use crate::wishlist::{Wishlist, WishlistView};

verus! {

/// A page of some kind of record.
#[derive(Debug, PartialEq, Eq)]
pub struct BaseConnection<T> {
    /// The resulting entities.
    pub nodes: Vec<T>,
    /// Whether this connection has a next page.
    pub has_next_page: bool,
    /// The total amount of items in this connection.
    pub total_count: u64,
}

/// What a paged lookup found: the records of the page, whether more follow,
/// and how many records there are in all.
#[derive(Debug, PartialEq, Eq)]
pub struct FindResultWrapper<Node> {
    pub items: Vec<Node>,
    pub has_next_page: bool,
    pub total_count: u64,
}

/// The count of all records of a listing, whatever page is shown.
#[derive(Clone, Copy, Debug, PartialEq, Eq, Structural)]
pub struct AdditionalFields {
    total_count: u64,
}

impl AdditionalFields {
    /// The count as contracts see it.
    pub closed spec fn count(self) -> u64 {
        self.total_count
    }

    /// Holds the count `total_count`.
    pub fn new(total_count: u64) -> (fields: AdditionalFields)
        ensures
            fields.count() == total_count,
    {
        AdditionalFields { total_count }
    }

    /// The count of all records.
    pub fn total_count(&self) -> (total_count: u64)
        ensures
            total_count == self.count(),
    {
        self.total_count
    }
}

/// A page of wishlists.
#[derive(Debug, PartialEq, Eq)]
pub struct WishlistConnection {
    /// The resulting entities.
    pub nodes: Vec<Wishlist>,
    /// Whether this connection has a next page.
    pub has_next_page: bool,
    /// The total amount of items in this connection.
    pub total_count: u64,
}

/// A page of wishlists as contracts see it.
pub struct WishlistPage {
    pub nodes: Seq<WishlistView>,
    pub has_next_page: bool,
    pub total_count: u64,
}

/// The records of a list as contracts see them.
pub open spec fn record_views(records: Seq<Wishlist>) -> Seq<WishlistView> {
    records.map_values(|record: Wishlist| record@)
}

impl View for WishlistConnection {
    type V = WishlistPage;

    open spec fn view(&self) -> WishlistPage {
        WishlistPage {
            nodes: record_views(self.nodes@),
            has_next_page: self.has_next_page,
            total_count: self.total_count,
        }
    }
}

impl<Node> From<FindResultWrapper<Node>> for BaseConnection<Node> {
    fn from(value: FindResultWrapper<Node>) -> (connection: Self) {
        BaseConnection {
            nodes: value.items,
            has_next_page: value.has_next_page,
            total_count: value.total_count,
        }
    }
}

impl<Node> FromSpecImpl<FindResultWrapper<Node>> for BaseConnection<Node> {
    open spec fn obeys_from_spec() -> bool {
        true
    }

    open spec fn from_spec(value: FindResultWrapper<Node>) -> Self {
        BaseConnection {
            nodes: value.items,
            has_next_page: value.has_next_page,
            total_count: value.total_count,
        }
    }
}

impl From<BaseConnection<Wishlist>> for WishlistConnection {
    fn from(value: BaseConnection<Wishlist>) -> (connection: Self) {
        WishlistConnection {
            nodes: value.nodes,
            has_next_page: value.has_next_page,
            total_count: value.total_count,
        }
    }
}

impl FromSpecImpl<BaseConnection<Wishlist>> for WishlistConnection {
    open spec fn obeys_from_spec() -> bool {
        true
    }

    open spec fn from_spec(value: BaseConnection<Wishlist>) -> Self {
        WishlistConnection {
            nodes: value.nodes,
            has_next_page: value.has_next_page,
            total_count: value.total_count,
        }
    }
}

} // verus!
