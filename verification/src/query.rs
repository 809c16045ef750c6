//! Reading wishlists and users.

use vstd::prelude::*;
use crate::authorization::{identity, AuthorizedUser, AuthorizedUserHeader};
use crate::error::{Entity, Error};
use crate::foreign_types::User;
use crate::id::Uuid;
use crate::operation::{user_lookup, wishlist_lookup, Pending, PendingView, Step, StepView};
use crate::order::{default_order, OrderSpec};
use crate::store::{Request, StoreRequest, StoreResponse};
use crate::wishlist::Wishlist;

verus! {

/// The wishlist queries.
pub struct Query;

/// How many wishlists a page shows where the request names no limit.
pub const DEFAULT_LIMIT: u32 = 25;

/// The first step of reading the wishlist `id` for a caller.
pub open spec fn wishlist_started(caller: Option<AuthorizedUser>, id: Uuid) -> StepView {
    StepView::Call {
        pending: PendingView::WishlistLookup { identity: caller, id },
        request: Request::FindWishlist { id },
    }
}

/// The first step of reading the user `id`.
pub open spec fn user_started(id: Uuid) -> StepView {
    StepView::Call { pending: PendingView::UserLookup { id }, request: Request::FindUser { id } }
}

/// The first step of listing a page of wishlists: it asks for one row more
/// than the page shows, to learn whether another page follows.
pub open spec fn listing_started(limit: u32, skip: u64, order: OrderSpec) -> StepView {
    StepView::Call {
        pending: PendingView::ListRows { limit },
        request: Request::ListWishlists { order, skip, limit: (limit + 1) as u64 },
    }
}

/// What a lookup by id gives: the record, or that there is none of this kind
/// with this id.
pub fn query_object<T>(found: Option<T>, entity: Entity, id: Uuid) -> (object: Result<T, Error>)
    ensures
        object == match found {
            Some(record) => Ok::<T, Error>(record),
            None => Err(Error::NotFound { entity, id }),
        },
{
    match found {
        Some(record) => Ok(record),
        None => Err(Error::NotFound { entity, id }),
    }
}

/// Reads the wishlist `id` out of the store's answer to a lookup of it.
pub fn query_wishlist(response: StoreResponse, id: Uuid) -> (wishlist: Result<Wishlist, Error>)
    ensures
        match wishlist_lookup(response@, id) {
            Ok(record) => wishlist matches Ok(found) && found@ == record,
            Err(error) => wishlist matches Err(e) && e == error,
        },
{
    match response {
        StoreResponse::Wishlist(found) => query_object(found, Entity::Wishlist, id),
        _ => Err(Error::BackendUnavailable),
    }
}

/// Reads the user `id` out of the store's answer to a lookup of it.
pub fn query_user(response: StoreResponse, id: Uuid) -> (user: Result<User, Error>)
    ensures
        user == user_lookup(response@, id),
{
    match response {
        StoreResponse::User(found) => query_object(found, Entity::User, id),
        _ => Err(Error::BackendUnavailable),
    }
}

impl Query {
    /// Starts reading the user `id`. No caller is refused a user.
    pub fn user_entity_resolver(&self, id: Uuid) -> (step: Step)
        ensures
            step@ == user_started(id),
    {
        Step::Call { pending: Pending::UserLookup { id }, request: StoreRequest::FindUser { id } }
    }

    /// Starts reading the wishlist `id` for a caller. Whether the caller may
    /// read it is decided once it is found, by its owner.
    pub fn wishlist(&self, caller: Option<AuthorizedUserHeader>, id: Uuid) -> (step: Step)
        ensures
            step@ == wishlist_started(identity(caller), id),
    {
        Step::Call {
            pending: Pending::WishlistLookup { identity: caller, id },
            request: StoreRequest::FindWishlist { id },
        }
    }

    /// Starts reading the wishlist `id` as an entity of a composed schema.
    pub fn wishlist_entity_resolver(
        &self,
        caller: Option<AuthorizedUserHeader>,
        id: Uuid,
    ) -> (step: Step)
        ensures
            step@ == wishlist_started(identity(caller), id),
    {
        self.wishlist(caller, id)
    }

    /// Starts listing a page of wishlists: at most `limit` of them (25 where
    /// none is named) after the first `skip` (none where none is named), in
    /// the order `order` (by id, ascending, where none is named).
    pub fn wishlists(
        &self,
        limit: Option<u32>,
        skip: Option<u64>,
        order: Option<OrderSpec>,
    ) -> (step: Step)
        ensures
            step@ == listing_started(
                match limit {
                    Some(limit) => limit,
                    None => DEFAULT_LIMIT,
                },
                match skip {
                    Some(skip) => skip,
                    None => 0,
                },
                match order {
                    Some(order) => order,
                    None => default_order(),
                },
            ),
    {
        let limit = match limit {
            Some(limit) => limit,
            None => DEFAULT_LIMIT,
        };
        let skip = match skip {
            Some(skip) => skip,
            None => 0,
        };
        let order = match order {
            Some(order) => order,
            None => OrderSpec::new_default(),
        };
        let rows: u64 = limit as u64 + 1;
        Step::Call {
            pending: Pending::ListRows { limit },
            request: StoreRequest::ListWishlists { order, skip, limit: rows },
        }
    }
}

} // verus!
