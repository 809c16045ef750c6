//! Making, changing and deleting wishlists.

use vstd::prelude::*;
use crate::authorization::{
    authorization,
    authorize_user,
    identity,
    identity_of,
    AuthorizedUser,
    AuthorizedUserHeader,
};
use crate::datetime::{system_now, DateTime};
use crate::error::Error;
use crate::id::{binary_to_uuid, random_uuid, Uuid};
use crate::operation::{copy_ids, inserted_uuid, Pending, PendingView, Step, StepView};
use crate::store::{InsertedId, InsertedIdView, Request, StoreRequest};
use crate::wishlist::{CreateWishlistInput, NewWishlist, UpdateWishlistInput, WishlistPatch};

verus! {

/// The wishlist mutations.
pub struct Mutation;

/// The first step of making a wishlist for a caller, under the id `id` at
/// the time `now`: only the owner named in the request, or a caller with a
/// permissive role, gets as far as the store.
pub open spec fn create_started(
    caller: Option<AuthorizedUser>,
    input: NewWishlist,
    id: Uuid,
    now: DateTime,
) -> StepView {
    match authorization(caller, Some(input.user_id)) {
        Err(error) => StepView::Done(Err(error)),
        Ok(()) => StepView::Call {
            pending: PendingView::CreateVariants { input, id, now },
            request: Request::FindProductVariants { ids: input.product_variant_ids },
        },
    }
}

/// The first step of changing a wishlist for a caller at the time `now`.
pub open spec fn update_started(
    caller: Option<AuthorizedUser>,
    input: WishlistPatch,
    now: DateTime,
) -> StepView {
    StepView::Call {
        pending: PendingView::UpdateLookup { identity: caller, patch: input, now },
        request: Request::FindWishlist { id: input.id },
    }
}

/// The first step of deleting the wishlist `id` for a caller.
pub open spec fn delete_started(caller: Option<AuthorizedUser>, id: Uuid) -> StepView {
    StepView::Call {
        pending: PendingView::DeleteLookup { identity: caller, id },
        request: Request::FindWishlist { id },
    }
}

/// Reads the UUID out of the id that the store hands back for a new record.
/// Only a binary value that holds a UUID will do.
pub fn uuid_from_bson(bson: &InsertedId) -> (id: Result<Uuid, Error>)
    ensures
        id == inserted_uuid(bson@),
{
    match bson {
        InsertedId::Binary { subtype, bytes } => match binary_to_uuid(*subtype, bytes) {
            Some(id) => Ok(id),
            None => Err(Error::ValidationError),
        },
        _ => Err(Error::ValidationError),
    }
}

/// Reads the text out of the id that a store which keeps ids as texts hands
/// back for a new record. Only a text will do.
pub fn string_uuid_from_bson(bson: InsertedId) -> (id: Result<String, Error>)
    ensures
        match bson@ {
            InsertedIdView::String(text) => id matches Ok(got) && got@ == text,
            _ => id == Err::<String, Error>(Error::ValidationError),
        },
{
    match bson {
        InsertedId::String(text) => Ok(text),
        _ => Err(Error::ValidationError),
    }
}

impl Mutation {
    /// Starts making a wishlist, under a fresh random id and at the current
    /// time.
    pub fn create_wishlist(
        &self,
        caller: Option<&AuthorizedUserHeader>,
        input: CreateWishlistInput,
    ) -> (step: Step)
        ensures
            exists|id: Uuid, now: DateTime|
                step@ == #[trigger] create_started(identity_of(caller), input@, id, now),
    {
        let id = random_uuid();
        let now = system_now();
        self.create_wishlist_as(caller, input, id, now)
    }

    /// Starts making a wishlist under the id `id` at the time `now`.
    pub fn create_wishlist_as(
        &self,
        caller: Option<&AuthorizedUserHeader>,
        input: CreateWishlistInput,
        id: Uuid,
        now: DateTime,
    ) -> (step: Step)
        ensures
            step@ == create_started(identity_of(caller), input@, id, now),
    {
        match authorize_user(caller, Some(input.user_id)) {
            Err(error) => Step::Done(Err(error)),
            Ok(()) => {
                let ids = copy_ids(&input.product_variant_ids);
                Step::Call {
                    pending: Pending::CreateVariants { input, id, now },
                    request: StoreRequest::FindProductVariants { ids },
                }
            },
        }
    }

    /// Starts changing a wishlist at the current time.
    pub fn update_wishlist(
        &self,
        caller: Option<AuthorizedUserHeader>,
        input: UpdateWishlistInput,
    ) -> (step: Step)
        ensures
            exists|now: DateTime| step@ == #[trigger] update_started(identity(caller), input@, now),
    {
        let now = system_now();
        self.update_wishlist_at(caller, input, now)
    }

    /// Starts changing a wishlist at the time `now`. Whether the caller may
    /// change it is decided once it is found, by its owner.
    pub fn update_wishlist_at(
        &self,
        caller: Option<AuthorizedUserHeader>,
        input: UpdateWishlistInput,
        now: DateTime,
    ) -> (step: Step)
        ensures
            step@ == update_started(identity(caller), input@, now),
    {
        let id = input.id;
        Step::Call {
            pending: Pending::UpdateLookup { identity: caller, patch: input, now },
            request: StoreRequest::FindWishlist { id },
        }
    }

    /// Starts deleting the wishlist `id`. Whether the caller may delete it is
    /// decided once it is found, by its owner.
    pub fn delete_wishlist(&self, caller: Option<AuthorizedUserHeader>, id: Uuid) -> (step: Step)
        ensures
            step@ == delete_started(identity(caller), id),
    {
        Step::Call {
            pending: Pending::DeleteLookup { identity: caller, id },
            request: StoreRequest::FindWishlist { id },
        }
    }
}

} // verus!
