//! Operations as state machines.
//!
//! An operation never talks to the store itself. It starts as a `Step`:
//! either it is done, or it names one request to the store and what it waits
//! for. Whoever runs it carries the request out and hands the answer to
//! `resume`, which gives the next step. `run` says where that ends against a
//! faithful store.

use vstd::prelude::*;
use crate::authorization::{
    authorization,
    authorize_user,
    identity,
    AuthorizedUser,
    AuthorizedUserHeader,
};
use crate::connection::{
    record_views,
    BaseConnection,
    FindResultWrapper,
    WishlistConnection,
    WishlistPage,
};
use crate::datetime::DateTime;
use crate::error::{Entity, Error};
use crate::foreign_types::User;
use crate::id::{binary_uuid, Uuid};
use crate::mutation::uuid_from_bson;
use crate::query::{query_user, query_wishlist};
use crate::store::{InsertedIdView, Request, Response, StoreModel, StoreRequest, StoreResponse};
use crate::validation::{reference_check, user_check, validate_product_variant_ids, validate_user};
use crate::wishlist::{
    new_wishlist,
    CreateWishlistInput,
    NewWishlist,
    UpdateWishlistInput,
    Wishlist,
    WishlistPatch,
    WishlistView,
};

verus! {

/// What a finished operation hands back.
#[derive(Debug, PartialEq, Eq)]
pub enum Reply {
    Wishlist(Wishlist),
    User(User),
    Deleted(bool),
    Wishlists(WishlistConnection),
}

/// A reply as contracts see it.
pub enum ReplyView {
    Wishlist(WishlistView),
    User(User),
    Deleted(bool),
    Wishlists(WishlistPage),
}

impl View for Reply {
    type V = ReplyView;

    open spec fn view(&self) -> ReplyView {
        match self {
            Reply::Wishlist(record) => ReplyView::Wishlist(record@),
            Reply::User(user) => ReplyView::User(*user),
            Reply::Deleted(deleted) => ReplyView::Deleted(*deleted),
            Reply::Wishlists(page) => ReplyView::Wishlists(page@),
        }
    }
}

/// What an operation that has asked the store for something waits for, with
/// what it needs to go on.
#[derive(Debug, PartialEq, Eq)]
pub enum Pending {
    /// Creating: the known ones among the product variants of the request.
    CreateVariants { input: CreateWishlistInput, id: Uuid, now: DateTime },
    /// Creating: the owner of the new wishlist.
    CreateUser { input: CreateWishlistInput, id: Uuid, now: DateTime },
    /// Creating: the id under which the record was put.
    CreateInsert,
    /// Creating or changing: the record as it is stored now.
    ReadBack { id: Uuid },
    /// Changing: the wishlist to change.
    UpdateLookup {
        identity: Option<AuthorizedUserHeader>,
        patch: UpdateWishlistInput,
        now: DateTime,
    },
    /// Changing: the known ones among the product variants of the request.
    UpdateVariants { patch: UpdateWishlistInput, now: DateTime },
    /// Changing: whether the change met a record.
    UpdateWrite { id: Uuid },
    /// Deleting: the wishlist to delete.
    DeleteLookup { identity: Option<AuthorizedUserHeader>, id: Uuid },
    /// Deleting: how many records were removed.
    DeleteRemoval { id: Uuid },
    /// Reading a wishlist: the wishlist.
    WishlistLookup { identity: Option<AuthorizedUserHeader>, id: Uuid },
    /// Reading a user: the user.
    UserLookup { id: Uuid },
    /// Listing: the rows of the page and one more.
    ListRows { limit: u32 },
    /// Listing: the count of all wishlists.
    ListCount { nodes: Vec<Wishlist>, has_next_page: bool },
}

/// A waiting operation as contracts see it.
pub enum PendingView {
    CreateVariants { input: NewWishlist, id: Uuid, now: DateTime },
    CreateUser { input: NewWishlist, id: Uuid, now: DateTime },
    CreateInsert,
    ReadBack { id: Uuid },
    UpdateLookup { identity: Option<AuthorizedUser>, patch: WishlistPatch, now: DateTime },
    UpdateVariants { patch: WishlistPatch, now: DateTime },
    UpdateWrite { id: Uuid },
    DeleteLookup { identity: Option<AuthorizedUser>, id: Uuid },
    DeleteRemoval { id: Uuid },
    WishlistLookup { identity: Option<AuthorizedUser>, id: Uuid },
    UserLookup { id: Uuid },
    ListRows { limit: u32 },
    ListCount { nodes: Seq<WishlistView>, has_next_page: bool },
}

impl View for Pending {
    type V = PendingView;

    open spec fn view(&self) -> PendingView {
        match self {
            Pending::CreateVariants { input, id, now } => PendingView::CreateVariants {
                input: input@,
                id: *id,
                now: *now,
            },
            Pending::CreateUser { input, id, now } => PendingView::CreateUser {
                input: input@,
                id: *id,
                now: *now,
            },
            Pending::CreateInsert => PendingView::CreateInsert,
            Pending::ReadBack { id } => PendingView::ReadBack { id: *id },
            Pending::UpdateLookup { identity: header, patch, now } => PendingView::UpdateLookup {
                identity: identity(*header),
                patch: patch@,
                now: *now,
            },
            Pending::UpdateVariants { patch, now } => PendingView::UpdateVariants {
                patch: patch@,
                now: *now,
            },
            Pending::UpdateWrite { id } => PendingView::UpdateWrite { id: *id },
            Pending::DeleteLookup { identity: header, id } => PendingView::DeleteLookup {
                identity: identity(*header),
                id: *id,
            },
            Pending::DeleteRemoval { id } => PendingView::DeleteRemoval { id: *id },
            Pending::WishlistLookup { identity: header, id } => PendingView::WishlistLookup {
                identity: identity(*header),
                id: *id,
            },
            Pending::UserLookup { id } => PendingView::UserLookup { id: *id },
            Pending::ListRows { limit } => PendingView::ListRows { limit: *limit },
            Pending::ListCount { nodes, has_next_page } => PendingView::ListCount {
                nodes: record_views(nodes@),
                has_next_page: *has_next_page,
            },
        }
    }
}

impl PendingView {
    /// An upper bound on the requests that the operation still makes, the
    /// one it waits on included.
    pub open spec fn rank(self) -> nat {
        match self {
            PendingView::CreateVariants { .. } => 4,
            PendingView::CreateUser { .. } => 3,
            PendingView::CreateInsert => 2,
            PendingView::ReadBack { .. } => 1,
            PendingView::UpdateLookup { .. } => 4,
            PendingView::UpdateVariants { .. } => 3,
            PendingView::UpdateWrite { .. } => 2,
            PendingView::DeleteLookup { .. } => 2,
            PendingView::DeleteRemoval { .. } => 1,
            PendingView::WishlistLookup { .. } => 1,
            PendingView::UserLookup { .. } => 1,
            PendingView::ListRows { .. } => 2,
            PendingView::ListCount { .. } => 1,
        }
    }
}

/// Where an operation stands: it needs the answer to one request, or it is
/// done.
#[derive(Debug, PartialEq, Eq)]
pub enum Step {
    Call { pending: Pending, request: StoreRequest },
    Done(Result<Reply, Error>),
}

/// A step as contracts see it.
pub enum StepView {
    Call { pending: PendingView, request: Request },
    Done(Result<ReplyView, Error>),
}

/// The outcome of an operation as contracts see it.
pub open spec fn outcome_view(outcome: Result<Reply, Error>) -> Result<ReplyView, Error> {
    match outcome {
        Ok(reply) => Ok(reply@),
        Err(error) => Err(error),
    }
}

impl View for Step {
    type V = StepView;

    open spec fn view(&self) -> StepView {
        match self {
            Step::Call { pending, request } => StepView::Call {
                pending: pending@,
                request: request@,
            },
            Step::Done(outcome) => StepView::Done(outcome_view(*outcome)),
        }
    }
}

impl StepView {
    /// Whether a record that the step asks to store holds no product variant
    /// twice.
    pub open spec fn wf(self) -> bool {
        match self {
            StepView::Call { request, .. } => request.wf(),
            StepView::Done(_) => true,
        }
    }

    /// An upper bound on the requests that the operation still makes.
    pub open spec fn rank(self) -> nat {
        match self {
            StepView::Call { pending, .. } => pending.rank(),
            StepView::Done(_) => 0,
        }
    }
}

/// What the answer to a lookup of the wishlist `id` gives.
pub open spec fn wishlist_lookup(response: Response, id: Uuid) -> Result<WishlistView, Error> {
    match response {
        Response::Wishlist(Some(record)) => Ok(record),
        Response::Wishlist(None) => Err(Error::NotFound { entity: Entity::Wishlist, id }),
        _ => Err(Error::BackendUnavailable),
    }
}

/// What the answer to a lookup of the user `id` gives.
pub open spec fn user_lookup(response: Response, id: Uuid) -> Result<User, Error> {
    match response {
        Response::User(Some(user)) => Ok(user),
        Response::User(None) => Err(Error::NotFound { entity: Entity::User, id }),
        _ => Err(Error::BackendUnavailable),
    }
}

/// The verdict on the product variants `ids`, given the answer to the lookup
/// of them.
pub open spec fn references_lookup(response: Response, ids: Seq<Uuid>) -> Result<(), Error> {
    match response {
        Response::ProductVariants(found) => reference_check(ids, found),
        _ => Err(Error::BackendUnavailable),
    }
}

/// The UUID that an inserted id holds: that of a binary value of the UUID
/// subtype with sixteen bytes. Anything else is malformed.
pub open spec fn inserted_uuid(inserted: InsertedIdView) -> Result<Uuid, Error> {
    match inserted {
        InsertedIdView::Binary { subtype, bytes } => match binary_uuid(subtype, bytes) {
            Some(id) => Ok(id),
            None => Err(Error::ValidationError),
        },
        _ => Err(Error::ValidationError),
    }
}

/// The ids that a change names for the product variants, none where it names
/// none.
pub open spec fn patch_ids(patch: WishlistPatch) -> Seq<Uuid> {
    match patch.product_variant_ids {
        Some(ids) => ids,
        None => Seq::empty(),
    }
}

/// The step that writes a change: the one write that carries every field the
/// change names. A change that names none is not written; the record is read
/// as it is.
pub open spec fn write_step(input: WishlistPatch, now: DateTime) -> StepView {
    if input.is_empty() {
        read_back_step(input.id)
    } else {
        StepView::Call {
            pending: PendingView::UpdateWrite { id: input.id },
            request: Request::UpdateWishlist { patch: input, at: now },
        }
    }
}

/// The request that reads a record back.
pub open spec fn read_back_step(id: Uuid) -> StepView {
    StepView::Call { pending: PendingView::ReadBack { id }, request: Request::FindWishlist { id } }
}

/// The next step of a waiting operation, given the answer to its request.
pub open spec fn resumed(pending: PendingView, response: Response) -> StepView {
    match pending {
        PendingView::CreateVariants { input, id, now } => match references_lookup(
            response,
            input.product_variant_ids,
        ) {
            Err(error) => StepView::Done(Err(error)),
            Ok(()) => StepView::Call {
                pending: PendingView::CreateUser { input, id, now },
                request: Request::FindUser { id: input.user_id },
            },
        },
        PendingView::CreateUser { input, id, now } => match response {
            Response::User(found) => match user_check(found, input.user_id) {
                Err(error) => StepView::Done(Err(error)),
                Ok(()) => StepView::Call {
                    pending: PendingView::CreateInsert,
                    request: Request::InsertWishlist { wishlist: new_wishlist(input, id, now) },
                },
            },
            _ => StepView::Done(Err(Error::BackendUnavailable)),
        },
        PendingView::CreateInsert => match response {
            Response::Inserted(inserted) => match inserted_uuid(inserted) {
                Err(error) => StepView::Done(Err(error)),
                Ok(id) => read_back_step(id),
            },
            _ => StepView::Done(Err(Error::BackendUnavailable)),
        },
        PendingView::ReadBack { id } => match wishlist_lookup(response, id) {
            Err(error) => StepView::Done(Err(error)),
            Ok(record) => StepView::Done(Ok(ReplyView::Wishlist(record))),
        },
        PendingView::UpdateLookup { identity, patch: input, now } => match wishlist_lookup(
            response,
            input.id,
        ) {
            Err(error) => StepView::Done(Err(error)),
            Ok(record) => match authorization(identity, Some(record.user.id)) {
                Err(error) => StepView::Done(Err(error)),
                Ok(()) => if input.product_variant_ids is Some {
                    StepView::Call {
                        pending: PendingView::UpdateVariants { patch: input, now },
                        request: Request::FindProductVariants { ids: patch_ids(input) },
                    }
                } else if input.name is Some {
                    write_step(input, now)
                } else {
                    StepView::Done(Ok(ReplyView::Wishlist(record)))
                },
            },
        },
        PendingView::UpdateVariants { patch: input, now } => match references_lookup(
            response,
            patch_ids(input),
        ) {
            Err(error) => StepView::Done(Err(error)),
            Ok(()) => write_step(input, now),
        },
        PendingView::UpdateWrite { id } => match response {
            Response::Updated { matched } => if matched {
                read_back_step(id)
            } else {
                StepView::Done(Err(Error::NotFound { entity: Entity::Wishlist, id }))
            },
            _ => StepView::Done(Err(Error::BackendUnavailable)),
        },
        PendingView::DeleteLookup { identity, id } => match wishlist_lookup(response, id) {
            Err(error) => StepView::Done(Err(error)),
            Ok(record) => match authorization(identity, Some(record.user.id)) {
                Err(error) => StepView::Done(Err(error)),
                Ok(()) => StepView::Call {
                    pending: PendingView::DeleteRemoval { id },
                    request: Request::DeleteWishlist { id },
                },
            },
        },
        PendingView::DeleteRemoval { id } => match response {
            Response::Deleted { count } => if count > 0 {
                StepView::Done(Ok(ReplyView::Deleted(true)))
            } else {
                StepView::Done(Err(Error::NotFound { entity: Entity::Wishlist, id }))
            },
            _ => StepView::Done(Err(Error::BackendUnavailable)),
        },
        PendingView::WishlistLookup { identity, id } => match wishlist_lookup(response, id) {
            Err(error) => StepView::Done(Err(error)),
            Ok(record) => match authorization(identity, Some(record.user.id)) {
                Err(error) => StepView::Done(Err(error)),
                Ok(()) => StepView::Done(Ok(ReplyView::Wishlist(record))),
            },
        },
        PendingView::UserLookup { id } => match user_lookup(response, id) {
            Err(error) => StepView::Done(Err(error)),
            Ok(user) => StepView::Done(Ok(ReplyView::User(user))),
        },
        PendingView::ListRows { limit } => match response {
            Response::Wishlists(rows) => StepView::Call {
                pending: PendingView::ListCount {
                    nodes: if rows.len() > limit {
                        rows.subrange(0, limit as int)
                    } else {
                        rows
                    },
                    has_next_page: rows.len() > limit,
                },
                request: Request::CountWishlists,
            },
            _ => StepView::Done(Err(Error::BackendUnavailable)),
        },
        PendingView::ListCount { nodes, has_next_page } => match response {
            Response::Count(total_count) => StepView::Done(
                Ok(ReplyView::Wishlists(WishlistPage { nodes, has_next_page, total_count })),
            ),
            _ => StepView::Done(Err(Error::BackendUnavailable)),
        },
    }
}

/// Where an operation ends, and what the store then holds, when every
/// request is answered by a store that holds `store` at first.
pub open spec fn run(step: StepView, store: StoreModel) -> (Result<ReplyView, Error>, StoreModel)
    decreases step.rank(),
{
    match step {
        StepView::Done(outcome) => (outcome, store),
        StepView::Call { pending, request } => run(
            resumed(pending, store.answer(request)),
            store.after(request),
        ),
    }
}

/// A copy of a list of ids.
pub fn copy_ids(ids: &Vec<Uuid>) -> (copy: Vec<Uuid>)
    ensures
        copy@ == ids@,
{
    let mut copy: Vec<Uuid> = Vec::new();
    let mut i: usize = 0;
    while i < ids.len()
        invariant
            i <= ids.len(),
            copy@ == ids@.take(i as int),
        decreases ids.len() - i,
    {
        copy.push(ids[i]);
        i += 1;
    }
    assert(ids@.take(ids.len() as int) == ids@);
    copy
}

/// The verdict on the product variants `ids`, given the answer to the lookup
/// of them.
pub fn check_references(response: &StoreResponse, ids: &Vec<Uuid>) -> (verdict: Result<(), Error>)
    ensures
        verdict == references_lookup(response@, ids@),
{
    match response {
        StoreResponse::ProductVariants(found) => validate_product_variant_ids(ids, found),
        _ => Err(Error::BackendUnavailable),
    }
}

/// The step that writes a change.
fn write_change(input: UpdateWishlistInput, now: DateTime) -> (step: Step)
    ensures
        step@ == write_step(input@, now),
{
    let id = input.id;
    if input.product_variant_ids.is_none() && input.name.is_none() {
        read_back(id)
    } else {
        Step::Call {
            pending: Pending::UpdateWrite { id },
            request: StoreRequest::UpdateWishlist { patch: input, at: now },
        }
    }
}

/// The step that reads a record back.
fn read_back(id: Uuid) -> (step: Step)
    ensures
        step@ == read_back_step(id),
{
    Step::Call { pending: Pending::ReadBack { id }, request: StoreRequest::FindWishlist { id } }
}

/// Takes a waiting operation one step on with the answer to its request. An
/// answer of another kind than the request asks for, and a failure of the
/// store, end the operation with `BackendUnavailable`.
pub fn resume(pending: Pending, response: StoreResponse) -> (step: Step)
    ensures
        step@ == resumed(pending@, response@),
        step@.rank() < pending@.rank(),
        step@.wf(),
{
    match pending {
        Pending::CreateVariants { input, id, now } => {
            match check_references(&response, &input.product_variant_ids) {
                Err(error) => Step::Done(Err(error)),
                Ok(()) => {
                    let user_id = input.user_id;
                    Step::Call {
                        pending: Pending::CreateUser { input, id, now },
                        request: StoreRequest::FindUser { id: user_id },
                    }
                },
            }
        },
        Pending::CreateUser { input, id, now } => {
            match response {
                StoreResponse::User(found) => match validate_user(&found, input.user_id) {
                    Err(error) => Step::Done(Err(error)),
                    Ok(()) => Step::Call {
                        pending: Pending::CreateInsert,
                        request: StoreRequest::InsertWishlist {
                            wishlist: Wishlist::create(input, id, now),
                        },
                    },
                },
                _ => Step::Done(Err(Error::BackendUnavailable)),
            }
        },
        Pending::CreateInsert => {
            match response {
                StoreResponse::Inserted(inserted) => match uuid_from_bson(&inserted) {
                    Err(error) => Step::Done(Err(error)),
                    Ok(id) => read_back(id),
                },
                _ => Step::Done(Err(Error::BackendUnavailable)),
            }
        },
        Pending::ReadBack { id } => {
            match query_wishlist(response, id) {
                Err(error) => Step::Done(Err(error)),
                Ok(record) => Step::Done(Ok(Reply::Wishlist(record))),
            }
        },
        Pending::UpdateLookup { identity: header, patch: input, now } => {
            match query_wishlist(response, input.id) {
                Err(error) => Step::Done(Err(error)),
                Ok(record) => match authorize_user(header.as_ref(), Some(record.user.id)) {
                    Err(error) => Step::Done(Err(error)),
                    Ok(()) => {
                        let ids = match &input.product_variant_ids {
                            Some(ids) => Some(copy_ids(ids)),
                            None => None,
                        };
                        match ids {
                            Some(ids) => Step::Call {
                                pending: Pending::UpdateVariants { patch: input, now },
                                request: StoreRequest::FindProductVariants { ids },
                            },
                            None => if input.name.is_some() {
                                write_change(input, now)
                            } else {
                                Step::Done(Ok(Reply::Wishlist(record)))
                            },
                        }
                    },
                },
            }
        },
        Pending::UpdateVariants { patch: input, now } => {
            let verdict = match &input.product_variant_ids {
                Some(ids) => check_references(&response, ids),
                None => check_references(&response, &Vec::new()),
            };
            match verdict {
                Err(error) => Step::Done(Err(error)),
                Ok(()) => write_change(input, now),
            }
        },
        Pending::UpdateWrite { id } => {
            match response {
                StoreResponse::Updated { matched } => if matched {
                    read_back(id)
                } else {
                    Step::Done(Err(Error::NotFound { entity: Entity::Wishlist, id }))
                },
                _ => Step::Done(Err(Error::BackendUnavailable)),
            }
        },
        Pending::DeleteLookup { identity: header, id } => {
            match query_wishlist(response, id) {
                Err(error) => Step::Done(Err(error)),
                Ok(record) => match authorize_user(header.as_ref(), Some(record.user.id)) {
                    Err(error) => Step::Done(Err(error)),
                    Ok(()) => Step::Call {
                        pending: Pending::DeleteRemoval { id },
                        request: StoreRequest::DeleteWishlist { id },
                    },
                },
            }
        },
        Pending::DeleteRemoval { id } => {
            match response {
                StoreResponse::Deleted { count } => if count > 0 {
                    Step::Done(Ok(Reply::Deleted(true)))
                } else {
                    Step::Done(Err(Error::NotFound { entity: Entity::Wishlist, id }))
                },
                _ => Step::Done(Err(Error::BackendUnavailable)),
            }
        },
        Pending::WishlistLookup { identity: header, id } => {
            match query_wishlist(response, id) {
                Err(error) => Step::Done(Err(error)),
                Ok(record) => match authorize_user(header.as_ref(), Some(record.user.id)) {
                    Err(error) => Step::Done(Err(error)),
                    Ok(()) => Step::Done(Ok(Reply::Wishlist(record))),
                },
            }
        },
        Pending::UserLookup { id } => {
            match query_user(response, id) {
                Err(error) => Step::Done(Err(error)),
                Ok(user) => Step::Done(Ok(Reply::User(user))),
            }
        },
        Pending::ListRows { limit } => {
            match response {
                StoreResponse::Wishlists(rows) => {
                    let mut nodes = rows;
                    let has_next_page = nodes.len() > limit as usize;
                    let ghost all = nodes@;
                    nodes.truncate(limit as usize);
                    assert(record_views(nodes@) == if all.len() > limit {
                        record_views(all).subrange(0, limit as int)
                    } else {
                        record_views(all)
                    });
                    Step::Call {
                        pending: Pending::ListCount { nodes, has_next_page },
                        request: StoreRequest::CountWishlists,
                    }
                },
                _ => Step::Done(Err(Error::BackendUnavailable)),
            }
        },
        Pending::ListCount { nodes, has_next_page } => {
            match response {
                StoreResponse::Count(total_count) => {
                    let found = FindResultWrapper { items: nodes, has_next_page, total_count };
                    let page = WishlistConnection::from(BaseConnection::from(found));
                    Step::Done(Ok(Reply::Wishlists(page)))
                },
                _ => Step::Done(Err(Error::BackendUnavailable)),
            }
        },
    }
}

} // verus!
