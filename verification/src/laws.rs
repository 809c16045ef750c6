//! What the operations come to against a faithful store.
//!
//! `run` follows an operation request by request. The laws here say, in one
//! expression each, where it ends and what it leaves in the store, and draw
//! from that what callers rely on.

use vstd::prelude::*;
use crate::authorization::{authorization, AuthorizedUser};
use crate::connection::WishlistPage;
use crate::datetime::DateTime;
use crate::error::{Entity, Error, Reference};
use crate::foreign_types::{ProductVariant, User};
use crate::id::{law_binary_round_trip, Uuid};
use crate::mutation::{create_started, delete_started, update_started};
use crate::operation::{patch_ids, resumed, run, PendingView, ReplyView, StepView};
use crate::order::{law_ordered_is_permutation, ordered, window, OrderSpec};
use crate::query::{listing_started, user_started, wishlist_started};
use crate::store::{
    holds_id,
    is_position_of,
    lemma_position_of,
    lemma_position_unique,
    named_by,
    position_of,
    record_of,
    Request,
    Response,
    StoreModel,
};
use crate::validation::{
    first_missing,
    is_missing,
    law_one_missing_reference_refuses,
    lemma_first_missing_exists,
    reference_check,
};
use crate::wishlist::{
    law_patched_keeps_well_formed,
    law_product_variants_distinct,
    new_wishlist,
    patched,
    NewWishlist,
    WishlistPatch,
    WishlistView,
};

verus! {

/// Where making a wishlist ends: the caller must be let through for the
/// owner named in the request, every product variant and the owner must be
/// known, and the id must be free; then the new record is stored and handed
/// back. A product variant or an owner that is not known is a reference that
/// is not found. In every other case the store is left as it was.
pub open spec fn create_outcome(
    store: StoreModel,
    caller: Option<AuthorizedUser>,
    input: NewWishlist,
    id: Uuid,
    now: DateTime,
) -> (Result<ReplyView, Error>, StoreModel) {
    let record = new_wishlist(input, id, now);
    match authorization(caller, Some(input.user_id)) {
        Err(error) => (Err(error), store),
        Ok(()) => if !store.available {
            (Err(Error::BackendUnavailable), store)
        } else {
            match reference_check(input.product_variant_ids, store.product_variants) {
                Err(error) => (Err(error), store),
                Ok(()) => if !store.users.contains(User { id: input.user_id }) {
                    (
                        Err(
                            Error::ReferenceNotFound {
                                reference: Reference::User,
                                id: input.user_id,
                            },
                        ),
                        store,
                    )
                } else if holds_id(store.wishlists, id) {
                    (Err(Error::BackendUnavailable), store)
                } else {
                    (
                        Ok(ReplyView::Wishlist(record)),
                        StoreModel { wishlists: store.wishlists.push(record), ..store },
                    )
                },
            }
        },
    }
}

/// Where changing a wishlist ends: the record must exist, the caller must be
/// let through for its owner, and every product variant that the request
/// names must be known; then the record is changed as `patched` says and
/// handed back. In every other case the store is left as it was.
pub open spec fn update_outcome(
    store: StoreModel,
    caller: Option<AuthorizedUser>,
    patch: WishlistPatch,
    now: DateTime,
) -> (Result<ReplyView, Error>, StoreModel) {
    if !store.available {
        (Err(Error::BackendUnavailable), store)
    } else {
        match record_of(store.wishlists, patch.id) {
            None => (Err(Error::NotFound { entity: Entity::Wishlist, id: patch.id }), store),
            Some(record) => match authorization(caller, Some(record.user.id)) {
                Err(error) => (Err(error), store),
                Ok(()) => match reference_check(patch_ids(patch), store.product_variants) {
                    Err(error) => (Err(error), store),
                    Ok(()) => (
                        Ok(ReplyView::Wishlist(patched(record, patch, now))),
                        StoreModel {
                            wishlists: store.wishlists.update(
                                position_of(store.wishlists, patch.id),
                                patched(record, patch, now),
                            ),
                            ..store
                        },
                    ),
                },
            },
        }
    }
}

/// Where deleting a wishlist ends: the record must exist and the caller must
/// be let through for its owner; then the record is removed. In every other
/// case the store is left as it was.
pub open spec fn delete_outcome(
    store: StoreModel,
    caller: Option<AuthorizedUser>,
    id: Uuid,
) -> (Result<ReplyView, Error>, StoreModel) {
    if !store.available {
        (Err(Error::BackendUnavailable), store)
    } else {
        match record_of(store.wishlists, id) {
            None => (Err(Error::NotFound { entity: Entity::Wishlist, id }), store),
            Some(record) => match authorization(caller, Some(record.user.id)) {
                Err(error) => (Err(error), store),
                Ok(()) => (
                    Ok(ReplyView::Deleted(true)),
                    StoreModel {
                        wishlists: store.wishlists.remove(position_of(store.wishlists, id)),
                        ..store
                    },
                ),
            },
        }
    }
}

/// What reading a wishlist gives: the record must exist, and the caller must
/// be let through for its owner.
pub open spec fn wishlist_outcome(
    store: StoreModel,
    caller: Option<AuthorizedUser>,
    id: Uuid,
) -> Result<ReplyView, Error> {
    if !store.available {
        Err(Error::BackendUnavailable)
    } else {
        match record_of(store.wishlists, id) {
            None => Err(Error::NotFound { entity: Entity::Wishlist, id }),
            Some(record) => match authorization(caller, Some(record.user.id)) {
                Err(error) => Err(error),
                Ok(()) => Ok(ReplyView::Wishlist(record)),
            },
        }
    }
}

/// What reading a user gives.
pub open spec fn user_outcome(store: StoreModel, id: Uuid) -> Result<ReplyView, Error> {
    if !store.available {
        Err(Error::BackendUnavailable)
    } else if store.users.contains(User { id }) {
        Ok(ReplyView::User(User { id }))
    } else {
        Err(Error::NotFound { entity: Entity::User, id })
    }
}

/// What listing a page gives: the records `skip` to `skip + limit` of all
/// wishlists in the order, whether a record follows them, and the count of
/// all wishlists.
pub open spec fn listing_outcome(
    store: StoreModel,
    limit: u32,
    skip: u64,
    order: OrderSpec,
) -> Result<ReplyView, Error> {
    if !store.available {
        Err(Error::BackendUnavailable)
    } else {
        Ok(
            ReplyView::Wishlists(
                WishlistPage {
                    nodes: window(ordered(store.wishlists, order), skip as int, limit as int),
                    has_next_page: skip + limit < store.wishlists.len(),
                    total_count: store.wishlists.len() as u64,
                },
            ),
        )
    }
}

/// A lookup of the product variants that a request names finds a named one
/// exactly where it is known.
pub proof fn lemma_lookup_finds_known(known: Seq<ProductVariant>, ids: Seq<Uuid>, id: Uuid)
    requires
        ids.contains(id),
    ensures
        known.filter(named_by(ids)).contains(ProductVariant { id }) <==> known.contains(
            ProductVariant { id },
        ),
{
    let variant = ProductVariant { id };
    if known.filter(named_by(ids)).contains(variant) {
        known.lemma_filter_contains_rev(named_by(ids), variant);
    }
    if known.contains(variant) {
        let i = choose|i: int| 0 <= i < known.len() && known[i] == variant;
        assert(named_by(ids)(known[i]));
        known.lemma_filter_contains(named_by(ids), i);
    }
}

/// The check of the references of a request against what one lookup for all
/// of them found says what a check against all known product variants says.
pub proof fn lemma_references_through_lookup(ids: Seq<Uuid>, known: Seq<ProductVariant>)
    ensures
        reference_check(ids, known.filter(named_by(ids))) == reference_check(ids, known),
{
    let found = known.filter(named_by(ids));
    assert forall|k: int| is_missing(ids, found, k) == is_missing(ids, known, k) by {
        if 0 <= k < ids.len() {
            lemma_lookup_finds_known(known, ids, ids[k]);
        }
    }
    if exists|k: int| is_missing(ids, known, k) {
        let k = choose|k: int| is_missing(ids, known, k);
        assert(is_missing(ids, found, k));
        lemma_first_missing_exists(ids, known, k);
        lemma_first_missing_exists(ids, found, k);
        let among_known = choose|k: int|
            is_missing(ids, known, k) && forall|j: int| 0 <= j < k ==> !is_missing(ids, known, j);
        let among_found = choose|k: int|
            is_missing(ids, found, k) && forall|j: int| 0 <= j < k ==> !is_missing(ids, found, j);
        if among_known < among_found {
            assert(is_missing(ids, found, among_known));
        } else if among_found < among_known {
            assert(is_missing(ids, known, among_found));
        }
        assert(first_missing(ids, known) == Some(ids[among_known]));
        assert(first_missing(ids, found) == Some(ids[among_found]));
    } else {
        assert(!exists|k: int| is_missing(ids, found, k));
    }
}

/// Making a wishlist ends as `create_outcome` says.
pub proof fn law_create_outcome(
    store: StoreModel,
    caller: Option<AuthorizedUser>,
    input: NewWishlist,
    id: Uuid,
    now: DateTime,
)
    ensures
        run(create_started(caller, input, id, now), store) == create_outcome(
            store,
            caller,
            input,
            id,
            now,
        ),
{
    reveal_with_fuel(run, 6);
    lemma_references_through_lookup(input.product_variant_ids, store.product_variants);
    law_binary_round_trip(id.value);
    let record = new_wishlist(input, id, now);
    if !holds_id(store.wishlists, id) {
        let stored = store.wishlists.push(record);
        assert(is_position_of(stored, id, store.wishlists.len() as int)) by {
            assert forall|j: int| 0 <= j < store.wishlists.len() implies (#[trigger] stored[j]).id
                != id by {
                assert(store.wishlists[j].id != id);
            }
        }
        lemma_position_unique(stored, id, store.wishlists.len() as int);
    }
}

/// Changing a wishlist ends as `update_outcome` says.
pub proof fn law_update_outcome(
    store: StoreModel,
    caller: Option<AuthorizedUser>,
    patch: WishlistPatch,
    now: DateTime,
)
    ensures
        run(update_started(caller, patch, now), store) == update_outcome(store, caller, patch, now),
{
    reveal_with_fuel(run, 6);
    lemma_references_through_lookup(patch_ids(patch), store.product_variants);
    if store.available && holds_id(store.wishlists, patch.id) {
        lemma_position_of(store.wishlists, patch.id);
        let at = position_of(store.wishlists, patch.id);
        let record = store.wishlists[at];
        let changed = patched(record, patch, now);
        let stored = store.wishlists.update(at, changed);
        assert(is_position_of(stored, patch.id, at)) by {
            assert forall|j: int| 0 <= j < at implies (#[trigger] stored[j]).id != patch.id by {
                assert(store.wishlists[j].id != patch.id);
            }
        }
        lemma_position_unique(stored, patch.id, at);
        if patch.is_empty() {
            assert(stored == store.wishlists);
        }
        if patch.product_variant_ids is None {
            assert(first_missing(patch_ids(patch), store.product_variants) is None);
        }
    }
}

/// Deleting a wishlist ends as `delete_outcome` says.
pub proof fn law_delete_outcome(store: StoreModel, caller: Option<AuthorizedUser>, id: Uuid)
    ensures
        run(delete_started(caller, id), store) == delete_outcome(store, caller, id),
{
    reveal_with_fuel(run, 4);
}

/// Reading a wishlist gives what `wishlist_outcome` says and leaves the
/// store as it was.
pub proof fn law_wishlist_outcome(store: StoreModel, caller: Option<AuthorizedUser>, id: Uuid)
    ensures
        run(wishlist_started(caller, id), store) == (wishlist_outcome(store, caller, id), store),
{
    reveal_with_fuel(run, 3);
}

/// Reading a user gives what `user_outcome` says and leaves the store as it
/// was.
pub proof fn law_user_outcome(store: StoreModel, id: Uuid)
    ensures
        run(user_started(id), store) == (user_outcome(store, id), store),
{
    reveal_with_fuel(run, 3);
}

/// Listing a page gives what `listing_outcome` says and leaves the store as
/// it was. The count is that of all wishlists whatever the page; whether a
/// page follows is read off a row asked for beyond the page, not off the
/// count.
pub proof fn law_listing_outcome(store: StoreModel, limit: u32, skip: u64, order: OrderSpec)
    ensures
        run(listing_started(limit, skip, order), store) == (
            listing_outcome(store, limit, skip, order),
            store,
        ),
{
    reveal_with_fuel(run, 4);
    law_ordered_is_permutation(store.wishlists, order);
    if store.available {
        let all = ordered(store.wishlists, order);
        let rows = window(all, skip as int, limit + 1);
        let nodes = if rows.len() > limit {
            rows.subrange(0, limit as int)
        } else {
            rows
        };
        assert(nodes == window(all, skip as int, limit as int));
        assert((rows.len() > limit) == (skip + limit < store.wishlists.len()));
    }
}

/// One product variant that is not known is enough for making a wishlist to
/// be refused, however many of the others are known: the refusal names an id
/// of the request that is not known, and nothing is stored.
pub proof fn law_create_refuses_missing_reference(
    store: StoreModel,
    caller: Option<AuthorizedUser>,
    input: NewWishlist,
    id: Uuid,
    now: DateTime,
    k: int,
)
    requires
        store.available,
        authorization(caller, Some(input.user_id)) is Ok,
        0 <= k < input.product_variant_ids.len(),
        !store.product_variants.contains(ProductVariant { id: input.product_variant_ids[k] }),
    ensures
        run(create_started(caller, input, id, now), store).0 matches Err(
            Error::ReferenceNotFound { reference: Reference::ProductVariant, id: missing },
        ) && input.product_variant_ids.contains(missing) && !store.product_variants.contains(
            ProductVariant { id: missing },
        ),
        run(create_started(caller, input, id, now), store).1 == store,
{
    law_create_outcome(store, caller, input, id, now);
    law_one_missing_reference_refuses(input.product_variant_ids, store.product_variants, k);
}

/// Making a wishlist for an owner who is not known is refused as a reference
/// that is not found, with the owner's id, whoever asks and however many
/// product variants are known; nothing is stored.
pub proof fn law_create_refuses_unknown_owner(
    store: StoreModel,
    caller: Option<AuthorizedUser>,
    input: NewWishlist,
    id: Uuid,
    now: DateTime,
)
    requires
        store.available,
        authorization(caller, Some(input.user_id)) is Ok,
        reference_check(input.product_variant_ids, store.product_variants) is Ok,
        !store.users.contains(User { id: input.user_id }),
    ensures
        run(create_started(caller, input, id, now), store) == (
            Err::<ReplyView, Error>(
                Error::ReferenceNotFound { reference: Reference::User, id: input.user_id },
            ),
            store,
        ),
{
    law_create_outcome(store, caller, input, id, now);
}

/// Every change that a waiting operation asks the store to write names a
/// field: a change without fields never reaches the store.
pub proof fn law_issued_changes_name_a_field(pending: PendingView, response: Response)
    ensures
        resumed(pending, response) matches StepView::Call {
            request: Request::UpdateWishlist { patch, .. },
            ..
        } ==> !patch.is_empty(),
{
}

/// No operation starts with a write: the first request of each is a lookup.
pub proof fn law_operations_start_with_a_lookup(
    caller: Option<AuthorizedUser>,
    input: NewWishlist,
    patch: WishlistPatch,
    id: Uuid,
    now: DateTime,
    limit: u32,
    skip: u64,
    order: OrderSpec,
)
    ensures
        !(create_started(caller, input, id, now) matches StepView::Call { request, .. }
            && is_write(request)),
        !(update_started(caller, patch, now) matches StepView::Call { request, .. } && is_write(
            request,
        )),
        !(delete_started(caller, id) matches StepView::Call { request, .. } && is_write(request)),
        !(wishlist_started(caller, id) matches StepView::Call { request, .. } && is_write(request)),
        !(user_started(id) matches StepView::Call { request, .. } && is_write(request)),
        !(listing_started(limit, skip, order) matches StepView::Call { request, .. } && is_write(
            request,
        )),
{
}

/// Whether a request changes what the store holds.
pub open spec fn is_write(request: Request) -> bool {
    request is InsertWishlist || request is UpdateWishlist || request is DeleteWishlist
}

/// A change that names no field leaves the store as it was, whatever else
/// holds; where it succeeds it hands back the record as it is stored, with
/// the time of its last change where it was.
pub proof fn law_update_without_fields_changes_nothing(
    store: StoreModel,
    caller: Option<AuthorizedUser>,
    patch: WishlistPatch,
    now: DateTime,
)
    requires
        patch.is_empty(),
    ensures
        run(update_started(caller, patch, now), store).1 == store,
        run(update_started(caller, patch, now), store).0 matches Ok(reply) ==> record_of(
            store.wishlists,
            patch.id,
        ) matches Some(record) && reply == ReplyView::Wishlist(record),
{
    law_update_outcome(store, caller, patch, now);
    if store.available && holds_id(store.wishlists, patch.id) {
        lemma_position_of(store.wishlists, patch.id);
        let at = position_of(store.wishlists, patch.id);
        assert(store.wishlists.update(at, store.wishlists[at]) == store.wishlists);
    }
}

/// A change that names only the name, where it succeeds, replaces the name
/// of the one record and moves the time of its last change to the time of
/// the change. Every other field of the record, its product variants among
/// them, and every other record stay as they were.
pub proof fn law_rename_changes_name_only(
    store: StoreModel,
    caller: Option<AuthorizedUser>,
    patch: WishlistPatch,
    now: DateTime,
)
    requires
        patch.name is Some,
        patch.product_variant_ids is None,
        run(update_started(caller, patch, now), store).0 is Ok,
    ensures
        holds_id(store.wishlists, patch.id),
        ({
            let at = position_of(store.wishlists, patch.id);
            let renamed = WishlistView {
                name: patch.name.unwrap(),
                last_updated_at: now,
                ..store.wishlists[at]
            };
            &&& run(update_started(caller, patch, now), store).0 == Ok::<ReplyView, Error>(
                ReplyView::Wishlist(renamed),
            )
            &&& run(update_started(caller, patch, now), store).1 == (StoreModel {
                wishlists: store.wishlists.update(at, renamed),
                ..store
            })
        }),
{
    law_update_outcome(store, caller, patch, now);
}

/// Deleting a wishlist that is not there never reports a deletion: it is
/// refused as not found, and the store is left as it was.
pub proof fn law_delete_of_absent_is_not_found(
    store: StoreModel,
    caller: Option<AuthorizedUser>,
    id: Uuid,
)
    requires
        !holds_id(store.wishlists, id),
    ensures
        run(delete_started(caller, id), store).0 is Err,
        store.available ==> run(delete_started(caller, id), store).0 == Err::<ReplyView, Error>(
            Error::NotFound { entity: Entity::Wishlist, id },
        ),
        run(delete_started(caller, id), store).1 == store,
{
    law_delete_outcome(store, caller, id);
}

/// A caller without a permissive role may not change the wishlist of
/// another: the change is refused with the owner's id, and the store is left
/// as it was.
pub proof fn law_stranger_may_not_update(
    store: StoreModel,
    user: AuthorizedUser,
    patch: WishlistPatch,
    now: DateTime,
)
    requires
        store.available,
        !user.has_permissive_role(),
        record_of(store.wishlists, patch.id) matches Some(record) && record.user.id != user.id,
    ensures
        run(update_started(Some(user), patch, now), store) == (
            Err::<ReplyView, Error>(
                Error::AuthorizationError {
                    user: user.id,
                    owner: Some(record_of(store.wishlists, patch.id).unwrap().user.id),
                },
            ),
            store,
        ),
{
    law_update_outcome(store, Some(user), patch, now);
}

/// A caller with a permissive role may change the wishlist of anyone, as
/// long as what the change refers to is known: the record is changed as
/// `patched` says and handed back.
pub proof fn law_permissive_caller_may_update(
    store: StoreModel,
    user: AuthorizedUser,
    patch: WishlistPatch,
    now: DateTime,
)
    requires
        store.available,
        user.has_permissive_role(),
        holds_id(store.wishlists, patch.id),
        reference_check(patch_ids(patch), store.product_variants) is Ok,
    ensures
        run(update_started(Some(user), patch, now), store).0 == Ok::<ReplyView, Error>(
            ReplyView::Wishlist(patched(record_of(store.wishlists, patch.id).unwrap(), patch, now)),
        ),
{
    law_update_outcome(store, Some(user), patch, now);
}

/// Reading a wishlist that is not there is refused as not found whoever
/// asks, with or without an identity: whether a record exists is settled
/// before whether the caller may see it.
pub proof fn law_absent_wishlist_is_not_found_for_anyone(
    store: StoreModel,
    caller: Option<AuthorizedUser>,
    id: Uuid,
)
    requires
        store.available,
        !holds_id(store.wishlists, id),
    ensures
        run(wishlist_started(caller, id), store).0 == Err::<ReplyView, Error>(
            Error::NotFound { entity: Entity::Wishlist, id },
        ),
{
    law_wishlist_outcome(store, caller, id);
}

/// A page says that another follows exactly where a record exists beyond
/// those it has skipped and those it shows, and it never shows more than its
/// limit.
pub proof fn law_next_page_iff_rows_follow(
    store: StoreModel,
    limit: u32,
    skip: u64,
    order: OrderSpec,
)
    requires
        store.available,
    ensures
        listing_outcome(store, limit, skip, order) matches Ok(ReplyView::Wishlists(page))
            && page.has_next_page == (skip + page.nodes.len() < store.wishlists.len())
            && page.nodes.len() <= limit,
{
    law_ordered_is_permutation(store.wishlists, order);
}

/// A faithful store that holds no id twice and no record with a product
/// variant twice still does so after any request that carries no such record.
pub proof fn law_requests_keep_the_store_well_formed(store: StoreModel, request: Request)
    requires
        store.wf(),
        request.wf(),
    ensures
        store.after(request).wf(),
{
    let after = store.after(request).wishlists;
    if store.available {
        match request {
            Request::InsertWishlist { wishlist } => {
                if !holds_id(store.wishlists, wishlist.id) {
                    assert forall|i: int, j: int| 0 <= i < j < after.len() implies (
                    #[trigger] after[i]).id != (#[trigger] after[j]).id by {
                        if j < store.wishlists.len() {
                            assert(store.wishlists[i].id != store.wishlists[j].id);
                        } else {
                            assert(store.wishlists[i].id != wishlist.id);
                        }
                    }
                    assert forall|i: int| 0 <= i < after.len() implies (#[trigger] after[i]).wf() by {
                        if i < store.wishlists.len() {
                            assert(store.wishlists[i].wf());
                        }
                    }
                }
            },
            Request::UpdateWishlist { patch, at } => {
                if holds_id(store.wishlists, patch.id) {
                    lemma_position_of(store.wishlists, patch.id);
                    let changed = position_of(store.wishlists, patch.id);
                    law_patched_keeps_well_formed(store.wishlists[changed], patch, at);
                    assert forall|i: int, j: int| 0 <= i < j < after.len() implies (
                    #[trigger] after[i]).id != (#[trigger] after[j]).id by {
                        assert(store.wishlists[i].id != store.wishlists[j].id);
                    }
                    assert forall|i: int| 0 <= i < after.len() implies (#[trigger] after[i]).wf() by {
                        assert(store.wishlists[i].wf());
                    }
                }
            },
            Request::DeleteWishlist { id } => {
                if holds_id(store.wishlists, id) {
                    lemma_position_of(store.wishlists, id);
                    let removed = position_of(store.wishlists, id);
                    assert forall|i: int, j: int| 0 <= i < j < after.len() implies (
                    #[trigger] after[i]).id != (#[trigger] after[j]).id by {
                        let before_i = if i < removed { i } else { i + 1 };
                        let before_j = if j < removed { j } else { j + 1 };
                        assert(store.wishlists[before_i].id != store.wishlists[before_j].id);
                    }
                    assert forall|i: int| 0 <= i < after.len() implies (#[trigger] after[i]).wf() by {
                        let before_i = if i < removed { i } else { i + 1 };
                        assert(store.wishlists[before_i].wf());
                    }
                }
            },
            _ => {},
        }
    }
}

/// Whatever a waiting operation asks the store to put holds no product
/// variant twice.
pub proof fn law_operations_ask_for_well_formed_records(pending: PendingView, response: Response)
    ensures
        resumed(pending, response).wf(),
{
    match pending {
        PendingView::CreateUser { input, id, now } => {
            law_product_variants_distinct(input.product_variant_ids);
        },
        _ => {},
    }
}

/// No operation, run to its end against a faithful store, leaves the store
/// with an id twice or with a record that holds a product variant twice.
pub proof fn law_operations_keep_the_store_well_formed(step: StepView, store: StoreModel)
    requires
        store.wf(),
        step.wf(),
    ensures
        run(step, store).1.wf(),
    decreases step.rank(),
{
    match step {
        StepView::Done(_) => {},
        StepView::Call { pending, request } => {
            law_requests_keep_the_store_well_formed(store, request);
            law_operations_ask_for_well_formed_records(pending, store.answer(request));
            law_operations_keep_the_store_well_formed(
                resumed(pending, store.answer(request)),
                store.after(request),
            );
        },
    }
}

/// A mutation that fails leaves the store as it was: nothing is written
/// before everything has been checked.
pub proof fn law_failed_mutations_write_nothing(
    store: StoreModel,
    caller: Option<AuthorizedUser>,
    input: NewWishlist,
    patch: WishlistPatch,
    id: Uuid,
    now: DateTime,
)
    ensures
        run(create_started(caller, input, id, now), store).0 is Err ==> run(
            create_started(caller, input, id, now),
            store,
        ).1 == store,
        run(update_started(caller, patch, now), store).0 is Err ==> run(
            update_started(caller, patch, now),
            store,
        ).1 == store,
        run(delete_started(caller, id), store).0 is Err ==> run(delete_started(caller, id), store).1
            == store,
{
    law_create_outcome(store, caller, input, id, now);
    law_update_outcome(store, caller, patch, now);
    law_delete_outcome(store, caller, id);
}

/// A wishlist that has been made can be read by whoever was let through to
/// make it, and reads as it was handed back.
pub proof fn law_created_wishlist_can_be_read(
    store: StoreModel,
    caller: Option<AuthorizedUser>,
    input: NewWishlist,
    id: Uuid,
    now: DateTime,
)
    requires
        run(create_started(caller, input, id, now), store).0 is Ok,
    ensures
        run(
            wishlist_started(caller, id),
            run(create_started(caller, input, id, now), store).1,
        ).0 == run(create_started(caller, input, id, now), store).0,
{
    law_create_outcome(store, caller, input, id, now);
    let made = run(create_started(caller, input, id, now), store).1;
    law_wishlist_outcome(made, caller, id);
    let record = new_wishlist(input, id, now);
    assert(is_position_of(made.wishlists, id, store.wishlists.len() as int)) by {
        assert forall|j: int| 0 <= j < store.wishlists.len() implies (
        #[trigger] made.wishlists[j]).id != id by {
            assert(store.wishlists[j].id != id);
        }
    }
    lemma_position_unique(made.wishlists, id, store.wishlists.len() as int);
}

/// A wishlist that has been deleted is not found afterwards, whoever asks,
/// in a store that held no id twice.
pub proof fn law_deleted_wishlist_is_gone(
    store: StoreModel,
    caller: Option<AuthorizedUser>,
    reader: Option<AuthorizedUser>,
    id: Uuid,
)
    requires
        store.wf(),
        run(delete_started(caller, id), store).0 is Ok,
    ensures
        run(wishlist_started(reader, id), run(delete_started(caller, id), store).1).0 == Err::<
            ReplyView,
            Error,
        >(Error::NotFound { entity: Entity::Wishlist, id }),
{
    law_delete_outcome(store, caller, id);
    let left = run(delete_started(caller, id), store).1;
    law_wishlist_outcome(left, reader, id);
    lemma_position_of(store.wishlists, id);
    let removed = position_of(store.wishlists, id);
    assert(!holds_id(left.wishlists, id)) by {
        assert forall|j: int| 0 <= j < left.wishlists.len() implies (#[trigger] left.wishlists[j]).id
            != id by {
            let before = if j < removed { j } else { j + 1 };
            assert(store.wishlists[before].id != store.wishlists[removed].id);
        }
    }
}

} // verus!
