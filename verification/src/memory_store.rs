//! A store that lives in memory and answers every request as a faithful
//! store does. It is the measure for any other store, and what operations
//! are run against where no other store is at hand.

use vstd::prelude::*;
use crate::connection::record_views;
use crate::error::Error;
use crate::foreign_types::{ProductVariant, User};
use crate::id::{uuid_to_binary, Uuid};
use crate::operation::{outcome_view, resume, run, Reply, Step};
use crate::order::{insertion_point, ordered, OrderSpec};
use crate::store::{
    holds_id,
    is_position_of,
    lemma_position_unique,
    named_by,
    InsertedId,
    StoreModel,
    StoreRequest,
    StoreResponse,
};
use crate::wishlist::{Wishlist, WishlistView};

verus! {

/// A store in memory.
#[derive(Debug)]
pub struct MemoryStore {
    wishlists: Vec<Wishlist>,
    users: Vec<User>,
    product_variants: Vec<ProductVariant>,
    available: bool,
}

impl View for MemoryStore {
    type V = StoreModel;

    closed spec fn view(&self) -> StoreModel {
        StoreModel {
            wishlists: record_views(self.wishlists@),
            users: self.users@,
            product_variants: self.product_variants@,
            available: self.available,
        }
    }
}

/// The first position of a record with the id, if there is one.
fn find_position(records: &Vec<Wishlist>, id: Uuid) -> (position: Option<usize>)
    ensures
        match position {
            Some(i) => is_position_of(record_views(records@), id, i as int),
            None => !holds_id(record_views(records@), id),
        },
{
    let mut i: usize = 0;
    while i < records.len()
        invariant
            i <= records.len(),
            forall|j: int| 0 <= j < i ==> (#[trigger] record_views(records@)[j]).id != id,
        decreases records.len() - i,
    {
        if records[i].id == id {
            return Some(i);
        }
        i += 1;
    }
    None
}

/// Whether the list holds an id.
fn holds(ids: &Vec<Uuid>, id: Uuid) -> (held: bool)
    ensures
        held == ids@.contains(id),
{
    let mut i: usize = 0;
    while i < ids.len()
        invariant
            i <= ids.len(),
            forall|j: int| 0 <= j < i ==> ids[j] != id,
        decreases ids.len() - i,
    {
        if ids[i] == id {
            return true;
        }
        i += 1;
    }
    false
}

/// Whether the list holds a user.
fn holds_user(users: &Vec<User>, id: Uuid) -> (held: bool)
    ensures
        held == users@.contains(User { id }),
{
    let mut i: usize = 0;
    while i < users.len()
        invariant
            i <= users.len(),
            forall|j: int| 0 <= j < i ==> users[j] != (User { id }),
        decreases users.len() - i,
    {
        if users[i].id == id {
            assert(users@[i as int] == (User { id }));
            return true;
        }
        i += 1;
    }
    false
}

/// Those of the known product variants that the ids name.
fn select_variants(known: &Vec<ProductVariant>, ids: &Vec<Uuid>) -> (found: Vec<ProductVariant>)
    ensures
        found@ == known@.filter(named_by(ids@)),
{
    let mut found: Vec<ProductVariant> = Vec::new();
    let mut i: usize = 0;
    proof {
        reveal(Seq::filter);
    }
    while i < known.len()
        invariant
            i <= known.len(),
            found@ == known@.take(i as int).filter(named_by(ids@)),
        decreases known.len() - i,
    {
        proof {
            reveal(Seq::filter);
            assert(known@.take(i + 1).drop_last() == known@.take(i as int));
        }
        if holds(ids, known[i].id) {
            found.push(known[i]);
        }
        i += 1;
    }
    assert(known@.take(known.len() as int) == known@);
    found
}

/// Where a record goes into a list that is in order: the first position
/// whose record comes after it.
fn insertion_index(records: &Vec<Wishlist>, record: &Wishlist, order: &OrderSpec) -> (at: usize)
    ensures
        at == insertion_point(record_views(records@), record@, *order, 0),
        at <= records.len(),
{
    let mut k: usize = 0;
    while k < records.len()
        invariant
            k <= records.len(),
            insertion_point(record_views(records@), record@, *order, 0) == insertion_point(
                record_views(records@),
                record@,
                *order,
                k as int,
            ),
        decreases records.len() - k,
    {
        if order.precedes(record, &records[k]) {
            return k;
        }
        k += 1;
    }
    k
}

/// A copy of the records, in the order.
fn ordered_copy(records: &Vec<Wishlist>, order: &OrderSpec) -> (copy: Vec<Wishlist>)
    ensures
        record_views(copy@) == ordered(record_views(records@), *order),
{
    let mut copy: Vec<Wishlist> = Vec::new();
    let mut i: usize = 0;
    while i < records.len()
        invariant
            i <= records.len(),
            record_views(copy@) == ordered(record_views(records@).take(i as int), *order),
        decreases records.len() - i,
    {
        let record = records[i].clone();
        let at = insertion_index(&copy, &record, order);
        let ghost before = copy@;
        copy.insert(at, record);
        proof {
            let views = record_views(records@);
            assert(views.take(i + 1).drop_last() == views.take(i as int));
            assert(views.take(i + 1).last() == record@);
            assert(record_views(before.insert(at as int, record)) == record_views(before).insert(
                at as int,
                record@,
            ));
        }
        i += 1;
    }
    assert(record_views(records@).take(records.len() as int) == record_views(records@));
    copy
}

impl MemoryStore {
    /// A store that holds nothing and can be reached.
    pub fn new() -> (store: MemoryStore)
        ensures
            store@ == (StoreModel {
                wishlists: Seq::empty(),
                users: Seq::empty(),
                product_variants: Seq::empty(),
                available: true,
            }),
            store@.wf(),
    {
        let store = MemoryStore {
            wishlists: Vec::new(),
            users: Vec::new(),
            product_variants: Vec::new(),
            available: true,
        };
        assert(record_views(store.wishlists@) == Seq::<WishlistView>::empty());
        store
    }

    /// Makes a user known, as the service that owns users would.
    pub fn add_user(&mut self, user: User)
        ensures
            final(self)@ == (StoreModel { users: old(self)@.users.push(user), ..old(self)@ }),
    {
        self.users.push(user);
    }

    /// Makes a product variant known, as the service that owns them would.
    pub fn add_product_variant(&mut self, product_variant: ProductVariant)
        ensures
            final(self)@ == (StoreModel {
                product_variants: old(self)@.product_variants.push(product_variant),
                ..old(self)@
            }),
    {
        self.product_variants.push(product_variant);
    }

    /// Makes the store reachable or unreachable.
    pub fn set_available(&mut self, available: bool)
        ensures
            final(self)@ == (StoreModel { available, ..old(self)@ }),
    {
        self.available = available;
    }

    /// Answers a request and takes its effect.
    pub fn respond(&mut self, request: StoreRequest) -> (response: StoreResponse)
        ensures
            response@ == old(self)@.answer(request@),
            final(self)@ == old(self)@.after(request@),
            old(self)@.wf() && request@.wf() ==> final(self)@.wf(),
    {
        if !self.available {
            return StoreResponse::Failed;
        }
        let ghost views = record_views(self.wishlists@);
        let ghost asked = request@;
        match request {
            StoreRequest::FindWishlist { id } => {
                match find_position(&self.wishlists, id) {
                    Some(i) => {
                        proof {
                            lemma_position_unique(views, id, i as int);
                        }
                        StoreResponse::Wishlist(Some(self.wishlists[i].clone()))
                    },
                    None => StoreResponse::Wishlist(None),
                }
            },
            StoreRequest::FindUser { id } => {
                if holds_user(&self.users, id) {
                    StoreResponse::User(Some(User { id }))
                } else {
                    StoreResponse::User(None)
                }
            },
            StoreRequest::FindProductVariants { ids } => {
                StoreResponse::ProductVariants(select_variants(&self.product_variants, &ids))
            },
            StoreRequest::InsertWishlist { wishlist } => {
                match find_position(&self.wishlists, wishlist.id) {
                    Some(_) => StoreResponse::Failed,
                    None => {
                        let (subtype, bytes) = uuid_to_binary(wishlist.id);
                        self.wishlists.push(wishlist);
                        proof {
                            assert(record_views(self.wishlists@) == views.push(wishlist@));
                            if old(self)@.wf() && asked.wf() {
                                assert forall|i: int, j: int|
                                    0 <= i < j < views.push(wishlist@).len() implies (
                                #[trigger] views.push(wishlist@)[i]).id != (
                                #[trigger] views.push(wishlist@)[j]).id by {
                                    if j < views.len() {
                                        assert(views[i].id != views[j].id);
                                    } else {
                                        assert(views[i].id != wishlist.id);
                                    }
                                }
                            }
                        }
                        StoreResponse::Inserted(InsertedId::Binary { subtype, bytes })
                    },
                }
            },
            StoreRequest::UpdateWishlist { patch, at } => {
                match find_position(&self.wishlists, patch.id) {
                    Some(i) => {
                        proof {
                            lemma_position_unique(views, patch.id, i as int);
                        }
                        let mut record = self.wishlists.remove(i);
                        record.apply(&patch, at);
                        self.wishlists.insert(i, record);
                        proof {
                            let changed = views.update(i as int, record@);
                            assert(record_views(self.wishlists@) == changed);
                            if old(self)@.wf() && asked.wf() {
                                assert forall|a: int, b: int|
                                    0 <= a < b < changed.len() implies (#[trigger] changed[a]).id != (
                                #[trigger] changed[b]).id by {
                                    assert(views[a].id != views[b].id);
                                }
                            }
                        }
                        StoreResponse::Updated { matched: true }
                    },
                    None => StoreResponse::Updated { matched: false },
                }
            },
            StoreRequest::DeleteWishlist { id } => {
                match find_position(&self.wishlists, id) {
                    Some(i) => {
                        proof {
                            lemma_position_unique(views, id, i as int);
                        }
                        self.wishlists.remove(i);
                        proof {
                            let rest = views.remove(i as int);
                            assert(record_views(self.wishlists@) == rest);
                            if old(self)@.wf() && asked.wf() {
                                assert forall|a: int, b: int|
                                    0 <= a < b < rest.len() implies (#[trigger] rest[a]).id != (
                                #[trigger] rest[b]).id by {
                                    let a0 = if a < i { a } else { a + 1 };
                                    let b0 = if b < i { b } else { b + 1 };
                                    assert(views[a0].id != views[b0].id);
                                }
                            }
                        }
                        StoreResponse::Deleted { count: 1 }
                    },
                    None => StoreResponse::Deleted { count: 0 },
                }
            },
            StoreRequest::ListWishlists { order, skip, limit } => {
                let mut rows = ordered_copy(&self.wishlists, &order);
                let ghost all = rows@;
                let n = rows.len();
                let start: usize = if skip < n as u64 {
                    skip as usize
                } else {
                    n
                };
                let room: usize = n - start;
                let end: usize = if limit < room as u64 {
                    start + limit as usize
                } else {
                    n
                };
                rows.truncate(end);
                let page = rows.split_off(start);
                proof {
                    assert(page@ == all.subrange(start as int, end as int));
                    assert(record_views(page@) == record_views(all).subrange(
                        start as int,
                        end as int,
                    ));
                }
                StoreResponse::Wishlists(page)
            },
            StoreRequest::CountWishlists => StoreResponse::Count(self.wishlists.len() as u64),
        }
    }

    /// Runs an operation to its end, answering each of its requests.
    pub fn execute(&mut self, step: Step) -> (outcome: Result<Reply, Error>)
        ensures
            (outcome_view(outcome), final(self)@) == run(step@, old(self)@),
            old(self)@.wf() && step@.wf() ==> final(self)@.wf(),
    {
        let mut current = step;
        loop
            invariant
                run(current@, self@) == run(step@, old(self)@),
                old(self)@.wf() && step@.wf() ==> self@.wf() && current@.wf(),
            decreases current@.rank(),
        {
            match current {
                Step::Done(outcome) => {
                    return outcome;
                },
                Step::Call { pending, request } => {
                    let response = self.respond(request);
                    current = resume(pending, response);
                },
            }
        }
    }
}

} // verus!
