//! The order in which a listing shows wishlists.
//!
//! Every order compares one field first and, where two records agree on it,
//! their ids, smaller id first. Records with different ids are therefore
//! never tied, and a listing has one order only.

use vstd::prelude::*;
use crate::wishlist::{Wishlist, WishlistView};

verus! {

/// The field that a listing is ordered by.
#[derive(Clone, Copy, Debug, PartialEq, Eq, Structural)]
pub enum OrderField {
    Id,
    UserId,
    CreatedAt,
    LastUpdatedAt,
}

/// Whether smaller or larger values of the field come first.
#[derive(Clone, Copy, Debug, PartialEq, Eq, Structural)]
pub enum OrderDirection {
    Ascending,
    Descending,
}

/// An order of a listing.
#[derive(Clone, Copy, Debug, PartialEq, Eq, Structural)]
pub struct OrderSpec {
    pub field: OrderField,
    pub direction: OrderDirection,
}

/// The order that a request names with a field, a direction, both or
/// neither: where it names no field the order is by id, where it names no
/// direction the order is ascending.
pub open spec fn order_of(
    field: Option<OrderField>,
    direction: Option<OrderDirection>,
) -> OrderSpec {
    OrderSpec {
        field: match field {
            Some(field) => field,
            None => OrderField::Id,
        },
        direction: match direction {
            Some(direction) => direction,
            None => OrderDirection::Ascending,
        },
    }
}

/// The order of a listing that names none: by id, ascending.
pub open spec fn default_order() -> OrderSpec {
    order_of(None, None)
}

/// The value of the field that a record is ordered by.
pub open spec fn sort_key(record: WishlistView, field: OrderField) -> int {
    match field {
        OrderField::Id => record.id.value as int,
        OrderField::UserId => record.user.id.value as int,
        OrderField::CreatedAt => record.created_at.millis as int,
        OrderField::LastUpdatedAt => record.last_updated_at.millis as int,
    }
}

/// Whether `a` comes before `b` in the order.
pub open spec fn precedes(a: WishlistView, b: WishlistView, order: OrderSpec) -> bool {
    let ka = sort_key(a, order.field);
    let kb = sort_key(b, order.field);
    if ka != kb {
        match order.direction {
            OrderDirection::Ascending => ka < kb,
            OrderDirection::Descending => ka > kb,
        }
    } else {
        a.id.value < b.id.value
    }
}

/// Whether each record of the sequence comes before all later ones.
pub open spec fn is_ordered(records: Seq<WishlistView>, order: OrderSpec) -> bool {
    forall|i: int, j: int|
        0 <= i < j < records.len() ==> precedes(#[trigger] records[i], #[trigger] records[j], order)
}

/// Whether no two records of the sequence share an id.
pub open spec fn distinct_ids(records: Seq<WishlistView>) -> bool {
    forall|i: int, j: int|
        0 <= i < j < records.len() ==> (#[trigger] records[i]).id != (#[trigger] records[j]).id
}

/// The first position at or after `from` whose record comes after `record`,
/// or the length where there is none.
pub open spec fn insertion_point(
    records: Seq<WishlistView>,
    record: WishlistView,
    order: OrderSpec,
    from: int,
) -> int
    decreases records.len() - from,
{
    if from < 0 || from >= records.len() {
        records.len() as int
    } else if precedes(record, records[from], order) {
        from
    } else {
        insertion_point(records, record, order, from + 1)
    }
}

/// The records in the order: each is put, in turn, before the first that
/// comes after it.
pub open spec fn ordered(records: Seq<WishlistView>, order: OrderSpec) -> Seq<WishlistView>
    decreases records.len(),
{
    if records.len() == 0 {
        Seq::empty()
    } else {
        let earlier = ordered(records.drop_last(), order);
        earlier.insert(insertion_point(earlier, records.last(), order, 0), records.last())
    }
}

/// The part of a sequence that a page shows: at most `limit` records after
/// the first `skip`.
pub open spec fn window(records: Seq<WishlistView>, skip: int, limit: int) -> Seq<WishlistView> {
    let start = if skip < records.len() {
        skip
    } else {
        records.len() as int
    };
    let end = if start + limit < records.len() {
        start + limit
    } else {
        records.len() as int
    };
    records.subrange(start, end)
}

impl OrderSpec {
    /// The order of a listing that names none.
    pub fn new_default() -> (order: OrderSpec)
        ensures
            order == default_order(),
    {
        OrderSpec { field: OrderField::Id, direction: OrderDirection::Ascending }
    }

    /// The order that a request names with a field, a direction, both or
    /// neither.
    pub fn from_parts(
        field: Option<OrderField>,
        direction: Option<OrderDirection>,
    ) -> (order: OrderSpec)
        ensures
            order == order_of(field, direction),
    {
        OrderSpec {
            field: match field {
                Some(field) => field,
                None => OrderField::Id,
            },
            direction: match direction {
                Some(direction) => direction,
                None => OrderDirection::Ascending,
            },
        }
    }

    /// Whether `a` comes before `b` in this order.
    pub fn precedes(&self, a: &Wishlist, b: &Wishlist) -> (before: bool)
        ensures
            before == precedes(a@, b@, *self),
    {
        let (less, greater) = match self.field {
            OrderField::Id => (a.id.value < b.id.value, a.id.value > b.id.value),
            OrderField::UserId => (
                a.user.id.value < b.user.id.value,
                a.user.id.value > b.user.id.value,
            ),
            OrderField::CreatedAt => (
                a.created_at.millis < b.created_at.millis,
                a.created_at.millis > b.created_at.millis,
            ),
            OrderField::LastUpdatedAt => (
                a.last_updated_at.millis < b.last_updated_at.millis,
                a.last_updated_at.millis > b.last_updated_at.millis,
            ),
        };
        if less || greater {
            match self.direction {
                OrderDirection::Ascending => less,
                OrderDirection::Descending => greater,
            }
        } else {
            a.id.value < b.id.value
        }
    }
}

/// An insertion point lies between `from` and the length, every record from
/// `from` up to it does not come after `record`, and the one at it does.
pub proof fn lemma_insertion_point(
    records: Seq<WishlistView>,
    record: WishlistView,
    order: OrderSpec,
    from: int,
)
    requires
        0 <= from <= records.len(),
    ensures
        from <= insertion_point(records, record, order, from) <= records.len(),
        forall|k: int|
            from <= k < insertion_point(records, record, order, from) ==> !precedes(
                record,
                #[trigger] records[k],
                order,
            ),
        insertion_point(records, record, order, from) < records.len() ==> precedes(
            record,
            records[insertion_point(records, record, order, from)],
            order,
        ),
    decreases records.len() - from,
{
    if from < records.len() && !precedes(record, records[from], order) {
        lemma_insertion_point(records, record, order, from + 1);
    }
}

/// Ordering keeps the records: each occurs as often after as before.
pub proof fn law_ordered_is_permutation(records: Seq<WishlistView>, order: OrderSpec)
    ensures
        ordered(records, order).to_multiset() == records.to_multiset(),
        ordered(records, order).len() == records.len(),
    decreases records.len(),
{
    broadcast use vstd::seq_lib::group_to_multiset_ensures;

    if records.len() == 0 {
        assert(ordered(records, order) == records);
    } else {
        let earlier = ordered(records.drop_last(), order);
        law_ordered_is_permutation(records.drop_last(), order);
        lemma_insertion_point(earlier, records.last(), order, 0);
        let at = insertion_point(earlier, records.last(), order, 0);
        let all = ordered(records, order);
        assert(all.remove(at) =~= earlier);
        assert(all[at] == records.last());
        assert(all.contains(records.last()));
        assert(all.to_multiset() =~= earlier.to_multiset().insert(records.last()));
        assert(records.drop_last().push(records.last()) == records);
    }
}

/// Every id of an ordered sequence is an id of the records it was made of.
pub proof fn lemma_ordered_ids(records: Seq<WishlistView>, order: OrderSpec)
    ensures
        forall|k: int|
            0 <= k < ordered(records, order).len() ==> exists|i: int|
                0 <= i < records.len() && records[i] == #[trigger] ordered(records, order)[k],
    decreases records.len(),
{
    if records.len() > 0 {
        let earlier = ordered(records.drop_last(), order);
        lemma_ordered_ids(records.drop_last(), order);
        lemma_insertion_point(earlier, records.last(), order, 0);
        let at = insertion_point(earlier, records.last(), order, 0);
        let all = ordered(records, order);
        assert forall|k: int| 0 <= k < all.len() implies exists|i: int|
            0 <= i < records.len() && records[i] == #[trigger] all[k] by {
            if k < at {
                assert(all[k] == earlier[k]);
                let i = choose|i: int|
                    0 <= i < records.drop_last().len() && records.drop_last()[i] == earlier[k];
                assert(records[i] == all[k]);
            } else if k == at {
                assert(records[records.len() - 1] == all[k]);
            } else {
                assert(all[k] == earlier[k - 1]);
                let i = choose|i: int|
                    0 <= i < records.drop_last().len() && records.drop_last()[i] == earlier[k - 1];
                assert(records[i] == all[k]);
            }
        }
    }
}

/// Records with different ids come out in the order: each before all later
/// ones, so that no two are tied.
pub proof fn law_ordered_is_ordered(records: Seq<WishlistView>, order: OrderSpec)
    requires
        distinct_ids(records),
    ensures
        is_ordered(ordered(records, order), order),
        distinct_ids(ordered(records, order)),
    decreases records.len(),
{
    if records.len() > 0 {
        let earlier = ordered(records.drop_last(), order);
        let last = records.last();
        assert(distinct_ids(records.drop_last())) by {
            assert forall|i: int, j: int| 0 <= i < j < records.drop_last().len() implies (
            #[trigger] records.drop_last()[i]).id != (#[trigger] records.drop_last()[j]).id by {
                assert(records[i].id != records[j].id);
            }
        }
        law_ordered_is_ordered(records.drop_last(), order);
        lemma_ordered_ids(records.drop_last(), order);
        lemma_insertion_point(earlier, last, order, 0);
        let at = insertion_point(earlier, last, order, 0);
        let all = ordered(records, order);
        assert forall|k: int| 0 <= k < earlier.len() implies (#[trigger] earlier[k]).id
            != last.id by {
            let i = choose|i: int|
                0 <= i < records.drop_last().len() && records.drop_last()[i] == earlier[k];
            assert(records[i].id != records[records.len() - 1].id);
        }
        assert forall|i: int, j: int| 0 <= i < j < all.len() implies precedes(
            #[trigger] all[i],
            #[trigger] all[j],
            order,
        ) && all[i].id != all[j].id by {
            if j < at {
                assert(all[i] == earlier[i] && all[j] == earlier[j]);
            } else if j == at {
                assert(all[i] == earlier[i]);
                assert(!precedes(last, earlier[i], order));
            } else if i < at {
                assert(all[i] == earlier[i] && all[j] == earlier[j - 1]);
            } else if i == at {
                assert(all[j] == earlier[j - 1]);
                assert(precedes(last, earlier[at], order));
                if j - 1 > at {
                    assert(precedes(earlier[at], earlier[j - 1], order));
                }
            } else {
                assert(all[i] == earlier[i - 1] && all[j] == earlier[j - 1]);
            }
        }
    }
}

/// Two sequences in the order that hold the same records are the same
/// sequence: an order leaves no choice.
pub proof fn lemma_order_is_unique(a: Seq<WishlistView>, b: Seq<WishlistView>, order: OrderSpec)
    requires
        is_ordered(a, order),
        is_ordered(b, order),
        a.to_multiset() == b.to_multiset(),
    ensures
        a == b,
    decreases a.len(),
{
    broadcast use vstd::seq_lib::group_to_multiset_ensures;

    vstd::seq_lib::to_multiset_len(a);
    vstd::seq_lib::to_multiset_len(b);
    if a.len() > 0 {
        assert(a.contains(a[0]));
        assert(b.contains(b[0]));
        assert(b.to_multiset().count(a[0]) > 0);
        assert(a.to_multiset().count(b[0]) > 0);
        let k = choose|k: int| 0 <= k < b.len() && b[k] == a[0];
        let m = choose|m: int| 0 <= m < a.len() && a[m] == b[0];
        if k > 0 && m > 0 {
            assert(precedes(b[0], b[k], order));
            assert(precedes(a[0], a[m], order));
        }
        assert(a[0] == b[0]);
        assert(a.drop_first() == a.remove(0));
        assert(b.drop_first() == b.remove(0));
        assert(a.drop_first().to_multiset() == b.drop_first().to_multiset());
        assert(is_ordered(a.drop_first(), order)) by {
            assert forall|i: int, j: int| 0 <= i < j < a.drop_first().len() implies precedes(
                #[trigger] a.drop_first()[i],
                #[trigger] a.drop_first()[j],
                order,
            ) by {
                assert(precedes(a[i + 1], a[j + 1], order));
            }
        }
        assert(is_ordered(b.drop_first(), order)) by {
            assert forall|i: int, j: int| 0 <= i < j < b.drop_first().len() implies precedes(
                #[trigger] b.drop_first()[i],
                #[trigger] b.drop_first()[j],
                order,
            ) by {
                assert(precedes(b[i + 1], b[j + 1], order));
            }
        }
        lemma_order_is_unique(a.drop_first(), b.drop_first(), order);
        assert(a == seq![a[0]] + a.drop_first());
        assert(b == seq![b[0]] + b.drop_first());
    }
}

/// A listing does not depend on the order in which the store keeps the
/// records: stores that hold the same records, each id once, list them
/// alike.
pub proof fn law_listing_ignores_storage_order(
    a: Seq<WishlistView>,
    b: Seq<WishlistView>,
    order: OrderSpec,
)
    requires
        distinct_ids(a),
        distinct_ids(b),
        a.to_multiset() == b.to_multiset(),
    ensures
        ordered(a, order) == ordered(b, order),
{
    law_ordered_is_permutation(a, order);
    law_ordered_is_permutation(b, order);
    law_ordered_is_ordered(a, order);
    law_ordered_is_ordered(b, order);
    lemma_order_is_unique(ordered(a, order), ordered(b, order), order);
}

/// Two pages that follow one another show what one page of both sizes shows,
/// and the count of records does not depend on the page.
pub proof fn law_windows_join(records: Seq<WishlistView>, skip: int, first: int, second: int)
    requires
        0 <= skip,
        0 <= first,
        0 <= second,
    ensures
        window(records, skip, first) + window(records, skip + first, second) == window(
            records,
            skip,
            first + second,
        ),
{
}

/// Two pages that follow one another in an ordered listing of records with
/// different ids share no record id.
pub proof fn law_windows_disjoint(
    records: Seq<WishlistView>,
    order: OrderSpec,
    skip: int,
    first: int,
    second: int,
    i: int,
    j: int,
)
    requires
        distinct_ids(records),
        0 <= skip,
        0 <= first,
        0 <= second,
        0 <= i < window(ordered(records, order), skip, first).len(),
        0 <= j < window(ordered(records, order), skip + first, second).len(),
    ensures
        window(ordered(records, order), skip, first)[i].id != window(
            ordered(records, order),
            skip + first,
            second,
        )[j].id,
{
    law_ordered_is_ordered(records, order);
    let all = ordered(records, order);
    assert(all[skip + i].id != all[skip + first + j].id);
}

} // verus!
