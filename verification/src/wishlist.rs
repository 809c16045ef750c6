//! The wishlist record, the requests that make and change one, and what a
//! change does to a record.

use vstd::prelude::*;
use crate::datetime::DateTime;
use crate::foreign_types::{ProductVariant, User};
use crate::id::Uuid;

verus! {

/// A named collection of product variants that a user keeps.
#[derive(Debug, PartialEq, Eq)]
pub struct Wishlist {
    pub id: Uuid,
    pub user: User,
    pub product_variants: Vec<ProductVariant>,
    pub name: String,
    pub created_at: DateTime,
    pub last_updated_at: DateTime,
}

/// A wishlist as contracts see it.
pub struct WishlistView {
    pub id: Uuid,
    pub user: User,
    pub product_variants: Seq<ProductVariant>,
    pub name: Seq<char>,
    pub created_at: DateTime,
    pub last_updated_at: DateTime,
}

impl WishlistView {
    /// Whether no product variant occurs twice in the record.
    pub open spec fn wf(self) -> bool {
        self.product_variants.no_duplicates()
    }
}

impl View for Wishlist {
    type V = WishlistView;

    open spec fn view(&self) -> WishlistView {
        WishlistView {
            id: self.id,
            user: self.user,
            product_variants: self.product_variants@,
            name: self.name@,
            created_at: self.created_at,
            last_updated_at: self.last_updated_at,
        }
    }
}

/// The request to make a wishlist.
#[derive(Debug, PartialEq, Eq)]
pub struct CreateWishlistInput {
    pub user_id: Uuid,
    pub product_variant_ids: Vec<Uuid>,
    pub name: String,
}

/// A request to make a wishlist as contracts see it.
pub struct NewWishlist {
    pub user_id: Uuid,
    pub product_variant_ids: Seq<Uuid>,
    pub name: Seq<char>,
}

impl View for CreateWishlistInput {
    type V = NewWishlist;

    open spec fn view(&self) -> NewWishlist {
        NewWishlist {
            user_id: self.user_id,
            product_variant_ids: self.product_variant_ids@,
            name: self.name@,
        }
    }
}

/// The request to change a wishlist. A field that is `None` is left as it
/// is; one that is `Some` replaces what is stored.
#[derive(Debug, PartialEq, Eq)]
pub struct UpdateWishlistInput {
    pub id: Uuid,
    pub product_variant_ids: Option<Vec<Uuid>>,
    pub name: Option<String>,
}

/// A request to change a wishlist as contracts see it.
pub struct WishlistPatch {
    pub id: Uuid,
    pub product_variant_ids: Option<Seq<Uuid>>,
    pub name: Option<Seq<char>>,
}

impl View for UpdateWishlistInput {
    type V = WishlistPatch;

    open spec fn view(&self) -> WishlistPatch {
        WishlistPatch {
            id: self.id,
            product_variant_ids: match self.product_variant_ids {
                Some(ids) => Some(ids@),
                None => None,
            },
            name: match self.name {
                Some(name) => Some(name@),
                None => None,
            },
        }
    }
}

impl WishlistPatch {
    /// Whether the request names no field to change.
    pub open spec fn is_empty(self) -> bool {
        self.product_variant_ids is None && self.name is None
    }
}

/// What a change writes to a record: for each of the three fields that a
/// change can touch, the new value, or `None` where the field stays.
#[derive(Debug, PartialEq, Eq)]
pub struct FieldsToSet {
    pub product_variants: Option<Vec<ProductVariant>>,
    pub name: Option<String>,
    pub last_updated_at: Option<DateTime>,
}

/// What a change writes as contracts see it.
pub struct FieldsToSetView {
    pub product_variants: Option<Seq<ProductVariant>>,
    pub name: Option<Seq<char>>,
    pub last_updated_at: Option<DateTime>,
}

impl View for FieldsToSet {
    type V = FieldsToSetView;

    open spec fn view(&self) -> FieldsToSetView {
        FieldsToSetView {
            product_variants: match self.product_variants {
                Some(variants) => Some(variants@),
                None => None,
            },
            name: match self.name {
                Some(name) => Some(name@),
                None => None,
            },
            last_updated_at: self.last_updated_at,
        }
    }
}

impl FieldsToSetView {
    /// Whether no field is written.
    pub open spec fn is_empty(self) -> bool {
        self.product_variants is None && self.name is None && self.last_updated_at is None
    }

    /// The record with the fields written to it.
    pub open spec fn applied(self, record: WishlistView) -> WishlistView {
        WishlistView {
            product_variants: match self.product_variants {
                Some(variants) => variants,
                None => record.product_variants,
            },
            name: match self.name {
                Some(name) => name,
                None => record.name,
            },
            last_updated_at: match self.last_updated_at {
                Some(at) => at,
                None => record.last_updated_at,
            },
            ..record
        }
    }
}

/// What a change at the time `at` writes: each field that the request names,
/// product variants without repeats, and the time of the last change exactly
/// where the request names a field.
pub open spec fn fields_of(patch: WishlistPatch, at: DateTime) -> FieldsToSetView {
    FieldsToSetView {
        product_variants: match patch.product_variant_ids {
            Some(ids) => Some(product_variants(ids)),
            None => None,
        },
        name: patch.name,
        last_updated_at: if patch.is_empty() {
            None
        } else {
            Some(at)
        },
    }
}

/// The product variants that a list of ids names: one for each id, in the
/// order of first mention, none twice.
pub open spec fn product_variants(ids: Seq<Uuid>) -> Seq<ProductVariant>
    decreases ids.len(),
{
    if ids.len() == 0 {
        Seq::empty()
    } else {
        let earlier = product_variants(ids.drop_last());
        let last = ProductVariant { id: ids.last() };
        if earlier.contains(last) {
            earlier
        } else {
            earlier.push(last)
        }
    }
}

/// The record that a request to make a wishlist gives, under the id `id` at
/// the time `now`.
pub open spec fn new_wishlist(input: NewWishlist, id: Uuid, now: DateTime) -> WishlistView {
    WishlistView {
        id,
        user: User { id: input.user_id },
        product_variants: product_variants(input.product_variant_ids),
        name: input.name,
        created_at: now,
        last_updated_at: now,
    }
}

/// The record after a change at the time `now`: each field that the request
/// names is replaced, and the time of the last change moves to `now` exactly
/// where the request names a field.
pub open spec fn patched(
    record: WishlistView,
    patch: WishlistPatch,
    now: DateTime,
) -> WishlistView {
    WishlistView {
        id: record.id,
        user: record.user,
        product_variants: match patch.product_variant_ids {
            Some(ids) => product_variants(ids),
            None => record.product_variants,
        },
        name: match patch.name {
            Some(name) => name,
            None => record.name,
        },
        created_at: record.created_at,
        last_updated_at: if patch.is_empty() {
            record.last_updated_at
        } else {
            now
        },
    }
}

/// Whether a list holds the product variant.
pub fn holds_variant(variants: &Vec<ProductVariant>, id: Uuid) -> (held: bool)
    ensures
        held == variants@.contains(ProductVariant { id }),
{
    let mut i: usize = 0;
    while i < variants.len()
        invariant
            i <= variants.len(),
            forall|j: int| 0 <= j < i ==> variants[j] != (ProductVariant { id }),
        decreases variants.len() - i,
    {
        if variants[i].id == id {
            assert(variants@[i as int] == (ProductVariant { id }));
            return true;
        }
        i += 1;
    }
    false
}

/// The product variants that a list of ids names, repeated ids dropped.
pub fn normalized_product_variants(ids: &Vec<Uuid>) -> (variants: Vec<ProductVariant>)
    ensures
        variants@ == product_variants(ids@),
{
    let mut variants: Vec<ProductVariant> = Vec::new();
    let mut i: usize = 0;
    while i < ids.len()
        invariant
            i <= ids.len(),
            variants@ == product_variants(ids@.take(i as int)),
        decreases ids.len() - i,
    {
        assert(ids@.take(i + 1).drop_last() == ids@.take(i as int));
        if !holds_variant(&variants, ids[i]) {
            variants.push(ProductVariant { id: ids[i] });
        }
        i += 1;
    }
    assert(ids@.take(ids.len() as int) == ids@);
    variants
}

/// A copy of a list of product variants.
pub fn copy_variants(variants: &Vec<ProductVariant>) -> (copy: Vec<ProductVariant>)
    ensures
        copy@ == variants@,
{
    let mut copy: Vec<ProductVariant> = Vec::new();
    let mut i: usize = 0;
    while i < variants.len()
        invariant
            i <= variants.len(),
            copy@ == variants@.take(i as int),
        decreases variants.len() - i,
    {
        copy.push(variants[i]);
        i += 1;
    }
    assert(variants@.take(variants.len() as int) == variants@);
    copy
}

/// The fields that a change at the time `at` writes, for whoever carries
/// the change out.
pub fn fields_to_set(patch: &UpdateWishlistInput, at: DateTime) -> (fields: FieldsToSet)
    ensures
        fields@ == fields_of(patch@, at),
        forall|record: WishlistView|
            #[trigger] fields@.applied(record) == patched(record, patch@, at),
{
    let product_variants = match &patch.product_variant_ids {
        Some(ids) => Some(normalized_product_variants(ids)),
        None => None,
    };
    let name = match &patch.name {
        Some(name) => Some(name.clone()),
        None => None,
    };
    let last_updated_at = if product_variants.is_some() || name.is_some() {
        Some(at)
    } else {
        None
    };
    let fields = FieldsToSet { product_variants, name, last_updated_at };
    proof {
        assert forall|record: WishlistView| #[trigger]
            fields@.applied(record) == patched(record, patch@, at) by {
            law_fields_written_are_the_change(record, patch@, at);
        }
    }
    fields
}

impl Clone for Wishlist {
    fn clone(&self) -> (copy: Wishlist)
        ensures
            copy@ == self@,
    {
        Wishlist {
            id: self.id,
            user: self.user,
            product_variants: copy_variants(&self.product_variants),
            name: self.name.clone(),
            created_at: self.created_at,
            last_updated_at: self.last_updated_at,
        }
    }
}

impl Wishlist {
    /// The record that `input` asks for, under the id `id`, made at `now`.
    pub fn create(input: CreateWishlistInput, id: Uuid, now: DateTime) -> (record: Wishlist)
        ensures
            record@ == new_wishlist(input@, id, now),
            record@.wf(),
    {
        proof {
            law_product_variants_distinct(input.product_variant_ids@);
        }
        Wishlist {
            id,
            user: User { id: input.user_id },
            product_variants: normalized_product_variants(&input.product_variant_ids),
            name: input.name,
            created_at: now,
            last_updated_at: now,
        }
    }

    /// Applies a change at the time `now`.
    pub fn apply(&mut self, patch: &UpdateWishlistInput, now: DateTime)
        ensures
            final(self)@ == patched(old(self)@, patch@, now),
            old(self)@.wf() ==> final(self)@.wf(),
    {
        proof {
            law_patched_keeps_well_formed(self@, patch@, now);
        }
        let FieldsToSet { product_variants, name, last_updated_at } = fields_to_set(patch, now);
        match product_variants {
            Some(product_variants) => {
                self.product_variants = product_variants;
            },
            None => {},
        }
        match name {
            Some(name) => {
                self.name = name;
            },
            None => {},
        }
        match last_updated_at {
            Some(last_updated_at) => {
                self.last_updated_at = last_updated_at;
            },
            None => {},
        }
    }
}

/// Writing the fields of a change to a record gives the changed record, and
/// a change writes nothing exactly where it names no field.
pub proof fn law_fields_written_are_the_change(
    record: WishlistView,
    patch: WishlistPatch,
    at: DateTime,
)
    ensures
        fields_of(patch, at).applied(record) == patched(record, patch, at),
        fields_of(patch, at).is_empty() <==> patch.is_empty(),
{
}

/// No product variant occurs twice in what a list of ids names.
pub proof fn law_product_variants_distinct(ids: Seq<Uuid>)
    ensures
        product_variants(ids).no_duplicates(),
    decreases ids.len(),
{
    if ids.len() > 0 {
        law_product_variants_distinct(ids.drop_last());
    }
}

/// A new record holds no product variant twice, and a change keeps it so.
pub proof fn law_patched_keeps_well_formed(
    record: WishlistView,
    patch: WishlistPatch,
    now: DateTime,
)
    ensures
        record.wf() ==> patched(record, patch, now).wf(),
{
    if patch.product_variant_ids is Some {
        law_product_variants_distinct(patch.product_variant_ids.unwrap());
    }
}

/// What a list of ids names holds exactly the ids of the list.
pub proof fn law_product_variants_same_ids(ids: Seq<Uuid>, id: Uuid)
    ensures
        product_variants(ids).contains(ProductVariant { id }) <==> ids.contains(id),
    decreases ids.len(),
{
    if ids.len() > 0 {
        law_product_variants_same_ids(ids.drop_last(), id);
        let earlier = product_variants(ids.drop_last());
        let last = ProductVariant { id: ids.last() };
        if ids.contains(id) {
            let k = choose|k: int| 0 <= k < ids.len() && ids[k] == id;
            if k < ids.len() - 1 {
                assert(ids.drop_last()[k] == id);
            }
        }
        if !earlier.contains(last) {
            assert(earlier.push(last)[earlier.len() as int] == last);
            if earlier.contains(ProductVariant { id }) {
                let k = choose|k: int|
                    0 <= k < earlier.len() && earlier[k] == (ProductVariant { id });
                assert(earlier.push(last)[k] == (ProductVariant { id }));
            }
        }
        if ids.drop_last().contains(id) {
            let k = choose|k: int| 0 <= k < ids.drop_last().len() && ids.drop_last()[k] == id;
            assert(ids[k] == id);
        }
        assert(ids[ids.len() - 1] == ids.last());
    }
}

/// A change that names no field leaves the record as it is, the time of its
/// last change included.
pub proof fn law_patch_without_fields_is_identity(
    record: WishlistView,
    patch: WishlistPatch,
    now: DateTime,
)
    requires
        patch.is_empty(),
    ensures
        patched(record, patch, now) == record,
{
}

/// A change that names only the name replaces the name and moves the time of
/// the last change, and leaves every other field as it is.
pub proof fn law_patch_of_name_keeps_the_rest(
    record: WishlistView,
    patch: WishlistPatch,
    now: DateTime,
)
    requires
        patch.name is Some,
        patch.product_variant_ids is None,
    ensures
        patched(record, patch, now) == (WishlistView {
            name: patch.name.unwrap(),
            last_updated_at: now,
            ..record
        }),
{
}

} // verus!
