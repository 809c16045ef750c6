//! Checks that what a request refers to is known here, before anything is
//! written.

use vstd::prelude::*;
use crate::error::{Error, Reference};
use crate::foreign_types::{ProductVariant, User};
use crate::id::Uuid;
use crate::wishlist::holds_variant;

verus! {

/// Whether the `k`-th id of the list names no known product variant.
pub open spec fn is_missing(ids: Seq<Uuid>, known: Seq<ProductVariant>, k: int) -> bool {
    0 <= k < ids.len() && !known.contains(ProductVariant { id: ids[k] })
}

/// The first id of the list that names no known product variant.
pub open spec fn first_missing(ids: Seq<Uuid>, known: Seq<ProductVariant>) -> Option<Uuid> {
    if exists|k: int| is_missing(ids, known, k) {
        let first = choose|k: int|
            is_missing(ids, known, k) && forall|j: int| 0 <= j < k ==> !is_missing(ids, known, j);
        Some(ids[first])
    } else {
        None
    }
}

/// The verdict on the product variants of a request, given the known ones
/// among them: refused with the first id that is not known.
pub open spec fn reference_check(ids: Seq<Uuid>, known: Seq<ProductVariant>) -> Result<(), Error> {
    match first_missing(ids, known) {
        Some(id) => Err(Error::ReferenceNotFound { reference: Reference::ProductVariant, id }),
        None => Ok(()),
    }
}

/// The verdict on the owner that a request names, given what a lookup of the
/// user gave: an owner who is not known is a reference that is not found.
pub open spec fn user_check(found: Option<User>, id: Uuid) -> Result<(), Error> {
    match found {
        Some(_) => Ok(()),
        None => Err(Error::ReferenceNotFound { reference: Reference::User, id }),
    }
}

/// Checks the product variants that a request names against those that one
/// lookup for all of them found.
pub fn validate_product_variant_ids(
    product_variant_ids: &Vec<Uuid>,
    found: &Vec<ProductVariant>,
) -> (verdict: Result<(), Error>)
    ensures
        verdict == reference_check(product_variant_ids@, found@),
{
    let mut i: usize = 0;
    while i < product_variant_ids.len()
        invariant
            i <= product_variant_ids.len(),
            forall|j: int| 0 <= j < i ==> !is_missing(product_variant_ids@, found@, j),
        decreases product_variant_ids.len() - i,
    {
        if !holds_variant(found, product_variant_ids[i]) {
            assert(is_missing(product_variant_ids@, found@, i as int));
            return Err(
                Error::ReferenceNotFound {
                    reference: Reference::ProductVariant,
                    id: product_variant_ids[i],
                },
            );
        }
        i += 1;
    }
    Ok(())
}

/// Checks that the lookup of the owner of a request found a user.
pub fn validate_user(found: &Option<User>, id: Uuid) -> (verdict: Result<(), Error>)
    ensures
        verdict == user_check(*found, id),
{
    match found {
        Some(_) => Ok(()),
        None => Err(Error::ReferenceNotFound { reference: Reference::User, id }),
    }
}

/// The check passes exactly where every id of the request is known.
pub proof fn law_references_pass_iff_all_known(ids: Seq<Uuid>, known: Seq<ProductVariant>)
    ensures
        reference_check(ids, known) is Ok <==> forall|k: int|
            0 <= k < ids.len() ==> known.contains(ProductVariant { id: #[trigger] ids[k] }),
{
    if forall|k: int| 0 <= k < ids.len() ==> known.contains(ProductVariant { id: #[trigger] ids[k] }) {
        assert forall|k: int| !is_missing(ids, known, k) by {
            if 0 <= k < ids.len() {
                assert(known.contains(ProductVariant { id: ids[k] }));
            }
        }
    } else {
        let k = choose|k: int|
            0 <= k < ids.len() && !known.contains(ProductVariant { id: #[trigger] ids[k] });
        assert(is_missing(ids, known, k));
    }
}

/// Among the positions that hold a missing id there is a first.
pub proof fn lemma_first_missing_exists(ids: Seq<Uuid>, known: Seq<ProductVariant>, k: int)
    requires
        is_missing(ids, known, k),
    ensures
        exists|first: int|
            is_missing(ids, known, first) && forall|j: int|
                0 <= j < first ==> !is_missing(ids, known, j),
    decreases k,
{
    if exists|j: int| 0 <= j < k && is_missing(ids, known, j) {
        let j = choose|j: int| 0 <= j < k && is_missing(ids, known, j);
        lemma_first_missing_exists(ids, known, j);
    }
}

/// One unknown id is enough for the check to refuse, however many others are
/// known; the id that the refusal names is one of the request and unknown.
pub proof fn law_one_missing_reference_refuses(ids: Seq<Uuid>, known: Seq<ProductVariant>, k: int)
    requires
        0 <= k < ids.len(),
        !known.contains(ProductVariant { id: ids[k] }),
    ensures
        reference_check(ids, known) matches Err(
            Error::ReferenceNotFound { reference: Reference::ProductVariant, id },
        ) && ids.contains(id) && !known.contains(ProductVariant { id }),
{
    assert(is_missing(ids, known, k));
    lemma_first_missing_exists(ids, known, k);
}

} // verus!
