//! Records owned by other services, of which only the id is kept here.

use vstd::prelude::*;
use vstd::std_specs::cmp::PartialOrdSpecImpl;
use core::cmp::Ordering;
use crate::id::Uuid;

verus! {

/// A user, as far as wishlists need to know one.
#[derive(Clone, Copy, Debug, PartialEq, Eq, Structural, Hash)]
pub struct User {
    pub id: Uuid,
}

/// A product variant, as far as wishlists need to know one.
#[derive(Clone, Copy, Debug, PartialEq, Eq, Structural, Hash)]
pub struct ProductVariant {
    pub id: Uuid,
}

/// Product variants are ordered by their ids.
impl PartialOrd for ProductVariant {
    fn partial_cmp(&self, other: &Self) -> (order: Option<Ordering>) {
        if self.id.value < other.id.value {
            Some(Ordering::Less)
        } else if self.id.value == other.id.value {
            Some(Ordering::Equal)
        } else {
            Some(Ordering::Greater)
        }
    }
}

impl PartialOrdSpecImpl for ProductVariant {
    open spec fn obeys_partial_cmp_spec() -> bool {
        true
    }

    open spec fn partial_cmp_spec(&self, other: &Self) -> Option<Ordering> {
        if self.id.value < other.id.value {
            Some(Ordering::Less)
        } else if self.id.value == other.id.value {
            Some(Ordering::Equal)
        } else {
            Some(Ordering::Greater)
        }
    }
}

} // verus!
