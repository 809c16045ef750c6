//! The boundary to the document store: the requests that an operation may
//! make, the answers it may get, and what a faithful store answers.

use vstd::prelude::*;
use crate::connection::record_views;
use crate::datetime::DateTime;
use crate::foreign_types::{ProductVariant, User};
use crate::id::{be_bytes, Uuid};
use crate::order::{ordered, window, OrderSpec};
use crate::wishlist::{patched, UpdateWishlistInput, Wishlist, WishlistPatch, WishlistView};

verus! {

/// The id under which the store says it has put a record.
#[derive(Debug, PartialEq, Eq)]
pub enum InsertedId {
    /// A binary value with its subtype.
    Binary { subtype: u8, bytes: Vec<u8> },
    /// A text.
    String(String),
    /// Any other kind of value.
    Other,
}

/// An inserted id as contracts see it.
pub enum InsertedIdView {
    Binary { subtype: u8, bytes: Seq<u8> },
    String(Seq<char>),
    Other,
}

impl View for InsertedId {
    type V = InsertedIdView;

    open spec fn view(&self) -> InsertedIdView {
        match self {
            InsertedId::Binary { subtype, bytes } => InsertedIdView::Binary {
                subtype: *subtype,
                bytes: bytes@,
            },
            InsertedId::String(text) => InsertedIdView::String(text@),
            InsertedId::Other => InsertedIdView::Other,
        }
    }
}

/// One request to the store.
#[derive(Debug, PartialEq, Eq)]
pub enum StoreRequest {
    /// Look up the wishlist with this id.
    FindWishlist { id: Uuid },
    /// Look up the user with this id.
    FindUser { id: Uuid },
    /// Look up, at once, the product variants with these ids.
    FindProductVariants { ids: Vec<Uuid> },
    /// Put a new wishlist.
    InsertWishlist { wishlist: Wishlist },
    /// On the wishlist that the change names, replace the fields that it
    /// names and set the time of the last change to `at`.
    UpdateWishlist { patch: UpdateWishlistInput, at: DateTime },
    /// Remove the wishlist with this id.
    DeleteWishlist { id: Uuid },
    /// The wishlists in the order, at most `limit` of them after the first
    /// `skip`.
    ListWishlists { order: OrderSpec, skip: u64, limit: u64 },
    /// How many wishlists there are, whatever page is asked for.
    CountWishlists,
}

/// A request as contracts see it.
pub enum Request {
    FindWishlist { id: Uuid },
    FindUser { id: Uuid },
    FindProductVariants { ids: Seq<Uuid> },
    InsertWishlist { wishlist: WishlistView },
    UpdateWishlist { patch: WishlistPatch, at: DateTime },
    DeleteWishlist { id: Uuid },
    ListWishlists { order: OrderSpec, skip: u64, limit: u64 },
    CountWishlists,
}

impl Request {
    /// Whether a record that the request carries holds no product variant
    /// twice.
    pub open spec fn wf(self) -> bool {
        match self {
            Request::InsertWishlist { wishlist } => wishlist.wf(),
            _ => true,
        }
    }
}

impl View for StoreRequest {
    type V = Request;

    open spec fn view(&self) -> Request {
        match self {
            StoreRequest::FindWishlist { id } => Request::FindWishlist { id: *id },
            StoreRequest::FindUser { id } => Request::FindUser { id: *id },
            StoreRequest::FindProductVariants { ids } => Request::FindProductVariants { ids: ids@ },
            StoreRequest::InsertWishlist { wishlist } => Request::InsertWishlist {
                wishlist: wishlist@,
            },
            StoreRequest::UpdateWishlist { patch, at } => Request::UpdateWishlist {
                patch: patch@,
                at: *at,
            },
            StoreRequest::DeleteWishlist { id } => Request::DeleteWishlist { id: *id },
            StoreRequest::ListWishlists { order, skip, limit } => Request::ListWishlists {
                order: *order,
                skip: *skip,
                limit: *limit,
            },
            StoreRequest::CountWishlists => Request::CountWishlists,
        }
    }
}

/// One answer of the store.
#[derive(Debug, PartialEq, Eq)]
pub enum StoreResponse {
    /// The wishlist that was looked up, if there is one.
    Wishlist(Option<Wishlist>),
    /// The user that was looked up, if there is one.
    User(Option<User>),
    /// Those of the product variants looked up that there are.
    ProductVariants(Vec<ProductVariant>),
    /// The record was put, under this id.
    Inserted(InsertedId),
    /// The change was carried out, on a record or on none.
    Updated { matched: bool },
    /// So many records were removed.
    Deleted { count: u64 },
    /// The wishlists of a page.
    Wishlists(Vec<Wishlist>),
    /// The count of all wishlists.
    Count(u64),
    /// The store could not carry the request out.
    Failed,
}

/// An answer as contracts see it.
pub enum Response {
    Wishlist(Option<WishlistView>),
    User(Option<User>),
    ProductVariants(Seq<ProductVariant>),
    Inserted(InsertedIdView),
    Updated { matched: bool },
    Deleted { count: u64 },
    Wishlists(Seq<WishlistView>),
    Count(u64),
    Failed,
}

impl View for StoreResponse {
    type V = Response;

    open spec fn view(&self) -> Response {
        match self {
            StoreResponse::Wishlist(found) => Response::Wishlist(
                match found {
                    Some(record) => Some(record@),
                    None => None,
                },
            ),
            StoreResponse::User(found) => Response::User(*found),
            StoreResponse::ProductVariants(found) => Response::ProductVariants(found@),
            StoreResponse::Inserted(id) => Response::Inserted(id@),
            StoreResponse::Updated { matched } => Response::Updated { matched: *matched },
            StoreResponse::Deleted { count } => Response::Deleted { count: *count },
            StoreResponse::Wishlists(records) => Response::Wishlists(record_views(records@)),
            StoreResponse::Count(count) => Response::Count(*count),
            StoreResponse::Failed => Response::Failed,
        }
    }
}

/// Whether a record of the sequence has the id.
pub open spec fn holds_id(records: Seq<WishlistView>, id: Uuid) -> bool {
    exists|i: int| 0 <= i < records.len() && (#[trigger] records[i]).id == id
}

/// Whether `i` is the first position of the sequence with a record of the id.
pub open spec fn is_position_of(records: Seq<WishlistView>, id: Uuid, i: int) -> bool {
    &&& 0 <= i < records.len()
    &&& records[i].id == id
    &&& forall|j: int| 0 <= j < i ==> (#[trigger] records[j]).id != id
}

/// The first position of the sequence with a record of the id.
pub open spec fn position_of(records: Seq<WishlistView>, id: Uuid) -> int {
    choose|i: int| is_position_of(records, id, i)
}

/// The record of the sequence with the id, if there is one.
pub open spec fn record_of(records: Seq<WishlistView>, id: Uuid) -> Option<WishlistView> {
    if holds_id(records, id) {
        Some(records[position_of(records, id)])
    } else {
        None
    }
}

/// Whether a product variant is one that the ids name.
pub open spec fn named_by(ids: Seq<Uuid>) -> spec_fn(ProductVariant) -> bool {
    |known: ProductVariant| ids.contains(known.id)
}

/// What a store holds: the wishlists, the users and product variants that
/// other services have made known, and whether the store can be reached.
pub struct StoreModel {
    pub wishlists: Seq<WishlistView>,
    pub users: Seq<User>,
    pub product_variants: Seq<ProductVariant>,
    pub available: bool,
}

impl StoreModel {
    /// Whether no two wishlists share an id and none holds a product variant
    /// twice.
    pub open spec fn wf(self) -> bool {
        &&& crate::order::distinct_ids(self.wishlists)
        &&& forall|i: int| 0 <= i < self.wishlists.len() ==> (#[trigger] self.wishlists[i]).wf()
    }

    /// What the store answers to a request.
    pub open spec fn answer(self, request: Request) -> Response {
        if !self.available {
            Response::Failed
        } else {
            match request {
                Request::FindWishlist { id } => Response::Wishlist(record_of(self.wishlists, id)),
                Request::FindUser { id } => Response::User(
                    if self.users.contains(User { id }) {
                        Some(User { id })
                    } else {
                        None
                    },
                ),
                Request::FindProductVariants { ids } => Response::ProductVariants(
                    self.product_variants.filter(named_by(ids)),
                ),
                Request::InsertWishlist { wishlist } => if holds_id(self.wishlists, wishlist.id) {
                    Response::Failed
                } else {
                    Response::Inserted(
                        InsertedIdView::Binary { subtype: 4, bytes: be_bytes(wishlist.id.value) },
                    )
                },
                Request::UpdateWishlist { patch, at } => Response::Updated {
                    matched: holds_id(self.wishlists, patch.id),
                },
                Request::DeleteWishlist { id } => Response::Deleted {
                    count: if holds_id(self.wishlists, id) {
                        1
                    } else {
                        0
                    },
                },
                Request::ListWishlists { order, skip, limit } => Response::Wishlists(
                    window(ordered(self.wishlists, order), skip as int, limit as int),
                ),
                Request::CountWishlists => Response::Count(self.wishlists.len() as u64),
            }
        }
    }

    /// What the store holds after a request.
    pub open spec fn after(self, request: Request) -> StoreModel {
        if !self.available {
            self
        } else {
            match request {
                Request::InsertWishlist { wishlist } => if holds_id(self.wishlists, wishlist.id) {
                    self
                } else {
                    StoreModel { wishlists: self.wishlists.push(wishlist), ..self }
                },
                Request::UpdateWishlist { patch, at } => if holds_id(self.wishlists, patch.id) {
                    let at_position = position_of(self.wishlists, patch.id);
                    StoreModel {
                        wishlists: self.wishlists.update(
                            at_position,
                            patched(self.wishlists[at_position], patch, at),
                        ),
                        ..self
                    }
                } else {
                    self
                },
                Request::DeleteWishlist { id } => if holds_id(self.wishlists, id) {
                    StoreModel {
                        wishlists: self.wishlists.remove(position_of(self.wishlists, id)),
                        ..self
                    }
                } else {
                    self
                },
                _ => self,
            }
        }
    }
}

/// Where a record of the sequence has the id, its first position is one.
pub proof fn lemma_position_of(records: Seq<WishlistView>, id: Uuid)
    requires
        holds_id(records, id),
    ensures
        is_position_of(records, id, position_of(records, id)),
{
    let some = choose|i: int| 0 <= i < records.len() && (#[trigger] records[i]).id == id;
    lemma_first_position(records, id, some);
}

/// Below a position with the id there is a first such position.
proof fn lemma_first_position(records: Seq<WishlistView>, id: Uuid, i: int)
    requires
        0 <= i < records.len(),
        records[i].id == id,
    ensures
        exists|first: int| is_position_of(records, id, first),
    decreases i,
{
    if exists|j: int| 0 <= j < i && (#[trigger] records[j]).id == id {
        let j = choose|j: int| 0 <= j < i && (#[trigger] records[j]).id == id;
        lemma_first_position(records, id, j);
    } else {
        assert(is_position_of(records, id, i));
    }
}

/// A position that is the first with the id is the one that `position_of`
/// names.
pub proof fn lemma_position_unique(records: Seq<WishlistView>, id: Uuid, i: int)
    requires
        is_position_of(records, id, i),
    ensures
        holds_id(records, id),
        position_of(records, id) == i,
{
    let p = position_of(records, id);
    assert(is_position_of(records, id, p));
    if p < i {
        assert(records[p].id != id);
    } else if i < p {
        assert(records[i].id != id);
    }
}

} // verus!
