use wishlist::datetime::DateTime;
use wishlist::foreign_types::{ProductVariant, User};
use wishlist::id::Uuid;
use wishlist::memory_store::MemoryStore;
use wishlist::order::{OrderDirection, OrderField, OrderSpec};
use wishlist::store::{InsertedId, StoreRequest, StoreResponse};
use wishlist::wishlist::{UpdateWishlistInput, Wishlist};

fn id(value: u128) -> Uuid {
    Uuid::from_u128(value)
}

fn record(wishlist: u128, made: i64) -> Wishlist {
    Wishlist {
        id: id(wishlist),
        user: User { id: id(1) },
        product_variants: vec![ProductVariant { id: id(7) }],
        name: "n".to_string(),
        created_at: DateTime::from_millis(made),
        last_updated_at: DateTime::from_millis(made),
    }
}

fn store() -> MemoryStore {
    let mut store = MemoryStore::new();
    for value in [30u128, 10, 20] {
        store.add_product_variant(ProductVariant { id: id(value) });
    }
    store.add_user(User { id: id(1) });
    for (wishlist, made) in [(3u128, 30i64), (1, 10), (2, 20)] {
        store.respond(StoreRequest::InsertWishlist { wishlist: record(wishlist, made) });
    }
    store
}

fn ascending() -> OrderSpec {
    OrderSpec { field: OrderField::CreatedAt, direction: OrderDirection::Ascending }
}

#[test]
fn a_new_store_holds_nothing() {
    let mut store = MemoryStore::new();
    assert_eq!(store.respond(StoreRequest::CountWishlists), StoreResponse::Count(0));
    assert_eq!(store.respond(StoreRequest::FindWishlist { id: id(1) }), StoreResponse::Wishlist(None));
    assert_eq!(store.respond(StoreRequest::FindUser { id: id(1) }), StoreResponse::User(None));
    assert_eq!(
        store.respond(StoreRequest::FindProductVariants { ids: vec![id(1)] }),
        StoreResponse::ProductVariants(vec![])
    );
}

#[test]
fn one_lookup_finds_the_known_ones_among_the_ids() {
    let mut store = store();
    assert_eq!(
        store.respond(StoreRequest::FindProductVariants { ids: vec![id(20), id(99), id(30)] }),
        StoreResponse::ProductVariants(vec![ProductVariant { id: id(30) }, ProductVariant { id: id(20) }])
    );
    assert_eq!(
        store.respond(StoreRequest::FindProductVariants { ids: vec![] }),
        StoreResponse::ProductVariants(vec![])
    );
}

#[test]
fn a_record_is_found_by_its_id() {
    let mut store = store();
    assert_eq!(
        store.respond(StoreRequest::FindWishlist { id: id(2) }),
        StoreResponse::Wishlist(Some(record(2, 20)))
    );
    assert_eq!(store.respond(StoreRequest::FindWishlist { id: id(4) }), StoreResponse::Wishlist(None));
    assert_eq!(
        store.respond(StoreRequest::FindUser { id: id(1) }),
        StoreResponse::User(Some(User { id: id(1) }))
    );
}

#[test]
fn an_id_is_taken_once() {
    let mut store = store();
    assert_eq!(
        store.respond(StoreRequest::InsertWishlist { wishlist: record(2, 99) }),
        StoreResponse::Failed
    );
    assert_eq!(store.respond(StoreRequest::CountWishlists), StoreResponse::Count(3));
    assert_eq!(
        store.respond(StoreRequest::FindWishlist { id: id(2) }),
        StoreResponse::Wishlist(Some(record(2, 20)))
    );
    let mut bytes = vec![0u8; 16];
    bytes[15] = 4;
    assert_eq!(
        store.respond(StoreRequest::InsertWishlist { wishlist: record(4, 40) }),
        StoreResponse::Inserted(InsertedId::Binary { subtype: 4, bytes })
    );
    assert_eq!(store.respond(StoreRequest::CountWishlists), StoreResponse::Count(4));
}

#[test]
fn a_change_meets_the_record_or_none() {
    let mut store = store();
    let rename = |wishlist: u128| StoreRequest::UpdateWishlist {
        patch: UpdateWishlistInput { id: id(wishlist), product_variant_ids: None, name: Some("new".to_string()) },
        at: DateTime::from_millis(500),
    };
    assert_eq!(store.respond(rename(9)), StoreResponse::Updated { matched: false });
    assert_eq!(store.respond(rename(1)), StoreResponse::Updated { matched: true });
    assert_eq!(
        store.respond(StoreRequest::FindWishlist { id: id(1) }),
        StoreResponse::Wishlist(Some(Wishlist {
            name: "new".to_string(),
            last_updated_at: DateTime::from_millis(500),
            ..record(1, 10)
        }))
    );
    assert_eq!(
        store.respond(StoreRequest::FindWishlist { id: id(3) }),
        StoreResponse::Wishlist(Some(record(3, 30)))
    );
}

#[test]
fn a_removal_counts_what_it_removed() {
    let mut store = store();
    assert_eq!(store.respond(StoreRequest::DeleteWishlist { id: id(9) }), StoreResponse::Deleted { count: 0 });
    assert_eq!(store.respond(StoreRequest::DeleteWishlist { id: id(1) }), StoreResponse::Deleted { count: 1 });
    assert_eq!(store.respond(StoreRequest::DeleteWishlist { id: id(1) }), StoreResponse::Deleted { count: 0 });
    assert_eq!(store.respond(StoreRequest::CountWishlists), StoreResponse::Count(2));
    assert_eq!(
        store.respond(StoreRequest::ListWishlists { order: ascending(), skip: 0, limit: 10 }),
        StoreResponse::Wishlists(vec![record(2, 20), record(3, 30)])
    );
}

#[test]
fn a_listing_is_ordered_and_cut() {
    let mut store = store();
    assert_eq!(
        store.respond(StoreRequest::ListWishlists { order: ascending(), skip: 0, limit: 10 }),
        StoreResponse::Wishlists(vec![record(1, 10), record(2, 20), record(3, 30)])
    );
    assert_eq!(
        store.respond(StoreRequest::ListWishlists { order: ascending(), skip: 1, limit: 1 }),
        StoreResponse::Wishlists(vec![record(2, 20)])
    );
    assert_eq!(
        store.respond(StoreRequest::ListWishlists { order: ascending(), skip: 2, limit: u64::MAX }),
        StoreResponse::Wishlists(vec![record(3, 30)])
    );
    assert_eq!(
        store.respond(StoreRequest::ListWishlists { order: ascending(), skip: u64::MAX, limit: u64::MAX }),
        StoreResponse::Wishlists(vec![])
    );
    assert_eq!(
        store.respond(StoreRequest::ListWishlists { order: ascending(), skip: 0, limit: 0 }),
        StoreResponse::Wishlists(vec![])
    );
}

#[test]
fn an_unreachable_store_fails_every_request_and_keeps_what_it_holds() {
    let mut store = store();
    store.set_available(false);
    let requests = vec![
        StoreRequest::FindWishlist { id: id(1) },
        StoreRequest::FindUser { id: id(1) },
        StoreRequest::FindProductVariants { ids: vec![id(10)] },
        StoreRequest::InsertWishlist { wishlist: record(8, 80) },
        StoreRequest::UpdateWishlist {
            patch: UpdateWishlistInput { id: id(1), product_variant_ids: Some(vec![]), name: None },
            at: DateTime::from_millis(1),
        },
        StoreRequest::DeleteWishlist { id: id(1) },
        StoreRequest::ListWishlists { order: ascending(), skip: 0, limit: 1 },
        StoreRequest::CountWishlists,
    ];
    for request in requests {
        assert_eq!(store.respond(request), StoreResponse::Failed);
    }
    store.set_available(true);
    assert_eq!(
        store.respond(StoreRequest::ListWishlists { order: ascending(), skip: 0, limit: 10 }),
        StoreResponse::Wishlists(vec![record(1, 10), record(2, 20), record(3, 30)])
    );
}
