use wishlist::authorization::{AuthorizedUserHeader, Role};
use wishlist::datetime::DateTime;
use wishlist::error::{Entity, Error, Reference};
use wishlist::foreign_types::{ProductVariant, User};
use wishlist::id::Uuid;
use wishlist::memory_store::MemoryStore;
use wishlist::mutation::Mutation;
use wishlist::operation::{Reply, Step};
use wishlist::query::Query;
use wishlist::store::{InsertedId, StoreRequest, StoreResponse};
use wishlist::wishlist::{CreateWishlistInput, UpdateWishlistInput, Wishlist};

const U1: u128 = 0x11;
const U2: u128 = 0x22;
const W1: u128 = 0xa1;
const V1: u128 = 0x1001;
const V2: u128 = 0x1002;
const V3: u128 = 0x1003;

fn id(value: u128) -> Uuid {
    Uuid::from_u128(value)
}

fn at(millis: i64) -> DateTime {
    DateTime::from_millis(millis)
}

fn caller(value: u128, role: Role) -> Option<AuthorizedUserHeader> {
    Some(AuthorizedUserHeader::new(id(value), vec![role]))
}

fn variants(values: &[u128]) -> Vec<ProductVariant> {
    values.iter().map(|value| ProductVariant { id: id(*value) }).collect()
}

fn record(wishlist: u128, owner: u128, products: &[u128], name: &str, made: i64) -> Wishlist {
    Wishlist {
        id: id(wishlist),
        user: User { id: id(owner) },
        product_variants: variants(products),
        name: name.to_string(),
        created_at: at(made),
        last_updated_at: at(made),
    }
}

/// Users U1 and U2, product variants V1 to V3, and the wishlist W1 of U2.
fn store() -> MemoryStore {
    let mut store = MemoryStore::new();
    store.add_user(User { id: id(U1) });
    store.add_user(User { id: id(U2) });
    for value in [V1, V2, V3] {
        store.add_product_variant(ProductVariant { id: id(value) });
    }
    let put = store.respond(StoreRequest::InsertWishlist {
        wishlist: record(W1, U2, &[V1], "birthday", 1_000),
    });
    assert!(matches!(put, StoreResponse::Inserted(_)));
    store
}

fn stored(store: &mut MemoryStore, wishlist: u128) -> Option<Wishlist> {
    match store.respond(StoreRequest::FindWishlist { id: id(wishlist) }) {
        StoreResponse::Wishlist(found) => found,
        other => panic!("unexpected answer {:?}", other),
    }
}

fn count(store: &mut MemoryStore) -> u64 {
    match store.respond(StoreRequest::CountWishlists) {
        StoreResponse::Count(count) => count,
        other => panic!("unexpected answer {:?}", other),
    }
}

fn create_input(owner: u128, products: &[u128], name: &str) -> CreateWishlistInput {
    CreateWishlistInput {
        user_id: id(owner),
        product_variant_ids: products.iter().map(|value| id(*value)).collect(),
        name: name.to_string(),
    }
}

fn rename(wishlist: u128, name: &str) -> UpdateWishlistInput {
    UpdateWishlistInput { id: id(wishlist), product_variant_ids: None, name: Some(name.to_string()) }
}

#[test]
fn create_stores_the_record_and_hands_it_back() {
    let mut store = store();
    let buyer = AuthorizedUserHeader::new(id(U1), vec![Role::Buyer]);
    let step = Mutation.create_wishlist_as(
        Some(&buyer),
        create_input(U1, &[V2, V1], "summer"),
        id(0xb2),
        at(5_000),
    );
    let expected = record(0xb2, U1, &[V2, V1], "summer", 5_000);
    assert_eq!(store.execute(step), Ok(Reply::Wishlist(expected.clone())));
    assert_eq!(stored(&mut store, 0xb2), Some(expected));
    assert_eq!(count(&mut store), 2);
}

#[test]
fn create_keeps_each_product_variant_once() {
    let mut store = store();
    let step = Mutation.create_wishlist_as(
        caller(U1, Role::Buyer).as_ref(),
        create_input(U1, &[V2, V1, V2, V3, V1], "summer"),
        id(0xb2),
        at(5_000),
    );
    match store.execute(step) {
        Ok(Reply::Wishlist(made)) => assert_eq!(made.product_variants, variants(&[V2, V1, V3])),
        other => panic!("unexpected outcome {:?}", other),
    }
}

#[test]
fn create_without_product_variants_is_accepted() {
    let mut store = store();
    let step = Mutation.create_wishlist_as(
        caller(U1, Role::Buyer).as_ref(),
        create_input(U1, &[], "empty"),
        id(0xb2),
        at(5_000),
    );
    assert_eq!(store.execute(step), Ok(Reply::Wishlist(record(0xb2, U1, &[], "empty", 5_000))));
}

#[test]
fn create_is_refused_when_one_of_three_product_variants_is_unknown() {
    for missing_at in 0..3 {
        let mut store = store();
        let mut products = vec![V1, V2, V3];
        products[missing_at] = 0x9999;
        let step = Mutation.create_wishlist_as(
            caller(U1, Role::Buyer).as_ref(),
            create_input(U1, &products, "summer"),
            id(0xb2),
            at(5_000),
        );
        assert_eq!(store.execute(step), Err(Error::ReferenceNotFound { reference: Reference::ProductVariant, id: id(0x9999) }));
        assert_eq!(stored(&mut store, 0xb2), None);
        assert_eq!(count(&mut store), 1);
    }
}

#[test]
fn create_names_the_first_of_several_unknown_product_variants() {
    let mut store = store();
    let step = Mutation.create_wishlist_as(
        caller(U1, Role::Buyer).as_ref(),
        create_input(U1, &[V1, 0x7777, V2, 0x8888], "summer"),
        id(0xb2),
        at(5_000),
    );
    assert_eq!(store.execute(step), Err(Error::ReferenceNotFound { reference: Reference::ProductVariant, id: id(0x7777) }));
}

#[test]
fn create_for_an_unknown_owner_is_a_reference_not_found() {
    let mut store = store();
    let step = Mutation.create_wishlist_as(
        caller(0x33, Role::Buyer).as_ref(),
        create_input(0x33, &[V1], "summer"),
        id(0xb2),
        at(5_000),
    );
    assert_eq!(
        store.execute(step),
        Err(Error::ReferenceNotFound { reference: Reference::User, id: id(0x33) })
    );
    assert_eq!(stored(&mut store, 0xb2), None);
    assert_eq!(count(&mut store), 1);
}

#[test]
fn create_by_an_admin_for_an_unknown_owner_is_a_reference_not_found() {
    let mut store = MemoryStore::new();
    store.add_user(User { id: id(0x01) });
    store.add_product_variant(ProductVariant { id: id(0x0a) });
    let step = Mutation.create_wishlist_as(
        caller(0x01, Role::Admin).as_ref(),
        create_input(0x02, &[0x0a], "w"),
        id(0xb2),
        at(5_000),
    );
    assert_eq!(
        store.execute(step),
        Err(Error::ReferenceNotFound { reference: Reference::User, id: id(0x02) })
    );
    assert_eq!(count(&mut store), 0);
}

#[test]
fn create_checks_the_product_variants_before_the_owner() {
    let mut store = store();
    let step = Mutation.create_wishlist_as(
        caller(0x33, Role::Buyer).as_ref(),
        create_input(0x33, &[0x9999], "summer"),
        id(0xb2),
        at(5_000),
    );
    assert_eq!(
        store.execute(step),
        Err(Error::ReferenceNotFound { reference: Reference::ProductVariant, id: id(0x9999) })
    );
}

#[test]
fn create_for_another_user_needs_a_permissive_role() {
    let mut store = store();
    let refused = Mutation.create_wishlist_as(
        caller(U1, Role::Buyer).as_ref(),
        create_input(U2, &[V1], "summer"),
        id(0xb2),
        at(5_000),
    );
    assert_eq!(
        refused,
        Step::Done(Err(Error::AuthorizationError { user: id(U1), owner: Some(id(U2)) }))
    );
    let allowed = Mutation.create_wishlist_as(
        caller(U1, Role::Employee).as_ref(),
        create_input(U2, &[V1], "summer"),
        id(0xb2),
        at(5_000),
    );
    assert_eq!(store.execute(allowed), Ok(Reply::Wishlist(record(0xb2, U2, &[V1], "summer", 5_000))));
}

#[test]
fn create_without_identity_is_refused_before_any_request() {
    let step = Mutation.create_wishlist_as(None, create_input(U1, &[V1], "summer"), id(0xb2), at(5_000));
    assert_eq!(step, Step::Done(Err(Error::AuthenticationError)));
}

#[test]
fn create_asks_for_all_product_variants_in_one_request() {
    let step = Mutation.create_wishlist_as(
        caller(U1, Role::Buyer).as_ref(),
        create_input(U1, &[V3, V1, V2], "summer"),
        id(0xb2),
        at(5_000),
    );
    match step {
        Step::Call { request, .. } => assert_eq!(
            request,
            StoreRequest::FindProductVariants { ids: vec![id(V3), id(V1), id(V2)] }
        ),
        other => panic!("unexpected step {:?}", other),
    }
}

#[test]
fn create_under_an_id_that_is_taken_fails_in_the_store() {
    let mut store = store();
    let step = Mutation.create_wishlist_as(
        caller(U1, Role::Buyer).as_ref(),
        create_input(U1, &[V1], "summer"),
        id(W1),
        at(5_000),
    );
    assert_eq!(store.execute(step), Err(Error::BackendUnavailable));
    assert_eq!(stored(&mut store, W1), Some(record(W1, U2, &[V1], "birthday", 1_000)));
}

#[test]
fn create_against_an_unreachable_store_is_backend_unavailable() {
    let mut store = store();
    store.set_available(false);
    let step = Mutation.create_wishlist_as(
        caller(U1, Role::Buyer).as_ref(),
        create_input(U1, &[V1], "summer"),
        id(0xb2),
        at(5_000),
    );
    assert_eq!(store.execute(step), Err(Error::BackendUnavailable));
}

#[test]
fn create_draws_an_id_and_a_time_of_its_own() {
    let mut store = store();
    let step = Mutation.create_wishlist(caller(U1, Role::Buyer).as_ref(), create_input(U1, &[V1], "a"));
    let first = match store.execute(step) {
        Ok(Reply::Wishlist(made)) => made,
        other => panic!("unexpected outcome {:?}", other),
    };
    assert_eq!(first.user, User { id: id(U1) });
    assert_eq!(first.name, "a");
    assert_eq!(first.created_at, first.last_updated_at);
    assert!(first.created_at.millis > 1_600_000_000_000);
    let step = Mutation.create_wishlist(caller(U1, Role::Buyer).as_ref(), create_input(U1, &[V1], "b"));
    let second = match store.execute(step) {
        Ok(Reply::Wishlist(made)) => made,
        other => panic!("unexpected outcome {:?}", other),
    };
    assert_ne!(first.id, second.id);
    assert_eq!(count(&mut store), 3);
}

#[test]
fn store_hands_back_the_id_of_a_new_record_as_a_binary_uuid() {
    let mut store = MemoryStore::new();
    let put = store.respond(StoreRequest::InsertWishlist {
        wishlist: record(0x0102_0304_0506_0708_090a_0b0c_0d0e_0f10, U1, &[], "n", 1),
    });
    assert_eq!(
        put,
        StoreResponse::Inserted(InsertedId::Binary { subtype: 4, bytes: (1..=16).collect() })
    );
}

#[test]
fn update_without_fields_leaves_the_record_as_it_is() {
    let mut store = store();
    let before = stored(&mut store, W1);
    let step = Mutation.update_wishlist_at(
        caller(U2, Role::Buyer),
        UpdateWishlistInput { id: id(W1), product_variant_ids: None, name: None },
        at(9_000),
    );
    assert_eq!(store.execute(step), Ok(Reply::Wishlist(record(W1, U2, &[V1], "birthday", 1_000))));
    assert_eq!(stored(&mut store, W1), before);
    assert_eq!(stored(&mut store, W1).unwrap().last_updated_at, at(1_000));
}

#[test]
fn update_of_the_name_changes_the_name_and_the_time_only() {
    let mut store = store();
    let step = Mutation.update_wishlist_at(caller(U2, Role::Buyer), rename(W1, "x"), at(9_000));
    let expected = Wishlist {
        name: "x".to_string(),
        last_updated_at: at(9_000),
        ..record(W1, U2, &[V1], "birthday", 1_000)
    };
    assert_eq!(store.execute(step), Ok(Reply::Wishlist(expected.clone())));
    let after = stored(&mut store, W1).unwrap();
    assert_eq!(after, expected);
    assert_eq!(after.product_variants, variants(&[V1]));
    assert_eq!(after.created_at, at(1_000));
}

#[test]
fn update_of_the_product_variants_replaces_them_all() {
    let mut store = store();
    let step = Mutation.update_wishlist_at(
        caller(U2, Role::Buyer),
        UpdateWishlistInput {
            id: id(W1),
            product_variant_ids: Some(vec![id(V3), id(V2), id(V3)]),
            name: None,
        },
        at(9_000),
    );
    let expected = Wishlist {
        product_variants: variants(&[V3, V2]),
        last_updated_at: at(9_000),
        ..record(W1, U2, &[V1], "birthday", 1_000)
    };
    assert_eq!(store.execute(step), Ok(Reply::Wishlist(expected.clone())));
    assert_eq!(stored(&mut store, W1), Some(expected));
}

#[test]
fn update_to_no_product_variants_empties_the_list() {
    let mut store = store();
    let step = Mutation.update_wishlist_at(
        caller(U2, Role::Buyer),
        UpdateWishlistInput { id: id(W1), product_variant_ids: Some(vec![]), name: None },
        at(9_000),
    );
    let expected = Wishlist {
        product_variants: vec![],
        last_updated_at: at(9_000),
        ..record(W1, U2, &[V1], "birthday", 1_000)
    };
    assert_eq!(store.execute(step), Ok(Reply::Wishlist(expected)));
}

#[test]
fn update_of_both_fields_is_one_change() {
    let mut store = store();
    let step = Mutation.update_wishlist_at(
        caller(U2, Role::Buyer),
        UpdateWishlistInput {
            id: id(W1),
            product_variant_ids: Some(vec![id(V2)]),
            name: Some("both".to_string()),
        },
        at(9_000),
    );
    let expected = Wishlist {
        product_variants: variants(&[V2]),
        name: "both".to_string(),
        last_updated_at: at(9_000),
        ..record(W1, U2, &[V1], "birthday", 1_000)
    };
    assert_eq!(store.execute(step), Ok(Reply::Wishlist(expected.clone())));
    assert_eq!(stored(&mut store, W1), Some(expected));
}

#[test]
fn update_with_an_unknown_product_variant_writes_nothing() {
    let mut store = store();
    let step = Mutation.update_wishlist_at(
        caller(U2, Role::Buyer),
        UpdateWishlistInput {
            id: id(W1),
            product_variant_ids: Some(vec![id(V2), id(0x9999)]),
            name: Some("never".to_string()),
        },
        at(9_000),
    );
    assert_eq!(store.execute(step), Err(Error::ReferenceNotFound { reference: Reference::ProductVariant, id: id(0x9999) }));
    assert_eq!(stored(&mut store, W1), Some(record(W1, U2, &[V1], "birthday", 1_000)));
}

#[test]
fn update_by_a_buyer_who_is_not_the_owner_is_refused() {
    let mut store = store();
    let step = Mutation.update_wishlist_at(caller(U1, Role::Buyer), rename(W1, "mine"), at(9_000));
    assert_eq!(
        store.execute(step),
        Err(Error::AuthorizationError { user: id(U1), owner: Some(id(U2)) })
    );
    assert_eq!(stored(&mut store, W1), Some(record(W1, U2, &[V1], "birthday", 1_000)));
}

#[test]
fn update_by_an_admin_who_is_not_the_owner_succeeds() {
    let mut store = store();
    let step = Mutation.update_wishlist_at(caller(U1, Role::Admin), rename(W1, "mine"), at(9_000));
    let expected = Wishlist {
        name: "mine".to_string(),
        last_updated_at: at(9_000),
        ..record(W1, U2, &[V1], "birthday", 1_000)
    };
    assert_eq!(store.execute(step), Ok(Reply::Wishlist(expected.clone())));
    assert_eq!(stored(&mut store, W1), Some(expected));
}

#[test]
fn update_without_identity_is_refused() {
    let mut store = store();
    let step = Mutation.update_wishlist_at(None, rename(W1, "mine"), at(9_000));
    assert_eq!(store.execute(step), Err(Error::AuthenticationError));
}

#[test]
fn update_of_an_absent_wishlist_is_not_found_whoever_asks() {
    for who in [None, caller(U1, Role::Buyer), caller(U1, Role::Admin)] {
        let mut store = store();
        let step = Mutation.update_wishlist_at(who, rename(0xdead, "x"), at(9_000));
        assert_eq!(
            store.execute(step),
            Err(Error::NotFound { entity: Entity::Wishlist, id: id(0xdead) })
        );
    }
}

#[test]
fn update_stamps_the_current_time() {
    let mut store = store();
    let step = Mutation.update_wishlist(caller(U2, Role::Buyer), rename(W1, "now"));
    match store.execute(step) {
        Ok(Reply::Wishlist(changed)) => {
            assert_eq!(changed.name, "now");
            assert_eq!(changed.created_at, at(1_000));
            assert!(changed.last_updated_at.millis > 1_600_000_000_000);
        }
        other => panic!("unexpected outcome {:?}", other),
    }
}

#[test]
fn delete_of_an_absent_wishlist_is_not_found() {
    for who in [None, caller(U1, Role::Buyer), caller(U1, Role::Admin)] {
        let mut store = store();
        let step = Mutation.delete_wishlist(who, id(0xdead));
        assert_eq!(
            store.execute(step),
            Err(Error::NotFound { entity: Entity::Wishlist, id: id(0xdead) })
        );
        assert_eq!(count(&mut store), 1);
    }
}

#[test]
fn delete_by_the_owner_removes_the_record() {
    let mut store = store();
    let step = Mutation.delete_wishlist(caller(U2, Role::Buyer), id(W1));
    assert_eq!(store.execute(step), Ok(Reply::Deleted(true)));
    assert_eq!(stored(&mut store, W1), None);
    assert_eq!(count(&mut store), 0);
    let again = Mutation.delete_wishlist(caller(U2, Role::Buyer), id(W1));
    assert_eq!(store.execute(again), Err(Error::NotFound { entity: Entity::Wishlist, id: id(W1) }));
}

#[test]
fn delete_by_a_stranger_is_refused_and_removes_nothing() {
    let mut store = store();
    let step = Mutation.delete_wishlist(caller(U1, Role::Buyer), id(W1));
    assert_eq!(
        store.execute(step),
        Err(Error::AuthorizationError { user: id(U1), owner: Some(id(U2)) })
    );
    assert!(stored(&mut store, W1).is_some());
    let step = Mutation.delete_wishlist(caller(U1, Role::Employee), id(W1));
    assert_eq!(store.execute(step), Ok(Reply::Deleted(true)));
}

#[test]
fn get_of_an_absent_wishlist_is_not_found_whoever_asks() {
    for who in [None, caller(U1, Role::Buyer), caller(U1, Role::Admin)] {
        let mut store = store();
        let expected = Err(Error::NotFound { entity: Entity::Wishlist, id: id(0xdead) });
        assert_eq!(store.execute(Query.wishlist(who, id(0xdead))), expected);
    }
    let mut store = store();
    let expected = Err(Error::NotFound { entity: Entity::Wishlist, id: id(0xdead) });
    assert_eq!(store.execute(Query.wishlist_entity_resolver(None, id(0xdead))), expected);
}

#[test]
fn get_is_decided_by_the_owner_of_the_record() {
    let mut store = store();
    let found = Ok(Reply::Wishlist(record(W1, U2, &[V1], "birthday", 1_000)));
    assert_eq!(store.execute(Query.wishlist(caller(U2, Role::Buyer), id(W1))), found);
    assert_eq!(store.execute(Query.wishlist(caller(U1, Role::Admin), id(W1))), found);
    assert_eq!(store.execute(Query.wishlist_entity_resolver(caller(U2, Role::Buyer), id(W1))), found);
    assert_eq!(
        store.execute(Query.wishlist(caller(U1, Role::Buyer), id(W1))),
        Err(Error::AuthorizationError { user: id(U1), owner: Some(id(U2)) })
    );
    assert_eq!(store.execute(Query.wishlist(None, id(W1))), Err(Error::AuthenticationError));
}

#[test]
fn user_is_found_by_id_or_not_found() {
    let mut store = store();
    assert_eq!(store.execute(Query.user_entity_resolver(id(U1))), Ok(Reply::User(User { id: id(U1) })));
    assert_eq!(
        store.execute(Query.user_entity_resolver(id(0x33))),
        Err(Error::NotFound { entity: Entity::User, id: id(0x33) })
    );
    store.set_available(false);
    assert_eq!(store.execute(Query.user_entity_resolver(id(U1))), Err(Error::BackendUnavailable));
}
