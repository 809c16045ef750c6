use wishlist::error::{Entity, Error, Reference};
use wishlist::foreign_types::ProductVariant;
use wishlist::id::{canonical_id, Uuid};
use wishlist::mutation::{string_uuid_from_bson, uuid_from_bson};
use wishlist::store::InsertedId;

const SAMPLE: u128 = 0xa1a2a3a4_b1b2_c1c2_d1d2_d3d4d5d6d7d8;

#[test]
fn canonical_id_is_hyphenated_lower_case() {
    let expected = Some("a1a2a3a4-b1b2-c1c2-d1d2-d3d4d5d6d7d8".to_string());
    assert_eq!(canonical_id("a1a2a3a4-b1b2-c1c2-d1d2-d3d4d5d6d7d8"), expected);
    assert_eq!(canonical_id("A1A2A3A4-B1B2-C1C2-D1D2-D3D4D5D6D7D8"), expected);
    assert_eq!(canonical_id("a1a2a3a4b1b2c1c2d1d2d3d4d5d6d7d8"), expected);
    assert_eq!(canonical_id("A1A2A3A4B1B2C1C2D1D2D3D4D5D6D7D8"), expected);
    assert_eq!(canonical_id("urn:uuid:A1A2A3A4-B1B2-C1C2-D1D2-D3D4D5D6D7D8"), expected);
    assert_eq!(canonical_id("{a1a2a3a4-b1b2-c1c2-d1d2-d3d4d5d6d7d8}"), expected);
}

#[test]
fn canonical_id_of_a_canonical_id_is_itself() {
    let once = canonical_id("0123456789ABCDEF0123456789ABCDEF").unwrap();
    assert_eq!(once, "01234567-89ab-cdef-0123-456789abcdef");
    assert_eq!(canonical_id(&once), Some(once.clone()));
}

#[test]
fn canonical_id_refuses_what_is_no_uuid() {
    assert_eq!(canonical_id(""), None);
    assert_eq!(canonical_id("a1a2a3a4-b1b2-c1c2-d1d2"), None);
    assert_eq!(canonical_id("g1a2a3a4-b1b2-c1c2-d1d2-d3d4d5d6d7d8"), None);
    assert_eq!(canonical_id("a1a2a3a4-b1b2-c1c2-d1d2-d3d4d5d6d7d8-00"), None);
}

#[test]
fn zero_and_all_ones_have_their_canonical_text() {
    assert_eq!(
        Error::ReferenceNotFound { reference: Reference::ProductVariant, id: Uuid::from_u128(0) }.message(),
        "Product variant with the UUID: `00000000-0000-0000-0000-000000000000` is not present in the system."
    );
    assert_eq!(
        Error::ReferenceNotFound { reference: Reference::ProductVariant, id: Uuid::from_u128(u128::MAX) }.message(),
        "Product variant with the UUID: `ffffffff-ffff-ffff-ffff-ffffffffffff` is not present in the system."
    );
}

#[test]
fn messages_name_ids_in_canonical_text() {
    let id = Uuid::from_u128(SAMPLE);
    assert_eq!(
        Error::NotFound { entity: Entity::Wishlist, id }.message(),
        "Wishlist with UUID: `a1a2a3a4-b1b2-c1c2-d1d2-d3d4d5d6d7d8` not found."
    );
    assert_eq!(
        Error::NotFound { entity: Entity::User, id }.message(),
        "User with UUID: `a1a2a3a4-b1b2-c1c2-d1d2-d3d4d5d6d7d8` not found."
    );
    assert_eq!(
        Error::AuthorizationError { user: id, owner: Some(Uuid::from_u128(1)) }.message(),
        "Authorization failed for user of UUID: `a1a2a3a4-b1b2-c1c2-d1d2-d3d4d5d6d7d8`. Operation on what user of UUID: `00000000-0000-0000-0000-000000000001` owns is not permitted."
    );
    assert_eq!(
        Error::AuthorizationError { user: id, owner: None }.message(),
        "Authorization failed for user of UUID: `a1a2a3a4-b1b2-c1c2-d1d2-d3d4d5d6d7d8`. Operation not permitted."
    );
    assert_eq!(
        Error::ReferenceNotFound { reference: Reference::User, id }.message(),
        "User with the UUID: `a1a2a3a4-b1b2-c1c2-d1d2-d3d4d5d6d7d8` is not present in the system."
    );
    assert_eq!(
        Error::ReferenceNotFound { reference: Reference::ProductVariant, id }.message(),
        "Product variant with the UUID: `a1a2a3a4-b1b2-c1c2-d1d2-d3d4d5d6d7d8` is not present in the system."
    );
    assert_eq!(
        Error::AuthenticationError.message(),
        "Authentication failed. Authorized-User header is not set or could not be parsed."
    );
    assert_eq!(Error::BackendUnavailable.message(), "The request failed in the store.");
    assert_eq!(
        Error::ValidationError.message(),
        "Returned id needs to be a Binary in order to be parsed as a Uuid"
    );
}

#[test]
fn binary_of_uuid_subtype_with_sixteen_bytes_holds_a_uuid() {
    let bytes: Vec<u8> = (1..=16).collect();
    let inserted = InsertedId::Binary { subtype: 4, bytes };
    assert_eq!(
        uuid_from_bson(&inserted),
        Ok(Uuid::from_u128(0x0102_0304_0506_0708_090a_0b0c_0d0e_0f10))
    );
}

#[test]
fn binary_of_another_subtype_or_length_is_malformed() {
    let sixteen: Vec<u8> = (1..=16).collect();
    for subtype in [0u8, 3, 5, 0x80] {
        let inserted = InsertedId::Binary { subtype, bytes: sixteen.clone() };
        assert_eq!(uuid_from_bson(&inserted), Err(Error::ValidationError));
    }
    let short = InsertedId::Binary { subtype: 4, bytes: (1..=15).collect() };
    assert_eq!(uuid_from_bson(&short), Err(Error::ValidationError));
    let long = InsertedId::Binary { subtype: 4, bytes: (1..=17).collect() };
    assert_eq!(uuid_from_bson(&long), Err(Error::ValidationError));
    let empty = InsertedId::Binary { subtype: 4, bytes: vec![] };
    assert_eq!(uuid_from_bson(&empty), Err(Error::ValidationError));
}

#[test]
fn inserted_id_of_another_kind_is_malformed() {
    let text = InsertedId::String("a1a2a3a4-b1b2-c1c2-d1d2-d3d4d5d6d7d8".to_string());
    assert_eq!(uuid_from_bson(&text), Err(Error::ValidationError));
    assert_eq!(uuid_from_bson(&InsertedId::Other), Err(Error::ValidationError));
}

#[test]
fn text_id_is_read_from_a_text_only() {
    let text = InsertedId::String("a1a2a3a4-b1b2-c1c2-d1d2-d3d4d5d6d7d8".to_string());
    assert_eq!(string_uuid_from_bson(text), Ok("a1a2a3a4-b1b2-c1c2-d1d2-d3d4d5d6d7d8".to_string()));
    let binary = InsertedId::Binary { subtype: 4, bytes: (1..=16).collect() };
    assert_eq!(string_uuid_from_bson(binary), Err(Error::ValidationError));
    assert_eq!(string_uuid_from_bson(InsertedId::Other), Err(Error::ValidationError));
}

#[test]
fn product_variants_are_ordered_by_id() {
    let small = ProductVariant { id: Uuid::from_u128(1) };
    let large = ProductVariant { id: Uuid::from_u128(1 << 100) };
    assert!(small < large);
    assert!(large > small);
    assert!(small <= small);
    assert_eq!(small.partial_cmp(&large), Some(std::cmp::Ordering::Less));
    assert_eq!(large.partial_cmp(&small), Some(std::cmp::Ordering::Greater));
    assert_eq!(small.partial_cmp(&small), Some(std::cmp::Ordering::Equal));
}
