use wishlist::authorization::{authorize_user, check_permissions, AuthorizedUserHeader, Role};
use wishlist::error::Error;
use wishlist::id::Uuid;

fn user(value: u128, roles: Vec<Role>) -> AuthorizedUserHeader {
    AuthorizedUserHeader::new(Uuid::from_u128(value), roles)
}

#[test]
fn only_admin_and_employee_are_permissive() {
    assert!(!Role::Buyer.is_permissive());
    assert!(Role::Admin.is_permissive());
    assert!(Role::Employee.is_permissive());
}

#[test]
fn buyer_is_let_through_exactly_for_their_own() {
    let buyer = user(1, vec![Role::Buyer]);
    assert_eq!(check_permissions(&buyer, Some(Uuid::from_u128(1))), Ok(()));
    assert_eq!(
        check_permissions(&buyer, Some(Uuid::from_u128(2))),
        Err(Error::AuthorizationError { user: Uuid::from_u128(1), owner: Some(Uuid::from_u128(2)) })
    );
    assert_eq!(
        check_permissions(&buyer, None),
        Err(Error::AuthorizationError { user: Uuid::from_u128(1), owner: None })
    );
}

#[test]
fn caller_without_roles_is_let_through_exactly_for_their_own() {
    let nobody = user(7, vec![]);
    assert_eq!(check_permissions(&nobody, Some(Uuid::from_u128(7))), Ok(()));
    assert!(check_permissions(&nobody, Some(Uuid::from_u128(8))).is_err());
}

#[test]
fn permissive_role_is_let_through_for_any_owner_and_for_none() {
    let admin = user(1, vec![Role::Admin]);
    let employee = user(1, vec![Role::Buyer, Role::Employee]);
    for caller in [&admin, &employee] {
        assert_eq!(check_permissions(caller, Some(Uuid::from_u128(1))), Ok(()));
        assert_eq!(check_permissions(caller, Some(Uuid::from_u128(2))), Ok(()));
        assert_eq!(check_permissions(caller, None), Ok(()));
    }
}

#[test]
fn permissive_role_counts_wherever_it_stands_in_the_list() {
    let caller = user(1, vec![Role::Buyer, Role::Buyer, Role::Admin]);
    assert!(caller.has_permissive_role());
    assert!(!user(1, vec![Role::Buyer, Role::Buyer]).has_permissive_role());
}

#[test]
fn missing_identity_is_an_authentication_error() {
    assert_eq!(authorize_user(None, Some(Uuid::from_u128(1))), Err(Error::AuthenticationError));
    assert_eq!(authorize_user(None, None), Err(Error::AuthenticationError));
}

#[test]
fn present_identity_is_judged_by_its_permissions() {
    let buyer = user(1, vec![Role::Buyer]);
    assert_eq!(authorize_user(Some(&buyer), Some(Uuid::from_u128(1))), Ok(()));
    assert_eq!(
        authorize_user(Some(&buyer), Some(Uuid::from_u128(9))),
        Err(Error::AuthorizationError { user: Uuid::from_u128(1), owner: Some(Uuid::from_u128(9)) })
    );
}

#[test]
fn role_names_are_snake_case() {
    assert_eq!(Role::from_name(&"buyer".to_string()), Some(Role::Buyer));
    assert_eq!(Role::from_name(&"admin".to_string()), Some(Role::Admin));
    assert_eq!(Role::from_name(&"employee".to_string()), Some(Role::Employee));
    assert_eq!(Role::from_name(&"Buyer".to_string()), None);
    assert_eq!(Role::from_name(&"".to_string()), None);
    assert_eq!(Role::from_name(&"owner".to_string()), None);
}

#[test]
fn claim_with_id_and_known_roles_is_read() {
    let header = AuthorizedUserHeader::from_claim(
        "A1A2A3A4-B1B2-C1C2-D1D2-D3D4D5D6D7D8",
        &vec!["buyer".to_string(), "admin".to_string()],
    );
    assert_eq!(
        header,
        Some(user(0xa1a2a3a4_b1b2_c1c2_d1d2_d3d4d5d6d7d8, vec![Role::Buyer, Role::Admin]))
    );
}

#[test]
fn claim_without_roles_is_read_as_a_caller_without_roles() {
    let header = AuthorizedUserHeader::from_claim("00000000-0000-0000-0000-000000000001", &vec![]);
    assert_eq!(header, Some(user(1, vec![])));
}

#[test]
fn malformed_claim_gives_no_identity() {
    assert_eq!(AuthorizedUserHeader::from_claim("not-a-uuid", &vec!["buyer".to_string()]), None);
    assert_eq!(AuthorizedUserHeader::from_claim("", &vec![]), None);
    assert_eq!(
        AuthorizedUserHeader::from_claim(
            "00000000-0000-0000-0000-000000000001",
            &vec!["buyer".to_string(), "root".to_string()],
        ),
        None
    );
}
