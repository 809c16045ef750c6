//! Who is asking, and whether they may.
//!
//! An identity is a claim forwarded by a gateway that has already
//! authenticated the caller: a subject id and a list of roles. A caller with
//! a permissive role may touch any wishlist; any other caller only their own.

use vstd::prelude::*;
use crate::error::Error;
use crate::id::{hyphenated, parse_uuid, parsed_uuid, Uuid};

verus! {

/// Role of a user.
#[derive(Clone, Copy, Debug, PartialEq, Eq, Structural)]
pub enum Role {
    Buyer,
    Admin,
    Employee,
}

impl Role {
    /// Whether the role grants access irrespective of ownership.
    pub open spec fn permissive(self) -> bool {
        match self {
            Role::Buyer => false,
            Role::Admin => true,
            Role::Employee => true,
        }
    }

    /// Whether the role grants access irrespective of ownership.
    #[verifier::when_used_as_spec(permissive)]
    pub fn is_permissive(self) -> (permissive: bool)
        ensures
            permissive == self.permissive(),
    {
        match self {
            Role::Buyer => false,
            Role::Admin => true,
            Role::Employee => true,
        }
    }

    /// The role that a claim names, in snake case.
    pub open spec fn named(name: Seq<char>) -> Option<Role> {
        if name == "buyer"@ {
            Some(Role::Buyer)
        } else if name == "admin"@ {
            Some(Role::Admin)
        } else if name == "employee"@ {
            Some(Role::Employee)
        } else {
            None
        }
    }

    /// Reads a role from its name in a claim.
    pub fn from_name(name: &String) -> (role: Option<Role>)
        ensures
            role == Role::named(name@),
    {
        if *name == "buyer".to_owned() {
            Some(Role::Buyer)
        } else if *name == "admin".to_owned() {
            Some(Role::Admin)
        } else if *name == "employee".to_owned() {
            Some(Role::Employee)
        } else {
            None
        }
    }
}

/// The identity that a request carries: the caller's id and roles.
#[derive(Debug, PartialEq, Eq)]
pub struct AuthorizedUserHeader {
    pub id: Uuid,
    pub roles: Vec<Role>,
}

/// An identity as contracts see it.
pub struct AuthorizedUser {
    pub id: Uuid,
    pub roles: Seq<Role>,
}

impl View for AuthorizedUserHeader {
    type V = AuthorizedUser;

    open spec fn view(&self) -> AuthorizedUser {
        AuthorizedUser { id: self.id, roles: self.roles@ }
    }
}

impl AuthorizedUser {
    /// Whether one of the roles is permissive.
    pub open spec fn has_permissive_role(self) -> bool {
        exists|i: int| 0 <= i < self.roles.len() && (#[trigger] self.roles[i]).permissive()
    }

    /// Whether this caller may touch what `owner` owns.
    pub open spec fn may_access(self, owner: Option<Uuid>) -> bool {
        self.has_permissive_role() || owner == Some(self.id)
    }
}

/// The verdict on a known caller.
pub open spec fn permission(user: AuthorizedUser, owner: Option<Uuid>) -> Result<(), Error> {
    if user.may_access(owner) {
        Ok(())
    } else {
        Err(Error::AuthorizationError { user: user.id, owner })
    }
}

/// The verdict on a caller who may have presented no identity.
pub open spec fn authorization(
    user: Option<AuthorizedUser>,
    owner: Option<Uuid>,
) -> Result<(), Error> {
    match user {
        None => Err(Error::AuthenticationError),
        Some(user) => permission(user, owner),
    }
}

/// The identity behind an optional header.
pub open spec fn identity(header: Option<AuthorizedUserHeader>) -> Option<AuthorizedUser> {
    match header {
        Some(header) => Some(header@),
        None => None,
    }
}

/// The identity behind an optional reference to a header.
pub open spec fn identity_of(header: Option<&AuthorizedUserHeader>) -> Option<AuthorizedUser> {
    match header {
        Some(header) => Some(header@),
        None => None,
    }
}

/// The names in a list of role claims.
pub open spec fn role_names(roles: Seq<String>) -> Seq<Seq<char>> {
    Seq::new(roles.len(), |i: int| roles[i]@)
}

/// Whether every name of the list is the name of a role.
pub open spec fn all_roles_named(roles: Seq<Seq<char>>) -> bool {
    forall|i: int| 0 <= i < roles.len() ==> Role::named(#[trigger] roles[i]) is Some
}

/// The identity that a claim of an id and role names stands for: none where
/// the id is no UUID or a name is no role.
pub open spec fn claimed(id: Seq<char>, roles: Seq<Seq<char>>) -> Option<AuthorizedUser> {
    if parsed_uuid(id) is Some && all_roles_named(roles) {
        Some(
            AuthorizedUser {
                id: Uuid { value: parsed_uuid(id).unwrap() },
                roles: Seq::new(roles.len(), |i: int| Role::named(roles[i]).unwrap()),
            },
        )
    } else {
        None
    }
}

impl AuthorizedUserHeader {
    /// An identity with the given id and roles.
    pub fn new(id: Uuid, roles: Vec<Role>) -> (header: AuthorizedUserHeader)
        ensures
            header@ == (AuthorizedUser { id, roles: roles@ }),
    {
        AuthorizedUserHeader { id, roles }
    }

    /// Reads an identity from the two fields of a claim. Anything malformed
    /// gives no identity; an id in its canonical text with names of roles
    /// always gives one.
    pub fn from_claim(id: &str, roles: &Vec<String>) -> (header: Option<AuthorizedUserHeader>)
        ensures
            identity(header) == claimed(id@, role_names(roles@)),
            forall|value: u128|
                id@ == hyphenated(value) && all_roles_named(role_names(roles@)) ==> (header
                    matches Some(read) && read.id == Uuid { value }),
    {
        let subject = match parse_uuid(id) {
            Some(subject) => subject,
            None => {
                return None;
            },
        };
        let mut read: Vec<Role> = Vec::new();
        let mut i: usize = 0;
        while i < roles.len()
            invariant
                i <= roles.len(),
                read.len() == i,
                forall|j: int|
                    0 <= j < i ==> Role::named(#[trigger] role_names(roles@)[j]) == Some(read[j]),
            decreases roles.len() - i,
        {
            match Role::from_name(&roles[i]) {
                Some(role) => {
                    read.push(role);
                },
                None => {
                    assert(Role::named(role_names(roles@)[i as int]) is None);
                    return None;
                },
            }
            i += 1;
        }
        let header = AuthorizedUserHeader { id: subject, roles: read };
        assert(header@.roles =~= claimed(id@, role_names(roles@)).unwrap().roles);
        Some(header)
    }

    /// Whether one of the roles is permissive.
    pub fn has_permissive_role(&self) -> (found: bool)
        ensures
            found == self@.has_permissive_role(),
    {
        let mut i: usize = 0;
        while i < self.roles.len()
            invariant
                i <= self.roles.len(),
                forall|j: int| 0 <= j < i ==> !(#[trigger] self.roles[j]).permissive(),
            decreases self.roles.len() - i,
        {
            if self.roles[i].is_permissive() {
                assert(self@.roles[i as int].permissive());
                return true;
            }
            i += 1;
        }
        false
    }
}

/// Decides whether a known caller may touch what `id` owns: yes with a
/// permissive role, else only where `id` is the caller's own.
pub fn check_permissions(
    authorized_user_header: &AuthorizedUserHeader,
    id: Option<Uuid>,
) -> (verdict: Result<(), Error>)
    ensures
        verdict == permission(authorized_user_header@, id),
{
    let own = match id {
        Some(id) => authorized_user_header.id == id,
        None => false,
    };
    if authorized_user_header.has_permissive_role() || own {
        Ok(())
    } else {
        Err(Error::AuthorizationError { user: authorized_user_header.id, owner: id })
    }
}

/// Decides whether the caller of a request may touch what `id` owns. Without
/// an identity nobody may.
pub fn authorize_user(
    header: Option<&AuthorizedUserHeader>,
    id: Option<Uuid>,
) -> (verdict: Result<(), Error>)
    ensures
        verdict == authorization(identity_of(header), id),
{
    match header {
        Some(header) => check_permissions(header, id),
        None => Err(Error::AuthenticationError),
    }
}

/// A caller without a permissive role is let through exactly where the
/// resource is their own.
pub proof fn law_owner_only(user: AuthorizedUser, owner: Option<Uuid>)
    requires
        !user.has_permissive_role(),
    ensures
        authorization(Some(user), owner) is Ok <==> owner == Some(user.id),
{
}

/// A caller with a permissive role is let through whoever owns the resource,
/// and where nobody does.
pub proof fn law_permissive_role(user: AuthorizedUser, owner: Option<Uuid>)
    requires
        user.has_permissive_role(),
    ensures
        authorization(Some(user), owner) is Ok,
        authorization(Some(user), None) is Ok,
{
}

} // verus!
