//! Why an operation was refused.

use vstd::prelude::*;
use crate::id::{format_uuid, hyphenated, Uuid};

verus! {

/// The kind of record that a lookup was after.
#[derive(Clone, Copy, Debug, PartialEq, Eq, Structural)]
pub enum Entity {
    Wishlist,
    User,
}

/// The kind of record of another service that a request refers to.
#[derive(Clone, Copy, Debug, PartialEq, Eq, Structural)]
pub enum Reference {
    User,
    ProductVariant,
}

/// The ways in which an operation fails.
#[derive(Clone, Copy, Debug, PartialEq, Eq)]
pub enum Error {
    /// The caller presented no usable identity.
    AuthenticationError,
    /// The caller is known but may not touch what `owner` owns.
    AuthorizationError { user: Uuid, owner: Option<Uuid> },
    /// No record of this kind has this id.
    NotFound { entity: Entity, id: Uuid },
    /// A user or product variant that the request refers to is not known
    /// here.
    ReferenceNotFound { reference: Reference, id: Uuid },
    /// The store could not carry out a request.
    BackendUnavailable,
    /// A value did not have the shape that was asked for.
    ValidationError,
}

/// The name of a kind of record in a message.
pub open spec fn entity_name(entity: Entity) -> Seq<char> {
    match entity {
        Entity::Wishlist => "Wishlist"@,
        Entity::User => "User"@,
    }
}

/// The name of a kind of reference in a message.
pub open spec fn reference_name(reference: Reference) -> Seq<char> {
    match reference {
        Reference::User => "User"@,
        Reference::ProductVariant => "Product variant"@,
    }
}

/// The message that tells a caller of a failure. Ids stand in it in their
/// canonical text; a refusal names the caller and the owner of what the
/// caller was after.
pub open spec fn message_text(error: Error) -> Seq<char> {
    match error {
        Error::AuthenticationError =>
            "Authentication failed. Authorized-User header is not set or could not be parsed."@,
        Error::AuthorizationError { user, owner } => match owner {
            Some(owner) => "Authorization failed for user of UUID: `"@ + hyphenated(user.value)
                + "`. Operation on what user of UUID: `"@ + hyphenated(owner.value)
                + "` owns is not permitted."@,
            None => "Authorization failed for user of UUID: `"@ + hyphenated(user.value)
                + "`. Operation not permitted."@,
        },
        Error::NotFound { entity, id } => entity_name(entity) + " with UUID: `"@ + hyphenated(
            id.value,
        ) + "` not found."@,
        Error::ReferenceNotFound { reference, id } => reference_name(reference)
            + " with the UUID: `"@ + hyphenated(id.value) + "` is not present in the system."@,
        Error::BackendUnavailable => "The request failed in the store."@,
        Error::ValidationError =>
            "Returned id needs to be a Binary in order to be parsed as a Uuid"@,
    }
}

impl Error {
    /// The message that tells a caller of this failure.
    pub fn message(&self) -> (text: String)
        ensures
            text@ == message_text(*self),
    {
        match self {
            Error::AuthenticationError => {
                "Authentication failed. Authorized-User header is not set or could not be parsed."
                    .to_owned()
            },
            Error::AuthorizationError { user, owner } => {
                let mut text = "Authorization failed for user of UUID: `".to_owned();
                text.append(format_uuid(*user).as_str());
                match owner {
                    Some(owner) => {
                        text.append("`. Operation on what user of UUID: `");
                        text.append(format_uuid(*owner).as_str());
                        text.append("` owns is not permitted.");
                    },
                    None => {
                        text.append("`. Operation not permitted.");
                    },
                }
                text
            },
            Error::NotFound { entity, id } => {
                let mut text = match entity {
                    Entity::Wishlist => "Wishlist".to_owned(),
                    Entity::User => "User".to_owned(),
                };
                text.append(" with UUID: `");
                text.append(format_uuid(*id).as_str());
                text.append("` not found.");
                text
            },
            Error::ReferenceNotFound { reference, id } => {
                let mut text = match reference {
                    Reference::User => "User".to_owned(),
                    Reference::ProductVariant => "Product variant".to_owned(),
                };
                text.append(" with the UUID: `");
                text.append(format_uuid(*id).as_str());
                text.append("` is not present in the system.");
                text
            },
            Error::BackendUnavailable => "The request failed in the store.".to_owned(),
            Error::ValidationError => {
                "Returned id needs to be a Binary in order to be parsed as a Uuid".to_owned()
            },
        }
    }
}

} // verus!
