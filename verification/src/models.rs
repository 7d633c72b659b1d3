//! Data model: verified claims, stored users and rooms, and request bodies.

use vstd::prelude::*;
use crate::ids::{RoomId, UserId};

verus! {

/// The view of an optional string: the optional sequence of its characters.
pub open spec fn opt_str_view(o: Option<String>) -> Option<Seq<char>> {
    match o {
        Option::Some(s) => Option::Some(s@),
        Option::None => Option::None,
    }
}

/// Mathematical model of a verified claim set.
pub ghost struct ClaimsView {
    pub subject: Seq<char>,
    pub email: Option<Seq<char>>,
    pub display_name: Option<Seq<char>>,
    pub avatar_url: Option<Seq<char>>,
    pub email_verified: Option<bool>,
    pub issued_at: u64,
    pub expires_at: u64,
    pub audience: Seq<char>,
    pub issuer: Seq<char>,
}

/// The facts a verified token asserts about its bearer. Produced only by
/// token validation; consumed once per request and never persisted as-is.
pub struct Claims {
    /// The identity provider's stable unique identifier for the caller.
    pub subject: String,
    pub email: Option<String>,
    pub display_name: Option<String>,
    pub avatar_url: Option<String>,
    pub email_verified: Option<bool>,
    /// Seconds since the epoch at which the token was issued.
    pub issued_at: u64,
    /// Seconds since the epoch at which the token stops being valid.
    pub expires_at: u64,
    pub audience: String,
    pub issuer: String,
}

impl View for Claims {
    type V = ClaimsView;

    open spec fn view(&self) -> ClaimsView {
        ClaimsView {
            subject: self.subject@,
            email: opt_str_view(self.email),
            display_name: opt_str_view(self.display_name),
            avatar_url: opt_str_view(self.avatar_url),
            email_verified: self.email_verified,
            issued_at: self.issued_at,
            expires_at: self.expires_at,
            audience: self.audience@,
            issuer: self.issuer@,
        }
    }
}

/// An authenticated caller: the claim set of a token that passed validation.
pub struct AuthUser(pub Claims);

/// Mathematical model of a stored user row.
pub ghost struct UserView {
    pub id: UserId,
    pub subject: Seq<char>,
    pub email: Option<Seq<char>>,
    pub display_name: Option<Seq<char>>,
    pub avatar_url: Option<Seq<char>>,
    pub created_at: u64,
    pub updated_at: u64,
}

/// A stored user. Exactly one user exists per distinct external subject id;
/// the row is created on first successful authentication and its profile
/// fields are refreshed on every later one.
pub struct User {
    pub id: UserId,
    /// The identity provider's stable unique identifier; the upsert key.
    pub external_subject_id: String,
    pub email: Option<String>,
    pub display_name: Option<String>,
    pub avatar_url: Option<String>,
    pub created_at: u64,
    pub updated_at: u64,
}

impl View for User {
    type V = UserView;

    open spec fn view(&self) -> UserView {
        UserView {
            id: self.id,
            subject: self.external_subject_id@,
            email: opt_str_view(self.email),
            display_name: opt_str_view(self.display_name),
            avatar_url: opt_str_view(self.avatar_url),
            created_at: self.created_at,
            updated_at: self.updated_at,
        }
    }
}

/// Mathematical model of a stored room row.
pub ghost struct RoomView {
    pub id: RoomId,
    pub slug: Seq<char>,
    pub name: Seq<char>,
    pub owner_id: UserId,
    pub created_at: u64,
    pub updated_at: u64,
}

/// A stored room. The slug is globally unique, URL-safe and immutable after
/// creation, and the owner always references an existing user.
pub struct Room {
    pub id: RoomId,
    pub slug: String,
    pub name: String,
    pub owner_id: UserId,
    pub created_at: u64,
    pub updated_at: u64,
}

impl View for Room {
    type V = RoomView;

    open spec fn view(&self) -> RoomView {
        RoomView {
            id: self.id,
            slug: self.slug@,
            name: self.name@,
            owner_id: self.owner_id,
            created_at: self.created_at,
            updated_at: self.updated_at,
        }
    }
}

impl Room {
    /// A field-for-field copy of the room, so that a caller can be handed the
    /// created row while the store keeps its own.
    pub fn duplicate(&self) -> (r: Room)
        ensures
            r@ == self@,
    {
        Room {
            id: self.id,
            slug: self.slug.clone(),
            name: self.name.clone(),
            owner_id: self.owner_id,
            created_at: self.created_at,
            updated_at: self.updated_at,
        }
    }
}

/// Body of a room-creation request: the room's display name and, optionally,
/// an explicit slug to use verbatim.
pub struct CreateRoomRequest {
    pub name: String,
    pub slug: Option<String>,
}

} // verus!
