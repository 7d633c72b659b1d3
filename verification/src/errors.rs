//! Error taxonomy and its translation to client-visible responses.
//!
//! Authentication failures carry a precise internal kind but are surfaced to
//! clients as one generic response, so that no failure detail can be used as
//! an oracle. Storage failures distinguish transient connectivity errors
//! (retryable) from constraint violations (semantic, never retried).

use vstd::prelude::*;

verus! {

/// Why token validation rejected a request. Internal only: every variant is
/// surfaced to the client as the same generic response.
#[derive(Clone, Copy, PartialEq, Eq, Structural, Debug)]
pub enum AuthError {
    MissingOrMalformedHeader,
    MalformedToken,
    SignatureInvalid,
    AudienceMismatch,
    IssuerMismatch,
    TokenExpired,
    TokenNotYetValid,
}

/// Why a storage operation failed.
#[derive(Clone, Copy, PartialEq, Eq, Structural, Debug)]
pub enum StorageError {
    /// Transient connectivity failure; the caller may retry.
    ConnectionFailure,
    /// A uniqueness or foreign-key constraint was violated; never retried.
    ConstraintViolation,
}

/// Why room creation failed.
#[derive(Clone, Copy, PartialEq, Eq, Structural, Debug)]
pub enum RoomError {
    /// The caller requested a slug that is not URL-safe.
    InvalidSlug,
    /// The caller requested a slug that another room already holds.
    SlugTaken,
    /// Slug auto-generation collided on every bounded retry.
    SlugExhausted,
    /// The underlying store rejected the write.
    Storage(StorageError),
}

impl AuthError {
    /// The one message a client ever sees for an authentication failure,
    /// identical for every variant so that the response leaks nothing about
    /// which check rejected the token.
    pub fn public_message(&self) -> (r: String)
        ensures
            r@ == "unauthorized"@,
    {
        "unauthorized".to_owned()
    }

    /// Every authentication failure maps to HTTP 401.
    pub fn http_status(&self) -> (r: u16)
        ensures
            r == 401u16,
    {
        401
    }
}

impl StorageError {
    /// Only connectivity failures are transient; constraint violations are
    /// semantic and must never be retried.
    pub fn is_retryable(&self) -> (r: bool)
        ensures
            r == (self is ConnectionFailure),
    {
        match self {
            StorageError::ConnectionFailure => true,
            StorageError::ConstraintViolation => false,
        }
    }
}

impl RoomError {
    /// HTTP status for a room-creation failure: an explicit-slug conflict is
    /// a client-visible 409, a rejected slug a 400, everything else a 500.
    pub fn http_status(&self) -> (r: u16)
        ensures
            r == (match self {
                RoomError::InvalidSlug => 400u16,
                RoomError::SlugTaken => 409u16,
                RoomError::SlugExhausted => 500u16,
                RoomError::Storage(_) => 500u16,
            }),
    {
        match self {
            RoomError::InvalidSlug => 400,
            RoomError::SlugTaken => 409,
            RoomError::SlugExhausted => 500,
            RoomError::Storage(_) => 500,
        }
    }
}

} // verus!
