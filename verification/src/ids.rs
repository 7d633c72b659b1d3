//! Branded identifier types.
//!
//! `UserId` and `RoomId` are nominally distinct wrappers around the 128-bit
//! value of a UUID. A `RoomId` can never be passed where a `UserId` is
//! expected (or vice versa): there is no conversion between the two kinds.

use vstd::prelude::*;

verus! {

/// Identifier of a stored user: a branded wrapper around a 128-bit UUID value.
#[derive(Clone, Copy, PartialEq, Eq, Structural, Debug)]
pub struct UserId(pub u128);

/// Identifier of a stored room: a branded wrapper around a 128-bit UUID value.
/// Distinct from `UserId` by construction, with no conversion between the two.
#[derive(Clone, Copy, PartialEq, Eq, Structural, Debug)]
pub struct RoomId(pub u128);

/// Relies on `uuid::Uuid::now_v7`: a fresh time-ordered (version 7) UUID.
/// The result depends on the clock and on randomness, so nothing is promised
/// of its value; callers treat collisions with stored identifiers as a
/// constraint violation. The call aborts the process if the system clock
/// reads before the Unix epoch or the operating system's random source
/// fails — environmental failures outside any input's control.
#[verifier::external_body]
fn fresh_time_ordered_bits() -> u128 {
    uuid::Uuid::now_v7().as_u128()
}

/// Relies on `uuid::Uuid::new_v4`: 128 bits of which 122 are random.
/// The result depends on randomness, so nothing is promised of its value.
/// The call aborts the process if the operating system's random source
/// fails — an environmental failure outside any input's control.
#[verifier::external_body]
pub(crate) fn fresh_random_bits() -> u128 {
    uuid::Uuid::new_v4().as_u128()
}

impl UserId {
    /// A freshly generated, time-ordered user identifier.
    pub fn fresh() -> UserId {
        UserId(fresh_time_ordered_bits())
    }
}

impl RoomId {
    /// A freshly generated, time-ordered room identifier.
    pub fn fresh() -> RoomId {
        RoomId(fresh_time_ordered_bits())
    }
}

} // verus!
