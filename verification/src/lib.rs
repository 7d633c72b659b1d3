//! Bearer-token authentication, identity synchronization and room creation.
//!
//! The crate validates bearer tokens against a published key set, upserts the
//! caller's profile into an identity store keyed by the external subject id,
//! and creates rooms with unique URL-safe slugs under strongly-typed ownership.

pub mod api;
pub mod errors;
pub mod ids;
pub mod jwt;
pub mod laws;
pub mod models;
pub mod room;
pub mod store;
pub mod strutil;
pub mod token;
