//! A verified data-access layer for a collection of user records.
//!
//! The crate holds the logic of a small repository over a remote document
//! store: translating identifier strings to and from the store's twelve-byte
//! identifier format, shaping the five requests the repository issues
//! (insert, match-all find, find by id, field overwrite by id, delete by id),
//! and interpreting the store's replies as typed results. A thin unverified
//! shell owns the actual connection and performs the wire calls; it hands
//! this crate plain values and takes plain values back.

pub mod error;
pub mod model;
pub mod oid;
pub mod protocol;
pub mod user;
