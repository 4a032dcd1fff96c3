//! Strongly typed unique identifiers.
//!
//! An identifier wraps a 128-bit universally unique value and carries a
//! zero-storage marker type that names the entity kind it belongs to, so that
//! identifiers of different kinds cannot be mixed up even though they share
//! the same underlying representation.

pub mod entity_id;
pub mod hex;
pub mod uuid_bridge;
