//! Trusted bridge to the `uuid` crate: the external 128-bit UUID primitive.
//!
//! The library models a UUID by the `u128` it carries; `uuid_bits` names that
//! value at the specification level.

use vstd::prelude::*;

use uuid::Uuid;

verus! {

#[verifier::external_type_specification]
#[verifier::external_body]
pub struct ExUuid(Uuid);

/// The 128-bit value a `Uuid` carries.
pub uninterp spec fn uuid_bits(u: Uuid) -> u128;

/// Relies on `uuid::Uuid::as_u128`: returns the UUID's 128 bits as a `u128`.
pub assume_specification[ Uuid::as_u128 ](u: &Uuid) -> (r: u128)
    ensures
        r == uuid_bits(*u),
;

/// Relies on `uuid::Uuid::from_u128`: builds the UUID carrying exactly the
/// given 128 bits, so reading them back with `as_u128` returns the argument.
pub assume_specification[ Uuid::from_u128 ](v: u128) -> (r: Uuid)
    ensures
        uuid_bits(r) == v,
;

/// Relies on `uuid::Uuid::new_v4`: a random UUID whose version field (four
/// bits) is 4 and whose variant field (two bits) is the RFC 4122 variant.
/// Nothing more is promised of a random value.
#[verifier::external_body]
pub(crate) fn new_v4() -> (u: Uuid)
    ensures
        (uuid_bits(u) >> 76) & 0xf == 4,
        (uuid_bits(u) >> 62) & 0x3 == 2,
{
    Uuid::new_v4()
}

} // verus!
