//! The typed identifier.
//!
//! An `EntityId<T>` identifies one entity of kind `T`. It wraps a 128-bit
//! universally unique value; the marker `T` occupies no storage and exists
//! only so that identifiers of different entity kinds have different types
//! and can never be compared or interchanged by accident.

use core::marker::PhantomData;

use vstd::prelude::*;
use vstd::std_specs::cmp::PartialEqSpec;

use uuid::Uuid;

use crate::hex::{canonical_of, hyphenated, lemma_canonical_injective};
use crate::uuid_bridge::{new_v4, uuid_bits};

verus! {

/// An identifier of an entity of kind `T`.
///
/// The view of an identifier is the raw 128-bit value it wraps; the kind
/// marker plays no part in its value, its equality or its rendering.
#[derive(Debug, Hash)]
#[verifier::reject_recursive_types(T)]
pub struct EntityId<T>(u128, PhantomData<T>);

impl<T> View for EntityId<T> {
    type V = u128;

    closed spec fn view(&self) -> u128 {
        self.0
    }
}

impl<T> Clone for EntityId<T> {
    /// A clone carries the same raw value.
    fn clone(&self) -> (r: Self)
        ensures
            r@ == self@,
    {
        EntityId(self.0, PhantomData)
    }
}

impl<T> EntityId<T> {
    /// Generates a fresh identifier: 122 random bits under the fixed
    /// version-4 and RFC 4122 variant bits.
    pub fn new() -> (id: Self)
        ensures
            (id@ >> 76) & 0xf == 4,
            (id@ >> 62) & 0x3 == 2,
    {
        let u = new_v4();
        Self(u.as_u128(), PhantomData)
    }

    /// Wraps a caller-supplied raw 128-bit value, unconditionally: no
    /// version or variant bits are checked.
    pub fn from_raw(raw: u128) -> (id: Self)
        ensures
            id@ == raw,
    {
        Self(raw, PhantomData)
    }

    /// Returns the wrapped raw 128-bit value unchanged.
    pub fn to_raw(&self) -> (raw: u128)
        ensures
            raw == self@,
    {
        self.0
    }

    /// Wraps an existing UUID as an identifier of kind `T`, keeping its
    /// 128 bits unchanged. Any UUID is accepted.
    pub fn from_uuid(uuid: Uuid) -> (id: Self)
        ensures
            id@ == uuid_bits(uuid),
    {
        Self(uuid.as_u128(), PhantomData)
    }

    /// Converts the identifier back to a UUID carrying the same 128 bits.
    pub fn to_uuid(&self) -> (u: Uuid)
        ensures
            uuid_bits(u) == self@,
    {
        Uuid::from_u128(self.0)
    }

    /// Renders the identifier in the canonical hyphenated lowercase
    /// hexadecimal form of its raw value, with no kind-specific prefix
    /// or suffix.
    pub fn to_string(&self) -> (s: String)
        ensures
            s@ == canonical_of(self@),
    {
        hyphenated(self.0)
    }
}

impl<T> PartialEq for EntityId<T> {
    /// Identifiers of one kind are equal exactly when their raw values are.
    fn eq(&self, other: &Self) -> (r: bool)
        ensures
            r == (self@ == other@),
    {
        self.0 == other.0
    }
}

impl<T> vstd::std_specs::cmp::PartialEqSpecImpl for EntityId<T> {
    open spec fn obeys_eq_spec() -> bool {
        true
    }

    open spec fn eq_spec(&self, other: &Self) -> bool {
        self@ == other@
    }
}

impl<T> Eq for EntityId<T> {}

/// Two identifiers of the same kind with the same raw value compare equal:
/// what `==` means on identifiers is equality of the raw values alone.
pub proof fn lemma_same_raw_equal<T>(a: EntityId<T>, b: EntityId<T>)
    requires
        a@ == b@,
    ensures
        a.eq_spec(&b),
        b.eq_spec(&a),
{
}

/// The rendering determines the identifier: two identifiers of one kind with
/// the same canonical textual form carry the same raw value and compare
/// equal, so the textual form loses nothing.
pub proof fn lemma_rendering_injective<T>(a: EntityId<T>, b: EntityId<T>)
    requires
        canonical_of(a@) == canonical_of(b@),
    ensures
        a@ == b@,
        a.eq_spec(&b),
{
    lemma_canonical_injective(a@, b@);
}

} // verus!
