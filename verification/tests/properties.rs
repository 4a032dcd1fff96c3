use std::hash::{Hash, Hasher};

use domain_primitives::entity_id::EntityId;
use uuid::Uuid;

#[derive(Debug, Hash)]
struct Order;

#[derive(Debug, Hash)]
struct User;

fn hash_of<H: Hash>(value: &H) -> u64 {
    let mut hasher = std::hash::DefaultHasher::new();
    value.hash(&mut hasher);
    hasher.finish()
}

/// Wrapping a raw value and reading it back returns the value unchanged.
#[test]
fn raw_round_trip() {
    let values: [u128; 4] = [
        0,
        1,
        0x550e8400e29b41d4a716446655440000,
        u128::MAX,
    ];
    for v in values {
        let id: EntityId<Order> = EntityId::from_raw(v);
        assert_eq!(id.to_raw(), v);
    }
}

/// Two identifiers of the same kind from the same raw value compare equal
/// and hash equal.
#[test]
fn same_raw_same_kind_equal_and_hash_equal() {
    let v: u128 = 0x550e8400e29b41d4a716446655440000;
    let a: EntityId<Order> = EntityId::from_raw(v);
    let b: EntityId<Order> = EntityId::from_raw(v);
    assert_eq!(a, b);
    assert_eq!(hash_of(&a), hash_of(&b));
}

/// The hash of an identifier depends only on the raw value: it equals the
/// hash of the raw value itself and does not change with the kind marker.
#[test]
fn hash_depends_only_on_raw_value() {
    let v: u128 = 0xa1a2a3a4b1b2c1c2d1d2d3d4d5d6d7d8;
    let order_id: EntityId<Order> = EntityId::from_raw(v);
    let user_id: EntityId<User> = EntityId::from_raw(v);
    assert_eq!(hash_of(&order_id), hash_of(&v));
    assert_eq!(hash_of(&user_id), hash_of(&v));
}

/// The rendering is the canonical hyphenated lowercase hexadecimal form.
#[test]
fn rendering_is_canonical() {
    let id: EntityId<Order> = EntityId::from_raw(0x550e8400e29b41d4a716446655440000);
    assert_eq!(id.to_string(), "550e8400-e29b-41d4-a716-446655440000");

    let zero: EntityId<Order> = EntityId::from_raw(0);
    assert_eq!(zero.to_string(), "00000000-0000-0000-0000-000000000000");

    let all_ones: EntityId<Order> = EntityId::from_raw(u128::MAX);
    assert_eq!(all_ones.to_string(), "ffffffff-ffff-ffff-ffff-ffffffffffff");
}

/// Re-parsing the rendered text through the external parser and wrapping the
/// parsed value reproduces an identifier equal to the original.
#[test]
fn rendering_round_trips_through_parser() {
    let id: EntityId<Order> = EntityId::new();
    let text = id.to_string();
    let parsed = Uuid::parse_str(&text).unwrap();
    let back: EntityId<Order> = EntityId::from_uuid(parsed);
    assert_eq!(id, back);
}

/// Generated identifiers carry the version-4 and RFC 4122 variant bits.
#[test]
fn generated_has_version_and_variant_bits() {
    let id: EntityId<Order> = EntityId::new();
    let raw = id.to_raw();
    assert_eq!((raw >> 76) & 0xf, 4);
    assert_eq!((raw >> 62) & 0x3, 2);
    let text = id.to_string();
    assert_eq!(text.as_bytes()[14], b'4');
}

/// Generate an identifier, extract its raw value, wrap it again: the result
/// equals the original and renders identically.
#[test]
fn generate_extract_rewrap_scenario() {
    let a: EntityId<Order> = EntityId::new();
    let r = a.to_raw();
    let b: EntityId<Order> = EntityId::from_raw(r);
    assert_eq!(a, b);
    assert_eq!(a.to_string(), b.to_string());
}

/// A clone carries the same raw value and compares equal to the original.
#[test]
fn clone_preserves_value() {
    let a: EntityId<Order> = EntityId::new();
    let b = a.clone();
    assert_eq!(a, b);
    assert_eq!(a.to_raw(), b.to_raw());
}

/// Converting to a UUID keeps the 128 bits.
#[test]
fn to_uuid_keeps_bits() {
    let v: u128 = 0xa1a2a3a4b1b2c1c2d1d2d3d4d5d6d7d8;
    let id: EntityId<Order> = EntityId::from_raw(v);
    assert_eq!(id.to_uuid().as_u128(), v);
    let text = id.to_string();
    assert_eq!(text, "a1a2a3a4-b1b2-c1c2-d1d2-d3d4d5d6d7d8");
}
