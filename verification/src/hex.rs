//! Canonical textual form of a 128-bit value: lowercase hexadecimal digits in
//! groups of 8-4-4-4-12, separated by hyphens.

use vstd::prelude::*;

verus! {

/// The lowercase hexadecimal digit for a value below sixteen.
pub open spec fn hex_char(d: int) -> char {
    if d == 0 {
        '0'
    } else if d == 1 {
        '1'
    } else if d == 2 {
        '2'
    } else if d == 3 {
        '3'
    } else if d == 4 {
        '4'
    } else if d == 5 {
        '5'
    } else if d == 6 {
        '6'
    } else if d == 7 {
        '7'
    } else if d == 8 {
        '8'
    } else if d == 9 {
        '9'
    } else if d == 10 {
        'a'
    } else if d == 11 {
        'b'
    } else if d == 12 {
        'c'
    } else if d == 13 {
        'd'
    } else if d == 14 {
        'e'
    } else {
        'f'
    }
}

/// The `i`-th hexadecimal digit of `v`, counting from the most significant;
/// `i` ranges over 0 to 31.
pub open spec fn nibble_of(v: u128, i: int) -> u128 {
    (v >> (((31 - i) * 4) as u128)) & 0xf
}

/// In the canonical 36-character form, hyphens stand at these positions.
pub open spec fn is_hyphen_pos(j: int) -> bool {
    j == 8 || j == 13 || j == 18 || j == 23
}

/// Which hexadecimal digit of the value stands at character position `j`
/// of the canonical form (for non-hyphen positions).
pub open spec fn digit_index(j: int) -> int {
    if j < 8 {
        j
    } else if j < 13 {
        j - 1
    } else if j < 18 {
        j - 2
    } else if j < 23 {
        j - 3
    } else {
        j - 4
    }
}

/// The canonical hyphenated lowercase hexadecimal form of `v`:
/// 36 characters, hex digit groups of 8, 4, 4, 4 and 12.
pub open spec fn canonical_of(v: u128) -> Seq<char> {
    Seq::new(
        36,
        |j: int|
            if is_hyphen_pos(j) {
                '-'
            } else {
                hex_char(nibble_of(v, digit_index(j)) as int)
            },
    )
}

/// The character position of hexadecimal digit `i` in the canonical form.
spec fn char_pos(i: int) -> int {
    if i < 8 {
        i
    } else if i < 12 {
        i + 1
    } else if i < 16 {
        i + 2
    } else if i < 20 {
        i + 3
    } else {
        i + 4
    }
}

/// Distinct hexadecimal digits render as distinct characters.
proof fn lemma_hex_char_injective(a: int, b: int)
    requires
        0 <= a < 16,
        0 <= b < 16,
        hex_char(a) == hex_char(b),
    ensures
        a == b,
{
}

/// The canonical form determines the value: two values with the same
/// rendering are bitwise equal.
pub proof fn lemma_canonical_injective(v1: u128, v2: u128)
    requires
        canonical_of(v1) == canonical_of(v2),
    ensures
        v1 == v2,
{
    assert forall|i: int| 0 <= i < 32 implies nibble_of(v1, i) == nibble_of(v2, i) by {
        let j = char_pos(i);
        assert(0 <= j < 36);
        assert(!is_hyphen_pos(j));
        assert(digit_index(j) == i);
        assert(canonical_of(v1)[j] == hex_char(nibble_of(v1, i) as int));
        assert(canonical_of(v2)[j] == hex_char(nibble_of(v2, i) as int));
        assert(canonical_of(v1)[j] == canonical_of(v2)[j]);
        let sh: u128 = (((31 - i) * 4) as u128);
        assert(nibble_of(v1, i) == (v1 >> sh) & 0xf);
        assert(nibble_of(v2, i) == (v2 >> sh) & 0xf);
        assert((v1 >> sh) & 0xf < 16 && (v2 >> sh) & 0xf < 16) by (bit_vector);
        lemma_hex_char_injective(nibble_of(v1, i) as int, nibble_of(v2, i) as int);
    }
    assert forall|sh: u128| sh < 128 && sh % 4 == 0 implies (v1 >> sh) & 0xf == (v2 >> sh)
        & 0xf by {
        let i = 31 - (sh / 4) as int;
        assert(nibble_of(v1, i) == nibble_of(v2, i));
        assert(nibble_of(v1, i) == (v1 >> sh) & 0xf);
        assert(nibble_of(v2, i) == (v2 >> sh) & 0xf);
    }
    assert(v1 == v2) by (bit_vector)
        requires
            (v1 >> 124u128) & 0xf == (v2 >> 124u128) & 0xf,
            (v1 >> 120u128) & 0xf == (v2 >> 120u128) & 0xf,
            (v1 >> 116u128) & 0xf == (v2 >> 116u128) & 0xf,
            (v1 >> 112u128) & 0xf == (v2 >> 112u128) & 0xf,
            (v1 >> 108u128) & 0xf == (v2 >> 108u128) & 0xf,
            (v1 >> 104u128) & 0xf == (v2 >> 104u128) & 0xf,
            (v1 >> 100u128) & 0xf == (v2 >> 100u128) & 0xf,
            (v1 >> 96u128) & 0xf == (v2 >> 96u128) & 0xf,
            (v1 >> 92u128) & 0xf == (v2 >> 92u128) & 0xf,
            (v1 >> 88u128) & 0xf == (v2 >> 88u128) & 0xf,
            (v1 >> 84u128) & 0xf == (v2 >> 84u128) & 0xf,
            (v1 >> 80u128) & 0xf == (v2 >> 80u128) & 0xf,
            (v1 >> 76u128) & 0xf == (v2 >> 76u128) & 0xf,
            (v1 >> 72u128) & 0xf == (v2 >> 72u128) & 0xf,
            (v1 >> 68u128) & 0xf == (v2 >> 68u128) & 0xf,
            (v1 >> 64u128) & 0xf == (v2 >> 64u128) & 0xf,
            (v1 >> 60u128) & 0xf == (v2 >> 60u128) & 0xf,
            (v1 >> 56u128) & 0xf == (v2 >> 56u128) & 0xf,
            (v1 >> 52u128) & 0xf == (v2 >> 52u128) & 0xf,
            (v1 >> 48u128) & 0xf == (v2 >> 48u128) & 0xf,
            (v1 >> 44u128) & 0xf == (v2 >> 44u128) & 0xf,
            (v1 >> 40u128) & 0xf == (v2 >> 40u128) & 0xf,
            (v1 >> 36u128) & 0xf == (v2 >> 36u128) & 0xf,
            (v1 >> 32u128) & 0xf == (v2 >> 32u128) & 0xf,
            (v1 >> 28u128) & 0xf == (v2 >> 28u128) & 0xf,
            (v1 >> 24u128) & 0xf == (v2 >> 24u128) & 0xf,
            (v1 >> 20u128) & 0xf == (v2 >> 20u128) & 0xf,
            (v1 >> 16u128) & 0xf == (v2 >> 16u128) & 0xf,
            (v1 >> 12u128) & 0xf == (v2 >> 12u128) & 0xf,
            (v1 >> 8u128) & 0xf == (v2 >> 8u128) & 0xf,
            (v1 >> 4u128) & 0xf == (v2 >> 4u128) & 0xf,
            (v1 >> 0u128) & 0xf == (v2 >> 0u128) & 0xf,
    ;
}

/// The one-character string slice for a hexadecimal digit.
fn hex_digit_str(d: u8) -> (s: &'static str)
    requires
        d < 16,
    ensures
        s@ =~= seq![hex_char(d as int)],
{
    proof {
        reveal_strlit("0");
        reveal_strlit("1");
        reveal_strlit("2");
        reveal_strlit("3");
        reveal_strlit("4");
        reveal_strlit("5");
        reveal_strlit("6");
        reveal_strlit("7");
        reveal_strlit("8");
        reveal_strlit("9");
        reveal_strlit("a");
        reveal_strlit("b");
        reveal_strlit("c");
        reveal_strlit("d");
        reveal_strlit("e");
        reveal_strlit("f");
    }
    if d == 0 {
        "0"
    } else if d == 1 {
        "1"
    } else if d == 2 {
        "2"
    } else if d == 3 {
        "3"
    } else if d == 4 {
        "4"
    } else if d == 5 {
        "5"
    } else if d == 6 {
        "6"
    } else if d == 7 {
        "7"
    } else if d == 8 {
        "8"
    } else if d == 9 {
        "9"
    } else if d == 10 {
        "a"
    } else if d == 11 {
        "b"
    } else if d == 12 {
        "c"
    } else if d == 13 {
        "d"
    } else if d == 14 {
        "e"
    } else {
        "f"
    }
}

/// Renders `v` in its canonical hyphenated lowercase hexadecimal form.
pub fn hyphenated(v: u128) -> (s: String)
    ensures
        s@ == canonical_of(v),
{
    let mut s = String::new();
    let mut j: usize = 0;
    while j < 36
        invariant
            j <= 36,
            s@ =~= canonical_of(v).take(j as int),
        decreases 36 - j,
    {
        if j == 8 || j == 13 || j == 18 || j == 23 {
            proof {
                reveal_strlit("-");
            }
            s.append("-");
        } else {
            let di: usize = if j < 8 {
                j
            } else if j < 13 {
                j - 1
            } else if j < 18 {
                j - 2
            } else if j < 23 {
                j - 3
            } else {
                j - 4
            };
            let shift: u128 = ((31 - di) * 4) as u128;
            let nib: u128 = (v >> shift) & 0xf;
            assert(nib == nibble_of(v, di as int));
            assert(nib < 16) by (bit_vector)
                requires
                    nib == (v >> shift) & 0xf,
            ;
            s.append(hex_digit_str(nib as u8));
        }
        assert(s@ =~= canonical_of(v).take(j as int + 1));
        j = j + 1;
    }
    proof {
        assert(s@ =~= canonical_of(v));
    }
    s
}

} // verus!

