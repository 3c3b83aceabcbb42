//! Byte and string helpers shared by the identifier, allowlist and commitment
//! code.

use vstd::prelude::*;
use vstd::utf8::encode_utf8_decode_utf8;

verus! {

/// Compares two byte strings: equal length and equal bytes at every position.
pub fn bytes_equal(left: &[u8], right: &[u8]) -> (same: bool)
    ensures
        same == (left@ == right@),
{
    if left.len() != right.len() {
        return false;
    }
    let mut i: usize = 0;
    while i < left.len()
        invariant
            left@.len() == right@.len(),
            i <= left@.len(),
            forall|k: int| 0 <= k < i ==> left@[k] == right@[k],
        decreases left@.len() - i,
    {
        if left[i] != right[i] {
            return false;
        }
        i += 1;
    }
    assert(left@ =~= right@);
    true
}

/// Exact string equality, decided on the UTF-8 bytes.
pub fn str_equal(left: &str, right: &str) -> (same: bool)
    ensures
        same == (left@ == right@),
{
    let same = bytes_equal(left.as_bytes(), right.as_bytes());
    proof {
        if same {
            encode_utf8_decode_utf8(left@);
            encode_utf8_decode_utf8(right@);
        }
    }
    same
}

/// The unsigned 64-bit number that has the same bits as `value` in two's
/// complement.
pub open spec fn twos_complement(value: i64) -> nat {
    if value >= 0 {
        value as nat
    } else {
        (value + 0x1_0000_0000_0000_0000) as nat
    }
}

/// The eight bytes of `value` in little-endian order: the base-256 digits of
/// its two's complement, least significant first.
pub open spec fn i64_le_bytes(value: i64) -> Seq<u8> {
    let u = twos_complement(value);
    seq![
        (u % 0x100) as u8,
        (u / 0x100 % 0x100) as u8,
        (u / 0x1_0000 % 0x100) as u8,
        (u / 0x100_0000 % 0x100) as u8,
        (u / 0x1_0000_0000 % 0x100) as u8,
        (u / 0x100_0000_0000 % 0x100) as u8,
        (u / 0x1_0000_0000_0000 % 0x100) as u8,
        (u / 0x100_0000_0000_0000 % 0x100) as u8,
    ]
}

/// Encodes `value` as eight little-endian bytes.
pub fn i64_to_le_bytes(value: i64) -> (bytes: [u8; 8])
    ensures
        bytes@ == i64_le_bytes(value),
{
    let u: u64 = if value >= 0 {
        value as u64
    } else {
        ((value + i64::MAX) + 1) as u64 + 0x8000_0000_0000_0000
    };
    let bytes: [u8; 8] = [
        (u % 0x100) as u8,
        (u / 0x100 % 0x100) as u8,
        (u / 0x1_0000 % 0x100) as u8,
        (u / 0x100_0000 % 0x100) as u8,
        (u / 0x1_0000_0000 % 0x100) as u8,
        (u / 0x100_0000_0000 % 0x100) as u8,
        (u / 0x1_0000_0000_0000 % 0x100) as u8,
        (u / 0x100_0000_0000_0000 % 0x100) as u8,
    ];
    assert(bytes@ =~= i64_le_bytes(value));
    bytes
}

/// Distinct values have distinct little-endian encodings.
pub proof fn lemma_i64_le_bytes_injective(a: i64, b: i64)
    requires
        i64_le_bytes(a) == i64_le_bytes(b),
    ensures
        a == b,
{
    lemma_le_bytes_value(a);
    lemma_le_bytes_value(b);
}

/// The little-endian bytes of a value add up, weighted by powers of 256, to
/// its two's complement.
pub proof fn lemma_le_bytes_value(value: i64)
    ensures
        i64_le_bytes(value).len() == 8,
        twos_complement(value) == i64_le_bytes(value)[0] + 0x100 * i64_le_bytes(value)[1] + 0x1_0000
            * i64_le_bytes(value)[2] + 0x100_0000 * i64_le_bytes(value)[3] + 0x1_0000_0000
            * i64_le_bytes(value)[4] + 0x100_0000_0000 * i64_le_bytes(value)[5]
            + 0x1_0000_0000_0000 * i64_le_bytes(value)[6] + 0x100_0000_0000_0000 * i64_le_bytes(
            value,
        )[7],
{
    let u = twos_complement(value);
    let q1 = u / 0x100;
    let q2 = u / 0x1_0000;
    let q3 = u / 0x100_0000;
    let q4 = u / 0x1_0000_0000;
    let q5 = u / 0x100_0000_0000;
    let q6 = u / 0x1_0000_0000_0000;
    let q7 = u / 0x100_0000_0000_0000;
    assert(q2 == q1 / 0x100);
    assert(q3 == q2 / 0x100);
    assert(q4 == q3 / 0x100);
    assert(q5 == q4 / 0x100);
    assert(q6 == q5 / 0x100);
    assert(q7 == q6 / 0x100);
    assert(q7 < 0x100);
}

} // verus!
