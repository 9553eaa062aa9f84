//! Eight-byte little-endian integers.

use vstd::prelude::*;

verus! {

/// The number that eight bytes stand for, least significant byte first.
pub open spec fn le_value(bytes: Seq<u8>) -> int
    recommends
        bytes.len() == 8,
{
    bytes[0] + bytes[1] * 0x100 + bytes[2] * 0x1_0000 + bytes[3] * 0x100_0000 + bytes[4]
        * 0x1_0000_0000 + bytes[5] * 0x100_0000_0000 + bytes[6] * 0x1_0000_0000_0000 + bytes[7]
        * 0x100_0000_0000_0000
}

/// The eight bytes that stand for `value`, least significant byte first.
pub open spec fn le_bytes(value: u64) -> Seq<u8> {
    seq![
        (value % 0x100) as u8,
        (value / 0x100 % 0x100) as u8,
        (value / 0x1_0000 % 0x100) as u8,
        (value / 0x100_0000 % 0x100) as u8,
        (value / 0x1_0000_0000 % 0x100) as u8,
        (value / 0x100_0000_0000 % 0x100) as u8,
        (value / 0x1_0000_0000_0000 % 0x100) as u8,
        (value / 0x100_0000_0000_0000 % 0x100) as u8,
    ]
}

/// Eight bytes always stand for a number that fits in 64 bits.
pub proof fn lemma_le_value_bounds(bytes: Seq<u8>)
    requires
        bytes.len() == 8,
    ensures
        0 <= le_value(bytes) <= u64::MAX,
{
}

/// Reading back the bytes of a number gives the number.
pub proof fn lemma_le_value_of_bytes(value: u64)
    ensures
        le_bytes(value).len() == 8,
        le_value(le_bytes(value)) == value,
{
    let v = value as int;
    let q1 = v / 0x100;
    let q2 = q1 / 0x100;
    let q3 = q2 / 0x100;
    let q4 = q3 / 0x100;
    let q5 = q4 / 0x100;
    let q6 = q5 / 0x100;
    let q7 = q6 / 0x100;
    assert(v / 0x1_0000 == q2);
    assert(v / 0x100_0000 == q3);
    assert(v / 0x1_0000_0000 == q4);
    assert(v / 0x100_0000_0000 == q5);
    assert(v / 0x1_0000_0000_0000 == q6);
    assert(v / 0x100_0000_0000_0000 == q7);
    assert(q7 < 0x100);
    let bytes = le_bytes(value);
    assert(bytes[0] == v % 0x100);
    assert(bytes[1] == q1 % 0x100);
    assert(bytes[2] == q2 % 0x100);
    assert(bytes[3] == q3 % 0x100);
    assert(bytes[4] == q4 % 0x100);
    assert(bytes[5] == q5 % 0x100);
    assert(bytes[6] == q6 % 0x100);
    assert(bytes[7] == q7);
}

/// Writing out the number that eight bytes stand for gives the same bytes.
pub proof fn lemma_le_bytes_of_value(bytes: Seq<u8>)
    requires
        bytes.len() == 8,
    ensures
        le_bytes(le_value(bytes) as u64) == bytes,
{
    let v = le_value(bytes);
    let q7 = bytes[7] as int;
    let q6 = q7 * 0x100 + bytes[6];
    let q5 = q6 * 0x100 + bytes[5];
    let q4 = q5 * 0x100 + bytes[4];
    let q3 = q4 * 0x100 + bytes[3];
    let q2 = q3 * 0x100 + bytes[2];
    let q1 = q2 * 0x100 + bytes[1];
    assert(v == q1 * 0x100 + bytes[0]);
    assert(v / 0x100 == q1 && v % 0x100 == bytes[0]);
    assert(v / 0x1_0000 == q2 && q1 % 0x100 == bytes[1]);
    assert(v / 0x100_0000 == q3 && q2 % 0x100 == bytes[2]);
    assert(v / 0x1_0000_0000 == q4 && q3 % 0x100 == bytes[3]);
    assert(v / 0x100_0000_0000 == q5 && q4 % 0x100 == bytes[4]);
    assert(v / 0x1_0000_0000_0000 == q6 && q5 % 0x100 == bytes[5]);
    assert(v / 0x100_0000_0000_0000 == q7 && q6 % 0x100 == bytes[6]);
    assert(le_bytes(v as u64) =~= bytes);
}

/// Reads a 64-bit integer from the first eight bytes of `bytes`.
pub fn read_u64(bytes: &[u8]) -> (value: u64)
    requires
        bytes@.len() >= 8,
    ensures
        value == le_value(bytes@.subrange(0, 8)),
{
    let b0: u64 = bytes[0] as u64;
    let b1: u64 = bytes[1] as u64;
    let b2: u64 = bytes[2] as u64;
    let b3: u64 = bytes[3] as u64;
    let b4: u64 = bytes[4] as u64;
    let b5: u64 = bytes[5] as u64;
    let b6: u64 = bytes[6] as u64;
    let b7: u64 = bytes[7] as u64;
    b0 + b1 * 0x100 + b2 * 0x1_0000 + b3 * 0x100_0000 + b4 * 0x1_0000_0000 + b5 * 0x100_0000_0000
        + b6 * 0x1_0000_0000_0000 + b7 * 0x100_0000_0000_0000
}

/// Appends the eight bytes of `value` to `buf`.
pub fn write_u64(buf: &mut Vec<u8>, value: u64)
    ensures
        final(buf)@ == old(buf)@ + le_bytes(value),
{
    buf.push((value % 0x100) as u8);
    buf.push((value / 0x100 % 0x100) as u8);
    buf.push((value / 0x1_0000 % 0x100) as u8);
    buf.push((value / 0x100_0000 % 0x100) as u8);
    buf.push((value / 0x1_0000_0000 % 0x100) as u8);
    buf.push((value / 0x100_0000_0000 % 0x100) as u8);
    buf.push((value / 0x1_0000_0000_0000 % 0x100) as u8);
    buf.push((value / 0x100_0000_0000_0000 % 0x100) as u8);
}

} // verus!
