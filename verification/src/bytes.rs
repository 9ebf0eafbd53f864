//! Big-endian integers in byte strings.
//!
//! Every multi-byte integer of the atom format is stored most significant
//! byte first. The spec functions here say which number a run of bytes
//! stands for; the executable readers compute exactly that number.

use vstd::prelude::*;

verus! {

/// The number that the two bytes of `s` beginning at `at` stand for.
pub open spec fn be_u16(s: Seq<u8>, at: int) -> nat {
    (s[at] as nat) * 0x100 + (s[at + 1] as nat)
}

/// The number that the three bytes of `s` beginning at `at` stand for.
pub open spec fn be_u24(s: Seq<u8>, at: int) -> nat {
    (s[at] as nat) * 0x1_0000 + (s[at + 1] as nat) * 0x100 + (s[at + 2] as nat)
}

/// The number that the four bytes of `s` beginning at `at` stand for.
pub open spec fn be_u32(s: Seq<u8>, at: int) -> nat {
    (s[at] as nat) * 0x100_0000 + (s[at + 1] as nat) * 0x1_0000 + (s[at + 2] as nat) * 0x100 + (s[at
        + 3] as nat)
}

/// The number that the eight bytes of `s` beginning at `at` stand for.
pub open spec fn be_u64(s: Seq<u8>, at: int) -> nat {
    be_u32(s, at) * 0x1_0000_0000 + be_u32(s, at + 4)
}

/// The four bytes that store `value`, most significant first.
pub open spec fn be_bytes_u32(value: nat) -> Seq<u8> {
    seq![
        (value / 0x100_0000 % 0x100) as u8,
        (value / 0x1_0000 % 0x100) as u8,
        (value / 0x100 % 0x100) as u8,
        (value % 0x100) as u8,
    ]
}

/// The eight bytes that store `value`, most significant first.
pub open spec fn be_bytes_u64(value: nat) -> Seq<u8> {
    be_bytes_u32(value / 0x1_0000_0000) + be_bytes_u32(value % 0x1_0000_0000)
}

/// Reading back the four bytes written for a 32-bit number gives the number.
pub proof fn lemma_be_u32_round_trip(value: nat)
    requires
        value <= u32::MAX,
    ensures
        be_bytes_u32(value).len() == 4,
        be_u32(be_bytes_u32(value), 0) == value,
{
}

/// Reading back the eight bytes written for a 64-bit number gives the number.
pub proof fn lemma_be_u64_round_trip(value: nat)
    requires
        value <= u64::MAX,
    ensures
        be_bytes_u64(value).len() == 8,
        be_u64(be_bytes_u64(value), 0) == value,
{
    let hi = value / 0x1_0000_0000;
    let lo = value % 0x1_0000_0000;
    lemma_be_u32_round_trip(hi);
    lemma_be_u32_round_trip(lo);
}

/// Reads a big-endian 16-bit number at offset `at`.
pub fn u16_from_be(bytes: &[u8], at: usize) -> (value: u16)
    requires
        at + 2 <= bytes@.len(),
    ensures
        value == be_u16(bytes@, at as int),
{
    let hi: u16 = bytes[at] as u16;
    let lo: u16 = bytes[at + 1] as u16;
    hi * 0x100 + lo
}

/// Reads a big-endian 24-bit number at offset `at`.
pub fn u24_from_be(bytes: &[u8], at: usize) -> (value: u32)
    requires
        at + 3 <= bytes@.len(),
    ensures
        value == be_u24(bytes@, at as int),
{
    let b0: u32 = bytes[at] as u32;
    let b1: u32 = bytes[at + 1] as u32;
    let b2: u32 = bytes[at + 2] as u32;
    b0 * 0x1_0000 + b1 * 0x100 + b2
}

/// Reads a big-endian 32-bit number at offset `at`.
pub fn u32_from_be(bytes: &[u8], at: usize) -> (value: u32)
    requires
        at + 4 <= bytes@.len(),
    ensures
        value == be_u32(bytes@, at as int),
{
    let b0: u32 = bytes[at] as u32;
    let b1: u32 = bytes[at + 1] as u32;
    let b2: u32 = bytes[at + 2] as u32;
    let b3: u32 = bytes[at + 3] as u32;
    b0 * 0x100_0000 + b1 * 0x1_0000 + b2 * 0x100 + b3
}

/// Reads a big-endian 64-bit number at offset `at`.
pub fn u64_from_be(bytes: &[u8], at: usize) -> (value: u64)
    requires
        at + 8 <= bytes@.len(),
    ensures
        value == be_u64(bytes@, at as int),
{
    let len: usize = bytes.len();
    assert(at + 8 <= len);
    let hi: u64 = u32_from_be(bytes, at) as u64;
    let lo: u64 = u32_from_be(bytes, at + 4) as u64;
    hi * 0x1_0000_0000 + lo
}

/// A copy of the bytes from offset `from` up to, not including, offset `to`.
pub fn copy_range(bytes: &[u8], from: usize, to: usize) -> (copy: Vec<u8>)
    requires
        from <= to <= bytes@.len(),
    ensures
        copy@ == bytes@.subrange(from as int, to as int),
{
    let mut copy: Vec<u8> = Vec::new();
    let mut at: usize = from;
    while at < to
        invariant
            from <= at <= to <= bytes@.len(),
            copy@ == bytes@.subrange(from as int, at as int),
        decreases to - at,
    {
        copy.push(bytes[at]);
        at = at + 1;
    }
    copy
}

/// The four bytes of a 32-bit number, most significant first.
pub fn u32_to_be(value: u32) -> (bytes: [u8; 4])
    ensures
        bytes@ == be_bytes_u32(value as nat),
{
    [
        (value / 0x100_0000) as u8,
        (value / 0x1_0000 % 0x100) as u8,
        (value / 0x100 % 0x100) as u8,
        (value % 0x100) as u8,
    ]
}

} // verus!
