//! Numbers in network byte order, as the length of a frame is written.

use vstd::prelude::*;

verus! {

/// The number that two bytes stand for, the high byte first.
pub open spec fn be_u16(bytes: Seq<u8>) -> nat {
    (bytes[0] * 0x100 + bytes[1]) as nat
}

/// The number that four bytes stand for, the highest byte first.
pub open spec fn be_u32(bytes: Seq<u8>) -> nat {
    be_u16(bytes.subrange(0, 2)) * 0x1_0000 + be_u16(bytes.subrange(2, 4))
}

/// The number that eight bytes stand for, the highest byte first.
pub open spec fn be_u64(bytes: Seq<u8>) -> nat {
    be_u32(bytes.subrange(0, 4)) * 0x1_0000_0000 + be_u32(bytes.subrange(4, 8))
}

/// The two bytes that stand for a number below 2^16, the high byte first.
pub open spec fn u16_be_bytes(value: nat) -> Seq<u8> {
    seq![(value / 0x100) as u8, (value % 0x100) as u8]
}

/// The four bytes that stand for a number below 2^32, the highest byte first.
pub open spec fn u32_be_bytes(value: nat) -> Seq<u8> {
    u16_be_bytes(value / 0x1_0000) + u16_be_bytes(value % 0x1_0000)
}

/// The eight bytes that stand for a number below 2^64, the highest byte
/// first.
pub open spec fn u64_be_bytes(value: nat) -> Seq<u8> {
    u32_be_bytes(value / 0x1_0000_0000) + u32_be_bytes(value % 0x1_0000_0000)
}

/// Reading back the two bytes written for a number gives the number.
pub proof fn lemma_be_u16_round_trip(value: nat)
    requires
        value < 0x1_0000,
    ensures
        u16_be_bytes(value).len() == 2,
        be_u16(u16_be_bytes(value)) == value,
{
}

/// Reading back the four bytes written for a number gives the number.
pub proof fn lemma_be_u32_round_trip(value: nat)
    requires
        value < 0x1_0000_0000,
    ensures
        u32_be_bytes(value).len() == 4,
        be_u32(u32_be_bytes(value)) == value,
{
    let high = u16_be_bytes(value / 0x1_0000);
    let low = u16_be_bytes(value % 0x1_0000);
    lemma_be_u16_round_trip(value / 0x1_0000);
    lemma_be_u16_round_trip(value % 0x1_0000);
    assert((high + low).subrange(0, 2) =~= high);
    assert((high + low).subrange(2, 4) =~= low);
}

/// Reading back the eight bytes written for a number gives the number.
pub proof fn lemma_be_u64_round_trip(value: nat)
    requires
        value < 0x1_0000_0000_0000_0000,
    ensures
        u64_be_bytes(value).len() == 8,
        be_u64(u64_be_bytes(value)) == value,
{
    let high = u32_be_bytes(value / 0x1_0000_0000);
    let low = u32_be_bytes(value % 0x1_0000_0000);
    lemma_be_u32_round_trip(value / 0x1_0000_0000);
    lemma_be_u32_round_trip(value % 0x1_0000_0000);
    assert((high + low).subrange(0, 4) =~= high);
    assert((high + low).subrange(4, 8) =~= low);
}

/// Reads the number that the two bytes at `at` stand for.
pub(crate) fn read_be_u16(buf: &[u8], at: usize) -> (value: u16)
    requires
        at + 2 <= buf.len(),
    ensures
        value == be_u16(buf@.subrange(at as int, at + 2)),
{
    let high: u16 = buf[at] as u16;
    let low: u16 = buf[at + 1] as u16;
    high * 0x100 + low
}

/// Reads the number that the four bytes at `at` stand for.
pub(crate) fn read_be_u32(buf: &[u8], at: usize) -> (value: u32)
    requires
        at + 4 <= buf.len(),
    ensures
        value == be_u32(buf@.subrange(at as int, at + 4)),
{
    let high: u32 = read_be_u16(buf, at) as u32;
    let low: u32 = read_be_u16(buf, at + 2) as u32;
    proof {
        let four = buf@.subrange(at as int, at + 4);
        assert(four.subrange(0, 2) =~= buf@.subrange(at as int, at + 2));
        assert(four.subrange(2, 4) =~= buf@.subrange(at + 2, at + 4));
    }
    high * 0x1_0000 + low
}

/// Reads the number that the eight bytes at `at` stand for.
pub(crate) fn read_be_u64(buf: &[u8], at: usize) -> (value: u64)
    requires
        at + 8 <= buf.len(),
    ensures
        value == be_u64(buf@.subrange(at as int, at + 8)),
{
    let high: u64 = read_be_u32(buf, at) as u64;
    let low: u64 = read_be_u32(buf, at + 4) as u64;
    proof {
        let eight = buf@.subrange(at as int, at + 8);
        assert(eight.subrange(0, 4) =~= buf@.subrange(at as int, at + 4));
        assert(eight.subrange(4, 8) =~= buf@.subrange(at + 4, at + 8));
    }
    high * 0x1_0000_0000 + low
}

/// Appends the two bytes that stand for `value`.
pub(crate) fn push_be_u16(out: &mut Vec<u8>, value: u16)
    ensures
        final(out)@ == old(out)@ + u16_be_bytes(value as nat),
{
    out.push((value / 0x100) as u8);
    out.push((value % 0x100) as u8);
    assert(out@ =~= old(out)@ + u16_be_bytes(value as nat));
}

/// Appends the four bytes that stand for `value`.
pub(crate) fn push_be_u32(out: &mut Vec<u8>, value: u32)
    ensures
        final(out)@ == old(out)@ + u32_be_bytes(value as nat),
{
    push_be_u16(out, (value / 0x1_0000) as u16);
    push_be_u16(out, (value % 0x1_0000) as u16);
    assert(out@ =~= old(out)@ + u32_be_bytes(value as nat));
}

/// Appends the eight bytes that stand for `value`.
pub(crate) fn push_be_u64(out: &mut Vec<u8>, value: u64)
    ensures
        final(out)@ == old(out)@ + u64_be_bytes(value as nat),
{
    push_be_u32(out, (value / 0x1_0000_0000) as u32);
    push_be_u32(out, (value % 0x1_0000_0000) as u32);
    assert(out@ =~= old(out)@ + u64_be_bytes(value as nat));
}

} // verus!
