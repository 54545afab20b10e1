//! Big-endian byte access into byte buffers, as the vector unit sees its
//! registers and its data memory.
//!
//! The executable reads and writes go through the `byteorder` crate; the
//! spec functions here say exactly which bytes they touch and what value
//! they produce.

use byteorder::ByteOrder;
use vstd::prelude::*;

verus! {

/// The big-endian 16-bit value of two bytes: what one vector-register lane
/// holds.
pub open spec fn be16(hi: u8, lo: u8) -> u16 {
    (((hi as u16) << 8u16) | (lo as u16)) as u16
}

/// Byte `k` (most-significant first, `0 <= k < 16`) of a 128-bit value.
pub open spec fn be128_byte(v: u128, k: int) -> u8 {
    (v >> ((8 * (15 - k)) as u128)) as u8
}

/// The big-endian 128-bit value of the 16 bytes of `s` starting at `off`.
pub open spec fn be128_at(s: Seq<u8>, off: int) -> u128 {
    ((s[off] as u128) << 120u128) | ((s[off + 1] as u128) << 112u128)
        | ((s[off + 2] as u128) << 104u128) | ((s[off + 3] as u128) << 96u128)
        | ((s[off + 4] as u128) << 88u128) | ((s[off + 5] as u128) << 80u128)
        | ((s[off + 6] as u128) << 72u128) | ((s[off + 7] as u128) << 64u128)
        | ((s[off + 8] as u128) << 56u128) | ((s[off + 9] as u128) << 48u128)
        | ((s[off + 10] as u128) << 40u128) | ((s[off + 11] as u128) << 32u128)
        | ((s[off + 12] as u128) << 24u128) | ((s[off + 13] as u128) << 16u128)
        | ((s[off + 14] as u128) << 8u128) | (s[off + 15] as u128)
}

/// Relies on byteorder::BigEndian::read_u16: the big-endian 16-bit value of
/// the two bytes at `off`.
#[verifier::external_body]
pub(crate) fn be_read_u16(buf: &Vec<u8>, off: usize) -> (r: u16)
    requires
        off + 2 <= buf.len(),
    ensures
        r == be16(buf[off as int], buf[off as int + 1]),
{
    byteorder::BigEndian::read_u16(&buf[off..off + 2])
}

/// Relies on byteorder::BigEndian::write_u16: writes `v` as two big-endian
/// bytes at `off`, touching nothing else.
#[verifier::external_body]
pub(crate) fn be_write_u16(buf: &mut Vec<u8>, off: usize, v: u16)
    requires
        off + 2 <= old(buf).len(),
    ensures
        final(buf)@ == old(buf)@.update(off as int, (v >> 8u16) as u8).update(
            off as int + 1,
            v as u8,
        ),
{
    byteorder::BigEndian::write_u16(&mut buf[off..off + 2], v)
}

/// Relies on byteorder::BigEndian::read_u128: the big-endian 128-bit value
/// of the 16 bytes at `off`.
#[verifier::external_body]
pub(crate) fn be_read_u128(buf: &Vec<u8>, off: usize) -> (r: u128)
    requires
        off + 16 <= buf.len(),
    ensures
        r == be128_at(buf@, off as int),
{
    byteorder::BigEndian::read_u128(&buf[off..off + 16])
}

/// Relies on byteorder::BigEndian::write_u128: writes `v` as 16 big-endian
/// bytes at `off`, touching nothing else.
#[verifier::external_body]
pub(crate) fn be_write_u128(buf: &mut Vec<u8>, off: usize, v: u128)
    requires
        off + 16 <= old(buf).len(),
    ensures
        final(buf)@.len() == old(buf)@.len(),
        forall|j: int|
            0 <= j < old(buf)@.len() ==> final(buf)@[j] == (if off <= j < off + 16 {
                be128_byte(v, j - off)
            } else {
                old(buf)@[j]
            }),
{
    byteorder::BigEndian::write_u128(&mut buf[off..off + 16], v)
}

/// Splitting a 16-bit value into its two bytes and reading them back
/// big-endian gives the value again, and the bytes of a packed pair are the
/// pair.
pub(crate) proof fn lemma_be16_roundtrip()
    by (bit_vector)
    ensures
        forall|v: u16| #[trigger] be16((v >> 8u16) as u8, v as u8) == v,
        forall|hi: u8, lo: u8| (#[trigger] be16(hi, lo) >> 8u16) as u8 == hi,
        forall|hi: u8, lo: u8| (#[trigger] be16(hi, lo)) as u8 == lo,
{
}

/// Splitting a 128-bit value into its 16 big-endian bytes and reassembling
/// them gives the value again.
proof fn lemma_be128_roundtrip(v: u128)
    by (bit_vector)
    ensures
        (((v >> 120u128) as u8 as u128) << 120u128) | (((v >> 112u128) as u8 as u128) << 112u128)
            | (((v >> 104u128) as u8 as u128) << 104u128) | (((v >> 96u128) as u8 as u128)
            << 96u128) | (((v >> 88u128) as u8 as u128) << 88u128) | (((v >> 80u128) as u8 as u128)
            << 80u128) | (((v >> 72u128) as u8 as u128) << 72u128) | (((v >> 64u128) as u8 as u128)
            << 64u128) | (((v >> 56u128) as u8 as u128) << 56u128) | (((v >> 48u128) as u8 as u128)
            << 48u128) | (((v >> 40u128) as u8 as u128) << 40u128) | (((v >> 32u128) as u8 as u128)
            << 32u128) | (((v >> 24u128) as u8 as u128) << 24u128) | (((v >> 16u128) as u8 as u128)
            << 16u128) | (((v >> 8u128) as u8 as u128) << 8u128) | (v as u8 as u128) == v,
{
}

/// Sixteen bytes that each equal the corresponding big-endian byte of `v`
/// reassemble to `v`.
pub(crate) proof fn lemma_be128_assemble(s: Seq<u8>, off: int, v: u128)
    requires
        forall|k: int| 0 <= k < 16 ==> s[off + k] == be128_byte(v, k),
    ensures
        be128_at(s, off) == v,
{
    lemma_be128_roundtrip(v);
    assert(v >> 0u128 == v) by (bit_vector);
    assert(((8 * (15 - 0)) as u128) == 120u128);
    assert(s[off + 0] == be128_byte(v, 0));
    assert(be128_byte(v, 0) == (v >> 120u128) as u8);
    assert(((8 * (15 - 1)) as u128) == 112u128);
    assert(s[off + 1] == be128_byte(v, 1));
    assert(be128_byte(v, 1) == (v >> 112u128) as u8);
    assert(((8 * (15 - 2)) as u128) == 104u128);
    assert(s[off + 2] == be128_byte(v, 2));
    assert(be128_byte(v, 2) == (v >> 104u128) as u8);
    assert(((8 * (15 - 3)) as u128) == 96u128);
    assert(s[off + 3] == be128_byte(v, 3));
    assert(be128_byte(v, 3) == (v >> 96u128) as u8);
    assert(((8 * (15 - 4)) as u128) == 88u128);
    assert(s[off + 4] == be128_byte(v, 4));
    assert(be128_byte(v, 4) == (v >> 88u128) as u8);
    assert(((8 * (15 - 5)) as u128) == 80u128);
    assert(s[off + 5] == be128_byte(v, 5));
    assert(be128_byte(v, 5) == (v >> 80u128) as u8);
    assert(((8 * (15 - 6)) as u128) == 72u128);
    assert(s[off + 6] == be128_byte(v, 6));
    assert(be128_byte(v, 6) == (v >> 72u128) as u8);
    assert(((8 * (15 - 7)) as u128) == 64u128);
    assert(s[off + 7] == be128_byte(v, 7));
    assert(be128_byte(v, 7) == (v >> 64u128) as u8);
    assert(((8 * (15 - 8)) as u128) == 56u128);
    assert(s[off + 8] == be128_byte(v, 8));
    assert(be128_byte(v, 8) == (v >> 56u128) as u8);
    assert(((8 * (15 - 9)) as u128) == 48u128);
    assert(s[off + 9] == be128_byte(v, 9));
    assert(be128_byte(v, 9) == (v >> 48u128) as u8);
    assert(((8 * (15 - 10)) as u128) == 40u128);
    assert(s[off + 10] == be128_byte(v, 10));
    assert(be128_byte(v, 10) == (v >> 40u128) as u8);
    assert(((8 * (15 - 11)) as u128) == 32u128);
    assert(s[off + 11] == be128_byte(v, 11));
    assert(be128_byte(v, 11) == (v >> 32u128) as u8);
    assert(((8 * (15 - 12)) as u128) == 24u128);
    assert(s[off + 12] == be128_byte(v, 12));
    assert(be128_byte(v, 12) == (v >> 24u128) as u8);
    assert(((8 * (15 - 13)) as u128) == 16u128);
    assert(s[off + 13] == be128_byte(v, 13));
    assert(be128_byte(v, 13) == (v >> 16u128) as u8);
    assert(((8 * (15 - 14)) as u128) == 8u128);
    assert(s[off + 14] == be128_byte(v, 14));
    assert(be128_byte(v, 14) == (v >> 8u128) as u8);
    assert(((8 * (15 - 15)) as u128) == 0u128);
    assert(s[off + 15] == be128_byte(v, 15));
    assert(be128_byte(v, 15) == v as u8);
}


} // verus!
