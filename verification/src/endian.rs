//! Little-endian encoding of unsigned integers.
//!
//! The arithmetic meaning of the encoding is given by [`le_value`] and
//! [`le_bytes`]; the conversions themselves are done by the `byteorder`
//! crate, whose functions are trusted to agree with those two definitions.
use byteorder::ByteOrder;
use byteorder::LittleEndian;
use vstd::arithmetic::div_mod::lemma_fundamental_div_mod;
use vstd::arithmetic::div_mod::lemma_mod_breakdown;
use vstd::prelude::*;

verus! {

/// The number that `bytes` spell, least significant byte first.
pub open spec fn le_value(bytes: Seq<u8>) -> nat
    decreases bytes.len(),
{
    if bytes.len() == 0 {
        0
    } else {
        bytes[0] as nat + 256 * le_value(bytes.drop_first())
    }
}

/// The `width` low-order bytes of `v`, least significant byte first.
pub open spec fn le_bytes(v: nat, width: nat) -> Seq<u8>
    decreases width,
{
    if width == 0 {
        Seq::empty()
    } else {
        seq![(v % 256) as u8] + le_bytes(v / 256, (width - 1) as nat)
    }
}

/// `256^width`: the number of values that `width` bytes can spell.
pub open spec fn radix(width: nat) -> nat
    decreases width,
{
    if width == 0 {
        1
    } else {
        256 * radix((width - 1) as nat)
    }
}

/// Every radix is positive.
pub proof fn lemma_radix_positive(width: nat)
    ensures
        radix(width) > 0,
    decreases width,
{
    if width > 0 {
        lemma_radix_positive((width - 1) as nat);
    }
}

/// The radices of the four access widths of the machine.
pub proof fn lemma_radix_values()
    ensures
        radix(1) == 0x100,
        radix(2) == 0x1_0000,
        radix(4) == 0x1_0000_0000,
        radix(8) == 0x1_0000_0000_0000_0000,
{
    reveal_with_fuel(radix, 9);
}

/// An encoding of `width` bytes has `width` bytes.
pub proof fn lemma_le_bytes_len(v: nat, width: nat)
    ensures
        le_bytes(v, width).len() == width,
    decreases width,
{
    if width > 0 {
        lemma_le_bytes_len(v / 256, (width - 1) as nat);
    }
}

/// Decoding what was encoded gives the number back, reduced to the width.
pub proof fn lemma_le_round_trip(v: nat, width: nat)
    ensures
        le_value(le_bytes(v, width)) == v % radix(width),
    decreases width,
{
    if width == 0 {
    } else {
        let rest = le_bytes(v / 256, (width - 1) as nat);
        let all = le_bytes(v, width);
        let m = radix((width - 1) as nat);
        lemma_le_round_trip(v / 256, (width - 1) as nat);
        lemma_radix_positive((width - 1) as nat);
        assert(all.drop_first() =~= rest);
        assert(all[0] == (v % 256) as u8);
        lemma_mod_breakdown(v as int, 256, m as int);
        assert(v % 256 < 256) by {
            lemma_fundamental_div_mod(v as int, 256);
        }
    }
}

/// `byteorder::LittleEndian::read_u16`: the number spelled by the first two
/// bytes of `buf`. The function panics on a shorter buffer.
#[verifier::external_body]
pub(crate) fn read_u16_le(buf: &[u8]) -> (v: u16)
    requires
        buf@.len() >= 2,
    ensures
        v as nat == le_value(buf@.subrange(0, 2)),
{
    LittleEndian::read_u16(buf)
}

/// `byteorder::LittleEndian::read_u32`: the number spelled by the first four
/// bytes of `buf`. The function panics on a shorter buffer.
#[verifier::external_body]
pub(crate) fn read_u32_le(buf: &[u8]) -> (v: u32)
    requires
        buf@.len() >= 4,
    ensures
        v as nat == le_value(buf@.subrange(0, 4)),
{
    LittleEndian::read_u32(buf)
}

/// `byteorder::LittleEndian::read_u64`: the number spelled by the first
/// eight bytes of `buf`. The function panics on a shorter buffer.
#[verifier::external_body]
pub(crate) fn read_u64_le(buf: &[u8]) -> (v: u64)
    requires
        buf@.len() >= 8,
    ensures
        v as nat == le_value(buf@.subrange(0, 8)),
{
    LittleEndian::read_u64(buf)
}

/// `byteorder::LittleEndian::write_u16`: overwrites the first two bytes of
/// `buf` with the encoding of `v` and leaves the rest alone. The function
/// panics on a shorter buffer.
#[verifier::external_body]
pub(crate) fn write_u16_le(buf: &mut [u8], v: u16)
    requires
        old(buf)@.len() >= 2,
    ensures
        final(buf)@ == le_bytes(v as nat, 2) + old(buf)@.subrange(2, old(buf)@.len() as int),
{
    LittleEndian::write_u16(buf, v)
}

/// `byteorder::LittleEndian::write_u32`: overwrites the first four bytes of
/// `buf` with the encoding of `v` and leaves the rest alone. The function
/// panics on a shorter buffer.
#[verifier::external_body]
pub(crate) fn write_u32_le(buf: &mut [u8], v: u32)
    requires
        old(buf)@.len() >= 4,
    ensures
        final(buf)@ == le_bytes(v as nat, 4) + old(buf)@.subrange(4, old(buf)@.len() as int),
{
    LittleEndian::write_u32(buf, v)
}

/// `byteorder::LittleEndian::write_u64`: overwrites the first eight bytes of
/// `buf` with the encoding of `v` and leaves the rest alone. The function
/// panics on a shorter buffer.
#[verifier::external_body]
pub(crate) fn write_u64_le(buf: &mut [u8], v: u64)
    requires
        old(buf)@.len() >= 8,
    ensures
        final(buf)@ == le_bytes(v as nat, 8) + old(buf)@.subrange(8, old(buf)@.len() as int),
{
    LittleEndian::write_u64(buf, v)
}

} // verus!
