//! Little-endian numbers: what their bytes are, and the calls that encode and
//! decode them.

use byteorder::{ByteOrder, LittleEndian, WriteBytesExt};
use vstd::prelude::*;
use vstd::slice::slice_subrange;

verus! {

/// The `width` little-endian bytes of `value`: least significant byte first.
pub open spec fn le_bytes(value: nat, width: nat) -> Seq<u8>
    decreases width,
{
    if width == 0 {
        Seq::empty()
    } else {
        seq![(value % 256) as u8] + le_bytes(value / 256, (width - 1) as nat)
    }
}

/// The number whose little-endian bytes are `bytes`.
pub open spec fn le_value(bytes: Seq<u8>) -> nat
    decreases bytes.len(),
{
    if bytes.len() == 0 {
        0
    } else {
        bytes[0] as nat + 256 * le_value(bytes.drop_first())
    }
}

/// The number of values that `width` bytes can tell apart: 256 to the power
/// `width`.
pub open spec fn radix(width: nat) -> nat
    decreases width,
{
    if width == 0 {
        1
    } else {
        256 * radix((width - 1) as nat)
    }
}

/// An encoding has exactly as many bytes as were asked for.
pub broadcast proof fn lemma_le_bytes_len(value: nat, width: nat)
    ensures
        #[trigger] le_bytes(value, width).len() == width,
    decreases width,
{
    if width > 0 {
        lemma_le_bytes_len(value / 256, (width - 1) as nat);
    }
}

/// Decoding undoes encoding for every value that fits into `width` bytes.
pub proof fn lemma_le_round_trip(value: nat, width: nat)
    requires
        value < radix(width),
    ensures
        le_value(le_bytes(value, width)) == value,
    decreases width,
{
    if width > 0 {
        let rest = le_bytes(value / 256, (width - 1) as nat);
        let all = le_bytes(value, width);
        lemma_le_bytes_len(value / 256, (width - 1) as nat);
        assert(all.drop_first() =~= rest);
        lemma_le_round_trip(value / 256, (width - 1) as nat);
    }
}

/// The radices of the three field widths of the format.
pub proof fn lemma_radix_values()
    ensures
        radix(2) == 0x1_0000,
        radix(4) == 0x1_0000_0000,
        radix(8) == 0x1_0000_0000_0000_0000,
{
    reveal_with_fuel(radix, 9);
}

/// Appends the two little-endian bytes of `value` with
/// `byteorder::WriteBytesExt::write_u16::<LittleEndian>`, which encodes the
/// number into a two-byte array and hands it to `write_all`; on a `Vec<u8>`
/// that appends the bytes and cannot fail.
#[verifier::external_body]
pub(crate) fn put_u16(out: &mut Vec<u8>, value: u16)
    ensures
        final(out)@ == old(out)@ + le_bytes(value as nat, 2),
{
    out.write_u16::<LittleEndian>(value).unwrap();
}

/// Appends the four little-endian bytes of `value` with
/// `byteorder::WriteBytesExt::write_u32::<LittleEndian>`, as `put_u16` does
/// for two.
#[verifier::external_body]
pub(crate) fn put_u32(out: &mut Vec<u8>, value: u32)
    ensures
        final(out)@ == old(out)@ + le_bytes(value as nat, 4),
{
    out.write_u32::<LittleEndian>(value).unwrap();
}

/// Appends the eight little-endian bytes of `value` with
/// `byteorder::WriteBytesExt::write_u64::<LittleEndian>`, as `put_u16` does
/// for two.
#[verifier::external_body]
pub(crate) fn put_u64(out: &mut Vec<u8>, value: u64)
    ensures
        final(out)@ == old(out)@ + le_bytes(value as nat, 8),
{
    out.write_u64::<LittleEndian>(value).unwrap();
}

/// Decodes a two-byte field with `byteorder::LittleEndian::read_u16`, which
/// reads the first two bytes of the slice as a little-endian number and
/// panics on a shorter slice.
#[verifier::external_body]
pub(crate) fn get_u16(field: &[u8]) -> (value: u16)
    requires
        field@.len() == 2,
    ensures
        value as nat == le_value(field@),
{
    LittleEndian::read_u16(field)
}

/// Decodes a four-byte field with `byteorder::LittleEndian::read_u32`, as
/// `get_u16` does for two.
#[verifier::external_body]
pub(crate) fn get_u32(field: &[u8]) -> (value: u32)
    requires
        field@.len() == 4,
    ensures
        value as nat == le_value(field@),
{
    LittleEndian::read_u32(field)
}

/// Decodes an eight-byte field with `byteorder::LittleEndian::read_u64`, as
/// `get_u16` does for two.
#[verifier::external_body]
pub(crate) fn get_u64(field: &[u8]) -> (value: u64)
    requires
        field@.len() == 8,
    ensures
        value as nat == le_value(field@),
{
    LittleEndian::read_u64(field)
}

/// A 16-bit number comes back from its two bytes.
pub proof fn lemma_u16_round_trip(value: u16)
    ensures
        le_value(le_bytes(value as nat, 2)) == value,
{
    lemma_radix_values();
    lemma_le_round_trip(value as nat, 2);
}

/// A 32-bit number comes back from its four bytes.
pub proof fn lemma_u32_round_trip(value: u32)
    ensures
        le_value(le_bytes(value as nat, 4)) == value,
{
    lemma_radix_values();
    lemma_le_round_trip(value as nat, 4);
}

/// A 64-bit number comes back from its eight bytes.
pub proof fn lemma_u64_round_trip(value: u64)
    ensures
        le_value(le_bytes(value as nat, 8)) == value,
{
    lemma_radix_values();
    lemma_le_round_trip(value as nat, 8);
}

/// Two bytes encode the first plus 256 times the second, so two pairs that
/// encode the same number are the same.
pub proof fn lemma_le_value_pair(bytes: Seq<u8>)
    requires
        bytes.len() == 2,
    ensures
        le_value(bytes) == bytes[0] + 256 * bytes[1],
{
    reveal_with_fuel(le_value, 3);
    assert(bytes.drop_first().len() == 1);
    assert(bytes.drop_first()[0] == bytes[1]);
    assert(bytes.drop_first().drop_first().len() == 0);
}

/// The number that the `width` bytes of `bytes` from `at` on encode.
pub open spec fn field_value(bytes: Seq<u8>, at: int, width: int) -> nat {
    le_value(bytes.subrange(at, at + width))
}

/// A field of a section is the same field of any sequence that holds the
/// section: only the offset moves by the section's start.
pub proof fn lemma_field_in_section(
    bytes: Seq<u8>,
    start: int,
    section: Seq<u8>,
    at: int,
    width: int,
)
    requires
        0 <= start,
        start + section.len() <= bytes.len(),
        bytes.subrange(start, start + section.len()) == section,
        0 <= at,
        0 <= width,
        at + width <= section.len(),
    ensures
        field_value(bytes, start + at, width) == field_value(section, at, width),
{
    assert(bytes.subrange(start + at, start + at + width) =~= section.subrange(at, at + width));
}

/// Reads the 16-bit field that starts at `at`.
pub fn read_u16_at(bytes: &[u8], at: usize) -> (value: u16)
    requires
        at + 2 <= bytes.len(),
    ensures
        value as nat == field_value(bytes@, at as int, 2),
{
    get_u16(slice_subrange(bytes, at, at + 2))
}

/// Reads the 32-bit field that starts at `at`.
pub fn read_u32_at(bytes: &[u8], at: usize) -> (value: u32)
    requires
        at + 4 <= bytes.len(),
    ensures
        value as nat == field_value(bytes@, at as int, 4),
{
    get_u32(slice_subrange(bytes, at, at + 4))
}

/// Reads the 64-bit field that starts at `at`.
pub fn read_u64_at(bytes: &[u8], at: usize) -> (value: u64)
    requires
        at + 8 <= bytes.len(),
    ensures
        value as nat == field_value(bytes@, at as int, 8),
{
    get_u64(slice_subrange(bytes, at, at + 8))
}

} // verus!
