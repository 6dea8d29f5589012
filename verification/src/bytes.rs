//! Little-endian byte encodings shared by every wire format of the project.
//!
//! The spec functions below describe the encodings arithmetically; the exec
//! functions compute them without bit tricks so that each step is checked.

use vstd::prelude::*;

verus! {

/// Value of two little-endian bytes read as an unsigned 16-bit integer.
pub open spec fn u16_le(lo: u8, hi: u8) -> int {
    lo + 256 * hi
}

/// Value of two little-endian bytes read as a two's-complement 16-bit integer.
pub open spec fn i16_le(lo: u8, hi: u8) -> int {
    if u16_le(lo, hi) < 0x8000 {
        u16_le(lo, hi)
    } else {
        u16_le(lo, hi) - 0x1_0000
    }
}

/// Value of four little-endian bytes read as an unsigned 32-bit integer.
pub open spec fn u32_le(b0: u8, b1: u8, b2: u8, b3: u8) -> int {
    b0 + 0x100 * b1 + 0x1_0000 * b2 + 0x100_0000 * b3
}

/// The unsigned 16-bit pattern that stores a signed 16-bit value.
pub open spec fn i16_bits(v: i16) -> int {
    if v >= 0 {
        v as int
    } else {
        v + 0x1_0000
    }
}

/// Low byte of an unsigned 16-bit value.
pub open spec fn u16_lo(v: u16) -> u8 {
    (v % 256) as u8
}

/// High byte of an unsigned 16-bit value.
pub open spec fn u16_hi(v: u16) -> u8 {
    (v / 256) as u8
}

/// Low byte of the two's-complement pattern of a signed 16-bit value.
pub open spec fn i16_lo(v: i16) -> u8 {
    (i16_bits(v) % 256) as u8
}

/// High byte of the two's-complement pattern of a signed 16-bit value.
pub open spec fn i16_hi(v: i16) -> u8 {
    (i16_bits(v) / 256) as u8
}

/// Decode an unsigned 16-bit little-endian value.
pub fn u16_from_le(lo: u8, hi: u8) -> (r: u16)
    ensures
        r == u16_le(lo, hi),
{
    lo as u16 + (hi as u16) * 256
}

/// Decode a signed 16-bit little-endian value.
pub fn i16_from_le(lo: u8, hi: u8) -> (r: i16)
    ensures
        r == i16_le(lo, hi),
{
    let u = u16_from_le(lo, hi);
    if u < 0x8000 {
        u as i16
    } else {
        (u as i32 - 0x1_0000) as i16
    }
}

/// Decode an unsigned 32-bit little-endian value.
pub fn u32_from_le(b0: u8, b1: u8, b2: u8, b3: u8) -> (r: u32)
    ensures
        r == u32_le(b0, b1, b2, b3),
{
    b0 as u32 + (b1 as u32) * 0x100 + (b2 as u32) * 0x1_0000 + (b3 as u32) * 0x100_0000
}

/// Encode an unsigned 16-bit value as (low byte, high byte).
pub fn u16_to_le(v: u16) -> (r: (u8, u8))
    ensures
        r.0 == u16_lo(v),
        r.1 == u16_hi(v),
        u16_le(r.0, r.1) == v,
{
    ((v % 256) as u8, (v / 256) as u8)
}

/// Encode a signed 16-bit value as (low byte, high byte) of its two's-complement pattern.
pub fn i16_to_le(v: i16) -> (r: (u8, u8))
    ensures
        r.0 == i16_lo(v),
        r.1 == i16_hi(v),
        i16_le(r.0, r.1) == v,
{
    let u: u16 = if v >= 0 {
        v as u16
    } else {
        (v as i32 + 0x1_0000) as u16
    };
    u16_to_le(u)
}

/// Encode an unsigned 32-bit value as four little-endian bytes.
pub fn u32_to_le(v: u32) -> (r: (u8, u8, u8, u8))
    ensures
        r.0 == v % 0x100,
        r.1 == (v / 0x100) % 0x100,
        r.2 == (v / 0x1_0000) % 0x100,
        r.3 == v / 0x100_0000,
        u32_le(r.0, r.1, r.2, r.3) == v,
{
    (
        (v % 0x100) as u8,
        ((v / 0x100) % 0x100) as u8,
        ((v / 0x1_0000) % 0x100) as u8,
        (v / 0x100_0000) as u8,
    )
}

/// Reading back the two bytes of a signed 16-bit value gives the value.
pub proof fn lemma_i16_bytes(v: i16)
    ensures
        i16_le(i16_lo(v), i16_hi(v)) == v,
{
    let b = i16_bits(v);
    assert(0 <= b < 0x1_0000);
    assert((b % 256) + 256 * (b / 256) == b);
}

/// Reading back the two bytes of an unsigned 16-bit value gives the value.
pub proof fn lemma_u16_bytes(v: u16)
    ensures
        u16_le(u16_lo(v), u16_hi(v)) == v,
{
    assert((v % 256) + 256 * (v / 256) == v);
}

} // verus!
