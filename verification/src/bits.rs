//! Byte- and word-level vocabulary shared by every contract in the crate:
//! wraparound arithmetic, splitting and composing 16-bit values, and the
//! packed flag bits of the F register.

use vstd::prelude::*;

verus! {

/// Mask of the Zero flag in the high nibble of F.
pub const FLAG_Z: u8 = 0x80;

/// Mask of the Subtract flag in the high nibble of F.
pub const FLAG_N: u8 = 0x40;

/// Mask of the Half-carry flag in the high nibble of F.
pub const FLAG_H: u8 = 0x20;

/// Mask of the Carry flag in the high nibble of F.
pub const FLAG_C: u8 = 0x10;

/// 8-bit addition with wraparound modulo 256.
pub open spec fn wrap_add8(x: u8, y: u8) -> u8 {
    if x + y > 0xFF {
        (x + y - 0x100) as u8
    } else {
        (x + y) as u8
    }
}

/// 8-bit subtraction with wraparound modulo 256.
pub open spec fn wrap_sub8(x: u8, y: u8) -> u8 {
    if x - y < 0 {
        (x - y + 0x100) as u8
    } else {
        (x - y) as u8
    }
}

/// 16-bit addition with wraparound modulo 65536.
pub open spec fn wrap_add16(x: u16, y: u16) -> u16 {
    if x + y > 0xFFFF {
        (x + y - 0x10000) as u16
    } else {
        (x + y) as u16
    }
}

/// 16-bit subtraction with wraparound modulo 65536.
pub open spec fn wrap_sub16(x: u16, y: u16) -> u16 {
    if x - y < 0 {
        (x - y + 0x10000) as u16
    } else {
        (x - y) as u16
    }
}

/// High byte of a 16-bit value.
pub open spec fn hi8(v: u16) -> u8 {
    (v >> 8) as u8
}

/// Low byte of a 16-bit value.
pub open spec fn lo8(v: u16) -> u8 {
    (v & 0xFF) as u8
}

/// Composes two bytes into a 16-bit value, high byte first.
pub open spec fn pair16(hi: u8, lo: u8) -> u16 {
    ((hi as u16) << 8 | lo as u16) as u16
}

/// A displacement byte read as a signed 8-bit offset, reinterpreted as the
/// equivalent mod-2^16 addend: adding `sign_ext16(b)` with wraparound is the
/// same as adding the signed value of `b`.
pub open spec fn sign_ext16(b: u8) -> u16 {
    if b < 0x80 {
        b as u16
    } else {
        (b as u16) | 0xFF00
    }
}

/// True when the flag selected by `mask` is set in F.
pub open spec fn flag_set(f: u8, mask: u8) -> bool {
    f & mask != 0
}

/// F with the flag selected by `mask` set to `v` and every other bit kept.
pub open spec fn upd_flag(f: u8, mask: u8, v: bool) -> u8 {
    if v {
        f | mask
    } else {
        f & !mask
    }
}

/// F after an instruction that re-specifies all four flags, in the order
/// Zero, Subtract, Half-carry, Carry; bits outside the four flag masks keep
/// their old value.
pub open spec fn flags_znhc(f: u8, z: bool, n: bool, h: bool, c: bool) -> u8 {
    upd_flag(upd_flag(upd_flag(upd_flag(f, FLAG_Z, z), FLAG_N, n), FLAG_H, h), FLAG_C, c)
}

/// F after an 8-bit INC/DEC, which re-specifies Zero, Subtract and Half-carry
/// and leaves Carry (and every other bit) untouched.
pub open spec fn flags_znh(f: u8, z: bool, n: bool, h: bool) -> u8 {
    upd_flag(upd_flag(upd_flag(f, FLAG_Z, z), FLAG_N, n), FLAG_H, h)
}

/// A 16-bit value is the composition of its own high and low bytes.
pub proof fn lemma_pair16_split(v: u16)
    by (bit_vector)
    ensures
        pair16(hi8(v), lo8(v)) == v,
{
}

/// Splitting a composed 16-bit value returns the two bytes it was built from.
pub proof fn lemma_pair16_parts(hi: u8, lo: u8)
    by (bit_vector)
    ensures
        hi8(pair16(hi, lo)) == hi,
        lo8(pair16(hi, lo)) == lo,
{
}

/// Composing the high byte of `v` with the low byte masked to its high nibble
/// yields `v & 0xFFF0`: the shape of the AF pair after its setter ran.
pub proof fn lemma_pair16_af(v: u16)
    by (bit_vector)
    ensures
        pair16(hi8(v), (v & 0xF0) as u8) == (v & 0xFFF0) as u16,
{
}

/// Reading each flag back from a write of all four, and preservation of the
/// low nibble of F.
pub proof fn lemma_flags_znhc(f: u8, z: bool, n: bool, h: bool, c: bool)
    by (bit_vector)
    ensures
        flag_set(flags_znhc(f, z, n, h, c), FLAG_Z) == z,
        flag_set(flags_znhc(f, z, n, h, c), FLAG_N) == n,
        flag_set(flags_znhc(f, z, n, h, c), FLAG_H) == h,
        flag_set(flags_znhc(f, z, n, h, c), FLAG_C) == c,
        flags_znhc(f, z, n, h, c) & 0x0F == f & 0x0F,
{
}

/// Reading each flag back from an INC/DEC flag write: Carry and the low
/// nibble of F are untouched.
pub proof fn lemma_flags_znh(f: u8, z: bool, n: bool, h: bool)
    by (bit_vector)
    ensures
        flag_set(flags_znh(f, z, n, h), FLAG_Z) == z,
        flag_set(flags_znh(f, z, n, h), FLAG_N) == n,
        flag_set(flags_znh(f, z, n, h), FLAG_H) == h,
        flag_set(flags_znh(f, z, n, h), FLAG_C) == flag_set(f, FLAG_C),
        flags_znh(f, z, n, h) & 0x0F == f & 0x0F,
{
}

/// Masking a composed 16-bit value to the high nibble of its low byte gives
/// that byte masked the same way: the shape of F after the AF setter ran on
/// a popped pair.
pub proof fn lemma_pair16_low_mask(hi: u8, lo: u8)
    by (bit_vector)
    ensures
        (pair16(hi, lo) & 0xF0) as u8 == lo & 0xF0,
{
}

/// Every combined flag write keeps the low nibble of F: the flag masks all
/// lie in the high nibble.
pub proof fn lemma_flags_keep_low_nibble()
    by (bit_vector)
    ensures
        forall|f: u8, z: bool, n: bool, h: bool, c: bool|
            #![trigger flags_znhc(f, z, n, h, c)]
            flags_znhc(f, z, n, h, c) & 0x0F == f & 0x0F,
        forall|f: u8, z: bool, n: bool, h: bool|
            #![trigger flags_znh(f, z, n, h)]
            flags_znh(f, z, n, h) & 0x0F == f & 0x0F,
{
}

/// The low byte the AF setter writes to F has a zero low nibble.
pub proof fn lemma_af_mask_low_nibble(v: u16)
    by (bit_vector)
    ensures
        ((v & 0xF0) as u8) & 0x0F == 0,
{
}

} // verus!
