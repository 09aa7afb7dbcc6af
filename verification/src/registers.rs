//! The register file: eight 8-bit registers, the two 16-bit pointers, the
//! composite 16-bit views over register pairs, and the bit-level flag
//! accessors over F.

use vstd::prelude::*;

use crate::bits::{flag_set, hi8, lo8, pair16, upd_flag, FLAG_C, FLAG_H, FLAG_N, FLAG_Z};
use crate::instructions::Register8;

verus! {

/// The eight 8-bit registers (A, F, B, C, D, E, H, L) and the two 16-bit
/// pointers (stack pointer, program counter). Register pairs are views over
/// two 8-bit registers, not separate storage. The low nibble of F is kept
/// zero by construction: `set_af` is the single place that masks it.
pub struct Registers {
    pub a: u8,
    pub f: u8,
    pub b: u8,
    pub c: u8,
    pub d: u8,
    pub e: u8,
    pub h: u8,
    pub l: u8,
    pub sp: u16,
    pub pc: u16,
}

impl Registers {
    /// The register file with every register and pointer zero.
    pub open spec fn spec_zeroed() -> Registers {
        Registers { a: 0, f: 0, b: 0, c: 0, d: 0, e: 0, h: 0, l: 0, sp: 0, pc: 0 }
    }

    /// The AF pair: A is the high byte, F the low byte.
    pub open spec fn spec_af(self) -> u16 {
        pair16(self.a, self.f)
    }

    /// The BC pair: B is the high byte, C the low byte.
    pub open spec fn spec_bc(self) -> u16 {
        pair16(self.b, self.c)
    }

    /// The DE pair: D is the high byte, E the low byte.
    pub open spec fn spec_de(self) -> u16 {
        pair16(self.d, self.e)
    }

    /// The HL pair: H is the high byte, L the low byte.
    pub open spec fn spec_hl(self) -> u16 {
        pair16(self.h, self.l)
    }

    /// The register file after writing `v` to the AF pair: the low nibble of
    /// F is masked off, modelling a flags register with only 4 significant
    /// bits.
    pub open spec fn spec_with_af(self, v: u16) -> Registers {
        Registers { a: hi8(v), f: (v & 0xF0) as u8, ..self }
    }

    /// The register file after writing `v` to the BC pair.
    pub open spec fn spec_with_bc(self, v: u16) -> Registers {
        Registers { b: hi8(v), c: lo8(v), ..self }
    }

    /// The register file after writing `v` to the DE pair.
    pub open spec fn spec_with_de(self, v: u16) -> Registers {
        Registers { d: hi8(v), e: lo8(v), ..self }
    }

    /// The register file after writing `v` to the HL pair.
    pub open spec fn spec_with_hl(self, v: u16) -> Registers {
        Registers { h: hi8(v), l: lo8(v), ..self }
    }

    /// The value of the 8-bit register selected by `r`.
    pub open spec fn spec_reg8(self, r: Register8) -> u8 {
        match r {
            Register8::A => self.a,
            Register8::B => self.b,
            Register8::C => self.c,
            Register8::D => self.d,
            Register8::E => self.e,
            Register8::H => self.h,
            Register8::L => self.l,
        }
    }

    /// The register file after writing `v` to the 8-bit register selected by
    /// `r`.
    pub open spec fn spec_with_reg8(self, r: Register8, v: u8) -> Registers {
        match r {
            Register8::A => Registers { a: v, ..self },
            Register8::B => Registers { b: v, ..self },
            Register8::C => Registers { c: v, ..self },
            Register8::D => Registers { d: v, ..self },
            Register8::E => Registers { e: v, ..self },
            Register8::H => Registers { h: v, ..self },
            Register8::L => Registers { l: v, ..self },
        }
    }
}

impl Default for Registers {
    /// Every register and pointer starts at zero.
    fn default() -> (r: Registers)
        ensures
            r == Registers::spec_zeroed(),
    {
        Registers { a: 0, f: 0, b: 0, c: 0, d: 0, e: 0, h: 0, l: 0, sp: 0, pc: 0 }
    }
}

impl Registers {
    /// Reads the AF pair, A as the high byte.
    pub fn get_af(&self) -> (v: u16)
        ensures
            v == self.spec_af(),
    {
        (self.a as u16) << 8 | self.f as u16
    }

    /// Writes the AF pair; the low nibble of F is masked off. This is the
    /// single place that enforces the F-register invariant, so restoring AF
    /// from the stack must route through here.
    pub fn set_af(&mut self, value: u16)
        ensures
            *final(self) == old(self).spec_with_af(value),
            final(self).f & 0x0F == 0,
    {
        self.a = (value >> 8) as u8;
        self.f = (value & 0xF0) as u8;
        proof {
            assert((value & 0xF0) as u8 & 0x0F == 0) by (bit_vector);
        }
    }

    /// Reads the BC pair, B as the high byte.
    pub fn get_bc(&self) -> (v: u16)
        ensures
            v == self.spec_bc(),
    {
        (self.b as u16) << 8 | self.c as u16
    }

    /// Writes the BC pair: the high byte to B, the low byte to C.
    pub fn set_bc(&mut self, value: u16)
        ensures
            *final(self) == old(self).spec_with_bc(value),
    {
        self.b = (value >> 8) as u8;
        self.c = (value & 0xFF) as u8;
    }

    /// Reads the DE pair, D as the high byte.
    pub fn get_de(&self) -> (v: u16)
        ensures
            v == self.spec_de(),
    {
        (self.d as u16) << 8 | self.e as u16
    }

    /// Writes the DE pair: the high byte to D, the low byte to E.
    pub fn set_de(&mut self, value: u16)
        ensures
            *final(self) == old(self).spec_with_de(value),
    {
        self.d = (value >> 8) as u8;
        self.e = (value & 0xFF) as u8;
    }

    /// Reads the HL pair, H as the high byte.
    pub fn get_hl(&self) -> (v: u16)
        ensures
            v == self.spec_hl(),
    {
        (self.h as u16) << 8 | self.l as u16
    }

    /// Writes the HL pair: the high byte to H, the low byte to L.
    pub fn set_hl(&mut self, value: u16)
        ensures
            *final(self) == old(self).spec_with_hl(value),
    {
        self.h = (value >> 8) as u8;
        self.l = (value & 0xFF) as u8;
    }

    /// Reads the Zero flag.
    pub fn get_z(&self) -> (v: bool)
        ensures
            v == flag_set(self.f, FLAG_Z),
    {
        self.f & FLAG_Z != 0
    }

    /// Writes the Zero flag, leaving every other bit of F unchanged.
    pub fn set_z(&mut self, v: bool)
        ensures
            *final(self) == (Registers { f: upd_flag(old(self).f, FLAG_Z, v), ..*old(self) }),
    {
        self.f = if v {
            self.f | FLAG_Z
        } else {
            self.f & !FLAG_Z
        };
    }

    /// Reads the Subtract flag.
    pub fn get_n(&self) -> (v: bool)
        ensures
            v == flag_set(self.f, FLAG_N),
    {
        self.f & FLAG_N != 0
    }

    /// Writes the Subtract flag, leaving every other bit of F unchanged.
    pub fn set_n(&mut self, v: bool)
        ensures
            *final(self) == (Registers { f: upd_flag(old(self).f, FLAG_N, v), ..*old(self) }),
    {
        self.f = if v {
            self.f | FLAG_N
        } else {
            self.f & !FLAG_N
        };
    }

    /// Reads the Half-carry flag.
    pub fn get_h(&self) -> (v: bool)
        ensures
            v == flag_set(self.f, FLAG_H),
    {
        self.f & FLAG_H != 0
    }

    /// Writes the Half-carry flag, leaving every other bit of F unchanged.
    pub fn set_h(&mut self, v: bool)
        ensures
            *final(self) == (Registers { f: upd_flag(old(self).f, FLAG_H, v), ..*old(self) }),
    {
        self.f = if v {
            self.f | FLAG_H
        } else {
            self.f & !FLAG_H
        };
    }

    /// Reads the Carry flag.
    pub fn get_c(&self) -> (v: bool)
        ensures
            v == flag_set(self.f, FLAG_C),
    {
        self.f & FLAG_C != 0
    }

    /// Writes the Carry flag, leaving every other bit of F unchanged.
    pub fn set_c(&mut self, v: bool)
        ensures
            *final(self) == (Registers { f: upd_flag(old(self).f, FLAG_C, v), ..*old(self) }),
    {
        self.f = if v {
            self.f | FLAG_C
        } else {
            self.f & !FLAG_C
        };
    }

    /// Reads the 8-bit register selected by `r`.
    pub fn read_reg8(&self, r: Register8) -> (v: u8)
        ensures
            v == self.spec_reg8(r),
    {
        match r {
            Register8::A => self.a,
            Register8::B => self.b,
            Register8::C => self.c,
            Register8::D => self.d,
            Register8::E => self.e,
            Register8::H => self.h,
            Register8::L => self.l,
        }
    }

    /// Writes `v` to the 8-bit register selected by `r`.
    pub fn write_reg8(&mut self, r: Register8, v: u8)
        ensures
            *final(self) == old(self).spec_with_reg8(r, v),
    {
        match r {
            Register8::A => self.a = v,
            Register8::B => self.b = v,
            Register8::C => self.c = v,
            Register8::D => self.d = v,
            Register8::E => self.e = v,
            Register8::H => self.h = v,
            Register8::L => self.l = v,
        }
    }
}

/// The four status flags unpacked into booleans, convertible to and from the
/// packed high-nibble encoding of the F register.
#[derive(Default)]
pub struct FlagsRegister {
    pub zero: bool,
    pub subtract: bool,
    pub half_carry: bool,
    pub carry: bool,
}

impl FlagsRegister {
    /// The packed F-register encoding of these flags: each flag occupies one
    /// bit of the high nibble, the low nibble is zero.
    pub open spec fn spec_to_byte(self) -> u8 {
        upd_flag(
            upd_flag(
                upd_flag(upd_flag(0, FLAG_Z, self.zero), FLAG_N, self.subtract),
                FLAG_H,
                self.half_carry,
            ),
            FLAG_C,
            self.carry,
        )
    }

    /// The flags held in the high nibble of `byte`.
    pub open spec fn spec_from_byte(byte: u8) -> FlagsRegister {
        FlagsRegister {
            zero: flag_set(byte, FLAG_Z),
            subtract: flag_set(byte, FLAG_N),
            half_carry: flag_set(byte, FLAG_H),
            carry: flag_set(byte, FLAG_C),
        }
    }

    /// Packs the four flags into the high nibble of a byte.
    pub fn to_byte(&self) -> (b: u8)
        ensures
            b == self.spec_to_byte(),
    {
        let b1: u8 = if self.zero {
            0u8 | FLAG_Z
        } else {
            0u8 & !FLAG_Z
        };
        let b2: u8 = if self.subtract {
            b1 | FLAG_N
        } else {
            b1 & !FLAG_N
        };
        let b3: u8 = if self.half_carry {
            b2 | FLAG_H
        } else {
            b2 & !FLAG_H
        };
        if self.carry {
            b3 | FLAG_C
        } else {
            b3 & !FLAG_C
        }
    }

    /// Unpacks the high nibble of `byte` into the four flags.
    pub fn from_byte(byte: u8) -> (r: FlagsRegister)
        ensures
            r == FlagsRegister::spec_from_byte(byte),
    {
        FlagsRegister {
            zero: byte & FLAG_Z != 0,
            subtract: byte & FLAG_N != 0,
            half_carry: byte & FLAG_H != 0,
            carry: byte & FLAG_C != 0,
        }
    }
}

impl core::convert::From<FlagsRegister> for u8 {
    fn from(flag: FlagsRegister) -> (b: u8) {
        flag.to_byte()
    }
}

impl vstd::std_specs::convert::FromSpecImpl<FlagsRegister> for u8 {
    open spec fn obeys_from_spec() -> bool {
        true
    }

    open spec fn from_spec(flag: FlagsRegister) -> u8 {
        flag.spec_to_byte()
    }
}

impl core::convert::From<u8> for FlagsRegister {
    fn from(byte: u8) -> (r: FlagsRegister) {
        FlagsRegister::from_byte(byte)
    }
}

impl vstd::std_specs::convert::FromSpecImpl<u8> for FlagsRegister {
    open spec fn obeys_from_spec() -> bool {
        true
    }

    open spec fn from_spec(byte: u8) -> FlagsRegister {
        FlagsRegister::spec_from_byte(byte)
    }
}

} // verus!
