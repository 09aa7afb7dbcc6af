//! The instruction set: a closed tagged variant keyed by opcode, and the
//! stateless decoder from an 8-bit opcode to an instruction value.
//!
//! The decoder is intentionally partial over the 256-opcode space: an
//! unmapped opcode decodes to `None` and must be surfaced loudly by the
//! caller, never silently treated as NOP.

use vstd::prelude::*;

verus! {

/// One decoded instruction. Payloads select either a direct register operand
/// or an operand resolved indirectly through the HL pair.
#[derive(Debug, Clone, Copy, PartialEq, Eq)]
pub enum Instruction {
    NOP,
    LDBCD16,
    LDBCA,
    INCBC,
    DECB,
    LDDED16,
    INCDE,
    JRNZR8,
    INCHL,
    INCH,
    JRZR8,
    LDADE,
    LDAHLINC,
    INCL,
    ADD(ArithmeticTarget),
    LDIMM8(Register8),
    LDA8A,
    LDA16A,
    LDAA16,
    LDHLD16,
    LDHLPOSA,
    LDHLNEGA,
    JRR8,
    JPA16,
    CALLNZA16,
    XORB,
    XORC,
    XORD,
    XORE,
    XORH,
    XORL,
    XORA,
    POPBC,
    CALLA16,
    RET,
    LDRegReg(Operand8, Operand8),
    ORB,
    ORC,
    ORD,
    ORE,
    ORH,
    ORL,
    ORHL,
    ORA,
    CP(Operand8),
    DI,
    LDSPD16,
    PUSHBC,
    ADDAD8,
    SUBD8,
    POPHL,
    PUSHHL,
    ANDD8,
    LDHAA8,
    POPAF,
    PUSHAF,
    CPD8,
    HALT,
}

/// A direct-register operand of the 8-bit ADD instruction.
#[derive(Debug, Clone, Copy, PartialEq, Eq)]
pub enum ArithmeticTarget {
    A,
    B,
    C,
    D,
    E,
    H,
    L,
}

/// One of the seven directly addressable 8-bit registers.
#[derive(Debug, Clone, Copy, PartialEq, Eq)]
pub enum Register8 {
    A,
    B,
    C,
    D,
    E,
    H,
    L,
}

/// An 8-bit operand: a register, or the memory byte addressed through HL.
#[derive(Debug, Clone, Copy, PartialEq, Eq)]
pub enum Operand8 {
    Reg(Register8),
    IndHL,
}

/// The shared 3-bit operand field of the bit-sliced opcode blocks:
/// 000=B, 001=C, 010=D, 011=E, 100=H, 101=L, 110=indirect-HL, 111=A.
pub open spec fn spec_decode_reg(bits: u8) -> Operand8 {
    if bits == 0 {
        Operand8::Reg(Register8::B)
    } else if bits == 1 {
        Operand8::Reg(Register8::C)
    } else if bits == 2 {
        Operand8::Reg(Register8::D)
    } else if bits == 3 {
        Operand8::Reg(Register8::E)
    } else if bits == 4 {
        Operand8::Reg(Register8::H)
    } else if bits == 5 {
        Operand8::Reg(Register8::L)
    } else if bits == 6 {
        Operand8::IndHL
    } else {
        Operand8::Reg(Register8::A)
    }
}

/// The opcode-to-instruction mapping. `None` marks an opcode outside the
/// currently implemented subset.
pub open spec fn spec_decode(op: u8) -> Option<Instruction> {
    if op == 0x00 {
        Some(Instruction::NOP)
    } else if op == 0x01 {
        Some(Instruction::LDBCD16)
    } else if op == 0x02 {
        Some(Instruction::LDBCA)
    } else if op == 0x03 {
        Some(Instruction::INCBC)
    } else if op == 0x05 {
        Some(Instruction::DECB)
    } else if op == 0x06 {
        Some(Instruction::LDIMM8(Register8::B))
    } else if op == 0x0E {
        Some(Instruction::LDIMM8(Register8::C))
    } else if op == 0x11 {
        Some(Instruction::LDDED16)
    } else if op == 0x13 {
        Some(Instruction::INCDE)
    } else if op == 0x16 {
        Some(Instruction::LDIMM8(Register8::D))
    } else if op == 0x18 {
        Some(Instruction::JRR8)
    } else if op == 0x1A {
        Some(Instruction::LDADE)
    } else if op == 0x1E {
        Some(Instruction::LDIMM8(Register8::E))
    } else if op == 0x20 {
        Some(Instruction::JRNZR8)
    } else if op == 0x21 {
        Some(Instruction::LDHLD16)
    } else if op == 0x22 {
        Some(Instruction::LDHLPOSA)
    } else if op == 0x23 {
        Some(Instruction::INCHL)
    } else if op == 0x24 {
        Some(Instruction::INCH)
    } else if op == 0x26 {
        Some(Instruction::LDIMM8(Register8::H))
    } else if op == 0x28 {
        Some(Instruction::JRZR8)
    } else if op == 0x2A {
        Some(Instruction::LDAHLINC)
    } else if op == 0x2C {
        Some(Instruction::INCL)
    } else if op == 0x2E {
        Some(Instruction::LDIMM8(Register8::L))
    } else if op == 0x31 {
        Some(Instruction::LDSPD16)
    } else if op == 0x32 {
        Some(Instruction::LDHLNEGA)
    } else if op == 0x3E {
        Some(Instruction::LDIMM8(Register8::A))
    } else if op == 0x76 {
        Some(Instruction::HALT)
    } else if 0x40 <= op && op <= 0x7F {
        // the 8x8 load grid: destination in bits 5-3, source in bits 2-0
        Some(Instruction::LDRegReg(spec_decode_reg((op >> 3) & 7), spec_decode_reg(op & 7)))
    } else if op == 0x80 {
        Some(Instruction::ADD(ArithmeticTarget::B))
    } else if op == 0x81 {
        Some(Instruction::ADD(ArithmeticTarget::C))
    } else if op == 0x82 {
        Some(Instruction::ADD(ArithmeticTarget::D))
    } else if op == 0x83 {
        Some(Instruction::ADD(ArithmeticTarget::E))
    } else if op == 0x84 {
        Some(Instruction::ADD(ArithmeticTarget::H))
    } else if op == 0x85 {
        Some(Instruction::ADD(ArithmeticTarget::L))
    } else if op == 0x87 {
        Some(Instruction::ADD(ArithmeticTarget::A))
    } else if op == 0xA8 {
        Some(Instruction::XORB)
    } else if op == 0xA9 {
        Some(Instruction::XORC)
    } else if op == 0xAA {
        Some(Instruction::XORD)
    } else if op == 0xAB {
        Some(Instruction::XORE)
    } else if op == 0xAC {
        Some(Instruction::XORH)
    } else if op == 0xAD {
        Some(Instruction::XORL)
    } else if op == 0xAF {
        Some(Instruction::XORA)
    } else if op == 0xB0 {
        Some(Instruction::ORB)
    } else if op == 0xB1 {
        Some(Instruction::ORC)
    } else if op == 0xB2 {
        Some(Instruction::ORD)
    } else if op == 0xB3 {
        Some(Instruction::ORE)
    } else if op == 0xB4 {
        Some(Instruction::ORH)
    } else if op == 0xB5 {
        Some(Instruction::ORL)
    } else if op == 0xB6 {
        Some(Instruction::ORHL)
    } else if op == 0xB7 {
        Some(Instruction::ORA)
    } else if 0xB8 <= op && op <= 0xBF {
        // the compare block: single operand in bits 2-0
        Some(Instruction::CP(spec_decode_reg(op & 7)))
    } else if op == 0xC1 {
        Some(Instruction::POPBC)
    } else if op == 0xC3 {
        Some(Instruction::JPA16)
    } else if op == 0xC4 {
        Some(Instruction::CALLNZA16)
    } else if op == 0xC5 {
        Some(Instruction::PUSHBC)
    } else if op == 0xC6 {
        Some(Instruction::ADDAD8)
    } else if op == 0xC9 {
        Some(Instruction::RET)
    } else if op == 0xCD {
        Some(Instruction::CALLA16)
    } else if op == 0xD6 {
        Some(Instruction::SUBD8)
    } else if op == 0xE0 {
        Some(Instruction::LDA8A)
    } else if op == 0xE1 {
        Some(Instruction::POPHL)
    } else if op == 0xE5 {
        Some(Instruction::PUSHHL)
    } else if op == 0xE6 {
        Some(Instruction::ANDD8)
    } else if op == 0xEA {
        Some(Instruction::LDA16A)
    } else if op == 0xF0 {
        Some(Instruction::LDHAA8)
    } else if op == 0xF1 {
        Some(Instruction::POPAF)
    } else if op == 0xF3 {
        Some(Instruction::DI)
    } else if op == 0xF5 {
        Some(Instruction::PUSHAF)
    } else if op == 0xFA {
        Some(Instruction::LDAA16)
    } else if op == 0xFE {
        Some(Instruction::CPD8)
    } else {
        None
    }
}

/// Maps the shared 3-bit operand field to its operand. Callers pass a masked
/// 3-bit value.
fn decode_reg(bits: u8) -> (r: Operand8)
    requires
        bits < 8,
    ensures
        r == spec_decode_reg(bits),
{
    if bits == 0 {
        Operand8::Reg(Register8::B)
    } else if bits == 1 {
        Operand8::Reg(Register8::C)
    } else if bits == 2 {
        Operand8::Reg(Register8::D)
    } else if bits == 3 {
        Operand8::Reg(Register8::E)
    } else if bits == 4 {
        Operand8::Reg(Register8::H)
    } else if bits == 5 {
        Operand8::Reg(Register8::L)
    } else if bits == 6 {
        Operand8::IndHL
    } else {
        Operand8::Reg(Register8::A)
    }
}

/// Decodes an opcode, returning `None` for one outside the implemented
/// subset: the recoverable form of the decoder, for callers that must
/// surface an illegal opcode instead of excluding it up front.
pub fn try_decode(opcode: u8) -> (r: Option<Instruction>)
    ensures
        r == spec_decode(opcode),
{
    proof {
        assert((opcode >> 3) & 7 < 8 && opcode & 7 < 8) by (bit_vector);
    }
    if opcode == 0x00 {
        Some(Instruction::NOP)
    } else if opcode == 0x01 {
        Some(Instruction::LDBCD16)
    } else if opcode == 0x02 {
        Some(Instruction::LDBCA)
    } else if opcode == 0x03 {
        Some(Instruction::INCBC)
    } else if opcode == 0x05 {
        Some(Instruction::DECB)
    } else if opcode == 0x06 {
        Some(Instruction::LDIMM8(Register8::B))
    } else if opcode == 0x0E {
        Some(Instruction::LDIMM8(Register8::C))
    } else if opcode == 0x11 {
        Some(Instruction::LDDED16)
    } else if opcode == 0x13 {
        Some(Instruction::INCDE)
    } else if opcode == 0x16 {
        Some(Instruction::LDIMM8(Register8::D))
    } else if opcode == 0x18 {
        Some(Instruction::JRR8)
    } else if opcode == 0x1A {
        Some(Instruction::LDADE)
    } else if opcode == 0x1E {
        Some(Instruction::LDIMM8(Register8::E))
    } else if opcode == 0x20 {
        Some(Instruction::JRNZR8)
    } else if opcode == 0x21 {
        Some(Instruction::LDHLD16)
    } else if opcode == 0x22 {
        Some(Instruction::LDHLPOSA)
    } else if opcode == 0x23 {
        Some(Instruction::INCHL)
    } else if opcode == 0x24 {
        Some(Instruction::INCH)
    } else if opcode == 0x26 {
        Some(Instruction::LDIMM8(Register8::H))
    } else if opcode == 0x28 {
        Some(Instruction::JRZR8)
    } else if opcode == 0x2A {
        Some(Instruction::LDAHLINC)
    } else if opcode == 0x2C {
        Some(Instruction::INCL)
    } else if opcode == 0x2E {
        Some(Instruction::LDIMM8(Register8::L))
    } else if opcode == 0x31 {
        Some(Instruction::LDSPD16)
    } else if opcode == 0x32 {
        Some(Instruction::LDHLNEGA)
    } else if opcode == 0x3E {
        Some(Instruction::LDIMM8(Register8::A))
    } else if opcode == 0x76 {
        Some(Instruction::HALT)
    } else if 0x40 <= opcode && opcode <= 0x7F {
        let dst = decode_reg((opcode >> 3) & 7);
        let src = decode_reg(opcode & 7);
        Some(Instruction::LDRegReg(dst, src))
    } else if opcode == 0x80 {
        Some(Instruction::ADD(ArithmeticTarget::B))
    } else if opcode == 0x81 {
        Some(Instruction::ADD(ArithmeticTarget::C))
    } else if opcode == 0x82 {
        Some(Instruction::ADD(ArithmeticTarget::D))
    } else if opcode == 0x83 {
        Some(Instruction::ADD(ArithmeticTarget::E))
    } else if opcode == 0x84 {
        Some(Instruction::ADD(ArithmeticTarget::H))
    } else if opcode == 0x85 {
        Some(Instruction::ADD(ArithmeticTarget::L))
    } else if opcode == 0x87 {
        Some(Instruction::ADD(ArithmeticTarget::A))
    } else if opcode == 0xA8 {
        Some(Instruction::XORB)
    } else if opcode == 0xA9 {
        Some(Instruction::XORC)
    } else if opcode == 0xAA {
        Some(Instruction::XORD)
    } else if opcode == 0xAB {
        Some(Instruction::XORE)
    } else if opcode == 0xAC {
        Some(Instruction::XORH)
    } else if opcode == 0xAD {
        Some(Instruction::XORL)
    } else if opcode == 0xAF {
        Some(Instruction::XORA)
    } else if opcode == 0xB0 {
        Some(Instruction::ORB)
    } else if opcode == 0xB1 {
        Some(Instruction::ORC)
    } else if opcode == 0xB2 {
        Some(Instruction::ORD)
    } else if opcode == 0xB3 {
        Some(Instruction::ORE)
    } else if opcode == 0xB4 {
        Some(Instruction::ORH)
    } else if opcode == 0xB5 {
        Some(Instruction::ORL)
    } else if opcode == 0xB6 {
        Some(Instruction::ORHL)
    } else if opcode == 0xB7 {
        Some(Instruction::ORA)
    } else if 0xB8 <= opcode && opcode <= 0xBF {
        let reg = decode_reg(opcode & 7);
        Some(Instruction::CP(reg))
    } else if opcode == 0xC1 {
        Some(Instruction::POPBC)
    } else if opcode == 0xC3 {
        Some(Instruction::JPA16)
    } else if opcode == 0xC4 {
        Some(Instruction::CALLNZA16)
    } else if opcode == 0xC5 {
        Some(Instruction::PUSHBC)
    } else if opcode == 0xC6 {
        Some(Instruction::ADDAD8)
    } else if opcode == 0xC9 {
        Some(Instruction::RET)
    } else if opcode == 0xCD {
        Some(Instruction::CALLA16)
    } else if opcode == 0xD6 {
        Some(Instruction::SUBD8)
    } else if opcode == 0xE0 {
        Some(Instruction::LDA8A)
    } else if opcode == 0xE1 {
        Some(Instruction::POPHL)
    } else if opcode == 0xE5 {
        Some(Instruction::PUSHHL)
    } else if opcode == 0xE6 {
        Some(Instruction::ANDD8)
    } else if opcode == 0xEA {
        Some(Instruction::LDA16A)
    } else if opcode == 0xF0 {
        Some(Instruction::LDHAA8)
    } else if opcode == 0xF1 {
        Some(Instruction::POPAF)
    } else if opcode == 0xF3 {
        Some(Instruction::DI)
    } else if opcode == 0xF5 {
        Some(Instruction::PUSHAF)
    } else if opcode == 0xFA {
        Some(Instruction::LDAA16)
    } else if opcode == 0xFE {
        Some(Instruction::CPD8)
    } else {
        None
    }
}

/// Decodes an opcode known to lie in the implemented subset. An opcode
/// outside it is excluded up front; a caller that cannot exclude it uses
/// `try_decode` and surfaces the failure itself.
pub fn decode(opcode: u8) -> (i: Instruction)
    requires
        spec_decode(opcode) is Some,
    ensures
        Some(i) == spec_decode(opcode),
{
    match try_decode(opcode) {
        Some(i) => i,
        None => vstd::pervasive::unreached(),
    }
}

} // verus!
