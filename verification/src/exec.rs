//! The execution dispatcher: per-instruction semantics and timing.
//!
//! `spec_execute` is the mathematical model of the dispatcher: for every
//! instruction it gives the exact register file, bus state and cycle cost
//! that executing the instruction produces. Every instruction method is
//! proved equal to its arm of the model, and `execute_instruction` to the
//! model as a whole.

use vstd::prelude::*;

use crate::bits::{
    flag_set, flags_znh, flags_znhc, hi8, lo8, pair16, sign_ext16, wrap_add16, wrap_add8,
    wrap_sub16, wrap_sub8, FLAG_C, FLAG_H, FLAG_N, FLAG_Z,
};
use crate::bus::{spec_bus_write, Bus, BusView};
use crate::cpu::Cpu;
use crate::instructions::{
    decode, spec_decode, ArithmeticTarget, Instruction, Operand8, Register8,
};
use crate::registers::Registers;

verus! {

/// Everything one instruction produces: the CPU after it, the bus after it,
/// and its cycle cost.
pub ghost struct Effect {
    pub cpu: Cpu,
    pub bus: BusView,
    pub cycles: u8,
}

/// One operand byte fetched at the program counter, and the register file
/// with the counter advanced past it.
pub open spec fn spec_fetch8(r: Registers, b: BusView) -> (u8, Registers) {
    (b.mem[r.pc as int], Registers { pc: wrap_add16(r.pc, 1), ..r })
}

/// A 16-bit immediate fetched at the program counter: low byte first, then
/// high byte (little-endian), each advancing the counter by one.
pub open spec fn spec_fetch16(r: Registers, b: BusView) -> (u16, Registers) {
    let (lo, r1) = spec_fetch8(r, b);
    let (hi, r2) = spec_fetch8(r1, b);
    (pair16(hi, lo), r2)
}

/// Two bytes pushed onto the stack, high byte first, the stack pointer
/// pre-decremented before each write.
pub open spec fn spec_push_bytes(r: Registers, b: BusView, hi: u8, lo: u8) -> (
    Registers,
    BusView,
) {
    let sp1 = wrap_sub16(r.sp, 1);
    let b1 = spec_bus_write(b, sp1, hi);
    let sp2 = wrap_sub16(sp1, 1);
    let b2 = spec_bus_write(b1, sp2, lo);
    (Registers { sp: sp2, ..r }, b2)
}

/// A 16-bit value popped from the stack: low byte first, then high byte, the
/// stack pointer post-incremented after each read.
pub open spec fn spec_pop16(r: Registers, b: BusView) -> (u16, Registers) {
    let lo = b.mem[r.sp as int];
    let sp1 = wrap_add16(r.sp, 1);
    let hi = b.mem[sp1 as int];
    (pair16(hi, lo), Registers { sp: wrap_add16(sp1, 1), ..r })
}

/// F after an 8-bit ADD of `v` to `a`: Zero from the wrapped result,
/// Subtract clear, Half-carry from the carry out of bit 3, Carry from the
/// carry out of bit 7.
pub open spec fn add_flags(f: u8, a: u8, v: u8) -> u8 {
    flags_znhc(f, wrap_add8(a, v) == 0, false, (a & 0x0F) + (v & 0x0F) > 0x0F, a + v > 0xFF)
}

/// F after an 8-bit SUB/CP of `v` against `a`: Zero from the wrapped result,
/// Subtract set, Half-carry from the borrow into bit 4 (low nibbles), Carry
/// from the full borrow.
pub open spec fn sub_flags(f: u8, a: u8, v: u8) -> u8 {
    flags_znhc(f, wrap_sub8(a, v) == 0, true, (a & 0x0F) < (v & 0x0F), a < v)
}

/// F after a logical AND: Zero from the result, Half-carry forced set (the
/// hardware quirk), Subtract and Carry clear.
pub open spec fn and_flags(f: u8, result: u8) -> u8 {
    flags_znhc(f, result == 0, false, true, false)
}

/// F after a logical OR or XOR: Zero from the result, the rest clear.
pub open spec fn or_xor_flags(f: u8, result: u8) -> u8 {
    flags_znhc(f, result == 0, false, false, false)
}

/// F after an 8-bit INC of `orig`: Zero and Half-carry from the single
/// operand, Subtract clear, Carry unaffected.
pub open spec fn inc8_flags(f: u8, orig: u8) -> u8 {
    flags_znh(f, wrap_add8(orig, 1) == 0, false, orig & 0x0F == 0x0F)
}

/// F after an 8-bit DEC of `orig`: Zero and Half-carry from the single
/// operand, Subtract set, Carry unaffected. DEC is a subtraction of 1, so
/// Half-carry is the borrow into bit 4: set exactly when the low nibble of
/// the operand is zero.
pub open spec fn dec8_flags(f: u8, orig: u8) -> u8 {
    flags_znh(f, wrap_sub8(orig, 1) == 0, true, orig & 0x0F == 0)
}

/// The register file after ADD A, v.
pub open spec fn spec_add_a(r: Registers, v: u8) -> Registers {
    Registers { a: wrap_add8(r.a, v), f: add_flags(r.f, r.a, v), ..r }
}

/// The register file after SUB v: A takes the wrapped difference.
pub open spec fn spec_sub_a(r: Registers, v: u8) -> Registers {
    Registers { a: wrap_sub8(r.a, v), f: sub_flags(r.f, r.a, v), ..r }
}

/// The register file after CP v: the flags of the subtraction, A unmodified.
pub open spec fn spec_cp_a(r: Registers, v: u8) -> Registers {
    Registers { f: sub_flags(r.f, r.a, v), ..r }
}

/// The register file after AND v.
pub open spec fn spec_and_a(r: Registers, v: u8) -> Registers {
    Registers { a: r.a & v, f: and_flags(r.f, r.a & v), ..r }
}

/// The register file after OR v.
pub open spec fn spec_or_a(r: Registers, v: u8) -> Registers {
    Registers { a: r.a | v, f: or_xor_flags(r.f, r.a | v), ..r }
}

/// The register file after XOR v.
pub open spec fn spec_xor_a(r: Registers, v: u8) -> Registers {
    Registers { a: r.a ^ v, f: or_xor_flags(r.f, r.a ^ v), ..r }
}

/// The register file after an 8-bit INC of register `t`.
pub open spec fn spec_inc8(r: Registers, t: Register8) -> Registers {
    let orig = r.spec_reg8(t);
    Registers { f: inc8_flags(r.f, orig), ..r.spec_with_reg8(t, wrap_add8(orig, 1)) }
}

/// The register file after an 8-bit DEC of register `t`.
pub open spec fn spec_dec8(r: Registers, t: Register8) -> Registers {
    let orig = r.spec_reg8(t);
    Registers { f: dec8_flags(r.f, orig), ..r.spec_with_reg8(t, wrap_sub8(orig, 1)) }
}

/// The value of a direct-register ADD operand.
pub open spec fn spec_target8(r: Registers, t: ArithmeticTarget) -> u8 {
    match t {
        ArithmeticTarget::A => r.a,
        ArithmeticTarget::B => r.b,
        ArithmeticTarget::C => r.c,
        ArithmeticTarget::D => r.d,
        ArithmeticTarget::E => r.e,
        ArithmeticTarget::H => r.h,
        ArithmeticTarget::L => r.l,
    }
}

/// The value of an 8-bit operand: a register directly, or the memory byte
/// addressed through HL.
pub open spec fn spec_operand8(r: Registers, b: BusView, op: Operand8) -> u8 {
    match op {
        Operand8::Reg(t) => r.spec_reg8(t),
        Operand8::IndHL => b.mem[r.spec_hl() as int],
    }
}

/// A relative jump: the displacement byte is always consumed and the counter
/// always advances past it; the displacement is applied to the advanced
/// counter only if `cond` holds. 12 cycles taken, 8 not taken.
pub open spec fn spec_jr(cpu: Cpu, b: BusView, cond: bool) -> Effect {
    let (off, r1) = spec_fetch8(cpu.regs, b);
    if cond {
        Effect {
            cpu: Cpu { regs: Registers { pc: wrap_add16(r1.pc, sign_ext16(off)), ..r1 }, ..cpu },
            bus: b,
            cycles: 12,
        }
    } else {
        Effect { cpu: Cpu { regs: r1, ..cpu }, bus: b, cycles: 8 }
    }
}

/// A call: the 16-bit target is always consumed; if `cond` holds, the
/// program counter after the operands (the return address) is pushed high
/// byte first and the counter set to the target (24 cycles); otherwise the
/// stack is untouched (12 cycles).
pub open spec fn spec_call(cpu: Cpu, b: BusView, cond: bool) -> Effect {
    let (target, r1) = spec_fetch16(cpu.regs, b);
    if cond {
        let (r2, b2) = spec_push_bytes(r1, b, hi8(r1.pc), lo8(r1.pc));
        Effect {
            cpu: Cpu { regs: Registers { pc: target, ..r2 }, ..cpu },
            bus: b2,
            cycles: 24,
        }
    } else {
        Effect { cpu: Cpu { regs: r1, ..cpu }, bus: b, cycles: 12 }
    }
}

/// A return: pop low byte then high byte and assemble them as the new
/// program counter. 16 cycles.
pub open spec fn spec_ret(cpu: Cpu, b: BusView) -> Effect {
    let (v, r1) = spec_pop16(cpu.regs, b);
    Effect { cpu: Cpu { regs: Registers { pc: v, ..r1 }, ..cpu }, bus: b, cycles: 16 }
}

/// The exact effect of one decoded instruction on the CPU and the bus, and
/// its cycle cost. This is the semantics every instruction method and the
/// dispatcher are verified against.
pub open spec fn spec_execute(i: Instruction, cpu: Cpu, b: BusView) -> Effect {
    let regs = cpu.regs;
    match i {
        Instruction::NOP => Effect { cpu, bus: b, cycles: 4 },
        Instruction::LDBCD16 => {
            let (v, r1) = spec_fetch16(regs, b);
            Effect { cpu: Cpu { regs: r1.spec_with_bc(v), ..cpu }, bus: b, cycles: 12 }
        },
        Instruction::LDBCA => Effect {
            cpu,
            bus: spec_bus_write(b, regs.spec_bc(), regs.a),
            cycles: 8,
        },
        Instruction::INCBC => Effect {
            cpu: Cpu { regs: regs.spec_with_bc(wrap_add16(regs.spec_bc(), 1)), ..cpu },
            bus: b,
            cycles: 8,
        },
        Instruction::DECB => Effect {
            cpu: Cpu { regs: spec_dec8(regs, Register8::B), ..cpu },
            bus: b,
            cycles: 4,
        },
        Instruction::LDDED16 => {
            let (v, r1) = spec_fetch16(regs, b);
            Effect { cpu: Cpu { regs: r1.spec_with_de(v), ..cpu }, bus: b, cycles: 12 }
        },
        Instruction::INCDE => Effect {
            cpu: Cpu { regs: regs.spec_with_de(wrap_add16(regs.spec_de(), 1)), ..cpu },
            bus: b,
            cycles: 8,
        },
        Instruction::JRNZR8 => spec_jr(cpu, b, !flag_set(regs.f, FLAG_Z)),
        Instruction::INCHL => Effect {
            cpu: Cpu { regs: regs.spec_with_hl(wrap_add16(regs.spec_hl(), 1)), ..cpu },
            bus: b,
            cycles: 8,
        },
        Instruction::INCH => Effect {
            cpu: Cpu { regs: spec_inc8(regs, Register8::H), ..cpu },
            bus: b,
            cycles: 4,
        },
        Instruction::JRZR8 => spec_jr(cpu, b, flag_set(regs.f, FLAG_Z)),
        Instruction::LDADE => Effect {
            cpu: Cpu { regs: Registers { a: b.mem[regs.spec_de() as int], ..regs }, ..cpu },
            bus: b,
            cycles: 8,
        },
        Instruction::LDAHLINC => {
            let r1 = Registers { a: b.mem[regs.spec_hl() as int], ..regs };
            Effect {
                cpu: Cpu { regs: r1.spec_with_hl(wrap_add16(regs.spec_hl(), 1)), ..cpu },
                bus: b,
                cycles: 8,
            }
        },
        Instruction::INCL => Effect {
            cpu: Cpu { regs: spec_inc8(regs, Register8::L), ..cpu },
            bus: b,
            cycles: 4,
        },
        Instruction::ADD(t) => Effect {
            cpu: Cpu { regs: spec_add_a(regs, spec_target8(regs, t)), ..cpu },
            bus: b,
            cycles: 4,
        },
        Instruction::LDIMM8(t) => {
            let (v, r1) = spec_fetch8(regs, b);
            Effect { cpu: Cpu { regs: r1.spec_with_reg8(t, v), ..cpu }, bus: b, cycles: 8 }
        },
        Instruction::LDA8A => {
            let (off, r1) = spec_fetch8(regs, b);
            Effect {
                cpu: Cpu { regs: r1, ..cpu },
                bus: spec_bus_write(b, 0xFF00u16 | (off as u16), regs.a),
                cycles: 12,
            }
        },
        Instruction::LDA16A => {
            let (addr, r1) = spec_fetch16(regs, b);
            Effect {
                cpu: Cpu { regs: r1, ..cpu },
                bus: spec_bus_write(b, addr, regs.a),
                cycles: 16,
            }
        },
        Instruction::LDAA16 => {
            let (addr, r1) = spec_fetch16(regs, b);
            Effect {
                cpu: Cpu { regs: Registers { a: b.mem[addr as int], ..r1 }, ..cpu },
                bus: b,
                cycles: 16,
            }
        },
        Instruction::LDHLD16 => {
            let (v, r1) = spec_fetch16(regs, b);
            Effect { cpu: Cpu { regs: r1.spec_with_hl(v), ..cpu }, bus: b, cycles: 12 }
        },
        Instruction::LDHLPOSA => Effect {
            cpu: Cpu { regs: regs.spec_with_hl(wrap_add16(regs.spec_hl(), 1)), ..cpu },
            bus: spec_bus_write(b, regs.spec_hl(), regs.a),
            cycles: 8,
        },
        Instruction::LDHLNEGA => Effect {
            cpu: Cpu { regs: regs.spec_with_hl(wrap_sub16(regs.spec_hl(), 1)), ..cpu },
            bus: spec_bus_write(b, regs.spec_hl(), regs.a),
            cycles: 8,
        },
        Instruction::JRR8 => spec_jr(cpu, b, true),
        Instruction::JPA16 => {
            let (addr, r1) = spec_fetch16(regs, b);
            Effect {
                cpu: Cpu { regs: Registers { pc: addr, ..r1 }, ..cpu },
                bus: b,
                cycles: 16,
            }
        },
        Instruction::CALLNZA16 => spec_call(cpu, b, !flag_set(regs.f, FLAG_Z)),
        Instruction::XORB => Effect {
            cpu: Cpu { regs: spec_xor_a(regs, regs.b), ..cpu },
            bus: b,
            cycles: 4,
        },
        Instruction::XORC => Effect {
            cpu: Cpu { regs: spec_xor_a(regs, regs.c), ..cpu },
            bus: b,
            cycles: 4,
        },
        Instruction::XORD => Effect {
            cpu: Cpu { regs: spec_xor_a(regs, regs.d), ..cpu },
            bus: b,
            cycles: 4,
        },
        Instruction::XORE => Effect {
            cpu: Cpu { regs: spec_xor_a(regs, regs.e), ..cpu },
            bus: b,
            cycles: 4,
        },
        Instruction::XORH => Effect {
            cpu: Cpu { regs: spec_xor_a(regs, regs.h), ..cpu },
            bus: b,
            cycles: 4,
        },
        Instruction::XORL => Effect {
            cpu: Cpu { regs: spec_xor_a(regs, regs.l), ..cpu },
            bus: b,
            cycles: 4,
        },
        Instruction::XORA => Effect {
            cpu: Cpu { regs: spec_xor_a(regs, regs.a), ..cpu },
            bus: b,
            cycles: 4,
        },
        Instruction::POPBC => {
            let (v, r1) = spec_pop16(regs, b);
            Effect { cpu: Cpu { regs: r1.spec_with_bc(v), ..cpu }, bus: b, cycles: 12 }
        },
        Instruction::CALLA16 => spec_call(cpu, b, true),
        Instruction::RET => spec_ret(cpu, b),
        Instruction::LDRegReg(dst, src) => {
            let v = spec_operand8(regs, b, src);
            let cycles: u8 = if src is IndHL || dst is IndHL {
                8
            } else {
                4
            };
            match dst {
                Operand8::Reg(t) => Effect {
                    cpu: Cpu { regs: regs.spec_with_reg8(t, v), ..cpu },
                    bus: b,
                    cycles,
                },
                Operand8::IndHL => Effect {
                    cpu,
                    bus: spec_bus_write(b, regs.spec_hl(), v),
                    cycles,
                },
            }
        },
        Instruction::ORB => Effect {
            cpu: Cpu { regs: spec_or_a(regs, regs.b), ..cpu },
            bus: b,
            cycles: 4,
        },
        Instruction::ORC => Effect {
            cpu: Cpu { regs: spec_or_a(regs, regs.c), ..cpu },
            bus: b,
            cycles: 4,
        },
        Instruction::ORD => Effect {
            cpu: Cpu { regs: spec_or_a(regs, regs.d), ..cpu },
            bus: b,
            cycles: 4,
        },
        Instruction::ORE => Effect {
            cpu: Cpu { regs: spec_or_a(regs, regs.e), ..cpu },
            bus: b,
            cycles: 4,
        },
        Instruction::ORH => Effect {
            cpu: Cpu { regs: spec_or_a(regs, regs.h), ..cpu },
            bus: b,
            cycles: 4,
        },
        Instruction::ORL => Effect {
            cpu: Cpu { regs: spec_or_a(regs, regs.l), ..cpu },
            bus: b,
            cycles: 4,
        },
        Instruction::ORHL => Effect {
            cpu: Cpu { regs: spec_or_a(regs, b.mem[regs.spec_hl() as int]), ..cpu },
            bus: b,
            cycles: 8,
        },
        Instruction::ORA => Effect {
            cpu: Cpu { regs: spec_or_a(regs, regs.a), ..cpu },
            bus: b,
            cycles: 4,
        },
        Instruction::CP(op) => Effect {
            cpu: Cpu { regs: spec_cp_a(regs, spec_operand8(regs, b, op)), ..cpu },
            bus: b,
            cycles: if op is IndHL {
                8
            } else {
                4
            },
        },
        Instruction::DI => Effect { cpu: Cpu { ime: false, ..cpu }, bus: b, cycles: 4 },
        Instruction::LDSPD16 => {
            let (v, r1) = spec_fetch16(regs, b);
            Effect {
                cpu: Cpu { regs: Registers { sp: v, ..r1 }, ..cpu },
                bus: b,
                cycles: 12,
            }
        },
        Instruction::PUSHBC => {
            let (r1, b1) = spec_push_bytes(regs, b, regs.b, regs.c);
            Effect { cpu: Cpu { regs: r1, ..cpu }, bus: b1, cycles: 16 }
        },
        Instruction::ADDAD8 => {
            let (n, r1) = spec_fetch8(regs, b);
            Effect { cpu: Cpu { regs: spec_add_a(r1, n), ..cpu }, bus: b, cycles: 8 }
        },
        Instruction::SUBD8 => {
            let (n, r1) = spec_fetch8(regs, b);
            Effect { cpu: Cpu { regs: spec_sub_a(r1, n), ..cpu }, bus: b, cycles: 8 }
        },
        Instruction::POPHL => {
            let (v, r1) = spec_pop16(regs, b);
            Effect { cpu: Cpu { regs: r1.spec_with_hl(v), ..cpu }, bus: b, cycles: 12 }
        },
        Instruction::PUSHHL => {
            let (r1, b1) = spec_push_bytes(regs, b, regs.h, regs.l);
            Effect { cpu: Cpu { regs: r1, ..cpu }, bus: b1, cycles: 16 }
        },
        Instruction::ANDD8 => {
            let (n, r1) = spec_fetch8(regs, b);
            Effect { cpu: Cpu { regs: spec_and_a(r1, n), ..cpu }, bus: b, cycles: 8 }
        },
        Instruction::LDHAA8 => {
            let (off, r1) = spec_fetch8(regs, b);
            Effect {
                cpu: Cpu {
                    regs: Registers { a: b.mem[(0xFF00u16 | (off as u16)) as int], ..r1 },
                    ..cpu
                },
                bus: b,
                cycles: 12,
            }
        },
        Instruction::POPAF => {
            let (v, r1) = spec_pop16(regs, b);
            Effect { cpu: Cpu { regs: r1.spec_with_af(v), ..cpu }, bus: b, cycles: 12 }
        },
        Instruction::PUSHAF => {
            let (r1, b1) = spec_push_bytes(regs, b, regs.a, regs.f & 0xF0);
            Effect { cpu: Cpu { regs: r1, ..cpu }, bus: b1, cycles: 16 }
        },
        Instruction::CPD8 => {
            let (n, r1) = spec_fetch8(regs, b);
            Effect { cpu: Cpu { regs: spec_cp_a(r1, n), ..cpu }, bus: b, cycles: 8 }
        },
        Instruction::HALT => Effect { cpu: Cpu { halted: true, ..cpu }, bus: b, cycles: 4 },
    }
}

/// The exact effect of one `step` call: the halted fixed-cost no-op, or
/// fetch, decode and execute. `None` marks the one failure of the core: the
/// opcode at the program counter is unmapped.
pub open spec fn spec_step(cpu: Cpu, b: BusView) -> Option<Effect> {
    if cpu.halted {
        Some(Effect { cpu, bus: b, cycles: 4 })
    } else {
        let (op, r1) = spec_fetch8(cpu.regs, b);
        match spec_decode(op) {
            Some(i) => Some(spec_execute(i, Cpu { regs: r1, ..cpu }, b)),
            None => None,
        }
    }
}

impl Cpu {
    /// One fetch-decode-execute cycle, or the halted no-op. While halted the
    /// CPU performs no bus access, mutates nothing and costs a fixed 4 cycles
    /// every call; otherwise the opcode at the program counter is fetched
    /// (advancing the counter past it), decoded and executed, and the
    /// instruction's cycle cost returned.
    pub fn step(&mut self, bus: &mut Bus) -> (cycles: u8)
        requires
            old(bus).wf(),
            !old(self).halted ==> spec_decode(old(bus)@.mem[old(self).regs.pc as int]) is Some,
        ensures
            final(bus).wf(),
            Some(Effect { cpu: *final(self), bus: final(bus)@, cycles }) == spec_step(
                *old(self),
                old(bus)@,
            ),
            old(self).halted ==> *final(self) == *old(self) && *final(bus) == *old(bus)
                && cycles == 4,
    {
        if self.halted {
            return 4;
        }
        let opcode = bus.read8(self.regs.pc);
        self.regs.pc = self.regs.pc.wrapping_add(1);
        let instruction = decode(opcode);
        self.execute_instruction(instruction, bus)
    }

    /// Performs one decoded instruction's effects on the register file and
    /// the bus and returns its cycle cost, exactly as `spec_execute` states.
    fn execute_instruction(&mut self, instr: Instruction, bus: &mut Bus) -> (cycles: u8)
        requires
            old(bus).wf(),
        ensures
            final(bus).wf(),
            (Effect { cpu: *final(self), bus: final(bus)@, cycles }) == spec_execute(
                instr,
                *old(self),
                old(bus)@,
            ),
    {
        match instr {
            Instruction::NOP => 4,
            Instruction::LDBCD16 => self.ld_bc_d16(bus),
            Instruction::LDBCA => self.ld_bc_a(bus),
            Instruction::INCBC => self.inc_bc(),
            Instruction::DECB => self.dec_b(),
            Instruction::INCHL => self.inc_hl(),
            Instruction::INCH => self.inc_h(),
            Instruction::LDDED16 => self.ld_de_d16(bus),
            Instruction::INCDE => self.inc_de(),
            Instruction::LDADE => self.ld_a_de(bus),
            Instruction::JRZR8 => self.jr_z_r8(bus),
            Instruction::JRNZR8 => self.jr_nz_r8(bus),
            Instruction::LDAHLINC => self.ld_a_hlinc(bus),
            Instruction::INCL => self.inc_l(),
            Instruction::ADD(target) => self.add(target),
            Instruction::ORB => self.or_b(),
            Instruction::ORC => self.or_c(),
            Instruction::ORD => self.or_d(),
            Instruction::ORE => self.or_e(),
            Instruction::ORH => self.or_h(),
            Instruction::ORL => self.or_l(),
            Instruction::ORHL => self.or_hl(bus),
            Instruction::ORA => self.or_a(),
            Instruction::LDIMM8(reg) => self.ld_imm8(reg, bus),
            Instruction::LDHLD16 => self.ld_hl_d16(bus),
            Instruction::LDHLPOSA => self.ld_hlpos_a(bus),
            Instruction::LDHLNEGA => self.ld_hlneg_a(bus),
            Instruction::LDA8A => self.ld_a8_a(bus),
            Instruction::LDA16A => self.ld_a16_a(bus),
            Instruction::LDAA16 => self.ld_a_a16(bus),
            Instruction::JRR8 => self.jr_r8(bus),
            Instruction::LDRegReg(dst, src) => self.ld_reg_reg(dst, src, bus),
            Instruction::LDSPD16 => self.ld_sp_d16(bus),
            Instruction::CP(reg) => self.cp(reg, bus),
            Instruction::XORB => self.xor_b(),
            Instruction::XORC => self.xor_c(),
            Instruction::XORD => self.xor_d(),
            Instruction::XORE => self.xor_e(),
            Instruction::XORH => self.xor_h(),
            Instruction::XORL => self.xor_l(),
            Instruction::XORA => self.xor_a(),
            Instruction::POPBC => self.pop_bc(bus),
            Instruction::JPA16 => self.jp_a16(bus),
            Instruction::CALLNZA16 => self.call_nz_a16(bus),
            Instruction::PUSHBC => self.push_bc(bus),
            Instruction::ADDAD8 => self.add_a_d8(bus),
            Instruction::SUBD8 => self.sub_d8(bus),
            Instruction::CALLA16 => self.call_a16(bus),
            Instruction::RET => self.ret(bus),
            Instruction::PUSHHL => self.push_hl(bus),
            Instruction::ANDD8 => self.and_d8(bus),
            Instruction::POPHL => self.pop_hl(bus),
            Instruction::DI => self.di(),
            Instruction::LDHAA8 => self.ldh_a_a8(bus),
            Instruction::POPAF => self.pop_af(bus),
            Instruction::PUSHAF => self.push_af(bus),
            Instruction::CPD8 => self.cp_d8(bus),
            Instruction::HALT => self.halt(),
        }
    }

    /// Reads an 8-bit immediate at the program counter and advances the
    /// counter past it.
    fn fetch8(&mut self, bus: &Bus) -> (v: u8)
        requires
            bus.wf(),
        ensures
            (v, final(self).regs) == spec_fetch8(old(self).regs, bus@),
            final(self).halted == old(self).halted,
            final(self).ime == old(self).ime,
    {
        let v = bus.read8(self.regs.pc);
        self.regs.pc = self.regs.pc.wrapping_add(1);
        v
    }

    /// Reads a 16-bit immediate at the program counter, low byte then high
    /// byte, advancing the counter past both.
    fn fetch16(&mut self, bus: &Bus) -> (v: u16)
        requires
            bus.wf(),
        ensures
            (v, final(self).regs) == spec_fetch16(old(self).regs, bus@),
            final(self).halted == old(self).halted,
            final(self).ime == old(self).ime,
    {
        let lo = self.fetch8(bus);
        let hi = self.fetch8(bus);
        (hi as u16) << 8 | lo as u16
    }

    /// Pushes two bytes onto the stack, high byte first, pre-decrementing
    /// the stack pointer before each write.
    fn push_bytes(&mut self, bus: &mut Bus, hi: u8, lo: u8)
        requires
            old(bus).wf(),
        ensures
            final(bus).wf(),
            (final(self).regs, final(bus)@) == spec_push_bytes(old(self).regs, old(bus)@, hi, lo),
            final(self).halted == old(self).halted,
            final(self).ime == old(self).ime,
    {
        self.regs.sp = self.regs.sp.wrapping_sub(1);
        bus.write8(self.regs.sp, hi);
        self.regs.sp = self.regs.sp.wrapping_sub(1);
        bus.write8(self.regs.sp, lo);
    }

    /// Pops a 16-bit value from the stack, low byte then high byte,
    /// post-incrementing the stack pointer after each read.
    fn pop16(&mut self, bus: &Bus) -> (v: u16)
        requires
            bus.wf(),
        ensures
            (v, final(self).regs) == spec_pop16(old(self).regs, bus@),
            final(self).halted == old(self).halted,
            final(self).ime == old(self).ime,
    {
        let lo = bus.read8(self.regs.sp);
        self.regs.sp = self.regs.sp.wrapping_add(1);
        let hi = bus.read8(self.regs.sp);
        self.regs.sp = self.regs.sp.wrapping_add(1);
        (hi as u16) << 8 | lo as u16
    }

    fn ld_bc_d16(&mut self, bus: &mut Bus) -> (cycles: u8)
        requires
            old(bus).wf(),
        ensures
            final(bus).wf(),
            (Effect { cpu: *final(self), bus: final(bus)@, cycles }) == spec_execute(
                Instruction::LDBCD16,
                *old(self),
                old(bus)@,
            ),
    {
        let value = self.fetch16(bus);
        self.regs.set_bc(value);
        12
    }

    fn ld_bc_a(&mut self, bus: &mut Bus) -> (cycles: u8)
        requires
            old(bus).wf(),
        ensures
            final(bus).wf(),
            (Effect { cpu: *final(self), bus: final(bus)@, cycles }) == spec_execute(
                Instruction::LDBCA,
                *old(self),
                old(bus)@,
            ),
    {
        let addr = self.regs.get_bc();
        bus.write8(addr, self.regs.a);
        8
    }

    fn inc_bc(&mut self) -> (cycles: u8)
        ensures
            *final(self) == (Cpu {
                regs: old(self).regs.spec_with_bc(wrap_add16(old(self).regs.spec_bc(), 1)),
                ..*old(self)
            }),
            cycles == 8,
    {
        let data = self.regs.get_bc();
        let result = data.wrapping_add(1);
        self.regs.set_bc(result);
        8
    }

    /// DEC B updates Zero, Subtract and Half-carry from the single operand
    /// and leaves Carry unaffected. Half-carry is the subtraction's borrow
    /// into bit 4: set exactly when the low nibble of B was zero.
    fn dec_b(&mut self) -> (cycles: u8)
        ensures
            *final(self) == (Cpu { regs: spec_dec8(old(self).regs, Register8::B), ..*old(self) }),
            final(self).regs.b == wrap_sub8(old(self).regs.b, 1),
            flag_set(final(self).regs.f, FLAG_Z) == (final(self).regs.b == 0),
            flag_set(final(self).regs.f, FLAG_N),
            flag_set(final(self).regs.f, FLAG_H) == (old(self).regs.b & 0x0F == 0),
            flag_set(final(self).regs.f, FLAG_C) == flag_set(old(self).regs.f, FLAG_C),
            cycles == 4,
    {
        let orig_val = self.regs.b;
        let result = self.regs.b.wrapping_sub(1);
        self.regs.b = result;
        self.regs.set_z(result == 0);
        self.regs.set_n(true);
        self.regs.set_h((orig_val & 0x0F) == 0x00);
        proof {
            crate::bits::lemma_flags_znh(
                old(self).regs.f,
                result == 0,
                true,
                orig_val & 0x0F == 0,
            );
        }
        4
    }

    fn inc_hl(&mut self) -> (cycles: u8)
        ensures
            *final(self) == (Cpu {
                regs: old(self).regs.spec_with_hl(wrap_add16(old(self).regs.spec_hl(), 1)),
                ..*old(self)
            }),
            cycles == 8,
    {
        let data = self.regs.get_hl();
        let result = data.wrapping_add(1);
        self.regs.set_hl(result);
        8
    }

    /// INC H updates Zero, Subtract and Half-carry from the single operand
    /// and leaves Carry unaffected.
    fn inc_h(&mut self) -> (cycles: u8)
        ensures
            *final(self) == (Cpu { regs: spec_inc8(old(self).regs, Register8::H), ..*old(self) }),
            final(self).regs.h == wrap_add8(old(self).regs.h, 1),
            flag_set(final(self).regs.f, FLAG_Z) == (final(self).regs.h == 0),
            !flag_set(final(self).regs.f, FLAG_N),
            flag_set(final(self).regs.f, FLAG_C) == flag_set(old(self).regs.f, FLAG_C),
            cycles == 4,
    {
        let orig_val = self.regs.h;
        let result = self.regs.h.wrapping_add(1);
        self.regs.h = result;
        self.regs.set_z(result == 0);
        self.regs.set_n(false);
        self.regs.set_h((orig_val & 0x0F) == 0x0F);
        proof {
            crate::bits::lemma_flags_znh(
                old(self).regs.f,
                result == 0,
                false,
                orig_val & 0x0F == 0x0F,
            );
        }
        4
    }

    /// INC L updates Zero, Subtract and Half-carry from the single operand
    /// and leaves Carry unaffected.
    fn inc_l(&mut self) -> (cycles: u8)
        ensures
            *final(self) == (Cpu { regs: spec_inc8(old(self).regs, Register8::L), ..*old(self) }),
            final(self).regs.l == wrap_add8(old(self).regs.l, 1),
            flag_set(final(self).regs.f, FLAG_Z) == (final(self).regs.l == 0),
            !flag_set(final(self).regs.f, FLAG_N),
            flag_set(final(self).regs.f, FLAG_C) == flag_set(old(self).regs.f, FLAG_C),
            cycles == 4,
    {
        let orig_val = self.regs.l;
        let result = self.regs.l.wrapping_add(1);
        self.regs.l = result;
        self.regs.set_z(result == 0);
        self.regs.set_n(false);
        self.regs.set_h((orig_val & 0x0F) == 0x0F);
        proof {
            crate::bits::lemma_flags_znh(
                old(self).regs.f,
                result == 0,
                false,
                orig_val & 0x0F == 0x0F,
            );
        }
        4
    }

    fn ld_de_d16(&mut self, bus: &mut Bus) -> (cycles: u8)
        requires
            old(bus).wf(),
        ensures
            final(bus).wf(),
            (Effect { cpu: *final(self), bus: final(bus)@, cycles }) == spec_execute(
                Instruction::LDDED16,
                *old(self),
                old(bus)@,
            ),
    {
        let value = self.fetch16(bus);
        self.regs.set_de(value);
        12
    }

    fn inc_de(&mut self) -> (cycles: u8)
        ensures
            *final(self) == (Cpu {
                regs: old(self).regs.spec_with_de(wrap_add16(old(self).regs.spec_de(), 1)),
                ..*old(self)
            }),
            cycles == 8,
    {
        let data = self.regs.get_de();
        let result = data.wrapping_add(1);
        self.regs.set_de(result);
        8
    }

    fn ld_a_de(&mut self, bus: &mut Bus) -> (cycles: u8)
        requires
            old(bus).wf(),
        ensures
            final(bus).wf(),
            *final(bus) == *old(bus),
            (Effect { cpu: *final(self), bus: final(bus)@, cycles }) == spec_execute(
                Instruction::LDADE,
                *old(self),
                old(bus)@,
            ),
    {
        let addr = self.regs.get_de();
        self.regs.a = bus.read8(addr);
        8
    }

    /// Relative jump if the Zero flag is set: the displacement byte is
    /// always consumed; taken costs 12 cycles and applies the displacement
    /// to the already-advanced counter, not taken costs 8 and discards it.
    fn jr_z_r8(&mut self, bus: &mut Bus) -> (cycles: u8)
        requires
            old(bus).wf(),
        ensures
            final(bus).wf(),
            *final(bus) == *old(bus),
            (Effect { cpu: *final(self), bus: final(bus)@, cycles }) == spec_execute(
                Instruction::JRZR8,
                *old(self),
                old(bus)@,
            ),
            flag_set(old(self).regs.f, FLAG_Z) ==> cycles == 12 && final(self).regs.pc
                == wrap_add16(
                wrap_add16(old(self).regs.pc, 1),
                sign_ext16(old(bus)@.mem[old(self).regs.pc as int]),
            ),
            !flag_set(old(self).regs.f, FLAG_Z) ==> cycles == 8 && final(self).regs.pc
                == wrap_add16(old(self).regs.pc, 1),
            *final(self) == (Cpu {
                regs: Registers { pc: final(self).regs.pc, ..old(self).regs },
                ..*old(self)
            }),
    {
        let offset = self.fetch8(bus);
        let disp: u16 = if offset >= 0x80 {
            (offset as u16) | 0xFF00
        } else {
            offset as u16
        };
        if self.regs.get_z() {
            self.regs.pc = self.regs.pc.wrapping_add(disp);
            12
        } else {
            8
        }
    }

    /// Relative jump if the Zero flag is clear; mirror timing of `jr_z_r8`.
    fn jr_nz_r8(&mut self, bus: &mut Bus) -> (cycles: u8)
        requires
            old(bus).wf(),
        ensures
            final(bus).wf(),
            *final(bus) == *old(bus),
            (Effect { cpu: *final(self), bus: final(bus)@, cycles }) == spec_execute(
                Instruction::JRNZR8,
                *old(self),
                old(bus)@,
            ),
            !flag_set(old(self).regs.f, FLAG_Z) ==> cycles == 12 && final(self).regs.pc
                == wrap_add16(
                wrap_add16(old(self).regs.pc, 1),
                sign_ext16(old(bus)@.mem[old(self).regs.pc as int]),
            ),
            flag_set(old(self).regs.f, FLAG_Z) ==> cycles == 8 && final(self).regs.pc
                == wrap_add16(old(self).regs.pc, 1),
            *final(self) == (Cpu {
                regs: Registers { pc: final(self).regs.pc, ..old(self).regs },
                ..*old(self)
            }),
    {
        let offset = self.fetch8(bus);
        let disp: u16 = if offset >= 0x80 {
            (offset as u16) | 0xFF00
        } else {
            offset as u16
        };
        if !self.regs.get_z() {
            self.regs.pc = self.regs.pc.wrapping_add(disp);
            12
        } else {
            8
        }
    }

    fn ld_a_hlinc(&mut self, bus: &mut Bus) -> (cycles: u8)
        requires
            old(bus).wf(),
        ensures
            final(bus).wf(),
            *final(bus) == *old(bus),
            (Effect { cpu: *final(self), bus: final(bus)@, cycles }) == spec_execute(
                Instruction::LDAHLINC,
                *old(self),
                old(bus)@,
            ),
    {
        let hl = self.regs.get_hl();
        self.regs.a = bus.read8(hl);
        self.regs.set_hl(hl.wrapping_add(1));
        8
    }

    /// 8-bit ADD of a direct register into A, with the documented flag
    /// contract: Z from the wrapped result, N clear, H the carry out of bit
    /// 3, C the carry out of bit 7.
    fn add(&mut self, target: ArithmeticTarget) -> (cycles: u8)
        ensures
            *final(self) == (Cpu {
                regs: spec_add_a(old(self).regs, spec_target8(old(self).regs, target)),
                ..*old(self)
            }),
            final(self).regs.a == wrap_add8(
                old(self).regs.a,
                spec_target8(old(self).regs, target),
            ),
            flag_set(final(self).regs.f, FLAG_Z) == (final(self).regs.a == 0),
            !flag_set(final(self).regs.f, FLAG_N),
            flag_set(final(self).regs.f, FLAG_H) == ((old(self).regs.a & 0x0F) + (spec_target8(
                old(self).regs,
                target,
            ) & 0x0F) > 0x0F),
            flag_set(final(self).regs.f, FLAG_C) == (old(self).regs.a + spec_target8(
                old(self).regs,
                target,
            ) > 0xFF),
            cycles == 4,
    {
        let value = match target {
            ArithmeticTarget::A => self.regs.a,
            ArithmeticTarget::B => self.regs.b,
            ArithmeticTarget::C => self.regs.c,
            ArithmeticTarget::D => self.regs.d,
            ArithmeticTarget::E => self.regs.e,
            ArithmeticTarget::H => self.regs.h,
            ArithmeticTarget::L => self.regs.l,
        };
        let a = self.regs.a;
        let result = a.wrapping_add(value);
        self.regs.set_z(result == 0);
        self.regs.set_n(false);
        self.regs.set_h(((a & 0x0F) as u16) + ((value & 0x0F) as u16) > 0x0F);
        self.regs.set_c((a as u16) + (value as u16) > 0xFF);
        self.regs.a = result;
        proof {
            crate::bits::lemma_flags_znhc(
                old(self).regs.f,
                result == 0,
                false,
                (a & 0x0F) + (value & 0x0F) > 0x0F,
                a + value > 0xFF,
            );
        }
        4
    }

    fn ld_imm8(&mut self, reg: Register8, bus: &mut Bus) -> (cycles: u8)
        requires
            old(bus).wf(),
        ensures
            final(bus).wf(),
            *final(bus) == *old(bus),
            (Effect { cpu: *final(self), bus: final(bus)@, cycles }) == spec_execute(
                Instruction::LDIMM8(reg),
                *old(self),
                old(bus)@,
            ),
    {
        let value = self.fetch8(bus);
        self.regs.write_reg8(reg, value);
        8
    }

    fn ld_hl_d16(&mut self, bus: &mut Bus) -> (cycles: u8)
        requires
            old(bus).wf(),
        ensures
            final(bus).wf(),
            (Effect { cpu: *final(self), bus: final(bus)@, cycles }) == spec_execute(
                Instruction::LDHLD16,
                *old(self),
                old(bus)@,
            ),
    {
        let value = self.fetch16(bus);
        self.regs.set_hl(value);
        12
    }

    fn ld_a16_a(&mut self, bus: &mut Bus) -> (cycles: u8)
        requires
            old(bus).wf(),
        ensures
            final(bus).wf(),
            (Effect { cpu: *final(self), bus: final(bus)@, cycles }) == spec_execute(
                Instruction::LDA16A,
                *old(self),
                old(bus)@,
            ),
    {
        let addr = self.fetch16(bus);
        bus.write8(addr, self.regs.a);
        16
    }

    fn ld_sp_d16(&mut self, bus: &mut Bus) -> (cycles: u8)
        requires
            old(bus).wf(),
        ensures
            final(bus).wf(),
            (Effect { cpu: *final(self), bus: final(bus)@, cycles }) == spec_execute(
                Instruction::LDSPD16,
                *old(self),
                old(bus)@,
            ),
    {
        let value = self.fetch16(bus);
        self.regs.sp = value;
        12
    }

    fn ld_hlpos_a(&mut self, bus: &mut Bus) -> (cycles: u8)
        requires
            old(bus).wf(),
        ensures
            final(bus).wf(),
            (Effect { cpu: *final(self), bus: final(bus)@, cycles }) == spec_execute(
                Instruction::LDHLPOSA,
                *old(self),
                old(bus)@,
            ),
    {
        let hl = self.regs.get_hl();
        bus.write8(hl, self.regs.a);
        self.regs.set_hl(hl.wrapping_add(1));
        8
    }

    fn ld_hlneg_a(&mut self, bus: &mut Bus) -> (cycles: u8)
        requires
            old(bus).wf(),
        ensures
            final(bus).wf(),
            (Effect { cpu: *final(self), bus: final(bus)@, cycles }) == spec_execute(
                Instruction::LDHLNEGA,
                *old(self),
                old(bus)@,
            ),
    {
        let hl = self.regs.get_hl();
        bus.write8(hl, self.regs.a);
        self.regs.set_hl(hl.wrapping_sub(1));
        8
    }

    fn ld_a8_a(&mut self, bus: &mut Bus) -> (cycles: u8)
        requires
            old(bus).wf(),
        ensures
            final(bus).wf(),
            (Effect { cpu: *final(self), bus: final(bus)@, cycles }) == spec_execute(
                Instruction::LDA8A,
                *old(self),
                old(bus)@,
            ),
    {
        let a = self.regs.a;
        let offset = self.fetch8(bus);
        let addr = 0xFF00u16 | (offset as u16);
        bus.write8(addr, a);
        12
    }

    fn ld_a_a16(&mut self, bus: &mut Bus) -> (cycles: u8)
        requires
            old(bus).wf(),
        ensures
            final(bus).wf(),
            *final(bus) == *old(bus),
            (Effect { cpu: *final(self), bus: final(bus)@, cycles }) == spec_execute(
                Instruction::LDAA16,
                *old(self),
                old(bus)@,
            ),
    {
        let addr = self.fetch16(bus);
        self.regs.a = bus.read8(addr);
        16
    }

    /// Unconditional relative jump: the displacement is always applied to
    /// the counter already advanced past the displacement byte. 12 cycles.
    fn jr_r8(&mut self, bus: &mut Bus) -> (cycles: u8)
        requires
            old(bus).wf(),
        ensures
            final(bus).wf(),
            *final(bus) == *old(bus),
            (Effect { cpu: *final(self), bus: final(bus)@, cycles }) == spec_execute(
                Instruction::JRR8,
                *old(self),
                old(bus)@,
            ),
    {
        let offset = self.fetch8(bus);
        let disp: u16 = if offset >= 0x80 {
            (offset as u16) | 0xFF00
        } else {
            offset as u16
        };
        self.regs.pc = self.regs.pc.wrapping_add(disp);
        12
    }

    fn ld_reg_reg(&mut self, dst: Operand8, src: Operand8, bus: &mut Bus) -> (cycles: u8)
        requires
            old(bus).wf(),
        ensures
            final(bus).wf(),
            (Effect { cpu: *final(self), bus: final(bus)@, cycles }) == spec_execute(
                Instruction::LDRegReg(dst, src),
                *old(self),
                old(bus)@,
            ),
    {
        let value = match src {
            Operand8::Reg(r) => self.regs.read_reg8(r),
            Operand8::IndHL => {
                let addr = self.regs.get_hl();
                bus.read8(addr)
            },
        };
        match dst {
            Operand8::Reg(r) => self.regs.write_reg8(r, value),
            Operand8::IndHL => {
                let addr = self.regs.get_hl();
                bus.write8(addr, value);
            },
        }
        if matches!(src, Operand8::IndHL) || matches!(dst, Operand8::IndHL) {
            8
        } else {
            4
        }
    }

    /// Compare: computes the flags of subtracting the operand from A and
    /// discards the result — A is never written, no register but F changes,
    /// and the flags are exactly those SUB would set.
    fn cp(&mut self, op: Operand8, bus: &Bus) -> (cycles: u8)
        requires
            bus.wf(),
        ensures
            (Effect { cpu: *final(self), bus: bus@, cycles }) == spec_execute(
                Instruction::CP(op),
                *old(self),
                bus@,
            ),
            final(self).regs.a == old(self).regs.a,
            *final(self) == (Cpu {
                regs: Registers { f: final(self).regs.f, ..old(self).regs },
                ..*old(self)
            }),
            final(self).regs.f == sub_flags(
                old(self).regs.f,
                old(self).regs.a,
                spec_operand8(old(self).regs, bus@, op),
            ),
            ({
                let a = old(self).regs.a;
                let v = spec_operand8(old(self).regs, bus@, op);
                let f = final(self).regs.f;
                flag_set(f, FLAG_Z) == (a == v) && flag_set(f, FLAG_N) && flag_set(f, FLAG_H) == (
                (a & 0x0F) < (v & 0x0F)) && flag_set(f, FLAG_C) == (a < v)
            }),
    {
        let value = match op {
            Operand8::Reg(r) => self.regs.read_reg8(r),
            Operand8::IndHL => {
                let addr = self.regs.get_hl();
                bus.read8(addr)
            },
        };
        let a = self.regs.a;
        let result = a.wrapping_sub(value);
        self.regs.set_z(result == 0);
        self.regs.set_n(true);
        self.regs.set_h((a & 0x0F) < (value & 0x0F));
        self.regs.set_c(a < value);
        proof {
            crate::bits::lemma_flags_znhc(
                old(self).regs.f,
                result == 0,
                true,
                (a & 0x0F) < (value & 0x0F),
                a < value,
            );
        }
        match op {
            Operand8::Reg(_) => 4,
            Operand8::IndHL => 8,
        }
    }

    fn xor_b(&mut self) -> (cycles: u8)
        ensures
            *final(self) == (Cpu {
                regs: spec_xor_a(old(self).regs, old(self).regs.b),
                ..*old(self)
            }),
            cycles == 4,
    {
        let result = self.regs.a ^ self.regs.b;
        self.regs.a = result;
        self.regs.set_z(result == 0);
        self.regs.set_n(false);
        self.regs.set_h(false);
        self.regs.set_c(false);
        4
    }

    fn xor_c(&mut self) -> (cycles: u8)
        ensures
            *final(self) == (Cpu {
                regs: spec_xor_a(old(self).regs, old(self).regs.c),
                ..*old(self)
            }),
            cycles == 4,
    {
        let result = self.regs.a ^ self.regs.c;
        self.regs.a = result;
        self.regs.set_z(result == 0);
        self.regs.set_n(false);
        self.regs.set_h(false);
        self.regs.set_c(false);
        4
    }

    fn xor_d(&mut self) -> (cycles: u8)
        ensures
            *final(self) == (Cpu {
                regs: spec_xor_a(old(self).regs, old(self).regs.d),
                ..*old(self)
            }),
            cycles == 4,
    {
        let result = self.regs.a ^ self.regs.d;
        self.regs.a = result;
        self.regs.set_z(result == 0);
        self.regs.set_n(false);
        self.regs.set_h(false);
        self.regs.set_c(false);
        4
    }

    fn xor_e(&mut self) -> (cycles: u8)
        ensures
            *final(self) == (Cpu {
                regs: spec_xor_a(old(self).regs, old(self).regs.e),
                ..*old(self)
            }),
            cycles == 4,
    {
        let result = self.regs.a ^ self.regs.e;
        self.regs.a = result;
        self.regs.set_z(result == 0);
        self.regs.set_n(false);
        self.regs.set_h(false);
        self.regs.set_c(false);
        4
    }

    fn xor_h(&mut self) -> (cycles: u8)
        ensures
            *final(self) == (Cpu {
                regs: spec_xor_a(old(self).regs, old(self).regs.h),
                ..*old(self)
            }),
            cycles == 4,
    {
        let result = self.regs.a ^ self.regs.h;
        self.regs.a = result;
        self.regs.set_z(result == 0);
        self.regs.set_n(false);
        self.regs.set_h(false);
        self.regs.set_c(false);
        4
    }

    fn xor_l(&mut self) -> (cycles: u8)
        ensures
            *final(self) == (Cpu {
                regs: spec_xor_a(old(self).regs, old(self).regs.l),
                ..*old(self)
            }),
            cycles == 4,
    {
        let result = self.regs.a ^ self.regs.l;
        self.regs.a = result;
        self.regs.set_z(result == 0);
        self.regs.set_n(false);
        self.regs.set_h(false);
        self.regs.set_c(false);
        4
    }

    fn xor_a(&mut self) -> (cycles: u8)
        ensures
            *final(self) == (Cpu {
                regs: spec_xor_a(old(self).regs, old(self).regs.a),
                ..*old(self)
            }),
            cycles == 4,
    {
        let result = self.regs.a ^ self.regs.a;
        self.regs.a = result;
        self.regs.set_z(result == 0);
        self.regs.set_n(false);
        self.regs.set_h(false);
        self.regs.set_c(false);
        4
    }

    fn or_b(&mut self) -> (cycles: u8)
        ensures
            *final(self) == (Cpu {
                regs: spec_or_a(old(self).regs, old(self).regs.b),
                ..*old(self)
            }),
            cycles == 4,
    {
        let result = self.regs.a | self.regs.b;
        self.regs.a = result;
        self.regs.set_z(result == 0);
        self.regs.set_n(false);
        self.regs.set_h(false);
        self.regs.set_c(false);
        4
    }

    fn or_c(&mut self) -> (cycles: u8)
        ensures
            *final(self) == (Cpu {
                regs: spec_or_a(old(self).regs, old(self).regs.c),
                ..*old(self)
            }),
            cycles == 4,
    {
        let result = self.regs.a | self.regs.c;
        self.regs.a = result;
        self.regs.set_z(result == 0);
        self.regs.set_n(false);
        self.regs.set_h(false);
        self.regs.set_c(false);
        4
    }

    fn or_d(&mut self) -> (cycles: u8)
        ensures
            *final(self) == (Cpu {
                regs: spec_or_a(old(self).regs, old(self).regs.d),
                ..*old(self)
            }),
            cycles == 4,
    {
        let result = self.regs.a | self.regs.d;
        self.regs.a = result;
        self.regs.set_z(result == 0);
        self.regs.set_n(false);
        self.regs.set_h(false);
        self.regs.set_c(false);
        4
    }

    fn or_e(&mut self) -> (cycles: u8)
        ensures
            *final(self) == (Cpu {
                regs: spec_or_a(old(self).regs, old(self).regs.e),
                ..*old(self)
            }),
            cycles == 4,
    {
        let result = self.regs.a | self.regs.e;
        self.regs.a = result;
        self.regs.set_z(result == 0);
        self.regs.set_n(false);
        self.regs.set_h(false);
        self.regs.set_c(false);
        4
    }

    fn or_h(&mut self) -> (cycles: u8)
        ensures
            *final(self) == (Cpu {
                regs: spec_or_a(old(self).regs, old(self).regs.h),
                ..*old(self)
            }),
            cycles == 4,
    {
        let result = self.regs.a | self.regs.h;
        self.regs.a = result;
        self.regs.set_z(result == 0);
        self.regs.set_n(false);
        self.regs.set_h(false);
        self.regs.set_c(false);
        4
    }

    fn or_l(&mut self) -> (cycles: u8)
        ensures
            *final(self) == (Cpu {
                regs: spec_or_a(old(self).regs, old(self).regs.l),
                ..*old(self)
            }),
            cycles == 4,
    {
        let result = self.regs.a | self.regs.l;
        self.regs.a = result;
        self.regs.set_z(result == 0);
        self.regs.set_n(false);
        self.regs.set_h(false);
        self.regs.set_c(false);
        4
    }

    fn or_a(&mut self) -> (cycles: u8)
        ensures
            *final(self) == (Cpu {
                regs: spec_or_a(old(self).regs, old(self).regs.a),
                ..*old(self)
            }),
            cycles == 4,
    {
        let result = self.regs.a | self.regs.a;
        self.regs.a = result;
        self.regs.set_z(result == 0);
        self.regs.set_n(false);
        self.regs.set_h(false);
        self.regs.set_c(false);
        4
    }

    fn or_hl(&mut self, bus: &mut Bus) -> (cycles: u8)
        requires
            old(bus).wf(),
        ensures
            final(bus).wf(),
            *final(bus) == *old(bus),
            (Effect { cpu: *final(self), bus: final(bus)@, cycles }) == spec_execute(
                Instruction::ORHL,
                *old(self),
                old(bus)@,
            ),
    {
        let addr = self.regs.get_hl();
        let value = bus.read8(addr);
        let result = self.regs.a | value;
        self.regs.a = result;
        self.regs.set_z(result == 0);
        self.regs.set_n(false);
        self.regs.set_h(false);
        self.regs.set_c(false);
        8
    }

    fn pop_bc(&mut self, bus: &mut Bus) -> (cycles: u8)
        requires
            old(bus).wf(),
        ensures
            final(bus).wf(),
            *final(bus) == *old(bus),
            (Effect { cpu: *final(self), bus: final(bus)@, cycles }) == spec_execute(
                Instruction::POPBC,
                *old(self),
                old(bus)@,
            ),
    {
        let value = self.pop16(bus);
        self.regs.set_bc(value);
        12
    }

    fn jp_a16(&mut self, bus: &mut Bus) -> (cycles: u8)
        requires
            old(bus).wf(),
        ensures
            final(bus).wf(),
            *final(bus) == *old(bus),
            (Effect { cpu: *final(self), bus: final(bus)@, cycles }) == spec_execute(
                Instruction::JPA16,
                *old(self),
                old(bus)@,
            ),
    {
        let addr = self.fetch16(bus);
        self.regs.pc = addr;
        16
    }

    /// Conditional call: consumes the operand bytes either way; pushes the
    /// return address and jumps only when the Zero flag is clear.
    fn call_nz_a16(&mut self, bus: &mut Bus) -> (cycles: u8)
        requires
            old(bus).wf(),
        ensures
            final(bus).wf(),
            (Effect { cpu: *final(self), bus: final(bus)@, cycles }) == spec_execute(
                Instruction::CALLNZA16,
                *old(self),
                old(bus)@,
            ),
    {
        let target = self.fetch16(bus);
        let ret = self.regs.pc;
        if !self.regs.get_z() {
            self.push_bytes(bus, (ret >> 8) as u8, (ret & 0xFF) as u8);
            self.regs.pc = target;
            24
        } else {
            12
        }
    }

    fn push_bc(&mut self, bus: &mut Bus) -> (cycles: u8)
        requires
            old(bus).wf(),
        ensures
            final(bus).wf(),
            (Effect { cpu: *final(self), bus: final(bus)@, cycles }) == spec_execute(
                Instruction::PUSHBC,
                *old(self),
                old(bus)@,
            ),
    {
        let b = self.regs.b;
        let c = self.regs.c;
        self.push_bytes(bus, b, c);
        16
    }

    fn add_a_d8(&mut self, bus: &mut Bus) -> (cycles: u8)
        requires
            old(bus).wf(),
        ensures
            final(bus).wf(),
            *final(bus) == *old(bus),
            (Effect { cpu: *final(self), bus: final(bus)@, cycles }) == spec_execute(
                Instruction::ADDAD8,
                *old(self),
                old(bus)@,
            ),
    {
        let reg_a = self.regs.a;
        let n = self.fetch8(bus);
        let result = reg_a.wrapping_add(n);
        self.regs.a = result;
        self.regs.set_z(result == 0);
        self.regs.set_n(false);
        self.regs.set_h(((reg_a & 0x0F) as u16) + ((n & 0x0F) as u16) > 0x0F);
        self.regs.set_c((reg_a as u16) + (n as u16) > 0xFF);
        8
    }

    /// 8-bit SUB of an immediate from A: the same flags as CP, and the
    /// wrapped difference written back to A.
    fn sub_d8(&mut self, bus: &mut Bus) -> (cycles: u8)
        requires
            old(bus).wf(),
        ensures
            final(bus).wf(),
            *final(bus) == *old(bus),
            (Effect { cpu: *final(self), bus: final(bus)@, cycles }) == spec_execute(
                Instruction::SUBD8,
                *old(self),
                old(bus)@,
            ),
    {
        let reg_a = self.regs.a;
        let n = self.fetch8(bus);
        let result = reg_a.wrapping_sub(n);
        self.regs.a = result;
        self.regs.set_z(result == 0);
        self.regs.set_n(true);
        self.regs.set_h((reg_a & 0x0F) < (n & 0x0F));
        self.regs.set_c(reg_a < n);
        8
    }

    /// Unconditional call: pushes the address of the next instruction, high
    /// byte first, then jumps to the 16-bit target. 24 cycles.
    fn call_a16(&mut self, bus: &mut Bus) -> (cycles: u8)
        requires
            old(bus).wf(),
        ensures
            final(bus).wf(),
            (Effect { cpu: *final(self), bus: final(bus)@, cycles }) == spec_execute(
                Instruction::CALLA16,
                *old(self),
                old(bus)@,
            ),
    {
        let target = self.fetch16(bus);
        let ret = self.regs.pc;
        self.push_bytes(bus, (ret >> 8) as u8, (ret & 0xFF) as u8);
        self.regs.pc = target;
        24
    }

    /// Logical AND of an immediate into A. Half-carry is forced set — the
    /// hardware quirk — and Carry cleared.
    fn and_d8(&mut self, bus: &mut Bus) -> (cycles: u8)
        requires
            old(bus).wf(),
        ensures
            final(bus).wf(),
            *final(bus) == *old(bus),
            (Effect { cpu: *final(self), bus: final(bus)@, cycles }) == spec_execute(
                Instruction::ANDD8,
                *old(self),
                old(bus)@,
            ),
            flag_set(final(self).regs.f, FLAG_Z) == (final(self).regs.a == 0),
            flag_set(final(self).regs.f, FLAG_H),
            !flag_set(final(self).regs.f, FLAG_N),
            !flag_set(final(self).regs.f, FLAG_C),
    {
        let n = self.fetch8(bus);
        let result = self.regs.a & n;
        self.regs.a = result;
        self.regs.set_z(result == 0);
        self.regs.set_n(false);
        self.regs.set_h(true);
        self.regs.set_c(false);
        proof {
            crate::bits::lemma_flags_znhc(old(self).regs.f, result == 0, false, true, false);
        }
        8
    }

    fn pop_hl(&mut self, bus: &mut Bus) -> (cycles: u8)
        requires
            old(bus).wf(),
        ensures
            final(bus).wf(),
            *final(bus) == *old(bus),
            (Effect { cpu: *final(self), bus: final(bus)@, cycles }) == spec_execute(
                Instruction::POPHL,
                *old(self),
                old(bus)@,
            ),
    {
        let value = self.pop16(bus);
        self.regs.set_hl(value);
        12
    }

    fn push_hl(&mut self, bus: &mut Bus) -> (cycles: u8)
        requires
            old(bus).wf(),
        ensures
            final(bus).wf(),
            (Effect { cpu: *final(self), bus: final(bus)@, cycles }) == spec_execute(
                Instruction::PUSHHL,
                *old(self),
                old(bus)@,
            ),
    {
        let h = self.regs.h;
        let l = self.regs.l;
        self.push_bytes(bus, h, l);
        16
    }

    /// Return: pops the 16-bit return address, low byte first, into the
    /// program counter. 16 cycles.
    fn ret(&mut self, bus: &mut Bus) -> (cycles: u8)
        requires
            old(bus).wf(),
        ensures
            final(bus).wf(),
            *final(bus) == *old(bus),
            (Effect { cpu: *final(self), bus: final(bus)@, cycles }) == spec_execute(
                Instruction::RET,
                *old(self),
                old(bus)@,
            ),
    {
        let addr = self.pop16(bus);
        self.regs.pc = addr;
        16
    }

    /// DI clears the interrupt master-enable latch immediately; no
    /// one-instruction delay is modelled.
    fn di(&mut self) -> (cycles: u8)
        ensures
            *final(self) == (Cpu { ime: false, ..*old(self) }),
            cycles == 4,
    {
        self.ime = false;
        4
    }

    /// HALT latches the halted state and otherwise mutates nothing; it costs
    /// 4 cycles at the moment it executes.
    fn halt(&mut self) -> (cycles: u8)
        ensures
            *final(self) == (Cpu { halted: true, ..*old(self) }),
            cycles == 4,
    {
        self.halted = true;
        4
    }

    fn ldh_a_a8(&mut self, bus: &mut Bus) -> (cycles: u8)
        requires
            old(bus).wf(),
        ensures
            final(bus).wf(),
            *final(bus) == *old(bus),
            (Effect { cpu: *final(self), bus: final(bus)@, cycles }) == spec_execute(
                Instruction::LDHAA8,
                *old(self),
                old(bus)@,
            ),
    {
        let lo = self.fetch8(bus);
        let addr = 0xFF00u16 | (lo as u16);
        self.regs.a = bus.read8(addr);
        12
    }

    /// POP AF routes through the AF setter, so the restored F has its low
    /// nibble cleared regardless of what was on the stack: A takes the high
    /// byte popped at SP+1, F the low byte popped at SP masked to its high
    /// nibble, and SP advances by two.
    fn pop_af(&mut self, bus: &mut Bus) -> (cycles: u8)
        requires
            old(bus).wf(),
        ensures
            final(bus).wf(),
            *final(bus) == *old(bus),
            (Effect { cpu: *final(self), bus: final(bus)@, cycles }) == spec_execute(
                Instruction::POPAF,
                *old(self),
                old(bus)@,
            ),
            final(self).regs.a == old(bus)@.mem[wrap_add16(old(self).regs.sp, 1) as int],
            final(self).regs.f == old(bus)@.mem[old(self).regs.sp as int] & 0xF0,
            final(self).regs.sp == wrap_add16(old(self).regs.sp, 2),
            final(self).regs.f & 0x0F == 0,
    {
        let value = self.pop16(bus);
        self.regs.set_af(value);
        proof {
            let b0 = old(bus)@;
            let hi = b0.mem[wrap_add16(old(self).regs.sp, 1) as int];
            let lo = b0.mem[old(self).regs.sp as int];
            crate::bits::lemma_pair16_parts(hi, lo);
            crate::bits::lemma_pair16_low_mask(hi, lo);
        }
        12
    }

    /// PUSH AF pushes A, then F with its low nibble cleared.
    fn push_af(&mut self, bus: &mut Bus) -> (cycles: u8)
        requires
            old(bus).wf(),
        ensures
            final(bus).wf(),
            (Effect { cpu: *final(self), bus: final(bus)@, cycles }) == spec_execute(
                Instruction::PUSHAF,
                *old(self),
                old(bus)@,
            ),
    {
        let a = self.regs.a;
        let cleared_f = self.regs.f & 0xF0;
        self.push_bytes(bus, a, cleared_f);
        16
    }

    fn cp_d8(&mut self, bus: &mut Bus) -> (cycles: u8)
        requires
            old(bus).wf(),
        ensures
            final(bus).wf(),
            *final(bus) == *old(bus),
            (Effect { cpu: *final(self), bus: final(bus)@, cycles }) == spec_execute(
                Instruction::CPD8,
                *old(self),
                old(bus)@,
            ),
            final(self).regs.a == old(self).regs.a,
    {
        let n = self.fetch8(bus);
        let reg_a = self.regs.a;
        let result = reg_a.wrapping_sub(n);
        self.regs.set_z(result == 0);
        self.regs.set_n(true);
        self.regs.set_h((reg_a & 0x0F) < (n & 0x0F));
        self.regs.set_c(reg_a < n);
        8
    }
}

} // verus!
