//! System-wide laws, each proved against the specification functions the
//! executable contracts are stated over: pair round-trips, compare purity,
//! stack discipline, the call/return round trip, and the serial intercept.

use vstd::prelude::*;

use crate::bits::{
    hi8, lemma_pair16_af, lemma_pair16_parts, lemma_pair16_split, lo8, pair16, wrap_add16,
    wrap_sub16,
};
use crate::bus::{spec_bus_write, BusView, SERIAL_CTRL_ADDR, SERIAL_DATA_ADDR, SERIAL_START};
use crate::cpu::Cpu;
use crate::exec::{
    spec_cp_a, spec_execute, spec_pop16, spec_push_bytes, spec_step, spec_sub_a, Effect,
};
use crate::instructions::Instruction;
use crate::registers::Registers;

verus! {

/// Law: writing a 16-bit value to a register pair and reading the pair back
/// returns the value written; for AF the low nibble of F always clears, so
/// the pair reads back as the value masked to 0xFFF0.
pub proof fn lemma_pair_roundtrip(r: Registers, v: u16)
    ensures
        r.spec_with_bc(v).spec_bc() == v,
        r.spec_with_de(v).spec_de() == v,
        r.spec_with_hl(v).spec_hl() == v,
        r.spec_with_af(v).spec_af() == (v & 0xFFF0) as u16,
{
    lemma_pair16_split(v);
    lemma_pair16_af(v);
}

/// Law: CP is SUB without the result write-back. For every accumulator and
/// operand it sets exactly the flags SUB would compute and leaves A (and
/// every other register) unmodified.
pub proof fn lemma_cp_is_sub_without_result(r: Registers, v: u8)
    ensures
        spec_cp_a(r, v).f == spec_sub_a(r, v).f,
        spec_cp_a(r, v) == (Registers { a: r.a, ..spec_sub_a(r, v) }),
{
}

/// Law: pushing two bytes and immediately popping returns exactly the 16-bit
/// value they compose and restores the stack pointer. The two stack bytes
/// must not land on the serial-intercepted addresses, where a write is a
/// side effect instead of a store (from SP = 0xFF03 the push writes both of
/// them).
pub proof fn lemma_push_pop_bytes(r: Registers, b: BusView, hi: u8, lo: u8)
    requires
        b.wf(),
        wrap_sub16(r.sp, 1) != SERIAL_DATA_ADDR,
        wrap_sub16(r.sp, 1) != SERIAL_CTRL_ADDR,
        wrap_sub16(r.sp, 2) != SERIAL_DATA_ADDR,
        wrap_sub16(r.sp, 2) != SERIAL_CTRL_ADDR,
    ensures
        ({
            let (r1, b1) = spec_push_bytes(r, b, hi, lo);
            let (v, r2) = spec_pop16(r1, b1);
            v == pair16(hi, lo) && r2 == r
        }),
{
    let (r1, b1) = spec_push_bytes(r, b, hi, lo);
    let (v, r2) = spec_pop16(r1, b1);
    assert(wrap_sub16(wrap_sub16(r.sp, 1), 1) == wrap_sub16(r.sp, 2));
    assert(wrap_add16(wrap_sub16(r.sp, 2), 1) == wrap_sub16(r.sp, 1));
    assert(b1.mem[wrap_sub16(r.sp, 2) as int] == lo);
    assert(b1.mem[wrap_sub16(r.sp, 1) as int] == hi);
    assert(r2.sp == r.sp);
}

/// Law (stack discipline for BC): PUSH BC followed immediately by POP BC
/// restores the BC pair and the stack pointer to their pre-push values.
pub proof fn lemma_push_pop_bc(cpu: Cpu, b: BusView)
    requires
        b.wf(),
        wrap_sub16(cpu.regs.sp, 1) != SERIAL_DATA_ADDR,
        wrap_sub16(cpu.regs.sp, 1) != SERIAL_CTRL_ADDR,
        wrap_sub16(cpu.regs.sp, 2) != SERIAL_DATA_ADDR,
        wrap_sub16(cpu.regs.sp, 2) != SERIAL_CTRL_ADDR,
    ensures
        ({
            let e1 = spec_execute(Instruction::PUSHBC, cpu, b);
            let e2 = spec_execute(Instruction::POPBC, e1.cpu, e1.bus);
            e2.cpu.regs.spec_bc() == cpu.regs.spec_bc() && e2.cpu.regs == cpu.regs
        }),
{
    lemma_push_pop_bytes(cpu.regs, b, cpu.regs.b, cpu.regs.c);
    lemma_pair16_parts(cpu.regs.b, cpu.regs.c);
}

/// Law (stack discipline for HL): PUSH HL followed immediately by POP HL
/// restores the HL pair and the stack pointer to their pre-push values.
pub proof fn lemma_push_pop_hl(cpu: Cpu, b: BusView)
    requires
        b.wf(),
        wrap_sub16(cpu.regs.sp, 1) != SERIAL_DATA_ADDR,
        wrap_sub16(cpu.regs.sp, 1) != SERIAL_CTRL_ADDR,
        wrap_sub16(cpu.regs.sp, 2) != SERIAL_DATA_ADDR,
        wrap_sub16(cpu.regs.sp, 2) != SERIAL_CTRL_ADDR,
    ensures
        ({
            let e1 = spec_execute(Instruction::PUSHHL, cpu, b);
            let e2 = spec_execute(Instruction::POPHL, e1.cpu, e1.bus);
            e2.cpu.regs.spec_hl() == cpu.regs.spec_hl() && e2.cpu.regs == cpu.regs
        }),
{
    lemma_push_pop_bytes(cpu.regs, b, cpu.regs.h, cpu.regs.l);
    lemma_pair16_parts(cpu.regs.h, cpu.regs.l);
}

/// Law (stack discipline for AF): PUSH AF followed immediately by POP AF
/// restores the AF pair and the stack pointer, given the F-register
/// invariant that its low nibble is zero (the AF setter establishes it, so
/// it holds of every register file built through the API).
pub proof fn lemma_push_pop_af(cpu: Cpu, b: BusView)
    requires
        b.wf(),
        cpu.regs.f & 0x0F == 0,
        wrap_sub16(cpu.regs.sp, 1) != SERIAL_DATA_ADDR,
        wrap_sub16(cpu.regs.sp, 1) != SERIAL_CTRL_ADDR,
        wrap_sub16(cpu.regs.sp, 2) != SERIAL_DATA_ADDR,
        wrap_sub16(cpu.regs.sp, 2) != SERIAL_CTRL_ADDR,
    ensures
        ({
            let e1 = spec_execute(Instruction::PUSHAF, cpu, b);
            let e2 = spec_execute(Instruction::POPAF, e1.cpu, e1.bus);
            e2.cpu.regs.spec_af() == cpu.regs.spec_af() && e2.cpu.regs == cpu.regs
        }),
{
    let f = cpu.regs.f;
    assert(f & 0x0F == 0 ==> f & 0xF0 == f) by (bit_vector);
    lemma_push_pop_bytes(cpu.regs, b, cpu.regs.a, f & 0xF0);
    lemma_pair16_parts(cpu.regs.a, f);
    let v = pair16(cpu.regs.a, f);
    assert(hi8(v) == cpu.regs.a && lo8(v) == f);
    assert(lo8(v) == (v & 0xFF) as u8);
    assert((v & 0xFF) as u8 == f ==> (v & 0xF0) as u8 == f & 0xF0) by (bit_vector);
}

/// Law (call/return round trip): CALL from program counter P, with its
/// operand bytes at P and P+1, pushes return address P+2 (high byte at
/// SP-1, low byte at SP-2), and RET immediately after restores the program
/// counter to exactly P+2 and the stack pointer to its pre-call value. The
/// two stack bytes must not land on the serial-intercepted addresses.
pub proof fn lemma_call_ret_roundtrip(cpu: Cpu, b: BusView)
    requires
        b.wf(),
        wrap_sub16(cpu.regs.sp, 1) != SERIAL_DATA_ADDR,
        wrap_sub16(cpu.regs.sp, 1) != SERIAL_CTRL_ADDR,
        wrap_sub16(cpu.regs.sp, 2) != SERIAL_DATA_ADDR,
        wrap_sub16(cpu.regs.sp, 2) != SERIAL_CTRL_ADDR,
    ensures
        ({
            let e1 = spec_execute(Instruction::CALLA16, cpu, b);
            let e2 = spec_execute(Instruction::RET, e1.cpu, e1.bus);
            let ret_addr = wrap_add16(cpu.regs.pc, 2);
            let hi_slot = wrap_sub16(cpu.regs.sp, 1) as int;
            let lo_slot = wrap_sub16(cpu.regs.sp, 2) as int;
            e1.bus.mem[hi_slot] == hi8(ret_addr) && e1.bus.mem[lo_slot] == lo8(ret_addr)
                && e2.cpu.regs.pc == ret_addr && e2.cpu.regs.sp == cpu.regs.sp
        }),
{
    let ret_addr = wrap_add16(cpu.regs.pc, 2);
    assert(wrap_add16(wrap_add16(cpu.regs.pc, 1), 1) == ret_addr);
    let r1 = Registers { pc: ret_addr, ..cpu.regs };
    lemma_push_pop_bytes(r1, b, hi8(ret_addr), lo8(ret_addr));
    lemma_pair16_split(ret_addr);
}

/// Law (F-register invariant): the low nibble of F is always zero. The
/// power-on state establishes it, and every instruction preserves it — each
/// flag write touches only the high nibble, and restoring AF from the stack
/// routes through the AF setter's mask.
pub proof fn lemma_f_low_nibble_invariant(i: Instruction, cpu: Cpu, b: BusView)
    requires
        cpu.regs.f & 0x0F == 0,
    ensures
        spec_execute(i, cpu, b).cpu.regs.f & 0x0F == 0,
        Cpu::spec_power_on().regs.f & 0x0F == 0,
{
    crate::bits::lemma_flags_keep_low_nibble();
    assert(0u8 & 0x0F == 0) by (bit_vector);
    match i {
        Instruction::POPAF => {
            let popped = spec_pop16(cpu.regs, b);
            crate::bits::lemma_af_mask_low_nibble(popped.0);
        },
        _ => {},
    }
}

/// Law (halt latching): executing HALT latches the halted state and mutates
/// nothing else, and a halted CPU steps as a fixed-cost no-op: every
/// subsequent step costs exactly 4 cycles and leaves every register, flag
/// and memory location unchanged — and the CPU halted, so the same holds of
/// any number of subsequent steps.
pub proof fn lemma_halt_latching(cpu: Cpu, b: BusView)
    ensures
        spec_execute(Instruction::HALT, cpu, b) == (Effect {
            cpu: Cpu { halted: true, ..cpu },
            bus: b,
            cycles: 4,
        }),
        cpu.halted ==> spec_step(cpu, b) == Some(Effect { cpu, bus: b, cycles: 4 }),
{
}

/// Law (serial intercept): writing a byte to the serial data register and
/// then the exact transfer-start pattern to the control register emits that
/// byte, exactly once; any other control value emits nothing. Neither write
/// touches memory.
pub proof fn lemma_serial_transfer(b: BusView, data: u8, ctrl: u8)
    ensures
        ({
            let b2 = spec_bus_write(spec_bus_write(b, SERIAL_DATA_ADDR, data), SERIAL_CTRL_ADDR, ctrl);
            (ctrl == SERIAL_START ==> b2.out == b.out.push(data)) && (ctrl != SERIAL_START
                ==> b2.out == b.out) && b2.mem == b.mem
        }),
{
}

} // verus!
