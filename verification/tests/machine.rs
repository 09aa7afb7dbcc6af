//! Whole-machine scenarios through `step`: arithmetic flag contracts, stack
//! discipline, branch timing, the call/return round trip, halt latching, and
//! the serial intercept.

use gbcore::bus::Bus;
use gbcore::cpu::Cpu;

/// A powered-on machine with `program` placed at the power-on program
/// counter, 0x0100.
fn machine(program: &[u8]) -> (Cpu, Bus) {
    let mut cpu = Cpu::new();
    cpu.reset();
    let mut bus = Bus::new();
    for (i, b) in program.iter().enumerate() {
        bus.memory[0x0100 + i] = *b;
    }
    (cpu, bus)
}

#[test]
fn add_half_carry_case() {
    // LD A,0x0F ; LD B,0x01 ; ADD A,B
    let (mut cpu, mut bus) = machine(&[0x3E, 0x0F, 0x06, 0x01, 0x80]);
    assert_eq!(cpu.step(&mut bus), 8);
    assert_eq!(cpu.step(&mut bus), 8);
    assert_eq!(cpu.step(&mut bus), 4);
    assert_eq!(cpu.regs.a, 0x10);
    assert!(!cpu.regs.get_z());
    assert!(!cpu.regs.get_n());
    assert!(cpu.regs.get_h());
    assert!(!cpu.regs.get_c());
    assert_eq!(cpu.regs.f, 0x20);
}

#[test]
fn add_wraparound_case() {
    // LD A,0xFF ; LD B,0x01 ; ADD A,B
    let (mut cpu, mut bus) = machine(&[0x3E, 0xFF, 0x06, 0x01, 0x80]);
    for _ in 0..3 {
        cpu.step(&mut bus);
    }
    assert_eq!(cpu.regs.a, 0x00);
    assert!(cpu.regs.get_z());
    assert!(cpu.regs.get_h());
    assert!(cpu.regs.get_c());
    assert!(!cpu.regs.get_n());
    assert_eq!(cpu.regs.f, 0xB0);
}

#[test]
fn add_immediate_costs_extra_fetch() {
    // LD A,0x20 ; ADD A,0x22
    let (mut cpu, mut bus) = machine(&[0x3E, 0x20, 0xC6, 0x22]);
    cpu.step(&mut bus);
    assert_eq!(cpu.step(&mut bus), 8);
    assert_eq!(cpu.regs.a, 0x42);
    assert_eq!(cpu.regs.f, 0x00);
}

#[test]
fn cp_leaves_a_and_sets_sub_flags() {
    // LD A,0x42 ; CP 0x10
    let (mut cpu, mut bus) = machine(&[0x3E, 0x42, 0xFE, 0x10]);
    cpu.step(&mut bus);
    assert_eq!(cpu.step(&mut bus), 8);
    assert_eq!(cpu.regs.a, 0x42);
    let cp_flags = cpu.regs.f;

    // SUB computes the same flags and writes the result
    let (mut cpu2, mut bus2) = machine(&[0x3E, 0x42, 0xD6, 0x10]);
    cpu2.step(&mut bus2);
    assert_eq!(cpu2.step(&mut bus2), 8);
    assert_eq!(cpu2.regs.a, 0x32);
    assert_eq!(cpu2.regs.f, cp_flags);
}

#[test]
fn cp_equal_sets_zero_and_subtract() {
    // LD A,0x10 ; LD B,0x10 ; CP B
    let (mut cpu, mut bus) = machine(&[0x3E, 0x10, 0x06, 0x10, 0xB8]);
    cpu.step(&mut bus);
    cpu.step(&mut bus);
    assert_eq!(cpu.step(&mut bus), 4);
    assert_eq!(cpu.regs.a, 0x10);
    assert_eq!(cpu.regs.f, 0xC0);
}

#[test]
fn cp_borrow_sets_carry() {
    // LD A,0x01 ; CP 0x02: borrow in both nibble and full width
    let (mut cpu, mut bus) = machine(&[0x3E, 0x01, 0xFE, 0x02]);
    cpu.step(&mut bus);
    cpu.step(&mut bus);
    assert!(!cpu.regs.get_z());
    assert!(cpu.regs.get_n());
    assert!(cpu.regs.get_h());
    assert!(cpu.regs.get_c());
}

#[test]
fn cp_indirect_hl_costs_eight() {
    // LD HL,0x2000 ; CP (HL) with A=0
    let (mut cpu, mut bus) = machine(&[0x21, 0x00, 0x20, 0xBE]);
    bus.memory[0x2000] = 0x00;
    assert_eq!(cpu.step(&mut bus), 12);
    assert_eq!(cpu.step(&mut bus), 8);
    assert!(cpu.regs.get_z());
}

#[test]
fn push_pop_bc_restores_pair_and_stack_pointer() {
    // LD BC,0xCAFE ; PUSH BC ; POP BC
    let (mut cpu, mut bus) = machine(&[0x01, 0xFE, 0xCA, 0xC5, 0xC1]);
    assert_eq!(cpu.step(&mut bus), 12);
    let sp_before = cpu.regs.sp;
    assert_eq!(cpu.step(&mut bus), 16);
    assert_eq!(cpu.regs.sp, sp_before.wrapping_sub(2));
    // high byte pushed first at SP-1, then low byte at SP-2
    assert_eq!(bus.memory[(sp_before.wrapping_sub(1)) as usize], 0xCA);
    assert_eq!(bus.memory[(sp_before.wrapping_sub(2)) as usize], 0xFE);
    assert_eq!(cpu.step(&mut bus), 12);
    assert_eq!(cpu.regs.get_bc(), 0xCAFE);
    assert_eq!(cpu.regs.sp, sp_before);
}

#[test]
fn push_pop_hl_restores_pair_and_stack_pointer() {
    // LD HL,0x1234 ; PUSH HL ; POP HL
    let (mut cpu, mut bus) = machine(&[0x21, 0x34, 0x12, 0xE5, 0xE1]);
    cpu.step(&mut bus);
    let sp_before = cpu.regs.sp;
    cpu.step(&mut bus);
    cpu.step(&mut bus);
    assert_eq!(cpu.regs.get_hl(), 0x1234);
    assert_eq!(cpu.regs.sp, sp_before);
}

#[test]
fn push_pop_af_restores_pair_under_invariant() {
    // LD A,0xFF ; ADD A,0x01 (A=0, F=Z|H|C=0xB0) ; PUSH AF ; POP AF
    let (mut cpu, mut bus) = machine(&[0x3E, 0xFF, 0xC6, 0x01, 0xF5, 0xF1]);
    cpu.step(&mut bus);
    cpu.step(&mut bus);
    let af_before = cpu.regs.get_af();
    let sp_before = cpu.regs.sp;
    assert_eq!(cpu.step(&mut bus), 16);
    assert_eq!(cpu.step(&mut bus), 12);
    assert_eq!(cpu.regs.get_af(), af_before);
    assert_eq!(cpu.regs.sp, sp_before);
}

#[test]
fn pop_af_clears_low_nibble_from_stack_garbage() {
    // LD SP,0x3000 ; POP AF, with 0x12FF staged at the stack top
    let (mut cpu, mut bus) = machine(&[0x31, 0x00, 0x30, 0xF1]);
    bus.memory[0x3000] = 0xFF; // low byte, would fill F completely
    bus.memory[0x3001] = 0x12; // high byte -> A
    cpu.step(&mut bus);
    assert_eq!(cpu.step(&mut bus), 12);
    assert_eq!(cpu.regs.a, 0x12);
    assert_eq!(cpu.regs.f, 0xF0);
    assert_eq!(cpu.regs.get_af(), 0x12F0);
    assert_eq!(cpu.regs.sp, 0x3002);
}

#[test]
fn jr_z_taken_costs_twelve_and_applies_displacement() {
    // XOR A (sets Z) ; JR Z,+3
    let (mut cpu, mut bus) = machine(&[0xAF, 0x28, 0x03]);
    assert_eq!(cpu.step(&mut bus), 4);
    assert!(cpu.regs.get_z());
    assert_eq!(cpu.step(&mut bus), 12);
    // counter advanced past the displacement byte (0x0103), then +3
    assert_eq!(cpu.regs.pc, 0x0106);
}

#[test]
fn jr_z_not_taken_costs_eight_and_discards_displacement() {
    // LD A,0x01 ; OR A (clears Z) ; JR Z,+3
    let (mut cpu, mut bus) = machine(&[0x3E, 0x01, 0xB7, 0x28, 0x03]);
    cpu.step(&mut bus);
    cpu.step(&mut bus);
    assert!(!cpu.regs.get_z());
    assert_eq!(cpu.step(&mut bus), 8);
    assert_eq!(cpu.regs.pc, 0x0105);
}

#[test]
fn jr_z_negative_displacement() {
    // XOR A ; JR Z,-2: jumps back onto the JR opcode itself
    let (mut cpu, mut bus) = machine(&[0xAF, 0x28, 0xFE]);
    cpu.step(&mut bus);
    assert_eq!(cpu.step(&mut bus), 12);
    assert_eq!(cpu.regs.pc, 0x0101);
}

#[test]
fn jr_z_negative_displacement_wraps_around_address_space() {
    // JR Z,-3 placed at 0x0000 with Z set: 0x0002 - 3 wraps to 0xFFFF
    let (mut cpu, mut bus) = machine(&[]);
    cpu.regs.set_z(true);
    cpu.regs.pc = 0x0000;
    bus.memory[0x0000] = 0x28;
    bus.memory[0x0001] = 0xFD;
    assert_eq!(cpu.step(&mut bus), 12);
    assert_eq!(cpu.regs.pc, 0xFFFF);
}

#[test]
fn jr_nz_mirrors_jr_z() {
    // LD A,0x01 ; OR A (Z clear) ; JR NZ,+2
    let (mut cpu, mut bus) = machine(&[0x3E, 0x01, 0xB7, 0x20, 0x02]);
    cpu.step(&mut bus);
    cpu.step(&mut bus);
    assert_eq!(cpu.step(&mut bus), 12);
    assert_eq!(cpu.regs.pc, 0x0107);

    // XOR A (Z set) ; JR NZ,+2: not taken
    let (mut cpu2, mut bus2) = machine(&[0xAF, 0x20, 0x02]);
    cpu2.step(&mut bus2);
    assert_eq!(cpu2.step(&mut bus2), 8);
    assert_eq!(cpu2.regs.pc, 0x0103);
}

#[test]
fn jr_unconditional_always_jumps() {
    let (mut cpu, mut bus) = machine(&[0x18, 0x10]);
    assert_eq!(cpu.step(&mut bus), 12);
    assert_eq!(cpu.regs.pc, 0x0112);
}

#[test]
fn jp_sets_counter_to_target() {
    let (mut cpu, mut bus) = machine(&[0xC3, 0x34, 0x12]);
    assert_eq!(cpu.step(&mut bus), 16);
    assert_eq!(cpu.regs.pc, 0x1234);
}

#[test]
fn call_pushes_return_address_and_ret_restores_it() {
    // CALL 0x0200 at 0x0100; RET at 0x0200
    let (mut cpu, mut bus) = machine(&[0xCD, 0x00, 0x02]);
    bus.memory[0x0200] = 0xC9;
    let sp_before = cpu.regs.sp;
    assert_eq!(cpu.step(&mut bus), 24);
    assert_eq!(cpu.regs.pc, 0x0200);
    assert_eq!(cpu.regs.sp, sp_before.wrapping_sub(2));
    // return address 0x0103: high byte first
    assert_eq!(bus.memory[(sp_before.wrapping_sub(1)) as usize], 0x01);
    assert_eq!(bus.memory[(sp_before.wrapping_sub(2)) as usize], 0x03);
    assert_eq!(cpu.step(&mut bus), 16);
    assert_eq!(cpu.regs.pc, 0x0103);
    assert_eq!(cpu.regs.sp, sp_before);
}

#[test]
fn call_nz_not_taken_only_consumes_operands() {
    // XOR A (Z set) ; CALL NZ,0x0200
    let (mut cpu, mut bus) = machine(&[0xAF, 0xC4, 0x00, 0x02]);
    cpu.step(&mut bus);
    let sp_before = cpu.regs.sp;
    assert_eq!(cpu.step(&mut bus), 12);
    assert_eq!(cpu.regs.pc, 0x0104);
    assert_eq!(cpu.regs.sp, sp_before);
}

#[test]
fn call_nz_taken_behaves_like_call() {
    // LD A,0x01 ; OR A (Z clear) ; CALL NZ,0x0200
    let (mut cpu, mut bus) = machine(&[0x3E, 0x01, 0xB7, 0xC4, 0x00, 0x02]);
    cpu.step(&mut bus);
    cpu.step(&mut bus);
    let sp_before = cpu.regs.sp;
    assert_eq!(cpu.step(&mut bus), 24);
    assert_eq!(cpu.regs.pc, 0x0200);
    assert_eq!(cpu.regs.sp, sp_before.wrapping_sub(2));
    assert_eq!(bus.memory[(sp_before.wrapping_sub(1)) as usize], 0x01);
    assert_eq!(bus.memory[(sp_before.wrapping_sub(2)) as usize], 0x06);
}

#[test]
fn halt_latches_and_later_steps_change_nothing() {
    // LD A,0x55 ; HALT
    let (mut cpu, mut bus) = machine(&[0x3E, 0x55, 0x76]);
    cpu.step(&mut bus);
    assert_eq!(cpu.step(&mut bus), 4);
    assert!(cpu.halted);
    let pc = cpu.regs.pc;
    let a = cpu.regs.a;
    let f = cpu.regs.f;
    let sp = cpu.regs.sp;
    let mem_probe = bus.memory[0x0100];
    for _ in 0..10 {
        assert_eq!(cpu.step(&mut bus), 4);
        assert!(cpu.halted);
        assert_eq!(cpu.regs.pc, pc);
        assert_eq!(cpu.regs.a, a);
        assert_eq!(cpu.regs.f, f);
        assert_eq!(cpu.regs.sp, sp);
        assert_eq!(bus.memory[0x0100], mem_probe);
        assert!(bus.serial_out.is_empty());
    }
}

#[test]
fn serial_transfer_emits_buffered_byte_once() {
    let mut bus = Bus::new();
    bus.write8(0xFF01, 0x42);
    assert!(bus.serial_out.is_empty());
    bus.write8(0xFF02, 0x81);
    assert_eq!(bus.serial_out, vec![0x42]);
    // a second start re-emits the still-buffered byte
    bus.write8(0xFF02, 0x81);
    assert_eq!(bus.serial_out, vec![0x42, 0x42]);
}

#[test]
fn serial_control_other_values_emit_nothing() {
    let mut bus = Bus::new();
    bus.write8(0xFF01, 0x7A);
    for v in [0x00u8, 0x01, 0x80, 0x7F, 0xFF] {
        bus.write8(0xFF02, v);
    }
    assert!(bus.serial_out.is_empty());
}

#[test]
fn serial_registers_do_not_store_to_memory() {
    let mut bus = Bus::new();
    bus.write8(0xFF01, 0x42);
    bus.write8(0xFF02, 0x81);
    assert_eq!(bus.read8(0xFF01), 0);
    assert_eq!(bus.read8(0xFF02), 0);
}

#[test]
fn plain_writes_store_and_read_back() {
    let mut bus = Bus::new();
    assert_eq!(bus.read8(0x0000), 0);
    assert_eq!(bus.read8(0xFFFF), 0);
    bus.write8(0x1234, 0xAB);
    assert_eq!(bus.read8(0x1234), 0xAB);
    bus.write8(0x0000, 0x01);
    bus.write8(0xFFFF, 0x02);
    assert_eq!(bus.read8(0x0000), 0x01);
    assert_eq!(bus.read8(0xFFFF), 0x02);
}

#[test]
fn serial_intercept_through_instructions() {
    // LD A,0x5A ; LD (0xFF01),A ; LD A,0x81 ; LD (0xFF02),A
    let (mut cpu, mut bus) = machine(&[0x3E, 0x5A, 0xEA, 0x01, 0xFF, 0x3E, 0x81, 0xEA, 0x02, 0xFF]);
    cpu.step(&mut bus);
    assert_eq!(cpu.step(&mut bus), 16);
    cpu.step(&mut bus);
    cpu.step(&mut bus);
    assert_eq!(bus.serial_out, vec![0x5A]);
}

#[test]
fn load_grid_timing_and_effect() {
    // LD B,0x07 ; LD C,B (4 cycles) ; LD HL,0x2000 ; LD (HL),C (8) ; LD D,(HL) (8)
    let (mut cpu, mut bus) = machine(&[0x06, 0x07, 0x48, 0x21, 0x00, 0x20, 0x71, 0x56]);
    cpu.step(&mut bus);
    assert_eq!(cpu.step(&mut bus), 4);
    assert_eq!(cpu.regs.c, 0x07);
    cpu.step(&mut bus);
    assert_eq!(cpu.step(&mut bus), 8);
    assert_eq!(bus.memory[0x2000], 0x07);
    assert_eq!(cpu.step(&mut bus), 8);
    assert_eq!(cpu.regs.d, 0x07);
}

#[test]
fn sixteen_bit_immediates_are_little_endian() {
    // LD BC,0xBBAA ; LD DE,0xDDCC ; LD HL,0xFFEE ; LD SP,0x1100
    let (mut cpu, mut bus) = machine(&[
        0x01, 0xAA, 0xBB, 0x11, 0xCC, 0xDD, 0x21, 0xEE, 0xFF, 0x31, 0x00, 0x11,
    ]);
    assert_eq!(cpu.step(&mut bus), 12);
    assert_eq!(cpu.regs.get_bc(), 0xBBAA);
    assert_eq!(cpu.step(&mut bus), 12);
    assert_eq!(cpu.regs.get_de(), 0xDDCC);
    assert_eq!(cpu.step(&mut bus), 12);
    assert_eq!(cpu.regs.get_hl(), 0xFFEE);
    assert_eq!(cpu.step(&mut bus), 12);
    assert_eq!(cpu.regs.sp, 0x1100);
    assert_eq!(cpu.regs.pc, 0x010C);
}

#[test]
fn inc_dec_flags_and_pair_inc() {
    // INC H from 0x0F: half-carry set, carry untouched
    let (mut cpu, mut bus) = machine(&[0x26, 0x0F, 0x24]);
    cpu.regs.set_c(true);
    cpu.step(&mut bus);
    assert_eq!(cpu.step(&mut bus), 4);
    assert_eq!(cpu.regs.h, 0x10);
    assert!(!cpu.regs.get_z());
    assert!(!cpu.regs.get_n());
    assert!(cpu.regs.get_h());
    assert!(cpu.regs.get_c(), "INC must leave Carry unaffected");

    // DEC B from 0x01: zero and subtract set
    let (mut cpu2, mut bus2) = machine(&[0x06, 0x01, 0x05]);
    cpu2.step(&mut bus2);
    assert_eq!(cpu2.step(&mut bus2), 4);
    assert_eq!(cpu2.regs.b, 0x00);
    assert!(cpu2.regs.get_z());
    assert!(cpu2.regs.get_n());

    // INC BC affects no flags, wraps at 0xFFFF
    let (mut cpu3, mut bus3) = machine(&[0x01, 0xFF, 0xFF, 0x03]);
    cpu3.regs.set_z(true);
    cpu3.step(&mut bus3);
    assert_eq!(cpu3.step(&mut bus3), 8);
    assert_eq!(cpu3.regs.get_bc(), 0x0000);
    assert!(cpu3.regs.get_z(), "16-bit INC must not touch flags");
}

#[test]
fn dec_half_carry_is_the_borrow_into_bit_four() {
    // DEC B from 0x10: low nibble zero, so the subtraction borrows -> H set
    let (mut cpu, mut bus) = machine(&[0x06, 0x10, 0x05]);
    cpu.step(&mut bus);
    cpu.step(&mut bus);
    assert_eq!(cpu.regs.b, 0x0F);
    assert!(cpu.regs.get_h(), "DEC from a zero low nibble must borrow");
    assert!(!cpu.regs.get_z());
    assert!(cpu.regs.get_n());

    // DEC B from 0x0F: no borrow -> H clear
    let (mut cpu2, mut bus2) = machine(&[0x06, 0x0F, 0x05]);
    cpu2.step(&mut bus2);
    cpu2.step(&mut bus2);
    assert_eq!(cpu2.regs.b, 0x0E);
    assert!(!cpu2.regs.get_h(), "DEC from a non-zero low nibble must not borrow");

    // matches SUB's half-carry on the same values: A=0x10, SUB 0x01
    let (mut cpu3, mut bus3) = machine(&[0x3E, 0x10, 0xD6, 0x01]);
    cpu3.step(&mut bus3);
    cpu3.step(&mut bus3);
    assert_eq!(cpu3.regs.a, 0x0F);
    assert!(cpu3.regs.get_h());
}

#[test]
fn inc_l_increments_l() {
    // LD HL,0x20FF ; INC L: L wraps to 0, zero flag set
    let (mut cpu, mut bus) = machine(&[0x21, 0xFF, 0x20, 0x2C]);
    cpu.step(&mut bus);
    assert_eq!(cpu.step(&mut bus), 4);
    assert_eq!(cpu.regs.l, 0x00);
    assert_eq!(cpu.regs.h, 0x20);
    assert!(cpu.regs.get_z());
}

#[test]
fn logical_ops_flags() {
    // AND: LD A,0xF0 ; AND 0x0F -> 0, Z and H set
    let (mut cpu, mut bus) = machine(&[0x3E, 0xF0, 0xE6, 0x0F]);
    cpu.step(&mut bus);
    assert_eq!(cpu.step(&mut bus), 8);
    assert_eq!(cpu.regs.a, 0x00);
    assert_eq!(cpu.regs.f, 0xA0);

    // OR: LD A,0x0F ; LD C,0xF0 ; OR C -> 0xFF, all flags clear
    let (mut cpu2, mut bus2) = machine(&[0x3E, 0x0F, 0x0E, 0xF0, 0xB1]);
    cpu2.step(&mut bus2);
    cpu2.step(&mut bus2);
    assert_eq!(cpu2.step(&mut bus2), 4);
    assert_eq!(cpu2.regs.a, 0xFF);
    assert_eq!(cpu2.regs.f, 0x00);

    // XOR A always zeroes A and sets exactly Z
    let (mut cpu3, mut bus3) = machine(&[0x3E, 0x55, 0xAF]);
    cpu3.step(&mut bus3);
    assert_eq!(cpu3.step(&mut bus3), 4);
    assert_eq!(cpu3.regs.a, 0x00);
    assert_eq!(cpu3.regs.f, 0x80);

    // OR (HL) costs 8
    let (mut cpu4, mut bus4) = machine(&[0x21, 0x00, 0x20, 0x3E, 0x0F, 0xB6]);
    bus4.memory[0x2000] = 0x30;
    cpu4.step(&mut bus4);
    cpu4.step(&mut bus4);
    assert_eq!(cpu4.step(&mut bus4), 8);
    assert_eq!(cpu4.regs.a, 0x3F);
}

#[test]
fn hl_autoincrement_and_autodecrement_stores() {
    // LD HL,0x2000 ; LD A,0x11 ; LD (HL+),A ; LD (HL-),A
    let (mut cpu, mut bus) = machine(&[0x21, 0x00, 0x20, 0x3E, 0x11, 0x22, 0x32]);
    cpu.step(&mut bus);
    cpu.step(&mut bus);
    assert_eq!(cpu.step(&mut bus), 8);
    assert_eq!(bus.memory[0x2000], 0x11);
    assert_eq!(cpu.regs.get_hl(), 0x2001);
    assert_eq!(cpu.step(&mut bus), 8);
    assert_eq!(bus.memory[0x2001], 0x11);
    assert_eq!(cpu.regs.get_hl(), 0x2000);
}

#[test]
fn hl_autoincrement_load() {
    // LD HL,0x2000 ; LD A,(HL+)
    let (mut cpu, mut bus) = machine(&[0x21, 0x00, 0x20, 0x2A]);
    bus.memory[0x2000] = 0x99;
    cpu.step(&mut bus);
    assert_eq!(cpu.step(&mut bus), 8);
    assert_eq!(cpu.regs.a, 0x99);
    assert_eq!(cpu.regs.get_hl(), 0x2001);
}

#[test]
fn absolute_and_high_page_loads() {
    // LD A,0x77 ; LD (0x2345),A ; LD A,(0x2345) ; LDH (0x10),A ; LDH A,(0x10)
    let (mut cpu, mut bus) = machine(&[
        0x3E, 0x77, 0xEA, 0x45, 0x23, 0xFA, 0x45, 0x23, 0xE0, 0x10, 0xF0, 0x10,
    ]);
    cpu.step(&mut bus);
    assert_eq!(cpu.step(&mut bus), 16);
    assert_eq!(bus.memory[0x2345], 0x77);
    assert_eq!(cpu.step(&mut bus), 16);
    assert_eq!(cpu.regs.a, 0x77);
    assert_eq!(cpu.step(&mut bus), 12);
    assert_eq!(bus.memory[0xFF10], 0x77);
    assert_eq!(cpu.step(&mut bus), 12);
    assert_eq!(cpu.regs.a, 0x77);
}

#[test]
fn ld_bc_indirect_store_and_de_load() {
    // LD BC,0x2100 ; LD A,0x33 ; LD (BC),A ; LD DE,0x2100 ; LD A,(DE)
    let (mut cpu, mut bus) = machine(&[0x01, 0x00, 0x21, 0x3E, 0x33, 0x02, 0x11, 0x00, 0x21, 0x1A]);
    cpu.step(&mut bus);
    cpu.step(&mut bus);
    assert_eq!(cpu.step(&mut bus), 8);
    assert_eq!(bus.memory[0x2100], 0x33);
    assert_eq!(cpu.step(&mut bus), 12);
    cpu.regs.a = 0;
    assert_eq!(cpu.step(&mut bus), 8);
    assert_eq!(cpu.regs.a, 0x33);
}

#[test]
fn di_clears_interrupt_master_enable() {
    let (mut cpu, mut bus) = machine(&[0xF3]);
    cpu.ime = true;
    assert_eq!(cpu.step(&mut bus), 4);
    assert!(!cpu.ime);
}

#[test]
fn reset_is_idempotent_power_on() {
    let mut cpu = Cpu::new();
    cpu.reset();
    assert_eq!(cpu.regs.pc, 0x0100);
    assert_eq!(cpu.regs.sp, 0xFFFE);
    assert!(!cpu.halted);
    assert!(!cpu.ime);
    cpu.regs.a = 0x12;
    cpu.halted = true;
    cpu.reset();
    assert_eq!(cpu.regs.a, 0);
    assert_eq!(cpu.regs.pc, 0x0100);
    assert_eq!(cpu.regs.sp, 0xFFFE);
    assert!(!cpu.halted);
}

#[test]
fn nop_only_advances_counter() {
    let (mut cpu, mut bus) = machine(&[0x00]);
    assert_eq!(cpu.step(&mut bus), 4);
    assert_eq!(cpu.regs.pc, 0x0101);
    assert_eq!(cpu.regs.f, 0);
}

#[test]
fn demo_program_runs_to_halt_with_exact_cycle_total() {
    // LD A,0x0F ; LD B,0x01 ; ADD A,B ; HALT
    let (mut cpu, mut bus) = machine(&[0x3E, 0x0F, 0x06, 0x01, 0x80, 0x76]);
    let mut total: u64 = 0;
    let mut steps = 0;
    while !cpu.halted {
        total += cpu.step(&mut bus) as u64;
        steps += 1;
        assert!(steps <= 10, "program must halt");
    }
    assert_eq!(steps, 4);
    assert_eq!(total, 8 + 8 + 4 + 4);
    assert_eq!(cpu.regs.a, 0x10);
    assert!(cpu.regs.get_h());
    assert_eq!(cpu.regs.pc, 0x0106);
}

#[test]
fn inc_de_wraps() {
    let (mut cpu, mut bus) = machine(&[0x11, 0xFF, 0xFF, 0x13]);
    cpu.step(&mut bus);
    assert_eq!(cpu.step(&mut bus), 8);
    assert_eq!(cpu.regs.get_de(), 0x0000);
}

#[test]
fn inc_hl_pair() {
    let (mut cpu, mut bus) = machine(&[0x21, 0x10, 0x00, 0x23]);
    cpu.step(&mut bus);
    assert_eq!(cpu.step(&mut bus), 8);
    assert_eq!(cpu.regs.get_hl(), 0x0011);
}
