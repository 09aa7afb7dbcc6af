//! The CPU: the register file, the halt latch, and the interrupt
//! master-enable latch. Constructed in a non-powered-on state; `reset` moves
//! it to the power-on state; it is mutated exclusively through `step`.

use vstd::prelude::*;

use crate::registers::Registers;

verus! {

/// One CPU instance. Only the interrupt master-enable latch of the interrupt
/// controller is represented; interrupt delivery is an extension point.
pub struct Cpu {
    pub regs: Registers,
    pub halted: bool,
    pub ime: bool,
}

impl Cpu {
    /// The power-on state: execution hands off at 0x0100 with the stack at
    /// 0xFFFE, not halted, interrupts disabled.
    pub open spec fn spec_power_on() -> Cpu {
        Cpu {
            regs: Registers { pc: 0x0100, sp: 0xFFFE, ..Registers::spec_zeroed() },
            halted: false,
            ime: false,
        }
    }

    /// A CPU in the non-powered-on state: everything zero, not halted,
    /// interrupts disabled.
    pub fn new() -> (cpu: Cpu)
        ensures
            cpu.regs == Registers::spec_zeroed(),
            !cpu.halted,
            !cpu.ime,
    {
        Cpu { regs: Registers::default(), halted: false, ime: false }
    }

    /// Moves the CPU to the power-on state; idempotent.
    pub fn reset(&mut self)
        ensures
            *final(self) == Cpu::spec_power_on(),
    {
        let mut regs = Registers::default();
        regs.pc = 0x0100;
        regs.sp = 0xFFFE;
        self.regs = regs;
        self.halted = false;
        self.ime = false;
    }
}

} // verus!
