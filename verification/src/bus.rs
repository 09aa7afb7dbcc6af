//! The memory bus: a flat 64KB byte-addressable store in which every 16-bit
//! address is valid, plus write interception for the serial-transfer
//! registers. An intercepted write performs its side effect instead of the
//! plain store; every other address falls through to storage.
//!
//! The externally observable serial emissions are owned by the bus instance
//! as a growing byte log, so the host can drain them and multiple bus
//! instances can coexist.

use vstd::prelude::*;

verus! {

/// Address of the serial-transfer data register (SB).
pub const SERIAL_DATA_ADDR: u16 = 0xFF01;

/// Address of the serial-transfer control register (SC).
pub const SERIAL_CTRL_ADDR: u16 = 0xFF02;

/// The control-register value that starts a transfer and emits the buffered
/// byte.
pub const SERIAL_START: u8 = 0x81;

/// The number of addressable bytes: one for every 16-bit address.
pub const ADDR_SPACE: usize = 0x10000;

/// Ghost model of the bus: the 64K store, the buffered serial data byte, and
/// the log of bytes emitted to the external sink so far.
pub ghost struct BusView {
    pub mem: Seq<u8>,
    pub sb: u8,
    pub out: Seq<u8>,
}

impl BusView {
    /// The store covers the full 16-bit address range.
    pub open spec fn wf(self) -> bool {
        self.mem.len() == ADDR_SPACE
    }
}

/// The bus after one write: the serial data register buffers the byte, the
/// serial control register emits the buffered byte on the transfer-start
/// pattern (and otherwise does nothing), and every other address stores the
/// byte plainly.
pub open spec fn spec_bus_write(b: BusView, addr: u16, value: u8) -> BusView {
    if addr == SERIAL_DATA_ADDR {
        BusView { sb: value, ..b }
    } else if addr == SERIAL_CTRL_ADDR {
        if value == SERIAL_START {
            BusView { out: b.out.push(b.sb), ..b }
        } else {
            b
        }
    } else {
        BusView { mem: b.mem.update(addr as int, value), ..b }
    }
}

/// The memory bus. `memory` is the address space of record; `serial_data`
/// buffers the byte last written to the serial data register; `serial_out`
/// records every byte emitted through the serial intercept, oldest first.
pub struct Bus {
    pub memory: Vec<u8>,
    pub serial_data: u8,
    pub serial_out: Vec<u8>,
}

impl View for Bus {
    type V = BusView;

    open spec fn view(&self) -> BusView {
        BusView { mem: self.memory@, sb: self.serial_data, out: self.serial_out@ }
    }
}

impl Bus {
    /// The store covers the full 16-bit address range.
    pub open spec fn wf(self) -> bool {
        self@.wf()
    }

    /// A bus with every memory byte zero, nothing buffered and nothing yet
    /// emitted.
    pub fn new() -> (bus: Bus)
        ensures
            bus.wf(),
            forall|i: int| 0 <= i < ADDR_SPACE ==> bus@.mem[i] == 0,
            bus@.sb == 0,
            bus@.out.len() == 0,
    {
        let mut memory: Vec<u8> = Vec::new();
        while memory.len() < ADDR_SPACE
            invariant
                memory@.len() <= ADDR_SPACE,
                forall|i: int| 0 <= i < memory@.len() ==> memory@[i] == 0,
            decreases ADDR_SPACE - memory.len(),
        {
            memory.push(0);
        }
        Bus { memory, serial_data: 0, serial_out: Vec::new() }
    }

    /// Reads the byte stored at `addr`. Reads are always plain storage
    /// lookups; no address is invalid.
    pub fn read8(&self, addr: u16) -> (v: u8)
        requires
            self.wf(),
        ensures
            v == self@.mem[addr as int],
    {
        self.memory[addr as usize]
    }

    /// Writes `value` to `addr`, dispatching through the serial intercept
    /// before falling back to plain storage.
    pub fn write8(&mut self, addr: u16, value: u8)
        requires
            old(self).wf(),
        ensures
            final(self).wf(),
            final(self)@ == spec_bus_write(old(self)@, addr, value),
    {
        if addr == SERIAL_DATA_ADDR {
            self.serial_data = value;
        } else if addr == SERIAL_CTRL_ADDR {
            if value == SERIAL_START {
                let buffered = self.serial_data;
                self.serial_out.push(buffered);
            }
        } else {
            self.memory.set(addr as usize, value);
        }
    }
}

} // verus!
