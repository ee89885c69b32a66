//! The assembled machine: the CPU owning the bus, which in turn owns the
//! PPU, the interrupt controller and the cartridge device.

use vstd::prelude::*;

use crate::cpu::Cpu;
use crate::mbc::CartridgeHeader;
use crate::register::Register;

verus! {

pub struct GameBoy {
    pub cpu: Cpu,
}

impl GameBoy {
    /// The machine at power-on for the given cartridge: registers at their
    /// reset values, PC at the entry point, no latched opcode, and a fresh
    /// bus per `Memory::fresh` - no interrupt pending, all RAM zero, the
    /// controller the header names.
    pub fn new(header: CartridgeHeader) -> (r: Self)
        requires
            header.wf(),
        ensures
            r.cpu.wf(),
            r.cpu.register == (Register {
                a: 0,
                b: 0,
                c: 0,
                d: 0,
                e: 0,
                f: 0,
                h: 0,
                l: 0,
                pc: 0x100,
                sp: 0xfffe,
            }),
            r.cpu.opcode == 0,
            crate::memory::Memory::fresh(header, r.cpu.memory),
    {
        GameBoy { cpu: Cpu::new(header) }
    }
}

} // verus!
