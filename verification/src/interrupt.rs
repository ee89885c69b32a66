//! The interrupt controller: a 5-bit request vector and a 5-bit enable
//! vector. Devices post requests by setting bits; a request is actionable
//! only when its bit is set in both vectors.

use vstd::prelude::*;

use crate::memory::MemoryIO;

verus! {

/// One interrupt source, in priority order from highest (VBlank) to lowest
/// (Joypad).
#[derive(Clone, Copy, PartialEq, Eq, Structural, Debug)]
pub enum IntFlag {
    VBlank,
    LcdStat,
    Timer,
    Serial,
    Joypad,
}

/// The request/enable bit of an interrupt source.
pub open spec fn int_bit(flag: IntFlag) -> u8 {
    match flag {
        IntFlag::VBlank => 0x01,
        IntFlag::LcdStat => 0x02,
        IntFlag::Timer => 0x04,
        IntFlag::Serial => 0x08,
        IntFlag::Joypad => 0x10,
    }
}

/// A request vector with one more source's bit set and nothing else changed.
pub open spec fn with_int_bit(r: u8, flag: IntFlag) -> u8 {
    if r / int_bit(flag) % 2 == 1 {
        r
    } else {
        (r + int_bit(flag)) as u8
    }
}

pub struct Interrupt {
    /// Pending request bits; devices may only set them, the CPU clears them
    /// when it services an interrupt.
    pub request: u8,
    /// Enable bits, written by the program through address 0xffff.
    pub enabled: u8,
}

impl Interrupt {
    pub fn new() -> (r: Self)
        ensures
            r.request == 0,
            r.enabled == 0,
    {
        Self { request: 0, enabled: 0 }
    }

    /// Posts a request: sets the source's bit in the request vector. Always
    /// succeeds and never clears anything.
    pub fn request_interrupt(&mut self, flag: IntFlag)
        ensures
            *final(self) == (Interrupt {
                request: with_int_bit(old(self).request, flag),
                ..*old(self)
            }),
    {
        let b = match flag {
            IntFlag::VBlank => 1,
            IntFlag::LcdStat => 2,
            IntFlag::Timer => 4,
            IntFlag::Serial => 8,
            IntFlag::Joypad => 16,
        };
        if self.request / b % 2 == 0 {
            self.request = self.request + b;
        }
    }

    /// The pending-and-actionable bitset the CPU consults before each fetch:
    /// a source is in it exactly when its bit is set in both vectors.
    pub fn enabled_and_pending(&self) -> (r: u8)
        ensures
            r == (self.request & self.enabled),
    {
        self.request & self.enabled
    }

    /// What a byte read of the controller returns: the enable vector at
    /// 0xffff, the request vector at 0xff0f, zero elsewhere.
    pub open spec fn spec_get8(self, address: u16) -> u8 {
        if address == 0xffff {
            self.enabled
        } else if address == 0xff0f {
            self.request
        } else {
            0
        }
    }

    pub fn read8(&self, address: u16) -> (r: u8)
        ensures
            r == self.spec_get8(address),
    {
        match address {
            0xffff => self.enabled,
            0xff0f => self.request,
            _ => 0,
        }
    }

    /// A byte write replaces the addressed vector; writes elsewhere are
    /// ignored.
    pub open spec fn set8_rel(pre: Self, post: Self, address: u16, n: u8) -> bool {
        if address == 0xffff {
            post == (Interrupt { enabled: n, ..pre })
        } else if address == 0xff0f {
            post == (Interrupt { request: n, ..pre })
        } else {
            post == pre
        }
    }

    pub fn write8(&mut self, address: u16, n: u8)
        ensures
            Self::set8_rel(*old(self), *final(self), address, n),
    {
        match address {
            0xffff => self.enabled = n,
            0xff0f => self.request = n,
            _ => (),
        }
    }
}

impl MemoryIO for Interrupt {
    fn get8(&self, address: u16) -> u8 {
        self.read8(address)
    }

    fn set8(&mut self, address: u16, n: u8) {
        self.write8(address, n);
    }

    fn get16(&self, address: u16) -> u16 {
        let lo = self.read8(address);
        let hi = self.read8(crate::num::wrapping_add16(address, 1));
        crate::num::to_u16(hi, lo)
    }

    fn set16(&mut self, address: u16, n: u16) {
        self.write8(address, crate::num::low_byte(n));
        self.write8(crate::num::wrapping_add16(address, 1), crate::num::high_byte(n));
    }
}

} // verus!
