//! The trivial cartridge device without a bank controller: one fixed 32 KiB
//! ROM window and one 8 KiB external RAM window.

use vstd::prelude::*;

use crate::memory::{zeroed, MemoryIO};

verus! {

pub struct NoMBC {
    pub rom_bank: Vec<u8>,
    pub ram_bank: Vec<u8>,
}

impl NoMBC {
    pub open spec fn wf(self) -> bool {
        &&& self.rom_bank@.len() == 0x8000
        &&& self.ram_bank@.len() == 0x2000
    }

    pub fn new() -> (r: Self)
        ensures
            r.wf(),
            forall|i: int| 0 <= i < 0x8000 ==> r.rom_bank@[i] == 0,
            forall|i: int| 0 <= i < 0x2000 ==> r.ram_bank@[i] == 0,
    {
        Self { rom_bank: zeroed(0x8000), ram_bank: zeroed(0x2000) }
    }

    /// Copies a ROM image into the fixed bank; an image longer than the bank
    /// is truncated, a shorter one leaves the tail as it was.
    pub fn load_rom(&mut self, rom: &Vec<u8>)
        requires
            old(self).wf(),
        ensures
            final(self).wf(),
            final(self).ram_bank == old(self).ram_bank,
            forall|i: int|
                0 <= i < 0x8000 ==> final(self).rom_bank@[i] == (if i < rom@.len() {
                    rom@[i]
                } else {
                    old(self).rom_bank@[i]
                }),
    {
        let n = if rom.len() < 0x8000 {
            rom.len()
        } else {
            0x8000
        };
        let mut i: usize = 0;
        while i < n
            invariant
                i <= n,
                n <= rom@.len(),
                n <= 0x8000,
                self.wf(),
                self.ram_bank == old(self).ram_bank,
                forall|j: int|
                    0 <= j < 0x8000 ==> self.rom_bank@[j] == (if j < i {
                        rom@[j]
                    } else {
                        old(self).rom_bank@[j]
                    }),
            decreases n - i,
        {
            let b = rom[i];
            self.rom_bank.set(i, b);
            i = i + 1;
        }
    }

    /// What a byte read returns: the ROM window at 0x0000-0x7fff, the RAM
    /// window at 0xa000-0xbfff, zero anywhere else.
    pub open spec fn spec_get8(self, address: u16) -> u8 {
        if address < 0x8000 {
            if address < self.rom_bank@.len() {
                self.rom_bank@[address as int]
            } else {
                0
            }
        } else if 0xa000 <= address < 0xc000 {
            if address - 0xa000 < self.ram_bank@.len() {
                self.ram_bank@[address - 0xa000]
            } else {
                0
            }
        } else {
            0
        }
    }

    pub fn read8(&self, address: u16) -> (r: u8)
        ensures
            r == self.spec_get8(address),
    {
        if address < 0x8000 {
            if (address as usize) < self.rom_bank.len() {
                self.rom_bank[address as usize]
            } else {
                0
            }
        } else if 0xa000 <= address && address < 0xc000 {
            if (address as usize) - 0xa000 < self.ram_bank.len() {
                self.ram_bank[(address as usize) - 0xa000]
            } else {
                0
            }
        } else {
            0
        }
    }

    /// A byte write lands in the addressed window when it is in range and is
    /// ignored anywhere else.
    pub open spec fn set8_rel(pre: Self, post: Self, address: u16, n: u8) -> bool {
        if address < 0x8000 && address < pre.rom_bank@.len() {
            &&& post.rom_bank@ == (pre.rom_bank@).update(address as int, n)
            &&& post == (NoMBC { rom_bank: post.rom_bank, ..pre })
        } else if 0xa000 <= address < 0xc000 && address - 0xa000 < pre.ram_bank@.len() {
            &&& post.ram_bank@ == (pre.ram_bank@).update(address - 0xa000, n)
            &&& post == (NoMBC { ram_bank: post.ram_bank, ..pre })
        } else {
            post == pre
        }
    }

    pub fn write8(&mut self, address: u16, n: u8)
        ensures
            Self::set8_rel(*old(self), *final(self), address, n),
    {
        if address < 0x8000 {
            if (address as usize) < self.rom_bank.len() {
                self.rom_bank.set(address as usize, n);
            }
        } else if 0xa000 <= address && address < 0xc000 {
            if (address as usize) - 0xa000 < self.ram_bank.len() {
                self.ram_bank.set((address as usize) - 0xa000, n);
            }
        }
    }
}

impl MemoryIO for NoMBC {
    fn get8(&self, address: u16) -> u8 {
        self.read8(address)
    }

    fn set8(&mut self, address: u16, n: u8) {
        self.write8(address, n);
    }

    fn get16(&self, address: u16) -> u16 {
        let lo = self.read8(address);
        let hi = self.read8(crate::num::wrapping_add16(address, 1));
        crate::num::to_u16(hi, lo)
    }

    fn set16(&mut self, address: u16, n: u16) {
        self.write8(address, crate::num::low_byte(n));
        self.write8(crate::num::wrapping_add16(address, 1), crate::num::high_byte(n));
    }
}

} // verus!
