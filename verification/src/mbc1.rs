//! The MBC1 bank controller: remaps the two cartridge windows onto a larger
//! ROM and RAM through a ROM bank number, a RAM bank number and a banking
//! mode, all set by writes into the ROM address range.

use vstd::prelude::*;

use crate::mbc::CartridgeHeader;
use crate::memory::{zeroed, MemoryIO};

verus! {

#[derive(Clone, Copy, PartialEq, Eq, Structural, Debug)]
pub enum BankingMode {
    Simple,
    Advanced,
}

pub struct MBC1 {
    /// Tracked from writes to 0x0000-0x1fff; this controller model does not
    /// gate RAM access on it.
    pub ram_enable: bool,
    pub rom_bank_number: u8,
    pub ram_bank_number: u8,
    pub banking_mode: BankingMode,
    pub rom_bank: Vec<u8>,
    pub ram_bank: Vec<u8>,
}

impl MBC1 {
    /// Fresh controller sized from the cartridge header, with ROM bank 1
    /// selected as the hardware does.
    pub fn new(header: CartridgeHeader) -> (r: Self)
        requires
            header.wf(),
        ensures
            r.ram_enable == false,
            r.rom_bank_number == 1,
            r.ram_bank_number == 0,
            r.banking_mode == BankingMode::Simple,
            r.rom_bank@.len() == header.spec_rom_size(),
            r.ram_bank@.len() == header.spec_ram_size(),
            forall|i: int| 0 <= i < r.rom_bank@.len() ==> r.rom_bank@[i] == 0,
            forall|i: int| 0 <= i < r.ram_bank@.len() ==> r.ram_bank@[i] == 0,
    {
        Self {
            ram_enable: false,
            rom_bank_number: 1,
            ram_bank_number: 0,
            banking_mode: BankingMode::Simple,
            rom_bank: zeroed(header.rom_size()),
            ram_bank: zeroed(header.ram_size()),
        }
    }

    /// Copies a ROM image into the banked ROM; an image longer than the
    /// allocated ROM is truncated.
    pub fn load_rom(&mut self, rom: &Vec<u8>)
        ensures
            final(self).rom_bank@.len() == old(self).rom_bank@.len(),
            forall|i: int|
                0 <= i < old(self).rom_bank@.len() ==> final(self).rom_bank@[i] == (if i
                    < rom@.len() {
                    rom@[i]
                } else {
                    old(self).rom_bank@[i]
                }),
            *final(self) == (MBC1 { rom_bank: final(self).rom_bank, ..*old(self) }),
    {
        let n = if rom.len() < self.rom_bank.len() {
            rom.len()
        } else {
            self.rom_bank.len()
        };
        let mut i: usize = 0;
        while i < n
            invariant
                i <= n,
                n <= rom@.len(),
                n <= self.rom_bank@.len(),
                self.rom_bank@.len() == old(self).rom_bank@.len(),
                forall|j: int|
                    0 <= j < old(self).rom_bank@.len() ==> self.rom_bank@[j] == (if j < i {
                        rom@[j]
                    } else {
                        old(self).rom_bank@[j]
                    }),
                *self == (MBC1 { rom_bank: self.rom_bank, ..*old(self) }),
            decreases n - i,
        {
            let b = rom[i];
            self.rom_bank.set(i, b);
            i = i + 1;
        }
    }

    /// Writing 0x0a into 0x0000-0x1fff enables RAM, 0x00 disables it; other
    /// values leave it alone.
    pub fn set_ram_enable(&mut self, is_enabled: u8)
        ensures
            *final(self) == (MBC1 {
                ram_enable: if is_enabled == 0x00 {
                    false
                } else if is_enabled == 0x0a {
                    true
                } else {
                    old(self).ram_enable
                },
                ..*old(self)
            }),
    {
        match is_enabled {
            0x00 => self.ram_enable = false,
            0x0a => self.ram_enable = true,
            _ => (),
        }
    }

    /// Selects the ROM bank from the low five bits; banks 0 and 1 both select
    /// bank 1, as the hardware quirk demands.
    pub fn set_rom_bank(&mut self, bank: u8)
        ensures
            *final(self) == (MBC1 {
                rom_bank_number: if bank % 32 <= 1 {
                    1
                } else {
                    bank
                },
                ..*old(self)
            }),
    {
        if bank % 32 <= 1 {
            self.rom_bank_number = 1;
        } else {
            self.rom_bank_number = bank;
        }
    }

    /// Accepts a bank select in 0-3 written into 0x4000-0x5fff; values with
    /// other low-five-bit patterns are ignored.
    pub fn set_ram_bank(&mut self, bank: u8)
        ensures
            *final(self) == (MBC1 {
                ram_bank_number: if bank % 32 <= 3 {
                    bank % 32
                } else {
                    old(self).ram_bank_number
                },
                ..*old(self)
            }),
    {
        if bank % 32 <= 3 {
            self.ram_bank_number = bank % 32;
        }
    }

    pub fn set_banking_mode(&mut self, mode: u8)
        ensures
            *final(self) == (MBC1 {
                banking_mode: if mode == 0 {
                    BankingMode::Simple
                } else if mode == 1 {
                    BankingMode::Advanced
                } else {
                    old(self).banking_mode
                },
                ..*old(self)
            }),
    {
        match mode {
            0x00 => self.banking_mode = BankingMode::Simple,
            0x01 => self.banking_mode = BankingMode::Advanced,
            _ => (),
        }
    }

    /// ROM index that a read of 0x0000-0x3fff resolves to: bank 0, or in
    /// advanced mode the bank chosen by the RAM bank bits as upper ROM bits.
    pub open spec fn low_rom_index(self, address: u16) -> int {
        if self.banking_mode == BankingMode::Simple {
            address as int
        } else {
            self.ram_bank_number * 0x80000 + address
        }
    }

    /// ROM index that a read of 0x4000-0x7fff resolves to.
    pub open spec fn high_rom_index(self, address: u16) -> int {
        (address - 0x4000) + self.rom_bank_number * 0x4000 + self.ram_bank_number * 0x80000
    }

    /// RAM index that an access of 0xa000-0xbfff resolves to.
    pub open spec fn ram_index(self, address: u16) -> int {
        if self.banking_mode == BankingMode::Simple {
            address - 0xa000
        } else {
            (address - 0xa000) + self.ram_bank_number * 0x2000
        }
    }

    /// What a byte read returns; an index beyond the allocated ROM or RAM
    /// reads as zero rather than faulting.
    pub open spec fn spec_get8(self, address: u16) -> u8 {
        if address < 0x4000 {
            if self.low_rom_index(address) < self.rom_bank@.len() {
                self.rom_bank@[self.low_rom_index(address)]
            } else {
                0
            }
        } else if address < 0x8000 {
            if self.high_rom_index(address) < self.rom_bank@.len() {
                self.rom_bank@[self.high_rom_index(address)]
            } else {
                0
            }
        } else if 0xa000 <= address < 0xc000 {
            if self.ram_index(address) < self.ram_bank@.len() {
                self.ram_bank@[self.ram_index(address)]
            } else {
                0
            }
        } else {
            0
        }
    }

    pub fn read8(&self, address: u16) -> (r: u8)
        ensures
            r == self.spec_get8(address),
    {
        if address < 0x4000 {
            let idx: usize = match self.banking_mode {
                BankingMode::Simple => address as usize,
                BankingMode::Advanced => (self.ram_bank_number as usize) * 0x80000 + (
                address as usize),
            };
            if idx < self.rom_bank.len() {
                self.rom_bank[idx]
            } else {
                0
            }
        } else if address < 0x8000 {
            let idx: usize = (address as usize - 0x4000) + (self.rom_bank_number as usize) * 0x4000
                + (self.ram_bank_number as usize) * 0x80000;
            if idx < self.rom_bank.len() {
                self.rom_bank[idx]
            } else {
                0
            }
        } else if 0xa000 <= address && address < 0xc000 {
            let idx: usize = match self.banking_mode {
                BankingMode::Simple => address as usize - 0xa000,
                BankingMode::Advanced => (address as usize - 0xa000) + (
                self.ram_bank_number as usize) * 0x2000,
            };
            if idx < self.ram_bank.len() {
                self.ram_bank[idx]
            } else {
                0
            }
        } else {
            0
        }
    }

    /// Effect of a byte write: the ROM range programs the controller
    /// registers, the RAM window stores when in range, anything else is
    /// ignored.
    pub open spec fn set8_rel(pre: Self, post: Self, address: u16, n: u8) -> bool {
        if address < 0x2000 {
            post == (MBC1 {
                ram_enable: if n == 0x00 {
                    false
                } else if n == 0x0a {
                    true
                } else {
                    pre.ram_enable
                },
                ..pre
            })
        } else if address < 0x4000 {
            post == (MBC1 {
                rom_bank_number: if n % 32 <= 1 {
                    1
                } else {
                    n
                },
                ..pre
            })
        } else if address < 0x6000 {
            post == (MBC1 {
                ram_bank_number: if n % 32 <= 3 {
                    n % 32
                } else {
                    pre.ram_bank_number
                },
                ..pre
            })
        } else if address < 0x8000 {
            post == (MBC1 {
                banking_mode: if n == 0 {
                    BankingMode::Simple
                } else if n == 1 {
                    BankingMode::Advanced
                } else {
                    pre.banking_mode
                },
                ..pre
            })
        } else if 0xa000 <= address < 0xc000 && pre.ram_index(address) < pre.ram_bank@.len() {
            &&& post.ram_bank@ == (pre.ram_bank@).update(pre.ram_index(address), n)
            &&& post == (MBC1 { ram_bank: post.ram_bank, ..pre })
        } else {
            post == pre
        }
    }

    pub fn write8(&mut self, address: u16, n: u8)
        ensures
            Self::set8_rel(*old(self), *final(self), address, n),
    {
        if address < 0x2000 {
            self.set_ram_enable(n);
        } else if address < 0x4000 {
            self.set_rom_bank(n);
        } else if address < 0x6000 {
            self.set_ram_bank(n);
        } else if address < 0x8000 {
            self.set_banking_mode(n);
        } else if 0xa000 <= address && address < 0xc000 {
            let idx: usize = match self.banking_mode {
                BankingMode::Simple => address as usize - 0xa000,
                BankingMode::Advanced => (address as usize - 0xa000) + (
                self.ram_bank_number as usize) * 0x2000,
            };
            if idx < self.ram_bank.len() {
                self.ram_bank.set(idx, n);
            }
        }
    }
}

impl MemoryIO for MBC1 {
    fn get8(&self, address: u16) -> u8 {
        self.read8(address)
    }

    fn set8(&mut self, address: u16, n: u8) {
        self.write8(address, n);
    }

    fn get16(&self, address: u16) -> u16 {
        let lo = self.read8(address);
        let hi = self.read8(crate::num::wrapping_add16(address, 1));
        crate::num::to_u16(hi, lo)
    }

    fn set16(&mut self, address: u16, n: u16) {
        self.write8(address, crate::num::low_byte(n));
        self.write8(crate::num::wrapping_add16(address, 1), crate::num::high_byte(n));
    }
}

} // verus!
