//! The byte-addressable bus shared by the CPU, the PPU, the cartridge and
//! the interrupt controller, together with the `MemoryIO` contract that every
//! addressable device on it satisfies.
//!
//! Routing over the 16-bit address space: the two cartridge windows, video
//! RAM and the object-attribute table on the PPU, work RAM with its echo
//! mirror, the PPU's register block inside the I/O window, high RAM, and the
//! two interrupt registers. 16-bit access is little-endian and decomposed
//! into two byte accesses.

use vstd::prelude::*;

use crate::gpu::Gpu;
use crate::interrupt::Interrupt;
use crate::mbc::{CartridgeHeader, Mbc};
use crate::mbc1::MBC1;
use crate::nombc::NoMBC;
use crate::num::{hi8, join16, lo8, wadd16};

verus! {

/// Contract of an addressable device on the bus: byte reads and writes over
/// the 16-bit address space, with 16-bit access decomposed little-endian into
/// two byte accesses.
pub trait MemoryIO {
    fn get8(&self, address: u16) -> u8;

    fn set8(&mut self, address: u16, n: u8);

    fn get16(&self, address: u16) -> u16;

    fn set16(&mut self, address: u16, n: u16);
}

pub struct Memory {
    pub cartridge: Mbc,
    pub gpu: Gpu,
    /// Work RAM, 0xc000-0xdfff, mirrored at 0xe000-0xfdff.
    pub wram: Vec<u8>,
    /// Plain bytes of the I/O window 0xff00-0xff7f that no device claims.
    /// The HDMA registers 0xff51-0xff55 live here deliberately: the
    /// `Hdma` descriptor tracks transfer state on its own and is not wired
    /// into the bus, as the transfer's byte-copy and stall timing are not
    /// modeled.
    pub io_registers: Vec<u8>,
    /// High RAM, 0xff80-0xfffe.
    pub hram: Vec<u8>,
    pub interrupt: Interrupt,
}

impl Memory {
    pub open spec fn wf(self) -> bool {
        &&& self.gpu.wf()
        &&& self.wram@.len() == 0x2000
        &&& self.io_registers@.len() == 0x80
        &&& self.hram@.len() == 0x7f
    }

    /// Whether the I/O address belongs to the PPU's register block.
    pub open spec fn is_gpu_reg(address: u16) -> bool {
        ||| 0xff40 <= address <= 0xff4b
        ||| address == 0xff4f
        ||| 0xff68 <= address <= 0xff6b
    }

    /// What a power-on bus looks like for the given cartridge header: the
    /// bank controller the header's type code names (MBC1 for codes 1-3,
    /// none otherwise) with its power-on register values and empty banks,
    /// no interrupt pending or enabled, all RAM zero and a power-on PPU
    /// with a blank frame buffer.
    pub open spec fn fresh(header: CartridgeHeader, m: Memory) -> bool {
        &&& (header.ch@[0x47] == 1 || header.ch@[0x47] == 2 || header.ch@[0x47] == 3 ==> {
            &&& m.cartridge is Mbc1
            &&& m.cartridge->Mbc1_0.ram_enable == false
            &&& m.cartridge->Mbc1_0.rom_bank_number == 1
            &&& m.cartridge->Mbc1_0.ram_bank_number == 0
            &&& m.cartridge->Mbc1_0.banking_mode == crate::mbc1::BankingMode::Simple
            &&& m.cartridge->Mbc1_0.rom_bank@.len() == header.spec_rom_size()
            &&& m.cartridge->Mbc1_0.ram_bank@.len() == header.spec_ram_size()
            &&& (forall|i: int|
                0 <= i < m.cartridge->Mbc1_0.rom_bank@.len()
                    ==> m.cartridge->Mbc1_0.rom_bank@[i] == 0)
            &&& (forall|i: int|
                0 <= i < m.cartridge->Mbc1_0.ram_bank@.len()
                    ==> m.cartridge->Mbc1_0.ram_bank@[i] == 0)
        })
        &&& (!(header.ch@[0x47] == 1 || header.ch@[0x47] == 2 || header.ch@[0x47] == 3) ==> {
            &&& m.cartridge is NoMbc
            &&& m.cartridge->NoMbc_0.wf()
            &&& (forall|i: int| 0 <= i < 0x8000 ==> m.cartridge->NoMbc_0.rom_bank@[i] == 0)
            &&& (forall|i: int| 0 <= i < 0x2000 ==> m.cartridge->NoMbc_0.ram_bank@[i] == 0)
        })
        &&& (forall|i: int| 0 <= i < 0x2000 ==> m.wram@[i] == 0)
        &&& (forall|i: int| 0 <= i < 0x80 ==> m.io_registers@[i] == 0)
        &&& (forall|i: int| 0 <= i < 0x7f ==> m.hram@[i] == 0)
        &&& m.interrupt.request == 0
        &&& m.interrupt.enabled == 0
        &&& m.gpu.term == crate::Term::GB
        &&& m.gpu.lcd_control == crate::gpu_regs::LcdControl::new_spec()
        &&& m.gpu.lcd_status == crate::gpu_regs::LcdStatus::new_spec()
        &&& m.gpu.dots == 0
        &&& m.gpu.lcd_y_coordinate == 0
        &&& m.gpu.ly_compare == 0
        &&& m.gpu.ram_bank == 0
        &&& m.gpu.scrollx == 0
        &&& m.gpu.scrolly == 0
        &&& m.gpu.wndposx == 0
        &&& m.gpu.wndposy == 0
        &&& m.gpu.bg_palette_data == 0
        &&& m.gpu.obj_palette_0 == 0
        &&& m.gpu.obj_palette_1 == 0
        &&& m.gpu.data@ == crate::gpu::blank_screen()
        &&& (forall|i: int| 0 <= i < 0x4000 ==> m.gpu.vram@[i] == 0)
        &&& (forall|i: int|
            0 <= i < 40 ==> m.gpu.oam@[i] == (crate::gpu_regs::OamEntry {
                y_position: 0,
                x_position: 0,
                tile_index: 0,
                flags: crate::gpu_regs::Attributes::default_spec(),
            }))
    }

    /// Fresh bus state: the bank controller the header's type code names
    /// (MBC1 for codes 1-3, none otherwise), a fresh PPU and all RAM zero.
    pub fn new(header: CartridgeHeader) -> (r: Self)
        requires
            header.wf(),
        ensures
            r.wf(),
            Self::fresh(header, r),
    {
        let t = header.cartridge_type();
        let cartridge = if t == 1 || t == 2 || t == 3 {
            Mbc::Mbc1(MBC1::new(header))
        } else {
            Mbc::NoMbc(NoMBC::new())
        };
        Memory {
            cartridge,
            gpu: Gpu::new(),
            wram: zeroed(0x2000),
            io_registers: zeroed(0x80),
            hram: zeroed(0x7f),
            interrupt: Interrupt::new(),
        }
    }

    /// What a byte read of the bus returns, by region: the cartridge
    /// windows, the PPU's memory and registers, work RAM and its echo, the
    /// unmapped gap as zero, plain I/O bytes, high RAM and the interrupt
    /// registers.
    pub open spec fn spec_get8(self, address: u16) -> u8 {
        if address < 0x8000 {
            self.cartridge.spec_get8(address)
        } else if address < 0xa000 {
            self.gpu.spec_get8(address)
        } else if address < 0xc000 {
            self.cartridge.spec_get8(address)
        } else if address < 0xe000 {
            self.wram@[address - 0xc000]
        } else if address < 0xfe00 {
            self.wram@[address - 0xe000]
        } else if address < 0xfea0 {
            self.gpu.spec_get8(address)
        } else if address < 0xff00 {
            0
        } else if address == 0xff0f || address == 0xffff {
            self.interrupt.spec_get8(address)
        } else if Self::is_gpu_reg(address) {
            self.gpu.spec_get8(address)
        } else if address < 0xff80 {
            self.io_registers@[address - 0xff00]
        } else {
            self.hram@[address - 0xff80]
        }
    }

    pub fn get8(&self, address: u16) -> (r: u8)
        requires
            self.wf(),
        ensures
            r == self.spec_get8(address),
    {
        if address < 0x8000 {
            self.cartridge.read8(address)
        } else if address < 0xa000 {
            self.gpu.read8(address)
        } else if address < 0xc000 {
            self.cartridge.read8(address)
        } else if address < 0xe000 {
            self.wram[(address - 0xc000) as usize]
        } else if address < 0xfe00 {
            self.wram[(address - 0xe000) as usize]
        } else if address < 0xfea0 {
            self.gpu.read8(address)
        } else if address < 0xff00 {
            0
        } else if address == 0xff0f || address == 0xffff {
            self.interrupt.read8(address)
        } else if (0xff40 <= address && address <= 0xff4b) || address == 0xff4f || (0xff68
            <= address && address <= 0xff6b) {
            self.gpu.read8(address)
        } else if address < 0xff80 {
            self.io_registers[(address - 0xff00) as usize]
        } else {
            self.hram[(address - 0xff80) as usize]
        }
    }

    /// Effect of a byte write on the bus: it reaches exactly the region its
    /// address routes to; the unmapped gap swallows it.
    pub open spec fn set8_rel(pre: Self, post: Self, address: u16, n: u8) -> bool {
        if address < 0x8000 || (0xa000 <= address < 0xc000) {
            &&& Mbc::set8_rel(pre.cartridge, post.cartridge, address, n)
            &&& post == (Memory { cartridge: post.cartridge, ..pre })
        } else if address < 0xa000 || (0xfe00 <= address < 0xfea0) || (address != 0xff0f && address
            != 0xffff && Self::is_gpu_reg(address)) {
            &&& Gpu::set8_rel(pre.gpu, post.gpu, address, n)
            &&& post == (Memory { gpu: post.gpu, ..pre })
        } else if 0xc000 <= address < 0xe000 {
            &&& post.wram@ == (pre.wram@).update(address - 0xc000, n)
            &&& post == (Memory { wram: post.wram, ..pre })
        } else if 0xe000 <= address < 0xfe00 {
            &&& post.wram@ == (pre.wram@).update(address - 0xe000, n)
            &&& post == (Memory { wram: post.wram, ..pre })
        } else if 0xfea0 <= address < 0xff00 {
            post == pre
        } else if address == 0xff0f || address == 0xffff {
            &&& Interrupt::set8_rel(pre.interrupt, post.interrupt, address, n)
            &&& post == (Memory { interrupt: post.interrupt, ..pre })
        } else if 0xff00 <= address < 0xff80 {
            &&& post.io_registers@ == (pre.io_registers@).update(address - 0xff00, n)
            &&& post == (Memory { io_registers: post.io_registers, ..pre })
        } else {
            &&& post.hram@ == (pre.hram@).update(address - 0xff80, n)
            &&& post == (Memory { hram: post.hram, ..pre })
        }
    }

    pub fn set8(&mut self, address: u16, n: u8)
        requires
            old(self).wf(),
        ensures
            Self::set8_rel(*old(self), *final(self), address, n),
            final(self).wf(),
    {
        if address < 0x8000 {
            self.cartridge.write8(address, n);
        } else if address < 0xa000 {
            self.gpu.write8(address, n);
        } else if address < 0xc000 {
            self.cartridge.write8(address, n);
        } else if address < 0xe000 {
            self.wram.set((address - 0xc000) as usize, n);
        } else if address < 0xfe00 {
            self.wram.set((address - 0xe000) as usize, n);
        } else if address < 0xfea0 {
            self.gpu.write8(address, n);
        } else if address < 0xff00 {
        } else if address == 0xff0f || address == 0xffff {
            self.interrupt.write8(address, n);
        } else if (0xff40 <= address && address <= 0xff4b) || address == 0xff4f || (0xff68
            <= address && address <= 0xff6b) {
            self.gpu.write8(address, n);
        } else if address < 0xff80 {
            self.io_registers.set((address - 0xff00) as usize, n);
        } else {
            self.hram.set((address - 0xff80) as usize, n);
        }
    }

    /// What a 16-bit read returns: the two bytes at `address` and
    /// `address + 1`, little-endian, the second address wrapping.
    pub open spec fn spec_get16(self, address: u16) -> u16 {
        join16(self.spec_get8(wadd16(address, 1)), self.spec_get8(address))
    }

    pub fn get16(&self, address: u16) -> (r: u16)
        requires
            self.wf(),
        ensures
            r == self.spec_get16(address),
    {
        let lo = self.get8(address);
        let hi = self.get8(crate::num::wrapping_add16(address, 1));
        crate::num::to_u16(hi, lo)
    }

    /// Effect of a 16-bit write: the low byte lands at `address` and then
    /// the high byte at `address + 1` (wrapping), each as a byte write.
    pub open spec fn set16_rel(pre: Self, post: Self, address: u16, n: u16) -> bool {
        exists|mid: Memory|
            #[trigger] Self::set8_rel(pre, mid, address, lo8(n)) && Self::set8_rel(
                mid,
                post,
                wadd16(address, 1),
                hi8(n),
            )
    }

    pub fn set16(&mut self, address: u16, n: u16)
        requires
            old(self).wf(),
        ensures
            Self::set16_rel(*old(self), *final(self), address, n),
            final(self).wf(),
    {
        self.set8(address, crate::num::low_byte(n));
        let ghost mid = *self;
        self.set8(crate::num::wrapping_add16(address, 1), crate::num::high_byte(n));
        proof {
            assert(Self::set8_rel(*old(self), mid, address, lo8(n)));
        }
    }
}

/// A fresh all-zero byte region of the given size.
pub fn zeroed(n: usize) -> (r: Vec<u8>)
    ensures
        r@.len() == n,
        forall|i: int| 0 <= i < n ==> r@[i] == 0,
{
    let mut v: Vec<u8> = Vec::new();
    let mut i: usize = 0;
    while i < n
        invariant
            i <= n,
            v@.len() == i,
            forall|j: int| 0 <= j < i ==> v@[j] == 0,
        decreases n - i,
    {
        v.push(0);
        i = i + 1;
    }
    v
}

} // verus!
