//! The cartridge: its raw contents, the 0x50-byte header at 0x100-0x14f
//! with its decoded fields, and the dispatch over the supported bank
//! controllers.

use vstd::prelude::*;

use crate::mbc1::MBC1;
use crate::memory::MemoryIO;
use crate::nombc::NoMBC;

verus! {

/// A raw cartridge image as handed over by the loader.
pub struct Cartridge {
    pub content: Vec<u8>,
}

impl Cartridge {
    pub fn new(content: Vec<u8>) -> (r: Self)
        ensures
            r.content == content,
    {
        Self { content }
    }

    /// The header bytes 0x100-0x14f of the image. An image too short to hold
    /// a header is rejected by the loader before it gets here.
    pub fn header(&self) -> (r: CartridgeHeader)
        requires
            self.content@.len() >= 0x150,
        ensures
            r.ch@ == self.content@.subrange(0x100, 0x150),
            r.wf(),
    {
        CartridgeHeader { ch: copy_range(&self.content, 0x100, 0x150) }
    }
}

/// Copies `v[start..end]` into a fresh vector.
fn copy_range(v: &Vec<u8>, start: usize, end: usize) -> (r: Vec<u8>)
    requires
        start <= end,
        end <= v@.len(),
    ensures
        r@ == v@.subrange(start as int, end as int),
{
    let mut r: Vec<u8> = Vec::new();
    let mut i: usize = start;
    while i < end
        invariant
            start <= i <= end,
            end <= v@.len(),
            r@ == v@.subrange(start as int, i as int),
        decreases end - i,
    {
        let b = v[i];
        r.push(b);
        proof {
            assert(r@ =~= v@.subrange(start as int, i + 1));
        }
        i = i + 1;
    }
    r
}

/// The fixed-layout cartridge header: 0x50 bytes holding the entry point,
/// logo, title, region and size codes and the checksums.
pub struct CartridgeHeader {
    pub ch: Vec<u8>,
}

impl CartridgeHeader {
    pub open spec fn wf(self) -> bool {
        self.ch@.len() == 0x50
    }

    /// Decoded ROM size in bytes: 32 KiB shifted left by the size code, zero
    /// for a code out of range.
    pub open spec fn spec_rom_size(self) -> int {
        if self.ch@[0x48] == 0x00 {
            0x8000
        } else if self.ch@[0x48] == 0x01 {
            0x10000
        } else if self.ch@[0x48] == 0x02 {
            0x20000
        } else if self.ch@[0x48] == 0x03 {
            0x40000
        } else if self.ch@[0x48] == 0x04 {
            0x80000
        } else if self.ch@[0x48] == 0x05 {
            0x100000
        } else if self.ch@[0x48] == 0x06 {
            0x200000
        } else if self.ch@[0x48] == 0x07 {
            0x400000
        } else if self.ch@[0x48] == 0x08 {
            0x800000
        } else {
            0
        }
    }

    /// Decoded external RAM size in bytes, zero for a code out of range.
    pub open spec fn spec_ram_size(self) -> int {
        if self.ch@[0x49] == 0x02 {
            0x2000
        } else if self.ch@[0x49] == 0x03 {
            0x8000
        } else if self.ch@[0x49] == 0x04 {
            0x20000
        } else if self.ch@[0x49] == 0x05 {
            0x10000
        } else {
            0
        }
    }

    /// The four entry-point bytes read big-endian as one value.
    pub fn entry_point(&self) -> (r: u32)
        requires
            self.wf(),
        ensures
            r == self.ch@[0] * 0x1000000 + self.ch@[1] * 0x10000 + self.ch@[2] * 0x100
                + self.ch@[3],
    {
        (self.ch[0] as u32) * 0x1000000 + (self.ch[1] as u32) * 0x10000 + (self.ch[2] as u32)
            * 0x100 + (self.ch[3] as u32)
    }

    pub fn nintendo_logo(&self) -> (r: Vec<u8>)
        requires
            self.wf(),
        ensures
            r@ == self.ch@.subrange(0x04, 0x34),
    {
        copy_range(&self.ch, 0x04, 0x34)
    }

    pub fn title(&self) -> (r: Vec<u8>)
        requires
            self.wf(),
        ensures
            r@ == self.ch@.subrange(0x34, 0x44),
    {
        copy_range(&self.ch, 0x34, 0x44)
    }

    pub fn manufacturer_code(&self) -> (r: Vec<u8>)
        requires
            self.wf(),
        ensures
            r@ == self.ch@.subrange(0x3f, 0x43),
    {
        copy_range(&self.ch, 0x3f, 0x43)
    }

    /// Whether the cartridge declares color-unit support (codes 0x80 and
    /// 0xc0).
    pub fn cgb_flag(&self) -> (r: bool)
        requires
            self.wf(),
        ensures
            r == (self.ch@[0x43] == 0x80 || self.ch@[0x43] == 0xc0),
    {
        match self.ch[0x43] {
            0x80 | 0xc0 => true,
            _ => false,
        }
    }

    pub fn new_licensee_code(&self) -> (r: u16)
        requires
            self.wf(),
        ensures
            r == self.ch@[0x44] * 0x100 + self.ch@[0x45],
    {
        (self.ch[0x44] as u16) * 0x100 + (self.ch[0x45] as u16)
    }

    pub fn sgb_flag(&self) -> (r: bool)
        requires
            self.wf(),
        ensures
            r == (self.ch@[0x46] == 0x03),
    {
        self.ch[0x46] == 0x03
    }

    pub fn cartridge_type(&self) -> (r: u8)
        requires
            self.wf(),
        ensures
            r == self.ch@[0x47],
    {
        self.ch[0x47]
    }

    pub fn rom_size(&self) -> (r: usize)
        requires
            self.wf(),
        ensures
            r == self.spec_rom_size(),
    {
        match self.ch[0x48] {
            0x00 => 0x8000,
            0x01 => 0x10000,
            0x02 => 0x20000,
            0x03 => 0x40000,
            0x04 => 0x80000,
            0x05 => 0x100000,
            0x06 => 0x200000,
            0x07 => 0x400000,
            0x08 => 0x800000,
            _ => 0,
        }
    }

    pub fn ram_size(&self) -> (r: usize)
        requires
            self.wf(),
        ensures
            r == self.spec_ram_size(),
    {
        match self.ch[0x49] {
            0x02 => 0x2000,
            0x03 => 0x8000,
            0x04 => 0x20000,
            0x05 => 0x10000,
            _ => 0,
        }
    }

    pub fn destination_code(&self) -> (r: u8)
        requires
            self.wf(),
        ensures
            r == self.ch@[0x4a],
    {
        self.ch[0x4a]
    }

    pub fn old_licensee_code(&self) -> (r: u8)
        requires
            self.wf(),
        ensures
            r == self.ch@[0x4b],
    {
        self.ch[0x4b]
    }

    pub fn mask_rom_version_number(&self) -> (r: u8)
        requires
            self.wf(),
        ensures
            r == self.ch@[0x4c],
    {
        self.ch[0x4c]
    }

    pub fn header_checksum(&self) -> (r: u8)
        requires
            self.wf(),
        ensures
            r == self.ch@[0x4d],
    {
        self.ch[0x4d]
    }

    pub fn global_checksum(&self) -> (r: u16)
        requires
            self.wf(),
        ensures
            r == self.ch@[0x4e] * 0x100 + self.ch@[0x4f],
    {
        (self.ch[0x4e] as u16) * 0x100 + (self.ch[0x4f] as u16)
    }
}

/// The bank controller a cartridge carries, dispatched by its type code.
pub enum Mbc {
    NoMbc(NoMBC),
    Mbc1(MBC1),
}

impl Mbc {
    /// What a byte read of the cartridge device returns.
    pub open spec fn spec_get8(self, address: u16) -> u8 {
        match self {
            Mbc::NoMbc(d) => d.spec_get8(address),
            Mbc::Mbc1(d) => d.spec_get8(address),
        }
    }

    /// Effect of a byte write on the cartridge device.
    pub open spec fn set8_rel(pre: Self, post: Self, address: u16, n: u8) -> bool {
        match pre {
            Mbc::NoMbc(d) => post is NoMbc && NoMBC::set8_rel(d, post->NoMbc_0, address, n),
            Mbc::Mbc1(d) => post is Mbc1 && MBC1::set8_rel(d, post->Mbc1_0, address, n),
        }
    }

    pub fn read8(&self, address: u16) -> (r: u8)
        ensures
            r == self.spec_get8(address),
    {
        match self {
            Mbc::NoMbc(d) => d.read8(address),
            Mbc::Mbc1(d) => d.read8(address),
        }
    }

    pub fn write8(&mut self, address: u16, n: u8)
        ensures
            Self::set8_rel(*old(self), *final(self), address, n),
    {
        match self {
            Mbc::NoMbc(d) => d.write8(address, n),
            Mbc::Mbc1(d) => d.write8(address, n),
        }
    }
}

impl MemoryIO for Mbc {
    fn get8(&self, address: u16) -> u8 {
        self.read8(address)
    }

    fn set8(&mut self, address: u16, n: u8) {
        self.write8(address, n);
    }

    fn get16(&self, address: u16) -> u16 {
        let lo = self.read8(address);
        let hi = self.read8(crate::num::wrapping_add16(address, 1));
        crate::num::to_u16(hi, lo)
    }

    fn set16(&mut self, address: u16, n: u16) {
        self.write8(address, crate::num::low_byte(n));
        self.write8(crate::num::wrapping_add16(address, 1), crate::num::high_byte(n));
    }
}

} // verus!
