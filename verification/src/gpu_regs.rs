//! The PPU's memory-mapped register blocks: the HDMA transfer descriptor,
//! the LCD control and status registers, sprite attributes, object-attribute
//! entries and the color-unit palette RAM.

use vstd::prelude::*;

use crate::memory::MemoryIO;

verus! {

/// How an armed HDMA transfer is paced: all at once, or one block per
/// H-blank.
#[derive(Clone, Copy, PartialEq, Eq, Structural, Debug)]
pub enum HdmaMode {
    Gdma,
    Hdma,
}

/// The HDMA transfer descriptor behind registers 0xff51-0xff55: source and
/// destination addresses (low nibbles forced to zero), an active flag, the
/// pacing mode and the remaining-block counter.
pub struct Hdma {
    pub source: u16,
    pub destination: u16,
    pub active: bool,
    pub mode: HdmaMode,
    pub remain: u8,
}

impl Hdma {
    /// The remaining-block counter is seven bits wide.
    pub open spec fn wf(self) -> bool {
        self.remain < 128
    }

    pub fn new() -> (r: Self)
        ensures
            r == (Hdma {
                source: 0x0000,
                destination: 0x8000,
                active: false,
                mode: HdmaMode::Gdma,
                remain: 0x00,
            }),
            r.wf(),
    {
        Self { source: 0x0000, destination: 0x8000, active: false, mode: HdmaMode::Gdma, remain: 0 }
    }

    /// What a byte read of 0xff51-0xff55 returns: the address halves, or the
    /// remaining count with bit 7 set once the transfer is inactive. Other
    /// addresses do not belong to this block and read as zero.
    pub open spec fn spec_get8(self, address: u16) -> u8 {
        if address == 0xff51 {
            (self.source / 256) as u8
        } else if address == 0xff52 {
            (self.source % 256) as u8
        } else if address == 0xff53 {
            (self.destination / 256) as u8
        } else if address == 0xff54 {
            (self.destination % 256) as u8
        } else if address == 0xff55 {
            ((self.remain as int) + if self.active {
                0int
            } else {
                128int
            }) as u8
        } else {
            0
        }
    }

    pub fn read8(&self, address: u16) -> (r: u8)
        requires
            self.wf(),
        ensures
            r == self.spec_get8(address),
    {
        match address {
            0xff51 => (self.source / 256) as u8,
            0xff52 => (self.source % 256) as u8,
            0xff53 => (self.destination / 256) as u8,
            0xff54 => (self.destination % 256) as u8,
            0xff55 => self.remain + if self.active {
                0
            } else {
                128
            },
            _ => 0,
        }
    }

    /// Effect of a byte write: address halves keep their other byte, the low
    /// nibble of a low byte is forced to zero, the destination stays inside
    /// 0x8000-0x9fff, and a write to 0xff55 arms a transfer - or, while an
    /// H-blank transfer is active, a write with bit 7 clear cancels it
    /// without resetting the addresses.
    pub open spec fn set8_rel(pre: Self, post: Self, address: u16, v: u8) -> bool {
        if address == 0xff51 {
            post == (Hdma { source: ((v as int) * 256 + pre.source % 256) as u16, ..pre })
        } else if address == 0xff52 {
            post == (Hdma { source: (pre.source / 256 * 256 + (v / 16 * 16)) as u16, ..pre })
        } else if address == 0xff53 {
            post == (Hdma {
                destination: (0x8000 + (v % 32) * 256 + pre.destination % 256) as u16,
                ..pre
            })
        } else if address == 0xff54 {
            post == (Hdma {
                destination: (pre.destination / 256 * 256 + (v / 16 * 16)) as u16,
                ..pre
            })
        } else if address == 0xff55 {
            if pre.active && pre.mode == HdmaMode::Hdma {
                if v < 128 {
                    post == (Hdma { active: false, ..pre })
                } else {
                    post == pre
                }
            } else {
                post == (Hdma {
                    active: true,
                    remain: (v % 128) as u8,
                    mode: if v >= 128 {
                        HdmaMode::Hdma
                    } else {
                        HdmaMode::Gdma
                    },
                    ..pre
                })
            }
        } else {
            post == pre
        }
    }

    pub fn write8(&mut self, address: u16, v: u8)
        ensures
            Self::set8_rel(*old(self), *final(self), address, v),
            old(self).wf() ==> final(self).wf(),
    {
        match address {
            0xff51 => {
                self.source = (v as u16) * 256 + self.source % 256;
            },
            0xff52 => {
                self.source = self.source / 256 * 256 + ((v / 16 * 16) as u16);
            },
            0xff53 => {
                self.destination = 0x8000 + ((v % 32) as u16) * 256 + self.destination % 256;
            },
            0xff54 => {
                self.destination = self.destination / 256 * 256 + ((v / 16 * 16) as u16);
            },
            0xff55 => {
                if self.active && self.mode == HdmaMode::Hdma {
                    if v < 128 {
                        self.active = false;
                    }
                } else {
                    self.active = true;
                    self.remain = v % 128;
                    self.mode = if v >= 128 {
                        HdmaMode::Hdma
                    } else {
                        HdmaMode::Gdma
                    };
                }
            },
            _ => (),
        }
    }
}

impl MemoryIO for Hdma {
    fn get8(&self, address: u16) -> u8 {
        match address {
            0xff51 => (self.source / 256) as u8,
            0xff52 => (self.source % 256) as u8,
            0xff53 => (self.destination / 256) as u8,
            0xff54 => (self.destination % 256) as u8,
            0xff55 => (self.remain as u16 + if self.active {
                0
            } else {
                128
            }) as u8,
            _ => 0,
        }
    }

    fn set8(&mut self, address: u16, n: u8) {
        self.write8(address, n);
    }

    fn get16(&self, address: u16) -> u16 {
        let lo = self.get8(address);
        let hi = self.get8(crate::num::wrapping_add16(address, 1));
        crate::num::to_u16(hi, lo)
    }

    fn set16(&mut self, address: u16, n: u16) {
        self.set8(address, crate::num::low_byte(n));
        self.set8(crate::num::wrapping_add16(address, 1), crate::num::high_byte(n));
    }
}

/// The LCD control register (0xff40), held as its decoded sub-fields. The
/// tile-base fields keep the address the selected bit stands for.
pub struct LcdControl {
    pub lcd_and_ppu_enable: bool,
    pub window_tile_base: u16,
    pub window_enable: bool,
    pub bg_and_window_tile_base: u16,
    pub bg_tile_base: u16,
    pub obj_size: bool,
    pub obj_enable: bool,
    pub bg_and_window_enable: bool,
}

impl LcdControl {
    pub open spec fn wf(self) -> bool {
        &&& (self.window_tile_base == 0x9800 || self.window_tile_base == 0x9c00)
        &&& (self.bg_and_window_tile_base == 0x8000 || self.bg_and_window_tile_base == 0x8800)
        &&& (self.bg_tile_base == 0x9800 || self.bg_tile_base == 0x9c00)
    }

    /// Power-on value: display enabled, both maps at their low bases.
    pub open spec fn new_spec() -> LcdControl {
        LcdControl {
            lcd_and_ppu_enable: true,
            window_tile_base: 0x9800,
            window_enable: true,
            bg_and_window_tile_base: 0x8000,
            bg_tile_base: 0x9800,
            obj_size: true,
            obj_enable: true,
            bg_and_window_enable: true,
        }
    }

    pub fn new() -> (r: Self)
        ensures
            r == Self::new_spec(),
            r.wf(),
    {
        Self {
            lcd_and_ppu_enable: true,
            window_tile_base: 0x9800,
            window_enable: true,
            bg_and_window_tile_base: 0x8000,
            bg_tile_base: 0x9800,
            obj_size: true,
            obj_enable: true,
            bg_and_window_enable: true,
        }
    }

    /// The register byte encoding the eight sub-fields.
    pub open spec fn spec_get8(self) -> u8 {
        ((if self.lcd_and_ppu_enable {
            128int
        } else {
            0int
        }) + (if self.window_tile_base == 0x9c00 {
            64int
        } else {
            0int
        }) + (if self.window_enable {
            32int
        } else {
            0int
        }) + (if self.bg_and_window_tile_base == 0x8000 {
            16int
        } else {
            0int
        }) + (if self.bg_tile_base == 0x9c00 {
            8int
        } else {
            0int
        }) + (if self.obj_size {
            4int
        } else {
            0int
        }) + (if self.obj_enable {
            2int
        } else {
            0int
        }) + (if self.bg_and_window_enable {
            1int
        } else {
            0int
        })) as u8
    }

    pub fn read8(&self) -> (r: u8)
        ensures
            r == self.spec_get8(),
    {
        (if self.lcd_and_ppu_enable {
            128
        } else {
            0
        }) + (if self.window_tile_base == 0x9c00 {
            64
        } else {
            0
        }) + (if self.window_enable {
            32
        } else {
            0
        }) + (if self.bg_and_window_tile_base == 0x8000 {
            16
        } else {
            0
        }) + (if self.bg_tile_base == 0x9c00 {
            8
        } else {
            0
        }) + (if self.obj_size {
            4
        } else {
            0
        }) + (if self.obj_enable {
            2
        } else {
            0
        }) + (if self.bg_and_window_enable {
            1
        } else {
            0
        })
    }

    /// The decoded fields a register write stores.
    pub open spec fn decode(n: u8) -> LcdControl {
        LcdControl {
            lcd_and_ppu_enable: n / 128 % 2 == 1,
            window_tile_base: if n / 64 % 2 == 1 {
                0x9c00
            } else {
                0x9800
            },
            window_enable: n / 32 % 2 == 1,
            bg_and_window_tile_base: if n / 16 % 2 == 1 {
                0x8000
            } else {
                0x8800
            },
            bg_tile_base: if n / 8 % 2 == 1 {
                0x9c00
            } else {
                0x9800
            },
            obj_size: n / 4 % 2 == 1,
            obj_enable: n / 2 % 2 == 1,
            bg_and_window_enable: n % 2 == 1,
        }
    }

    pub fn write8(&mut self, n: u8)
        ensures
            *final(self) == Self::decode(n),
            final(self).wf(),
    {
        self.lcd_and_ppu_enable = n / 128 % 2 == 1;
        self.window_tile_base = if n / 64 % 2 == 1 {
            0x9c00
        } else {
            0x9800
        };
        self.window_enable = n / 32 % 2 == 1;
        self.bg_and_window_tile_base = if n / 16 % 2 == 1 {
            0x8000
        } else {
            0x8800
        };
        self.bg_tile_base = if n / 8 % 2 == 1 {
            0x9c00
        } else {
            0x9800
        };
        self.obj_size = n / 4 % 2 == 1;
        self.obj_enable = n / 2 % 2 == 1;
        self.bg_and_window_enable = n % 2 == 1;
    }
}

/// The LCD status register (0xff41): the current mode in the low two bits,
/// the coincidence flag, and the three mode interrupt enables plus the
/// coincidence interrupt enable.
pub struct LcdStatus {
    pub current_line_interrupt: bool,
    pub is_mode2_interrupt_enabled: bool,
    pub is_mode1_interrupt_enabled: bool,
    pub is_mode0_interrupt_enabled: bool,
    pub current_line_flag: bool,
    pub mode: u8,
}

impl LcdStatus {
    pub open spec fn wf(self) -> bool {
        self.mode < 4
    }

    /// Power-on value: every status interrupt enabled, mode 0.
    pub open spec fn new_spec() -> LcdStatus {
        LcdStatus {
            current_line_interrupt: true,
            is_mode2_interrupt_enabled: true,
            is_mode1_interrupt_enabled: true,
            is_mode0_interrupt_enabled: true,
            current_line_flag: true,
            mode: 0,
        }
    }

    pub fn new() -> (r: Self)
        ensures
            r == Self::new_spec(),
            r.wf(),
    {
        Self {
            current_line_interrupt: true,
            is_mode2_interrupt_enabled: true,
            is_mode1_interrupt_enabled: true,
            is_mode0_interrupt_enabled: true,
            current_line_flag: true,
            mode: 0,
        }
    }

    pub open spec fn spec_get8(self) -> u8 {
        ((if self.current_line_interrupt {
            128int
        } else {
            0int
        }) + (if self.is_mode2_interrupt_enabled {
            64int
        } else {
            0int
        }) + (if self.is_mode1_interrupt_enabled {
            32int
        } else {
            0int
        }) + (if self.is_mode0_interrupt_enabled {
            16int
        } else {
            0int
        }) + (if self.current_line_flag {
            8int
        } else {
            0int
        }) + self.mode) as u8
    }

    pub fn read8(&self) -> (r: u8)
        requires
            self.wf(),
        ensures
            r == self.spec_get8(),
    {
        (if self.current_line_interrupt {
            128
        } else {
            0
        }) + (if self.is_mode2_interrupt_enabled {
            64
        } else {
            0
        }) + (if self.is_mode1_interrupt_enabled {
            32
        } else {
            0
        }) + (if self.is_mode0_interrupt_enabled {
            16
        } else {
            0
        }) + (if self.current_line_flag {
            8
        } else {
            0
        }) + self.mode
    }

    /// A register write stores the interrupt enables and the coincidence
    /// flag; the mode bits are owned by the timing machine and stay as they
    /// are.
    pub open spec fn decode(pre: LcdStatus, n: u8) -> LcdStatus {
        LcdStatus {
            current_line_interrupt: n / 128 % 2 == 1,
            is_mode2_interrupt_enabled: n / 64 % 2 == 1,
            is_mode1_interrupt_enabled: n / 32 % 2 == 1,
            is_mode0_interrupt_enabled: n / 16 % 2 == 1,
            current_line_flag: n / 8 % 2 == 1,
            mode: pre.mode,
        }
    }

    pub fn write8(&mut self, n: u8)
        ensures
            *final(self) == Self::decode(*old(self), n),
    {
        self.current_line_interrupt = n / 128 % 2 == 1;
        self.is_mode2_interrupt_enabled = n / 64 % 2 == 1;
        self.is_mode1_interrupt_enabled = n / 32 % 2 == 1;
        self.is_mode0_interrupt_enabled = n / 16 % 2 == 1;
        self.current_line_flag = n / 8 % 2 == 1;
    }
}

/// A sprite or background-tile attribute byte, decoded: priority over the
/// pixel behind it, the two flips, the monochrome palette selector, the tile
/// VRAM bank and the color-unit palette selector.
#[derive(Clone, Copy, PartialEq, Eq, Structural, Debug)]
pub struct Attributes {
    pub priority: bool,
    pub is_y_flipped: bool,
    pub is_x_flipped: bool,
    pub palette_number: u8,
    pub tile_bank: u8,
    pub palette_number_cgb: u8,
}

impl Attributes {
    pub open spec fn wf(self) -> bool {
        &&& self.palette_number < 2
        &&& self.tile_bank < 2
        &&& self.palette_number_cgb < 8
    }

    pub open spec fn default_spec() -> Attributes {
        Attributes {
            priority: false,
            is_y_flipped: false,
            is_x_flipped: false,
            palette_number: 0,
            tile_bank: 0,
            palette_number_cgb: 0,
        }
    }

    pub fn new() -> (r: Self)
        ensures
            r == Self::default_spec(),
            r.wf(),
    {
        Attributes {
            priority: false,
            is_y_flipped: false,
            is_x_flipped: false,
            palette_number: 0,
            tile_bank: 0,
            palette_number_cgb: 0,
        }
    }

    pub open spec fn spec_get8(self) -> u8 {
        ((if self.priority {
            128int
        } else {
            0int
        }) + (if self.is_y_flipped {
            64int
        } else {
            0int
        }) + (if self.is_x_flipped {
            32int
        } else {
            0int
        }) + self.palette_number * 16 + self.tile_bank * 8 + self.palette_number_cgb % 8) as u8
    }

    pub fn read8(&self) -> (r: u8)
        requires
            self.wf(),
        ensures
            r == self.spec_get8(),
    {
        (if self.priority {
            128
        } else {
            0
        }) + (if self.is_y_flipped {
            64
        } else {
            0
        }) + (if self.is_x_flipped {
            32
        } else {
            0
        }) + self.palette_number * 16 + self.tile_bank * 8 + self.palette_number_cgb % 8
    }

    pub open spec fn decode(n: u8) -> Attributes {
        Attributes {
            priority: n / 128 % 2 == 1,
            is_y_flipped: n / 64 % 2 == 1,
            is_x_flipped: n / 32 % 2 == 1,
            palette_number: (n / 16 % 2) as u8,
            tile_bank: (n / 8 % 2) as u8,
            palette_number_cgb: (n % 8) as u8,
        }
    }

    pub fn write8(&mut self, n: u8)
        ensures
            *final(self) == Self::decode(n),
            final(self).wf(),
    {
        self.priority = n / 128 % 2 == 1;
        self.is_y_flipped = n / 64 % 2 == 1;
        self.is_x_flipped = n / 32 % 2 == 1;
        self.palette_number = n / 16 % 2;
        self.tile_bank = n / 8 % 2;
        self.palette_number_cgb = n % 8;
    }
}

/// One of the 40 object-attribute entries: sprite position, tile index and
/// attribute byte, addressed through four consecutive bytes.
#[derive(Clone, Copy, PartialEq, Eq, Structural, Debug)]
pub struct OamEntry {
    pub y_position: u8,
    pub x_position: u8,
    pub tile_index: u8,
    pub flags: Attributes,
}

impl OamEntry {
    pub open spec fn wf(self) -> bool {
        self.flags.wf()
    }

    pub fn new() -> (r: Self)
        ensures
            r == (OamEntry {
                y_position: 0,
                x_position: 0,
                tile_index: 0,
                flags: Attributes::default_spec(),
            }),
            r.wf(),
    {
        OamEntry { y_position: 0, x_position: 0, tile_index: 0, flags: Attributes::new() }
    }

    /// A byte read selects the field by the low two address bits.
    pub open spec fn spec_get8(self, address: u16) -> u8 {
        if address % 4 == 0 {
            self.y_position
        } else if address % 4 == 1 {
            self.x_position
        } else if address % 4 == 2 {
            self.tile_index
        } else {
            self.flags.spec_get8()
        }
    }

    pub fn read8(&self, address: u16) -> (r: u8)
        requires
            self.wf(),
        ensures
            r == self.spec_get8(address),
    {
        if address % 4 == 0 {
            self.y_position
        } else if address % 4 == 1 {
            self.x_position
        } else if address % 4 == 2 {
            self.tile_index
        } else {
            self.flags.read8()
        }
    }

    pub open spec fn set8_rel(pre: Self, post: Self, address: u16, n: u8) -> bool {
        if address % 4 == 0 {
            post == (OamEntry { y_position: n, ..pre })
        } else if address % 4 == 1 {
            post == (OamEntry { x_position: n, ..pre })
        } else if address % 4 == 2 {
            post == (OamEntry { tile_index: n, ..pre })
        } else {
            post == (OamEntry { flags: Attributes::decode(n), ..pre })
        }
    }

    pub fn write8(&mut self, address: u16, n: u8)
        ensures
            Self::set8_rel(*old(self), *final(self), address, n),
            old(self).wf() ==> final(self).wf(),
    {
        if address % 4 == 0 {
            self.y_position = n;
        } else if address % 4 == 1 {
            self.x_position = n;
        } else if address % 4 == 2 {
            self.tile_index = n;
        } else {
            self.flags.write8(n);
        }
    }
}

/// Color palette RAM of the color unit: 32 entries of 15-bit color behind an
/// index register with an auto-increment bit.
pub struct ColorPalette {
    pub index: u8,
    pub auto_increment: bool,
    pub data: Vec<u16>,
}

impl ColorPalette {
    pub open spec fn wf(self) -> bool {
        &&& self.index < 64
        &&& self.data@.len() == 32
    }

    pub fn new() -> (r: Self)
        ensures
            r.index == 0,
            r.auto_increment == false,
            r.data@.len() == 32,
            forall|i: int| 0 <= i < 32 ==> r.data@[i] == 0,
            r.wf(),
    {
        let mut data: Vec<u16> = Vec::new();
        let mut i: usize = 0;
        while i < 32
            invariant
                i <= 32,
                data@.len() == i,
                forall|j: int| 0 <= j < i ==> data@[j] == 0,
            decreases 32 - i,
        {
            data.push(0);
            i = i + 1;
        }
        ColorPalette { index: 0, auto_increment: false, data }
    }

    /// The three 5-bit channels of entry `index`, red in the low bits.
    pub fn get_color(&self, index: u8) -> (rgb: (u8, u8, u8))
        requires
            self.wf(),
            index < 32,
        ensures
            rgb.0 == self.data@[index as int] % 32,
            rgb.1 == self.data@[index as int] / 32 % 32,
            rgb.2 == self.data@[index as int] / 1024 % 32,
    {
        let e = self.data[index as usize];
        ((e % 32) as u8, (e / 32 % 32) as u8, (e / 1024 % 32) as u8)
    }

    /// Stores a color at the entry the index register points at; the index
    /// register counts entry pairs, so this is its upper five bits' entry.
    pub fn set_color(&mut self, color: (u8, u8, u8))
        requires
            old(self).wf(),
            old(self).index < 32,
        ensures
            final(self).data@ == (old(self).data@).update(
                old(self).index as int,
                ((color.0 % 32) + (color.1 % 32) * 32 + (color.2 % 32) * 1024) as u16,
            ),
            *final(self) == (ColorPalette { data: final(self).data, ..*old(self) }),
            final(self).wf(),
    {
        let new: u16 = ((color.0 % 32) as u16) + ((color.1 % 32) as u16) * 32 + ((color.2
            % 32) as u16) * 1024;
        self.data.set(self.index as usize, new);
    }

    /// What a byte read returns: even addresses read the index register with
    /// the auto-increment bit, odd addresses read the addressed byte of
    /// palette RAM.
    pub open spec fn spec_get8(self, address: u16) -> u8 {
        if address % 2 == 0 {
            ((self.index % 64) + if self.auto_increment {
                128int
            } else {
                0int
            }) as u8
        } else {
            if self.index % 2 == 0 {
                (self.data@[self.index as int / 2] % 256) as u8
            } else {
                (self.data@[self.index as int / 2] / 256) as u8
            }
        }
    }

    pub fn read8(&self, address: u16) -> (r: u8)
        requires
            self.wf(),
        ensures
            r == self.spec_get8(address),
    {
        if address % 2 == 0 {
            (self.index % 64) + if self.auto_increment {
                128
            } else {
                0
            }
        } else {
            let e = self.data[(self.index / 2) as usize];
            if self.index % 2 == 0 {
                (e % 256) as u8
            } else {
                (e / 256) as u8
            }
        }
    }

    /// Effect of a byte write: even addresses load the index register and
    /// the auto-increment bit, odd addresses store one byte of the addressed
    /// entry; with auto-increment armed the index then advances modulo 64.
    pub open spec fn set8_rel(pre: Self, post: Self, address: u16, n: u8) -> bool {
        if address % 2 == 0 {
            post == (ColorPalette {
                index: if n / 128 % 2 == 1 {
                    ((n % 64 + 1) % 64) as u8
                } else {
                    (n % 64) as u8
                },
                auto_increment: n / 128 % 2 == 1,
                ..pre
            })
        } else {
            {
                let entry = pre.index as int / 2;
                let stored = if pre.index % 2 == 0 {
                    (pre.data@[entry] / 256 * 256 + n) as u16
                } else {
                    (pre.data@[entry] % 256 + (n as int) * 256) as u16
                };
                &&& post.data@ == (pre.data@).update(entry, stored)
                &&& post == (ColorPalette {
                    data: post.data,
                    index: if pre.auto_increment {
                        ((pre.index + 1) % 64) as u8
                    } else {
                        pre.index
                    },
                    ..pre
                })
            }
        }
    }

    pub fn write8(&mut self, address: u16, n: u8)
        requires
            old(self).wf(),
        ensures
            Self::set8_rel(*old(self), *final(self), address, n),
            final(self).wf(),
    {
        if address % 2 == 0 {
            self.index = n % 64;
            self.auto_increment = n / 128 % 2 == 1;
        } else {
            let entry = (self.index / 2) as usize;
            let e = self.data[entry];
            let stored: u16 = if self.index % 2 == 0 {
                e / 256 * 256 + (n as u16)
            } else {
                e % 256 + (n as u16) * 256
            };
            self.data.set(entry, stored);
        }
        if self.auto_increment {
            self.index = (self.index + 1) % 64;
        }
    }
}

impl MemoryIO for ColorPalette {
    fn get8(&self, address: u16) -> u8 {
        if self.index < 64 && self.data.len() == 32 {
            self.read8(address)
        } else {
            0
        }
    }

    fn set8(&mut self, address: u16, n: u8) {
        if self.index < 64 && self.data.len() == 32 {
            self.write8(address, n);
        }
    }

    fn get16(&self, address: u16) -> u16 {
        let lo = self.get8(address);
        let hi = self.get8(crate::num::wrapping_add16(address, 1));
        crate::num::to_u16(hi, lo)
    }

    fn set16(&mut self, address: u16, n: u16) {
        self.set8(address, crate::num::low_byte(n));
        self.set8(crate::num::wrapping_add16(address, 1), crate::num::high_byte(n));
    }
}

} // verus!
