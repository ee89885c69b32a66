//! The pixel-processing unit: video RAM, the object-attribute table, the
//! LCD registers, the dot-based timing state machine and the background and
//! sprite compositor that fills the frame buffer one scanline at a time.
//!
//! Each scanline is 456 dots: mode 2 (OAM scan) for the first 80, mode 3
//! (pixel transfer) for the next 172, mode 0 (H-blank) for the rest. Lines
//! 0-143 are visible; lines 144-153 are mode 1 (V-blank), after which the
//! line counter wraps to 0.

use vstd::prelude::*;

use crate::gpu_regs::{Attributes, ColorPalette, LcdControl, LcdStatus, OamEntry};
use crate::interrupt::{IntFlag, Interrupt};
use crate::memory::zeroed;
use crate::num::pow2_u8;
use crate::Term;

verus! {

pub const SCREEN_W: usize = 160;

pub const SCREEN_H: usize = 144;

/// The frame buffer showing nothing: every channel of every pixel at the
/// blank/white level.
pub open spec fn blank_screen() -> Seq<u8> {
    Seq::new(144 * 160 * 3, |i: int| 0xffu8)
}

/// Flat frame-buffer position of channel `k` of pixel `x` on line `y`.
pub open spec fn pix(y: int, x: int, k: int) -> int {
    (y * 160 + x) * 3 + k
}

/// A fresh all-blank frame buffer.
fn white_screen() -> (r: Vec<u8>)
    ensures
        r@ == blank_screen(),
{
    let mut v: Vec<u8> = Vec::new();
    let mut i: usize = 0;
    while i < 144 * 160 * 3
        invariant
            i <= 144 * 160 * 3,
            v@.len() == i,
            forall|j: int| 0 <= j < i ==> v@[j] == 0xff,
        decreases 144 * 160 * 3 - i,
    {
        v.push(0xff);
        i = i + 1;
    }
    proof {
        assert(v@ =~= blank_screen());
    }
    v
}

/// The grayscale level a 2-bit color index maps to through a monochrome
/// palette register: 0 is white (0xff) down to 3 as black.
pub open spec fn shade(palette: u8, color: u8) -> u8 {
    let sel = palette / pow2_u8((2 * (color % 4)) as u8) % 4;
    if sel == 0 {
        0xff
    } else if sel == 1 {
        0xc0
    } else if sel == 2 {
        0x60
    } else {
        0x00
    }
}

/// The three output channels of a 15-bit color through the color display's
/// documented channel-mixing formula, which deliberately bleeds each source
/// channel into the others instead of bit-replicating.
pub open spec fn mix_red(r: u8, g: u8, b: u8) -> u8 {
    ((r * 13 + g * 2 + b) / 2) as u8
}

pub open spec fn mix_green(r: u8, g: u8, b: u8) -> u8 {
    ((g * 3 + b) * 2) as u8
}

pub open spec fn mix_blue(r: u8, g: u8, b: u8) -> u8 {
    ((r * 3 + g * 2 + b * 11) / 2) as u8
}

pub struct Gpu {
    pub term: Term,
    /// Two 8 KiB banks of video RAM, the second used by the color unit.
    pub vram: Vec<u8>,
    /// The 40 object-attribute entries.
    pub oam: Vec<OamEntry>,
    pub scrollx: u8,
    pub scrolly: u8,
    pub wndposx: u8,
    pub wndposy: u8,
    pub lcd_control: LcdControl,
    pub lcd_status: LcdStatus,
    /// LY, the current scanline; always below 154.
    pub lcd_y_coordinate: u8,
    /// LYC, the scanline compare target.
    pub ly_compare: u8,
    pub bg_palette_data: u8,
    pub obj_palette_0: u8,
    pub obj_palette_1: u8,
    pub background_palette: ColorPalette,
    pub object_palette: ColorPalette,
    /// Selected video RAM bank (VBK), 0 or 1.
    pub ram_bank: u8,
    /// Per-pixel background record of the current scanline: the tile's
    /// priority flag and its 2-bit color index, consulted by the sprite pass.
    pub prio: Vec<(bool, u8)>,
    /// Dot position within the current scanline; always below 456.
    pub dots: u32,
    /// The output frame buffer: 144 lines of 160 pixels of 3 channels.
    pub data: Vec<u8>,
}

/// The PPU mode that the dot position and scanline determine: V-blank on the
/// blanking lines, otherwise OAM scan, pixel transfer and H-blank splitting
/// the line at dots 80 and 252.
pub open spec fn mode_for(dots: u32, ly: u8) -> u8 {
    if ly >= 144 {
        1
    } else if dots < 80 {
        2
    } else if dots < 252 {
        3
    } else {
        0
    }
}

impl Gpu {
    /// Structural well-formedness: region and table sizes, register
    /// sub-invariants, and the counter ranges.
    pub open spec fn wf_base(self) -> bool {
        &&& self.vram@.len() == 0x4000
        &&& self.oam@.len() == 40
        &&& (forall|i: int| 0 <= i < 40 ==> self.oam@[i].wf())
        &&& self.lcd_control.wf()
        &&& self.lcd_status.wf()
        &&& self.background_palette.wf()
        &&& self.object_palette.wf()
        &&& self.ram_bank < 2
        &&& self.prio@.len() == 160
        &&& self.dots < 456
        &&& self.lcd_y_coordinate < 154
        &&& self.data@.len() == 144 * 160 * 3
    }

    /// Full well-formedness: additionally, the mode is V-blank exactly on
    /// the blanking scanlines.
    pub open spec fn wf(self) -> bool {
        &&& self.wf_base()
        &&& (self.lcd_status.mode == 1 <==> self.lcd_y_coordinate >= 144)
    }

    pub fn new() -> (r: Self)
        ensures
            r.wf(),
            r.term == Term::GB,
            forall|i: int| 0 <= i < 0x4000 ==> r.vram@[i] == 0,
            forall|i: int|
                0 <= i < 40 ==> r.oam@[i] == (OamEntry {
                    y_position: 0,
                    x_position: 0,
                    tile_index: 0,
                    flags: Attributes::default_spec(),
                }),
            r.scrollx == 0,
            r.scrolly == 0,
            r.wndposx == 0,
            r.wndposy == 0,
            r.lcd_control == LcdControl::new_spec(),
            r.lcd_status == LcdStatus::new_spec(),
            r.lcd_y_coordinate == 0,
            r.ly_compare == 0,
            r.bg_palette_data == 0,
            r.obj_palette_0 == 0,
            r.obj_palette_1 == 0,
            r.ram_bank == 0,
            r.dots == 0,
            r.data@ == blank_screen(),
            forall|i: int| 0 <= i < 160 ==> r.prio@[i] == (true, 0u8),
    {
        let mut oam: Vec<OamEntry> = Vec::new();
        let mut i: usize = 0;
        while i < 40
            invariant
                i <= 40,
                oam@.len() == i,
                forall|j: int|
                    0 <= j < i ==> oam@[j] == (OamEntry {
                        y_position: 0,
                        x_position: 0,
                        tile_index: 0,
                        flags: Attributes::default_spec(),
                    }),
            decreases 40 - i,
        {
            oam.push(OamEntry::new());
            i = i + 1;
        }
        let mut prio: Vec<(bool, u8)> = Vec::new();
        let mut j: usize = 0;
        while j < 160
            invariant
                j <= 160,
                prio@.len() == j,
                forall|k: int| 0 <= k < j ==> prio@[k] == (true, 0u8),
            decreases 160 - j,
        {
            prio.push((true, 0));
            j = j + 1;
        }
        Gpu {
            term: Term::GB,
            vram: zeroed(0x4000),
            oam,
            scrollx: 0,
            scrolly: 0,
            wndposx: 0,
            wndposy: 0,
            lcd_control: LcdControl::new(),
            lcd_status: LcdStatus::new(),
            lcd_y_coordinate: 0,
            ly_compare: 0,
            bg_palette_data: 0,
            obj_palette_0: 0,
            obj_palette_1: 0,
            background_palette: ColorPalette::new(),
            object_palette: ColorPalette::new(),
            ram_bank: 0,
            prio,
            dots: 0,
            data: white_screen(),
        }
    }

    /// Writes one grayscale pixel of the current scanline: the 2-bit color
    /// index mapped through the given monochrome palette register into all
    /// three channels.
    pub fn set_gre(&mut self, x: usize, color: u8, palette_data: u8)
        requires
            old(self).data@.len() == 144 * 160 * 3,
            old(self).lcd_y_coordinate < 144,
            x < 160,
        ensures
            *final(self) == (Gpu { data: final(self).data, ..*old(self) }),
            final(self).data@ == (old(self).data@).update(
                pix(old(self).lcd_y_coordinate as int, x as int, 0),
                shade(palette_data, color),
            ).update(
                pix(old(self).lcd_y_coordinate as int, x as int, 1),
                shade(palette_data, color),
            ).update(
                pix(old(self).lcd_y_coordinate as int, x as int, 2),
                shade(palette_data, color),
            ),
    {
        let d = crate::num::bit_value(2 * (color % 4));
        let sel = palette_data / d % 4;
        let g: u8 = if sel == 0 {
            0xff
        } else if sel == 1 {
            0xc0
        } else if sel == 2 {
            0x60
        } else {
            0x00
        };
        let base: usize = ((self.lcd_y_coordinate as usize) * 160 + x) * 3;
        self.data.set(base, g);
        self.data.set(base + 1, g);
        self.data.set(base + 2, g);
    }

    /// Writes one color pixel of the current scanline from 5-bit channels
    /// through the display's channel-mixing formula.
    pub fn set_rgb(&mut self, x: usize, r: u8, g: u8, b: u8)
        requires
            old(self).data@.len() == 144 * 160 * 3,
            old(self).lcd_y_coordinate < 144,
            x < 160,
            r <= 0x1f,
            g <= 0x1f,
            b <= 0x1f,
        ensures
            *final(self) == (Gpu { data: final(self).data, ..*old(self) }),
            final(self).data@ == (old(self).data@).update(
                pix(old(self).lcd_y_coordinate as int, x as int, 0),
                mix_red(r, g, b),
            ).update(pix(old(self).lcd_y_coordinate as int, x as int, 1), mix_green(r, g, b)).update(
                pix(old(self).lcd_y_coordinate as int, x as int, 2),
                mix_blue(r, g, b),
            ),
    {
        let lr: u8 = ((r as u32 * 13 + g as u32 * 2 + b as u32) / 2) as u8;
        let lg: u8 = ((g as u32 * 3 + b as u32) * 2) as u8;
        let lb: u8 = ((r as u32 * 3 + g as u32 * 2 + b as u32 * 11) / 2) as u8;
        let base: usize = ((self.lcd_y_coordinate as usize) * 160 + x) * 3;
        self.data.set(base, lr);
        self.data.set(base + 1, lg);
        self.data.set(base + 2, lb);
    }
}

impl Gpu {
    /// What a byte read of the PPU returns: the LCD registers by address,
    /// video RAM through the selected bank, and the object-attribute table
    /// by entry. The OAM DMA trigger (0xff46) is a stub and reads as zero.
    pub open spec fn spec_get8(self, address: u16) -> u8 {
        if address == 0xff40 {
            self.lcd_control.spec_get8()
        } else if address == 0xff41 {
            self.lcd_status.spec_get8()
        } else if address == 0xff42 {
            self.scrolly
        } else if address == 0xff43 {
            self.scrollx
        } else if address == 0xff44 {
            self.lcd_y_coordinate
        } else if address == 0xff45 {
            self.ly_compare
        } else if address == 0xff47 {
            self.bg_palette_data
        } else if address == 0xff48 {
            self.obj_palette_0
        } else if address == 0xff49 {
            self.obj_palette_1
        } else if address == 0xff4a {
            self.wndposy
        } else if address == 0xff4b {
            self.wndposx
        } else if address == 0xff4f {
            (0xfe + self.ram_bank % 2) as u8
        } else if address == 0xff68 || address == 0xff69 {
            self.background_palette.spec_get8(address)
        } else if address == 0xff6a || address == 0xff6b {
            self.object_palette.spec_get8(address)
        } else if 0x8000 <= address < 0xa000 {
            self.vram@[self.ram_bank % 2 * 0x2000 + address - 0x8000]
        } else if 0xfe00 <= address < 0xfea0 {
            self.oam@[(address - 0xfe00) / 4].spec_get8(address)
        } else {
            0
        }
    }

    pub fn read8(&self, address: u16) -> (r: u8)
        requires
            self.wf(),
        ensures
            r == self.spec_get8(address),
    {
        if address == 0xff40 {
            self.lcd_control.read8()
        } else if address == 0xff41 {
            self.lcd_status.read8()
        } else if address == 0xff42 {
            self.scrolly
        } else if address == 0xff43 {
            self.scrollx
        } else if address == 0xff44 {
            self.lcd_y_coordinate
        } else if address == 0xff45 {
            self.ly_compare
        } else if address == 0xff47 {
            self.bg_palette_data
        } else if address == 0xff48 {
            self.obj_palette_0
        } else if address == 0xff49 {
            self.obj_palette_1
        } else if address == 0xff4a {
            self.wndposy
        } else if address == 0xff4b {
            self.wndposx
        } else if address == 0xff4f {
            0xfe + self.ram_bank % 2
        } else if address == 0xff68 || address == 0xff69 {
            self.background_palette.read8(address)
        } else if address == 0xff6a || address == 0xff6b {
            self.object_palette.read8(address)
        } else if 0x8000 <= address && address < 0xa000 {
            self.vram[(self.ram_bank as usize % 2) * 0x2000 + address as usize - 0x8000]
        } else if 0xfe00 <= address && address < 0xfea0 {
            let entry = &self.oam[((address - 0xfe00) / 4) as usize];
            entry.read8(address)
        } else {
            0
        }
    }

    /// Effect of a byte write on the PPU. Writing LCDC with the display bit
    /// clear resets the dot accumulator, the scanline counter and the mode
    /// and blanks the frame buffer. The scanline counter itself (0xff44) is
    /// owned by the timing machine and writes to it are ignored, which also
    /// keeps it below 154. The OAM DMA trigger (0xff46) is a stub.
    pub open spec fn set8_rel(pre: Self, post: Self, address: u16, n: u8) -> bool {
        if address == 0xff40 {
            if n < 0x80 {
                &&& post.data@ == blank_screen()
                &&& post == (Gpu {
                    lcd_control: LcdControl::decode(n),
                    dots: 0,
                    lcd_y_coordinate: 0,
                    lcd_status: LcdStatus { mode: 0, ..pre.lcd_status },
                    data: post.data,
                    ..pre
                })
            } else {
                post == (Gpu { lcd_control: LcdControl::decode(n), ..pre })
            }
        } else if address == 0xff41 {
            post == (Gpu { lcd_status: LcdStatus::decode(pre.lcd_status, n), ..pre })
        } else if address == 0xff42 {
            post == (Gpu { scrolly: n, ..pre })
        } else if address == 0xff43 {
            post == (Gpu { scrollx: n, ..pre })
        } else if address == 0xff45 {
            post == (Gpu { ly_compare: n, ..pre })
        } else if address == 0xff47 {
            post == (Gpu { bg_palette_data: n, ..pre })
        } else if address == 0xff48 {
            post == (Gpu { obj_palette_0: n, ..pre })
        } else if address == 0xff49 {
            post == (Gpu { obj_palette_1: n, ..pre })
        } else if address == 0xff4a {
            post == (Gpu { wndposy: n, ..pre })
        } else if address == 0xff4b {
            post == (Gpu { wndposx: n, ..pre })
        } else if address == 0xff4f {
            post == (Gpu { ram_bank: (n % 2) as u8, ..pre })
        } else if address == 0xff68 || address == 0xff69 {
            &&& ColorPalette::set8_rel(pre.background_palette, post.background_palette, address, n)
            &&& post == (Gpu { background_palette: post.background_palette, ..pre })
        } else if address == 0xff6a || address == 0xff6b {
            &&& ColorPalette::set8_rel(pre.object_palette, post.object_palette, address, n)
            &&& post == (Gpu { object_palette: post.object_palette, ..pre })
        } else if 0x8000 <= address < 0xa000 {
            &&& post.vram@ == (pre.vram@).update(pre.ram_bank % 2 * 0x2000 + address - 0x8000, n)
            &&& post == (Gpu { vram: post.vram, ..pre })
        } else if 0xfe00 <= address < 0xfea0 {
            &&& post.oam@ == (pre.oam@).update(
                (address - 0xfe00) / 4,
                post.oam@[(address - 0xfe00) / 4],
            )
            &&& OamEntry::set8_rel(
                pre.oam@[(address - 0xfe00) / 4],
                post.oam@[(address - 0xfe00) / 4],
                address,
                n,
            )
            &&& post == (Gpu { oam: post.oam, ..pre })
        } else {
            post == pre
        }
    }

    pub fn write8(&mut self, address: u16, n: u8)
        requires
            old(self).wf(),
        ensures
            Self::set8_rel(*old(self), *final(self), address, n),
            final(self).wf(),
    {
        if address == 0xff40 {
            self.lcd_control.write8(n);
            if !self.lcd_control.lcd_and_ppu_enable {
                self.dots = 0;
                self.lcd_y_coordinate = 0;
                self.lcd_status.mode = 0;
                self.data = white_screen();
            }
        } else if address == 0xff41 {
            self.lcd_status.write8(n);
        } else if address == 0xff42 {
            self.scrolly = n;
        } else if address == 0xff43 {
            self.scrollx = n;
        } else if address == 0xff45 {
            self.ly_compare = n;
        } else if address == 0xff47 {
            self.bg_palette_data = n;
        } else if address == 0xff48 {
            self.obj_palette_0 = n;
        } else if address == 0xff49 {
            self.obj_palette_1 = n;
        } else if address == 0xff4a {
            self.wndposy = n;
        } else if address == 0xff4b {
            self.wndposx = n;
        } else if address == 0xff4f {
            self.ram_bank = n % 2;
        } else if address == 0xff68 || address == 0xff69 {
            self.background_palette.write8(address, n);
        } else if address == 0xff6a || address == 0xff6b {
            self.object_palette.write8(address, n);
        } else if 0x8000 <= address && address < 0xa000 {
            let idx: usize = (self.ram_bank as usize % 2) * 0x2000 + address as usize - 0x8000;
            self.vram.set(idx, n);
        } else if 0xfe00 <= address && address < 0xfea0 {
            let entry: usize = ((address - 0xfe00) / 4) as usize;
            let mut e = self.oam[entry];
            e.write8(address, n);
            self.oam.set(entry, e);
        }
    }
}

impl Gpu {
    /// Whether the window overlays the background on the current scanline.
    pub open spec fn bg_show_window(self) -> bool {
        self.lcd_control.window_enable && self.wndposy <= self.lcd_y_coordinate
    }

    /// The window's left edge in screen coordinates: WX minus 7, wrapping.
    pub open spec fn bg_window_x(self) -> u8 {
        (((self.wndposx as int) + 256 - 7) % 256) as u8
    }

    /// Source row in map coordinates: the window-relative row when the
    /// window shows, the scrolled background row otherwise.
    pub open spec fn bg_pixel_y(self) -> u8 {
        if self.bg_show_window() {
            (self.lcd_y_coordinate - self.wndposy) as u8
        } else {
            (((self.scrolly as int) + self.lcd_y_coordinate) % 256) as u8
        }
    }

    /// Source column in map coordinates for screen column `x`.
    pub open spec fn bg_pixel_x(self, x: int) -> u8 {
        if self.bg_show_window() && x >= self.bg_window_x() {
            (x - self.bg_window_x()) as u8
        } else {
            (((self.scrollx as int) + x) % 256) as u8
        }
    }

    /// Which tile map the pixel comes from.
    pub open spec fn bg_map_base(self, x: int) -> u16 {
        if self.bg_show_window() && x > self.bg_window_x() {
            self.lcd_control.window_tile_base
        } else {
            self.lcd_control.bg_tile_base
        }
    }

    /// Bus address of the map cell naming the pixel's tile.
    pub open spec fn bg_tile_address(self, x: int) -> int {
        self.bg_map_base(x) + (self.bg_pixel_y() / 8) * 32 + (self.bg_pixel_x(x) / 8)
    }

    /// The tile number, read from the map through the selected VRAM bank.
    pub open spec fn bg_tile_number(self, x: int) -> u8 {
        self.vram@[self.ram_bank % 2 * 0x2000 + self.bg_tile_address(x) - 0x8000]
    }

    /// The tile's attribute byte, read from the attribute map that shares
    /// the map cell's offset in the second VRAM bank.
    pub open spec fn bg_attr(self, x: int) -> Attributes {
        Attributes::decode(self.vram@[self.bg_tile_address(x) - 0x6000])
    }

    /// Bus address of the tile's bitmap: tiles are 16 bytes, numbered
    /// unsigned from 0x8000 or signed (offset by 128) from 0x8800.
    pub open spec fn bg_tile_location(self, x: int) -> int {
        let base = self.lcd_control.bg_and_window_tile_base;
        let num = if base == 0x8000 {
            self.bg_tile_number(x) as int
        } else {
            ((self.bg_tile_number(x) as int) + 128) % 256
        };
        base + num * 16
    }

    /// VRAM index of the pixel row's low-plane byte, honoring the vertical
    /// flip and, on the color unit, the attribute's tile bank.
    pub open spec fn bg_line_index(self, x: int) -> int {
        let row = if self.bg_attr(x).is_y_flipped {
            7 - self.bg_pixel_y() % 8
        } else {
            (self.bg_pixel_y() % 8) as int
        };
        let bank = if self.term == Term::GBC {
            self.bg_attr(x).tile_bank as int
        } else {
            0int
        };
        bank * 0x2000 + self.bg_tile_location(x) + row * 2 - 0x8000
    }

    /// The pixel's 2-bit color index, honoring the horizontal flip.
    pub open spec fn bg_color(self, x: int) -> u8 {
        let lo = self.vram@[self.bg_line_index(x)];
        let hi = self.vram@[self.bg_line_index(x) + 1];
        let tx = if self.bg_attr(x).is_x_flipped {
            7 - self.bg_pixel_x(x) % 8
        } else {
            (self.bg_pixel_x(x) % 8) as int
        };
        (lo / pow2_u8((7 - tx) as u8) % 2 + hi / pow2_u8((7 - tx) as u8) % 2 * 2) as u8
    }

    /// Output channel `k` of background pixel `x`: a palette shade on the
    /// monochrome unit, the mixed palette color on the color unit.
    pub open spec fn bg_channel(self, x: int, k: int) -> u8 {
        if self.term == Term::GBC {
            let e = self.background_palette.data@[self.bg_attr(x).palette_number_cgb * 4
                + self.bg_color(x)];
            let r = (e % 32) as u8;
            let g = (e / 32 % 32) as u8;
            let b = (e / 1024 % 32) as u8;
            if k == 0 {
                mix_red(r, g, b)
            } else if k == 1 {
                mix_green(r, g, b)
            } else {
                mix_blue(r, g, b)
            }
        } else {
            shade(self.bg_palette_data, self.bg_color(x))
        }
    }

    /// Everything the background pass does, as a relation between the PPU
    /// before and after it: only the priority record and the frame buffer
    /// move; the record holds each pixel's tile priority and color index;
    /// the current scanline's channels are the background colors and every
    /// other pixel stays.
    pub open spec fn draw_background_rel(pre: Gpu, post: Gpu) -> bool {
        &&& post == (Gpu { prio: post.prio, data: post.data, ..pre })
        &&& post.prio@.len() == 160
        &&& (forall|x: int|
            0 <= x < 160 ==> post.prio@[x] == (pre.bg_attr(x).priority, pre.bg_color(x)))
        &&& post.data@.len() == 144 * 160 * 3
        &&& (forall|i: int|
            0 <= i < 144 * 160 * 3 && !((pre.lcd_y_coordinate as int) * 480 <= i < (
            pre.lcd_y_coordinate as int) * 480 + 480) ==> post.data@[i] == pre.data@[i])
        &&& (forall|x: int, k: int|
            0 <= x < 160 && 0 <= k < 3 ==> post.data@[pix(pre.lcd_y_coordinate as int, x, k)]
                == pre.bg_channel(x, k))
    }

    /// Renders the background and window layer of the current scanline into
    /// the frame buffer, recording each pixel's priority flag and color
    /// index for the sprite pass.
    #[verifier::rlimit(100)]
    pub fn draw_background(&mut self)
        requires
            old(self).wf_base(),
            old(self).lcd_y_coordinate < 144,
        ensures
            final(self).wf_base(),
            Self::draw_background_rel(*old(self), *final(self)),
    {
        let ly = self.lcd_y_coordinate;
        let show_window = self.lcd_control.window_enable && self.wndposy <= ly;
        let tile_base = self.lcd_control.bg_and_window_tile_base;
        let window_x: u8 = (((self.wndposx as u16) + 256 - 7) % 256) as u8;
        let pixel_y: u8 = if show_window {
            ly - self.wndposy
        } else {
            (((self.scrolly as u16) + (ly as u16)) % 256) as u8
        };
        let tile_y: u16 = (pixel_y / 8) as u16;
        let mut x: usize = 0;
        while x < 160
            invariant
                old(self).wf_base(),
                old(self).lcd_y_coordinate < 144,
                x <= 160,
                ly == old(self).lcd_y_coordinate,
                show_window == old(self).bg_show_window(),
                tile_base == old(self).lcd_control.bg_and_window_tile_base,
                window_x == old(self).bg_window_x(),
                pixel_y == old(self).bg_pixel_y(),
                tile_y == old(self).bg_pixel_y() / 8,
                self.wf_base(),
                *self == (Gpu { prio: self.prio, data: self.data, ..*old(self) }),
                self.prio@.len() == 160,
                forall|xx: int|
                    0 <= xx < x ==> self.prio@[xx] == (
                        old(self).bg_attr(xx).priority,
                        old(self).bg_color(xx),
                    ),
                forall|xx: int| x <= xx < 160 ==> self.prio@[xx] == old(self).prio@[xx],
                self.data@.len() == 144 * 160 * 3,
                forall|i: int|
                    0 <= i < 144 * 160 * 3 && !((ly as int) * 480 <= i < (ly as int) * 480 + 3 * x)
                        ==> self.data@[i] == old(self).data@[i],
                forall|xx: int, k: int|
                    0 <= xx < x && 0 <= k < 3 ==> self.data@[pix(ly as int, xx, k)] == old(
                        self,
                    ).bg_channel(xx, k),
            decreases 160 - x,
        {
            let pixel_x: u8 = if show_window && (x as u8) >= window_x {
                (x as u8) - window_x
            } else {
                (((self.scrollx as u16) + (x as u16)) % 256) as u8
            };
            let tile_x: u16 = (pixel_x / 8) as u16;
            let background_base: u16 = if show_window && (x as u8) > window_x {
                self.lcd_control.window_tile_base
            } else {
                self.lcd_control.bg_tile_base
            };
            let tile_address: u16 = background_base + tile_y * 32 + tile_x;
            let tile_number: u8 = self.vram[(self.ram_bank as usize % 2) * 0x2000
                + tile_address as usize - 0x8000];
            let tile_offset: u16 = if tile_base == 0x8000 {
                (tile_number as u16) * 16
            } else {
                ((((tile_number as u16) + 128) % 256)) * 16
            };
            let tile_location: u16 = tile_base + tile_offset;
            let attr = {
                let mut a = Attributes::new();
                a.write8(self.vram[tile_address as usize - 0x6000]);
                a
            };
            let eff_tile_y: u8 = if attr.is_y_flipped {
                7 - pixel_y % 8
            } else {
                pixel_y % 8
            };
            let bank: usize = if self.term == Term::GBC {
                attr.tile_bank as usize
            } else {
                0
            };
            let line_index: usize = bank * 0x2000 + tile_location as usize + (eff_tile_y as usize)
                * 2 - 0x8000;
            let lo = self.vram[line_index];
            let hi = self.vram[line_index + 1];
            let eff_tile_x: u8 = if attr.is_x_flipped {
                7 - pixel_x % 8
            } else {
                pixel_x % 8
            };
            let p = crate::num::bit_value(7 - eff_tile_x);
            let color: u8 = lo / p % 2 + hi / p % 2 * 2;
            proof {
                assert(pixel_x == old(self).bg_pixel_x(x as int));
                assert(tile_address == old(self).bg_tile_address(x as int));
                assert(tile_number == old(self).bg_tile_number(x as int));
                assert(attr == old(self).bg_attr(x as int));
                assert(tile_location == old(self).bg_tile_location(x as int));
                assert(line_index == old(self).bg_line_index(x as int));
                assert(color == old(self).bg_color(x as int));
            }
            self.prio.set(x, (attr.priority, color));
            if self.term == Term::GBC {
                let rgb = self.background_palette.get_color(attr.palette_number_cgb * 4 + color);
                self.set_rgb(x, rgb.0, rgb.1, rgb.2);
            } else {
                let palette = self.bg_palette_data;
                self.set_gre(x, color, palette);
            }
            x = x + 1;
        }
    }
}

impl Gpu {
    /// Sprite height in pixels, 8 or 16 by LCDC.
    pub open spec fn sprite_size(self) -> int {
        if self.lcd_control.obj_size {
            16
        } else {
            8
        }
    }

    /// The sprite's tile number; 16-pixel sprites use an even-aligned pair.
    pub open spec fn sprite_tile(self, i: int) -> u8 {
        if self.lcd_control.obj_size {
            (self.oam@[i].tile_index / 2 * 2) as u8
        } else {
            self.oam@[i].tile_index
        }
    }

    /// Whether sprite `i` intersects the current scanline, with its vertical
    /// extent wrapping at 256.
    pub open spec fn sprite_on_line(self, i: int) -> bool {
        let y = self.oam@[i].y_position as int;
        let size = self.sprite_size();
        let ly = self.lcd_y_coordinate as int;
        if y + size <= 256 {
            y <= ly <= y + size - 1
        } else {
            ly <= y + size - 257
        }
    }

    /// The sprite row the scanline falls on, after the vertical flip.
    pub open spec fn sprite_row(self, i: int) -> int {
        let ty = ((self.lcd_y_coordinate - self.oam@[i].y_position) % 256 + 256) % 256;
        if self.oam@[i].flags.is_y_flipped {
            self.sprite_size() - 1 - ty
        } else {
            ty
        }
    }

    /// VRAM index of the sprite row's low-plane byte; sprite tiles always
    /// live at 0x8000, in the attribute's bank on the color unit.
    pub open spec fn sprite_line_index(self, i: int) -> int {
        let bank = if self.term == Term::GBC {
            self.oam@[i].flags.tile_bank as int
        } else {
            0int
        };
        bank * 0x2000 + self.sprite_tile(i) * 16 + self.sprite_row(i) * 2
    }

    /// The 2-bit color index sprite `i` shows at screen column `sx`.
    pub open spec fn sprite_color(self, i: int, sx: int) -> u8 {
        let x = sx - self.oam@[i].x_position;
        let tx = if self.oam@[i].flags.is_x_flipped {
            7 - x
        } else {
            x
        };
        let lo = self.vram@[self.sprite_line_index(i)];
        let hi = self.vram@[self.sprite_line_index(i) + 1];
        (lo / pow2_u8((7 - tx) as u8) % 2 + hi / pow2_u8((7 - tx) as u8) % 2 * 2) as u8
    }

    /// Whether sprite `i` puts a pixel on screen column `sx`: the column is
    /// inside its 8-pixel span and the screen, the pixel is not transparent
    /// (color 0), and the background does not win priority - it does when
    /// the background pixel is non-zero and either its tile or the sprite
    /// asks for background priority.
    pub open spec fn sprite_visible(self, i: int, sx: int) -> bool {
        &&& self.sprite_on_line(i)
        &&& self.oam@[i].x_position <= sx < self.oam@[i].x_position + 8
        &&& sx < 160
        &&& self.sprite_color(i, sx) != 0
        &&& !((self.prio@[sx].0 || self.oam@[i].flags.priority) && self.prio@[sx].1 != 0)
    }

    /// The last sprite among 0..n that draws on column `sx`, or -1: sprites
    /// are drawn in table order, so the highest index wins the pixel.
    pub open spec fn last_sprite(self, n: int, sx: int) -> int
        decreases n,
    {
        if n <= 0 {
            -1
        } else if self.sprite_visible(n - 1, sx) {
            n - 1
        } else {
            self.last_sprite(n - 1, sx)
        }
    }

    /// Output channel `k` of sprite `i` at column `sx`: a shade through the
    /// selected object palette register, or the mixed color-unit palette
    /// entry.
    pub open spec fn sprite_channel(self, i: int, sx: int, k: int) -> u8 {
        if self.term == Term::GBC {
            let e = self.object_palette.data@[self.oam@[i].flags.palette_number_cgb * 4
                + self.sprite_color(i, sx)];
            let r = (e % 32) as u8;
            let g = (e / 32 % 32) as u8;
            let b = (e / 1024 % 32) as u8;
            if k == 0 {
                mix_red(r, g, b)
            } else if k == 1 {
                mix_green(r, g, b)
            } else {
                mix_blue(r, g, b)
            }
        } else {
            shade(
                if self.oam@[i].flags.palette_number == 0 {
                    self.obj_palette_0
                } else {
                    self.obj_palette_1
                },
                self.sprite_color(i, sx),
            )
        }
    }

    /// Everything the sprite pass does, as a relation: only the frame
    /// buffer moves; on the current scanline each column shows the last
    /// visible sprite's color, or keeps its background pixel; every other
    /// pixel stays.
    pub open spec fn draw_sprites_rel(pre: Gpu, post: Gpu) -> bool {
        &&& post == (Gpu { data: post.data, ..pre })
        &&& post.data@.len() == 144 * 160 * 3
        &&& (forall|p: int|
            0 <= p < 144 * 160 * 3 && !((pre.lcd_y_coordinate as int) * 480 <= p < (
            pre.lcd_y_coordinate as int) * 480 + 480) ==> post.data@[p] == pre.data@[p])
        &&& (forall|sx: int, k: int|
            0 <= sx < 160 && 0 <= k < 3 ==> post.data@[#[trigger] pix(
                pre.lcd_y_coordinate as int,
                sx,
                k,
            )] == (if pre.last_sprite(40, sx) >= 0 {
                pre.sprite_channel(pre.last_sprite(40, sx), sx, k)
            } else {
                pre.data@[pix(pre.lcd_y_coordinate as int, sx, k)]
            }))
    }

    /// Composites the 40 sprites onto the current scanline in table order,
    /// so that of the sprites visible at a column the last one drawn wins,
    /// deciding each pixel against the background priority record.
    #[verifier::rlimit(100)]
    pub fn draw_sprites(&mut self)
        requires
            old(self).wf_base(),
            old(self).lcd_y_coordinate < 144,
        ensures
            final(self).wf_base(),
            Self::draw_sprites_rel(*old(self), *final(self)),
    {
        let ly = self.lcd_y_coordinate;
        let ghost lyi = ly as int;
        let size: u8 = if self.lcd_control.obj_size {
            16
        } else {
            8
        };
        let mut i: usize = 0;
        while i < 40
            invariant
                old(self).wf_base(),
                old(self).lcd_y_coordinate < 144,
                i <= 40,
                ly == old(self).lcd_y_coordinate,
                lyi == ly as int,
                size == old(self).sprite_size(),
                self.wf_base(),
                *self == (Gpu { data: self.data, ..*old(self) }),
                self.data@.len() == 144 * 160 * 3,
                forall|p: int|
                    0 <= p < 144 * 160 * 3 && !(lyi * 480 <= p < lyi * 480 + 480) ==> self.data@[p]
                        == old(self).data@[p],
                forall|sx: int, k: int|
                    0 <= sx < 160 && 0 <= k < 3 ==> self.data@[#[trigger] pix(lyi, sx, k)] == (if
                    old(self).last_sprite(i as int, sx) >= 0 {
                        old(self).sprite_channel(old(self).last_sprite(i as int, sx), sx, k)
                    } else {
                        old(self).data@[pix(lyi, sx, k)]
                    }),
            decreases 40 - i,
        {
            let sprite = self.oam[i];
            let tile: u8 = if self.lcd_control.obj_size {
                sprite.tile_index / 2 * 2
            } else {
                sprite.tile_index
            };
            let on_line: bool = if (sprite.y_position as u16) + (size as u16) <= 256 {
                sprite.y_position <= ly && (ly as u16) <= (sprite.y_position as u16) + (
                size as u16) - 1
            } else {
                (ly as u16) + 257 <= (sprite.y_position as u16) + (size as u16)
            };
            proof {
                assert(on_line == old(self).sprite_on_line(i as int));
            }
            if on_line {
                let ty: u8 = (((ly as u16) + 256 - (sprite.y_position as u16)) % 256) as u8;
                proof {
                    assert(ty <= size - 1);
                    assert(ty == ((old(self).lcd_y_coordinate - old(
                        self,
                    ).oam@[i as int].y_position) % 256 + 256) % 256);
                }
                let row: u8 = if sprite.flags.is_y_flipped {
                    size - 1 - ty
                } else {
                    ty
                };
                let bank: usize = if self.term == Term::GBC {
                    sprite.flags.tile_bank as usize
                } else {
                    0
                };
                let line_index: usize = bank * 0x2000 + (tile as usize) * 16 + (row as usize) * 2;
                proof {
                    assert(line_index == old(self).sprite_line_index(i as int));
                }
                let lo = self.vram[line_index];
                let hi = self.vram[line_index + 1];
                let ghost d0 = self.data@;
                let mut x: u8 = 0;
                while x < 8
                    invariant
                        old(self).wf_base(),
                        old(self).lcd_y_coordinate < 144,
                        i < 40,
                        x <= 8,
                        ly == old(self).lcd_y_coordinate,
                        lyi == ly as int,
                        size == old(self).sprite_size(),
                        sprite == old(self).oam@[i as int],
                        old(self).sprite_on_line(i as int),
                        lo == old(self).vram@[old(self).sprite_line_index(i as int)],
                        hi == old(self).vram@[old(self).sprite_line_index(i as int) + 1],
                        self.wf_base(),
                        *self == (Gpu { data: self.data, ..*old(self) }),
                        self.data@.len() == 144 * 160 * 3,
                        d0.len() == 144 * 160 * 3,
                        forall|p: int|
                            0 <= p < 144 * 160 * 3 && !(lyi * 480 <= p < lyi * 480 + 480)
                                ==> self.data@[p] == d0[p],
                        forall|p: int|
                            0 <= p < 144 * 160 * 3 && !(lyi * 480 <= p < lyi * 480 + 480) ==> d0[p]
                                == old(self).data@[p],
                        forall|sx: int, k: int|
                            0 <= sx < 160 && 0 <= k < 3 ==> self.data@[#[trigger] pix(lyi, sx, k)]
                                == (if sprite.x_position <= sx < sprite.x_position + x && old(
                                self,
                            ).sprite_visible(i as int, sx) {
                                old(self).sprite_channel(i as int, sx, k)
                            } else {
                                d0[pix(lyi, sx, k)]
                            }),
                        forall|sx: int, k: int|
                            0 <= sx < 160 && 0 <= k < 3 ==> d0[#[trigger] pix(lyi, sx, k)] == (if
                            old(self).last_sprite(i as int, sx) >= 0 {
                                old(self).sprite_channel(old(self).last_sprite(i as int, sx), sx, k)
                            } else {
                                old(self).data@[pix(lyi, sx, k)]
                            }),
                    decreases 8 - x,
                {
                    let sx: usize = (sprite.x_position as usize) + (x as usize);
                    if sx < 160 {
                        let tx: u8 = if sprite.flags.is_x_flipped {
                            7 - x
                        } else {
                            x
                        };
                        let p = crate::num::bit_value(7 - tx);
                        let color: u8 = lo / p % 2 + hi / p % 2 * 2;
                        proof {
                            assert(color == old(self).sprite_color(i as int, sx as int));
                        }
                        let pr = self.prio[sx];
                        let suppressed: bool = (pr.0 || sprite.flags.priority) && pr.1 != 0;
                        if color != 0 && !suppressed {
                            proof {
                                assert(old(self).sprite_visible(i as int, sx as int));
                            }
                            if self.term == Term::GBC {
                                let rgb = self.object_palette.get_color(
                                    sprite.flags.palette_number_cgb * 4 + color,
                                );
                                self.set_rgb(sx, rgb.0, rgb.1, rgb.2);
                            } else {
                                let palette = if sprite.flags.palette_number == 0 {
                                    self.obj_palette_0
                                } else {
                                    self.obj_palette_1
                                };
                                self.set_gre(sx, color, palette);
                            }
                        } else {
                            proof {
                                assert(!old(self).sprite_visible(i as int, sx as int));
                            }
                        }
                    }
                    x = x + 1;
                }
            }
            i = i + 1;
        }
    }
}

/// How a PPU step may move the request vector: it can only add the VBlank
/// and LCD-STAT bits, never clear anything.
pub open spec fn vblank_stat_added(pre: u8, post: u8) -> bool {
    ||| post == pre
    ||| post == crate::interrupt::with_int_bit(pre, IntFlag::VBlank)
    ||| post == crate::interrupt::with_int_bit(pre, IntFlag::LcdStat)
    ||| post == crate::interrupt::with_int_bit(
        crate::interrupt::with_int_bit(pre, IntFlag::VBlank),
        IntFlag::LcdStat,
    )
}

/// Setting the VBlank or LCD-STAT bit is idempotent and the two commute.
proof fn lemma_with_int_bit_algebra(x: u8)
    ensures
        crate::interrupt::with_int_bit(
            crate::interrupt::with_int_bit(x, IntFlag::VBlank),
            IntFlag::VBlank,
        ) == crate::interrupt::with_int_bit(x, IntFlag::VBlank),
        crate::interrupt::with_int_bit(
            crate::interrupt::with_int_bit(x, IntFlag::LcdStat),
            IntFlag::LcdStat,
        ) == crate::interrupt::with_int_bit(x, IntFlag::LcdStat),
        crate::interrupt::with_int_bit(
            crate::interrupt::with_int_bit(x, IntFlag::LcdStat),
            IntFlag::VBlank,
        ) == crate::interrupt::with_int_bit(
            crate::interrupt::with_int_bit(x, IntFlag::VBlank),
            IntFlag::LcdStat,
        ),
{
    let xi = x as int;
    vstd::arithmetic::div_mod::lemma_div_basics(xi);
    vstd::arithmetic::div_mod::lemma_div_basics(xi + 1);
    vstd::arithmetic::div_mod::lemma_div_basics(xi + 2);
    vstd::arithmetic::div_mod::lemma_div_basics(xi + 3);
    assert((xi + 2) / 2 == xi / 2 + 1) by (nonlinear_arith);
    assert((xi + 3) / 2 == (xi + 1) / 2 + 1) by (nonlinear_arith);
    assert(xi % 2 == 0 ==> (xi + 1) / 2 == xi / 2) by (nonlinear_arith);
    assert(xi % 2 == 1 ==> (xi + 1) / 2 == xi / 2 + 1) by (nonlinear_arith);
}

/// One more dot appended to a run of dots is a longer run.
pub proof fn lemma_ticks_rel_snoc(
    pre: Gpu,
    mid: Gpu,
    post: Gpu,
    preq: u8,
    midq: u8,
    postq: u8,
    n: nat,
)
    requires
        Gpu::ticks_rel(pre, mid, preq, midq, n),
        Gpu::dot_step_rel(mid, post, midq, postq),
    ensures
        Gpu::ticks_rel(pre, post, preq, postq, n + 1),
{
    assert(((n + 1) - 1) as nat == n);
    assert(Gpu::ticks_rel(pre, mid, preq, midq, ((n + 1) - 1) as nat));
}

/// Once the VBlank bit is in the request vector, no PPU step removes it.
pub proof fn lemma_vblank_bit_kept(p: u8, q: u8)
    requires
        vblank_stat_added(p, q),
        p % 2 == 1,
    ensures
        q % 2 == 1,
{
    vstd::arithmetic::div_mod::lemma_div_basics(p as int);
    vstd::arithmetic::div_mod::lemma_div_basics((p as int) + 1);
}

/// Two PPU steps in a row still only ever add those two bits.
pub proof fn lemma_vblank_stat_added_trans(a: u8, b: u8, c: u8)
    requires
        vblank_stat_added(a, b),
        vblank_stat_added(b, c),
    ensures
        vblank_stat_added(a, c),
{
    lemma_with_int_bit_algebra(a);
    lemma_with_int_bit_algebra(crate::interrupt::with_int_bit(a, IntFlag::VBlank));
    lemma_with_int_bit_algebra(crate::interrupt::with_int_bit(a, IntFlag::LcdStat));
    lemma_with_int_bit_algebra(
        crate::interrupt::with_int_bit(
            crate::interrupt::with_int_bit(a, IntFlag::VBlank),
            IntFlag::LcdStat,
        ),
    );
    lemma_with_int_bit_algebra(b);
}

impl Gpu {
    /// The exact request vector the mode machine leaves behind: on a mode
    /// transition, the LCD-STAT bit when STAT enables the new mode's source,
    /// and on entering V-blank the VBlank bit unconditionally; otherwise the
    /// vector is untouched.
    pub open spec fn change_mode_requests(pre: Gpu, req: u8) -> u8 {
        let m = mode_for(pre.dots, pre.lcd_y_coordinate);
        if m == pre.lcd_status.mode {
            req
        } else if m == 0 {
            if pre.lcd_status.is_mode0_interrupt_enabled {
                crate::interrupt::with_int_bit(req, IntFlag::LcdStat)
            } else {
                req
            }
        } else if m == 1 {
            if pre.lcd_status.is_mode1_interrupt_enabled {
                crate::interrupt::with_int_bit(
                    crate::interrupt::with_int_bit(req, IntFlag::VBlank),
                    IntFlag::LcdStat,
                )
            } else {
                crate::interrupt::with_int_bit(req, IntFlag::VBlank)
            }
        } else if m == 2 {
            if pre.lcd_status.is_mode2_interrupt_enabled {
                crate::interrupt::with_int_bit(req, IntFlag::LcdStat)
            } else {
                req
            }
        } else {
            req
        }
    }

    /// The rendering that entering H-blank performs: the background and
    /// window pass when that layer is enabled (always on the color unit),
    /// then the sprite pass over its priority record when sprites are
    /// enabled; with both layers off the scanline is left alone.
    pub open spec fn render_rel(pre: Gpu, post: Gpu) -> bool {
        let bg = pre.term == Term::GBC || pre.lcd_control.bg_and_window_enable;
        let obj = pre.lcd_control.obj_enable;
        if bg && obj {
            exists|mid: Gpu|
                #[trigger] Self::draw_background_rel(pre, mid) && Self::draw_sprites_rel(mid, post)
        } else if bg {
            Self::draw_background_rel(pre, post)
        } else if obj {
            Self::draw_sprites_rel(pre, post)
        } else {
            post == pre
        }
    }

    /// Everything one run of the mode machine does, PPU and request vector
    /// together: the mode becomes the one the dot position and scanline
    /// determine, the request vector becomes exactly
    /// `change_mode_requests`, entering H-blank renders the scanline per
    /// `render_rel`, and any other transition moves nothing else.
    pub open spec fn change_mode_rel(pre: Gpu, post: Gpu, preq: u8, postq: u8) -> bool {
        let m = mode_for(pre.dots, pre.lcd_y_coordinate);
        &&& postq == Self::change_mode_requests(pre, preq)
        &&& post.lcd_status == (LcdStatus { mode: m, ..pre.lcd_status })
        &&& if m != pre.lcd_status.mode && m == 0 {
            Self::render_rel(pre, Gpu { lcd_status: pre.lcd_status, ..post })
        } else {
            post == (Gpu { lcd_status: LcdStatus { mode: m, ..pre.lcd_status }, ..pre })
        }
    }

    /// Recomputes the mode from the dot position and scanline. On a mode
    /// transition it posts the one-shot interrupt requests that STAT enables,
    /// posts VBlank unconditionally on entering mode 1, and renders the
    /// scanline on entering H-blank.
    #[verifier::rlimit(100)]
    pub fn change_mode(&mut self, intr: &mut Interrupt)
        requires
            old(self).wf_base(),
        ensures
            final(self).wf_base(),
            Self::change_mode_rel(*old(self), *final(self), old(intr).request, final(intr).request),
            final(self).lcd_status.mode == mode_for(old(self).dots, old(self).lcd_y_coordinate),
            *final(self) == (Gpu {
                lcd_status: LcdStatus {
                    mode: mode_for(old(self).dots, old(self).lcd_y_coordinate),
                    ..old(self).lcd_status
                },
                prio: final(self).prio,
                data: final(self).data,
                ..*old(self)
            }),
            final(intr).enabled == old(intr).enabled,
            vblank_stat_added(old(intr).request, final(intr).request),
            old(self).lcd_status.mode != mode_for(old(self).dots, old(self).lcd_y_coordinate)
                && mode_for(old(self).dots, old(self).lcd_y_coordinate) == 1 ==> final(intr).request
                % 2 == 1,
            mode_for(old(self).dots, old(self).lcd_y_coordinate) == old(self).lcd_status.mode
                || mode_for(old(self).dots, old(self).lcd_y_coordinate) != 0 ==> final(self).data
                == old(self).data && final(self).prio == old(self).prio,
    {
        let new_mode: u8 = if self.lcd_y_coordinate >= 144 {
            1
        } else if self.dots < 80 {
            2
        } else if self.dots < 252 {
            3
        } else {
            0
        };
        if new_mode != self.lcd_status.mode {
            if new_mode == 0 {
                if self.lcd_status.is_mode0_interrupt_enabled {
                    intr.request_interrupt(IntFlag::LcdStat);
                }
                let draw_bg = self.term == Term::GBC || self.lcd_control.bg_and_window_enable;
                let draw_obj = self.lcd_control.obj_enable;
                if draw_bg {
                    self.draw_background();
                }
                let ghost mid = *self;
                if draw_obj {
                    self.draw_sprites();
                }
                proof {
                    if draw_bg && draw_obj {
                        assert(Self::draw_background_rel(*old(self), mid));
                        assert(Self::draw_sprites_rel(mid, *self));
                    }
                    assert(Self::render_rel(*old(self), *self));
                }
            } else if new_mode == 1 {
                intr.request_interrupt(IntFlag::VBlank);
                proof {
                    vstd::arithmetic::div_mod::lemma_div_basics(old(intr).request as int);
                    vstd::arithmetic::div_mod::lemma_div_basics(intr.request as int);
                    assert(intr.request % 2 == 1);
                }
                if self.lcd_status.is_mode1_interrupt_enabled {
                    intr.request_interrupt(IntFlag::LcdStat);
                }
            } else if new_mode == 2 {
                if self.lcd_status.is_mode2_interrupt_enabled {
                    intr.request_interrupt(IntFlag::LcdStat);
                }
            }
            self.lcd_status.mode = new_mode;
        }
    }

    /// Everything one dot of PPU time does: the dot counter steps and wraps
    /// at 456, on a wrap LY steps modulo 154 and the coincidence interrupt
    /// is posted when LY lands on LYC with that source enabled, and then
    /// the mode machine runs - renders, posts and all, per
    /// `change_mode_rel`.
    pub open spec fn dot_step_rel(pre: Gpu, post: Gpu, preq: u8, postq: u8) -> bool {
        let wrap = pre.dots + 1 == 456;
        let ly2 = if wrap {
            ((pre.lcd_y_coordinate + 1) % 154) as u8
        } else {
            pre.lcd_y_coordinate
        };
        let mid = Gpu {
            dots: if wrap {
                0u32
            } else {
                ((pre.dots + 1) as u32)
            },
            lcd_y_coordinate: ly2,
            ..pre
        };
        let req1 = if wrap && pre.lcd_status.current_line_interrupt && ly2 == pre.ly_compare {
            crate::interrupt::with_int_bit(preq, IntFlag::LcdStat)
        } else {
            preq
        };
        Self::change_mode_rel(mid, post, req1, postq)
    }

    /// `n` dots of PPU time: the n-fold composition of `dot_step_rel`, so
    /// the frame buffer and the request vector after a whole tick are
    /// exactly what the per-dot machine produces.
    pub open spec fn ticks_rel(pre: Gpu, post: Gpu, preq: u8, postq: u8, n: nat) -> bool
        decreases n,
    {
        if n == 0 {
            post == pre && postq == preq
        } else {
            exists|mid: Gpu, midq: u8|
                Self::ticks_rel(pre, mid, preq, midq, (n - 1) as nat) && #[trigger] Self::dot_step_rel(
                    mid,
                    post,
                    midq,
                    postq,
                )
        }
    }

    /// Advances the PPU by the given number of elapsed cycles, one dot per
    /// cycle: the dot counter wraps each 456-dot scanline, LY wraps each
    /// 154-line frame (posting the coincidence interrupt when it matches LYC
    /// with that enabled), and the mode is recomputed at every dot. With the
    /// display disabled nothing moves.
    #[verifier::rlimit(100)]
    pub fn tick(&mut self, cycles: u32, intr: &mut Interrupt)
        requires
            old(self).wf(),
        ensures
            final(self).wf(),
            !old(self).lcd_control.lcd_and_ppu_enable ==> *final(self) == *old(self) && *final(intr)
                == *old(intr),
            old(self).lcd_control.lcd_and_ppu_enable ==> {
                &&& final(self).dots == ((old(self).dots + cycles) % 456) as u32
                &&& final(self).lcd_y_coordinate == ((old(self).lcd_y_coordinate + (old(self).dots
                    + cycles) / 456) % 154) as u8
                &&& (cycles > 0 ==> final(self).lcd_status.mode == mode_for(
                    final(self).dots,
                    final(self).lcd_y_coordinate,
                ))
                &&& *final(self) == (Gpu {
                    dots: final(self).dots,
                    lcd_y_coordinate: final(self).lcd_y_coordinate,
                    lcd_status: LcdStatus {
                        mode: final(self).lcd_status.mode,
                        ..old(self).lcd_status
                    },
                    prio: final(self).prio,
                    data: final(self).data,
                    ..*old(self)
                })
            },
            final(intr).enabled == old(intr).enabled,
            vblank_stat_added(old(intr).request, final(intr).request),
            old(self).lcd_control.lcd_and_ppu_enable && old(self).lcd_y_coordinate < 144
                && final(self).lcd_y_coordinate >= 144 ==> final(intr).request % 2 == 1,
            old(self).lcd_control.lcd_and_ppu_enable ==> Self::ticks_rel(
                *old(self),
                *final(self),
                old(intr).request,
                final(intr).request,
                cycles as nat,
            ),
    {
        if !self.lcd_control.lcd_and_ppu_enable {
            return ;
        }
        let ghost dots0 = old(self).dots as int;
        let ghost ly0 = old(self).lcd_y_coordinate as int;
        let mut c: u32 = 0;
        while c < cycles
            invariant
                old(self).wf(),
                old(self).lcd_control.lcd_and_ppu_enable,
                c <= cycles,
                dots0 == old(self).dots as int,
                ly0 == old(self).lcd_y_coordinate as int,
                self.wf_base(),
                self.dots == (dots0 + c) % 456,
                self.lcd_y_coordinate == (ly0 + (dots0 + c) / 456) % 154,
                c == 0 ==> self.lcd_status.mode == old(self).lcd_status.mode,
                c > 0 ==> self.lcd_status.mode == mode_for(self.dots, self.lcd_y_coordinate),
                *self == (Gpu {
                    dots: self.dots,
                    lcd_y_coordinate: self.lcd_y_coordinate,
                    lcd_status: LcdStatus { mode: self.lcd_status.mode, ..old(self).lcd_status },
                    prio: self.prio,
                    data: self.data,
                    ..*old(self)
                }),
                intr.enabled == old(intr).enabled,
                vblank_stat_added(old(intr).request, intr.request),
                ly0 < 144 && self.lcd_y_coordinate >= 144 ==> intr.request % 2 == 1,
                Self::ticks_rel(*old(self), *self, old(intr).request, intr.request, c as nat),
            decreases cycles - c,
        {
            let ghost prev = *self;
            let ghost req0 = intr.request;
            proof {
                crate::num::lemma_div_mod_step(dots0 + c, 456);
            }
            self.dots = self.dots + 1;
            if self.dots == 456 {
                self.dots = 0;
                self.lcd_y_coordinate = (self.lcd_y_coordinate + 1) % 154;
                proof {
                    vstd::arithmetic::div_mod::lemma_add_mod_noop(
                        ly0 + (dots0 + c) / 456,
                        1,
                        154,
                    );
                }
                if self.lcd_status.current_line_interrupt && self.lcd_y_coordinate
                    == self.ly_compare {
                    intr.request_interrupt(IntFlag::LcdStat);
                }
            }
            let ghost req1 = intr.request;
            self.change_mode(intr);
            proof {
                if req1 != req0 {
                    lemma_vblank_stat_added_trans(req0, req1, intr.request);
                }
                lemma_vblank_stat_added_trans(old(intr).request, req0, intr.request);
                if req0 % 2 == 1 {
                    if req1 != req0 {
                        lemma_vblank_bit_kept(req0, req1);
                    }
                    lemma_vblank_bit_kept(req1, intr.request);
                }
                assert(Self::dot_step_rel(prev, *self, req0, intr.request));
                lemma_ticks_rel_snoc(
                    *old(self),
                    prev,
                    *self,
                    old(intr).request,
                    req0,
                    intr.request,
                    c as nat,
                );
                assert((c + 1) as nat == c as nat + 1);
            }
            c = c + 1;
        }
    }
}

/// The 2-bit color index of row `i`, bit position `j` in a 16-byte tile's
/// two-bits-per-plane encoding: row `i` is bytes `2i` (low bits) and `2i+1`
/// (high bits).
pub open spec fn tile_pixel(data: Seq<u8>, i: int, j: int) -> u8 {
    (data[i * 2] / pow2_u8(j as u8) % 2 + data[i * 2 + 1] / pow2_u8(j as u8) % 2 * 2) as u8
}

/// Decodes one 16-byte tile from its two-bits-per-plane encoding into 64
/// 2-bit color indices, row by row, leftmost pixel taken from the highest
/// bit of each plane byte.
pub fn data_to_tile(data: &Vec<u8>) -> (tile: Vec<u8>)
    requires
        data@.len() == 16,
    ensures
        tile@.len() == 64,
        forall|i: int, j: int|
            0 <= i < 8 && 0 <= j < 8 ==> tile@[i * 8 + 7 - j] == #[trigger] tile_pixel(data@, i, j),
{
    let mut tile: Vec<u8> = zeroed(64);
    let mut i: usize = 0;
    while i < 8
        invariant
            i <= 8,
            data@.len() == 16,
            tile@.len() == 64,
            forall|a: int, j: int|
                0 <= a < i && 0 <= j < 8 ==> tile@[a * 8 + 7 - j] == #[trigger] tile_pixel(
                    data@,
                    a,
                    j,
                ),
        decreases 8 - i,
    {
        let mut j: usize = 0;
        while j < 8
            invariant
                i < 8,
                j <= 8,
                data@.len() == 16,
                tile@.len() == 64,
                forall|a: int, jj: int|
                    0 <= a < i && 0 <= jj < 8 ==> tile@[a * 8 + 7 - jj] == #[trigger] tile_pixel(
                        data@,
                        a,
                        jj,
                    ),
                forall|jj: int|
                    0 <= jj < j ==> tile@[i * 8 + 7 - jj] == #[trigger] tile_pixel(data@, i as int, jj),
            decreases 8 - j,
        {
            let p = crate::num::bit_value(j as u8);
            let lo = data[i * 2] / p % 2;
            let hi = data[i * 2 + 1] / p % 2;
            tile.set(i * 8 + 7 - j, lo + hi * 2);
            j = j + 1;
        }
        i = i + 1;
    }
    tile
}

} // verus!
