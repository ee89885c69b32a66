//! The CPU register file: eight 8-bit registers (A, B, C, D, E, F, H, L,
//! with F holding the four condition flags in its top nibble) and the two
//! 16-bit registers PC and SP. The paired views AF, BC, DE and HL are always
//! derived from the byte halves, never stored separately.

use vstd::prelude::*;

use crate::num::{hi8, join16, lo8, wadd16};

verus! {

/// One of the four CPU condition flags, stored in the top nibble of F.
#[derive(Clone, Copy, PartialEq, Eq, Structural, Debug)]
pub enum Flag {
    /// Zero: bit 0x80 of F.
    Z,
    /// Subtract: bit 0x40 of F.
    N,
    /// Half-carry: bit 0x20 of F.
    H,
    /// Carry: bit 0x10 of F.
    C,
}

/// The F byte holding exactly the four given flags; the low nibble is zero.
pub open spec fn flags_val(z: bool, n: bool, h: bool, c: bool) -> u8 {
    ((if z {
        128int
    } else {
        0int
    }) + (if n {
        64int
    } else {
        0int
    }) + (if h {
        32int
    } else {
        0int
    }) + (if c {
        16int
    } else {
        0int
    })) as u8
}

/// Whether the given flag's bit is set in an F byte.
pub open spec fn flag_bit(f: u8, flag: Flag) -> bool {
    match flag {
        Flag::Z => f / 128 % 2 == 1,
        Flag::N => f / 64 % 2 == 1,
        Flag::H => f / 32 % 2 == 1,
        Flag::C => f / 16 % 2 == 1,
    }
}

/// The F byte with one more flag bit set and nothing else changed.
pub open spec fn with_flag(f: u8, flag: Flag) -> u8 {
    if flag_bit(f, flag) {
        f
    } else {
        match flag {
            Flag::Z => (f + 128) as u8,
            Flag::N => (f + 64) as u8,
            Flag::H => (f + 32) as u8,
            Flag::C => (f + 16) as u8,
        }
    }
}

#[derive(Clone, Copy, PartialEq, Eq, Structural, Debug)]
pub struct Register {
    pub a: u8,
    pub b: u8,
    pub c: u8,
    pub d: u8,
    pub e: u8,
    pub f: u8,
    pub h: u8,
    pub l: u8,
    pub pc: u16,
    pub sp: u16,
}

impl Register {
    /// The low nibble of F is unused by the hardware and always reads as
    /// zero; every write that can reach F preserves this.
    pub open spec fn wf(self) -> bool {
        self.f % 16 == 0
    }

    /// The derived 16-bit pair views.
    pub open spec fn af(self) -> u16 {
        join16(self.a, self.f)
    }

    pub open spec fn bc(self) -> u16 {
        join16(self.b, self.c)
    }

    pub open spec fn de(self) -> u16 {
        join16(self.d, self.e)
    }

    pub open spec fn hl(self) -> u16 {
        join16(self.h, self.l)
    }

    /// Power-on register values: PC at the cartridge entry point, SP at the
    /// top of high RAM.
    pub fn new() -> (r: Self)
        ensures
            r == (Register {
                a: 0,
                b: 0,
                c: 0,
                d: 0,
                e: 0,
                f: 0,
                h: 0,
                l: 0,
                pc: 0x100,
                sp: 0xfffe,
            }),
            r.wf(),
    {
        Register { a: 0, b: 0, c: 0, d: 0, e: 0, f: 0, h: 0, l: 0, pc: 0x100, sp: 0xfffe }
    }

    pub fn get_flag(&self, flag: Flag) -> (r: bool)
        ensures
            r == flag_bit(self.f, flag),
    {
        match flag {
            Flag::Z => self.f / 128 % 2 == 1,
            Flag::N => self.f / 64 % 2 == 1,
            Flag::H => self.f / 32 % 2 == 1,
            Flag::C => self.f / 16 % 2 == 1,
        }
    }

    /// Sets one flag bit in F, leaving the other bits alone.
    pub fn set_flag(&mut self, flag: Flag)
        ensures
            *final(self) == (Register { f: with_flag(old(self).f, flag), ..*old(self) }),
    {
        match flag {
            Flag::Z => {
                if self.f / 128 % 2 == 0 {
                    self.f = self.f + 128;
                }
            },
            Flag::N => {
                if self.f / 64 % 2 == 0 {
                    assert(self.f < 192);
                    self.f = self.f + 64;
                }
            },
            Flag::H => {
                if self.f / 32 % 2 == 0 {
                    assert(self.f < 224);
                    self.f = self.f + 32;
                }
            },
            Flag::C => {
                if self.f / 16 % 2 == 0 {
                    assert(self.f < 240);
                    self.f = self.f + 16;
                }
            },
        }
    }

    /// Writes all four flags at once, as every ALU instruction does; the low
    /// nibble of F becomes zero.
    pub fn set_flags(&mut self, z: bool, n: bool, h: bool, c: bool)
        ensures
            *final(self) == (Register { f: flags_val(z, n, h, c), ..*old(self) }),
            final(self).wf(),
    {
        self.f = (if z {
            128
        } else {
            0
        }) + (if n {
            64
        } else {
            0
        }) + (if h {
            32
        } else {
            0
        }) + (if c {
            16
        } else {
            0
        });
    }

    pub fn get_a(&self) -> (r: u8)
        ensures
            r == self.a,
    {
        self.a
    }

    pub fn get_b(&self) -> (r: u8)
        ensures
            r == self.b,
    {
        self.b
    }

    pub fn get_c(&self) -> (r: u8)
        ensures
            r == self.c,
    {
        self.c
    }

    pub fn get_d(&self) -> (r: u8)
        ensures
            r == self.d,
    {
        self.d
    }

    pub fn get_e(&self) -> (r: u8)
        ensures
            r == self.e,
    {
        self.e
    }

    pub fn get_f(&self) -> (r: u8)
        ensures
            r == self.f,
    {
        self.f
    }

    pub fn get_h(&self) -> (r: u8)
        ensures
            r == self.h,
    {
        self.h
    }

    pub fn get_l(&self) -> (r: u8)
        ensures
            r == self.l,
    {
        self.l
    }

    pub fn get_pc(&self) -> (r: u16)
        ensures
            r == self.pc,
    {
        self.pc
    }

    pub fn get_sp(&self) -> (r: u16)
        ensures
            r == self.sp,
    {
        self.sp
    }

    pub fn set_a(&mut self, n: u8)
        ensures
            *final(self) == (Register { a: n, ..*old(self) }),
    {
        self.a = n;
    }

    pub fn set_b(&mut self, n: u8)
        ensures
            *final(self) == (Register { b: n, ..*old(self) }),
    {
        self.b = n;
    }

    pub fn set_c(&mut self, n: u8)
        ensures
            *final(self) == (Register { c: n, ..*old(self) }),
    {
        self.c = n;
    }

    pub fn set_d(&mut self, n: u8)
        ensures
            *final(self) == (Register { d: n, ..*old(self) }),
    {
        self.d = n;
    }

    pub fn set_e(&mut self, n: u8)
        ensures
            *final(self) == (Register { e: n, ..*old(self) }),
    {
        self.e = n;
    }

    /// F's low nibble is not writable on the hardware: the stored value keeps
    /// only the four flag bits.
    pub fn set_f(&mut self, n: u8)
        ensures
            *final(self) == (Register { f: (n / 16 * 16) as u8, ..*old(self) }),
            final(self).wf(),
    {
        self.f = n / 16 * 16;
    }

    pub fn set_h(&mut self, n: u8)
        ensures
            *final(self) == (Register { h: n, ..*old(self) }),
    {
        self.h = n;
    }

    pub fn set_l(&mut self, n: u8)
        ensures
            *final(self) == (Register { l: n, ..*old(self) }),
    {
        self.l = n;
    }

    pub fn set_sp(&mut self, n: u16)
        ensures
            *final(self) == (Register { sp: n, ..*old(self) }),
    {
        self.sp = n;
    }

    /// Advances PC by `n`, wrapping modulo 0x10000 as all Game Boy PC
    /// arithmetic does. A signed displacement is passed sign-extended.
    pub fn pc_inc(&mut self, n: u16)
        ensures
            *final(self) == (Register { pc: wadd16(old(self).pc, n), ..*old(self) }),
    {
        self.pc = (((self.pc as u32) + (n as u32)) % 0x10000) as u16;
    }

    pub fn get_af(&self) -> (r: u16)
        ensures
            r == self.af(),
    {
        (self.a as u16) * 256 + (self.f as u16)
    }

    pub fn get_bc(&self) -> (r: u16)
        ensures
            r == self.bc(),
    {
        (self.b as u16) * 256 + (self.c as u16)
    }

    pub fn get_de(&self) -> (r: u16)
        ensures
            r == self.de(),
    {
        (self.d as u16) * 256 + (self.e as u16)
    }

    pub fn get_hl(&self) -> (r: u16)
        ensures
            r == self.hl(),
    {
        (self.h as u16) * 256 + (self.l as u16)
    }

    /// Writes A and F from a 16-bit value; the low nibble of F reads as zero
    /// afterwards, so popping AF masks it.
    pub fn set_af(&mut self, op: u16)
        ensures
            *final(self) == (Register {
                a: hi8(op),
                f: (lo8(op) / 16 * 16) as u8,
                ..*old(self)
            }),
            final(self).wf(),
    {
        self.a = (op / 256) as u8;
        self.f = (op % 256 / 16 * 16) as u8;
    }

    pub fn set_bc(&mut self, op: u16)
        ensures
            *final(self) == (Register { b: hi8(op), c: lo8(op), ..*old(self) }),
    {
        self.b = (op / 256) as u8;
        self.c = (op % 256) as u8;
    }

    pub fn set_de(&mut self, op: u16)
        ensures
            *final(self) == (Register { d: hi8(op), e: lo8(op), ..*old(self) }),
    {
        self.d = (op / 256) as u8;
        self.e = (op % 256) as u8;
    }

    pub fn set_hl(&mut self, op: u16)
        ensures
            *final(self) == (Register { h: hi8(op), l: lo8(op), ..*old(self) }),
    {
        self.h = (op / 256) as u8;
        self.l = (op % 256) as u8;
    }
}

} // verus!
