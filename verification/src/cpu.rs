//! The CPU: the register file coupled to the bus, the fetch helpers for
//! immediates, the stack, and every arithmetic, logic, rotate, bit and jump
//! operation with its exact documented flag behavior.
//!
//! Flag rules (reproduced bit for bit): Z is set from a zero result, N marks
//! subtractions, H is the carry out of bit 3 (bit 11 for 16-bit adds), C the
//! carry or borrow out of the top bit. AND forces H; OR and XOR clear H and
//! C; the A-register rotates force Z clear; 16-bit increments touch no flag.

use vstd::prelude::*;

use crate::mbc::CartridgeHeader;
use crate::memory::Memory;
use crate::num::{hi8, join16, lo8, pow2_u8, sext8, wadd16, wsub16};
use crate::register::{flag_bit, flags_val, Flag, Register};

verus! {

pub struct Cpu {
    pub register: Register,
    pub memory: Memory,
    pub opcode: u8,
}

/// Register file after ADD A,n.
pub open spec fn spec_add8(r: Register, n: u8) -> Register {
    Register {
        a: ((r.a + n) % 256) as u8,
        f: flags_val((r.a + n) % 256 == 0, false, r.a % 16 + n % 16 > 15, r.a + n > 255),
        ..r
    }
}

/// Register file after ADC A,n: the old carry joins the sum.
pub open spec fn spec_adc8(r: Register, n: u8) -> Register {
    let carry = if flag_bit(r.f, Flag::C) {
        1int
    } else {
        0int
    };
    Register {
        a: ((r.a + n + carry) % 256) as u8,
        f: flags_val(
            (r.a + n + carry) % 256 == 0,
            false,
            r.a % 16 + n % 16 + carry > 15,
            r.a + n + carry > 255,
        ),
        ..r
    }
}

/// Register file after SUB A,n.
pub open spec fn spec_sub8(r: Register, n: u8) -> Register {
    Register {
        a: ((r.a - n + 256) % 256) as u8,
        f: flags_val((r.a - n + 256) % 256 == 0, true, r.a % 16 < n % 16, r.a < n),
        ..r
    }
}

/// Register file after SBC A,n: the old carry joins the subtrahend.
pub open spec fn spec_sbc8(r: Register, n: u8) -> Register {
    let carry = if flag_bit(r.f, Flag::C) {
        1int
    } else {
        0int
    };
    Register {
        a: ((r.a - n - carry + 512) % 256) as u8,
        f: flags_val(
            (r.a - n - carry + 512) % 256 == 0,
            true,
            r.a % 16 < n % 16 + carry,
            r.a < n + carry,
        ),
        ..r
    }
}

/// Register file after AND A,n: H forced set, C cleared.
pub open spec fn spec_and8(r: Register, n: u8) -> Register {
    Register { a: r.a & n, f: flags_val((r.a & n) == 0, false, true, false), ..r }
}

/// Register file after OR A,n: H and C cleared.
pub open spec fn spec_or8(r: Register, n: u8) -> Register {
    Register { a: r.a | n, f: flags_val((r.a | n) == 0, false, false, false), ..r }
}

/// Register file after XOR A,n: H and C cleared.
pub open spec fn spec_xor8(r: Register, n: u8) -> Register {
    Register { a: r.a ^ n, f: flags_val((r.a ^ n) == 0, false, false, false), ..r }
}

/// Register file after CP A,n: the flags of a subtraction, A untouched.
pub open spec fn spec_cp8(r: Register, n: u8) -> Register {
    Register { f: flags_val(r.a == n, true, r.a % 16 < n % 16, r.a < n), ..r }
}

/// Register file after ADD HL,nn: Z survives, H and C come from bits 11 and
/// 15.
pub open spec fn spec_add16(r: Register, n: u16) -> Register {
    let hl = join16(r.h, r.l);
    let res = ((hl + n) % 0x10000) as u16;
    Register {
        h: hi8(res),
        l: lo8(res),
        f: flags_val(
            flag_bit(r.f, Flag::Z),
            false,
            hl % 0x1000 + n % 0x1000 > 0xfff,
            hl + n > 0xffff,
        ),
        ..r
    }
}

/// The F byte an 8-bit INC leaves: C survives, H marks a low-nibble wrap.
pub open spec fn inc8_flags(f: u8, res: u8) -> u8 {
    flags_val(res == 0, false, res % 16 == 0, flag_bit(f, Flag::C))
}

/// The F byte an 8-bit DEC leaves: C survives, H marks a low-nibble borrow.
pub open spec fn dec8_flags(f: u8, res: u8) -> u8 {
    flags_val(res == 0, true, res % 16 == 15, flag_bit(f, Flag::C))
}

/// Rotate left circular: bit 7 moves to bit 0 and to C.
pub open spec fn rlc_result(v: u8) -> u8 {
    ((v * 2) % 256 + v / 128) as u8
}

/// Rotate left through carry: the old C enters at bit 0, bit 7 leaves to C.
pub open spec fn rl_result(v: u8, f: u8) -> u8 {
    ((v * 2) % 256 + if flag_bit(f, Flag::C) {
        1int
    } else {
        0int
    }) as u8
}

/// Rotate right circular: bit 0 moves to bit 7 and to C.
pub open spec fn rrc_result(v: u8) -> u8 {
    (v / 2 + v % 2 * 128) as u8
}

/// Rotate right through carry.
pub open spec fn rr_result(v: u8, f: u8) -> u8 {
    (v / 2 + if flag_bit(f, Flag::C) {
        128int
    } else {
        0int
    }) as u8
}

/// Shift left arithmetic: bit 7 leaves to C, bit 0 becomes 0.
pub open spec fn sl_result(v: u8) -> u8 {
    ((v * 2) % 256) as u8
}

/// Shift right arithmetic: the sign bit stays put, bit 0 leaves to C.
pub open spec fn sr_result(v: u8) -> u8 {
    (v / 2 + v / 128 * 128) as u8
}

/// Shift right logical: a zero enters at bit 7, bit 0 leaves to C.
pub open spec fn srl_result(v: u8) -> u8 {
    (v / 2) as u8
}

/// The F byte of the rotate and shift family: Z from the result, N and H
/// clear, C the bit that left.
pub open spec fn rot_flags(res: u8, carry_out: bool) -> u8 {
    flags_val(res == 0, false, false, carry_out)
}

/// Nibble swap.
pub open spec fn swap_result(v: u8) -> u8 {
    (v % 16 * 16 + v / 16) as u8
}

/// The decimal adjust of A: the pending BCD correction that the N, H and C
/// flags select, added after an addition and subtracted after a subtraction.
pub open spec fn daa_adjust(a: u8, f: u8) -> int {
    if !flag_bit(f, Flag::N) {
        (if flag_bit(f, Flag::C) || a > 0x99 {
            0x60int
        } else {
            0int
        }) + (if flag_bit(f, Flag::H) || a % 16 > 9 {
            6int
        } else {
            0int
        })
    } else {
        (if flag_bit(f, Flag::C) {
            0x60int
        } else {
            0int
        }) + (if flag_bit(f, Flag::H) {
            6int
        } else {
            0int
        })
    }
}

/// A after DAA.
pub open spec fn daa_result(a: u8, f: u8) -> u8 {
    if !flag_bit(f, Flag::N) {
        ((a + daa_adjust(a, f)) % 256) as u8
    } else {
        ((a - daa_adjust(a, f) + 256) % 256) as u8
    }
}

/// F after DAA: C set when the correction itself reached 0x60, H always
/// cleared, Z from the adjusted A, N kept.
pub open spec fn daa_flags(a: u8, f: u8) -> u8 {
    flags_val(
        daa_result(a, f) == 0,
        flag_bit(f, Flag::N),
        false,
        daa_adjust(a, f) >= 0x60,
    )
}

/// The F byte BIT b,r leaves: Z when the tested bit is clear, H forced set,
/// C untouched.
pub open spec fn bit_flags(f: u8, v: u8, b: u8) -> u8 {
    flags_val(v / pow2_u8(b) % 2 == 0, false, true, flag_bit(f, Flag::C))
}

/// The value with bit `b` forced set.
pub open spec fn set_bit_result(v: u8, b: u8) -> u8 {
    if v / pow2_u8(b) % 2 == 1 {
        v
    } else {
        (v + pow2_u8(b)) as u8
    }
}

/// The value with bit `b` forced clear.
pub open spec fn res_bit_result(v: u8, b: u8) -> u8 {
    if v / pow2_u8(b) % 2 == 1 {
        (v - pow2_u8(b)) as u8
    } else {
        v
    }
}

impl Cpu {
    pub open spec fn wf(self) -> bool {
        self.memory.wf()
    }

    /// Power-on CPU over a fresh bus for the given cartridge: reset
    /// registers, no latched opcode, and the bus exactly as `Memory::fresh`
    /// describes it - no interrupt pending, all RAM zero, the controller
    /// the header names.
    pub fn new(header: CartridgeHeader) -> (r: Self)
        requires
            header.wf(),
        ensures
            r.wf(),
            r.register == (Register {
                a: 0,
                b: 0,
                c: 0,
                d: 0,
                e: 0,
                f: 0,
                h: 0,
                l: 0,
                pc: 0x100,
                sp: 0xfffe,
            }),
            r.opcode == 0,
            Memory::fresh(header, r.memory),
    {
        Cpu { register: Register::new(), memory: Memory::new(header), opcode: 0 }
    }

    /// Fetches the byte at PC and advances PC past it.
    pub fn imm8(&mut self) -> (r: u8)
        requires
            old(self).wf(),
        ensures
            final(self).wf(),
            r == old(self).memory.spec_get8(old(self).register.pc),
            *final(self) == (Cpu {
                register: Register { pc: wadd16(old(self).register.pc, 1), ..old(self).register },
                ..*old(self)
            }),
    {
        let pc = self.register.get_pc();
        let imm8 = self.memory.get8(pc);
        self.register.pc_inc(1);
        imm8
    }

    /// Fetches the little-endian word at PC and advances PC past it.
    pub fn imm16(&mut self) -> (r: u16)
        requires
            old(self).wf(),
        ensures
            final(self).wf(),
            r == old(self).memory.spec_get16(old(self).register.pc),
            *final(self) == (Cpu {
                register: Register { pc: wadd16(old(self).register.pc, 2), ..old(self).register },
                ..*old(self)
            }),
    {
        let pc = self.register.get_pc();
        let imm16 = self.memory.get16(pc);
        self.register.pc_inc(2);
        proof {
            assert(wadd16(wadd16(old(self).register.pc, 1), 1) == wadd16(old(self).register.pc, 2))
                by {
                vstd::arithmetic::div_mod::lemma_add_mod_noop(
                    old(self).register.pc + 1,
                    1,
                    0x10000,
                );
            };
        }
        imm16
    }

    /// Pushes a word: SP moves down by two first, then the word is stored
    /// there little-endian.
    pub fn push(&mut self, n: u16)
        requires
            old(self).wf(),
        ensures
            final(self).wf(),
            final(self).register == (Register {
                sp: wsub16(old(self).register.sp, 2),
                ..old(self).register
            }),
            final(self).opcode == old(self).opcode,
            Memory::set16_rel(
                old(self).memory,
                final(self).memory,
                wsub16(old(self).register.sp, 2),
                n,
            ),
    {
        let sp = crate::num::wrapping_sub16(self.register.get_sp(), 2);
        self.register.set_sp(sp);
        self.memory.set16(sp, n);
    }

    /// Pops a word into the pair the opcode names: the word is read at SP,
    /// then SP moves up by two. Popping into AF masks F's low nibble.
    pub fn pop(&mut self, opcode: u8)
        requires
            old(self).wf(),
        ensures
            final(self).wf(),
            *final(self) == (Cpu { register: final(self).register, ..*old(self) }),
            ({
                let v = old(self).memory.spec_get16(old(self).register.sp);
                let sp2 = wadd16(old(self).register.sp, 2);
                let r = old(self).register;
                if opcode == 0xf1 {
                    final(self).register == (Register {
                        a: hi8(v),
                        f: (lo8(v) / 16 * 16) as u8,
                        sp: sp2,
                        ..r
                    })
                } else if opcode == 0xc1 {
                    final(self).register == (Register { b: hi8(v), c: lo8(v), sp: sp2, ..r })
                } else if opcode == 0xd1 {
                    final(self).register == (Register { d: hi8(v), e: lo8(v), sp: sp2, ..r })
                } else if opcode == 0xe1 {
                    final(self).register == (Register { h: hi8(v), l: lo8(v), sp: sp2, ..r })
                } else {
                    final(self).register == (Register { sp: sp2, ..r })
                }
            }),
    {
        let address = self.memory.get16(self.register.get_sp());
        match opcode {
            0xf1 => self.register.set_af(address),
            0xc1 => self.register.set_bc(address),
            0xd1 => self.register.set_de(address),
            0xe1 => self.register.set_hl(address),
            _ => (),
        }
        let sp = crate::num::wrapping_add16(self.register.get_sp(), 2);
        self.register.set_sp(sp);
    }

    pub fn add8(&mut self, n: u8)
        requires
            old(self).wf(),
        ensures
            final(self).wf(),
            *final(self) == (Cpu { register: spec_add8(old(self).register, n), ..*old(self) }),
    {
        let a = self.register.get_a();
        let res: u8 = (((a as u16) + (n as u16)) % 256) as u8;
        let carry = (a as u16) + (n as u16) > 255;
        let half = a % 16 + n % 16 > 15;
        self.register.set_flags(res == 0, false, half, carry);
        self.register.set_a(res);
    }

    pub fn adc8(&mut self, n: u8)
        requires
            old(self).wf(),
        ensures
            final(self).wf(),
            *final(self) == (Cpu { register: spec_adc8(old(self).register, n), ..*old(self) }),
    {
        let a = self.register.get_a();
        let carry: u8 = if self.register.get_flag(Flag::C) {
            1
        } else {
            0
        };
        let sum: u16 = (a as u16) + (n as u16) + (carry as u16);
        let res: u8 = (sum % 256) as u8;
        let half = a % 16 + n % 16 + carry > 15;
        self.register.set_flags(res == 0, false, half, sum > 255);
        self.register.set_a(res);
    }

    pub fn sub8(&mut self, n: u8)
        requires
            old(self).wf(),
        ensures
            final(self).wf(),
            *final(self) == (Cpu { register: spec_sub8(old(self).register, n), ..*old(self) }),
    {
        let a = self.register.get_a();
        let res: u8 = (((a as u16) + 256 - (n as u16)) % 256) as u8;
        self.register.set_flags(res == 0, true, a % 16 < n % 16, a < n);
        self.register.set_a(res);
    }

    pub fn sbc8(&mut self, n: u8)
        requires
            old(self).wf(),
        ensures
            final(self).wf(),
            *final(self) == (Cpu { register: spec_sbc8(old(self).register, n), ..*old(self) }),
    {
        let a = self.register.get_a();
        let carry: u8 = if self.register.get_flag(Flag::C) {
            1
        } else {
            0
        };
        let res: u8 = (((a as u16) + 512 - (n as u16) - (carry as u16)) % 256) as u8;
        let half = ((a % 16) as u16) < ((n % 16) as u16) + (carry as u16);
        let borrow = (a as u16) < (n as u16) + (carry as u16);
        self.register.set_flags(res == 0, true, half, borrow);
        self.register.set_a(res);
    }

    pub fn and8(&mut self, n: u8)
        requires
            old(self).wf(),
        ensures
            final(self).wf(),
            *final(self) == (Cpu { register: spec_and8(old(self).register, n), ..*old(self) }),
    {
        let res = self.register.get_a() & n;
        self.register.set_flags(res == 0, false, true, false);
        self.register.set_a(res);
    }

    pub fn or8(&mut self, n: u8)
        requires
            old(self).wf(),
        ensures
            final(self).wf(),
            *final(self) == (Cpu { register: spec_or8(old(self).register, n), ..*old(self) }),
    {
        let res = self.register.get_a() | n;
        self.register.set_flags(res == 0, false, false, false);
        self.register.set_a(res);
    }

    pub fn xor8(&mut self, n: u8)
        requires
            old(self).wf(),
        ensures
            final(self).wf(),
            *final(self) == (Cpu { register: spec_xor8(old(self).register, n), ..*old(self) }),
    {
        let res = self.register.get_a() ^ n;
        self.register.set_flags(res == 0, false, false, false);
        self.register.set_a(res);
    }

    pub fn cp8(&mut self, n: u8)
        requires
            old(self).wf(),
        ensures
            final(self).wf(),
            *final(self) == (Cpu { register: spec_cp8(old(self).register, n), ..*old(self) }),
    {
        let a = self.register.get_a();
        self.register.set_flags(a == n, true, a % 16 < n % 16, a < n);
    }

    pub fn add16(&mut self, n: u16)
        requires
            old(self).wf(),
        ensures
            final(self).wf(),
            *final(self) == (Cpu { register: spec_add16(old(self).register, n), ..*old(self) }),
    {
        let hl = self.register.get_hl();
        let res: u16 = (((hl as u32) + (n as u32)) % 0x10000) as u16;
        let carry = (hl as u32) + (n as u32) > 0xffff;
        let half = hl % 0x1000 + n % 0x1000 > 0xfff;
        let z = self.register.get_flag(Flag::Z);
        self.register.set_flags(z, false, half, carry);
        self.register.set_hl(res);
    }

    /// ADD SP,e: the signed displacement is fetched at PC; H and C come from
    /// the unsigned low-byte sums, never from the signed result, and Z and N
    /// are cleared - a hardware quirk to keep.
    pub fn add16_sp(&mut self)
        requires
            old(self).wf(),
        ensures
            final(self).wf(),
            ({
                let sp = old(self).register.sp;
                let b = sext8(old(self).memory.spec_get8(old(self).register.pc));
                *final(self) == (Cpu {
                    register: Register {
                        sp: wadd16(sp, b),
                        pc: wadd16(old(self).register.pc, 1),
                        f: flags_val(
                            false,
                            false,
                            sp % 16 + b % 16 > 15,
                            sp % 256 + b % 256 > 255,
                        ),
                        ..old(self).register
                    },
                    ..*old(self)
                })
            }),
    {
        let a = self.register.get_sp();
        let d = self.imm8();
        let b = crate::num::sign_extend(d);
        let carry = a % 256 + b % 256 > 255;
        let half = a % 16 + b % 16 > 15;
        self.register.set_flags(false, false, half, carry);
        let sp = crate::num::wrapping_add16(a, b);
        self.register.set_sp(sp);
    }

    pub fn swap(&mut self, reg: u8) -> (r: u8)
        requires
            old(self).wf(),
        ensures
            final(self).wf(),
            r == swap_result(reg),
            *final(self) == (Cpu {
                register: Register {
                    f: flags_val(reg == 0, false, false, false),
                    ..old(self).register
                },
                ..*old(self)
            }),
    {
        self.register.set_flags(reg == 0, false, false, false);
        reg % 16 * 16 + reg / 16
    }

    /// DAA: BCD-adjusts A by the correction the N, H and C flags select.
    pub fn daa(&mut self)
        requires
            old(self).wf(),
        ensures
            final(self).wf(),
            *final(self) == (Cpu {
                register: Register {
                    a: daa_result(old(self).register.a, old(self).register.f),
                    f: daa_flags(old(self).register.a, old(self).register.f),
                    ..old(self).register
                },
                ..*old(self)
            }),
    {
        let a = self.register.get_a();
        let n_flag = self.register.get_flag(Flag::N);
        let adjust: u8 = if !n_flag {
            (if self.register.get_flag(Flag::C) || a > 0x99 {
                0x60
            } else {
                0
            }) + (if self.register.get_flag(Flag::H) || a % 16 > 9 {
                0x06
            } else {
                0
            })
        } else {
            (if self.register.get_flag(Flag::C) {
                0x60
            } else {
                0
            }) + (if self.register.get_flag(Flag::H) {
                0x06
            } else {
                0
            })
        };
        let res: u8 = if !n_flag {
            (((a as u16) + (adjust as u16)) % 256) as u8
        } else {
            (((a as u16) + 256 - (adjust as u16)) % 256) as u8
        };
        self.register.set_flags(res == 0, n_flag, false, adjust >= 0x60);
        self.register.set_a(res);
    }

    /// The rotate and shift family shared with the CB-prefixed opcodes:
    /// each returns the rotated value and sets Z from it.
    pub fn rlc(&mut self, reg: u8) -> (r: u8)
        requires
            old(self).wf(),
        ensures
            final(self).wf(),
            r == rlc_result(reg),
            *final(self) == (Cpu {
                register: Register {
                    f: rot_flags(rlc_result(reg), reg >= 128),
                    ..old(self).register
                },
                ..*old(self)
            }),
    {
        let res: u8 = reg % 128 * 2 + reg / 128;
        self.register.set_flags(res == 0, false, false, reg >= 128);
        res
    }

    pub fn rl(&mut self, reg: u8) -> (r: u8)
        requires
            old(self).wf(),
        ensures
            final(self).wf(),
            r == rl_result(reg, old(self).register.f),
            *final(self) == (Cpu {
                register: Register {
                    f: rot_flags(rl_result(reg, old(self).register.f), reg >= 128),
                    ..old(self).register
                },
                ..*old(self)
            }),
    {
        let carry_in: u8 = if self.register.get_flag(Flag::C) {
            1
        } else {
            0
        };
        let res: u8 = reg % 128 * 2 + carry_in;
        self.register.set_flags(res == 0, false, false, reg >= 128);
        res
    }

    pub fn rrc(&mut self, reg: u8) -> (r: u8)
        requires
            old(self).wf(),
        ensures
            final(self).wf(),
            r == rrc_result(reg),
            *final(self) == (Cpu {
                register: Register {
                    f: rot_flags(rrc_result(reg), reg % 2 == 1),
                    ..old(self).register
                },
                ..*old(self)
            }),
    {
        let res: u8 = reg / 2 + reg % 2 * 128;
        self.register.set_flags(res == 0, false, false, reg % 2 == 1);
        res
    }

    pub fn rr(&mut self, reg: u8) -> (r: u8)
        requires
            old(self).wf(),
        ensures
            final(self).wf(),
            r == rr_result(reg, old(self).register.f),
            *final(self) == (Cpu {
                register: Register {
                    f: rot_flags(rr_result(reg, old(self).register.f), reg % 2 == 1),
                    ..old(self).register
                },
                ..*old(self)
            }),
    {
        let carry_in: u8 = if self.register.get_flag(Flag::C) {
            128
        } else {
            0
        };
        let res: u8 = reg / 2 + carry_in;
        self.register.set_flags(res == 0, false, false, reg % 2 == 1);
        res
    }

    pub fn sl(&mut self, reg: u8) -> (r: u8)
        requires
            old(self).wf(),
        ensures
            final(self).wf(),
            r == sl_result(reg),
            *final(self) == (Cpu {
                register: Register {
                    f: rot_flags(sl_result(reg), reg >= 128),
                    ..old(self).register
                },
                ..*old(self)
            }),
    {
        let res: u8 = reg % 128 * 2;
        self.register.set_flags(res == 0, false, false, reg >= 128);
        res
    }

    pub fn sr(&mut self, reg: u8) -> (r: u8)
        requires
            old(self).wf(),
        ensures
            final(self).wf(),
            r == sr_result(reg),
            *final(self) == (Cpu {
                register: Register {
                    f: rot_flags(sr_result(reg), reg % 2 == 1),
                    ..old(self).register
                },
                ..*old(self)
            }),
    {
        let res: u8 = reg / 2 + reg / 128 * 128;
        self.register.set_flags(res == 0, false, false, reg % 2 == 1);
        res
    }

    pub fn srl(&mut self, reg: u8) -> (r: u8)
        requires
            old(self).wf(),
        ensures
            final(self).wf(),
            r == srl_result(reg),
            *final(self) == (Cpu {
                register: Register {
                    f: rot_flags(srl_result(reg), reg % 2 == 1),
                    ..old(self).register
                },
                ..*old(self)
            }),
    {
        let res: u8 = reg / 2;
        self.register.set_flags(res == 0, false, false, reg % 2 == 1);
        res
    }

    /// BIT b,r: Z reports the tested bit clear, H is forced, C survives and
    /// the operand is not touched.
    pub fn bit(&mut self, reg: u8, b: u8)
        requires
            old(self).wf(),
            b < 8,
        ensures
            final(self).wf(),
            *final(self) == (Cpu {
                register: Register {
                    f: bit_flags(old(self).register.f, reg, b),
                    ..old(self).register
                },
                ..*old(self)
            }),
    {
        let p = crate::num::bit_value(b);
        let z = reg / p % 2 == 0;
        let c = self.register.get_flag(Flag::C);
        self.register.set_flags(z, false, true, c);
    }

    /// SET b,r: returns the operand with the bit forced set; no flags move.
    pub fn set(&mut self, reg: u8, b: u8) -> (r: u8)
        requires
            b < 8,
        ensures
            r == set_bit_result(reg, b),
            *final(self) == *old(self),
    {
        let p = crate::num::bit_value(b);
        if reg / p % 2 == 1 {
            reg
        } else {
            reg + p
        }
    }

    /// RES b,r: returns the operand with the bit forced clear; no flags
    /// move.
    pub fn reset(&mut self, reg: u8, b: u8) -> (r: u8)
        requires
            b < 8,
        ensures
            r == res_bit_result(reg, b),
            *final(self) == *old(self),
    {
        let p = crate::num::bit_value(b);
        if reg / p % 2 == 1 {
            reg - p
        } else {
            reg
        }
    }

    /// What INC r did for this opcode: which register (or the byte behind
    /// HL) stepped, with Z, N and H from the result and C untouched. An
    /// opcode outside the family only writes the flags a zero result gives.
    pub open spec fn inc8_rel(pre: Cpu, post: Cpu, opcode: u8) -> bool {
        let r = pre.register;
        if opcode == 0x3c {
            post == (Cpu {
                register: Register {
                    a: ((r.a + 1) % 256) as u8,
                    f: inc8_flags(r.f, ((r.a + 1) % 256) as u8),
                    ..r
                },
                ..pre
            })
        } else if opcode == 0x04 {
            post == (Cpu {
                register: Register {
                    b: ((r.b + 1) % 256) as u8,
                    f: inc8_flags(r.f, ((r.b + 1) % 256) as u8),
                    ..r
                },
                ..pre
            })
        } else if opcode == 0x0c {
            post == (Cpu {
                register: Register {
                    c: ((r.c + 1) % 256) as u8,
                    f: inc8_flags(r.f, ((r.c + 1) % 256) as u8),
                    ..r
                },
                ..pre
            })
        } else if opcode == 0x14 {
            post == (Cpu {
                register: Register {
                    d: ((r.d + 1) % 256) as u8,
                    f: inc8_flags(r.f, ((r.d + 1) % 256) as u8),
                    ..r
                },
                ..pre
            })
        } else if opcode == 0x1c {
            post == (Cpu {
                register: Register {
                    e: ((r.e + 1) % 256) as u8,
                    f: inc8_flags(r.f, ((r.e + 1) % 256) as u8),
                    ..r
                },
                ..pre
            })
        } else if opcode == 0x24 {
            post == (Cpu {
                register: Register {
                    h: ((r.h + 1) % 256) as u8,
                    f: inc8_flags(r.f, ((r.h + 1) % 256) as u8),
                    ..r
                },
                ..pre
            })
        } else if opcode == 0x2c {
            post == (Cpu {
                register: Register {
                    l: ((r.l + 1) % 256) as u8,
                    f: inc8_flags(r.f, ((r.l + 1) % 256) as u8),
                    ..r
                },
                ..pre
            })
        } else if opcode == 0x34 {
            let address = join16(r.h, r.l);
            let res = ((pre.memory.spec_get8(address) + 1) % 256) as u8;
            &&& Memory::set8_rel(pre.memory, post.memory, address, res)
            &&& post == (Cpu {
                register: Register { f: inc8_flags(r.f, res), ..r },
                memory: post.memory,
                ..pre
            })
        } else {
            post == (Cpu { register: Register { f: inc8_flags(r.f, 0), ..r }, ..pre })
        }
    }

    pub fn inc8(&mut self, opcode: u8)
        requires
            old(self).wf(),
        ensures
            final(self).wf(),
            Self::inc8_rel(*old(self), *final(self), opcode),
    {
        let mut temp: u8 = 0;
        match opcode {
            0x3c => {
                let v = self.register.get_a();
                temp = (((v as u16) + 1) % 256) as u8;
                self.register.set_a(temp);
            },
            0x04 => {
                let v = self.register.get_b();
                temp = (((v as u16) + 1) % 256) as u8;
                self.register.set_b(temp);
            },
            0x0c => {
                let v = self.register.get_c();
                temp = (((v as u16) + 1) % 256) as u8;
                self.register.set_c(temp);
            },
            0x14 => {
                let v = self.register.get_d();
                temp = (((v as u16) + 1) % 256) as u8;
                self.register.set_d(temp);
            },
            0x1c => {
                let v = self.register.get_e();
                temp = (((v as u16) + 1) % 256) as u8;
                self.register.set_e(temp);
            },
            0x24 => {
                let v = self.register.get_h();
                temp = (((v as u16) + 1) % 256) as u8;
                self.register.set_h(temp);
            },
            0x2c => {
                let v = self.register.get_l();
                temp = (((v as u16) + 1) % 256) as u8;
                self.register.set_l(temp);
            },
            0x34 => {
                let address = self.register.get_hl();
                let v = self.memory.get8(address);
                temp = (((v as u16) + 1) % 256) as u8;
                self.memory.set8(address, temp);
            },
            _ => (),
        }
        let c = self.register.get_flag(Flag::C);
        self.register.set_flags(temp == 0, false, temp % 16 == 0, c);
    }

    /// What DEC r did for this opcode, mirroring `inc8_rel`.
    pub open spec fn dec8_rel(pre: Cpu, post: Cpu, opcode: u8) -> bool {
        let r = pre.register;
        if opcode == 0x3d {
            post == (Cpu {
                register: Register {
                    a: ((r.a + 255) % 256) as u8,
                    f: dec8_flags(r.f, ((r.a + 255) % 256) as u8),
                    ..r
                },
                ..pre
            })
        } else if opcode == 0x05 {
            post == (Cpu {
                register: Register {
                    b: ((r.b + 255) % 256) as u8,
                    f: dec8_flags(r.f, ((r.b + 255) % 256) as u8),
                    ..r
                },
                ..pre
            })
        } else if opcode == 0x0d {
            post == (Cpu {
                register: Register {
                    c: ((r.c + 255) % 256) as u8,
                    f: dec8_flags(r.f, ((r.c + 255) % 256) as u8),
                    ..r
                },
                ..pre
            })
        } else if opcode == 0x15 {
            post == (Cpu {
                register: Register {
                    d: ((r.d + 255) % 256) as u8,
                    f: dec8_flags(r.f, ((r.d + 255) % 256) as u8),
                    ..r
                },
                ..pre
            })
        } else if opcode == 0x1d {
            post == (Cpu {
                register: Register {
                    e: ((r.e + 255) % 256) as u8,
                    f: dec8_flags(r.f, ((r.e + 255) % 256) as u8),
                    ..r
                },
                ..pre
            })
        } else if opcode == 0x25 {
            post == (Cpu {
                register: Register {
                    h: ((r.h + 255) % 256) as u8,
                    f: dec8_flags(r.f, ((r.h + 255) % 256) as u8),
                    ..r
                },
                ..pre
            })
        } else if opcode == 0x2d {
            post == (Cpu {
                register: Register {
                    l: ((r.l + 255) % 256) as u8,
                    f: dec8_flags(r.f, ((r.l + 255) % 256) as u8),
                    ..r
                },
                ..pre
            })
        } else if opcode == 0x35 {
            let address = join16(r.h, r.l);
            let res = ((pre.memory.spec_get8(address) + 255) % 256) as u8;
            &&& Memory::set8_rel(pre.memory, post.memory, address, res)
            &&& post == (Cpu {
                register: Register { f: dec8_flags(r.f, res), ..r },
                memory: post.memory,
                ..pre
            })
        } else {
            post == (Cpu { register: Register { f: dec8_flags(r.f, 0), ..r }, ..pre })
        }
    }

    pub fn dec8(&mut self, opcode: u8)
        requires
            old(self).wf(),
        ensures
            final(self).wf(),
            Self::dec8_rel(*old(self), *final(self), opcode),
    {
        let mut temp: u8 = 0;
        match opcode {
            0x3d => {
                let v = self.register.get_a();
                temp = (((v as u16) + 255) % 256) as u8;
                self.register.set_a(temp);
            },
            0x05 => {
                let v = self.register.get_b();
                temp = (((v as u16) + 255) % 256) as u8;
                self.register.set_b(temp);
            },
            0x0d => {
                let v = self.register.get_c();
                temp = (((v as u16) + 255) % 256) as u8;
                self.register.set_c(temp);
            },
            0x15 => {
                let v = self.register.get_d();
                temp = (((v as u16) + 255) % 256) as u8;
                self.register.set_d(temp);
            },
            0x1d => {
                let v = self.register.get_e();
                temp = (((v as u16) + 255) % 256) as u8;
                self.register.set_e(temp);
            },
            0x25 => {
                let v = self.register.get_h();
                temp = (((v as u16) + 255) % 256) as u8;
                self.register.set_h(temp);
            },
            0x2d => {
                let v = self.register.get_l();
                temp = (((v as u16) + 255) % 256) as u8;
                self.register.set_l(temp);
            },
            0x35 => {
                let address = self.register.get_hl();
                let v = self.memory.get8(address);
                temp = (((v as u16) + 255) % 256) as u8;
                self.memory.set8(address, temp);
            },
            _ => (),
        }
        let c = self.register.get_flag(Flag::C);
        self.register.set_flags(temp == 0, true, temp % 16 == 15, c);
    }

    /// JP nn: loads PC with the immediate word.
    pub fn jump(&mut self)
        requires
            old(self).wf(),
        ensures
            final(self).wf(),
            *final(self) == (Cpu {
                register: Register {
                    pc: old(self).memory.spec_get16(old(self).register.pc),
                    ..old(self).register
                },
                ..*old(self)
            }),
    {
        let address = self.imm16();
        self.register.pc = address;
    }

    /// JP cc,nn taken when the flag is set; the immediate is consumed either
    /// way.
    pub fn jump_condition(&mut self, condition: Flag)
        requires
            old(self).wf(),
        ensures
            final(self).wf(),
            *final(self) == (Cpu {
                register: Register {
                    pc: if flag_bit(old(self).register.f, condition) {
                        old(self).memory.spec_get16(old(self).register.pc)
                    } else {
                        wadd16(old(self).register.pc, 2)
                    },
                    ..old(self).register
                },
                ..*old(self)
            }),
    {
        if self.register.get_flag(condition) {
            self.jump();
        } else {
            self.register.pc_inc(2);
        }
    }

    /// JP cc,nn taken when the flag is clear.
    pub fn jump_ncondition(&mut self, condition: Flag)
        requires
            old(self).wf(),
        ensures
            final(self).wf(),
            *final(self) == (Cpu {
                register: Register {
                    pc: if !flag_bit(old(self).register.f, condition) {
                        old(self).memory.spec_get16(old(self).register.pc)
                    } else {
                        wadd16(old(self).register.pc, 2)
                    },
                    ..old(self).register
                },
                ..*old(self)
            }),
    {
        if !self.register.get_flag(condition) {
            self.jump();
        } else {
            self.register.pc_inc(2);
        }
    }

    /// JP (HL): loads PC with the word HL points at.
    pub fn jump_register(&mut self)
        requires
            old(self).wf(),
        ensures
            final(self).wf(),
            *final(self) == (Cpu {
                register: Register {
                    pc: old(self).memory.spec_get16(join16(old(self).register.h, old(self).register.l)),
                    ..old(self).register
                },
                ..*old(self)
            }),
    {
        let reg = self.register.get_hl();
        let address = self.memory.get16(reg);
        self.register.pc = address;
    }

    /// JR e: adds the signed displacement to PC after the displacement byte
    /// has been consumed.
    pub fn jump_relative(&mut self)
        requires
            old(self).wf(),
        ensures
            final(self).wf(),
            *final(self) == (Cpu {
                register: Register {
                    pc: wadd16(
                        wadd16(old(self).register.pc, 1),
                        sext8(old(self).memory.spec_get8(old(self).register.pc)),
                    ),
                    ..old(self).register
                },
                ..*old(self)
            }),
    {
        let displacement = self.imm8();
        let d = crate::num::sign_extend(displacement);
        self.register.pc_inc(d);
    }

    /// JR cc,e taken when the flag is set; the displacement is consumed
    /// either way.
    pub fn jump_relative_condition(&mut self, condition: Flag)
        requires
            old(self).wf(),
        ensures
            final(self).wf(),
            *final(self) == (Cpu {
                register: Register {
                    pc: if flag_bit(old(self).register.f, condition) {
                        wadd16(
                            wadd16(old(self).register.pc, 1),
                            sext8(old(self).memory.spec_get8(old(self).register.pc)),
                        )
                    } else {
                        wadd16(old(self).register.pc, 1)
                    },
                    ..old(self).register
                },
                ..*old(self)
            }),
    {
        if self.register.get_flag(condition) {
            self.jump_relative();
        } else {
            self.register.pc_inc(1);
        }
    }

    /// JR cc,e taken when the flag is clear.
    pub fn jump_relative_ncondition(&mut self, condition: Flag)
        requires
            old(self).wf(),
        ensures
            final(self).wf(),
            *final(self) == (Cpu {
                register: Register {
                    pc: if !flag_bit(old(self).register.f, condition) {
                        wadd16(
                            wadd16(old(self).register.pc, 1),
                            sext8(old(self).memory.spec_get8(old(self).register.pc)),
                        )
                    } else {
                        wadd16(old(self).register.pc, 1)
                    },
                    ..old(self).register
                },
                ..*old(self)
            }),
    {
        if !self.register.get_flag(condition) {
            self.jump_relative();
        } else {
            self.register.pc_inc(1);
        }
    }
}

} // verus!
