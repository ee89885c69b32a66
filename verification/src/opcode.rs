//! The opcode dispatch engine: the 256-entry primary table and the
//! 256-entry CB-prefixed table, each opcode's effect on the register file
//! and the bus stated opcode by opcode.

use vstd::prelude::*;

use crate::cpu::{
    daa_flags, daa_result, dec8_flags, inc8_flags, res_bit_result, bit_flags, rl_result,
    rlc_result, rot_flags, rr_result, rrc_result, set_bit_result, sl_result, spec_add16,
    spec_add8, spec_adc8, spec_and8, spec_cp8, spec_or8, spec_sbc8, spec_sub8, spec_xor8,
    sr_result, srl_result, swap_result, Cpu,
};
use crate::memory::Memory;
use crate::num::{hi8, join16, lo8, sext8, wadd16, wsub16};
use crate::register::{flag_bit, flags_val, Flag, Register};

verus! {

impl Cpu {
    pub open spec fn ld_effect_0x(pre: Cpu, post: Cpu, opcode: u8) -> bool {
        if opcode == 0x00 {
            post == pre
        } else if opcode == 0x01 {
            post == (Cpu { register: Register { b: hi8(pre.memory.spec_get16(pre.register.pc)), c: lo8(pre.memory.spec_get16(pre.register.pc)), pc: wadd16(pre.register.pc, 2), ..pre.register }, ..pre })
        } else if opcode == 0x02 {
            {
            &&& Memory::set8_rel(pre.memory, post.memory, join16(pre.register.b, pre.register.c), pre.register.a)
            &&& post == (Cpu { memory: post.memory, ..pre })
        }
        } else if opcode == 0x03 {
            post == (Cpu { register: Register { b: hi8(wadd16(join16(pre.register.b, pre.register.c), 1)), c: lo8(wadd16(join16(pre.register.b, pre.register.c), 1)), ..pre.register }, ..pre })
        } else if opcode == 0x04 {
            Self::inc8_rel(pre, post, 0x04)
        } else if opcode == 0x05 {
            Self::dec8_rel(pre, post, 0x05)
        } else if opcode == 0x06 {
            post == (Cpu { register: Register { b: pre.memory.spec_get8(pre.register.pc), pc: wadd16(pre.register.pc, 1), ..pre.register }, ..pre })
        } else if opcode == 0x07 {
            post == (Cpu { register: Register { a: rlc_result(pre.register.a), f: flags_val(false, false, false, pre.register.a >= 128), ..pre.register }, ..pre })
        } else if opcode == 0x08 {
            {
            &&& Memory::set16_rel(pre.memory, post.memory, pre.memory.spec_get16(pre.register.pc), pre.register.sp)
            &&& post == (Cpu { register: Register { pc: wadd16(pre.register.pc, 2), ..pre.register }, memory: post.memory, ..pre })
        }
        } else if opcode == 0x09 {
            post == (Cpu { register: spec_add16(pre.register, join16(pre.register.b, pre.register.c)), ..pre })
        } else if opcode == 0x0a {
            post == (Cpu { register: Register { a: pre.memory.spec_get8(join16(pre.register.b, pre.register.c)), ..pre.register }, ..pre })
        } else if opcode == 0x0b {
            post == (Cpu { register: Register { b: hi8(wsub16(join16(pre.register.b, pre.register.c), 1)), c: lo8(wsub16(join16(pre.register.b, pre.register.c), 1)), ..pre.register }, ..pre })
        } else if opcode == 0x0c {
            Self::inc8_rel(pre, post, 0x0c)
        } else if opcode == 0x0d {
            Self::dec8_rel(pre, post, 0x0d)
        } else if opcode == 0x0e {
            post == (Cpu { register: Register { c: pre.memory.spec_get8(pre.register.pc), pc: wadd16(pre.register.pc, 1), ..pre.register }, ..pre })
        } else if opcode == 0x0f {
            post == (Cpu { register: Register { a: rl_result(pre.register.a, pre.register.f), f: flags_val(false, false, false, pre.register.a >= 128), ..pre.register }, ..pre })
        } else {
            post == pre
        }
    }

    pub open spec fn ld_effect_1x(pre: Cpu, post: Cpu, opcode: u8) -> bool {
        if opcode == 0x10 {
            post == pre
        } else if opcode == 0x11 {
            post == (Cpu { register: Register { d: hi8(pre.memory.spec_get16(pre.register.pc)), e: lo8(pre.memory.spec_get16(pre.register.pc)), pc: wadd16(pre.register.pc, 2), ..pre.register }, ..pre })
        } else if opcode == 0x12 {
            {
            &&& Memory::set8_rel(pre.memory, post.memory, join16(pre.register.d, pre.register.e), pre.register.a)
            &&& post == (Cpu { memory: post.memory, ..pre })
        }
        } else if opcode == 0x13 {
            post == (Cpu { register: Register { d: hi8(wadd16(join16(pre.register.d, pre.register.e), 1)), e: lo8(wadd16(join16(pre.register.d, pre.register.e), 1)), ..pre.register }, ..pre })
        } else if opcode == 0x14 {
            Self::inc8_rel(pre, post, 0x14)
        } else if opcode == 0x15 {
            Self::dec8_rel(pre, post, 0x15)
        } else if opcode == 0x16 {
            post == (Cpu { register: Register { d: pre.memory.spec_get8(pre.register.pc), pc: wadd16(pre.register.pc, 1), ..pre.register }, ..pre })
        } else if opcode == 0x17 {
            post == (Cpu { register: Register { a: rrc_result(pre.register.a), f: flags_val(false, false, false, pre.register.a % 2 == 1), ..pre.register }, ..pre })
        } else if opcode == 0x18 {
            post == (Cpu { register: Register { pc: wadd16(wadd16(pre.register.pc, 1), sext8(pre.memory.spec_get8(pre.register.pc))), ..pre.register }, ..pre })
        } else if opcode == 0x19 {
            post == (Cpu { register: spec_add16(pre.register, join16(pre.register.d, pre.register.e)), ..pre })
        } else if opcode == 0x1a {
            post == (Cpu { register: Register { a: pre.memory.spec_get8(join16(pre.register.d, pre.register.e)), ..pre.register }, ..pre })
        } else if opcode == 0x1b {
            post == (Cpu { register: Register { d: hi8(wsub16(join16(pre.register.d, pre.register.e), 1)), e: lo8(wsub16(join16(pre.register.d, pre.register.e), 1)), ..pre.register }, ..pre })
        } else if opcode == 0x1c {
            Self::inc8_rel(pre, post, 0x1c)
        } else if opcode == 0x1d {
            Self::dec8_rel(pre, post, 0x1d)
        } else if opcode == 0x1e {
            post == (Cpu { register: Register { e: pre.memory.spec_get8(pre.register.pc), pc: wadd16(pre.register.pc, 1), ..pre.register }, ..pre })
        } else if opcode == 0x1f {
            post == (Cpu { register: Register { a: rr_result(pre.register.a, pre.register.f), f: flags_val(false, false, false, pre.register.a % 2 == 1), ..pre.register }, ..pre })
        } else {
            post == pre
        }
    }

    pub open spec fn ld_effect_2x(pre: Cpu, post: Cpu, opcode: u8) -> bool {
        if opcode == 0x20 {
            post == (Cpu { register: Register { pc: if !flag_bit(pre.register.f, Flag::Z) { wadd16(wadd16(pre.register.pc, 1), sext8(pre.memory.spec_get8(pre.register.pc))) } else { wadd16(pre.register.pc, 1) }, ..pre.register }, ..pre })
        } else if opcode == 0x21 {
            post == (Cpu { register: Register { h: hi8(pre.memory.spec_get16(pre.register.pc)), l: lo8(pre.memory.spec_get16(pre.register.pc)), pc: wadd16(pre.register.pc, 2), ..pre.register }, ..pre })
        } else if opcode == 0x22 {
            {
            &&& Memory::set8_rel(pre.memory, post.memory, join16(pre.register.h, pre.register.l), pre.register.a)
            &&& post == (Cpu { register: Register { h: hi8(wadd16(join16(pre.register.h, pre.register.l), 1)), l: lo8(wadd16(join16(pre.register.h, pre.register.l), 1)), ..pre.register }, memory: post.memory, ..pre })
        }
        } else if opcode == 0x23 {
            post == (Cpu { register: Register { h: hi8(wadd16(join16(pre.register.h, pre.register.l), 1)), l: lo8(wadd16(join16(pre.register.h, pre.register.l), 1)), ..pre.register }, ..pre })
        } else if opcode == 0x24 {
            Self::inc8_rel(pre, post, 0x24)
        } else if opcode == 0x25 {
            Self::dec8_rel(pre, post, 0x25)
        } else if opcode == 0x26 {
            post == (Cpu { register: Register { h: pre.memory.spec_get8(pre.register.pc), pc: wadd16(pre.register.pc, 1), ..pre.register }, ..pre })
        } else if opcode == 0x27 {
            post == (Cpu { register: Register { a: daa_result(pre.register.a, pre.register.f), f: daa_flags(pre.register.a, pre.register.f), ..pre.register }, ..pre })
        } else if opcode == 0x28 {
            post == (Cpu { register: Register { pc: if flag_bit(pre.register.f, Flag::Z) { wadd16(wadd16(pre.register.pc, 1), sext8(pre.memory.spec_get8(pre.register.pc))) } else { wadd16(pre.register.pc, 1) }, ..pre.register }, ..pre })
        } else if opcode == 0x29 {
            post == (Cpu { register: spec_add16(pre.register, join16(pre.register.h, pre.register.l)), ..pre })
        } else if opcode == 0x2a {
            post == (Cpu { register: Register { a: pre.memory.spec_get8(join16(pre.register.h, pre.register.l)), h: hi8(wadd16(join16(pre.register.h, pre.register.l), 1)), l: lo8(wadd16(join16(pre.register.h, pre.register.l), 1)), ..pre.register }, ..pre })
        } else if opcode == 0x2b {
            post == (Cpu { register: Register { h: hi8(wsub16(join16(pre.register.h, pre.register.l), 1)), l: lo8(wsub16(join16(pre.register.h, pre.register.l), 1)), ..pre.register }, ..pre })
        } else if opcode == 0x2c {
            Self::inc8_rel(pre, post, 0x2c)
        } else if opcode == 0x2d {
            Self::dec8_rel(pre, post, 0x2d)
        } else if opcode == 0x2e {
            post == (Cpu { register: Register { l: pre.memory.spec_get8(pre.register.pc), pc: wadd16(pre.register.pc, 1), ..pre.register }, ..pre })
        } else if opcode == 0x2f {
            post == (Cpu { register: Register { a: pre.register.a ^ 0xff, ..pre.register }, ..pre })
        } else {
            post == pre
        }
    }

    pub open spec fn ld_effect_3x(pre: Cpu, post: Cpu, opcode: u8) -> bool {
        if opcode == 0x30 {
            post == (Cpu { register: Register { pc: if !flag_bit(pre.register.f, Flag::C) { wadd16(wadd16(pre.register.pc, 1), sext8(pre.memory.spec_get8(pre.register.pc))) } else { wadd16(pre.register.pc, 1) }, ..pre.register }, ..pre })
        } else if opcode == 0x31 {
            post == (Cpu { register: Register { sp: pre.memory.spec_get16(pre.register.pc), pc: wadd16(pre.register.pc, 2), ..pre.register }, ..pre })
        } else if opcode == 0x32 {
            {
            &&& Memory::set8_rel(pre.memory, post.memory, join16(pre.register.h, pre.register.l), pre.register.a)
            &&& post == (Cpu { register: Register { h: hi8(wsub16(join16(pre.register.h, pre.register.l), 1)), l: lo8(wsub16(join16(pre.register.h, pre.register.l), 1)), ..pre.register }, memory: post.memory, ..pre })
        }
        } else if opcode == 0x33 {
            post == (Cpu { register: Register { sp: wadd16(pre.register.sp, 1), ..pre.register }, ..pre })
        } else if opcode == 0x34 {
            Self::inc8_rel(pre, post, 0x34)
        } else if opcode == 0x35 {
            Self::dec8_rel(pre, post, 0x35)
        } else if opcode == 0x36 {
            {
            &&& Memory::set8_rel(pre.memory, post.memory, join16(pre.register.h, pre.register.l), pre.memory.spec_get8(pre.register.pc))
            &&& post == (Cpu { register: Register { pc: wadd16(pre.register.pc, 1), ..pre.register }, memory: post.memory, ..pre })
        }
        } else if opcode == 0x37 {
            post == (Cpu { register: Register { f: flags_val(flag_bit(pre.register.f, Flag::Z), false, false, true), ..pre.register }, ..pre })
        } else if opcode == 0x38 {
            post == (Cpu { register: Register { pc: if flag_bit(pre.register.f, Flag::C) { wadd16(wadd16(pre.register.pc, 1), sext8(pre.memory.spec_get8(pre.register.pc))) } else { wadd16(pre.register.pc, 1) }, ..pre.register }, ..pre })
        } else if opcode == 0x39 {
            post == (Cpu { register: spec_add16(pre.register, pre.register.sp), ..pre })
        } else if opcode == 0x3a {
            post == (Cpu { register: Register { a: pre.memory.spec_get8(join16(pre.register.h, pre.register.l)), h: hi8(wsub16(join16(pre.register.h, pre.register.l), 1)), l: lo8(wsub16(join16(pre.register.h, pre.register.l), 1)), ..pre.register }, ..pre })
        } else if opcode == 0x3b {
            post == (Cpu { register: Register { sp: wsub16(pre.register.sp, 1), ..pre.register }, ..pre })
        } else if opcode == 0x3c {
            Self::inc8_rel(pre, post, 0x3c)
        } else if opcode == 0x3d {
            Self::dec8_rel(pre, post, 0x3d)
        } else if opcode == 0x3e {
            post == (Cpu { register: Register { a: pre.memory.spec_get8(pre.register.pc), pc: wadd16(pre.register.pc, 1), ..pre.register }, ..pre })
        } else if opcode == 0x3f {
            post == (Cpu { register: Register { f: flags_val(flag_bit(pre.register.f, Flag::Z), false, false, !flag_bit(pre.register.f, Flag::C)), ..pre.register }, ..pre })
        } else {
            post == pre
        }
    }

    pub open spec fn ld_effect_4x(pre: Cpu, post: Cpu, opcode: u8) -> bool {
        if opcode == 0x40 {
            post == (Cpu { register: Register { b: pre.register.b, ..pre.register }, ..pre })
        } else if opcode == 0x41 {
            post == (Cpu { register: Register { b: pre.register.c, ..pre.register }, ..pre })
        } else if opcode == 0x42 {
            post == (Cpu { register: Register { b: pre.register.d, ..pre.register }, ..pre })
        } else if opcode == 0x43 {
            post == (Cpu { register: Register { b: pre.register.e, ..pre.register }, ..pre })
        } else if opcode == 0x44 {
            post == (Cpu { register: Register { b: pre.register.h, ..pre.register }, ..pre })
        } else if opcode == 0x45 {
            post == (Cpu { register: Register { b: pre.register.l, ..pre.register }, ..pre })
        } else if opcode == 0x46 {
            post == (Cpu { register: Register { b: pre.memory.spec_get8(join16(pre.register.h, pre.register.l)), ..pre.register }, ..pre })
        } else if opcode == 0x47 {
            post == (Cpu { register: Register { b: pre.register.a, ..pre.register }, ..pre })
        } else if opcode == 0x48 {
            post == (Cpu { register: Register { c: pre.register.b, ..pre.register }, ..pre })
        } else if opcode == 0x49 {
            post == (Cpu { register: Register { c: pre.register.c, ..pre.register }, ..pre })
        } else if opcode == 0x4a {
            post == (Cpu { register: Register { c: pre.register.d, ..pre.register }, ..pre })
        } else if opcode == 0x4b {
            post == (Cpu { register: Register { c: pre.register.e, ..pre.register }, ..pre })
        } else if opcode == 0x4c {
            post == (Cpu { register: Register { c: pre.register.h, ..pre.register }, ..pre })
        } else if opcode == 0x4d {
            post == (Cpu { register: Register { c: pre.register.l, ..pre.register }, ..pre })
        } else if opcode == 0x4e {
            post == (Cpu { register: Register { c: pre.memory.spec_get8(join16(pre.register.h, pre.register.l)), ..pre.register }, ..pre })
        } else if opcode == 0x4f {
            post == (Cpu { register: Register { c: pre.register.a, ..pre.register }, ..pre })
        } else {
            post == pre
        }
    }

    pub open spec fn ld_effect_5x(pre: Cpu, post: Cpu, opcode: u8) -> bool {
        if opcode == 0x50 {
            post == (Cpu { register: Register { d: pre.register.b, ..pre.register }, ..pre })
        } else if opcode == 0x51 {
            post == (Cpu { register: Register { d: pre.register.c, ..pre.register }, ..pre })
        } else if opcode == 0x52 {
            post == (Cpu { register: Register { d: pre.register.d, ..pre.register }, ..pre })
        } else if opcode == 0x53 {
            post == (Cpu { register: Register { d: pre.register.e, ..pre.register }, ..pre })
        } else if opcode == 0x54 {
            post == (Cpu { register: Register { d: pre.register.h, ..pre.register }, ..pre })
        } else if opcode == 0x55 {
            post == (Cpu { register: Register { d: pre.register.l, ..pre.register }, ..pre })
        } else if opcode == 0x56 {
            post == (Cpu { register: Register { d: pre.memory.spec_get8(join16(pre.register.h, pre.register.l)), ..pre.register }, ..pre })
        } else if opcode == 0x57 {
            post == (Cpu { register: Register { d: pre.register.a, ..pre.register }, ..pre })
        } else if opcode == 0x58 {
            post == (Cpu { register: Register { e: pre.register.b, ..pre.register }, ..pre })
        } else if opcode == 0x59 {
            post == (Cpu { register: Register { e: pre.register.c, ..pre.register }, ..pre })
        } else if opcode == 0x5a {
            post == (Cpu { register: Register { e: pre.register.d, ..pre.register }, ..pre })
        } else if opcode == 0x5b {
            post == (Cpu { register: Register { e: pre.register.e, ..pre.register }, ..pre })
        } else if opcode == 0x5c {
            post == (Cpu { register: Register { e: pre.register.h, ..pre.register }, ..pre })
        } else if opcode == 0x5d {
            post == (Cpu { register: Register { e: pre.register.l, ..pre.register }, ..pre })
        } else if opcode == 0x5e {
            post == (Cpu { register: Register { e: pre.memory.spec_get8(join16(pre.register.h, pre.register.l)), ..pre.register }, ..pre })
        } else if opcode == 0x5f {
            post == (Cpu { register: Register { e: pre.register.a, ..pre.register }, ..pre })
        } else {
            post == pre
        }
    }

    pub open spec fn ld_effect_6x(pre: Cpu, post: Cpu, opcode: u8) -> bool {
        if opcode == 0x60 {
            post == (Cpu { register: Register { h: pre.register.b, ..pre.register }, ..pre })
        } else if opcode == 0x61 {
            post == (Cpu { register: Register { h: pre.register.c, ..pre.register }, ..pre })
        } else if opcode == 0x62 {
            post == (Cpu { register: Register { h: pre.register.d, ..pre.register }, ..pre })
        } else if opcode == 0x63 {
            post == (Cpu { register: Register { h: pre.register.e, ..pre.register }, ..pre })
        } else if opcode == 0x64 {
            post == (Cpu { register: Register { h: pre.register.h, ..pre.register }, ..pre })
        } else if opcode == 0x65 {
            post == (Cpu { register: Register { h: pre.register.l, ..pre.register }, ..pre })
        } else if opcode == 0x66 {
            post == (Cpu { register: Register { h: pre.memory.spec_get8(join16(pre.register.h, pre.register.l)), ..pre.register }, ..pre })
        } else if opcode == 0x67 {
            post == (Cpu { register: Register { h: pre.register.a, ..pre.register }, ..pre })
        } else if opcode == 0x68 {
            post == (Cpu { register: Register { l: pre.register.b, ..pre.register }, ..pre })
        } else if opcode == 0x69 {
            post == (Cpu { register: Register { l: pre.register.c, ..pre.register }, ..pre })
        } else if opcode == 0x6a {
            post == (Cpu { register: Register { l: pre.register.d, ..pre.register }, ..pre })
        } else if opcode == 0x6b {
            post == (Cpu { register: Register { l: pre.register.e, ..pre.register }, ..pre })
        } else if opcode == 0x6c {
            post == (Cpu { register: Register { l: pre.register.h, ..pre.register }, ..pre })
        } else if opcode == 0x6d {
            post == (Cpu { register: Register { l: pre.register.l, ..pre.register }, ..pre })
        } else if opcode == 0x6e {
            post == (Cpu { register: Register { l: pre.memory.spec_get8(join16(pre.register.h, pre.register.l)), ..pre.register }, ..pre })
        } else if opcode == 0x6f {
            post == (Cpu { register: Register { l: pre.register.a, ..pre.register }, ..pre })
        } else {
            post == pre
        }
    }

    pub open spec fn ld_effect_7x(pre: Cpu, post: Cpu, opcode: u8) -> bool {
        if opcode == 0x70 {
            {
            &&& Memory::set8_rel(pre.memory, post.memory, join16(pre.register.h, pre.register.l), pre.register.b)
            &&& post == (Cpu { memory: post.memory, ..pre })
        }
        } else if opcode == 0x71 {
            {
            &&& Memory::set8_rel(pre.memory, post.memory, join16(pre.register.h, pre.register.l), pre.register.c)
            &&& post == (Cpu { memory: post.memory, ..pre })
        }
        } else if opcode == 0x72 {
            {
            &&& Memory::set8_rel(pre.memory, post.memory, join16(pre.register.h, pre.register.l), pre.register.d)
            &&& post == (Cpu { memory: post.memory, ..pre })
        }
        } else if opcode == 0x73 {
            {
            &&& Memory::set8_rel(pre.memory, post.memory, join16(pre.register.h, pre.register.l), pre.register.e)
            &&& post == (Cpu { memory: post.memory, ..pre })
        }
        } else if opcode == 0x74 {
            {
            &&& Memory::set8_rel(pre.memory, post.memory, join16(pre.register.h, pre.register.l), pre.register.h)
            &&& post == (Cpu { memory: post.memory, ..pre })
        }
        } else if opcode == 0x75 {
            {
            &&& Memory::set8_rel(pre.memory, post.memory, join16(pre.register.h, pre.register.l), pre.register.l)
            &&& post == (Cpu { memory: post.memory, ..pre })
        }
        } else if opcode == 0x76 {
            post == pre
        } else if opcode == 0x77 {
            {
            &&& Memory::set8_rel(pre.memory, post.memory, join16(pre.register.h, pre.register.l), pre.register.a)
            &&& post == (Cpu { memory: post.memory, ..pre })
        }
        } else if opcode == 0x78 {
            post == (Cpu { register: Register { a: pre.register.b, ..pre.register }, ..pre })
        } else if opcode == 0x79 {
            post == (Cpu { register: Register { a: pre.register.c, ..pre.register }, ..pre })
        } else if opcode == 0x7a {
            post == (Cpu { register: Register { a: pre.register.d, ..pre.register }, ..pre })
        } else if opcode == 0x7b {
            post == (Cpu { register: Register { a: pre.register.e, ..pre.register }, ..pre })
        } else if opcode == 0x7c {
            post == (Cpu { register: Register { a: pre.register.h, ..pre.register }, ..pre })
        } else if opcode == 0x7d {
            post == (Cpu { register: Register { a: pre.register.l, ..pre.register }, ..pre })
        } else if opcode == 0x7e {
            post == (Cpu { register: Register { a: pre.memory.spec_get8(join16(pre.register.h, pre.register.l)), ..pre.register }, ..pre })
        } else if opcode == 0x7f {
            post == (Cpu { register: Register { a: pre.register.a, ..pre.register }, ..pre })
        } else {
            post == pre
        }
    }

    pub open spec fn ld_effect_8x(pre: Cpu, post: Cpu, opcode: u8) -> bool {
        if opcode == 0x80 {
            post == (Cpu { register: spec_add8(pre.register, pre.register.b), ..pre })
        } else if opcode == 0x81 {
            post == (Cpu { register: spec_add8(pre.register, pre.register.c), ..pre })
        } else if opcode == 0x82 {
            post == (Cpu { register: spec_add8(pre.register, pre.register.d), ..pre })
        } else if opcode == 0x83 {
            post == (Cpu { register: spec_add8(pre.register, pre.register.e), ..pre })
        } else if opcode == 0x84 {
            post == (Cpu { register: spec_add8(pre.register, pre.register.h), ..pre })
        } else if opcode == 0x85 {
            post == (Cpu { register: spec_add8(pre.register, pre.register.l), ..pre })
        } else if opcode == 0x86 {
            post == (Cpu { register: spec_add8(pre.register, pre.memory.spec_get8(join16(pre.register.h, pre.register.l))), ..pre })
        } else if opcode == 0x87 {
            post == (Cpu { register: spec_add8(pre.register, pre.register.a), ..pre })
        } else if opcode == 0x88 {
            post == (Cpu { register: spec_adc8(pre.register, pre.register.b), ..pre })
        } else if opcode == 0x89 {
            post == (Cpu { register: spec_adc8(pre.register, pre.register.c), ..pre })
        } else if opcode == 0x8a {
            post == (Cpu { register: spec_adc8(pre.register, pre.register.d), ..pre })
        } else if opcode == 0x8b {
            post == (Cpu { register: spec_adc8(pre.register, pre.register.e), ..pre })
        } else if opcode == 0x8c {
            post == (Cpu { register: spec_adc8(pre.register, pre.register.h), ..pre })
        } else if opcode == 0x8d {
            post == (Cpu { register: spec_adc8(pre.register, pre.register.l), ..pre })
        } else if opcode == 0x8e {
            post == (Cpu { register: spec_adc8(pre.register, pre.memory.spec_get8(join16(pre.register.h, pre.register.l))), ..pre })
        } else if opcode == 0x8f {
            post == (Cpu { register: spec_adc8(pre.register, pre.register.a), ..pre })
        } else {
            post == pre
        }
    }

    pub open spec fn ld_effect_9x(pre: Cpu, post: Cpu, opcode: u8) -> bool {
        if opcode == 0x90 {
            post == (Cpu { register: spec_sub8(pre.register, pre.register.b), ..pre })
        } else if opcode == 0x91 {
            post == (Cpu { register: spec_sub8(pre.register, pre.register.c), ..pre })
        } else if opcode == 0x92 {
            post == (Cpu { register: spec_sub8(pre.register, pre.register.d), ..pre })
        } else if opcode == 0x93 {
            post == (Cpu { register: spec_sub8(pre.register, pre.register.e), ..pre })
        } else if opcode == 0x94 {
            post == (Cpu { register: spec_sub8(pre.register, pre.register.h), ..pre })
        } else if opcode == 0x95 {
            post == (Cpu { register: spec_sub8(pre.register, pre.register.l), ..pre })
        } else if opcode == 0x96 {
            post == (Cpu { register: spec_sub8(pre.register, pre.memory.spec_get8(join16(pre.register.h, pre.register.l))), ..pre })
        } else if opcode == 0x97 {
            post == (Cpu { register: spec_sub8(pre.register, pre.register.a), ..pre })
        } else if opcode == 0x98 {
            post == (Cpu { register: spec_sbc8(pre.register, pre.register.b), ..pre })
        } else if opcode == 0x99 {
            post == (Cpu { register: spec_sbc8(pre.register, pre.register.c), ..pre })
        } else if opcode == 0x9a {
            post == (Cpu { register: spec_sbc8(pre.register, pre.register.d), ..pre })
        } else if opcode == 0x9b {
            post == (Cpu { register: spec_sbc8(pre.register, pre.register.e), ..pre })
        } else if opcode == 0x9c {
            post == (Cpu { register: spec_sbc8(pre.register, pre.register.h), ..pre })
        } else if opcode == 0x9d {
            post == (Cpu { register: spec_sbc8(pre.register, pre.register.l), ..pre })
        } else if opcode == 0x9e {
            post == (Cpu { register: spec_sbc8(pre.register, pre.memory.spec_get8(join16(pre.register.h, pre.register.l))), ..pre })
        } else if opcode == 0x9f {
            post == (Cpu { register: spec_sbc8(pre.register, pre.register.a), ..pre })
        } else {
            post == pre
        }
    }

    pub open spec fn ld_effect_ax(pre: Cpu, post: Cpu, opcode: u8) -> bool {
        if opcode == 0xa0 {
            post == (Cpu { register: spec_and8(pre.register, pre.register.b), ..pre })
        } else if opcode == 0xa1 {
            post == (Cpu { register: spec_and8(pre.register, pre.register.c), ..pre })
        } else if opcode == 0xa2 {
            post == (Cpu { register: spec_and8(pre.register, pre.register.d), ..pre })
        } else if opcode == 0xa3 {
            post == (Cpu { register: spec_and8(pre.register, pre.register.e), ..pre })
        } else if opcode == 0xa4 {
            post == (Cpu { register: spec_and8(pre.register, pre.register.h), ..pre })
        } else if opcode == 0xa5 {
            post == (Cpu { register: spec_and8(pre.register, pre.register.l), ..pre })
        } else if opcode == 0xa6 {
            post == (Cpu { register: spec_and8(pre.register, pre.memory.spec_get8(join16(pre.register.h, pre.register.l))), ..pre })
        } else if opcode == 0xa7 {
            post == (Cpu { register: spec_and8(pre.register, pre.register.a), ..pre })
        } else if opcode == 0xa8 {
            post == (Cpu { register: spec_xor8(pre.register, pre.register.b), ..pre })
        } else if opcode == 0xa9 {
            post == (Cpu { register: spec_xor8(pre.register, pre.register.c), ..pre })
        } else if opcode == 0xaa {
            post == (Cpu { register: spec_xor8(pre.register, pre.register.d), ..pre })
        } else if opcode == 0xab {
            post == (Cpu { register: spec_xor8(pre.register, pre.register.e), ..pre })
        } else if opcode == 0xac {
            post == (Cpu { register: spec_xor8(pre.register, pre.register.h), ..pre })
        } else if opcode == 0xad {
            post == (Cpu { register: spec_xor8(pre.register, pre.register.l), ..pre })
        } else if opcode == 0xae {
            post == (Cpu { register: spec_xor8(pre.register, pre.memory.spec_get8(join16(pre.register.h, pre.register.l))), ..pre })
        } else if opcode == 0xaf {
            post == (Cpu { register: spec_xor8(pre.register, pre.register.a), ..pre })
        } else {
            post == pre
        }
    }

    pub open spec fn ld_effect_bx(pre: Cpu, post: Cpu, opcode: u8) -> bool {
        if opcode == 0xb0 {
            post == (Cpu { register: spec_or8(pre.register, pre.register.b), ..pre })
        } else if opcode == 0xb1 {
            post == (Cpu { register: spec_or8(pre.register, pre.register.c), ..pre })
        } else if opcode == 0xb2 {
            post == (Cpu { register: spec_or8(pre.register, pre.register.d), ..pre })
        } else if opcode == 0xb3 {
            post == (Cpu { register: spec_or8(pre.register, pre.register.e), ..pre })
        } else if opcode == 0xb4 {
            post == (Cpu { register: spec_or8(pre.register, pre.register.h), ..pre })
        } else if opcode == 0xb5 {
            post == (Cpu { register: spec_or8(pre.register, pre.register.l), ..pre })
        } else if opcode == 0xb6 {
            post == (Cpu { register: spec_or8(pre.register, pre.memory.spec_get8(join16(pre.register.h, pre.register.l))), ..pre })
        } else if opcode == 0xb7 {
            post == (Cpu { register: spec_or8(pre.register, pre.register.a), ..pre })
        } else if opcode == 0xb8 {
            post == (Cpu { register: spec_cp8(pre.register, pre.register.b), ..pre })
        } else if opcode == 0xb9 {
            post == (Cpu { register: spec_cp8(pre.register, pre.register.c), ..pre })
        } else if opcode == 0xba {
            post == (Cpu { register: spec_cp8(pre.register, pre.register.d), ..pre })
        } else if opcode == 0xbb {
            post == (Cpu { register: spec_cp8(pre.register, pre.register.e), ..pre })
        } else if opcode == 0xbc {
            post == (Cpu { register: spec_cp8(pre.register, pre.register.h), ..pre })
        } else if opcode == 0xbd {
            post == (Cpu { register: spec_cp8(pre.register, pre.register.l), ..pre })
        } else if opcode == 0xbe {
            post == (Cpu { register: spec_cp8(pre.register, pre.memory.spec_get8(join16(pre.register.h, pre.register.l))), ..pre })
        } else if opcode == 0xbf {
            post == (Cpu { register: spec_cp8(pre.register, pre.register.a), ..pre })
        } else {
            post == pre
        }
    }

    pub open spec fn ld_effect_cx(pre: Cpu, post: Cpu, opcode: u8) -> bool {
        if opcode == 0xc1 {
            post == (Cpu { register: Register { b: hi8(pre.memory.spec_get16(pre.register.sp)), c: lo8(pre.memory.spec_get16(pre.register.sp)), sp: wadd16(pre.register.sp, 2), ..pre.register }, ..pre })
        } else if opcode == 0xc2 {
            post == (Cpu { register: Register { pc: if !flag_bit(pre.register.f, Flag::Z) { pre.memory.spec_get16(pre.register.pc) } else { wadd16(pre.register.pc, 2) }, ..pre.register }, ..pre })
        } else if opcode == 0xc3 {
            post == (Cpu { register: Register { pc: pre.memory.spec_get16(pre.register.pc), ..pre.register }, ..pre })
        } else if opcode == 0xc5 {
            {
            &&& Memory::set16_rel(pre.memory, post.memory, wsub16(pre.register.sp, 2), join16(pre.register.b, pre.register.c))
            &&& post == (Cpu { register: Register { sp: wsub16(pre.register.sp, 2), ..pre.register }, memory: post.memory, ..pre })
        }
        } else if opcode == 0xc6 {
            post == (Cpu { register: spec_add8(Register { pc: wadd16(pre.register.pc, 1), ..pre.register }, pre.memory.spec_get8(pre.register.pc)), ..pre })
        } else if opcode == 0xca {
            post == (Cpu { register: Register { pc: if flag_bit(pre.register.f, Flag::Z) { pre.memory.spec_get16(pre.register.pc) } else { wadd16(pre.register.pc, 2) }, ..pre.register }, ..pre })
        } else if opcode == 0xcb {
            Self::cb_effect(Cpu { register: Register { pc: wadd16(pre.register.pc, 1), ..pre.register }, ..pre }, post, pre.memory.spec_get8(pre.register.pc))
        } else if opcode == 0xce {
            post == (Cpu { register: spec_adc8(Register { pc: wadd16(pre.register.pc, 1), ..pre.register }, pre.memory.spec_get8(pre.register.pc)), ..pre })
        } else {
            post == pre
        }
    }

    pub open spec fn ld_effect_dx(pre: Cpu, post: Cpu, opcode: u8) -> bool {
        if opcode == 0xd1 {
            post == (Cpu { register: Register { d: hi8(pre.memory.spec_get16(pre.register.sp)), e: lo8(pre.memory.spec_get16(pre.register.sp)), sp: wadd16(pre.register.sp, 2), ..pre.register }, ..pre })
        } else if opcode == 0xd2 {
            post == (Cpu { register: Register { pc: if !flag_bit(pre.register.f, Flag::C) { pre.memory.spec_get16(pre.register.pc) } else { wadd16(pre.register.pc, 2) }, ..pre.register }, ..pre })
        } else if opcode == 0xd5 {
            {
            &&& Memory::set16_rel(pre.memory, post.memory, wsub16(pre.register.sp, 2), join16(pre.register.d, pre.register.e))
            &&& post == (Cpu { register: Register { sp: wsub16(pre.register.sp, 2), ..pre.register }, memory: post.memory, ..pre })
        }
        } else if opcode == 0xd6 {
            post == (Cpu { register: spec_sub8(Register { pc: wadd16(pre.register.pc, 1), ..pre.register }, pre.memory.spec_get8(pre.register.pc)), ..pre })
        } else if opcode == 0xda {
            post == (Cpu { register: Register { pc: if flag_bit(pre.register.f, Flag::C) { pre.memory.spec_get16(pre.register.pc) } else { wadd16(pre.register.pc, 2) }, ..pre.register }, ..pre })
        } else if opcode == 0xde {
            post == (Cpu { register: spec_sbc8(Register { pc: wadd16(pre.register.pc, 1), ..pre.register }, pre.memory.spec_get8(pre.register.pc)), ..pre })
        } else {
            post == pre
        }
    }

    pub open spec fn ld_effect_ex(pre: Cpu, post: Cpu, opcode: u8) -> bool {
        if opcode == 0xe0 {
            {
            &&& Memory::set8_rel(pre.memory, post.memory, (0xff00 + pre.memory.spec_get8(pre.register.pc)) as u16, pre.register.a)
            &&& post == (Cpu { register: Register { pc: wadd16(pre.register.pc, 1), ..pre.register }, memory: post.memory, ..pre })
        }
        } else if opcode == 0xe1 {
            post == (Cpu { register: Register { h: hi8(pre.memory.spec_get16(pre.register.sp)), l: lo8(pre.memory.spec_get16(pre.register.sp)), sp: wadd16(pre.register.sp, 2), ..pre.register }, ..pre })
        } else if opcode == 0xe2 {
            {
            &&& Memory::set8_rel(pre.memory, post.memory, (0xff00 + pre.register.c) as u16, pre.register.a)
            &&& post == (Cpu { memory: post.memory, ..pre })
        }
        } else if opcode == 0xe5 {
            {
            &&& Memory::set16_rel(pre.memory, post.memory, wsub16(pre.register.sp, 2), join16(pre.register.h, pre.register.l))
            &&& post == (Cpu { register: Register { sp: wsub16(pre.register.sp, 2), ..pre.register }, memory: post.memory, ..pre })
        }
        } else if opcode == 0xe6 {
            post == (Cpu { register: spec_and8(Register { pc: wadd16(pre.register.pc, 1), ..pre.register }, pre.memory.spec_get8(pre.register.pc)), ..pre })
        } else if opcode == 0xe8 {
            {
            let b = sext8(pre.memory.spec_get8(pre.register.pc));
            post == (Cpu { register: Register { sp: wadd16(pre.register.sp, b), f: flags_val(false, false, pre.register.sp % 16 + b % 16 > 15, pre.register.sp % 256 + b % 256 > 255), pc: wadd16(pre.register.pc, 1), ..pre.register }, ..pre })
        }
        } else if opcode == 0xe9 {
            post == (Cpu { register: Register { pc: pre.memory.spec_get16(join16(pre.register.h, pre.register.l)), ..pre.register }, ..pre })
        } else if opcode == 0xea {
            {
            &&& Memory::set8_rel(pre.memory, post.memory, pre.memory.spec_get16(pre.register.pc), pre.register.a)
            &&& post == (Cpu { register: Register { pc: wadd16(pre.register.pc, 2), ..pre.register }, memory: post.memory, ..pre })
        }
        } else if opcode == 0xee {
            post == (Cpu { register: spec_xor8(Register { pc: wadd16(pre.register.pc, 1), ..pre.register }, pre.memory.spec_get8(pre.register.pc)), ..pre })
        } else {
            post == pre
        }
    }

    pub open spec fn ld_effect_fx(pre: Cpu, post: Cpu, opcode: u8) -> bool {
        if opcode == 0xf0 {
            post == (Cpu { register: Register { a: pre.memory.spec_get8((0xff00 + pre.memory.spec_get8(pre.register.pc)) as u16), pc: wadd16(pre.register.pc, 1), ..pre.register }, ..pre })
        } else if opcode == 0xf1 {
            post == (Cpu { register: Register { a: hi8(pre.memory.spec_get16(pre.register.sp)), f: (lo8(pre.memory.spec_get16(pre.register.sp)) / 16 * 16) as u8, sp: wadd16(pre.register.sp, 2), ..pre.register }, ..pre })
        } else if opcode == 0xf2 {
            post == (Cpu { register: Register { a: pre.memory.spec_get8((0xff00 + pre.register.c) as u16), ..pre.register }, ..pre })
        } else if opcode == 0xf3 {
            post == pre
        } else if opcode == 0xf5 {
            {
            &&& Memory::set16_rel(pre.memory, post.memory, wsub16(pre.register.sp, 2), join16(pre.register.a, pre.register.f))
            &&& post == (Cpu { register: Register { sp: wsub16(pre.register.sp, 2), ..pre.register }, memory: post.memory, ..pre })
        }
        } else if opcode == 0xf6 {
            post == (Cpu { register: spec_or8(Register { pc: wadd16(pre.register.pc, 1), ..pre.register }, pre.memory.spec_get8(pre.register.pc)), ..pre })
        } else if opcode == 0xf8 {
            {
            let b = sext8(pre.memory.spec_get8(pre.register.pc));
            let hl2 = wadd16(pre.register.sp, b);
            post == (Cpu { register: Register { h: hi8(hl2), l: lo8(hl2), f: flags_val(false, false, pre.register.sp % 16 + b % 16 > 15, pre.register.sp % 256 + b % 256 > 255), pc: wadd16(pre.register.pc, 1), ..pre.register }, ..pre })
        }
        } else if opcode == 0xf9 {
            post == (Cpu { register: Register { sp: join16(pre.register.h, pre.register.l), ..pre.register }, ..pre })
        } else if opcode == 0xfa {
            post == (Cpu { register: Register { a: pre.memory.spec_get8(pre.memory.spec_get16(pre.register.pc)), pc: wadd16(pre.register.pc, 2), ..pre.register }, ..pre })
        } else if opcode == 0xfb {
            post == pre
        } else if opcode == 0xfe {
            post == (Cpu { register: spec_cp8(Register { pc: wadd16(pre.register.pc, 1), ..pre.register }, pre.memory.spec_get8(pre.register.pc)), ..pre })
        } else {
            post == pre
        }
    }

    /// Relation between the machine before and after executing one
    /// (already fetched) opcode: one clause per instruction, grouped by
    /// the opcode's high nibble. An opcode outside the table is a no-op.
    pub open spec fn ld_effect(pre: Cpu, post: Cpu, opcode: u8) -> bool {
        if opcode < 0x10 {
            Self::ld_effect_0x(pre, post, opcode)
        } else if opcode < 0x20 {
            Self::ld_effect_1x(pre, post, opcode)
        } else if opcode < 0x30 {
            Self::ld_effect_2x(pre, post, opcode)
        } else if opcode < 0x40 {
            Self::ld_effect_3x(pre, post, opcode)
        } else if opcode < 0x50 {
            Self::ld_effect_4x(pre, post, opcode)
        } else if opcode < 0x60 {
            Self::ld_effect_5x(pre, post, opcode)
        } else if opcode < 0x70 {
            Self::ld_effect_6x(pre, post, opcode)
        } else if opcode < 0x80 {
            Self::ld_effect_7x(pre, post, opcode)
        } else if opcode < 0x90 {
            Self::ld_effect_8x(pre, post, opcode)
        } else if opcode < 0xa0 {
            Self::ld_effect_9x(pre, post, opcode)
        } else if opcode < 0xb0 {
            Self::ld_effect_ax(pre, post, opcode)
        } else if opcode < 0xc0 {
            Self::ld_effect_bx(pre, post, opcode)
        } else if opcode < 0xd0 {
            Self::ld_effect_cx(pre, post, opcode)
        } else if opcode < 0xe0 {
            Self::ld_effect_dx(pre, post, opcode)
        } else if opcode < 0xf0 {
            Self::ld_effect_ex(pre, post, opcode)
        } else {
            Self::ld_effect_fx(pre, post, opcode)
        }
    }

    pub open spec fn cb_effect_0(pre: Cpu, post: Cpu, opcode: u8) -> bool {
        if opcode == 0x00 {
            post == (Cpu { register: Register { b: rlc_result(pre.register.b), f: rot_flags(rlc_result(pre.register.b), pre.register.b >= 128), ..pre.register }, ..pre })
        } else if opcode == 0x01 {
            post == (Cpu { register: Register { c: rlc_result(pre.register.c), f: rot_flags(rlc_result(pre.register.c), pre.register.c >= 128), ..pre.register }, ..pre })
        } else if opcode == 0x02 {
            post == (Cpu { register: Register { d: rlc_result(pre.register.d), f: rot_flags(rlc_result(pre.register.d), pre.register.d >= 128), ..pre.register }, ..pre })
        } else if opcode == 0x03 {
            post == (Cpu { register: Register { e: rlc_result(pre.register.e), f: rot_flags(rlc_result(pre.register.e), pre.register.e >= 128), ..pre.register }, ..pre })
        } else if opcode == 0x04 {
            post == (Cpu { register: Register { h: rlc_result(pre.register.h), f: rot_flags(rlc_result(pre.register.h), pre.register.h >= 128), ..pre.register }, ..pre })
        } else if opcode == 0x05 {
            post == (Cpu { register: Register { l: rlc_result(pre.register.l), f: rot_flags(rlc_result(pre.register.l), pre.register.l >= 128), ..pre.register }, ..pre })
        } else if opcode == 0x06 {
            {
            &&& Memory::set8_rel(pre.memory, post.memory, join16(pre.register.h, pre.register.l), rlc_result(pre.memory.spec_get8(join16(pre.register.h, pre.register.l))))
            &&& post == (Cpu { register: Register { f: rot_flags(rlc_result(pre.memory.spec_get8(join16(pre.register.h, pre.register.l))), pre.memory.spec_get8(join16(pre.register.h, pre.register.l)) >= 128), ..pre.register }, memory: post.memory, ..pre })
        }
        } else if opcode == 0x07 {
            post == (Cpu { register: Register { a: rlc_result(pre.register.a), f: rot_flags(rlc_result(pre.register.a), pre.register.a >= 128), ..pre.register }, ..pre })
        } else if opcode == 0x08 {
            post == (Cpu { register: Register { b: rrc_result(pre.register.b), f: rot_flags(rrc_result(pre.register.b), pre.register.b % 2 == 1), ..pre.register }, ..pre })
        } else if opcode == 0x09 {
            post == (Cpu { register: Register { c: rrc_result(pre.register.c), f: rot_flags(rrc_result(pre.register.c), pre.register.c % 2 == 1), ..pre.register }, ..pre })
        } else if opcode == 0x0a {
            post == (Cpu { register: Register { d: rrc_result(pre.register.d), f: rot_flags(rrc_result(pre.register.d), pre.register.d % 2 == 1), ..pre.register }, ..pre })
        } else if opcode == 0x0b {
            post == (Cpu { register: Register { e: rrc_result(pre.register.e), f: rot_flags(rrc_result(pre.register.e), pre.register.e % 2 == 1), ..pre.register }, ..pre })
        } else if opcode == 0x0c {
            post == (Cpu { register: Register { h: rrc_result(pre.register.h), f: rot_flags(rrc_result(pre.register.h), pre.register.h % 2 == 1), ..pre.register }, ..pre })
        } else if opcode == 0x0d {
            post == (Cpu { register: Register { l: rrc_result(pre.register.l), f: rot_flags(rrc_result(pre.register.l), pre.register.l % 2 == 1), ..pre.register }, ..pre })
        } else if opcode == 0x0e {
            {
            &&& Memory::set8_rel(pre.memory, post.memory, join16(pre.register.h, pre.register.l), rrc_result(pre.memory.spec_get8(join16(pre.register.h, pre.register.l))))
            &&& post == (Cpu { register: Register { f: rot_flags(rrc_result(pre.memory.spec_get8(join16(pre.register.h, pre.register.l))), pre.memory.spec_get8(join16(pre.register.h, pre.register.l)) % 2 == 1), ..pre.register }, memory: post.memory, ..pre })
        }
        } else if opcode == 0x0f {
            post == (Cpu { register: Register { a: rrc_result(pre.register.a), f: rot_flags(rrc_result(pre.register.a), pre.register.a % 2 == 1), ..pre.register }, ..pre })
        } else if opcode == 0x10 {
            post == (Cpu { register: Register { b: rl_result(pre.register.b, pre.register.f), f: rot_flags(rl_result(pre.register.b, pre.register.f), pre.register.b >= 128), ..pre.register }, ..pre })
        } else if opcode == 0x11 {
            post == (Cpu { register: Register { c: rl_result(pre.register.c, pre.register.f), f: rot_flags(rl_result(pre.register.c, pre.register.f), pre.register.c >= 128), ..pre.register }, ..pre })
        } else if opcode == 0x12 {
            post == (Cpu { register: Register { d: rl_result(pre.register.d, pre.register.f), f: rot_flags(rl_result(pre.register.d, pre.register.f), pre.register.d >= 128), ..pre.register }, ..pre })
        } else if opcode == 0x13 {
            post == (Cpu { register: Register { e: rl_result(pre.register.e, pre.register.f), f: rot_flags(rl_result(pre.register.e, pre.register.f), pre.register.e >= 128), ..pre.register }, ..pre })
        } else if opcode == 0x14 {
            post == (Cpu { register: Register { h: rl_result(pre.register.h, pre.register.f), f: rot_flags(rl_result(pre.register.h, pre.register.f), pre.register.h >= 128), ..pre.register }, ..pre })
        } else if opcode == 0x15 {
            post == (Cpu { register: Register { l: rl_result(pre.register.l, pre.register.f), f: rot_flags(rl_result(pre.register.l, pre.register.f), pre.register.l >= 128), ..pre.register }, ..pre })
        } else if opcode == 0x16 {
            {
            &&& Memory::set8_rel(pre.memory, post.memory, join16(pre.register.h, pre.register.l), rl_result(pre.memory.spec_get8(join16(pre.register.h, pre.register.l)), pre.register.f))
            &&& post == (Cpu { register: Register { f: rot_flags(rl_result(pre.memory.spec_get8(join16(pre.register.h, pre.register.l)), pre.register.f), pre.memory.spec_get8(join16(pre.register.h, pre.register.l)) >= 128), ..pre.register }, memory: post.memory, ..pre })
        }
        } else if opcode == 0x17 {
            post == (Cpu { register: Register { a: rl_result(pre.register.a, pre.register.f), f: rot_flags(rl_result(pre.register.a, pre.register.f), pre.register.a >= 128), ..pre.register }, ..pre })
        } else if opcode == 0x18 {
            post == (Cpu { register: Register { b: rr_result(pre.register.b, pre.register.f), f: rot_flags(rr_result(pre.register.b, pre.register.f), pre.register.b % 2 == 1), ..pre.register }, ..pre })
        } else if opcode == 0x19 {
            post == (Cpu { register: Register { c: rr_result(pre.register.c, pre.register.f), f: rot_flags(rr_result(pre.register.c, pre.register.f), pre.register.c % 2 == 1), ..pre.register }, ..pre })
        } else if opcode == 0x1a {
            post == (Cpu { register: Register { d: rr_result(pre.register.d, pre.register.f), f: rot_flags(rr_result(pre.register.d, pre.register.f), pre.register.d % 2 == 1), ..pre.register }, ..pre })
        } else if opcode == 0x1b {
            post == (Cpu { register: Register { e: rr_result(pre.register.e, pre.register.f), f: rot_flags(rr_result(pre.register.e, pre.register.f), pre.register.e % 2 == 1), ..pre.register }, ..pre })
        } else if opcode == 0x1c {
            post == (Cpu { register: Register { h: rr_result(pre.register.h, pre.register.f), f: rot_flags(rr_result(pre.register.h, pre.register.f), pre.register.h % 2 == 1), ..pre.register }, ..pre })
        } else if opcode == 0x1d {
            post == (Cpu { register: Register { l: rr_result(pre.register.l, pre.register.f), f: rot_flags(rr_result(pre.register.l, pre.register.f), pre.register.l % 2 == 1), ..pre.register }, ..pre })
        } else if opcode == 0x1e {
            {
            &&& Memory::set8_rel(pre.memory, post.memory, join16(pre.register.h, pre.register.l), rr_result(pre.memory.spec_get8(join16(pre.register.h, pre.register.l)), pre.register.f))
            &&& post == (Cpu { register: Register { f: rot_flags(rr_result(pre.memory.spec_get8(join16(pre.register.h, pre.register.l)), pre.register.f), pre.memory.spec_get8(join16(pre.register.h, pre.register.l)) % 2 == 1), ..pre.register }, memory: post.memory, ..pre })
        }
        } else if opcode == 0x1f {
            post == (Cpu { register: Register { a: rr_result(pre.register.a, pre.register.f), f: rot_flags(rr_result(pre.register.a, pre.register.f), pre.register.a % 2 == 1), ..pre.register }, ..pre })
        } else if opcode == 0x20 {
            post == (Cpu { register: Register { b: sl_result(pre.register.b), f: rot_flags(sl_result(pre.register.b), pre.register.b >= 128), ..pre.register }, ..pre })
        } else if opcode == 0x21 {
            post == (Cpu { register: Register { c: sl_result(pre.register.c), f: rot_flags(sl_result(pre.register.c), pre.register.c >= 128), ..pre.register }, ..pre })
        } else if opcode == 0x22 {
            post == (Cpu { register: Register { d: sl_result(pre.register.d), f: rot_flags(sl_result(pre.register.d), pre.register.d >= 128), ..pre.register }, ..pre })
        } else if opcode == 0x23 {
            post == (Cpu { register: Register { e: sl_result(pre.register.e), f: rot_flags(sl_result(pre.register.e), pre.register.e >= 128), ..pre.register }, ..pre })
        } else if opcode == 0x24 {
            post == (Cpu { register: Register { h: sl_result(pre.register.h), f: rot_flags(sl_result(pre.register.h), pre.register.h >= 128), ..pre.register }, ..pre })
        } else if opcode == 0x25 {
            post == (Cpu { register: Register { l: sl_result(pre.register.l), f: rot_flags(sl_result(pre.register.l), pre.register.l >= 128), ..pre.register }, ..pre })
        } else if opcode == 0x26 {
            {
            &&& Memory::set8_rel(pre.memory, post.memory, join16(pre.register.h, pre.register.l), sl_result(pre.memory.spec_get8(join16(pre.register.h, pre.register.l))))
            &&& post == (Cpu { register: Register { f: rot_flags(sl_result(pre.memory.spec_get8(join16(pre.register.h, pre.register.l))), pre.memory.spec_get8(join16(pre.register.h, pre.register.l)) >= 128), ..pre.register }, memory: post.memory, ..pre })
        }
        } else if opcode == 0x27 {
            post == (Cpu { register: Register { a: sl_result(pre.register.a), f: rot_flags(sl_result(pre.register.a), pre.register.a >= 128), ..pre.register }, ..pre })
        } else if opcode == 0x28 {
            post == (Cpu { register: Register { b: sr_result(pre.register.b), f: rot_flags(sr_result(pre.register.b), pre.register.b % 2 == 1), ..pre.register }, ..pre })
        } else if opcode == 0x29 {
            post == (Cpu { register: Register { c: sr_result(pre.register.c), f: rot_flags(sr_result(pre.register.c), pre.register.c % 2 == 1), ..pre.register }, ..pre })
        } else if opcode == 0x2a {
            post == (Cpu { register: Register { d: sr_result(pre.register.d), f: rot_flags(sr_result(pre.register.d), pre.register.d % 2 == 1), ..pre.register }, ..pre })
        } else if opcode == 0x2b {
            post == (Cpu { register: Register { e: sr_result(pre.register.e), f: rot_flags(sr_result(pre.register.e), pre.register.e % 2 == 1), ..pre.register }, ..pre })
        } else if opcode == 0x2c {
            post == (Cpu { register: Register { h: sr_result(pre.register.h), f: rot_flags(sr_result(pre.register.h), pre.register.h % 2 == 1), ..pre.register }, ..pre })
        } else if opcode == 0x2d {
            post == (Cpu { register: Register { l: sr_result(pre.register.l), f: rot_flags(sr_result(pre.register.l), pre.register.l % 2 == 1), ..pre.register }, ..pre })
        } else if opcode == 0x2e {
            {
            &&& Memory::set8_rel(pre.memory, post.memory, join16(pre.register.h, pre.register.l), sr_result(pre.memory.spec_get8(join16(pre.register.h, pre.register.l))))
            &&& post == (Cpu { register: Register { f: rot_flags(sr_result(pre.memory.spec_get8(join16(pre.register.h, pre.register.l))), pre.memory.spec_get8(join16(pre.register.h, pre.register.l)) % 2 == 1), ..pre.register }, memory: post.memory, ..pre })
        }
        } else if opcode == 0x2f {
            post == (Cpu { register: Register { a: sr_result(pre.register.a), f: rot_flags(sr_result(pre.register.a), pre.register.a % 2 == 1), ..pre.register }, ..pre })
        } else if opcode == 0x30 {
            post == (Cpu { register: Register { b: swap_result(pre.register.b), f: flags_val(pre.register.b == 0, false, false, false), ..pre.register }, ..pre })
        } else if opcode == 0x31 {
            post == (Cpu { register: Register { c: swap_result(pre.register.c), f: flags_val(pre.register.c == 0, false, false, false), ..pre.register }, ..pre })
        } else if opcode == 0x32 {
            post == (Cpu { register: Register { d: swap_result(pre.register.d), f: flags_val(pre.register.d == 0, false, false, false), ..pre.register }, ..pre })
        } else if opcode == 0x33 {
            post == (Cpu { register: Register { e: swap_result(pre.register.e), f: flags_val(pre.register.e == 0, false, false, false), ..pre.register }, ..pre })
        } else if opcode == 0x34 {
            post == (Cpu { register: Register { h: swap_result(pre.register.h), f: flags_val(pre.register.h == 0, false, false, false), ..pre.register }, ..pre })
        } else if opcode == 0x35 {
            post == (Cpu { register: Register { l: swap_result(pre.register.l), f: flags_val(pre.register.l == 0, false, false, false), ..pre.register }, ..pre })
        } else if opcode == 0x36 {
            {
            &&& Memory::set8_rel(pre.memory, post.memory, join16(pre.register.h, pre.register.l), swap_result(pre.memory.spec_get8(join16(pre.register.h, pre.register.l))))
            &&& post == (Cpu { register: Register { f: flags_val(pre.memory.spec_get8(join16(pre.register.h, pre.register.l)) == 0, false, false, false), ..pre.register }, memory: post.memory, ..pre })
        }
        } else if opcode == 0x37 {
            post == (Cpu { register: Register { a: swap_result(pre.register.a), f: flags_val(pre.register.a == 0, false, false, false), ..pre.register }, ..pre })
        } else if opcode == 0x38 {
            post == (Cpu { register: Register { b: srl_result(pre.register.b), f: rot_flags(srl_result(pre.register.b), pre.register.b % 2 == 1), ..pre.register }, ..pre })
        } else if opcode == 0x39 {
            post == (Cpu { register: Register { c: srl_result(pre.register.c), f: rot_flags(srl_result(pre.register.c), pre.register.c % 2 == 1), ..pre.register }, ..pre })
        } else if opcode == 0x3a {
            post == (Cpu { register: Register { d: srl_result(pre.register.d), f: rot_flags(srl_result(pre.register.d), pre.register.d % 2 == 1), ..pre.register }, ..pre })
        } else if opcode == 0x3b {
            post == (Cpu { register: Register { e: srl_result(pre.register.e), f: rot_flags(srl_result(pre.register.e), pre.register.e % 2 == 1), ..pre.register }, ..pre })
        } else if opcode == 0x3c {
            post == (Cpu { register: Register { h: srl_result(pre.register.h), f: rot_flags(srl_result(pre.register.h), pre.register.h % 2 == 1), ..pre.register }, ..pre })
        } else if opcode == 0x3d {
            post == (Cpu { register: Register { l: srl_result(pre.register.l), f: rot_flags(srl_result(pre.register.l), pre.register.l % 2 == 1), ..pre.register }, ..pre })
        } else if opcode == 0x3e {
            {
            &&& Memory::set8_rel(pre.memory, post.memory, join16(pre.register.h, pre.register.l), srl_result(pre.memory.spec_get8(join16(pre.register.h, pre.register.l))))
            &&& post == (Cpu { register: Register { f: rot_flags(srl_result(pre.memory.spec_get8(join16(pre.register.h, pre.register.l))), pre.memory.spec_get8(join16(pre.register.h, pre.register.l)) % 2 == 1), ..pre.register }, memory: post.memory, ..pre })
        }
        } else if opcode == 0x3f {
            post == (Cpu { register: Register { a: srl_result(pre.register.a), f: rot_flags(srl_result(pre.register.a), pre.register.a % 2 == 1), ..pre.register }, ..pre })
        } else {
            post == pre
        }
    }

    pub open spec fn cb_effect_1(pre: Cpu, post: Cpu, opcode: u8) -> bool {
        if opcode == 0x40 {
            post == (Cpu { register: Register { f: bit_flags(pre.register.f, pre.register.b, 0), ..pre.register }, ..pre })
        } else if opcode == 0x41 {
            post == (Cpu { register: Register { f: bit_flags(pre.register.f, pre.register.c, 0), ..pre.register }, ..pre })
        } else if opcode == 0x42 {
            post == (Cpu { register: Register { f: bit_flags(pre.register.f, pre.register.d, 0), ..pre.register }, ..pre })
        } else if opcode == 0x43 {
            post == (Cpu { register: Register { f: bit_flags(pre.register.f, pre.register.e, 0), ..pre.register }, ..pre })
        } else if opcode == 0x44 {
            post == (Cpu { register: Register { f: bit_flags(pre.register.f, pre.register.h, 0), ..pre.register }, ..pre })
        } else if opcode == 0x45 {
            post == (Cpu { register: Register { f: bit_flags(pre.register.f, pre.register.l, 0), ..pre.register }, ..pre })
        } else if opcode == 0x46 {
            post == (Cpu { register: Register { f: bit_flags(pre.register.f, pre.memory.spec_get8(join16(pre.register.h, pre.register.l)), 0), ..pre.register }, ..pre })
        } else if opcode == 0x47 {
            post == (Cpu { register: Register { f: bit_flags(pre.register.f, pre.register.a, 0), ..pre.register }, ..pre })
        } else if opcode == 0x48 {
            post == (Cpu { register: Register { f: bit_flags(pre.register.f, pre.register.b, 1), ..pre.register }, ..pre })
        } else if opcode == 0x49 {
            post == (Cpu { register: Register { f: bit_flags(pre.register.f, pre.register.c, 1), ..pre.register }, ..pre })
        } else if opcode == 0x4a {
            post == (Cpu { register: Register { f: bit_flags(pre.register.f, pre.register.d, 1), ..pre.register }, ..pre })
        } else if opcode == 0x4b {
            post == (Cpu { register: Register { f: bit_flags(pre.register.f, pre.register.e, 1), ..pre.register }, ..pre })
        } else if opcode == 0x4c {
            post == (Cpu { register: Register { f: bit_flags(pre.register.f, pre.register.h, 1), ..pre.register }, ..pre })
        } else if opcode == 0x4d {
            post == (Cpu { register: Register { f: bit_flags(pre.register.f, pre.register.l, 1), ..pre.register }, ..pre })
        } else if opcode == 0x4e {
            post == (Cpu { register: Register { f: bit_flags(pre.register.f, pre.memory.spec_get8(join16(pre.register.h, pre.register.l)), 1), ..pre.register }, ..pre })
        } else if opcode == 0x4f {
            post == (Cpu { register: Register { f: bit_flags(pre.register.f, pre.register.a, 1), ..pre.register }, ..pre })
        } else if opcode == 0x50 {
            post == (Cpu { register: Register { f: bit_flags(pre.register.f, pre.register.b, 2), ..pre.register }, ..pre })
        } else if opcode == 0x51 {
            post == (Cpu { register: Register { f: bit_flags(pre.register.f, pre.register.c, 2), ..pre.register }, ..pre })
        } else if opcode == 0x52 {
            post == (Cpu { register: Register { f: bit_flags(pre.register.f, pre.register.d, 2), ..pre.register }, ..pre })
        } else if opcode == 0x53 {
            post == (Cpu { register: Register { f: bit_flags(pre.register.f, pre.register.e, 2), ..pre.register }, ..pre })
        } else if opcode == 0x54 {
            post == (Cpu { register: Register { f: bit_flags(pre.register.f, pre.register.h, 2), ..pre.register }, ..pre })
        } else if opcode == 0x55 {
            post == (Cpu { register: Register { f: bit_flags(pre.register.f, pre.register.l, 2), ..pre.register }, ..pre })
        } else if opcode == 0x56 {
            post == (Cpu { register: Register { f: bit_flags(pre.register.f, pre.memory.spec_get8(join16(pre.register.h, pre.register.l)), 2), ..pre.register }, ..pre })
        } else if opcode == 0x57 {
            post == (Cpu { register: Register { f: bit_flags(pre.register.f, pre.register.a, 2), ..pre.register }, ..pre })
        } else if opcode == 0x58 {
            post == (Cpu { register: Register { f: bit_flags(pre.register.f, pre.register.b, 3), ..pre.register }, ..pre })
        } else if opcode == 0x59 {
            post == (Cpu { register: Register { f: bit_flags(pre.register.f, pre.register.c, 3), ..pre.register }, ..pre })
        } else if opcode == 0x5a {
            post == (Cpu { register: Register { f: bit_flags(pre.register.f, pre.register.d, 3), ..pre.register }, ..pre })
        } else if opcode == 0x5b {
            post == (Cpu { register: Register { f: bit_flags(pre.register.f, pre.register.e, 3), ..pre.register }, ..pre })
        } else if opcode == 0x5c {
            post == (Cpu { register: Register { f: bit_flags(pre.register.f, pre.register.h, 3), ..pre.register }, ..pre })
        } else if opcode == 0x5d {
            post == (Cpu { register: Register { f: bit_flags(pre.register.f, pre.register.l, 3), ..pre.register }, ..pre })
        } else if opcode == 0x5e {
            post == (Cpu { register: Register { f: bit_flags(pre.register.f, pre.memory.spec_get8(join16(pre.register.h, pre.register.l)), 3), ..pre.register }, ..pre })
        } else if opcode == 0x5f {
            post == (Cpu { register: Register { f: bit_flags(pre.register.f, pre.register.a, 3), ..pre.register }, ..pre })
        } else if opcode == 0x60 {
            post == (Cpu { register: Register { f: bit_flags(pre.register.f, pre.register.b, 4), ..pre.register }, ..pre })
        } else if opcode == 0x61 {
            post == (Cpu { register: Register { f: bit_flags(pre.register.f, pre.register.c, 4), ..pre.register }, ..pre })
        } else if opcode == 0x62 {
            post == (Cpu { register: Register { f: bit_flags(pre.register.f, pre.register.d, 4), ..pre.register }, ..pre })
        } else if opcode == 0x63 {
            post == (Cpu { register: Register { f: bit_flags(pre.register.f, pre.register.e, 4), ..pre.register }, ..pre })
        } else if opcode == 0x64 {
            post == (Cpu { register: Register { f: bit_flags(pre.register.f, pre.register.h, 4), ..pre.register }, ..pre })
        } else if opcode == 0x65 {
            post == (Cpu { register: Register { f: bit_flags(pre.register.f, pre.register.l, 4), ..pre.register }, ..pre })
        } else if opcode == 0x66 {
            post == (Cpu { register: Register { f: bit_flags(pre.register.f, pre.memory.spec_get8(join16(pre.register.h, pre.register.l)), 4), ..pre.register }, ..pre })
        } else if opcode == 0x67 {
            post == (Cpu { register: Register { f: bit_flags(pre.register.f, pre.register.a, 4), ..pre.register }, ..pre })
        } else if opcode == 0x68 {
            post == (Cpu { register: Register { f: bit_flags(pre.register.f, pre.register.b, 5), ..pre.register }, ..pre })
        } else if opcode == 0x69 {
            post == (Cpu { register: Register { f: bit_flags(pre.register.f, pre.register.c, 5), ..pre.register }, ..pre })
        } else if opcode == 0x6a {
            post == (Cpu { register: Register { f: bit_flags(pre.register.f, pre.register.d, 5), ..pre.register }, ..pre })
        } else if opcode == 0x6b {
            post == (Cpu { register: Register { f: bit_flags(pre.register.f, pre.register.e, 5), ..pre.register }, ..pre })
        } else if opcode == 0x6c {
            post == (Cpu { register: Register { f: bit_flags(pre.register.f, pre.register.h, 5), ..pre.register }, ..pre })
        } else if opcode == 0x6d {
            post == (Cpu { register: Register { f: bit_flags(pre.register.f, pre.register.l, 5), ..pre.register }, ..pre })
        } else if opcode == 0x6e {
            post == (Cpu { register: Register { f: bit_flags(pre.register.f, pre.memory.spec_get8(join16(pre.register.h, pre.register.l)), 5), ..pre.register }, ..pre })
        } else if opcode == 0x6f {
            post == (Cpu { register: Register { f: bit_flags(pre.register.f, pre.register.a, 5), ..pre.register }, ..pre })
        } else if opcode == 0x70 {
            post == (Cpu { register: Register { f: bit_flags(pre.register.f, pre.register.b, 6), ..pre.register }, ..pre })
        } else if opcode == 0x71 {
            post == (Cpu { register: Register { f: bit_flags(pre.register.f, pre.register.c, 6), ..pre.register }, ..pre })
        } else if opcode == 0x72 {
            post == (Cpu { register: Register { f: bit_flags(pre.register.f, pre.register.d, 6), ..pre.register }, ..pre })
        } else if opcode == 0x73 {
            post == (Cpu { register: Register { f: bit_flags(pre.register.f, pre.register.e, 6), ..pre.register }, ..pre })
        } else if opcode == 0x74 {
            post == (Cpu { register: Register { f: bit_flags(pre.register.f, pre.register.h, 6), ..pre.register }, ..pre })
        } else if opcode == 0x75 {
            post == (Cpu { register: Register { f: bit_flags(pre.register.f, pre.register.l, 6), ..pre.register }, ..pre })
        } else if opcode == 0x76 {
            post == (Cpu { register: Register { f: bit_flags(pre.register.f, pre.memory.spec_get8(join16(pre.register.h, pre.register.l)), 6), ..pre.register }, ..pre })
        } else if opcode == 0x77 {
            post == (Cpu { register: Register { f: bit_flags(pre.register.f, pre.register.a, 6), ..pre.register }, ..pre })
        } else if opcode == 0x78 {
            post == (Cpu { register: Register { f: bit_flags(pre.register.f, pre.register.b, 7), ..pre.register }, ..pre })
        } else if opcode == 0x79 {
            post == (Cpu { register: Register { f: bit_flags(pre.register.f, pre.register.c, 7), ..pre.register }, ..pre })
        } else if opcode == 0x7a {
            post == (Cpu { register: Register { f: bit_flags(pre.register.f, pre.register.d, 7), ..pre.register }, ..pre })
        } else if opcode == 0x7b {
            post == (Cpu { register: Register { f: bit_flags(pre.register.f, pre.register.e, 7), ..pre.register }, ..pre })
        } else if opcode == 0x7c {
            post == (Cpu { register: Register { f: bit_flags(pre.register.f, pre.register.h, 7), ..pre.register }, ..pre })
        } else if opcode == 0x7d {
            post == (Cpu { register: Register { f: bit_flags(pre.register.f, pre.register.l, 7), ..pre.register }, ..pre })
        } else if opcode == 0x7e {
            post == (Cpu { register: Register { f: bit_flags(pre.register.f, pre.memory.spec_get8(join16(pre.register.h, pre.register.l)), 7), ..pre.register }, ..pre })
        } else if opcode == 0x7f {
            post == (Cpu { register: Register { f: bit_flags(pre.register.f, pre.register.a, 7), ..pre.register }, ..pre })
        } else {
            post == pre
        }
    }

    pub open spec fn cb_effect_2(pre: Cpu, post: Cpu, opcode: u8) -> bool {
        if opcode == 0x80 {
            post == (Cpu { register: Register { b: res_bit_result(pre.register.b, 0), ..pre.register }, ..pre })
        } else if opcode == 0x81 {
            post == (Cpu { register: Register { c: res_bit_result(pre.register.c, 0), ..pre.register }, ..pre })
        } else if opcode == 0x82 {
            post == (Cpu { register: Register { d: res_bit_result(pre.register.d, 0), ..pre.register }, ..pre })
        } else if opcode == 0x83 {
            post == (Cpu { register: Register { e: res_bit_result(pre.register.e, 0), ..pre.register }, ..pre })
        } else if opcode == 0x84 {
            post == (Cpu { register: Register { h: res_bit_result(pre.register.h, 0), ..pre.register }, ..pre })
        } else if opcode == 0x85 {
            post == (Cpu { register: Register { l: res_bit_result(pre.register.l, 0), ..pre.register }, ..pre })
        } else if opcode == 0x86 {
            {
            &&& Memory::set8_rel(pre.memory, post.memory, join16(pre.register.h, pre.register.l), res_bit_result(pre.memory.spec_get8(join16(pre.register.h, pre.register.l)), 0))
            &&& post == (Cpu { memory: post.memory, ..pre })
        }
        } else if opcode == 0x87 {
            post == (Cpu { register: Register { a: res_bit_result(pre.register.a, 0), ..pre.register }, ..pre })
        } else if opcode == 0x88 {
            post == (Cpu { register: Register { b: res_bit_result(pre.register.b, 1), ..pre.register }, ..pre })
        } else if opcode == 0x89 {
            post == (Cpu { register: Register { c: res_bit_result(pre.register.c, 1), ..pre.register }, ..pre })
        } else if opcode == 0x8a {
            post == (Cpu { register: Register { d: res_bit_result(pre.register.d, 1), ..pre.register }, ..pre })
        } else if opcode == 0x8b {
            post == (Cpu { register: Register { e: res_bit_result(pre.register.e, 1), ..pre.register }, ..pre })
        } else if opcode == 0x8c {
            post == (Cpu { register: Register { h: res_bit_result(pre.register.h, 1), ..pre.register }, ..pre })
        } else if opcode == 0x8d {
            post == (Cpu { register: Register { l: res_bit_result(pre.register.l, 1), ..pre.register }, ..pre })
        } else if opcode == 0x8e {
            {
            &&& Memory::set8_rel(pre.memory, post.memory, join16(pre.register.h, pre.register.l), res_bit_result(pre.memory.spec_get8(join16(pre.register.h, pre.register.l)), 1))
            &&& post == (Cpu { memory: post.memory, ..pre })
        }
        } else if opcode == 0x8f {
            post == (Cpu { register: Register { a: res_bit_result(pre.register.a, 1), ..pre.register }, ..pre })
        } else if opcode == 0x90 {
            post == (Cpu { register: Register { b: res_bit_result(pre.register.b, 2), ..pre.register }, ..pre })
        } else if opcode == 0x91 {
            post == (Cpu { register: Register { c: res_bit_result(pre.register.c, 2), ..pre.register }, ..pre })
        } else if opcode == 0x92 {
            post == (Cpu { register: Register { d: res_bit_result(pre.register.d, 2), ..pre.register }, ..pre })
        } else if opcode == 0x93 {
            post == (Cpu { register: Register { e: res_bit_result(pre.register.e, 2), ..pre.register }, ..pre })
        } else if opcode == 0x94 {
            post == (Cpu { register: Register { h: res_bit_result(pre.register.h, 2), ..pre.register }, ..pre })
        } else if opcode == 0x95 {
            post == (Cpu { register: Register { l: res_bit_result(pre.register.l, 2), ..pre.register }, ..pre })
        } else if opcode == 0x96 {
            {
            &&& Memory::set8_rel(pre.memory, post.memory, join16(pre.register.h, pre.register.l), res_bit_result(pre.memory.spec_get8(join16(pre.register.h, pre.register.l)), 2))
            &&& post == (Cpu { memory: post.memory, ..pre })
        }
        } else if opcode == 0x97 {
            post == (Cpu { register: Register { a: res_bit_result(pre.register.a, 2), ..pre.register }, ..pre })
        } else if opcode == 0x98 {
            post == (Cpu { register: Register { b: res_bit_result(pre.register.b, 3), ..pre.register }, ..pre })
        } else if opcode == 0x99 {
            post == (Cpu { register: Register { c: res_bit_result(pre.register.c, 3), ..pre.register }, ..pre })
        } else if opcode == 0x9a {
            post == (Cpu { register: Register { d: res_bit_result(pre.register.d, 3), ..pre.register }, ..pre })
        } else if opcode == 0x9b {
            post == (Cpu { register: Register { e: res_bit_result(pre.register.e, 3), ..pre.register }, ..pre })
        } else if opcode == 0x9c {
            post == (Cpu { register: Register { h: res_bit_result(pre.register.h, 3), ..pre.register }, ..pre })
        } else if opcode == 0x9d {
            post == (Cpu { register: Register { l: res_bit_result(pre.register.l, 3), ..pre.register }, ..pre })
        } else if opcode == 0x9e {
            {
            &&& Memory::set8_rel(pre.memory, post.memory, join16(pre.register.h, pre.register.l), res_bit_result(pre.memory.spec_get8(join16(pre.register.h, pre.register.l)), 3))
            &&& post == (Cpu { memory: post.memory, ..pre })
        }
        } else if opcode == 0x9f {
            post == (Cpu { register: Register { a: res_bit_result(pre.register.a, 3), ..pre.register }, ..pre })
        } else if opcode == 0xa0 {
            post == (Cpu { register: Register { b: res_bit_result(pre.register.b, 4), ..pre.register }, ..pre })
        } else if opcode == 0xa1 {
            post == (Cpu { register: Register { c: res_bit_result(pre.register.c, 4), ..pre.register }, ..pre })
        } else if opcode == 0xa2 {
            post == (Cpu { register: Register { d: res_bit_result(pre.register.d, 4), ..pre.register }, ..pre })
        } else if opcode == 0xa3 {
            post == (Cpu { register: Register { e: res_bit_result(pre.register.e, 4), ..pre.register }, ..pre })
        } else if opcode == 0xa4 {
            post == (Cpu { register: Register { h: res_bit_result(pre.register.h, 4), ..pre.register }, ..pre })
        } else if opcode == 0xa5 {
            post == (Cpu { register: Register { l: res_bit_result(pre.register.l, 4), ..pre.register }, ..pre })
        } else if opcode == 0xa6 {
            {
            &&& Memory::set8_rel(pre.memory, post.memory, join16(pre.register.h, pre.register.l), res_bit_result(pre.memory.spec_get8(join16(pre.register.h, pre.register.l)), 4))
            &&& post == (Cpu { memory: post.memory, ..pre })
        }
        } else if opcode == 0xa7 {
            post == (Cpu { register: Register { a: res_bit_result(pre.register.a, 4), ..pre.register }, ..pre })
        } else if opcode == 0xa8 {
            post == (Cpu { register: Register { b: res_bit_result(pre.register.b, 5), ..pre.register }, ..pre })
        } else if opcode == 0xa9 {
            post == (Cpu { register: Register { c: res_bit_result(pre.register.c, 5), ..pre.register }, ..pre })
        } else if opcode == 0xaa {
            post == (Cpu { register: Register { d: res_bit_result(pre.register.d, 5), ..pre.register }, ..pre })
        } else if opcode == 0xab {
            post == (Cpu { register: Register { e: res_bit_result(pre.register.e, 5), ..pre.register }, ..pre })
        } else if opcode == 0xac {
            post == (Cpu { register: Register { h: res_bit_result(pre.register.h, 5), ..pre.register }, ..pre })
        } else if opcode == 0xad {
            post == (Cpu { register: Register { l: res_bit_result(pre.register.l, 5), ..pre.register }, ..pre })
        } else if opcode == 0xae {
            {
            &&& Memory::set8_rel(pre.memory, post.memory, join16(pre.register.h, pre.register.l), res_bit_result(pre.memory.spec_get8(join16(pre.register.h, pre.register.l)), 5))
            &&& post == (Cpu { memory: post.memory, ..pre })
        }
        } else if opcode == 0xaf {
            post == (Cpu { register: Register { a: res_bit_result(pre.register.a, 5), ..pre.register }, ..pre })
        } else if opcode == 0xb0 {
            post == (Cpu { register: Register { b: res_bit_result(pre.register.b, 6), ..pre.register }, ..pre })
        } else if opcode == 0xb1 {
            post == (Cpu { register: Register { c: res_bit_result(pre.register.c, 6), ..pre.register }, ..pre })
        } else if opcode == 0xb2 {
            post == (Cpu { register: Register { d: res_bit_result(pre.register.d, 6), ..pre.register }, ..pre })
        } else if opcode == 0xb3 {
            post == (Cpu { register: Register { e: res_bit_result(pre.register.e, 6), ..pre.register }, ..pre })
        } else if opcode == 0xb4 {
            post == (Cpu { register: Register { h: res_bit_result(pre.register.h, 6), ..pre.register }, ..pre })
        } else if opcode == 0xb5 {
            post == (Cpu { register: Register { l: res_bit_result(pre.register.l, 6), ..pre.register }, ..pre })
        } else if opcode == 0xb6 {
            {
            &&& Memory::set8_rel(pre.memory, post.memory, join16(pre.register.h, pre.register.l), res_bit_result(pre.memory.spec_get8(join16(pre.register.h, pre.register.l)), 6))
            &&& post == (Cpu { memory: post.memory, ..pre })
        }
        } else if opcode == 0xb7 {
            post == (Cpu { register: Register { a: res_bit_result(pre.register.a, 6), ..pre.register }, ..pre })
        } else if opcode == 0xb8 {
            post == (Cpu { register: Register { b: res_bit_result(pre.register.b, 7), ..pre.register }, ..pre })
        } else if opcode == 0xb9 {
            post == (Cpu { register: Register { c: res_bit_result(pre.register.c, 7), ..pre.register }, ..pre })
        } else if opcode == 0xba {
            post == (Cpu { register: Register { d: res_bit_result(pre.register.d, 7), ..pre.register }, ..pre })
        } else if opcode == 0xbb {
            post == (Cpu { register: Register { e: res_bit_result(pre.register.e, 7), ..pre.register }, ..pre })
        } else if opcode == 0xbc {
            post == (Cpu { register: Register { h: res_bit_result(pre.register.h, 7), ..pre.register }, ..pre })
        } else if opcode == 0xbd {
            post == (Cpu { register: Register { l: res_bit_result(pre.register.l, 7), ..pre.register }, ..pre })
        } else if opcode == 0xbe {
            {
            &&& Memory::set8_rel(pre.memory, post.memory, join16(pre.register.h, pre.register.l), res_bit_result(pre.memory.spec_get8(join16(pre.register.h, pre.register.l)), 7))
            &&& post == (Cpu { memory: post.memory, ..pre })
        }
        } else if opcode == 0xbf {
            post == (Cpu { register: Register { a: res_bit_result(pre.register.a, 7), ..pre.register }, ..pre })
        } else {
            post == pre
        }
    }

    pub open spec fn cb_effect_3(pre: Cpu, post: Cpu, opcode: u8) -> bool {
        if opcode == 0xc0 {
            post == (Cpu { register: Register { b: set_bit_result(pre.register.b, 0), ..pre.register }, ..pre })
        } else if opcode == 0xc1 {
            post == (Cpu { register: Register { c: set_bit_result(pre.register.c, 0), ..pre.register }, ..pre })
        } else if opcode == 0xc2 {
            post == (Cpu { register: Register { d: set_bit_result(pre.register.d, 0), ..pre.register }, ..pre })
        } else if opcode == 0xc3 {
            post == (Cpu { register: Register { e: set_bit_result(pre.register.e, 0), ..pre.register }, ..pre })
        } else if opcode == 0xc4 {
            post == (Cpu { register: Register { h: set_bit_result(pre.register.h, 0), ..pre.register }, ..pre })
        } else if opcode == 0xc5 {
            post == (Cpu { register: Register { l: set_bit_result(pre.register.l, 0), ..pre.register }, ..pre })
        } else if opcode == 0xc6 {
            {
            &&& Memory::set8_rel(pre.memory, post.memory, join16(pre.register.h, pre.register.l), set_bit_result(pre.memory.spec_get8(join16(pre.register.h, pre.register.l)), 0))
            &&& post == (Cpu { memory: post.memory, ..pre })
        }
        } else if opcode == 0xc7 {
            post == (Cpu { register: Register { a: set_bit_result(pre.register.a, 0), ..pre.register }, ..pre })
        } else if opcode == 0xc8 {
            post == (Cpu { register: Register { b: set_bit_result(pre.register.b, 1), ..pre.register }, ..pre })
        } else if opcode == 0xc9 {
            post == (Cpu { register: Register { c: set_bit_result(pre.register.c, 1), ..pre.register }, ..pre })
        } else if opcode == 0xca {
            post == (Cpu { register: Register { d: set_bit_result(pre.register.d, 1), ..pre.register }, ..pre })
        } else if opcode == 0xcb {
            post == (Cpu { register: Register { e: set_bit_result(pre.register.e, 1), ..pre.register }, ..pre })
        } else if opcode == 0xcc {
            post == (Cpu { register: Register { h: set_bit_result(pre.register.h, 1), ..pre.register }, ..pre })
        } else if opcode == 0xcd {
            post == (Cpu { register: Register { l: set_bit_result(pre.register.l, 1), ..pre.register }, ..pre })
        } else if opcode == 0xce {
            {
            &&& Memory::set8_rel(pre.memory, post.memory, join16(pre.register.h, pre.register.l), set_bit_result(pre.memory.spec_get8(join16(pre.register.h, pre.register.l)), 1))
            &&& post == (Cpu { memory: post.memory, ..pre })
        }
        } else if opcode == 0xcf {
            post == (Cpu { register: Register { a: set_bit_result(pre.register.a, 1), ..pre.register }, ..pre })
        } else if opcode == 0xd0 {
            post == (Cpu { register: Register { b: set_bit_result(pre.register.b, 2), ..pre.register }, ..pre })
        } else if opcode == 0xd1 {
            post == (Cpu { register: Register { c: set_bit_result(pre.register.c, 2), ..pre.register }, ..pre })
        } else if opcode == 0xd2 {
            post == (Cpu { register: Register { d: set_bit_result(pre.register.d, 2), ..pre.register }, ..pre })
        } else if opcode == 0xd3 {
            post == (Cpu { register: Register { e: set_bit_result(pre.register.e, 2), ..pre.register }, ..pre })
        } else if opcode == 0xd4 {
            post == (Cpu { register: Register { h: set_bit_result(pre.register.h, 2), ..pre.register }, ..pre })
        } else if opcode == 0xd5 {
            post == (Cpu { register: Register { l: set_bit_result(pre.register.l, 2), ..pre.register }, ..pre })
        } else if opcode == 0xd6 {
            {
            &&& Memory::set8_rel(pre.memory, post.memory, join16(pre.register.h, pre.register.l), set_bit_result(pre.memory.spec_get8(join16(pre.register.h, pre.register.l)), 2))
            &&& post == (Cpu { memory: post.memory, ..pre })
        }
        } else if opcode == 0xd7 {
            post == (Cpu { register: Register { a: set_bit_result(pre.register.a, 2), ..pre.register }, ..pre })
        } else if opcode == 0xd8 {
            post == (Cpu { register: Register { b: set_bit_result(pre.register.b, 3), ..pre.register }, ..pre })
        } else if opcode == 0xd9 {
            post == (Cpu { register: Register { c: set_bit_result(pre.register.c, 3), ..pre.register }, ..pre })
        } else if opcode == 0xda {
            post == (Cpu { register: Register { d: set_bit_result(pre.register.d, 3), ..pre.register }, ..pre })
        } else if opcode == 0xdb {
            post == (Cpu { register: Register { e: set_bit_result(pre.register.e, 3), ..pre.register }, ..pre })
        } else if opcode == 0xdc {
            post == (Cpu { register: Register { h: set_bit_result(pre.register.h, 3), ..pre.register }, ..pre })
        } else if opcode == 0xdd {
            post == (Cpu { register: Register { l: set_bit_result(pre.register.l, 3), ..pre.register }, ..pre })
        } else if opcode == 0xde {
            {
            &&& Memory::set8_rel(pre.memory, post.memory, join16(pre.register.h, pre.register.l), set_bit_result(pre.memory.spec_get8(join16(pre.register.h, pre.register.l)), 3))
            &&& post == (Cpu { memory: post.memory, ..pre })
        }
        } else if opcode == 0xdf {
            post == (Cpu { register: Register { a: set_bit_result(pre.register.a, 3), ..pre.register }, ..pre })
        } else if opcode == 0xe0 {
            post == (Cpu { register: Register { b: set_bit_result(pre.register.b, 4), ..pre.register }, ..pre })
        } else if opcode == 0xe1 {
            post == (Cpu { register: Register { c: set_bit_result(pre.register.c, 4), ..pre.register }, ..pre })
        } else if opcode == 0xe2 {
            post == (Cpu { register: Register { d: set_bit_result(pre.register.d, 4), ..pre.register }, ..pre })
        } else if opcode == 0xe3 {
            post == (Cpu { register: Register { e: set_bit_result(pre.register.e, 4), ..pre.register }, ..pre })
        } else if opcode == 0xe4 {
            post == (Cpu { register: Register { h: set_bit_result(pre.register.h, 4), ..pre.register }, ..pre })
        } else if opcode == 0xe5 {
            post == (Cpu { register: Register { l: set_bit_result(pre.register.l, 4), ..pre.register }, ..pre })
        } else if opcode == 0xe6 {
            {
            &&& Memory::set8_rel(pre.memory, post.memory, join16(pre.register.h, pre.register.l), set_bit_result(pre.memory.spec_get8(join16(pre.register.h, pre.register.l)), 4))
            &&& post == (Cpu { memory: post.memory, ..pre })
        }
        } else if opcode == 0xe7 {
            post == (Cpu { register: Register { a: set_bit_result(pre.register.a, 4), ..pre.register }, ..pre })
        } else if opcode == 0xe8 {
            post == (Cpu { register: Register { b: set_bit_result(pre.register.b, 5), ..pre.register }, ..pre })
        } else if opcode == 0xe9 {
            post == (Cpu { register: Register { c: set_bit_result(pre.register.c, 5), ..pre.register }, ..pre })
        } else if opcode == 0xea {
            post == (Cpu { register: Register { d: set_bit_result(pre.register.d, 5), ..pre.register }, ..pre })
        } else if opcode == 0xeb {
            post == (Cpu { register: Register { e: set_bit_result(pre.register.e, 5), ..pre.register }, ..pre })
        } else if opcode == 0xec {
            post == (Cpu { register: Register { h: set_bit_result(pre.register.h, 5), ..pre.register }, ..pre })
        } else if opcode == 0xed {
            post == (Cpu { register: Register { l: set_bit_result(pre.register.l, 5), ..pre.register }, ..pre })
        } else if opcode == 0xee {
            {
            &&& Memory::set8_rel(pre.memory, post.memory, join16(pre.register.h, pre.register.l), set_bit_result(pre.memory.spec_get8(join16(pre.register.h, pre.register.l)), 5))
            &&& post == (Cpu { memory: post.memory, ..pre })
        }
        } else if opcode == 0xef {
            post == (Cpu { register: Register { a: set_bit_result(pre.register.a, 5), ..pre.register }, ..pre })
        } else if opcode == 0xf0 {
            post == (Cpu { register: Register { b: set_bit_result(pre.register.b, 6), ..pre.register }, ..pre })
        } else if opcode == 0xf1 {
            post == (Cpu { register: Register { c: set_bit_result(pre.register.c, 6), ..pre.register }, ..pre })
        } else if opcode == 0xf2 {
            post == (Cpu { register: Register { d: set_bit_result(pre.register.d, 6), ..pre.register }, ..pre })
        } else if opcode == 0xf3 {
            post == (Cpu { register: Register { e: set_bit_result(pre.register.e, 6), ..pre.register }, ..pre })
        } else if opcode == 0xf4 {
            post == (Cpu { register: Register { h: set_bit_result(pre.register.h, 6), ..pre.register }, ..pre })
        } else if opcode == 0xf5 {
            post == (Cpu { register: Register { l: set_bit_result(pre.register.l, 6), ..pre.register }, ..pre })
        } else if opcode == 0xf6 {
            {
            &&& Memory::set8_rel(pre.memory, post.memory, join16(pre.register.h, pre.register.l), set_bit_result(pre.memory.spec_get8(join16(pre.register.h, pre.register.l)), 6))
            &&& post == (Cpu { memory: post.memory, ..pre })
        }
        } else if opcode == 0xf7 {
            post == (Cpu { register: Register { a: set_bit_result(pre.register.a, 6), ..pre.register }, ..pre })
        } else if opcode == 0xf8 {
            post == (Cpu { register: Register { b: set_bit_result(pre.register.b, 7), ..pre.register }, ..pre })
        } else if opcode == 0xf9 {
            post == (Cpu { register: Register { c: set_bit_result(pre.register.c, 7), ..pre.register }, ..pre })
        } else if opcode == 0xfa {
            post == (Cpu { register: Register { d: set_bit_result(pre.register.d, 7), ..pre.register }, ..pre })
        } else if opcode == 0xfb {
            post == (Cpu { register: Register { e: set_bit_result(pre.register.e, 7), ..pre.register }, ..pre })
        } else if opcode == 0xfc {
            post == (Cpu { register: Register { h: set_bit_result(pre.register.h, 7), ..pre.register }, ..pre })
        } else if opcode == 0xfd {
            post == (Cpu { register: Register { l: set_bit_result(pre.register.l, 7), ..pre.register }, ..pre })
        } else if opcode == 0xfe {
            {
            &&& Memory::set8_rel(pre.memory, post.memory, join16(pre.register.h, pre.register.l), set_bit_result(pre.memory.spec_get8(join16(pre.register.h, pre.register.l)), 7))
            &&& post == (Cpu { memory: post.memory, ..pre })
        }
        } else if opcode == 0xff {
            post == (Cpu { register: Register { a: set_bit_result(pre.register.a, 7), ..pre.register }, ..pre })
        } else {
            post == pre
        }
    }

    /// Relation for the CB-prefixed family: rotates, shifts and the
    /// nibble swap below 0x40, then BIT, RES and SET in 64-opcode bands.
    pub open spec fn cb_effect(pre: Cpu, post: Cpu, opcode2: u8) -> bool {
        if opcode2 < 0x40 {
            Self::cb_effect_0(pre, post, opcode2)
        } else if opcode2 < 0x80 {
            Self::cb_effect_1(pre, post, opcode2)
        } else if opcode2 < 0xc0 {
            Self::cb_effect_2(pre, post, opcode2)
        } else {
            Self::cb_effect_3(pre, post, opcode2)
        }
    }

    /// Executes one CB-prefixed opcode (the prefix and the opcode byte
    /// already fetched).
    #[verifier::rlimit(100)]
    #[allow(unreachable_patterns)]
    pub fn ld_cb(&mut self, opcode2: u8)
        requires
            old(self).wf(),
        ensures
            final(self).wf(),
            Self::cb_effect(*old(self), *final(self), opcode2),
    {
        match opcode2 {
            0x00 => { let v = self.register.get_b(); let r = self.rlc(v); self.register.set_b(r); },
            0x01 => { let v = self.register.get_c(); let r = self.rlc(v); self.register.set_c(r); },
            0x02 => { let v = self.register.get_d(); let r = self.rlc(v); self.register.set_d(r); },
            0x03 => { let v = self.register.get_e(); let r = self.rlc(v); self.register.set_e(r); },
            0x04 => { let v = self.register.get_h(); let r = self.rlc(v); self.register.set_h(r); },
            0x05 => { let v = self.register.get_l(); let r = self.rlc(v); self.register.set_l(r); },
            0x06 => { let a = self.register.get_hl(); let v = self.memory.get8(a); let r = self.rlc(v); self.memory.set8(a, r); },
            0x07 => { let v = self.register.get_a(); let r = self.rlc(v); self.register.set_a(r); },
            0x08 => { let v = self.register.get_b(); let r = self.rrc(v); self.register.set_b(r); },
            0x09 => { let v = self.register.get_c(); let r = self.rrc(v); self.register.set_c(r); },
            0x0a => { let v = self.register.get_d(); let r = self.rrc(v); self.register.set_d(r); },
            0x0b => { let v = self.register.get_e(); let r = self.rrc(v); self.register.set_e(r); },
            0x0c => { let v = self.register.get_h(); let r = self.rrc(v); self.register.set_h(r); },
            0x0d => { let v = self.register.get_l(); let r = self.rrc(v); self.register.set_l(r); },
            0x0e => { let a = self.register.get_hl(); let v = self.memory.get8(a); let r = self.rrc(v); self.memory.set8(a, r); },
            0x0f => { let v = self.register.get_a(); let r = self.rrc(v); self.register.set_a(r); },
            0x10 => { let v = self.register.get_b(); let r = self.rl(v); self.register.set_b(r); },
            0x11 => { let v = self.register.get_c(); let r = self.rl(v); self.register.set_c(r); },
            0x12 => { let v = self.register.get_d(); let r = self.rl(v); self.register.set_d(r); },
            0x13 => { let v = self.register.get_e(); let r = self.rl(v); self.register.set_e(r); },
            0x14 => { let v = self.register.get_h(); let r = self.rl(v); self.register.set_h(r); },
            0x15 => { let v = self.register.get_l(); let r = self.rl(v); self.register.set_l(r); },
            0x16 => { let a = self.register.get_hl(); let v = self.memory.get8(a); let r = self.rl(v); self.memory.set8(a, r); },
            0x17 => { let v = self.register.get_a(); let r = self.rl(v); self.register.set_a(r); },
            0x18 => { let v = self.register.get_b(); let r = self.rr(v); self.register.set_b(r); },
            0x19 => { let v = self.register.get_c(); let r = self.rr(v); self.register.set_c(r); },
            0x1a => { let v = self.register.get_d(); let r = self.rr(v); self.register.set_d(r); },
            0x1b => { let v = self.register.get_e(); let r = self.rr(v); self.register.set_e(r); },
            0x1c => { let v = self.register.get_h(); let r = self.rr(v); self.register.set_h(r); },
            0x1d => { let v = self.register.get_l(); let r = self.rr(v); self.register.set_l(r); },
            0x1e => { let a = self.register.get_hl(); let v = self.memory.get8(a); let r = self.rr(v); self.memory.set8(a, r); },
            0x1f => { let v = self.register.get_a(); let r = self.rr(v); self.register.set_a(r); },
            0x20 => { let v = self.register.get_b(); let r = self.sl(v); self.register.set_b(r); },
            0x21 => { let v = self.register.get_c(); let r = self.sl(v); self.register.set_c(r); },
            0x22 => { let v = self.register.get_d(); let r = self.sl(v); self.register.set_d(r); },
            0x23 => { let v = self.register.get_e(); let r = self.sl(v); self.register.set_e(r); },
            0x24 => { let v = self.register.get_h(); let r = self.sl(v); self.register.set_h(r); },
            0x25 => { let v = self.register.get_l(); let r = self.sl(v); self.register.set_l(r); },
            0x26 => { let a = self.register.get_hl(); let v = self.memory.get8(a); let r = self.sl(v); self.memory.set8(a, r); },
            0x27 => { let v = self.register.get_a(); let r = self.sl(v); self.register.set_a(r); },
            0x28 => { let v = self.register.get_b(); let r = self.sr(v); self.register.set_b(r); },
            0x29 => { let v = self.register.get_c(); let r = self.sr(v); self.register.set_c(r); },
            0x2a => { let v = self.register.get_d(); let r = self.sr(v); self.register.set_d(r); },
            0x2b => { let v = self.register.get_e(); let r = self.sr(v); self.register.set_e(r); },
            0x2c => { let v = self.register.get_h(); let r = self.sr(v); self.register.set_h(r); },
            0x2d => { let v = self.register.get_l(); let r = self.sr(v); self.register.set_l(r); },
            0x2e => { let a = self.register.get_hl(); let v = self.memory.get8(a); let r = self.sr(v); self.memory.set8(a, r); },
            0x2f => { let v = self.register.get_a(); let r = self.sr(v); self.register.set_a(r); },
            0x30 => { let v = self.register.get_b(); let r = self.swap(v); self.register.set_b(r); },
            0x31 => { let v = self.register.get_c(); let r = self.swap(v); self.register.set_c(r); },
            0x32 => { let v = self.register.get_d(); let r = self.swap(v); self.register.set_d(r); },
            0x33 => { let v = self.register.get_e(); let r = self.swap(v); self.register.set_e(r); },
            0x34 => { let v = self.register.get_h(); let r = self.swap(v); self.register.set_h(r); },
            0x35 => { let v = self.register.get_l(); let r = self.swap(v); self.register.set_l(r); },
            0x36 => { let a = self.register.get_hl(); let v = self.memory.get8(a); let r = self.swap(v); self.memory.set8(a, r); },
            0x37 => { let v = self.register.get_a(); let r = self.swap(v); self.register.set_a(r); },
            0x38 => { let v = self.register.get_b(); let r = self.srl(v); self.register.set_b(r); },
            0x39 => { let v = self.register.get_c(); let r = self.srl(v); self.register.set_c(r); },
            0x3a => { let v = self.register.get_d(); let r = self.srl(v); self.register.set_d(r); },
            0x3b => { let v = self.register.get_e(); let r = self.srl(v); self.register.set_e(r); },
            0x3c => { let v = self.register.get_h(); let r = self.srl(v); self.register.set_h(r); },
            0x3d => { let v = self.register.get_l(); let r = self.srl(v); self.register.set_l(r); },
            0x3e => { let a = self.register.get_hl(); let v = self.memory.get8(a); let r = self.srl(v); self.memory.set8(a, r); },
            0x3f => { let v = self.register.get_a(); let r = self.srl(v); self.register.set_a(r); },
            0x40 => { let v = self.register.get_b(); self.bit(v, 0); },
            0x41 => { let v = self.register.get_c(); self.bit(v, 0); },
            0x42 => { let v = self.register.get_d(); self.bit(v, 0); },
            0x43 => { let v = self.register.get_e(); self.bit(v, 0); },
            0x44 => { let v = self.register.get_h(); self.bit(v, 0); },
            0x45 => { let v = self.register.get_l(); self.bit(v, 0); },
            0x46 => { let a = self.register.get_hl(); let v = self.memory.get8(a); self.bit(v, 0); },
            0x47 => { let v = self.register.get_a(); self.bit(v, 0); },
            0x48 => { let v = self.register.get_b(); self.bit(v, 1); },
            0x49 => { let v = self.register.get_c(); self.bit(v, 1); },
            0x4a => { let v = self.register.get_d(); self.bit(v, 1); },
            0x4b => { let v = self.register.get_e(); self.bit(v, 1); },
            0x4c => { let v = self.register.get_h(); self.bit(v, 1); },
            0x4d => { let v = self.register.get_l(); self.bit(v, 1); },
            0x4e => { let a = self.register.get_hl(); let v = self.memory.get8(a); self.bit(v, 1); },
            0x4f => { let v = self.register.get_a(); self.bit(v, 1); },
            0x50 => { let v = self.register.get_b(); self.bit(v, 2); },
            0x51 => { let v = self.register.get_c(); self.bit(v, 2); },
            0x52 => { let v = self.register.get_d(); self.bit(v, 2); },
            0x53 => { let v = self.register.get_e(); self.bit(v, 2); },
            0x54 => { let v = self.register.get_h(); self.bit(v, 2); },
            0x55 => { let v = self.register.get_l(); self.bit(v, 2); },
            0x56 => { let a = self.register.get_hl(); let v = self.memory.get8(a); self.bit(v, 2); },
            0x57 => { let v = self.register.get_a(); self.bit(v, 2); },
            0x58 => { let v = self.register.get_b(); self.bit(v, 3); },
            0x59 => { let v = self.register.get_c(); self.bit(v, 3); },
            0x5a => { let v = self.register.get_d(); self.bit(v, 3); },
            0x5b => { let v = self.register.get_e(); self.bit(v, 3); },
            0x5c => { let v = self.register.get_h(); self.bit(v, 3); },
            0x5d => { let v = self.register.get_l(); self.bit(v, 3); },
            0x5e => { let a = self.register.get_hl(); let v = self.memory.get8(a); self.bit(v, 3); },
            0x5f => { let v = self.register.get_a(); self.bit(v, 3); },
            0x60 => { let v = self.register.get_b(); self.bit(v, 4); },
            0x61 => { let v = self.register.get_c(); self.bit(v, 4); },
            0x62 => { let v = self.register.get_d(); self.bit(v, 4); },
            0x63 => { let v = self.register.get_e(); self.bit(v, 4); },
            0x64 => { let v = self.register.get_h(); self.bit(v, 4); },
            0x65 => { let v = self.register.get_l(); self.bit(v, 4); },
            0x66 => { let a = self.register.get_hl(); let v = self.memory.get8(a); self.bit(v, 4); },
            0x67 => { let v = self.register.get_a(); self.bit(v, 4); },
            0x68 => { let v = self.register.get_b(); self.bit(v, 5); },
            0x69 => { let v = self.register.get_c(); self.bit(v, 5); },
            0x6a => { let v = self.register.get_d(); self.bit(v, 5); },
            0x6b => { let v = self.register.get_e(); self.bit(v, 5); },
            0x6c => { let v = self.register.get_h(); self.bit(v, 5); },
            0x6d => { let v = self.register.get_l(); self.bit(v, 5); },
            0x6e => { let a = self.register.get_hl(); let v = self.memory.get8(a); self.bit(v, 5); },
            0x6f => { let v = self.register.get_a(); self.bit(v, 5); },
            0x70 => { let v = self.register.get_b(); self.bit(v, 6); },
            0x71 => { let v = self.register.get_c(); self.bit(v, 6); },
            0x72 => { let v = self.register.get_d(); self.bit(v, 6); },
            0x73 => { let v = self.register.get_e(); self.bit(v, 6); },
            0x74 => { let v = self.register.get_h(); self.bit(v, 6); },
            0x75 => { let v = self.register.get_l(); self.bit(v, 6); },
            0x76 => { let a = self.register.get_hl(); let v = self.memory.get8(a); self.bit(v, 6); },
            0x77 => { let v = self.register.get_a(); self.bit(v, 6); },
            0x78 => { let v = self.register.get_b(); self.bit(v, 7); },
            0x79 => { let v = self.register.get_c(); self.bit(v, 7); },
            0x7a => { let v = self.register.get_d(); self.bit(v, 7); },
            0x7b => { let v = self.register.get_e(); self.bit(v, 7); },
            0x7c => { let v = self.register.get_h(); self.bit(v, 7); },
            0x7d => { let v = self.register.get_l(); self.bit(v, 7); },
            0x7e => { let a = self.register.get_hl(); let v = self.memory.get8(a); self.bit(v, 7); },
            0x7f => { let v = self.register.get_a(); self.bit(v, 7); },
            0x80 => { let v = self.register.get_b(); let r = self.reset(v, 0); self.register.set_b(r); },
            0x81 => { let v = self.register.get_c(); let r = self.reset(v, 0); self.register.set_c(r); },
            0x82 => { let v = self.register.get_d(); let r = self.reset(v, 0); self.register.set_d(r); },
            0x83 => { let v = self.register.get_e(); let r = self.reset(v, 0); self.register.set_e(r); },
            0x84 => { let v = self.register.get_h(); let r = self.reset(v, 0); self.register.set_h(r); },
            0x85 => { let v = self.register.get_l(); let r = self.reset(v, 0); self.register.set_l(r); },
            0x86 => { let a = self.register.get_hl(); let v = self.memory.get8(a); let r = self.reset(v, 0); self.memory.set8(a, r); },
            0x87 => { let v = self.register.get_a(); let r = self.reset(v, 0); self.register.set_a(r); },
            0x88 => { let v = self.register.get_b(); let r = self.reset(v, 1); self.register.set_b(r); },
            0x89 => { let v = self.register.get_c(); let r = self.reset(v, 1); self.register.set_c(r); },
            0x8a => { let v = self.register.get_d(); let r = self.reset(v, 1); self.register.set_d(r); },
            0x8b => { let v = self.register.get_e(); let r = self.reset(v, 1); self.register.set_e(r); },
            0x8c => { let v = self.register.get_h(); let r = self.reset(v, 1); self.register.set_h(r); },
            0x8d => { let v = self.register.get_l(); let r = self.reset(v, 1); self.register.set_l(r); },
            0x8e => { let a = self.register.get_hl(); let v = self.memory.get8(a); let r = self.reset(v, 1); self.memory.set8(a, r); },
            0x8f => { let v = self.register.get_a(); let r = self.reset(v, 1); self.register.set_a(r); },
            0x90 => { let v = self.register.get_b(); let r = self.reset(v, 2); self.register.set_b(r); },
            0x91 => { let v = self.register.get_c(); let r = self.reset(v, 2); self.register.set_c(r); },
            0x92 => { let v = self.register.get_d(); let r = self.reset(v, 2); self.register.set_d(r); },
            0x93 => { let v = self.register.get_e(); let r = self.reset(v, 2); self.register.set_e(r); },
            0x94 => { let v = self.register.get_h(); let r = self.reset(v, 2); self.register.set_h(r); },
            0x95 => { let v = self.register.get_l(); let r = self.reset(v, 2); self.register.set_l(r); },
            0x96 => { let a = self.register.get_hl(); let v = self.memory.get8(a); let r = self.reset(v, 2); self.memory.set8(a, r); },
            0x97 => { let v = self.register.get_a(); let r = self.reset(v, 2); self.register.set_a(r); },
            0x98 => { let v = self.register.get_b(); let r = self.reset(v, 3); self.register.set_b(r); },
            0x99 => { let v = self.register.get_c(); let r = self.reset(v, 3); self.register.set_c(r); },
            0x9a => { let v = self.register.get_d(); let r = self.reset(v, 3); self.register.set_d(r); },
            0x9b => { let v = self.register.get_e(); let r = self.reset(v, 3); self.register.set_e(r); },
            0x9c => { let v = self.register.get_h(); let r = self.reset(v, 3); self.register.set_h(r); },
            0x9d => { let v = self.register.get_l(); let r = self.reset(v, 3); self.register.set_l(r); },
            0x9e => { let a = self.register.get_hl(); let v = self.memory.get8(a); let r = self.reset(v, 3); self.memory.set8(a, r); },
            0x9f => { let v = self.register.get_a(); let r = self.reset(v, 3); self.register.set_a(r); },
            0xa0 => { let v = self.register.get_b(); let r = self.reset(v, 4); self.register.set_b(r); },
            0xa1 => { let v = self.register.get_c(); let r = self.reset(v, 4); self.register.set_c(r); },
            0xa2 => { let v = self.register.get_d(); let r = self.reset(v, 4); self.register.set_d(r); },
            0xa3 => { let v = self.register.get_e(); let r = self.reset(v, 4); self.register.set_e(r); },
            0xa4 => { let v = self.register.get_h(); let r = self.reset(v, 4); self.register.set_h(r); },
            0xa5 => { let v = self.register.get_l(); let r = self.reset(v, 4); self.register.set_l(r); },
            0xa6 => { let a = self.register.get_hl(); let v = self.memory.get8(a); let r = self.reset(v, 4); self.memory.set8(a, r); },
            0xa7 => { let v = self.register.get_a(); let r = self.reset(v, 4); self.register.set_a(r); },
            0xa8 => { let v = self.register.get_b(); let r = self.reset(v, 5); self.register.set_b(r); },
            0xa9 => { let v = self.register.get_c(); let r = self.reset(v, 5); self.register.set_c(r); },
            0xaa => { let v = self.register.get_d(); let r = self.reset(v, 5); self.register.set_d(r); },
            0xab => { let v = self.register.get_e(); let r = self.reset(v, 5); self.register.set_e(r); },
            0xac => { let v = self.register.get_h(); let r = self.reset(v, 5); self.register.set_h(r); },
            0xad => { let v = self.register.get_l(); let r = self.reset(v, 5); self.register.set_l(r); },
            0xae => { let a = self.register.get_hl(); let v = self.memory.get8(a); let r = self.reset(v, 5); self.memory.set8(a, r); },
            0xaf => { let v = self.register.get_a(); let r = self.reset(v, 5); self.register.set_a(r); },
            0xb0 => { let v = self.register.get_b(); let r = self.reset(v, 6); self.register.set_b(r); },
            0xb1 => { let v = self.register.get_c(); let r = self.reset(v, 6); self.register.set_c(r); },
            0xb2 => { let v = self.register.get_d(); let r = self.reset(v, 6); self.register.set_d(r); },
            0xb3 => { let v = self.register.get_e(); let r = self.reset(v, 6); self.register.set_e(r); },
            0xb4 => { let v = self.register.get_h(); let r = self.reset(v, 6); self.register.set_h(r); },
            0xb5 => { let v = self.register.get_l(); let r = self.reset(v, 6); self.register.set_l(r); },
            0xb6 => { let a = self.register.get_hl(); let v = self.memory.get8(a); let r = self.reset(v, 6); self.memory.set8(a, r); },
            0xb7 => { let v = self.register.get_a(); let r = self.reset(v, 6); self.register.set_a(r); },
            0xb8 => { let v = self.register.get_b(); let r = self.reset(v, 7); self.register.set_b(r); },
            0xb9 => { let v = self.register.get_c(); let r = self.reset(v, 7); self.register.set_c(r); },
            0xba => { let v = self.register.get_d(); let r = self.reset(v, 7); self.register.set_d(r); },
            0xbb => { let v = self.register.get_e(); let r = self.reset(v, 7); self.register.set_e(r); },
            0xbc => { let v = self.register.get_h(); let r = self.reset(v, 7); self.register.set_h(r); },
            0xbd => { let v = self.register.get_l(); let r = self.reset(v, 7); self.register.set_l(r); },
            0xbe => { let a = self.register.get_hl(); let v = self.memory.get8(a); let r = self.reset(v, 7); self.memory.set8(a, r); },
            0xbf => { let v = self.register.get_a(); let r = self.reset(v, 7); self.register.set_a(r); },
            0xc0 => { let v = self.register.get_b(); let r = self.set(v, 0); self.register.set_b(r); },
            0xc1 => { let v = self.register.get_c(); let r = self.set(v, 0); self.register.set_c(r); },
            0xc2 => { let v = self.register.get_d(); let r = self.set(v, 0); self.register.set_d(r); },
            0xc3 => { let v = self.register.get_e(); let r = self.set(v, 0); self.register.set_e(r); },
            0xc4 => { let v = self.register.get_h(); let r = self.set(v, 0); self.register.set_h(r); },
            0xc5 => { let v = self.register.get_l(); let r = self.set(v, 0); self.register.set_l(r); },
            0xc6 => { let a = self.register.get_hl(); let v = self.memory.get8(a); let r = self.set(v, 0); self.memory.set8(a, r); },
            0xc7 => { let v = self.register.get_a(); let r = self.set(v, 0); self.register.set_a(r); },
            0xc8 => { let v = self.register.get_b(); let r = self.set(v, 1); self.register.set_b(r); },
            0xc9 => { let v = self.register.get_c(); let r = self.set(v, 1); self.register.set_c(r); },
            0xca => { let v = self.register.get_d(); let r = self.set(v, 1); self.register.set_d(r); },
            0xcb => { let v = self.register.get_e(); let r = self.set(v, 1); self.register.set_e(r); },
            0xcc => { let v = self.register.get_h(); let r = self.set(v, 1); self.register.set_h(r); },
            0xcd => { let v = self.register.get_l(); let r = self.set(v, 1); self.register.set_l(r); },
            0xce => { let a = self.register.get_hl(); let v = self.memory.get8(a); let r = self.set(v, 1); self.memory.set8(a, r); },
            0xcf => { let v = self.register.get_a(); let r = self.set(v, 1); self.register.set_a(r); },
            0xd0 => { let v = self.register.get_b(); let r = self.set(v, 2); self.register.set_b(r); },
            0xd1 => { let v = self.register.get_c(); let r = self.set(v, 2); self.register.set_c(r); },
            0xd2 => { let v = self.register.get_d(); let r = self.set(v, 2); self.register.set_d(r); },
            0xd3 => { let v = self.register.get_e(); let r = self.set(v, 2); self.register.set_e(r); },
            0xd4 => { let v = self.register.get_h(); let r = self.set(v, 2); self.register.set_h(r); },
            0xd5 => { let v = self.register.get_l(); let r = self.set(v, 2); self.register.set_l(r); },
            0xd6 => { let a = self.register.get_hl(); let v = self.memory.get8(a); let r = self.set(v, 2); self.memory.set8(a, r); },
            0xd7 => { let v = self.register.get_a(); let r = self.set(v, 2); self.register.set_a(r); },
            0xd8 => { let v = self.register.get_b(); let r = self.set(v, 3); self.register.set_b(r); },
            0xd9 => { let v = self.register.get_c(); let r = self.set(v, 3); self.register.set_c(r); },
            0xda => { let v = self.register.get_d(); let r = self.set(v, 3); self.register.set_d(r); },
            0xdb => { let v = self.register.get_e(); let r = self.set(v, 3); self.register.set_e(r); },
            0xdc => { let v = self.register.get_h(); let r = self.set(v, 3); self.register.set_h(r); },
            0xdd => { let v = self.register.get_l(); let r = self.set(v, 3); self.register.set_l(r); },
            0xde => { let a = self.register.get_hl(); let v = self.memory.get8(a); let r = self.set(v, 3); self.memory.set8(a, r); },
            0xdf => { let v = self.register.get_a(); let r = self.set(v, 3); self.register.set_a(r); },
            0xe0 => { let v = self.register.get_b(); let r = self.set(v, 4); self.register.set_b(r); },
            0xe1 => { let v = self.register.get_c(); let r = self.set(v, 4); self.register.set_c(r); },
            0xe2 => { let v = self.register.get_d(); let r = self.set(v, 4); self.register.set_d(r); },
            0xe3 => { let v = self.register.get_e(); let r = self.set(v, 4); self.register.set_e(r); },
            0xe4 => { let v = self.register.get_h(); let r = self.set(v, 4); self.register.set_h(r); },
            0xe5 => { let v = self.register.get_l(); let r = self.set(v, 4); self.register.set_l(r); },
            0xe6 => { let a = self.register.get_hl(); let v = self.memory.get8(a); let r = self.set(v, 4); self.memory.set8(a, r); },
            0xe7 => { let v = self.register.get_a(); let r = self.set(v, 4); self.register.set_a(r); },
            0xe8 => { let v = self.register.get_b(); let r = self.set(v, 5); self.register.set_b(r); },
            0xe9 => { let v = self.register.get_c(); let r = self.set(v, 5); self.register.set_c(r); },
            0xea => { let v = self.register.get_d(); let r = self.set(v, 5); self.register.set_d(r); },
            0xeb => { let v = self.register.get_e(); let r = self.set(v, 5); self.register.set_e(r); },
            0xec => { let v = self.register.get_h(); let r = self.set(v, 5); self.register.set_h(r); },
            0xed => { let v = self.register.get_l(); let r = self.set(v, 5); self.register.set_l(r); },
            0xee => { let a = self.register.get_hl(); let v = self.memory.get8(a); let r = self.set(v, 5); self.memory.set8(a, r); },
            0xef => { let v = self.register.get_a(); let r = self.set(v, 5); self.register.set_a(r); },
            0xf0 => { let v = self.register.get_b(); let r = self.set(v, 6); self.register.set_b(r); },
            0xf1 => { let v = self.register.get_c(); let r = self.set(v, 6); self.register.set_c(r); },
            0xf2 => { let v = self.register.get_d(); let r = self.set(v, 6); self.register.set_d(r); },
            0xf3 => { let v = self.register.get_e(); let r = self.set(v, 6); self.register.set_e(r); },
            0xf4 => { let v = self.register.get_h(); let r = self.set(v, 6); self.register.set_h(r); },
            0xf5 => { let v = self.register.get_l(); let r = self.set(v, 6); self.register.set_l(r); },
            0xf6 => { let a = self.register.get_hl(); let v = self.memory.get8(a); let r = self.set(v, 6); self.memory.set8(a, r); },
            0xf7 => { let v = self.register.get_a(); let r = self.set(v, 6); self.register.set_a(r); },
            0xf8 => { let v = self.register.get_b(); let r = self.set(v, 7); self.register.set_b(r); },
            0xf9 => { let v = self.register.get_c(); let r = self.set(v, 7); self.register.set_c(r); },
            0xfa => { let v = self.register.get_d(); let r = self.set(v, 7); self.register.set_d(r); },
            0xfb => { let v = self.register.get_e(); let r = self.set(v, 7); self.register.set_e(r); },
            0xfc => { let v = self.register.get_h(); let r = self.set(v, 7); self.register.set_h(r); },
            0xfd => { let v = self.register.get_l(); let r = self.set(v, 7); self.register.set_l(r); },
            0xfe => { let a = self.register.get_hl(); let v = self.memory.get8(a); let r = self.set(v, 7); self.memory.set8(a, r); },
            0xff => { let v = self.register.get_a(); let r = self.set(v, 7); self.register.set_a(r); },
            _ => (),
        }
    }

    fn ld_0x(&mut self, opcode: u8)
        requires
            old(self).wf(),
            opcode < 0x10,
        ensures
            final(self).wf(),
            Self::ld_effect_0x(*old(self), *final(self), opcode),
    {
        match opcode {
            0x00 => (),
            0x01 => { let n = self.imm16(); self.register.set_bc(n); },
            0x02 => { let a = self.register.get_bc(); let v = self.register.get_a(); self.memory.set8(a, v); },
            0x03 => { let v = crate::num::wrapping_add16(self.register.get_bc(), 1); self.register.set_bc(v); },
            0x04 => self.inc8(0x04),
            0x05 => self.dec8(0x05),
            0x06 => { let n = self.imm8(); self.register.set_b(n); },
            0x07 => { let a = self.register.get_a(); let res = a % 128 * 2 + a / 128; self.register.set_flags(false, false, false, a >= 128); self.register.set_a(res); },
            0x08 => { let n = self.imm16(); let sp = self.register.get_sp(); self.memory.set16(n, sp); },
            0x09 => { let v = self.register.get_bc(); self.add16(v); },
            0x0a => { let a = self.register.get_bc(); let v = self.memory.get8(a); self.register.set_a(v); },
            0x0b => { let v = crate::num::wrapping_sub16(self.register.get_bc(), 1); self.register.set_bc(v); },
            0x0c => self.inc8(0x0c),
            0x0d => self.dec8(0x0d),
            0x0e => { let n = self.imm8(); self.register.set_c(n); },
            0x0f => { let a = self.register.get_a(); let cin: u8 = if self.register.get_flag(Flag::C) { 1 } else { 0 }; let res = a % 128 * 2 + cin; self.register.set_flags(false, false, false, a >= 128); self.register.set_a(res); },
            _ => (),
        }
    }

    fn ld_1x(&mut self, opcode: u8)
        requires
            old(self).wf(),
            0x10 <= opcode < 0x20,
        ensures
            final(self).wf(),
            Self::ld_effect_1x(*old(self), *final(self), opcode),
    {
        match opcode {
            0x10 => (),
            0x11 => { let n = self.imm16(); self.register.set_de(n); },
            0x12 => { let a = self.register.get_de(); let v = self.register.get_a(); self.memory.set8(a, v); },
            0x13 => { let v = crate::num::wrapping_add16(self.register.get_de(), 1); self.register.set_de(v); },
            0x14 => self.inc8(0x14),
            0x15 => self.dec8(0x15),
            0x16 => { let n = self.imm8(); self.register.set_d(n); },
            0x17 => { let a = self.register.get_a(); let res = a / 2 + a % 2 * 128; self.register.set_flags(false, false, false, a % 2 == 1); self.register.set_a(res); },
            0x18 => self.jump_relative(),
            0x19 => { let v = self.register.get_de(); self.add16(v); },
            0x1a => { let a = self.register.get_de(); let v = self.memory.get8(a); self.register.set_a(v); },
            0x1b => { let v = crate::num::wrapping_sub16(self.register.get_de(), 1); self.register.set_de(v); },
            0x1c => self.inc8(0x1c),
            0x1d => self.dec8(0x1d),
            0x1e => { let n = self.imm8(); self.register.set_e(n); },
            0x1f => { let a = self.register.get_a(); let cin: u8 = if self.register.get_flag(Flag::C) { 128 } else { 0 }; let res = a / 2 + cin; self.register.set_flags(false, false, false, a % 2 == 1); self.register.set_a(res); },
            _ => (),
        }
    }

    fn ld_2x(&mut self, opcode: u8)
        requires
            old(self).wf(),
            0x20 <= opcode < 0x30,
        ensures
            final(self).wf(),
            Self::ld_effect_2x(*old(self), *final(self), opcode),
    {
        match opcode {
            0x20 => self.jump_relative_ncondition(Flag::Z),
            0x21 => { let n = self.imm16(); self.register.set_hl(n); },
            0x22 => { let t = self.register.get_hl(); let v = self.register.get_a(); self.memory.set8(t, v); let t2 = crate::num::wrapping_add16(t, 1); self.register.set_hl(t2); },
            0x23 => { let v = crate::num::wrapping_add16(self.register.get_hl(), 1); self.register.set_hl(v); },
            0x24 => self.inc8(0x24),
            0x25 => self.dec8(0x25),
            0x26 => { let n = self.imm8(); self.register.set_h(n); },
            0x27 => self.daa(),
            0x28 => self.jump_relative_condition(Flag::Z),
            0x29 => { let v = self.register.get_hl(); self.add16(v); },
            0x2a => { let t = self.register.get_hl(); let v = self.memory.get8(t); self.register.set_a(v); let t2 = crate::num::wrapping_add16(t, 1); self.register.set_hl(t2); },
            0x2b => { let v = crate::num::wrapping_sub16(self.register.get_hl(), 1); self.register.set_hl(v); },
            0x2c => self.inc8(0x2c),
            0x2d => self.dec8(0x2d),
            0x2e => { let n = self.imm8(); self.register.set_l(n); },
            0x2f => { let a = self.register.get_a(); self.register.set_a(a ^ 0xff); },
            _ => (),
        }
    }

    fn ld_3x(&mut self, opcode: u8)
        requires
            old(self).wf(),
            0x30 <= opcode < 0x40,
        ensures
            final(self).wf(),
            Self::ld_effect_3x(*old(self), *final(self), opcode),
    {
        match opcode {
            0x30 => self.jump_relative_ncondition(Flag::C),
            0x31 => { let n = self.imm16(); self.register.set_sp(n); },
            0x32 => { let t = self.register.get_hl(); let v = self.register.get_a(); self.memory.set8(t, v); let t2 = crate::num::wrapping_sub16(t, 1); self.register.set_hl(t2); },
            0x33 => { let v = crate::num::wrapping_add16(self.register.get_sp(), 1); self.register.set_sp(v); },
            0x34 => self.inc8(0x34),
            0x35 => self.dec8(0x35),
            0x36 => { let n = self.imm8(); let a = self.register.get_hl(); self.memory.set8(a, n); },
            0x37 => { let z = self.register.get_flag(Flag::Z); self.register.set_flags(z, false, false, true); },
            0x38 => self.jump_relative_condition(Flag::C),
            0x39 => { let v = self.register.get_sp(); self.add16(v); },
            0x3a => { let t = self.register.get_hl(); let v = self.memory.get8(t); self.register.set_a(v); let t2 = crate::num::wrapping_sub16(t, 1); self.register.set_hl(t2); },
            0x3b => { let v = crate::num::wrapping_sub16(self.register.get_sp(), 1); self.register.set_sp(v); },
            0x3c => self.inc8(0x3c),
            0x3d => self.dec8(0x3d),
            0x3e => { let n = self.imm8(); self.register.set_a(n); },
            0x3f => { let z = self.register.get_flag(Flag::Z); let c = self.register.get_flag(Flag::C); self.register.set_flags(z, false, false, !c); },
            _ => (),
        }
    }

    fn ld_4x(&mut self, opcode: u8)
        requires
            old(self).wf(),
            0x40 <= opcode < 0x50,
        ensures
            final(self).wf(),
            Self::ld_effect_4x(*old(self), *final(self), opcode),
    {
        match opcode {
            0x40 => { let v = self.register.get_b(); self.register.set_b(v); },
            0x41 => { let v = self.register.get_c(); self.register.set_b(v); },
            0x42 => { let v = self.register.get_d(); self.register.set_b(v); },
            0x43 => { let v = self.register.get_e(); self.register.set_b(v); },
            0x44 => { let v = self.register.get_h(); self.register.set_b(v); },
            0x45 => { let v = self.register.get_l(); self.register.set_b(v); },
            0x46 => { let a = self.register.get_hl(); let v = self.memory.get8(a); self.register.set_b(v); },
            0x47 => { let v = self.register.get_a(); self.register.set_b(v); },
            0x48 => { let v = self.register.get_b(); self.register.set_c(v); },
            0x49 => { let v = self.register.get_c(); self.register.set_c(v); },
            0x4a => { let v = self.register.get_d(); self.register.set_c(v); },
            0x4b => { let v = self.register.get_e(); self.register.set_c(v); },
            0x4c => { let v = self.register.get_h(); self.register.set_c(v); },
            0x4d => { let v = self.register.get_l(); self.register.set_c(v); },
            0x4e => { let a = self.register.get_hl(); let v = self.memory.get8(a); self.register.set_c(v); },
            0x4f => { let v = self.register.get_a(); self.register.set_c(v); },
            _ => (),
        }
    }

    fn ld_5x(&mut self, opcode: u8)
        requires
            old(self).wf(),
            0x50 <= opcode < 0x60,
        ensures
            final(self).wf(),
            Self::ld_effect_5x(*old(self), *final(self), opcode),
    {
        match opcode {
            0x50 => { let v = self.register.get_b(); self.register.set_d(v); },
            0x51 => { let v = self.register.get_c(); self.register.set_d(v); },
            0x52 => { let v = self.register.get_d(); self.register.set_d(v); },
            0x53 => { let v = self.register.get_e(); self.register.set_d(v); },
            0x54 => { let v = self.register.get_h(); self.register.set_d(v); },
            0x55 => { let v = self.register.get_l(); self.register.set_d(v); },
            0x56 => { let a = self.register.get_hl(); let v = self.memory.get8(a); self.register.set_d(v); },
            0x57 => { let v = self.register.get_a(); self.register.set_d(v); },
            0x58 => { let v = self.register.get_b(); self.register.set_e(v); },
            0x59 => { let v = self.register.get_c(); self.register.set_e(v); },
            0x5a => { let v = self.register.get_d(); self.register.set_e(v); },
            0x5b => { let v = self.register.get_e(); self.register.set_e(v); },
            0x5c => { let v = self.register.get_h(); self.register.set_e(v); },
            0x5d => { let v = self.register.get_l(); self.register.set_e(v); },
            0x5e => { let a = self.register.get_hl(); let v = self.memory.get8(a); self.register.set_e(v); },
            0x5f => { let v = self.register.get_a(); self.register.set_e(v); },
            _ => (),
        }
    }

    fn ld_6x(&mut self, opcode: u8)
        requires
            old(self).wf(),
            0x60 <= opcode < 0x70,
        ensures
            final(self).wf(),
            Self::ld_effect_6x(*old(self), *final(self), opcode),
    {
        match opcode {
            0x60 => { let v = self.register.get_b(); self.register.set_h(v); },
            0x61 => { let v = self.register.get_c(); self.register.set_h(v); },
            0x62 => { let v = self.register.get_d(); self.register.set_h(v); },
            0x63 => { let v = self.register.get_e(); self.register.set_h(v); },
            0x64 => { let v = self.register.get_h(); self.register.set_h(v); },
            0x65 => { let v = self.register.get_l(); self.register.set_h(v); },
            0x66 => { let a = self.register.get_hl(); let v = self.memory.get8(a); self.register.set_h(v); },
            0x67 => { let v = self.register.get_a(); self.register.set_h(v); },
            0x68 => { let v = self.register.get_b(); self.register.set_l(v); },
            0x69 => { let v = self.register.get_c(); self.register.set_l(v); },
            0x6a => { let v = self.register.get_d(); self.register.set_l(v); },
            0x6b => { let v = self.register.get_e(); self.register.set_l(v); },
            0x6c => { let v = self.register.get_h(); self.register.set_l(v); },
            0x6d => { let v = self.register.get_l(); self.register.set_l(v); },
            0x6e => { let a = self.register.get_hl(); let v = self.memory.get8(a); self.register.set_l(v); },
            0x6f => { let v = self.register.get_a(); self.register.set_l(v); },
            _ => (),
        }
    }

    fn ld_7x(&mut self, opcode: u8)
        requires
            old(self).wf(),
            0x70 <= opcode < 0x80,
        ensures
            final(self).wf(),
            Self::ld_effect_7x(*old(self), *final(self), opcode),
    {
        match opcode {
            0x70 => { let a = self.register.get_hl(); let v = self.register.get_b(); self.memory.set8(a, v); },
            0x71 => { let a = self.register.get_hl(); let v = self.register.get_c(); self.memory.set8(a, v); },
            0x72 => { let a = self.register.get_hl(); let v = self.register.get_d(); self.memory.set8(a, v); },
            0x73 => { let a = self.register.get_hl(); let v = self.register.get_e(); self.memory.set8(a, v); },
            0x74 => { let a = self.register.get_hl(); let v = self.register.get_h(); self.memory.set8(a, v); },
            0x75 => { let a = self.register.get_hl(); let v = self.register.get_l(); self.memory.set8(a, v); },
            0x76 => (),
            0x77 => { let a = self.register.get_hl(); let v = self.register.get_a(); self.memory.set8(a, v); },
            0x78 => { let v = self.register.get_b(); self.register.set_a(v); },
            0x79 => { let v = self.register.get_c(); self.register.set_a(v); },
            0x7a => { let v = self.register.get_d(); self.register.set_a(v); },
            0x7b => { let v = self.register.get_e(); self.register.set_a(v); },
            0x7c => { let v = self.register.get_h(); self.register.set_a(v); },
            0x7d => { let v = self.register.get_l(); self.register.set_a(v); },
            0x7e => { let a = self.register.get_hl(); let v = self.memory.get8(a); self.register.set_a(v); },
            0x7f => { let v = self.register.get_a(); self.register.set_a(v); },
            _ => (),
        }
    }

    fn ld_8x(&mut self, opcode: u8)
        requires
            old(self).wf(),
            0x80 <= opcode < 0x90,
        ensures
            final(self).wf(),
            Self::ld_effect_8x(*old(self), *final(self), opcode),
    {
        match opcode {
            0x80 => { let v = self.register.get_b(); self.add8(v); },
            0x81 => { let v = self.register.get_c(); self.add8(v); },
            0x82 => { let v = self.register.get_d(); self.add8(v); },
            0x83 => { let v = self.register.get_e(); self.add8(v); },
            0x84 => { let v = self.register.get_h(); self.add8(v); },
            0x85 => { let v = self.register.get_l(); self.add8(v); },
            0x86 => { let a = self.register.get_hl(); let v = self.memory.get8(a); self.add8(v); },
            0x87 => { let v = self.register.get_a(); self.add8(v); },
            0x88 => { let v = self.register.get_b(); self.adc8(v); },
            0x89 => { let v = self.register.get_c(); self.adc8(v); },
            0x8a => { let v = self.register.get_d(); self.adc8(v); },
            0x8b => { let v = self.register.get_e(); self.adc8(v); },
            0x8c => { let v = self.register.get_h(); self.adc8(v); },
            0x8d => { let v = self.register.get_l(); self.adc8(v); },
            0x8e => { let a = self.register.get_hl(); let v = self.memory.get8(a); self.adc8(v); },
            0x8f => { let v = self.register.get_a(); self.adc8(v); },
            _ => (),
        }
    }

    fn ld_9x(&mut self, opcode: u8)
        requires
            old(self).wf(),
            0x90 <= opcode < 0xa0,
        ensures
            final(self).wf(),
            Self::ld_effect_9x(*old(self), *final(self), opcode),
    {
        match opcode {
            0x90 => { let v = self.register.get_b(); self.sub8(v); },
            0x91 => { let v = self.register.get_c(); self.sub8(v); },
            0x92 => { let v = self.register.get_d(); self.sub8(v); },
            0x93 => { let v = self.register.get_e(); self.sub8(v); },
            0x94 => { let v = self.register.get_h(); self.sub8(v); },
            0x95 => { let v = self.register.get_l(); self.sub8(v); },
            0x96 => { let a = self.register.get_hl(); let v = self.memory.get8(a); self.sub8(v); },
            0x97 => { let v = self.register.get_a(); self.sub8(v); },
            0x98 => { let v = self.register.get_b(); self.sbc8(v); },
            0x99 => { let v = self.register.get_c(); self.sbc8(v); },
            0x9a => { let v = self.register.get_d(); self.sbc8(v); },
            0x9b => { let v = self.register.get_e(); self.sbc8(v); },
            0x9c => { let v = self.register.get_h(); self.sbc8(v); },
            0x9d => { let v = self.register.get_l(); self.sbc8(v); },
            0x9e => { let a = self.register.get_hl(); let v = self.memory.get8(a); self.sbc8(v); },
            0x9f => { let v = self.register.get_a(); self.sbc8(v); },
            _ => (),
        }
    }

    fn ld_ax(&mut self, opcode: u8)
        requires
            old(self).wf(),
            0xa0 <= opcode < 0xb0,
        ensures
            final(self).wf(),
            Self::ld_effect_ax(*old(self), *final(self), opcode),
    {
        match opcode {
            0xa0 => { let v = self.register.get_b(); self.and8(v); },
            0xa1 => { let v = self.register.get_c(); self.and8(v); },
            0xa2 => { let v = self.register.get_d(); self.and8(v); },
            0xa3 => { let v = self.register.get_e(); self.and8(v); },
            0xa4 => { let v = self.register.get_h(); self.and8(v); },
            0xa5 => { let v = self.register.get_l(); self.and8(v); },
            0xa6 => { let a = self.register.get_hl(); let v = self.memory.get8(a); self.and8(v); },
            0xa7 => { let v = self.register.get_a(); self.and8(v); },
            0xa8 => { let v = self.register.get_b(); self.xor8(v); },
            0xa9 => { let v = self.register.get_c(); self.xor8(v); },
            0xaa => { let v = self.register.get_d(); self.xor8(v); },
            0xab => { let v = self.register.get_e(); self.xor8(v); },
            0xac => { let v = self.register.get_h(); self.xor8(v); },
            0xad => { let v = self.register.get_l(); self.xor8(v); },
            0xae => { let a = self.register.get_hl(); let v = self.memory.get8(a); self.xor8(v); },
            0xaf => { let v = self.register.get_a(); self.xor8(v); },
            _ => (),
        }
    }

    fn ld_bx(&mut self, opcode: u8)
        requires
            old(self).wf(),
            0xb0 <= opcode < 0xc0,
        ensures
            final(self).wf(),
            Self::ld_effect_bx(*old(self), *final(self), opcode),
    {
        match opcode {
            0xb0 => { let v = self.register.get_b(); self.or8(v); },
            0xb1 => { let v = self.register.get_c(); self.or8(v); },
            0xb2 => { let v = self.register.get_d(); self.or8(v); },
            0xb3 => { let v = self.register.get_e(); self.or8(v); },
            0xb4 => { let v = self.register.get_h(); self.or8(v); },
            0xb5 => { let v = self.register.get_l(); self.or8(v); },
            0xb6 => { let a = self.register.get_hl(); let v = self.memory.get8(a); self.or8(v); },
            0xb7 => { let v = self.register.get_a(); self.or8(v); },
            0xb8 => { let v = self.register.get_b(); self.cp8(v); },
            0xb9 => { let v = self.register.get_c(); self.cp8(v); },
            0xba => { let v = self.register.get_d(); self.cp8(v); },
            0xbb => { let v = self.register.get_e(); self.cp8(v); },
            0xbc => { let v = self.register.get_h(); self.cp8(v); },
            0xbd => { let v = self.register.get_l(); self.cp8(v); },
            0xbe => { let a = self.register.get_hl(); let v = self.memory.get8(a); self.cp8(v); },
            0xbf => { let v = self.register.get_a(); self.cp8(v); },
            _ => (),
        }
    }

    fn ld_cx(&mut self, opcode: u8)
        requires
            old(self).wf(),
            0xc0 <= opcode < 0xd0,
        ensures
            final(self).wf(),
            Self::ld_effect_cx(*old(self), *final(self), opcode),
    {
        match opcode {
            0xc1 => self.pop(0xc1),
            0xc2 => self.jump_ncondition(Flag::Z),
            0xc3 => self.jump(),
            0xc5 => { let v = self.register.get_bc(); self.push(v); },
            0xc6 => { let n = self.imm8(); self.add8(n); },
            0xca => self.jump_condition(Flag::Z),
            0xcb => { let opcode2 = self.imm8(); self.ld_cb(opcode2); },
            0xce => { let n = self.imm8(); self.adc8(n); },
            _ => (),
        }
    }

    fn ld_dx(&mut self, opcode: u8)
        requires
            old(self).wf(),
            0xd0 <= opcode < 0xe0,
        ensures
            final(self).wf(),
            Self::ld_effect_dx(*old(self), *final(self), opcode),
    {
        match opcode {
            0xd1 => self.pop(0xd1),
            0xd2 => self.jump_ncondition(Flag::C),
            0xd5 => { let v = self.register.get_de(); self.push(v); },
            0xd6 => { let n = self.imm8(); self.sub8(n); },
            0xda => self.jump_condition(Flag::C),
            0xde => { let n = self.imm8(); self.sbc8(n); },
            _ => (),
        }
    }

    fn ld_ex(&mut self, opcode: u8)
        requires
            old(self).wf(),
            0xe0 <= opcode < 0xf0,
        ensures
            final(self).wf(),
            Self::ld_effect_ex(*old(self), *final(self), opcode),
    {
        match opcode {
            0xe0 => { let n = self.imm8(); let v = self.register.get_a(); self.memory.set8(0xff00 + (n as u16), v); },
            0xe1 => self.pop(0xe1),
            0xe2 => { let a = 0xff00 + (self.register.get_c() as u16); let v = self.register.get_a(); self.memory.set8(a, v); },
            0xe5 => { let v = self.register.get_hl(); self.push(v); },
            0xe6 => { let n = self.imm8(); self.and8(n); },
            0xe8 => self.add16_sp(),
            0xe9 => self.jump_register(),
            0xea => { let n = self.imm16(); let v = self.register.get_a(); self.memory.set8(n, v); },
            0xee => { let n = self.imm8(); self.xor8(n); },
            _ => (),
        }
    }

    fn ld_fx(&mut self, opcode: u8)
        requires
            old(self).wf(),
            0xf0 <= opcode < 0x100,
        ensures
            final(self).wf(),
            Self::ld_effect_fx(*old(self), *final(self), opcode),
    {
        match opcode {
            0xf0 => { let n = self.imm8(); let v = self.memory.get8(0xff00 + (n as u16)); self.register.set_a(v); },
            0xf1 => self.pop(0xf1),
            0xf2 => { let a = 0xff00 + (self.register.get_c() as u16); let v = self.memory.get8(a); self.register.set_a(v); },
            0xf3 => (),
            0xf5 => { let v = self.register.get_af(); self.push(v); },
            0xf6 => { let n = self.imm8(); self.or8(n); },
            0xf8 => {
                let a = self.register.get_sp();
                let d = self.imm8();
                let b = crate::num::sign_extend(d);
                let carry = a % 256 + b % 256 > 255;
                let half = a % 16 + b % 16 > 15;
                self.register.set_flags(false, false, half, carry);
                let hl2 = crate::num::wrapping_add16(a, b);
                self.register.set_hl(hl2);
            },
            0xf9 => { let v = self.register.get_hl(); self.register.set_sp(v); },
            0xfa => { let n = self.imm16(); let v = self.memory.get8(n); self.register.set_a(v); },
            0xfb => (),
            0xfe => { let n = self.imm8(); self.cp8(n); },
            _ => (),
        }
    }

    /// Decodes and executes one already-fetched opcode through the full
    /// 256-entry table; an opcode not in the table is a no-op that still
    /// consumed its fetch.
    pub fn ld(&mut self, opcode: u8)
        requires
            old(self).wf(),
        ensures
            final(self).wf(),
            Self::ld_effect(*old(self), *final(self), opcode),
    {
        if opcode < 0x10 {
            self.ld_0x(opcode);
        } else if opcode < 0x20 {
            self.ld_1x(opcode);
        } else if opcode < 0x30 {
            self.ld_2x(opcode);
        } else if opcode < 0x40 {
            self.ld_3x(opcode);
        } else if opcode < 0x50 {
            self.ld_4x(opcode);
        } else if opcode < 0x60 {
            self.ld_5x(opcode);
        } else if opcode < 0x70 {
            self.ld_6x(opcode);
        } else if opcode < 0x80 {
            self.ld_7x(opcode);
        } else if opcode < 0x90 {
            self.ld_8x(opcode);
        } else if opcode < 0xa0 {
            self.ld_9x(opcode);
        } else if opcode < 0xb0 {
            self.ld_ax(opcode);
        } else if opcode < 0xc0 {
            self.ld_bx(opcode);
        } else if opcode < 0xd0 {
            self.ld_cx(opcode);
        } else if opcode < 0xe0 {
            self.ld_dx(opcode);
        } else if opcode < 0xf0 {
            self.ld_ex(opcode);
        } else {
            self.ld_fx(opcode);
        }
    }

    /// Relation of one whole instruction step: the opcode byte at PC is
    /// fetched (PC moves past it and the byte is latched) and then takes
    /// effect through the dispatch table.
    pub open spec fn step_rel(pre: Cpu, post: Cpu) -> bool {
        Self::ld_effect(
            Cpu {
                register: Register { pc: wadd16(pre.register.pc, 1), ..pre.register },
                opcode: pre.memory.spec_get8(pre.register.pc),
                ..pre
            },
            post,
            pre.memory.spec_get8(pre.register.pc),
        )
    }

    /// Fetches, decodes and executes one instruction and reports the cycles
    /// it consumed. This model charges every instruction its fetch, four
    /// cycles, rather than per-opcode timings.
    pub fn step(&mut self) -> (cycles: u32)
        requires
            old(self).wf(),
        ensures
            final(self).wf(),
            Self::step_rel(*old(self), *final(self)),
            cycles == 4,
    {
        let op = self.imm8();
        self.opcode = op;
        self.ld(op);
        4
    }
}

} // verus!
