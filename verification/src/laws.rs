//! Machine-wide laws proved over the instruction relation: the stack
//! round-trip, the self-targeting relative jump, and the F register's
//! always-zero low nibble surviving every opcode. Each is stated over the
//! same specification functions the instruction contracts use, so the laws
//! hold of every state the executable code can produce.

use vstd::prelude::*;

use crate::cpu::Cpu;
use crate::memory::Memory;
use crate::num::{hi8, join16, lo8, wadd16, wsub16};
use crate::register::{flags_val, Register};

verus! {

/// Addresses whose writes land in plain byte storage: work RAM (with its
/// echo mirror) and high RAM. A stack lives here; the cartridge windows
/// (where a write programs the bank controller) and the register blocks do
/// not store bytes verbatim.
pub open spec fn in_plain_ram(a: u16) -> bool {
    ||| 0xc000 <= a < 0xfe00
    ||| 0xff80 <= a < 0xffff
}

/// The storage cell a plain-RAM address reaches; the echo window shares the
/// work-RAM cells, high RAM has its own.
pub open spec fn ram_cell(a: u16) -> int {
    if 0xc000 <= a < 0xe000 {
        a - 0xc000
    } else if 0xe000 <= a < 0xfe00 {
        a - 0xe000
    } else {
        0x10000 + a - 0xff80
    }
}

/// A byte written to plain RAM is read back from every address of its cell,
/// and no other plain-RAM read moves.
pub proof fn lemma_ram_write_read(pre: Memory, post: Memory, a: u16, n: u8, x: u16)
    requires
        pre.wram@.len() == 0x2000,
        pre.hram@.len() == 0x7f,
        Memory::set8_rel(pre, post, a, n),
        in_plain_ram(a),
        in_plain_ram(x),
    ensures
        post.wram@.len() == 0x2000,
        post.hram@.len() == 0x7f,
        post.spec_get8(x) == if ram_cell(x) == ram_cell(a) {
            n
        } else {
            pre.spec_get8(x)
        },
{
}

/// PUSH AF then POP AF restores A, restores F up to its always-zero low
/// nibble, and restores SP - for every register file and every stack
/// position whose two cells are plain RAM.
pub proof fn push_pop_roundtrip(pre: Cpu, mid: Cpu, post: Cpu)
    requires
        pre.wf(),
        Cpu::ld_effect(pre, mid, 0xf5),
        Cpu::ld_effect(mid, post, 0xf1),
        in_plain_ram(wsub16(pre.register.sp, 2)),
        in_plain_ram(wadd16(wsub16(pre.register.sp, 2), 1)),
    ensures
        post.register.a == pre.register.a,
        post.register.f == (pre.register.f / 16 * 16) as u8,
        post.register.sp == pre.register.sp,
{
    let sp2 = wsub16(pre.register.sp, 2);
    let v = join16(pre.register.a, pre.register.f);
    assert(Memory::set16_rel(pre.memory, mid.memory, sp2, v));
    let m1 = choose|m: Memory|
        #[trigger] Memory::set8_rel(pre.memory, m, sp2, lo8(v)) && Memory::set8_rel(
            m,
            mid.memory,
            wadd16(sp2, 1),
            hi8(v),
        );
    assert(ram_cell(wadd16(sp2, 1)) != ram_cell(sp2));
    lemma_ram_write_read(pre.memory, m1, sp2, lo8(v), sp2);
    lemma_ram_write_read(m1, mid.memory, wadd16(sp2, 1), hi8(v), sp2);
    lemma_ram_write_read(m1, mid.memory, wadd16(sp2, 1), hi8(v), wadd16(sp2, 1));
    assert(m1.spec_get8(sp2) == lo8(v));
    assert(mid.memory.spec_get8(sp2) == lo8(v));
    assert(mid.memory.spec_get8(wadd16(sp2, 1)) == hi8(v));
    assert(mid.memory.spec_get16(sp2) == join16(hi8(v), lo8(v)));
    assert(join16(hi8(v), lo8(v)) == v);
    crate::num::lemma_wsub_wadd_cancel(pre.register.sp, 2);
    assert(hi8(v) == pre.register.a);
    assert(lo8(v) == pre.register.f);
}

/// A relative jump with displacement -2 lands back on its own opcode: a
/// step executes it and leaves PC, the whole register file and memory
/// exactly as they were, so any number of further steps repeats the same
/// state. Stated for two consecutive steps.
pub proof fn jr_minus_two_loops(pre: Cpu, mid: Cpu, post: Cpu)
    requires
        pre.memory.spec_get8(pre.register.pc) == 0x18,
        pre.memory.spec_get8(wadd16(pre.register.pc, 1)) == 0xfe,
        Cpu::step_rel(pre, mid),
        Cpu::step_rel(mid, post),
    ensures
        mid.register == pre.register,
        mid.memory == pre.memory,
        post.register == pre.register,
        post.memory == pre.memory,
{
    let pc = pre.register.pc;
    assert(wadd16(wadd16(wadd16(pc, 1), 1), 0xfffe) == pc) by {
        crate::num::lemma_wadd16_assoc(wadd16(pc, 1), 1, 0xfffe);
        crate::num::lemma_wadd16_assoc(pc, 1, 1);
        assert(wadd16(pc, 1) as int == ((pc as int) + 1) % 0x10000);
        vstd::arithmetic::div_mod::lemma_add_mod_noop((pc as int) + 1, 0xffffint, 0x10000);
        vstd::arithmetic::div_mod::lemma_small_mod(0xffffnat, 0x10000nat);
        crate::num::lemma_wrap_vanish(pc as int);
        vstd::arithmetic::div_mod::lemma_small_mod(pc as nat, 0x10000nat);
    };
    assert(mid.register == pre.register);
    assert(mid.memory == pre.memory);
}

/// Every instruction leaves the low nibble of F zero: flags are only ever
/// written whole through the four condition bits, so the register file's
/// F-invariant survives any opcode, the CB-prefixed families included.
#[verifier::rlimit(100)]
pub proof fn flag_nibble_invariant(pre: Cpu, post: Cpu, opcode: u8)
    requires
        pre.register.f % 16 == 0,
        Cpu::ld_effect(pre, post, opcode),
    ensures
        post.register.f % 16 == 0,
{
    if opcode < 0x10 {
        flag_nibble_0x(pre, post, opcode);
    } else if opcode < 0x20 {
        flag_nibble_1x(pre, post, opcode);
    } else if opcode < 0x30 {
        flag_nibble_2x(pre, post, opcode);
    } else if opcode < 0x40 {
        flag_nibble_3x(pre, post, opcode);
    } else if opcode < 0x50 {
        flag_nibble_4x(pre, post, opcode);
    } else if opcode < 0x60 {
        flag_nibble_5x(pre, post, opcode);
    } else if opcode < 0x70 {
        flag_nibble_6x(pre, post, opcode);
    } else if opcode < 0x80 {
        flag_nibble_7x(pre, post, opcode);
    } else if opcode < 0x90 {
        flag_nibble_8x(pre, post, opcode);
    } else if opcode < 0xa0 {
        flag_nibble_9x(pre, post, opcode);
    } else if opcode < 0xb0 {
        flag_nibble_ax(pre, post, opcode);
    } else if opcode < 0xc0 {
        flag_nibble_bx(pre, post, opcode);
    } else if opcode < 0xd0 {
        flag_nibble_cx(pre, post, opcode);
    } else if opcode < 0xe0 {
        flag_nibble_dx(pre, post, opcode);
    } else if opcode < 0xf0 {
        flag_nibble_ex(pre, post, opcode);
    } else {
        flag_nibble_fx(pre, post, opcode);
    }
}

#[verifier::rlimit(100)]
proof fn flag_nibble_cb_0(pre: Cpu, post: Cpu, opcode2: u8)
    requires
        pre.register.f % 16 == 0,
        Cpu::cb_effect_0(pre, post, opcode2),
    ensures
        post.register.f % 16 == 0,
{
    assert(forall|z: bool, n: bool, h: bool, c: bool|
        #[trigger] flags_val(z, n, h, c) % 16 == 0);
}

#[verifier::rlimit(100)]
proof fn flag_nibble_cb_1(pre: Cpu, post: Cpu, opcode2: u8)
    requires
        pre.register.f % 16 == 0,
        Cpu::cb_effect_1(pre, post, opcode2),
    ensures
        post.register.f % 16 == 0,
{
    assert(forall|z: bool, n: bool, h: bool, c: bool|
        #[trigger] flags_val(z, n, h, c) % 16 == 0);
}

#[verifier::rlimit(100)]
proof fn flag_nibble_cb_2(pre: Cpu, post: Cpu, opcode2: u8)
    requires
        pre.register.f % 16 == 0,
        Cpu::cb_effect_2(pre, post, opcode2),
    ensures
        post.register.f % 16 == 0,
{
    assert(forall|z: bool, n: bool, h: bool, c: bool|
        #[trigger] flags_val(z, n, h, c) % 16 == 0);
}

#[verifier::rlimit(100)]
proof fn flag_nibble_cb_3(pre: Cpu, post: Cpu, opcode2: u8)
    requires
        pre.register.f % 16 == 0,
        Cpu::cb_effect_3(pre, post, opcode2),
    ensures
        post.register.f % 16 == 0,
{
    assert(forall|z: bool, n: bool, h: bool, c: bool|
        #[trigger] flags_val(z, n, h, c) % 16 == 0);
}

#[verifier::rlimit(100)]
proof fn flag_nibble_cb(pre: Cpu, post: Cpu, opcode2: u8)
    requires
        pre.register.f % 16 == 0,
        Cpu::cb_effect(pre, post, opcode2),
    ensures
        post.register.f % 16 == 0,
{
    if opcode2 < 0x40 {
        flag_nibble_cb_0(pre, post, opcode2);
    } else if opcode2 < 0x80 {
        flag_nibble_cb_1(pre, post, opcode2);
    } else if opcode2 < 0xc0 {
        flag_nibble_cb_2(pre, post, opcode2);
    } else {
        flag_nibble_cb_3(pre, post, opcode2);
    }
}

#[verifier::rlimit(100)]
proof fn flag_nibble_0x(pre: Cpu, post: Cpu, opcode: u8)
    requires
        pre.register.f % 16 == 0,
        Cpu::ld_effect_0x(pre, post, opcode),
    ensures
        post.register.f % 16 == 0,
{
}

#[verifier::rlimit(100)]
proof fn flag_nibble_1x(pre: Cpu, post: Cpu, opcode: u8)
    requires
        pre.register.f % 16 == 0,
        Cpu::ld_effect_1x(pre, post, opcode),
    ensures
        post.register.f % 16 == 0,
{
}

#[verifier::rlimit(100)]
proof fn flag_nibble_2x(pre: Cpu, post: Cpu, opcode: u8)
    requires
        pre.register.f % 16 == 0,
        Cpu::ld_effect_2x(pre, post, opcode),
    ensures
        post.register.f % 16 == 0,
{
}

#[verifier::rlimit(100)]
proof fn flag_nibble_3x(pre: Cpu, post: Cpu, opcode: u8)
    requires
        pre.register.f % 16 == 0,
        Cpu::ld_effect_3x(pre, post, opcode),
    ensures
        post.register.f % 16 == 0,
{
}

#[verifier::rlimit(100)]
proof fn flag_nibble_4x(pre: Cpu, post: Cpu, opcode: u8)
    requires
        pre.register.f % 16 == 0,
        Cpu::ld_effect_4x(pre, post, opcode),
    ensures
        post.register.f % 16 == 0,
{
}

#[verifier::rlimit(100)]
proof fn flag_nibble_5x(pre: Cpu, post: Cpu, opcode: u8)
    requires
        pre.register.f % 16 == 0,
        Cpu::ld_effect_5x(pre, post, opcode),
    ensures
        post.register.f % 16 == 0,
{
}

#[verifier::rlimit(100)]
proof fn flag_nibble_6x(pre: Cpu, post: Cpu, opcode: u8)
    requires
        pre.register.f % 16 == 0,
        Cpu::ld_effect_6x(pre, post, opcode),
    ensures
        post.register.f % 16 == 0,
{
}

#[verifier::rlimit(100)]
proof fn flag_nibble_7x(pre: Cpu, post: Cpu, opcode: u8)
    requires
        pre.register.f % 16 == 0,
        Cpu::ld_effect_7x(pre, post, opcode),
    ensures
        post.register.f % 16 == 0,
{
}

#[verifier::rlimit(100)]
proof fn flag_nibble_8x(pre: Cpu, post: Cpu, opcode: u8)
    requires
        pre.register.f % 16 == 0,
        Cpu::ld_effect_8x(pre, post, opcode),
    ensures
        post.register.f % 16 == 0,
{
}

#[verifier::rlimit(100)]
proof fn flag_nibble_9x(pre: Cpu, post: Cpu, opcode: u8)
    requires
        pre.register.f % 16 == 0,
        Cpu::ld_effect_9x(pre, post, opcode),
    ensures
        post.register.f % 16 == 0,
{
}

#[verifier::rlimit(100)]
proof fn flag_nibble_ax(pre: Cpu, post: Cpu, opcode: u8)
    requires
        pre.register.f % 16 == 0,
        Cpu::ld_effect_ax(pre, post, opcode),
    ensures
        post.register.f % 16 == 0,
{
}

#[verifier::rlimit(100)]
proof fn flag_nibble_bx(pre: Cpu, post: Cpu, opcode: u8)
    requires
        pre.register.f % 16 == 0,
        Cpu::ld_effect_bx(pre, post, opcode),
    ensures
        post.register.f % 16 == 0,
{
}

#[verifier::rlimit(100)]
proof fn flag_nibble_cx(pre: Cpu, post: Cpu, opcode: u8)
    requires
        pre.register.f % 16 == 0,
        Cpu::ld_effect_cx(pre, post, opcode),
    ensures
        post.register.f % 16 == 0,
{
    if opcode == 0xcb {
        flag_nibble_cb(
            Cpu {
                register: Register { pc: wadd16(pre.register.pc, 1), ..pre.register },
                ..pre
            },
            post,
            pre.memory.spec_get8(pre.register.pc),
        );
    }
}

#[verifier::rlimit(100)]
proof fn flag_nibble_dx(pre: Cpu, post: Cpu, opcode: u8)
    requires
        pre.register.f % 16 == 0,
        Cpu::ld_effect_dx(pre, post, opcode),
    ensures
        post.register.f % 16 == 0,
{
}

#[verifier::rlimit(100)]
proof fn flag_nibble_ex(pre: Cpu, post: Cpu, opcode: u8)
    requires
        pre.register.f % 16 == 0,
        Cpu::ld_effect_ex(pre, post, opcode),
    ensures
        post.register.f % 16 == 0,
{
}

#[verifier::rlimit(100)]
proof fn flag_nibble_fx(pre: Cpu, post: Cpu, opcode: u8)
    requires
        pre.register.f % 16 == 0,
        Cpu::ld_effect_fx(pre, post, opcode),
    ensures
        post.register.f % 16 == 0,
{
}

/// The same invariant across a whole fetched-and-executed step.
#[verifier::rlimit(100)]
pub proof fn flag_nibble_invariant_step(pre: Cpu, post: Cpu)
    requires
        pre.register.f % 16 == 0,
        Cpu::step_rel(pre, post),
    ensures
        post.register.f % 16 == 0,
{
    let mid = Cpu {
        register: Register { pc: wadd16(pre.register.pc, 1), ..pre.register },
        opcode: pre.memory.spec_get8(pre.register.pc),
        ..pre
    };
    flag_nibble_invariant(mid, post, pre.memory.spec_get8(pre.register.pc));
}

} // verus!
