//! Small arithmetic helpers shared by the CPU and the PPU: wrapping 16-bit
//! address arithmetic, byte splitting and joining, sign extension and single
//! bit access, each with an exact specification.

use vstd::prelude::*;

verus! {

/// 16-bit addition wrapping modulo 0x10000, the rule for all program-counter,
/// stack-pointer and address arithmetic on this machine.
pub open spec fn wadd16(a: u16, b: u16) -> u16 {
    (((a as int) + (b as int)) % 0x10000) as u16
}

/// 16-bit subtraction wrapping modulo 0x10000.
pub open spec fn wsub16(a: u16, b: u16) -> u16 {
    ((((a as int) - (b as int)) % 0x10000 + 0x10000) % 0x10000) as u16
}

/// Low byte of a 16-bit value.
pub open spec fn lo8(v: u16) -> u8 {
    (v % 256) as u8
}

/// High byte of a 16-bit value.
pub open spec fn hi8(v: u16) -> u8 {
    (v / 256) as u8
}

/// The 16-bit value with the given high and low bytes.
pub open spec fn join16(hi: u8, lo: u8) -> u16 {
    ((hi as int) * 256 + (lo as int)) as u16
}

/// An 8-bit displacement sign-extended to 16 bits, as used by relative jumps.
pub open spec fn sext8(d: u8) -> u16 {
    if d < 0x80 {
        d as u16
    } else {
        ((d as int) + 0xff00) as u16
    }
}

/// Value of bit `b` (0 = least significant) of a byte, as a power of two.
pub open spec fn pow2_u8(b: u8) -> u8 {
    if b == 0 {
        1
    } else if b == 1 {
        2
    } else if b == 2 {
        4
    } else if b == 3 {
        8
    } else if b == 4 {
        16
    } else if b == 5 {
        32
    } else if b == 6 {
        64
    } else {
        128
    }
}

/// Whether bit `b` of `x` is set.
pub open spec fn bit8(x: u8, b: u8) -> bool {
    x / pow2_u8(b) % 2 == 1
}

/// How one more unit moves a running quotient and remainder: the remainder
/// steps by one and wraps to zero exactly when the quotient steps.
pub proof fn lemma_div_mod_step(t: int, m: int)
    requires
        t >= 0,
        m >= 1,
    ensures
        t % m == m - 1 ==> (t + 1) % m == 0 && (t + 1) / m == t / m + 1,
        t % m < m - 1 ==> (t + 1) % m == t % m + 1 && (t + 1) / m == t / m,
{
    vstd::arithmetic::div_mod::lemma_fundamental_div_mod(t, m);
    let q = t / m;
    let r = t % m;
    assert(t == m * q + r);
    if r == m - 1 {
        assert(t + 1 == (q + 1) * m + 0) by (nonlinear_arith)
            requires
                t == m * q + r,
                r == m - 1,
        ;
        vstd::arithmetic::div_mod::lemma_fundamental_div_mod_converse_mod(t + 1, m, q + 1, 0);
        vstd::arithmetic::div_mod::lemma_fundamental_div_mod_converse_div(t + 1, m, q + 1, 0);
    } else {
        assert(t + 1 == q * m + (r + 1)) by (nonlinear_arith)
            requires
                t == m * q + r,
        ;
        vstd::arithmetic::div_mod::lemma_fundamental_div_mod_converse_mod(t + 1, m, q, r + 1);
        vstd::arithmetic::div_mod::lemma_fundamental_div_mod_converse_div(t + 1, m, q, r + 1);
    }
}

/// Chained wrapping additions collapse into one sum modulo 0x10000.
pub proof fn lemma_wadd16_assoc(a: u16, b: u16, c: u16)
    ensures
        wadd16(wadd16(a, b), c) == (((a as int) + b + c) % 0x10000) as u16,
{
    vstd::arithmetic::div_mod::lemma_small_mod(c as nat, 0x10000);
    vstd::arithmetic::div_mod::lemma_add_mod_noop((a as int) + b, c as int, 0x10000);
}

/// A full 0x10000 turn vanishes under the wrap.
pub proof fn lemma_wrap_vanish(x: int)
    requires
        0 <= x < 0x10000,
    ensures
        (x + 0x10000) % 0x10000 == x,
{
    vstd::arithmetic::div_mod::lemma_mod_add_multiples_vanish(x, 0x10000);
    vstd::arithmetic::div_mod::lemma_small_mod(x as nat, 0x10000);
}

/// Wrapping subtraction undone by the matching wrapping addition.
pub proof fn lemma_wsub_wadd_cancel(a: u16, b: u16)
    ensures
        wadd16(wsub16(a, b), b) == a,
{
    let m = 0x10000int;
    let d = ((a as int) - b) % m;
    vstd::arithmetic::div_mod::lemma_mod_add_multiples_vanish(d, m);
    vstd::arithmetic::div_mod::lemma_small_mod(d as nat, m as nat);
    assert(wsub16(a, b) == d as u16);
    vstd::arithmetic::div_mod::lemma_add_mod_noop((a as int) - b, b as int, m);
    vstd::arithmetic::div_mod::lemma_small_mod(b as nat, m as nat);
    vstd::arithmetic::div_mod::lemma_small_mod(a as nat, m as nat);
}

pub fn wrapping_add16(a: u16, b: u16) -> (r: u16)
    ensures
        r == wadd16(a, b),
{
    (((a as u32) + (b as u32)) % 0x10000) as u16
}

pub fn wrapping_sub16(a: u16, b: u16) -> (r: u16)
    ensures
        r == wsub16(a, b),
{
    (((a as u32) + 0x10000 - (b as u32)) % 0x10000) as u16
}

pub fn low_byte(v: u16) -> (r: u8)
    ensures
        r == lo8(v),
{
    (v % 256) as u8
}

pub fn high_byte(v: u16) -> (r: u8)
    ensures
        r == hi8(v),
{
    (v / 256) as u8
}

pub fn to_u16(hi: u8, lo: u8) -> (r: u16)
    ensures
        r == join16(hi, lo),
{
    (hi as u16) * 256 + (lo as u16)
}

pub fn sign_extend(d: u8) -> (r: u16)
    ensures
        r == sext8(d),
{
    if d < 0x80 {
        d as u16
    } else {
        (d as u16) + 0xff00
    }
}

pub fn bit_value(b: u8) -> (r: u8)
    requires
        b < 8,
    ensures
        r == pow2_u8(b),
{
    if b == 0 {
        1
    } else if b == 1 {
        2
    } else if b == 2 {
        4
    } else if b == 3 {
        8
    } else if b == 4 {
        16
    } else if b == 5 {
        32
    } else if b == 6 {
        64
    } else {
        128
    }
}

pub fn bit_set(x: u8, b: u8) -> (r: bool)
    requires
        b < 8,
    ensures
        r == bit8(x, b),
{
    let p = bit_value(b);
    x / p % 2 == 1
}

} // verus!
