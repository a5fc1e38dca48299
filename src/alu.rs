use vstd::arithmetic::div_mod::{lemma_fundamental_div_mod, lemma_fundamental_div_mod_converse};
use vstd::prelude::*;

verus! {

pub open spec fn b2i(b: bool) -> int {
    if b { 1 } else { 0 }
}

/// 8-bit addition with carry-in: (result, half-carry out of bit 3, carry out of bit 7).
pub open spec fn add8(a: u8, b: u8, cin: bool) -> (u8, bool, bool) {
    let s = a as int + b as int + b2i(cin);
    ((s % 256) as u8, (a % 16) as int + (b % 16) as int + b2i(cin) >= 16, s >= 256)
}

/// 8-bit subtraction with borrow-in: (result, borrow from bit 4, borrow from bit 8).
pub open spec fn sub8(a: u8, b: u8, cin: bool) -> (u8, bool, bool) {
    let d = a as int - b as int - b2i(cin);
    (((d + 256) % 256) as u8, (a % 16) as int - (b % 16) as int - b2i(cin) < 0, d < 0)
}

/// Decimal adjust of the accumulator after a BCD addition (`n` false) or
/// subtraction (`n` true): (result, carry out).
pub open spec fn daa8(a: u8, n: bool, h: bool, c: bool) -> (u8, bool) {
    if n {
        let a1 = if c { (a as int - 0x60 + 256) % 256 } else { a as int };
        let a2 = if h { (a1 - 0x06 + 256) % 256 } else { a1 };
        (a2 as u8, c)
    } else {
        let c2 = c || a > 0x99;
        let a1 = if c2 { (a as int + 0x60) % 256 } else { a as int };
        let a2 = if h || a1 % 16 > 9 { (a1 + 0x06) % 256 } else { a1 };
        (a2 as u8, c2)
    }
}

/// The BCD encoding of a number below 100: tens in the high nibble, units in the low.
pub open spec fn bcd(v: int) -> u8 {
    ((v / 10) * 16 + v % 10) as u8
}

/// Rotate left through carry: (result, bit 7 shifted out).
pub open spec fn rl8(v: u8, cin: bool) -> (u8, bool) {
    (((v as int * 2) % 256 + b2i(cin)) as u8, v >= 128)
}

/// Rotate left: bit 7 goes to bit 0 and to the carry.
pub open spec fn rlc8(v: u8) -> (u8, bool) {
    (((v as int * 2) % 256 + v as int / 128) as u8, v >= 128)
}

/// Rotate right through carry: (result, bit 0 shifted out).
pub open spec fn rr8(v: u8, cin: bool) -> (u8, bool) {
    ((v as int / 2 + 128 * b2i(cin)) as u8, v % 2 == 1)
}

/// Rotate right: bit 0 goes to bit 7 and to the carry.
pub open spec fn rrc8(v: u8) -> (u8, bool) {
    ((v as int / 2 + 128 * (v as int % 2)) as u8, v % 2 == 1)
}

/// Arithmetic shift left.
pub open spec fn sla8(v: u8) -> (u8, bool) {
    (((v as int * 2) % 256) as u8, v >= 128)
}

/// Arithmetic shift right: bit 7 is kept.
pub open spec fn sra8(v: u8) -> (u8, bool) {
    ((v as int / 2 + (v as int / 128) * 128) as u8, v % 2 == 1)
}

/// Logical shift right.
pub open spec fn srl8(v: u8) -> (u8, bool) {
    ((v as int / 2) as u8, v % 2 == 1)
}

/// Exchange of the two nibbles.
pub open spec fn swap8(v: u8) -> u8 {
    ((v as int % 16) * 16 + v as int / 16) as u8
}

pub open spec fn spec_pow2(bit: u8) -> u8 {
    if bit == 0 {
        1
    } else if bit == 1 {
        2
    } else if bit == 2 {
        4
    } else if bit == 3 {
        8
    } else if bit == 4 {
        16
    } else if bit == 5 {
        32
    } else if bit == 6 {
        64
    } else {
        128
    }
}

/// Whether bit `bit` (0 to 7) of `v` is set.
pub open spec fn bit8(v: u8, bit: u8) -> bool {
    (v / spec_pow2(bit)) % 2 == 1
}

/// `v` with bit `bit` cleared.
pub open spec fn res8(v: u8, bit: u8) -> u8 {
    if bit8(v, bit) { (v - spec_pow2(bit)) as u8 } else { v }
}

/// `v` with bit `bit` set.
pub open spec fn set8(v: u8, bit: u8) -> u8 {
    if bit8(v, bit) { v } else { (v + spec_pow2(bit)) as u8 }
}

/// The single-bit mask for a bit index; indices above 7 stand for bit 7.
pub fn pow2(bit: u8) -> (r: u8)
    ensures
        r == spec_pow2(bit),
{
    if bit == 0 {
        1
    } else if bit == 1 {
        2
    } else if bit == 2 {
        4
    } else if bit == 3 {
        8
    } else if bit == 4 {
        16
    } else if bit == 5 {
        32
    } else if bit == 6 {
        64
    } else {
        128
    }
}

/// Adds `src` into `a` and returns the carry out of bit 7 and out of bit 3.
pub fn add_impl(a: &mut u8, src: u8) -> (r: (bool, bool))
    ensures
        *final(a) == add8(*old(a), src, false).0,
        r.0 == add8(*old(a), src, false).2,
        r.1 == add8(*old(a), src, false).1,
{
    let carry = a.checked_add(src).is_none();
    let half_carry = *a % 16 + src % 16 > 15;
    *a = a.wrapping_add(src);
    (carry, half_carry)
}

/// Subtracts `src` from `a` and returns the borrow into bit 7 and into bit 3.
pub fn sub_impl(a: &mut u8, src: u8) -> (r: (bool, bool))
    ensures
        *final(a) == sub8(*old(a), src, false).0,
        r.0 == sub8(*old(a), src, false).2,
        r.1 == sub8(*old(a), src, false).1,
{
    let borrow = *a < src;
    let half_borrow = *a % 16 < src % 16;
    *a = a.wrapping_sub(src);
    (borrow, half_borrow)
}

/// Addition with carry-in: (result, half-carry, carry).
pub fn add_carry(a: u8, src: u8, cin: bool) -> (r: (u8, bool, bool))
    ensures
        r == add8(a, src, cin),
{
    let mut sum = a;
    let (carry, half_carry) = add_impl(&mut sum, src);
    let carry = carry || cin && sum == 0xff;
    let half_carry = half_carry || cin && sum % 16 == 0xf;
    let sum = sum.wrapping_add(if cin { 1 } else { 0 });
    (sum, half_carry, carry)
}

/// Subtraction with borrow-in: (result, half-borrow, borrow).
pub fn sub_carry(a: u8, src: u8, cin: bool) -> (r: (u8, bool, bool))
    ensures
        r == sub8(a, src, cin),
{
    let mut diff = a;
    let (borrow, half_borrow) = sub_impl(&mut diff, src);
    let borrow = borrow || cin && diff == 0;
    let half_borrow = half_borrow || cin && diff % 16 == 0;
    let diff = diff.wrapping_sub(if cin { 1 } else { 0 });
    (diff, half_borrow, borrow)
}

/// Decimal adjust: (result, carry out).
pub fn decimal_adjust(a: u8, n: bool, h: bool, c: bool) -> (r: (u8, bool))
    ensures
        r == daa8(a, n, h, c),
{
    let mut a = a;
    let mut carry = c;
    if n {
        if c {
            a = a.wrapping_sub(0x60);
        }
        if h {
            a = a.wrapping_sub(0x06);
        }
    } else {
        if c || a > 0x99 {
            carry = true;
            a = a.wrapping_add(0x60);
        }
        if h || a % 16 > 0x09 {
            a = a.wrapping_add(0x06);
        }
    }
    (a, carry)
}

/// The BCD encoding of `10 * t + u` is `16 * t + u`.
proof fn lemma_bcd_digits(v: int, t: int, u: int)
    requires
        0 <= t < 10,
        0 <= u < 10,
        v == 10 * t + u,
    ensures
        bcd(v) == 16 * t + u,
{
    lemma_fundamental_div_mod_converse(v, 10, t, u);
}

/// BCD addition: for two BCD operands whose sum stays below 100, an 8-bit add
/// followed by a decimal adjust gives the BCD encoding of the sum.
#[verifier::rlimit(80)]
pub proof fn lemma_daa_after_add(a: int, b: int)
    requires
        0 <= a < 100,
        0 <= b < 100,
        a + b < 100,
    ensures
        ({
            let (s, h, c) = add8(bcd(a), bcd(b), false);
            daa8(s, false, h, c).0 == bcd(a + b)
        }),
{
    let a1 = a / 10;
    let a0 = a % 10;
    let b1 = b / 10;
    let b0 = b % 10;
    lemma_fundamental_div_mod(a, 10);
    lemma_fundamental_div_mod(b, 10);
    lemma_bcd_digits(a, a1, a0);
    lemma_bcd_digits(b, b1, b0);
    let s = 16 * (a1 + b1) + a0 + b0;
    let (r, h, c) = add8(bcd(a), bcd(b), false);
    assert(r as int == s);
    assert(!c);
    if a0 + b0 >= 16 {
        lemma_fundamental_div_mod_converse(s, 16, a1 + b1 + 1, a0 + b0 - 16);
        lemma_fundamental_div_mod_converse(bcd(a) as int, 16, a1, a0);
        lemma_fundamental_div_mod_converse(bcd(b) as int, 16, b1, b0);
        assert(h);
        lemma_bcd_digits(a + b, a1 + b1 + 1, a0 + b0 - 10);
    } else {
        lemma_fundamental_div_mod_converse(s, 16, a1 + b1, a0 + b0);
        lemma_fundamental_div_mod_converse(bcd(a) as int, 16, a1, a0);
        lemma_fundamental_div_mod_converse(bcd(b) as int, 16, b1, b0);
        assert(!h);
        if a0 + b0 >= 10 {
            lemma_bcd_digits(a + b, a1 + b1 + 1, a0 + b0 - 10);
        } else {
            lemma_bcd_digits(a + b, a1 + b1, a0 + b0);
        }
    }
}

/// BCD subtraction: for two BCD operands with `a >= b`, an 8-bit subtract
/// followed by a decimal adjust gives the BCD encoding of the difference.
#[verifier::rlimit(80)]
pub proof fn lemma_daa_after_sub(a: int, b: int)
    requires
        0 <= b <= a < 100,
    ensures
        ({
            let (s, h, c) = sub8(bcd(a), bcd(b), false);
            daa8(s, true, h, c).0 == bcd(a - b)
        }),
{
    let a1 = a / 10;
    let a0 = a % 10;
    let b1 = b / 10;
    let b0 = b % 10;
    lemma_fundamental_div_mod(a, 10);
    lemma_fundamental_div_mod(b, 10);
    lemma_bcd_digits(a, a1, a0);
    lemma_bcd_digits(b, b1, b0);
    lemma_fundamental_div_mod_converse(bcd(a) as int, 16, a1, a0);
    lemma_fundamental_div_mod_converse(bcd(b) as int, 16, b1, b0);
    let (r, h, c) = sub8(bcd(a), bcd(b), false);
    if a0 >= b0 {
        assert(a1 >= b1);
        assert(r as int == 16 * (a1 - b1) + a0 - b0);
        assert(!c && !h);
        lemma_bcd_digits(a - b, a1 - b1, a0 - b0);
    } else {
        assert(a1 > b1);
        assert(r as int == 16 * (a1 - b1) + a0 - b0);
        assert(!c && h);
        lemma_bcd_digits(a - b, a1 - b1 - 1, a0 - b0 + 10);
    }
}

} // verus!
