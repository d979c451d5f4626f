//! Arithmetic helpers shared by the CPU and the pixel pipeline: carry and
//! half-carry detection, sign handling and single-bit tests.
use vstd::arithmetic::div_mod::lemma_small_mod;
use vstd::arithmetic::power2::{lemma2_to64, pow2};
use vstd::bits::{lemma_u16_shr_is_div, lemma_u32_shl_is_mul};
use vstd::prelude::*;

verus! {

/// Adding the low `bit + 1` bits of both operands carries out of bit `bit`.
pub open spec fn carry_out_of(bit: nat, lhs: int, rhs: int) -> bool {
    lhs % (pow2(bit + 1) as int) + rhs % (pow2(bit + 1) as int) >= pow2(bit + 1)
}

/// Bit `bit` of `value` is one.
pub open spec fn bit_is_set(value: int, bit: nat) -> bool {
    (value / (pow2(bit) as int)) % 2 == 1
}

pub open spec fn sign_extended(value: u8) -> u16 {
    if value >= 0x80 {
        (value + 0xFF00) as u16
    } else {
        value as u16
    }
}

pub open spec fn magnitude16(value: u16) -> u16 {
    if value >= 0x8000 {
        (0x10000 - value) as u16
    } else {
        value
    }
}

/// Carry out of bit `bit` when adding `lhs` and `rhs`; the mask of the
/// low `bit + 1` bits must fit in 32 bits.
pub fn has_carry_on_bit(bit: u8, lhs: u16, rhs: u16) -> (r: bool)
    requires
        bit < 31,
    ensures
        r == carry_out_of(bit as nat, lhs as int, rhs as int),
{
    let shift: u32 = bit as u32 + 1;
    proof {
        lemma2_to64();
        vstd::bits::lemma_u32_pow2_no_overflow(shift as nat);
        lemma_u32_shl_is_mul(1, shift);
    }
    let m: u32 = 1u32 << shift;
    (lhs as u32 % m) + (rhs as u32 % m) >= m
}

/// Carry out of bit 7 in an 8-bit addition.
pub fn has_carry(lhs: u8, rhs: u8) -> (r: bool)
    ensures
        r == (lhs as int + rhs as int > 0xFF),
{
    proof {
        lemma2_to64();
    }
    let r = has_carry_on_bit(7, lhs as u16, rhs as u16);
    assert(pow2(7 + 1) == 256);
    proof {
        lemma_small_mod(lhs as nat, 256);
        lemma_small_mod(rhs as nat, 256);
    }
    r
}

/// Carry out of bit 3 in an 8-bit addition.
pub fn has_half_carry(lhs: u8, rhs: u8) -> (r: bool)
    ensures
        r == (lhs % 16 + rhs % 16 > 0xF),
{
    proof {
        lemma2_to64();
    }
    has_carry_on_bit(3, lhs as u16, rhs as u16)
}

/// Carry out of bit 15 in a 16-bit addition.
pub fn has_carry16(lhs: u16, rhs: u16) -> (r: bool)
    ensures
        r == (lhs as int + rhs as int > 0xFFFF),
{
    proof {
        lemma2_to64();
    }
    let r = has_carry_on_bit(15, lhs, rhs);
    assert(pow2(15 + 1) == 0x10000);
    assert(lhs as int % 0x10000 == lhs && rhs as int % 0x10000 == rhs);
    r
}

/// Carry out of bit 11 in a 16-bit addition.
pub fn has_half_carry16(lhs: u16, rhs: u16) -> (r: bool)
    ensures
        r == (lhs % 0x1000 + rhs % 0x1000 > 0xFFF),
{
    proof {
        lemma2_to64();
    }
    has_carry_on_bit(11, lhs, rhs)
}

/// Borrow into bit 4 in an 8-bit subtraction.
pub fn has_borrow(lhs: u8, rhs: u8) -> (r: bool)
    ensures
        r == (lhs % 16 < rhs % 16),
{
    assert(lhs & 0xF == lhs % 16) by (bit_vector);
    assert(rhs & 0xF == rhs % 16) by (bit_vector);
    lhs & 0xF < rhs & 0xF
}

pub fn is_neg16(value: u16) -> (r: bool)
    ensures
        r == (value >= 0x8000),
{
    assert(((value >> 15) & 1 == 1) == (value >= 0x8000)) by (bit_vector);
    ((value >> 15) & 0b1) == 0b1
}

/// The magnitude of a 16-bit two's complement value.
pub fn twos_complement(value: u16) -> (r: u16)
    ensures
        r == magnitude16(value),
{
    let mut v: u16 = value;
    if is_neg16(v) {
        assert(value >= 0x8000 ==> !value == 0xFFFF - value) by (bit_vector);
        v = !v + 1;
    }
    v
}

pub fn sign_extend(value: u8) -> (r: u16)
    ensures
        r == sign_extended(value),
{
    let mut res: u16 = value as u16;
    assert(((value >> 7) & 1 == 1) == (value >= 0x80)) by (bit_vector);
    if (value >> 7) & 0b1 == 0b1 {
        assert(0xFF00 | (value as u16) == (value as u16) + 0xFF00) by (bit_vector);
        res = 0xFF00 | res;
    }
    res
}

pub fn is_bit_one(value: u16, bit: u8) -> (r: bool)
    requires
        bit < 16,
    ensures
        r == bit_is_set(value as int, bit as nat),
{
    proof {
        lemma_u16_shr_is_div(value, bit as u16);
    }
    let s: u16 = value >> bit;
    assert(((s & 1) == 1) == (s % 2 == 1)) by (bit_vector);
    (s & 0b1) == 0b1
}

} // verus!
