//! Pure arithmetic helpers: additions and subtractions with carry-in that
//! report the masked result together with half-carry, carry and zero.
use vstd::arithmetic::div_mod::lemma_mod_add_multiples_vanish;
use vstd::arithmetic::power2::{lemma2_to64, lemma_pow2_strictly_increases, pow2};
use vstd::bits::{lemma_usize_low_bits_mask_is_mod, lemma_usize_shl_is_mul, low_bits_mask};
use vstd::prelude::*;

verus! {

/// 1 for a set carry, 0 otherwise.
pub open spec fn bit_of(b: bool) -> int {
    if b {
        1
    } else {
        0
    }
}

/// The low `bits` bits of `v`.
pub open spec fn low(v: int, bits: nat) -> int {
    v % (pow2(bits) as int)
}

/// Whether adding the low `bits` bits of both operands and the carry-in
/// overflows a `bits`-wide field.
pub open spec fn carries_out(bits: nat, x: int, y: int, c: int) -> bool {
    low(x, bits) + low(y, bits) + low(c, bits) > pow2(bits) - 1
}

/// Whether subtracting the low `bits` bits of `y` and the carry-in from those
/// of `x` needs a borrow out of a `bits`-wide field.
pub open spec fn borrows_out(bits: nat, x: int, y: int, c: int) -> bool {
    low(x, bits) < low(y, bits) + low(c, bits)
}

/// The 16-bit two's-complement widening of an 8-bit value.
pub open spec fn sign_extend(v: u8) -> u16 {
    if v >= 0x80 {
        (0xff00 + v) as u16
    } else {
        v as u16
    }
}

/// Result of an 8-bit addition: (sum, half-carry, carry, zero).
pub open spec fn add8(x: u8, y: u8, carry: bool) -> (u8, bool, bool, bool) {
    let s = x + y + bit_of(carry);
    (
        (s % 256) as u8,
        x % 16 + y % 16 + bit_of(carry) > 15,
        s > 255,
        s % 256 == 0,
    )
}

/// Result of an 8-bit subtraction with borrow-in: (difference, half-borrow, borrow, zero).
pub open spec fn sub8(x: u8, y: u8, carry: bool) -> (u8, bool, bool, bool) {
    let d = x - y - bit_of(carry);
    (
        (d % 256) as u8,
        x % 16 < y % 16 + bit_of(carry),
        x < y + bit_of(carry),
        d % 256 == 0,
    )
}

/// Result of a 16-bit addition: (sum, carry out of bit 11, carry out of bit 15, zero).
pub open spec fn add16(x: u16, y: u16, carry: bool) -> (u16, bool, bool, bool) {
    let s = x + y + bit_of(carry);
    (
        (s % 0x10000) as u16,
        x % 0x1000 + y % 0x1000 + bit_of(carry) > 0xfff,
        s > 0xffff,
        s % 0x10000 == 0,
    )
}

/// Result of adding a signed byte to a 16-bit value; the flags come from the
/// low nibble and the low byte, as for an 8-bit addition.
pub open spec fn add16_signed(x: u16, y: u8, carry: bool) -> (u16, bool, bool, bool) {
    let w = sign_extend(y);
    let s = x + w + bit_of(carry);
    (
        (s % 0x10000) as u16,
        x % 16 + w % 16 + bit_of(carry) > 15,
        x % 256 + w % 256 + bit_of(carry) > 255,
        s % 0x10000 == 0,
    )
}

proof fn lemma_mask(bits: usize)
    requires
        1 <= bits <= 16,
    ensures
        (1usize << bits) == pow2(bits as nat),
        pow2(bits as nat) <= 0x10000,
        pow2(bits as nat) >= 2,
        low_bits_mask(bits as nat) == pow2(bits as nat) - 1,
{
    lemma2_to64();
    if bits < 16 {
        lemma_pow2_strictly_increases(bits as nat, 16);
    }
    if bits > 1 {
        lemma_pow2_strictly_increases(1, bits as nat);
    }
    lemma_usize_shl_is_mul(1, bits);
}

/// Whether the low `bit` bits of `x`, `y` and `carry` overflow their field.
fn has_carry(bit: usize, x: usize, y: usize, carry: usize) -> (r: bool)
    requires
        1 <= bit <= 16,
    ensures
        r == carries_out(bit as nat, x as int, y as int, carry as int),
{
    proof {
        lemma_mask(bit);
        lemma_usize_low_bits_mask_is_mod(x, bit as nat);
        lemma_usize_low_bits_mask_is_mod(y, bit as nat);
        lemma_usize_low_bits_mask_is_mod(carry, bit as nat);
    }
    let mask = (1usize << bit) - 1;
    (x & mask) + (y & mask) + (carry & mask) > mask
}

/// Whether the low `bit` bits of `x` are below those of `y` plus `carry`.
fn has_borrow(bit: usize, x: usize, y: usize, carry: usize) -> (r: bool)
    requires
        1 <= bit <= 16,
    ensures
        r == borrows_out(bit as nat, x as int, y as int, carry as int),
{
    proof {
        lemma_mask(bit);
        lemma_usize_low_bits_mask_is_mod(x, bit as nat);
        lemma_usize_low_bits_mask_is_mod(y, bit as nat);
        lemma_usize_low_bits_mask_is_mod(carry, bit as nat);
    }
    let mask = (1usize << bit) - 1;
    (x & mask) < (y & mask) + (carry & mask)
}

/// Adds `x`, `y` and the carry-in in a `bit`-wide field; the half-carry and
/// carry are taken at `half_carry_bit` and `carry_bit`.
fn add(bit: usize, x: usize, y: usize, carry: bool, half_carry_bit: usize, carry_bit: usize) -> (r: (
    usize,
    bool,
    bool,
    bool,
))
    requires
        1 <= bit <= 16,
        1 <= half_carry_bit <= 16,
        1 <= carry_bit <= 16,
        x < 0x10000,
        y < 0x10000,
    ensures
        r.0 == low(x + y + bit_of(carry), bit as nat),
        r.1 == carries_out(half_carry_bit as nat, x as int, y as int, bit_of(carry)),
        r.2 == carries_out(carry_bit as nat, x as int, y as int, bit_of(carry)),
        r.3 == (r.0 == 0),
{
    let c: usize = if carry {
        1
    } else {
        0
    };
    proof {
        lemma_mask(bit);
        lemma_usize_low_bits_mask_is_mod((x + y + c) as usize, bit as nat);
    }
    let mask = (1usize << bit) - 1;
    let res = (x + y + c) & mask;
    let h = has_carry(half_carry_bit, x, y, c);
    let c = has_carry(carry_bit, x, y, c);
    let z = res == 0;
    (res, h, c, z)
}

/// Subtracts `y` and the borrow-in from `x` in a `bit`-wide field, wrapping;
/// the half-borrow and borrow are taken at `half_carry_bit` and `carry_bit`.
fn sub(bit: usize, x: usize, y: usize, carry: bool, half_carry_bit: usize, carry_bit: usize) -> (r: (
    usize,
    bool,
    bool,
    bool,
))
    requires
        1 <= bit <= 16,
        1 <= half_carry_bit <= 16,
        1 <= carry_bit <= 16,
        x < pow2(bit as nat),
        y < pow2(bit as nat),
    ensures
        r.0 == low(x - y - bit_of(carry), bit as nat),
        r.1 == borrows_out(half_carry_bit as nat, x as int, y as int, bit_of(carry)),
        r.2 == borrows_out(carry_bit as nat, x as int, y as int, bit_of(carry)),
        r.3 == (r.0 == 0),
{
    let c: usize = if carry {
        1
    } else {
        0
    };
    proof {
        lemma_mask(bit);
    }
    let mask = (1usize << bit) - 1;
    let wide = x + (mask + 1) - y - c;
    proof {
        lemma_usize_low_bits_mask_is_mod(wide, bit as nat);
        lemma_mod_add_multiples_vanish(x - y - c, pow2(bit as nat) as int);
    }
    let res = wide & mask;
    let h = has_borrow(half_carry_bit, x, y, c);
    let c = has_borrow(carry_bit, x, y, c);
    let z = res == 0;
    (res, h, c, z)
}

/// 8-bit addition with carry-in: (sum, half-carry, carry, zero).
pub fn add_u8(x: u8, y: u8, carry: bool) -> (r: (u8, bool, bool, bool))
    ensures
        r == add8(x, y, carry),
{
    proof {
        lemma2_to64();
    }
    let (res, h, c, z) = crate::alu::add(8, x as usize, y as usize, carry, 4, 8);
    (res as u8, h, c, z)
}

/// 16-bit addition with carry-in: (sum, carry out of bit 11, carry, zero).
pub fn add_u16(x: u16, y: u16, carry: bool) -> (r: (u16, bool, bool, bool))
    ensures
        r == add16(x, y, carry),
{
    proof {
        lemma2_to64();
    }
    let (res, h, c, z) = crate::alu::add(16, x as usize, y as usize, carry, 12, 16);
    (res as u16, h, c, z)
}

/// Adds a signed byte to a 16-bit value; flags as for an 8-bit addition.
pub fn add_u16_signed(x: u16, y: u8, carry: bool) -> (r: (u16, bool, bool, bool))
    ensures
        r == add16_signed(x, y, carry),
{
    proof {
        lemma2_to64();
    }
    let (res, h, c, z) = crate::alu::add(16, x as usize, signed(y) as usize, carry, 4, 8);
    (res as u16, h, c, z)
}

/// 8-bit subtraction with borrow-in: (difference, half-borrow, borrow, zero).
pub fn sub_u8(x: u8, y: u8, carry: bool) -> (r: (u8, bool, bool, bool))
    ensures
        r == sub8(x, y, carry),
{
    proof {
        lemma2_to64();
    }
    let (res, h, c, z) = crate::alu::sub(8, x as usize, y as usize, carry, 4, 8);
    (res as u8, h, c, z)
}

/// Sign-extends a two's-complement byte to 16 bits.
pub fn signed(v: u8) -> (r: u16)
    ensures
        r == sign_extend(v),
{
    if v & 0x80 != 0 {
        assert(v & 0x80 != 0 ==> v >= 0x80 && (0xff00u16 | v as u16) == 0xff00u16 + v as u16)
            by (bit_vector);
        0xff00 | v as u16
    } else {
        assert(v & 0x80 == 0 ==> v < 0x80) by (bit_vector);
        v as u16
    }
}

} // verus!
