//! Bit fields of a register word, and the passing of a 64-bit value in
//! registers that may be narrower than it.

use bit_field::BitField;
use vstd::arithmetic::div_mod::{
    lemma_breakdown, lemma_div_denominator, lemma_fundamental_div_mod, lemma_mod_bound,
    lemma_small_mod,
};
use vstd::arithmetic::power2::{
    lemma2_to64, lemma_pow2_adds, lemma_pow2_pos, lemma_pow2_strictly_increases, pow2,
};
use vstd::prelude::*;

verus! {

/// The bits `low..high` of `word`, moved down so that bit `low` of `word` is
/// bit 0 of the result.
pub open spec fn bit_range(word: nat, low: nat, high: nat) -> nat
    recommends
        low <= high,
{
    (word / pow2(low)) % pow2((high - low) as nat)
}

/// `bit_field::BitField::get_bits` on a `u32` with the range `low..high`.
///
/// For a range that is not empty and ends within the word, the method shifts
/// out the bits from `high` up, then the bits below `low`, and returns what is
/// left: bits `low..high` of `word` at positions `0..high - low`.
#[verifier::external_body]
pub(crate) fn get_bits_u32(word: u32, low: usize, high: usize) -> (field: u32)
    requires
        low < high <= 32,
    ensures
        field == bit_range(word as nat, low as nat, high as nat),
{
    word.get_bits(low..high)
}

/// `bit_field::BitField::get_bits` on a `u64` with the range `low..high`.
///
/// For a range that is not empty and ends within the word, the method shifts
/// out the bits from `high` up, then the bits below `low`, and returns what is
/// left: bits `low..high` of `word` at positions `0..high - low`.
#[verifier::external_body]
pub(crate) fn get_bits_u64(word: u64, low: usize, high: usize) -> (field: u64)
    requires
        low < high <= 64,
    ensures
        field == bit_range(word as nat, low as nat, high as nat),
{
    word.get_bits(low..high)
}

/// A bit field is less than two to the power of its width.
pub proof fn lemma_bit_range_bound(word: nat, low: nat, high: nat)
    requires
        low <= high,
    ensures
        bit_range(word, low, high) < pow2((high - low) as nat),
{
    let width = (high - low) as nat;
    lemma_pow2_pos(width);
    lemma_mod_bound((word / pow2(low)) as int, pow2(width) as int);
}

/// Two adjoining bit fields make up the field that spans both: the lower one
/// gives its low bits, the upper one the bits above them.
pub proof fn lemma_bit_range_split(word: nat, low: nat, mid: nat, high: nat)
    requires
        low <= mid <= high,
    ensures
        bit_range(word, low, high) == bit_range(word, low, mid) + pow2((mid - low) as nat)
            * bit_range(word, mid, high),
{
    let lower = (mid - low) as nat;
    let upper = (high - mid) as nat;
    let shifted = word / pow2(low);
    lemma_pow2_pos(low);
    lemma_pow2_pos(lower);
    lemma_pow2_pos(upper);
    lemma_pow2_adds(lower, upper);
    lemma_pow2_adds(low, lower);
    lemma_breakdown(shifted as int, pow2(lower) as int, pow2(upper) as int);
    lemma_div_denominator(word as int, pow2(low) as int, pow2(lower) as int);
}

/// The low 32 bits of a 64-bit value.
pub open spec fn low_half(value: u64) -> u32 {
    (value % 0x1_0000_0000) as u32
}

/// The high 32 bits of a 64-bit value.
pub open spec fn high_half(value: u64) -> u32 {
    (value / 0x1_0000_0000) as u32
}

/// The 64-bit value whose low 32 bits are `low` and whose high 32 bits are
/// `high`.
pub open spec fn joined(low: u32, high: u32) -> u64 {
    (low + 0x1_0000_0000 * high) as u64
}

/// Splits a 64-bit value into its low and its high 32 bits, in that order.
pub fn split_wide(value: u64) -> (halves: (u32, u32))
    ensures
        halves.0 == low_half(value),
        halves.1 == high_half(value),
{
    let low = get_bits_u64(value, 0, 32);
    let high = get_bits_u64(value, 32, 64);
    proof {
        lemma2_to64();
        let top = value as nat / 0x1_0000_0000;
        assert(top < 0x1_0000_0000);
        lemma_small_mod(top, 0x1_0000_0000);
    }
    (low as u32, high as u32)
}

/// Puts the low and the high 32 bits of a 64-bit value together again.
pub fn join_wide(low: u32, high: u32) -> (value: u64)
    ensures
        value == joined(low, high),
{
    low as u64 + 0x1_0000_0000 * (high as u64)
}

/// Joining the halves of a value gives the value back.
pub proof fn lemma_join_split(value: u64)
    ensures
        joined(low_half(value), high_half(value)) == value,
{
    lemma_fundamental_div_mod(value as int, 0x1_0000_0000);
}

/// Splitting what was joined gives the two halves back.
pub proof fn lemma_split_join(low: u32, high: u32)
    ensures
        low_half(joined(low, high)) == low,
        high_half(joined(low, high)) == high,
{
}

/// The two register words in which a 64-bit value is passed to the firmware
/// where a register has `word_bits` bits. A register of 64 bits or more takes
/// the value whole, and the second word is not used. A narrower register
/// takes half of it: the low 32 bits go first, the high 32 bits second.
pub open spec fn wide_words(value: u64, word_bits: nat) -> (u64, u64) {
    if word_bits >= 64 {
        (value, 0)
    } else {
        (low_half(value) as u64, high_half(value) as u64)
    }
}

/// Lays a 64-bit value out in registers of `word_bits` bits each. On a target
/// with registers of at least 32 bits, each word of the result fits in one.
pub fn encode_wide(value: u64, word_bits: u32) -> (words: (u64, u64))
    ensures
        words == wide_words(value, word_bits as nat),
        word_bits >= 32 ==> words.0 < pow2(word_bits as nat) && words.1 < pow2(word_bits as nat),
{
    proof {
        lemma2_to64();
        if word_bits > 64 {
            lemma_pow2_strictly_increases(64, word_bits as nat);
        }
        if 32 < word_bits {
            lemma_pow2_strictly_increases(32, word_bits as nat);
        }
    }
    if word_bits >= 64 {
        (value, 0)
    } else {
        let (low, high) = split_wide(value);
        (low as u64, high as u64)
    }
}

} // verus!
