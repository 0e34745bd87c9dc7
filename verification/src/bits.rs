//! Extraction and insertion of bit fields in a machine word.

use vstd::arithmetic::power2::pow2;
use vstd::bits::{
    lemma_usize_low_bits_mask_is_mod, lemma_usize_pow2_no_overflow, lemma_usize_shl_is_mul,
    lemma_usize_shr_is_div, low_bits_mask,
};
use vstd::prelude::*;

verus! {

/// The word whose low `width` bits are set and whose other bits are clear.
pub open spec fn low_mask(width: usize) -> usize {
    if width >= usize::BITS {
        !0usize
    } else {
        ((1usize << width) - 1) as usize
    }
}

/// The `width` bits of `word` that start at position `bit`, moved down to
/// position 0.
pub open spec fn extract(word: usize, bit: usize, width: usize) -> usize {
    (word >> bit) & low_mask(width)
}

/// `word` with the `width` bits that start at position `bit` replaced by the
/// low `width` bits of `value`.
pub open spec fn insert(word: usize, bit: usize, width: usize, value: usize) -> usize {
    (word & !(low_mask(width) << bit)) | ((value & low_mask(width)) << bit)
}

/// Computes the mask of the low `width` bits.
pub fn mask_of(width: usize) -> (mask: usize)
    ensures
        mask == low_mask(width),
{
    if width >= usize::BITS as usize {
        !0usize
    } else {
        assert((1usize << width) >= 1) by (bit_vector)
            requires
                width < usize::BITS,
        ;
        (1usize << width) - 1
    }
}

/// Extracts `width` bits of `orig` from bit offset `bit` and returns them
/// shifted to bit 0.
pub fn bf_extract(orig: usize, bit: usize, width: usize) -> (val: usize)
    requires
        bit < usize::BITS,
        bit + width <= usize::BITS,
    ensures
        val == extract(orig, bit, width),
{
    (orig >> bit) & mask_of(width)
}

/// Inserts a new value into a bit field: `value` is masked to `width` bits and
/// replaces the bits of `orig` from bit offset `bit` on.
pub fn bf_insert(orig: usize, bit: usize, width: usize, value: usize) -> (word: usize)
    requires
        bit < usize::BITS,
        bit + width <= usize::BITS,
    ensures
        word == insert(orig, bit, width, value),
{
    let mask: usize = mask_of(width);
    (orig & !(mask << bit)) | ((value & mask) << bit)
}

/// Whether the bit of `word` at position `pos` is set.
pub open spec fn bit_is_set(word: usize, pos: usize) -> bool {
    (word >> pos) & 1 != 0
}

/// `word` with the bit at position `pos` set (`val`) or cleared (`!val`).
pub open spec fn with_bit(word: usize, pos: usize, val: bool) -> usize {
    if val {
        word | (1usize << pos)
    } else {
        word & !(1usize << pos)
    }
}

/// Reads the single bit of `orig` at position `pos`.
pub fn bf_get_bit(orig: usize, pos: usize) -> (val: bool)
    requires
        pos < usize::BITS,
    ensures
        val == bit_is_set(orig, pos),
{
    (orig >> pos) & 1 != 0
}

/// Sets or clears the single bit of `orig` at position `pos`.
pub fn bf_set_bit(orig: usize, pos: usize, val: bool) -> (word: usize)
    requires
        pos < usize::BITS,
    ensures
        word == with_bit(orig, pos, val),
{
    if val {
        orig | (1usize << pos)
    } else {
        orig & !(1usize << pos)
    }
}

/// A single bit is the field of width one at the same position.
pub proof fn lemma_bit_is_field(word: usize, pos: usize, val: bool)
    by (bit_vector)
    requires
        pos < usize::BITS,
    ensures
        bit_is_set(word, pos) == (extract(word, pos, 1) != 0),
        with_bit(word, pos, val) == insert(word, pos, 1, if val { 1usize } else { 0usize }),
{
}

/// Writing a bit and reading it back gives what was written, and no other bit
/// of the word changes.
pub proof fn lemma_bit_write_read(word: usize, pos: usize, val: bool, other: usize)
    by (bit_vector)
    requires
        pos < usize::BITS,
        other < usize::BITS,
    ensures
        bit_is_set(with_bit(word, pos, val), pos) == val,
        other != pos ==> bit_is_set(with_bit(word, pos, val), other) == bit_is_set(word, other),
        with_bit(word, pos, val) & !(1usize << pos) == word & !(1usize << pos),
{
}

/// Reading a field back after writing it gives the written value truncated to
/// the field's width.
pub proof fn lemma_extract_insert(word: usize, bit: usize, width: usize, value: usize)
    by (bit_vector)
    requires
        bit < usize::BITS,
        bit + width <= usize::BITS,
    ensures
        extract(insert(word, bit, width, value), bit, width) == value & low_mask(width),
{
}

/// Masking to the low `width` bits is the remainder modulo `2^width`; a value
/// below `2^width` passes through a field of that width unchanged.
pub proof fn lemma_low_mask_is_mod(value: usize, width: usize)
    requires
        width < usize::BITS,
    ensures
        (value & low_mask(width)) as int == (value as int) % (pow2(width as nat) as int),
        value < pow2(width as nat) ==> value & low_mask(width) == value,
{
    lemma_usize_pow2_no_overflow(width as nat);
    lemma_usize_shl_is_mul(1usize, width);
    assert(low_mask(width) == low_bits_mask(width as nat));
    lemma_usize_low_bits_mask_is_mod(value, width as nat);
    if value < pow2(width as nat) {
        vstd::arithmetic::div_mod::lemma_small_mod(value as nat, pow2(width as nat));
    }
}

/// In arithmetic, the field of `width` bits at position `bit` is the word
/// divided by `2^bit`, modulo `2^width`.
pub proof fn lemma_extract_is_div_mod(word: usize, bit: usize, width: usize)
    requires
        bit < usize::BITS,
        width < usize::BITS,
    ensures
        extract(word, bit, width) == (word as int / pow2(bit as nat) as int) % (pow2(
            width as nat,
        ) as int),
{
    lemma_usize_pow2_no_overflow(bit as nat);
    lemma_usize_shr_is_div(word, bit);
    lemma_low_mask_is_mod(word >> bit, width);
}

/// Writing a field changes no bit outside the field.
pub proof fn lemma_insert_frame(word: usize, bit: usize, width: usize, value: usize)
    by (bit_vector)
    requires
        bit < usize::BITS,
        bit + width <= usize::BITS,
    ensures
        insert(word, bit, width, value) & !(low_mask(width) << bit) == word & !(low_mask(width)
            << bit),
{
}

/// Writing one field leaves every field that does not overlap it as it was.
pub proof fn lemma_insert_disjoint(
    word: usize,
    bit: usize,
    width: usize,
    value: usize,
    other_bit: usize,
    other_width: usize,
)
    by (bit_vector)
    requires
        bit < usize::BITS,
        bit + width <= usize::BITS,
        other_bit < usize::BITS,
        other_bit + other_width <= usize::BITS,
        other_bit + other_width <= bit || bit + width <= other_bit,
    ensures
        extract(insert(word, bit, width, value), other_bit, other_width) == extract(
            word,
            other_bit,
            other_width,
        ),
{
}

/// Writing back what a field already holds changes nothing.
pub proof fn lemma_insert_extract(word: usize, bit: usize, width: usize)
    by (bit_vector)
    requires
        bit < usize::BITS,
        bit + width <= usize::BITS,
    ensures
        insert(word, bit, width, extract(word, bit, width)) == word,
{
}

} // verus!
