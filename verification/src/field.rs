//! The field patterns that register types are built from: a single bit, a
//! single bit chosen by a run-time index, a multi-bit range, and a multi-bit
//! range that decodes to an enumeration.
//!
//! Ranges are written as in register manuals, by their first and last bit:
//! the field `[start:end]` holds `end - start + 1` bits.

use crate::bits::{
    bf_extract, bf_get_bit, bf_insert, bf_set_bit, bit_is_set, extract, insert,
    lemma_extract_insert, lemma_insert_disjoint, lemma_low_mask_is_mod, low_mask, with_bit,
};
use crate::error::Error;
use vstd::arithmetic::power2::pow2;
use vstd::prelude::*;

verus! {

/// Whether `[start:end]` names a field that lies inside a machine word.
pub open spec fn valid_range(start: usize, end: usize) -> bool {
    start <= end < usize::BITS
}

/// The number of bits of the field `[start:end]`.
pub open spec fn range_width(start: usize, end: usize) -> usize {
    (end - start + 1) as usize
}

/// The integer held by the field `[start:end]` of `bits`.
pub open spec fn range_value(bits: usize, start: usize, end: usize) -> usize {
    extract(bits, start, range_width(start, end))
}

/// `bits` with the field `[start:end]` holding the low bits of `value`.
pub open spec fn with_range(bits: usize, start: usize, end: usize, value: usize) -> usize {
    insert(bits, start, range_width(start, end), value)
}

/// Reads the single-bit field at position `bit`.
pub fn read_bit(bits: usize, bit: usize) -> (val: bool)
    requires
        bit < usize::BITS,
    ensures
        val == bit_is_set(bits, bit),
{
    bf_get_bit(bits, bit)
}

/// Writes the single-bit field at position `bit`.
pub fn write_bit(bits: usize, bit: usize, val: bool) -> (word: usize)
    requires
        bit < usize::BITS,
    ensures
        word == with_bit(bits, bit, val),
{
    bf_set_bit(bits, bit, val)
}

/// Reads the bit at position `index` of a field that repeats over the
/// positions `[lo, hi]`. The caller has checked that `index` is one of them.
pub fn read_indexed_bit(bits: usize, index: usize, lo: usize, hi: usize) -> (val: bool)
    requires
        hi < usize::BITS,
        lo <= index <= hi,
    ensures
        val == bit_is_set(bits, index),
{
    bf_get_bit(bits, index)
}

/// Reads the bit at position `index` of a field that repeats over the
/// positions `[lo, hi]`, rejecting an index outside them.
pub fn try_read_indexed_bit(bits: usize, index: usize, lo: usize, hi: usize) -> (res: Result<
    bool,
    Error,
>)
    requires
        hi < usize::BITS,
    ensures
        match res {
            Ok(val) => lo <= index <= hi && val == bit_is_set(bits, index),
            Err(e) => !(lo <= index <= hi) && e is OutOfBounds,
        },
{
    if lo <= index && index <= hi {
        Ok(bf_get_bit(bits, index))
    } else {
        Err(Error::OutOfBounds)
    }
}

/// Writes the bit at position `index` of a field that repeats over the
/// positions `[lo, hi]`. The caller has checked that `index` is one of them.
pub fn write_indexed_bit(bits: usize, index: usize, lo: usize, hi: usize, val: bool) -> (word:
    usize)
    requires
        hi < usize::BITS,
        lo <= index <= hi,
    ensures
        word == with_bit(bits, index, val),
{
    bf_set_bit(bits, index, val)
}

/// Reads the multi-bit field `[start:end]`: only the field's own bits, moved
/// down to position 0.
pub fn read_range(bits: usize, start: usize, end: usize) -> (val: usize)
    requires
        valid_range(start, end),
    ensures
        val == range_value(bits, start, end),
{
    bf_extract(bits, start, end - start + 1)
}

/// Writes the multi-bit field `[start:end]`; a value wider than the field is
/// truncated to the field's width.
pub fn write_range(bits: usize, start: usize, end: usize, value: usize) -> (word: usize)
    requires
        valid_range(start, end),
    ensures
        word == with_range(bits, start, end, value),
{
    bf_insert(bits, start, end - start + 1, value)
}

/// The symbols of an enumerated field. Each symbol stands for one integer, no
/// two symbols for the same one, and one symbol is the designated default.
pub trait FieldVariant: Sized + Copy {
    /// The integer that the symbol stands for.
    spec fn value(self) -> usize;

    /// The designated default symbol.
    spec fn default_spec() -> Self;

    /// Distinct symbols stand for distinct integers.
    proof fn lemma_value_injective(a: Self, b: Self)
        requires
            a.value() == b.value(),
        ensures
            a == b,
    ;

    /// The designated default symbol.
    fn default_variant() -> (symbol: Self)
        ensures
            symbol == Self::default_spec(),
    ;

    /// The integer that the symbol stands for.
    fn into_usize(self) -> (raw: usize)
        ensures
            raw == self.value(),
    ;

    /// The symbol that stands for `raw`, if there is one.
    fn from_usize(raw: usize) -> (found: Option<Self>)
        ensures
            match found {
                Some(symbol) => symbol.value() == raw,
                None => forall|symbol: Self| #[trigger] symbol.value() != raw,
            },
    ;
}

/// Whether some symbol of `E` stands for `raw`.
pub open spec fn has_variant<E: FieldVariant>(raw: usize) -> bool {
    exists|symbol: E| #[trigger] symbol.value() == raw
}

/// The symbol of `E` that stands for `raw`, where there is one.
pub open spec fn variant_of<E: FieldVariant>(raw: usize) -> E {
    choose|symbol: E| #[trigger] symbol.value() == raw
}

/// What a fallible read of an enumerated field named `field` gives when the
/// field holds `raw`.
pub open spec fn decode<E: FieldVariant>(field: &'static str, raw: usize) -> Result<E, Error> {
    if has_variant::<E>(raw) {
        Ok(variant_of::<E>(raw))
    } else {
        Err(Error::InvalidFieldVariant { field, value: raw })
    }
}

/// What a plain read of an enumerated field gives when the field holds `raw`:
/// the matching symbol, or the default symbol where none matches.
pub open spec fn decode_or_default<E: FieldVariant>(raw: usize) -> E {
    if has_variant::<E>(raw) {
        variant_of::<E>(raw)
    } else {
        E::default_spec()
    }
}

/// A raw integer decodes to a symbol exactly when that symbol stands for it.
pub proof fn lemma_decode_variant<E: FieldVariant>(field: &'static str, symbol: E)
    ensures
        has_variant::<E>(symbol.value()),
        variant_of::<E>(symbol.value()) == symbol,
        decode::<E>(field, symbol.value()) == Ok::<E, Error>(symbol),
        decode_or_default::<E>(symbol.value()) == symbol,
{
    E::lemma_value_injective(variant_of::<E>(symbol.value()), symbol);
}

/// Looks `raw` up among the symbols of `E`, naming `field` in the error.
pub fn try_decode<E: FieldVariant>(field: &'static str, raw: usize) -> (res: Result<E, Error>)
    ensures
        res == decode::<E>(field, raw),
{
    match E::from_usize(raw) {
        Some(symbol) => {
            proof {
                lemma_decode_variant::<E>(field, symbol);
            }
            Ok(symbol)
        },
        None => Err(Error::InvalidFieldVariant { field, value: raw }),
    }
}

/// Reads the enumerated field `[start:end]` named `field`: the symbol that
/// stands for the integer in the field, or `InvalidFieldVariant` with that
/// integer where no symbol does.
pub fn try_read_enum<E: FieldVariant>(
    bits: usize,
    start: usize,
    end: usize,
    field: &'static str,
) -> (res: Result<E, Error>)
    requires
        valid_range(start, end),
    ensures
        res == decode::<E>(field, range_value(bits, start, end)),
{
    try_decode::<E>(field, read_range(bits, start, end))
}

/// Reads the enumerated field `[start:end]`, giving the default symbol where
/// the integer in the field matches none.
pub fn read_enum<E: FieldVariant>(bits: usize, start: usize, end: usize) -> (symbol: E)
    requires
        valid_range(start, end),
    ensures
        symbol == decode_or_default::<E>(range_value(bits, start, end)),
{
    let raw: usize = read_range(bits, start, end);
    match E::from_usize(raw) {
        Some(symbol) => {
            proof {
                lemma_decode_variant::<E>("", symbol);
            }
            symbol
        },
        None => E::default_variant(),
    }
}

/// Writes the integer of `symbol` into the enumerated field `[start:end]`.
pub fn write_enum<E: FieldVariant>(bits: usize, start: usize, end: usize, symbol: E) -> (word:
    usize)
    requires
        valid_range(start, end),
    ensures
        word == with_range(bits, start, end, symbol.value()),
{
    write_range(bits, start, end, symbol.into_usize())
}

/// Writing `value` to a multi-bit field and reading the field back gives
/// `value` modulo two to the field's width: `value` itself where it fits in
/// the field, its low bits where it does not.
pub proof fn lemma_range_round_trip(bits: usize, start: usize, end: usize, value: usize)
    requires
        valid_range(start, end),
    ensures
        range_value(with_range(bits, start, end, value), start, end) == (value as int) % (pow2(
            range_width(start, end) as nat,
        ) as int),
        value < pow2(range_width(start, end) as nat) ==> range_value(
            with_range(bits, start, end, value),
            start,
            end,
        ) == value,
{
    let width: usize = range_width(start, end);
    lemma_extract_insert(bits, start, width, value);
    if width < usize::BITS {
        lemma_low_mask_is_mod(value, width);
    } else {
        assert(value & !0usize == value) by (bit_vector);
        vstd::arithmetic::power2::lemma2_to64();
        vstd::arithmetic::power2::lemma2_to64_rest();
        vstd::arithmetic::div_mod::lemma_small_mod(value as nat, pow2(width as nat));
    }
}

/// Writing one multi-bit field leaves a field that does not overlap it as it
/// was.
pub proof fn lemma_range_frame(
    bits: usize,
    start: usize,
    end: usize,
    value: usize,
    other_start: usize,
    other_end: usize,
)
    requires
        valid_range(start, end),
        valid_range(other_start, other_end),
        other_end < start || end < other_start,
    ensures
        range_value(with_range(bits, start, end, value), other_start, other_end) == range_value(
            bits,
            other_start,
            other_end,
        ),
{
    lemma_insert_disjoint(
        bits,
        start,
        range_width(start, end),
        value,
        other_start,
        range_width(other_start, other_end),
    );
}

/// Writing the integer of a symbol to an enumerated field wide enough to hold
/// it and reading the field back decodes to that symbol, by the fallible read
/// and by the plain read alike.
pub proof fn lemma_enum_round_trip<E: FieldVariant>(
    bits: usize,
    start: usize,
    end: usize,
    field: &'static str,
    symbol: E,
)
    requires
        valid_range(start, end),
        symbol.value() < pow2(range_width(start, end) as nat),
    ensures
        decode::<E>(field, range_value(with_range(bits, start, end, symbol.value()), start, end))
            == Ok::<E, Error>(symbol),
        decode_or_default::<E>(
            range_value(with_range(bits, start, end, symbol.value()), start, end),
        ) == symbol,
{
    lemma_range_round_trip(bits, start, end, symbol.value());
    lemma_decode_variant::<E>(field, symbol);
}

/// A field that holds an integer for which no symbol stands fails to decode,
/// and the error names the field and carries that integer; the plain read
/// gives the default symbol.
pub proof fn lemma_enum_invalid<E: FieldVariant>(field: &'static str, raw: usize)
    requires
        forall|symbol: E| #[trigger] symbol.value() != raw,
    ensures
        decode::<E>(field, raw) == Err::<E, Error>(
            Error::InvalidFieldVariant { field, value: raw },
        ),
        decode_or_default::<E>(raw) == E::default_spec(),
{
}

} // verus!
