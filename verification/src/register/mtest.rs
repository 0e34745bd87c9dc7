//! `mtest`: a read-only register that shows one field of every pattern.

use crate::bits::bit_is_set;
use crate::error::Error;
use crate::field::{
    decode, decode_or_default, lemma_enum_round_trip, range_value, read_bit, read_enum,
    read_indexed_bit, read_range, try_read_enum, try_read_indexed_bit, with_range, FieldVariant,
};
use vstd::prelude::*;

verus! {

/// The number of the `mtest` CSR.
pub const CSR: usize = 0x000;

/// Position of the `single` field.
pub const SINGLE: usize = 0;

/// First position of the `multi_range` field.
pub const MULTI_RANGE_MIN: usize = 1;

/// Last position of the `multi_range` field.
pub const MULTI_RANGE_MAX: usize = 3;

/// First bit of the `multi_field` field.
pub const MULTI_FIELD_START: usize = 4;

/// Last bit of the `multi_field` field.
pub const MULTI_FIELD_END: usize = 7;

/// First bit of the `field_enum` field.
pub const FIELD_ENUM_START: usize = 7;

/// Last bit of the `field_enum` field.
pub const FIELD_ENUM_END: usize = 11;

/// Name of the `field_enum` field, as errors report it.
pub const FIELD_ENUM_NAME: &'static str = "field_enum";

/// field enum type with valid field variants
#[derive(Clone, Copy, Debug, PartialEq, Eq)]
pub enum MtestFieldEnum {
    Field1,
    Field2,
    Field3,
    Field4,
}

impl FieldVariant for MtestFieldEnum {
    open spec fn value(self) -> usize {
        match self {
            MtestFieldEnum::Field1 => 1,
            MtestFieldEnum::Field2 => 2,
            MtestFieldEnum::Field3 => 3,
            MtestFieldEnum::Field4 => 15,
        }
    }

    open spec fn default_spec() -> Self {
        MtestFieldEnum::Field1
    }

    proof fn lemma_value_injective(a: Self, b: Self) {
    }

    fn default_variant() -> (symbol: Self) {
        MtestFieldEnum::Field1
    }

    fn into_usize(self) -> (raw: usize) {
        match self {
            MtestFieldEnum::Field1 => 1,
            MtestFieldEnum::Field2 => 2,
            MtestFieldEnum::Field3 => 3,
            MtestFieldEnum::Field4 => 15,
        }
    }

    fn from_usize(raw: usize) -> (found: Option<Self>) {
        match raw {
            1 => Some(MtestFieldEnum::Field1),
            2 => Some(MtestFieldEnum::Field2),
            3 => Some(MtestFieldEnum::Field3),
            15 => Some(MtestFieldEnum::Field4),
            _ => None,
        }
    }
}

/// test CSR register type
#[derive(Clone, Copy, Debug, PartialEq, Eq)]
pub struct Mtest {
    /// The raw value of the register.
    pub bits: usize,
}

impl Mtest {
    /// Bitmask of the bits that the register defines.
    pub const BITMASK: usize = 0b1111_1111_1111;

    /// Creates the register value from raw bits. Bits outside the bitmask are
    /// kept: only a field accessor masks anything out.
    pub fn from_bits(bits: usize) -> (reg: Self)
        ensures
            reg.bits == bits,
    {
        Self { bits }
    }

    /// Returns the contents of the register as raw bits.
    pub fn bits(&self) -> (bits: usize)
        ensures
            bits == self.bits,
    {
        self.bits
    }

    /// Returns the bitmask of the bits that the register defines.
    pub fn bitmask(&self) -> (mask: usize)
        ensures
            mask == Self::BITMASK,
    {
        Self::BITMASK
    }

    /// test single-bit field
    pub fn single(&self) -> (val: bool)
        ensures
            val == bit_is_set(self.bits, SINGLE),
    {
        read_bit(self.bits, SINGLE)
    }

    /// try-getter test single-bit field
    pub fn try_single(&self) -> (res: Result<bool, Error>)
        ensures
            res == Ok::<bool, Error>(bit_is_set(self.bits, SINGLE)),
    {
        Ok(read_bit(self.bits, SINGLE))
    }

    /// multiple single-bit field range
    ///
    /// **WARN**: `index` must be in the range `[1, 3]`.
    pub fn multi_range(&self, index: usize) -> (val: bool)
        requires
            MULTI_RANGE_MIN <= index <= MULTI_RANGE_MAX,
        ensures
            val == bit_is_set(self.bits, index),
    {
        read_indexed_bit(self.bits, index, MULTI_RANGE_MIN, MULTI_RANGE_MAX)
    }

    /// try-getter multiple single-bit field range
    pub fn try_multi_range(&self, index: usize) -> (res: Result<bool, Error>)
        ensures
            res == if MULTI_RANGE_MIN <= index <= MULTI_RANGE_MAX {
                Ok::<bool, Error>(bit_is_set(self.bits, index))
            } else {
                Err::<bool, Error>(Error::OutOfBounds)
            },
    {
        try_read_indexed_bit(self.bits, index, MULTI_RANGE_MIN, MULTI_RANGE_MAX)
    }

    /// multi-bit field
    pub fn multi_field(&self) -> (val: usize)
        ensures
            val == range_value(self.bits, MULTI_FIELD_START, MULTI_FIELD_END),
    {
        read_range(self.bits, MULTI_FIELD_START, MULTI_FIELD_END)
    }

    /// try-getter multi-bit field
    pub fn try_multi_field(&self) -> (res: Result<usize, Error>)
        ensures
            res == Ok::<usize, Error>(range_value(self.bits, MULTI_FIELD_START, MULTI_FIELD_END)),
    {
        Ok(read_range(self.bits, MULTI_FIELD_START, MULTI_FIELD_END))
    }

    /// multi-bit field, decoded; a value that no variant stands for reads as
    /// the default variant, `Field1`.
    pub fn field_enum(&self) -> (symbol: MtestFieldEnum)
        ensures
            symbol == decode_or_default::<MtestFieldEnum>(
                range_value(self.bits, FIELD_ENUM_START, FIELD_ENUM_END),
            ),
    {
        read_enum::<MtestFieldEnum>(self.bits, FIELD_ENUM_START, FIELD_ENUM_END)
    }

    /// try-getter multi-bit field, decoded; a value that no variant stands
    /// for is reported with the field's name.
    pub fn try_field_enum(&self) -> (res: Result<MtestFieldEnum, Error>)
        ensures
            res == decode::<MtestFieldEnum>(
                FIELD_ENUM_NAME,
                range_value(self.bits, FIELD_ENUM_START, FIELD_ENUM_END),
            ),
    {
        try_read_enum::<MtestFieldEnum>(
            self.bits,
            FIELD_ENUM_START,
            FIELD_ENUM_END,
            FIELD_ENUM_NAME,
        )
    }
}

/// Every field of the register lies inside its bitmask: a bit outside the
/// bitmask changes what no accessor returns.
pub proof fn lemma_fields_inside_bitmask(bits: usize, index: usize)
    requires
        MULTI_RANGE_MIN <= index <= MULTI_RANGE_MAX,
    ensures
        bit_is_set(bits & Mtest::BITMASK, SINGLE) == bit_is_set(bits, SINGLE),
        bit_is_set(bits & Mtest::BITMASK, index) == bit_is_set(bits, index),
        range_value(bits & Mtest::BITMASK, MULTI_FIELD_START, MULTI_FIELD_END) == range_value(
            bits,
            MULTI_FIELD_START,
            MULTI_FIELD_END,
        ),
        range_value(bits & Mtest::BITMASK, FIELD_ENUM_START, FIELD_ENUM_END) == range_value(
            bits,
            FIELD_ENUM_START,
            FIELD_ENUM_END,
        ),
{
    assert(bit_is_set(bits & 0xfff, 0) == bit_is_set(bits, 0) && bit_is_set(bits & 0xfff, index)
        == bit_is_set(bits, index) && range_value(bits & 0xfff, 4, 7) == range_value(bits, 4, 7)
        && range_value(bits & 0xfff, 7, 11) == range_value(bits, 7, 11)) by (bit_vector)
        requires
            1 <= index <= 3,
    ;
}

/// Every variant of the enumerated field fits in the field, so writing its
/// integer to the field and reading the register decodes to that variant.
pub proof fn lemma_field_enum_round_trip(bits: usize, symbol: MtestFieldEnum)
    ensures
        decode::<MtestFieldEnum>(
            FIELD_ENUM_NAME,
            range_value(
                with_range(bits, FIELD_ENUM_START, FIELD_ENUM_END, symbol.value()),
                FIELD_ENUM_START,
                FIELD_ENUM_END,
            ),
        ) == Ok::<MtestFieldEnum, Error>(symbol),
        decode_or_default::<MtestFieldEnum>(
            range_value(
                with_range(bits, FIELD_ENUM_START, FIELD_ENUM_END, symbol.value()),
                FIELD_ENUM_START,
                FIELD_ENUM_END,
            ),
        ) == symbol,
{
    vstd::arithmetic::power2::lemma2_to64();
    lemma_enum_round_trip::<MtestFieldEnum>(
        bits,
        FIELD_ENUM_START,
        FIELD_ENUM_END,
        FIELD_ENUM_NAME,
        symbol,
    );
}

} // verus!
