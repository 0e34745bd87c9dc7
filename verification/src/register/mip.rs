//! `mip` register: the machine interrupt-pending bits.

use crate::bits::bit_is_set;
use crate::field::read_bit;
use vstd::prelude::*;

verus! {

/// The number of the `mip` CSR.
pub const CSR: usize = 0x344;

/// Position of the machine software interrupt pending bit.
pub const MSOFT: usize = 3;

/// Position of the machine timer interrupt pending bit.
pub const MTIMER: usize = 7;

/// Position of the machine external interrupt pending bit.
pub const MEXT: usize = 11;

/// `mip` register
#[derive(Clone, Copy, Debug, PartialEq, Eq)]
pub struct Mip {
    /// The raw value of the register.
    pub bits: usize,
}

impl Mip {
    /// Bitmask of the bits that the register defines for machine mode.
    pub const BITMASK: usize = 0x888;

    /// Returns the bitmask of the bits that the register defines for machine
    /// mode.
    pub fn bitmask(&self) -> (mask: usize)
        ensures
            mask == Self::BITMASK,
    {
        Self::BITMASK
    }

    /// Creates the register value from raw bits, which are kept as they are.
    pub fn from_bits(bits: usize) -> (reg: Self)
        ensures
            reg.bits == bits,
    {
        Self { bits }
    }

    /// Returns the contents of the register as raw bits.
    pub fn bits(&self) -> (bits: usize)
        ensures
            bits == self.bits,
    {
        self.bits
    }

    /// Machine Software Interrupt Pending
    pub fn msoft(&self) -> (val: bool)
        ensures
            val == bit_is_set(self.bits, MSOFT),
    {
        read_bit(self.bits, MSOFT)
    }

    /// Machine Timer Interrupt Pending
    pub fn mtimer(&self) -> (val: bool)
        ensures
            val == bit_is_set(self.bits, MTIMER),
    {
        read_bit(self.bits, MTIMER)
    }

    /// Machine External Interrupt Pending
    pub fn mext(&self) -> (val: bool)
        ensures
            val == bit_is_set(self.bits, MEXT),
    {
        read_bit(self.bits, MEXT)
    }
}

} // verus!
