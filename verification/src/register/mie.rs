//! `mie` register: the machine interrupt-enable bits.

use crate::bits::{bit_is_set, with_bit};
use crate::csr::CsrOp;
use crate::field::{read_bit, write_bit};
use vstd::prelude::*;

verus! {

/// The number of the `mie` CSR.
pub const CSR: usize = 0x304;

/// Position of the machine software interrupt enable bit.
pub const MSOFT: usize = 3;

/// Position of the machine timer interrupt enable bit.
pub const MTIMER: usize = 7;

/// Position of the machine external interrupt enable bit.
pub const MEXT: usize = 11;

/// `mie` register
#[derive(Clone, Copy, Debug, PartialEq, Eq)]
pub struct Mie {
    /// The raw value of the register.
    pub bits: usize,
}

impl Mie {
    /// Bitmask of the bits that the register defines for machine mode.
    pub const BITMASK: usize = 0x888;

    /// Returns the bitmask of the bits that the register defines for machine
    /// mode.
    pub fn bitmask(&self) -> (mask: usize)
        ensures
            mask == Self::BITMASK,
    {
        Self::BITMASK
    }

    /// Creates the register value from raw bits, which are kept as they are.
    pub fn from_bits(bits: usize) -> (reg: Self)
        ensures
            reg.bits == bits,
    {
        Self { bits }
    }

    /// Returns the contents of the register as raw bits.
    pub fn bits(&self) -> (bits: usize)
        ensures
            bits == self.bits,
    {
        self.bits
    }

    /// Machine Software Interrupt Enable
    pub fn msoft(&self) -> (val: bool)
        ensures
            val == bit_is_set(self.bits, MSOFT),
    {
        read_bit(self.bits, MSOFT)
    }

    /// Sets the Machine Software Interrupt Enable field of the in-memory value.
    pub fn set_msoft(&mut self, val: bool)
        ensures
            final(self).bits == with_bit(old(self).bits, MSOFT, val),
    {
        self.bits = write_bit(self.bits, MSOFT, val);
    }

    /// Machine Timer Interrupt Enable
    pub fn mtimer(&self) -> (val: bool)
        ensures
            val == bit_is_set(self.bits, MTIMER),
    {
        read_bit(self.bits, MTIMER)
    }

    /// Sets the Machine Timer Interrupt Enable field of the in-memory value.
    pub fn set_mtimer(&mut self, val: bool)
        ensures
            final(self).bits == with_bit(old(self).bits, MTIMER, val),
    {
        self.bits = write_bit(self.bits, MTIMER, val);
    }

    /// Machine External Interrupt Enable
    pub fn mext(&self) -> (val: bool)
        ensures
            val == bit_is_set(self.bits, MEXT),
    {
        read_bit(self.bits, MEXT)
    }

    /// Sets the Machine External Interrupt Enable field of the in-memory value.
    pub fn set_mext(&mut self, val: bool)
        ensures
            final(self).bits == with_bit(old(self).bits, MEXT, val),
    {
        self.bits = write_bit(self.bits, MEXT, val);
    }
}

/// The operation that sets the enable bit at position `bit` of the CSR.
pub open spec fn enable_op(bit: usize) -> CsrOp {
    CsrOp::SetBits { csr: CSR, mask: 1usize << bit }
}

/// The operation that clears the enable bit at position `bit` of the CSR.
pub open spec fn disable_op(bit: usize) -> CsrOp {
    CsrOp::ClearBits { csr: CSR, mask: 1usize << bit }
}

/// The operation that enables machine software interrupts.
pub fn set_msoft() -> (op: CsrOp)
    ensures
        op == enable_op(MSOFT),
{
    CsrOp::SetBits { csr: CSR, mask: 1usize << MSOFT }
}

/// The operation that disables machine software interrupts.
pub fn clear_msoft() -> (op: CsrOp)
    ensures
        op == disable_op(MSOFT),
{
    CsrOp::ClearBits { csr: CSR, mask: 1usize << MSOFT }
}

/// The operation that enables machine timer interrupts.
pub fn set_mtimer() -> (op: CsrOp)
    ensures
        op == enable_op(MTIMER),
{
    CsrOp::SetBits { csr: CSR, mask: 1usize << MTIMER }
}

/// The operation that disables machine timer interrupts.
pub fn clear_mtimer() -> (op: CsrOp)
    ensures
        op == disable_op(MTIMER),
{
    CsrOp::ClearBits { csr: CSR, mask: 1usize << MTIMER }
}

/// The operation that enables machine external interrupts.
pub fn set_mext() -> (op: CsrOp)
    ensures
        op == enable_op(MEXT),
{
    CsrOp::SetBits { csr: CSR, mask: 1usize << MEXT }
}

/// The operation that disables machine external interrupts.
pub fn clear_mext() -> (op: CsrOp)
    ensures
        op == disable_op(MEXT),
{
    CsrOp::ClearBits { csr: CSR, mask: 1usize << MEXT }
}

} // verus!
