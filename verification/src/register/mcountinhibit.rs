//! `mcountinhibit` register

use crate::bits::{bit_is_set, with_bit};
use crate::csr::CsrOp;
use crate::field::{read_bit, read_indexed_bit, write_bit, write_indexed_bit};
use vstd::prelude::*;

verus! {

/// The number of the `mcountinhibit` CSR.
pub const CSR: usize = 0x320;

/// Position of the `cycle[h]` inhibit bit.
pub const CY: usize = 0;

/// Position of the `instret[h]` inhibit bit.
pub const IR: usize = 2;

/// First position of the `mhpmcounterX[h]` inhibit bits.
pub const HPM_MIN: usize = 3;

/// Last position of the `mhpmcounterX[h]` inhibit bits.
pub const HPM_MAX: usize = 31;

/// `mcountinhibit` register
#[derive(Clone, Copy, Debug, PartialEq, Eq)]
pub struct Mcountinhibit {
    /// The raw value of the register.
    pub bits: usize,
}

impl Mcountinhibit {
    /// Bitmask of the bits that the register defines.
    pub const BITMASK: usize = 0xffff_fffd;

    /// Returns the bitmask of the bits that the register defines.
    pub fn bitmask(&self) -> (mask: usize)
        ensures
            mask == Self::BITMASK,
    {
        Self::BITMASK
    }

    /// Creates the register value from raw bits, which are kept as they are.
    pub fn from_bits(bits: usize) -> (reg: Self)
        ensures
            reg.bits == bits,
    {
        Self { bits }
    }

    /// Returns the contents of the register as raw bits.
    pub fn bits(&self) -> (bits: usize)
        ensures
            bits == self.bits,
    {
        self.bits
    }

    /// Gets the `cycle[h]` inhibit field value.
    pub fn cy(&self) -> (val: bool)
        ensures
            val == bit_is_set(self.bits, CY),
    {
        read_bit(self.bits, CY)
    }

    /// Sets the `cycle[h]` inhibit field value.
    ///
    /// **NOTE**: only updates the in-memory value without touching the CSR.
    pub fn set_cy(&mut self, val: bool)
        ensures
            final(self).bits == with_bit(old(self).bits, CY, val),
    {
        self.bits = write_bit(self.bits, CY, val);
    }

    /// Gets the `instret[h]` inhibit field value.
    pub fn ir(&self) -> (val: bool)
        ensures
            val == bit_is_set(self.bits, IR),
    {
        read_bit(self.bits, IR)
    }

    /// Sets the `instret[h]` inhibit field value.
    ///
    /// **NOTE**: only updates the in-memory value without touching the CSR.
    pub fn set_ir(&mut self, val: bool)
        ensures
            final(self).bits == with_bit(old(self).bits, IR, val),
    {
        self.bits = write_bit(self.bits, IR, val);
    }

    /// Gets the `mhpmcounterX[h]` inhibit field value.
    ///
    /// **WARN**: `index` must be in the range `[31:3]`.
    pub fn hpm(&self, index: usize) -> (val: bool)
        requires
            HPM_MIN <= index <= HPM_MAX,
        ensures
            val == bit_is_set(self.bits, index),
    {
        read_indexed_bit(self.bits, index, HPM_MIN, HPM_MAX)
    }

    /// Sets the `mhpmcounterX[h]` inhibit field value.
    ///
    /// **WARN**: `index` must be in the range `[31:3]`.
    ///
    /// **NOTE**: only updates the in-memory value without touching the CSR.
    pub fn set_hpm(&mut self, index: usize, val: bool)
        requires
            HPM_MIN <= index <= HPM_MAX,
        ensures
            final(self).bits == with_bit(old(self).bits, index, val),
    {
        self.bits = write_indexed_bit(self.bits, index, HPM_MIN, HPM_MAX, val);
    }
}

/// Machine cycle Disable: the operation that sets the `cycle[h]` inhibit bit
/// of the CSR.
pub fn set_cy() -> (op: CsrOp)
    ensures
        op == (CsrOp::SetBits { csr: CSR, mask: 1usize << CY }),
{
    CsrOp::SetBits { csr: CSR, mask: 1usize << CY }
}

/// The operation that clears the `cycle[h]` inhibit bit of the CSR.
pub fn clear_cy() -> (op: CsrOp)
    ensures
        op == (CsrOp::ClearBits { csr: CSR, mask: 1usize << CY }),
{
    CsrOp::ClearBits { csr: CSR, mask: 1usize << CY }
}

/// Machine instret Disable: the operation that sets the `instret[h]` inhibit
/// bit of the CSR.
pub fn set_ir() -> (op: CsrOp)
    ensures
        op == (CsrOp::SetBits { csr: CSR, mask: 1usize << IR }),
{
    CsrOp::SetBits { csr: CSR, mask: 1usize << IR }
}

/// The operation that clears the `instret[h]` inhibit bit of the CSR.
pub fn clear_ir() -> (op: CsrOp)
    ensures
        op == (CsrOp::ClearBits { csr: CSR, mask: 1usize << IR }),
{
    CsrOp::ClearBits { csr: CSR, mask: 1usize << IR }
}

/// The operation that sets the `mhpmcounterX[h]` inhibit bit at `index` of
/// the CSR. `index` must be in the range `[31:3]`.
pub fn set_hpm(index: usize) -> (op: CsrOp)
    requires
        HPM_MIN <= index <= HPM_MAX,
    ensures
        op == (CsrOp::SetBits { csr: CSR, mask: 1usize << index }),
{
    CsrOp::SetBits { csr: CSR, mask: 1usize << index }
}

/// The operation that clears the `mhpmcounterX[h]` inhibit bit at `index` of
/// the CSR. `index` must be in the range `[31:3]`.
pub fn clear_hpm(index: usize) -> (op: CsrOp)
    requires
        HPM_MIN <= index <= HPM_MAX,
    ensures
        op == (CsrOp::ClearBits { csr: CSR, mask: 1usize << index }),
{
    CsrOp::ClearBits { csr: CSR, mask: 1usize << index }
}

} // verus!
