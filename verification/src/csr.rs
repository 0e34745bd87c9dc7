//! Changes to a control/status register, as values.
//!
//! The library never executes a CSR instruction. A function that would set or
//! clear bits of a CSR returns a [`CsrOp`] instead, and the caller performs it
//! with the matching instruction.

use crate::bits::with_bit;
use vstd::prelude::*;

verus! {

/// One atomic read-modify-write of a CSR.
#[derive(Clone, Copy, Debug, PartialEq, Eq)]
pub enum CsrOp {
    /// Set the bits of `mask` in the CSR numbered `csr`.
    SetBits { csr: usize, mask: usize },
    /// Clear the bits of `mask` in the CSR numbered `csr`.
    ClearBits { csr: usize, mask: usize },
}

impl CsrOp {
    /// The number of the CSR that the operation changes.
    pub open spec fn target(self) -> usize {
        match self {
            CsrOp::SetBits { csr, .. } => csr,
            CsrOp::ClearBits { csr, .. } => csr,
        }
    }

    /// The value of the CSR after the operation, given its value before.
    pub open spec fn effect(self, word: usize) -> usize {
        match self {
            CsrOp::SetBits { mask, .. } => word | mask,
            CsrOp::ClearBits { mask, .. } => word & !mask,
        }
    }

    /// The number of the CSR that the operation changes.
    pub fn csr(&self) -> (csr: usize)
        ensures
            csr == self.target(),
    {
        match self {
            CsrOp::SetBits { csr, .. } => *csr,
            CsrOp::ClearBits { csr, .. } => *csr,
        }
    }

    /// Applies the operation to an in-memory copy of the CSR's value.
    pub fn apply(&self, word: usize) -> (after: usize)
        ensures
            after == self.effect(word),
    {
        match self {
            CsrOp::SetBits { mask, .. } => word | *mask,
            CsrOp::ClearBits { mask, .. } => word & !*mask,
        }
    }
}

/// The value of a CSR after the operations of `ops` that target it, in order,
/// given its value before.
pub open spec fn effect_of(ops: Seq<CsrOp>, csr: usize, word: usize) -> usize
    decreases ops.len(),
{
    if ops.len() == 0 {
        word
    } else {
        let before: usize = effect_of(ops.drop_last(), csr, word);
        if ops.last().target() == csr {
            ops.last().effect(before)
        } else {
            before
        }
    }
}

/// Setting a bit of a CSR leaves that bit set and every other bit as it was;
/// clearing it leaves it clear and every other bit as it was.
pub proof fn lemma_bit_op_effect(csr: usize, word: usize, bit: usize)
    by (bit_vector)
    requires
        bit < usize::BITS,
    ensures
        (CsrOp::SetBits { csr, mask: 1usize << bit }).effect(word) == with_bit(word, bit, true),
        (CsrOp::ClearBits { csr, mask: 1usize << bit }).effect(word) == with_bit(word, bit, false),
{
}

} // verus!
