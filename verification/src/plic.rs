//! Composition of a PLIC peripheral from a board description, and the blocks
//! of the peripheral.
//!
//! A description gives the base address of the peripheral and, optionally,
//! names for the contexts of chosen harts. The registers of a context lie at
//! fixed offsets from the base address, one separation further for each step
//! of the context's number.

use crate::bits::bit_is_set;
use crate::board::{
    block_fits, check_block, check_harts, declares, hart_of, harts_below, lookup, HartEntry,
};
use crate::csr::CsrOp;
use crate::error::Error;
use crate::hart::HartIdNumber;
use crate::register::mie;
use crate::register::mie::Mie;
use crate::register::mip;
use crate::register::mip::Mip;
use vstd::prelude::*;

verus! {

/// Number of contexts that a PLIC serves.
pub const MAX_CONTEXTS: usize = 15872;

/// Size in bytes of the whole peripheral.
pub const PLIC_SIZE: usize = 0x400_0000;

/// Offset of the priorities block from the base address.
pub const PRIORITIES_OFFSET: usize = 0;

/// Offset of the pendings block from the base address.
pub const PENDINGS_OFFSET: usize = 0x1000;

/// Offset of the enables block of context 0 from the base address.
pub const ENABLES_OFFSET: usize = 0x2000;

/// Distance in bytes between the enables blocks of consecutive contexts.
pub const ENABLES_SEPARATION: usize = 0x80;

/// Offset of the threshold register of context 0 from the base address.
pub const THRESHOLDS_OFFSET: usize = 0x20_0000;

/// Distance in bytes between the threshold registers of consecutive
/// contexts.
pub const THRESHOLDS_SEPARATION: usize = 0x1000;

/// Offset of the claim register of context 0 from the base address.
pub const CLAIMS_OFFSET: usize = 0x20_0004;

/// Distance in bytes between the claim registers of consecutive contexts.
pub const CLAIMS_SEPARATION: usize = 0x1000;

/// The address of the enables block of context `context` in the PLIC at
/// `base`.
pub open spec fn enables_address(base: usize, context: usize) -> int {
    base + ENABLES_OFFSET + ENABLES_SEPARATION * context
}

/// The address of the threshold register of context `context` in the PLIC at
/// `base`.
pub open spec fn threshold_address(base: usize, context: usize) -> int {
    base + THRESHOLDS_OFFSET + THRESHOLDS_SEPARATION * context
}

/// The address of the claim register of context `context` in the PLIC at
/// `base`.
pub open spec fn claim_address(base: usize, context: usize) -> int {
    base + CLAIMS_OFFSET + CLAIMS_SEPARATION * context
}

/// The interrupt priorities block.
#[derive(Clone, Copy, Debug, PartialEq, Eq)]
pub struct Priorities {
    /// Address of the block.
    pub address: usize,
}

/// The interrupt pendings block.
#[derive(Clone, Copy, Debug, PartialEq, Eq)]
pub struct Pendings {
    /// Address of the block.
    pub address: usize,
}

/// The interrupt enables block of one context.
#[derive(Clone, Copy, Debug, PartialEq, Eq)]
pub struct Enables {
    /// Address of the block.
    pub address: usize,
}

/// The priority threshold register of one context.
#[derive(Clone, Copy, Debug, PartialEq, Eq)]
pub struct Threshold {
    /// Address of the register.
    pub address: usize,
}

/// The interrupt claim/complete register of one context.
#[derive(Clone, Copy, Debug, PartialEq, Eq)]
pub struct Claim {
    /// Address of the register.
    pub address: usize,
}

/// The proxy of one context of a PLIC.
#[derive(Clone, Copy, Debug, PartialEq, Eq)]
pub struct Ctx {
    base: usize,
    context: usize,
}

impl Ctx {
    #[verifier::type_invariant]
    spec fn inside_peripheral(self) -> bool {
        &&& block_fits(self.base, PLIC_SIZE)
        &&& self.context < MAX_CONTEXTS
    }

    /// Base address of the PLIC that the context belongs to.
    pub closed spec fn base(self) -> usize {
        self.base
    }

    /// The number of the context.
    pub closed spec fn number(self) -> usize {
        self.context
    }

    /// Returns the number of the context, which is one that the PLIC serves.
    pub fn context(&self) -> (context: usize)
        ensures
            context == self.number(),
            context < MAX_CONTEXTS,
    {
        proof {
            use_type_invariant(self);
        }
        self.context
    }

    /// Returns the interrupts enable register of the context.
    pub fn enables(&self) -> (enables: Enables)
        ensures
            enables.address == enables_address(self.base(), self.number()),
    {
        proof {
            use_type_invariant(self);
        }
        Enables { address: self.base + ENABLES_OFFSET + ENABLES_SEPARATION * self.context }
    }

    /// Returns the interrupt threshold register of the context.
    pub fn threshold(&self) -> (threshold: Threshold)
        ensures
            threshold.address == threshold_address(self.base(), self.number()),
    {
        proof {
            use_type_invariant(self);
        }
        Threshold {
            address: self.base + THRESHOLDS_OFFSET + THRESHOLDS_SEPARATION * self.context,
        }
    }

    /// Returns the interrupt claim/complete register of the context.
    pub fn claim(&self) -> (claim: Claim)
        ensures
            claim.address == claim_address(self.base(), self.number()),
    {
        proof {
            use_type_invariant(self);
        }
        Claim { address: self.base + CLAIMS_OFFSET + CLAIMS_SEPARATION * self.context }
    }
}

/// The description of a PLIC peripheral that a board gives.
#[derive(Debug, PartialEq, Eq)]
pub struct PlicDescription {
    /// Base address of the peripheral.
    pub base: usize,
    /// Names for the contexts of chosen harts.
    pub ctxs: Vec<HartEntry>,
}

impl PlicDescription {
    /// Whether a peripheral can be composed from the description: it lies
    /// inside the address space, and every hart that the description names
    /// has a context that the peripheral serves.
    pub open spec fn valid(self) -> bool {
        &&& block_fits(self.base, PLIC_SIZE)
        &&& harts_below(self.ctxs@, MAX_CONTEXTS)
    }

    /// Describes a peripheral at `base` with no context named.
    pub fn new(base: usize) -> (desc: Self)
        ensures
            desc.base == base,
            desc.ctxs@ == Seq::<HartEntry>::empty(),
    {
        PlicDescription { base, ctxs: Vec::new() }
    }

    /// Declares the accessor `name` for the context of `hart_id`.
    pub fn with_ctx<H: HartIdNumber>(
        self,
        name: &'static str,
        hart_id: H,
        label: &'static str,
    ) -> (desc: Self)
        ensures
            desc.ctxs@ == self.ctxs@.push(HartEntry { name, hart: hart_id.number_spec(), label }),
            desc.base == self.base,
    {
        let mut desc = self;
        desc.ctxs.push(HartEntry::new(name, hart_id, label));
        desc
    }
}

/// A PLIC peripheral, composed from a board description that was found
/// valid.
#[derive(Debug, PartialEq, Eq)]
pub struct Plic {
    desc: PlicDescription,
}

impl Plic {
    #[verifier::type_invariant]
    spec fn composed(self) -> bool {
        self.desc.valid()
    }

    /// The description that the peripheral was composed from.
    pub closed spec fn description(self) -> PlicDescription {
        self.desc
    }

    /// Composes the peripheral that `desc` describes. Fails when the
    /// peripheral would reach beyond the end of the address space, or when a
    /// declaration names a hart whose context the peripheral does not serve.
    pub fn compose(desc: PlicDescription) -> (res: Result<Self, Error>)
        ensures
            match res {
                Ok(plic) => desc.valid() && plic.description() == desc,
                Err(e) => !desc.valid() && e is OutOfBounds,
            },
    {
        if check_block(desc.base, PLIC_SIZE) && check_harts(&desc.ctxs, MAX_CONTEXTS) {
            Ok(Plic { desc })
        } else {
            Err(Error::OutOfBounds)
        }
    }

    /// Returns the base address of the peripheral.
    pub fn base(&self) -> (base: usize)
        ensures
            base == self.description().base,
            self.description().valid(),
    {
        proof {
            use_type_invariant(self);
        }
        self.desc.base
    }

    /// Returns `true` if a machine external interrupt is pending, going by
    /// the value `mip` of the interrupt-pending CSR.
    pub fn is_interrupting(&self, mip: Mip) -> (pending: bool)
        ensures
            pending == bit_is_set(mip.bits, mip::MEXT),
    {
        mip.mext()
    }

    /// Returns true if Machine External Interrupts are enabled, going by the
    /// value `mie` of the interrupt-enable CSR.
    pub fn is_enabled(&self, mie: Mie) -> (on: bool)
        ensures
            on == bit_is_set(mie.bits, mie::MEXT),
    {
        mie.mext()
    }

    /// The operation that enables machine external interrupts to allow the
    /// PLIC to trigger interrupts.
    ///
    /// Enabling the `PLIC` may break mask-based critical sections.
    pub fn enable(&self) -> (op: CsrOp)
        ensures
            op == mie::enable_op(mie::MEXT),
    {
        mie::set_mext()
    }

    /// The operation that disables machine external interrupts to prevent
    /// the PLIC from triggering interrupts.
    pub fn disable(&self) -> (op: CsrOp)
        ensures
            op == mie::disable_op(mie::MEXT),
    {
        mie::clear_mext()
    }

    /// Returns the priorities register of the PLIC.
    pub fn priorities(&self) -> (priorities: Priorities)
        ensures
            priorities.address == self.description().base + PRIORITIES_OFFSET,
    {
        proof {
            use_type_invariant(self);
        }
        Priorities { address: self.desc.base + PRIORITIES_OFFSET }
    }

    /// Returns the pendings register of the PLIC.
    pub fn pendings(&self) -> (pendings: Pendings)
        ensures
            pendings.address == self.description().base + PENDINGS_OFFSET,
    {
        proof {
            use_type_invariant(self);
        }
        Pendings { address: self.desc.base + PENDINGS_OFFSET }
    }

    /// Returns the context proxy of the context numbered `context`.
    pub fn ctx_at(&self, context: usize) -> (ctx: Ctx)
        requires
            context < MAX_CONTEXTS,
        ensures
            ctx.base() == self.description().base,
            ctx.number() == context,
    {
        proof {
            use_type_invariant(self);
        }
        Ctx { base: self.desc.base, context }
    }

    /// Returns the context proxy of a given PLIC HART context. The target's
    /// harts must all have a context that the PLIC serves.
    pub fn ctx<H: HartIdNumber>(&self, hart_id: H) -> (ctx: Ctx)
        requires
            H::max_hart_id_number_spec() < MAX_CONTEXTS,
        ensures
            ctx.base() == self.description().base,
            ctx.number() == hart_id.number_spec(),
    {
        self.ctx_at(hart_id.number())
    }

    /// Returns the PLIC HART context for the current HART, whose number
    /// `mhartid` the caller has read from the `mhartid` CSR. Fails when the
    /// PLIC serves no context of that number.
    pub fn ctx_mhartid(&self, mhartid: usize) -> (res: Result<Ctx, Error>)
        ensures
            match res {
                Ok(ctx) => {
                    &&& mhartid < MAX_CONTEXTS
                    &&& ctx.base() == self.description().base
                    &&& ctx.number() == mhartid
                },
                Err(e) => mhartid >= MAX_CONTEXTS && e is OutOfBounds,
            },
    {
        if mhartid < MAX_CONTEXTS {
            Ok(self.ctx_at(mhartid))
        } else {
            Err(Error::OutOfBounds)
        }
    }

    /// The declarations of named contexts, in the order of the board
    /// description.
    pub fn ctx_entries(&self) -> (entries: &Vec<HartEntry>)
        ensures
            entries@ == self.description().ctxs@,
            harts_below(entries@, MAX_CONTEXTS),
    {
        proof {
            use_type_invariant(self);
        }
        &self.desc.ctxs
    }

    /// Returns the context proxy that the board declared under `name`: that
    /// of the declared hart. A name that the board did not declare has no
    /// context.
    pub fn ctx_named(&self, name: &str) -> (found: Option<Ctx>)
        ensures
            match found {
                Some(ctx) => {
                    &&& declares(self.description().ctxs@, name@)
                    &&& ctx.base() == self.description().base
                    &&& ctx.number() == hart_of(self.description().ctxs@, name@)
                },
                None => !declares(self.description().ctxs@, name@),
            },
    {
        proof {
            use_type_invariant(self);
        }
        match lookup(&self.desc.ctxs, name) {
            Some(hart) => Some(self.ctx_at(hart)),
            None => None,
        }
    }
}

/// The registers of two contexts lie one separation apart for each step of
/// the context number, and the registers of every context lie inside the
/// peripheral.
pub proof fn lemma_per_context_registers(base: usize, context: usize, other: usize)
    requires
        context < MAX_CONTEXTS,
        other < MAX_CONTEXTS,
    ensures
        enables_address(base, context) - enables_address(base, other) == ENABLES_SEPARATION * (
        context - other),
        threshold_address(base, context) - threshold_address(base, other)
            == THRESHOLDS_SEPARATION * (context - other),
        claim_address(base, context) - claim_address(base, other) == CLAIMS_SEPARATION * (context
            - other),
        context != other ==> enables_address(base, context) != enables_address(base, other),
        base + ENABLES_OFFSET <= enables_address(base, context),
        enables_address(base, context) + ENABLES_SEPARATION <= base + THRESHOLDS_OFFSET,
        base + THRESHOLDS_OFFSET <= threshold_address(base, context),
        claim_address(base, context) + 4 <= base + PLIC_SIZE,
{
}

/// Enabling sets the external interrupt enable bit whatever the CSR held, so
/// the peripheral is enabled afterwards; disabling clears it, so the
/// peripheral is disabled afterwards. Either way no other bit of `mie`
/// changes.
pub proof fn lemma_enable_disable(word: usize, other: usize)
    requires
        other < usize::BITS,
        other != mie::MEXT,
    ensures
        bit_is_set(mie::enable_op(mie::MEXT).effect(word), mie::MEXT),
        !bit_is_set(mie::disable_op(mie::MEXT).effect(word), mie::MEXT),
        bit_is_set(mie::enable_op(mie::MEXT).effect(word), other) == bit_is_set(word, other),
        bit_is_set(mie::disable_op(mie::MEXT).effect(word), other) == bit_is_set(word, other),
{
    crate::csr::lemma_bit_op_effect(mie::CSR, word, mie::MEXT);
    crate::bits::lemma_bit_write_read(word, mie::MEXT, true, other);
    crate::bits::lemma_bit_write_read(word, mie::MEXT, false, other);
}

} // verus!
