//! Composition of a CLINT peripheral from a board description.
//!
//! A description gives the base address of the peripheral and, optionally,
//! the frequency of its counter, the wish for an asynchronous delay, and
//! names for the `mtimecmp` and `msip` registers of chosen harts. Composing
//! checks the description once; the peripheral that results answers every
//! accessor without a further check, and only for the names that the
//! description declared.

use crate::aclint::{
    msip_address, mtimecmp_address, Msip, Mswi, Mtime, Mtimecmp, Mtimer, MAX_HARTS, MTIME_SIZE,
};
use crate::bits::bit_is_set;
use crate::board::{
    block_fits, check_block, check_harts, declares, hart_of, harts_below, lookup, HartEntry,
};
use crate::csr::{effect_of, CsrOp};
use crate::delay::{AsyncDelay, Delay};
use crate::error::Error;
use crate::hart::HartIdNumber;
use crate::register::mie;
use crate::register::mie::Mie;
use crate::register::mip::Mip;
use vstd::prelude::*;

verus! {

/// Offset of the MSWI device from the base address.
pub const MSWI_OFFSET: usize = 0;

/// Offset of the MTIMER device's per-hart registers from the base address.
pub const MTIMER_OFFSET: usize = 0x4000;

/// Offset of the `mtime` register from the base address.
pub const MTIME_OFFSET: usize = 0xbff8;

/// Size in bytes of the whole peripheral.
pub const CLINT_SIZE: usize = 0xc000;

/// The description of a CLINT peripheral that a board gives.
#[derive(Debug, PartialEq, Eq)]
pub struct ClintDescription {
    /// Base address of the peripheral.
    pub base: usize,
    /// Frequency of the `mtime` register in Hz, where the board declares it.
    pub freq: Option<usize>,
    /// Whether the board asks for the asynchronous delay.
    pub async_delay: bool,
    /// Names for the `mtimecmp` registers of chosen harts.
    pub mtimecmps: Vec<HartEntry>,
    /// Names for the `msip` registers of chosen harts.
    pub msips: Vec<HartEntry>,
}

impl ClintDescription {
    /// Whether a peripheral can be composed from the description: it lies
    /// inside the address space, and every hart that the description names is
    /// one that the peripheral serves.
    pub open spec fn valid(self) -> bool {
        &&& block_fits(self.base, CLINT_SIZE)
        &&& harts_below(self.mtimecmps@, MAX_HARTS)
        &&& harts_below(self.msips@, MAX_HARTS)
    }

    /// Describes a peripheral at `base` with nothing optional declared.
    pub fn new(base: usize) -> (desc: Self)
        ensures
            desc.base == base,
            desc.freq is None,
            !desc.async_delay,
            desc.mtimecmps@ == Seq::<HartEntry>::empty(),
            desc.msips@ == Seq::<HartEntry>::empty(),
    {
        ClintDescription {
            base,
            freq: None,
            async_delay: false,
            mtimecmps: Vec::new(),
            msips: Vec::new(),
        }
    }

    /// Declares the frequency of the `mtime` register, in Hz.
    pub fn with_freq(self, freq: usize) -> (desc: Self)
        ensures
            desc == (ClintDescription { freq: Some(freq), ..self }),
    {
        let mut desc = self;
        desc.freq = Some(freq);
        desc
    }

    /// Asks for the asynchronous delay.
    pub fn with_async_delay(self) -> (desc: Self)
        ensures
            desc == (ClintDescription { async_delay: true, ..self }),
    {
        let mut desc = self;
        desc.async_delay = true;
        desc
    }

    /// Declares the accessor `name` for the `mtimecmp` register of `hart_id`.
    pub fn with_mtimecmp<H: HartIdNumber>(
        self,
        name: &'static str,
        hart_id: H,
        label: &'static str,
    ) -> (desc: Self)
        ensures
            desc.mtimecmps@ == self.mtimecmps@.push(
                HartEntry { name, hart: hart_id.number_spec(), label },
            ),
            desc.base == self.base,
            desc.freq == self.freq,
            desc.async_delay == self.async_delay,
            desc.msips@ == self.msips@,
    {
        let mut desc = self;
        desc.mtimecmps.push(HartEntry::new(name, hart_id, label));
        desc
    }

    /// Declares the accessor `name` for the `msip` register of `hart_id`.
    pub fn with_msip<H: HartIdNumber>(
        self,
        name: &'static str,
        hart_id: H,
        label: &'static str,
    ) -> (desc: Self)
        ensures
            desc.msips@ == self.msips@.push(HartEntry { name, hart: hart_id.number_spec(), label }),
            desc.base == self.base,
            desc.freq == self.freq,
            desc.async_delay == self.async_delay,
            desc.mtimecmps@ == self.mtimecmps@,
    {
        let mut desc = self;
        desc.msips.push(HartEntry::new(name, hart_id, label));
        desc
    }
}

/// The operations that enable the machine software interrupt and then the
/// machine timer interrupt.
pub open spec fn enable_ops() -> Seq<CsrOp> {
    seq![mie::enable_op(mie::MSOFT), mie::enable_op(mie::MTIMER)]
}

/// The operations that disable the machine software interrupt and then the
/// machine timer interrupt.
pub open spec fn disable_ops() -> Seq<CsrOp> {
    seq![mie::disable_op(mie::MSOFT), mie::disable_op(mie::MTIMER)]
}

/// Whether the interrupt-pending bits `mip` show a machine timer or a machine
/// software interrupt.
pub open spec fn interrupting(mip: Mip) -> bool {
    bit_is_set(mip.bits, crate::register::mip::MSOFT) || bit_is_set(
        mip.bits,
        crate::register::mip::MTIMER,
    )
}

/// Whether the interrupt-enable bits `mie` enable the machine timer or the
/// machine software interrupt.
pub open spec fn enabled(mie: Mie) -> bool {
    bit_is_set(mie.bits, mie::MSOFT) || bit_is_set(mie.bits, mie::MTIMER)
}

/// A CLINT peripheral, composed from a board description that was found
/// valid.
#[derive(Debug, PartialEq, Eq)]
pub struct Clint {
    desc: ClintDescription,
}

impl Clint {
    #[verifier::type_invariant]
    spec fn composed(self) -> bool {
        self.desc.valid()
    }

    /// The description that the peripheral was composed from.
    pub closed spec fn description(self) -> ClintDescription {
        self.desc
    }

    /// Composes the peripheral that `desc` describes. Fails when the
    /// peripheral would reach beyond the end of the address space, or when a
    /// declaration names a hart that the peripheral does not serve.
    pub fn compose(desc: ClintDescription) -> (res: Result<Self, Error>)
        ensures
            match res {
                Ok(clint) => desc.valid() && clint.description() == desc,
                Err(e) => !desc.valid() && e is OutOfBounds,
            },
    {
        if check_block(desc.base, CLINT_SIZE) && check_harts(&desc.mtimecmps, MAX_HARTS)
            && check_harts(&desc.msips, MAX_HARTS) {
            Ok(Clint { desc })
        } else {
            Err(Error::OutOfBounds)
        }
    }

    /// Returns the base address of the peripheral.
    pub fn base(&self) -> (base: usize)
        ensures
            base == self.description().base,
            self.description().valid(),
    {
        proof {
            use_type_invariant(self);
        }
        self.desc.base
    }

    /// Address of the first register of the MSWI device.
    pub open spec fn mswi_base(self) -> usize {
        (self.description().base + MSWI_OFFSET) as usize
    }

    /// Address of the first per-hart register of the MTIMER device.
    pub open spec fn mtimer_base(self) -> usize {
        (self.description().base + MTIMER_OFFSET) as usize
    }

    /// Address of the `mtime` register.
    pub open spec fn mtime_address(self) -> usize {
        (self.description().base + MTIME_OFFSET) as usize
    }

    /// Returns the `MSWI` peripheral.
    pub fn mswi(&self) -> (mswi: Mswi)
        ensures
            mswi.base() == self.mswi_base(),
            self.mswi_base() == self.description().base + MSWI_OFFSET,
    {
        proof {
            use_type_invariant(self);
        }
        Mswi::new(self.desc.base + MSWI_OFFSET).unwrap()
    }

    /// Returns the `MTIMER` peripheral.
    pub fn mtimer(&self) -> (mtimer: Mtimer)
        ensures
            mtimer.base() == self.mtimer_base(),
            mtimer.mtime_address() == self.mtime_address(),
            self.mtimer_base() == self.description().base + MTIMER_OFFSET,
            self.mtime_address() == self.description().base + MTIME_OFFSET,
    {
        proof {
            use_type_invariant(self);
        }
        Mtimer::new(self.desc.base + MTIMER_OFFSET, self.desc.base + MTIME_OFFSET).unwrap()
    }

    /// Returns the `MTIME` register of the `MTIMER` peripheral.
    pub fn mtime(&self) -> (mtime: Mtime)
        ensures
            mtime.address == self.mtime_address(),
            block_fits(mtime.address, MTIME_SIZE),
    {
        self.mtimer().mtime()
    }

    /// Returns the frequency of the `MTIME` register, where the board
    /// declared one.
    pub fn freq(&self) -> (freq: Option<usize>)
        ensures
            freq == self.description().freq,
    {
        self.desc.freq
    }

    /// Delay implementation for CLINT peripherals. There is one exactly when
    /// the board declared a frequency.
    pub fn delay(&self) -> (delay: Option<Delay>)
        ensures
            match delay {
                Some(d) => self.description().freq == Some(d.freq()) && d.mtime().address
                    == self.mtime_address(),
                None => self.description().freq is None,
            },
    {
        match self.desc.freq {
            Some(freq) => Some(Delay::new(self.mtime(), freq)),
            None => None,
        }
    }

    /// Asynchronous delay implementation for CLINT peripherals, for the hart
    /// `current`, which is the hart that runs this call. There is one exactly
    /// when the board asked for it and declared a frequency.
    ///
    /// The delay schedules machine timer interrupts of that hart. It must be
    /// used on that hart only, and while it is in use nothing else may write
    /// the timer-compare register of that hart.
    pub fn async_delay<H: HartIdNumber>(&self, current: H) -> (delay: Option<AsyncDelay>)
        requires
            H::max_hart_id_number_spec() < MAX_HARTS,
        ensures
            delay is Some <==> self.description().async_delay && self.description().freq is Some,
            delay matches Some(d) ==> {
                &&& self.description().freq == Some(d.freq())
                &&& d.hart() == current.number_spec()
                &&& d.mtime().address == self.mtime_address()
                &&& d.mtimecmp().address == mtimecmp_address(
                    self.mtimer_base(),
                    current.number_spec(),
                )
            },
    {
        if !self.desc.async_delay {
            return None;
        }
        match self.desc.freq {
            Some(freq) => {
                let mtimer = self.mtimer();
                Some(AsyncDelay::new(freq, &mtimer, current))
            },
            None => None,
        }
    }

    /// The declarations of named `mtimecmp` registers, in the order of the
    /// board description.
    pub fn mtimecmp_entries(&self) -> (entries: &Vec<HartEntry>)
        ensures
            entries@ == self.description().mtimecmps@,
            harts_below(entries@, MAX_HARTS),
    {
        proof {
            use_type_invariant(self);
        }
        &self.desc.mtimecmps
    }

    /// The declarations of named `msip` registers, in the order of the board
    /// description.
    pub fn msip_entries(&self) -> (entries: &Vec<HartEntry>)
        ensures
            entries@ == self.description().msips@,
            harts_below(entries@, MAX_HARTS),
    {
        proof {
            use_type_invariant(self);
        }
        &self.desc.msips
    }

    /// Returns the `mtimecmp` register that the board declared under `name`:
    /// the register of the declared hart, one stride further from the first
    /// register for each step of the hart's number. A name that the board did
    /// not declare has no register.
    pub fn mtimecmp_named(&self, name: &str) -> (found: Option<Mtimecmp>)
        ensures
            match found {
                Some(register) => {
                    &&& declares(self.description().mtimecmps@, name@)
                    &&& register.address == mtimecmp_address(
                        self.mtimer_base(),
                        hart_of(self.description().mtimecmps@, name@),
                    )
                },
                None => !declares(self.description().mtimecmps@, name@),
            },
    {
        proof {
            use_type_invariant(self);
        }
        match lookup(&self.desc.mtimecmps, name) {
            Some(hart) => Some(self.mtimer().mtimecmp_at(hart)),
            None => None,
        }
    }

    /// Returns the `msip` register that the board declared under `name`: the
    /// register of the declared hart, one stride further from the first
    /// register for each step of the hart's number. A name that the board did
    /// not declare has no register.
    pub fn msip_named(&self, name: &str) -> (found: Option<Msip>)
        ensures
            match found {
                Some(register) => {
                    &&& declares(self.description().msips@, name@)
                    &&& register.address == msip_address(
                        self.mswi_base(),
                        hart_of(self.description().msips@, name@),
                    )
                },
                None => !declares(self.description().msips@, name@),
            },
    {
        proof {
            use_type_invariant(self);
        }
        match lookup(&self.desc.msips, name) {
            Some(hart) => Some(self.mswi().msip_at(hart)),
            None => None,
        }
    }

    /// Returns `true` if a machine timer **OR** software interrupt is
    /// pending, going by the value `mip` of the interrupt-pending CSR.
    pub fn is_interrupting(&self, mip: Mip) -> (pending: bool)
        ensures
            pending == interrupting(mip),
    {
        self.mswi_is_interrupting(mip) || self.mtimer_is_interrupting(mip)
    }

    /// Returns `true` if machine timer **OR** software interrupts are
    /// enabled, going by the value `mie` of the interrupt-enable CSR.
    pub fn is_enabled(&self, mie: Mie) -> (on: bool)
        ensures
            on == enabled(mie),
    {
        self.mswi_is_enabled(mie) || self.mtimer_is_enabled(mie)
    }

    /// The operations that enable machine timer **AND** software interrupts
    /// to allow the CLINT to trigger interrupts, in the order in which they
    /// are to be performed. An interrupt may fire between the two.
    ///
    /// Enabling the `CLINT` may break mask-based critical sections.
    pub fn enable(&self) -> (ops: [CsrOp; 2])
        ensures
            ops@ == enable_ops(),
    {
        let ops = [self.mswi_enable(), self.mtimer_enable()];
        assert(ops@ =~= enable_ops());
        ops
    }

    /// The operations that disable machine timer **AND** software interrupts
    /// to prevent the CLINT from triggering interrupts, in the order in which
    /// they are to be performed.
    pub fn disable(&self) -> (ops: [CsrOp; 2])
        ensures
            ops@ == disable_ops(),
    {
        let ops = [self.mswi_disable(), self.mtimer_disable()];
        assert(ops@ =~= disable_ops());
        ops
    }

    /// Returns `true` if a machine software interrupt is pending.
    pub fn mswi_is_interrupting(&self, mip: Mip) -> (pending: bool)
        ensures
            pending == bit_is_set(mip.bits, crate::register::mip::MSOFT),
    {
        mip.msoft()
    }

    /// Returns `true` if Machine Software Interrupts are enabled.
    pub fn mswi_is_enabled(&self, mie: Mie) -> (on: bool)
        ensures
            on == bit_is_set(mie.bits, mie::MSOFT),
    {
        mie.msoft()
    }

    /// The operation that enables the `MSWI` peripheral.
    pub fn mswi_enable(&self) -> (op: CsrOp)
        ensures
            op == mie::enable_op(mie::MSOFT),
    {
        mie::set_msoft()
    }

    /// The operation that disables the `MSWI` peripheral.
    pub fn mswi_disable(&self) -> (op: CsrOp)
        ensures
            op == mie::disable_op(mie::MSOFT),
    {
        mie::clear_msoft()
    }

    /// Returns `true` if a machine timer interrupt is pending.
    pub fn mtimer_is_interrupting(&self, mip: Mip) -> (pending: bool)
        ensures
            pending == bit_is_set(mip.bits, crate::register::mip::MTIMER),
    {
        mip.mtimer()
    }

    /// Returns `true` if Machine Timer Interrupts are enabled.
    pub fn mtimer_is_enabled(&self, mie: Mie) -> (on: bool)
        ensures
            on == bit_is_set(mie.bits, mie::MTIMER),
    {
        mie.mtimer()
    }

    /// The operation that sets the Machine Timer Interrupt bit of the `mie`
    /// CSR. This bit must be set for the `MTIMER` to trigger machine timer
    /// interrupts.
    pub fn mtimer_enable(&self) -> (op: CsrOp)
        ensures
            op == mie::enable_op(mie::MTIMER),
    {
        mie::set_mtimer()
    }

    /// The operation that clears the Machine Timer Interrupt bit of the `mie`
    /// CSR. When cleared, the `MTIMER` cannot trigger machine timer
    /// interrupts.
    pub fn mtimer_disable(&self) -> (op: CsrOp)
        ensures
            op == mie::disable_op(mie::MTIMER),
    {
        mie::clear_mtimer()
    }
}

/// Enabling sets both enable bits whatever the CSR held, so the peripheral is
/// enabled afterwards; disabling clears both, so it is disabled afterwards.
/// Either way no other bit of `mie` and no other CSR changes.
pub proof fn lemma_enable_disable(word: usize, csr: usize)
    ensures
        effect_of(enable_ops(), mie::CSR, word) == word | (1usize << mie::MSOFT) | (1usize
            << mie::MTIMER),
        effect_of(disable_ops(), mie::CSR, word) == word & !(1usize << mie::MSOFT) & !(1usize
            << mie::MTIMER),
        enabled(Mie { bits: effect_of(enable_ops(), mie::CSR, word) }),
        bit_is_set(effect_of(enable_ops(), mie::CSR, word), mie::MSOFT),
        bit_is_set(effect_of(enable_ops(), mie::CSR, word), mie::MTIMER),
        !enabled(Mie { bits: effect_of(disable_ops(), mie::CSR, word) }),
        csr != mie::CSR ==> effect_of(enable_ops(), csr, word) == word && effect_of(
            disable_ops(),
            csr,
            word,
        ) == word,
{
    reveal_with_fuel(effect_of, 3);
    let on = enable_ops();
    let off = disable_ops();
    assert(on.drop_last() =~= seq![mie::enable_op(mie::MSOFT)]);
    assert(on.drop_last().drop_last() =~= Seq::<CsrOp>::empty());
    assert(off.drop_last() =~= seq![mie::disable_op(mie::MSOFT)]);
    assert(off.drop_last().drop_last() =~= Seq::<CsrOp>::empty());
    let set: usize = word | (1usize << 3) | (1usize << 7);
    let clear: usize = word & !(1usize << 3) & !(1usize << 7);
    assert((set >> 3) & 1 != 0 && (set >> 7) & 1 != 0) by (bit_vector)
        requires
            set == word | (1usize << 3) | (1usize << 7),
    ;
    assert((clear >> 3) & 1 == 0 && (clear >> 7) & 1 == 0) by (bit_vector)
        requires
            clear == word & !(1usize << 3) & !(1usize << 7),
    ;
}

} // verus!
