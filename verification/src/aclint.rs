//! The blocks of a CLINT: the machine-level software interrupt device (MSWI)
//! and the machine-level timer device (MTIMER), with their per-hart
//! registers.
//!
//! Every handle carries an address and nothing else. A per-hart register lies
//! at the address of the block's first register plus the hart's number times
//! the register's stride.

use crate::board::{block_fits, check_block};
use crate::error::Error;
use crate::hart::HartIdNumber;
use vstd::prelude::*;

verus! {

/// Number of harts that one MSWI or one MTIMER device serves.
pub const MAX_HARTS: usize = 4095;

/// Distance in bytes between the `msip` registers of consecutive harts.
pub const MSIP_STRIDE: usize = 4;

/// Distance in bytes between the `mtimecmp` registers of consecutive harts.
pub const MTIMECMP_STRIDE: usize = 8;

/// Size in bytes of the `mtime` register.
pub const MTIME_SIZE: usize = 8;

/// Size in bytes of the `msip` registers of one MSWI device.
pub const MSWI_SIZE: usize = 0x3ffc;

/// Size in bytes of the `mtimecmp` registers of one MTIMER device.
pub const MTIMECMPS_SIZE: usize = 0x7ff8;

/// The address of the `msip` register of hart `hart` in the MSWI device
/// whose first register lies at `base`.
pub open spec fn msip_address(base: usize, hart: usize) -> int {
    base + MSIP_STRIDE * hart
}

/// The address of the `mtimecmp` register of hart `hart` in the MTIMER
/// device whose first compare register lies at `base`.
pub open spec fn mtimecmp_address(base: usize, hart: usize) -> int {
    base + MTIMECMP_STRIDE * hart
}

/// The `msip` register of one hart: its bit 0 is the hart's pending machine
/// software interrupt.
#[derive(Clone, Copy, Debug, PartialEq, Eq)]
pub struct Msip {
    /// Address of the register.
    pub address: usize,
}

/// The `mtimecmp` register of one hart: the hart's timer interrupt is pending
/// while `mtime` is at or above it.
#[derive(Clone, Copy, Debug, PartialEq, Eq)]
pub struct Mtimecmp {
    /// Address of the register.
    pub address: usize,
}

/// The `mtime` register: the count of timer ticks since reset.
#[derive(Clone, Copy, Debug, PartialEq, Eq)]
pub struct Mtime {
    /// Address of the register.
    pub address: usize,
}

/// The machine-level software interrupt device.
#[derive(Clone, Copy, Debug, PartialEq, Eq)]
pub struct Mswi {
    msip0: usize,
}

impl Mswi {
    #[verifier::type_invariant]
    spec fn inside_address_space(self) -> bool {
        block_fits(self.msip0, MSWI_SIZE)
    }

    /// Address of the `msip` register of hart 0.
    pub closed spec fn base(self) -> usize {
        self.msip0
    }

    /// Creates the device whose `msip` register of hart 0 lies at `address`.
    /// Fails when the registers of all harts would not fit below the end of
    /// the address space.
    pub fn new(address: usize) -> (res: Result<Self, Error>)
        ensures
            match res {
                Ok(mswi) => block_fits(address, MSWI_SIZE) && mswi.base() == address,
                Err(e) => !block_fits(address, MSWI_SIZE) && e is OutOfBounds,
            },
    {
        if check_block(address, MSWI_SIZE) {
            Ok(Self { msip0: address })
        } else {
            Err(Error::OutOfBounds)
        }
    }

    /// The `msip` register of hart 0.
    pub fn msip0(&self) -> (msip: Msip)
        ensures
            msip.address == self.base(),
    {
        Msip { address: self.msip0 }
    }

    /// The `msip` register of the hart numbered `hart`.
    pub fn msip_at(&self, hart: usize) -> (msip: Msip)
        requires
            hart < MAX_HARTS,
        ensures
            msip.address == msip_address(self.base(), hart),
            block_fits(msip.address, MSIP_STRIDE),
    {
        proof {
            use_type_invariant(self);
        }
        Msip { address: self.msip0 + MSIP_STRIDE * hart }
    }

    /// The `msip` register of `hart_id`. The target's harts must all be
    /// ones that the device serves.
    pub fn msip<H: HartIdNumber>(&self, hart_id: H) -> (msip: Msip)
        requires
            H::max_hart_id_number_spec() < MAX_HARTS,
        ensures
            msip.address == msip_address(self.base(), hart_id.number_spec()),
            block_fits(msip.address, MSIP_STRIDE),
    {
        self.msip_at(hart_id.number())
    }
}

/// The machine-level timer device.
#[derive(Clone, Copy, Debug, PartialEq, Eq)]
pub struct Mtimer {
    mtimecmp0: usize,
    mtime: usize,
}

impl Mtimer {
    #[verifier::type_invariant]
    spec fn inside_address_space(self) -> bool {
        &&& block_fits(self.mtimecmp0, MTIMECMPS_SIZE)
        &&& block_fits(self.mtime, MTIME_SIZE)
    }

    /// Address of the `mtimecmp` register of hart 0.
    pub closed spec fn base(self) -> usize {
        self.mtimecmp0
    }

    /// Address of the `mtime` register.
    pub closed spec fn mtime_address(self) -> usize {
        self.mtime
    }

    /// Creates the device whose `mtimecmp` register of hart 0 lies at
    /// `mtimecmp` and whose `mtime` register lies at `mtime`. Fails when the
    /// compare registers of all harts, or `mtime`, would not fit below the end
    /// of the address space.
    pub fn new(mtimecmp: usize, mtime: usize) -> (res: Result<Self, Error>)
        ensures
            match res {
                Ok(mtimer) => {
                    &&& block_fits(mtimecmp, MTIMECMPS_SIZE)
                    &&& block_fits(mtime, MTIME_SIZE)
                    &&& mtimer.base() == mtimecmp
                    &&& mtimer.mtime_address() == mtime
                },
                Err(e) => {
                    &&& !(block_fits(mtimecmp, MTIMECMPS_SIZE) && block_fits(mtime, MTIME_SIZE))
                    &&& e is OutOfBounds
                },
            },
    {
        if check_block(mtimecmp, MTIMECMPS_SIZE) && check_block(mtime, MTIME_SIZE) {
            Ok(Self { mtimecmp0: mtimecmp, mtime })
        } else {
            Err(Error::OutOfBounds)
        }
    }

    /// The `mtimecmp` register of hart 0.
    pub fn mtimecmp0(&self) -> (mtimecmp: Mtimecmp)
        ensures
            mtimecmp.address == self.base(),
    {
        Mtimecmp { address: self.mtimecmp0 }
    }

    /// The `mtime` register.
    pub fn mtime(&self) -> (mtime: Mtime)
        ensures
            mtime.address == self.mtime_address(),
            block_fits(mtime.address, MTIME_SIZE),
    {
        proof {
            use_type_invariant(self);
        }
        Mtime { address: self.mtime }
    }

    /// The `mtimecmp` register of the hart numbered `hart`.
    pub fn mtimecmp_at(&self, hart: usize) -> (mtimecmp: Mtimecmp)
        requires
            hart < MAX_HARTS,
        ensures
            mtimecmp.address == mtimecmp_address(self.base(), hart),
            block_fits(mtimecmp.address, MTIMECMP_STRIDE),
    {
        proof {
            use_type_invariant(self);
        }
        Mtimecmp { address: self.mtimecmp0 + MTIMECMP_STRIDE * hart }
    }

    /// The `mtimecmp` register of `hart_id`. The target's harts must all be
    /// ones that the device serves.
    pub fn mtimecmp<H: HartIdNumber>(&self, hart_id: H) -> (mtimecmp: Mtimecmp)
        requires
            H::max_hart_id_number_spec() < MAX_HARTS,
        ensures
            mtimecmp.address == mtimecmp_address(self.base(), hart_id.number_spec()),
            block_fits(mtimecmp.address, MTIMECMP_STRIDE),
    {
        self.mtimecmp_at(hart_id.number())
    }
}

/// The registers of two harts lie one stride apart for each step of the hart
/// number, so the registers of different harts never share a byte, and all of
/// them lie inside their device.
pub proof fn lemma_per_hart_registers(base: usize, hart: usize, other: usize)
    requires
        hart < MAX_HARTS,
        other < MAX_HARTS,
    ensures
        msip_address(base, hart) - msip_address(base, other) == MSIP_STRIDE * (hart - other),
        mtimecmp_address(base, hart) - mtimecmp_address(base, other) == MTIMECMP_STRIDE * (hart
            - other),
        hart < other ==> msip_address(base, hart) + MSIP_STRIDE <= msip_address(base, other),
        hart < other ==> mtimecmp_address(base, hart) + MTIMECMP_STRIDE <= mtimecmp_address(
            base,
            other,
        ),
        base <= msip_address(base, hart),
        msip_address(base, hart) + MSIP_STRIDE <= base + MSWI_SIZE,
        base <= mtimecmp_address(base, hart),
        mtimecmp_address(base, hart) + MTIMECMP_STRIDE <= base + MTIMECMPS_SIZE,
{
}

} // verus!
