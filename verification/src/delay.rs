//! Delays measured on the `mtime` counter of a CLINT.
//!
//! The library decides; the caller reads the counter, spins or sleeps. A
//! delay of `ns` nanoseconds at `freq` ticks per second lasts
//! `ns * freq / 1_000_000_000` ticks, rounded down, and is over as soon as
//! the counter has advanced by that many ticks, however often it wrapped.

use crate::aclint::{mtimecmp_address, Mtime, Mtimecmp, Mtimer, MAX_HARTS};
use crate::hart::HartIdNumber;
use vstd::prelude::*;

verus! {

/// Nanoseconds in one second.
pub const NANOS_PER_SEC: u64 = 1_000_000_000;

/// Number of values of the 64-bit counter.
pub open spec fn counter_modulus() -> int {
    0x1_0000_0000_0000_0000
}

/// The whole ticks that `ns` nanoseconds last at `freq` ticks per second.
pub open spec fn ticks_for(ns: u32, freq: usize) -> int {
    (ns as int * freq as int) / (NANOS_PER_SEC as int)
}

/// The ticks that the counter has advanced from `t0` to `now`, wrap-around
/// taken into account.
pub open spec fn ticks_since(t0: u64, now: u64) -> int {
    (now as int - t0 as int) % counter_modulus()
}

/// The value of the counter `n_ticks` ticks after `t0`.
pub open spec fn counter_after(t0: u64, n_ticks: u64) -> u64 {
    ((t0 as int + n_ticks as int) % counter_modulus()) as u64
}

/// Computes the ticks that `ns` nanoseconds last at `freq` ticks per second,
/// or nothing where the count does not fit in the counter's 64 bits.
pub fn checked_ticks(ns: u32, freq: usize) -> (res: Option<u64>)
    ensures
        match res {
            Some(n_ticks) => n_ticks == ticks_for(ns, freq),
            None => ticks_for(ns, freq) > u64::MAX,
        },
{
    assert(ns as int * freq as int <= 0xffff_ffff * 0xffff_ffff_ffff_ffff) by (nonlinear_arith)
        requires
            0 <= ns as int <= 0xffff_ffff,
            0 <= freq as int <= 0xffff_ffff_ffff_ffff,
    ;
    assert(0 <= ns as int * freq as int) by (nonlinear_arith);
    let product: u128 = (ns as u128) * (freq as u128);
    let quotient: u128 = product / (NANOS_PER_SEC as u128);
    if quotient <= u64::MAX as u128 {
        Some(quotient as u64)
    } else {
        None
    }
}

/// Computes the ticks that `ns` nanoseconds last at `freq` ticks per second.
/// The count must fit in the counter's 64 bits.
pub fn ticks(ns: u32, freq: usize) -> (n_ticks: u64)
    requires
        ticks_for(ns, freq) <= u64::MAX,
    ensures
        n_ticks == ticks_for(ns, freq),
{
    checked_ticks(ns, freq).unwrap()
}

/// A frequency of at most `2^32` ticks per nanosecond keeps every delay
/// within the counter's 64 bits.
pub proof fn lemma_ticks_fit(ns: u32, freq: usize)
    requires
        freq <= 0x1_0000_0000 * NANOS_PER_SEC,
    ensures
        0 <= ticks_for(ns, freq) <= u64::MAX,
{
    assert(0 <= ns as int * freq as int <= 0xffff_ffff * (0x1_0000_0000 * 1_000_000_000))
        by (nonlinear_arith)
        requires
            0 <= ns as int <= 0xffff_ffff,
            0 <= freq as int <= 0x1_0000_0000 * 1_000_000_000,
    ;
}

/// One running delay: the counter's value when it began and its length in
/// ticks.
#[derive(Clone, Copy, Debug, PartialEq, Eq)]
pub struct Wait {
    /// Value of the counter when the delay began.
    pub t0: u64,
    /// Length of the delay in ticks.
    pub n_ticks: u64,
}

/// What the caller of a blocking delay does next.
#[derive(Clone, Copy, Debug, PartialEq, Eq)]
pub enum DelayStep {
    /// The delay is over.
    Elapsed,
    /// Read the counter again.
    Spin,
}

/// What the caller of an asynchronous delay does next.
#[derive(Clone, Copy, Debug, PartialEq, Eq)]
pub enum AsyncDelayStep {
    /// The delay is over.
    Ready,
    /// Write `compare` to the timer-compare register at `mtimecmp`, enable the
    /// machine timer interrupt, and suspend until that interrupt wakes the
    /// task.
    Sleep { mtimecmp: Mtimecmp, compare: u64 },
}

impl Wait {
    /// Whether the delay is over when the counter reads `now`.
    pub open spec fn elapsed_at(self, now: u64) -> bool {
        ticks_since(self.t0, now) >= self.n_ticks
    }

    /// Begins a delay of `n_ticks` ticks at counter value `t0`.
    pub fn new(t0: u64, n_ticks: u64) -> (wait: Self)
        ensures
            wait.t0 == t0,
            wait.n_ticks == n_ticks,
    {
        Self { t0, n_ticks }
    }

    /// The ticks that have passed since the delay began, when the counter
    /// reads `now`.
    pub fn ticks_passed(&self, now: u64) -> (passed: u64)
        ensures
            passed == ticks_since(self.t0, now),
    {
        if now >= self.t0 {
            now - self.t0
        } else {
            u64::MAX - self.t0 + now + 1
        }
    }

    /// Tells whether the delay is over when the counter reads `now`.
    pub fn is_elapsed(&self, now: u64) -> (over: bool)
        ensures
            over == self.elapsed_at(now),
    {
        self.ticks_passed(now) >= self.n_ticks
    }

    /// The value of the counter at which the delay is over.
    pub fn deadline(&self) -> (at: u64)
        ensures
            at == counter_after(self.t0, self.n_ticks),
    {
        if self.n_ticks <= u64::MAX - self.t0 {
            self.t0 + self.n_ticks
        } else {
            self.n_ticks - (u64::MAX - self.t0) - 1
        }
    }

    /// One step of a blocking delay with the counter at `now`.
    pub fn step(&self, now: u64) -> (next: DelayStep)
        ensures
            next == if self.elapsed_at(now) {
                DelayStep::Elapsed
            } else {
                DelayStep::Spin
            },
    {
        if self.is_elapsed(now) {
            DelayStep::Elapsed
        } else {
            DelayStep::Spin
        }
    }
}

/// The blocking delay of a CLINT: the `mtime` register that it watches and
/// the frequency at which that register counts.
#[derive(Clone, Copy, Debug, PartialEq, Eq)]
pub struct Delay {
    mtime: Mtime,
    freq: usize,
}

impl Delay {
    /// The `mtime` register that the delay watches.
    pub closed spec fn mtime(self) -> Mtime {
        self.mtime
    }

    /// The frequency of the `mtime` register, in Hz.
    pub closed spec fn freq(self) -> usize {
        self.freq
    }

    /// Creates a new delay from the `mtime` register and its frequency in Hz.
    pub fn new(mtime: Mtime, freq: usize) -> (delay: Self)
        ensures
            delay.mtime() == mtime,
            delay.freq() == freq,
    {
        Self { mtime, freq }
    }

    /// Gets the `mtime` register that the delay watches.
    pub fn get_mtime(&self) -> (mtime: Mtime)
        ensures
            mtime == self.mtime(),
    {
        self.mtime
    }

    /// Gets the frequency of the `mtime` register, in Hz.
    pub fn get_freq(&self) -> (freq: usize)
        ensures
            freq == self.freq(),
    {
        self.freq
    }

    /// Sets the frequency of the `mtime` register, in Hz.
    pub fn set_freq(&mut self, freq: usize)
        ensures
            final(self).freq() == freq,
            final(self).mtime() == old(self).mtime(),
    {
        self.freq = freq;
    }

    /// Begins a delay of `ns` nanoseconds with the counter at `now`. The
    /// caller then reads the counter and calls [`Wait::step`] until the delay
    /// has elapsed.
    pub fn delay_ns(&self, now: u64, ns: u32) -> (wait: Wait)
        requires
            ticks_for(ns, self.freq()) <= u64::MAX,
        ensures
            wait.t0 == now,
            wait.n_ticks == ticks_for(ns, self.freq()),
    {
        Wait::new(now, ticks(ns, self.freq))
    }
}

/// The asynchronous delay of a CLINT. It belongs to the hart it was created
/// on: only that hart may use it, and while a delay runs nothing else may
/// write that hart's `mtimecmp` register.
#[derive(Clone, Copy, Debug, PartialEq, Eq)]
pub struct AsyncDelay {
    freq: usize,
    mtime: Mtime,
    mtimecmp: Mtimecmp,
    hart: usize,
}

impl AsyncDelay {
    /// The frequency of the `mtime` register, in Hz.
    pub closed spec fn freq(self) -> usize {
        self.freq
    }

    /// The `mtime` register that the delay watches.
    pub closed spec fn mtime(self) -> Mtime {
        self.mtime
    }

    /// The `mtimecmp` register that the delay schedules its wake-ups with.
    pub closed spec fn mtimecmp(self) -> Mtimecmp {
        self.mtimecmp
    }

    /// The number of the hart that owns the delay.
    pub closed spec fn hart(self) -> usize {
        self.hart
    }

    /// Creates the delay of the hart `current`, which is the hart that runs
    /// this call, on the timer device `mtimer` counting at `freq` Hz.
    pub fn new<H: HartIdNumber>(freq: usize, mtimer: &Mtimer, current: H) -> (delay: Self)
        requires
            H::max_hart_id_number_spec() < MAX_HARTS,
        ensures
            delay.freq() == freq,
            delay.hart() == current.number_spec(),
            delay.mtime().address == mtimer.mtime_address(),
            delay.mtimecmp().address == mtimecmp_address(mtimer.base(), current.number_spec()),
    {
        let hart: usize = current.number();
        Self { freq, mtime: mtimer.mtime(), mtimecmp: mtimer.mtimecmp_at(hart), hart }
    }

    /// Gets the frequency of the `mtime` register, in Hz.
    pub fn get_freq(&self) -> (freq: usize)
        ensures
            freq == self.freq(),
    {
        self.freq
    }

    /// Gets the `mtime` register that the delay watches.
    pub fn get_mtime(&self) -> (mtime: Mtime)
        ensures
            mtime == self.mtime(),
    {
        self.mtime
    }

    /// Gets the `mtimecmp` register that the delay schedules its wake-ups
    /// with.
    pub fn get_mtimecmp(&self) -> (mtimecmp: Mtimecmp)
        ensures
            mtimecmp == self.mtimecmp(),
    {
        self.mtimecmp
    }

    /// Gets the number of the hart that owns the delay.
    pub fn get_hart(&self) -> (hart: usize)
        ensures
            hart == self.hart(),
    {
        self.hart
    }

    /// Begins a delay of `ns` nanoseconds with the counter at `now`, on the
    /// hart `current`, which must be the hart that owns the delay.
    pub fn delay_ns<H: HartIdNumber>(&self, current: H, now: u64, ns: u32) -> (wait: AsyncWait)
        requires
            current.number_spec() == self.hart(),
            ticks_for(ns, self.freq()) <= u64::MAX,
        ensures
            wait.wait().t0 == now,
            wait.wait().n_ticks == ticks_for(ns, self.freq()),
            wait.mtimecmp() == self.mtimecmp(),
            wait.hart() == self.hart(),
    {
        AsyncWait {
            wait: Wait::new(now, ticks(ns, self.freq)),
            mtimecmp: self.mtimecmp,
            hart: self.hart,
        }
    }
}

/// One running asynchronous delay.
#[derive(Clone, Copy, Debug, PartialEq, Eq)]
pub struct AsyncWait {
    wait: Wait,
    mtimecmp: Mtimecmp,
    hart: usize,
}

impl AsyncWait {
    /// When the delay began and how long it lasts.
    pub closed spec fn wait(self) -> Wait {
        self.wait
    }

    /// The `mtimecmp` register that wake-ups are scheduled with.
    pub closed spec fn mtimecmp(self) -> Mtimecmp {
        self.mtimecmp
    }

    /// The number of the hart that owns the delay.
    pub closed spec fn hart(self) -> usize {
        self.hart
    }

    /// Gets the number of the hart that owns the delay.
    pub fn get_hart(&self) -> (hart: usize)
        ensures
            hart == self.hart(),
    {
        self.hart
    }

    /// Gets when the delay began and how long it lasts.
    pub fn get_wait(&self) -> (wait: Wait)
        ensures
            wait == self.wait(),
    {
        self.wait
    }

    /// One poll of the delay with the counter at `now`, on the hart
    /// `current`, which must be the hart that owns the delay. While the delay
    /// runs, the caller is told to schedule a timer interrupt of that hart
    /// for the delay's deadline and to suspend.
    pub fn poll<H: HartIdNumber>(&self, current: H, now: u64) -> (next: AsyncDelayStep)
        requires
            current.number_spec() == self.hart(),
        ensures
            next == if self.wait().elapsed_at(now) {
                AsyncDelayStep::Ready
            } else {
                AsyncDelayStep::Sleep {
                    mtimecmp: self.mtimecmp(),
                    compare: counter_after(self.wait().t0, self.wait().n_ticks),
                }
            },
    {
        if self.wait.is_elapsed(now) {
            AsyncDelayStep::Ready
        } else {
            AsyncDelayStep::Sleep { mtimecmp: self.mtimecmp, compare: self.wait.deadline() }
        }
    }
}

/// A delay lasts exactly its ticks: it is not over while fewer have passed,
/// it is over once that many have, and it is over at its deadline.
pub proof fn lemma_wait_granularity(wait: Wait, passed: u64)
    ensures
        wait.elapsed_at(counter_after(wait.t0, passed)) <==> passed >= wait.n_ticks,
        wait.elapsed_at(counter_after(wait.t0, wait.n_ticks)),
{
    lemma_ticks_since_after(wait.t0, passed);
    lemma_ticks_since_after(wait.t0, wait.n_ticks);
}

/// The counter has advanced by `passed` ticks when it reads what it reads
/// `passed` ticks after `t0`.
pub proof fn lemma_ticks_since_after(t0: u64, passed: u64)
    ensures
        counter_after(t0, passed) == (t0 as int + passed as int) % counter_modulus(),
        ticks_since(t0, counter_after(t0, passed)) == passed,
{
    let m: int = counter_modulus();
    let sum: int = t0 as int + passed as int;
    if sum < m {
        assert(sum % m == sum);
        assert((sum - t0 as int) % m == passed);
    } else {
        assert(sum % m == sum - m);
        assert((sum - m - t0 as int) % m == passed);
    }
}

} // verus!
