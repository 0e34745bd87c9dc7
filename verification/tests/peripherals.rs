use riscv_regs::aclint::{Mswi, Mtimer};
use riscv_regs::board::{check_block, check_harts, lookup, same_name, HartEntry};
use riscv_regs::clint::{Clint, ClintDescription};
use riscv_regs::csr::CsrOp;
use riscv_regs::delay::{checked_ticks, ticks, AsyncDelay, AsyncDelayStep, Delay, DelayStep, Wait};
use riscv_regs::error::Error;
use riscv_regs::hart::HartIdNumber;
use riscv_regs::index::RangedIndex;
use riscv_regs::plic::{Plic, PlicDescription};
use riscv_regs::register::mie::Mie;
use riscv_regs::register::mip::Mip;

type HartId = RangedIndex<0, 2>;

fn hart(n: usize) -> HartId {
    HartId::try_from(n).unwrap()
}

fn perform(ops: &[CsrOp], mie: usize) -> usize {
    ops.iter().fold(mie, |word, op| {
        assert_eq!(op.csr(), 0x304);
        op.apply(word)
    })
}

#[test]
fn clint_with_base_and_frequency() {
    let clint = Clint::compose(ClintDescription::new(0x0200_0000).with_freq(32_768)).unwrap();
    assert_eq!(clint.base(), 0x0200_0000);
    assert_eq!(clint.freq(), Some(32_768));

    // pending: software OR timer
    assert!(!clint.is_interrupting(Mip::from_bits(0)));
    assert!(clint.is_interrupting(Mip::from_bits(1 << 3)));
    assert!(clint.is_interrupting(Mip::from_bits(1 << 7)));
    assert!(clint.is_interrupting(Mip::from_bits((1 << 3) | (1 << 7))));
    assert!(!clint.is_interrupting(Mip::from_bits(1 << 11)));
    assert!(clint.mswi_is_interrupting(Mip::from_bits(1 << 3)));
    assert!(!clint.mswi_is_interrupting(Mip::from_bits(1 << 7)));
    assert!(clint.mtimer_is_interrupting(Mip::from_bits(1 << 7)));
    assert!(!clint.mtimer_is_interrupting(Mip::from_bits(1 << 3)));

    // enabled: software OR timer
    assert!(!clint.is_enabled(Mie::from_bits(0)));
    assert!(clint.is_enabled(Mie::from_bits(1 << 3)));
    assert!(clint.is_enabled(Mie::from_bits(1 << 7)));
    assert!(!clint.is_enabled(Mie::from_bits(1 << 11)));

    // enable and disable act on both mechanisms
    let on = perform(&clint.enable(), 0x800);
    assert_eq!(on, 0x888);
    assert!(clint.is_enabled(Mie::from_bits(on)));
    assert!(clint.mswi_is_enabled(Mie::from_bits(on)));
    assert!(clint.mtimer_is_enabled(Mie::from_bits(on)));
    let off = perform(&clint.disable(), on);
    assert_eq!(off, 0x800);
    assert!(!clint.is_enabled(Mie::from_bits(off)));
    assert!(!clint.mswi_is_enabled(Mie::from_bits(off)));
    assert!(!clint.mtimer_is_enabled(Mie::from_bits(off)));
    assert_eq!(
        clint.enable(),
        [CsrOp::SetBits { csr: 0x304, mask: 1 << 3 }, CsrOp::SetBits { csr: 0x304, mask: 1 << 7 }]
    );
    assert_eq!(
        clint.disable(),
        [
            CsrOp::ClearBits { csr: 0x304, mask: 1 << 3 },
            CsrOp::ClearBits { csr: 0x304, mask: 1 << 7 }
        ]
    );
    assert_eq!(clint.mswi_enable(), CsrOp::SetBits { csr: 0x304, mask: 1 << 3 });
    assert_eq!(clint.mswi_disable(), CsrOp::ClearBits { csr: 0x304, mask: 1 << 3 });
    assert_eq!(clint.mtimer_enable(), CsrOp::SetBits { csr: 0x304, mask: 1 << 7 });
    assert_eq!(clint.mtimer_disable(), CsrOp::ClearBits { csr: 0x304, mask: 1 << 7 });

    // blocks
    assert_eq!(clint.mswi().msip0().address, 0x0200_0000);
    assert_eq!(clint.mtimer().mtimecmp0().address, 0x0200_4000);
    assert_eq!(clint.mtimer().mtime().address, 0x0200_bff8);
    assert_eq!(clint.mtime().address, 0x0200_bff8);

    // a delay of one second at 32768 Hz lasts 32768 ticks
    let delay = clint.delay().unwrap();
    assert_eq!(delay.get_freq(), 32_768);
    assert_eq!(delay.get_mtime().address, 0x0200_bff8);
    let wait = delay.delay_ns(1000, 1_000_000_000);
    assert_eq!(wait, Wait { t0: 1000, n_ticks: 32_768 });
    let mut now = 1000u64;
    let mut spins = 0u64;
    while wait.step(now) == DelayStep::Spin {
        now += 1;
        spins += 1;
    }
    assert_eq!(spins, 32_768);
    assert_eq!(wait.step(now), DelayStep::Elapsed);

    // nothing else was declared
    assert_eq!(clint.async_delay(hart(0)), None);
    assert!(clint.mtimecmp_entries().is_empty());
    assert!(clint.msip_entries().is_empty());
    assert_eq!(clint.mtimecmp_named("mtimecmp0"), None);
    assert_eq!(clint.msip_named("msip0"), None);
}

#[test]
fn clint_without_frequency_has_no_delay() {
    let clint = Clint::compose(ClintDescription::new(0x0200_0000)).unwrap();
    assert_eq!(clint.freq(), None);
    assert_eq!(clint.delay(), None);
    assert_eq!(clint.async_delay(hart(0)), None);
    let clint = Clint::compose(ClintDescription::new(0x0200_0000).with_async_delay()).unwrap();
    assert_eq!(clint.async_delay(hart(0)), None);
}

#[test]
fn clint_with_three_named_timer_compare_registers() {
    let desc = ClintDescription::new(0x0200_0000)
        .with_mtimecmp("mtimecmp0", hart(0), "`H0`")
        .with_mtimecmp("mtimecmp1", hart(1), "`H1`")
        .with_mtimecmp("mtimecmp2", hart(2), "`H2`")
        .with_msip("msip0", hart(0), "`H0`")
        .with_msip("msip1", hart(1), "`H1`")
        .with_msip("msip2", hart(2), "`H2`");
    let clint = Clint::compose(desc).unwrap();

    // exactly the three declared names
    let names: Vec<&str> = clint.mtimecmp_entries().iter().map(|e| e.name).collect();
    assert_eq!(names, vec!["mtimecmp0", "mtimecmp1", "mtimecmp2"]);
    assert_eq!(
        clint.mtimecmp_entries()[1],
        HartEntry { name: "mtimecmp1", hart: 1, label: "`H1`" }
    );
    assert_eq!(clint.mtimecmp_named("mtimecmp3"), None);
    assert_eq!(clint.mtimecmp_named("mtimecmp"), None);
    assert_eq!(clint.mtimecmp_named("msip0"), None);
    assert_eq!(clint.mtimecmp_named(""), None);

    // one stride per hart
    let a0 = clint.mtimecmp_named("mtimecmp0").unwrap().address;
    let a1 = clint.mtimecmp_named("mtimecmp1").unwrap().address;
    let a2 = clint.mtimecmp_named("mtimecmp2").unwrap().address;
    assert_eq!(a0, 0x0200_4000);
    assert_eq!(a1, 0x0200_4008);
    assert_eq!(a2, 0x0200_4010);
    assert_eq!(a1 - a0, 8);
    assert_eq!(a2 - a1, 8);
    for n in 0..3 {
        assert_eq!(clint.mtimer().mtimecmp(hart(n)).address, 0x0200_4000 + 8 * n);
        assert_eq!(clint.mtimer().mtimecmp_at(n).address, 0x0200_4000 + 8 * n);
    }

    let s0 = clint.msip_named("msip0").unwrap().address;
    let s1 = clint.msip_named("msip1").unwrap().address;
    let s2 = clint.msip_named("msip2").unwrap().address;
    assert_eq!((s0, s1, s2), (0x0200_0000, 0x0200_0004, 0x0200_0008));
    for n in 0..3 {
        assert_eq!(clint.mswi().msip(hart(n)).address, 0x0200_0000 + 4 * n);
        assert_eq!(clint.mswi().msip_at(n).address, 0x0200_0000 + 4 * n);
    }
    assert_eq!(clint.msip_named("mtimecmp0"), None);

    // no hart beyond the three can be written down
    assert_eq!(HartId::try_from(3), Err(Error::OutOfBounds));
    assert_eq!(HartId::from_number(3), Err(Error::OutOfBounds));
    assert_eq!(HartId::from_inner(3).number(), 2);
    assert_eq!(HartId::max_hart_id_number(), 2);
}

#[test]
fn a_name_declared_twice_stands_for_its_first_hart() {
    let desc = ClintDescription::new(0x1000)
        .with_msip("a", hart(2), "two")
        .with_msip("b", hart(1), "one")
        .with_msip("a", hart(0), "zero");
    let clint = Clint::compose(desc).unwrap();
    assert_eq!(clint.msip_named("a").unwrap().address, 0x1008);
    assert_eq!(clint.msip_named("b").unwrap().address, 0x1004);
    assert_eq!(clint.msip_entries().len(), 3);
}

#[test]
fn clint_description_is_checked_once() {
    // the peripheral must end inside the address space
    let last = usize::MAX - 0xbfff;
    assert!(Clint::compose(ClintDescription::new(last)).is_ok());
    let clint = Clint::compose(ClintDescription::new(last)).unwrap();
    assert_eq!(clint.mtime().address, usize::MAX - 7);
    assert_eq!(Clint::compose(ClintDescription::new(last + 1)), Err(Error::OutOfBounds));
    assert_eq!(Clint::compose(ClintDescription::new(usize::MAX)), Err(Error::OutOfBounds));

    // a declared hart must be one that the peripheral serves
    let mut desc = ClintDescription::new(0x0200_0000);
    desc.mtimecmps.push(HartEntry { name: "last", hart: 4094, label: "" });
    let clint = Clint::compose(desc).unwrap();
    assert_eq!(clint.mtimecmp_named("last").unwrap().address, 0x0200_4000 + 8 * 4094);
    assert!(clint.mtimecmp_named("last").unwrap().address + 8 <= clint.mtime().address);

    let mut desc = ClintDescription::new(0x0200_0000);
    desc.mtimecmps.push(HartEntry { name: "beyond", hart: 4095, label: "" });
    assert_eq!(Clint::compose(desc), Err(Error::OutOfBounds));

    let mut desc = ClintDescription::new(0x0200_0000);
    desc.msips.push(HartEntry { name: "ok", hart: 0, label: "" });
    desc.msips.push(HartEntry { name: "beyond", hart: usize::MAX, label: "" });
    assert_eq!(Clint::compose(desc), Err(Error::OutOfBounds));
}

#[test]
fn description_builders_keep_what_was_declared() {
    let desc = ClintDescription::new(0x10)
        .with_freq(5)
        .with_async_delay()
        .with_mtimecmp("t", hart(1), "one")
        .with_msip("s", hart(2), "two");
    assert_eq!(
        desc,
        ClintDescription {
            base: 0x10,
            freq: Some(5),
            async_delay: true,
            mtimecmps: vec![HartEntry { name: "t", hart: 1, label: "one" }],
            msips: vec![HartEntry { name: "s", hart: 2, label: "two" }],
        }
    );
    assert_eq!(HartEntry::new("n", hart(2), "l"), HartEntry { name: "n", hart: 2, label: "l" });
    let desc = PlicDescription::new(0x20).with_ctx("c", hart(1), "one");
    assert_eq!(
        desc,
        PlicDescription { base: 0x20, ctxs: vec![HartEntry { name: "c", hart: 1, label: "one" }] }
    );
}

#[test]
fn aclint_blocks_on_their_own() {
    let mswi = Mswi::new(0x8000).unwrap();
    assert_eq!(mswi.msip0().address, 0x8000);
    assert_eq!(mswi.msip_at(4094).address, 0x8000 + 4 * 4094);
    assert!(Mswi::new(usize::MAX - 0x3ffb).is_ok());
    assert_eq!(Mswi::new(usize::MAX - 0x3ffa), Err(Error::OutOfBounds));

    let mtimer = Mtimer::new(0x4000, 0xbff8).unwrap();
    assert_eq!(mtimer.mtimecmp0().address, 0x4000);
    assert_eq!(mtimer.mtime().address, 0xbff8);
    assert!(Mtimer::new(usize::MAX - 0x7ff7, usize::MAX - 7).is_ok());
    assert_eq!(Mtimer::new(usize::MAX - 0x7ff6, 0), Err(Error::OutOfBounds));
    assert_eq!(Mtimer::new(0, usize::MAX - 6), Err(Error::OutOfBounds));
}

#[test]
fn board_helpers() {
    assert!(same_name("mtimecmp0", "mtimecmp0"));
    assert!(same_name("", ""));
    assert!(!same_name("mtimecmp0", "mtimecmp1"));
    assert!(!same_name("mtimecmp0", "mtimecmp"));
    assert!(!same_name("a", "A"));
    assert!(same_name("h\u{e4}rt", "h\u{e4}rt"));
    assert!(!same_name("h\u{e4}rt", "h\u{e5}rt"));

    let entries = vec![
        HartEntry { name: "x", hart: 7, label: "" },
        HartEntry { name: "y", hart: 9, label: "" },
        HartEntry { name: "x", hart: 8, label: "" },
    ];
    assert_eq!(lookup(&entries, "x"), Some(7));
    assert_eq!(lookup(&entries, "y"), Some(9));
    assert_eq!(lookup(&entries, "z"), None);
    assert_eq!(lookup(&Vec::new(), "x"), None);
    assert!(check_harts(&entries, 10));
    assert!(!check_harts(&entries, 9));
    assert!(check_harts(&Vec::new(), 0));

    assert!(check_block(0, 1));
    assert!(check_block(usize::MAX, 1));
    assert!(!check_block(usize::MAX, 2));
    assert!(check_block(usize::MAX - 0xf, 0x10));
    assert!(!check_block(usize::MAX - 0xf, 0x11));
}

#[test]
fn plic_blocks_and_contexts() {
    let desc = PlicDescription::new(0x0c00_0000)
        .with_ctx("ctx0", hart(0), "`H0`")
        .with_ctx("ctx1", hart(1), "`H1`")
        .with_ctx("ctx2", hart(2), "`H2`");
    let plic = Plic::compose(desc).unwrap();
    assert_eq!(plic.base(), 0x0c00_0000);
    assert_eq!(plic.priorities().address, 0x0c00_0000);
    assert_eq!(plic.pendings().address, 0x0c00_1000);

    assert!(plic.is_interrupting(Mip::from_bits(1 << 11)));
    assert!(!plic.is_interrupting(Mip::from_bits((1 << 3) | (1 << 7))));
    assert!(plic.is_enabled(Mie::from_bits(1 << 11)));
    assert!(!plic.is_enabled(Mie::from_bits((1 << 3) | (1 << 7))));
    assert_eq!(plic.enable(), CsrOp::SetBits { csr: 0x304, mask: 1 << 11 });
    assert_eq!(plic.disable(), CsrOp::ClearBits { csr: 0x304, mask: 1 << 11 });
    let on = plic.enable().apply(0x88);
    assert_eq!(on, 0x888);
    assert!(plic.is_enabled(Mie::from_bits(on)));
    let off = plic.disable().apply(on);
    assert_eq!(off, 0x88);
    assert!(!plic.is_enabled(Mie::from_bits(off)));

    for n in 0..3usize {
        let name = ["ctx0", "ctx1", "ctx2"][n];
        let ctx = plic.ctx_named(name).unwrap();
        assert_eq!(ctx, plic.ctx(hart(n)));
        assert_eq!(ctx, plic.ctx_at(n));
        assert_eq!(Ok(ctx), plic.ctx_mhartid(n));
        assert_eq!(ctx.context(), n);
        assert_eq!(ctx.enables().address, 0x0c00_2000 + 0x80 * n);
        assert_eq!(ctx.threshold().address, 0x0c20_0000 + 0x1000 * n);
        assert_eq!(ctx.claim().address, 0x0c20_0004 + 0x1000 * n);
    }
    assert_eq!(plic.ctx_named("ctx3"), None);
    assert_eq!(plic.ctx_entries().len(), 3);

    let last = plic.ctx_mhartid(15871).unwrap();
    assert_eq!(last.claim().address, 0x0c00_0000 + 0x3ff_f004);
    assert_eq!(plic.ctx_mhartid(15872), Err(Error::OutOfBounds));
    assert_eq!(plic.ctx_mhartid(usize::MAX), Err(Error::OutOfBounds));
}

#[test]
fn plic_description_is_checked_once() {
    let last = usize::MAX - 0x3ff_ffff;
    assert!(Plic::compose(PlicDescription::new(last)).is_ok());
    assert_eq!(Plic::compose(PlicDescription::new(last + 1)), Err(Error::OutOfBounds));
    let mut desc = PlicDescription::new(0x0c00_0000);
    desc.ctxs.push(HartEntry { name: "beyond", hart: 15872, label: "" });
    assert_eq!(Plic::compose(desc), Err(Error::OutOfBounds));
    let mut desc = PlicDescription::new(0x0c00_0000);
    desc.ctxs.push(HartEntry { name: "last", hart: 15871, label: "" });
    assert_eq!(Plic::compose(desc).unwrap().ctx_named("last").unwrap().context(), 15871);
}

#[test]
fn ticks_round_down() {
    assert_eq!(ticks(1_000_000_000, 32_768), 32_768);
    assert_eq!(ticks(0, 32_768), 0);
    assert_eq!(ticks(30_517, 32_768), 0);
    assert_eq!(ticks(30_518, 32_768), 1);
    assert_eq!(ticks(1_000, 1_000_000), 1);
    assert_eq!(ticks(999, 1_000_000), 0);
    assert_eq!(ticks(1_500, 1_000_000), 1);
    assert_eq!(ticks(u32::MAX, 1_000_000_000), u32::MAX as u64);
    assert_eq!(ticks(u32::MAX, 0), 0);
    assert_eq!(checked_ticks(30_518, 32_768), Some(1));
    assert_eq!(checked_ticks(u32::MAX, 10_000_000_000), Some(42_949_672_950));
}

#[test]
fn ticks_that_do_not_fit_are_refused() {
    if usize::BITS == 64 {
        assert_eq!(checked_ticks(u32::MAX, usize::MAX), None);
        assert_eq!(
            checked_ticks(1_000_000_000, usize::MAX),
            Some(usize::MAX as u64)
        );
        assert_eq!(checked_ticks(1_000_000_001, usize::MAX), None);
    } else {
        assert!(checked_ticks(u32::MAX, usize::MAX).is_some());
    }
}

#[test]
fn wait_counts_ticks_across_wrap_around() {
    let wait = Wait::new(u64::MAX - 2, 5);
    assert_eq!(wait.ticks_passed(u64::MAX - 2), 0);
    assert_eq!(wait.ticks_passed(u64::MAX), 2);
    assert_eq!(wait.ticks_passed(0), 3);
    assert_eq!(wait.ticks_passed(2), 5);
    assert!(!wait.is_elapsed(u64::MAX));
    assert!(!wait.is_elapsed(1));
    assert!(wait.is_elapsed(2));
    assert!(wait.is_elapsed(3));
    assert_eq!(wait.deadline(), 2);
    assert_eq!(Wait::new(10, 5).deadline(), 15);
    assert_eq!(Wait::new(10, u64::MAX).deadline(), 9);
    assert_eq!(Wait::new(0, u64::MAX).deadline(), u64::MAX);
    assert_eq!(Wait::new(u64::MAX, 1).deadline(), 0);
    assert!(Wait::new(10, 0).is_elapsed(10));
    assert_eq!(Wait::new(10, 0).step(10), DelayStep::Elapsed);
    assert_eq!(Wait::new(10, 1).step(10), DelayStep::Spin);
    assert_eq!(Wait::new(10, 1).step(11), DelayStep::Elapsed);
}

#[test]
fn blocking_delay_keeps_its_register_and_frequency() {
    let clint = Clint::compose(ClintDescription::new(0x0200_0000)).unwrap();
    let mut delay = Delay::new(clint.mtime(), 1_000_000);
    assert_eq!(delay.get_mtime(), clint.mtime());
    assert_eq!(delay.get_freq(), 1_000_000);
    assert_eq!(delay.delay_ns(7, 2_500), Wait { t0: 7, n_ticks: 2 });
    delay.set_freq(2_000_000);
    assert_eq!(delay.get_freq(), 2_000_000);
    assert_eq!(delay.get_mtime(), clint.mtime());
    assert_eq!(delay.delay_ns(7, 2_500), Wait { t0: 7, n_ticks: 5 });
}

#[test]
fn asynchronous_delay_schedules_the_owning_hart() {
    let clint = Clint::compose(
        ClintDescription::new(0x0200_0000).with_freq(1_000_000).with_async_delay(),
    )
    .unwrap();
    let delay = clint.async_delay(hart(2)).unwrap();
    assert_eq!(delay.get_freq(), 1_000_000);
    assert_eq!(delay.get_mtime().address, 0x0200_bff8);
    assert_eq!(delay.get_mtimecmp().address, 0x0200_4010);
    assert_eq!(delay, AsyncDelay::new(1_000_000, &clint.mtimer(), hart(2)));

    let wait = delay.delay_ns(hart(2), 100, 3_000);
    assert_eq!(
        wait.poll(hart(2), 100),
        AsyncDelayStep::Sleep { mtimecmp: delay.get_mtimecmp(), compare: 103 }
    );
    assert_eq!(
        wait.poll(hart(2), 102),
        AsyncDelayStep::Sleep { mtimecmp: delay.get_mtimecmp(), compare: 103 }
    );
    assert_eq!(wait.poll(hart(2), 103), AsyncDelayStep::Ready);
    assert_eq!(wait.poll(hart(2), 1_000), AsyncDelayStep::Ready);

    let wrapped = delay.delay_ns(hart(2), u64::MAX, 3_000);
    assert_eq!(
        wrapped.poll(hart(2), 0),
        AsyncDelayStep::Sleep { mtimecmp: delay.get_mtimecmp(), compare: 2 }
    );
    assert_eq!(wrapped.poll(hart(2), 2), AsyncDelayStep::Ready);
}
