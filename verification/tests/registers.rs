use riscv_regs::error::Error;
use riscv_regs::field::FieldVariant;
use riscv_regs::register::mcountinhibit::Mcountinhibit;
use riscv_regs::register::mtest::{Mtest, MtestFieldEnum};

#[test]
fn test_mcountinhibit() {
    let mut m = Mcountinhibit { bits: 0 };

    assert!(!m.cy());

    m.set_cy(true);
    assert!(m.cy());

    m.set_cy(false);
    assert!(!m.cy());

    assert!(!m.ir());

    m.set_ir(true);
    assert!(m.ir());

    m.set_ir(false);
    assert!(!m.ir());

    (3..32).for_each(|i| {
        assert!(!m.hpm(i));

        m.set_hpm(i, true);
        assert!(m.hpm(i));

        m.set_hpm(i, false);
        assert!(!m.hpm(i));
    });
}

#[test]
fn test_mtest_read_only() {
    let mut mtest = Mtest::from_bits(0);

    assert_eq!(mtest.bitmask(), Mtest::BITMASK);
    assert_eq!(mtest.bits(), 0);

    // check that single bit field getter/setters work.
    assert_eq!(mtest.single(), false);
    assert_eq!(mtest.try_single(), Ok(false));

    mtest = Mtest::from_bits(1);
    assert_eq!(mtest.single(), true);
    assert_eq!(mtest.try_single(), Ok(true));

    mtest = Mtest::from_bits(0);

    // check that single bit range field getter/setters work.
    for i in 1..=3 {
        assert_eq!(mtest.multi_range(i), false);
        assert_eq!(mtest.try_multi_range(i), Ok(false));

        mtest = Mtest::from_bits(1 << i);
        assert_eq!(mtest.multi_range(i), true);
        assert_eq!(mtest.try_multi_range(i), Ok(true));

        mtest = Mtest::from_bits(0 << i);
        assert_eq!(mtest.multi_range(i), false);
        assert_eq!(mtest.try_multi_range(i), Ok(false));
    }

    // check that multi-bit field getter/setters work.
    assert_eq!(mtest.multi_field(), 0);
    assert_eq!(mtest.try_multi_field(), Ok(0));

    mtest = Mtest::from_bits(0xf << 4);
    assert_eq!(mtest.multi_field(), 0xf);
    assert_eq!(mtest.try_multi_field(), Ok(0xf));

    mtest = Mtest::from_bits(0x3 << 4);
    assert_eq!(mtest.multi_field(), 0x3);
    assert_eq!(mtest.try_multi_field(), Ok(0x3));

    // check that only bits in the field are set.
    mtest = Mtest::from_bits(0xff << 4);
    assert_eq!(mtest.multi_field(), 0xf);
    assert_eq!(mtest.try_multi_field(), Ok(0xf));
    assert_eq!(mtest.bits(), 0xff << 4);

    mtest = Mtest::from_bits(0x0 << 4);
    assert_eq!(mtest.multi_field(), 0x0);
    assert_eq!(mtest.try_multi_field(), Ok(0x0));

    assert_eq!(
        mtest.try_field_enum(),
        Err(Error::InvalidFieldVariant {
            field: "field_enum",
            value: 0,
        })
    );

    [
        MtestFieldEnum::Field1,
        MtestFieldEnum::Field2,
        MtestFieldEnum::Field3,
        MtestFieldEnum::Field4,
    ]
    .into_iter()
    .for_each(|variant| {
        mtest = Mtest::from_bits(variant.into_usize() << 7);
        assert_eq!(mtest.field_enum(), variant);
        assert_eq!(mtest.try_field_enum(), Ok(variant));
    });

    // check that setting an invalid variant returns `None`
    mtest = Mtest::from_bits(0xbad << 7);
    assert_eq!(
        mtest.try_field_enum(),
        Err(Error::InvalidFieldVariant {
            field: "field_enum",
            value: 13,
        })
    );
}
