use riscv_regs::error::Error;
use riscv_regs::hart::HartIdNumber;
use riscv_regs::index::RangedIndex;

#[test]
fn new_holds_the_lower_bound() {
    assert_eq!(RangedIndex::<3, 9>::new().into_inner(), 3);
    assert_eq!(RangedIndex::<0, 0>::new().into_inner(), 0);
}

#[test]
fn from_inner_clamps_to_the_nearest_bound() {
    assert_eq!(RangedIndex::<3, 9>::from_inner(0).into_inner(), 3);
    assert_eq!(RangedIndex::<3, 9>::from_inner(2).into_inner(), 3);
    assert_eq!(RangedIndex::<3, 9>::from_inner(3).into_inner(), 3);
    assert_eq!(RangedIndex::<3, 9>::from_inner(4).into_inner(), 4);
    assert_eq!(RangedIndex::<3, 9>::from_inner(8).into_inner(), 8);
    assert_eq!(RangedIndex::<3, 9>::from_inner(9).into_inner(), 9);
    assert_eq!(RangedIndex::<3, 9>::from_inner(10).into_inner(), 9);
    assert_eq!(RangedIndex::<3, 9>::from_inner(usize::MAX).into_inner(), 9);
}

#[test]
fn from_inner_stays_in_range_for_every_input() {
    for v in 0..64usize {
        let inner = RangedIndex::<5, 40>::from_inner(v).into_inner();
        assert!((5..=40).contains(&inner));
        assert_eq!(inner, v.clamp(5, 40));
    }
}

#[test]
fn try_from_accepts_exactly_the_range() {
    for v in 0..64usize {
        let res = RangedIndex::<5, 40>::try_from(v);
        if (5..=40).contains(&v) {
            assert_eq!(res.map(|idx| idx.into_inner()), Ok(v));
        } else {
            assert_eq!(res, Err(Error::OutOfBounds));
        }
    }
    assert_eq!(RangedIndex::<5, 40>::try_from(usize::MAX), Err(Error::OutOfBounds));
}

#[test]
fn try_from_on_the_bounds() {
    assert_eq!(RangedIndex::<5, 40>::try_from(5).unwrap().into_inner(), 5);
    assert_eq!(RangedIndex::<5, 40>::try_from(40).unwrap().into_inner(), 40);
    assert_eq!(RangedIndex::<5, 40>::try_from(4), Err(Error::OutOfBounds));
    assert_eq!(RangedIndex::<5, 40>::try_from(41), Err(Error::OutOfBounds));
}

#[test]
fn empty_range_rejects_everything_and_clamps_as_documented() {
    assert_eq!(RangedIndex::<5, 2>::try_from(3), Err(Error::OutOfBounds));
    assert_eq!(RangedIndex::<5, 2>::try_from(5), Err(Error::OutOfBounds));
    assert_eq!(RangedIndex::<5, 2>::from_inner(0).into_inner(), 5);
    assert_eq!(RangedIndex::<5, 2>::from_inner(5).into_inner(), 5);
    assert_eq!(RangedIndex::<5, 2>::from_inner(6).into_inner(), 2);
}

#[test]
fn equal_indices_compare_equal() {
    assert_eq!(RangedIndex::<0, 7>::from_inner(4), RangedIndex::<0, 7>::try_from(4).unwrap());
    assert_ne!(RangedIndex::<0, 7>::from_inner(4), RangedIndex::<0, 7>::from_inner(5));
}

#[test]
fn ranged_index_names_harts() {
    type Hart = RangedIndex<0, 2>;
    assert_eq!(Hart::max_hart_id_number(), 2);
    assert_eq!(Hart::from_inner(1).number(), 1);
    assert_eq!(Hart::from_number(2).map(|h| h.number()), Ok(2));
    assert_eq!(Hart::from_number(3), Err(Error::OutOfBounds));
    for n in 0..=2 {
        assert_eq!(Hart::from_number(n).unwrap().number(), n);
    }
}
