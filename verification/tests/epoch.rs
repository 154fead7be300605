use block_producer::codec::DecodeError;
use block_producer::slot_epoch::Epoch;
use block_producer::slot_epoch::Slot;
use rand::prng::XorShiftRng;
use rand::RngCore;
use rand::SeedableRng;
use std::cmp::Ordering;

#[test]
fn epoch_new() {
    assert_eq!(Epoch::new(0).as_u64(), 0);
    assert_eq!(Epoch::new(3).as_u64(), 3);
    assert_eq!(Epoch::new(u64::max_value()).as_u64(), u64::max_value());
    assert_eq!(Epoch::new(3), Epoch::new(3));
    assert_ne!(Epoch::new(3), Epoch::new(4));
}

#[test]
fn epoch_default_is_zero() {
    assert_eq!(Epoch::default(), Epoch::new(0));
}

#[test]
fn epoch_max_value() {
    assert_eq!(Epoch::max_value(), Epoch::new(u64::max_value()));
}

#[test]
fn epoch_into_u64() {
    let x: u64 = Epoch::new(0).into();
    assert_eq!(x, 0);

    let x: u64 = Epoch::new(3).into();
    assert_eq!(x, 3);

    let x: u64 = Epoch::new(u64::max_value()).into();
    assert_eq!(x, u64::max_value());
}

#[test]
fn epoch_from_u64() {
    assert_eq!(Epoch::new(0), Epoch::from(0_u64));
    assert_eq!(Epoch::new(3), Epoch::from(3_u64));
    assert_eq!(Epoch::new(u64::max_value()), Epoch::from(u64::max_value()));
}

#[test]
fn epoch_into_usize() {
    let x: usize = Epoch::new(0).into();
    assert_eq!(x, 0);

    let x: usize = Epoch::new(3).into();
    assert_eq!(x, 3);

    let x: usize = Epoch::new(u64::max_value()).into();
    assert_eq!(x, usize::max_value());
}

#[test]
fn epoch_from_usize() {
    assert_eq!(Epoch::new(0), Epoch::from(0_usize));
    assert_eq!(Epoch::new(3), Epoch::from(3_usize));
    assert_eq!(Epoch::new(usize::max_value() as u64), Epoch::from(usize::max_value()));
}

#[test]
fn epoch_as_u64() {
    assert_eq!(Epoch::new(0).as_u64(), 0);
    assert_eq!(Epoch::new(3).as_u64(), 3);
    assert_eq!(Epoch::new(u64::max_value()).as_u64(), u64::max_value());
}

#[test]
fn epoch_as_usize() {
    assert_eq!(Epoch::new(0).as_usize(), 0);
    assert_eq!(Epoch::new(3).as_usize(), 3);
    assert_eq!(Epoch::new(u64::max_value()).as_usize(), usize::max_value());
}

#[test]
fn epoch_partial_ord() {
    let assert_partial_ord = |a: u64, partial_ord: Ordering, b: u64| {
        let other: Epoch = Epoch::new(b);
        assert_eq!(Epoch::new(a).partial_cmp(&other), Some(partial_ord));
    };

    assert_partial_ord(1, Ordering::Less, 2);
    assert_partial_ord(2, Ordering::Greater, 1);
    assert_partial_ord(0, Ordering::Less, u64::max_value());
    assert_partial_ord(u64::max_value(), Ordering::Greater, 0);
    assert_partial_ord(7, Ordering::Equal, 7);
    assert!(Epoch::new(1) < Epoch::new(2));
    assert!(Epoch::new(2) >= Epoch::new(2));
}

#[test]
fn epoch_partial_ord_with_u64() {
    let assert_partial_ord = |a: u64, partial_ord: Ordering, b: u64| {
        assert_eq!(Epoch::new(a).partial_cmp(&b), Some(partial_ord));
    };

    assert_partial_ord(1, Ordering::Less, 2);
    assert_partial_ord(2, Ordering::Greater, 1);
    assert_partial_ord(0, Ordering::Less, u64::max_value());
    assert_partial_ord(u64::max_value(), Ordering::Greater, 0);
    assert_partial_ord(7, Ordering::Equal, 7);
    assert!(Epoch::new(1) < 2_u64);
    assert!(Epoch::new(3) > 2_u64);
}

#[test]
fn epoch_partial_eq() {
    let assert_partial_eq = |a: u64, b: u64, is_equal: bool| {
        let other: Epoch = Epoch::new(b);
        assert_eq!(Epoch::new(a).eq(&other), is_equal);
    };

    assert_partial_eq(0, 0, true);
    assert_partial_eq(0, 1, false);
    assert_partial_eq(1, 0, false);
    assert_partial_eq(1, 1, true);

    assert_partial_eq(u64::max_value(), u64::max_value(), true);
    assert_partial_eq(0, u64::max_value(), false);
    assert_partial_eq(u64::max_value(), 0, false);
}

#[test]
fn epoch_partial_eq_with_u64() {
    let assert_partial_eq = |a: u64, b: u64, is_equal: bool| {
        assert_eq!(Epoch::new(a).eq(&b), is_equal);
    };

    assert_partial_eq(0, 0, true);
    assert_partial_eq(0, 1, false);
    assert_partial_eq(1, 0, false);
    assert_partial_eq(1, 1, true);

    assert_partial_eq(u64::max_value(), u64::max_value(), true);
    assert_partial_eq(0, u64::max_value(), false);
    assert_partial_eq(u64::max_value(), 0, false);
}

#[test]
fn epoch_ord() {
    let assert_ord = |a: u64, ord: Ordering, b: u64| {
        assert_eq!(Epoch::new(a).cmp(&Epoch::new(b)), ord);
    };

    assert_ord(1, Ordering::Less, 2);
    assert_ord(2, Ordering::Greater, 1);
    assert_ord(0, Ordering::Less, u64::max_value());
    assert_ord(u64::max_value(), Ordering::Greater, 0);
}

#[test]
fn epoch_add_and_add_assign() {
    let assert_add = |a: u64, b: u64, result: u64| {
        assert_eq!(Epoch::new(a).saturating_add(Epoch::new(b)), Epoch::new(result));
        assert_eq!(Epoch::new(a).saturating_add(b), Epoch::new(result));

        let mut add_assigned = Epoch::new(a);
        add_assigned.add_assign(Epoch::new(b));
        assert_eq!(add_assigned, Epoch::new(result));

        let mut add_assigned = Epoch::new(a);
        add_assigned.add_assign(b);
        assert_eq!(add_assigned, Epoch::new(result));
    };

    assert_add(0, 1, 1);
    assert_add(1, 0, 1);
    assert_add(1, 2, 3);
    assert_add(2, 1, 3);
    assert_add(7, 7, 14);

    // Addition should be saturating.
    assert_add(u64::max_value(), 1, u64::max_value());
    assert_add(u64::max_value(), u64::max_value(), u64::max_value());
}

#[test]
fn epoch_sub_and_sub_assign() {
    let assert_sub = |a: u64, b: u64, result: u64| {
        assert_eq!(Epoch::new(a).saturating_sub(Epoch::new(b)), Epoch::new(result));
        assert_eq!(Epoch::new(a).saturating_sub(b), Epoch::new(result));

        let mut sub_assigned = Epoch::new(a);
        sub_assigned.sub_assign(Epoch::new(b));
        assert_eq!(sub_assigned, Epoch::new(result));

        let mut sub_assigned = Epoch::new(a);
        sub_assigned.sub_assign(b);
        assert_eq!(sub_assigned, Epoch::new(result));
    };

    assert_sub(1, 0, 1);
    assert_sub(2, 1, 1);
    assert_sub(14, 7, 7);
    assert_sub(u64::max_value(), 1, u64::max_value() - 1);
    assert_sub(u64::max_value(), u64::max_value(), 0);

    // Subtraction should be saturating
    assert_sub(0, 1, 0);
    assert_sub(1, 2, 0);
}

#[test]
fn epoch_mul_and_mul_assign() {
    let assert_mul = |a: u64, b: u64, result: u64| {
        assert_eq!(Epoch::new(a).saturating_mul(Epoch::new(b)), Epoch::new(result));
        assert_eq!(Epoch::new(a).saturating_mul(b), Epoch::new(result));

        let mut mul_assigned = Epoch::new(a);
        mul_assigned.mul_assign(Epoch::new(b));
        assert_eq!(mul_assigned, Epoch::new(result));

        let mut mul_assigned = Epoch::new(a);
        mul_assigned.mul_assign(b);
        assert_eq!(mul_assigned, Epoch::new(result));
    };

    assert_mul(2, 2, 4);
    assert_mul(1, 2, 2);
    assert_mul(0, 2, 0);

    // Multiplication should be saturating.
    assert_mul(u64::max_value(), 2, u64::max_value());
}

#[test]
fn epoch_div_and_div_assign() {
    let assert_div = |a: u64, b: u64, result: u64| {
        assert_eq!(Epoch::new(a).div(Epoch::new(b)), Epoch::new(result));
        assert_eq!(Epoch::new(a).div(b), Epoch::new(result));

        let mut div_assigned = Epoch::new(a);
        div_assigned.div_assign(Epoch::new(b));
        assert_eq!(div_assigned, Epoch::new(result));

        let mut div_assigned = Epoch::new(a);
        div_assigned.div_assign(b);
        assert_eq!(div_assigned, Epoch::new(result));
    };

    assert_div(0, 2, 0);
    assert_div(2, 2, 1);
    assert_div(100, 50, 2);
    assert_div(128, 2, 64);
    assert_div(u64::max_value(), 2, 2_u64.pow(63) - 1);
}

#[test]
fn epoch_rem() {
    let assert_rem = |a: u64, b: u64, result: u64| {
        assert_eq!(Epoch::new(a).rem(Epoch::new(b)), Epoch::new(result));
        assert_eq!(Epoch::new(a).rem(b), Epoch::new(result));
    };

    assert_rem(3, 2, 1);
    assert_rem(40, 2, 0);
    assert_rem(10, 100, 10);
    assert_rem(302042, 3293, 2379);
}

#[test]
fn epoch_saturating_sub() {
    let assert_saturating_sub = |a: u64, b: u64, result: u64| {
        assert_eq!(Epoch::new(a).saturating_sub(Epoch::new(b)), Epoch::new(result));
    };

    assert_saturating_sub(1, 0, 1);
    assert_saturating_sub(2, 1, 1);
    assert_saturating_sub(14, 7, 7);
    assert_saturating_sub(u64::max_value(), 1, u64::max_value() - 1);
    assert_saturating_sub(u64::max_value(), u64::max_value(), 0);

    // Subtraction should be saturating
    assert_saturating_sub(0, 1, 0);
    assert_saturating_sub(1, 2, 0);
}

#[test]
fn epoch_checked_div() {
    let assert_checked_div = |a: u64, b: u64, result: Option<u64>| {
        let division_result_as_u64 = match Epoch::new(a).checked_div(Epoch::new(b)) {
            None => None,
            Some(val) => Some(val.as_u64()),
        };
        assert_eq!(division_result_as_u64, result);
        assert_eq!(Epoch::new(a).checked_div(b).map(|val| val.as_u64()), result);
    };

    assert_checked_div(0, 2, Some(0));
    assert_checked_div(2, 2, Some(1));
    assert_checked_div(100, 50, Some(2));
    assert_checked_div(128, 2, Some(64));
    assert_checked_div(u64::max_value(), 2, Some(2_u64.pow(63) - 1));

    assert_checked_div(2, 0, None);
    assert_checked_div(0, 0, None);
    assert_checked_div(u64::max_value(), 0, None);
}

#[test]
fn epoch_is_power_of_two() {
    let assert_is_power_of_two = |a: u64, result: bool| {
        assert_eq!(
            Epoch::new(a).is_power_of_two(),
            result,
            "{}.is_power_of_two() != {}",
            a,
            result
        );
    };

    assert_is_power_of_two(0, false);
    assert_is_power_of_two(1, true);
    assert_is_power_of_two(2, true);
    assert_is_power_of_two(3, false);
    assert_is_power_of_two(4, true);

    assert_is_power_of_two(2_u64.pow(4), true);
    assert_is_power_of_two(u64::max_value(), false);
}

#[test]
fn epoch_saturation_law() {
    for a in [0_u64, 1, 2, 1 << 32, u64::max_value() - 1, u64::max_value()] {
        assert_eq!(Epoch::new(a).saturating_add(Epoch::max_value()), Epoch::max_value());
        assert_eq!(Epoch::max_value().saturating_add(a), Epoch::max_value());
    }
    assert_eq!(Epoch::new(0).saturating_sub(1_u64), Epoch::new(0));
}

#[test]
fn epoch_test_ssz_round_trip() {
    let mut rng = XorShiftRng::from_seed([42; 16]);
    let original = Epoch::from(rng.next_u64());

    let mut bytes = vec![];
    original.ssz_append(&mut bytes);
    let (decoded, next) = Epoch::ssz_decode(&bytes, 0).unwrap();

    assert_eq!(original, decoded);
    assert_eq!(next, 8);
}

#[test]
fn epoch_ssz_bytes_are_little_endian() {
    let mut bytes = vec![0xff];
    Epoch::new(0x0102030405060708).ssz_append(&mut bytes);
    assert_eq!(bytes, vec![0xff, 8, 7, 6, 5, 4, 3, 2, 1]);

    let (decoded, next) = Epoch::ssz_decode(&bytes, 1).unwrap();
    assert_eq!(decoded, Epoch::new(0x0102030405060708));
    assert_eq!(next, 9);

    let (one, _) = Epoch::ssz_decode(&[1, 0, 0, 0, 0, 0, 0, 0, 9], 0).unwrap();
    assert_eq!(one, Epoch::new(1));
}

#[test]
fn epoch_ssz_decode_too_short() {
    assert_eq!(Epoch::ssz_decode(&[], 0), Err(DecodeError::TooShort));
    assert_eq!(Epoch::ssz_decode(&[1, 2, 3, 4, 5, 6, 7], 0), Err(DecodeError::TooShort));
    assert_eq!(Epoch::ssz_decode(&[1, 2, 3, 4, 5, 6, 7, 8], 1), Err(DecodeError::TooShort));
    assert_eq!(Epoch::ssz_decode(&[1, 2, 3, 4, 5, 6, 7, 8], 9), Err(DecodeError::TooShort));
    assert_eq!(
        Epoch::ssz_decode(&[1, 2, 3, 4, 5, 6, 7, 8], usize::max_value()),
        Err(DecodeError::TooShort)
    );
}

fn collect(epoch: Epoch, epoch_length: u64) -> Vec<u64> {
    let mut slots = vec![];
    let mut iter = epoch.slot_iter(epoch_length);
    while let Some(slot) = iter.next() {
        slots.push(slot.as_u64());
    }
    slots
}

#[test]
fn epoch_start_and_end_slot() {
    assert_eq!(Epoch::new(0).start_slot(64), Slot::new(0));
    assert_eq!(Epoch::new(0).end_slot(64), Slot::new(63));
    assert_eq!(Epoch::new(1).start_slot(64), Slot::new(64));
    assert_eq!(Epoch::new(1).end_slot(64), Slot::new(127));
    assert_eq!(Epoch::new(7).start_slot(1), Slot::new(7));
    assert_eq!(Epoch::new(7).end_slot(1), Slot::new(7));
    assert_eq!(Epoch::new(3).start_slot(10), Slot::new(30));
    assert_eq!(Epoch::new(3).end_slot(10), Slot::new(39));
}

#[test]
fn epoch_boundary_law_on_a_grid() {
    for length in [1_u64, 2, 3, 8, 64, 1000] {
        for epoch in [0_u64, 1, 2, 5, 99, 1 << 20] {
            let e = Epoch::new(epoch);
            assert_eq!(e.start_slot(length).as_u64(), epoch * length);
            assert_eq!(e.end_slot(length).as_u64(), (epoch + 1) * length - 1);
            let slots = collect(e, length);
            assert_eq!(slots.len() as u64, length);
            for (i, slot) in slots.iter().enumerate() {
                assert_eq!(*slot, epoch * length + i as u64);
                assert_eq!(Slot::new(*slot).epoch(length), e);
            }
            assert_eq!(slots[0], e.start_slot(length).as_u64());
            assert_eq!(slots[slots.len() - 1], e.end_slot(length).as_u64());
        }
    }
}

#[test]
fn epoch_slot_iter_yields_every_slot_in_order() {
    assert_eq!(collect(Epoch::new(0), 4), vec![0, 1, 2, 3]);
    assert_eq!(collect(Epoch::new(2), 4), vec![8, 9, 10, 11]);
    assert_eq!(collect(Epoch::new(5), 1), vec![5]);
}

#[test]
fn epoch_slot_iter_is_fresh_on_each_call() {
    let epoch = Epoch::new(3);
    let mut first = epoch.slot_iter(3);
    assert_eq!(first.next(), Some(Slot::new(9)));
    assert_eq!(first.next(), Some(Slot::new(10)));

    let mut second = epoch.slot_iter(3);
    assert_eq!(second.next(), Some(Slot::new(9)));

    assert_eq!(first.next(), Some(Slot::new(11)));
    assert_eq!(first.next(), None);
    assert_eq!(first.next(), None);
    assert_eq!(second.next(), Some(Slot::new(10)));
}

#[test]
fn epoch_of_length_zero_has_no_slots() {
    assert_eq!(Epoch::new(0).start_slot(0), Slot::new(0));
    assert_eq!(Epoch::new(9).start_slot(0), Slot::new(0));
    assert_eq!(Epoch::new(9).end_slot(0), Slot::new(0));
    assert_eq!(collect(Epoch::new(0), 0), Vec::<u64>::new());
    assert_eq!(collect(Epoch::new(9), 0), Vec::<u64>::new());
}

#[test]
fn epoch_boundaries_saturate() {
    let max = u64::max_value();
    assert_eq!(Epoch::new(max).start_slot(2), Slot::new(max));
    assert_eq!(Epoch::new(max).end_slot(2), Slot::new(max - 1));
    assert_eq!(collect(Epoch::new(max), 2), Vec::<u64>::new());

    // The last slot of the epoch would be u64::MAX: the product saturates there.
    let epoch = Epoch::new((1 << 32) - 1);
    let length = 1_u64 << 32;
    assert_eq!(epoch.start_slot(length), Slot::new(max - (length - 1)));
    assert_eq!(epoch.end_slot(length), Slot::new(max - 1));

    assert_eq!(Epoch::new(max - 1).start_slot(1), Slot::new(max - 1));
    assert_eq!(Epoch::new(max - 1).end_slot(1), Slot::new(max - 1));
    assert_eq!(collect(Epoch::new(max - 1), 1), vec![max - 1]);
}
