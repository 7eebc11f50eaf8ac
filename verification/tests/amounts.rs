use storage_order::amount::Amount;

fn amt(x: u64) -> Amount {
    Amount::from_u64(x)
}

fn is(a: &Amount, x: u64) -> bool {
    a.same(&amt(x))
}

#[test]
fn zero_is_zero() {
    assert!(Amount::zero().is_zero());
    assert!(amt(0).is_zero());
    assert!(!amt(1).is_zero());
    assert!(Amount::zero().same(&amt(0)));
    assert_eq!(Amount::zero().to_bytes_be(), Vec::<u8>::new());
}

#[test]
fn from_u64_gives_big_endian_bytes() {
    assert_eq!(amt(1).to_bytes_be(), vec![1u8]);
    assert_eq!(amt(255).to_bytes_be(), vec![255u8]);
    assert_eq!(amt(256).to_bytes_be(), vec![1u8, 0]);
    assert_eq!(amt(0x0102_0304).to_bytes_be(), vec![1u8, 2, 3, 4]);
    assert_eq!(amt(u64::MAX).to_bytes_be(), vec![255u8; 8]);
    assert_eq!(
        amt(1_000_000_000_000).to_bytes_be(),
        1_000_000_000_000u64.to_be_bytes()[3..].to_vec()
    );
}

#[test]
fn bytes_round_trip_and_leading_zeros_are_dropped() {
    let a = Amount::from_bytes_be(&vec![0u8, 0, 1, 2]);
    assert!(is(&a, 258));
    assert_eq!(a.to_bytes_be(), vec![1u8, 2]);
    let z = Amount::from_bytes_be(&vec![0u8, 0, 0]);
    assert!(z.is_zero());
    assert_eq!(z.to_bytes_be(), Vec::<u8>::new());
    let big = vec![7u8; 40];
    assert_eq!(Amount::from_bytes_be(&big).to_bytes_be(), big);
}

#[test]
fn plus_carries_beyond_u64() {
    assert!(is(&amt(2).plus(&amt(3)), 5));
    assert!(is(&amt(255).plus(&amt(1)), 256));
    assert!(is(&amt(0).plus(&amt(0)), 0));
    let s = amt(u64::MAX).plus(&amt(1));
    assert_eq!(s.to_bytes_be(), vec![1u8, 0, 0, 0, 0, 0, 0, 0, 0]);
    let t = amt(u64::MAX).plus(&amt(u64::MAX));
    assert_eq!(t.to_bytes_be(), vec![1u8, 255, 255, 255, 255, 255, 255, 255, 254]);
}

#[test]
fn minus_is_exact_or_none() {
    assert!(is(&amt(300).minus(&amt(220)).unwrap(), 80));
    assert!(is(&amt(256).minus(&amt(1)).unwrap(), 255));
    assert!(amt(5).minus(&amt(5)).unwrap().is_zero());
    assert!(amt(5).minus(&amt(6)).is_none());
    assert!(amt(0).minus(&amt(1)).is_none());
    let big = amt(u64::MAX).plus(&amt(1));
    assert!(is(&big.minus(&amt(1)).unwrap(), u64::MAX));
    assert!(amt(u64::MAX).minus(&big).is_none());
}

#[test]
fn times_is_exact_beyond_u64() {
    assert!(is(&amt(6).times(&amt(7)), 42));
    assert!(amt(0).times(&amt(7)).is_zero());
    assert!(amt(7).times(&amt(0)).is_zero());
    assert!(is(&amt(1).times(&amt(u64::MAX)), u64::MAX));
    let p = amt(u64::MAX).times(&amt(u64::MAX));
    let expected = (u64::MAX as u128 * u64::MAX as u128).to_be_bytes().to_vec();
    assert_eq!(p.to_bytes_be(), expected);
    let q = amt(1 << 32).times(&amt(1 << 32));
    assert_eq!(q.to_bytes_be(), vec![1u8, 0, 0, 0, 0, 0, 0, 0, 0]);
}

#[test]
fn div_floor_rounds_down() {
    assert!(is(&amt(22000).div_floor(&amt(100)).unwrap(), 220));
    assert!(is(&amt(7).div_floor(&amt(2)).unwrap(), 3));
    assert!(is(&amt(0).div_floor(&amt(5)).unwrap(), 0));
    assert!(is(&amt(4).div_floor(&amt(5)).unwrap(), 0));
    assert!(is(&amt(u64::MAX).div_floor(&amt(1)).unwrap(), u64::MAX));
    assert!(is(&amt(u64::MAX).div_floor(&amt(u64::MAX)).unwrap(), 1));
    assert!(is(&amt(1_000_000_007).div_floor(&amt(65_536)).unwrap(), 1_000_000_007 / 65_536));
}

#[test]
fn div_by_zero_is_none() {
    assert!(amt(7).div_floor(&amt(0)).is_none());
    assert!(amt(0).div_floor(&amt(0)).is_none());
    assert!(amt(7).div_rem(&Amount::zero()).is_none());
}

#[test]
fn div_rem_gives_both_parts() {
    let (q, r) = amt(1_000_003).div_rem(&amt(1000)).unwrap();
    assert!(is(&q, 1000));
    assert!(is(&r, 3));
    let x = amt(u64::MAX).times(&amt(u64::MAX)).plus(&amt(12345));
    let (q, r) = x.div_rem(&amt(u64::MAX)).unwrap();
    assert!(is(&q, u64::MAX));
    assert!(is(&r, 12345));
}

#[test]
fn div_rem_matches_u128_on_a_sweep() {
    let xs: [u128; 6] = [0, 1, 255, 256, 0xffff_ffff_ffff_ffff_ffff, u128::MAX];
    let ds: [u64; 5] = [1, 2, 255, 256, u64::MAX];
    for x in xs {
        for d in ds {
            let a = Amount::from_bytes_be(&x.to_be_bytes().to_vec());
            let (q, r) = a.div_rem(&amt(d)).unwrap();
            let eq = Amount::from_bytes_be(&(x / d as u128).to_be_bytes().to_vec());
            let er = Amount::from_bytes_be(&(x % d as u128).to_be_bytes().to_vec());
            assert!(q.same(&eq));
            assert!(r.same(&er));
        }
    }
}

#[test]
fn comparisons_follow_the_numbers() {
    assert!(amt(5).ge(&amt(5)));
    assert!(amt(6).ge(&amt(5)));
    assert!(!amt(4).ge(&amt(5)));
    assert!(amt(6).gt(&amt(5)));
    assert!(!amt(5).gt(&amt(5)));
    assert!(!amt(4).gt(&amt(5)));
    assert!(amt(256).gt(&amt(255)));
    assert!(amt(5).same(&amt(5)));
    assert!(!amt(5).same(&amt(6)));
    let padded = Amount::from_bytes_be(&vec![0u8, 5]);
    assert!(padded.same(&amt(5)));
}

#[test]
fn duplicate_is_the_same_number() {
    let a = amt(123_456_789);
    assert!(a.duplicate().same(&a));
}
