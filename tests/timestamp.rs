use openvb::time::Timestamp;

#[test]
fn arithmetic() {
    let a = Timestamp::new(1_500);
    let b = Timestamp::from(500u64);
    assert_eq!(a.add(b).value, 2_000);
    assert_eq!(a.sub(b).value, 1_000);
    assert_eq!(a.rem(Timestamp::new(400)).value, 300);
    assert_eq!(a.mul(3).value, 4_500);
    assert_eq!(a.div(4).value, 375);
    let mut c = a;
    c.add_assign(b);
    assert_eq!(c.value, 2_000);
    c.sub_assign(Timestamp::new(1));
    assert_eq!(c.value, 1_999);
    c.rem_assign(Timestamp::new(1_000));
    assert_eq!(c.value, 999);
    assert_eq!(Timestamp::zero().value, 0);
    assert_eq!(Timestamp::from_minified(7).value, 7);
}

#[test]
fn min_max_pow() {
    let a = Timestamp::new(3);
    let b = Timestamp::new(9);
    assert_eq!(a.min(b), a);
    assert_eq!(a.max(b), b);
    assert_eq!(b.min(a), a);
    assert_eq!(a.pow(4).value, 81);
    assert_eq!(a.pow(0).value, 1);
    assert_eq!(Timestamp::zero().pow(3).value, 0);
    assert_eq!(Timestamp::new(2).pow(63).value, 1u64 << 63);
}

#[test]
fn sqrt_rounds_down() {
    assert_eq!(Timestamp::new(0).sqrt().value, 0);
    assert_eq!(Timestamp::new(1).sqrt().value, 1);
    assert_eq!(Timestamp::new(15).sqrt().value, 3);
    assert_eq!(Timestamp::new(16).sqrt().value, 4);
    assert_eq!(Timestamp::new(u64::MAX).sqrt().value, 4_294_967_295);
}
