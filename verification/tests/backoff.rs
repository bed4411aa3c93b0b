use ds::ds::conn::backoff::ExponentialBackoff;

fn fail(backoff: &mut ExponentialBackoff) -> bool {
    match backoff.run::<(), &str>(Err("down")) {
        Err(("down", first)) => first,
        _ => panic!("a failure must be handed on"),
    }
}

#[test]
fn new_backoff_has_nothing_pending() {
    let backoff = ExponentialBackoff::new(5000);
    assert_eq!(backoff.timeout(), None);
}

#[test]
fn success_is_handed_on() {
    let mut backoff = ExponentialBackoff::new(5000);
    assert_eq!(backoff.run::<u32, ()>(Ok(17)), Ok(17));
    assert_eq!(backoff.timeout(), None);
}

#[test]
fn delays_grow_by_powers_of_twenty_up_to_the_ceiling() {
    let mut backoff = ExponentialBackoff::new(5000);
    assert!(fail(&mut backoff));
    assert_eq!(backoff.timeout(), Some(1));
    assert!(!fail(&mut backoff));
    assert_eq!(backoff.timeout(), Some(20));
    assert!(!fail(&mut backoff));
    assert_eq!(backoff.timeout(), Some(400));
    assert!(!fail(&mut backoff));
    assert_eq!(backoff.timeout(), Some(5000));
    for _ in 0..40 {
        assert!(!fail(&mut backoff));
        assert_eq!(backoff.timeout(), Some(5000));
    }
}

#[test]
fn success_clears_the_record() {
    let mut backoff = ExponentialBackoff::new(5000);
    for _ in 0..5 {
        fail(&mut backoff);
    }
    assert_eq!(backoff.timeout(), Some(5000));
    assert_eq!(backoff.run::<(), ()>(Ok(())), Ok(()));
    assert_eq!(backoff.timeout(), None);
    assert!(fail(&mut backoff));
    assert_eq!(backoff.timeout(), Some(1));
}

#[test]
fn reset_clears_the_record() {
    let mut backoff = ExponentialBackoff::new(300);
    fail(&mut backoff);
    fail(&mut backoff);
    fail(&mut backoff);
    assert_eq!(backoff.timeout(), Some(300));
    backoff.reset();
    assert_eq!(backoff.timeout(), None);
    assert!(fail(&mut backoff));
    assert_eq!(backoff.timeout(), Some(1));
    assert!(!fail(&mut backoff));
    assert_eq!(backoff.timeout(), Some(20));
}

#[test]
fn ceiling_of_zero_and_one() {
    let mut backoff = ExponentialBackoff::new(0);
    assert!(fail(&mut backoff));
    assert_eq!(backoff.timeout(), Some(0));
    assert!(!fail(&mut backoff));
    assert_eq!(backoff.timeout(), Some(0));
    let mut backoff = ExponentialBackoff::new(1);
    assert!(fail(&mut backoff));
    assert_eq!(backoff.timeout(), Some(1));
    assert!(!fail(&mut backoff));
    assert_eq!(backoff.timeout(), Some(1));
}

#[test]
fn a_ceiling_that_is_a_power_of_twenty() {
    let mut backoff = ExponentialBackoff::new(400);
    fail(&mut backoff);
    fail(&mut backoff);
    assert_eq!(backoff.timeout(), Some(20));
    fail(&mut backoff);
    assert_eq!(backoff.timeout(), Some(400));
    fail(&mut backoff);
    assert_eq!(backoff.timeout(), Some(400));
}

#[test]
fn the_largest_ceiling_is_reached_without_overflow() {
    let mut backoff = ExponentialBackoff::new(u64::MAX);
    let mut expected: u64 = 1;
    for _ in 0..15 {
        fail(&mut backoff);
        assert_eq!(backoff.timeout(), Some(expected));
        expected = expected.saturating_mul(20);
    }
    // 20^14 is the last power of twenty below 2^64.
    assert_eq!(backoff.timeout(), Some(1_638_400_000_000_000_000));
    for _ in 0..10 {
        fail(&mut backoff);
        assert_eq!(backoff.timeout(), Some(u64::MAX));
    }
}
