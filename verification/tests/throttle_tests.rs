use cfmms::throttle::RequestThrottle;

fn addr_ms(t: &RequestThrottle) -> (usize, usize, u64) {
    (t.requests_per_second_limit, t.requests_in_window, t.window_start_ms)
}

#[test]
fn throttle_admits_up_to_limit_within_window() {
    let mut t = RequestThrottle::new(10);
    assert_eq!(t.increment_or_sleep(3, 0), None);
    assert_eq!(t.increment_or_sleep(3, 10), None);
    assert_eq!(t.increment_or_sleep(3, 20), None);
    assert_eq!(t.requests_in_window, 9);
    // a fourth weight of 3 would make 12 > 10: blocked until the window ends
    assert_eq!(t.increment_or_sleep(3, 30), Some(1000));
    // state untouched by the blocked offer
    assert_eq!(addr_ms(&t), (10, 9, 0));
    // at the window boundary the same offer is admitted and opens a new window
    assert_eq!(t.increment_or_sleep(3, 1000), None);
    assert_eq!(addr_ms(&t), (10, 3, 1000));
}

#[test]
fn throttle_limit_zero_never_blocks() {
    let mut t = RequestThrottle::new(0);
    for i in 0..100u64 {
        assert_eq!(t.increment_or_sleep(1_000_000, i), None);
    }
    assert_eq!(addr_ms(&t), (0, 0, 0));
}

#[test]
fn throttle_oversized_weight_eventually_proceeds() {
    // a single offer heavier than the whole limit blocks once, then passes
    // at the window boundary, consuming a full window
    let mut t = RequestThrottle::new(10);
    assert_eq!(t.increment_or_sleep(15, 0), Some(1000));
    assert_eq!(t.increment_or_sleep(15, 1000), None);
    assert_eq!(t.requests_in_window, 15);
}

#[test]
fn throttle_cumulative_weight_never_exceeds_limit() {
    // many calls of one weight, at arbitrary times; the open window's count
    // stays within the limit whenever every weight does
    let mut t = RequestThrottle::new(7);
    let mut now: u64 = 0;
    for step in 0..50u64 {
        now += step * 37 % 400;
        match t.increment_or_sleep(2, now) {
            None => {}
            Some(until) => {
                assert!(until > now);
                now = until;
                assert_eq!(t.increment_or_sleep(2, now), None);
            }
        }
        assert!(t.requests_in_window <= 7);
    }
}
