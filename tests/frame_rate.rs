use stocks_dashboard::frame_rate::FrameRateCounter;

#[test]
fn silent_until_interval_elapses() {
    let mut c = FrameRateCounter::new_at(1000, 5_000);
    for t in 1..10 {
        assert_eq!(c.incr_at(5_000 + t * 100), None);
    }
    assert_eq!(c.frame_time(), None);
    assert_eq!(c.incr_at(6_000), Some(100));
    assert_eq!(c.frame_time(), Some(100));
    assert_eq!(c.frames, 0);
    assert_eq!(c.last_interval, 6_000);
}

#[test]
fn frame_time_is_floored() {
    let mut c = FrameRateCounter::new_at(1000, 0);
    assert_eq!(c.incr_at(10), None);
    assert_eq!(c.incr_at(20), None);
    assert_eq!(c.incr_at(1000), Some(333));
    // a late report counts the whole elapsed time
    assert_eq!(c.incr_at(3500), Some(2500));
}

#[test]
fn zero_frame_time_is_a_report() {
    let mut c = FrameRateCounter::new_at(1, 0);
    assert_eq!(c.frame_time(), None);
    assert_eq!(c.incr_at(0), None);
    assert_eq!(c.incr_at(1), Some(0));
    assert_eq!(c.frame_time(), Some(0));
}

#[test]
fn system_clock_counter_starts_empty() {
    let mut c = FrameRateCounter::new(60_000);
    assert_eq!(c.frame_time(), None);
    assert_eq!(c.incr(), None);
}
