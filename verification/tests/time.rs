use canvas_worker::time::{timer_delay, Clock, Moment};

fn at(nanos: i128) -> Moment {
    Moment { nanos }
}

#[test]
fn duration_saturates_at_zero() {
    assert_eq!(at(7).saturating_duration_since(at(3)), 4);
    assert_eq!(at(3).saturating_duration_since(at(7)), 0);
    assert_eq!(at(3).saturating_duration_since(at(3)), 0);
}

#[test]
fn duration_spans_the_origin() {
    assert_eq!(at(5).saturating_duration_since(at(-4)), 9);
    assert_eq!(at(-4).saturating_duration_since(at(-9)), 5);
    assert_eq!(at(-4).saturating_duration_since(at(5)), 0);
    assert_eq!(at(i128::MAX).saturating_duration_since(at(i128::MIN)), u128::MAX);
    assert_eq!(at(0).saturating_duration_since(at(i128::MIN)), 1 << 127);
}

#[test]
fn delay_rounds_whole_microseconds_up() {
    assert_eq!(timer_delay(at(0), at(0)), 0);
    assert_eq!(timer_delay(at(0), at(999)), 0);
    assert_eq!(timer_delay(at(0), at(1_000)), 1);
    assert_eq!(timer_delay(at(0), at(1_000_000)), 1);
    assert_eq!(timer_delay(at(0), at(1_000_999)), 1);
    assert_eq!(timer_delay(at(0), at(1_001_000)), 2);
    assert_eq!(timer_delay(at(500), at(40_000_500)), 40);
}

#[test]
fn delay_for_a_past_deadline_is_none() {
    assert_eq!(timer_delay(at(10_000_000), at(1)), 0);
}

#[test]
fn delay_is_limited_to_what_a_timer_takes() {
    let longest: i128 = (i32::MAX as i128) * 1_000_000;
    assert_eq!(timer_delay(at(0), at(longest - 1_000_000)), i32::MAX - 1);
    assert_eq!(timer_delay(at(0), at(longest)), i32::MAX);
    assert_eq!(timer_delay(at(0), at(longest + 1_000_000)), i32::MAX);
    assert_eq!(timer_delay(at(i128::MIN), at(i128::MAX)), i32::MAX);
}

#[test]
fn clock_counts_from_its_origin() {
    let clock = Clock::new();
    let first = clock.now();
    std::hint::black_box((0..100_000u64).sum::<u64>());
    while clock.now() == first {}
    let second = clock.now();
    assert!(first.nanos >= 0);
    assert!(second.nanos > first.nanos);
    let passed = clock.origin.elapsed().as_nanos() as i128;
    assert!(second.nanos <= passed);
}
