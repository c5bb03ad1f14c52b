use ledstrip::{Control, Timestamp};

fn at(secs: i64, nanos: u32) -> Timestamp {
    Timestamp { secs, nanos }
}

#[test]
fn starting_at_has_no_time_elapsed() {
    let c = Control::starting_at(at(100, 5));
    assert_eq!(c.start(), at(100, 5));
    assert_eq!(c.last_sampled(), at(100, 5));
    assert_eq!(c.elapsed_ms(), 0);
}

#[test]
fn advance_counts_whole_milliseconds() {
    let mut c = Control::starting_at(at(100, 500_000_000));
    assert_eq!(c.advance(at(100, 500_999_999)), 0);
    assert_eq!(c.advance(at(100, 501_000_000)), 1);
    assert_eq!(c.advance(at(101, 0)), 500);
    assert_eq!(c.advance(at(102, 499_999_999)), 1999);
    assert_eq!(c.advance(at(102, 500_000_000)), 2000);
    assert_eq!(c.last_sampled(), at(102, 500_000_000));
    assert_eq!(c.start(), at(100, 500_000_000));
    assert_eq!(c.elapsed_ms(), 2000);
}

#[test]
fn advance_clamps_a_clock_set_back() {
    let mut c = Control::starting_at(at(100, 0));
    assert_eq!(c.advance(at(99, 999_999_999)), 0);
    assert_eq!(c.advance(at(-5, 0)), 0);
    assert_eq!(c.last_sampled(), at(-5, 0));
    assert_eq!(c.advance(at(100, 3_000_000)), 3);
}

#[test]
fn advance_spans_the_whole_range() {
    let mut c = Control::starting_at(at(i64::MIN, 0));
    let span = (i64::MAX as u128 + i64::MAX as u128 + 1) * 1000 + 999;
    assert_eq!(c.advance(at(i64::MAX, 999_999_999)), span);
    let mut d = Control::starting_at(at(i64::MAX, u32::MAX));
    assert_eq!(d.advance(at(i64::MIN, 0)), 0);
}

#[test]
fn advance_is_monotonic_in_the_sample() {
    let mut c = Control::starting_at(at(10, 0));
    let samples = [at(10, 1), at(10, 999_999), at(10, 1_000_000), at(11, 0), at(11, 1), at(50, 0)];
    let mut last = 0;
    for s in samples {
        let ms = c.advance(s);
        assert!(ms >= last);
        last = ms;
    }
    assert_eq!(last, 40_000);
}

#[test]
fn samples_n_milliseconds_apart_read_n_apart() {
    let mut c = Control::starting_at(at(10, 0));
    let first = c.advance(at(10, 999_999));
    let second = c.advance(at(10, 30_999_999));
    assert_eq!(second - first, 30);
}

#[test]
fn new_starts_now() {
    let c = Control::new();
    assert_eq!(c.start(), c.last_sampled());
    assert_eq!(c.elapsed_ms(), 0);
    assert!(c.start().secs > 1_600_000_000);
    assert!(c.start().nanos < 1_000_000_000);
}

#[test]
fn tick_keeps_the_start_and_the_sample() {
    let mut c = Control::new();
    let start = c.start();
    let first = c.tick();
    assert_eq!(c.start(), start);
    assert_eq!(c.elapsed_ms(), first);
    let second = c.tick();
    assert_eq!(c.start(), start);
    assert_eq!(c.elapsed_ms(), second);
    assert!(second >= first);
}

#[test]
fn tick_reads_the_wall_clock() {
    let mut c = Control::starting_at(at(1_600_000_000, 0));
    let ms = c.tick();
    assert!(ms > 0);
    assert_ne!(c.last_sampled(), c.start());
    let wall = chrono::Utc::now().timestamp();
    assert!((wall - c.last_sampled().secs).abs() <= 5);
}

#[test]
fn ticks_after_a_pause_are_apart() {
    let mut c = Control::new();
    let first = c.tick();
    let pause = std::time::Instant::now();
    while pause.elapsed().as_millis() < 30 {
        std::hint::spin_loop();
    }
    let second = c.tick();
    assert!(second >= first + 28);
}

#[test]
fn ran_backwards_tells_a_clock_set_back() {
    let mut c = Control::starting_at(at(100, 500));
    assert!(!c.ran_backwards());
    c.advance(at(100, 499));
    assert!(c.ran_backwards());
    c.advance(at(99, 900_000_000));
    assert!(c.ran_backwards());
    c.advance(at(100, 500));
    assert!(!c.ran_backwards());
    c.advance(at(99, 1_000_000_501));
    assert!(!c.ran_backwards());
    c.advance(at(99, 1_000_000_499));
    assert!(c.ran_backwards());
}
