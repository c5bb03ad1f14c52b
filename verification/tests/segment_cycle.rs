use ledstrip::{Blend, Color, EngineError, Segment};

const ORANGE: Color = Color { red: 255, green: 150, blue: 0 };
const MAGENTA: Color = Color { red: 255, green: 10, blue: 220 };

fn segment(speed_ms: u128) -> Segment {
    Segment::new(10, false, [ORANGE, MAGENTA], speed_ms).unwrap()
}

#[test]
fn new_keeps_its_arguments() {
    let s = Segment::new(7, true, [ORANGE, MAGENTA], 1234).unwrap();
    assert_eq!(s.length(), 7);
    assert!(s.bgr());
    assert_eq!(*s.color_1(), ORANGE);
    assert_eq!(*s.color_2(), MAGENTA);
    assert_eq!(s.speed_ms(), 1234);
    assert_eq!(*s.color_1_state().get(), ORANGE);
}

#[test]
fn new_rejects_zero_duration() {
    assert_eq!(Segment::new(10, false, [ORANGE, MAGENTA], 0), Err(EngineError::InvalidDuration));
}

#[test]
fn default_is_orange_to_magenta_in_two_seconds() {
    let s = Segment::default();
    assert_eq!(s, Segment::new(10, false, [ORANGE, MAGENTA], 2000).unwrap());
}

#[test]
fn set_speed_rejects_zero_and_keeps_the_segment() {
    let mut s = segment(2000);
    assert_eq!(s.set_speed_ms(0), Err(EngineError::InvalidDuration));
    assert_eq!(s, segment(2000));
    assert_eq!(s.set_speed_ms(300), Ok(()));
    assert_eq!(s, segment(300));
}

#[test]
fn set_colors_replaces_only_the_colors() {
    let mut s = segment(2000);
    let a = Color::new(1, 2, 3);
    let b = Color::new(4, 5, 6);
    s.set_colors([a, b]);
    assert_eq!(s, Segment::new(10, false, [a, b], 2000).unwrap());
}

#[test]
fn mix_folds_the_first_half() {
    let s = segment(2000);
    assert_eq!(s.mix(0, 4), Blend { from: ORANGE, to: MAGENTA, numer: 0, denom: 4 });
    assert_eq!(s.mix(1, 4), Blend { from: ORANGE, to: MAGENTA, numer: 2, denom: 4 });
    assert_eq!(s.mix(2, 5), Blend { from: ORANGE, to: MAGENTA, numer: 4, denom: 5 });
}

#[test]
fn mix_folds_the_second_half() {
    let s = segment(2000);
    assert_eq!(s.mix(3, 4), Blend { from: MAGENTA, to: ORANGE, numer: 2, denom: 4 });
    assert_eq!(s.mix(3, 5), Blend { from: MAGENTA, to: ORANGE, numer: 1, denom: 5 });
    assert_eq!(s.mix(0, 1), Blend { from: ORANGE, to: MAGENTA, numer: 0, denom: 1 });
}

#[test]
fn mix_sends_the_exact_half_to_the_second_branch() {
    let s = segment(2000);
    assert_eq!(s.mix(2, 4), Blend { from: MAGENTA, to: ORANGE, numer: 0, denom: 4 });
}

#[test]
fn mix_does_not_overflow_on_large_fractions() {
    let s = segment(2000);
    let max = u128::MAX;
    assert_eq!(s.mix(max - 1, max), Blend { from: MAGENTA, to: ORANGE, numer: max - 2, denom: max });
    assert_eq!(s.mix(max / 2, max), Blend { from: ORANGE, to: MAGENTA, numer: max - 1, denom: max });
}

#[test]
fn color_at_two_second_cycle() {
    let s = segment(2000);
    assert_eq!(s.color_at(0), Blend { from: ORANGE, to: MAGENTA, numer: 0, denom: 2000 });
    assert_eq!(s.color_at(500), Blend { from: ORANGE, to: MAGENTA, numer: 1000, denom: 2000 });
    assert_eq!(s.color_at(1000), Blend { from: MAGENTA, to: ORANGE, numer: 0, denom: 2000 });
    assert_eq!(s.color_at(1500), Blend { from: MAGENTA, to: ORANGE, numer: 1000, denom: 2000 });
    assert_eq!(s.color_at(1999), Blend { from: MAGENTA, to: ORANGE, numer: 1998, denom: 2000 });
}

#[test]
fn color_at_wraps_around() {
    let s = segment(100);
    assert_eq!(s.color_at(250), s.color_at(50));
    assert_eq!(s.color_at(250), Blend { from: MAGENTA, to: ORANGE, numer: 0, denom: 100 });
}

#[test]
fn color_at_is_periodic() {
    for d in [1u128, 2, 3, 7, 100, 2000] {
        let s = segment(d);
        for e in 0..(2 * d + 3) {
            assert_eq!(s.color_at(e), s.color_at(e + d));
        }
    }
    let s = segment(u128::MAX);
    assert_eq!(s.color_at(u128::MAX), s.color_at(0));
}

#[test]
fn color_at_starts_on_first_and_turns_on_second() {
    for d in [2u128, 4, 100, 2000] {
        let s = segment(d);
        assert_eq!(s.color_at(0), Blend { from: ORANGE, to: MAGENTA, numer: 0, denom: d });
        assert_eq!(s.color_at(d / 2), Blend { from: MAGENTA, to: ORANGE, numer: 0, denom: d });
    }
    let odd = segment(7);
    assert_eq!(odd.color_at(3), Blend { from: ORANGE, to: MAGENTA, numer: 6, denom: 7 });
    let one = segment(1);
    assert_eq!(one.color_at(0), Blend { from: ORANGE, to: MAGENTA, numer: 0, denom: 1 });
}

#[test]
fn color_at_way_back_mirrors_way_out() {
    for d in [3u128, 7, 100, 2000] {
        let s = segment(d);
        let mut t = 1;
        while 2 * t < d {
            let out = s.color_at(t);
            let back = s.color_at(d - t);
            assert_eq!(back.from, out.to);
            assert_eq!(back.to, out.from);
            assert_eq!(back.denom, out.denom);
            assert_eq!(back.numer + out.numer, out.denom);
            t += 1;
        }
    }
}

#[test]
fn color_at_repeats_itself() {
    let s = segment(2000);
    for e in [0u128, 1, 499, 1000, 123_456_789] {
        assert_eq!(s.color_at(e), s.color_at(e));
    }
}
