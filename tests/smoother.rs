use std::cmp::Ordering;
use vr_gorgon::thumbstick_smoother::{ThumbstickSmoother, REPEAT_PERIOD};

const FRAME: u64 = 10_000;

#[test]
fn jump_then_hold_repeats_every_half_second() {
    let mut s = ThumbstickSmoother::default();
    assert_eq!(s.smooth_input(0, 0), Ordering::Equal);
    assert_eq!(s.smooth_input(600_000, FRAME), Ordering::Greater);
    assert_eq!(s.last_state, Ordering::Greater);
    let mut pulses = Vec::new();
    let mut t = 2 * FRAME;
    while t <= FRAME + 2 * REPEAT_PERIOD {
        match s.smooth_input(600_000, t) {
            Ordering::Greater => pulses.push(t),
            Ordering::Equal => {}
            Ordering::Less => panic!("negative pulse while held positive"),
        }
        assert_eq!(s.last_state, Ordering::Greater);
        t += FRAME;
    }
    assert_eq!(pulses, vec![FRAME + REPEAT_PERIOD, FRAME + 2 * REPEAT_PERIOD]);
}

#[test]
fn hysteresis_band_holds_and_releases() {
    let mut s = ThumbstickSmoother::default();
    assert_eq!(s.smooth_input(500_000, 0), Ordering::Equal);
    assert_eq!(s.smooth_input(500_001, 1), Ordering::Greater);
    // inside the band: still held, no repeat yet
    assert_eq!(s.smooth_input(200_000, 2), Ordering::Equal);
    assert_eq!(s.last_state, Ordering::Greater);
    // below the low threshold: released
    assert_eq!(s.smooth_input(199_999, 3), Ordering::Equal);
    assert_eq!(s.last_state, Ordering::Equal);
}

#[test]
fn negative_side_is_symmetric() {
    let mut s = ThumbstickSmoother::default();
    assert_eq!(s.smooth_input(-600_000, 0), Ordering::Less);
    assert_eq!(s.smooth_input(-300_000, 100_000), Ordering::Equal);
    assert_eq!(s.last_state, Ordering::Less);
    assert_eq!(s.smooth_input(-300_000, 500_000), Ordering::Less);
    assert_eq!(s.smooth_input(-199_999, 600_000), Ordering::Equal);
    assert_eq!(s.last_state, Ordering::Equal);
}

#[test]
fn reversal_fires_at_once() {
    let mut s = ThumbstickSmoother::default();
    assert_eq!(s.smooth_input(900_000, 0), Ordering::Greater);
    assert_eq!(s.smooth_input(-900_000, 1), Ordering::Less);
    assert_eq!(s.last_state, Ordering::Less);
    assert_eq!(s.last_pulse, Some(1));
    assert_eq!(s.smooth_input(900_000, 2), Ordering::Greater);
}

#[test]
fn first_held_frame_without_timer_starts_it() {
    let mut s = ThumbstickSmoother { last_pulse: None, last_state: Ordering::Greater };
    assert_eq!(s.smooth_input(700_000, 42), Ordering::Equal);
    assert_eq!(s.last_pulse, Some(42));
    assert_eq!(s.smooth_input(700_000, 42 + REPEAT_PERIOD), Ordering::Greater);
}

#[test]
fn clock_going_backwards_does_not_repeat() {
    let mut s = ThumbstickSmoother::default();
    assert_eq!(s.smooth_input(700_000, 2_000_000), Ordering::Greater);
    assert_eq!(s.smooth_input(700_000, 0), Ordering::Equal);
    assert_eq!(s.last_pulse, Some(2_000_000));
}
