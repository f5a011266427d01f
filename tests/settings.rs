use std::cmp::Ordering;
use vr_gorgon::control_panel::{
    CPCursor, ControlPanel, CursorValue, GorgonAxis, GorgonParam, GorgonShape,
};
use vr_gorgon::gorgon1::{GorgonSettings, MultiGorgonSettings};

fn cursor(row: GorgonShape, axis: GorgonAxis, subrow: GorgonParam) -> CPCursor {
    CPCursor { row, axis, subrow }
}

#[test]
fn frequency_clamps_at_255() {
    let mut s = MultiGorgonSettings::default();
    let c = cursor(GorgonShape::Latitude, GorgonAxis::Y, GorgonParam::Frequency);
    s.lookup_mut(c.row, c.axis).frequency = 255;
    s.adjust_frequency(10, c);
    assert_eq!(s.lookup(c.row, c.axis).frequency, 255);
    assert!(s.dirty);
}

#[test]
fn frequency_clamps_at_1() {
    let mut s = MultiGorgonSettings::default();
    let c = cursor(GorgonShape::Spiral, GorgonAxis::X, GorgonParam::Frequency);
    s.lookup_mut(c.row, c.axis).frequency = 1;
    s.adjust_frequency(-10, c);
    assert_eq!(s.lookup(c.row, c.axis).frequency, 1);
    assert!(s.dirty);
}

#[test]
fn zero_frequency_delta_leaves_dirty_unset() {
    let mut s = MultiGorgonSettings::default();
    let c = CPCursor::default();
    s.adjust_frequency(0, c);
    assert!(!s.dirty);
    assert_eq!(s.lookup(c.row, c.axis).frequency, 4);
}

#[test]
fn frequency_steps_within_range() {
    let mut s = MultiGorgonSettings::default();
    let c = cursor(GorgonShape::Cartesian, GorgonAxis::Z, GorgonParam::Frequency);
    s.adjust_frequency(7, c);
    assert_eq!(s.lookup(c.row, c.axis).frequency, 11);
    s.adjust_frequency(i32::MIN, c);
    assert_eq!(s.lookup(c.row, c.axis).frequency, 1);
    s.adjust_frequency(i32::MAX, c);
    assert_eq!(s.lookup(c.row, c.axis).frequency, 255);
    // no other cell moved
    assert_eq!(s.lookup(GorgonShape::Cartesian, GorgonAxis::Y).frequency, 4);
    assert_eq!(s.lookup(GorgonShape::Spiral, GorgonAxis::Z).frequency, 4);
}

#[test]
fn toggle_flips_and_marks_dirty() {
    let mut s = MultiGorgonSettings::default();
    let c = cursor(GorgonShape::Spiral, GorgonAxis::Y, GorgonParam::Enable);
    s.toggle_enabled(c);
    assert!(s.lookup(GorgonShape::Spiral, GorgonAxis::Y).enabled);
    assert!(s.dirty);
    s.dirty = false;
    s.toggle_enabled(c);
    assert!(!s.lookup(GorgonShape::Spiral, GorgonAxis::Y).enabled);
    assert!(s.dirty);
}

#[test]
fn speed_amplitude_curl_accumulate_a_tenth() {
    let mut s = MultiGorgonSettings::default();
    let c = cursor(GorgonShape::Latitude, GorgonAxis::Z, GorgonParam::Speed);
    s.adjust_speed(500_000, c);
    assert_eq!(s.lookup(c.row, c.axis).speed, 1_050_000);
    s.adjust_amplitude(-1_000_000, c);
    assert_eq!(s.lookup(c.row, c.axis).amplitude, -100_000);
    s.adjust_curl(25, c);
    assert_eq!(s.lookup(c.row, c.axis).curl, 2);
    s.adjust_curl(-25, c);
    assert_eq!(s.lookup(c.row, c.axis).curl, 0);
    assert!(s.dirty);
}

#[test]
fn zero_float_deltas_change_nothing() {
    let mut s = MultiGorgonSettings::default();
    let c = cursor(GorgonShape::Spiral, GorgonAxis::X, GorgonParam::Curl);
    s.adjust_speed(0, c);
    s.adjust_amplitude(0, c);
    s.adjust_curl(0, c);
    assert!(!s.dirty);
    assert_eq!(*s.lookup(c.row, c.axis), GorgonSettings::default());
}

#[test]
fn accumulation_saturates_at_i64_range() {
    let mut s = MultiGorgonSettings::default();
    let c = CPCursor::default();
    s.lookup_mut(c.row, c.axis).speed = i64::MAX - 3;
    s.adjust_speed(1_000_000, c);
    assert_eq!(s.lookup(c.row, c.axis).speed, i64::MAX);
    s.lookup_mut(c.row, c.axis).curl = i64::MIN + 3;
    s.adjust_curl(-1_000_000, c);
    assert_eq!(s.lookup(c.row, c.axis).curl, i64::MIN);
}

#[test]
fn default_cells() {
    let s = MultiGorgonSettings::default();
    assert!(!s.dirty);
    for shape in [GorgonShape::Spiral, GorgonShape::Latitude, GorgonShape::Cartesian] {
        for axis in [GorgonAxis::X, GorgonAxis::Y, GorgonAxis::Z] {
            let cell = s.lookup(shape, axis);
            assert!(!cell.enabled);
            assert_eq!(cell.frequency, 4);
            assert_eq!(cell.speed, 1_000_000);
            assert_eq!(cell.amplitude, 0);
            assert_eq!(cell.curl, 0);
        }
    }
}

#[test]
fn demo_cells() {
    let s = MultiGorgonSettings::with_demo_cells();
    let spiral = s.lookup(GorgonShape::Spiral, GorgonAxis::Z);
    assert!(spiral.enabled);
    assert_eq!(spiral.frequency, 8);
    assert_eq!(spiral.speed, 4_000_000);
    assert_eq!(spiral.curl, 3_141_593);
    let latitude = s.lookup(GorgonShape::Latitude, GorgonAxis::Z);
    assert!(latitude.enabled);
    assert_eq!(latitude.frequency, 40);
    assert_eq!(latitude.amplitude, 3_000_000);
    assert!(!s.lookup(GorgonShape::Latitude, GorgonAxis::X).enabled);
    assert!(!s.lookup(GorgonShape::Cartesian, GorgonAxis::Z).enabled);
}

#[test]
fn shape_for_returns_block() {
    let mut s = MultiGorgonSettings::default();
    s.shape_for_mut(GorgonShape::Cartesian)[1].enabled = true;
    assert!(s.shape_for(GorgonShape::Cartesian)[1].enabled);
    assert!(s.lookup(GorgonShape::Cartesian, GorgonAxis::Y).enabled);
    assert!(!s.shape_for(GorgonShape::Latitude)[1].enabled);
}

#[test]
fn panel_stick_moves_axis_on_enable_row() {
    let mut panel = ControlPanel::default();
    let mut s = MultiGorgonSettings::default();
    panel.handle_thumbstick(800_000, 0, 0, &mut s);
    assert_eq!(panel.cursor.axis, GorgonAxis::Y);
    assert!(!s.dirty);
    panel.handle_thumbstick(0, 0, 10_000, &mut s);
    panel.handle_thumbstick(-800_000, 0, 20_000, &mut s);
    assert_eq!(panel.cursor.axis, GorgonAxis::X);
}

#[test]
fn panel_positive_vertical_pulse_advances_negative_goes_back() {
    let mut panel = ControlPanel::default();
    let mut s = MultiGorgonSettings::default();
    panel.handle_thumbstick(0, 800_000, 0, &mut s);
    assert_eq!(panel.cursor.subrow, GorgonParam::Frequency);
    assert_eq!(panel.thumbstick_y_smoother.last_state, Ordering::Greater);
    panel.handle_thumbstick(0, 0, 10_000, &mut s);
    panel.handle_thumbstick(0, -800_000, 20_000, &mut s);
    assert_eq!(panel.cursor, CPCursor::default());
    assert_eq!(panel.thumbstick_y_smoother.last_state, Ordering::Less);
    panel.handle_thumbstick(0, 0, 30_000, &mut s);
    panel.handle_thumbstick(0, -800_000, 40_000, &mut s);
    assert_eq!(
        panel.cursor,
        CPCursor { row: GorgonShape::Cartesian, axis: GorgonAxis::X, subrow: GorgonParam::Amplitude }
    );
}

#[test]
fn panel_frequency_row_steps_by_pulses() {
    let mut panel = ControlPanel::default();
    panel.cursor = cursor(GorgonShape::Spiral, GorgonAxis::Z, GorgonParam::Frequency);
    let mut s = MultiGorgonSettings::default();
    panel.handle_thumbstick(900_000, 0, 0, &mut s);
    assert_eq!(s.lookup(GorgonShape::Spiral, GorgonAxis::Z).frequency, 5);
    assert!(s.dirty);
    // held, no repeat yet
    panel.handle_thumbstick(900_000, 0, 100_000, &mut s);
    assert_eq!(s.lookup(GorgonShape::Spiral, GorgonAxis::Z).frequency, 5);
    panel.handle_thumbstick(900_000, 0, 500_000, &mut s);
    assert_eq!(s.lookup(GorgonShape::Spiral, GorgonAxis::Z).frequency, 6);
    assert_eq!(panel.cursor.axis, GorgonAxis::Z);
}

#[test]
fn panel_speed_row_uses_raw_deflection() {
    let mut panel = ControlPanel::default();
    panel.cursor = cursor(GorgonShape::Latitude, GorgonAxis::X, GorgonParam::Speed);
    let mut s = MultiGorgonSettings::default();
    panel.handle_thumbstick(300_000, 0, 0, &mut s);
    panel.handle_thumbstick(300_000, 0, 10_000, &mut s);
    assert_eq!(s.lookup(GorgonShape::Latitude, GorgonAxis::X).speed, 1_060_000);
    panel.handle_thumbstick(0, 0, 20_000, &mut s);
    assert_eq!(s.lookup(GorgonShape::Latitude, GorgonAxis::X).speed, 1_060_000);
}

#[test]
fn panel_click_toggles_only_on_enable_row() {
    let mut panel = ControlPanel::default();
    let mut s = MultiGorgonSettings::default();
    panel.handle_a_click(&mut s);
    assert!(s.lookup(GorgonShape::Spiral, GorgonAxis::X).enabled);
    assert!(s.dirty);
    let mut t = MultiGorgonSettings::default();
    panel.cursor.subrow = GorgonParam::Speed;
    panel.handle_a_click(&mut t);
    assert!(!t.dirty);
    assert!(!t.lookup(GorgonShape::Spiral, GorgonAxis::X).enabled);
}

#[test]
fn value_under_cursor_follows_row() {
    let s = MultiGorgonSettings::with_demo_cells();
    let mut panel = ControlPanel::default();
    panel.cursor = cursor(GorgonShape::Spiral, GorgonAxis::Z, GorgonParam::Enable);
    assert_eq!(panel.value_under_cursor(&s), None);
    panel.cursor.subrow = GorgonParam::Frequency;
    assert_eq!(panel.value_under_cursor(&s), Some(CursorValue::Frequency(8)));
    panel.cursor.subrow = GorgonParam::Speed;
    assert_eq!(panel.value_under_cursor(&s), Some(CursorValue::Millionths(4_000_000)));
    panel.cursor.subrow = GorgonParam::Curl;
    assert_eq!(panel.value_under_cursor(&s), Some(CursorValue::Millionths(3_141_593)));
    panel.cursor = cursor(GorgonShape::Latitude, GorgonAxis::Z, GorgonParam::Amplitude);
    assert_eq!(panel.value_under_cursor(&s), Some(CursorValue::Millionths(3_000_000)));
}

#[test]
fn clear_dirty_keeps_cells() {
    let mut s = MultiGorgonSettings::with_demo_cells();
    let c = CPCursor::default();
    s.toggle_enabled(c);
    assert!(s.dirty);
    let before = s.fragment_shader();
    s.clear_dirty();
    assert!(!s.dirty);
    assert!(s.lookup(GorgonShape::Spiral, GorgonAxis::X).enabled);
    assert_eq!(s.fragment_shader(), before);
}
