use crate::gorgon1::{
    amplitude_step, cell, cells_updated, curl_step, frequency_step, speed_step, toggled,
    GorgonSettings, MultiGorgonSettings,
};
use crate::thumbstick_smoother::{smooth_step, ThumbstickSmoother};
use std::cmp::Ordering;
use vstd::prelude::*;

verus! {

/// The pattern family a menu block edits.
#[derive(PartialEq, Eq, Structural, Copy, Clone, Debug)]
pub enum GorgonShape {
    Spiral,
    Latitude,
    Cartesian,
}

/// The pole axis of a pattern cell; navigation cycles X, Y, Z.
#[derive(PartialEq, Eq, Structural, Copy, Clone, Debug)]
pub enum GorgonAxis {
    X,
    Y,
    Z,
}

/// The parameter row inside a shape block.
#[derive(PartialEq, Eq, Structural, Copy, Clone, Debug)]
pub enum GorgonParam {
    Enable,
    Frequency,
    Speed,
    Amplitude,
    Curl,
}

impl Default for GorgonShape {
    fn default() -> (r: Self)
        ensures
            r == GorgonShape::Spiral,
    {
        GorgonShape::Spiral
    }
}

impl Default for GorgonAxis {
    fn default() -> (r: Self)
        ensures
            r == GorgonAxis::X,
    {
        GorgonAxis::X
    }
}

impl Default for GorgonParam {
    fn default() -> (r: Self)
        ensures
            r == GorgonParam::Enable,
    {
        GorgonParam::Enable
    }
}

/// Position of an axis in the cycle X, Y, Z.
pub open spec fn axis_index(a: GorgonAxis) -> int {
    match a {
        GorgonAxis::X => 0,
        GorgonAxis::Y => 1,
        GorgonAxis::Z => 2,
    }
}

/// The axis at a position of the cycle X, Y, Z (taken modulo 3).
pub open spec fn axis_at(i: int) -> GorgonAxis {
    let k = i % 3;
    if k == 0 {
        GorgonAxis::X
    } else if k == 1 {
        GorgonAxis::Y
    } else {
        GorgonAxis::Z
    }
}

/// The axis after `a` in the cycle X, Y, Z, X.
pub open spec fn next_axis(a: GorgonAxis) -> GorgonAxis {
    axis_at(axis_index(a) + 1)
}

/// The axis before `a` in the cycle X, Y, Z, X.
pub open spec fn prev_axis(a: GorgonAxis) -> GorgonAxis {
    axis_at(axis_index(a) + 2)
}

impl GorgonAxis {
    pub fn index(&self) -> (r: u8)
        ensures
            r as int == axis_index(*self),
    {
        match self {
            GorgonAxis::X => 0,
            GorgonAxis::Y => 1,
            GorgonAxis::Z => 2,
        }
    }
}


/// Number of selectable (shape, parameter) rows in the menu.
pub const ROW_COUNT: usize = 13;

/// A (shape, parameter) pair that the menu offers: Curl exists for spirals only.
pub open spec fn valid_row(shape: GorgonShape, param: GorgonParam) -> bool {
    shape == GorgonShape::Spiral || param != GorgonParam::Curl
}

/// The menu rows in display order: the Spiral block, then Latitude, then
/// Cartesian. Navigation walks this sequence as one cycle.
pub open spec fn row_cycle() -> Seq<(GorgonShape, GorgonParam)> {
    seq![
        (GorgonShape::Spiral, GorgonParam::Enable),
        (GorgonShape::Spiral, GorgonParam::Frequency),
        (GorgonShape::Spiral, GorgonParam::Speed),
        (GorgonShape::Spiral, GorgonParam::Amplitude),
        (GorgonShape::Spiral, GorgonParam::Curl),
        (GorgonShape::Latitude, GorgonParam::Enable),
        (GorgonShape::Latitude, GorgonParam::Frequency),
        (GorgonShape::Latitude, GorgonParam::Speed),
        (GorgonShape::Latitude, GorgonParam::Amplitude),
        (GorgonShape::Cartesian, GorgonParam::Enable),
        (GorgonShape::Cartesian, GorgonParam::Frequency),
        (GorgonShape::Cartesian, GorgonParam::Speed),
        (GorgonShape::Cartesian, GorgonParam::Amplitude),
    ]
}

/// Index of a row in `row_cycle` (meaningful for valid rows).
pub open spec fn row_pos(shape: GorgonShape, param: GorgonParam) -> int {
    let base: int = match shape {
        GorgonShape::Spiral => 0,
        GorgonShape::Latitude => 5,
        GorgonShape::Cartesian => 9,
    };
    let offset: int = match param {
        GorgonParam::Enable => 0,
        GorgonParam::Frequency => 1,
        GorgonParam::Speed => 2,
        GorgonParam::Amplitude => 3,
        GorgonParam::Curl => 4,
    };
    base + offset
}

/// The row after position `i` of the cycle.
pub open spec fn row_after(i: int) -> (GorgonShape, GorgonParam) {
    row_cycle()[(i + 1) % (ROW_COUNT as int)]
}

/// The row before position `i` of the cycle.
pub open spec fn row_before(i: int) -> (GorgonShape, GorgonParam) {
    row_cycle()[(i + ROW_COUNT as int - 1) % (ROW_COUNT as int)]
}

/// The row one step down from (`shape`, `param`): the next in the cycle. A
/// Curl row outside the Spiral block counts as that block's Amplitude row.
pub open spec fn row_down(shape: GorgonShape, param: GorgonParam) -> (GorgonShape, GorgonParam) {
    if valid_row(shape, param) {
        row_after(row_pos(shape, param))
    } else {
        row_after(row_pos(shape, GorgonParam::Amplitude))
    }
}

/// The row one step up from (`shape`, `param`): the previous in the cycle. A
/// Curl row outside the Spiral block steps to that block's Amplitude row.
pub open spec fn row_up(shape: GorgonShape, param: GorgonParam) -> (GorgonShape, GorgonParam) {
    if valid_row(shape, param) {
        row_before(row_pos(shape, param))
    } else {
        (shape, GorgonParam::Amplitude)
    }
}

/// Every valid row stands in the cycle at `row_pos`, and the cycle holds only
/// valid rows.
pub proof fn lemma_row_pos(shape: GorgonShape, param: GorgonParam)
    ensures
        row_cycle().len() == ROW_COUNT,
        valid_row(shape, param) ==> 0 <= row_pos(shape, param) < ROW_COUNT,
        valid_row(shape, param) ==> row_cycle()[row_pos(shape, param)] == (shape, param),
        forall|i: int|
            0 <= i < ROW_COUNT ==> valid_row(#[trigger] row_cycle()[i].0, row_cycle()[i].1)
                && row_pos(row_cycle()[i].0, row_cycle()[i].1) == i,
{
}

/// Three steps right along the axes return to the starting axis, and so do
/// three steps left.
pub proof fn lemma_axis_cycle(a: GorgonAxis)
    ensures
        next_axis(next_axis(next_axis(a))) == a,
        prev_axis(prev_axis(prev_axis(a))) == a,
        prev_axis(next_axis(a)) == a,
        next_axis(prev_axis(a)) == a,
{
}

/// Stepping down a row and then up again, or up and then down, returns to the
/// row where it started, for every row of the menu.
pub proof fn lemma_row_steps_inverse(shape: GorgonShape, param: GorgonParam)
    requires
        valid_row(shape, param),
    ensures
        ({
            let down = row_down(shape, param);
            row_up(down.0, down.1) == (shape, param)
        }),
        ({
            let up = row_up(shape, param);
            row_down(up.0, up.1) == (shape, param)
        }),
{
    lemma_row_pos(shape, param);
    let down = row_down(shape, param);
    let up = row_up(shape, param);
    lemma_row_pos(down.0, down.1);
    lemma_row_pos(up.0, up.1);
}

/// The menu cursor: a shape block, a parameter row inside it, and an axis column.
#[derive(PartialEq, Eq, Structural, Copy, Clone, Debug)]
pub struct CPCursor {
    pub row: GorgonShape,
    pub axis: GorgonAxis,
    pub subrow: GorgonParam,
}

impl CPCursor {
    /// The cursor at the first row of the menu, on the X column.
    pub open spec fn default_spec() -> CPCursor {
        CPCursor { row: GorgonShape::Spiral, axis: GorgonAxis::X, subrow: GorgonParam::Enable }
    }
}

impl Default for CPCursor {
    fn default() -> (r: Self)
        ensures
            r == CPCursor::default_spec(),
    {
        CPCursor { row: GorgonShape::Spiral, axis: GorgonAxis::X, subrow: GorgonParam::Enable }
    }
}

impl CPCursor {
    /// The cursor points at one of the menu's rows.
    pub open spec fn wf(&self) -> bool {
        valid_row(self.row, self.subrow)
    }

    /// Move one column right, wrapping from Z to X.
    pub fn incr_x(&mut self)
        ensures
            final(self).axis == next_axis(old(self).axis),
            final(self).row == old(self).row,
            final(self).subrow == old(self).subrow,
    {
        self.axis = match self.axis {
            GorgonAxis::X => GorgonAxis::Y,
            GorgonAxis::Y => GorgonAxis::Z,
            GorgonAxis::Z => GorgonAxis::X,
        };
    }

    /// Move one column left, wrapping from X to Z.
    pub fn decr_x(&mut self)
        ensures
            final(self).axis == prev_axis(old(self).axis),
            final(self).row == old(self).row,
            final(self).subrow == old(self).subrow,
    {
        self.axis = match self.axis {
            GorgonAxis::X => GorgonAxis::Z,
            GorgonAxis::Y => GorgonAxis::X,
            GorgonAxis::Z => GorgonAxis::Y,
        };
    }

    /// Move one row down the menu, wrapping from the last Cartesian row to the
    /// first Spiral row.
    pub fn incr_y(&mut self)
        ensures
            final(self).axis == old(self).axis,
            final(self).wf(),
            (final(self).row, final(self).subrow) == row_down(old(self).row, old(self).subrow),
    {
        let (row, subrow) = match self.row {
            GorgonShape::Spiral => match self.subrow {
                GorgonParam::Enable => (GorgonShape::Spiral, GorgonParam::Frequency),
                GorgonParam::Frequency => (GorgonShape::Spiral, GorgonParam::Speed),
                GorgonParam::Speed => (GorgonShape::Spiral, GorgonParam::Amplitude),
                GorgonParam::Amplitude => (GorgonShape::Spiral, GorgonParam::Curl),
                GorgonParam::Curl => (GorgonShape::Latitude, GorgonParam::Enable),
            },
            GorgonShape::Latitude => match self.subrow {
                GorgonParam::Enable => (GorgonShape::Latitude, GorgonParam::Frequency),
                GorgonParam::Frequency => (GorgonShape::Latitude, GorgonParam::Speed),
                GorgonParam::Speed => (GorgonShape::Latitude, GorgonParam::Amplitude),
                GorgonParam::Amplitude | GorgonParam::Curl => (
                    GorgonShape::Cartesian,
                    GorgonParam::Enable,
                ),
            },
            GorgonShape::Cartesian => match self.subrow {
                GorgonParam::Enable => (GorgonShape::Cartesian, GorgonParam::Frequency),
                GorgonParam::Frequency => (GorgonShape::Cartesian, GorgonParam::Speed),
                GorgonParam::Speed => (GorgonShape::Cartesian, GorgonParam::Amplitude),
                GorgonParam::Amplitude | GorgonParam::Curl => (
                    GorgonShape::Spiral,
                    GorgonParam::Enable,
                ),
            },
        };
        self.row = row;
        self.subrow = subrow;
    }

    /// Move one row up the menu, wrapping from the first Spiral row to the last
    /// Cartesian row.
    pub fn decr_y(&mut self)
        ensures
            final(self).axis == old(self).axis,
            final(self).wf(),
            (final(self).row, final(self).subrow) == row_up(old(self).row, old(self).subrow),
    {
        let (row, subrow) = match self.row {
            GorgonShape::Spiral => match self.subrow {
                GorgonParam::Enable => (GorgonShape::Cartesian, GorgonParam::Amplitude),
                GorgonParam::Frequency => (GorgonShape::Spiral, GorgonParam::Enable),
                GorgonParam::Speed => (GorgonShape::Spiral, GorgonParam::Frequency),
                GorgonParam::Amplitude => (GorgonShape::Spiral, GorgonParam::Speed),
                GorgonParam::Curl => (GorgonShape::Spiral, GorgonParam::Amplitude),
            },
            GorgonShape::Latitude => match self.subrow {
                GorgonParam::Enable => (GorgonShape::Spiral, GorgonParam::Curl),
                GorgonParam::Frequency => (GorgonShape::Latitude, GorgonParam::Enable),
                GorgonParam::Speed => (GorgonShape::Latitude, GorgonParam::Frequency),
                GorgonParam::Amplitude => (GorgonShape::Latitude, GorgonParam::Speed),
                GorgonParam::Curl => (GorgonShape::Latitude, GorgonParam::Amplitude),
            },
            GorgonShape::Cartesian => match self.subrow {
                GorgonParam::Enable => (GorgonShape::Latitude, GorgonParam::Amplitude),
                GorgonParam::Frequency => (GorgonShape::Cartesian, GorgonParam::Enable),
                GorgonParam::Speed => (GorgonShape::Cartesian, GorgonParam::Frequency),
                GorgonParam::Amplitude => (GorgonShape::Cartesian, GorgonParam::Speed),
                GorgonParam::Curl => (GorgonShape::Cartesian, GorgonParam::Amplitude),
            },
        };
        self.row = row;
        self.subrow = subrow;
    }
}

/// The axis after a horizontal pulse: right on `Greater`, left on `Less`.
pub open spec fn axis_after_pulse(a: GorgonAxis, pulse: Ordering) -> GorgonAxis {
    match pulse {
        Ordering::Less => prev_axis(a),
        Ordering::Equal => a,
        Ordering::Greater => next_axis(a),
    }
}

/// The row after a vertical pulse: a positive pulse (`Greater`) advances to
/// the next row of the cycle, a negative one (`Less`) to the previous row.
pub open spec fn row_after_pulse(shape: GorgonShape, param: GorgonParam, pulse: Ordering) -> (
    GorgonShape,
    GorgonParam,
) {
    match pulse {
        Ordering::Less => row_up(shape, param),
        Ordering::Equal => (shape, param),
        Ordering::Greater => row_down(shape, param),
    }
}

/// `t` is `s` after `edit` was applied to the cell under `cursor` and the store
/// marked dirty.
pub open spec fn cell_edited(
    s: MultiGorgonSettings,
    t: MultiGorgonSettings,
    cursor: CPCursor,
    edit: spec_fn(GorgonSettings) -> GorgonSettings,
) -> bool {
    t.dirty && cells_updated(s, t, cursor.row, cursor.axis, edit(cell(s, cursor.row, cursor.axis)))
}

/// What the horizontal stick does to the settings: on a Frequency row each
/// pulse steps the frequency by one; on a Speed, Amplitude or Curl row the raw
/// deflection `dx` moves the value every frame; elsewhere nothing changes.
pub open spec fn stick_edit(
    s: MultiGorgonSettings,
    t: MultiGorgonSettings,
    cursor: CPCursor,
    pulse: Ordering,
    dx: int,
) -> bool {
    match cursor.subrow {
        GorgonParam::Enable => t == s,
        GorgonParam::Frequency => match pulse {
            Ordering::Less => cell_edited(s, t, cursor, |c| frequency_step(c, -1)),
            Ordering::Equal => t == s,
            Ordering::Greater => cell_edited(s, t, cursor, |c| frequency_step(c, 1)),
        },
        GorgonParam::Speed => if dx == 0 {
            t == s
        } else {
            cell_edited(s, t, cursor, |c| speed_step(c, dx))
        },
        GorgonParam::Amplitude => if dx == 0 {
            t == s
        } else {
            cell_edited(s, t, cursor, |c| amplitude_step(c, dx))
        },
        GorgonParam::Curl => if dx == 0 {
            t == s
        } else {
            cell_edited(s, t, cursor, |c| curl_step(c, dx))
        },
    }
}

/// The value shown beside the parameter row being edited: a frequency, or a
/// speed, amplitude or curl in millionths.
#[derive(PartialEq, Eq, Structural, Copy, Clone, Debug)]
pub enum CursorValue {
    Frequency(u8),
    Millionths(i64),
}

/// The value of parameter `param` in cell `c`; an Enable row shows none.
pub open spec fn value_of(c: GorgonSettings, param: GorgonParam) -> Option<CursorValue> {
    match param {
        GorgonParam::Enable => None,
        GorgonParam::Frequency => Some(CursorValue::Frequency(c.frequency)),
        GorgonParam::Speed => Some(CursorValue::Millionths(c.speed)),
        GorgonParam::Amplitude => Some(CursorValue::Millionths(c.amplitude)),
        GorgonParam::Curl => Some(CursorValue::Millionths(c.curl)),
    }
}

/// The panel's input state: the cursor and one smoother per stick axis.
pub struct ControlPanel {
    pub cursor: CPCursor,
    pub thumbstick_x_smoother: ThumbstickSmoother,
    pub thumbstick_y_smoother: ThumbstickSmoother,
}

impl Default for ControlPanel {
    fn default() -> (r: Self)
        ensures
            r.cursor == CPCursor::default_spec(),
            r.thumbstick_x_smoother.last_state == Ordering::Equal,
            r.thumbstick_x_smoother.last_pulse == None::<u64>,
            r.thumbstick_y_smoother.last_state == Ordering::Equal,
            r.thumbstick_y_smoother.last_pulse == None::<u64>,
    {
        ControlPanel {
            cursor: CPCursor::default(),
            thumbstick_x_smoother: ThumbstickSmoother::default(),
            thumbstick_y_smoother: ThumbstickSmoother::default(),
        }
    }
}

impl ControlPanel {
    /// Handle one frame of stick input: `dx` and `dy` are the deflections in
    /// millionths of full travel, sampled at time `now` in microseconds.
    ///
    /// The horizontal axis moves the cursor between axis columns on an Enable
    /// row and edits the value under the cursor on the other rows; the
    /// vertical axis then moves the cursor between rows.
    pub fn handle_thumbstick(
        &mut self,
        dx: i32,
        dy: i32,
        now: u64,
        settings: &mut MultiGorgonSettings,
    )
        ensures
            ({
                let sx = old(self).thumbstick_x_smoother;
                let sy = old(self).thumbstick_y_smoother;
                let (px, x_state, x_last) = smooth_step(sx.last_state, sx.last_pulse, dx as int, now);
                let (py, y_state, y_last) = smooth_step(sy.last_state, sy.last_pulse, dy as int, now);
                let c = old(self).cursor;
                &&& final(self).thumbstick_x_smoother.last_state == x_state
                &&& final(self).thumbstick_x_smoother.last_pulse == x_last
                &&& final(self).thumbstick_y_smoother.last_state == y_state
                &&& final(self).thumbstick_y_smoother.last_pulse == y_last
                &&& final(self).cursor.axis == if c.subrow == GorgonParam::Enable {
                    axis_after_pulse(c.axis, px)
                } else {
                    c.axis
                }
                &&& (final(self).cursor.row, final(self).cursor.subrow) == row_after_pulse(
                    c.row,
                    c.subrow,
                    py,
                )
                &&& stick_edit(*old(settings), *final(settings), c, px, dx as int)
            }),
    {
        let smoothed_x = self.thumbstick_x_smoother.smooth_input(dx, now);
        match self.cursor.subrow {
            GorgonParam::Enable => match smoothed_x {
                Ordering::Less => self.cursor.decr_x(),
                Ordering::Equal => {},
                Ordering::Greater => self.cursor.incr_x(),
            },
            GorgonParam::Frequency => match smoothed_x {
                Ordering::Less => settings.adjust_frequency(-1, self.cursor),
                Ordering::Equal => {},
                Ordering::Greater => settings.adjust_frequency(1, self.cursor),
            },
            GorgonParam::Speed => settings.adjust_speed(dx, self.cursor),
            GorgonParam::Amplitude => settings.adjust_amplitude(dx, self.cursor),
            GorgonParam::Curl => settings.adjust_curl(dx, self.cursor),
        }
        match self.thumbstick_y_smoother.smooth_input(dy, now) {
            Ordering::Less => self.cursor.decr_y(),
            Ordering::Equal => {},
            Ordering::Greater => self.cursor.incr_y(),
        }
    }

    /// The value of the row under the cursor, for display while editing.
    pub fn value_under_cursor(&self, settings: &MultiGorgonSettings) -> (r: Option<CursorValue>)
        ensures
            r == value_of(cell(*settings, self.cursor.row, self.cursor.axis), self.cursor.subrow),
    {
        let c = settings.lookup(self.cursor.row, self.cursor.axis);
        match self.cursor.subrow {
            GorgonParam::Enable => None,
            GorgonParam::Frequency => Some(CursorValue::Frequency(c.frequency)),
            GorgonParam::Speed => Some(CursorValue::Millionths(c.speed)),
            GorgonParam::Amplitude => Some(CursorValue::Millionths(c.amplitude)),
            GorgonParam::Curl => Some(CursorValue::Millionths(c.curl)),
        }
    }

    /// The confirm button: on an Enable row it toggles the cell under the
    /// cursor; elsewhere it does nothing.
    pub fn handle_a_click(&mut self, settings: &mut MultiGorgonSettings)
        ensures
            *final(self) == *old(self),
            old(self).cursor.subrow == GorgonParam::Enable ==> cell_edited(
                *old(settings),
                *final(settings),
                old(self).cursor,
                |c| toggled(c),
            ),
            old(self).cursor.subrow != GorgonParam::Enable ==> *final(settings) == *old(settings),
    {
        if let GorgonParam::Enable = self.cursor.subrow {
            settings.toggle_enabled(self.cursor)
        }
    }
}

} // verus!
