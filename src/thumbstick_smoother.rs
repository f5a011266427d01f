use std::cmp::Ordering;
use vstd::prelude::*;

verus! {

/// Stick deflection, in millionths of full travel, below which a held pulse
/// is released.
pub const HYSTERESIS_LOW: i32 = 200_000;

/// Stick deflection, in millionths of full travel, beyond which a pulse fires.
pub const HYSTERESIS_HIGH: i32 = 500_000;

/// Microseconds a held pulse must last before it repeats.
pub const REPEAT_PERIOD: u64 = 500_000;

/// Turns one analog stick axis, sampled once per frame, into discrete pulses:
/// `Less` (negative), `Equal` (neutral) and `Greater` (positive), with a
/// hysteresis band and autorepeat while the stick is held.
///
/// Deflections are in millionths of full travel (`1_000_000` is fully
/// forward); times are microseconds on a monotonic clock of the caller.
pub struct ThumbstickSmoother {
    /// Time of the last pulse that was emitted or that started a hold.
    pub last_pulse: Option<u64>,
    /// The pulse state the stick is held in.
    pub last_state: Ordering,
}

/// Outcome of the autorepeat check while the stick stays held:
/// the pulse emitted and the new time of the last pulse.
pub open spec fn autorepeat(repeat_val: Ordering, last_pulse: Option<u64>, now: u64) -> (
    Ordering,
    Option<u64>,
) {
    match last_pulse {
        None => (Ordering::Equal, Some(now)),
        Some(t) => if now >= t && now - t >= REPEAT_PERIOD {
            (repeat_val, Some(now))
        } else {
            (Ordering::Equal, last_pulse)
        },
    }
}

/// One frame of smoothing: the pulse emitted, the new held state and the new
/// time of the last pulse.
pub open spec fn smooth_step(state: Ordering, last_pulse: Option<u64>, delta: int, now: u64) -> (
    Ordering,
    Ordering,
    Option<u64>,
) {
    match state {
        Ordering::Greater => if delta < -HYSTERESIS_HIGH {
            (Ordering::Less, Ordering::Less, Some(now))
        } else if delta < HYSTERESIS_LOW {
            (Ordering::Equal, Ordering::Equal, last_pulse)
        } else {
            let (p, t) = autorepeat(Ordering::Greater, last_pulse, now);
            (p, Ordering::Greater, t)
        },
        Ordering::Less => if delta > HYSTERESIS_HIGH {
            (Ordering::Greater, Ordering::Greater, Some(now))
        } else if delta > -HYSTERESIS_LOW {
            (Ordering::Equal, Ordering::Equal, last_pulse)
        } else {
            let (p, t) = autorepeat(Ordering::Less, last_pulse, now);
            (p, Ordering::Less, t)
        },
        Ordering::Equal => if delta < -HYSTERESIS_HIGH {
            (Ordering::Less, Ordering::Less, Some(now))
        } else if delta > HYSTERESIS_HIGH {
            (Ordering::Greater, Ordering::Greater, Some(now))
        } else {
            (Ordering::Equal, Ordering::Equal, last_pulse)
        },
    }
}

impl Default for ThumbstickSmoother {
    fn default() -> (r: Self)
        ensures
            r.last_pulse == None::<u64>,
            r.last_state == Ordering::Equal,
    {
        Self { last_pulse: None, last_state: Ordering::Equal }
    }
}

impl ThumbstickSmoother {
    /// Feed the stick deflection `delta` sampled at time `now`; returns the
    /// pulse for this frame.
    pub fn smooth_input(&mut self, delta: i32, now: u64) -> (r: Ordering)
        ensures
            (r, final(self).last_state, final(self).last_pulse) == smooth_step(
                old(self).last_state,
                old(self).last_pulse,
                delta as int,
                now,
            ),
    {
        match self.last_state {
            Ordering::Greater => {
                if delta < -HYSTERESIS_HIGH {
                    self.last_state = Ordering::Less;
                    self.last_pulse = Some(now);
                    Ordering::Less
                } else if delta < HYSTERESIS_LOW {
                    self.last_state = Ordering::Equal;
                    Ordering::Equal
                } else {
                    self.maybe_autorepeat(Ordering::Greater, now)
                }
            },
            Ordering::Less => {
                if delta > HYSTERESIS_HIGH {
                    self.last_state = Ordering::Greater;
                    self.last_pulse = Some(now);
                    Ordering::Greater
                } else if delta > -HYSTERESIS_LOW {
                    self.last_state = Ordering::Equal;
                    Ordering::Equal
                } else {
                    self.maybe_autorepeat(Ordering::Less, now)
                }
            },
            Ordering::Equal => {
                if delta < -HYSTERESIS_HIGH {
                    self.last_state = Ordering::Less;
                    self.last_pulse = Some(now);
                    Ordering::Less
                } else if delta > HYSTERESIS_HIGH {
                    self.last_state = Ordering::Greater;
                    self.last_pulse = Some(now);
                    Ordering::Greater
                } else {
                    Ordering::Equal
                }
            },
        }
    }

    /// While the stick stays held: the first frame of a hold starts the repeat
    /// timer, and `repeat_val` is emitted again once `REPEAT_PERIOD` has passed
    /// since the last pulse.
    fn maybe_autorepeat(&mut self, repeat_val: Ordering, now: u64) -> (r: Ordering)
        ensures
            (r, final(self).last_pulse) == autorepeat(repeat_val, old(self).last_pulse, now),
            final(self).last_state == old(self).last_state,
    {
        match self.last_pulse {
            None => {
                self.last_pulse = Some(now);
                Ordering::Equal
            },
            Some(last_pulse) => {
                if now >= last_pulse && now - last_pulse >= REPEAT_PERIOD {
                    self.last_pulse = Some(now);
                    repeat_val
                } else {
                    Ordering::Equal
                }
            },
        }
    }
}

} // verus!
