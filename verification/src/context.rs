use vstd::prelude::*;
use crate::value::NormalizedValue;

verus! {

/// A pointer position in absolute screen coordinates.
#[derive(Clone, Copy, Debug, PartialEq, Eq, Structural)]
pub struct ScreenPoint {
    pub x: i32,
    pub y: i32,
}

/// The logical modifier flags that are active while one input event is
/// delivered. They are sampled per event and never stored.
#[derive(Clone, Copy, Debug, PartialEq, Eq, Structural)]
pub struct Modifiers {
    /// Reduces drag and wheel sensitivity for precise adjustment.
    pub fine: bool,
    /// Turns a primary click into a reset to the default value.
    pub reset: bool,
    /// Turns a primary click into a request for typed entry.
    pub text_entry: bool,
}

/// The mouse button that an event reports.
#[derive(Clone, Copy, Debug, PartialEq, Eq, Structural)]
pub enum MouseButton {
    Left,
    Right,
    Middle,
    Other,
}

/// What the bound parameter reports at the moment an event is delivered.
///
/// The control never interprets units, ranges or step sizes: the steps are
/// whatever the parameter says they are.
#[derive(Clone, Copy, Debug, PartialEq, Eq, Structural)]
pub struct ParamSnapshot {
    /// The current normalized value, without modulation.
    pub value: NormalizedValue,
    /// The value that a reset writes.
    pub default_value: NormalizedValue,
    /// The next coarse step above the current value.
    pub next_step: NormalizedValue,
    /// The next coarse step below the current value.
    pub previous_step: NormalizedValue,
    /// The next fine step above the current value.
    pub next_step_fine: NormalizedValue,
    /// The next fine step below the current value.
    pub previous_step_fine: NormalizedValue,
}

impl ParamSnapshot {
    /// Every reported value lies in the normalized range.
    pub open spec fn wf(self) -> bool {
        &&& self.value.is_normalized()
        &&& self.default_value.is_normalized()
        &&& self.next_step.is_normalized()
        &&& self.previous_step.is_normalized()
        &&& self.next_step_fine.is_normalized()
        &&& self.previous_step_fine.is_normalized()
    }

    /// The value one wheel notch away from the current one.
    pub open spec fn spec_step(self, up: bool, fine: bool) -> NormalizedValue {
        if up {
            if fine {
                self.next_step_fine
            } else {
                self.next_step
            }
        } else {
            if fine {
                self.previous_step_fine
            } else {
                self.previous_step
            }
        }
    }

    /// The value one wheel notch away from the current one: upwards or
    /// downwards, by the fine or the coarse step.
    pub fn step(&self, up: bool, fine: bool) -> (v: NormalizedValue)
        ensures
            v == self.spec_step(up, fine),
    {
        if up {
            if fine {
                self.next_step_fine
            } else {
                self.next_step
            }
        } else {
            if fine {
                self.previous_step_fine
            } else {
                self.previous_step
            }
        }
    }
}

/// Everything the control reads from its surroundings while it handles one
/// event.
#[derive(Clone, Copy, Debug, PartialEq, Eq, Structural)]
pub struct KnobContext {
    /// The modifier flags active for this event.
    pub modifiers: Modifiers,
    /// Where the OS cursor is on screen, or `None` when the position could
    /// not be queried.
    pub cursor: Option<ScreenPoint>,
    /// What the bound parameter reports.
    pub param: ParamSnapshot,
}

impl KnobContext {
    /// Every value in the context lies in the normalized range.
    pub open spec fn wf(self) -> bool {
        self.param.wf()
    }
}

} // verus!
