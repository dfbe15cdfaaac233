use vstd::prelude::*;

verus! {

/// Number of fixed-point steps that make up the whole normalized range.
///
/// A normalized value of `1.0` is held as `SCALE` steps, `0.5` as
/// `SCALE / 2` steps, and so on.
pub const SCALE: u32 = 1_000_000;

/// The nearest point of the normalized range `[0, SCALE]` to `x`.
pub open spec fn clamp_units(x: int) -> int {
    if x < 0 {
        0
    } else if x > SCALE {
        SCALE as int
    } else {
        x
    }
}

/// A parameter value rescaled to `[0, 1]`, held in fixed point as a count
/// of steps of `1 / SCALE`.
///
/// The count never exceeds `SCALE`: every constructor clamps, and there is
/// no other way to make a value.
#[derive(Clone, Copy, Debug, PartialEq, Eq, Structural)]
pub struct NormalizedValue {
    units: u32,
}

impl View for NormalizedValue {
    type V = int;

    closed spec fn view(&self) -> int {
        self.units as int
    }
}

impl NormalizedValue {
    /// Whether the value lies in the normalized range. Every value that
    /// exists at run time does.
    #[verifier::type_invariant]
    pub open spec fn is_normalized(self) -> bool {
        0 <= self@ <= SCALE
    }

    /// The value that holds `clamp_units(x)` steps.
    pub closed spec fn clamped(x: int) -> NormalizedValue {
        NormalizedValue { units: clamp_units(x) as u32 }
    }

    /// `clamped(x)` holds exactly `clamp_units(x)` steps.
    pub proof fn lemma_clamped_view(x: int)
        ensures
            Self::clamped(x)@ == clamp_units(x),
            Self::clamped(x).is_normalized(),
    {
    }

    /// Two values with the same number of steps are the same value.
    pub proof fn lemma_view_injective(a: NormalizedValue, b: NormalizedValue)
        requires
            a@ == b@,
        ensures
            a == b,
    {
    }

    /// A normalized value is the clamped form of its own step count.
    pub proof fn lemma_clamped_of_view(v: NormalizedValue)
        requires
            v.is_normalized(),
        ensures
            Self::clamped(v@) == v,
    {
    }

    /// The bottom of the range.
    pub fn zero() -> (v: NormalizedValue)
        ensures
            v@ == 0,
            v == Self::clamped(0),
    {
        NormalizedValue { units: 0 }
    }

    /// The top of the range.
    pub fn one() -> (v: NormalizedValue)
        ensures
            v@ == SCALE,
            v == Self::clamped(SCALE as int),
    {
        NormalizedValue { units: SCALE }
    }

    /// Builds a value from a step count, clamping it into the range.
    pub fn from_units(units: i64) -> (v: NormalizedValue)
        ensures
            v == Self::clamped(units as int),
            v@ == clamp_units(units as int),
            v.is_normalized(),
    {
        if units < 0 {
            NormalizedValue { units: 0 }
        } else if units > SCALE as i64 {
            NormalizedValue { units: SCALE }
        } else {
            NormalizedValue { units: units as u32 }
        }
    }

    /// The value `delta` steps away from this one, stopping at either end
    /// of the range.
    pub fn offset(&self, delta: i128) -> (v: NormalizedValue)
        ensures
            v == Self::clamped(self@ + delta),
            v@ == clamp_units(self@ + delta),
            v.is_normalized(),
    {
        proof {
            use_type_invariant(self);
        }
        if delta >= SCALE as i128 {
            NormalizedValue { units: SCALE }
        } else if delta <= -(SCALE as i128) {
            NormalizedValue { units: 0 }
        } else {
            let moved: i64 = self.units as i64 + delta as i64;
            Self::from_units(moved)
        }
    }

    /// The number of steps held.
    pub fn units(&self) -> (u: u32)
        ensures
            u == self@,
            u <= SCALE,
            self.is_normalized(),
    {
        proof {
            use_type_invariant(self);
        }
        self.units
    }
}

} // verus!
