//! The build-time table of intensity presets. Each entry fixes the fan duty,
//! the dummy-load duty and the indicator colour; entries are ordered from
//! lowest to highest intensity.

use vstd::prelude::*;

use crate::fraction::U16Fraction;

verus! {

/// One preset: output duties for the fan and the dummy load, and the
/// indicator colour as three channel duties.
#[derive(Clone, Copy, PartialEq, Eq, Structural, Debug)]
pub struct State {
    pub fan: U16Fraction,
    pub dummy: U16Fraction,
    pub r: U16Fraction,
    pub g: U16Fraction,
    pub b: U16Fraction,
}

/// How many presets the table holds.
pub const STATE_COUNT: usize = 11;

/// The preset selected when nothing was restored from persistence.
pub const INITIAL_STATE_IDX: usize = 5;

/// The ratio `n / d`.
pub open spec fn spec_fraction(n: u16, d: u16) -> U16Fraction {
    U16Fraction { numerator: n, denominator: d }
}

/// What `State::new` builds: percentages over 100, colour channels over 255.
pub open spec fn spec_state_new(fan_pct: u16, dummy_pct: u16, r: u16, g: u16, b: u16) -> State {
    State {
        fan: spec_fraction(fan_pct, 100),
        dummy: spec_fraction(dummy_pct, 100),
        r: spec_fraction(r, 255),
        g: spec_fraction(g, 255),
        b: spec_fraction(b, 255),
    }
}

/// What `State::with_brightness` builds: the colour channels scaled by
/// `factor`, the fan and dummy duties untouched.
pub open spec fn spec_with_brightness(s: State, factor: U16Fraction) -> State {
    State {
        fan: s.fan,
        dummy: s.dummy,
        r: spec_fraction(
            (s.r.numerator * factor.numerator) as u16,
            (s.r.denominator * factor.denominator) as u16,
        ),
        g: spec_fraction(
            (s.g.numerator * factor.numerator) as u16,
            (s.g.denominator * factor.denominator) as u16,
        ),
        b: spec_fraction(
            (s.b.numerator * factor.numerator) as u16,
            (s.b.denominator * factor.denominator) as u16,
        ),
    }
}

impl State {
    /// Build a preset from a fan percentage, a dummy-load percentage and an
    /// 8-bit colour.
    pub fn new(fan_pct: u16, dummy_pct: u16, r: u16, g: u16, b: u16) -> (s: Self)
        ensures
            s == spec_state_new(fan_pct, dummy_pct, r, g, b),
    {
        State {
            fan: U16Fraction::new(fan_pct, 100),
            dummy: U16Fraction::new(dummy_pct, 100),
            r: U16Fraction::new(r, 255),
            g: U16Fraction::new(g, 255),
            b: U16Fraction::new(b, 255),
        }
    }

    /// Scale the indicator colour by `factor`, leaving the fan and
    /// dummy-load duties as they are.
    pub fn with_brightness(self, factor: U16Fraction) -> (s: Self)
        requires
            self.r.numerator * factor.numerator <= u16::MAX,
            self.r.denominator * factor.denominator <= u16::MAX,
            self.g.numerator * factor.numerator <= u16::MAX,
            self.g.denominator * factor.denominator <= u16::MAX,
            self.b.numerator * factor.numerator <= u16::MAX,
            self.b.denominator * factor.denominator <= u16::MAX,
        ensures
            s == spec_with_brightness(self, factor),
    {
        State {
            fan: self.fan,
            dummy: self.dummy,
            r: self.r.mul(factor),
            g: self.g.mul(factor),
            b: self.b.mul(factor),
        }
    }
}

/// The indicator colours are dimmed to a fifth of their full value.
pub open spec fn spec_led_brightness() -> U16Fraction {
    spec_fraction(2, 10)
}

/// The preset table entry at `i`, before dimming.
pub open spec fn spec_base_state(i: int) -> State {
    if i == 0 {
        spec_state_new(5, 0, 255, 0, 0) // red
    } else if i == 1 {
        spec_state_new(10, 0, 255, 40, 0) // orange
    } else if i == 2 {
        spec_state_new(20, 0, 255, 127, 0) // yellow
    } else if i == 3 {
        spec_state_new(30, 0, 160, 255, 0) // light green
    } else if i == 4 {
        spec_state_new(40, 0, 0, 255, 0) // deep green
    } else if i == 5 {
        spec_state_new(50, 0, 90, 0, 255) // violet
    } else if i == 6 {
        spec_state_new(60, 0, 0, 255, 255) // teal
    } else if i == 7 {
        spec_state_new(70, 0, 0, 0, 255) // deep blue
    } else if i == 8 {
        spec_state_new(80, 0, 255, 40, 40) // salmon
    } else if i == 9 {
        spec_state_new(90, 0, 255, 0, 255) // pink
    } else {
        spec_state_new(100, 0, 255, 255, 255) // white
    }
}

/// The preset table entry at `i`, with the indicator colour dimmed.
pub open spec fn spec_state_at(i: int) -> State {
    spec_with_brightness(spec_base_state(i), spec_led_brightness())
}

/// Look the preset table up at `idx`.
pub fn state_at(idx: usize) -> (s: State)
    requires
        idx < STATE_COUNT,
    ensures
        s == spec_state_at(idx as int),
{
    let brightness = U16Fraction::new(2, 10);
    let base = if idx == 0 {
        State::new(5, 0, 255, 0, 0)
    } else if idx == 1 {
        State::new(10, 0, 255, 40, 0)
    } else if idx == 2 {
        State::new(20, 0, 255, 127, 0)
    } else if idx == 3 {
        State::new(30, 0, 160, 255, 0)
    } else if idx == 4 {
        State::new(40, 0, 0, 255, 0)
    } else if idx == 5 {
        State::new(50, 0, 90, 0, 255)
    } else if idx == 6 {
        State::new(60, 0, 0, 255, 255)
    } else if idx == 7 {
        State::new(70, 0, 0, 0, 255)
    } else if idx == 8 {
        State::new(80, 0, 255, 40, 40)
    } else if idx == 9 {
        State::new(90, 0, 255, 0, 255)
    } else {
        State::new(100, 0, 255, 255, 255)
    };
    base.with_brightness(brightness)
}

} // verus!
