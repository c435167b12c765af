use fursuit_fan_controller_fw::fraction::U16Fraction;
use fursuit_fan_controller_fw::presets::{state_at, State, INITIAL_STATE_IDX, STATE_COUNT};

#[test]
fn fraction_new_keeps_its_parts() {
    let f = U16Fraction::new(5, 100);
    assert_eq!(f.numerator, 5);
    assert_eq!(f.denominator, 100);
}

#[test]
fn fraction_mul_multiplies_componentwise() {
    let f = U16Fraction::new(255, 255).mul(U16Fraction::new(2, 10));
    assert_eq!(f.numerator, 510);
    assert_eq!(f.denominator, 2550);
}

#[test]
fn state_new_scales_percentages_and_colours() {
    let s = State::new(50, 25, 90, 0, 255);
    assert_eq!(s.fan, U16Fraction::new(50, 100));
    assert_eq!(s.dummy, U16Fraction::new(25, 100));
    assert_eq!(s.r, U16Fraction::new(90, 255));
    assert_eq!(s.g, U16Fraction::new(0, 255));
    assert_eq!(s.b, U16Fraction::new(255, 255));
}

#[test]
fn with_brightness_scales_only_the_colour() {
    let s = State::new(50, 25, 90, 0, 255).with_brightness(U16Fraction::new(2, 10));
    assert_eq!(s.fan, U16Fraction::new(50, 100));
    assert_eq!(s.dummy, U16Fraction::new(25, 100));
    assert_eq!(s.r, U16Fraction::new(180, 2550));
    assert_eq!(s.g, U16Fraction::new(0, 2550));
    assert_eq!(s.b, U16Fraction::new(510, 2550));
}

#[test]
fn table_is_ordered_from_lowest_to_highest_fan_duty() {
    let mut last = 0u32;
    for i in 0..STATE_COUNT {
        let s = state_at(i);
        let duty = 100 * (s.fan.numerator as u32) / (s.fan.denominator as u32);
        assert!(duty > last || (i == 0 && duty == 5));
        last = duty;
    }
}

#[test]
fn initial_preset_is_the_violet_midpoint() {
    assert_eq!(INITIAL_STATE_IDX, 5);
    let s = state_at(INITIAL_STATE_IDX);
    assert_eq!(s.fan, U16Fraction::new(50, 100));
    assert_eq!(s.dummy, U16Fraction::new(0, 100));
    assert_eq!(s.r, U16Fraction::new(180, 2550));
    assert_eq!(s.g, U16Fraction::new(0, 2550));
    assert_eq!(s.b, U16Fraction::new(510, 2550));
}

#[test]
fn table_ends_carry_the_extreme_duties() {
    let first = state_at(0);
    assert_eq!(first.fan, U16Fraction::new(5, 100));
    assert_eq!(first.r, U16Fraction::new(510, 2550));
    let last = state_at(STATE_COUNT - 1);
    assert_eq!(last.fan, U16Fraction::new(100, 100));
    assert_eq!(last.r, U16Fraction::new(510, 2550));
    assert_eq!(last.g, U16Fraction::new(510, 2550));
    assert_eq!(last.b, U16Fraction::new(510, 2550));
}
