use fursuit_fan_controller_fw::power::{
    calculate_power_level, calibrate_supply_mv, cc_detection_tick, convert_to_millivolts,
    CcDebounce, SuppliedUsbPowerLevel,
};

#[test]
fn one_active_line_in_band_is_sufficient() {
    assert_eq!(
        calculate_power_level(900, 50),
        SuppliedUsbPowerLevel::Sufficient
    );
    assert_eq!(
        calculate_power_level(50, 900),
        SuppliedUsbPowerLevel::Sufficient
    );
}

#[test]
fn both_lines_low_is_insufficient() {
    assert_eq!(
        calculate_power_level(50, 50),
        SuppliedUsbPowerLevel::Insufficient
    );
}

#[test]
fn both_lines_high_is_insufficient() {
    assert_eq!(
        calculate_power_level(2500, 2500),
        SuppliedUsbPowerLevel::Insufficient
    );
}

#[test]
fn band_edges_classify_as_documented() {
    // Active line below the advertised band: default current only.
    assert_eq!(
        calculate_power_level(699, 0),
        SuppliedUsbPowerLevel::Insufficient
    );
    // Lower bound is inclusive.
    assert_eq!(
        calculate_power_level(700, 0),
        SuppliedUsbPowerLevel::Sufficient
    );
    // Upper bound is exclusive.
    assert_eq!(
        calculate_power_level(2039, 0),
        SuppliedUsbPowerLevel::Sufficient
    );
    assert_eq!(
        calculate_power_level(2040, 0),
        SuppliedUsbPowerLevel::Insufficient
    );
}

#[test]
fn adc_calibration_formulas_give_exact_values() {
    // 1200 mV * 4095 / 1489 = 3300 (integer division).
    assert_eq!(calibrate_supply_mv(1489), 3300);
    // 3300 mV * 1000 / 4095 = 805.
    assert_eq!(convert_to_millivolts(3300, 1000), 805);
    assert_eq!(convert_to_millivolts(3300, 0), 0);
    assert_eq!(convert_to_millivolts(3300, 4095), 3300);
}

#[test]
fn ten_consistent_samples_report_once() {
    let mut d = CcDebounce::new();
    for i in 0..10 {
        let report = d.update(SuppliedUsbPowerLevel::Sufficient);
        if i < 9 {
            assert_eq!(report, None);
        } else {
            // Sufficient power: lockout is lifted.
            assert_eq!(report, Some(false));
        }
    }
}

#[test]
fn single_noisy_sample_does_not_flip_report() {
    let mut d = CcDebounce::new();
    for _ in 0..10 {
        d.update(SuppliedUsbPowerLevel::Sufficient);
    }
    // Nine agreeing samples, then one noisy one: nothing may be reported,
    // neither by the noise nor by the nine.
    for _ in 0..9 {
        assert_eq!(d.update(SuppliedUsbPowerLevel::Insufficient), None);
    }
    assert_eq!(d.update(SuppliedUsbPowerLevel::Sufficient), None);
}

#[test]
fn repeated_stable_level_is_not_reported_again() {
    let mut d = CcDebounce::new();
    for _ in 0..10 {
        d.update(SuppliedUsbPowerLevel::Sufficient);
    }
    for _ in 0..100 {
        assert_eq!(d.update(SuppliedUsbPowerLevel::Sufficient), None);
    }
}

#[test]
fn level_change_reports_after_ten_samples() {
    let mut d = CcDebounce::new();
    for _ in 0..10 {
        d.update(SuppliedUsbPowerLevel::Sufficient);
    }
    for i in 0..10 {
        let report = d.update(SuppliedUsbPowerLevel::Insufficient);
        if i < 9 {
            assert_eq!(report, None);
        } else {
            // Insufficient power: the load is locked out.
            assert_eq!(report, Some(true));
        }
    }
}

#[test]
fn detection_tick_converts_classifies_and_debounces() {
    // Under a 3300 mV supply, code 1117 reads as 900 mV (in the sufficient
    // band) and code 62 as 49 mV (inactive).
    let mut d = CcDebounce::new();
    for i in 0..10 {
        let report = cc_detection_tick(&mut d, 3300, 1117, 62);
        if i < 9 {
            assert_eq!(report, None);
        } else {
            assert_eq!(report, Some(false));
        }
    }
    // Code 3102 reads as 2499 mV on both lines: the accessory case locks
    // out after ten samples.
    for i in 0..10 {
        let report = cc_detection_tick(&mut d, 3300, 3102, 3102);
        if i < 9 {
            assert_eq!(report, None);
        } else {
            assert_eq!(report, Some(true));
        }
    }
}

#[test]
fn noise_restarts_the_consecutive_count() {
    let mut d = CcDebounce::new();
    for _ in 0..9 {
        assert_eq!(d.update(SuppliedUsbPowerLevel::Insufficient), None);
    }
    // One disagreeing sample right before the threshold.
    assert_eq!(d.update(SuppliedUsbPowerLevel::Sufficient), None);
    // The count starts over: nine more insufficient samples stay silent...
    for _ in 0..9 {
        assert_eq!(d.update(SuppliedUsbPowerLevel::Insufficient), None);
    }
    // ...and the tenth reports the lockout.
    assert_eq!(d.update(SuppliedUsbPowerLevel::Insufficient), Some(true));
}
