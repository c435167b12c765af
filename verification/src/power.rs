//! The supply-power classifier: ADC calibration arithmetic, the CC-line
//! classification table, and the consecutive-sample debounce that decides
//! when a lockout change is reported to the controller.

use vstd::prelude::*;

verus! {

/// Whether the advertised USB-C supply power suffices to run the loads.
#[derive(Clone, Copy, PartialEq, Eq, Structural, Debug)]
pub enum SuppliedUsbPowerLevel {
    Insufficient,
    Sufficient,
}

/// Minimum voltage level that has to be present on a CC line for that line
/// to be considered active; the inactive line sits near 0 V.
pub const ACTIVE_CC_LINE_VOLTAGE_THRESHOLD_MV: u32 = 200;

/// Lower bound (inclusive) of the CC voltage band advertising 1.5 A or 3 A.
pub const SUFFICIENT_CC_BAND_MIN_MV: u32 = 700;

/// Upper bound (exclusive) of the CC voltage band advertising 1.5 A or 3 A.
pub const SUFFICIENT_CC_BAND_END_MV: u32 = 2040;

/// Full-scale code of the 12-bit ADC.
pub const ADC_FULL_SCALE: u32 = 4095;

/// Nominal voltage of the chip-internal reference channel, in millivolts.
pub const VREF_INT_MV: u32 = 1200;

/// How many consecutive identical classifications are required before a
/// change is reported (50 ms at the 5 ms sampling period).
pub const REQUIRED_CONSECUTIVE_READINGS: u32 = 10;

/// The classification of one pair of CC-line readings: exactly one line must
/// be active (above the threshold while the other is below it), and the
/// active line must fall inside the 1.5 A/3 A advertisement band. Both lines
/// low (disconnected) or both high (accessory or invalid) count as
/// insufficient.
pub open spec fn spec_power_level(cc1_mv: u32, cc2_mv: u32) -> SuppliedUsbPowerLevel {
    if cc1_mv > ACTIVE_CC_LINE_VOLTAGE_THRESHOLD_MV
        && cc2_mv < ACTIVE_CC_LINE_VOLTAGE_THRESHOLD_MV {
        spec_band_level(cc1_mv)
    } else if cc2_mv > ACTIVE_CC_LINE_VOLTAGE_THRESHOLD_MV
        && cc1_mv < ACTIVE_CC_LINE_VOLTAGE_THRESHOLD_MV {
        spec_band_level(cc2_mv)
    } else {
        SuppliedUsbPowerLevel::Insufficient
    }
}

/// Whether an active CC line's voltage advertises sufficient current.
pub open spec fn spec_band_level(active_cc_mv: u32) -> SuppliedUsbPowerLevel {
    if SUFFICIENT_CC_BAND_MIN_MV <= active_cc_mv && active_cc_mv < SUFFICIENT_CC_BAND_END_MV {
        SuppliedUsbPowerLevel::Sufficient
    } else {
        SuppliedUsbPowerLevel::Insufficient
    }
}

/// Classify one pair of CC-line readings, both in millivolts.
pub fn calculate_power_level(cc1_mv: u32, cc2_mv: u32) -> (level: SuppliedUsbPowerLevel)
    ensures
        level == spec_power_level(cc1_mv, cc2_mv),
{
    let active_cc_mv = if cc1_mv > ACTIVE_CC_LINE_VOLTAGE_THRESHOLD_MV
        && cc2_mv < ACTIVE_CC_LINE_VOLTAGE_THRESHOLD_MV {
        cc1_mv
    } else if cc2_mv > ACTIVE_CC_LINE_VOLTAGE_THRESHOLD_MV
        && cc1_mv < ACTIVE_CC_LINE_VOLTAGE_THRESHOLD_MV {
        cc2_mv
    } else {
        // Either both lines are low (disconnected) or both are high (an
        // accessory or debug adapter): treat as disconnected.
        return SuppliedUsbPowerLevel::Insufficient;
    };

    if active_cc_mv >= SUFFICIENT_CC_BAND_MIN_MV && active_cc_mv < SUFFICIENT_CC_BAND_END_MV {
        SuppliedUsbPowerLevel::Sufficient
    } else {
        SuppliedUsbPowerLevel::Insufficient
    }
}

/// Derive the effective supply voltage in millivolts from one reading of the
/// internal reference channel. Runs once at startup.
pub fn calibrate_supply_mv(vrefint_sample: u32) -> (vdda_mv: u32)
    requires
        vrefint_sample >= 1,
    ensures
        vdda_mv == VREF_INT_MV * ADC_FULL_SCALE / (vrefint_sample as int),
{
    (VREF_INT_MV * ADC_FULL_SCALE) / vrefint_sample
}

/// Convert a raw ADC sample to millivolts: raw reading times calibrated
/// supply voltage, divided by the full-scale code.
pub fn convert_to_millivolts(vdda_mv: u32, adc_sample: u16) -> (mv: u32)
    requires
        vdda_mv * adc_sample <= u32::MAX,
    ensures
        mv == vdda_mv * adc_sample / (ADC_FULL_SCALE as int),
{
    vdda_mv * (adc_sample as u32) / ADC_FULL_SCALE
}

/// The debounce state of the power monitor: the level last reported to the
/// controller, the current candidate classification, and how many
/// consecutive samples have agreed with the candidate (counted no further
/// than the reporting threshold).
#[derive(Clone, Copy, Debug)]
pub struct CcDebounce {
    pub last_sent_power_level: Option<SuppliedUsbPowerLevel>,
    pub candidate_power_level: Option<SuppliedUsbPowerLevel>,
    pub consecutive_readings: u32,
}

/// One debounce step: a sample agreeing with the candidate advances the
/// counter (which saturates at the threshold); a disagreeing sample makes
/// the sample the new candidate with a count of one. A lockout change is
/// reported exactly when the counter has reached the threshold and the
/// stabilized level differs from the last level reported; the report carries
/// `true` (lock out) for an insufficient level.
pub open spec fn spec_cc_step(s: CcDebounce, level: SuppliedUsbPowerLevel)
    -> (CcDebounce, Option<bool>) {
    let consecutive: u32 = if s.candidate_power_level == Some(level) {
        if s.consecutive_readings < REQUIRED_CONSECUTIVE_READINGS {
            (s.consecutive_readings + 1) as u32
        } else {
            s.consecutive_readings
        }
    } else {
        1u32
    };
    let report = if consecutive >= REQUIRED_CONSECUTIVE_READINGS
        && s.last_sent_power_level != Some(level) {
        Some(level is Insufficient)
    } else {
        None::<bool>
    };
    let next = CcDebounce {
        last_sent_power_level: if report is Some { Some(level) } else { s.last_sent_power_level },
        candidate_power_level: Some(level),
        consecutive_readings: consecutive,
    };
    (next, report)
}

impl CcDebounce {
    /// The debounce state before any sample was taken: nothing reported,
    /// no candidate.
    pub fn new() -> (s: CcDebounce)
        ensures
            s.last_sent_power_level is None,
            s.candidate_power_level is None,
            s.consecutive_readings == 0,
    {
        CcDebounce {
            last_sent_power_level: None,
            candidate_power_level: None,
            consecutive_readings: 0,
        }
    }

    /// Feed one classification into the debounce; the result says whether a
    /// lockout change must be sent to the controller, and with which value.
    pub fn update(&mut self, level: SuppliedUsbPowerLevel) -> (report: Option<bool>)
        ensures
            (*final(self), report) == spec_cc_step(*old(self), level),
    {
        let matched = match self.candidate_power_level {
            Some(c) => c == level,
            None => false,
        };
        if matched {
            if self.consecutive_readings < REQUIRED_CONSECUTIVE_READINGS {
                self.consecutive_readings = self.consecutive_readings + 1;
            }
        } else {
            self.candidate_power_level = Some(level);
            self.consecutive_readings = 1;
        }

        if self.consecutive_readings >= REQUIRED_CONSECUTIVE_READINGS {
            let already_sent = match self.last_sent_power_level {
                Some(l) => l == level,
                None => false,
            };
            if !already_sent {
                self.last_sent_power_level = Some(level);
                return Some(match level {
                    SuppliedUsbPowerLevel::Insufficient => true,
                    SuppliedUsbPowerLevel::Sufficient => false,
                });
            }
        }
        None
    }
}

/// What one raw ADC sample means in millivolts under the calibrated supply
/// voltage.
pub open spec fn spec_sample_mv(vdda_mv: u32, adc_sample: u16) -> u32 {
    (vdda_mv * adc_sample / (ADC_FULL_SCALE as int)) as u32
}

/// One sampling-period tick of the power monitor: convert both raw CC-line
/// samples to millivolts under the calibrated supply voltage, classify the
/// pair, and feed the classification into the debounce. The result is the
/// lockout change that must be sent to the controller, if any.
pub fn cc_detection_tick(
    d: &mut CcDebounce,
    vdda_mv: u32,
    cc1_sample: u16,
    cc2_sample: u16,
) -> (report: Option<bool>)
    requires
        vdda_mv * cc1_sample <= u32::MAX,
        vdda_mv * cc2_sample <= u32::MAX,
    ensures
        (*final(d), report) == spec_cc_step(
            *old(d),
            spec_power_level(
                spec_sample_mv(vdda_mv, cc1_sample),
                spec_sample_mv(vdda_mv, cc2_sample),
            ),
        ),
{
    let cc1_mv = convert_to_millivolts(vdda_mv, cc1_sample);
    let cc2_mv = convert_to_millivolts(vdda_mv, cc2_sample);
    let level = calculate_power_level(cc1_mv, cc2_mv);
    d.update(level)
}

/// The debounce state and the reports emitted over a whole sample sequence.
pub open spec fn spec_cc_run(s: CcDebounce, samples: Seq<SuppliedUsbPowerLevel>)
    -> (CcDebounce, Seq<bool>)
    decreases samples.len(),
{
    if samples.len() == 0 {
        (s, Seq::<bool>::empty())
    } else {
        let (next, report) = spec_cc_step(s, samples[0]);
        let (end, reports) = spec_cc_run(next, samples.drop_first());
        (end, match report {
            Some(v) => seq![v] + reports,
            None => reports,
        })
    }
}

/// A single sample that disagrees with the current candidate never produces
/// a report and never changes the reported level: the counter restarts at
/// one.
pub proof fn lemma_noisy_sample_not_reported(s: CcDebounce, level: SuppliedUsbPowerLevel)
    requires
        s.candidate_power_level != Some(level),
    ensures
        spec_cc_step(s, level).1 is None,
        spec_cc_step(s, level).0.last_sent_power_level == s.last_sent_power_level,
{
}

/// Once a level has been reported, repeating that same classification never
/// re-emits a report, however long the run of identical samples.
pub proof fn lemma_no_redundant_reports(
    s: CcDebounce,
    level: SuppliedUsbPowerLevel,
    samples: Seq<SuppliedUsbPowerLevel>,
)
    requires
        s.last_sent_power_level == Some(level),
        forall|i: int| 0 <= i < samples.len() ==> samples[i] == level,
    ensures
        spec_cc_run(s, samples).1 == Seq::<bool>::empty(),
        spec_cc_run(s, samples).0.last_sent_power_level == Some(level),
    decreases samples.len(),
{
    if samples.len() > 0 {
        let (next, report) = spec_cc_step(s, samples[0]);
        lemma_no_redundant_reports(next, level, samples.drop_first());
    }
}

/// Fewer consistent samples than the threshold allows can never produce a
/// report: each sample advances the counter by at most one.
pub proof fn lemma_report_needs_enough_samples(
    s: CcDebounce,
    samples: Seq<SuppliedUsbPowerLevel>,
)
    requires
        s.consecutive_readings + samples.len() < REQUIRED_CONSECUTIVE_READINGS,
    ensures
        spec_cc_run(s, samples).1 == Seq::<bool>::empty(),
    decreases samples.len(),
{
    if samples.len() > 0 {
        let (next, report) = spec_cc_step(s, samples[0]);
        lemma_report_needs_enough_samples(next, samples.drop_first());
    }
}

/// From a state whose candidate disagrees with `level` and whose reported
/// level is not `level`, exactly ten consecutive samples of `level` produce
/// exactly one report, carrying `true` exactly for an insufficient level.
pub proof fn lemma_ten_consistent_samples_report_once(
    s: CcDebounce,
    level: SuppliedUsbPowerLevel,
    samples: Seq<SuppliedUsbPowerLevel>,
)
    requires
        s.candidate_power_level != Some(level),
        s.last_sent_power_level != Some(level),
        samples.len() == REQUIRED_CONSECUTIVE_READINGS,
        forall|i: int| 0 <= i < samples.len() ==> samples[i] == level,
    ensures
        spec_cc_run(s, samples).1 == seq![level is Insufficient],
        spec_cc_run(s, samples).0.last_sent_power_level == Some(level),
{
    lemma_counting_run(spec_cc_step(s, samples[0]).0, level, samples.drop_first());
}

/// Helper: from a state already counting a run of `level` (not yet
/// reported), the remaining samples of `level` report exactly once, at the
/// step where the counter reaches the threshold.
proof fn lemma_counting_run(
    s: CcDebounce,
    level: SuppliedUsbPowerLevel,
    samples: Seq<SuppliedUsbPowerLevel>,
)
    requires
        s.candidate_power_level == Some(level),
        s.last_sent_power_level != Some(level),
        1 <= s.consecutive_readings,
        1 <= samples.len(),
        s.consecutive_readings + samples.len() == REQUIRED_CONSECUTIVE_READINGS,
        forall|i: int| 0 <= i < samples.len() ==> samples[i] == level,
    ensures
        spec_cc_run(s, samples).1 == seq![level is Insufficient],
        spec_cc_run(s, samples).0.last_sent_power_level == Some(level),
    decreases samples.len(),
{
    if samples.len() == 1 {
        let (next, report) = spec_cc_step(s, samples[0]);
        assert(report == Some(level is Insufficient));
        lemma_no_redundant_reports(next, level, samples.drop_first());
        assert(spec_cc_run(s, samples).1 =~= seq![level is Insufficient]);
    } else {
        let (next, report) = spec_cc_step(s, samples[0]);
        assert(report is None);
        lemma_counting_run(next, level, samples.drop_first());
    }
}

} // verus!
