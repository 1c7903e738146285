//! Tests of the wake calibration.

use adele_voice::calibration::{
    clamp_utterances, max_attempts, CalibrationOutcome, DEFAULT_UTTERANCES, MAX_UTTERANCES,
    MIN_UTTERANCES,
};
use adele_voice::single::ONE;
use adele_voice::wake_tuning::SensitivityRange;

const MIN_SENSITIVITY: f32 = 0.1;
const MAX_SENSITIVITY: f32 = 0.95;

/// A score as the library holds it.
fn u(score: f32) -> i64 {
    (f64::from(score) * ONE as f64) as i64
}

fn recommend(peaks: &[f32], noise_floor: f32) -> Option<CalibrationOutcome> {
    let peaks: Vec<i64> = peaks.iter().map(|p| u(*p)).collect();
    let range = SensitivityRange { min: u(MIN_SENSITIVITY), max: u(MAX_SENSITIVITY) };
    adele_voice::calibration::recommend(&peaks, u(noise_floor), range)
}

#[test]
fn too_few_samples_yields_no_recommendation() {
    assert!(recommend(&[], 0.1).is_none());
    assert!(recommend(&[0.5, 0.5], 0.1).is_none(), "below MIN_SAMPLES");
}

#[test]
fn clear_gap_picks_non_eager_inside_the_gap() {
    // Strong, consistent peaks well above a low background → standard mode is
    // reliable and preferred; its cutoff sits between the floor and the peaks.
    let out = recommend(&[0.44, 0.45, 0.42, 0.42, 0.43], 0.15).unwrap();
    assert!(!out.eager, "a comfortable gap should choose non-eager");
    assert!(
        out.sensitivity > out.noise_floor && out.sensitivity < u(0.42),
        "non-eager cutoff must sit inside the floor→peak gap, got {}",
        out.sensitivity
    );
    assert!(
        out.non_eager_cutoff > 0,
        "standard mode should be offered"
    );
    // eager_cutoff is still reported (just below the weakest peak = 0.42).
    assert!(
        (out.eager_cutoff - u(0.37)).abs() < u(1e-3),
        "got {}",
        out.eager_cutoff
    );
}

#[test]
fn no_gap_falls_back_to_eager() {
    // Weak peaks close to the background → no usable non-eager window, so
    // eager is chosen and standard mode is flagged unavailable (negative).
    let out = recommend(&[0.28, 0.30, 0.29], 0.22).unwrap();
    assert!(out.eager, "peaks near the floor must choose eager");
    assert!(
        out.non_eager_cutoff < 0,
        "standard mode must be flagged unavailable"
    );
    // eager cutoff = weakest (0.28) - EAGER_MARGIN = 0.23.
    assert!(
        (out.sensitivity - u(0.23)).abs() < u(1e-3),
        "got {}",
        out.sensitivity
    );
}

#[test]
fn marginal_gap_falls_back_to_eager() {
    // The real regression: strong, consistent peaks (~0.42) but a HIGH
    // background (~0.29), so the gap (~0.13) is too small for a dependable
    // non-eager fall-back → eager, not a cutoff that sits right on the noise.
    let out = recommend(&[0.42, 0.43, 0.42, 0.43, 0.42], 0.29).unwrap();
    assert!(out.eager, "a marginal gap must not choose non-eager");
    assert!(
        out.non_eager_cutoff < 0,
        "standard mode flagged unavailable"
    );
    assert!(
        out.sensitivity > u(0.29),
        "the eager cutoff must sit above the background"
    );
}

#[test]
fn applied_cutoff_matches_the_chosen_mode() {
    let non_eager = recommend(&[0.44, 0.45, 0.43], 0.15).unwrap();
    assert_eq!(non_eager.sensitivity, non_eager.non_eager_cutoff);
    let eager = recommend(&[0.28, 0.30, 0.29], 0.22).unwrap();
    assert_eq!(eager.sensitivity, eager.eager_cutoff);
}

#[test]
fn cutoffs_are_clamped_to_the_detector_range() {
    // Very low scores would push a cutoff below the hard minimum.
    let out = recommend(&[0.11, 0.12, 0.11], 0.02).unwrap();
    assert!(out.sensitivity >= u(MIN_SENSITIVITY));
    assert!(out.eager_cutoff >= u(MIN_SENSITIVITY));
}

#[test]
fn clamp_utterances_maps_zero_to_default_and_bounds_the_rest() {
    assert_eq!(clamp_utterances(0), DEFAULT_UTTERANCES);
    assert_eq!(clamp_utterances(1), MIN_UTTERANCES);
    assert_eq!(clamp_utterances(100), MAX_UTTERANCES);
    assert_eq!(clamp_utterances(5), 5);
}

#[test]
fn means_and_cutoffs_are_exact() {
    let out = recommend(&[0.44, 0.45, 0.43], 0.15).unwrap();
    assert_eq!(out.samples, 3);
    assert_eq!(out.mean_peak, u((0.44f32 + 0.45 + 0.43) / 3.0));
    assert_eq!(out.noise_floor, u(0.15));
    assert_eq!(out.eager_cutoff, u(0.43f32 - 0.05));
    assert_eq!(out.non_eager_cutoff, u(0.15f32 + 0.55 * (0.43f32 - 0.15)));
    assert!(!out.eager);
}

#[test]
fn a_gap_that_rounds_below_the_least_one_is_none() {
    // In single precision 0.58 lies less than 0.18 above 0.40.
    assert!(0.58f32 - 0.40 < 0.18);
    assert!(recommend(&[0.58, 0.58, 0.58], 0.40).unwrap().eager);
    // And 0.37 lies 0.18 above 0.19.
    assert!(0.37f32 - 0.19 >= 0.18);
    assert!(!recommend(&[0.37, 0.37, 0.37], 0.19).unwrap().eager);
}

#[test]
fn recommendations_are_those_of_single_precision() {
    for i in 0..100u32 {
        for j in 0..40u32 {
            let weakest = 0.2f32 + i as f32 * 0.007;
            let floor = 0.013f32 * j as f32;
            let peaks = [weakest + 0.01, weakest, weakest * 1.1];
            let out = recommend(&peaks, floor).unwrap();
            let least = peaks.iter().copied().fold(f32::INFINITY, f32::min);
            let gap = least - floor;
            assert_eq!(out.eager, gap < 0.18, "{weakest} {floor}");
            assert_eq!(out.mean_peak, u(peaks.iter().sum::<f32>() / 3.0));
            let eager = (least - 0.05).clamp(MIN_SENSITIVITY, MAX_SENSITIVITY);
            assert_eq!(out.eager_cutoff, u(eager));
            if !out.eager {
                let cutoff = (floor + 0.55 * gap).clamp(MIN_SENSITIVITY, MAX_SENSITIVITY);
                assert_eq!(out.sensitivity, u(cutoff), "{weakest} {floor}");
            }
        }
    }
}

#[test]
fn attempts_are_three_per_utterance() {
    assert_eq!(max_attempts(5), 15);
    assert_eq!(max_attempts(u32::MAX), u32::MAX);
}
