//! Tests of the wake tuner.

use adele_voice::single::ONE;
use adele_voice::wake_tuning::{
    target_cutoff, Adjustment, Observation, SensitivityRange, WakeLabel, WakeTuner, HISTORY_CAP,
    MAX_STEP, MIN_OBSERVATIONS,
};

const MIN_SENSITIVITY: f32 = 0.05;
const MAX_SENSITIVITY: f32 = 0.95;

/// A score as the library holds it.
fn u(score: f32) -> i64 {
    (f64::from(score) * ONE as f64) as i64
}

fn tuner(cutoff: i64, eager: bool, enabled: bool) -> WakeTuner {
    let range = SensitivityRange { min: u(MIN_SENSITIVITY), max: u(MAX_SENSITIVITY) };
    WakeTuner::new(cutoff, eager, enabled, range)
}

fn tp(score: f32) -> Observation {
    let score = u(score);
    Observation {
        score,
        label: WakeLabel::TruePositive,
    }
}

fn fp(score: f32) -> Observation {
    let score = u(score);
    Observation {
        score,
        label: WakeLabel::FalsePositive,
    }
}

// Drive a full evaluation cycle: feed `n` copies of one observation, applying
// any proposal (as the pipeline would when enabled). Returns the last
// proposal seen. Feeds a multiple of MIN_OBSERVATIONS so an eval fires.
fn feed(t: &mut WakeTuner, obs: Observation, n: usize) -> Option<Adjustment> {
    let mut last = None;
    for _ in 0..n {
        if let Some(adj) = t.observe(obs.score, obs.label) {
            if adj.apply {
                t.commit(adj.to);
            }
            last = Some(adj);
        }
    }
    last
}

#[test]
fn no_observations_yields_no_target() {
    assert_eq!(target_cutoff(&[]), None);
}

#[test]
fn only_true_positives_targets_margin_below_weakest() {
    let (target, ambiguous) = target_cutoff(&[tp(0.42), tp(0.45), tp(0.40)]).unwrap();
    assert!(!ambiguous);
    assert!(target == u(0.40f32 - 0.05) as i128, "got {target}");
}

#[test]
fn only_false_positives_targets_margin_above_strongest() {
    let (target, ambiguous) = target_cutoff(&[fp(0.18), fp(0.22), fp(0.20)]).unwrap();
    assert!(!ambiguous);
    assert!(target == u(0.22f32 + 0.02) as i128, "got {target}");
}

#[test]
fn separable_tp_fp_sits_below_weakest_true_positive() {
    // Weakest real 0.42, strongest false 0.20 → comfortable gap → sit a
    // margin below the real (which already clears the false fire).
    let (target, ambiguous) = target_cutoff(&[tp(0.42), fp(0.20)]).unwrap();
    assert!(!ambiguous);
    assert!(target == u(0.42f32 - 0.05) as i128, "got {target}");
}

#[test]
fn overlapping_tp_fp_splits_and_flags_ambiguous() {
    // A false fire (0.32) scored HIGHER than a real wake (0.30): no cutoff
    // separates them → midpoint, flagged.
    let (target, ambiguous) = target_cutoff(&[tp(0.30), fp(0.32)]).unwrap();
    assert!(ambiguous);
    assert!(target == u((0.30f32 + 0.32) / 2.0) as i128, "got {target}");
}

#[test]
fn holds_until_min_observations() {
    let mut t = tuner(u(0.30), true, true);
    for _ in 0..(MIN_OBSERVATIONS - 1) {
        assert_eq!(t.observe(u(0.20), WakeLabel::FalsePositive), None);
    }
}

#[test]
fn proposes_after_min_observations() {
    // False fires below an over-loose cutoff should propose raising it.
    let mut t = tuner(u(0.20), true, true);
    let adj = feed(&mut t, fp(0.24), MIN_OBSERVATIONS);
    let adj = adj.expect("an eval should fire at the cadence");
    assert!(adj.to > adj.from, "false fires should raise the cutoff");
}

#[test]
fn slew_limits_step_to_max_step() {
    // A far target must still move at most MAX_STEP in one step.
    let mut t = tuner(u(0.20), true, true);
    let adj = feed(&mut t, tp(0.42), MIN_OBSERVATIONS).unwrap();
    assert!((adj.to - adj.from).abs() <= MAX_STEP + u(1e-6), "step {adj:?}");
}

#[test]
fn deadband_holds_small_moves() {
    // Target essentially equals current → no move.
    let mut t = tuner(u(0.37), true, true);
    // Weakest TP 0.42 → target 0.37 == current.
    assert_eq!(feed(&mut t, tp(0.42), MIN_OBSERVATIONS), None);
}

#[test]
fn respects_anchor_band_eager_symmetric() {
    // Target 0.90 is far above the band; the cutoff may never exceed
    // anchor + ANCHOR_BAND however long it runs.
    let mut t = tuner(u(0.30), true, true);
    feed(&mut t, tp(0.95), 200);
    assert!(t.current() <= u(0.30f32 + 0.10), "got {}", t.current());
}

#[test]
fn non_eager_band_is_raise_only() {
    // Non-eager anchored at 0.40; TPs at 0.42 give an eager target of 0.37
    // (a LOWER move) — non-eager must refuse to drop below the anchor.
    let mut t = tuner(u(0.40), false, true);
    feed(&mut t, tp(0.42), 200);
    assert!(t.current() >= u(0.40), "non-eager lowered below anchor: {}", t.current());
}

#[test]
fn clamps_to_detector_max() {
    // Anchor near the ceiling; near-1.0 false fires push the target over
    // MAX_SENSITIVITY, so the hard clamp must cap the live cutoff.
    let mut t = tuner(u(MAX_SENSITIVITY - 0.03), true, true);
    feed(&mut t, fp(0.99), 200);
    assert!(t.current() <= u(MAX_SENSITIVITY), "got {}", t.current());
}

#[test]
fn log_only_marks_apply_false() {
    let mut t = tuner(u(0.20), true, false);
    let adj = feed(&mut t, fp(0.24), MIN_OBSERVATIONS).unwrap();
    assert!(!adj.apply, "a disabled tuner must not mark proposals applyable");
}

#[test]
fn enabled_marks_apply_true() {
    let mut t = tuner(u(0.20), true, true);
    let adj = feed(&mut t, fp(0.24), MIN_OBSERVATIONS).unwrap();
    assert!(adj.apply);
}

#[test]
fn history_capped_evicts_oldest() {
    // Flood with FPs, then flood with TPs; once the FPs age out past the cap
    // the target should reflect only the recent TPs (no lingering FP floor).
    let mut t = tuner(u(0.30), true, false);
    for _ in 0..HISTORY_CAP {
        let _ = t.observe(u(0.10), WakeLabel::FalsePositive);
    }
    for _ in 0..HISTORY_CAP {
        let _ = t.observe(u(0.42), WakeLabel::TruePositive);
    }
    // After a further eval the proposal must reflect TP-only targeting.
    let adj = feed(&mut t, tp(0.42), MIN_OBSERVATIONS).unwrap();
    assert!(!adj.ambiguous, "aged-out FPs should no longer force overlap");
    assert!(adj.target == u(0.42f32 - 0.05), "got {}", adj.target);
}

#[test]
fn set_enabled_toggles_apply() {
    let mut t = tuner(u(0.20), true, false);
    assert!(!feed(&mut t, fp(0.24), MIN_OBSERVATIONS).unwrap().apply);
    t.set_enabled(true);
    assert!(feed(&mut t, fp(0.24), MIN_OBSERVATIONS).unwrap().apply);
}

#[test]
fn reanchor_resets_without_changing_mode() {
    // Non-eager tuner: reanchor to 0.50 and confirm the mode is preserved by
    // checking it stays raise-only (an eager target of 0.47 is refused).
    let mut t = tuner(u(0.30), false, true);
    let _ = feed(&mut t, fp(0.28), MIN_OBSERVATIONS * 2);
    t.reanchor(u(0.50));
    assert!(t.current() == u(0.50));
    feed(&mut t, tp(0.52), 50);
    assert!(t.current() >= u(0.50), "reanchor must preserve non-eager raise-only");
}

#[test]
fn recalibrated_resets_anchor_mode_and_clears_history() {
    let mut t = tuner(u(0.30), true, true);
    let _ = feed(&mut t, fp(0.25), MIN_OBSERVATIONS * 2);
    t.recalibrated(u(0.45), false);
    assert!(t.current() == u(0.45));
    // History cleared → the next partial batch produces no proposal yet.
    for _ in 0..(MIN_OBSERVATIONS - 1) {
        assert_eq!(t.observe(u(0.50), WakeLabel::TruePositive), None);
    }
}

#[test]
fn converges_on_synthetic_tp_fp_stream() {
    // Real wakes cluster ~0.42, false fires ~0.20, anchor an over-loose 0.30.
    // The cutoff should climb to ~0.37 (a margin below the weakest real, well
    // above the false fires) and then hold, staying inside every bound.
    let mut t = tuner(u(0.30), true, true);
    for i in 0..200 {
        let obs = if i % 2 == 0 { tp(0.42) } else { fp(0.20) };
        if let Some(adj) = t.observe(obs.score, obs.label) {
            if adj.apply {
                t.commit(adj.to);
            }
            assert!(adj.to >= u(0.30f32 - 0.10) && adj.to <= u(0.30f32 + 0.10));
            assert!(adj.to >= u(MIN_SENSITIVITY) && adj.to <= u(MAX_SENSITIVITY));
        }
    }
    assert!((t.current() - u(0.37)).abs() < u(0.02), "did not converge: {}", t.current());
}

#[test]
fn converges_up_on_false_positive_stream() {
    // Only false fires at 0.25 with an over-loose anchor 0.20 → raise to just
    // above them (~0.27), bounded by the anchor band.
    let mut t = tuner(u(0.20), true, true);
    feed(&mut t, fp(0.25), 200);
    assert!((t.current() - u(0.25f32 + 0.02)).abs() < u(0.02), "got {}", t.current());
}

#[test]
fn proposals_are_those_of_single_precision() {
    for i in 0..60u32 {
        for j in 0..60u32 {
            let cutoff = 0.2f32 + 0.009 * i as f32;
            let score = 0.15f32 + 0.011 * j as f32;
            let mut t = tuner(u(cutoff), true, true);
            let proposed = feed(&mut t, fp(score), MIN_OBSERVATIONS);
            let target = (score + 0.02)
                .clamp(cutoff - 0.10, cutoff + 0.10)
                .clamp(MIN_SENSITIVITY, MAX_SENSITIVITY);
            let delta = (target - cutoff).clamp(-0.02, 0.02);
            assert_eq!(proposed.is_none(), delta.abs() < 0.01, "{cutoff} {score}");
            if let Some(adj) = proposed {
                assert_eq!(adj.target, u(target));
                assert_eq!(adj.to, u(cutoff + delta), "{cutoff} {score}");
            }
        }
    }
}
