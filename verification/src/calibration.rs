//! From measured wake-word peaks to a cutoff and a wake mode.
//!
//! Scores and cutoffs are single-precision numbers, held as [`single`] holds
//! them.
//!
//! [`single`]: crate::single

use vstd::prelude::*;

use crate::single::{
    half_even, held, hold, lemma_exact, lemma_rounded_error, lemma_rounding_error,
    lemma_rounding_keeps_order, lemma_scaled, round, rounded, rounded_size, two_to, ONE,
};
use crate::time::Duration;
use crate::wake_tuning::{clamp, SensitivityRange};

verus! {

/// How many utterances are asked for by default.
pub const DEFAULT_UTTERANCES: u32 = 5;

/// The fewest utterances that can be asked for.
pub const MIN_UTTERANCES: u32 = 3;

/// The most utterances that can be asked for.
pub const MAX_UTTERANCES: u32 = 10;

/// The fewest peaks that a recommendation can rest on.
pub const MIN_SAMPLES: usize = 3;

/// A peak below this, 0.20, counts as no wake word at all.
pub const MIN_PEAK: i64 = 230_584_304_357_343_232;

/// How far below the weakest peak the eager cutoff sits: 0.05.
pub const EAGER_MARGIN: i64 = 57_646_076_089_335_808;

/// The least distance between the background and the weakest peak for the
/// standard mode: 0.18.
pub const MIN_GAP: i64 = 207_525_879_075_569_664;

/// Where between the background and the weakest peak the standard cutoff sits:
/// 0.55 of the way up.
pub const NON_EAGER_FLOOR_FRACTION: i64 = 634_106_841_277_661_184;

/// How long to wait for each spoken wake word.
pub fn utterance_timeout() -> (d: Duration)
    ensures
        d.nanos == 12_000_000_000,
{
    Duration::from_secs(12)
}

/// How long to measure the background.
pub fn ambient_measure() -> (d: Duration)
    ensures
        d.nanos == 2_500_000_000,
{
    Duration::from_millis(2500)
}

/// How long a peak must have stopped rising to be taken.
pub fn peak_settle() -> (d: Duration)
    ensures
        d.nanos == 800_000_000,
{
    Duration::from_millis(800)
}

/// What a calibration found.
#[derive(Debug, Clone, Copy, PartialEq, Eq, Structural)]
pub struct CalibrationOutcome {
    /// The cutoff to use.
    pub sensitivity: i64,
    /// The mode to use.
    pub eager: bool,
    /// How many peaks it rests on.
    pub samples: u32,
    /// The mean of the peaks.
    pub mean_peak: i64,
    /// The background's score.
    pub noise_floor: i64,
    /// The cutoff that eager mode would use.
    pub eager_cutoff: i64,
    /// The cutoff that the standard mode would use, or minus one where it
    /// cannot be relied on.
    pub non_eager_cutoff: i64,
}

/// Minus one.
pub const NO_CUTOFF: i64 = -1_152_921_504_606_846_976;

/// The number of utterances to ask for.
pub fn clamp_utterances(requested: u32) -> (n: u32)
    ensures
        requested == 0 ==> n == DEFAULT_UTTERANCES,
        requested > 0 ==> n as int == clamp(
            requested as int,
            MIN_UTTERANCES as int,
            MAX_UTTERANCES as int,
        ),
        requested == 0 ==> n == 5,
        1 <= requested <= 3 ==> n == 3,
        3 <= requested <= 10 ==> n == requested,
        requested >= 10 ==> n == 10,
{
    if requested == 0 {
        DEFAULT_UTTERANCES
    } else if requested < MIN_UTTERANCES {
        MIN_UTTERANCES
    } else if requested > MAX_UTTERANCES {
        MAX_UTTERANCES
    } else {
        requested
    }
}

/// How often to listen at most for `utterances` of them.
pub fn max_attempts(utterances: u32) -> (n: u32)
    ensures
        n as int == (if utterances * 3 > u32::MAX {
            u32::MAX as int
        } else {
            utterances * 3
        }),
{
    match utterances.checked_mul(3) {
        Some(n) => n,
        None => u32::MAX,
    }
}

/// The least of several scores.
pub open spec fn least(peaks: Seq<i64>) -> int
    decreases peaks.len(),
{
    if peaks.len() == 0 {
        i64::MAX as int
    } else {
        let rest = least(peaks.drop_last());
        if peaks.last() < rest {
            peaks.last() as int
        } else {
            rest
        }
    }
}

/// The sum of several scores, added one by one.
pub open spec fn total(peaks: Seq<i64>) -> int
    decreases peaks.len(),
{
    if peaks.len() == 0 {
        0
    } else {
        rounded(total(peaks.drop_last()) + peaks.last(), 1)
    }
}

pub open spec fn mean(peaks: Seq<i64>) -> int {
    rounded(total(peaks), rounded_size(peaks.len(), 1))
}

pub open spec fn eager_cutoff(peaks: Seq<i64>, range: SensitivityRange) -> int {
    clamp(rounded(least(peaks) - EAGER_MARGIN, 1), range.min as int, range.max as int)
}

/// How far the weakest peak lies above the background.
pub open spec fn gap(peaks: Seq<i64>, noise_floor: int) -> int {
    rounded(least(peaks) - noise_floor, 1)
}

/// Whether the standard mode can be relied on.
pub open spec fn has_gap(peaks: Seq<i64>, noise_floor: int) -> bool {
    gap(peaks, noise_floor) >= MIN_GAP
}

/// The standard cutoff: a little above the middle between the background and
/// the weakest peak.
pub open spec fn non_eager_cutoff(peaks: Seq<i64>, noise_floor: int, range: SensitivityRange) -> int {
    let rise = rounded(NON_EAGER_FLOOR_FRACTION * gap(peaks, noise_floor), ONE as nat);
    clamp(rounded(noise_floor + rise, 1), range.min as int, range.max as int)
}

proof fn lemma_least_is_held(peaks: Seq<i64>)
    ensures
        i64::MIN <= least(peaks) <= i64::MAX,
    decreases peaks.len(),
{
    if peaks.len() > 0 {
        lemma_least_is_held(peaks.drop_last());
    }
}

/// A sum so large that no score changes it any more.
spec fn sum_limit() -> nat {
    0x80_0000_0000_0000_0000_0000
}

proof fn lemma_sum_stays(n: nat)
    requires
        n <= sum_limit() + 0x8000_0000_0000_0000,
    ensures
        rounded_size(n, 1) <= sum_limit(),
{
    assert(two_to(64) == 0x1_0000_0000_0000_0000) by {
        reveal_with_fuel(two_to, 65);
    }
    if n >= sum_limit() {
        lemma_scaled(n, 1, 64);
        let d = two_to(64) * 1;
        lemma_rounding_error(n, d);
        assert(d == 0x1_0000_0000_0000_0000);
        assert(rounded_size(n, d) == half_even(n, d));
        assert(n / 0x1_0000_0000_0000_0000 == 0x80_0000);
    } else {
        lemma_exact(0x80_0000, 64, 1);
        lemma_rounding_keeps_order(n, sum_limit(), 1);
    }
}

proof fn lemma_total_is_bounded(peaks: Seq<i64>)
    ensures
        -sum_limit() <= total(peaks) <= sum_limit(),
    decreases peaks.len(),
{
    if peaks.len() > 0 {
        lemma_total_is_bounded(peaks.drop_last());
        let x = total(peaks.drop_last()) + peaks.last();
        if x >= 0 {
            lemma_sum_stays(x as nat);
        } else {
            lemma_sum_stays((-x) as nat);
        }
    }
}

fn clamp_score(x: i128, range: SensitivityRange) -> (r: i64)
    requires
        range.min <= range.max,
    ensures
        r as int == clamp(x as int, range.min as int, range.max as int),
{
    if x < range.min as i128 {
        range.min
    } else if x > range.max as i128 {
        range.max
    } else {
        x as i64
    }
}

/// Recommends a cutoff and a mode: the standard mode where the background and
/// the weakest peak lie well apart, else the eager mode. Nothing is recommended
/// on too few peaks.
pub fn recommend(peaks: &[i64], noise_floor: i64, range: SensitivityRange) -> (r: Option<
    CalibrationOutcome,
>)
    requires
        range.min <= range.max,
    ensures
        r is Some <==> peaks@.len() >= MIN_SAMPLES,
        r is Some <==> peaks@.len() >= 3,
        r is Some ==> {
            let o = r->0;
            let gap = has_gap(peaks@, noise_floor as int);
            &&& o.eager == !gap
            &&& o.eager_cutoff as int == eager_cutoff(peaks@, range)
            &&& o.non_eager_cutoff as int == (if gap {
                non_eager_cutoff(peaks@, noise_floor as int, range)
            } else {
                NO_CUTOFF as int
            })
            &&& o.sensitivity as int == (if gap {
                o.non_eager_cutoff as int
            } else {
                o.eager_cutoff as int
            })
            &&& o.samples == peaks@.len() as u32
            &&& o.mean_peak == held(mean(peaks@))
            &&& o.noise_floor == noise_floor
        },
{
    if peaks.len() < MIN_SAMPLES {
        return None;
    }
    let size: usize = peaks.len();
    let mut min_peak: i64 = i64::MAX;
    let mut sum: i128 = 0;
    let mut i: usize = 0;
    while i < peaks.len()
        invariant
            i <= peaks@.len() == size,
            min_peak as int == least(peaks@.take(i as int)),
            sum as int == total(peaks@.take(i as int)),
        decreases peaks@.len() - i,
    {
        proof {
            assert(peaks@.take(i as int + 1).drop_last() =~= peaks@.take(i as int));
            lemma_total_is_bounded(peaks@.take(i as int));
        }
        if peaks[i] < min_peak {
            min_peak = peaks[i];
        }
        sum = round(sum + peaks[i] as i128, 1);
        i += 1;
    }
    proof {
        assert(peaks@.take(peaks@.len() as int) =~= peaks@);
        lemma_total_is_bounded(peaks@);
        lemma_rounded_error(size as int);
        lemma_rounded_error(min_peak - noise_floor);
    }
    let n: i128 = round(size as i128, 1);
    let mean_peak: i128 = round(sum, n as u128);

    let eager_at: i64 = clamp_score(round(min_peak as i128 - EAGER_MARGIN as i128, 1), range);
    let gap: i128 = round(min_peak as i128 - noise_floor as i128, 1);
    let standard_works: bool = gap >= MIN_GAP as i128;
    let (sensitivity, standard): (i64, i64) = if standard_works {
        proof {
            lemma_rise(gap as int);
        }
        let rise: i128 = round(NON_EAGER_FLOOR_FRACTION as i128 * gap, ONE as u128);
        let at: i64 = clamp_score(round(noise_floor as i128 + rise, 1), range);
        (at, at)
    } else {
        (eager_at, NO_CUTOFF)
    };
    Some(
        CalibrationOutcome {
            sensitivity,
            eager: !standard_works,
            samples: size as u32,
            mean_peak: hold(mean_peak),
            noise_floor,
            eager_cutoff: eager_at,
            non_eager_cutoff: standard,
        },
    )
}

/// The standard cutoff lies a little above the middle of the gap.
proof fn lemma_rise(gap: int)
    requires
        MIN_GAP <= gap <= 0x2_0000_0000_0000_0000,
    ensures
        ({
            let rise = rounded(NON_EAGER_FLOOR_FRACTION * gap, ONE as nat);
            &&& 54 * gap <= 100 * rise <= 56 * gap
        }),
        NON_EAGER_FLOOR_FRACTION * gap < 0x2000_0000_0000_0000_0000_0000_0000_0000,
{
    let x: int = 634_106_841_277_661_184 * gap;
    assert(x == NON_EAGER_FLOOR_FRACTION * gap) by (nonlinear_arith)
        requires
            x == 634_106_841_277_661_184 * gap,
            NON_EAGER_FLOOR_FRACTION == 634_106_841_277_661_184,
    ;
    lemma_rounding_error(x as nat, ONE as nat);
    let rise = rounded_size(x as nat, ONE as nat);
    assert(rise * ONE == 1_152_921_504_606_846_976 * rise) by (nonlinear_arith)
        requires
            ONE == 1_152_921_504_606_846_976,
    ;
}

/// The recommended cutoff can always be built, and in the standard mode it lies
/// above the background and below every peak, wherever the detector's range
/// lets it.
pub proof fn law_recommended_cutoff_parts_peaks_from_background(
    peaks: Seq<i64>,
    noise_floor: i64,
    range: SensitivityRange,
)
    requires
        range.min <= range.max,
        peaks.len() > 0,
    ensures
        range.min <= eager_cutoff(peaks, range) <= range.max,
        range.min <= non_eager_cutoff(peaks, noise_floor as int, range) <= range.max,
        has_gap(peaks, noise_floor as int) && range.min < least(peaks) && noise_floor < range.max
            ==> noise_floor < non_eager_cutoff(peaks, noise_floor as int, range) < least(peaks),
        forall|i: int| 0 <= i < peaks.len() ==> least(peaks) <= #[trigger] peaks[i],
{
    lemma_least_is_least(peaks);
    lemma_least_is_held(peaks);
    if has_gap(peaks, noise_floor as int) {
        lemma_rounded_error(least(peaks) - noise_floor);
        lemma_rise(gap(peaks, noise_floor as int));
        let rise = rounded(NON_EAGER_FLOOR_FRACTION * gap(peaks, noise_floor as int), ONE as nat);
        lemma_rounded_error(noise_floor + rise);
    }
}

proof fn lemma_least_is_least(peaks: Seq<i64>)
    ensures
        forall|i: int| 0 <= i < peaks.len() ==> least(peaks) <= #[trigger] peaks[i],
    decreases peaks.len(),
{
    if peaks.len() > 0 {
        let before = peaks.drop_last();
        lemma_least_is_least(before);
        assert forall|i: int| 0 <= i < peaks.len() implies least(peaks) <= #[trigger] peaks[i] by {
            if i < before.len() {
                assert(before[i] == peaks[i]);
            }
        }
    }
}

/// The weakest peak is one of the peaks, and none is weaker, in whatever order
/// they came.
pub proof fn law_the_weakest_peak(peaks: Seq<i64>)
    requires
        peaks.len() > 0,
    ensures
        exists|i: int| 0 <= i < peaks.len() && least(peaks) == #[trigger] peaks[i],
        forall|i: int| 0 <= i < peaks.len() ==> least(peaks) <= #[trigger] peaks[i],
{
    lemma_least_is_least(peaks);
    lemma_least_is_one(peaks);
}

proof fn lemma_least_is_one(peaks: Seq<i64>)
    requires
        peaks.len() > 0,
    ensures
        exists|i: int| 0 <= i < peaks.len() && least(peaks) == #[trigger] peaks[i],
    decreases peaks.len(),
{
    let last = peaks.len() - 1;
    let before = peaks.drop_last();
    if least(peaks) == peaks.last() {
        assert(least(peaks) == peaks[last]);
    } else {
        if before.len() == 0 {
            assert(least(before) == i64::MAX);
        } else {
            lemma_least_is_one(before);
            let i = choose|i: int| 0 <= i < before.len() && least(before) == #[trigger] before[i];
            assert(least(peaks) == peaks[i]);
        }
    }
}

/// What a recommendation is made of, from the peak at `i` that no other is weaker
/// than. The eager cutoff lies 0.05 below it. The standard mode can be relied on
/// where it lies 0.18 above the background or more, and its cutoff then lies 0.55
/// of the way up. Both are brought into the detector's range.
pub proof fn law_what_a_recommendation_is(
    peaks: Seq<i64>,
    i: int,
    noise_floor: i64,
    range: SensitivityRange,
)
    requires
        0 <= i < peaks.len(),
        forall|j: int| 0 <= j < peaks.len() ==> peaks[i] <= #[trigger] peaks[j],
        range.min <= range.max,
    ensures
        ({
            let gap = rounded(peaks[i] - noise_floor, 1);
            let below = rounded(peaks[i] - 57_646_076_089_335_808, 1);
            let up = rounded(
                noise_floor + rounded(634_106_841_277_661_184 * gap, 1_152_921_504_606_846_976),
                1,
            );
            &&& has_gap(peaks, noise_floor as int) <==> gap >= 207_525_879_075_569_664
            &&& range.min <= below <= range.max ==> eager_cutoff(peaks, range) == below
            &&& below < range.min ==> eager_cutoff(peaks, range) == range.min
            &&& below > range.max ==> eager_cutoff(peaks, range) == range.max
            &&& range.min <= up <= range.max ==> non_eager_cutoff(peaks, noise_floor as int, range)
                == up
            &&& up < range.min ==> non_eager_cutoff(peaks, noise_floor as int, range) == range.min
            &&& up > range.max ==> non_eager_cutoff(peaks, noise_floor as int, range) == range.max
        }),
{
    law_the_weakest_peak(peaks);
    let k = choose|k: int| 0 <= k < peaks.len() && least(peaks) == #[trigger] peaks[k];
    assert(peaks[i] <= peaks[k] && least(peaks) <= peaks[i]);
    let gap = rounded(peaks[i] - noise_floor, 1);
    assert(634_106_841_277_661_184 * gap == NON_EAGER_FLOOR_FRACTION * gap) by (nonlinear_arith)
        requires
            NON_EAGER_FLOOR_FRACTION == 634_106_841_277_661_184,
    ;
}

/// The mean is the sum of the peaks, added up in the order in which they came,
/// shared out evenly among them.
pub proof fn law_what_the_mean_is(peaks: Seq<i64>, next: i64)
    requires
        peaks.len() < 0x100_0000,
    ensures
        total(Seq::<i64>::empty()) == 0,
        total(peaks.push(next)) == rounded(total(peaks) + next, 1),
        peaks.len() > 0 ==> mean(peaks) == rounded(total(peaks), peaks.len()),
{
    assert(peaks.push(next).drop_last() =~= peaks);
    lemma_rounded_error(peaks.len() as int);
}

/// Where there is no standard cutoff, minus one stands for it; a recommendation
/// takes three peaks, and a peak below 0.20 is none. The margins are the
/// single-precision numbers nearest to 0.05, 0.18 and 0.55.
pub proof fn law_the_bounds_of_a_calibration()
    ensures
        NO_CUTOFF + ONE == 0,
        MIN_SAMPLES == 3,
        MIN_PEAK == rounded(ONE as int, 5),
        EAGER_MARGIN == rounded(ONE as int, 20),
        MIN_GAP == rounded(18 * ONE, 100),
        NON_EAGER_FLOOR_FRACTION == rounded(55 * ONE, 100),
{
    assert(MIN_PEAK == rounded(ONE as int, 5)) by {
        reveal_with_fuel(rounded_size, 64);
    }
    assert(EAGER_MARGIN == rounded(ONE as int, 20)) by {
        reveal_with_fuel(rounded_size, 64);
    }
    assert(MIN_GAP == rounded(18 * ONE, 100)) by {
        reveal_with_fuel(rounded_size, 64);
    }
    assert(NON_EAGER_FLOOR_FRACTION == rounded(55 * ONE, 100)) by {
        reveal_with_fuel(rounded_size, 64);
    }
}

} // verus!
