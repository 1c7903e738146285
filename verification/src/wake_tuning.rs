//! Slow, bounded adaptation of the wake-word cutoff.
//!
//! Scores and cutoffs are single-precision numbers, held as [`single`] holds
//! them.
//!
//! [`single`]: crate::single

use vstd::prelude::*;

use crate::single::{
    held, hold, is_single, lemma_close_difference, lemma_exact, lemma_rounded_error,
    lemma_rounded_is_single, lemma_rounded_keeps_order, round, rounded, rounded_size, two_to, ONE,
};

verus! {

/// How a fired wake turned out.
#[derive(Debug, Clone, Copy, PartialEq, Eq, Structural)]
pub enum WakeLabel {
    /// A command followed.
    TruePositive,
    /// No speech followed.
    FalsePositive,
}

/// A fired wake: the score it fired at, and how it turned out.
#[derive(Debug, Clone, Copy, PartialEq, Eq, Structural)]
pub struct Observation {
    pub score: i64,
    pub label: WakeLabel,
}

/// The cutoffs that a detector can be built with.
#[derive(Debug, Clone, Copy, PartialEq, Eq, Structural)]
pub struct SensitivityRange {
    pub min: i64,
    pub max: i64,
}

/// A proposed move of the cutoff.
#[derive(Debug, Clone, Copy, PartialEq, Eq, Structural)]
pub struct Adjustment {
    /// The cutoff in effect.
    pub from: i64,
    /// The cutoff after this step.
    pub to: i64,
    /// The cutoff that the evidence argues for, within its bounds.
    pub target: i64,
    /// Whether no cutoff parts the real wakes from the false ones.
    pub ambiguous: bool,
    /// Whether the move is to be made, and not only logged.
    pub apply: bool,
}

/// How far the cutoff may stray from the calibrated one: 0.10.
pub const ANCHOR_BAND: i64 = 115_292_152_178_671_616;

/// The largest single move: 0.02.
pub const MAX_STEP: i64 = 23_058_429_576_740_864;

/// The smallest move worth making: 0.01.
pub const DEADBAND: i64 = 11_529_214_788_370_432;

/// How many observations pass between two evaluations.
pub const MIN_OBSERVATIONS: usize = 5;

/// How many observations are kept.
pub const HISTORY_CAP: usize = 64;

/// How far below the weakest real wake the cutoff belongs: 0.05.
pub const TP_MARGIN: i64 = 57_646_076_089_335_808;

/// How far above the strongest false wake the cutoff belongs: 0.02.
pub const FP_MARGIN: i64 = 23_058_429_576_740_864;

/// `x` brought between `lo` and `hi`.
pub open spec fn clamp(x: int, lo: int, hi: int) -> int {
    if x < lo {
        lo
    } else if x > hi {
        hi
    } else {
        x
    }
}

/// The least score among the real wakes.
pub open spec fn weakest_true(h: Seq<Observation>) -> Option<int>
    decreases h.len(),
{
    if h.len() == 0 {
        None
    } else {
        let rest = weakest_true(h.drop_last());
        let o = h.last();
        if o.label is TruePositive && (rest is None || o.score < rest->0) {
            Some(o.score as int)
        } else {
            rest
        }
    }
}

/// The greatest score among the false wakes.
pub open spec fn strongest_false(h: Seq<Observation>) -> Option<int>
    decreases h.len(),
{
    if h.len() == 0 {
        None
    } else {
        let rest = strongest_false(h.drop_last());
        let o = h.last();
        if o.label is FalsePositive && (rest is None || o.score > rest->0) {
            Some(o.score as int)
        } else {
            rest
        }
    }
}

/// The cutoff that the observations argue for, before any bound, and whether
/// it is a compromise.
pub open spec fn evidence(h: Seq<Observation>) -> Option<(int, bool)> {
    match (weakest_true(h), strongest_false(h)) {
        (Some(t), None) => Some((rounded(t - TP_MARGIN, 1), false)),
        (None, Some(f)) => Some((rounded(f + FP_MARGIN, 1), false)),
        (Some(t), Some(f)) => if rounded(f + FP_MARGIN, 1) <= rounded(t - TP_MARGIN, 1) {
            Some((rounded(t - TP_MARGIN, 1), false))
        } else {
            Some((rounded(rounded(t + f, 1), 2), true))
        },
        (None, None) => None,
    }
}

/// The least cutoff within reach of the anchor.
pub open spec fn band_floor(anchor: int) -> int {
    rounded(anchor - ANCHOR_BAND, 1)
}

/// The greatest cutoff within reach of the anchor.
pub open spec fn band_ceiling(anchor: int) -> int {
    rounded(anchor + ANCHOR_BAND, 1)
}

/// The evidence kept within reach of the anchor and of the detector. Without
/// eager mode the cutoff is never taken below its anchor.
pub open spec fn banded(raw: int, anchor: int, eager: bool, range: SensitivityRange) -> int {
    let lo = if eager {
        band_floor(anchor)
    } else {
        anchor
    };
    clamp(clamp(raw, lo, band_ceiling(anchor)), range.min as int, range.max as int)
}

/// The next step from `current` towards `target`.
pub open spec fn slewed(current: int, target: int) -> int {
    clamp(rounded(target - current, 1), -MAX_STEP as int, MAX_STEP as int)
}

/// The cutoff behind that step.
pub open spec fn stepped(current: int, target: int) -> int {
    rounded(current + slewed(current, target), 1)
}

/// The last observations, no more of them than are kept.
pub open spec fn kept(h: Seq<Observation>) -> Seq<Observation> {
    if h.len() > HISTORY_CAP {
        h.skip(h.len() - HISTORY_CAP)
    } else {
        h
    }
}

/// What a list of observations argues for.
pub fn target_cutoff(history: &[Observation]) -> (r: Option<(i128, bool)>)
    ensures
        r is Some <==> evidence(history@) is Some,
        r is Some ==> (r->0).0 as int == (evidence(history@)->0).0 && (r->0).1
            == (evidence(history@)->0).1,
{
    let mut min_tp: Option<i64> = None;
    let mut max_fp: Option<i64> = None;
    let mut i: usize = 0;
    while i < history.len()
        invariant
            i <= history@.len(),
            min_tp is Some <==> weakest_true(history@.take(i as int)) is Some,
            min_tp is Some ==> min_tp->0 as int == weakest_true(history@.take(i as int))->0,
            max_fp is Some <==> strongest_false(history@.take(i as int)) is Some,
            max_fp is Some ==> max_fp->0 as int == strongest_false(history@.take(i as int))->0,
        decreases history@.len() - i,
    {
        let o = history[i];
        proof {
            assert(history@.take(i as int + 1).drop_last() =~= history@.take(i as int));
        }
        match o.label {
            WakeLabel::TruePositive => {
                let better = match min_tp {
                    Some(t) => o.score < t,
                    None => true,
                };
                if better {
                    min_tp = Some(o.score);
                }
            },
            WakeLabel::FalsePositive => {
                let better = match max_fp {
                    Some(f) => o.score > f,
                    None => true,
                };
                if better {
                    max_fp = Some(o.score);
                }
            },
        }
        i += 1;
    }
    proof {
        assert(history@.take(history@.len() as int) =~= history@);
    }
    match (min_tp, max_fp) {
        (Some(t), None) => Some((round(t as i128 - TP_MARGIN as i128, 1), false)),
        (None, Some(f)) => Some((round(f as i128 + FP_MARGIN as i128, 1), false)),
        (Some(t), Some(f)) => {
            let upper: i128 = round(t as i128 - TP_MARGIN as i128, 1);
            let lower: i128 = round(f as i128 + FP_MARGIN as i128, 1);
            if lower <= upper {
                Some((upper, false))
            } else {
                proof {
                    lemma_rounded_error(t + f);
                }
                let sum: i128 = round(t as i128 + f as i128, 1);
                Some((round(sum, 2), true))
            }
        },
        (None, None) => None,
    }
}

fn clamp_to(x: i128, lo: i128, hi: i128) -> (r: i128)
    ensures
        r == clamp(x as int, lo as int, hi as int),
{
    if x < lo {
        lo
    } else if x > hi {
        hi
    } else {
        x
    }
}

/// Adapts the cutoff to how the fired wakes turn out.
pub struct WakeTuner {
    enabled: bool,
    eager: bool,
    anchor: i64,
    current: i64,
    range: SensitivityRange,
    history: Vec<Observation>,
    since_eval: usize,
}

impl WakeTuner {
    /// Whether proposals are to be applied.
    pub closed spec fn applies(&self) -> bool {
        self.enabled
    }

    pub closed spec fn is_eager(&self) -> bool {
        self.eager
    }

    /// The calibrated cutoff.
    pub closed spec fn anchored_at(&self) -> i64 {
        self.anchor
    }

    /// The cutoff in effect.
    pub closed spec fn cutoff(&self) -> i64 {
        self.current
    }

    pub closed spec fn detector(&self) -> SensitivityRange {
        self.range
    }

    /// The observations kept, oldest first.
    pub closed spec fn seen(&self) -> Seq<Observation> {
        self.history@
    }

    /// The observations since the last evaluation.
    pub closed spec fn waiting(&self) -> nat {
        self.since_eval as nat
    }

    pub open spec fn wf(&self) -> bool {
        &&& self.detector().min <= self.detector().max
        &&& self.seen().len() <= HISTORY_CAP
        &&& self.waiting() < MIN_OBSERVATIONS
    }

    /// The destination for the observations `h`.
    pub open spec fn destination(&self, h: Seq<Observation>) -> int {
        banded((evidence(h)->0).0, self.anchored_at() as int, self.is_eager(), self.detector())
    }

    /// The step that `h` calls for.
    pub open spec fn step(&self, h: Seq<Observation>) -> int {
        slewed(self.cutoff() as int, self.destination(h))
    }

    /// The cutoff behind that step.
    pub open spec fn next(&self, h: Seq<Observation>) -> int {
        stepped(self.cutoff() as int, self.destination(h))
    }

    pub fn new(cutoff: i64, eager: bool, enabled: bool, range: SensitivityRange) -> (t: WakeTuner)
        requires
            range.min <= range.max,
        ensures
            t.wf(),
            t.cutoff() == cutoff,
            t.anchored_at() == cutoff,
            t.is_eager() == eager,
            t.applies() == enabled,
            t.detector() == range,
            t.seen() == Seq::<Observation>::empty(),
            t.waiting() == 0,
    {
        WakeTuner {
            enabled,
            eager,
            anchor: cutoff,
            current: cutoff,
            range,
            history: Vec::new(),
            since_eval: 0,
        }
    }

    pub fn set_enabled(&mut self, enabled: bool)
        ensures
            final(self).applies() == enabled,
            final(self).cutoff() == old(self).cutoff(),
            final(self).anchored_at() == old(self).anchored_at(),
            final(self).is_eager() == old(self).is_eager(),
            final(self).detector() == old(self).detector(),
            final(self).seen() == old(self).seen(),
            final(self).waiting() == old(self).waiting(),
    {
        self.enabled = enabled;
    }

    pub fn current(&self) -> (c: i64)
        ensures
            c == self.cutoff(),
    {
        self.current
    }

    /// Starts anew from a freshly calibrated cutoff and mode.
    pub fn recalibrated(&mut self, cutoff: i64, eager: bool)
        ensures
            final(self).cutoff() == cutoff,
            final(self).anchored_at() == cutoff,
            final(self).is_eager() == eager,
            final(self).applies() == old(self).applies(),
            final(self).detector() == old(self).detector(),
            final(self).seen() == Seq::<Observation>::empty(),
            final(self).waiting() == 0,
    {
        self.anchor = cutoff;
        self.current = cutoff;
        self.eager = eager;
        self.history = Vec::new();
        self.since_eval = 0;
    }

    /// Starts anew from a cutoff set by hand, in the same mode.
    pub fn reanchor(&mut self, cutoff: i64)
        ensures
            final(self).cutoff() == cutoff,
            final(self).anchored_at() == cutoff,
            final(self).is_eager() == old(self).is_eager(),
            final(self).applies() == old(self).applies(),
            final(self).detector() == old(self).detector(),
            final(self).seen() == Seq::<Observation>::empty(),
            final(self).waiting() == 0,
    {
        self.anchor = cutoff;
        self.current = cutoff;
        self.history = Vec::new();
        self.since_eval = 0;
    }

    /// Notes that the detector took a new cutoff.
    pub fn commit(&mut self, cutoff: i64)
        ensures
            final(self).cutoff() == cutoff,
            final(self).anchored_at() == old(self).anchored_at(),
            final(self).is_eager() == old(self).is_eager(),
            final(self).applies() == old(self).applies(),
            final(self).detector() == old(self).detector(),
            final(self).seen() == old(self).seen(),
            final(self).waiting() == old(self).waiting(),
    {
        self.current = cutoff;
    }

    /// Records a fired wake. Every few of them the evidence is weighed, and a
    /// move is proposed where one is worth making.
    pub fn observe(&mut self, score: i64, label: WakeLabel) -> (r: Option<Adjustment>)
        requires
            old(self).wf(),
        ensures
            final(self).wf(),
            final(self).seen() == kept(old(self).seen().push(Observation { score, label })),
            final(self).waiting() == (old(self).waiting() + 1) % MIN_OBSERVATIONS as nat,
            final(self).waiting() == (if old(self).waiting() == 4 {
                0
            } else {
                old(self).waiting() + 1
            }),
            r is Some ==> old(self).waiting() == 4,
            final(self).cutoff() == old(self).cutoff(),
            final(self).anchored_at() == old(self).anchored_at(),
            final(self).is_eager() == old(self).is_eager(),
            final(self).applies() == old(self).applies(),
            final(self).detector() == old(self).detector(),
            r is Some <==> {
                &&& old(self).waiting() + 1 == MIN_OBSERVATIONS
                &&& evidence(final(self).seen()) is Some
                &&& {
                    let step = old(self).step(final(self).seen());
                    step >= DEADBAND || step <= -DEADBAND
                }
            },
            r is Some ==> {
                &&& r->0.from == old(self).cutoff()
                &&& r->0.to == held(old(self).next(final(self).seen()))
                &&& r->0.target as int == old(self).destination(final(self).seen())
                &&& r->0.ambiguous == (evidence(final(self).seen())->0).1
                &&& r->0.apply == old(self).applies()
            },
    {
        let ghost all = self.history@.push(Observation { score, label });
        self.history.push(Observation { score, label });
        if self.history.len() > HISTORY_CAP {
            self.history.remove(0);
            proof {
                assert(self.history@ =~= all.skip(1));
            }
        }
        self.since_eval = self.since_eval + 1;
        if self.since_eval < MIN_OBSERVATIONS {
            return None;
        }
        self.since_eval = 0;

        match target_cutoff(&self.history) {
            None => None,
            Some((raw, ambiguous)) => {
                let anchor: i128 = self.anchor as i128;
                let hi: i128 = round(anchor + ANCHOR_BAND as i128, 1);
                let lo: i128 = if self.eager {
                    round(anchor - ANCHOR_BAND as i128, 1)
                } else {
                    anchor
                };
                let target: i128 = clamp_to(
                    clamp_to(raw, lo, hi),
                    self.range.min as i128,
                    self.range.max as i128,
                );
                let current: i128 = self.current as i128;
                let delta: i128 = clamp_to(
                    round(target - current, 1),
                    -(MAX_STEP as i128),
                    MAX_STEP as i128,
                );
                if delta < DEADBAND as i128 && delta > -(DEADBAND as i128) {
                    return None;
                }
                let to: i128 = round(current + delta, 1);
                Some(
                    Adjustment {
                        from: self.current,
                        to: hold(to),
                        target: target as i64,
                        ambiguous,
                        apply: self.enabled,
                    },
                )
            },
        }
    }
}

// ---------------------------------------------------------------------------
// Laws
// ---------------------------------------------------------------------------

/// The least cutoff at which every small difference is exact: a sixty-fourth.
pub open spec fn least_cutoff() -> int {
    0x40_0000_0000_0000
}

/// The greatest cutoff that the laws speak of: four.
pub open spec fn greatest_cutoff() -> int {
    0x4000_0000_0000_0000
}

/// Whether a detector's range is of single-precision numbers that are not
/// close to zero.
pub open spec fn is_sound(range: SensitivityRange) -> bool {
    &&& least_cutoff() <= range.min <= range.max <= greatest_cutoff()
    &&& is_single(range.min as int)
    &&& is_single(range.max as int)
}

proof fn lemma_anchor_in_band(anchor: int)
    requires
        is_single(anchor),
    ensures
        band_floor(anchor) <= anchor <= band_ceiling(anchor),
{
    lemma_rounded_keeps_order(anchor - ANCHOR_BAND, anchor, 1);
    lemma_rounded_keeps_order(anchor, anchor + ANCHOR_BAND, 1);
}

/// A destination never leaves the detector's range, nor the band round the
/// anchor where the anchor lies in that range.
pub proof fn law_destination_is_bounded(raw: int, anchor: int, eager: bool, range: SensitivityRange)
    requires
        range.min <= range.max,
        is_single(anchor),
    ensures
        range.min <= banded(raw, anchor, eager, range) <= range.max,
        range.min <= anchor <= range.max ==> band_floor(anchor) <= banded(raw, anchor, eager, range)
            <= band_ceiling(anchor),
{
    lemma_anchor_in_band(anchor);
}

/// Without eager mode the destination is never below the anchor, where the
/// detector can be built with the anchor at all.
pub proof fn law_non_eager_only_raises(raw: int, anchor: int, range: SensitivityRange)
    requires
        range.min <= anchor <= range.max,
        is_single(anchor),
    ensures
        banded(raw, anchor, false, range) >= anchor,
{
    lemma_anchor_in_band(anchor);
}

/// What a step is: the whole way where it is short, else the largest move.
proof fn lemma_step(current: int, target: int)
    requires
        is_single(current),
        is_single(target),
        least_cutoff() <= current <= greatest_cutoff(),
        least_cutoff() <= target <= greatest_cutoff(),
    ensures
        slewed(current, target) == clamp(target - current, -MAX_STEP as int, MAX_STEP as int),
{
    let way = target - current;
    if -0x80_0000_0000_0000 <= way <= 0x80_0000_0000_0000 {
        lemma_close_difference(current, target);
    } else {
        assert(two_to(55) == 0x80_0000_0000_0000) by {
            reveal_with_fuel(two_to, 56);
        }
        lemma_exact(1, 55, 1);
        if way > 0 {
            lemma_rounded_keeps_order(0x80_0000_0000_0000, way, 1);
        } else {
            lemma_rounded_keeps_order(way, -0x80_0000_0000_0000, 1);
        }
    }
}

/// A step is never larger than the largest allowed, never overshoots, and
/// brings the cutoff nearer to its destination wherever it is not there yet.
pub proof fn law_step_approaches(current: int, target: int)
    requires
        is_single(current),
        is_single(target),
        least_cutoff() <= current <= greatest_cutoff(),
        least_cutoff() <= target <= greatest_cutoff(),
    ensures
        -MAX_STEP <= slewed(current, target) <= MAX_STEP,
        current <= target ==> current <= stepped(current, target) <= target,
        target <= current ==> target <= stepped(current, target) <= current,
        current != target ==> stepped(current, target) != current,
        is_single(stepped(current, target)),
{
    lemma_step(current, target);
    let next = current + slewed(current, target);
    if current <= target {
        lemma_rounded_keeps_order(current, next, 1);
        lemma_rounded_keeps_order(next, target, 1);
    } else {
        lemma_rounded_keeps_order(target, next, 1);
        lemma_rounded_keeps_order(next, current, 1);
    }
    lemma_rounded_error(next);
    lemma_rounded_is_single(next, 1);
}

proof fn lemma_evidence_is_single(h: Seq<Observation>)
    requires
        evidence(h) is Some,
    ensures
        is_single((evidence(h)->0).0),
{
    match (weakest_true(h), strongest_false(h)) {
        (Some(t), None) => lemma_rounded_is_single(t - TP_MARGIN, 1),
        (None, Some(f)) => lemma_rounded_is_single(f + FP_MARGIN, 1),
        (Some(t), Some(f)) => {
            lemma_rounded_is_single(t - TP_MARGIN, 1);
            lemma_rounded_is_single(rounded(t + f, 1), 2);
        },
        (None, None) => {},
    }
}

/// A cutoff within the band and the detector's range stays there through every
/// step that is proposed, however many there are.
pub proof fn law_cutoff_stays_in_band(
    current: int,
    h: Seq<Observation>,
    anchor: int,
    eager: bool,
    range: SensitivityRange,
)
    requires
        is_sound(range),
        evidence(h) is Some,
        is_single(anchor),
        is_single(current),
        range.min <= anchor <= range.max,
        range.min <= current <= range.max,
        band_floor(anchor) <= current <= band_ceiling(anchor),
        !eager ==> current >= anchor,
    ensures
        ({
            let next = stepped(current, banded((evidence(h)->0).0, anchor, eager, range));
            &&& is_single(next)
            &&& range.min <= next <= range.max
            &&& band_floor(anchor) <= next <= band_ceiling(anchor)
            &&& !eager ==> next >= anchor
        }),
{
    let raw = (evidence(h)->0).0;
    lemma_evidence_is_single(h);
    lemma_anchor_in_band(anchor);
    lemma_rounded_is_single(anchor - ANCHOR_BAND, 1);
    lemma_rounded_is_single(anchor + ANCHOR_BAND, 1);
    law_destination_is_bounded(raw, anchor, eager, range);
    if !eager {
        law_non_eager_only_raises(raw, anchor, range);
    }
    law_step_approaches(current, banded(raw, anchor, eager, range));
}

/// The cutoff behind `n` evaluations that all argue for the same destination,
/// where each proposed step is applied.
pub open spec fn settle(current: int, target: int, n: nat) -> int
    decreases n,
{
    if n == 0 {
        current
    } else {
        let here = settle(current, target, (n - 1) as nat);
        let step = slewed(here, target);
        if step >= DEADBAND || step <= -DEADBAND {
            stepped(here, target)
        } else {
            here
        }
    }
}

/// The largest move, less what rounding can take off it.
pub open spec fn sure_step() -> int {
    MAX_STEP - 0x80_0000_0000
}

/// Steady evidence brings the cutoff to its destination, up to the smallest
/// move worth making, and there it stays.
pub proof fn law_cutoff_converges(current: int, target: int, n: nat)
    requires
        is_single(current),
        is_single(target),
        least_cutoff() <= current <= greatest_cutoff(),
        least_cutoff() <= target <= greatest_cutoff(),
        n * sure_step() >= (if target >= current {
            target - current
        } else {
            current - target
        }),
    ensures
        -DEADBAND < target - settle(current, target, n) < DEADBAND,
{
    lemma_settling(current, target, n);
}

proof fn lemma_settling(current: int, target: int, n: nat)
    requires
        is_single(current),
        is_single(target),
        least_cutoff() <= current <= greatest_cutoff(),
        least_cutoff() <= target <= greatest_cutoff(),
    ensures
        ({
            let here = settle(current, target, n);
            let left = target - here;
            let gap = target - current;
            &&& is_single(here)
            &&& gap >= 0 ==> 0 <= left <= gap && (left < DEADBAND || left + n * sure_step() <= gap)
            &&& gap <= 0 ==> gap <= left <= 0 && (-DEADBAND < left || gap <= left - n
                * sure_step())
        }),
    decreases n,
{
    if n > 0 {
        let m = (n - 1) as nat;
        lemma_settling(current, target, m);
        let here = settle(current, target, m);
        lemma_step(here, target);
        law_step_approaches(here, target);
        lemma_rounded_error(here + slewed(here, target));
        assert(n * sure_step() == m * sure_step() + sure_step()) by (nonlinear_arith)
            requires
                n == m + 1,
        ;
    }
}

/// What was observed longest ago is forgotten first: once as many newer
/// observations came as are kept, older ones no longer count.
pub proof fn law_old_observations_are_forgotten(old_ones: Seq<Observation>, new_ones: Seq<Observation>)
    requires
        new_ones.len() >= HISTORY_CAP,
    ensures
        kept(old_ones + new_ones) == kept(new_ones),
{
    let all = old_ones + new_ones;
    if all.len() > HISTORY_CAP {
        assert(all.skip(all.len() - HISTORY_CAP) =~= kept(new_ones));
    } else {
        assert(all =~= new_ones);
    }
}

/// Whether the wake at `i` is a real one that scored no more than any other
/// real one.
pub open spec fn is_weakest_true(h: Seq<Observation>, i: int) -> bool {
    &&& 0 <= i < h.len()
    &&& h[i].label is TruePositive
    &&& forall|j: int|
        0 <= j < h.len() && h[j].label is TruePositive ==> h[i].score <= #[trigger] h[j].score
}

/// Whether the wake at `i` is a false one that scored no less than any other
/// false one.
pub open spec fn is_strongest_false(h: Seq<Observation>, i: int) -> bool {
    &&& 0 <= i < h.len()
    &&& h[i].label is FalsePositive
    &&& forall|j: int|
        0 <= j < h.len() && h[j].label is FalsePositive ==> h[i].score >= #[trigger] h[j].score
}

/// The weakest real wake is one of the real ones and no stronger than any of
/// them, wherever it stands; there is one exactly where there are real wakes.
proof fn lemma_weakest_true(h: Seq<Observation>)
    ensures
        weakest_true(h) is None <==> forall|j: int|
            0 <= j < h.len() ==> (#[trigger] h[j]).label is FalsePositive,
        weakest_true(h) is Some ==> exists|i: int| #[trigger]
            is_weakest_true(h, i) && h[i].score == weakest_true(h)->0,
    decreases h.len(),
{
    if h.len() > 0 {
        let before = h.drop_last();
        lemma_weakest_true(before);
        let last = h.len() - 1;
        assert(h[last] == h.last());
        assert forall|j: int| 0 <= j < last implies #[trigger] h[j] == before[j] by {}
        match weakest_true(before) {
            None => {
                if h.last().label is TruePositive {
                    assert forall|j: int| 0 <= j < h.len() && h[j].label is TruePositive implies
                        h[last].score <= #[trigger] h[j].score by {
                        if j < last {
                            assert(before[j].label is FalsePositive);
                        }
                    }
                    assert(is_weakest_true(h, last));
                } else {
                    assert forall|j: int| 0 <= j < h.len() implies (
                    #[trigger] h[j]).label is FalsePositive by {
                        if j < last {
                            assert(before[j].label is FalsePositive);
                        }
                    }
                }
            },
            Some(t) => {
                let i = choose|i: int| #[trigger] is_weakest_true(before, i) && before[i].score == t;
                assert(h[i].label is TruePositive);
                if h.last().label is TruePositive && h.last().score < t {
                    assert forall|j: int| 0 <= j < h.len() && h[j].label is TruePositive implies
                        h[last].score <= #[trigger] h[j].score by {
                        if j < last {
                            assert(before[i].score <= before[j].score);
                        }
                    }
                    assert(is_weakest_true(h, last));
                } else {
                    assert forall|j: int| 0 <= j < h.len() && h[j].label is TruePositive implies
                        h[i].score <= #[trigger] h[j].score by {
                        if j < last {
                            assert(before[i].score <= before[j].score);
                        }
                    }
                    assert(is_weakest_true(h, i));
                }
            },
        }
    }
}

/// The strongest false wake is one of the false ones and no weaker than any of
/// them, wherever it stands; there is one exactly where there are false wakes.
proof fn lemma_strongest_false(h: Seq<Observation>)
    ensures
        strongest_false(h) is None <==> forall|j: int|
            0 <= j < h.len() ==> (#[trigger] h[j]).label is TruePositive,
        strongest_false(h) is Some ==> exists|i: int| #[trigger]
            is_strongest_false(h, i) && h[i].score == strongest_false(h)->0,
    decreases h.len(),
{
    if h.len() > 0 {
        let before = h.drop_last();
        lemma_strongest_false(before);
        let last = h.len() - 1;
        assert(h[last] == h.last());
        assert forall|j: int| 0 <= j < last implies #[trigger] h[j] == before[j] by {}
        match strongest_false(before) {
            None => {
                if h.last().label is FalsePositive {
                    assert forall|j: int| 0 <= j < h.len() && h[j].label is FalsePositive implies
                        h[last].score >= #[trigger] h[j].score by {
                        if j < last {
                            assert(before[j].label is TruePositive);
                        }
                    }
                    assert(is_strongest_false(h, last));
                } else {
                    assert forall|j: int| 0 <= j < h.len() implies (
                    #[trigger] h[j]).label is TruePositive by {
                        if j < last {
                            assert(before[j].label is TruePositive);
                        }
                    }
                }
            },
            Some(f) => {
                let i = choose|i: int| #[trigger]
                    is_strongest_false(before, i) && before[i].score == f;
                assert(h[i].label is FalsePositive);
                if h.last().label is FalsePositive && h.last().score > f {
                    assert forall|j: int| 0 <= j < h.len() && h[j].label is FalsePositive implies
                        h[last].score >= #[trigger] h[j].score by {
                        if j < last {
                            assert(before[i].score >= before[j].score);
                        }
                    }
                    assert(is_strongest_false(h, last));
                } else {
                    assert forall|j: int| 0 <= j < h.len() && h[j].label is FalsePositive implies
                        h[i].score >= #[trigger] h[j].score by {
                        if j < last {
                            assert(before[i].score >= before[j].score);
                        }
                    }
                    assert(is_strongest_false(h, i));
                }
            },
        }
    }
}

/// Only the weakest real wake and the strongest false one decide, wherever they
/// stand. Real wakes alone argue for 0.05 below the weakest, false ones alone
/// for 0.02 above the strongest. Where there are both, the first holds as long
/// as it keeps that distance to the false ones; else the middle between the two
/// is a compromise. Without any wake there is nothing to argue from.
pub proof fn law_extremes_decide(h: Seq<Observation>, t: int, f: int)
    ensures
        evidence(h) is None <==> h.len() == 0,
        is_weakest_true(h, t) && (forall|j: int|
            0 <= j < h.len() ==> (#[trigger] h[j]).label is TruePositive) ==> evidence(h) == Some(
            (rounded(h[t].score - 57_646_076_089_335_808, 1), false),
        ),
        is_strongest_false(h, f) && (forall|j: int|
            0 <= j < h.len() ==> (#[trigger] h[j]).label is FalsePositive) ==> evidence(h) == Some(
            (rounded(h[f].score + 23_058_429_576_740_864, 1), false),
        ),
        is_weakest_true(h, t) && is_strongest_false(h, f) ==> {
            let below = rounded(h[t].score - 57_646_076_089_335_808, 1);
            let above = rounded(h[f].score + 23_058_429_576_740_864, 1);
            &&& above <= below ==> evidence(h) == Some((below, false))
            &&& above > below ==> evidence(h) == Some(
                (rounded(rounded(h[t].score + h[f].score, 1), 2), true),
            )
        },
{
    lemma_weakest_true(h);
    lemma_strongest_false(h);
    if h.len() > 0 {
        assert(h[0].label is TruePositive || h[0].label is FalsePositive);
    }
    if weakest_true(h) is Some {
        let i = choose|i: int| #[trigger]
            is_weakest_true(h, i) && h[i].score == weakest_true(h)->0;
        assert(h[i].label is TruePositive);
        if is_weakest_true(h, t) {
            assert(h[t].score <= h[i].score && h[i].score <= h[t].score);
        }
    } else if is_weakest_true(h, t) {
        assert(h[t].label is FalsePositive);
    }
    if strongest_false(h) is Some {
        let i = choose|i: int| #[trigger]
            is_strongest_false(h, i) && h[i].score == strongest_false(h)->0;
        assert(h[i].label is FalsePositive);
        if is_strongest_false(h, f) {
            assert(h[f].score <= h[i].score && h[i].score <= h[f].score);
        }
    } else if is_strongest_false(h, f) {
        assert(h[f].label is TruePositive);
    }
}

/// The order of the observations changes nothing: two histories of the same
/// wakes argue for the same.
pub proof fn law_order_of_wakes_changes_nothing(g: Seq<Observation>, h: Seq<Observation>)
    requires
        g.to_multiset() == h.to_multiset(),
    ensures
        evidence(g) == evidence(h),
{
    lemma_same_members(g, h);
    lemma_same_members(h, g);
    lemma_weakest_true(g);
    lemma_weakest_true(h);
    lemma_strongest_false(g);
    lemma_strongest_false(h);
    if weakest_true(g) is Some {
        let i = choose|i: int| #[trigger]
            is_weakest_true(g, i) && g[i].score == weakest_true(g)->0;
        let j = choose|j: int| 0 <= j < h.len() && #[trigger] h[j] == g[i];
        assert(h[j].label is TruePositive);
        let k = choose|k: int| #[trigger]
            is_weakest_true(h, k) && h[k].score == weakest_true(h)->0;
        let l = choose|l: int| 0 <= l < g.len() && #[trigger] g[l] == h[k];
        assert(g[i].score <= g[l].score);
        assert(h[k].score <= h[j].score);
    } else if weakest_true(h) is Some {
        let k = choose|k: int| #[trigger]
            is_weakest_true(h, k) && h[k].score == weakest_true(h)->0;
        let l = choose|l: int| 0 <= l < g.len() && #[trigger] g[l] == h[k];
        assert(g[l].label is FalsePositive);
    }
    if strongest_false(g) is Some {
        let i = choose|i: int| #[trigger]
            is_strongest_false(g, i) && g[i].score == strongest_false(g)->0;
        let j = choose|j: int| 0 <= j < h.len() && #[trigger] h[j] == g[i];
        assert(h[j].label is FalsePositive);
        let k = choose|k: int| #[trigger]
            is_strongest_false(h, k) && h[k].score == strongest_false(h)->0;
        let l = choose|l: int| 0 <= l < g.len() && #[trigger] g[l] == h[k];
        assert(g[i].score >= g[l].score);
        assert(h[k].score >= h[j].score);
    } else if strongest_false(h) is Some {
        let k = choose|k: int| #[trigger]
            is_strongest_false(h, k) && h[k].score == strongest_false(h)->0;
        let l = choose|l: int| 0 <= l < g.len() && #[trigger] g[l] == h[k];
        assert(g[l].label is TruePositive);
    }
}

proof fn lemma_same_members(g: Seq<Observation>, h: Seq<Observation>)
    requires
        g.to_multiset() == h.to_multiset(),
    ensures
        forall|i: int| 0 <= i < g.len() ==> h.contains(#[trigger] g[i]),
{
    broadcast use vstd::seq_lib::group_to_multiset_ensures;

    assert forall|i: int| 0 <= i < g.len() implies h.contains(#[trigger] g[i]) by {
        assert(g.contains(g[i]));
        assert(g.to_multiset().count(g[i]) > 0);
        assert(h.contains(g[i]));
    }
}

/// The destination is what the evidence argues for wherever that lies within
/// the bounds, and the bound next to it elsewhere: no further from the anchor
/// than 0.10, in eager mode below it as well as above, and never out of the
/// detector's range.
pub proof fn law_destination_follows_the_evidence(
    raw: int,
    anchor: int,
    eager: bool,
    range: SensitivityRange,
)
    requires
        range.min <= anchor <= range.max,
        is_single(anchor),
    ensures
        ({
            let floor = if eager {
                rounded(anchor - 115_292_152_178_671_616, 1)
            } else {
                anchor
            };
            let ceiling = rounded(anchor + 115_292_152_178_671_616, 1);
            let to = banded(raw, anchor, eager, range);
            &&& floor <= to <= ceiling
            &&& range.min <= to <= range.max
            &&& to < raw ==> to == ceiling || to == range.max
            &&& to > raw ==> to == floor || to == range.min
        }),
{
    lemma_anchor_in_band(anchor);
}

/// A step never moves the cutoff by more than 0.02, and none of less than 0.01
/// is made: a cutoff that is as near as that to its destination is left alone.
pub proof fn law_steps_are_small_but_not_tiny(current: int, target: int)
    requires
        is_single(current),
        is_single(target),
        least_cutoff() <= current <= greatest_cutoff(),
        least_cutoff() <= target <= greatest_cutoff(),
    ensures
        target - current >= 23_058_429_576_740_864 ==> slewed(current, target)
            == 23_058_429_576_740_864,
        target - current <= -23_058_429_576_740_864 ==> slewed(current, target)
            == -23_058_429_576_740_864,
        -23_058_429_576_740_864 < target - current < 23_058_429_576_740_864 ==> slewed(
            current,
            target,
        ) == target - current,
        settle(current, target, 1) != current ==> target - current >= 11_529_214_788_370_432
            || current - target >= 11_529_214_788_370_432,
        target - current >= 11_529_214_788_370_432 || current - target >= 11_529_214_788_370_432
            ==> settle(current, target, 1) != current,
{
    lemma_step(current, target);
    law_step_approaches(current, target);
    assert(settle(current, target, 0) == current);
}

/// The observations kept are the latest of them, in order: all where there are
/// no more than sixty-four, else the last sixty-four.
pub proof fn law_the_latest_are_kept(h: Seq<Observation>, i: int)
    ensures
        h.len() <= 64 ==> kept(h) == h,
        h.len() > 64 ==> kept(h).len() == 64,
        h.len() > 64 && 0 <= i < 64 ==> kept(h)[i] == h[h.len() - 64 + i],
{
}

/// Where a tuner is headed, and how it goes there. The destination lies no further
/// from the calibrated cutoff than 0.10, never below it without eager mode, and
/// within the detector's range; the next cutoff lies between the one in effect and
/// the destination, no further than 0.02 from it.
pub proof fn law_where_a_tuner_is_headed(t: WakeTuner, h: Seq<Observation>)
    requires
        is_sound(t.detector()),
        evidence(h) is Some,
        is_single(t.anchored_at() as int),
        is_single(t.cutoff() as int),
        t.detector().min <= t.anchored_at() <= t.detector().max,
        t.detector().min <= t.cutoff() <= t.detector().max,
    ensures
        ({
            let anchor = t.anchored_at() as int;
            let raw = (evidence(h)->0).0;
            let to = t.destination(h);
            let cutoff = t.cutoff() as int;
            &&& rounded(anchor - 115_292_152_178_671_616, 1) <= to <= rounded(
                anchor + 115_292_152_178_671_616,
                1,
            )
            &&& !t.is_eager() ==> to >= anchor
            &&& t.detector().min <= to <= t.detector().max
            &&& anchor <= raw <= rounded(anchor + 115_292_152_178_671_616, 1) && raw
                <= t.detector().max ==> to == raw
            &&& t.is_eager() && rounded(anchor - 115_292_152_178_671_616, 1) <= raw <= anchor
                && raw >= t.detector().min ==> to == raw
            &&& -23_058_429_576_740_864 <= t.step(h) <= 23_058_429_576_740_864
            &&& -23_058_429_576_740_864 < to - cutoff < 23_058_429_576_740_864 ==> t.step(h) == to
                - cutoff
            &&& t.next(h) == rounded(cutoff + t.step(h), 1)
            &&& cutoff < to ==> cutoff < t.next(h) <= to
            &&& to < cutoff ==> to <= t.next(h) < cutoff
            &&& to == cutoff ==> t.next(h) == cutoff
        }),
{
    let anchor = t.anchored_at() as int;
    let raw = (evidence(h)->0).0;
    let to = t.destination(h);
    let cutoff = t.cutoff() as int;
    lemma_evidence_is_single(h);
    lemma_anchor_in_band(anchor);
    lemma_rounded_is_single(anchor - ANCHOR_BAND, 1);
    lemma_rounded_is_single(anchor + ANCHOR_BAND, 1);
    law_destination_is_bounded(raw, anchor, t.is_eager(), t.detector());
    law_step_approaches(cutoff, to);
    lemma_step(cutoff, to);
}

/// The margins and bounds are the single-precision numbers nearest to 0.05, 0.02,
/// 0.10, 0.02 and 0.01.
pub proof fn law_the_margins()
    ensures
        TP_MARGIN == rounded(ONE as int, 20),
        FP_MARGIN == rounded(ONE as int, 50),
        ANCHOR_BAND == rounded(ONE as int, 10),
        MAX_STEP == rounded(ONE as int, 50),
        DEADBAND == rounded(ONE as int, 100),
{
    assert(TP_MARGIN == rounded(ONE as int, 20)) by {
        reveal_with_fuel(rounded_size, 64);
    }
    assert(FP_MARGIN == rounded(ONE as int, 50)) by {
        reveal_with_fuel(rounded_size, 64);
    }
    assert(ANCHOR_BAND == rounded(ONE as int, 10)) by {
        reveal_with_fuel(rounded_size, 64);
    }
    assert(DEADBAND == rounded(ONE as int, 100)) by {
        reveal_with_fuel(rounded_size, 64);
    }
}

} // verus!
