//! Decides when one utterance has ended.
//!
//! The samples may be of any copyable kind. Speech levels are integers ordered
//! as the speech probabilities that they stand for.

use vstd::prelude::*;

use crate::samples::{append_samples, last_of, samples_between};
use crate::time::{elapsed, later_by, Clock, Duration, Instant};

verus! {

/// What is decided behind one chunk of audio. `B` holds captured samples.
#[derive(Debug, PartialEq, Eq)]
pub enum Endpoint<B> {
    /// The utterance goes on.
    Accumulating,
    /// Speech has begun.
    SpeechStarted,
    /// Silence behind speech: the utterance is complete.
    Complete(B),
    /// Nobody spoke in time.
    Timeout,
}

pub open spec fn endpoint_view<T>(e: Endpoint<Vec<T>>) -> Endpoint<Seq<T>> {
    match e {
        Endpoint::Accumulating => Endpoint::Accumulating,
        Endpoint::SpeechStarted => Endpoint::SpeechStarted,
        Endpoint::Complete(samples) => Endpoint::Complete(samples@),
        Endpoint::Timeout => Endpoint::Timeout,
    }
}

/// What an endpointer holds.
#[verifier::ext_equal]
pub struct EndpointerView<T> {
    /// The level from which on a chunk counts as speech.
    pub threshold: i32,
    /// The silence that ends an utterance.
    pub silence: Duration,
    /// The fewest samples that make an utterance.
    pub min_samples: nat,
    /// The samples of the utterance so far.
    pub buffer: Seq<T>,
    /// When speech was last heard in this utterance.
    pub last_speech_at: Option<Instant>,
    /// When to give up on hearing any.
    pub deadline: Option<Instant>,
}

impl<T> EndpointerView<T> {
    /// Nothing captured, nothing awaited.
    pub open spec fn cleared(self) -> EndpointerView<T> {
        EndpointerView { buffer: Seq::empty(), last_speech_at: None, deadline: None, ..self }
    }

    /// A fresh utterance, seeded with `preroll`, that speech must begin within
    /// `lead_in`.
    pub open spec fn armed(
        self,
        lead_in: Option<Duration>,
        preroll: Seq<T>,
        now: Instant,
    ) -> EndpointerView<T> {
        EndpointerView {
            buffer: preroll,
            last_speech_at: None,
            deadline: match lead_in {
                Some(d) => Some(later_by(now, d)),
                None => None,
            },
            ..self
        }
    }

    /// An utterance that is under way already.
    pub open spec fn speaking(self, chunk: Seq<T>, now: Instant) -> EndpointerView<T> {
        EndpointerView { buffer: chunk, last_speech_at: Some(now), deadline: None, ..self }
    }

    /// What a chunk of the given level decides: speech goes on; else silence
    /// for long enough behind speech ends the utterance, if it is long enough;
    /// else the time for speech to begin may have run out.
    pub open spec fn decision(self, chunk: Seq<T>, level: i32, now: Instant) -> Endpoint<Seq<T>> {
        let all = self.buffer + chunk;
        if level >= self.threshold {
            if self.last_speech_at is None {
                Endpoint::SpeechStarted
            } else {
                Endpoint::Accumulating
            }
        } else if self.last_speech_at is Some && elapsed(self.last_speech_at->0, now)
            >= self.silence.nanos && all.len() >= self.min_samples {
            Endpoint::Complete(all)
        } else if self.deadline is Some && now.nanos >= self.deadline->0.nanos {
            Endpoint::Timeout
        } else {
            Endpoint::Accumulating
        }
    }

    /// What a chunk leaves behind.
    pub open spec fn after(self, chunk: Seq<T>, level: i32, now: Instant) -> EndpointerView<T> {
        let all = self.buffer + chunk;
        if level >= self.threshold {
            EndpointerView { buffer: all, last_speech_at: Some(now), deadline: None, ..self }
        } else if self.decision(chunk, level, now) is Complete {
            EndpointerView { buffer: Seq::empty(), ..self }
        } else {
            EndpointerView { buffer: all, ..self }
        }
    }
}

/// Accumulates captured audio and says when an utterance has ended.
pub struct Endpointer<T> {
    speech_threshold: i32,
    silence: Duration,
    min_samples: usize,
    buffer: Vec<T>,
    last_speech_at: Option<Instant>,
    deadline: Option<Instant>,
    clock: Clock,
}

impl<T> View for Endpointer<T> {
    type V = EndpointerView<T>;

    closed spec fn view(&self) -> EndpointerView<T> {
        EndpointerView {
            threshold: self.speech_threshold,
            silence: self.silence,
            min_samples: self.min_samples as nat,
            buffer: self.buffer@,
            last_speech_at: self.last_speech_at,
            deadline: self.deadline,
        }
    }
}

impl<T: Copy> Endpointer<T> {
    pub fn new(speech_threshold: i32, silence: Duration, min_samples: usize) -> (e: Endpointer<T>)
        ensures
            e@ == (EndpointerView {
                threshold: speech_threshold,
                silence,
                min_samples: min_samples as nat,
                buffer: Seq::<T>::empty(),
                last_speech_at: None,
                deadline: None,
            }),
    {
        Endpointer {
            speech_threshold,
            silence,
            min_samples,
            buffer: Vec::new(),
            last_speech_at: None,
            deadline: None,
            clock: Clock::start(),
        }
    }

    /// Changes the speech threshold, leaving the utterance in progress alone.
    pub fn set_speech_threshold(&mut self, speech_threshold: i32)
        ensures
            final(self)@ == (EndpointerView { threshold: speech_threshold, ..old(self)@ }),
    {
        self.speech_threshold = speech_threshold;
    }

    /// Changes the silence that ends an utterance, leaving the one in progress
    /// alone.
    pub fn set_silence(&mut self, silence: Duration)
        ensures
            final(self)@ == (EndpointerView { silence, ..old(self)@ }),
    {
        self.silence = silence;
    }

    /// Forgets the utterance.
    pub fn reset(&mut self)
        ensures
            final(self)@ == old(self)@.cleared(),
    {
        self.buffer = Vec::new();
        self.last_speech_at = None;
        self.deadline = None;
    }

    /// Begins a fresh utterance. Without speech within `lead_in` it times out.
    pub fn arm(&mut self, lead_in: Option<Duration>)
        ensures
            exists|now: Instant|
                final(self)@ == #[trigger] old(self)@.armed(lead_in, Seq::empty(), now),
    {
        let now = self.clock.now();
        let ghost before = self@;
        self.arm_at(lead_in, now);
        proof {
            assert(self@ == before.armed(lead_in, Seq::empty(), now));
        }
    }

    pub fn arm_at(&mut self, lead_in: Option<Duration>, now: Instant)
        ensures
            final(self)@ == old(self)@.armed(lead_in, Seq::empty(), now),
    {
        self.reset();
        self.deadline = match lead_in {
            Some(d) => Some(now.plus(d)),
            None => None,
        };
    }

    /// Begins a fresh utterance that already holds `preroll`. Nothing in it
    /// counts as speech yet.
    pub fn arm_with_preroll(&mut self, lead_in: Option<Duration>, preroll: &[T])
        ensures
            exists|now: Instant|
                final(self)@ == #[trigger] old(self)@.armed(lead_in, preroll@, now),
    {
        let now = self.clock.now();
        let ghost before = self@;
        self.arm_with_preroll_at(lead_in, preroll, now);
        proof {
            assert(self@ == before.armed(lead_in, preroll@, now));
        }
    }

    pub fn arm_with_preroll_at(&mut self, lead_in: Option<Duration>, preroll: &[T], now: Instant)
        ensures
            final(self)@ == old(self)@.armed(lead_in, preroll@, now),
    {
        self.arm_at(lead_in, now);
        append_samples(&mut self.buffer, preroll);
        proof {
            assert(Seq::<T>::empty() + preroll@ =~= preroll@);
        }
    }

    /// Begins an utterance in the middle of speech.
    pub fn arm_speaking(&mut self, chunk: &[T])
        ensures
            exists|now: Instant| final(self)@ == #[trigger] old(self)@.speaking(chunk@, now),
    {
        let now = self.clock.now();
        let ghost before = self@;
        self.arm_speaking_at(chunk, now);
        proof {
            assert(self@ == before.speaking(chunk@, now));
        }
    }

    pub fn arm_speaking_at(&mut self, chunk: &[T], now: Instant)
        ensures
            final(self)@ == old(self)@.speaking(chunk@, now),
    {
        self.buffer = Vec::new();
        append_samples(&mut self.buffer, chunk);
        proof {
            assert(Seq::<T>::empty() + chunk@ =~= chunk@);
        }
        self.last_speech_at = Some(now);
        self.deadline = None;
    }

    /// Takes in one chunk and its speech level.
    pub fn push(&mut self, chunk: &[T], level: i32) -> (e: Endpoint<Vec<T>>)
        ensures
            exists|now: Instant|
                {
                    &&& endpoint_view(e) == #[trigger] old(self)@.decision(chunk@, level, now)
                    &&& final(self)@ == old(self)@.after(chunk@, level, now)
                },
    {
        let now = self.clock.now();
        let ghost before = self@;
        let e = self.push_at(chunk, level, now);
        proof {
            assert(endpoint_view(e) == before.decision(chunk@, level, now));
        }
        e
    }

    pub fn push_at(&mut self, chunk: &[T], level: i32, now: Instant) -> (e: Endpoint<Vec<T>>)
        ensures
            endpoint_view(e) == old(self)@.decision(chunk@, level, now),
            final(self)@ == old(self)@.after(chunk@, level, now),
    {
        append_samples(&mut self.buffer, chunk);
        if level >= self.speech_threshold {
            let started = self.last_speech_at.is_none();
            self.last_speech_at = Some(now);
            self.deadline = None;
            return if started {
                Endpoint::SpeechStarted
            } else {
                Endpoint::Accumulating
            };
        }
        if let Some(last) = self.last_speech_at {
            if now.duration_since(last).nanos >= self.silence.nanos && self.buffer.len()
                >= self.min_samples {
                let mut taken: Vec<T> = Vec::new();
                std::mem::swap(&mut taken, &mut self.buffer);
                return Endpoint::Complete(taken);
            }
        }
        if let Some(deadline) = self.deadline {
            if now.nanos >= deadline.nanos {
                return Endpoint::Timeout;
            }
        }
        Endpoint::Accumulating
    }
}

/// A rolling window of the most recent samples.
pub struct PreBuffer<T> {
    capacity: usize,
    samples: Vec<T>,
}

impl<T> PreBuffer<T> {
    /// The samples in the window, oldest first.
    pub closed spec fn recent(&self) -> Seq<T> {
        self.samples@
    }

    /// How many samples the window holds at most.
    pub closed spec fn size(&self) -> nat {
        self.capacity as nat
    }
}

impl<T: Copy> PreBuffer<T> {
    pub fn new(capacity: usize) -> (b: PreBuffer<T>)
        ensures
            b.recent() == Seq::<T>::empty(),
            b.size() == capacity,
    {
        PreBuffer { capacity, samples: Vec::new() }
    }

    /// Takes in a chunk; what no longer fits leaves at the other end.
    pub fn push(&mut self, chunk: &[T])
        ensures
            final(self).recent() == last_of(old(self).recent() + chunk@, old(self).size()),
            final(self).size() == old(self).size(),
    {
        append_samples(&mut self.samples, chunk);
        if self.samples.len() > self.capacity {
            let extra: usize = self.samples.len() - self.capacity;
            let rest = samples_between(&self.samples, extra, self.samples.len());
            proof {
                assert(rest@ =~= self.samples@.skip(extra as int));
            }
            self.samples = rest;
        }
    }

    /// Takes the window's samples out.
    pub fn take(&mut self) -> (out: Vec<T>)
        ensures
            out@ == old(self).recent(),
            final(self).recent() == Seq::<T>::empty(),
            final(self).size() == old(self).size(),
    {
        let mut out: Vec<T> = Vec::new();
        std::mem::swap(&mut out, &mut self.samples);
        out
    }
}

// ---------------------------------------------------------------------------
// Laws
// ---------------------------------------------------------------------------

/// Every chunk of an utterance is in it, in order: the samples held, and those
/// handed out, are the ones held before and the chunk behind them.
pub proof fn law_no_sample_is_lost<T>(e: EndpointerView<T>, chunk: Seq<T>, level: i32, now: Instant)
    ensures
        match e.decision(chunk, level, now) {
            Endpoint::Complete(samples) => samples == e.buffer + chunk && e.after(
                chunk,
                level,
                now,
            ).buffer == Seq::<T>::empty(),
            _ => e.after(chunk, level, now).buffer == e.buffer + chunk,
        },
{
}

/// An utterance is only ever complete behind speech, never shorter than the
/// floor, and never while the chunk at hand is speech.
pub proof fn law_only_speech_completes<T>(
    e: EndpointerView<T>,
    chunk: Seq<T>,
    level: i32,
    now: Instant,
)
    requires
        e.decision(chunk, level, now) is Complete,
    ensures
        e.last_speech_at is Some,
        level < e.threshold,
        e.decision(chunk, level, now)->Complete_0.len() >= e.min_samples,
{
}

/// Speech cancels the lead-in: once it began, the utterance cannot time out any
/// more, whatever comes behind it.
pub proof fn law_speech_cancels_the_lead_in<T>(
    e: EndpointerView<T>,
    chunk: Seq<T>,
    level: i32,
    now: Instant,
    next: Seq<T>,
    next_level: i32,
    later: Instant,
)
    requires
        level >= e.threshold,
    ensures
        e.after(chunk, level, now).deadline is None,
        e.after(chunk, level, now).decision(next, next_level, later) !is Timeout,
{
}

/// The window holds the latest samples whatever chunks they came in.
pub proof fn law_window_ignores_chunking<T>(held: Seq<T>, a: Seq<T>, b: Seq<T>, size: nat)
    ensures
        last_of(last_of(held + a, size) + b, size) == last_of(held + (a + b), size),
{
    let whole = held + (a + b);
    let first = held + a;
    if first.len() > size {
        assert(first.skip(first.len() - size) + b =~= whole.skip(first.len() - size));
        let mid = whole.skip(first.len() - size);
        if mid.len() > size {
            assert(mid.skip(mid.len() - size) =~= whole.skip(whole.len() - size));
        } else {
            assert(mid =~= last_of(whole, size));
        }
    } else {
        assert(first + b =~= whole);
    }
}

/// What a chunk decides, and what it leaves behind. At the threshold or above it
/// is speech: it begins where none was heard before, and the wait for it is over.
/// Below, the utterance is complete once the silence behind the last speech has
/// lasted long enough and enough samples are held, and they are handed out; else
/// it times out at the deadline or later; else it goes on. The chunk joins what is
/// held in every case.
pub proof fn law_what_a_chunk_decides<T>(
    e: EndpointerView<T>,
    chunk: Seq<T>,
    level: i32,
    now: Instant,
)
    ensures
        ({
            let d = e.decision(chunk, level, now);
            let after = e.after(chunk, level, now);
            let all = e.buffer + chunk;
            let quiet = e.last_speech_at is Some && (e.silence.nanos == 0 || now.nanos
                >= e.last_speech_at->0.nanos + e.silence.nanos);
            let late = e.deadline is Some && now.nanos >= e.deadline->0.nanos;
            if level >= e.threshold {
                &&& e.last_speech_at is None ==> d is SpeechStarted
                &&& e.last_speech_at is Some ==> d is Accumulating
                &&& after == (EndpointerView {
                    buffer: all,
                    last_speech_at: Some(now),
                    deadline: None,
                    ..e
                })
            } else if quiet && all.len() >= e.min_samples {
                &&& d == Endpoint::Complete(all)
                &&& after == (EndpointerView { buffer: Seq::empty(), ..e })
            } else {
                &&& late ==> d is Timeout
                &&& !late ==> d is Accumulating
                &&& after == (EndpointerView { buffer: all, ..e })
            }
        }),
{
}

/// How an utterance begins: with the samples given and no speech yet, to begin
/// within the lead-in, if there is one; or in the middle of speech, with the chunk
/// that it was noticed in. Forgetting leaves nothing of it. The settings stay.
pub proof fn law_how_an_utterance_begins<T>(
    e: EndpointerView<T>,
    lead_in: Duration,
    samples: Seq<T>,
    now: Instant,
)
    requires
        now.nanos + lead_in.nanos <= u128::MAX,
    ensures
        e.armed(Some(lead_in), samples, now) == (EndpointerView {
            buffer: samples,
            last_speech_at: None,
            deadline: Some(Instant { nanos: (now.nanos + lead_in.nanos) as u128 }),
            ..e
        }),
        e.armed(None, samples, now) == (EndpointerView {
            buffer: samples,
            last_speech_at: None,
            deadline: None,
            ..e
        }),
        e.speaking(samples, now) == (EndpointerView {
            buffer: samples,
            last_speech_at: Some(now),
            deadline: None,
            ..e
        }),
        e.cleared() == (EndpointerView {
            buffer: Seq::<T>::empty(),
            last_speech_at: None,
            deadline: None,
            ..e
        }),
{
}

/// Without a lead-in nobody has to speak in time: an utterance never times out.
pub proof fn law_no_lead_in_no_timeout<T>(
    e: EndpointerView<T>,
    samples: Seq<T>,
    chunk: Seq<T>,
    level: i32,
    now: Instant,
    later: Instant,
)
    ensures
        e.armed(None, samples, now).decision(chunk, level, later) !is Timeout,
        e.speaking(samples, now).decision(chunk, level, later) !is Timeout,
{
}

/// The window holds the latest samples, in order, and as many as it is large,
/// where so many came.
pub proof fn law_the_window_holds_the_latest<T>(all: Seq<T>, size: nat, i: int)
    ensures
        all.len() <= size ==> last_of(all, size) == all,
        all.len() > size ==> last_of(all, size).len() == size,
        all.len() > size && 0 <= i < size ==> last_of(all, size)[i] == all[all.len() - size + i],
{
}

} // verus!
