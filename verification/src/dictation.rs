//! One-shot dictation: hear one utterance, then transcribe it.
//!
//! A [`Dictation`] takes in what happened and answers with what to do next.

use vstd::prelude::*;

use crate::config::{VadConfig, LEVEL_ONE_HALF};
use crate::endpointer::{Endpoint, Endpointer, EndpointerView};
use crate::error::VoiceError;
use crate::samples::append_samples;
use crate::time::{Duration, Instant};
use crate::transcriber::{Transcriber, Transcript, MIN_SPEECH_LEVEL};

verus! {

/// How a dictation is tuned.
#[derive(Debug, Clone, Copy, PartialEq, Eq, Structural)]
pub struct DictationOptions {
    /// The level from which on a chunk counts as speech.
    pub speech_threshold: i32,
    /// The silence that ends an utterance.
    pub silence: Duration,
    /// The fewest samples that make an utterance.
    pub min_samples: usize,
    /// How long to wait for speech to begin.
    pub lead_in: Duration,
    /// How long echoes take to die away once playback has ended.
    pub echo_hangover: Duration,
}

impl Default for DictationOptions {
    fn default() -> (o: DictationOptions)
        ensures
            o == (DictationOptions {
                speech_threshold: LEVEL_ONE_HALF,
                silence: Duration { nanos: 800_000_000 },
                min_samples: 800,
                lead_in: Duration { nanos: 10_000_000_000 },
                echo_hangover: Duration { nanos: 200_000_000 },
            }),
    {
        DictationOptions {
            speech_threshold: LEVEL_ONE_HALF,
            silence: Duration::from_millis(800),
            min_samples: 800,
            lead_in: Duration::from_secs(10),
            echo_hangover: Duration::from_millis(200),
        }
    }
}

/// The options that the configuration asks for.
pub fn dictation_options(vad: &VadConfig) -> (o: DictationOptions)
    ensures
        o == (DictationOptions {
            speech_threshold: vad.speech_threshold,
            silence: Duration { nanos: (vad.silence_duration_ms * 1_000_000) as u128 },
            min_samples: 800,
            lead_in: Duration { nanos: 10_000_000_000 },
            echo_hangover: Duration { nanos: 200_000_000 },
        }),
{
    DictationOptions {
        speech_threshold: vad.speech_threshold,
        silence: Duration::from_millis(vad.silence_duration_ms),
        ..DictationOptions::default()
    }
}

/// What happened. `B` holds samples.
pub enum Input<B> {
    /// A dictation was asked for.
    Begin,
    /// The microphone was opened, or could not be for this reason.
    Started(Option<VoiceError>),
    /// Whether playback is heard.
    Playback(bool),
    /// Echoes have died away, and what was captured meanwhile is dropped.
    Settled,
    /// A chunk was captured, while playback was heard or not.
    Chunk { samples: B, playing: bool },
    /// The chunk's speech level was found, or could not be for this reason.
    Scored(Result<i32, VoiceError>),
    /// No more chunks come.
    Closed,
    /// The microphone was closed, or could not be for this reason.
    Stopped(Option<VoiceError>),
    /// The level of the whole capture was found.
    Measured(i32),
    /// The capture was transcribed, or could not be for this reason.
    Transcribed(Result<String, VoiceError>),
}

/// What to do next. `B` holds samples.
pub enum Action<B> {
    /// Nothing: this was not awaited.
    Nothing,
    /// Open the microphone and forget what speech was heard before.
    Start,
    /// See whether playback is heard, after this wait.
    CheckPlayback(Duration),
    /// Wait this long, then drop what was captured.
    Settle(Duration),
    /// Wait for the next chunk.
    Receive,
    /// Find the speech level of this chunk.
    Score(B),
    /// Close the microphone.
    Stop,
    /// Find the level of this capture.
    Measure(B),
    /// Transcribe this capture.
    Transcribe(B),
    /// The dictation is over.
    Finish(Result<Option<String>, VoiceError>),
}

/// Why capturing ended. `B` holds samples.
pub enum Ended<B> {
    /// An utterance is complete.
    Utterance(B),
    /// Nobody spoke.
    Nothing,
    /// It failed.
    Failed(VoiceError),
}

/// What a dictation waits for. `B` holds samples.
pub enum Phase<B> {
    Idle,
    Starting,
    Waiting,
    Settling,
    Capturing,
    Scoring(B),
    Stopping(Ended<B>),
    Measuring(B),
    Transcribing,
}

pub open spec fn input_view<T>(i: Input<Vec<T>>) -> Input<Seq<T>> {
    match i {
        Input::Begin => Input::Begin,
        Input::Started(e) => Input::Started(e),
        Input::Playback(b) => Input::Playback(b),
        Input::Settled => Input::Settled,
        Input::Chunk { samples, playing } => Input::Chunk { samples: samples@, playing },
        Input::Scored(r) => Input::Scored(r),
        Input::Closed => Input::Closed,
        Input::Stopped(e) => Input::Stopped(e),
        Input::Measured(level) => Input::Measured(level),
        Input::Transcribed(r) => Input::Transcribed(r),
    }
}

pub open spec fn action_view<T>(a: Action<Vec<T>>) -> Action<Seq<T>> {
    match a {
        Action::Nothing => Action::Nothing,
        Action::Start => Action::Start,
        Action::CheckPlayback(d) => Action::CheckPlayback(d),
        Action::Settle(d) => Action::Settle(d),
        Action::Receive => Action::Receive,
        Action::Score(b) => Action::Score(b@),
        Action::Stop => Action::Stop,
        Action::Measure(b) => Action::Measure(b@),
        Action::Transcribe(b) => Action::Transcribe(b@),
        Action::Finish(r) => Action::Finish(r),
    }
}

pub open spec fn ended_view<T>(e: Ended<Vec<T>>) -> Ended<Seq<T>> {
    match e {
        Ended::Utterance(b) => Ended::Utterance(b@),
        Ended::Nothing => Ended::Nothing,
        Ended::Failed(e) => Ended::Failed(e),
    }
}

pub open spec fn phase_view<T>(p: Phase<Vec<T>>) -> Phase<Seq<T>> {
    match p {
        Phase::Idle => Phase::Idle,
        Phase::Starting => Phase::Starting,
        Phase::Waiting => Phase::Waiting,
        Phase::Settling => Phase::Settling,
        Phase::Capturing => Phase::Capturing,
        Phase::Scoring(b) => Phase::Scoring(b@),
        Phase::Stopping(e) => Phase::Stopping(ended_view(e)),
        Phase::Measuring(b) => Phase::Measuring(b@),
        Phase::Transcribing => Phase::Transcribing,
    }
}

/// What a dictation holds.
#[verifier::ext_equal]
pub struct DictationView<T> {
    pub phase: Phase<Seq<T>>,
    pub endpointer: EndpointerView<T>,
    /// The level below which a capture is near silence.
    pub floor: i32,
    pub lead_in: Duration,
    /// Whether playback is to be kept out of the utterance.
    pub guarded: bool,
    pub hangover: Duration,
}

impl<T> DictationView<T> {
    pub open spec fn at(self, phase: Phase<Seq<T>>) -> DictationView<T> {
        DictationView { phase, ..self }
    }

    /// Listens for a fresh utterance.
    pub open spec fn listening(self, now: Instant) -> DictationView<T> {
        DictationView {
            phase: Phase::Capturing,
            endpointer: self.endpointer.armed(Some(self.lead_in), Seq::empty(), now),
            ..self
        }
    }

    /// Takes in a chunk's level.
    pub open spec fn scored(self, chunk: Seq<T>, level: i32, now: Instant) -> (
        DictationView<T>,
        Action<Seq<T>>,
    ) {
        let heard = DictationView {
            endpointer: self.endpointer.after(chunk, level, now),
            ..self
        };
        match self.endpointer.decision(chunk, level, now) {
            Endpoint::Complete(samples) => (
                heard.at(Phase::Stopping(Ended::Utterance(samples))),
                Action::Stop,
            ),
            Endpoint::Timeout => (heard.at(Phase::Stopping(Ended::Nothing)), Action::Stop),
            _ => (heard.at(Phase::Capturing), Action::Receive),
        }
    }

    /// What comes of what happened.
    pub open spec fn next(self, input: Input<Seq<T>>, now: Instant) -> (
        DictationView<T>,
        Action<Seq<T>>,
    ) {
        match (self.phase, input) {
            (Phase::Idle, Input::Begin) => (self.at(Phase::Starting), Action::Start),
            (Phase::Starting, Input::Started(Some(e))) => (
                self.at(Phase::Idle),
                Action::Finish(Err(e)),
            ),
            (Phase::Starting, Input::Started(None)) => if self.guarded {
                (self.at(Phase::Waiting), Action::CheckPlayback(Duration { nanos: 0 }))
            } else {
                (self.listening(now), Action::Receive)
            },
            (Phase::Waiting, Input::Playback(true)) => (
                self,
                Action::CheckPlayback(Duration { nanos: 50_000_000 }),
            ),
            (Phase::Waiting, Input::Playback(false)) => (
                self.at(Phase::Settling),
                Action::Settle(self.hangover),
            ),
            (Phase::Settling, Input::Settled) => (self.listening(now), Action::Receive),
            (Phase::Capturing, Input::Chunk { samples, playing }) => if self.guarded && playing {
                (self, Action::Receive)
            } else {
                (self.at(Phase::Scoring(samples)), Action::Score(samples))
            },
            (Phase::Capturing, Input::Closed) => (
                self.at(Phase::Stopping(Ended::Nothing)),
                Action::Stop,
            ),
            (Phase::Scoring(chunk), Input::Scored(Ok(level))) => self.scored(chunk, level, now),
            (Phase::Scoring(_), Input::Scored(Err(e))) => (
                self.at(Phase::Stopping(Ended::Failed(e))),
                Action::Stop,
            ),
            (Phase::Stopping(Ended::Failed(e)), Input::Stopped(_)) => (
                self.at(Phase::Idle),
                Action::Finish(Err(e)),
            ),
            (Phase::Stopping(_), Input::Stopped(Some(e))) => (
                self.at(Phase::Idle),
                Action::Finish(Err(e)),
            ),
            (Phase::Stopping(Ended::Nothing), Input::Stopped(None)) => (
                self.at(Phase::Idle),
                Action::Finish(Ok(None)),
            ),
            (Phase::Stopping(Ended::Utterance(samples)), Input::Stopped(None)) => (
                self.at(Phase::Measuring(samples)),
                Action::Measure(samples),
            ),
            (Phase::Measuring(samples), Input::Measured(level)) => if level < self.floor {
                (self.at(Phase::Idle), Action::Finish(Ok(None)))
            } else {
                (self.at(Phase::Transcribing), Action::Transcribe(samples))
            },
            (Phase::Transcribing, Input::Transcribed(Err(e))) => (
                self.at(Phase::Idle),
                Action::Finish(Err(e)),
            ),
            (Phase::Transcribing, Input::Transcribed(Ok(text))) => (
                self.at(Phase::Idle),
                Action::Finish(
                    Ok(
                        if text@.len() == 0 {
                            None
                        } else {
                            Some(text)
                        },
                    ),
                ),
            ),
            _ => (self, Action::Nothing),
        }
    }
}

/// Hears and transcribes one utterance at a time.
pub struct Dictation<T> {
    phase: Phase<Vec<T>>,
    endpointer: Endpointer<T>,
    transcriber: Transcriber,
    lead_in: Duration,
    guarded: bool,
    echo_hangover: Duration,
}

impl<T> View for Dictation<T> {
    type V = DictationView<T>;

    closed spec fn view(&self) -> DictationView<T> {
        DictationView {
            phase: phase_view(self.phase),
            endpointer: self.endpointer@,
            floor: self.transcriber.floor(),
            lead_in: self.lead_in,
            guarded: self.guarded,
            hangover: self.echo_hangover,
        }
    }
}

fn copy_samples<T: Copy>(samples: &Vec<T>) -> (out: Vec<T>)
    ensures
        out@ == samples@,
{
    let mut out: Vec<T> = Vec::new();
    append_samples(&mut out, samples);
    proof {
        assert(Seq::<T>::empty() + samples@ =~= samples@);
    }
    out
}

impl<T: Copy> Dictation<T> {
    pub fn new(opts: DictationOptions) -> (d: Dictation<T>)
        ensures
            d@ == (DictationView {
                phase: Phase::Idle,
                endpointer: EndpointerView {
                    threshold: opts.speech_threshold,
                    silence: opts.silence,
                    min_samples: opts.min_samples as nat,
                    buffer: Seq::<T>::empty(),
                    last_speech_at: None,
                    deadline: None,
                },
                floor: MIN_SPEECH_LEVEL,
                lead_in: opts.lead_in,
                guarded: false,
                hangover: opts.echo_hangover,
            }),
    {
        Dictation {
            phase: Phase::Idle,
            endpointer: Endpointer::new(opts.speech_threshold, opts.silence, opts.min_samples),
            transcriber: Transcriber::new(),
            lead_in: opts.lead_in,
            guarded: false,
            echo_hangover: opts.echo_hangover,
        }
    }

    /// Keeps what is played out of the utterance: a dictation then waits for
    /// playback to end, and drops what it captures while playback is heard.
    pub fn with_echo_guard(self) -> (d: Dictation<T>)
        ensures
            d@ == (DictationView { guarded: true, ..self@ }),
    {
        Dictation { guarded: true, ..self }
    }

    fn listen(&mut self, now: Instant) -> (a: Action<Vec<T>>)
        ensures
            final(self)@ == old(self)@.listening(now),
            a is Receive,
    {
        self.endpointer.arm_at(Some(self.lead_in), now);
        self.phase = Phase::Capturing;
        Action::Receive
    }

    fn on_scored(&mut self, chunk: Vec<T>, level: i32, now: Instant) -> (a: Action<Vec<T>>)
        ensures
            (final(self)@, action_view(a)) == old(self)@.scored(chunk@, level, now),
    {
        match self.endpointer.push_at(&chunk, level, now) {
            Endpoint::Complete(samples) => {
                self.phase = Phase::Stopping(Ended::Utterance(samples));
                Action::Stop
            },
            Endpoint::Timeout => {
                self.phase = Phase::Stopping(Ended::Nothing);
                Action::Stop
            },
            _ => {
                self.phase = Phase::Capturing;
                Action::Receive
            },
        }
    }

    fn on_stopped(&mut self, ended: Ended<Vec<T>>, failure: Option<VoiceError>) -> (a: Action<
        Vec<T>,
    >)
        requires
            old(self)@.phase is Idle,
        ensures
            forall|now: Instant|
                (final(self)@, action_view(a)) == #[trigger] old(self)@.at(
                    Phase::Stopping(ended_view(ended)),
                ).next(Input::Stopped(failure), now),
    {
        match (ended, failure) {
            (Ended::Failed(e), _) => Action::Finish(Err(e)),
            (_, Some(e)) => Action::Finish(Err(e)),
            (Ended::Nothing, None) => Action::Finish(Ok(None)),
            (Ended::Utterance(samples), None) => {
                let copy = copy_samples(&samples);
                self.phase = Phase::Measuring(samples);
                Action::Measure(copy)
            },
        }
    }

    /// Takes in what happened and says what to do next.
    pub fn dictate(&mut self, input: Input<Vec<T>>, now: Instant) -> (a: Action<Vec<T>>)
        ensures
            (final(self)@, action_view(a)) == old(self)@.next(input_view(input), now),
    {
        let mut phase: Phase<Vec<T>> = Phase::Idle;
        std::mem::swap(&mut phase, &mut self.phase);
        match (phase, input) {
            (Phase::Idle, Input::Begin) => {
                self.phase = Phase::Starting;
                Action::Start
            },
            (Phase::Starting, Input::Started(Some(e))) => Action::Finish(Err(e)),
            (Phase::Starting, Input::Started(None)) => {
                if self.guarded {
                    self.phase = Phase::Waiting;
                    Action::CheckPlayback(Duration::from_millis(0))
                } else {
                    self.listen(now)
                }
            },
            (Phase::Waiting, Input::Playback(playing)) => {
                if playing {
                    self.phase = Phase::Waiting;
                    Action::CheckPlayback(Duration::from_millis(50))
                } else {
                    self.phase = Phase::Settling;
                    Action::Settle(self.echo_hangover)
                }
            },
            (Phase::Settling, Input::Settled) => self.listen(now),
            (Phase::Capturing, Input::Chunk { samples, playing }) => {
                if self.guarded && playing {
                    self.phase = Phase::Capturing;
                    Action::Receive
                } else {
                    let copy = copy_samples(&samples);
                    self.phase = Phase::Scoring(samples);
                    Action::Score(copy)
                }
            },
            (Phase::Capturing, Input::Closed) => {
                self.phase = Phase::Stopping(Ended::Nothing);
                Action::Stop
            },
            (Phase::Scoring(chunk), Input::Scored(Ok(level))) => self.on_scored(chunk, level, now),
            (Phase::Scoring(_), Input::Scored(Err(e))) => {
                self.phase = Phase::Stopping(Ended::Failed(e));
                Action::Stop
            },
            (Phase::Stopping(ended), Input::Stopped(failure)) => self.on_stopped(ended, failure),
            (Phase::Measuring(samples), Input::Measured(level)) => {
                if self.transcriber.hears_speech(level) {
                    self.phase = Phase::Transcribing;
                    Action::Transcribe(samples)
                } else {
                    Action::Finish(Ok(None))
                }
            },
            (Phase::Transcribing, Input::Transcribed(Err(e))) => Action::Finish(Err(e)),
            (Phase::Transcribing, Input::Transcribed(Ok(text))) => {
                match self.transcriber.accept(text) {
                    Some(Transcript { text }) => Action::Finish(Ok(Some(text))),
                    None => Action::Finish(Ok(None)),
                }
            },
            (other, _) => {
                self.phase = other;
                Action::Nothing
            },
        }
    }
}

// ---------------------------------------------------------------------------
// Laws
// ---------------------------------------------------------------------------

/// Whether the microphone is open.
pub open spec fn mic_open<T>(p: Phase<Seq<T>>) -> bool {
    p is Waiting || p is Settling || p is Capturing || p is Scoring
}

/// A dictation is never over while the microphone is open, and whatever happens
/// the microphone does not go from open to not open but by being closed.
pub proof fn law_microphone_is_closed<T>(v: DictationView<T>, input: Input<Seq<T>>, now: Instant)
    ensures
        mic_open(v.phase) ==> !(v.next(input, now).1 is Finish),
        mic_open(v.phase) && !mic_open(v.next(input, now).0.phase) ==> v.next(input, now).1
            is Stop,
        v.next(input, now).1 is Finish <==> !(v.phase is Idle) && v.next(
            input,
            now,
        ).0.phase is Idle,
{
}

/// With the echo guard nothing is listened to before playback has ended, and
/// nothing that was captured during playback has any effect.
pub proof fn law_echo_is_never_dictated<T>(v: DictationView<T>, samples: Seq<T>, now: Instant)
    requires
        v.guarded,
    ensures
        v.phase is Starting ==> !(v.next(Input::Started(None), now).0.phase is Capturing),
        v.phase is Waiting ==> v.next(Input::Playback(true), now).0 == v,
        v.phase is Capturing ==> v.next(Input::Chunk { samples, playing: true }, now) == (
            v,
            Action::<Seq<T>>::Receive,
        ),
{
}

/// What is near silence is never transcribed, and an empty transcript is no
/// transcript.
pub proof fn law_silence_is_never_dictated<T>(
    v: DictationView<T>,
    level: i32,
    text: String,
    now: Instant,
)
    ensures
        v.phase is Measuring && level < v.floor ==> v.next(Input::Measured(level), now).1
            == Action::<Seq<T>>::Finish(Ok(None)),
        v.phase is Transcribing && text@.len() == 0 ==> v.next(
            Input::Transcribed(Ok(text)),
            now,
        ).1 == Action::<Seq<T>>::Finish(Ok(None)),
{
}

/// What is measured and transcribed is the utterance as the endpointer gave it.
pub proof fn law_utterance_is_transcribed_whole<T>(
    v: DictationView<T>,
    samples: Seq<T>,
    level: i32,
    now: Instant,
)
    requires
        v.phase == Phase::Stopping(Ended::Utterance(samples)),
        level >= v.floor,
    ensures
        v.next(Input::Stopped(None), now).1 == Action::Measure(samples),
        v.next(Input::Stopped(None), now).0.next(Input::Measured(level), now).1
            == Action::Transcribe(samples),
{
}

/// What a dictation listens with: nothing captured, nobody heard, and as long to
/// wait for speech as the lead-in is.
pub open spec fn fresh<T>(v: DictationView<T>, now: Instant) -> DictationView<T> {
    DictationView {
        phase: Phase::Capturing,
        endpointer: EndpointerView {
            buffer: Seq::empty(),
            last_speech_at: None,
            deadline: Some(Instant { nanos: (now.nanos + v.lead_in.nanos) as u128 }),
            ..v.endpointer
        },
        ..v
    }
}

/// How a dictation begins. The microphone is opened; where it cannot be, the
/// dictation is over with the reason. With the echo guard, playback is waited for,
/// looking every fifty milliseconds, and then its echo; without, listening begins
/// at once.
pub proof fn law_how_a_dictation_begins<T>(v: DictationView<T>, e: VoiceError, now: Instant)
    requires
        now.nanos + v.lead_in.nanos <= u128::MAX,
    ensures
        v.phase is Idle ==> v.next(Input::Begin, now) == (
            DictationView { phase: Phase::Starting, ..v },
            Action::<Seq<T>>::Start,
        ),
        v.phase is Starting ==> v.next(Input::Started(Some(e)), now) == (
            DictationView { phase: Phase::Idle, ..v },
            Action::<Seq<T>>::Finish(Err(e)),
        ),
        v.phase is Starting && !v.guarded ==> v.next(Input::Started(None), now) == (
            fresh(v, now),
            Action::<Seq<T>>::Receive,
        ),
        v.phase is Starting && v.guarded ==> v.next(Input::Started(None), now) == (
            DictationView { phase: Phase::Waiting, ..v },
            Action::<Seq<T>>::CheckPlayback(Duration { nanos: 0 }),
        ),
        v.phase is Waiting ==> v.next(Input::Playback(true), now) == (
            v,
            Action::<Seq<T>>::CheckPlayback(Duration { nanos: 50_000_000 }),
        ),
        v.phase is Waiting ==> v.next(Input::Playback(false), now) == (
            DictationView { phase: Phase::Settling, ..v },
            Action::<Seq<T>>::Settle(v.hangover),
        ),
        v.phase is Settling ==> v.next(Input::Settled, now) == (
            fresh(v, now),
            Action::<Seq<T>>::Receive,
        ),
{
}

/// What a captured chunk does. It is scored, unless it was captured during
/// playback under the echo guard. Speech joins the utterance and takes away the
/// deadline. Enough silence behind speech ends an utterance that is long enough;
/// without speech, the deadline ends the dictation with nothing. Where a chunk
/// cannot be scored, or no more of them come, the microphone is closed, too.
pub proof fn law_what_a_chunk_does<T>(
    v: DictationView<T>,
    chunk: Seq<T>,
    playing: bool,
    level: i32,
    e: VoiceError,
    now: Instant,
)
    ensures
        v.phase is Capturing && !(v.guarded && playing) ==> v.next(
            Input::Chunk { samples: chunk, playing },
            now,
        ) == (DictationView { phase: Phase::Scoring(chunk), ..v }, Action::Score(chunk)),
        v.phase is Capturing && v.guarded && playing ==> v.next(
            Input::Chunk { samples: chunk, playing },
            now,
        ) == (v, Action::<Seq<T>>::Receive),
        v.phase is Capturing ==> v.next(Input::Closed, now) == (
            DictationView { phase: Phase::Stopping(Ended::Nothing), ..v },
            Action::<Seq<T>>::Stop,
        ),
        v.phase == Phase::Scoring(chunk) ==> v.next(Input::Scored(Err(e)), now) == (
            DictationView { phase: Phase::Stopping(Ended::Failed(e)), ..v },
            Action::<Seq<T>>::Stop,
        ),
        v.phase == Phase::Scoring(chunk) ==> {
            let p = v.endpointer;
            let all = p.buffer + chunk;
            let ended = p.last_speech_at is Some && (p.silence.nanos == 0 || now.nanos
                >= p.last_speech_at->0.nanos + p.silence.nanos) && all.len() >= p.min_samples;
            let late = p.deadline is Some && now.nanos >= p.deadline->0.nanos;
            let to = v.next(Input::Scored(Ok(level)), now);
            if level >= p.threshold {
                to == (
                    DictationView {
                        phase: Phase::Capturing,
                        endpointer: EndpointerView {
                            buffer: all,
                            last_speech_at: Some(now),
                            deadline: None,
                            ..p
                        },
                        ..v
                    },
                    Action::<Seq<T>>::Receive,
                )
            } else if ended {
                to == (
                    DictationView {
                        phase: Phase::Stopping(Ended::Utterance(all)),
                        endpointer: EndpointerView { buffer: Seq::empty(), ..p },
                        ..v
                    },
                    Action::<Seq<T>>::Stop,
                )
            } else if late {
                to == (
                    DictationView {
                        phase: Phase::Stopping(Ended::Nothing),
                        endpointer: EndpointerView { buffer: all, ..p },
                        ..v
                    },
                    Action::<Seq<T>>::Stop,
                )
            } else {
                to == (
                    DictationView {
                        phase: Phase::Capturing,
                        endpointer: EndpointerView { buffer: all, ..p },
                        ..v
                    },
                    Action::<Seq<T>>::Receive,
                )
            }
        },
{
}

/// How a dictation ends, once the microphone is closed: with what failed first;
/// with nothing where nobody spoke, where the capture is near silence, or where
/// its transcript is empty; and else with the transcript of the utterance.
pub proof fn law_how_a_dictation_ends<T>(
    v: DictationView<T>,
    samples: Seq<T>,
    level: i32,
    e: VoiceError,
    other: VoiceError,
    text: String,
    now: Instant,
)
    ensures
        ({
            let idle = DictationView { phase: Phase::Idle, ..v };
            &&& v.phase == Phase::<Seq<T>>::Stopping(Ended::Failed(e)) ==> v.next(
                Input::Stopped(Some(other)),
                now,
            ) == (idle, Action::<Seq<T>>::Finish(Err(e))) && v.next(Input::Stopped(None), now) == (
                idle,
                Action::<Seq<T>>::Finish(Err(e)),
            )
            &&& v.phase == Phase::<Seq<T>>::Stopping(Ended::Nothing) ==> v.next(
                Input::Stopped(None),
                now,
            ) == (idle, Action::<Seq<T>>::Finish(Ok(None))) && v.next(
                Input::Stopped(Some(e)),
                now,
            ) == (idle, Action::<Seq<T>>::Finish(Err(e)))
            &&& v.phase == Phase::Stopping(Ended::Utterance(samples)) ==> v.next(
                Input::Stopped(None),
                now,
            ) == (
                DictationView { phase: Phase::Measuring(samples), ..v },
                Action::Measure(samples),
            ) && v.next(Input::Stopped(Some(e)), now) == (
                idle,
                Action::<Seq<T>>::Finish(Err(e)),
            )
            &&& v.phase == Phase::Measuring(samples) && level >= v.floor ==> v.next(
                Input::Measured(level),
                now,
            ) == (
                DictationView { phase: Phase::Transcribing, ..v },
                Action::Transcribe(samples),
            )
            &&& v.phase == Phase::Measuring(samples) && level < v.floor ==> v.next(
                Input::Measured(level),
                now,
            ) == (idle, Action::<Seq<T>>::Finish(Ok(None)))
            &&& v.phase is Transcribing ==> v.next(Input::Transcribed(Err(e)), now) == (
                idle,
                Action::<Seq<T>>::Finish(Err(e)),
            )
            &&& v.phase is Transcribing && text@.len() > 0 ==> v.next(
                Input::Transcribed(Ok(text)),
                now,
            ) == (idle, Action::<Seq<T>>::Finish(Ok(Some(text))))
            &&& v.phase is Transcribing && text@.len() == 0 ==> v.next(
                Input::Transcribed(Ok(text)),
                now,
            ) == (idle, Action::<Seq<T>>::Finish(Ok(None)))
        }),
{
}

/// What is not awaited changes nothing.
pub proof fn law_the_unawaited_changes_nothing<T>(
    v: DictationView<T>,
    input: Input<Seq<T>>,
    now: Instant,
)
    requires
        match v.phase {
            Phase::Idle => input !is Begin,
            Phase::Starting => input !is Started,
            Phase::Waiting => input !is Playback,
            Phase::Settling => input !is Settled,
            Phase::Capturing => input !is Chunk && input !is Closed,
            Phase::Scoring(_) => input !is Scored,
            Phase::Stopping(_) => input !is Stopped,
            Phase::Measuring(_) => input !is Measured,
            Phase::Transcribing => input !is Transcribed,
        },
    ensures
        v.next(input, now) == (v, Action::<Seq<T>>::Nothing),
{
}

} // verus!
