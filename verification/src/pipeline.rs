//! The voice pipeline as a machine: from what happened to what is to be done.
//!
//! Whatever the pipeline waits for (the microphone, the detectors, speech, the
//! assistant, the user's requests) reaches it as an [`Input`] of
//! [`Pipeline::step`], with the time it came; what it wants done comes back as
//! [`Action`]s, to be done in order. The last of them may call for an input in
//! turn, and no other input comes before that one.

use vstd::prelude::*;

use crate::config::{
    plan_between, plan_reload, text_view, ListeningCue, ReloadPlan, ReloadPlanView, Tunables,
    TunablesView, TurnTimeouts,
};
use crate::cue::{cue_for, next_cue, CueSound};
use crate::endpointer::{Endpoint, Endpointer, EndpointerView, PreBuffer};
use crate::phrases::{asks_to_stop, is_stop_phrase, ERROR_APOLOGY, STOP_ACKNOWLEDGEMENT};
use crate::samples::{append_samples, last_of};
use crate::state::{next_state, State, StateEvent};
use crate::text::copy_of;
use crate::time::{elapsed, Duration, Instant};
use crate::tools::{ClientToolToggles, ToolCall};
use crate::turn::{end_view, StopRequest, StreamEnd};

verus! {

/// How many samples make an utterance at least.
pub const ENDPOINT_MIN_SAMPLES: usize = 800;

/// How many samples from before the wake are kept.
pub const WAKE_PREBUFFER_SAMPLES: usize = 4_800;

// ---------------------------------------------------------------------------
// What happens, what is done, what is waited for
// ---------------------------------------------------------------------------

/// What happened. `B` holds samples, `S` text, `N` the settings that can
/// change.
#[derive(Debug, PartialEq, Eq)]
pub enum Input<B, S, N> {
    /// The daemon is up.
    Launch,
    /// The microphone was opened.
    CaptureStarted,
    /// The microphone could not be opened.
    CaptureFailed,
    /// Push-to-talk was pressed, for the conversation given, while `playing`.
    Ptt { target: Option<S>, playing: bool },
    /// The user asked to stop.
    Stop(StopRequest),
    /// The configuration was read anew.
    Reload(N),
    /// Nobody can send requests any more.
    ControlsClosed,
    /// Audio was captured.
    Audio { chunk: B, playing: bool, in_tail_pad: bool, enabled: bool },
    /// The microphone was lost.
    CaptureClosed,
    /// Whether the wake word was heard.
    WakeChecked(bool),
    /// How much like speech a chunk sounds.
    SpeechLevel { level: i32, playing: bool },
    /// Playback is over and what was captured meanwhile is dropped.
    EchoDrained,
    /// The cue was sounded, or could not be.
    CuePlayed,
    /// What the user said, if anything.
    Transcribed(Option<S>),
    /// The acknowledgement was spoken.
    Acknowledged,
    /// A conversation was opened.
    Created(S),
    /// The assistant's events are subscribed to.
    Subscribed,
    /// The prompt was sent.
    Sent,
    /// The response is over.
    TurnOver { end: StreamEnd<B, S>, playing: bool },
    /// Something failed that the turn cannot do without.
    TurnFailed,
    /// The apology was spoken, or could not be.
    Apologized,
}

/// Something to be done. `B` holds samples, `S` text.
#[derive(Debug, PartialEq, Eq)]
pub enum Action<B, S> {
    /// Tell everyone the new state.
    Publish(State),
    /// Offer the tools to the assistant.
    RegisterTools(ClientToolToggles),
    /// Open the microphone: [`Input::CaptureStarted`] or
    /// [`Input::CaptureFailed`] comes back.
    StartSource,
    /// Close the microphone.
    StopSource,
    /// Silence the speaker, if that works.
    StopPlayback,
    /// Silence the speaker; the pipeline ends where that fails.
    HaltPlayback,
    /// Wait until nothing plays and drop what was captured meanwhile:
    /// [`Input::EchoDrained`] comes back.
    DrainEcho,
    /// Make the speech detector forget what it heard.
    ResetVad,
    /// Sound the cue: [`Input::CuePlayed`] comes back.
    PlayCue(CueSound<S>),
    /// Look for the wake word: [`Input::WakeChecked`] comes back.
    DetectWake(B),
    /// Look for speech: [`Input::SpeechLevel`] comes back.
    MeasureSpeech(B),
    /// Transcribe: [`Input::Transcribed`] or [`Input::TurnFailed`] comes back.
    Transcribe(B),
    /// Show what the user said.
    ShowTranscript(S),
    /// Speak this acknowledgement: [`Input::Acknowledged`] or
    /// [`Input::TurnFailed`] comes back.
    Acknowledge(S),
    /// Open a conversation: [`Input::Created`] or [`Input::TurnFailed`] comes
    /// back.
    CreateConversation(S),
    /// Subscribe to the assistant: [`Input::Subscribed`] or
    /// [`Input::TurnFailed`] comes back.
    Subscribe,
    /// Send a prompt: [`Input::Sent`] or [`Input::TurnFailed`] comes back.
    SendPrompt { conversation_id: S, prompt: S, hint: S },
    /// Speak the response as it comes: [`Input::TurnOver`] or
    /// [`Input::TurnFailed`] comes back.
    StreamTurn,
    /// Answer what the assistant still asks of the abandoned turn.
    DrainTurn,
    /// Speak this apology, if that works: [`Input::Apologized`] comes back.
    Apologize(S),
    /// Build the wake word detector anew.
    RebuildWake(i32),
    /// Log that a changed device needs a restart.
    NoteDeviceChange(S),
    /// The pipeline is over.
    Exit,
}

/// What the pipeline waits for. `B` holds samples, `S` text.
#[derive(Debug, PartialEq, Eq)]
pub enum Phase<B, S> {
    /// To be launched.
    Ready,
    /// The microphone to be opened; for the first time, where `first`.
    Starting { first: bool },
    /// A reason to try the microphone again.
    Degraded { first: bool },
    /// Audio or a request.
    Running,
    /// The wake word detector.
    CheckingWake,
    /// The speech detector, on this chunk.
    Measuring { chunk: B },
    /// Silence, to listen for push-to-talk.
    EnteringPtt { target: Option<S> },
    /// The cue behind a wake; `settle` where its echo has to be dropped.
    WakeCue { settle: bool },
    /// Silence behind that cue.
    WakeSettle,
    /// The transcription.
    Transcribing,
    /// The acknowledgement of a stop.
    Acknowledging,
    /// A conversation for this prompt.
    Creating { prompt: S },
    /// The subscription, to send this prompt.
    Subscribing { conversation_id: S, prompt: S, own: bool },
    /// The prompt to be sent.
    Sending { own: bool },
    /// The response.
    Streaming { own: bool },
    /// The apology.
    Apologizing,
    /// Silence behind the response, to listen again.
    RelistenDrain,
    /// The cue that the pipeline listens again.
    RelistenCue,
    /// Silence behind that cue.
    RelistenSettle,
    /// Nothing.
    Finished,
}

pub open spec fn input_view<T>(i: Input<Vec<T>, String, Tunables>) -> Input<
    Seq<T>,
    Seq<char>,
    TunablesView,
> {
    match i {
        Input::Launch => Input::Launch,
        Input::CaptureStarted => Input::CaptureStarted,
        Input::CaptureFailed => Input::CaptureFailed,
        Input::Ptt { target, playing } => Input::Ptt { target: text_view(target), playing },
        Input::Stop(r) => Input::Stop(r),
        Input::Reload(t) => Input::Reload(t@),
        Input::ControlsClosed => Input::ControlsClosed,
        Input::Audio { chunk, playing, in_tail_pad, enabled } => Input::Audio {
            chunk: chunk@,
            playing,
            in_tail_pad,
            enabled,
        },
        Input::CaptureClosed => Input::CaptureClosed,
        Input::WakeChecked(b) => Input::WakeChecked(b),
        Input::SpeechLevel { level, playing } => Input::SpeechLevel { level, playing },
        Input::EchoDrained => Input::EchoDrained,
        Input::CuePlayed => Input::CuePlayed,
        Input::Transcribed(t) => Input::Transcribed(text_view(t)),
        Input::Acknowledged => Input::Acknowledged,
        Input::Created(id) => Input::Created(id@),
        Input::Subscribed => Input::Subscribed,
        Input::Sent => Input::Sent,
        Input::TurnOver { end, playing } => Input::TurnOver { end: end_view(end), playing },
        Input::TurnFailed => Input::TurnFailed,
        Input::Apologized => Input::Apologized,
    }
}

pub open spec fn action_view<T>(a: Action<Vec<T>, String>) -> Action<Seq<T>, Seq<char>> {
    match a {
        Action::Publish(s) => Action::Publish(s),
        Action::RegisterTools(t) => Action::RegisterTools(t),
        Action::StartSource => Action::StartSource,
        Action::StopSource => Action::StopSource,
        Action::StopPlayback => Action::StopPlayback,
        Action::HaltPlayback => Action::HaltPlayback,
        Action::DrainEcho => Action::DrainEcho,
        Action::ResetVad => Action::ResetVad,
        Action::PlayCue(CueSound::Ding) => Action::PlayCue(CueSound::Ding),
        Action::PlayCue(CueSound::Phrase(s)) => Action::PlayCue(CueSound::Phrase(s@)),
        Action::DetectWake(b) => Action::DetectWake(b@),
        Action::MeasureSpeech(b) => Action::MeasureSpeech(b@),
        Action::Transcribe(b) => Action::Transcribe(b@),
        Action::ShowTranscript(s) => Action::ShowTranscript(s@),
        Action::Acknowledge(s) => Action::Acknowledge(s@),
        Action::CreateConversation(s) => Action::CreateConversation(s@),
        Action::Subscribe => Action::Subscribe,
        Action::SendPrompt { conversation_id, prompt, hint } => Action::SendPrompt {
            conversation_id: conversation_id@,
            prompt: prompt@,
            hint: hint@,
        },
        Action::StreamTurn => Action::StreamTurn,
        Action::DrainTurn => Action::DrainTurn,
        Action::Apologize(s) => Action::Apologize(s@),
        Action::RebuildWake(s) => Action::RebuildWake(s),
        Action::NoteDeviceChange(s) => Action::NoteDeviceChange(s@),
        Action::Exit => Action::Exit,
    }
}

pub open spec fn action_views<T>(v: Seq<Action<Vec<T>, String>>) -> Seq<
    Action<Seq<T>, Seq<char>>,
> {
    v.map_values(|a: Action<Vec<T>, String>| action_view(a))
}

pub open spec fn phase_view<T>(p: Phase<Vec<T>, String>) -> Phase<Seq<T>, Seq<char>> {
    match p {
        Phase::Ready => Phase::Ready,
        Phase::Starting { first } => Phase::Starting { first },
        Phase::Degraded { first } => Phase::Degraded { first },
        Phase::Running => Phase::Running,
        Phase::CheckingWake => Phase::CheckingWake,
        Phase::Measuring { chunk } => Phase::Measuring { chunk: chunk@ },
        Phase::EnteringPtt { target } => Phase::EnteringPtt { target: text_view(target) },
        Phase::WakeCue { settle } => Phase::WakeCue { settle },
        Phase::WakeSettle => Phase::WakeSettle,
        Phase::Transcribing => Phase::Transcribing,
        Phase::Acknowledging => Phase::Acknowledging,
        Phase::Creating { prompt } => Phase::Creating { prompt: prompt@ },
        Phase::Subscribing { conversation_id, prompt, own } => Phase::Subscribing {
            conversation_id: conversation_id@,
            prompt: prompt@,
            own,
        },
        Phase::Sending { own } => Phase::Sending { own },
        Phase::Streaming { own } => Phase::Streaming { own },
        Phase::Apologizing => Phase::Apologizing,
        Phase::RelistenDrain => Phase::RelistenDrain,
        Phase::RelistenCue => Phase::RelistenCue,
        Phase::RelistenSettle => Phase::RelistenSettle,
        Phase::Finished => Phase::Finished,
    }
}

/// How a turn went, as far as the conversation is concerned.
#[derive(Debug, Clone, Copy, PartialEq, Eq, Structural)]
pub enum UtteranceOutcome {
    /// Listen again in conversation mode, else be done.
    Continue,
    /// The conversation is over.
    EndConversation,
    /// Listen again in any mode.
    KeepListening,
}

// ---------------------------------------------------------------------------
// What the pipeline holds, and what each input does to it
// ---------------------------------------------------------------------------

/// What the pipeline holds.
#[verifier::ext_equal]
pub struct PipelineView<T> {
    pub state: State,
    pub phase: Phase<Seq<T>, Seq<char>>,
    pub endpointer: EndpointerView<T>,
    /// Recent samples, in case the wake word is among them.
    pub recent: Seq<T>,
    /// How many of them are kept.
    pub recent_size: nat,
    pub cue: ListeningCue,
    pub cue_count: u64,
    pub tunables: TunablesView,
    /// The daemon's own conversation, if one is open.
    pub conversation_id: Option<Seq<char>>,
    /// The conversation that push-to-talk was pressed for, if any.
    pub target: Option<Seq<char>>,
    pub title: Seq<char>,
    pub hint: Seq<char>,
    pub speech_threshold: i32,
    pub conversation_mode: bool,
    /// For how long a conversation is taken up again.
    pub reuse_window: Duration,
    /// When the own conversation was last used.
    pub last_own_activity: Option<Instant>,
    pub followup_timeout: Duration,
    pub idle_exit_timeout: Option<Duration>,
    pub timeouts: TurnTimeouts,
    pub tools: ClientToolToggles,
    /// Whether the assistant asked to end the session behind this turn.
    pub end_requested: bool,
    /// Whether the assistant asked to listen for more behind this turn.
    pub more_requested: bool,
    /// When the pipeline was last in use.
    pub last_activity: Instant,
}

/// Where a step leads, and what it has done.
#[verifier::ext_equal]
pub struct Move<T> {
    pub to: PipelineView<T>,
    pub actions: Seq<Action<Seq<T>, Seq<char>>>,
}

pub open spec fn move_to<T>(
    to: PipelineView<T>,
    actions: Seq<Action<Seq<T>, Seq<char>>>,
) -> Move<T> {
    Move { to, actions }
}

/// The stop of the speaker, where anything plays.
pub open spec fn stop_if<T>(playing: bool) -> Seq<Action<Seq<T>, Seq<char>>> {
    if playing {
        seq![Action::StopPlayback]
    } else {
        Seq::empty()
    }
}

/// The cue to sound, where there is one.
pub open spec fn sound<T>(cue: Option<CueSound<Seq<char>>>) -> Seq<Action<Seq<T>, Seq<char>>> {
    match cue {
        Some(c) => seq![Action::PlayCue(c)],
        None => Seq::empty(),
    }
}

impl<T> PipelineView<T> {
    pub open spec fn in_phase(self, phase: Phase<Seq<T>, Seq<char>>) -> PipelineView<T> {
        PipelineView { phase, ..self }
    }

    /// The pipeline behind `event`, which changes nothing where it is illegal.
    pub open spec fn applied(self, event: StateEvent) -> PipelineView<T> {
        match next_state(self.state, event) {
            Some(s) => PipelineView { state: s, ..self },
            None => self,
        }
    }

    /// What is published of `event`: the new state, where it is another one.
    pub open spec fn published(self, event: StateEvent) -> Seq<Action<Seq<T>, Seq<char>>> {
        if self.applied(event).state != self.state {
            seq![Action::Publish(self.applied(event).state)]
        } else {
            Seq::empty()
        }
    }

    /// Whether the own conversation is taken up again at `now`: it was used
    /// within the window, and there is a window.
    pub open spec fn still_fresh(self, now: Instant) -> bool {
        &&& self.reuse_window.nanos > 0
        &&& self.last_own_activity is Some
        &&& elapsed(self.last_own_activity->0, now) <= self.reuse_window.nanos
    }

    /// The pipeline at a fresh start of listening: a conversation that is not
    /// taken up again is forgotten.
    pub open spec fn refreshed(self, now: Instant) -> PipelineView<T> {
        if self.reuse_window.nanos == 0 || (self.conversation_id is Some && !self.still_fresh(
            now,
        )) {
            PipelineView { conversation_id: None, last_own_activity: None, ..self }
        } else {
            self
        }
    }

    /// The pipeline without any conversation.
    pub open spec fn ended(self) -> PipelineView<T> {
        PipelineView {
            conversation_id: None,
            last_own_activity: None,
            target: None,
            endpointer: self.endpointer.cleared(),
            ..self
        }
    }

    /// The pipeline with a plan's new values.
    #[verifier::opaque]
    pub open spec fn planned(self, plan: ReloadPlanView) -> PipelineView<T> {
        PipelineView {
            speech_threshold: match plan.set_speech_threshold {
                Some(t) => t,
                None => self.speech_threshold,
            },
            endpointer: retuned(self.endpointer, plan),
            followup_timeout: match plan.set_followup_timeout_ms {
                Some(ms) => millis(ms),
                None => self.followup_timeout,
            },
            reuse_window: match plan.set_conversation_reuse_window_ms {
                Some(ms) => millis(ms),
                None => self.reuse_window,
            },
            conversation_mode: match plan.set_conversation_mode {
                Some(b) => b,
                None => self.conversation_mode,
            },
            idle_exit_timeout: idle_exit_after(plan.set_idle_exit_timeout_ms, self.idle_exit_timeout),
            timeouts: rebounded(self.timeouts, plan),
            ..self
        }
    }

    /// The pipeline behind a reload.
    #[verifier::opaque]
    pub open spec fn reloaded(self, new: TunablesView) -> PipelineView<T> {
        PipelineView { tunables: new, ..self.planned(plan_between(self.tunables, new)) }
    }

    /// A conversation begins: the cue of the wake.
    #[verifier::opaque]
    pub open spec fn on_wake(self, now: Instant) -> Move<T> {
        let p = (PipelineView { target: None, ..self.applied(StateEvent::WakeWordDetected) })
            .refreshed(now);
        let armed = PipelineView {
            endpointer: p.endpointer.armed(Some(p.followup_timeout), p.recent, now),
            recent: Seq::empty(),
            cue_count: cue_count_after(p.cue, p.cue_count),
            ..p
        };
        let cue = cue_for(p.cue, p.cue_count);
        move_to(
            armed.in_phase(
                if cue is Some {
                    Phase::WakeCue { settle: cue->0 is Phrase }
                } else {
                    Phase::Running
                },
            ),
            self.published(StateEvent::WakeWordDetected) + seq![Action::ResetVad] + sound(cue),
        )
    }

    /// Push-to-talk: silence first.
    #[verifier::opaque]
    pub open spec fn on_ptt(self, target: Option<Seq<char>>, playing: bool) -> Move<T> {
        move_to(
            self.in_phase(Phase::EnteringPtt { target }),
            stop_if(playing) + seq![Action::DrainEcho],
        )
    }

    /// Push-to-talk: listen.
    #[verifier::opaque]
    pub open spec fn on_ptt_ready(self, target: Option<Seq<char>>, now: Instant) -> Move<T> {
        let p = PipelineView { target, ..self };
        let fresh = if target is None {
            p.refreshed(now)
        } else {
            p
        };
        let q = fresh.applied(StateEvent::PttPressed);
        move_to(
            PipelineView {
                endpointer: q.endpointer.armed(Some(q.followup_timeout), Seq::empty(), now),
                ..q
            }.in_phase(Phase::Running),
            self.published(StateEvent::PttPressed) + seq![Action::ResetVad],
        )
    }

    /// A request to stop outside a turn.
    #[verifier::opaque]
    pub open spec fn on_stop(self, request: StopRequest) -> Move<T> {
        match request {
            StopRequest::Speaking => if self.state is Speaking {
                move_to(
                    self.applied(StateEvent::Stopped),
                    seq![Action::HaltPlayback] + self.published(StateEvent::Stopped),
                )
            } else {
                move_to(self, Seq::empty())
            },
            StopRequest::Conversation => move_to(
                self.applied(StateEvent::Stopped).ended(),
                if self.state is Idle {
                    Seq::empty()
                } else {
                    seq![Action::StopPlayback] + self.published(StateEvent::Stopped)
                },
            ),
        }
    }

    /// What a reload calls for besides new values.
    #[verifier::opaque]
    pub open spec fn reload_actions(self, new: TunablesView) -> Seq<Action<Seq<T>, Seq<char>>> {
        let plan = plan_between(self.tunables, new);
        (match plan.rebuild_wake_sensitivity {
            Some(s) => seq![Action::RebuildWake(s)],
            None => Seq::empty(),
        }) + (match plan.restart_required_for_device {
            Some(c) => seq![Action::NoteDeviceChange(c)],
            None => Seq::empty(),
        })
    }

    /// The microphone is lost: back to idle, and open it again.
    #[verifier::opaque]
    pub open spec fn on_capture_lost(self) -> Move<T> {
        let p = self.applied(StateEvent::Stopped);
        move_to(
            PipelineView { endpointer: p.endpointer.cleared(), ..p }.in_phase(
                Phase::Starting { first: false },
            ),
            seq![Action::StopPlayback] + self.published(StateEvent::Stopped) + seq![
                Action::StopSource,
                Action::StartSource,
            ],
        )
    }

    /// Captured audio outside a turn.
    #[verifier::opaque]
    pub open spec fn on_audio(
        self,
        chunk: Seq<T>,
        playing: bool,
        in_tail_pad: bool,
        enabled: bool,
        now: Instant,
    ) -> Move<T> {
        if self.state is Idle && !enabled {
            if self.idle_exit_timeout is Some && elapsed(self.last_activity, now)
                >= self.idle_exit_timeout->0.nanos && !playing {
                move_to(self.in_phase(Phase::Finished), seq![Action::StopSource, Action::Exit])
            } else {
                move_to(self, Seq::empty())
            }
        } else {
            let p = PipelineView { last_activity: now, ..self };
            let kept = PipelineView { recent: last_of(p.recent + chunk, p.recent_size), ..p };
            match self.state {
                State::Idle => if playing {
                    move_to(
                        if in_tail_pad {
                            kept
                        } else {
                            p
                        },
                        Seq::empty(),
                    )
                } else {
                    move_to(kept.in_phase(Phase::CheckingWake), seq![Action::DetectWake(chunk)])
                },
                State::Processing => move_to(p, Seq::empty()),
                _ => move_to(
                    p.in_phase(Phase::Measuring { chunk }),
                    seq![Action::MeasureSpeech(chunk)],
                ),
            }
        }
    }

    /// What a chunk's speech level decides while the pipeline listens or
    /// speaks.
    #[verifier::opaque]
    pub open spec fn on_level(
        self,
        chunk: Seq<T>,
        level: i32,
        playing: bool,
        now: Instant,
    ) -> Move<T> {
        let p = self.in_phase(Phase::Running);
        match self.state {
            State::Listening => {
                let e = PipelineView { endpointer: p.endpointer.after(chunk, level, now), ..p };
                match p.endpointer.decision(chunk, level, now) {
                    Endpoint::Complete(samples) => move_to(
                        PipelineView {
                            end_requested: false,
                            more_requested: false,
                            ..e.applied(StateEvent::SilenceDetected)
                        }.in_phase(Phase::Transcribing),
                        self.published(StateEvent::SilenceDetected) + seq![
                            Action::Transcribe(samples),
                        ],
                    ),
                    Endpoint::Timeout => move_to(
                        PipelineView {
                            target: None,
                            endpointer: e.endpointer.cleared(),
                            ..e.applied(StateEvent::ListeningTimedOut)
                        },
                        self.published(StateEvent::ListeningTimedOut),
                    ),
                    _ => move_to(e, Seq::empty()),
                }
            },
            State::Speaking => if level >= self.speech_threshold {
                move_to(
                    PipelineView {
                        endpointer: p.endpointer.speaking(chunk, now),
                        ..p.applied(StateEvent::BargeIn)
                    },
                    seq![Action::HaltPlayback] + self.published(StateEvent::BargeIn) + seq![
                        Action::ResetVad,
                    ],
                )
            } else if !playing {
                move_to(
                    p.applied(StateEvent::PlaybackComplete),
                    self.published(StateEvent::PlaybackComplete),
                )
            } else {
                move_to(p, Seq::empty())
            },
            _ => move_to(p, Seq::empty()),
        }
    }

    /// What the user said: nothing, a request to stop, or a prompt, which goes
    /// to the conversation that push-to-talk was pressed for, else to the own
    /// one, which may have to be opened.
    #[verifier::opaque]
    pub open spec fn on_transcribed(self, said: Option<Seq<char>>) -> Move<T> {
        match said {
            None => self.concluded(UtteranceOutcome::Continue),
            Some(prompt) => {
                let shown = seq![Action::ShowTranscript(prompt)];
                if asks_to_stop(prompt) {
                    move_to(
                        self.applied(StateEvent::ResponseStarted).in_phase(Phase::Acknowledging),
                        shown + self.published(StateEvent::ResponseStarted) + seq![
                            Action::Acknowledge(STOP_ACKNOWLEDGEMENT@),
                        ],
                    )
                } else if self.target is Some {
                    move_to(
                        self.in_phase(
                            Phase::Subscribing {
                                conversation_id: self.target->0,
                                prompt,
                                own: false,
                            },
                        ),
                        shown + seq![Action::Subscribe],
                    )
                } else if self.conversation_id is Some {
                    move_to(
                        self.in_phase(
                            Phase::Subscribing {
                                conversation_id: self.conversation_id->0,
                                prompt,
                                own: true,
                            },
                        ),
                        shown + seq![Action::Subscribe],
                    )
                } else {
                    move_to(
                        self.in_phase(Phase::Creating { prompt }),
                        shown + seq![Action::CreateConversation(self.title)],
                    )
                }
            },
        }
    }

    /// The turn failed: apologize.
    #[verifier::opaque]
    pub open spec fn failed(self) -> Move<T> {
        move_to(
            self.applied(StateEvent::ResponseStarted).in_phase(Phase::Apologizing),
            self.published(StateEvent::ResponseStarted) + seq![
                Action::Apologize(ERROR_APOLOGY@),
            ],
        )
    }

    /// How the conversation goes on behind a turn.
    #[verifier::opaque]
    pub open spec fn concluded(self, outcome: UtteranceOutcome) -> Move<T> {
        if outcome is EndConversation {
            move_to(
                self.applied(StateEvent::TurnEnded).ended().in_phase(Phase::Running),
                self.published(StateEvent::TurnEnded),
            )
        } else if outcome is KeepListening || self.conversation_mode {
            move_to(self.in_phase(Phase::RelistenDrain), seq![Action::DrainEcho])
        } else {
            move_to(
                PipelineView { target: None, ..self.applied(StateEvent::TurnEnded) }.in_phase(
                    Phase::Running,
                ),
                self.published(StateEvent::TurnEnded),
            )
        }
    }

    /// What the assistant's requests during the turn come to.
    pub open spec fn outcome(self) -> UtteranceOutcome {
        if self.end_requested {
            UtteranceOutcome::EndConversation
        } else if self.more_requested {
            UtteranceOutcome::KeepListening
        } else {
            UtteranceOutcome::Continue
        }
    }

    /// The response is over. An interrupted one counts as used, too; what the
    /// assistant still asks of it is answered elsewhere.
    #[verifier::opaque]
    pub open spec fn on_turn_over(
        self,
        own: bool,
        end: StreamEnd<Seq<T>, Seq<char>>,
        playing: bool,
        now: Instant,
    ) -> Move<T> {
        let p = PipelineView {
            last_own_activity: if own {
                Some(now)
            } else {
                self.last_own_activity
            },
            ..self.in_phase(Phase::Running)
        };
        match end {
            StreamEnd::Completed => p.concluded(p.outcome()),
            _ => p.interrupted(end, playing, now),
        }
    }

    /// What an interrupted turn comes to: what the same interruption outside a
    /// turn would.
    #[verifier::opaque]
    pub open spec fn interrupted(
        self,
        end: StreamEnd<Seq<T>, Seq<char>>,
        playing: bool,
        now: Instant,
    ) -> Move<T> {
        let p = self;
        let late = seq![Action::DrainTurn];
        match end {
            StreamEnd::Completed => move_to(p, Seq::empty()),
            StreamEnd::BargedIn(chunk) => if next_state(p.state, StateEvent::BargeIn) is Some {
                move_to(
                    PipelineView {
                        endpointer: p.endpointer.speaking(chunk, now),
                        ..p.applied(StateEvent::BargeIn)
                    },
                    late + p.published(StateEvent::BargeIn) + seq![Action::ResetVad],
                )
            } else {
                move_to(p, late)
            },
            StreamEnd::PttPressed(target) => {
                let q = if p.state is Processing {
                    p.applied(StateEvent::Stopped)
                } else {
                    p
                };
                let quiet = if p.state is Processing {
                    p.published(StateEvent::Stopped)
                } else {
                    Seq::empty()
                };
                move_to(q.on_ptt(target, playing).to, late + quiet + q.on_ptt(target, playing).actions)
            },
            StreamEnd::Stopped(StopRequest::Speaking) => move_to(
                p.applied(StateEvent::Stopped),
                late + p.published(StateEvent::Stopped),
            ),
            StreamEnd::Stopped(StopRequest::Conversation) => move_to(
                p.applied(StateEvent::Stopped).ended(),
                late + p.published(StateEvent::Stopped),
            ),
        }
    }

    /// The pipeline listens again: say so.
    #[verifier::opaque]
    pub open spec fn on_relisten(self) -> Move<T> {
        let p = self.applied(StateEvent::RelistenArmed);
        let cue = cue_for(p.cue, p.cue_count);
        move_to(
            PipelineView { cue_count: cue_count_after(p.cue, p.cue_count), ..p }.in_phase(
                if cue is Some {
                    Phase::RelistenCue
                } else {
                    Phase::RelistenSettle
                },
            ),
            self.published(StateEvent::RelistenArmed) + (if cue is Some {
                sound(cue)
            } else {
                seq![Action::DrainEcho]
            }),
        )
    }

    /// Where any input leads from any phase. One that the phase does not wait
    /// for changes nothing.
    pub open spec fn next(
        self,
        input: Input<Seq<T>, Seq<char>, TunablesView>,
        now: Instant,
    ) -> Move<T> {
        let stay = move_to(self, Seq::empty());
        match self.phase {
            Phase::Ready => if input is Launch {
                move_to(self.in_phase(Phase::Starting { first: true }), seq![Action::StartSource])
            } else {
                stay
            },
            Phase::Starting { first } => match input {
                Input::CaptureStarted => if first {
                    move_to(
                        PipelineView { state: State::Idle, last_activity: now, ..self }.in_phase(
                            Phase::Running,
                        ),
                        (if offers_any(self.tools) {
                            seq![Action::RegisterTools(self.tools)]
                        } else {
                            Seq::empty()
                        }) + seq![Action::Publish(State::Idle)],
                    )
                } else {
                    move_to(self.in_phase(Phase::Running), Seq::empty())
                },
                Input::CaptureFailed => move_to(
                    self.in_phase(Phase::Degraded { first }),
                    Seq::empty(),
                ),
                _ => stay,
            },
            Phase::Degraded { first } => match input {
                Input::Reload(new) => move_to(
                    self.reloaded(new).in_phase(Phase::Starting { first }),
                    self.reload_actions(new) + seq![Action::StartSource],
                ),
                Input::ControlsClosed => move_to(
                    self.in_phase(Phase::Finished),
                    if first {
                        seq![Action::Exit]
                    } else {
                        seq![Action::StopSource, Action::Exit]
                    },
                ),
                _ => stay,
            },
            Phase::Running => match input {
                Input::Ptt { target, playing } => if self.state is Idle || self.state is Speaking {
                    self.on_ptt(target, playing)
                } else {
                    stay
                },
                Input::Stop(request) => self.on_stop(request),
                Input::Reload(new) => move_to(self.reloaded(new), self.reload_actions(new)),
                Input::Audio { chunk, playing, in_tail_pad, enabled } => self.on_audio(
                    chunk,
                    playing,
                    in_tail_pad,
                    enabled,
                    now,
                ),
                Input::CaptureClosed => self.on_capture_lost(),
                _ => stay,
            },
            Phase::Finished => stay,
            Phase::CheckingWake | Phase::Measuring { .. } | Phase::EnteringPtt { .. }
            | Phase::WakeCue { .. } | Phase::WakeSettle => self.next_listening(input, now),
            Phase::Transcribing | Phase::Acknowledging | Phase::Creating { .. }
            | Phase::Subscribing { .. } | Phase::Sending { .. } => self.next_asking(input),
            _ => self.next_answering(input, now),
        }
    }

    /// Where an input leads while the pipeline is about to listen.
    #[verifier::opaque]
    pub open spec fn next_listening(
        self,
        input: Input<Seq<T>, Seq<char>, TunablesView>,
        now: Instant,
    ) -> Move<T> {
        let stay = move_to(self, Seq::empty());
        let p = self.in_phase(Phase::Running);
        match self.phase {
            Phase::CheckingWake => match input {
                Input::WakeChecked(fired) => if fired && self.state is Idle {
                    p.on_wake(now)
                } else {
                    move_to(p, Seq::empty())
                },
                _ => stay,
            },
            Phase::Measuring { chunk } => match input {
                Input::SpeechLevel { level, playing } => p.on_level(chunk, level, playing, now),
                _ => stay,
            },
            Phase::EnteringPtt { target } => if input is EchoDrained {
                p.on_ptt_ready(target, now)
            } else {
                stay
            },
            Phase::WakeCue { settle } => if input is CuePlayed {
                if settle {
                    move_to(p.in_phase(Phase::WakeSettle), seq![Action::DrainEcho])
                } else {
                    move_to(p, Seq::empty())
                }
            } else {
                stay
            },
            Phase::WakeSettle => if input is EchoDrained {
                move_to(p, Seq::empty())
            } else {
                stay
            },
            _ => stay,
        }
    }

    /// Where an input leads while the pipeline finds out what the user said and
    /// asks the assistant.
    #[verifier::opaque]
    pub open spec fn next_asking(self, input: Input<Seq<T>, Seq<char>, TunablesView>) -> Move<T> {
        let stay = move_to(self, Seq::empty());
        let p = self.in_phase(Phase::Running);
        match self.phase {
            Phase::Transcribing => match input {
                Input::Transcribed(said) => p.on_transcribed(said),
                Input::TurnFailed => p.failed(),
                _ => stay,
            },
            Phase::Acknowledging => match input {
                Input::Acknowledged => p.concluded(UtteranceOutcome::EndConversation),
                Input::TurnFailed => p.failed(),
                _ => stay,
            },
            Phase::Creating { prompt } => match input {
                Input::Created(id) => move_to(
                    PipelineView { conversation_id: Some(id), ..p }.in_phase(
                        Phase::Subscribing { conversation_id: id, prompt, own: true },
                    ),
                    seq![Action::Subscribe],
                ),
                Input::TurnFailed => p.failed(),
                _ => stay,
            },
            Phase::Subscribing { conversation_id, prompt, own } => match input {
                Input::Subscribed => move_to(
                    p.in_phase(Phase::Sending { own }),
                    seq![Action::SendPrompt { conversation_id, prompt, hint: p.hint }],
                ),
                Input::TurnFailed => p.failed(),
                _ => stay,
            },
            Phase::Sending { own } => match input {
                Input::Sent => move_to(
                    p.in_phase(Phase::Streaming { own }),
                    seq![Action::StreamTurn],
                ),
                Input::TurnFailed => p.failed(),
                _ => stay,
            },
            _ => stay,
        }
    }

    /// Where an input leads while the assistant answers, and behind that.
    #[verifier::opaque]
    pub open spec fn next_answering(
        self,
        input: Input<Seq<T>, Seq<char>, TunablesView>,
        now: Instant,
    ) -> Move<T> {
        let stay = move_to(self, Seq::empty());
        let p = self.in_phase(Phase::Running);
        match self.phase {
            Phase::Streaming { own } => match input {
                Input::TurnOver { end, playing } => p.on_turn_over(own, end, playing, now),
                Input::TurnFailed => p.failed(),
                Input::Reload(new) => move_to(p.reloaded(new).in_phase(self.phase), p.reload_actions(new)),
                _ => stay,
            },
            Phase::Apologizing => if input is Apologized {
                p.concluded(UtteranceOutcome::EndConversation)
            } else {
                stay
            },
            Phase::RelistenDrain => if input is EchoDrained {
                p.on_relisten()
            } else {
                stay
            },
            Phase::RelistenCue => if input is CuePlayed {
                move_to(p.in_phase(Phase::RelistenSettle), seq![Action::DrainEcho])
            } else {
                stay
            },
            Phase::RelistenSettle => if input is EchoDrained {
                move_to(
                    PipelineView {
                        endpointer: p.endpointer.armed(
                            Some(p.followup_timeout),
                            Seq::empty(),
                            now,
                        ),
                        ..p
                    }.in_phase(Phase::Running),
                    seq![Action::ResetVad],
                )
            } else {
                stay
            },
            _ => stay,
        }
    }
}

// ---------------------------------------------------------------------------
// The pipeline
// ---------------------------------------------------------------------------

/// What a pipeline is made with.
pub struct PipelineConfig {
    pub tunables: Tunables,
    pub conversation_title: String,
    pub silence_duration: Duration,
    pub speech_threshold: i32,
    pub conversation_mode: bool,
    pub conversation_reuse_window: Duration,
    pub followup_timeout: Duration,
    pub idle_exit_timeout: Option<Duration>,
    pub spoken_response_hint: String,
    pub listening_cue: ListeningCue,
    pub timeouts: TurnTimeouts,
    pub client_tools: ClientToolToggles,
}

/// The voice pipeline.
pub struct Pipeline<T> {
    state: State,
    phase: Phase<Vec<T>, String>,
    endpointer: Endpointer<T>,
    prebuffer: PreBuffer<T>,
    listening_cue: ListeningCue,
    cue_phrase_counter: u64,
    tunables: Tunables,
    conversation_id: Option<String>,
    ptt_conversation_override: Option<String>,
    conversation_title: String,
    spoken_response_hint: String,
    speech_threshold: i32,
    conversation_mode: bool,
    conversation_reuse_window: Duration,
    last_own_activity: Option<Instant>,
    followup_timeout: Duration,
    idle_exit_timeout: Option<Duration>,
    timeouts: TurnTimeouts,
    client_tools: ClientToolToggles,
    session_end_requested: bool,
    listen_for_more_requested: bool,
    last_activity: Instant,
}

impl<T> View for Pipeline<T> {
    type V = PipelineView<T>;

    closed spec fn view(&self) -> PipelineView<T> {
        PipelineView {
            state: self.state,
            phase: phase_view(self.phase),
            endpointer: self.endpointer@,
            recent: self.prebuffer.recent(),
            recent_size: self.prebuffer.size(),
            cue: self.listening_cue,
            cue_count: self.cue_phrase_counter,
            tunables: self.tunables@,
            conversation_id: text_view(self.conversation_id),
            target: text_view(self.ptt_conversation_override),
            title: self.conversation_title@,
            hint: self.spoken_response_hint@,
            speech_threshold: self.speech_threshold,
            conversation_mode: self.conversation_mode,
            reuse_window: self.conversation_reuse_window,
            last_own_activity: self.last_own_activity,
            followup_timeout: self.followup_timeout,
            idle_exit_timeout: self.idle_exit_timeout,
            timeouts: self.timeouts,
            tools: self.client_tools,
            end_requested: self.session_end_requested,
            more_requested: self.listen_for_more_requested,
            last_activity: self.last_activity,
        }
    }
}

fn no_actions<T>() -> (v: Vec<Action<Vec<T>, String>>)
    ensures
        action_views(v@) == Seq::<Action<Seq<T>, Seq<char>>>::empty(),
{
    let v: Vec<Action<Vec<T>, String>> = Vec::new();
    proof {
        assert(action_views(v@) =~= Seq::<Action<Seq<T>, Seq<char>>>::empty());
    }
    v
}

fn push_action<T>(out: &mut Vec<Action<Vec<T>, String>>, a: Action<Vec<T>, String>)
    ensures
        action_views(final(out)@) == action_views(old(out)@).push(action_view(a)),
{
    let ghost before = out@;
    out.push(a);
    proof {
        assert(action_views(out@) =~= action_views(before).push(action_view(a)));
    }
}

fn append_actions<T>(out: &mut Vec<Action<Vec<T>, String>>, tail: Vec<Action<Vec<T>, String>>)
    ensures
        action_views(final(out)@) == action_views(old(out)@) + action_views(tail@),
{
    let ghost before = out@;
    let ghost more = tail@;
    let mut tail = tail;
    out.append(&mut tail);
    proof {
        assert(action_views(out@) =~= action_views(before) + action_views(more));
    }
}

fn copy_samples<T: Copy>(samples: &[T]) -> (out: Vec<T>)
    ensures
        out@ == samples@,
{
    let mut out: Vec<T> = Vec::new();
    append_samples(&mut out, samples);
    proof {
        assert(Seq::<T>::empty() + samples@ =~= samples@);
    }
    out
}

fn millis_or(ms: Option<u64>, otherwise: Duration) -> (d: Duration)
    ensures
        d == (match ms {
            Some(ms) => millis(ms),
            None => otherwise,
        }),
{
    match ms {
        Some(ms) => Duration::from_millis(ms),
        None => otherwise,
    }
}

fn idle_exit_or(ms: Option<u64>, otherwise: Option<Duration>) -> (d: Option<Duration>)
    ensures
        d == idle_exit_after(ms, otherwise),
{
    match ms {
        Some(ms) => if ms > 0 {
            Some(Duration::from_millis(ms))
        } else {
            None
        },
        None => otherwise,
    }
}

fn bounds_after(t: TurnTimeouts, plan: &ReloadPlan) -> (r: TurnTimeouts)
    ensures
        r == rebounded(t, plan@),
{
    TurnTimeouts {
        response_stall: millis_or(plan.set_response_stall_ms, t.response_stall),
        turn_budget: millis_or(plan.set_turn_budget_ms, t.turn_budget),
        synth: t.synth,
        connect: t.connect,
        status_narration_min_gap: millis_or(
            plan.set_status_narration_min_gap_ms,
            t.status_narration_min_gap,
        ),
        liveness_delay: t.liveness_delay,
    }
}

fn retune<T: Copy>(e: &mut Endpointer<T>, plan: &ReloadPlan)
    ensures
        final(e)@ == retuned(old(e)@, plan@),
{
    if let Some(t) = plan.set_speech_threshold {
        e.set_speech_threshold(t);
    }
    if let Some(ms) = plan.set_silence_ms {
        e.set_silence(Duration::from_millis(ms));
    }
}

fn plan_actions<T>(plan: &ReloadPlan) -> (out: Vec<Action<Vec<T>, String>>)
    ensures
        action_views(out@) == (match plan@.rebuild_wake_sensitivity {
            Some(s) => seq![Action::RebuildWake(s)],
            None => Seq::<Action<Seq<T>, Seq<char>>>::empty(),
        }) + (match plan@.restart_required_for_device {
            Some(c) => seq![Action::NoteDeviceChange(c)],
            None => Seq::empty(),
        }),
{
    let mut out = no_actions();
    let ghost mut sofar = Seq::<Action<Seq<T>, Seq<char>>>::empty();
    if let Some(sensitivity) = plan.rebuild_wake_sensitivity {
        push_action(&mut out, Action::RebuildWake(sensitivity));
        proof {
            sofar = seq![Action::RebuildWake(sensitivity)];
            assert(action_views(out@) =~= sofar);
        }
    }
    if let Some(change) = &plan.restart_required_for_device {
        push_action(&mut out, Action::NoteDeviceChange(copy_of(change.as_str())));
        proof {
            assert(action_views(out@) =~= sofar + seq![Action::NoteDeviceChange(change@)]);
        }
    } else {
        proof {
            assert(action_views(out@) =~= sofar + Seq::empty());
        }
    }
    out
}

impl<T: Copy> Pipeline<T> {
    pub fn new(config: PipelineConfig, now: Instant) -> (p: Pipeline<T>)
        ensures
            p@ == (PipelineView {
                state: State::Idle,
                phase: Phase::Ready,
                endpointer: EndpointerView {
                    threshold: config.speech_threshold,
                    silence: config.silence_duration,
                    min_samples: ENDPOINT_MIN_SAMPLES as nat,
                    buffer: Seq::<T>::empty(),
                    last_speech_at: None,
                    deadline: None,
                },
                recent: Seq::<T>::empty(),
                recent_size: WAKE_PREBUFFER_SAMPLES as nat,
                cue: config.listening_cue,
                cue_count: 0,
                tunables: config.tunables@,
                conversation_id: None,
                target: None,
                title: config.conversation_title@,
                hint: config.spoken_response_hint@,
                speech_threshold: config.speech_threshold,
                conversation_mode: config.conversation_mode,
                reuse_window: config.conversation_reuse_window,
                last_own_activity: None,
                followup_timeout: config.followup_timeout,
                idle_exit_timeout: config.idle_exit_timeout,
                timeouts: config.timeouts,
                tools: config.client_tools,
                end_requested: false,
                more_requested: false,
                last_activity: now,
            }),
            p@.endpointer.min_samples == 800,
            p@.recent_size == 4_800,
    {
        Pipeline {
            state: State::Idle,
            phase: Phase::Ready,
            endpointer: Endpointer::new(
                config.speech_threshold,
                config.silence_duration,
                ENDPOINT_MIN_SAMPLES,
            ),
            prebuffer: PreBuffer::new(WAKE_PREBUFFER_SAMPLES),
            listening_cue: config.listening_cue,
            cue_phrase_counter: 0,
            tunables: config.tunables,
            conversation_id: None,
            ptt_conversation_override: None,
            conversation_title: config.conversation_title,
            spoken_response_hint: config.spoken_response_hint,
            speech_threshold: config.speech_threshold,
            conversation_mode: config.conversation_mode,
            conversation_reuse_window: config.conversation_reuse_window,
            last_own_activity: None,
            followup_timeout: config.followup_timeout,
            idle_exit_timeout: config.idle_exit_timeout,
            timeouts: config.timeouts,
            client_tools: config.client_tools,
            session_end_requested: false,
            listen_for_more_requested: false,
            last_activity: now,
        }
    }

    /// The state that the pipeline is in.
    pub fn state(&self) -> (s: State)
        ensures
            s == self@.state,
    {
        self.state
    }

    /// The bounds that turns keep to at present.
    pub fn timeouts(&self) -> (t: TurnTimeouts)
        ensures
            t == self@.timeouts,
    {
        self.timeouts
    }

    /// The level from which on the user counts as speaking over the response.
    pub fn speech_threshold(&self) -> (t: i32)
        ensures
            t == self@.speech_threshold,
    {
        self.speech_threshold
    }

    /// How long to wait for speech to begin.
    pub fn followup_timeout(&self) -> (d: Duration)
        ensures
            d == self@.followup_timeout,
    {
        self.followup_timeout
    }

    /// Whether to listen again behind every response.
    pub fn conversation_mode(&self) -> (b: bool)
        ensures
            b == self@.conversation_mode,
    {
        self.conversation_mode
    }

    /// How long to run idle and disabled before ending, if not for ever.
    pub fn idle_exit_timeout(&self) -> (d: Option<Duration>)
        ensures
            d == self@.idle_exit_timeout,
    {
        self.idle_exit_timeout
    }

    /// The daemon's own conversation, if one is open.
    pub fn conversation_id(&self) -> (id: Option<&str>)
        ensures
            id is Some <==> self@.conversation_id is Some,
            id is Some ==> id->0@ == self@.conversation_id->0,
    {
        match &self.conversation_id {
            Some(id) => Some(id.as_str()),
            None => None,
        }
    }

    /// Whether to look for speech over the response: something plays, and it is
    /// the response.
    pub fn wants_barge_in(&self, playing: bool) -> (b: bool)
        ensures
            b == (playing && self@.state is Speaking),
    {
        playing && self.state == State::Speaking
    }

    /// Applies an event. Nothing changes where it is illegal.
    fn apply(&mut self, event: StateEvent, out: &mut Vec<Action<Vec<T>, String>>) -> (legal: bool)
        ensures
            legal == (next_state(old(self)@.state, event) is Some),
            final(self)@ == old(self)@.applied(event),
            action_views(final(out)@) == action_views(old(out)@) + old(self)@.published(event),
    {
        let ghost before = action_views(out@);
        match self.state.transition(&event) {
            Some(next) => {
                if next != self.state {
                    self.state = next;
                    push_action(out, Action::Publish(next));
                    proof {
                        assert(action_views(out@) =~= before + seq![Action::Publish(next)]);
                    }
                } else {
                    proof {
                        assert(action_views(out@) =~= before + Seq::empty());
                    }
                }
                true
            },
            None => {
                proof {
                    assert(action_views(out@) =~= before + Seq::empty());
                }
                false
            },
        }
    }

    /// Notes, while a turn streams, that the response has begun.
    pub fn begin_response(&mut self) -> (out: Vec<Action<Vec<T>, String>>)
        ensures
            final(self)@ == old(self)@.applied(StateEvent::ResponseStarted),
            action_views(out@) == old(self)@.published(StateEvent::ResponseStarted),
    {
        let ghost before = self@;
        let mut out = no_actions();
        self.apply(StateEvent::ResponseStarted, &mut out);
        proof {
            assert(action_views(out@) =~= before.published(StateEvent::ResponseStarted));
        }
        out
    }

    /// Takes in what a tool call asks of the session. A line to be spoken at
    /// once begins the response.
    pub fn tool_requested(&mut self, call: &ToolCall<String>) -> (out: Vec<Action<Vec<T>, String>>)
        ensures
            match *call {
                ToolCall::StopListening => final(self)@ == (PipelineView {
                    end_requested: true,
                    ..old(self)@
                }) && out@.len() == 0,
                ToolCall::ListenForMore => final(self)@ == (PipelineView {
                    more_requested: true,
                    ..old(self)@
                }) && out@.len() == 0,
                ToolCall::SayThis(_) => final(self)@ == old(self)@.applied(
                    StateEvent::ResponseStarted,
                ) && action_views(out@) == old(self)@.published(StateEvent::ResponseStarted),
                ToolCall::Refused(_) => final(self)@ == old(self)@ && out@.len() == 0,
            },
    {
        match call {
            ToolCall::StopListening => {
                self.session_end_requested = true;
                Vec::new()
            },
            ToolCall::ListenForMore => {
                self.listen_for_more_requested = true;
                Vec::new()
            },
            ToolCall::SayThis(_) => self.begin_response(),
            ToolCall::Refused(_) => Vec::new(),
        }
    }

    /// Forgets the own conversation at a fresh start of listening, unless it is
    /// taken up again.
    pub fn expire_stale_conversation_on_wake(&mut self, now: Instant)
        ensures
            final(self)@ == old(self)@.refreshed(now),
    {
        if self.conversation_reuse_window.is_zero() {
            self.conversation_id = None;
            self.last_own_activity = None;
            return;
        }
        if self.conversation_id.is_some() {
            let fresh = match self.last_own_activity {
                Some(last) => now.duration_since(last).nanos
                    <= self.conversation_reuse_window.nanos,
                None => false,
            };
            if !fresh {
                self.conversation_id = None;
                self.last_own_activity = None;
            }
        }
    }

    fn end_conversation(&mut self)
        ensures
            final(self)@ == old(self)@.ended(),
    {
        self.conversation_id = None;
        self.last_own_activity = None;
        self.ptt_conversation_override = None;
        self.endpointer.reset();
    }

    /// Takes over a plan's new values. What cannot be taken over here (the wake
    /// word detector, a device) comes back as actions.
    pub fn apply_plan(&mut self, plan: &ReloadPlan) -> (out: Vec<Action<Vec<T>, String>>)
        ensures
            final(self)@ == old(self)@.planned(plan@),
            action_views(out@) == (match plan@.rebuild_wake_sensitivity {
                Some(s) => seq![Action::RebuildWake(s)],
                None => Seq::<Action<Seq<T>, Seq<char>>>::empty(),
            }) + (match plan@.restart_required_for_device {
                Some(c) => seq![Action::NoteDeviceChange(c)],
                None => Seq::empty(),
            }),
    {
        self.take_over(plan);
        plan_actions(plan)
    }

    fn take_over(&mut self, plan: &ReloadPlan)
        ensures
            final(self)@ == old(self)@.planned(plan@),
    {
        proof {
            reveal(PipelineView::planned);
        }
        let ghost before = self@;
        self.speech_threshold = match plan.set_speech_threshold {
            Some(t) => t,
            None => self.speech_threshold,
        };
        retune(&mut self.endpointer, plan);
        self.followup_timeout = millis_or(plan.set_followup_timeout_ms, self.followup_timeout);
        self.conversation_reuse_window = millis_or(
            plan.set_conversation_reuse_window_ms,
            self.conversation_reuse_window,
        );
        self.conversation_mode = match plan.set_conversation_mode {
            Some(mode) => mode,
            None => self.conversation_mode,
        };
        self.idle_exit_timeout = idle_exit_or(
            plan.set_idle_exit_timeout_ms,
            self.idle_exit_timeout,
        );
        self.timeouts = bounds_after(self.timeouts, plan);
        proof {
            assert(self@ =~= before.planned(plan@));
        }
    }

    /// Takes over changed settings.
    pub fn reload(&mut self, new: Tunables) -> (out: Vec<Action<Vec<T>, String>>)
        ensures
            final(self)@ == old(self)@.reloaded(new@),
            action_views(out@) == old(self)@.reload_actions(new@),
    {
        proof {
            reveal(PipelineView::reloaded);
            reveal(PipelineView::reload_actions);
        }
        let plan = plan_reload(&self.tunables, &new);
        let out = self.apply_plan(&plan);
        self.tunables = new;
        out
    }

    // -----------------------------------------------------------------------
    // What each input does
    // -----------------------------------------------------------------------

    fn on_wake(&mut self, now: Instant) -> (out: Vec<Action<Vec<T>, String>>)
        ensures
            final(self)@ == old(self)@.on_wake(now).to,
            action_views(out@) == old(self)@.on_wake(now).actions,
    {
        proof {
            reveal(PipelineView::on_wake);
        }
        let ghost before = self@;
        let mut out = no_actions();
        self.apply(StateEvent::WakeWordDetected, &mut out);
        self.ptt_conversation_override = None;
        self.expire_stale_conversation_on_wake(now);
        let preroll = self.prebuffer.take();
        self.endpointer.arm_with_preroll_at(Some(self.followup_timeout), &preroll, now);
        push_action(&mut out, Action::ResetVad);
        let (cue, count) = next_cue(self.listening_cue, self.cue_phrase_counter);
        self.cue_phrase_counter = count;
        match cue {
            Some(CueSound::Ding) => {
                push_action(&mut out, Action::PlayCue(CueSound::Ding));
                self.phase = Phase::WakeCue { settle: false };
            },
            Some(CueSound::Phrase(text)) => {
                push_action(&mut out, Action::PlayCue(CueSound::Phrase(copy_of(text))));
                self.phase = Phase::WakeCue { settle: true };
            },
            None => {
                self.phase = Phase::Running;
            },
        }
        proof {
            let m = before.on_wake(now);
            assert(self@ =~= m.to);
            assert(action_views(out@) =~= m.actions);
        }
        out
    }

    fn on_ptt(&mut self, target: Option<String>, playing: bool) -> (out: Vec<Action<Vec<T>, String>>)
        ensures
            final(self)@ == old(self)@.on_ptt(text_view(target), playing).to,
            action_views(out@) == old(self)@.on_ptt(text_view(target), playing).actions,
    {
        proof {
            reveal(PipelineView::on_ptt);
        }
        let ghost m = self@.on_ptt(text_view(target), playing);
        self.phase = Phase::EnteringPtt { target };
        let mut out = no_actions();
        if playing {
            push_action(&mut out, Action::StopPlayback);
        }
        push_action(&mut out, Action::DrainEcho);
        proof {
            assert(self@ =~= m.to);
            assert(action_views(out@) =~= m.actions);
        }
        out
    }

    fn enter_ptt_listening(&mut self, target: Option<String>, now: Instant) -> (out: Vec<
        Action<Vec<T>, String>,
    >)
        ensures
            final(self)@ == old(self)@.on_ptt_ready(text_view(target), now).to,
            action_views(out@) == old(self)@.on_ptt_ready(text_view(target), now).actions,
    {
        proof {
            reveal(PipelineView::on_ptt_ready);
        }
        let ghost m = self@.on_ptt_ready(text_view(target), now);
        let own = target.is_none();
        self.ptt_conversation_override = target;
        if own {
            self.expire_stale_conversation_on_wake(now);
        }
        let mut out = no_actions();
        self.apply(StateEvent::PttPressed, &mut out);
        self.endpointer.arm_at(Some(self.followup_timeout), now);
        push_action(&mut out, Action::ResetVad);
        self.phase = Phase::Running;
        proof {
            assert(self@ =~= m.to);
            assert(action_views(out@) =~= m.actions);
        }
        out
    }

    fn on_stop(&mut self, request: StopRequest) -> (out: Vec<Action<Vec<T>, String>>)
        ensures
            final(self)@ == old(self)@.on_stop(request).to,
            action_views(out@) == old(self)@.on_stop(request).actions,
    {
        proof {
            reveal(PipelineView::on_stop);
        }
        let ghost m = self@.on_stop(request);
        let mut out = no_actions();
        match request {
            StopRequest::Speaking => {
                if self.state == State::Speaking {
                    push_action(&mut out, Action::HaltPlayback);
                    self.apply(StateEvent::Stopped, &mut out);
                }
            },
            StopRequest::Conversation => {
                if self.state != State::Idle {
                    push_action(&mut out, Action::StopPlayback);
                    self.apply(StateEvent::Stopped, &mut out);
                }
                self.end_conversation();
            },
        }
        proof {
            assert(self@ =~= m.to);
            assert(action_views(out@) =~= m.actions);
        }
        out
    }

    fn on_capture_lost(&mut self) -> (out: Vec<Action<Vec<T>, String>>)
        ensures
            final(self)@ == old(self)@.on_capture_lost().to,
            action_views(out@) == old(self)@.on_capture_lost().actions,
    {
        proof {
            reveal(PipelineView::on_capture_lost);
        }
        let ghost m = self@.on_capture_lost();
        let mut out = no_actions();
        push_action(&mut out, Action::StopPlayback);
        self.apply(StateEvent::Stopped, &mut out);
        self.endpointer.reset();
        push_action(&mut out, Action::StopSource);
        push_action(&mut out, Action::StartSource);
        self.phase = Phase::Starting { first: false };
        proof {
            assert(self@ =~= m.to);
            assert(action_views(out@) =~= m.actions);
        }
        out
    }

    fn on_audio(
        &mut self,
        chunk: Vec<T>,
        playing: bool,
        in_tail_pad: bool,
        enabled: bool,
        now: Instant,
    ) -> (out: Vec<Action<Vec<T>, String>>)
        ensures
            final(self)@ == old(self)@.on_audio(chunk@, playing, in_tail_pad, enabled, now).to,
            action_views(out@) == old(self)@.on_audio(
                chunk@,
                playing,
                in_tail_pad,
                enabled,
                now,
            ).actions,
    {
        proof {
            reveal(PipelineView::on_audio);
        }
        let ghost m = self@.on_audio(chunk@, playing, in_tail_pad, enabled, now);
        let mut out = no_actions();
        if self.state == State::Idle && !enabled {
            let idle_for_long = match self.idle_exit_timeout {
                Some(timeout) => now.duration_since(self.last_activity).nanos >= timeout.nanos,
                None => false,
            };
            if idle_for_long && !playing {
                self.phase = Phase::Finished;
                push_action(&mut out, Action::StopSource);
                push_action(&mut out, Action::Exit);
            }
            proof {
                assert(self@ =~= m.to);
                assert(action_views(out@) =~= m.actions);
            }
            return out;
        }
        self.last_activity = now;
        match self.state {
            State::Idle => {
                if playing {
                    if in_tail_pad {
                        self.prebuffer.push(&chunk);
                    }
                } else {
                    self.prebuffer.push(&chunk);
                    self.phase = Phase::CheckingWake;
                    push_action(&mut out, Action::DetectWake(chunk));
                }
            },
            State::Listening | State::Speaking => {
                let copy = copy_samples(&chunk);
                self.phase = Phase::Measuring { chunk: copy };
                push_action(&mut out, Action::MeasureSpeech(chunk));
            },
            State::Processing => {},
        }
        proof {
            assert(self@ =~= m.to);
            assert(action_views(out@) =~= m.actions);
        }
        out
    }

    fn on_level(&mut self, chunk: Vec<T>, level: i32, playing: bool, now: Instant) -> (out: Vec<
        Action<Vec<T>, String>,
    >)
        ensures
            final(self)@ == old(self)@.on_level(chunk@, level, playing, now).to,
            action_views(out@) == old(self)@.on_level(chunk@, level, playing, now).actions,
    {
        proof {
            reveal(PipelineView::on_level);
        }
        let ghost m = self@.on_level(chunk@, level, playing, now);
        self.phase = Phase::Running;
        let mut out = no_actions();
        match self.state {
            State::Listening => {
                match self.endpointer.push_at(&chunk, level, now) {
                    Endpoint::SpeechStarted | Endpoint::Accumulating => {},
                    Endpoint::Complete(samples) => {
                        self.apply(StateEvent::SilenceDetected, &mut out);
                        self.session_end_requested = false;
                        self.listen_for_more_requested = false;
                        self.phase = Phase::Transcribing;
                        push_action(&mut out, Action::Transcribe(samples));
                    },
                    Endpoint::Timeout => {
                        self.apply(StateEvent::ListeningTimedOut, &mut out);
                        self.ptt_conversation_override = None;
                        self.endpointer.reset();
                    },
                }
            },
            State::Speaking => {
                if level >= self.speech_threshold {
                    push_action(&mut out, Action::HaltPlayback);
                    self.apply(StateEvent::BargeIn, &mut out);
                    self.endpointer.arm_speaking_at(&chunk, now);
                    push_action(&mut out, Action::ResetVad);
                } else if !playing {
                    self.apply(StateEvent::PlaybackComplete, &mut out);
                }
            },
            _ => {},
        }
        proof {
            assert(self@ =~= m.to);
            assert(action_views(out@) =~= m.actions);
        }
        out
    }

    fn on_transcribed(&mut self, said: Option<String>) -> (out: Vec<Action<Vec<T>, String>>)
        ensures
            final(self)@ == old(self)@.on_transcribed(text_view(said)).to,
            action_views(out@) == old(self)@.on_transcribed(text_view(said)).actions,
    {
        proof {
            reveal(PipelineView::on_transcribed);
        }
        let ghost m = self@.on_transcribed(text_view(said));
        match said {
            None => self.conclude(UtteranceOutcome::Continue),
            Some(prompt) => {
                let mut out = no_actions();
                push_action(&mut out, Action::ShowTranscript(copy_of(prompt.as_str())));
                if is_stop_phrase(prompt.as_str()) {
                    self.apply(StateEvent::ResponseStarted, &mut out);
                    self.phase = Phase::Acknowledging;
                    push_action(&mut out, Action::Acknowledge(copy_of(STOP_ACKNOWLEDGEMENT)));
                } else if let Some(target) = &self.ptt_conversation_override {
                    let conversation_id = copy_of(target.as_str());
                    self.phase = Phase::Subscribing { conversation_id, prompt, own: false };
                    push_action(&mut out, Action::Subscribe);
                } else if let Some(id) = &self.conversation_id {
                    let conversation_id = copy_of(id.as_str());
                    self.phase = Phase::Subscribing { conversation_id, prompt, own: true };
                    push_action(&mut out, Action::Subscribe);
                } else {
                    self.phase = Phase::Creating { prompt };
                    let title = copy_of(self.conversation_title.as_str());
                    push_action(&mut out, Action::CreateConversation(title));
                }
                proof {
                    assert(self@ =~= m.to);
                    assert(action_views(out@) =~= m.actions);
                }
                out
            },
        }
    }

    fn fail(&mut self) -> (out: Vec<Action<Vec<T>, String>>)
        ensures
            final(self)@ == old(self)@.failed().to,
            action_views(out@) == old(self)@.failed().actions,
    {
        proof {
            reveal(PipelineView::failed);
        }
        let ghost m = self@.failed();
        let mut out = no_actions();
        self.apply(StateEvent::ResponseStarted, &mut out);
        self.phase = Phase::Apologizing;
        push_action(&mut out, Action::Apologize(copy_of(ERROR_APOLOGY)));
        proof {
            assert(self@ =~= m.to);
            assert(action_views(out@) =~= m.actions);
        }
        out
    }

    fn conclude(&mut self, outcome: UtteranceOutcome) -> (out: Vec<Action<Vec<T>, String>>)
        ensures
            final(self)@ == old(self)@.concluded(outcome).to,
            action_views(out@) == old(self)@.concluded(outcome).actions,
    {
        proof {
            reveal(PipelineView::concluded);
        }
        let ghost m = self@.concluded(outcome);
        let mut out = no_actions();
        let relisten = match outcome {
            UtteranceOutcome::EndConversation => false,
            UtteranceOutcome::KeepListening => true,
            UtteranceOutcome::Continue => self.conversation_mode,
        };
        if outcome == UtteranceOutcome::EndConversation {
            self.apply(StateEvent::TurnEnded, &mut out);
            self.end_conversation();
            self.phase = Phase::Running;
        } else if relisten {
            self.phase = Phase::RelistenDrain;
            push_action(&mut out, Action::DrainEcho);
        } else {
            self.apply(StateEvent::TurnEnded, &mut out);
            self.ptt_conversation_override = None;
            self.phase = Phase::Running;
        }
        proof {
            assert(self@ =~= m.to);
            assert(action_views(out@) =~= m.actions);
        }
        out
    }

    fn on_turn_over(
        &mut self,
        own: bool,
        end: StreamEnd<Vec<T>, String>,
        playing: bool,
        now: Instant,
    ) -> (out: Vec<Action<Vec<T>, String>>)
        ensures
            final(self)@ == old(self)@.on_turn_over(own, end_view(end), playing, now).to,
            action_views(out@) == old(self)@.on_turn_over(
                own,
                end_view(end),
                playing,
                now,
            ).actions,
    {
        proof {
            reveal(PipelineView::on_turn_over);
        }
        self.phase = Phase::Running;
        if own {
            self.last_own_activity = Some(now);
        }
        match end {
            StreamEnd::Completed => {
                let outcome = if self.session_end_requested {
                    UtteranceOutcome::EndConversation
                } else if self.listen_for_more_requested {
                    UtteranceOutcome::KeepListening
                } else {
                    UtteranceOutcome::Continue
                };
                self.conclude(outcome)
            },
            interrupt => self.handle_interrupt(interrupt, playing, now),
        }
    }

    fn handle_interrupt(
        &mut self,
        end: StreamEnd<Vec<T>, String>,
        playing: bool,
        now: Instant,
    ) -> (out: Vec<Action<Vec<T>, String>>)
        ensures
            final(self)@ == old(self)@.interrupted(end_view(end), playing, now).to,
            action_views(out@) == old(self)@.interrupted(end_view(end), playing, now).actions,
    {
        proof {
            reveal(PipelineView::interrupted);
        }
        let ghost m = self@.interrupted(end_view(end), playing, now);
        let mut out = no_actions();
        match end {
            StreamEnd::Completed => {},
            StreamEnd::BargedIn(chunk) => {
                push_action(&mut out, Action::DrainTurn);
                if self.apply(StateEvent::BargeIn, &mut out) {
                    self.endpointer.arm_speaking_at(&chunk, now);
                    push_action(&mut out, Action::ResetVad);
                }
            },
            StreamEnd::PttPressed(target) => {
                push_action(&mut out, Action::DrainTurn);
                if self.state == State::Processing {
                    self.apply(StateEvent::Stopped, &mut out);
                }
                let rest = self.on_ptt(target, playing);
                append_actions(&mut out, rest);
            },
            StreamEnd::Stopped(StopRequest::Speaking) => {
                push_action(&mut out, Action::DrainTurn);
                self.apply(StateEvent::Stopped, &mut out);
            },
            StreamEnd::Stopped(StopRequest::Conversation) => {
                push_action(&mut out, Action::DrainTurn);
                self.apply(StateEvent::Stopped, &mut out);
                self.end_conversation();
            },
        }
        proof {
            assert(self@ =~= m.to);
            assert(action_views(out@) =~= m.actions);
        }
        out
    }

    fn on_relisten(&mut self) -> (out: Vec<Action<Vec<T>, String>>)
        ensures
            final(self)@ == old(self)@.on_relisten().to,
            action_views(out@) == old(self)@.on_relisten().actions,
    {
        proof {
            reveal(PipelineView::on_relisten);
        }
        let ghost m = self@.on_relisten();
        let mut out = no_actions();
        self.apply(StateEvent::RelistenArmed, &mut out);
        let (cue, count) = next_cue(self.listening_cue, self.cue_phrase_counter);
        self.cue_phrase_counter = count;
        match cue {
            Some(CueSound::Ding) => {
                self.phase = Phase::RelistenCue;
                push_action(&mut out, Action::PlayCue(CueSound::Ding));
            },
            Some(CueSound::Phrase(text)) => {
                self.phase = Phase::RelistenCue;
                push_action(&mut out, Action::PlayCue(CueSound::Phrase(copy_of(text))));
            },
            None => {
                self.phase = Phase::RelistenSettle;
                push_action(&mut out, Action::DrainEcho);
            },
        }
        proof {
            assert(self@ =~= m.to);
            assert(action_views(out@) =~= m.actions);
        }
        out
    }

    /// Goes back to waiting for `phase`: the input was not what it waits for.
    fn stay(&mut self, phase: Phase<Vec<T>, String>) -> (out: Vec<Action<Vec<T>, String>>)
        ensures
            final(self)@ == old(self)@.in_phase(phase_view(phase)),
            action_views(out@) == Seq::<Action<Seq<T>, Seq<char>>>::empty(),
    {
        self.phase = phase;
        no_actions()
    }

    /// Waits for `phase` and calls for `action`.
    fn then_wait(&mut self, phase: Phase<Vec<T>, String>, action: Action<Vec<T>, String>) -> (out:
        Vec<Action<Vec<T>, String>>)
        ensures
            final(self)@ == old(self)@.in_phase(phase_view(phase)),
            action_views(out@) == seq![action_view(action)],
    {
        self.phase = phase;
        let mut out = no_actions();
        let ghost view = action_view(action);
        push_action(&mut out, action);
        proof {
            assert(action_views(out@) =~= seq![view]);
        }
        out
    }

    fn on_capture_started(&mut self, first: bool, now: Instant) -> (out: Vec<Action<Vec<T>, String>>)
        requires
            old(self)@.phase == (Phase::<Seq<T>, Seq<char>>::Starting { first }),
        ensures
            final(self)@ == old(self)@.next(Input::CaptureStarted, now).to,
            action_views(out@) == old(self)@.next(Input::CaptureStarted, now).actions,
    {
        let ghost m = self@.next(Input::CaptureStarted, now);
        self.phase = Phase::Running;
        let mut out = no_actions();
        if first {
            let t = self.client_tools;
            if t.stop_listening || t.listen_for_more || t.say_this {
                push_action(&mut out, Action::RegisterTools(t));
            }
            self.state = State::Idle;
            self.last_activity = now;
            push_action(&mut out, Action::Publish(State::Idle));
        }
        proof {
            assert(self@ =~= m.to);
            assert(action_views(out@) =~= m.actions);
        }
        out
    }

    fn on_degraded(&mut self, first: bool, input: Input<Vec<T>, String, Tunables>, now: Instant) -> (out:
        Vec<Action<Vec<T>, String>>)
        requires
            old(self)@.phase == (Phase::<Seq<T>, Seq<char>>::Degraded { first }),
        ensures
            final(self)@ == old(self)@.next(input_view(input), now).to,
            action_views(out@) == old(self)@.next(input_view(input), now).actions,
    {
        let ghost m = self@.next(input_view(input), now);
        match input {
            Input::Reload(new) => {
                let mut out = self.reload(new);
                push_action(&mut out, Action::StartSource);
                self.phase = Phase::Starting { first };
                proof {
                    assert(self@ =~= m.to);
                    assert(action_views(out@) =~= m.actions);
                }
                out
            },
            Input::ControlsClosed => {
                self.phase = Phase::Finished;
                let mut out = no_actions();
                if !first {
                    push_action(&mut out, Action::StopSource);
                }
                push_action(&mut out, Action::Exit);
                proof {
                    assert(action_views(out@) =~= m.actions);
                }
                out
            },
            _ => no_actions(),
        }
    }

    fn on_running(&mut self, input: Input<Vec<T>, String, Tunables>, now: Instant) -> (out: Vec<
        Action<Vec<T>, String>,
    >)
        requires
            old(self)@.phase is Running,
        ensures
            final(self)@ == old(self)@.next(input_view(input), now).to,
            action_views(out@) == old(self)@.next(input_view(input), now).actions,
    {
        match input {
            Input::Ptt { target, playing } => {
                if self.state == State::Idle || self.state == State::Speaking {
                    self.on_ptt(target, playing)
                } else {
                    no_actions()
                }
            },
            Input::Stop(request) => self.on_stop(request),
            Input::Reload(new) => self.reload(new),
            Input::Audio { chunk, playing, in_tail_pad, enabled } => self.on_audio(
                chunk,
                playing,
                in_tail_pad,
                enabled,
                now,
            ),
            Input::CaptureClosed => self.on_capture_lost(),
            _ => no_actions(),
        }
    }

    #[verifier::spinoff_prover]
    #[verifier::rlimit(40)]
    fn step_listening(
        &mut self,
        phase: Phase<Vec<T>, String>,
        input: Input<Vec<T>, String, Tunables>,
        now: Instant,
    ) -> (out: Vec<Action<Vec<T>, String>>)
        requires
            old(self)@.phase is Running,
            phase is CheckingWake || phase is Measuring || phase is EnteringPtt || phase is WakeCue
                || phase is WakeSettle,
        ensures
            final(self)@ == old(self)@.in_phase(phase_view(phase)).next_listening(
                input_view(input),
                now,
            ).to,
            action_views(out@) == old(self)@.in_phase(phase_view(phase)).next_listening(
                input_view(input),
                now,
            ).actions,
    {
        proof {
            reveal(PipelineView::next_listening);
            assert(self@.in_phase(phase_view(phase)).in_phase(Phase::Running) =~= self@);
        }
        match phase {
            Phase::CheckingWake => match input {
                Input::WakeChecked(fired) => {
                    if fired && self.state == State::Idle {
                        self.on_wake(now)
                    } else {
                        no_actions()
                    }
                },
                _ => self.stay(Phase::CheckingWake),
            },
            Phase::Measuring { chunk } => match input {
                Input::SpeechLevel { level, playing } => self.on_level(chunk, level, playing, now),
                _ => self.stay(Phase::Measuring { chunk }),
            },
            Phase::EnteringPtt { target } => match input {
                Input::EchoDrained => self.enter_ptt_listening(target, now),
                _ => self.stay(Phase::EnteringPtt { target }),
            },
            Phase::WakeCue { settle } => match input {
                Input::CuePlayed => {
                    if settle {
                        self.then_wait(Phase::WakeSettle, Action::DrainEcho)
                    } else {
                        no_actions()
                    }
                },
                _ => self.stay(Phase::WakeCue { settle }),
            },
            Phase::WakeSettle => match input {
                Input::EchoDrained => no_actions(),
                _ => self.stay(Phase::WakeSettle),
            },
            other => self.stay(other),
        }
    }

    fn on_created(&mut self, id: String, prompt: String) -> (out: Vec<Action<Vec<T>, String>>)
        ensures
            final(self)@ == (PipelineView { conversation_id: Some(id@), ..old(self)@ }).in_phase(
                Phase::Subscribing { conversation_id: id@, prompt: prompt@, own: true },
            ),
            action_views(out@) == seq![Action::<Seq<T>, Seq<char>>::Subscribe],
    {
        self.conversation_id = Some(copy_of(id.as_str()));
        self.then_wait(
            Phase::Subscribing { conversation_id: id, prompt, own: true },
            Action::Subscribe,
        )
    }

    fn on_subscribed(&mut self, conversation_id: String, prompt: String, own: bool) -> (out: Vec<
        Action<Vec<T>, String>,
    >)
        ensures
            final(self)@ == old(self)@.in_phase(Phase::Sending { own }),
            action_views(out@) == seq![
                Action::<Seq<T>, Seq<char>>::SendPrompt {
                    conversation_id: conversation_id@,
                    prompt: prompt@,
                    hint: old(self)@.hint,
                },
            ],
    {
        let hint = copy_of(self.spoken_response_hint.as_str());
        self.then_wait(
            Phase::Sending { own },
            Action::SendPrompt { conversation_id, prompt, hint },
        )
    }

    #[verifier::spinoff_prover]
    #[verifier::rlimit(40)]
    fn step_asking(&mut self, phase: Phase<Vec<T>, String>, input: Input<Vec<T>, String, Tunables>) -> (out:
        Vec<Action<Vec<T>, String>>)
        requires
            old(self)@.phase is Running,
            phase is Transcribing || phase is Acknowledging || phase is Creating
                || phase is Subscribing || phase is Sending,
        ensures
            final(self)@ == old(self)@.in_phase(phase_view(phase)).next_asking(
                input_view(input),
            ).to,
            action_views(out@) == old(self)@.in_phase(phase_view(phase)).next_asking(
                input_view(input),
            ).actions,
    {
        proof {
            reveal(PipelineView::next_asking);
            assert(self@.in_phase(phase_view(phase)).in_phase(Phase::Running) =~= self@);
        }
        match phase {
            Phase::Transcribing => match input {
                Input::Transcribed(said) => self.on_transcribed(said),
                Input::TurnFailed => self.fail(),
                _ => self.stay(Phase::Transcribing),
            },
            Phase::Acknowledging => match input {
                Input::Acknowledged => self.conclude(UtteranceOutcome::EndConversation),
                Input::TurnFailed => self.fail(),
                _ => self.stay(Phase::Acknowledging),
            },
            Phase::Creating { prompt } => match input {
                Input::Created(id) => self.on_created(id, prompt),
                Input::TurnFailed => self.fail(),
                _ => self.stay(Phase::Creating { prompt }),
            },
            Phase::Subscribing { conversation_id, prompt, own } => match input {
                Input::Subscribed => self.on_subscribed(conversation_id, prompt, own),
                Input::TurnFailed => self.fail(),
                _ => self.stay(Phase::Subscribing { conversation_id, prompt, own }),
            },
            Phase::Sending { own } => match input {
                Input::Sent => self.then_wait(Phase::Streaming { own }, Action::StreamTurn),
                Input::TurnFailed => self.fail(),
                _ => self.stay(Phase::Sending { own }),
            },
            other => self.stay(other),
        }
    }

    #[verifier::spinoff_prover]
    #[verifier::rlimit(40)]
    fn step_answering(
        &mut self,
        phase: Phase<Vec<T>, String>,
        input: Input<Vec<T>, String, Tunables>,
        now: Instant,
    ) -> (out: Vec<Action<Vec<T>, String>>)
        requires
            old(self)@.phase is Running,
            phase is Streaming || phase is Apologizing || phase is RelistenDrain
                || phase is RelistenCue || phase is RelistenSettle,
        ensures
            final(self)@ == old(self)@.in_phase(phase_view(phase)).next_answering(
                input_view(input),
                now,
            ).to,
            action_views(out@) == old(self)@.in_phase(phase_view(phase)).next_answering(
                input_view(input),
                now,
            ).actions,
    {
        proof {
            reveal(PipelineView::next_answering);
            assert(self@.in_phase(phase_view(phase)).in_phase(Phase::Running) =~= self@);
        }
        match phase {
            Phase::Streaming { own } => match input {
                Input::TurnOver { end, playing } => self.on_turn_over(own, end, playing, now),
                Input::TurnFailed => self.fail(),
                Input::Reload(new) => {
                    let out = self.reload(new);
                    self.phase = Phase::Streaming { own };
                    out
                },
                _ => self.stay(Phase::Streaming { own }),
            },
            Phase::Apologizing => match input {
                Input::Apologized => self.conclude(UtteranceOutcome::EndConversation),
                _ => self.stay(Phase::Apologizing),
            },
            Phase::RelistenDrain => match input {
                Input::EchoDrained => self.on_relisten(),
                _ => self.stay(Phase::RelistenDrain),
            },
            Phase::RelistenCue => match input {
                Input::CuePlayed => self.then_wait(Phase::RelistenSettle, Action::DrainEcho),
                _ => self.stay(Phase::RelistenCue),
            },
            Phase::RelistenSettle => match input {
                Input::EchoDrained => {
                    self.endpointer.arm_at(Some(self.followup_timeout), now);
                    self.then_wait(Phase::Running, Action::ResetVad)
                },
                _ => self.stay(Phase::RelistenSettle),
            },
            other => self.stay(other),
        }
    }

    /// Takes in what happened at `now`, and says what is to be done.
    #[verifier::spinoff_prover]
    #[verifier::rlimit(40)]
    pub fn step(&mut self, input: Input<Vec<T>, String, Tunables>, now: Instant) -> (out: Vec<
        Action<Vec<T>, String>,
    >)
        ensures
            final(self)@ == old(self)@.next(input_view(input), now).to,
            action_views(out@) == old(self)@.next(input_view(input), now).actions,
    {
        let ghost before = self@;
        let mut phase: Phase<Vec<T>, String> = Phase::Running;
        std::mem::swap(&mut phase, &mut self.phase);
        proof {
            assert(self@ =~= before.in_phase(Phase::Running));
            assert(self@.in_phase(phase_view(phase)) =~= before);
        }
        match phase {
            Phase::Running => self.on_running(input, now),
            Phase::Ready => match input {
                Input::Launch => self.then_wait(
                    Phase::Starting { first: true },
                    Action::StartSource,
                ),
                _ => self.stay(Phase::Ready),
            },
            Phase::Starting { first } => {
                self.phase = Phase::Starting { first };
                match input {
                    Input::CaptureStarted => self.on_capture_started(first, now),
                    Input::CaptureFailed => self.stay(Phase::Degraded { first }),
                    _ => no_actions(),
                }
            },
            Phase::Degraded { first } => {
                self.phase = Phase::Degraded { first };
                self.on_degraded(first, input, now)
            },
            Phase::Finished => self.stay(Phase::Finished),
            Phase::CheckingWake => self.step_listening(Phase::CheckingWake, input, now),
            Phase::Measuring { chunk } => self.step_listening(
                Phase::Measuring { chunk },
                input,
                now,
            ),
            Phase::EnteringPtt { target } => self.step_listening(
                Phase::EnteringPtt { target },
                input,
                now,
            ),
            Phase::WakeCue { settle } => self.step_listening(Phase::WakeCue { settle }, input, now),
            Phase::WakeSettle => self.step_listening(Phase::WakeSettle, input, now),
            Phase::Transcribing => self.step_asking(Phase::Transcribing, input),
            Phase::Acknowledging => self.step_asking(Phase::Acknowledging, input),
            Phase::Creating { prompt } => self.step_asking(Phase::Creating { prompt }, input),
            Phase::Subscribing { conversation_id, prompt, own } => self.step_asking(
                Phase::Subscribing { conversation_id, prompt, own },
                input,
            ),
            Phase::Sending { own } => self.step_asking(Phase::Sending { own }, input),
            answering => self.step_answering(answering, input, now),
        }
    }
}

/// The endpointer with a plan's new values.
pub open spec fn retuned<T>(e: EndpointerView<T>, plan: ReloadPlanView) -> EndpointerView<T> {
    EndpointerView {
        threshold: match plan.set_speech_threshold {
            Some(t) => t,
            None => e.threshold,
        },
        silence: match plan.set_silence_ms {
            Some(ms) => millis(ms),
            None => e.silence,
        },
        ..e
    }
}

/// The bounds of a turn with a plan's new values.
pub open spec fn rebounded(t: TurnTimeouts, plan: ReloadPlanView) -> TurnTimeouts {
    TurnTimeouts {
        response_stall: match plan.set_response_stall_ms {
            Some(ms) => millis(ms),
            None => t.response_stall,
        },
        turn_budget: match plan.set_turn_budget_ms {
            Some(ms) => millis(ms),
            None => t.turn_budget,
        },
        status_narration_min_gap: match plan.set_status_narration_min_gap_ms {
            Some(ms) => millis(ms),
            None => t.status_narration_min_gap,
        },
        ..t
    }
}

/// After how long without use to exit, with a new value where there is one;
/// zero is never.
pub open spec fn idle_exit_after(ms: Option<u64>, otherwise: Option<Duration>) -> Option<Duration> {
    match ms {
        Some(ms) => if ms > 0 {
            Some(millis(ms))
        } else {
            None
        },
        None => otherwise,
    }
}

/// A length of time in milliseconds.
pub open spec fn millis(ms: u64) -> Duration {
    Duration { nanos: (ms * 1_000_000) as u128 }
}

/// The count of spoken cues behind one more cue.
pub open spec fn cue_count_after(mode: ListeningCue, n: u64) -> u64 {
    if mode is Phrase {
        n.wrapping_add(1)
    } else {
        n
    }
}

/// Whether any tool is offered.
pub open spec fn offers_any(t: ClientToolToggles) -> bool {
    t.stop_listening || t.listen_for_more || t.say_this
}

} // verus!
