//! What the voice pipeline does, step by step, and what comes of several steps.

use vstd::prelude::*;

use crate::config::{quoted, ListeningCue, TunablesView, TurnTimeouts};
use crate::cue::{phrase_text, CueSound};
use crate::endpointer::EndpointerView;
use crate::phrases::asks_to_stop;
use crate::pipeline::{Action, Input, Move, Phase, PipelineView};
use crate::state::{State, StateEvent};
use crate::time::{Duration, Instant};
use crate::turn::{StopRequest, StreamEnd};

verus! {

/// Whether a step leads to `to` and has nothing done.
pub open spec fn quietly<T>(m: Move<T>, to: PipelineView<T>) -> bool {
    m.to == to && m.actions == Seq::<Action<Seq<T>, Seq<char>>>::empty()
}

// ---------------------------------------------------------------------------
// Starting up
// ---------------------------------------------------------------------------

/// At the launch the microphone is opened. Once it is open for the first time,
/// the tools are offered, if there are any, and everyone is told that the
/// pipeline is idle; later it just goes on. Where it cannot be opened the
/// pipeline waits for another try, and ends once nobody can ask for one.
pub proof fn law_starting_up<T>(p: PipelineView<T>, first: bool, now: Instant)
    ensures
        p.phase is Ready ==> {
            let m = p.next(Input::Launch, now);
            &&& m.to == (PipelineView { phase: Phase::Starting { first: true }, ..p })
            &&& m.actions == seq![Action::<Seq<T>, Seq<char>>::StartSource]
        },
        p.phase == (Phase::<Seq<T>, Seq<char>>::Starting { first: true }) ==> {
            let m = p.next(Input::CaptureStarted, now);
            &&& m.to == (PipelineView {
                state: State::Idle,
                phase: Phase::Running,
                last_activity: now,
                ..p
            })
            &&& p.tools.stop_listening || p.tools.listen_for_more || p.tools.say_this ==> m.actions
                == seq![
                Action::<Seq<T>, Seq<char>>::RegisterTools(p.tools),
                Action::Publish(State::Idle),
            ]
            &&& !(p.tools.stop_listening || p.tools.listen_for_more || p.tools.say_this)
                ==> m.actions == seq![Action::<Seq<T>, Seq<char>>::Publish(State::Idle)]
        },
        p.phase == (Phase::<Seq<T>, Seq<char>>::Starting { first: false }) ==> quietly(
            p.next(Input::CaptureStarted, now),
            PipelineView { phase: Phase::Running, ..p },
        ),
        p.phase == (Phase::<Seq<T>, Seq<char>>::Starting { first }) ==> quietly(
            p.next(Input::CaptureFailed, now),
            PipelineView { phase: Phase::Degraded { first }, ..p },
        ),
        p.phase == (Phase::<Seq<T>, Seq<char>>::Degraded { first }) ==> {
            let m = p.next(Input::ControlsClosed, now);
            &&& m.to == (PipelineView { phase: Phase::Finished, ..p })
            &&& first ==> m.actions == seq![Action::<Seq<T>, Seq<char>>::Exit]
            &&& !first ==> m.actions == seq![
                Action::<Seq<T>, Seq<char>>::StopSource,
                Action::Exit,
            ]
        },
{
    if p.phase == (Phase::<Seq<T>, Seq<char>>::Starting { first: true }) {
        let m = p.next(Input::CaptureStarted, now);
        if p.tools.stop_listening || p.tools.listen_for_more || p.tools.say_this {
            assert(m.actions =~= seq![
                Action::<Seq<T>, Seq<char>>::RegisterTools(p.tools),
                Action::Publish(State::Idle),
            ]);
        } else {
            assert(m.actions =~= seq![Action::<Seq<T>, Seq<char>>::Publish(State::Idle)]);
        }
    }
}

/// A microphone that is lost is closed and opened anew, and meanwhile nothing is
/// played, nothing is captured, and the pipeline is idle.
pub proof fn law_losing_the_microphone<T>(p: PipelineView<T>, now: Instant)
    requires
        p.phase is Running,
    ensures
        ({
            let m = p.next(Input::CaptureClosed, now);
            &&& m.to == (PipelineView {
                state: State::Idle,
                phase: Phase::Starting { first: false },
                endpointer: EndpointerView {
                    buffer: Seq::empty(),
                    last_speech_at: None,
                    deadline: None,
                    ..p.endpointer
                },
                ..p
            })
            &&& p.state is Idle ==> m.actions == seq![
                Action::<Seq<T>, Seq<char>>::StopPlayback,
                Action::StopSource,
                Action::StartSource,
            ]
            &&& p.state !is Idle ==> m.actions == seq![
                Action::<Seq<T>, Seq<char>>::StopPlayback,
                Action::Publish(State::Idle),
                Action::StopSource,
                Action::StartSource,
            ]
        }),
{
    reveal(PipelineView::on_capture_lost);
    let m = p.next(Input::CaptureClosed, now);
    if p.state is Idle {
        assert(m.actions =~= seq![
            Action::<Seq<T>, Seq<char>>::StopPlayback,
            Action::StopSource,
            Action::StartSource,
        ]);
    } else {
        assert(m.actions =~= seq![
            Action::<Seq<T>, Seq<char>>::StopPlayback,
            Action::Publish(State::Idle),
            Action::StopSource,
            Action::StartSource,
        ]);
    }
}

// ---------------------------------------------------------------------------
// Starting to listen
// ---------------------------------------------------------------------------

/// Whether the own conversation is still taken up at `now`: there is a window
/// for that, and the conversation, if one is open, was used within it.
pub open spec fn taken_up<T>(p: PipelineView<T>, now: Instant) -> bool {
    &&& p.reuse_window.nanos > 0
    &&& p.conversation_id is Some ==> p.last_own_activity is Some && now.nanos
        <= p.last_own_activity->0.nanos + p.reuse_window.nanos
}

/// A wake word makes the pipeline listen: the samples captured last are the
/// beginning of the utterance, and speech has to begin within the follow-up
/// time. A tone or a phrase is sounded, or nothing, as set. A conversation that
/// has grown old is forgotten, and so is the one that push-to-talk was pressed
/// for. Nothing else changes.
pub proof fn law_a_wake_starts_to_listen<T>(p: PipelineView<T>, now: Instant)
    requires
        p.phase is CheckingWake,
        p.state is Idle,
        now.nanos + p.followup_timeout.nanos <= u128::MAX,
    ensures
        ({
            let m = p.next(Input::WakeChecked(true), now);
            &&& m.to == (PipelineView {
                state: State::Listening,
                phase: match p.cue {
                    ListeningCue::Off => Phase::Running,
                    ListeningCue::Ding => Phase::WakeCue { settle: false },
                    ListeningCue::Phrase => Phase::WakeCue { settle: true },
                },
                endpointer: EndpointerView {
                    buffer: p.recent,
                    last_speech_at: None,
                    deadline: Some(
                        Instant { nanos: (now.nanos + p.followup_timeout.nanos) as u128 },
                    ),
                    ..p.endpointer
                },
                recent: Seq::empty(),
                target: None,
                conversation_id: if taken_up(p, now) {
                    p.conversation_id
                } else {
                    None
                },
                last_own_activity: if taken_up(p, now) {
                    p.last_own_activity
                } else {
                    None
                },
                cue_count: if p.cue is Phrase {
                    if p.cue_count == u64::MAX {
                        0
                    } else {
                        (p.cue_count + 1) as u64
                    }
                } else {
                    p.cue_count
                },
                ..p
            })
            &&& m.actions == match p.cue {
                ListeningCue::Off => seq![
                    Action::<Seq<T>, Seq<char>>::Publish(State::Listening),
                    Action::ResetVad,
                ],
                ListeningCue::Ding => seq![
                    Action::<Seq<T>, Seq<char>>::Publish(State::Listening),
                    Action::ResetVad,
                    Action::PlayCue(CueSound::Ding),
                ],
                ListeningCue::Phrase => seq![
                    Action::<Seq<T>, Seq<char>>::Publish(State::Listening),
                    Action::ResetVad,
                    Action::PlayCue(CueSound::Phrase(phrase_text(p.cue_count as int))),
                ],
            }
        }),
        quietly(
            p.next(Input::WakeChecked(false), now),
            PipelineView { phase: Phase::Running, ..p },
        ),
{
    reveal(PipelineView::next_listening);
    reveal(PipelineView::on_wake);
    let m = p.next(Input::WakeChecked(true), now);
    match p.cue {
        ListeningCue::Off => {
            assert(m.actions =~= seq![
                Action::<Seq<T>, Seq<char>>::Publish(State::Listening),
                Action::ResetVad,
            ]);
        },
        ListeningCue::Ding => {
            assert(m.actions =~= seq![
                Action::<Seq<T>, Seq<char>>::Publish(State::Listening),
                Action::ResetVad,
                Action::PlayCue(CueSound::Ding),
            ]);
        },
        ListeningCue::Phrase => {
            assert(m.actions =~= seq![
                Action::<Seq<T>, Seq<char>>::Publish(State::Listening),
                Action::ResetVad,
                Action::PlayCue(CueSound::Phrase(phrase_text(p.cue_count as int))),
            ]);
        },
    }
}

/// Behind the cue of a wake the pipeline listens on as it was; behind a spoken
/// one it first waits until its echo is gone.
pub proof fn law_the_cue_of_a_wake<T>(p: PipelineView<T>, now: Instant)
    ensures
        p.phase == (Phase::<Seq<T>, Seq<char>>::WakeCue { settle: false }) ==> quietly(
            p.next(Input::CuePlayed, now),
            PipelineView { phase: Phase::Running, ..p },
        ),
        p.phase == (Phase::<Seq<T>, Seq<char>>::WakeCue { settle: true }) ==> {
            let m = p.next(Input::CuePlayed, now);
            &&& m.to == (PipelineView { phase: Phase::WakeSettle, ..p })
            &&& m.actions == seq![Action::<Seq<T>, Seq<char>>::DrainEcho]
        },
        p.phase is WakeSettle ==> quietly(
            p.next(Input::EchoDrained, now),
            PipelineView { phase: Phase::Running, ..p },
        ),
{
    reveal(PipelineView::next_listening);
}

/// Push-to-talk is obeyed while the pipeline is idle or speaks: whatever plays
/// is silenced, and once that is so the pipeline listens, with nothing captured
/// yet, and speech has to begin within the follow-up time. For a conversation of
/// the caller's the own one is left alone; else an old one is forgotten. While
/// the pipeline listens already or is at work, push-to-talk changes nothing.
pub proof fn law_push_to_talk<T>(
    p: PipelineView<T>,
    target: Option<Seq<char>>,
    playing: bool,
    now: Instant,
)
    requires
        now.nanos + p.followup_timeout.nanos <= u128::MAX,
    ensures
        p.phase is Running && (p.state is Idle || p.state is Speaking) ==> {
            let m = p.next(Input::Ptt { target, playing }, now);
            &&& m.to == (PipelineView { phase: Phase::EnteringPtt { target }, ..p })
            &&& playing ==> m.actions == seq![
                Action::<Seq<T>, Seq<char>>::StopPlayback,
                Action::DrainEcho,
            ]
            &&& !playing ==> m.actions == seq![Action::<Seq<T>, Seq<char>>::DrainEcho]
        },
        p.phase is Running && (p.state is Listening || p.state is Processing) ==> quietly(
            p.next(Input::Ptt { target, playing }, now),
            p,
        ),
        p.phase == (Phase::<Seq<T>, Seq<char>>::EnteringPtt { target }) && (p.state is Idle
            || p.state is Speaking) ==> {
            let m = p.next(Input::EchoDrained, now);
            &&& m.to == (PipelineView {
                state: State::Listening,
                phase: Phase::Running,
                target,
                endpointer: EndpointerView {
                    buffer: Seq::empty(),
                    last_speech_at: None,
                    deadline: Some(
                        Instant { nanos: (now.nanos + p.followup_timeout.nanos) as u128 },
                    ),
                    ..p.endpointer
                },
                conversation_id: if target is Some || taken_up(p, now) {
                    p.conversation_id
                } else {
                    None
                },
                last_own_activity: if target is Some || taken_up(p, now) {
                    p.last_own_activity
                } else {
                    None
                },
                ..p
            })
            &&& m.actions == seq![
                Action::<Seq<T>, Seq<char>>::Publish(State::Listening),
                Action::ResetVad,
            ]
        },
{
    reveal(PipelineView::next_listening);
    reveal(PipelineView::on_ptt);
    reveal(PipelineView::on_ptt_ready);
    if p.phase is Running && (p.state is Idle || p.state is Speaking) {
        let m = p.next(Input::Ptt { target, playing }, now);
        if playing {
            assert(m.actions =~= seq![
                Action::<Seq<T>, Seq<char>>::StopPlayback,
                Action::DrainEcho,
            ]);
        } else {
            assert(m.actions =~= seq![Action::<Seq<T>, Seq<char>>::DrainEcho]);
        }
    }
    if p.phase == (Phase::<Seq<T>, Seq<char>>::EnteringPtt { target }) && (p.state is Idle
        || p.state is Speaking) {
        let m = p.next(Input::EchoDrained, now);
        assert(m.actions =~= seq![
            Action::<Seq<T>, Seq<char>>::Publish(State::Listening),
            Action::ResetVad,
        ]);
    }
}

/// To listen for a follow-up, the pipeline waits until nothing plays, says that
/// it listens, with a cue as set, waits for the end of that cue's echo, and then
/// listens with nothing captured yet; speech has to begin within the follow-up
/// time.
pub proof fn law_listening_for_a_follow_up<T>(p: PipelineView<T>, now: Instant)
    requires
        now.nanos + p.followup_timeout.nanos <= u128::MAX,
    ensures
        p.phase is RelistenDrain && (p.state is Processing || p.state is Speaking) ==> {
            let m = p.next(Input::EchoDrained, now);
            &&& m.to == (PipelineView {
                state: State::Listening,
                phase: if p.cue is Off {
                    Phase::RelistenSettle
                } else {
                    Phase::RelistenCue
                },
                cue_count: if p.cue is Phrase {
                    if p.cue_count == u64::MAX {
                        0
                    } else {
                        (p.cue_count + 1) as u64
                    }
                } else {
                    p.cue_count
                },
                ..p
            })
            &&& m.actions == match p.cue {
                ListeningCue::Off => seq![
                    Action::<Seq<T>, Seq<char>>::Publish(State::Listening),
                    Action::DrainEcho,
                ],
                ListeningCue::Ding => seq![
                    Action::<Seq<T>, Seq<char>>::Publish(State::Listening),
                    Action::PlayCue(CueSound::Ding),
                ],
                ListeningCue::Phrase => seq![
                    Action::<Seq<T>, Seq<char>>::Publish(State::Listening),
                    Action::PlayCue(CueSound::Phrase(phrase_text(p.cue_count as int))),
                ],
            }
        },
        p.phase is RelistenCue ==> {
            let m = p.next(Input::CuePlayed, now);
            &&& m.to == (PipelineView { phase: Phase::RelistenSettle, ..p })
            &&& m.actions == seq![Action::<Seq<T>, Seq<char>>::DrainEcho]
        },
        p.phase is RelistenSettle ==> {
            let m = p.next(Input::EchoDrained, now);
            &&& m.to == (PipelineView {
                phase: Phase::Running,
                endpointer: EndpointerView {
                    buffer: Seq::empty(),
                    last_speech_at: None,
                    deadline: Some(
                        Instant { nanos: (now.nanos + p.followup_timeout.nanos) as u128 },
                    ),
                    ..p.endpointer
                },
                ..p
            })
            &&& m.actions == seq![Action::<Seq<T>, Seq<char>>::ResetVad]
        },
{
    reveal(PipelineView::next_answering);
    reveal(PipelineView::on_relisten);
    if p.phase is RelistenDrain && (p.state is Processing || p.state is Speaking) {
        let m = p.next(Input::EchoDrained, now);
        match p.cue {
            ListeningCue::Off => {
                assert(m.actions =~= seq![
                    Action::<Seq<T>, Seq<char>>::Publish(State::Listening),
                    Action::DrainEcho,
                ]);
            },
            ListeningCue::Ding => {
                assert(m.actions =~= seq![
                    Action::<Seq<T>, Seq<char>>::Publish(State::Listening),
                    Action::PlayCue(CueSound::Ding),
                ]);
            },
            ListeningCue::Phrase => {
                assert(m.actions =~= seq![
                    Action::<Seq<T>, Seq<char>>::Publish(State::Listening),
                    Action::PlayCue(CueSound::Phrase(phrase_text(p.cue_count as int))),
                ]);
            },
        }
    }
}

// ---------------------------------------------------------------------------
// Audio
// ---------------------------------------------------------------------------

/// What a chunk of audio leads to. While idle and not enabled it is not looked
/// at: the pipeline ends once nothing was in use for as long as set and nothing
/// plays, and else nothing changes. While idle and enabled it joins the latest
/// samples and goes to the wake word detector; while something plays it does
/// not, and joins them only where just the tail of playback is waited out. While
/// the pipeline listens or speaks it goes to the speech detector; at work it is
/// passed over. All but the first case count as use.
pub proof fn law_where_audio_goes<T>(
    p: PipelineView<T>,
    chunk: Seq<T>,
    playing: bool,
    in_tail_pad: bool,
    enabled: bool,
    now: Instant,
)
    requires
        p.phase is Running,
    ensures
        ({
            let m = p.next(Input::Audio { chunk, playing, in_tail_pad, enabled }, now);
            let all = p.recent + chunk;
            let recent = if all.len() > p.recent_size {
                all.skip(all.len() - p.recent_size)
            } else {
                all
            };
            match p.state {
                State::Idle => {
                    if !enabled {
                        if !playing && p.idle_exit_timeout is Some && (
                        p.idle_exit_timeout->0.nanos == 0 || now.nanos >= p.last_activity.nanos
                            + p.idle_exit_timeout->0.nanos) {
                            &&& m.to == (PipelineView { phase: Phase::Finished, ..p })
                            &&& m.actions == seq![
                                Action::<Seq<T>, Seq<char>>::StopSource,
                                Action::Exit,
                            ]
                        } else {
                            quietly(m, p)
                        }
                    } else if playing && in_tail_pad {
                        quietly(m, PipelineView { last_activity: now, recent, ..p })
                    } else if playing {
                        quietly(m, PipelineView { last_activity: now, ..p })
                    } else {
                        &&& m.to == (PipelineView {
                            last_activity: now,
                            recent,
                            phase: Phase::CheckingWake,
                            ..p
                        })
                        &&& m.actions == seq![Action::<Seq<T>, Seq<char>>::DetectWake(chunk)]
                    }
                },
                State::Processing => quietly(m, PipelineView { last_activity: now, ..p }),
                State::Listening | State::Speaking => {
                    &&& m.to == (PipelineView {
                        last_activity: now,
                        phase: Phase::Measuring { chunk },
                        ..p
                    })
                    &&& m.actions == seq![Action::<Seq<T>, Seq<char>>::MeasureSpeech(chunk)]
                },
            }
        }),
{
    reveal(PipelineView::on_audio);
}

/// What the speech level of a chunk leads to while the pipeline listens. Speech
/// joins the utterance and takes away its deadline. Silence that has lasted long
/// enough behind speech ends an utterance that is long enough: everything
/// captured is transcribed. Else, past the deadline, the pipeline is idle again;
/// before it, or without one, the chunk joins the utterance.
pub proof fn law_listening<T>(
    p: PipelineView<T>,
    chunk: Seq<T>,
    level: i32,
    playing: bool,
    now: Instant,
)
    requires
        p.phase == (Phase::<Seq<T>, Seq<char>>::Measuring { chunk }),
        p.state is Listening,
    ensures
        ({
            let m = p.next(Input::SpeechLevel { level, playing }, now);
            let e = p.endpointer;
            let all = e.buffer + chunk;
            let ended = e.last_speech_at is Some && (e.silence.nanos == 0 || now.nanos
                >= e.last_speech_at->0.nanos + e.silence.nanos) && all.len() >= e.min_samples;
            let late = e.deadline is Some && now.nanos >= e.deadline->0.nanos;
            if level >= e.threshold {
                quietly(
                    m,
                    PipelineView {
                        phase: Phase::Running,
                        endpointer: EndpointerView {
                            buffer: all,
                            last_speech_at: Some(now),
                            deadline: None,
                            ..e
                        },
                        ..p
                    },
                )
            } else if ended {
                &&& m.to == (PipelineView {
                    state: State::Processing,
                    phase: Phase::Transcribing,
                    endpointer: EndpointerView { buffer: Seq::empty(), ..e },
                    end_requested: false,
                    more_requested: false,
                    ..p
                })
                &&& m.actions == seq![
                    Action::<Seq<T>, Seq<char>>::Publish(State::Processing),
                    Action::Transcribe(all),
                ]
            } else if late {
                &&& m.to == (PipelineView {
                    state: State::Idle,
                    phase: Phase::Running,
                    target: None,
                    endpointer: EndpointerView {
                        buffer: Seq::empty(),
                        last_speech_at: None,
                        deadline: None,
                        ..e
                    },
                    ..p
                })
                &&& m.actions == seq![Action::<Seq<T>, Seq<char>>::Publish(State::Idle)]
            } else {
                quietly(
                    m,
                    PipelineView {
                        phase: Phase::Running,
                        endpointer: EndpointerView { buffer: all, ..e },
                        ..p
                    },
                )
            }
        }),
{
    reveal(PipelineView::next_listening);
    reveal(PipelineView::on_level);
    let m = p.next(Input::SpeechLevel { level, playing }, now);
    let e = p.endpointer;
    let all = e.buffer + chunk;
    let ended = e.last_speech_at is Some && (e.silence.nanos == 0 || now.nanos
        >= e.last_speech_at->0.nanos + e.silence.nanos) && all.len() >= e.min_samples;
    if level < e.threshold && ended {
        assert(m.actions =~= seq![
            Action::<Seq<T>, Seq<char>>::Publish(State::Processing),
            Action::Transcribe(all),
        ]);
    }
}

/// What the speech level of a chunk leads to while the pipeline speaks: speech
/// silences it, and the chunk is the beginning of the utterance; without speech
/// the pipeline is idle once nothing plays any more.
pub proof fn law_speaking<T>(
    p: PipelineView<T>,
    chunk: Seq<T>,
    level: i32,
    playing: bool,
    now: Instant,
)
    requires
        p.phase == (Phase::<Seq<T>, Seq<char>>::Measuring { chunk }),
        p.state is Speaking,
    ensures
        ({
            let m = p.next(Input::SpeechLevel { level, playing }, now);
            if level >= p.speech_threshold {
                &&& m.to == (PipelineView {
                    state: State::Listening,
                    phase: Phase::Running,
                    endpointer: EndpointerView {
                        buffer: chunk,
                        last_speech_at: Some(now),
                        deadline: None,
                        ..p.endpointer
                    },
                    ..p
                })
                &&& m.actions == seq![
                    Action::<Seq<T>, Seq<char>>::HaltPlayback,
                    Action::Publish(State::Listening),
                    Action::ResetVad,
                ]
            } else if !playing {
                &&& m.to == (PipelineView { state: State::Idle, phase: Phase::Running, ..p })
                &&& m.actions == seq![Action::<Seq<T>, Seq<char>>::Publish(State::Idle)]
            } else {
                quietly(m, PipelineView { phase: Phase::Running, ..p })
            }
        }),
{
    reveal(PipelineView::next_listening);
    reveal(PipelineView::on_level);
    let m = p.next(Input::SpeechLevel { level, playing }, now);
    if level >= p.speech_threshold {
        assert(m.actions =~= seq![
            Action::<Seq<T>, Seq<char>>::HaltPlayback,
            Action::Publish(State::Listening),
            Action::ResetVad,
        ]);
    }
}

// ---------------------------------------------------------------------------
// Waiting in vain
// ---------------------------------------------------------------------------

/// A chunk of audio that was captured, and when its speech level was known.
pub struct Heard<T> {
    pub chunk: Seq<T>,
    pub level: i32,
    pub at: Instant,
    pub measured_at: Instant,
}

/// The samples of several chunks, one behind the other.
pub open spec fn samples_of<T>(run: Seq<Heard<T>>) -> Seq<T>
    decreases run.len(),
{
    if run.len() == 0 {
        Seq::empty()
    } else {
        samples_of(run.drop_last()) + run.last().chunk
    }
}

/// The pipeline behind chunks that were captured and measured one by one.
pub open spec fn hearing<T>(p: PipelineView<T>, run: Seq<Heard<T>>) -> PipelineView<T>
    decreases run.len(),
{
    if run.len() == 0 {
        p
    } else {
        heard_next(hearing(p, run.drop_last()), run.last()).to
    }
}

/// The step that one more chunk makes: it is captured, then its level comes.
pub open spec fn heard_next<T>(p: PipelineView<T>, h: Heard<T>) -> Move<T> {
    p.next(
        Input::Audio { chunk: h.chunk, playing: false, in_tail_pad: false, enabled: true },
        h.at,
    ).to.next(Input::SpeechLevel { level: h.level, playing: false }, h.measured_at)
}

/// Whether the pipeline listens, nobody has spoken yet, and somebody has to
/// before `until`.
pub open spec fn waits_for_speech<T>(p: PipelineView<T>, until: int) -> bool {
    &&& p.phase is Running
    &&& p.state is Listening
    &&& p.endpointer.last_speech_at is None
    &&& p.endpointer.deadline is Some
    &&& p.endpointer.deadline->0.nanos == until
}

/// The pipeline that a wake at `woke` leads to, once its cue has sounded.
pub open spec fn awake<T>(p: PipelineView<T>, woke: Instant, later: Instant) -> PipelineView<T> {
    let q = p.next(Input::WakeChecked(true), woke).to;
    match q.phase {
        Phase::WakeCue { settle } => {
            let r = q.next(Input::CuePlayed, later).to;
            if settle {
                r.next(Input::EchoDrained, later).to
            } else {
                r
            }
        },
        _ => q,
    }
}

/// Whoever starts to listen waits for speech as long as the follow-up time from
/// then on: behind a wake, whatever cue it has, behind push-to-talk, and for a
/// follow-up.
pub proof fn law_listening_has_a_deadline<T>(p: PipelineView<T>, now: Instant, later: Instant)
    requires
        now.nanos + p.followup_timeout.nanos <= u128::MAX,
    ensures
        p.phase is CheckingWake && p.state is Idle ==> waits_for_speech(
            awake(p, now, later),
            now.nanos + p.followup_timeout.nanos,
        ),
        p.phase is EnteringPtt && (p.state is Idle || p.state is Speaking) ==> waits_for_speech(
            p.next(Input::EchoDrained, now).to,
            now.nanos + p.followup_timeout.nanos,
        ),
        p.phase is RelistenSettle && p.state is Listening ==> waits_for_speech(
            p.next(Input::EchoDrained, now).to,
            now.nanos + p.followup_timeout.nanos,
        ),
{
    match p.phase {
        Phase::CheckingWake => {
            if p.state is Idle {
                law_a_wake_starts_to_listen(p, now);
                let q = p.next(Input::WakeChecked(true), now).to;
                law_the_cue_of_a_wake(q, later);
                law_the_cue_of_a_wake(q.next(Input::CuePlayed, later).to, later);
            }
        },
        Phase::EnteringPtt { target } => {
            law_push_to_talk(p, target, false, now);
        },
        Phase::RelistenSettle => {
            law_listening_for_a_follow_up(p, now);
        },
        _ => {},
    }
}

/// Silence is waited out to the deadline and no further: however many chunks
/// without speech come before it, the pipeline listens on and holds them all;
/// the first one that comes at the deadline or behind it makes the pipeline
/// idle, and everyone is told.
pub proof fn law_silence_is_waited_out<T>(
    p: PipelineView<T>,
    until: int,
    run: Seq<Heard<T>>,
    last: Heard<T>,
)
    requires
        waits_for_speech(p, until),
        forall|i: int|
            0 <= i < run.len() ==> (#[trigger] run[i]).level < p.endpointer.threshold
                && run[i].measured_at.nanos < until,
        last.level < p.endpointer.threshold,
        last.measured_at.nanos >= until,
    ensures
        waits_for_speech(hearing(p, run), until),
        hearing(p, run).endpointer.buffer == p.endpointer.buffer + samples_of(run),
        heard_next(hearing(p, run), last).to.state is Idle,
        heard_next(hearing(p, run), last).to.phase is Running,
        heard_next(hearing(p, run), last).actions == seq![
            Action::<Seq<T>, Seq<char>>::Publish(State::Idle),
        ],
{
    reveal(PipelineView::next_listening);
    reveal(PipelineView::on_audio);
    reveal(PipelineView::on_level);
    lemma_waits_on(p, until, run);
}

proof fn lemma_waits_on<T>(p: PipelineView<T>, until: int, run: Seq<Heard<T>>)
    requires
        waits_for_speech(p, until),
        forall|i: int|
            0 <= i < run.len() ==> (#[trigger] run[i]).level < p.endpointer.threshold
                && run[i].measured_at.nanos < until,
    ensures
        waits_for_speech(hearing(p, run), until),
        hearing(p, run).endpointer.threshold == p.endpointer.threshold,
        hearing(p, run).endpointer.buffer == p.endpointer.buffer + samples_of(run),
    decreases run.len(),
{
    if run.len() == 0 {
        assert(p.endpointer.buffer + samples_of(run) =~= p.endpointer.buffer);
    } else {
        let before = run.drop_last();
        assert forall|i: int| 0 <= i < before.len() implies (#[trigger] before[i]).level
            < p.endpointer.threshold && before[i].measured_at.nanos < until by {
            assert(before[i] == run[i]);
        }
        lemma_waits_on(p, until, before);
        assert(run.last() == run[run.len() - 1]);
        reveal(PipelineView::next_listening);
        reveal(PipelineView::on_audio);
        reveal(PipelineView::on_level);
        assert(p.endpointer.buffer + samples_of(run) =~= p.endpointer.buffer + samples_of(before)
            + run.last().chunk);
    }
}

/// A wake that nobody follows up comes to nothing: behind it, and however much
/// silence was heard since, the first chunk without speech at the end of the
/// follow-up time or later makes the pipeline idle, and everyone is told.
pub proof fn law_a_wake_in_vain<T>(
    p: PipelineView<T>,
    woke: Instant,
    later: Instant,
    run: Seq<Heard<T>>,
    last: Heard<T>,
)
    requires
        p.phase is CheckingWake,
        p.state is Idle,
        woke.nanos + p.followup_timeout.nanos <= u128::MAX,
        forall|i: int|
            0 <= i < run.len() ==> (#[trigger] run[i]).level < p.endpointer.threshold
                && run[i].measured_at.nanos < woke.nanos + p.followup_timeout.nanos,
        last.level < p.endpointer.threshold,
        last.measured_at.nanos >= woke.nanos + p.followup_timeout.nanos,
    ensures
        hearing(awake(p, woke, later), run).state is Listening,
        heard_next(hearing(awake(p, woke, later), run), last).to.state is Idle,
        heard_next(hearing(awake(p, woke, later), run), last).actions == seq![
            Action::<Seq<T>, Seq<char>>::Publish(State::Idle),
        ],
{
    law_listening_has_a_deadline(p, woke, later);
    reveal(PipelineView::next_listening);
    reveal(PipelineView::on_wake);
    let q = awake(p, woke, later);
    assert(q.endpointer.threshold == p.endpointer.threshold);
    law_silence_is_waited_out(q, woke.nanos + p.followup_timeout.nanos, run, last);
}

/// The same holds of push-to-talk that nobody follows up, and of a follow-up
/// that nobody makes.
pub proof fn law_push_to_talk_in_vain<T>(
    p: PipelineView<T>,
    ready: Instant,
    run: Seq<Heard<T>>,
    last: Heard<T>,
)
    requires
        p.phase is EnteringPtt && (p.state is Idle || p.state is Speaking) || p.phase
            is RelistenSettle && p.state is Listening,
        ready.nanos + p.followup_timeout.nanos <= u128::MAX,
        forall|i: int|
            0 <= i < run.len() ==> (#[trigger] run[i]).level < p.endpointer.threshold
                && run[i].measured_at.nanos < ready.nanos + p.followup_timeout.nanos,
        last.level < p.endpointer.threshold,
        last.measured_at.nanos >= ready.nanos + p.followup_timeout.nanos,
    ensures
        ({
            let q = p.next(Input::EchoDrained, ready).to;
            &&& hearing(q, run).state is Listening
            &&& heard_next(hearing(q, run), last).to.state is Idle
            &&& heard_next(hearing(q, run), last).actions == seq![
                Action::<Seq<T>, Seq<char>>::Publish(State::Idle),
            ]
        }),
{
    law_listening_has_a_deadline(p, ready, ready);
    reveal(PipelineView::next_listening);
    reveal(PipelineView::next_answering);
    reveal(PipelineView::on_ptt_ready);
    let q = p.next(Input::EchoDrained, ready).to;
    assert(q.endpointer.threshold == p.endpointer.threshold);
    law_silence_is_waited_out(q, ready.nanos + p.followup_timeout.nanos, run, last);
}

// ---------------------------------------------------------------------------
// An utterance
// ---------------------------------------------------------------------------

/// What the user says is transcribed whole: what was held when they began, all
/// that was captured while they spoke, and the silence that ended it, in order.
/// It is not while the silence is shorter than it has to be.
pub proof fn law_an_utterance_is_transcribed_whole<T>(
    p: PipelineView<T>,
    run: Seq<Heard<T>>,
    last: Heard<T>,
)
    requires
        p.phase is Running,
        p.state is Listening,
        run.len() > 0,
        forall|i: int|
            0 <= i < run.len() ==> (#[trigger] run[i]).level >= p.endpointer.threshold,
        last.level < p.endpointer.threshold,
        p.endpointer.silence.nanos > 0,
        p.endpointer.buffer.len() + samples_of(run).len() + last.chunk.len()
            >= p.endpointer.min_samples,
    ensures
        ({
            let m = heard_next(hearing(p, run), last);
            let fell_silent = run.last().measured_at.nanos;
            &&& last.measured_at.nanos >= fell_silent + p.endpointer.silence.nanos ==> {
                &&& m.to.state is Processing
                &&& m.to.phase is Transcribing
                &&& m.actions == seq![
                    Action::<Seq<T>, Seq<char>>::Publish(State::Processing),
                    Action::Transcribe(p.endpointer.buffer + samples_of(run) + last.chunk),
                ]
            }
            &&& last.measured_at.nanos < fell_silent + p.endpointer.silence.nanos ==> {
                &&& m.to.state is Listening
                &&& m.to.endpointer.buffer == p.endpointer.buffer + samples_of(run) + last.chunk
                &&& m.actions.len() == 0
            }
        }),
{
    lemma_speech_goes_on(p, run);
    let q = hearing(p, run);
    let audio = Input::Audio {
        chunk: last.chunk,
        playing: false,
        in_tail_pad: false,
        enabled: true,
    };
    law_where_audio_goes(q, last.chunk, false, false, true, last.at);
    law_listening(q.next(audio, last.at).to, last.chunk, last.level, false, last.measured_at);
}

proof fn lemma_speech_goes_on<T>(p: PipelineView<T>, run: Seq<Heard<T>>)
    requires
        p.phase is Running,
        p.state is Listening,
        forall|i: int|
            0 <= i < run.len() ==> (#[trigger] run[i]).level >= p.endpointer.threshold,
    ensures
        ({
            let q = hearing(p, run);
            &&& q.phase is Running
            &&& q.state is Listening
            &&& q.endpointer.threshold == p.endpointer.threshold
            &&& q.endpointer.silence == p.endpointer.silence
            &&& q.endpointer.min_samples == p.endpointer.min_samples
            &&& q.endpointer.buffer == p.endpointer.buffer + samples_of(run)
            &&& run.len() > 0 ==> q.endpointer.last_speech_at == Some(run.last().measured_at)
                && q.endpointer.deadline is None
        }),
    decreases run.len(),
{
    if run.len() == 0 {
        assert(p.endpointer.buffer + samples_of(run) =~= p.endpointer.buffer);
    } else {
        let before = run.drop_last();
        assert forall|i: int| 0 <= i < before.len() implies (#[trigger] before[i]).level
            >= p.endpointer.threshold by {
            assert(before[i] == run[i]);
        }
        lemma_speech_goes_on(p, before);
        let h = run.last();
        assert(h == run[run.len() - 1]);
        let q = hearing(p, before);
        let audio = Input::Audio {
            chunk: h.chunk,
            playing: false,
            in_tail_pad: false,
            enabled: true,
        };
        law_where_audio_goes(q, h.chunk, false, false, true, h.at);
        law_listening(q.next(audio, h.at).to, h.chunk, h.level, false, h.measured_at);
        assert(p.endpointer.buffer + samples_of(run) =~= p.endpointer.buffer + samples_of(before)
            + h.chunk);
    }
}

// ---------------------------------------------------------------------------
// Stopping
// ---------------------------------------------------------------------------

/// A request to stop speaking, outside a turn, silences the pipeline where it
/// speaks and changes nothing elsewhere. One to end the conversation makes it
/// idle in every state, with the conversation forgotten and nothing captured;
/// whatever plays is silenced and everyone is told, unless it was idle already.
pub proof fn law_stopping<T>(p: PipelineView<T>, now: Instant)
    requires
        p.phase is Running,
    ensures
        p.state is Speaking ==> {
            let m = p.next(Input::Stop(StopRequest::Speaking), now);
            &&& m.to == (PipelineView { state: State::Idle, ..p })
            &&& m.actions == seq![
                Action::<Seq<T>, Seq<char>>::HaltPlayback,
                Action::Publish(State::Idle),
            ]
        },
        p.state !is Speaking ==> quietly(p.next(Input::Stop(StopRequest::Speaking), now), p),
        ({
            let m = p.next(Input::Stop(StopRequest::Conversation), now);
            &&& m.to == (PipelineView {
                state: State::Idle,
                conversation_id: None,
                last_own_activity: None,
                target: None,
                endpointer: EndpointerView {
                    buffer: Seq::empty(),
                    last_speech_at: None,
                    deadline: None,
                    ..p.endpointer
                },
                ..p
            })
            &&& p.state is Idle ==> m.actions == Seq::<Action<Seq<T>, Seq<char>>>::empty()
            &&& p.state !is Idle ==> m.actions == seq![
                Action::<Seq<T>, Seq<char>>::StopPlayback,
                Action::Publish(State::Idle),
            ]
        }),
{
    reveal(PipelineView::on_stop);
    if p.state is Speaking {
        assert(p.next(Input::Stop(StopRequest::Speaking), now).actions =~= seq![
            Action::<Seq<T>, Seq<char>>::HaltPlayback,
            Action::Publish(State::Idle),
        ]);
    }
    if p.state !is Idle {
        assert(p.next(Input::Stop(StopRequest::Conversation), now).actions =~= seq![
            Action::<Seq<T>, Seq<char>>::StopPlayback,
            Action::Publish(State::Idle),
        ]);
    }
}

// ---------------------------------------------------------------------------
// A turn
// ---------------------------------------------------------------------------

/// What comes of an utterance that was transcribed. Where nothing was said, the
/// conversation goes on in conversation mode, and else the pipeline is idle. A
/// request to stop is acknowledged aloud. Any other prompt is shown and goes to
/// the conversation that push-to-talk was pressed for, else to the own one, else
/// to a new one of the title set.
pub proof fn law_what_the_user_said<T>(p: PipelineView<T>, prompt: Seq<char>, now: Instant)
    requires
        p.phase is Transcribing,
        p.state is Processing,
    ensures
        ({
            let m = p.next(Input::Transcribed(None), now);
            if p.conversation_mode {
                &&& m.to == (PipelineView { phase: Phase::RelistenDrain, ..p })
                &&& m.actions == seq![Action::<Seq<T>, Seq<char>>::DrainEcho]
            } else {
                &&& m.to == (PipelineView {
                    state: State::Idle,
                    phase: Phase::Running,
                    target: None,
                    ..p
                })
                &&& m.actions == seq![Action::<Seq<T>, Seq<char>>::Publish(State::Idle)]
            }
        }),
        ({
            let m = p.next(Input::Transcribed(Some(prompt)), now);
            if asks_to_stop(prompt) {
                &&& m.to == (PipelineView {
                    state: State::Speaking,
                    phase: Phase::Acknowledging,
                    ..p
                })
                &&& m.actions == seq![
                    Action::<Seq<T>, Seq<char>>::ShowTranscript(prompt),
                    Action::Publish(State::Speaking),
                    Action::Acknowledge("Okay."@),
                ]
            } else if p.target is Some {
                &&& m.to == (PipelineView {
                    phase: Phase::Subscribing {
                        conversation_id: p.target->0,
                        prompt,
                        own: false,
                    },
                    ..p
                })
                &&& m.actions == seq![
                    Action::<Seq<T>, Seq<char>>::ShowTranscript(prompt),
                    Action::Subscribe,
                ]
            } else if p.conversation_id is Some {
                &&& m.to == (PipelineView {
                    phase: Phase::Subscribing {
                        conversation_id: p.conversation_id->0,
                        prompt,
                        own: true,
                    },
                    ..p
                })
                &&& m.actions == seq![
                    Action::<Seq<T>, Seq<char>>::ShowTranscript(prompt),
                    Action::Subscribe,
                ]
            } else {
                &&& m.to == (PipelineView { phase: Phase::Creating { prompt }, ..p })
                &&& m.actions == seq![
                    Action::<Seq<T>, Seq<char>>::ShowTranscript(prompt),
                    Action::CreateConversation(p.title),
                ]
            }
        }),
{
    reveal(PipelineView::next_asking);
    reveal(PipelineView::on_transcribed);
    reveal(PipelineView::concluded);
    let m = p.next(Input::Transcribed(Some(prompt)), now);
    if asks_to_stop(prompt) {
        assert(m.actions =~= seq![
            Action::<Seq<T>, Seq<char>>::ShowTranscript(prompt),
            Action::Publish(State::Speaking),
            Action::Acknowledge("Okay."@),
        ]);
    } else if p.target is Some || p.conversation_id is Some {
        assert(m.actions =~= seq![
            Action::<Seq<T>, Seq<char>>::ShowTranscript(prompt),
            Action::Subscribe,
        ]);
    } else {
        assert(m.actions =~= seq![
            Action::<Seq<T>, Seq<char>>::ShowTranscript(prompt),
            Action::CreateConversation(p.title),
        ]);
    }
}

/// How a prompt reaches the assistant: a conversation is opened where there is
/// none, and becomes the own one; the assistant's events are subscribed to; the
/// prompt is sent; and the response is spoken as it comes.
pub proof fn law_asking_the_assistant<T>(
    p: PipelineView<T>,
    id: Seq<char>,
    prompt: Seq<char>,
    own: bool,
    now: Instant,
)
    ensures
        p.phase == (Phase::<Seq<T>, Seq<char>>::Creating { prompt }) ==> {
            let m = p.next(Input::Created(id), now);
            &&& m.to == (PipelineView {
                conversation_id: Some(id),
                phase: Phase::Subscribing { conversation_id: id, prompt, own: true },
                ..p
            })
            &&& m.actions == seq![Action::<Seq<T>, Seq<char>>::Subscribe]
        },
        p.phase == (Phase::<Seq<T>, Seq<char>>::Subscribing { conversation_id: id, prompt, own })
            ==> {
            let m = p.next(Input::Subscribed, now);
            &&& m.to == (PipelineView { phase: Phase::Sending { own }, ..p })
            &&& m.actions == seq![
                Action::<Seq<T>, Seq<char>>::SendPrompt {
                    conversation_id: id,
                    prompt,
                    hint: p.hint,
                },
            ]
        },
        p.phase == (Phase::<Seq<T>, Seq<char>>::Sending { own }) ==> {
            let m = p.next(Input::Sent, now);
            &&& m.to == (PipelineView { phase: Phase::Streaming { own }, ..p })
            &&& m.actions == seq![Action::<Seq<T>, Seq<char>>::StreamTurn]
        },
{
    reveal(PipelineView::next_asking);
}

/// Whatever fails of a turn is apologized for aloud, and behind the apology the
/// conversation is over, as it is behind an acknowledged request to stop: the
/// pipeline is idle, with the conversation forgotten and nothing captured.
pub proof fn law_failing_and_ending<T>(p: PipelineView<T>, now: Instant)
    requires
        p.state is Processing || p.state is Speaking,
    ensures
        p.phase is Transcribing || p.phase is Acknowledging || p.phase is Creating || p.phase
            is Subscribing || p.phase is Sending || p.phase is Streaming ==> {
            let m = p.next(Input::TurnFailed, now);
            &&& m.to == (PipelineView { state: State::Speaking, phase: Phase::Apologizing, ..p })
            &&& p.state is Processing ==> m.actions == seq![
                Action::<Seq<T>, Seq<char>>::Publish(State::Speaking),
                Action::Apologize("Sorry, I ran into an error and couldn't answer that."@),
            ]
            &&& p.state is Speaking ==> m.actions == seq![
                Action::<Seq<T>, Seq<char>>::Apologize(
                    "Sorry, I ran into an error and couldn't answer that."@,
                ),
            ]
        },
        p.phase is Apologizing || p.phase is Acknowledging ==> {
            let m = p.next(
                if p.phase is Apologizing {
                    Input::Apologized
                } else {
                    Input::Acknowledged
                },
                now,
            );
            &&& m.to == (PipelineView {
                state: State::Idle,
                phase: Phase::Running,
                conversation_id: None,
                last_own_activity: None,
                target: None,
                endpointer: EndpointerView {
                    buffer: Seq::empty(),
                    last_speech_at: None,
                    deadline: None,
                    ..p.endpointer
                },
                ..p
            })
            &&& m.actions == seq![Action::<Seq<T>, Seq<char>>::Publish(State::Idle)]
        },
{
    reveal(PipelineView::next_asking);
    reveal(PipelineView::next_answering);
    reveal(PipelineView::failed);
    reveal(PipelineView::concluded);
    if p.phase is Transcribing || p.phase is Acknowledging || p.phase is Creating || p.phase
        is Subscribing || p.phase is Sending || p.phase is Streaming {
        let m = p.next(Input::TurnFailed, now);
        if p.state is Processing {
            assert(m.actions =~= seq![
                Action::<Seq<T>, Seq<char>>::Publish(State::Speaking),
                Action::Apologize("Sorry, I ran into an error and couldn't answer that."@),
            ]);
        } else {
            assert(m.actions =~= seq![
                Action::<Seq<T>, Seq<char>>::Apologize(
                    "Sorry, I ran into an error and couldn't answer that."@,
                ),
            ]);
        }
    }
}

/// What comes of a response that was given in full: where the assistant asked to
/// end the session, it is over; else, where it asked to listen for more, and in
/// conversation mode in any case, the pipeline listens again; else it is idle.
/// An own conversation counts as used from then on.
pub proof fn law_a_response_in_full<T>(p: PipelineView<T>, own: bool, playing: bool, now: Instant)
    requires
        p.phase == (Phase::<Seq<T>, Seq<char>>::Streaming { own }),
        p.state is Processing || p.state is Speaking,
    ensures
        ({
            let m = p.next(Input::TurnOver { end: StreamEnd::Completed, playing }, now);
            let used = if own {
                Some(now)
            } else {
                p.last_own_activity
            };
            if p.end_requested {
                &&& m.to == (PipelineView {
                    state: State::Idle,
                    phase: Phase::Running,
                    conversation_id: None,
                    last_own_activity: None,
                    target: None,
                    endpointer: EndpointerView {
                        buffer: Seq::empty(),
                        last_speech_at: None,
                        deadline: None,
                        ..p.endpointer
                    },
                    ..p
                })
                &&& m.actions == seq![Action::<Seq<T>, Seq<char>>::Publish(State::Idle)]
            } else if p.more_requested || p.conversation_mode {
                &&& m.to == (PipelineView {
                    phase: Phase::RelistenDrain,
                    last_own_activity: used,
                    ..p
                })
                &&& m.actions == seq![Action::<Seq<T>, Seq<char>>::DrainEcho]
            } else {
                &&& m.to == (PipelineView {
                    state: State::Idle,
                    phase: Phase::Running,
                    target: None,
                    last_own_activity: used,
                    ..p
                })
                &&& m.actions == seq![Action::<Seq<T>, Seq<char>>::Publish(State::Idle)]
            }
        }),
{
    reveal(PipelineView::next_answering);
    reveal(PipelineView::on_turn_over);
    reveal(PipelineView::concluded);
}

/// What comes of a response that was interrupted. In any case what the assistant
/// still asks of it is answered elsewhere, and an own conversation counts as
/// used. The user's speech over it is the beginning of the next utterance.
/// Push-to-talk is entered as it is outside a turn, from idle where nothing was
/// spoken yet. A request to stop speaking makes the pipeline idle; one to end the
/// conversation makes it forget it, too.
pub proof fn law_an_interrupted_response<T>(
    p: PipelineView<T>,
    own: bool,
    chunk: Seq<T>,
    target: Option<Seq<char>>,
    playing: bool,
    now: Instant,
)
    requires
        p.phase == (Phase::<Seq<T>, Seq<char>>::Streaming { own }),
        p.state is Processing || p.state is Speaking,
    ensures
        ({
            let used = PipelineView {
                last_own_activity: if own {
                    Some(now)
                } else {
                    p.last_own_activity
                },
                ..p
            };
            let barged = p.next(Input::TurnOver { end: StreamEnd::BargedIn(chunk), playing }, now);
            let pressed = p.next(
                Input::TurnOver { end: StreamEnd::PttPressed(target), playing },
                now,
            );
            let hushed = p.next(
                Input::TurnOver { end: StreamEnd::Stopped(StopRequest::Speaking), playing },
                now,
            );
            let ended = p.next(
                Input::TurnOver { end: StreamEnd::Stopped(StopRequest::Conversation), playing },
                now,
            );
            &&& p.state is Speaking ==> barged.to == (PipelineView {
                state: State::Listening,
                phase: Phase::Running,
                endpointer: EndpointerView {
                    buffer: chunk,
                    last_speech_at: Some(now),
                    deadline: None,
                    ..p.endpointer
                },
                ..used
            }) && barged.actions == seq![
                Action::<Seq<T>, Seq<char>>::DrainTurn,
                Action::Publish(State::Listening),
                Action::ResetVad,
            ]
            &&& pressed.to == (PipelineView {
                state: if p.state is Processing {
                    State::Idle
                } else {
                    State::Speaking
                },
                phase: Phase::EnteringPtt { target },
                ..used
            })
            &&& pressed.actions == seq![Action::<Seq<T>, Seq<char>>::DrainTurn] + (if p.state
                is Processing {
                seq![Action::<Seq<T>, Seq<char>>::Publish(State::Idle)]
            } else {
                Seq::empty()
            }) + (if playing {
                seq![Action::<Seq<T>, Seq<char>>::StopPlayback, Action::DrainEcho]
            } else {
                seq![Action::<Seq<T>, Seq<char>>::DrainEcho]
            })
            &&& hushed.to == (PipelineView { state: State::Idle, phase: Phase::Running, ..used })
            &&& hushed.actions == seq![
                Action::<Seq<T>, Seq<char>>::DrainTurn,
                Action::Publish(State::Idle),
            ]
            &&& ended.to == (PipelineView {
                state: State::Idle,
                phase: Phase::Running,
                conversation_id: None,
                last_own_activity: None,
                target: None,
                endpointer: EndpointerView {
                    buffer: Seq::empty(),
                    last_speech_at: None,
                    deadline: None,
                    ..p.endpointer
                },
                ..p
            })
            &&& ended.actions == seq![
                Action::<Seq<T>, Seq<char>>::DrainTurn,
                Action::Publish(State::Idle),
            ]
        }),
{
    reveal(PipelineView::next_answering);
    reveal(PipelineView::on_turn_over);
    reveal(PipelineView::interrupted);
    reveal(PipelineView::on_ptt);
    let barged = p.next(Input::TurnOver { end: StreamEnd::BargedIn(chunk), playing }, now);
    let pressed = p.next(Input::TurnOver { end: StreamEnd::PttPressed(target), playing }, now);
    let hushed = p.next(
        Input::TurnOver { end: StreamEnd::Stopped(StopRequest::Speaking), playing },
        now,
    );
    let ended = p.next(
        Input::TurnOver { end: StreamEnd::Stopped(StopRequest::Conversation), playing },
        now,
    );
    if p.state is Speaking {
        assert(barged.actions =~= seq![
            Action::<Seq<T>, Seq<char>>::DrainTurn,
            Action::Publish(State::Listening),
            Action::ResetVad,
        ]);
    }
    assert(hushed.actions =~= seq![
        Action::<Seq<T>, Seq<char>>::DrainTurn,
        Action::Publish(State::Idle),
    ]);
    assert(ended.actions =~= seq![
        Action::<Seq<T>, Seq<char>>::DrainTurn,
        Action::Publish(State::Idle),
    ]);
    assert(pressed.actions =~= seq![Action::<Seq<T>, Seq<char>>::DrainTurn] + (if p.state
        is Processing {
        seq![Action::<Seq<T>, Seq<char>>::Publish(State::Idle)]
    } else {
        Seq::empty()
    }) + (if playing {
        seq![Action::<Seq<T>, Seq<char>>::StopPlayback, Action::DrainEcho]
    } else {
        seq![Action::<Seq<T>, Seq<char>>::DrainEcho]
    }));
}

/// What each phase waits for.
pub open spec fn waits_for<T>(
    phase: Phase<Seq<T>, Seq<char>>,
    input: Input<Seq<T>, Seq<char>, TunablesView>,
) -> bool {
    match phase {
        Phase::Ready => input is Launch,
        Phase::Starting { .. } => input is CaptureStarted || input is CaptureFailed,
        Phase::Degraded { .. } => input is Reload || input is ControlsClosed,
        Phase::Running => input is Ptt || input is Stop || input is Reload || input is Audio
            || input is CaptureClosed,
        Phase::CheckingWake => input is WakeChecked,
        Phase::Measuring { .. } => input is SpeechLevel,
        Phase::EnteringPtt { .. } | Phase::WakeSettle | Phase::RelistenDrain
        | Phase::RelistenSettle => input is EchoDrained,
        Phase::WakeCue { .. } | Phase::RelistenCue => input is CuePlayed,
        Phase::Transcribing => input is Transcribed || input is TurnFailed,
        Phase::Acknowledging => input is Acknowledged || input is TurnFailed,
        Phase::Creating { .. } => input is Created || input is TurnFailed,
        Phase::Subscribing { .. } => input is Subscribed || input is TurnFailed,
        Phase::Sending { .. } => input is Sent || input is TurnFailed,
        Phase::Streaming { .. } => input is TurnOver || input is TurnFailed || input is Reload,
        Phase::Apologizing => input is Apologized,
        Phase::Finished => false,
    }
}

/// An input that the pipeline does not wait for changes nothing, and nothing is
/// done.
pub proof fn law_nothing_else_is_waited_for<T>(
    p: PipelineView<T>,
    input: Input<Seq<T>, Seq<char>, TunablesView>,
    now: Instant,
)
    requires
        !waits_for(p.phase, input),
    ensures
        quietly(p.next(input, now), p),
{
    reveal(PipelineView::next_listening);
    reveal(PipelineView::next_asking);
    reveal(PipelineView::next_answering);
}

// ---------------------------------------------------------------------------
// While a response streams
// ---------------------------------------------------------------------------

/// The response begins once: everyone is told that the pipeline speaks where it
/// was at work before; where it speaks already, and in any other state, nothing
/// changes.
pub proof fn law_the_response_begins<T>(p: PipelineView<T>)
    ensures
        p.state is Processing ==> p.applied(StateEvent::ResponseStarted) == (PipelineView {
            state: State::Speaking,
            ..p
        }) && p.published(StateEvent::ResponseStarted) == seq![
            Action::<Seq<T>, Seq<char>>::Publish(State::Speaking),
        ],
        p.state !is Processing ==> p.applied(StateEvent::ResponseStarted) == p && p.published(
            StateEvent::ResponseStarted,
        ) == Seq::<Action<Seq<T>, Seq<char>>>::empty(),
{
}

// ---------------------------------------------------------------------------
// Reloading
// ---------------------------------------------------------------------------

/// A changed setting, in milliseconds, as a length of time; else as it was.
pub open spec fn millis_if_changed(old: u64, new: u64, held: Duration) -> Duration {
    if old != new {
        Duration { nanos: (new * 1_000_000) as u128 }
    } else {
        held
    }
}

/// What a reload changes: each setting that is another one in the new snapshot
/// takes its new value, and no other does. Nothing else changes. A changed wake
/// sensitivity has the detector built anew, and a changed device is noted.
pub proof fn law_reloading<T>(p: PipelineView<T>, new: TunablesView, now: Instant)
    requires
        p.phase is Running,
    ensures
        ({
            let m = p.next(Input::Reload(new), now);
            let old = p.tunables;
            &&& m.to == (PipelineView {
                tunables: new,
                speech_threshold: if old.speech_threshold != new.speech_threshold {
                    new.speech_threshold
                } else {
                    p.speech_threshold
                },
                endpointer: EndpointerView {
                    threshold: if old.speech_threshold != new.speech_threshold {
                        new.speech_threshold
                    } else {
                        p.endpointer.threshold
                    },
                    silence: millis_if_changed(
                        old.silence_duration_ms,
                        new.silence_duration_ms,
                        p.endpointer.silence,
                    ),
                    ..p.endpointer
                },
                followup_timeout: millis_if_changed(
                    old.followup_timeout_ms,
                    new.followup_timeout_ms,
                    p.followup_timeout,
                ),
                reuse_window: millis_if_changed(
                    old.conversation_reuse_window_ms,
                    new.conversation_reuse_window_ms,
                    p.reuse_window,
                ),
                conversation_mode: if old.conversation_mode != new.conversation_mode {
                    new.conversation_mode
                } else {
                    p.conversation_mode
                },
                idle_exit_timeout: if old.idle_exit_timeout_ms == new.idle_exit_timeout_ms {
                    p.idle_exit_timeout
                } else if new.idle_exit_timeout_ms == 0 {
                    None
                } else {
                    Some(Duration { nanos: (new.idle_exit_timeout_ms * 1_000_000) as u128 })
                },
                timeouts: TurnTimeouts {
                    response_stall: millis_if_changed(
                        old.response_stall_ms,
                        new.response_stall_ms,
                        p.timeouts.response_stall,
                    ),
                    turn_budget: millis_if_changed(
                        old.turn_budget_ms,
                        new.turn_budget_ms,
                        p.timeouts.turn_budget,
                    ),
                    status_narration_min_gap: millis_if_changed(
                        old.status_narration_min_gap_ms,
                        new.status_narration_min_gap_ms,
                        p.timeouts.status_narration_min_gap,
                    ),
                    ..p.timeouts
                },
                ..p
            })
            &&& m.actions == (if old.wake_sensitivity != new.wake_sensitivity {
                seq![Action::<Seq<T>, Seq<char>>::RebuildWake(new.wake_sensitivity)]
            } else {
                Seq::empty()
            }) + (if old.input_device != new.input_device || old.output_device
                != new.output_device {
                seq![
                    Action::<Seq<T>, Seq<char>>::NoteDeviceChange(
                        "input "@ + quoted(old.input_device) + "->"@ + quoted(new.input_device)
                            + ", output "@ + quoted(old.output_device) + "->"@ + quoted(
                            new.output_device,
                        ),
                    ),
                ]
            } else {
                Seq::empty()
            })
        }),
{
    reveal(PipelineView::reloaded);
    reveal(PipelineView::planned);
    reveal(PipelineView::reload_actions);
}

/// A reload while the microphone cannot be opened, or while a response streams,
/// changes what it changes at any time; in the first case the microphone is tried
/// again behind it.
pub proof fn law_reloading_at_other_times<T>(
    p: PipelineView<T>,
    first: bool,
    own: bool,
    new: TunablesView,
    now: Instant,
)
    ensures
        ({
            let m = p.next(Input::Reload(new), now);
            let running = PipelineView { phase: Phase::Running, ..p };
            let usual = running.next(Input::Reload(new), now);
            &&& p.phase == (Phase::<Seq<T>, Seq<char>>::Degraded { first }) ==> m.to == (
            PipelineView { phase: Phase::Starting { first }, ..usual.to }) && m.actions
                == usual.actions + seq![Action::<Seq<T>, Seq<char>>::StartSource]
            &&& p.phase == (Phase::<Seq<T>, Seq<char>>::Streaming { own }) ==> m.to == (
            PipelineView { phase: p.phase, ..usual.to }) && m.actions == usual.actions
        }),
{
    reveal(PipelineView::next_answering);
    reveal(PipelineView::reloaded);
    reveal(PipelineView::planned);
    reveal(PipelineView::reload_actions);
}

} // verus!
