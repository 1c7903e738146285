//! What holds of the voice pipeline as a whole, whatever happens.

use vstd::prelude::*;

use crate::config::TunablesView;
use crate::phrases::asks_to_stop;
use crate::pipeline::{millis, Action, Input, Move, Phase, PipelineView, UtteranceOutcome};
use crate::state::{next_state, State, StateEvent};
use crate::time::{elapsed, Instant};
use crate::turn::{StopRequest, StreamEnd};

verus! {

// ---------------------------------------------------------------------------
// State and phase
// ---------------------------------------------------------------------------

/// Whether the state fits what the pipeline waits for.
pub open spec fn consistent<T>(p: PipelineView<T>) -> bool {
    match p.phase {
        Phase::Ready | Phase::Starting { .. } | Phase::Degraded { .. } => p.state is Idle,
        Phase::Running => p.state is Idle || p.state is Listening,
        Phase::CheckingWake => p.state is Idle,
        Phase::Measuring { .. } => p.state is Listening,
        Phase::EnteringPtt { .. } => p.state is Idle || p.state is Speaking,
        Phase::WakeCue { .. } | Phase::WakeSettle => p.state is Listening,
        Phase::Transcribing | Phase::Creating { .. } | Phase::Subscribing { .. }
        | Phase::Sending { .. } => p.state is Processing,
        Phase::Acknowledging | Phase::Apologizing => p.state is Speaking,
        Phase::Streaming { .. } | Phase::RelistenDrain => p.state is Processing
            || p.state is Speaking,
        Phase::RelistenCue | Phase::RelistenSettle => p.state is Listening,
        Phase::Finished => true,
    }
}

/// Whether the input can come: the user speaks over the response only while it
/// is spoken.
pub open spec fn can_come<T>(
    p: PipelineView<T>,
    input: Input<Seq<T>, Seq<char>, TunablesView>,
) -> bool {
    input matches Input::TurnOver { end, .. } ==> end is BargedIn ==> p.state is Speaking
}

/// Whether a step leads from `from` by a legal change to a state that fits what
/// the pipeline then waits for.
pub open spec fn keeps_order<T>(from: State, m: Move<T>) -> bool {
    &&& consistent(m.to)
    &&& m.to.state == from || exists|event: StateEvent| #[trigger]
        next_state(from, event) == Some(m.to.state)
}

/// Whether everyone is told the state that a step leads to, and no other, where
/// it is not the one that the pipeline was in.
pub open spec fn tells<T>(from: State, m: Move<T>) -> bool {
    &&& forall|i: int|
        0 <= i < m.actions.len() && (#[trigger] m.actions[i]) is Publish ==> m.actions[i]
            == Action::<Seq<T>, Seq<char>>::Publish(m.to.state)
    &&& m.to.state != from ==> exists|i: int|
        0 <= i < m.actions.len() && #[trigger] m.actions[i]
            == Action::<Seq<T>, Seq<char>>::Publish(m.to.state)
}

proof fn lemma_step_wake<T>(p: PipelineView<T>, now: Instant)
    requires
        p.state is Idle,
    ensures
        tells(p.state, p.on_wake(now)),
        keeps_order(p.state, p.on_wake(now)),
{
    reveal(PipelineView::on_wake);
    let m = p.on_wake(now);
    if m.to.state != p.state {
        assert(m.actions[0] == Action::<Seq<T>, Seq<char>>::Publish(m.to.state));
    }
}

proof fn lemma_step_ptt<T>(p: PipelineView<T>, target: Option<Seq<char>>, playing: bool)
    requires
        p.state is Idle || p.state is Speaking,
    ensures
        tells(p.state, p.on_ptt(target, playing)),
        keeps_order(p.state, p.on_ptt(target, playing)),
{
    reveal(PipelineView::on_ptt);
    let m = p.on_ptt(target, playing);
}

proof fn lemma_step_ptt_ready<T>(p: PipelineView<T>, target: Option<Seq<char>>, now: Instant)
    requires
        p.state is Idle || p.state is Speaking,
    ensures
        tells(p.state, p.on_ptt_ready(target, now)),
        keeps_order(p.state, p.on_ptt_ready(target, now)),
{
    reveal(PipelineView::on_ptt_ready);
    let m = p.on_ptt_ready(target, now);
    if m.to.state != p.state {
        assert(m.actions[0] == Action::<Seq<T>, Seq<char>>::Publish(m.to.state));
    }
}

proof fn lemma_step_stop<T>(p: PipelineView<T>, request: StopRequest)
    requires
        p.phase is Running,
        p.state is Idle || p.state is Listening,
    ensures
        tells(p.state, p.on_stop(request)),
        keeps_order(p.state, p.on_stop(request)),
{
    reveal(PipelineView::on_stop);
    let m = p.on_stop(request);
    if m.to.state != p.state {
        assert(m.actions[1] == Action::<Seq<T>, Seq<char>>::Publish(m.to.state));
    }
}

proof fn lemma_step_capture_lost<T>(p: PipelineView<T>)
    ensures
        tells(p.state, p.on_capture_lost()),
        keeps_order(p.state, p.on_capture_lost()),
{
    reveal(PipelineView::on_capture_lost);
    let m = p.on_capture_lost();
    if m.to.state != p.state {
        assert(m.actions[1] == Action::<Seq<T>, Seq<char>>::Publish(m.to.state));
    }
}

proof fn lemma_step_audio<T>(p: PipelineView<T>, chunk: Seq<T>, playing: bool, in_tail_pad: bool, enabled: bool, now: Instant)
    requires
        p.phase is Running,
        p.state is Idle || p.state is Listening,
    ensures
        tells(p.state, p.on_audio(chunk, playing, in_tail_pad, enabled, now)),
        keeps_order(p.state, p.on_audio(chunk, playing, in_tail_pad, enabled, now)),
{
    reveal(PipelineView::on_audio);
    let m = p.on_audio(chunk, playing, in_tail_pad, enabled, now);
}

proof fn lemma_step_level<T>(p: PipelineView<T>, chunk: Seq<T>, level: i32, playing: bool, now: Instant)
    requires
        p.state is Listening,
    ensures
        tells(p.state, p.on_level(chunk, level, playing, now)),
        keeps_order(p.state, p.on_level(chunk, level, playing, now)),
{
    reveal(PipelineView::on_level);
    let m = p.on_level(chunk, level, playing, now);
    if m.to.state != p.state {
        if p.state is Speaking && level >= p.speech_threshold {
            assert(m.actions[1] == Action::<Seq<T>, Seq<char>>::Publish(m.to.state));
        } else {
            assert(m.actions[0] == Action::<Seq<T>, Seq<char>>::Publish(m.to.state));
        }
    }
}

proof fn lemma_step_concluded<T>(p: PipelineView<T>, outcome: UtteranceOutcome)
    requires
        p.state is Processing || p.state is Speaking,
    ensures
        tells(p.state, p.concluded(outcome)),
        keeps_order(p.state, p.concluded(outcome)),
{
    reveal(PipelineView::concluded);
    let m = p.concluded(outcome);
    if m.to.state != p.state {
        assert(m.actions[0] == Action::<Seq<T>, Seq<char>>::Publish(m.to.state));
    }
}

proof fn lemma_step_transcribed<T>(p: PipelineView<T>, said: Option<Seq<char>>)
    requires
        p.state is Processing,
    ensures
        tells(p.state, p.on_transcribed(said)),
        keeps_order(p.state, p.on_transcribed(said)),
{
    reveal(PipelineView::on_transcribed);
    let m = p.on_transcribed(said);
    if said is None {
        lemma_step_concluded(p, UtteranceOutcome::Continue);
    } else if m.to.state != p.state {
        assert(m.actions[1] == Action::<Seq<T>, Seq<char>>::Publish(m.to.state));
    }
}

proof fn lemma_step_failed<T>(p: PipelineView<T>)
    requires
        p.state is Processing || p.state is Speaking,
    ensures
        tells(p.state, p.failed()),
        keeps_order(p.state, p.failed()),
{
    reveal(PipelineView::failed);
    let m = p.failed();
    if m.to.state != p.state {
        assert(m.actions[0] == Action::<Seq<T>, Seq<char>>::Publish(m.to.state));
    }
}

proof fn lemma_step_interrupted<T>(p: PipelineView<T>, end: StreamEnd<Seq<T>, Seq<char>>, playing: bool, now: Instant)
    requires
        p.phase is Running,
        p.state is Processing || p.state is Speaking,
        end is BargedIn ==> p.state is Speaking,
        end !is Completed,
    ensures
        tells(p.state, p.interrupted(end, playing, now)),
        keeps_order(p.state, p.interrupted(end, playing, now)),
{
    reveal(PipelineView::interrupted);
    reveal(PipelineView::on_ptt);
    let m = p.interrupted(end, playing, now);
    if m.to.state != p.state {
        assert(m.actions[1] == Action::<Seq<T>, Seq<char>>::Publish(m.to.state));
    }
}

proof fn lemma_step_turn_over<T>(p: PipelineView<T>, own: bool, end: StreamEnd<Seq<T>, Seq<char>>, playing: bool, now: Instant)
    requires
        p.state is Processing || p.state is Speaking,
        end is BargedIn ==> p.state is Speaking,
    ensures
        tells(p.state, p.on_turn_over(own, end, playing, now)),
        keeps_order(p.state, p.on_turn_over(own, end, playing, now)),
{
    reveal(PipelineView::on_turn_over);
    let m = p.on_turn_over(own, end, playing, now);
    let q = PipelineView {
        last_own_activity: if own {
            Some(now)
        } else {
            p.last_own_activity
        },
        ..p.in_phase(Phase::Running)
    };
    if end is Completed {
        lemma_step_concluded(q, q.outcome());
    } else {
        lemma_step_interrupted(q, end, playing, now);
    }
}

proof fn lemma_step_relisten<T>(p: PipelineView<T>)
    requires
        p.state is Processing || p.state is Speaking,
    ensures
        tells(p.state, p.on_relisten()),
        keeps_order(p.state, p.on_relisten()),
{
    reveal(PipelineView::on_relisten);
    let m = p.on_relisten();
    if m.to.state != p.state {
        assert(m.actions[0] == Action::<Seq<T>, Seq<char>>::Publish(m.to.state));
    }
}

/// Every step of the pipeline is in order, and tells everyone.
proof fn lemma_step<T>(
    p: PipelineView<T>,
    input: Input<Seq<T>, Seq<char>, TunablesView>,
    now: Instant,
)
    requires
        consistent(p),
        can_come(p, input),
    ensures
        tells(p.state, p.next(input, now)),
        keeps_order(p.state, p.next(input, now)),
{
    reveal(PipelineView::next_listening);
    reveal(PipelineView::next_asking);
    reveal(PipelineView::next_answering);
    reveal(PipelineView::reloaded);
    reveal(PipelineView::reload_actions);
    reveal(PipelineView::planned);
    let q = p.in_phase(Phase::Running);
    match p.phase {
        Phase::Running => match input {
            Input::Ptt { target, playing } => {
                if p.state is Idle {
                    lemma_step_ptt(p, target, playing);
                }
            },
            Input::Stop(request) => {
                lemma_step_stop(p, request);
            },
            Input::Audio { chunk, playing, in_tail_pad, enabled } => {
                lemma_step_audio(p, chunk, playing, in_tail_pad, enabled, now);
            },
            Input::CaptureClosed => {
                lemma_step_capture_lost(p);
            },
            _ => {},
        },
        Phase::CheckingWake => {
            lemma_step_wake(q, now);
        },
        Phase::Measuring { chunk } => {
            if let Input::SpeechLevel { level, playing } = input {
                lemma_step_level(q, chunk, level, playing, now);
            }
        },
        Phase::EnteringPtt { target } => {
            lemma_step_ptt_ready(q, target, now);
        },
        Phase::Transcribing => {
            if let Input::Transcribed(said) = input {
                lemma_step_transcribed(q, said);
            }
            lemma_step_failed(q);
        },
        Phase::Acknowledging | Phase::Creating { .. } | Phase::Subscribing { .. }
        | Phase::Sending { .. } | Phase::Apologizing => {
            lemma_step_concluded(q, UtteranceOutcome::EndConversation);
            lemma_step_failed(q);
        },
        Phase::Streaming { own } => {
            if let Input::TurnOver { end, playing } = input {
                lemma_step_turn_over(q, own, end, playing, now);
            }
            lemma_step_failed(q);
        },
        Phase::RelistenDrain => {
            lemma_step_relisten(q);
        },
        _ => {},
    }
}

/// The state always fits what the pipeline waits for: between turns it is idle
/// or listens, and it never hangs in the middle of a turn that is over.
pub proof fn law_state_fits_phase<T>(
    p: PipelineView<T>,
    input: Input<Seq<T>, Seq<char>, TunablesView>,
    now: Instant,
)
    requires
        consistent(p),
        can_come(p, input),
    ensures
        consistent(p.next(input, now).to),
{
    lemma_step(p, input, now);
}

/// Every change of state is a legal one.
pub proof fn law_every_change_is_legal<T>(
    p: PipelineView<T>,
    input: Input<Seq<T>, Seq<char>, TunablesView>,
    now: Instant,
)
    requires
        consistent(p),
        can_come(p, input),
    ensures
        p.next(input, now).to.state == p.state || exists|event: StateEvent| #[trigger]
            next_state(p.state, event) == Some(p.next(input, now).to.state),
{
    lemma_step(p, input, now);
}

/// Everyone is always told the state that the pipeline is in: a step that
/// changes it publishes the new one, and none publishes any other.
pub proof fn law_published_state_never_drifts<T>(
    p: PipelineView<T>,
    input: Input<Seq<T>, Seq<char>, TunablesView>,
    now: Instant,
)
    requires
        consistent(p),
        can_come(p, input),
    ensures
        tells(p.state, p.next(input, now)),
{
    lemma_step(p, input, now);
}

// ---------------------------------------------------------------------------
// Stopping
// ---------------------------------------------------------------------------

/// Whether no conversation is left that anything could be taken up from.
pub open spec fn forgotten<T>(p: PipelineView<T>) -> bool {
    p.conversation_id is None && p.last_own_activity is None && p.target is None
}

/// A request to end the conversation is obeyed whenever it comes, in a turn or
/// outside one: the pipeline is idle behind it and the conversation forgotten.
/// Asking twice is the same as asking once.
pub proof fn law_stop_ends_the_conversation<T>(
    p: PipelineView<T>,
    own: bool,
    playing: bool,
    now: Instant,
)
    ensures
        p.on_stop(StopRequest::Conversation).to.state is Idle,
        forgotten(p.on_stop(StopRequest::Conversation).to),
        p.on_turn_over(
            own,
            StreamEnd::Stopped(StopRequest::Conversation),
            playing,
            now,
        ).to.state is Idle,
        forgotten(
            p.on_turn_over(
                own,
                StreamEnd::Stopped(StopRequest::Conversation),
                playing,
                now,
            ).to,
        ),
        p.on_stop(StopRequest::Conversation).to.on_stop(StopRequest::Conversation).to == p.on_stop(
            StopRequest::Conversation,
        ).to,
{
    reveal(PipelineView::on_stop);
    reveal(PipelineView::on_turn_over);
    reveal(PipelineView::interrupted);
    let once = p.on_stop(StopRequest::Conversation).to;
    assert(once.on_stop(StopRequest::Conversation).to =~= once);
}

/// A request to stop speaking in a turn brings the pipeline back to idle and
/// keeps the conversation, to be taken up again.
pub proof fn law_stop_speaking_keeps_the_conversation<T>(
    p: PipelineView<T>,
    own: bool,
    playing: bool,
    now: Instant,
)
    ensures
        ({
            let q = p.on_turn_over(
                own,
                StreamEnd::Stopped(StopRequest::Speaking),
                playing,
                now,
            ).to;
            q.state is Idle && q.conversation_id == p.conversation_id && (own
                ==> q.last_own_activity == Some(now))
        }),
{
    reveal(PipelineView::on_turn_over);
    reveal(PipelineView::interrupted);
}

/// A turn in which the assistant asked to end the session, in which the user
/// asked to stop, or which failed, ends idle with the conversation forgotten,
/// in any mode.
pub proof fn law_ended_sessions_are_forgotten<T>(p: PipelineView<T>)
    requires
        p.state is Processing || p.state is Speaking,
    ensures
        p.concluded(UtteranceOutcome::EndConversation).to.state is Idle,
        p.concluded(UtteranceOutcome::EndConversation).to.phase is Running,
        forgotten(p.concluded(UtteranceOutcome::EndConversation).to),
        p.end_requested ==> p.outcome() is EndConversation,
        p.failed().to.phase is Apologizing && p.failed().to.state is Speaking,
{
    reveal(PipelineView::concluded);
    reveal(PipelineView::failed);
}

/// A conversation that was ended is never taken up again: however soon the next
/// prompt comes, a new conversation is opened for it.
pub proof fn law_forgotten_conversations_stay_forgotten<T>(
    p: PipelineView<T>,
    now: Instant,
    prompt: Seq<char>,
)
    requires
        forgotten(p),
        !asks_to_stop(prompt),
    ensures
        forgotten(p.on_wake(now).to),
        forgotten(p.on_ptt_ready(None, now).to),
        p.on_transcribed(Some(prompt)).to.phase == (Phase::<Seq<T>, Seq<char>>::Creating {
            prompt,
        }),
{
    reveal(PipelineView::on_wake);
    reveal(PipelineView::on_ptt_ready);
    reveal(PipelineView::on_transcribed);
}

// ---------------------------------------------------------------------------
// Taking a conversation up again
// ---------------------------------------------------------------------------

/// On a wake the own conversation is taken up again exactly where it was last
/// used within the window; without a window it never is.
pub proof fn law_reuse_window<T>(p: PipelineView<T>, now: Instant)
    requires
        p.conversation_id is Some,
    ensures
        p.on_wake(now).to.conversation_id == (if p.reuse_window.nanos > 0 && p.last_own_activity
            is Some && elapsed(p.last_own_activity->0, now) <= p.reuse_window.nanos {
            p.conversation_id
        } else {
            None
        }),
        p.on_wake(now).to.target is None,
{
    reveal(PipelineView::on_wake);
}

/// A prompt goes to the conversation that push-to-talk was pressed for, and the
/// own conversation is left alone; without one it goes to the own conversation.
pub proof fn law_prompts_reach_their_conversation<T>(p: PipelineView<T>, prompt: Seq<char>)
    requires
        !asks_to_stop(prompt),
    ensures
        p.target is Some ==> p.on_transcribed(Some(prompt)).to == p.in_phase(
            Phase::Subscribing { conversation_id: p.target->0, prompt, own: false },
        ),
        p.target is None && p.conversation_id is Some ==> p.on_transcribed(Some(prompt)).to
            == p.in_phase(
            Phase::Subscribing { conversation_id: p.conversation_id->0, prompt, own: true },
        ),
{
    reveal(PipelineView::on_transcribed);
}

/// The prompt that is sent is what the user said, unchanged; what the assistant
/// is told besides goes beside it.
pub proof fn law_prompts_are_sent_clean<T>(
    p: PipelineView<T>,
    conversation_id: Seq<char>,
    prompt: Seq<char>,
    own: bool,
    now: Instant,
)
    requires
        p.phase == (Phase::<Seq<T>, Seq<char>>::Subscribing { conversation_id, prompt, own }),
    ensures
        p.next(Input::Subscribed, now).actions == seq![
            Action::<Seq<T>, Seq<char>>::SendPrompt { conversation_id, prompt, hint: p.hint },
        ],
{
    reveal(PipelineView::next_asking);
}

// ---------------------------------------------------------------------------
// Listening
// ---------------------------------------------------------------------------

/// The pipeline never wakes on its own voice, nor while it is told not to
/// listen for the wake word: no chunk captured then reaches the detector.
pub proof fn law_own_voice_never_wakes<T>(
    p: PipelineView<T>,
    chunk: Seq<T>,
    playing: bool,
    in_tail_pad: bool,
    enabled: bool,
    now: Instant,
)
    requires
        p.state is Idle,
        playing || !enabled,
    ensures
        p.on_audio(chunk, playing, in_tail_pad, enabled, now).to.phase !is CheckingWake || p.phase
            is CheckingWake,
        !p.on_audio(chunk, playing, in_tail_pad, enabled, now).actions.contains(
            Action::DetectWake(chunk),
        ),
{
    reveal(PipelineView::on_audio);
}

/// What the user says in the same breath as the wake word is not lost: the
/// utterance begins with the samples captured last before the wake.
pub proof fn law_same_breath_is_kept<T>(p: PipelineView<T>, now: Instant)
    ensures
        p.on_wake(now).to.endpointer.buffer == p.recent,
        p.on_wake(now).to.endpointer.last_speech_at is None,
        p.on_wake(now).to.recent == Seq::<T>::empty(),
{
    reveal(PipelineView::on_wake);
}

/// The echo of a spoken cue is never taken for the user: behind it, and behind
/// every response that is followed up, what was captured meanwhile is dropped
/// before the pipeline listens on.
pub proof fn law_echo_is_dropped<T>(p: PipelineView<T>, now: Instant)
    ensures
        p.phase == (Phase::<Seq<T>, Seq<char>>::WakeCue { settle: true }) ==> p.next(
            Input::CuePlayed,
            now,
        ).actions == seq![Action::<Seq<T>, Seq<char>>::DrainEcho],
        p.cue is Phrase ==> p.on_wake(now).to.phase == (Phase::<Seq<T>, Seq<char>>::WakeCue {
            settle: true,
        }),
        p.phase is RelistenCue ==> p.next(Input::CuePlayed, now).actions == seq![
            Action::<Seq<T>, Seq<char>>::DrainEcho,
        ],
        p.phase is RelistenSettle ==> p.next(Input::EchoDrained, now).to.endpointer.buffer
            == Seq::<T>::empty(),
        p.phase is EnteringPtt ==> p.next(Input::EchoDrained, now).to.endpointer.buffer
            == Seq::<T>::empty(),
{
    reveal(PipelineView::next_listening);
    reveal(PipelineView::next_answering);
    reveal(PipelineView::on_wake);
    reveal(PipelineView::on_ptt_ready);
}

/// Push-to-talk silences whatever plays before the pipeline listens, in every
/// state.
pub proof fn law_ptt_silences_first<T>(p: PipelineView<T>, target: Option<Seq<char>>)
    ensures
        p.on_ptt(target, true).actions == seq![
            Action::<Seq<T>, Seq<char>>::StopPlayback,
            Action::DrainEcho,
        ],
        p.on_ptt(target, false).actions == seq![Action::<Seq<T>, Seq<char>>::DrainEcho],
{
    reveal(PipelineView::on_ptt);
    assert(p.on_ptt(target, true).actions =~= seq![
        Action::<Seq<T>, Seq<char>>::StopPlayback,
        Action::DrainEcho,
    ]);
    assert(p.on_ptt(target, false).actions =~= seq![Action::<Seq<T>, Seq<char>>::DrainEcho]);
}

/// A lost microphone is always opened again, and the pipeline is idle
/// meanwhile; while it cannot be opened the pipeline stays alive, and a reload
/// tries again.
pub proof fn law_capture_is_recovered<T>(p: PipelineView<T>, first: bool, new: TunablesView, now: Instant)
    ensures
        p.on_capture_lost().to.state is Idle,
        p.on_capture_lost().to.phase == (Phase::<Seq<T>, Seq<char>>::Starting { first: false }),
        p.on_capture_lost().actions.last() == Action::<Seq<T>, Seq<char>>::StartSource,
        p.phase == (Phase::<Seq<T>, Seq<char>>::Degraded { first }) ==> p.next(
            Input::Reload(new),
            now,
        ).to.phase == (Phase::<Seq<T>, Seq<char>>::Starting { first }),
        p.phase == (Phase::<Seq<T>, Seq<char>>::Degraded { first }) ==> p.next(
            Input::Reload(new),
            now,
        ).actions.last() == Action::<Seq<T>, Seq<char>>::StartSource,
{
    reveal(PipelineView::on_capture_lost);
    reveal(PipelineView::reload_actions);
}

// ---------------------------------------------------------------------------
// Reloading
// ---------------------------------------------------------------------------

/// Whether the pipeline works with the settings that its snapshot holds.
pub open spec fn in_step<T>(p: PipelineView<T>) -> bool {
    let t = p.tunables;
    &&& p.speech_threshold == t.speech_threshold
    &&& p.endpointer.threshold == t.speech_threshold
    &&& p.endpointer.silence == millis(t.silence_duration_ms)
    &&& p.followup_timeout == millis(t.followup_timeout_ms)
    &&& p.reuse_window == millis(t.conversation_reuse_window_ms)
    &&& p.conversation_mode == t.conversation_mode
    &&& p.idle_exit_timeout == (if t.idle_exit_timeout_ms > 0 {
        Some(millis(t.idle_exit_timeout_ms))
    } else {
        None
    })
    &&& p.timeouts.response_stall == millis(t.response_stall_ms)
    &&& p.timeouts.turn_budget == millis(t.turn_budget_ms)
    &&& p.timeouts.status_narration_min_gap == millis(t.status_narration_min_gap_ms)
}

/// A reload takes over every changed setting: a pipeline that works with its
/// snapshot works with the new one behind it.
pub proof fn law_reload_takes_over_everything<T>(p: PipelineView<T>, new: TunablesView)
    requires
        in_step(p),
    ensures
        in_step(p.reloaded(new)),
        p.reloaded(new).tunables == new,
{
    reveal(PipelineView::reloaded);
    reveal(PipelineView::planned);
}

/// A reload disturbs nothing in progress: neither the state nor what is waited
/// for, neither the conversation nor the utterance captured so far.
pub proof fn law_reload_disturbs_nothing<T>(p: PipelineView<T>, new: TunablesView)
    ensures
        ({
            let q = p.reloaded(new);
            &&& q.state == p.state && q.phase == p.phase
            &&& q.conversation_id == p.conversation_id && q.target == p.target
            &&& q.last_own_activity == p.last_own_activity
            &&& q.endpointer.buffer == p.endpointer.buffer
            &&& q.endpointer.last_speech_at == p.endpointer.last_speech_at
            &&& q.endpointer.deadline == p.endpointer.deadline
            &&& q.recent == p.recent
        }),
{
    reveal(PipelineView::reloaded);
    reveal(PipelineView::planned);
}

} // verus!
