//! The voice pipeline's state machine.

use vstd::prelude::*;

use crate::text::copy_of;

verus! {

/// What the pipeline is doing.
#[derive(Debug, Clone, Copy, PartialEq, Eq, Structural)]
pub enum State {
    /// Listening for the wake word.
    Idle,
    /// Recording the user until they fall silent.
    Listening,
    /// Transcribing and waiting for the assistant.
    Processing,
    /// Playing back the response.
    Speaking,
}

/// What moves the pipeline from one state to another.
#[derive(Debug, Clone, Copy, PartialEq, Eq, Structural)]
pub enum StateEvent {
    /// The wake word was heard.
    WakeWordDetected,
    /// Push-to-talk was pressed.
    PttPressed,
    /// The user fell silent behind speech.
    SilenceDetected,
    /// Nobody spoke while the pipeline listened.
    ListeningTimedOut,
    /// The first part of the response came.
    ResponseStarted,
    /// All of the response was played.
    PlaybackComplete,
    /// The user spoke over the response.
    BargeIn,
    /// The turn is over.
    TurnEnded,
    /// The pipeline listens for a follow-up.
    RelistenArmed,
    /// The user stopped the pipeline.
    Stopped,
}

/// The state that `event` leads to from `s`, where it is legal there.
pub open spec fn next_state(s: State, event: StateEvent) -> Option<State> {
    match event {
        StateEvent::WakeWordDetected => if s is Idle {
            Some(State::Listening)
        } else {
            None
        },
        StateEvent::PttPressed => if s is Idle || s is Speaking {
            Some(State::Listening)
        } else {
            None
        },
        StateEvent::SilenceDetected => if s is Listening {
            Some(State::Processing)
        } else {
            None
        },
        StateEvent::ListeningTimedOut => if s is Listening {
            Some(State::Idle)
        } else {
            None
        },
        StateEvent::ResponseStarted => if s is Processing || s is Speaking {
            Some(State::Speaking)
        } else {
            None
        },
        StateEvent::PlaybackComplete => if s is Speaking {
            Some(State::Idle)
        } else {
            None
        },
        StateEvent::BargeIn => if s is Speaking {
            Some(State::Listening)
        } else {
            None
        },
        StateEvent::TurnEnded => if s is Processing || s is Speaking {
            Some(State::Idle)
        } else {
            None
        },
        StateEvent::RelistenArmed => if s is Processing || s is Speaking {
            Some(State::Listening)
        } else {
            None
        },
        StateEvent::Stopped => Some(State::Idle),
    }
}

/// The state that a run of events leads to, where each is legal in its turn.
pub open spec fn run_events(s: State, events: Seq<StateEvent>) -> Option<State>
    decreases events.len(),
{
    if events.len() == 0 {
        Some(s)
    } else {
        match run_events(s, events.drop_last()) {
            Some(t) => next_state(t, events.last()),
            None => None,
        }
    }
}

impl State {
    /// The state that `event` leads to, or nothing where it is illegal here.
    pub fn transition(self, event: &StateEvent) -> (r: Option<State>)
        ensures
            r == next_state(self, *event),
    {
        match (self, *event) {
            (State::Idle, StateEvent::WakeWordDetected) => Some(State::Listening),
            (State::Idle, StateEvent::PttPressed) => Some(State::Listening),
            (State::Speaking, StateEvent::PttPressed) => Some(State::Listening),
            (State::Listening, StateEvent::SilenceDetected) => Some(State::Processing),
            (State::Listening, StateEvent::ListeningTimedOut) => Some(State::Idle),
            (State::Processing, StateEvent::ResponseStarted) => Some(State::Speaking),
            (State::Speaking, StateEvent::ResponseStarted) => Some(State::Speaking),
            (State::Speaking, StateEvent::PlaybackComplete) => Some(State::Idle),
            (State::Speaking, StateEvent::BargeIn) => Some(State::Listening),
            (State::Processing, StateEvent::TurnEnded) => Some(State::Idle),
            (State::Speaking, StateEvent::TurnEnded) => Some(State::Idle),
            (State::Speaking, StateEvent::RelistenArmed) => Some(State::Listening),
            (State::Processing, StateEvent::RelistenArmed) => Some(State::Listening),
            (_, StateEvent::Stopped) => Some(State::Idle),
            _ => None,
        }
    }

    pub open spec fn name_text(self) -> Seq<char> {
        match self {
            State::Idle => "Idle"@,
            State::Listening => "Listening"@,
            State::Processing => "Processing"@,
            State::Speaking => "Speaking"@,
        }
    }

    /// The state's name, as shown to users and on the bus.
    pub fn to_string(&self) -> (s: String)
        ensures
            s@ == self.name_text(),
    {
        match self {
            State::Idle => copy_of("Idle"),
            State::Listening => copy_of("Listening"),
            State::Processing => copy_of("Processing"),
            State::Speaking => copy_of("Speaking"),
        }
    }
}

/// A stop brings every state back to idle, and a second stop changes nothing.
pub proof fn law_stop_reaches_idle(s: State)
    ensures
        next_state(s, StateEvent::Stopped) == Some(State::Idle),
        run_events(s, seq![StateEvent::Stopped, StateEvent::Stopped]) == Some(State::Idle),
{
    let one = seq![StateEvent::Stopped];
    let two = seq![StateEvent::Stopped, StateEvent::Stopped];
    assert(two.drop_last() =~= one);
    assert(one.drop_last() =~= Seq::<StateEvent>::empty());
    assert(run_events(s, Seq::<StateEvent>::empty()) == Some(s));
    assert(run_events(s, one) == Some(State::Idle));
}

/// The response is spoken only behind a request in progress: `Speaking` is
/// entered from `Processing` alone, and `Processing` from `Listening` alone.
pub proof fn law_speaking_follows_processing(s: State, event: StateEvent)
    ensures
        next_state(s, event) == Some(State::Speaking) && s !is Speaking ==> s is Processing
            && event is ResponseStarted,
        next_state(s, event) == Some(State::Processing) ==> s is Listening
            && event is SilenceDetected,
{
}

/// The microphone is armed only by the wake word, push-to-talk, the user's
/// speech over the response, or a follow-up; and only a state that is not
/// already listening arms it.
pub proof fn law_what_arms_the_microphone(s: State, event: StateEvent)
    ensures
        next_state(s, event) == Some(State::Listening) ==> {
            &&& s !is Listening
            &&& event is WakeWordDetected || event is PttPressed || event is BargeIn
                || event is RelistenArmed
        },
{
}

/// No legal event leaves the state unchanged but a response that goes on and a
/// stop while idle.
pub proof fn law_only_two_events_change_nothing(s: State, event: StateEvent)
    ensures
        next_state(s, event) == Some(s) <==> (s is Speaking && event is ResponseStarted) || (s is Idle
            && event is Stopped),
{
}

/// Every state can be reached from every other.
pub proof fn law_every_state_is_reachable(from: State, to: State)
    ensures
        exists|events: Seq<StateEvent>| #[trigger] run_events(from, events) == Some(to),
{
    let e0 = seq![StateEvent::Stopped];
    let e1 = e0.push(StateEvent::WakeWordDetected);
    let e2 = e1.push(StateEvent::SilenceDetected);
    let e3 = e2.push(StateEvent::ResponseStarted);
    assert(e0.drop_last() =~= Seq::<StateEvent>::empty());
    assert(run_events(from, Seq::<StateEvent>::empty()) == Some(from));
    assert(run_events(from, e0) == Some(State::Idle));
    assert(e1.drop_last() =~= e0);
    assert(run_events(from, e1) == Some(State::Listening));
    assert(e2.drop_last() =~= e1);
    assert(run_events(from, e2) == Some(State::Processing));
    assert(e3.drop_last() =~= e2);
    assert(run_events(from, e3) == Some(State::Speaking));
}

/// Every change of state that there is, and no other: which event leads from
/// which state to which.
pub proof fn law_the_changes_of_state(s: State, event: StateEvent, t: State)
    ensures
        next_state(s, event) == Some(t) <==> {
            ||| s is Idle && event is WakeWordDetected && t is Listening
            ||| s is Idle && event is PttPressed && t is Listening
            ||| s is Speaking && event is PttPressed && t is Listening
            ||| s is Listening && event is SilenceDetected && t is Processing
            ||| s is Listening && event is ListeningTimedOut && t is Idle
            ||| s is Processing && event is ResponseStarted && t is Speaking
            ||| s is Speaking && event is ResponseStarted && t is Speaking
            ||| s is Speaking && event is PlaybackComplete && t is Idle
            ||| s is Speaking && event is BargeIn && t is Listening
            ||| s is Processing && event is TurnEnded && t is Idle
            ||| s is Speaking && event is TurnEnded && t is Idle
            ||| s is Processing && event is RelistenArmed && t is Listening
            ||| s is Speaking && event is RelistenArmed && t is Listening
            ||| event is Stopped && t is Idle
        },
{
}

/// The names of the states, as everyone is told them.
pub proof fn law_the_names_of_the_states()
    ensures
        State::Idle.name_text() == "Idle"@,
        State::Listening.name_text() == "Listening"@,
        State::Processing.name_text() == "Processing"@,
        State::Speaking.name_text() == "Speaking"@,
{
}

} // verus!
