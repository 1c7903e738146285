use adele_voice::state::{State, StateEvent};

#[test]
fn full_cycle() {
    let state = State::Idle;
    let state = state.transition(&StateEvent::WakeWordDetected).unwrap();
    assert_eq!(state, State::Listening);
    let state = state.transition(&StateEvent::SilenceDetected).unwrap();
    assert_eq!(state, State::Processing);
    let state = state.transition(&StateEvent::ResponseStarted).unwrap();
    assert_eq!(state, State::Speaking);
    let state = state.transition(&StateEvent::PlaybackComplete).unwrap();
    assert_eq!(state, State::Idle);
}

#[test]
fn barge_in() {
    let state = State::Speaking;
    let state = state.transition(&StateEvent::BargeIn).unwrap();
    assert_eq!(state, State::Listening);
}

#[test]
fn invalid_transition_returns_none() {
    assert!(
        State::Idle
            .transition(&StateEvent::SilenceDetected)
            .is_none()
    );
    assert!(
        State::Listening
            .transition(&StateEvent::WakeWordDetected)
            .is_none()
    );
    assert!(
        State::Processing
            .transition(&StateEvent::PlaybackComplete)
            .is_none()
    );
}

#[test]
fn display() {
    assert_eq!(State::Idle.to_string(), "Idle");
    assert_eq!(State::Listening.to_string(), "Listening");
    assert_eq!(State::Processing.to_string(), "Processing");
    assert_eq!(State::Speaking.to_string(), "Speaking");
}

#[test]
fn ptt_pressed_from_idle_or_speaking() {
    assert_eq!(
        State::Idle.transition(&StateEvent::PttPressed),
        Some(State::Listening)
    );
    assert_eq!(
        State::Speaking.transition(&StateEvent::PttPressed),
        Some(State::Listening)
    );
    // PTT from Listening/Processing is not a transition the pipeline makes.
    assert!(
        State::Listening
            .transition(&StateEvent::PttPressed)
            .is_none()
    );
    assert!(
        State::Processing
            .transition(&StateEvent::PttPressed)
            .is_none()
    );
}

#[test]
fn listening_timed_out() {
    assert_eq!(
        State::Listening.transition(&StateEvent::ListeningTimedOut),
        Some(State::Idle)
    );
    assert!(
        State::Idle
            .transition(&StateEvent::ListeningTimedOut)
            .is_none()
    );
    assert!(
        State::Speaking
            .transition(&StateEvent::ListeningTimedOut)
            .is_none()
    );
}

#[test]
fn response_started_is_noop_while_speaking() {
    assert_eq!(
        State::Processing.transition(&StateEvent::ResponseStarted),
        Some(State::Speaking)
    );
    // Publishing Speaking again from Speaking is a legal no-op.
    assert_eq!(
        State::Speaking.transition(&StateEvent::ResponseStarted),
        Some(State::Speaking)
    );
    // But not from Idle/Listening.
    assert!(
        State::Idle
            .transition(&StateEvent::ResponseStarted)
            .is_none()
    );
    assert!(
        State::Listening
            .transition(&StateEvent::ResponseStarted)
            .is_none()
    );
}

#[test]
fn turn_ended_from_processing_or_speaking() {
    assert_eq!(
        State::Processing.transition(&StateEvent::TurnEnded),
        Some(State::Idle)
    );
    assert_eq!(
        State::Speaking.transition(&StateEvent::TurnEnded),
        Some(State::Idle)
    );
    assert!(State::Idle.transition(&StateEvent::TurnEnded).is_none());
    assert!(
        State::Listening
            .transition(&StateEvent::TurnEnded)
            .is_none()
    );
}

#[test]
fn relisten_armed_from_speaking_or_processing() {
    assert_eq!(
        State::Speaking.transition(&StateEvent::RelistenArmed),
        Some(State::Listening)
    );
    assert_eq!(
        State::Processing.transition(&StateEvent::RelistenArmed),
        Some(State::Listening)
    );
    assert!(State::Idle.transition(&StateEvent::RelistenArmed).is_none());
    assert!(
        State::Listening
            .transition(&StateEvent::RelistenArmed)
            .is_none()
    );
}

#[test]
fn stopped_from_any_non_idle_and_idempotent_in_idle() {
    for from in [State::Listening, State::Processing, State::Speaking] {
        assert_eq!(
            from.transition(&StateEvent::Stopped),
            Some(State::Idle),
            "Stopped from {from:?} should go Idle"
        );
    }
    // Idempotent: a second stop while already Idle is a no-op, not an error.
    assert_eq!(
        State::Idle.transition(&StateEvent::Stopped),
        Some(State::Idle)
    );
}

#[test]
fn barge_in_only_from_speaking() {
    assert_eq!(
        State::Speaking.transition(&StateEvent::BargeIn),
        Some(State::Listening)
    );
    assert!(State::Idle.transition(&StateEvent::BargeIn).is_none());
    assert!(State::Listening.transition(&StateEvent::BargeIn).is_none());
    assert!(State::Processing.transition(&StateEvent::BargeIn).is_none());
}
