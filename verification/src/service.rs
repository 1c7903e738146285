//! What other programs are told over the bus.

use vstd::prelude::*;

use crate::state::State;
use crate::text::copy_of;

verus! {

/// The name of the service on the bus.
pub const DBUS_VOICE_NAME: &'static str = "org.desktopAssistant.Voice";

/// Where the service is found on the bus.
pub const DBUS_VOICE_PATH: &'static str = "/org/desktopAssistant/Voice";

/// Whether the microphone is open, and if not, why.
#[derive(Debug, Clone, Copy, PartialEq, Eq, Structural)]
pub enum CaptureState {
    Capturing,
    /// The session is in the background.
    PausedSessionInactive,
    /// Voice processing is switched off.
    PausedDisabled,
    /// The device could not be opened.
    Unavailable,
}

impl Default for CaptureState {
    fn default() -> (s: CaptureState)
        ensures
            s == CaptureState::Capturing,
    {
        CaptureState::Capturing
    }
}

impl CaptureState {
    pub open spec fn name_text(self) -> Seq<char> {
        match self {
            CaptureState::Capturing => "Capturing"@,
            CaptureState::PausedSessionInactive => "PausedSessionInactive"@,
            CaptureState::PausedDisabled => "PausedDisabled"@,
            CaptureState::Unavailable => "Unavailable"@,
        }
    }

    /// The name that is told.
    pub fn to_string(&self) -> (s: String)
        ensures
            s@ == self.name_text(),
    {
        match self {
            CaptureState::Capturing => copy_of("Capturing"),
            CaptureState::PausedSessionInactive => copy_of("PausedSessionInactive"),
            CaptureState::PausedDisabled => copy_of("PausedDisabled"),
            CaptureState::Unavailable => copy_of("Unavailable"),
        }
    }
}

/// What is told of the microphone: whether the session allows it to be open, and
/// whether the device is.
pub fn capture_state(session_active: bool, opened: bool) -> (s: CaptureState)
    ensures
        s == (if !session_active {
            CaptureState::PausedSessionInactive
        } else if !opened {
            CaptureState::Unavailable
        } else {
            CaptureState::Capturing
        }),
{
    if !session_active {
        CaptureState::PausedSessionInactive
    } else if !opened {
        CaptureState::Unavailable
    } else {
        CaptureState::Capturing
    }
}

/// The names that are told differ wherever the states do.
pub proof fn law_capture_names_differ(a: CaptureState, b: CaptureState)
    requires
        a.name_text() == b.name_text(),
    ensures
        a == b,
{
    reveal_strlit("Capturing");
    reveal_strlit("PausedSessionInactive");
    reveal_strlit("PausedDisabled");
    reveal_strlit("Unavailable");
    assert("Capturing"@.len() == 9 && "PausedSessionInactive"@.len() == 21);
    assert("PausedDisabled"@.len() == 14 && "Unavailable"@.len() == 11);
}

/// The conversation that a push-to-talk request is for: none in particular
/// where the id is empty.
pub fn ptt_target(conversation_id: &str) -> (t: Option<String>)
    ensures
        t is Some <==> conversation_id@.len() > 0,
        t is Some ==> t->0@ == conversation_id@,
{
    if conversation_id.is_empty() {
        None
    } else {
        Some(copy_of(conversation_id))
    }
}

/// News of a turn. `S` holds text; a score is held as
/// [`single`](crate::single) holds it.
#[derive(Debug, PartialEq, Eq)]
pub enum VoiceSignal<S> {
    /// The user said this.
    TranscriptReady(S),
    /// This is about to be spoken.
    SpeakingText(S),
    /// So many utterances of so many were heard, the last with this score.
    CalibrationProgress { captured: u32, total: u32, score: i64 },
}

/// What is told over the bus. `S` holds text.
#[derive(Debug, PartialEq, Eq)]
pub enum Emission<S> {
    StateChanged(S),
    TranscriptReady(S),
    SpeakingText(S),
    CalibrationProgress { captured: u32, total: u32, score: i64 },
}

pub open spec fn news_view(s: VoiceSignal<String>) -> VoiceSignal<Seq<char>> {
    match s {
        VoiceSignal::TranscriptReady(t) => VoiceSignal::TranscriptReady(t@),
        VoiceSignal::SpeakingText(t) => VoiceSignal::SpeakingText(t@),
        VoiceSignal::CalibrationProgress { captured, total, score } =>
            VoiceSignal::CalibrationProgress { captured, total, score },
    }
}

pub open spec fn emission_view(e: Emission<String>) -> Emission<Seq<char>> {
    match e {
        Emission::StateChanged(t) => Emission::StateChanged(t@),
        Emission::TranscriptReady(t) => Emission::TranscriptReady(t@),
        Emission::SpeakingText(t) => Emission::SpeakingText(t@),
        Emission::CalibrationProgress { captured, total, score } =>
            Emission::CalibrationProgress { captured, total, score },
    }
}

/// What is told of news.
pub open spec fn emission_for(s: VoiceSignal<Seq<char>>) -> Emission<Seq<char>> {
    match s {
        VoiceSignal::TranscriptReady(t) => Emission::TranscriptReady(t),
        VoiceSignal::SpeakingText(t) => Emission::SpeakingText(t),
        VoiceSignal::CalibrationProgress { captured, total, score } =>
            Emission::CalibrationProgress { captured, total, score },
    }
}

/// What comes to the forwarder.
#[derive(Debug, PartialEq, Eq)]
pub enum ForwarderInput {
    /// The state changed to this.
    State(State),
    /// The state will not change any more.
    StateEnded,
    News(VoiceSignal<String>),
    /// No more news comes.
    NewsEnded,
}

/// What the forwarder does. `E` is what is told.
#[derive(Debug, PartialEq, Eq)]
pub enum ForwarderStep<E> {
    Emit(E),
    Wait,
    Stop,
}

pub open spec fn step_view(s: ForwarderStep<Emission<String>>) -> ForwarderStep<
    Emission<Seq<char>>,
> {
    match s {
        ForwarderStep::Emit(e) => ForwarderStep::Emit(emission_view(e)),
        ForwarderStep::Wait => ForwarderStep::Wait,
        ForwarderStep::Stop => ForwarderStep::Stop,
    }
}

/// Tells the state and the news over the bus until neither comes any more.
pub struct SignalForwarder {
    state_ended: bool,
    news_ended: bool,
}

impl SignalForwarder {
    pub closed spec fn state_over(&self) -> bool {
        self.state_ended
    }

    pub closed spec fn news_over(&self) -> bool {
        self.news_ended
    }

    /// Begins by telling the state as it is.
    pub fn new(state: State) -> (r: (SignalForwarder, Emission<String>))
        ensures
            !r.0.state_over() && !r.0.news_over(),
            emission_view(r.1) == Emission::StateChanged(state.name_text()),
    {
        (
            SignalForwarder { state_ended: false, news_ended: false },
            Emission::StateChanged(state.to_string()),
        )
    }

    /// Takes in what came and says what to do.
    pub fn on_input(&mut self, input: ForwarderInput) -> (step: ForwarderStep<Emission<String>>)
        ensures
            final(self).state_over() == (old(self).state_over() || input is StateEnded),
            final(self).news_over() == (old(self).news_over() || input is NewsEnded),
            step_view(step) == (match input {
                ForwarderInput::State(s) => ForwarderStep::Emit(
                    Emission::StateChanged(s.name_text()),
                ),
                ForwarderInput::News(n) => ForwarderStep::Emit(emission_for(news_view(n))),
                _ => if final(self).state_over() && final(self).news_over() {
                    ForwarderStep::Stop
                } else {
                    ForwarderStep::Wait
                },
            }),
    {
        match input {
            ForwarderInput::State(s) => {
                return ForwarderStep::Emit(Emission::StateChanged(s.to_string()));
            },
            ForwarderInput::News(VoiceSignal::TranscriptReady(t)) => {
                return ForwarderStep::Emit(Emission::TranscriptReady(t));
            },
            ForwarderInput::News(VoiceSignal::SpeakingText(t)) => {
                return ForwarderStep::Emit(Emission::SpeakingText(t));
            },
            ForwarderInput::News(VoiceSignal::CalibrationProgress { captured, total, score }) => {
                return ForwarderStep::Emit(
                    Emission::CalibrationProgress { captured, total, score },
                );
            },
            ForwarderInput::StateEnded => {
                self.state_ended = true;
            },
            ForwarderInput::NewsEnded => {
                self.news_ended = true;
            },
        }
        if self.state_ended && self.news_ended {
            ForwarderStep::Stop
        } else {
            ForwarderStep::Wait
        }
    }
}

/// The names that are told of the microphone.
pub proof fn law_the_names_of_the_capture()
    ensures
        CaptureState::Capturing.name_text() == "Capturing"@,
        CaptureState::PausedSessionInactive.name_text() == "PausedSessionInactive"@,
        CaptureState::PausedDisabled.name_text() == "PausedDisabled"@,
        CaptureState::Unavailable.name_text() == "Unavailable"@,
{
}

/// News is told as it came, under its own name.
pub proof fn law_news_is_told_as_it_came(text: Seq<char>, captured: u32, total: u32, score: i64)
    ensures
        emission_for(VoiceSignal::TranscriptReady(text)) == Emission::TranscriptReady(text),
        emission_for(VoiceSignal::SpeakingText(text)) == Emission::SpeakingText(text),
        emission_for(VoiceSignal::CalibrationProgress { captured, total, score })
            == (Emission::<Seq<char>>::CalibrationProgress { captured, total, score }),
{
}

/// Where the voice service is found on the bus.
pub proof fn law_where_the_service_is_found()
    ensures
        DBUS_VOICE_NAME@ == "org.desktopAssistant.Voice"@,
        DBUS_VOICE_PATH@ == "/org/desktopAssistant/Voice"@,
{
}

} // verus!
