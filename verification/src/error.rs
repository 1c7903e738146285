//! What can go wrong in the voice pipeline.

use vstd::prelude::*;

use crate::text::copy_of;

verus! {

#[derive(Debug, PartialEq, Eq)]
pub enum VoiceError {
    Audio(String),
    WakeWord(String),
    Vad(String),
    Stt(String),
    Tts(String),
    Assistant(String),
    Config(String),
}

impl VoiceError {
    /// What the error message says before the detail.
    pub open spec fn prefix_text(self) -> Seq<char> {
        match self {
            VoiceError::Audio(_) => "audio error: "@,
            VoiceError::WakeWord(_) => "wake word detection error: "@,
            VoiceError::Vad(_) => "VAD error: "@,
            VoiceError::Stt(_) => "speech-to-text error: "@,
            VoiceError::Tts(_) => "text-to-speech error: "@,
            VoiceError::Assistant(_) => "assistant communication error: "@,
            VoiceError::Config(_) => "configuration error: "@,
        }
    }

    pub open spec fn detail_text(self) -> Seq<char> {
        match self {
            VoiceError::Audio(d) => d@,
            VoiceError::WakeWord(d) => d@,
            VoiceError::Vad(d) => d@,
            VoiceError::Stt(d) => d@,
            VoiceError::Tts(d) => d@,
            VoiceError::Assistant(d) => d@,
            VoiceError::Config(d) => d@,
        }
    }

    /// The message shown for the error.
    pub fn message(&self) -> (m: String)
        ensures
            m@ == self.prefix_text() + self.detail_text(),
    {
        let (prefix, detail) = match self {
            VoiceError::Audio(d) => ("audio error: ", d),
            VoiceError::WakeWord(d) => ("wake word detection error: ", d),
            VoiceError::Vad(d) => ("VAD error: ", d),
            VoiceError::Stt(d) => ("speech-to-text error: ", d),
            VoiceError::Tts(d) => ("text-to-speech error: ", d),
            VoiceError::Assistant(d) => ("assistant communication error: ", d),
            VoiceError::Config(d) => ("configuration error: ", d),
        };
        let mut m = copy_of(prefix);
        m.append(detail.as_str());
        m
    }
}

/// What the message of each error begins with, and that its detail follows as it
/// is.
pub proof fn law_what_the_messages_say(e: VoiceError)
    ensures
        e matches VoiceError::Audio(d) ==> e.prefix_text() == "audio error: "@ && e.detail_text()
            == d@,
        e matches VoiceError::WakeWord(d) ==> e.prefix_text() == "wake word detection error: "@
            && e.detail_text() == d@,
        e matches VoiceError::Vad(d) ==> e.prefix_text() == "VAD error: "@ && e.detail_text()
            == d@,
        e matches VoiceError::Stt(d) ==> e.prefix_text() == "speech-to-text error: "@
            && e.detail_text() == d@,
        e matches VoiceError::Tts(d) ==> e.prefix_text() == "text-to-speech error: "@
            && e.detail_text() == d@,
        e matches VoiceError::Assistant(d) ==> e.prefix_text()
            == "assistant communication error: "@ && e.detail_text() == d@,
        e matches VoiceError::Config(d) ==> e.prefix_text() == "configuration error: "@
            && e.detail_text() == d@,
{
}

} // verus!
