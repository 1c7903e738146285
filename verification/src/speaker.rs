//! What is spoken of a text, and what becomes of its synthesis.

use vstd::prelude::*;

use crate::error::VoiceError;
use crate::speech_text::{spoken, strip_markdown_for_speech};
use crate::text::{append_decimal, copy_of, decimal};
use crate::time::Duration;

verus! {

/// The longest that one synthesis may take by default, in milliseconds.
pub const DEFAULT_SYNTH_TIMEOUT_MS: u64 = 20_000;

/// What to do to speak a text. `S` holds text.
#[derive(Debug, PartialEq, Eq)]
pub enum SayStep<S> {
    /// Nothing: there is nothing to speak.
    Nothing,
    /// Synthesize this, within this time if one is given.
    Synthesize { text: S, within: Option<Duration> },
}

pub open spec fn say_view(s: SayStep<String>) -> SayStep<Seq<char>> {
    match s {
        SayStep::Nothing => SayStep::Nothing,
        SayStep::Synthesize { text, within } => SayStep::Synthesize { text: text@, within },
    }
}

/// What to do to speak a text that is fit to be spoken, where a synthesis may
/// take `timeout`, or as long as it likes if that is zero.
pub open spec fn say_plan(line: Seq<char>, timeout: Duration) -> SayStep<Seq<char>> {
    if line.len() == 0 {
        SayStep::Nothing
    } else {
        SayStep::Synthesize {
            text: line,
            within: if timeout.nanos == 0 {
                None
            } else {
                Some(timeout)
            },
        }
    }
}

/// How a synthesis went. `B` holds samples.
#[derive(Debug, PartialEq, Eq)]
pub enum Synthesis<B> {
    Audio(B),
    Failed(VoiceError),
    TimedOut,
}

/// Speaks texts. How long a synthesis may take is all that it holds.
pub struct Speaker {
    synth_timeout: Duration,
}

impl Speaker {
    pub closed spec fn timeout(&self) -> Duration {
        self.synth_timeout
    }

    pub fn new() -> (s: Speaker)
        ensures
            s.timeout().nanos == 20_000_000_000,
    {
        Speaker { synth_timeout: Duration::from_millis(DEFAULT_SYNTH_TIMEOUT_MS) }
    }

    /// Sets how long a synthesis may take; zero lifts the limit.
    pub fn set_synth_timeout(&mut self, timeout: Duration)
        ensures
            final(self).timeout() == timeout,
    {
        self.synth_timeout = timeout;
    }

    /// What to do to speak a text: no mark-up is spoken, and where nothing else
    /// is left, nothing is synthesized.
    pub fn say(&self, text: &str) -> (step: SayStep<String>)
        ensures
            say_view(step) == say_plan(spoken(text@), self.timeout()),
    {
        let line = strip_markdown_for_speech(text);
        self.say_line(line)
    }

    /// What to do to speak a text that is fit to be spoken.
    pub fn say_line(&self, line: String) -> (step: SayStep<String>)
        ensures
            say_view(step) == say_plan(line@, self.timeout()),
    {
        if line.as_str().is_empty() {
            return SayStep::Nothing;
        }
        let within = if self.synth_timeout.is_zero() {
            None
        } else {
            Some(self.synth_timeout)
        };
        SayStep::Synthesize { text: line, within }
    }

    /// What to play behind a synthesis: nothing where it gave no audio.
    pub fn synthesized<T>(&self, outcome: Synthesis<Vec<T>>) -> (r: Result<
        Option<Vec<T>>,
        VoiceError,
    >)
        ensures
            match outcome {
                Synthesis::Audio(samples) => r == Ok::<Option<Vec<T>>, VoiceError>(
                    if samples@.len() == 0 {
                        None
                    } else {
                        Some(samples)
                    },
                ),
                Synthesis::Failed(e) => r == Err::<Option<Vec<T>>, VoiceError>(e),
                Synthesis::TimedOut => r is Err && r->Err_0 is Tts && r->Err_0->Tts_0@
                    == "synthesis timed out after "@ + decimal(
                    self.timeout().nanos as nat / 1_000_000,
                ) + " ms"@,
            },
    {
        match outcome {
            Synthesis::Audio(samples) => {
                if samples.len() == 0 {
                    Ok(None)
                } else {
                    Ok(Some(samples))
                }
            },
            Synthesis::Failed(e) => Err(e),
            Synthesis::TimedOut => {
                let mut m = copy_of("synthesis timed out after ");
                append_decimal(&mut m, self.synth_timeout.nanos / 1_000_000);
                m.append(" ms");
                Err(VoiceError::Tts(m))
            },
        }
    }
}

/// An empty text is never synthesized, whatever mark-up it came out of, and a
/// text that is not empty always is.
pub proof fn law_only_words_are_synthesized(input: Seq<char>, timeout: Duration)
    ensures
        say_plan(spoken(input), timeout) is Synthesize <==> spoken(input).len() > 0,
        say_plan(spoken(input), timeout) is Synthesize ==> say_plan(
            spoken(input),
            timeout,
        )->text.len() > 0,
{
}

/// What is done to speak a line: nothing where it is empty; else exactly that line
/// is synthesized, within the time set, and without a limit where that is zero.
pub proof fn law_what_is_done_to_speak(line: Seq<char>, timeout: Duration)
    ensures
        line.len() == 0 ==> say_plan(line, timeout) is Nothing,
        line.len() > 0 && timeout.nanos > 0 ==> say_plan(line, timeout) == (SayStep::Synthesize {
            text: line,
            within: Some(timeout),
        }),
        line.len() > 0 && timeout.nanos == 0 ==> say_plan(line, timeout) == (SayStep::Synthesize {
            text: line,
            within: None,
        }),
{
}

} // verus!
