//! What is taken for speech, and what becomes of its transcription.

use vstd::prelude::*;

use crate::error::VoiceError;
use crate::text::{append_chars, append_decimal, chars_of, copy_of, decimal, string_of, trim_chars, trimmed};
use crate::time::Duration;

verus! {

/// The level below which a capture is near silence: that of a root mean square
/// of one hundredth.
pub const MIN_SPEECH_LEVEL: i32 = 1_008_981_770;

/// The longest that one transcription may take by default, in milliseconds.
pub const DEFAULT_STT_TIMEOUT_MS: u64 = 20_000;

/// What was said.
#[derive(Debug, PartialEq, Eq)]
pub struct Transcript {
    pub text: String,
}

/// Keeps what is no speech from being transcribed.
pub struct Transcriber {
    min_level: i32,
}

impl Transcriber {
    pub closed spec fn floor(&self) -> i32 {
        self.min_level
    }

    pub fn new() -> (t: Transcriber)
        ensures
            t.floor() == MIN_SPEECH_LEVEL,
            t.floor() == 1_008_981_770,
    {
        Transcriber { min_level: MIN_SPEECH_LEVEL }
    }

    /// Takes another level for the floor.
    pub fn with_min_rms(min_level: i32) -> (t: Transcriber)
        ensures
            t.floor() == min_level,
    {
        Transcriber { min_level }
    }

    /// Whether a capture of the given level is worth transcribing.
    pub fn hears_speech(&self, level: i32) -> (b: bool)
        ensures
            b == (level >= self.floor()),
    {
        level >= self.min_level
    }

    /// What was said, if a transcription holds anything.
    pub fn accept(&self, text: String) -> (t: Option<Transcript>)
        ensures
            t == (if text@.len() == 0 {
                None
            } else {
                Some(Transcript { text })
            }),
    {
        if text.as_str().is_empty() {
            None
        } else {
            Some(Transcript { text })
        }
    }
}

impl Default for Transcriber {
    fn default() -> (t: Transcriber)
        ensures
            t.floor() == MIN_SPEECH_LEVEL,
            t.floor() == 1_008_981_770,
    {
        Transcriber::new()
    }
}

/// The readable ones of several segments, one behind the other.
pub open spec fn segments_text(segments: Seq<Option<String>>) -> Seq<char>
    decreases segments.len(),
{
    if segments.len() == 0 {
        Seq::empty()
    } else {
        segments_text(segments.drop_last()) + (match segments.last() {
            Some(s) => s@,
            None => Seq::empty(),
        })
    }
}

/// The text of a transcription that came in segments, without whitespace round
/// it. A segment that is no text is left out.
pub fn join_segments(segments: &Vec<Option<String>>) -> (text: String)
    ensures
        text@ == trimmed(segments_text(segments@)),
{
    let mut all: Vec<char> = Vec::new();
    let mut i: usize = 0;
    while i < segments.len()
        invariant
            i <= segments@.len(),
            all@ == segments_text(segments@.take(i as int)),
        decreases segments@.len() - i,
    {
        proof {
            assert(segments@.take(i + 1).drop_last() =~= segments@.take(i as int));
        }
        if let Some(s) = &segments[i] {
            append_chars(&mut all, &chars_of(s.as_str()));
        }
        i += 1;
    }
    proof {
        assert(segments@.take(i as int) =~= segments@);
    }
    string_of(&trim_chars(&all))
}

/// How long a transcription may take: as long as it likes where the setting is
/// zero.
pub fn stt_limit(stt_ms: u64) -> (d: Option<Duration>)
    ensures
        stt_ms == 0 ==> d is None,
        stt_ms > 0 ==> d is Some && d->0.nanos == stt_ms * 1_000_000,
{
    if stt_ms == 0 {
        None
    } else {
        Some(Duration::from_millis(stt_ms))
    }
}

/// How a transcription went.
#[derive(Debug, PartialEq, Eq)]
pub enum Decoding {
    Text(String),
    Failed(VoiceError),
    /// The work was lost, for the reason given.
    Lost(String),
    TimedOut,
}

/// The transcript that a transcription gives, where it may take `limit`.
pub fn decoded(outcome: Decoding, limit: Duration) -> (r: Result<Transcript, VoiceError>)
    ensures
        match outcome {
            Decoding::Text(text) => r == Ok::<Transcript, VoiceError>(Transcript { text }),
            Decoding::Failed(e) => r == Err::<Transcript, VoiceError>(e),
            Decoding::Lost(why) => r is Err && r->Err_0 is Stt && r->Err_0->Stt_0@
                == "whisper inference task failed: "@ + why@,
            Decoding::TimedOut => r is Err && r->Err_0 is Stt && r->Err_0->Stt_0@
                == "whisper inference timed out after "@ + decimal(
                limit.nanos as nat / 1_000_000,
            ) + " ms"@,
        },
{
    match outcome {
        Decoding::Text(text) => Ok(Transcript { text }),
        Decoding::Failed(e) => Err(e),
        Decoding::Lost(why) => {
            let mut m = copy_of("whisper inference task failed: ");
            m.append(why.as_str());
            Err(VoiceError::Stt(m))
        },
        Decoding::TimedOut => {
            let mut m = copy_of("whisper inference timed out after ");
            append_decimal(&mut m, limit.nanos / 1_000_000);
            m.append(" ms");
            Err(VoiceError::Stt(m))
        },
    }
}

/// Every segment that is a text is kept whole, in its place, with nothing between
/// it and the next; one that is none leaves nothing.
pub proof fn law_segments_are_kept_in_order(
    a: Seq<Option<String>>,
    s: Option<String>,
    b: Seq<Option<String>>,
)
    ensures
        s is Some ==> segments_text(a + seq![s] + b) == segments_text(a) + s->0@ + segments_text(b),
        s is None ==> segments_text(a + seq![s] + b) == segments_text(a) + segments_text(b),
        segments_text(Seq::empty()) == Seq::<char>::empty(),
    decreases b.len(),
{
    if b.len() == 0 {
        assert(a + seq![s] + b =~= a + seq![s]);
        assert((a + seq![s]).drop_last() =~= a);
        assert(segments_text(b) =~= Seq::<char>::empty());
        if s is Some {
            assert(segments_text(a + seq![s] + b) =~= segments_text(a) + s->0@ + segments_text(b));
        } else {
            assert(segments_text(a + seq![s] + b) =~= segments_text(a) + segments_text(b));
        }
    } else {
        let t = b.drop_last();
        law_segments_are_kept_in_order(a, s, t);
        assert((a + seq![s] + b).drop_last() =~= a + seq![s] + t);
        if s is Some {
            assert(segments_text(a + seq![s] + b) =~= segments_text(a) + s->0@ + segments_text(b));
        } else {
            assert(segments_text(a + seq![s] + b) =~= segments_text(a) + segments_text(b));
        }
    }
}

} // verus!
