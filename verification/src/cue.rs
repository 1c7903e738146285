//! What announces that the pipeline listens.

use vstd::prelude::*;

use crate::config::ListeningCue;

verus! {

/// How many phrases there are.
pub const PHRASE_COUNT: u64 = 5;

/// The phrase for the `n`-th time.
pub open spec fn phrase_text(n: int) -> Seq<char> {
    let k = n % (PHRASE_COUNT as int);
    if k == 0 {
        "Yes?"@
    } else if k == 1 {
        "How can I help?"@
    } else if k == 2 {
        "I'm listening."@
    } else if k == 3 {
        "Go ahead."@
    } else {
        "Mm-hmm?"@
    }
}

/// The phrase to say the `n`-th time; they take turns.
pub fn phrase(n: u64) -> (s: &'static str)
    ensures
        s@ == phrase_text(n as int),
{
    let k: u64 = n % PHRASE_COUNT;
    if k == 0 {
        "Yes?"
    } else if k == 1 {
        "How can I help?"
    } else if k == 2 {
        "I'm listening."
    } else if k == 3 {
        "Go ahead."
    } else {
        "Mm-hmm?"
    }
}

/// The phrases take turns: each comes again after as many as there are, and no
/// sooner.
pub proof fn law_phrases_take_turns(n: int, k: int)
    requires
        0 <= n,
        0 < k < PHRASE_COUNT,
    ensures
        phrase_text(n + PHRASE_COUNT) == phrase_text(n),
        phrase_text(n + k) != phrase_text(n),
{
    reveal_strlit("Yes?");
    reveal_strlit("How can I help?");
    reveal_strlit("I'm listening.");
    reveal_strlit("Go ahead.");
    reveal_strlit("Mm-hmm?");
    assert("Yes?"@.len() == 4 && "How can I help?"@.len() == 15 && "I'm listening."@.len() == 14
        && "Go ahead."@.len() == 9 && "Mm-hmm?"@.len() == 7);
}

/// What to sound. `S` holds text.
#[derive(Debug, PartialEq, Eq)]
pub enum CueSound<S> {
    /// A short tone.
    Ding,
    /// A spoken phrase.
    Phrase(S),
}

pub open spec fn cue_view(c: Option<CueSound<&'static str>>) -> Option<CueSound<Seq<char>>> {
    match c {
        Some(CueSound::Ding) => Some(CueSound::Ding),
        Some(CueSound::Phrase(s)) => Some(CueSound::Phrase(s@)),
        None => None,
    }
}

/// What is sounded in a mode, the `n`-th time a phrase is due.
pub open spec fn cue_for(mode: ListeningCue, n: u64) -> Option<CueSound<Seq<char>>> {
    match mode {
        ListeningCue::Off => None,
        ListeningCue::Ding => Some(CueSound::Ding),
        ListeningCue::Phrase => Some(CueSound::Phrase(phrase_text(n as int))),
    }
}

/// The cue to sound, and the count of phrases behind it.
pub fn next_cue(mode: ListeningCue, n: u64) -> (r: (Option<CueSound<&'static str>>, u64))
    ensures
        cue_view(r.0) == cue_for(mode, n),
        r.1 == (if mode is Phrase {
            n.wrapping_add(1)
        } else {
            n
        }),
{
    match mode {
        ListeningCue::Off => (None, n),
        ListeningCue::Ding => (Some(CueSound::Ding), n),
        ListeningCue::Phrase => (Some(CueSound::Phrase(phrase(n))), n.wrapping_add(1)),
    }
}

// ---------------------------------------------------------------------------
// The tone
// ---------------------------------------------------------------------------

/// The tone's frequency in hertz.
pub const DING_FREQ_HZ: u32 = 880;

/// The tone's loudness, in hundredths of the loudest.
pub const DING_AMPLITUDE_PERCENT: u32 = 25;

/// How many samples the tone has: an eighth of a second, nearly.
pub const DING_SAMPLES: usize = 1_920;

/// Over how many samples it swells and dies away.
pub const DING_FADE_SAMPLES: usize = 160;

/// How much of the tone is heard at a sample, as so many parts of so many.
pub open spec fn ding_share(i: int) -> (int, int) {
    if i < DING_FADE_SAMPLES {
        (i, DING_FADE_SAMPLES as int)
    } else if i >= DING_SAMPLES - DING_FADE_SAMPLES {
        (DING_SAMPLES - 1 - i, DING_FADE_SAMPLES as int)
    } else {
        (1, 1)
    }
}

/// How much of the tone is heard at a sample, as so many parts of so many.
pub fn ding_gain(i: usize) -> (share: (usize, usize))
    requires
        i < DING_SAMPLES,
    ensures
        share.0 as int == ding_share(i as int).0,
        share.1 as int == ding_share(i as int).1,
{
    if i < DING_FADE_SAMPLES {
        (i, DING_FADE_SAMPLES)
    } else if i >= DING_SAMPLES - DING_FADE_SAMPLES {
        (DING_SAMPLES - 1 - i, DING_FADE_SAMPLES)
    } else {
        (1, 1)
    }
}

/// The tone begins and ends in silence, is never louder than it is meant to be,
/// and swells and dies away in even steps, so that it does not click.
pub proof fn law_tone_does_not_click(i: int)
    requires
        0 <= i < DING_SAMPLES - 1,
    ensures
        ding_share(0).0 == 0,
        ding_share(DING_SAMPLES - 1).0 == 0,
        0 <= ding_share(i).0 <= ding_share(i).1,
        ding_share(i).1 > 0,
        i + 1 < DING_FADE_SAMPLES ==> ding_share(i + 1).0 - ding_share(i).0 == 1,
        i >= DING_SAMPLES - DING_FADE_SAMPLES ==> ding_share(i).0 - ding_share(i + 1).0 == 1,
{
}

/// The phrases, in the order in which they take turns, and what is sounded in
/// each mode.
pub proof fn law_what_is_sounded(n: u64)
    ensures
        n % 5 == 0 ==> phrase_text(n as int) == "Yes?"@,
        n % 5 == 1 ==> phrase_text(n as int) == "How can I help?"@,
        n % 5 == 2 ==> phrase_text(n as int) == "I'm listening."@,
        n % 5 == 3 ==> phrase_text(n as int) == "Go ahead."@,
        n % 5 == 4 ==> phrase_text(n as int) == "Mm-hmm?"@,
        cue_for(ListeningCue::Off, n) is None,
        cue_for(ListeningCue::Ding, n) == Some(CueSound::<Seq<char>>::Ding),
        cue_for(ListeningCue::Phrase, n) == Some(CueSound::Phrase(phrase_text(n as int))),
{
}

/// The tone swells over its first hundred and sixty samples of one thousand nine
/// hundred and twenty, dies away over its last ones as it swelled, and is heard in
/// full between them.
pub proof fn law_the_tone_is_even(i: int)
    requires
        0 <= i < 1_920,
    ensures
        i < 160 ==> ding_share(i) == (i, 160int),
        160 <= i < 1_760 ==> ding_share(i).0 == ding_share(i).1,
        ding_share(1_919 - i) == ding_share(i),
{
}

} // verus!
