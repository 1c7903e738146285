//! How much of the assistant's output is spoken, and the text prepared for it.

use vstd::prelude::*;

use crate::sentence_buffer::{
    first_sentence_cut, law_no_sentence_end_is_missed, law_no_text_is_lost,
    law_sentences_are_speakable, lemma_visible_trimmed, remainder, sentence_ends_at, sentences,
    visible, visible_all, SentenceBuffer,
};
use crate::text::{
    all_texts, is_blank, lemma_trim_end, lemma_trim_start, lemma_trimmed_blank, trim_start, trimmed,
};
use crate::time::Duration;

verus! {

/// How much of a conversation is spoken.
#[derive(Debug, Clone, Copy, PartialEq, Eq, Structural)]
pub enum AdeleOutput {
    /// Nothing is spoken.
    Disabled,
    /// Replies are shown as text; only what the assistant asks to say is
    /// spoken.
    OnDemand,
    /// Every reply is read aloud in full.
    Always,
}

impl Default for AdeleOutput {
    fn default() -> (level: AdeleOutput)
        ensures
            level == AdeleOutput::Disabled,
    {
        AdeleOutput::Disabled
    }
}

/// The level that comes next as the user cycles through them.
pub open spec fn next_level(level: AdeleOutput) -> AdeleOutput {
    match level {
        AdeleOutput::Disabled => AdeleOutput::OnDemand,
        AdeleOutput::OnDemand => AdeleOutput::Always,
        AdeleOutput::Always => AdeleOutput::Disabled,
    }
}

/// What the assistant is told while only what it asks to say is spoken.
pub const ON_DEMAND_SYSTEM_REFINEMENT: &'static str = "You are in on-demand voice mode: your written reply is shown to the user as text and is \
     not read aloud, so anything you want said out loud you must speak by calling the say_this \
     tool. Keep whatever you speak brief and conversational, a few short sentences at most, \
     written to be heard rather than read. In spoken text use no markdown or formatting of any \
     kind and no emoji, spell out acronyms and abbreviations as full words, and avoid symbols \
     that do not read well aloud (say 'and' not an ampersand, 'percent' not a percent sign, \
     'dollars' not a dollar sign). Do not speak URLs, file paths, or email addresses; describe \
     them in words instead, and write numbers, dates, and times the way you would say them.";

/// What the assistant is told while every reply is read aloud.
pub const ALWAYS_SYSTEM_REFINEMENT: &'static str = "This reply will be read aloud in full, so write it to be spoken, not read, without \
     leaving anything out. Do not shorten or summarize — cover everything you would normally \
     say, just phrased for the ear. Use no markdown or formatting of any kind, and no emoji. \
     Spell out acronyms and abbreviations as full words and avoid symbols that do not read well \
     aloud (say 'and' not an ampersand, 'percent' not a percent sign, 'dollars' not a dollar \
     sign). Do not read out URLs, file paths, or email addresses; describe them in words instead, \
     and write numbers, dates, and times the way you would say them.";

impl AdeleOutput {
    pub fn next(self) -> (level: AdeleOutput)
        ensures
            level == next_level(self),
    {
        match self {
            AdeleOutput::Disabled => AdeleOutput::OnDemand,
            AdeleOutput::OnDemand => AdeleOutput::Always,
            AdeleOutput::Always => AdeleOutput::Disabled,
        }
    }

    pub open spec fn label_text(self) -> Seq<char> {
        match self {
            AdeleOutput::Disabled => "Disabled"@,
            AdeleOutput::OnDemand => "On Demand"@,
            AdeleOutput::Always => "Always"@,
        }
    }

    /// The level's short name.
    pub fn label(self) -> (s: &'static str)
        ensures
            s@ == self.label_text(),
    {
        match self {
            AdeleOutput::Disabled => "Disabled",
            AdeleOutput::OnDemand => "On Demand",
            AdeleOutput::Always => "Always",
        }
    }

    /// Whether replies are read aloud in full.
    pub fn narrates_reply(self) -> (b: bool)
        ensures
            b == (self is Always),
    {
        matches!(self, AdeleOutput::Always)
    }

    /// Whether what the assistant asks to say is spoken.
    pub fn speaks_aside(self) -> (b: bool)
        ensures
            b == (self is OnDemand),
    {
        matches!(self, AdeleOutput::OnDemand)
    }

    /// What the assistant is told along with the next prompt.
    pub fn send_refinement(self) -> (s: Option<&'static str>)
        ensures
            s is None <==> self is Disabled,
            self is OnDemand ==> s->0@ == ON_DEMAND_SYSTEM_REFINEMENT@,
            self is Always ==> s->0@ == ALWAYS_SYSTEM_REFINEMENT@,
    {
        match self {
            AdeleOutput::OnDemand => Some(ON_DEMAND_SYSTEM_REFINEMENT),
            AdeleOutput::Always => Some(ALWAYS_SYSTEM_REFINEMENT),
            AdeleOutput::Disabled => None,
        }
    }
}

/// Cycling three times comes back to where it began, and each step changes the
/// level.
pub proof fn law_levels_cycle(level: AdeleOutput)
    ensures
        next_level(next_level(next_level(level))) == level,
        next_level(level) != level,
        next_level(next_level(level)) != level,
{
}

/// What is spoken of `text`: its sentences, and the rest of it.
pub open spec fn speakable(text: Seq<char>) -> Seq<Seq<char>> {
    let tail = trimmed(remainder(text));
    if tail.len() > 0 {
        sentences(text).push(tail)
    } else {
        sentences(text)
    }
}

/// Splits `text` into the pieces that are synthesized one by one.
pub fn into_speakable_sentences(text: &str) -> (out: Vec<String>)
    ensures
        all_texts(out@) == speakable(text@),
{
    let mut buf = SentenceBuffer::new(Duration::from_millis(500));
    let mut out = buf.push(text);
    proof {
        assert(Seq::<char>::empty() + text@ =~= text@);
    }
    let tail = buf.flush();
    let ghost said = tail@;
    let ghost before = out@;
    if !tail.as_str().is_empty() {
        out.push(tail);
        proof {
            assert(all_texts(out@) =~= all_texts(before).push(said));
        }
    }
    out
}

/// Something is spoken of a text exactly where there is more to it than
/// whitespace.
pub proof fn law_speaks_unless_blank(text: Seq<char>)
    ensures
        (speakable(text).len() == 0) == is_blank(text),
{
    lemma_trimmed_blank(text);
    if sentences(text).len() > 0 {
        let p = first_sentence_cut(text, 0)->0;
        crate::sentence_buffer::lemma_first_sentence_cut(text, 0);
        assert(!is_blank(text)) by {
            assert(!crate::text::is_space(text[p - 1]));
        }
    } else {
        crate::sentence_buffer::lemma_first_sentence_cut(text, 0);
        assert(remainder(text) == text);
    }
}

/// The levels in the order in which the user cycles through them, and their short
/// names.
pub proof fn law_the_levels()
    ensures
        next_level(AdeleOutput::Disabled) == AdeleOutput::OnDemand,
        next_level(AdeleOutput::OnDemand) == AdeleOutput::Always,
        next_level(AdeleOutput::Always) == AdeleOutput::Disabled,
        AdeleOutput::Disabled.label_text() == "Disabled"@,
        AdeleOutput::OnDemand.label_text() == "On Demand"@,
        AdeleOutput::Always.label_text() == "Always"@,
{
}

/// All of a text is spoken, in order, and each part of it once: the pieces hold
/// exactly its visible characters. None of them is empty, and none holds the end
/// of a sentence but at its own end.
pub proof fn law_all_of_a_text_is_spoken(text: Seq<char>)
    ensures
        visible_all(speakable(text)) == visible(text),
        forall|k: int, p: int|
            0 <= k < speakable(text).len() ==> (#[trigger] speakable(text)[k]).len() > 0
                && !#[trigger] sentence_ends_at(speakable(text)[k], p),
{
    law_no_text_is_lost(text);
    law_no_sentence_end_is_missed(text);
    law_sentences_are_speakable(text);
    let rest = remainder(text);
    let tail = trimmed(rest);
    lemma_visible_trimmed(rest);
    if tail.len() > 0 {
        lemma_visible_all_push(sentences(text), tail);
    } else {
        assert(visible(tail) =~= Seq::<char>::empty());
        assert(visible_all(sentences(text)) + visible(tail) =~= visible_all(sentences(text)));
    }
    lemma_trim_start(rest);
    lemma_trim_end(trim_start(rest));
    let d = rest.len() - trim_start(rest).len();
    assert forall|p: int| !#[trigger] sentence_ends_at(tail, p) by {
        if 0 < p < tail.len() {
            assert(tail[p] == rest[p + d]);
            assert(tail[p - 1] == rest[p + d - 1]);
            assert(!sentence_ends_at(rest, p + d));
        }
    }
    assert forall|k: int, p: int| 0 <= k < speakable(text).len() implies (
    #[trigger] speakable(text)[k]).len() > 0 && !#[trigger] sentence_ends_at(
        speakable(text)[k],
        p,
    ) by {
        if k < sentences(text).len() {
            assert(speakable(text)[k] == sentences(text)[k]);
            assert(!sentence_ends_at(sentences(text)[k], p));
        }
    }
}

proof fn lemma_visible_all_push(texts: Seq<Seq<char>>, last: Seq<char>)
    ensures
        visible_all(texts.push(last)) == visible_all(texts) + visible(last),
    decreases texts.len(),
{
    let all = texts.push(last);
    if texts.len() == 0 {
        assert(all.skip(1) =~= Seq::<Seq<char>>::empty());
        assert(visible_all(all.skip(1)) =~= Seq::<char>::empty());
        assert(visible_all(all) =~= visible_all(texts) + visible(last));
    } else {
        assert(all.skip(1) =~= texts.skip(1).push(last));
        lemma_visible_all_push(texts.skip(1), last);
        assert(all[0] == texts[0]);
        assert(visible_all(all) =~= visible_all(texts) + visible(last));
    }
}

} // verus!
