//! Cuts a stream of text into sentences for speech.

use vstd::prelude::*;

use crate::text::{
    all_texts, append_chars, blank_chars, chars_of, is_ascii_space, is_ascii_whitespace, is_blank,
    is_space, is_whitespace, law_white_space, leading_space, lemma_trim_end, lemma_trim_start,
    lemma_trimmed_blank, lemma_words_behind_space, slice_of, split_words, string_of, trim_chars,
    trim_end, trim_start, trimmed, words,
};
use crate::time::{elapsed, Clock, Duration, Instant};

verus! {

// ---------------------------------------------------------------------------
// Where a text is cut
// ---------------------------------------------------------------------------

/// The marks that end a sentence.
pub open spec fn ends_sentence(c: char) -> bool {
    c == '.' || c == '!' || c == '?'
}

/// Whether a sentence ends just before `p`: a mark that ends one, with
/// whitespace behind it. A mark at the very end does not count, since more text
/// may follow.
pub open spec fn is_sentence_cut(s: Seq<char>, p: int) -> bool {
    0 < p < s.len() && ends_sentence(s[p - 1]) && is_ascii_space(s[p])
}

/// The first sentence cut at or behind `from`.
pub open spec fn first_sentence_cut(s: Seq<char>, from: int) -> Option<int>
    decreases s.len() - from,
{
    if from >= s.len() {
        None
    } else if is_sentence_cut(s, from) {
        Some(from)
    } else {
        first_sentence_cut(s, from + 1)
    }
}

/// Whether the character at `i` marks a pause within a sentence. A hyphen does
/// so only behind whitespace.
pub open spec fn is_clause_mark(s: Seq<char>, i: int) -> bool {
    let c = s[i];
    c == ',' || c == ';' || c == ':' || c == '\u{2014}' || (c == '-' && i > 0 && is_space(s[i - 1]))
}

/// Whether a clause ends just before `p`.
pub open spec fn is_clause_cut(s: Seq<char>, p: int) -> bool {
    0 < p < s.len() && is_clause_mark(s, p - 1) && is_space(s[p])
}

/// The last clause cut at or before `upto`.
pub open spec fn last_clause_cut(s: Seq<char>, upto: int) -> Option<int>
    decreases upto,
{
    if upto <= 0 {
        None
    } else if is_clause_cut(s, upto) {
        Some(upto)
    } else {
        last_clause_cut(s, upto - 1)
    }
}

/// The complete sentences at the front of `s`, each without whitespace around
/// it.
pub open spec fn sentences(s: Seq<char>) -> Seq<Seq<char>>
    decreases s.len(),
{
    match first_sentence_cut(s, 0) {
        Some(p) => if 0 < p < s.len() {
            proof {
                lemma_trim_start(s.skip(p));
            }
            seq![trimmed(s.take(p))] + sentences(trim_start(s.skip(p)))
        } else {
            Seq::empty()
        },
        None => Seq::empty(),
    }
}

/// What is left of `s` behind its complete sentences.
pub open spec fn remainder(s: Seq<char>) -> Seq<char>
    decreases s.len(),
{
    match first_sentence_cut(s, 0) {
        Some(p) => if 0 < p < s.len() {
            proof {
                lemma_trim_start(s.skip(p));
            }
            remainder(trim_start(s.skip(p)))
        } else {
            s
        },
        None => s,
    }
}

/// Whether `s` is a short text that ends as a sentence does.
pub open spec fn is_short_ack(s: Seq<char>, max_words: nat) -> bool {
    &&& trim_end(s).len() > 0
    &&& ends_sentence(trim_end(s).last())
    &&& words(trimmed(s)).len() <= max_words
}

// ---------------------------------------------------------------------------
// The buffer
// ---------------------------------------------------------------------------

/// Accumulates streaming text chunks and yields complete sentences.
///
/// A sentence is complete once its final mark (`.`, `!`, `?`) has whitespace
/// behind it, or once the stream has been quiet for the timeout.
pub struct SentenceBuffer {
    buffer: Vec<char>,
    timeout: Duration,
    last_chunk_at: Option<Instant>,
    clock: Clock,
}

impl SentenceBuffer {
    /// The text not handed out yet.
    pub closed spec fn text(&self) -> Seq<char> {
        self.buffer@
    }

    /// How long the stream may be quiet before buffered text is handed out.
    pub closed spec fn quiet_limit(&self) -> Duration {
        self.timeout
    }

    /// Since when the stream has been quiet, if text is awaited.
    pub closed spec fn quiet_since(&self) -> Option<Instant> {
        self.last_chunk_at
    }

    /// Whether the text has waited for its timeout at `now`.
    pub open spec fn is_due(&self, now: Instant) -> bool {
        &&& self.quiet_since() is Some
        &&& elapsed(self.quiet_since()->0, now) >= self.quiet_limit().nanos
        &&& !is_blank(self.text())
    }

    pub fn new(timeout: Duration) -> (b: SentenceBuffer)
        ensures
            b.text() == Seq::<char>::empty(),
            b.quiet_limit() == timeout,
            b.quiet_since() is None,
    {
        SentenceBuffer {
            buffer: Vec::new(),
            timeout,
            last_chunk_at: None,
            clock: Clock::start(),
        }
    }

    /// Takes in a chunk of text and returns the sentences it completes.
    pub fn push(&mut self, chunk: &str) -> (out: Vec<String>)
        ensures
            all_texts(out@) == sentences(old(self).text() + chunk@),
            final(self).text() == remainder(old(self).text() + chunk@),
            final(self).quiet_limit() == old(self).quiet_limit(),
            final(self).quiet_since() is Some,
    {
        let now = self.clock.now();
        self.push_at(chunk, now)
    }

    /// Takes in a chunk of text that came at `now` and returns the sentences it
    /// completes.
    pub fn push_at(&mut self, chunk: &str, now: Instant) -> (out: Vec<String>)
        ensures
            all_texts(out@) == sentences(old(self).text() + chunk@),
            final(self).text() == remainder(old(self).text() + chunk@),
            final(self).quiet_limit() == old(self).quiet_limit(),
            final(self).quiet_since() == Some(now),
    {
        let chars = chars_of(chunk);
        append_chars(&mut self.buffer, &chars);
        self.last_chunk_at = Some(now);
        self.extract_sentences()
    }

    /// Hands out a short leading acknowledgement the moment it looks complete,
    /// without waiting for the text behind it.
    pub fn take_leading_ack(&mut self, max_words: usize) -> (ack: Option<String>)
        ensures
            ack is Some == is_short_ack(old(self).text(), max_words as nat),
            ack is Some ==> {
                &&& ack->0@ == trimmed(old(self).text())
                &&& final(self).text() == Seq::<char>::empty()
                &&& final(self).quiet_since() is None
                &&& final(self).quiet_limit() == old(self).quiet_limit()
            },
            ack is None ==> *final(self) == *old(self),
    {
        let ack = trim_chars(&self.buffer);
        proof {
            lemma_trim_ends_alike(self.buffer@);
        }
        if ack.len() == 0 {
            return None;
        }
        let last = ack[ack.len() - 1];
        if last != '.' && last != '!' && last != '?' {
            return None;
        }
        let parts = split_words(&ack);
        if parts.len() > max_words {
            return None;
        }
        Some(self.flush())
    }

    /// Once the stream has gone quiet, hands out what can be spoken: the text
    /// up to its last clause boundary, or all of it where there is none.
    ///
    /// What time it is decides, so it is left open here whether text comes out;
    /// [`flush_if_timeout_at`](Self::flush_if_timeout_at) says it for each time.
    pub fn flush_if_timeout(&mut self) -> (out: Option<String>)
        ensures
            exists|now: Instant| #[trigger]
                timeout_flush(*old(self), now, *final(self), out),
    {
        let now = self.clock.now();
        let ghost before = *self;
        let out = self.flush_if_timeout_at(now);
        proof {
            assert(timeout_flush(before, now, *self, out));
        }
        out
    }

    /// What [`flush_if_timeout`](Self::flush_if_timeout) does at `now`.
    pub fn flush_if_timeout_at(&mut self, now: Instant) -> (out: Option<String>)
        ensures
            timeout_flush(*old(self), now, *final(self), out),
    {
        match self.last_chunk_at {
            None => None,
            Some(last) => {
                if now.duration_since(last).nanos < self.timeout.nanos || blank_chars(
                    &self.buffer,
                ) {
                    return None;
                }
                match self.find_soft_boundary() {
                    Some(pos) => {
                        let head = slice_of(&self.buffer, 0, pos);
                        let tail = slice_of(&self.buffer, pos, self.buffer.len());
                        proof {
                            assert(head@ =~= self.buffer@.take(pos as int));
                            assert(tail@ =~= self.buffer@.skip(pos as int));
                        }
                        self.buffer = tail;
                        self.drain_leading_whitespace();
                        self.last_chunk_at = Some(now);
                        let head = trim_chars(&head);
                        Some(string_of(&head))
                    },
                    None => Some(self.flush()),
                }
            },
        }
    }

    /// Hands out all the remaining text as one sentence.
    pub fn flush(&mut self) -> (out: String)
        ensures
            out@ == trimmed(old(self).text()),
            final(self).text() == Seq::<char>::empty(),
            final(self).quiet_since() is None,
            final(self).quiet_limit() == old(self).quiet_limit(),
    {
        self.last_chunk_at = None;
        let all = trim_chars(&self.buffer);
        self.buffer = Vec::new();
        string_of(&all)
    }

    /// Whether there is any text but whitespace.
    pub fn has_content(&self) -> (b: bool)
        ensures
            b == !is_blank(self.text()),
    {
        !blank_chars(&self.buffer)
    }

    fn extract_sentences(&mut self) -> (out: Vec<String>)
        ensures
            all_texts(out@) == sentences(old(self).text()),
            final(self).text() == remainder(old(self).text()),
            final(self).quiet_limit() == old(self).quiet_limit(),
            final(self).quiet_since() == old(self).quiet_since(),
    {
        let ghost whole = self.buffer@;
        let mut out: Vec<String> = Vec::new();
        loop
            invariant
                all_texts(out@) + sentences(self.buffer@) == sentences(whole),
                remainder(self.buffer@) == remainder(whole),
                self.timeout == old(self).timeout,
                self.last_chunk_at == old(self).last_chunk_at,
                whole == old(self).buffer@,
            ensures
                all_texts(out@) == sentences(whole),
                self.buffer@ == remainder(whole),
            decreases self.buffer@.len(),
        {
            let ghost here = self.buffer@;
            match self.find_sentence_boundary() {
                Some(pos) => {
                    let head = slice_of(&self.buffer, 0, pos);
                    let tail = slice_of(&self.buffer, pos, self.buffer.len());
                    proof {
                        assert(head@ =~= here.take(pos as int));
                        assert(tail@ =~= here.skip(pos as int));
                        lemma_trim_start(tail@);
                    }
                    let ghost so_far = out@;
                    let sentence = string_of(&trim_chars(&head));
                    let ghost said = sentence@;
                    out.push(sentence);
                    self.buffer = tail;
                    self.drain_leading_whitespace();
                    proof {
                        assert(all_texts(out@) =~= all_texts(so_far).push(said));
                        assert(all_texts(out@) + sentences(self.buffer@) =~= all_texts(so_far)
                            + sentences(here));
                    }
                },
                None => {
                    proof {
                        assert(all_texts(out@) + sentences(here) =~= all_texts(out@));
                    }
                    break ;
                },
            }
        }
        out
    }

    fn drain_leading_whitespace(&mut self)
        ensures
            final(self).text() == trim_start(old(self).text()),
            final(self).quiet_limit() == old(self).quiet_limit(),
            final(self).quiet_since() == old(self).quiet_since(),
    {
        let n: usize = leading_space(&self.buffer);
        if n > 0 {
            let rest = slice_of(&self.buffer, n, self.buffer.len());
            proof {
                assert(rest@ =~= self.buffer@.skip(n as int));
            }
            self.buffer = rest;
        } else {
            proof {
                assert(self.buffer@.skip(0) =~= self.buffer@);
            }
        }
    }

    fn find_sentence_boundary(&self) -> (cut: Option<usize>)
        ensures
            cut is Some ==> first_sentence_cut(self.text(), 0) == Some(cut->0 as int) && 0 < cut->0
                < self.text().len(),
            cut is None ==> first_sentence_cut(self.text(), 0) is None,
    {
        let mut p: usize = 0;
        while p < self.buffer.len()
            invariant
                p <= self.buffer@.len(),
                first_sentence_cut(self.buffer@, p as int) == first_sentence_cut(self.buffer@, 0),
            decreases self.buffer@.len() - p,
        {
            if p > 0 {
                let c = self.buffer[p - 1];
                if (c == '.' || c == '!' || c == '?') && is_ascii_whitespace(self.buffer[p]) {
                    return Some(p);
                }
            }
            p += 1;
        }
        None
    }

    fn find_soft_boundary(&self) -> (cut: Option<usize>)
        requires
            self.text().len() > 0,
        ensures
            cut is Some ==> last_clause_cut(self.text(), self.text().len() - 1) == Some(
                cut->0 as int,
            ) && 0 < cut->0 < self.text().len(),
            cut is None ==> last_clause_cut(self.text(), self.text().len() - 1) is None,
    {
        let mut p: usize = self.buffer.len() - 1;
        while p > 0
            invariant
                p < self.buffer@.len(),
                last_clause_cut(self.buffer@, p as int) == last_clause_cut(
                    self.buffer@,
                    self.buffer@.len() - 1,
                ),
            decreases p,
        {
            let c = self.buffer[p - 1];
            let mark = c == ',' || c == ';' || c == ':' || c == '\u{2014}' || (c == '-' && p > 1
                && is_whitespace(self.buffer[p - 2]));
            if mark && is_whitespace(self.buffer[p]) {
                return Some(p);
            }
            p -= 1;
        }
        None
    }
}

/// What a call at `now` does to the buffer and hands out: nothing unless the
/// text is due; then the text up to the last clause cut, with the quiet time
/// starting anew for the rest, or all of it where no clause is cut.
pub open spec fn timeout_flush(
    before: SentenceBuffer,
    now: Instant,
    after: SentenceBuffer,
    out: Option<String>,
) -> bool {
    let text = before.text();
    &&& after.quiet_limit() == before.quiet_limit()
    &&& if before.is_due(now) {
        match last_clause_cut(text, text.len() - 1) {
            Some(p) => {
                &&& out is Some
                &&& out->0@ == trimmed(text.take(p))
                &&& after.text() == trim_start(text.skip(p))
                &&& after.quiet_since() == Some(now)
            },
            None => {
                &&& out is Some
                &&& out->0@ == trimmed(text)
                &&& after.text() == Seq::<char>::empty()
                &&& after.quiet_since() is None
            },
        }
    } else {
        out is None && after == before
    }
}

pub proof fn lemma_first_sentence_cut(s: Seq<char>, from: int)
    ensures
        match first_sentence_cut(s, from) {
            Some(p) => from <= p && is_sentence_cut(s, p) && forall|q: int|
                from <= q < p ==> !is_sentence_cut(s, q),
            None => forall|q: int| from <= q ==> !is_sentence_cut(s, q),
        },
    decreases s.len() - from,
{
    if from < s.len() && !is_sentence_cut(s, from) {
        lemma_first_sentence_cut(s, from + 1);
    }
}

proof fn lemma_trim_ends_alike(s: Seq<char>)
    ensures
        (trimmed(s).len() == 0) == (trim_end(s).len() == 0),
        trimmed(s).len() > 0 ==> trimmed(s).last() == trim_end(s).last(),
{
    lemma_trimmed_blank(s);
    lemma_trim_end(s);
    lemma_trim_start(s);
    lemma_trim_end(trim_start(s));
    let t = trim_start(s);
    let k = s.len() - t.len();
    if trimmed(s).len() > 0 {
        let a = trimmed(s).len() - 1;
        let b = trim_end(s).len() - 1;
        assert(t[a] == s[k + a]);
        if k + a > b {
            assert(is_space(s[k + a]));
        } else if k + a < b {
            assert(!is_space(s[b]));
            assert(t[b - k] == s[b]);
            assert(is_space(t[b - k]));
        }
    }
}

// ---------------------------------------------------------------------------
// Laws
// ---------------------------------------------------------------------------

/// The characters other than whitespace, in order.
pub open spec fn visible(s: Seq<char>) -> Seq<char>
    decreases s.len(),
{
    if s.len() == 0 {
        Seq::empty()
    } else if is_space(s.last()) {
        visible(s.drop_last())
    } else {
        visible(s.drop_last()).push(s.last())
    }
}

/// The characters other than whitespace of several texts, in order.
pub open spec fn visible_all(texts: Seq<Seq<char>>) -> Seq<char>
    decreases texts.len(),
{
    if texts.len() == 0 {
        Seq::empty()
    } else {
        visible(texts[0]) + visible_all(texts.skip(1))
    }
}

pub proof fn lemma_visible_append(a: Seq<char>, b: Seq<char>)
    ensures
        visible(a + b) == visible(a) + visible(b),
    decreases b.len(),
{
    if b.len() == 0 {
        assert(a + b =~= a);
        assert(visible(a) + visible(b) =~= visible(a));
    } else {
        assert((a + b).drop_last() =~= a + b.drop_last());
        lemma_visible_append(a, b.drop_last());
        assert(visible(a + b) =~= visible(a) + visible(b));
    }
}

pub proof fn lemma_visible_blank(s: Seq<char>)
    requires
        is_blank(s),
    ensures
        visible(s) == Seq::<char>::empty(),
    decreases s.len(),
{
    if s.len() > 0 {
        assert(is_space(s[s.len() - 1]));
        let t = s.drop_last();
        assert forall|i: int| 0 <= i < t.len() implies is_space(#[trigger] t[i]) by {
            assert(t[i] == s[i]);
        }
        lemma_visible_blank(t);
    }
}

pub proof fn lemma_visible_trim_start(s: Seq<char>)
    ensures
        visible(trim_start(s)) == visible(s),
{
    lemma_trim_start(s);
    let k = s.len() - trim_start(s).len();
    let lead = s.take(k);
    assert(s =~= lead + trim_start(s));
    assert forall|i: int| 0 <= i < lead.len() implies is_space(#[trigger] lead[i]) by {
        assert(lead[i] == s[i]);
    }
    lemma_visible_blank(lead);
    lemma_visible_append(lead, trim_start(s));
    assert(visible(lead) + visible(trim_start(s)) =~= visible(trim_start(s)));
}

pub proof fn lemma_visible_trimmed(s: Seq<char>)
    ensures
        visible(trimmed(s)) == visible(s),
{
    lemma_visible_trim_start(s);
    let t = trim_start(s);
    lemma_trim_end(t);
    let n = trim_end(t).len() as int;
    let trail = t.skip(n);
    assert(t =~= trim_end(t) + trail);
    assert forall|i: int| 0 <= i < trail.len() implies is_space(#[trigger] trail[i]) by {
        assert(trail[i] == t[n + i]);
    }
    lemma_visible_blank(trail);
    lemma_visible_append(trim_end(t), trail);
    assert(visible(trim_end(t)) + visible(trail) =~= visible(trim_end(t)));
}

/// Nothing but whitespace is ever lost or reordered: the sentences handed out
/// and the text kept back hold exactly the visible characters that came in.
pub proof fn law_no_text_is_lost(s: Seq<char>)
    ensures
        visible_all(sentences(s)) + visible(remainder(s)) == visible(s),
    decreases s.len(),
{
    lemma_first_sentence_cut(s, 0);
    match first_sentence_cut(s, 0) {
        Some(p) => {
            let head = s.take(p);
            let rest = trim_start(s.skip(p));
            lemma_trim_start(s.skip(p));
            law_no_text_is_lost(rest);
            assert(s =~= head + s.skip(p));
            lemma_visible_append(head, s.skip(p));
            lemma_visible_trimmed(head);
            lemma_visible_trim_start(s.skip(p));
            assert(sentences(s)[0] == trimmed(head));
            assert(sentences(s).skip(1) =~= sentences(rest));
            assert(visible_all(sentences(s)) + visible(remainder(s)) =~= visible(head) + (
            visible_all(sentences(rest)) + visible(remainder(rest))));
        },
        None => {
            assert(visible_all(sentences(s)) + visible(remainder(s)) =~= visible(s));
        },
    }
}

/// Every sentence handed out is worth speaking: it is not empty, has no
/// whitespace at either end, and ends with the mark that completed it.
pub proof fn law_sentences_are_speakable(s: Seq<char>)
    ensures
        forall|k: int|
            0 <= k < sentences(s).len() ==> {
                let t = #[trigger] sentences(s)[k];
                t.len() > 0 && !is_space(t[0]) && ends_sentence(t.last())
            },
    decreases s.len(),
{
    lemma_first_sentence_cut(s, 0);
    match first_sentence_cut(s, 0) {
        Some(p) => {
            let head = s.take(p);
            let rest = trim_start(s.skip(p));
            lemma_trim_start(s.skip(p));
            law_sentences_are_speakable(rest);
            lemma_trimmed_blank(head);
            lemma_trim_end(head);
            lemma_trim_ends_alike(head);
            assert(head.last() == s[p - 1]);
            assert(!is_space(head[head.len() - 1]));
            assert(trim_end(head).len() == head.len());
            assert forall|k: int| 0 <= k < sentences(s).len() implies {
                let t = #[trigger] sentences(s)[k];
                t.len() > 0 && !is_space(t[0]) && ends_sentence(t.last())
            } by {
                if k > 0 {
                    assert(sentences(s)[k] == sentences(rest)[k - 1]);
                }
            }
        },
        None => {},
    }
}

/// A text kept back holds no complete sentence.
pub proof fn law_remainder_is_incomplete(s: Seq<char>)
    ensures
        first_sentence_cut(remainder(s), 0) is None,
        sentences(remainder(s)).len() == 0,
        remainder(remainder(s)) == remainder(s),
    decreases s.len(),
{
    lemma_first_sentence_cut(s, 0);
    match first_sentence_cut(s, 0) {
        Some(p) => {
            lemma_trim_start(s.skip(p));
            law_remainder_is_incomplete(trim_start(s.skip(p)));
        },
        None => {},
    }
}

proof fn lemma_first_cut_is(s: Seq<char>, from: int, p: int)
    requires
        from <= p,
        is_sentence_cut(s, p),
        forall|q: int| from <= q < p ==> !is_sentence_cut(s, q),
    ensures
        first_sentence_cut(s, from) == Some(p),
{
    lemma_first_sentence_cut(s, from);
}

proof fn lemma_trim_start_append(a: Seq<char>, b: Seq<char>)
    ensures
        is_blank(a) ==> trim_start(a + b) == trim_start(b),
        !is_blank(a) ==> trim_start(a + b) == trim_start(a) + b,
    decreases a.len(),
{
    if a.len() == 0 {
        assert(a + b =~= b);
    } else if is_space(a[0]) {
        assert((a + b)[0] == a[0]);
        assert((a + b).skip(1) =~= a.skip(1) + b);
        lemma_trim_start_append(a.skip(1), b);
        lemma_trim_start(a);
        lemma_trim_start(a.skip(1));
    } else {
        assert((a + b)[0] == a[0]);
        assert(!is_blank(a));
    }
}

/// Whitespace in front of a text changes neither its sentences nor, but for
/// that whitespace, what is left of it.
proof fn lemma_leading_space_is_ignored(s: Seq<char>)
    ensures
        sentences(trim_start(s)) == sentences(s),
        trim_start(remainder(trim_start(s))) == trim_start(remainder(s)),
{
    let t = trim_start(s);
    lemma_trim_start(s);
    let k = s.len() - t.len();
    let lead = s.take(k);
    assert forall|i: int| 0 <= i < lead.len() implies is_space(#[trigger] lead[i]) by {
        assert(lead[i] == s[i]);
    }
    lemma_first_sentence_cut(s, 0);
    lemma_first_sentence_cut(t, 0);
    assert forall|q: int| 0 <= q <= k implies !is_sentence_cut(s, q) by {
        if q > 0 {
            assert(is_space(s[q - 1]));
        }
    }
    assert forall|q: int| k < q implies #[trigger] is_sentence_cut(s, q) == is_sentence_cut(
        t,
        q - k,
    ) by {
        if q < s.len() {
            assert(t[q - k] == s[q]);
            assert(t[q - k - 1] == s[q - 1]);
        }
    }
    match first_sentence_cut(s, 0) {
        Some(p) => {
            assert forall|q: int| 0 <= q < p - k implies !is_sentence_cut(t, q) by {
                if q > 0 {
                    assert(!is_sentence_cut(s, q + k));
                }
            }
            lemma_first_cut_is(t, 0, p - k);
            assert(s.take(p) =~= lead + t.take(p - k));
            assert(!is_blank(t.take(p - k))) by {
                assert(!is_space(t.take(p - k)[p - k - 1]));
            }
            lemma_trim_start_append(lead, t.take(p - k));
            assert(s.skip(p) =~= t.skip(p - k));
        },
        None => {
            assert forall|q: int| 0 <= q implies !is_sentence_cut(t, q) by {
                if q > 0 {
                    assert(!is_sentence_cut(s, q + k));
                }
            }
            assert(first_sentence_cut(t, 0) is None);
            assert(trim_start(t) == t);
        },
    }
}

/// How a text is cut into chunks on its way changes nothing: pushing `a` and
/// then `b` hands out the sentences that pushing both at once does, and leaves
/// the same text behind, but for whitespace in front of it.
pub proof fn law_chunking_changes_nothing(a: Seq<char>, b: Seq<char>)
    ensures
        sentences(a) + sentences(remainder(a) + b) == sentences(a + b),
        trim_start(remainder(remainder(a) + b)) == trim_start(remainder(a + b)),
    decreases a.len(),
{
    lemma_first_sentence_cut(a, 0);
    match first_sentence_cut(a, 0) {
        Some(p) => {
            let whole = a + b;
            assert forall|q: int| 0 <= q < a.len() implies #[trigger] is_sentence_cut(whole, q)
                == is_sentence_cut(a, q) by {
                if q > 0 {
                    assert(whole[q] == a[q] && whole[q - 1] == a[q - 1]);
                }
            }
            lemma_first_cut_is(whole, 0, p);
            assert(whole.take(p) =~= a.take(p));
            let x = a.skip(p);
            assert(whole.skip(p) =~= x + b);
            let rest = trim_start(x);
            lemma_trim_start(x);
            lemma_trim_start_append(x, b);
            if is_blank(x) {
                assert(rest =~= Seq::<char>::empty());
                assert(sentences(rest) =~= Seq::<Seq<char>>::empty());
                assert(remainder(rest) == rest);
                assert(remainder(a) + b =~= b);
                lemma_leading_space_is_ignored(b);
                assert(sentences(a) =~= seq![trimmed(a.take(p))]);
            } else {
                law_chunking_changes_nothing(rest, b);
                assert(sentences(whole) =~= seq![trimmed(a.take(p))] + sentences(rest + b));
            }
            assert(sentences(a) + sentences(remainder(a) + b) =~= sentences(whole));
        },
        None => {
            assert(sentences(a) + sentences(remainder(a) + b) =~= sentences(a + b));
        },
    }
}

/// A flush on a quiet stream loses nothing but whitespace either: what it hands
/// out and what it keeps hold the visible characters that were there.
pub proof fn law_timeout_flush_loses_nothing(
    before: SentenceBuffer,
    now: Instant,
    after: SentenceBuffer,
    out: Option<String>,
)
    requires
        timeout_flush(before, now, after, out),
    ensures
        (if out is Some {
            visible(out->0@)
        } else {
            Seq::empty()
        }) + visible(after.text()) == visible(before.text()),
{
    let text = before.text();
    if before.is_due(now) {
        lemma_last_clause_cut(text, text.len() - 1);
        match last_clause_cut(text, text.len() - 1) {
            Some(p) => {
                assert(text =~= text.take(p) + text.skip(p));
                lemma_visible_append(text.take(p), text.skip(p));
                lemma_visible_trimmed(text.take(p));
                lemma_visible_trim_start(text.skip(p));
            },
            None => {
                lemma_visible_trimmed(text);
                assert(visible(trimmed(text)) + visible(Seq::<char>::empty()) =~= visible(text));
            },
        }
    } else {
        assert(Seq::<char>::empty() + visible(after.text()) =~= visible(before.text()));
    }
}

/// The cut that a flush makes is the last one there is.
pub proof fn lemma_last_clause_cut(s: Seq<char>, upto: int)
    ensures
        match last_clause_cut(s, upto) {
            Some(p) => p <= upto && is_clause_cut(s, p) && forall|q: int|
                p < q <= upto ==> !is_clause_cut(s, q),
            None => forall|q: int| q <= upto ==> !is_clause_cut(s, q),
        },
    decreases upto,
{
    if upto > 0 && !is_clause_cut(s, upto) {
        lemma_last_clause_cut(s, upto - 1);
    }
}

/// Whether a sentence mark stands just before `p`, and a space, tab, line feed,
/// form feed or carriage return at it.
pub open spec fn sentence_ends_at(s: Seq<char>, p: int) -> bool {
    &&& 0 < p < s.len()
    &&& s[p - 1] == '.' || s[p - 1] == '!' || s[p - 1] == '?'
    &&& s[p] == ' ' || s[p] == '\t' || s[p] == '\n' || s[p] == '\u{c}' || s[p] == '\r'
}

proof fn lemma_sentence_ends(s: Seq<char>)
    ensures
        forall|p: int| #[trigger] is_sentence_cut(s, p) <==> sentence_ends_at(s, p),
{
    assert forall|p: int| #[trigger] is_sentence_cut(s, p) <==> sentence_ends_at(s, p) by {
        law_white_space(s[p]);
    }
}

/// No end of a sentence is missed: neither a sentence handed out nor the text
/// kept back holds a sentence mark with a space, tab, line feed, form feed or
/// carriage return behind it.
pub proof fn law_no_sentence_end_is_missed(s: Seq<char>)
    ensures
        forall|k: int, p: int|
            0 <= k < sentences(s).len() ==> !#[trigger] sentence_ends_at(sentences(s)[k], p),
        forall|p: int| !#[trigger] sentence_ends_at(remainder(s), p),
    decreases s.len(),
{
    lemma_sentence_ends(s);
    lemma_first_sentence_cut(s, 0);
    match first_sentence_cut(s, 0) {
        Some(p) => {
            let head = s.take(p);
            let rest = trim_start(s.skip(p));
            lemma_trim_start(s.skip(p));
            law_no_sentence_end_is_missed(rest);
            assert(remainder(s) == remainder(rest));
            let t = trimmed(head);
            lemma_trim_start(head);
            lemma_trim_end(trim_start(head));
            let d = head.len() - trim_start(head).len();
            assert forall|q: int| !#[trigger] sentence_ends_at(t, q) by {
                if 0 < q < t.len() {
                    assert(t[q] == s[q + d]);
                    assert(t[q - 1] == s[q + d - 1]);
                    assert(!is_sentence_cut(s, q + d));
                }
            }
            assert forall|k: int, q: int|
                0 <= k < sentences(s).len() implies !#[trigger] sentence_ends_at(
                sentences(s)[k],
                q,
            ) by {
                if k > 0 {
                    assert(sentences(s)[k] == sentences(rest)[k - 1]);
                    assert(!sentence_ends_at(sentences(rest)[k - 1], q));
                }
            }
        },
        None => {
            assert forall|p: int| !#[trigger] sentence_ends_at(remainder(s), p) by {
                if 0 < p < s.len() {
                    assert(!is_sentence_cut(s, p));
                }
            }
        },
    }
}

/// A text is cut where its first sentence ends, and nowhere before: what stands
/// there, without the whitespace round it, is the first sentence, and what is
/// behind it is cut in the same way. A text in which no sentence ends is kept
/// back as it is.
pub proof fn law_text_is_cut_where_sentences_end(s: Seq<char>, p: int)
    ensures
        sentence_ends_at(s, p) && (forall|q: int| q < p ==> !#[trigger] sentence_ends_at(s, q)) ==> {
            &&& sentences(s) == seq![trimmed(s.take(p))] + sentences(trim_start(s.skip(p)))
            &&& remainder(s) == remainder(trim_start(s.skip(p)))
        },
        (forall|q: int| !#[trigger] sentence_ends_at(s, q)) ==> sentences(s).len() == 0
            && remainder(s) == s,
{
    lemma_sentence_ends(s);
    lemma_first_sentence_cut(s, 0);
    if sentence_ends_at(s, p) && (forall|q: int| q < p ==> !#[trigger] sentence_ends_at(s, q)) {
        assert(is_sentence_cut(s, p));
        assert forall|q: int| 0 <= q < p implies !is_sentence_cut(s, q) by {
            assert(!sentence_ends_at(s, q));
        }
        lemma_first_cut_is(s, 0, p);
    }
    if forall|q: int| !#[trigger] sentence_ends_at(s, q) {
        if first_sentence_cut(s, 0) is Some {
            assert(is_sentence_cut(s, first_sentence_cut(s, 0)->0));
            assert(sentence_ends_at(s, first_sentence_cut(s, 0)->0));
        }
    }
}

/// Every sentence handed out ends with a full stop, an exclamation or a question
/// mark.
pub proof fn law_sentences_end_with_a_mark(s: Seq<char>, k: int)
    requires
        0 <= k < sentences(s).len(),
    ensures
        sentences(s)[k].len() > 0,
        sentences(s)[k].last() == '.' || sentences(s)[k].last() == '!' || sentences(s)[k].last()
            == '?',
{
    law_sentences_are_speakable(s);
}

/// Whether a pause within a sentence stands just before `p`: a comma, semicolon,
/// colon or dash, or a hyphen behind whitespace, with whitespace behind it.
pub open spec fn pause_ends_at(s: Seq<char>, p: int) -> bool {
    &&& 0 < p < s.len()
    &&& {
        ||| s[p - 1] == ','
        ||| s[p - 1] == ';'
        ||| s[p - 1] == ':'
        ||| s[p - 1] == '\u{2014}'
        ||| s[p - 1] == '-' && p >= 2 && is_space(s[p - 2])
    }
    &&& is_space(s[p])
}

/// What a quiet stream gives out: nothing before the text has waited for the
/// timeout, nor where there is nothing but whitespace; then the text up to its
/// last pause, and the rest waits anew; all of it where there is no pause.
pub proof fn law_quiet_text_is_cut_at_its_last_pause(
    before: SentenceBuffer,
    since: Instant,
    now: Instant,
    after: SentenceBuffer,
    out: Option<String>,
    p: int,
    i: int,
)
    requires
        timeout_flush(before, now, after, out),
        before.quiet_since() == Some(since),
    ensures
        before.quiet_limit().nanos > 0 && now.nanos < since.nanos + before.quiet_limit().nanos
            ==> out is None && after == before,
        is_blank(before.text()) ==> out is None && after == before,
        (before.quiet_limit().nanos == 0 || now.nanos >= since.nanos + before.quiet_limit().nanos)
            && 0 <= i < before.text().len() && !is_space(before.text()[i]) ==> {
            &&& out is Some
            &&& pause_ends_at(before.text(), p) && (forall|q: int|
                p < q ==> !#[trigger] pause_ends_at(before.text(), q)) ==> {
                &&& out->0@ == trimmed(before.text().take(p))
                &&& after.text() == trim_start(before.text().skip(p))
                &&& after.quiet_since() == Some(now)
            }
            &&& (forall|q: int| !#[trigger] pause_ends_at(before.text(), q)) ==> {
                &&& out->0@ == trimmed(before.text())
                &&& after.text().len() == 0
                &&& after.quiet_since() is None
            }
        },
{
    let text = before.text();
    lemma_last_clause_cut(text, text.len() - 1);
    assert forall|q: int| #[trigger] is_clause_cut(text, q) <==> pause_ends_at(text, q) by {}
    if pause_ends_at(text, p) && (forall|q: int| p < q ==> !#[trigger] pause_ends_at(text, q)) {
        assert(is_clause_cut(text, p));
        match last_clause_cut(text, text.len() - 1) {
            Some(c) => {
                assert(pause_ends_at(text, c));
            },
            None => {},
        }
    }
    if forall|q: int| !#[trigger] pause_ends_at(text, q) {
        match last_clause_cut(text, text.len() - 1) {
            Some(c) => {
                assert(pause_ends_at(text, c));
            },
            None => {},
        }
    }
}

/// Without text that came in, no time makes anything come out.
pub proof fn law_nothing_comes_of_nothing(
    before: SentenceBuffer,
    now: Instant,
    after: SentenceBuffer,
    out: Option<String>,
)
    requires
        timeout_flush(before, now, after, out),
        before.quiet_since() is None,
    ensures
        out is None,
        after == before,
{
}

/// A short acknowledgement is a text whose last visible character is a full
/// stop, an exclamation or a question mark, of no more words than allowed.
pub proof fn law_what_a_short_ack_is(s: Seq<char>, max_words: nat)
    ensures
        is_short_ack(s, max_words) <==> words(s).len() <= max_words && exists|i: int|
            {
                &&& 0 <= i < s.len()
                &&& #[trigger] s[i] == '.' || s[i] == '!' || s[i] == '?'
                &&& is_blank(s.skip(i + 1))
            },
{
    lemma_words_of_trimmed(s);
    lemma_trim_end(s);
    let e = trim_end(s);
    if is_short_ack(s, max_words) {
        let i = e.len() - 1;
        assert(s[i] == e.last());
        assert forall|j: int| 0 <= j < s.skip(i + 1).len() implies is_space(
            #[trigger] s.skip(i + 1)[j],
        ) by {
            assert(s.skip(i + 1)[j] == s[i + 1 + j]);
        }
        assert(is_blank(s.skip(i + 1)));
    }
    if exists|i: int|
        {
            &&& 0 <= i < s.len()
            &&& #[trigger] s[i] == '.' || s[i] == '!' || s[i] == '?'
            &&& is_blank(s.skip(i + 1))
        } {
        let i = choose|i: int|
            {
                &&& 0 <= i < s.len()
                &&& #[trigger] s[i] == '.' || s[i] == '!' || s[i] == '?'
                &&& is_blank(s.skip(i + 1))
            };
        assert(!is_space(s[i]));
        assert(e.len() == i + 1) by {
            if e.len() < i + 1 {
                assert(is_space(s[i]));
            }
            if e.len() > i + 1 {
                assert(e.last() == s[e.len() - 1]);
                assert(s.skip(i + 1)[e.len() - 2 - i] == s[e.len() - 1]);
            }
        }
        assert(e.last() == s[i]);
    }
}

proof fn lemma_words_of_trimmed(s: Seq<char>)
    ensures
        words(trimmed(s)) == words(s),
{
    lemma_trim_start(s);
    let t = trim_start(s);
    lemma_trim_end(t);
    let k = s.len() - t.len();
    let lead = s.take(k);
    assert forall|i: int| 0 <= i < lead.len() implies is_space(#[trigger] lead[i]) by {
        assert(lead[i] == s[i]);
    }
    assert(s =~= lead + t);
    lemma_words_behind_space(lead, t);
    lemma_space_adds_no_word(Seq::<char>::empty(), lead);
    assert(Seq::<char>::empty() + lead =~= lead);
    assert(words(lead) + words(t) =~= words(t));
    let e = trim_end(t);
    let trail = t.skip(e.len() as int);
    assert forall|i: int| 0 <= i < trail.len() implies is_space(#[trigger] trail[i]) by {
        assert(trail[i] == t[e.len() + i]);
    }
    assert(t =~= e + trail);
    lemma_space_adds_no_word(e, trail);
}

proof fn lemma_space_adds_no_word(s: Seq<char>, space: Seq<char>)
    requires
        is_blank(space),
    ensures
        words(s + space) == words(s),
    decreases space.len(),
{
    if space.len() == 0 {
        assert(s + space =~= s);
    } else {
        let before = space.drop_last();
        assert forall|i: int| 0 <= i < before.len() implies is_space(#[trigger] before[i]) by {
            assert(before[i] == space[i]);
        }
        lemma_space_adds_no_word(s, before);
        assert((s + space).drop_last() =~= s + before);
        assert(is_space(space[space.len() - 1]));
        assert((s + space).last() == space[space.len() - 1]);
    }
}

} // verus!
