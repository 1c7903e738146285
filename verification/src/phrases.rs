//! Phrases that the pipeline recognizes, and those that it says itself.

use vstd::prelude::*;

use crate::text::{
    ascii_lower, chars_of, contains_text, has_text, is_word, join_with_spaces, join_words,
    lemma_words, lemma_words_of_joined, lower_chars, lowered, same_chars, split_words, stands_at,
    words,
};

verus! {

/// Said where a turn fails.
pub const ERROR_APOLOGY: &'static str = "Sorry, I ran into an error and couldn't answer that.";

/// Said where a turn takes too long.
pub const STALL_APOLOGY: &'static str = "Sorry, that's taking too long. Let's try again.";

/// Said once on a slow turn of which nothing was heard yet.
pub const LIVENESS_PHRASE: &'static str = "One moment.";

/// Said where the user asks to stop.
pub const STOP_ACKNOWLEDGEMENT: &'static str = "Okay.";

/// Whether the text reports an error of the language model.
pub open spec fn reports_error(text: Seq<char>) -> bool {
    has_text(lowered(text), "llm error"@)
}

/// Whether a reply is an error report, which is not read aloud.
pub fn is_error_response(text: &str) -> (b: bool)
    ensures
        b == reports_error(text@),
{
    let lower = lower_chars(&chars_of(text));
    contains_text(&lower, &chars_of("llm error"))
}

/// `s` without full stops, commas, exclamation and question marks.
pub open spec fn without_marks(s: Seq<char>) -> Seq<char>
    decreases s.len(),
{
    if s.len() == 0 {
        Seq::empty()
    } else {
        let before = without_marks(s.drop_last());
        let c = s.last();
        if c == '.' || c == ',' || c == '!' || c == '?' {
            before
        } else {
            before.push(c)
        }
    }
}

/// The words of a text in lower case, without marks, single spaces between
/// them.
pub open spec fn normalized(text: Seq<char>) -> Seq<char> {
    join_words(words(without_marks(lowered(text))))
}

/// Whether a whole utterance asks to stop.
pub open spec fn asks_to_stop(text: Seq<char>) -> bool {
    let n = normalized(text);
    ||| n == "stop"@
    ||| n == "stop listening"@
    ||| n == "stop listening adele"@
    ||| n == "stop adele"@
    ||| n == "never mind"@
    ||| n == "nevermind"@
    ||| n == "that's all"@
    ||| n == "thats all"@
    ||| n == "that is all"@
    ||| n == "that'll be all"@
    ||| n == "goodbye"@
    ||| n == "good bye"@
    ||| n == "cancel"@
    ||| n == "we're done"@
    ||| n == "were done"@
    ||| n == "i'm done"@
    ||| n == "im done"@
}

fn drop_marks(s: &[char]) -> (out: Vec<char>)
    ensures
        out@ == without_marks(s@),
{
    let mut out: Vec<char> = Vec::new();
    let mut i: usize = 0;
    while i < s.len()
        invariant
            i <= s@.len(),
            out@ == without_marks(s@.take(i as int)),
        decreases s@.len() - i,
    {
        let c = s[i];
        proof {
            assert(s@.take(i as int + 1).drop_last() =~= s@.take(i as int));
        }
        if c != '.' && c != ',' && c != '!' && c != '?' {
            out.push(c);
        }
        i += 1;
    }
    proof {
        assert(s@.take(s@.len() as int) =~= s@);
    }
    out
}

fn reads(n: &[char], phrase: &str) -> (b: bool)
    ensures
        b == (n@ == phrase@),
{
    let p = chars_of(phrase);
    same_chars(n, &p)
}

/// Whether a whole utterance asks to stop. The same words within a longer one
/// do not.
pub fn is_stop_phrase(text: &str) -> (b: bool)
    ensures
        b == asks_to_stop(text@),
{
    let bare = drop_marks(&lower_chars(&chars_of(text)));
    let n = join_with_spaces(&split_words(&bare));
    reads(&n, "stop") || reads(&n, "stop listening") || reads(&n, "stop listening adele") || reads(
        &n,
        "stop adele",
    ) || reads(&n, "never mind") || reads(&n, "nevermind") || reads(&n, "that's all") || reads(
        &n,
        "thats all",
    ) || reads(&n, "that is all") || reads(&n, "that'll be all") || reads(&n, "goodbye") || reads(
        &n,
        "good bye",
    ) || reads(&n, "cancel") || reads(&n, "we're done") || reads(&n, "were done") || reads(
        &n,
        "i'm done",
    ) || reads(&n, "im done")
}

/// How an utterance is written changes nothing: texts with the same words in
/// the same order, whatever their case, marks and spacing, are both asked to
/// stop or neither is.
pub proof fn law_spelling_does_not_matter(a: Seq<char>, b: Seq<char>)
    requires
        words(without_marks(lowered(a))) == words(without_marks(lowered(b))),
    ensures
        asks_to_stop(a) == asks_to_stop(b),
{
}

/// Whether the characters from `i` on spell `llm error`, each letter in upper or
/// lower case.
pub open spec fn spells_llm_error(text: Seq<char>, i: int) -> bool {
    &&& 0 <= i
    &&& i + 9 <= text.len()
    &&& text[i] == 'l' || text[i] == 'L'
    &&& text[i + 1] == 'l' || text[i + 1] == 'L'
    &&& text[i + 2] == 'm' || text[i + 2] == 'M'
    &&& text[i + 3] == ' '
    &&& text[i + 4] == 'e' || text[i + 4] == 'E'
    &&& text[i + 5] == 'r' || text[i + 5] == 'R'
    &&& text[i + 6] == 'r' || text[i + 6] == 'R'
    &&& text[i + 7] == 'o' || text[i + 7] == 'O'
    &&& text[i + 8] == 'r' || text[i + 8] == 'R'
}

/// A text is an error report exactly where `llm error` stands somewhere in it in
/// a row, in whatever case. So a text that nowhere names an LLM is none, however
/// it speaks of errors.
pub proof fn law_what_an_error_report_is(text: Seq<char>)
    ensures
        reports_error(text) <==> exists|i: int| #[trigger] spells_llm_error(text, i),
        (forall|i: int|
            0 <= i < text.len() - 2 ==> !((text[i] == 'l' || text[i] == 'L') && (
            #[trigger] text[i + 1] == 'l' || text[i + 1] == 'L') && (text[i + 2] == 'm' || text[i
                + 2] == 'M'))) ==> !reports_error(text),
{
    reveal_strlit("llm error");
    let low = lowered(text);
    let p = "llm error"@;
    assert forall|i: int| stands_at(low, p, i) implies #[trigger] spells_llm_error(text, i) by {
        lemma_llm_error_at(text, i);
    }
    assert forall|i: int| #[trigger] spells_llm_error(text, i) implies stands_at(low, p, i) by {
        lemma_llm_error_at(text, i);
    }
    if reports_error(text) {
        let i = choose|i: int| #[trigger] stands_at(low, p, i);
        assert(spells_llm_error(text, i));
        assert(text[i + 1] == 'l' || text[i + 1] == 'L');
    }
    if exists|i: int| #[trigger] spells_llm_error(text, i) {
        let i = choose|i: int| #[trigger] spells_llm_error(text, i);
        assert(stands_at(low, p, i));
    }
}

proof fn lemma_llm_error_at(text: Seq<char>, i: int)
    ensures
        stands_at(lowered(text), "llm error"@, i) <==> spells_llm_error(text, i),
{
    reveal_strlit("llm error");
    let low = lowered(text);
    let p = "llm error"@;
    assert(p.len() == 9);
    if 0 <= i && i + 9 <= text.len() {
        let run = low.subrange(i, i + 9);
        assert forall|k: int| 0 <= k < 9 implies #[trigger] run[k] == ascii_lower(
            text[i + k],
        ) by {}
        assert(run[0] == ascii_lower(text[i]));
        assert(run[1] == ascii_lower(text[i + 1]));
        assert(run[2] == ascii_lower(text[i + 2]));
        assert(run[3] == ascii_lower(text[i + 3]));
        assert(run[4] == ascii_lower(text[i + 4]));
        assert(run[5] == ascii_lower(text[i + 5]));
        assert(run[6] == ascii_lower(text[i + 6]));
        assert(run[7] == ascii_lower(text[i + 7]));
        assert(run[8] == ascii_lower(text[i + 8]));
        if spells_llm_error(text, i) {
            assert(run =~= p);
        }
        if run == p {
            assert(run[0] == 'l' && run[1] == 'l' && run[2] == 'm' && run[3] == ' ' && run[4] == 'e'
                && run[5] == 'r' && run[6] == 'r' && run[7] == 'o' && run[8] == 'r');
        }
    }
}

/// What asks to stop, word for word: an utterance that in lower case, without
/// full stops, commas, exclamation and question marks, consists of the words of
/// one of seventeen phrases and of no others.
pub proof fn law_what_asks_to_stop(text: Seq<char>)
    ensures
        ({
            let w = words(without_marks(lowered(text)));
            asks_to_stop(text) <==> {
                ||| w == seq!["stop"@]
                ||| w == seq!["stop"@, "listening"@]
                ||| w == seq!["stop"@, "listening"@, "adele"@]
                ||| w == seq!["stop"@, "adele"@]
                ||| w == seq!["never"@, "mind"@]
                ||| w == seq!["nevermind"@]
                ||| w == seq!["that's"@, "all"@]
                ||| w == seq!["thats"@, "all"@]
                ||| w == seq!["that"@, "is"@, "all"@]
                ||| w == seq!["that'll"@, "be"@, "all"@]
                ||| w == seq!["goodbye"@]
                ||| w == seq!["good"@, "bye"@]
                ||| w == seq!["cancel"@]
                ||| w == seq!["we're"@, "done"@]
                ||| w == seq!["were"@, "done"@]
                ||| w == seq!["i'm"@, "done"@]
                ||| w == seq!["im"@, "done"@]
            }
        }),
{
    lemma_words(without_marks(lowered(text)));
    let w = words(without_marks(lowered(text)));
    assert(words(normalized(text)) == w) by {
        lemma_words_of_joined(w);
    }
    lemma_one_word_phrases(w);
    lemma_two_word_phrases(w);
    lemma_more_two_word_phrases(w);
    lemma_three_word_phrases(w);
}

/// Two words joined.
proof fn lemma_two_words(a: Seq<char>, b: Seq<char>)
    ensures
        join_words(seq![a, b]) == a + seq![' '] + b,
{
    assert(seq![a, b].drop_last() =~= seq![a]);
    assert(join_words(seq![a]) == a);
    assert(a.push(' ') + b =~= a + seq![' '] + b);
}

/// Three words joined.
proof fn lemma_three_words(a: Seq<char>, b: Seq<char>, c: Seq<char>)
    ensures
        join_words(seq![a, b, c]) == a + seq![' '] + b + seq![' '] + c,
{
    assert(seq![a, b, c].drop_last() =~= seq![a, b]);
    lemma_two_words(a, b);
    assert(join_words(seq![a, b]).push(' ') + c =~= a + seq![' '] + b + seq![' '] + c);
}

/// Words are a phrase's words exactly where both joined are the same text.
proof fn lemma_same_joined(w: Seq<Seq<char>>, v: Seq<Seq<char>>)
    requires
        forall|k: int| 0 <= k < w.len() ==> is_word(#[trigger] w[k]),
        forall|k: int| 0 <= k < v.len() ==> is_word(#[trigger] v[k]),
    ensures
        w == v <==> join_words(w) == join_words(v),
{
    lemma_words_of_joined(w);
    lemma_words_of_joined(v);
}

proof fn lemma_one_word_phrases(w: Seq<Seq<char>>)
    requires
        forall|k: int| 0 <= k < w.len() ==> is_word(#[trigger] w[k]),
    ensures
        join_words(w) == "stop"@ <==> w == seq!["stop"@],
        join_words(w) == "nevermind"@ <==> w == seq!["nevermind"@],
        join_words(w) == "goodbye"@ <==> w == seq!["goodbye"@],
        join_words(w) == "cancel"@ <==> w == seq!["cancel"@],
{
    reveal_strlit("stop");
    reveal_strlit("nevermind");
    reveal_strlit("goodbye");
    reveal_strlit("cancel");
    lemma_same_joined(w, seq!["stop"@]);
    lemma_same_joined(w, seq!["nevermind"@]);
    lemma_same_joined(w, seq!["goodbye"@]);
    lemma_same_joined(w, seq!["cancel"@]);
}

proof fn lemma_two_word_phrases(w: Seq<Seq<char>>)
    requires
        forall|k: int| 0 <= k < w.len() ==> is_word(#[trigger] w[k]),
    ensures
        join_words(w) == "stop listening"@ <==> w == seq!["stop"@, "listening"@],
        join_words(w) == "stop adele"@ <==> w == seq!["stop"@, "adele"@],
        join_words(w) == "never mind"@ <==> w == seq!["never"@, "mind"@],
        join_words(w) == "that's all"@ <==> w == seq!["that's"@, "all"@],
        join_words(w) == "thats all"@ <==> w == seq!["thats"@, "all"@],
{
    reveal_strlit("stop");
    reveal_strlit("listening");
    reveal_strlit("adele");
    reveal_strlit("never");
    reveal_strlit("mind");
    reveal_strlit("that's");
    reveal_strlit("thats");
    reveal_strlit("all");
    reveal_strlit("stop listening");
    reveal_strlit("stop adele");
    reveal_strlit("never mind");
    reveal_strlit("that's all");
    reveal_strlit("thats all");
    lemma_two_words("stop"@, "listening"@);
    assert("stop"@ + seq![' '] + "listening"@ =~= "stop listening"@);
    lemma_same_joined(w, seq!["stop"@, "listening"@]);
    lemma_two_words("stop"@, "adele"@);
    assert("stop"@ + seq![' '] + "adele"@ =~= "stop adele"@);
    lemma_same_joined(w, seq!["stop"@, "adele"@]);
    lemma_two_words("never"@, "mind"@);
    assert("never"@ + seq![' '] + "mind"@ =~= "never mind"@);
    lemma_same_joined(w, seq!["never"@, "mind"@]);
    lemma_two_words("that's"@, "all"@);
    assert("that's"@ + seq![' '] + "all"@ =~= "that's all"@);
    lemma_same_joined(w, seq!["that's"@, "all"@]);
    lemma_two_words("thats"@, "all"@);
    assert("thats"@ + seq![' '] + "all"@ =~= "thats all"@);
    lemma_same_joined(w, seq!["thats"@, "all"@]);
}

proof fn lemma_more_two_word_phrases(w: Seq<Seq<char>>)
    requires
        forall|k: int| 0 <= k < w.len() ==> is_word(#[trigger] w[k]),
    ensures
        join_words(w) == "good bye"@ <==> w == seq!["good"@, "bye"@],
        join_words(w) == "we're done"@ <==> w == seq!["we're"@, "done"@],
        join_words(w) == "were done"@ <==> w == seq!["were"@, "done"@],
        join_words(w) == "i'm done"@ <==> w == seq!["i'm"@, "done"@],
        join_words(w) == "im done"@ <==> w == seq!["im"@, "done"@],
{
    reveal_strlit("good");
    reveal_strlit("bye");
    reveal_strlit("we're");
    reveal_strlit("were");
    reveal_strlit("i'm");
    reveal_strlit("im");
    reveal_strlit("done");
    reveal_strlit("good bye");
    reveal_strlit("we're done");
    reveal_strlit("were done");
    reveal_strlit("i'm done");
    reveal_strlit("im done");
    lemma_two_words("good"@, "bye"@);
    assert("good"@ + seq![' '] + "bye"@ =~= "good bye"@);
    lemma_same_joined(w, seq!["good"@, "bye"@]);
    lemma_two_words("we're"@, "done"@);
    assert("we're"@ + seq![' '] + "done"@ =~= "we're done"@);
    lemma_same_joined(w, seq!["we're"@, "done"@]);
    lemma_two_words("were"@, "done"@);
    assert("were"@ + seq![' '] + "done"@ =~= "were done"@);
    lemma_same_joined(w, seq!["were"@, "done"@]);
    lemma_two_words("i'm"@, "done"@);
    assert("i'm"@ + seq![' '] + "done"@ =~= "i'm done"@);
    lemma_same_joined(w, seq!["i'm"@, "done"@]);
    lemma_two_words("im"@, "done"@);
    assert("im"@ + seq![' '] + "done"@ =~= "im done"@);
    lemma_same_joined(w, seq!["im"@, "done"@]);
}

proof fn lemma_three_word_phrases(w: Seq<Seq<char>>)
    requires
        forall|k: int| 0 <= k < w.len() ==> is_word(#[trigger] w[k]),
    ensures
        join_words(w) == "stop listening adele"@ <==> w == seq!["stop"@, "listening"@, "adele"@],
        join_words(w) == "that is all"@ <==> w == seq!["that"@, "is"@, "all"@],
        join_words(w) == "that'll be all"@ <==> w == seq!["that'll"@, "be"@, "all"@],
{
    reveal_strlit("stop");
    reveal_strlit("listening");
    reveal_strlit("adele");
    reveal_strlit("that");
    reveal_strlit("is");
    reveal_strlit("all");
    reveal_strlit("that'll");
    reveal_strlit("be");
    reveal_strlit("stop listening adele");
    reveal_strlit("that is all");
    reveal_strlit("that'll be all");
    lemma_three_words("stop"@, "listening"@, "adele"@);
    assert("stop"@ + seq![' '] + "listening"@ + seq![' '] + "adele"@ =~= "stop listening adele"@);
    lemma_same_joined(w, seq!["stop"@, "listening"@, "adele"@]);
    lemma_three_words("that"@, "is"@, "all"@);
    assert("that"@ + seq![' '] + "is"@ + seq![' '] + "all"@ =~= "that is all"@);
    lemma_same_joined(w, seq!["that"@, "is"@, "all"@]);
    lemma_three_words("that'll"@, "be"@, "all"@);
    assert("that'll"@ + seq![' '] + "be"@ + seq![' '] + "all"@ =~= "that'll be all"@);
    lemma_same_joined(w, seq!["that'll"@, "be"@, "all"@]);
}

/// Full stops, commas, exclamation and question marks are passed over wherever
/// they stand, and nothing else is: without them a text is left as it is.
pub proof fn law_only_marks_are_passed_over(a: Seq<char>, c: char, b: Seq<char>)
    ensures
        c == '.' || c == ',' || c == '!' || c == '?' ==> without_marks(a + seq![c] + b)
            == without_marks(a + b),
        !(c == '.' || c == ',' || c == '!' || c == '?') ==> without_marks(a + seq![c] + b)
            == without_marks(a) + seq![c] + without_marks(b),
        without_marks(Seq::<char>::empty()) == Seq::<char>::empty(),
{
    lemma_without_marks_append(a, seq![c]);
    lemma_without_marks_append(a + seq![c], b);
    lemma_without_marks_append(a, b);
    assert(seq![c].drop_last() =~= Seq::<char>::empty());
    assert(without_marks(Seq::<char>::empty()) =~= Seq::<char>::empty());
    assert(without_marks(a) + Seq::<char>::empty() =~= without_marks(a));
    assert(Seq::<char>::empty().push(c) =~= seq![c]);
}

proof fn lemma_without_marks_append(a: Seq<char>, b: Seq<char>)
    ensures
        without_marks(a + b) == without_marks(a) + without_marks(b),
    decreases b.len(),
{
    if b.len() == 0 {
        assert(a + b =~= a);
        assert(without_marks(a) + without_marks(b) =~= without_marks(a));
    } else {
        assert((a + b).drop_last() =~= a + b.drop_last());
        lemma_without_marks_append(a, b.drop_last());
        assert(without_marks(a + b) =~= without_marks(a) + without_marks(b));
    }
}

} // verus!
