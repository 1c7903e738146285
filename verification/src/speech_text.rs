//! Turns markdown into prose that can be spoken.

use pulldown_cmark::Event::{
    Code, DisplayMath, End, FootnoteReference, HardBreak, Html, InlineHtml, InlineMath, Rule,
    SoftBreak, Start, TaskListMarker, Text,
};
use pulldown_cmark::TagEnd::{
    BlockQuote, CodeBlock, Heading, Item, List, Paragraph, TableCell, TableHead, TableRow,
};
use pulldown_cmark::{Options, Parser};
use vstd::prelude::*;

use crate::sentence_buffer::{lemma_visible_append, visible};
use crate::text::{
    all_chars, append_chars, blank_text, chars_of, is_blank, is_space, is_whitespace, is_word,
    join_with_spaces, join_words, lemma_trimmed_blank, lemma_words, lemma_words_behind_space,
    lemma_words_of_joined, slice_of, split_words, string_of, trimmed, words,
};

use MarkdownEvent::{
    BlockQuoteEnd, CodeBlockEnd, CodePiece, DisplayMathPiece, FootnoteMark, HardLineBreak,
    HeadingEnd, HtmlPiece, InlineHtmlPiece, InlineMathPiece, ItemEnd, ListEnd, OtherEnd,
    ParagraphEnd, RuleMark, SoftLineBreak, StartMark, TableCellEnd, TableHeadEnd, TableRowEnd,
    TaskMark, TextPiece,
};

verus! {

// ---------------------------------------------------------------------------
// Markdown events
// ---------------------------------------------------------------------------

/// What a markdown parser reports, piece by piece. The pieces that are never
/// spoken carry no text.
#[derive(Debug, PartialEq, Eq)]
pub enum MarkdownEvent<T> {
    TextPiece(T),
    CodePiece(T),
    InlineMathPiece,
    DisplayMathPiece,
    HtmlPiece,
    InlineHtmlPiece,
    FootnoteMark,
    SoftLineBreak,
    HardLineBreak,
    RuleMark,
    TaskMark,
    StartMark,
    ParagraphEnd,
    HeadingEnd,
    ItemEnd,
    BlockQuoteEnd,
    CodeBlockEnd,
    ListEnd,
    TableRowEnd,
    TableHeadEnd,
    TableCellEnd,
    /// The end of anything else: emphasis, a link, an image and the like.
    OtherEnd,
}

/// The event with its text as characters.
pub open spec fn event_view(e: MarkdownEvent<String>) -> MarkdownEvent<Seq<char>> {
    match e {
        TextPiece(t) => TextPiece(t@),
        CodePiece(t) => CodePiece(t@),
        InlineMathPiece => InlineMathPiece,
        DisplayMathPiece => DisplayMathPiece,
        HtmlPiece => HtmlPiece,
        InlineHtmlPiece => InlineHtmlPiece,
        FootnoteMark => FootnoteMark,
        SoftLineBreak => SoftLineBreak,
        HardLineBreak => HardLineBreak,
        RuleMark => RuleMark,
        TaskMark => TaskMark,
        StartMark => StartMark,
        ParagraphEnd => ParagraphEnd,
        HeadingEnd => HeadingEnd,
        ItemEnd => ItemEnd,
        BlockQuoteEnd => BlockQuoteEnd,
        CodeBlockEnd => CodeBlockEnd,
        ListEnd => ListEnd,
        TableRowEnd => TableRowEnd,
        TableHeadEnd => TableHeadEnd,
        TableCellEnd => TableCellEnd,
        OtherEnd => OtherEnd,
    }
}

pub open spec fn event_views(v: Seq<MarkdownEvent<String>>) -> Seq<MarkdownEvent<Seq<char>>> {
    v.map_values(|e: MarkdownEvent<String>| event_view(e))
}

/// The events that `pulldown_cmark::Parser` reports of a text, with
/// strikethrough as its one extension.
pub uninterp spec fn markdown_events(input: Seq<char>) -> Seq<MarkdownEvent<Seq<char>>>;

/// `pulldown_cmark::Parser::new_ext` with `Options::ENABLE_STRIKETHROUGH`,
/// iterated to its end. The events depend on the text alone; what they are is
/// not stated, only named.
#[verifier::external_body]
fn parse_markdown(input: &str) -> (events: Vec<MarkdownEvent<String>>)
    ensures
        event_views(events@) == markdown_events(input@),
{
    Parser::new_ext(input, Options::ENABLE_STRIKETHROUGH).map(|event| match event {
        Text(t) => TextPiece(t.into()), Code(t) => CodePiece(t.into()),
        InlineMath(_) => InlineMathPiece, DisplayMath(_) => DisplayMathPiece,
        Html(_) => HtmlPiece, InlineHtml(_) => InlineHtmlPiece,
        FootnoteReference(_) => FootnoteMark, TaskListMarker(_) => TaskMark,
        SoftBreak => SoftLineBreak, HardBreak => HardLineBreak, Rule => RuleMark,
        Start(_) => StartMark, End(Paragraph) => ParagraphEnd, End(Heading(_)) => HeadingEnd,
        End(Item) => ItemEnd, End(BlockQuote(_)) => BlockQuoteEnd,
        End(CodeBlock) => CodeBlockEnd, End(List(_)) => ListEnd,
        End(TableRow) => TableRowEnd, End(TableHead) => TableHeadEnd,
        End(TableCell) => TableCellEnd, End(_) => OtherEnd,
    }).collect()
}

// ---------------------------------------------------------------------------
// From events to text
// ---------------------------------------------------------------------------

/// `s` and a space, where `s` neither is empty nor ends with whitespace.
pub open spec fn spaced(s: Seq<char>) -> Seq<char> {
    if s.len() > 0 && !is_space(s.last()) {
        s.push(' ')
    } else {
        s
    }
}

/// `s` and a line break, where `s` neither is empty nor ends with one.
pub open spec fn broken(s: Seq<char>) -> Seq<char> {
    if s.len() > 0 && s.last() != '\n' {
        s.push('\n')
    } else {
        s
    }
}

/// The text kept of the events: visible text and code; a space for a line
/// break within a block and behind a table cell; a line break behind a block.
pub open spec fn kept_text(events: Seq<MarkdownEvent<Seq<char>>>) -> Seq<char>
    decreases events.len(),
{
    if events.len() == 0 {
        Seq::empty()
    } else {
        let before = kept_text(events.drop_last());
        match events.last() {
            TextPiece(t) => before + t,
            CodePiece(t) => before + t,
            SoftLineBreak => spaced(before),
            HardLineBreak => spaced(before),
            TableCellEnd => spaced(before),
            RuleMark => broken(before),
            ParagraphEnd => broken(before),
            HeadingEnd => broken(before),
            ItemEnd => broken(before),
            BlockQuoteEnd => broken(before),
            CodeBlockEnd => broken(before),
            ListEnd => broken(before),
            TableRowEnd => broken(before),
            TableHeadEnd => broken(before),
            _ => before,
        }
    }
}

fn push_space(out: &mut Vec<char>)
    ensures
        final(out)@ == spaced(old(out)@),
{
    if out.len() > 0 && !is_whitespace(out[out.len() - 1]) {
        out.push(' ');
    }
}

fn push_break(out: &mut Vec<char>)
    ensures
        final(out)@ == broken(old(out)@),
{
    if out.len() > 0 && out[out.len() - 1] != '\n' {
        out.push('\n');
    }
}

// ---------------------------------------------------------------------------
// The final clean-up
// ---------------------------------------------------------------------------

/// The characters that are markdown where a word has no others.
pub open spec fn is_marker(c: char) -> bool {
    c == '*' || c == '_' || c == '#' || c == '`' || c == '~' || c == '-'
}

/// The characters that are markdown at either end of a word.
pub open spec fn is_edge(c: char) -> bool {
    c == '*' || c == '_' || c == '#' || c == '`' || c == '~'
}

pub open spec fn all_markers(w: Seq<char>) -> bool {
    forall|i: int| 0 <= i < w.len() ==> is_marker(#[trigger] w[i])
}

pub open spec fn strip_front(w: Seq<char>) -> Seq<char>
    decreases w.len(),
{
    if w.len() > 0 && is_edge(w[0]) {
        strip_front(w.skip(1))
    } else {
        w
    }
}

pub open spec fn strip_back(w: Seq<char>) -> Seq<char>
    decreases w.len(),
{
    if w.len() > 0 && is_edge(w.last()) {
        strip_back(w.drop_last())
    } else {
        w
    }
}

/// A word without the markers at its ends.
pub open spec fn bare(w: Seq<char>) -> Seq<char> {
    strip_back(strip_front(w))
}

/// The words that are more than markers, each without the markers at its ends.
pub open spec fn bare_words(ws: Seq<Seq<char>>) -> Seq<Seq<char>>
    decreases ws.len(),
{
    if ws.len() == 0 {
        Seq::empty()
    } else {
        let before = bare_words(ws.drop_last());
        if all_markers(ws.last()) {
            before
        } else {
            before.push(bare(ws.last()))
        }
    }
}

/// A text's words, freed of markdown, one space between each two.
pub open spec fn clean(text: Seq<char>) -> Seq<char> {
    join_words(bare_words(words(text)))
}

pub fn is_markdown_marker(c: char) -> (b: bool)
    ensures
        b == is_marker(c),
{
    c == '*' || c == '_' || c == '#' || c == '`' || c == '~' || c == '-'
}

pub fn is_edge_marker(c: char) -> (b: bool)
    ensures
        b == is_edge(c),
{
    c == '*' || c == '_' || c == '#' || c == '`' || c == '~'
}

fn only_markers(w: &[char]) -> (b: bool)
    ensures
        b == all_markers(w@),
{
    let mut i: usize = 0;
    while i < w.len()
        invariant
            i <= w@.len(),
            forall|j: int| 0 <= j < i ==> is_marker(#[trigger] w@[j]),
        decreases w@.len() - i,
    {
        if !is_markdown_marker(w[i]) {
            return false;
        }
        i += 1;
    }
    true
}

fn trim_edges(w: &[char]) -> (out: Vec<char>)
    ensures
        out@ == bare(w@),
{
    let mut lo: usize = 0;
    proof {
        assert(w@.skip(0) =~= w@);
    }
    while lo < w.len() && is_edge_marker(w[lo])
        invariant
            lo <= w@.len(),
            strip_front(w@.skip(lo as int)) == strip_front(w@),
        decreases w@.len() - lo,
    {
        proof {
            assert(w@.skip(lo as int).skip(1) =~= w@.skip(lo as int + 1));
        }
        lo += 1;
    }
    let mut hi: usize = w.len();
    proof {
        assert(w@.subrange(lo as int, hi as int) =~= w@.skip(lo as int));
    }
    while lo < hi && is_edge_marker(w[hi - 1])
        invariant
            lo <= hi <= w@.len(),
            strip_back(w@.subrange(lo as int, hi as int)) == bare(w@),
        decreases hi,
    {
        proof {
            assert(w@.subrange(lo as int, hi as int).drop_last() =~= w@.subrange(
                lo as int,
                hi as int - 1,
            ));
        }
        hi -= 1;
    }
    slice_of(w, lo, hi)
}

fn strip_residual_markers(tokens: &Vec<Vec<char>>) -> (out: Vec<Vec<char>>)
    ensures
        all_chars(out@) == bare_words(all_chars(tokens@)),
{
    let mut out: Vec<Vec<char>> = Vec::new();
    let ghost all = all_chars(tokens@);
    proof {
        assert(all_chars(out@) =~= bare_words(all.take(0)));
    }
    let mut i: usize = 0;
    while i < tokens.len()
        invariant
            i <= tokens@.len(),
            all == all_chars(tokens@),
            all_chars(out@) == bare_words(all.take(i as int)),
        decreases tokens@.len() - i,
    {
        proof {
            assert(all.take(i as int + 1).drop_last() =~= all.take(i as int));
            assert(all.take(i as int + 1).last() == tokens@[i as int]@);
        }
        if !only_markers(&tokens[i]) {
            let ghost before = out@;
            let word = trim_edges(&tokens[i]);
            let ghost done = word@;
            out.push(word);
            proof {
                assert(all_chars(out@) =~= all_chars(before).push(done));
            }
        }
        i += 1;
    }
    proof {
        assert(all.take(all.len() as int) =~= all);
    }
    out
}

/// Drops what is left of markdown and brings whitespace down to single spaces.
pub fn cleanup(text: &[char]) -> (out: Vec<char>)
    ensures
        out@ == clean(text@),
{
    let tokens = split_words(text);
    let kept = strip_residual_markers(&tokens);
    join_with_spaces(&kept)
}

/// The spoken text of a list of events.
pub fn speak_events(events: &Vec<MarkdownEvent<String>>) -> (out: String)
    ensures
        out@ == clean(kept_text(event_views(events@))),
{
    let mut out: Vec<char> = Vec::new();
    let ghost all = event_views(events@);
    let mut i: usize = 0;
    while i < events.len()
        invariant
            i <= events@.len(),
            all == event_views(events@),
            out@ == kept_text(all.take(i as int)),
        decreases events@.len() - i,
    {
        proof {
            assert(all.take(i as int + 1).drop_last() =~= all.take(i as int));
            assert(all.take(i as int + 1).last() == event_view(events@[i as int]));
        }
        match &events[i] {
            TextPiece(t) | CodePiece(t) => {
                let chars = chars_of(t.as_str());
                append_chars(&mut out, &chars);
            },
            InlineMathPiece | DisplayMathPiece | HtmlPiece | InlineHtmlPiece | FootnoteMark => {},
            SoftLineBreak | HardLineBreak => push_space(&mut out),
            RuleMark => push_break(&mut out),
            TaskMark => {},
            ParagraphEnd | HeadingEnd | ItemEnd | BlockQuoteEnd | CodeBlockEnd | ListEnd
            | TableRowEnd | TableHeadEnd => push_break(&mut out),
            TableCellEnd => push_space(&mut out),
            StartMark | OtherEnd => {},
        }
        i += 1;
    }
    proof {
        assert(all.take(all.len() as int) =~= all);
    }
    let cleaned = cleanup(&out);
    string_of(&cleaned)
}

/// The spoken text of markdown.
pub open spec fn spoken(input: Seq<char>) -> Seq<char> {
    if is_blank(input) {
        Seq::empty()
    } else {
        clean(kept_text(markdown_events(input)))
    }
}

/// Turns markdown into prose that can be spoken: the visible text and code,
/// without markers, headings' signs, bullets, rules and addresses.
pub fn strip_markdown_for_speech(input: &str) -> (out: String)
    ensures
        out@ == spoken(input@),
{
    if blank_text(input) {
        return String::new();
    }
    let events = parse_markdown(input);
    speak_events(&events)
}

// ---------------------------------------------------------------------------
// Laws
// ---------------------------------------------------------------------------

/// A word that the clean-up leaves as it is.
pub open spec fn is_bare(w: Seq<char>) -> bool {
    is_word(w) && !all_markers(w) && !is_edge(w[0]) && !is_edge(w.last())
}

proof fn lemma_strip_front(w: Seq<char>)
    ensures
        strip_front(w).len() <= w.len(),
        strip_front(w) == w.skip(w.len() - strip_front(w).len()),
        strip_front(w).len() > 0 ==> !is_edge(strip_front(w)[0]),
        forall|i: int| 0 <= i < w.len() - strip_front(w).len() ==> is_edge(#[trigger] w[i]),
    decreases w.len(),
{
    if w.len() > 0 && is_edge(w[0]) {
        let t = w.skip(1);
        lemma_strip_front(t);
        assert(strip_front(w) =~= w.skip(w.len() - strip_front(w).len()));
        assert forall|i: int| 0 <= i < w.len() - strip_front(w).len() implies is_edge(
            #[trigger] w[i],
        ) by {
            if i > 0 {
                assert(w[i] == t[i - 1]);
            }
        }
    } else {
        assert(w.skip(0) =~= w);
    }
}

proof fn lemma_strip_back(w: Seq<char>)
    ensures
        strip_back(w).len() <= w.len(),
        strip_back(w) == w.take(strip_back(w).len() as int),
        strip_back(w).len() > 0 ==> !is_edge(strip_back(w).last()),
        forall|i: int| strip_back(w).len() <= i < w.len() ==> is_edge(#[trigger] w[i]),
    decreases w.len(),
{
    if w.len() > 0 && is_edge(w.last()) {
        let t = w.drop_last();
        lemma_strip_back(t);
        assert(strip_back(w) =~= w.take(strip_back(w).len() as int));
        assert forall|i: int| strip_back(w).len() <= i < w.len() implies is_edge(#[trigger] w[i]) by {
            if i < w.len() - 1 {
                assert(w[i] == t[i]);
            }
        }
    } else {
        assert(w.take(w.len() as int) =~= w);
    }
}

/// A word that is more than markers is left as a bare word, and a bare word is
/// left alone.
proof fn lemma_bare(w: Seq<char>)
    requires
        is_word(w),
        !all_markers(w),
    ensures
        is_bare(bare(w)),
        is_bare(w) ==> bare(w) == w,
{
    let f = strip_front(w);
    let k = w.len() - f.len();
    lemma_strip_front(w);
    lemma_strip_back(f);
    let b = bare(w);
    let m = choose|i: int| 0 <= i < w.len() && !is_marker(#[trigger] w[i]);
    assert(m >= k) by {
        if m < k {
            assert(is_edge(w[m]));
        }
    }
    assert(f[m - k] == w[m]);
    assert(m - k < b.len()) by {
        if m - k >= b.len() {
            assert(is_edge(f[m - k]));
        }
    }
    assert(b[m - k] == w[m]);
    assert(b[0] == f[0]);
    assert forall|i: int| 0 <= i < b.len() implies !is_space(#[trigger] b[i]) by {
        assert(b[i] == w[i + k]);
    }
    assert(!all_markers(b)) by {
        assert(!is_marker(b[m - k]));
    }
}

proof fn lemma_bare_words(ws: Seq<Seq<char>>)
    requires
        forall|k: int| 0 <= k < ws.len() ==> is_word(#[trigger] ws[k]),
    ensures
        forall|k: int| 0 <= k < bare_words(ws).len() ==> is_bare(#[trigger] bare_words(ws)[k]),
        (forall|k: int| 0 <= k < ws.len() ==> is_bare(#[trigger] ws[k])) ==> bare_words(ws) == ws,
    decreases ws.len(),
{
    if ws.len() > 0 {
        let before = ws.drop_last();
        assert forall|k: int| 0 <= k < before.len() implies is_word(#[trigger] before[k]) by {
            assert(before[k] == ws[k]);
        }
        lemma_bare_words(before);
        let w = ws.last();
        assert(is_word(ws[ws.len() - 1]));
        if !all_markers(w) {
            lemma_bare(w);
        }
        assert forall|k: int| 0 <= k < bare_words(ws).len() implies is_bare(
            #[trigger] bare_words(ws)[k],
        ) by {
            if k < bare_words(before).len() {
                assert(bare_words(ws)[k] == bare_words(before)[k]);
            }
        }
        if forall|k: int| 0 <= k < ws.len() ==> is_bare(#[trigger] ws[k]) {
            assert(is_bare(ws[ws.len() - 1]));
            assert forall|k: int| 0 <= k < before.len() implies is_bare(#[trigger] before[k]) by {
                assert(before[k] == ws[k]);
            }
            assert(bare_words(ws) =~= ws);
        }
    } else {
        assert(bare_words(ws) =~= ws);
    }
}

/// The clean-up leaves nothing for a second one: every word of its result
/// begins and ends with a character that is spoken, single spaces stand
/// between them, and cleaning up again changes nothing.
pub proof fn law_cleanup_is_idempotent(text: Seq<char>)
    ensures
        clean(clean(text)) == clean(text),
        forall|k: int| 0 <= k < words(clean(text)).len() ==> is_bare(#[trigger] words(clean(text))[k]),
        clean(text) == join_words(words(clean(text))),
{
    lemma_words(text);
    let ws = bare_words(words(text));
    lemma_bare_words(words(text));
    lemma_words_of_joined(ws);
    lemma_bare_words(ws);
}

/// A text already fit for speech is left unchanged, wherever the parser reports
/// it as the text of one paragraph.
pub proof fn law_plain_text_is_unchanged(input: Seq<char>)
    requires
        clean(input) == input,
        markdown_events(input) == seq![
            MarkdownEvent::StartMark,
            MarkdownEvent::TextPiece(input),
            MarkdownEvent::ParagraphEnd,
        ],
    ensures
        spoken(input) == input,
{
    if is_blank(input) {
        lemma_blank_has_no_words(input);
        assert(input =~= Seq::<char>::empty());
    } else {
        let e3 = markdown_events(input);
        let e2 = e3.drop_last();
        let e1 = e2.drop_last();
        let e0 = e1.drop_last();
        assert(e0.len() == 0 && kept_text(e0) == Seq::<char>::empty());
        assert(e1.last() == MarkdownEvent::<Seq<char>>::StartMark);
        assert(e2.last() == MarkdownEvent::TextPiece(input));
        assert(kept_text(e1) =~= Seq::<char>::empty());
        assert(kept_text(e2) =~= input);
        lemma_trailing_space_adds_no_word(input, '\n');
    }
}

/// Whether the parser finds in a text the words that stand in it, and no mark-up
/// round them.
pub open spec fn reads_as_written(text: Seq<char>) -> bool {
    bare_words(words(kept_text(markdown_events(text)))) == words(text)
}

/// Stripping what was stripped changes nothing, exactly where the parser finds
/// no mark-up in it. It may find some where the text was kept as it stood: code
/// is read out, and a tag in it reads as a tag.
pub proof fn law_stripping_is_idempotent(input: Seq<char>)
    ensures
        spoken(spoken(input)) == spoken(input) <==> is_blank(spoken(input)) || reads_as_written(
            spoken(input),
        ),
{
    let y = spoken(input);
    law_spoken_text_is_single_spaced(input);
    if is_blank(y) {
        lemma_blank_has_no_words(y);
        assert(y =~= Seq::<char>::empty());
    } else {
        let k = kept_text(markdown_events(y));
        lemma_words(k);
        lemma_bare_words(words(k));
        lemma_words_of_joined(bare_words(words(k)));
    }
}

proof fn lemma_blank_has_no_words(s: Seq<char>)
    requires
        is_blank(s),
    ensures
        words(s) == Seq::<Seq<char>>::empty(),
    decreases s.len(),
{
    if s.len() > 0 {
        assert(is_space(s[s.len() - 1]));
        let t = s.drop_last();
        assert forall|i: int| 0 <= i < t.len() implies is_space(#[trigger] t[i]) by {
            assert(t[i] == s[i]);
        }
        lemma_blank_has_no_words(t);
    }
}

proof fn lemma_trailing_space_adds_no_word(s: Seq<char>, c: char)
    requires
        is_space(c),
    ensures
        words(s.push(c)) == words(s),
{
    assert(s.push(c).drop_last() =~= s);
}

/// The spoken text never holds a line break or two spaces in a row, nor does it
/// begin or end with whitespace: whitespace in it is a single space between two
/// words.
pub proof fn law_spoken_text_is_single_spaced(input: Seq<char>)
    ensures
        spoken(input) == join_words(words(spoken(input))),
{
    if is_blank(input) {
        assert(words(spoken(input)) =~= Seq::<Seq<char>>::empty());
        assert(join_words(words(spoken(input))) =~= spoken(input));
    } else {
        law_cleanup_is_idempotent(kept_text(markdown_events(input)));
    }
}

/// The events that part the words before them from those behind them: a line
/// break, soft or hard, a rule, and the end of a paragraph, heading, list item,
/// quote, code block, list, table row, table head or table cell.
pub open spec fn parts_words(e: MarkdownEvent<Seq<char>>) -> bool {
    ||| e is SoftLineBreak
    ||| e is HardLineBreak
    ||| e is RuleMark
    ||| e is ParagraphEnd
    ||| e is HeadingEnd
    ||| e is ItemEnd
    ||| e is BlockQuoteEnd
    ||| e is CodeBlockEnd
    ||| e is ListEnd
    ||| e is TableRowEnd
    ||| e is TableHeadEnd
    ||| e is TableCellEnd
}

/// The events that leave no trace in what is spoken: where anything begins, the
/// end of emphasis, a link or an image, HTML, mathematics, footnote and task
/// marks.
pub open spec fn is_silent(e: MarkdownEvent<Seq<char>>) -> bool {
    ||| e is StartMark
    ||| e is OtherEnd
    ||| e is HtmlPiece
    ||| e is InlineHtmlPiece
    ||| e is InlineMathPiece
    ||| e is DisplayMathPiece
    ||| e is FootnoteMark
    ||| e is TaskMark
}

/// Behind nothing or whitespace, events leave what they leave by themselves, but
/// for whitespace in front.
proof fn lemma_kept_behind_space(
    a: Seq<MarkdownEvent<Seq<char>>>,
    b: Seq<MarkdownEvent<Seq<char>>>,
) -> (space: Seq<char>)
    requires
        kept_text(a).len() == 0 || is_space(kept_text(a).last()),
    ensures
        is_blank(space),
        kept_text(a + b) == kept_text(a) + space + kept_text(b),
    decreases b.len(),
{
    if b.len() == 0 {
        assert(a + b =~= a);
        assert(kept_text(a) + Seq::<char>::empty() + kept_text(b) =~= kept_text(a));
        Seq::empty()
    } else {
        let t = b.drop_last();
        let space = lemma_kept_behind_space(a, t);
        assert((a + b).drop_last() =~= a + t);
        assert((a + b).last() == b.last());
        let whole = kept_text(a + t);
        let own = kept_text(t);
        if own.len() > 0 {
            assert(whole.last() == own.last());
            assert(kept_text(a + b) =~= kept_text(a) + space + kept_text(b));
            space
        } else {
            assert(whole =~= kept_text(a) + space);
            if space.len() > 0 {
                assert(whole.last() == space[space.len() - 1]);
            }
            if whole.len() > 0 {
                assert(is_space(whole.last()));
            }
            if kept_text(a + b) == whole.push('\n') {
                let more = space.push('\n');
                assert forall|i: int| 0 <= i < more.len() implies is_space(#[trigger] more[i]) by {
                    if i < space.len() {
                        assert(more[i] == space[i]);
                    }
                }
                if kept_text(b).len() == 0 {
                    assert(kept_text(a + b) =~= kept_text(a) + more + kept_text(b));
                    more
                } else {
                    assert(kept_text(a + b) =~= kept_text(a) + space + kept_text(b));
                    space
                }
            } else {
                assert(kept_text(a + b) =~= kept_text(a) + space + kept_text(b));
                space
            }
        }
    }
}

proof fn lemma_bare_words_append(x: Seq<Seq<char>>, y: Seq<Seq<char>>)
    ensures
        bare_words(x + y) == bare_words(x) + bare_words(y),
    decreases y.len(),
{
    if y.len() == 0 {
        assert(x + y =~= x);
        assert(bare_words(x) + bare_words(y) =~= bare_words(x));
    } else {
        assert((x + y).drop_last() =~= x + y.drop_last());
        lemma_bare_words_append(x, y.drop_last());
        assert(bare_words(x + y) =~= bare_words(x) + bare_words(y));
    }
}

/// Words never run together over a line break, soft or hard, a rule or the end
/// of a block or table cell: the words spoken of the events before it and behind
/// it are those of each by itself, in order.
pub proof fn law_breaks_part_words(
    a: Seq<MarkdownEvent<Seq<char>>>,
    e: MarkdownEvent<Seq<char>>,
    b: Seq<MarkdownEvent<Seq<char>>>,
)
    requires
        parts_words(e),
    ensures
        words(kept_text(a + seq![e] + b)) == words(kept_text(a)) + words(kept_text(b)),
        words(clean(kept_text(a + seq![e] + b))) == words(clean(kept_text(a))) + words(
            clean(kept_text(b)),
        ),
{
    let pre = a + seq![e];
    assert(pre.drop_last() =~= a);
    assert(pre.last() == e);
    let before = kept_text(a);
    assert(kept_text(pre) == before || kept_text(pre) == before.push(' ') || kept_text(pre)
        == before.push('\n'));
    if kept_text(pre) != before {
        lemma_trailing_space_adds_no_word(before, kept_text(pre).last());
    }
    assert(words(kept_text(pre)) == words(before));
    let space = lemma_kept_behind_space(pre, b);
    let front = kept_text(pre) + space;
    lemma_words_behind_space(kept_text(pre), space);
    lemma_blank_has_no_words(space);
    assert(words(front) =~= words(before));
    if space.len() > 0 {
        assert(front.last() == space[space.len() - 1]);
    } else {
        assert(front =~= kept_text(pre));
    }
    lemma_words_behind_space(front, kept_text(b));
    lemma_words(before);
    lemma_words(kept_text(b));
    lemma_words(kept_text(a + seq![e] + b));
    lemma_bare_words(words(before));
    lemma_bare_words(words(kept_text(b)));
    lemma_bare_words(words(kept_text(a + seq![e] + b)));
    lemma_bare_words_append(words(before), words(kept_text(b)));
    lemma_words_of_joined(bare_words(words(before)));
    lemma_words_of_joined(bare_words(words(kept_text(b))));
    lemma_words_of_joined(bare_words(words(kept_text(a + seq![e] + b))));
}

/// Text and code are kept as they are, with nothing between two such pieces in a
/// row; and what leaves no trace changes nothing wherever it stands, so that it
/// neither parts a word nor adds one.
pub proof fn law_text_and_code_are_kept(
    a: Seq<MarkdownEvent<Seq<char>>>,
    e: MarkdownEvent<Seq<char>>,
    b: Seq<MarkdownEvent<Seq<char>>>,
)
    ensures
        e matches MarkdownEvent::TextPiece(t) ==> kept_text(a + seq![e]) == kept_text(a) + t,
        e matches MarkdownEvent::CodePiece(t) ==> kept_text(a + seq![e]) == kept_text(a) + t,
        is_silent(e) ==> kept_text(a + seq![e] + b) == kept_text(a + b),
    decreases b.len(),
{
    assert((a + seq![e]).drop_last() =~= a);
    if is_silent(e) {
        if b.len() == 0 {
            assert(a + seq![e] + b =~= a + seq![e]);
            assert(a + b =~= a);
        } else {
            law_text_and_code_are_kept(a, e, b.drop_last());
            assert((a + seq![e] + b).drop_last() =~= a + seq![e] + b.drop_last());
            assert((a + b).drop_last() =~= a + b.drop_last());
        }
    }
}

/// The visible characters of the text and code among the events, in order.
pub open spec fn visible_pieces(events: Seq<MarkdownEvent<Seq<char>>>) -> Seq<char>
    decreases events.len(),
{
    if events.len() == 0 {
        Seq::empty()
    } else {
        let before = visible_pieces(events.drop_last());
        match events.last() {
            TextPiece(t) => before + visible(t),
            CodePiece(t) => before + visible(t),
            _ => before,
        }
    }
}

/// Events add no visible character of their own, and none is lost of the text
/// and code among them.
pub proof fn law_events_add_only_space(events: Seq<MarkdownEvent<Seq<char>>>)
    ensures
        visible(kept_text(events)) == visible_pieces(events),
    decreases events.len(),
{
    if events.len() > 0 {
        law_events_add_only_space(events.drop_last());
        let before = kept_text(events.drop_last());
        match events.last() {
            TextPiece(t) => lemma_visible_append(before, t),
            CodePiece(t) => lemma_visible_append(before, t),
            _ => {
                assert(before.push(' ').drop_last() =~= before);
                assert(before.push('\n').drop_last() =~= before);
            },
        }
    }
}

/// What the clean-up does to words: one made of nothing but asterisks,
/// underscores, hashes, backticks, tildes and hyphens is dropped, and every
/// other one stays in its place.
pub proof fn law_words_of_markers_are_dropped(
    x: Seq<Seq<char>>,
    w: Seq<char>,
    y: Seq<Seq<char>>,
)
    ensures
        ({
            let dropped = forall|i: int|
                0 <= i < w.len() ==> #[trigger] w[i] == '*' || w[i] == '_' || w[i] == '#' || w[i]
                    == '`' || w[i] == '~' || w[i] == '-';
            &&& dropped ==> bare_words(x + seq![w] + y) == bare_words(x + y)
            &&& !dropped ==> bare_words(x + seq![w] + y) == bare_words(x) + seq![bare(w)]
                + bare_words(y)
        }),
{
    lemma_bare_words_append(x + seq![w], y);
    lemma_bare_words_append(x, seq![w]);
    lemma_bare_words_append(x, y);
    assert(seq![w].drop_last() =~= Seq::<Seq<char>>::empty());
    assert(bare_words(Seq::<Seq<char>>::empty()) =~= Seq::<Seq<char>>::empty());
    if all_markers(w) {
        assert forall|i: int| 0 <= i < w.len() implies #[trigger] w[i] == '*' || w[i] == '_' || w[i]
            == '#' || w[i] == '`' || w[i] == '~' || w[i] == '-' by {
            assert(is_marker(w[i]));
        }
        assert(bare_words(seq![w]) =~= Seq::<Seq<char>>::empty());
        assert(bare_words(x) + bare_words(seq![w]) =~= bare_words(x));
    } else {
        let i = choose|i: int| 0 <= i < w.len() && !is_marker(#[trigger] w[i]);
        assert(!(w[i] == '*' || w[i] == '_' || w[i] == '#' || w[i] == '`' || w[i] == '~' || w[i]
            == '-'));
        assert(bare_words(seq![w]) =~= seq![bare(w)]);
    }
}

/// What the clean-up does to a word: asterisks, underscores, hashes, backticks
/// and tildes are taken from both its ends, a hyphen never is, and what stands
/// between the ends is left alone.
pub proof fn law_markers_are_taken_from_the_ends(
    front: Seq<char>,
    w: Seq<char>,
    back: Seq<char>,
)
    requires
        forall|i: int|
            0 <= i < front.len() ==> #[trigger] front[i] == '*' || front[i] == '_' || front[i]
                == '#' || front[i] == '`' || front[i] == '~',
        forall|i: int|
            0 <= i < back.len() ==> #[trigger] back[i] == '*' || back[i] == '_' || back[i] == '#'
                || back[i] == '`' || back[i] == '~',
        w.len() > 0,
        w[0] != '*' && w[0] != '_' && w[0] != '#' && w[0] != '`' && w[0] != '~',
        w.last() != '*' && w.last() != '_' && w.last() != '#' && w.last() != '`' && w.last() != '~',
    ensures
        bare(front + w + back) == w,
{
    let s = front + w + back;
    let f = strip_front(s);
    lemma_strip_front(s);
    lemma_strip_back(f);
    let k = s.len() - f.len();
    let a = front.len() as int;
    assert(s[a] == w[0]);
    assert(k == a) by {
        if k > a {
            assert(is_edge(s[a]));
        }
        if k < a {
            assert(f[0] == s[k]);
            assert(s[k] == front[k]);
        }
    }
    assert(f =~= w + back);
    let n = bare(s).len() as int;
    assert(f[w.len() - 1] == w.last());
    assert(n == w.len()) by {
        if n < w.len() {
            assert(is_edge(f[w.len() - 1]));
        }
        if n > w.len() {
            assert(bare(s).last() == f[n - 1]);
            assert(f[n - 1] == back[n - 1 - w.len()]);
        }
    }
    assert(bare(s) =~= w);
}

/// What is spoken of a text: nothing where it says nothing; else the words that
/// its events leave, freed of markers, with one space between each two.
pub proof fn law_what_is_spoken(input: Seq<char>)
    ensures
        trimmed(input).len() == 0 ==> spoken(input).len() == 0,
        trimmed(input).len() > 0 ==> spoken(input) == join_words(
            bare_words(words(kept_text(markdown_events(input)))),
        ),
        words(spoken(input)).len() > 0 <==> spoken(input).len() > 0,
{
    lemma_trimmed_blank(input);
    law_spoken_text_is_single_spaced(input);
    if words(spoken(input)).len() == 0 {
        assert(words(spoken(input)) =~= Seq::<Seq<char>>::empty());
    }
}

} // verus!
