use adele_voice::sentence_buffer::SentenceBuffer;
use adele_voice::time::Duration;

#[test]
fn splits_on_period_followed_by_space() {
    let mut buf = SentenceBuffer::new(Duration::from_millis(500));
    let sentences = buf.push("Hello world. How are you? ");
    assert_eq!(sentences, vec!["Hello world.", "How are you?"]);
}

#[test]
fn accumulates_until_boundary() {
    let mut buf = SentenceBuffer::new(Duration::from_millis(500));
    let s1 = buf.push("Hello ");
    assert!(s1.is_empty());
    let s2 = buf.push("world. ");
    assert_eq!(s2, vec!["Hello world."]);
}

#[test]
fn does_not_split_at_end_of_buffer() {
    let mut buf = SentenceBuffer::new(Duration::from_millis(500));
    let s = buf.push("Hello world.");
    assert!(
        s.is_empty(),
        "should not split when period is at end of buffer"
    );
}

#[test]
fn flush_returns_remaining() {
    let mut buf = SentenceBuffer::new(Duration::from_millis(500));
    buf.push("Hello world");
    let flushed = buf.flush();
    assert_eq!(flushed, "Hello world");
    assert!(!buf.has_content());
}

#[test]
fn exclamation_and_question_marks() {
    let mut buf = SentenceBuffer::new(Duration::from_millis(500));
    let sentences = buf.push("Wow! Really? Yes. ");
    assert_eq!(sentences, vec!["Wow!", "Really?", "Yes."]);
}

#[test]
fn does_not_split_on_abbreviations() {
    let mut buf = SentenceBuffer::new(Duration::from_millis(500));
    // "Dr.Smith" — no space after period, should not split
    let s = buf.push("Dr.Smith is here. ");
    assert_eq!(s, vec!["Dr.Smith is here."]);
}

#[test]
fn empty_push() {
    let mut buf = SentenceBuffer::new(Duration::from_millis(500));
    let s = buf.push("");
    assert!(s.is_empty());
    assert!(!buf.has_content());
}

#[test]
fn take_leading_ack_flushes_a_short_terminal_opener() {
    // a short ack alone at the end of the buffer is spoken immediately,
    // before the next token arrives.
    let mut buf = SentenceBuffer::new(Duration::from_millis(500));
    assert!(buf.push("Got it — checking that now.").is_empty());
    let ack = buf.take_leading_ack(8);
    assert_eq!(ack.as_deref(), Some("Got it — checking that now."));
    assert!(
        !buf.has_content(),
        "the ack must be drained from the buffer"
    );
}

#[test]
fn take_leading_ack_ignores_a_long_first_sentence() {
    // A real (long) first sentence of the answer must NOT be flushed as an
    // ack — that would speak it early and then again on the normal path.
    let mut buf = SentenceBuffer::new(Duration::from_millis(500));
    buf.push("The weather today is sunny with a high of about seventy two degrees.");
    assert!(
        buf.take_leading_ack(8).is_none(),
        "a long terminal sentence is not a leading ack"
    );
    assert!(buf.has_content(), "a non-ack must stay buffered");
}

#[test]
fn timeout_flushes_at_a_clause_boundary_not_mid_word() {
    // A slow stream goes quiet mid-sentence. The flush must cut at the
    // comma, keeping the clause whole and retaining the unfinished tail.
    let mut buf = SentenceBuffer::new(Duration::from_millis(0));
    assert!(buf.push("Okay, checking the weather no").is_empty());
    let flushed = buf.flush_if_timeout();
    assert_eq!(flushed.as_deref(), Some("Okay,"));
    // The tail (after the comma + space) stays buffered for more tokens.
    assert!(buf.has_content());
    assert_eq!(buf.flush(), "checking the weather no");
}

#[test]
fn timeout_picks_the_last_clause_boundary() {
    // Flush as much settled text as possible: cut at the *last* boundary.
    let mut buf = SentenceBuffer::new(Duration::from_millis(0));
    buf.push("First, then second; and then the unfinished tai");
    let flushed = buf.flush_if_timeout();
    assert_eq!(flushed.as_deref(), Some("First, then second;"));
    assert_eq!(buf.flush(), "and then the unfinished tai");
}

#[test]
fn timeout_with_no_clause_boundary_flushes_the_whole_fragment() {
    // No comma/clause mark to cut at — speaking the fragment beats silence.
    let mut buf = SentenceBuffer::new(Duration::from_millis(0));
    buf.push("checking the weather now");
    let flushed = buf.flush_if_timeout();
    assert_eq!(flushed.as_deref(), Some("checking the weather now"));
    assert!(!buf.has_content());
}

#[test]
fn timeout_does_not_split_a_hyphenated_compound() {
    // A bare hyphen inside a word (no preceding whitespace) is not a clause
    // boundary, so "built-in" stays intact and the fragment flushes whole.
    let mut buf = SentenceBuffer::new(Duration::from_millis(0));
    buf.push("it is built-in support");
    let flushed = buf.flush_if_timeout();
    assert_eq!(flushed.as_deref(), Some("it is built-in support"));
}

#[test]
fn timeout_splits_on_a_clause_dash() {
    // A spaced dash *is* a clause boundary.
    let mut buf = SentenceBuffer::new(Duration::from_millis(0));
    buf.push("one moment - still checking the foreca");
    let flushed = buf.flush_if_timeout();
    assert_eq!(flushed.as_deref(), Some("one moment -"));
    assert_eq!(buf.flush(), "still checking the foreca");
}

#[test]
fn no_timeout_flush_before_the_window_elapses() {
    // A long timeout must not flush a buffer that is still actively filling.
    let mut buf = SentenceBuffer::new(Duration::from_secs(3600));
    buf.push("Okay, checking");
    assert!(buf.flush_if_timeout().is_none());
    assert!(buf.has_content());
}

#[test]
fn take_leading_ack_waits_for_terminal_punctuation() {
    // An incomplete opener (no sentence-ending punctuation yet) isn't ready.
    let mut buf = SentenceBuffer::new(Duration::from_millis(500));
    buf.push("Got it");
    assert!(buf.take_leading_ack(8).is_none());
}
