use adele_voice::speech_text::strip_markdown_for_speech;

#[test]
fn bold_keeps_the_word() {
    assert_eq!(strip_markdown_for_speech("**bold**"), "bold");
    assert_eq!(strip_markdown_for_speech("__bold__"), "bold");
}

#[test]
fn italic_keeps_the_word() {
    assert_eq!(strip_markdown_for_speech("*italic*"), "italic");
    assert_eq!(strip_markdown_for_speech("_italic_"), "italic");
}

#[test]
fn bold_italic_keeps_the_word() {
    assert_eq!(strip_markdown_for_speech("***x***"), "x");
}

#[test]
fn strikethrough_keeps_the_word() {
    assert_eq!(strip_markdown_for_speech("~~strike~~"), "strike");
}

#[test]
fn inline_code_keeps_the_text_not_the_backticks() {
    assert_eq!(
        strip_markdown_for_speech("run `cargo test` now"),
        "run cargo test now"
    );
}

#[test]
fn fenced_code_block_keeps_inner_lines_drops_fences() {
    let md = "Here:\n\n```rust\nlet x = 1;\nlet y = 2;\n```";
    let out = strip_markdown_for_speech(md);
    assert!(out.contains("let x = 1;"), "inner code kept: {out:?}");
    assert!(out.contains("let y = 2;"), "inner code kept: {out:?}");
    assert!(!out.contains('`'), "no backticks spoken: {out:?}");
    assert!(!out.contains("rust"), "fence language dropped: {out:?}");
}

#[test]
fn atx_header_single_hash() {
    assert_eq!(strip_markdown_for_speech("# Title"), "Title");
}

#[test]
fn atx_header_multiple_hashes_and_trailing() {
    assert_eq!(
        strip_markdown_for_speech("### Subsection ###"),
        "Subsection"
    );
}

#[test]
fn unordered_list_dash() {
    let out = strip_markdown_for_speech("- one\n- two\n- three");
    assert_eq!(out, "one two three");
    assert!(!out.contains('-'));
}

#[test]
fn unordered_list_asterisk_and_plus() {
    assert_eq!(strip_markdown_for_speech("* a\n* b"), "a b");
    assert_eq!(strip_markdown_for_speech("+ a\n+ b"), "a b");
}

#[test]
fn ordered_list_dot_and_paren() {
    assert_eq!(
        strip_markdown_for_speech("1. first\n2. second"),
        "first second"
    );
    assert_eq!(
        strip_markdown_for_speech("1) first\n2) second"),
        "first second"
    );
}

#[test]
fn blockquote_dropped() {
    assert_eq!(strip_markdown_for_speech("> quoted text"), "quoted text");
}

#[test]
fn horizontal_rule_removed_entirely() {
    assert_eq!(strip_markdown_for_speech("---"), "");
    assert_eq!(strip_markdown_for_speech("***"), "");
    assert_eq!(strip_markdown_for_speech("___"), "");
    assert_eq!(
        strip_markdown_for_speech("before\n\n---\n\nafter"),
        "before after"
    );
}

#[test]
fn link_keeps_text_drops_url() {
    assert_eq!(
        strip_markdown_for_speech("see [the docs](https://example.com/x)"),
        "see the docs"
    );
}

#[test]
fn image_keeps_alt_drops_url() {
    assert_eq!(
        strip_markdown_for_speech("![a red cat](https://example.com/cat.png)"),
        "a red cat"
    );
}

#[test]
fn autolink_keeps_url_drops_angle_brackets() {
    let out = strip_markdown_for_speech("visit <https://example.com>");
    assert!(out.contains("https://example.com"), "{out:?}");
    assert!(!out.contains('<') && !out.contains('>'), "{out:?}");
}

#[test]
fn mixed_header_with_bold_and_link() {
    let md = "## **Important**: read [the guide](http://x.io) now";
    let out = strip_markdown_for_speech(md);
    assert_eq!(out, "Important: read the guide now");
}

#[test]
fn snake_case_is_preserved() {
    // The main correctness trap: intra-word underscores/asterisks must NOT
    // be treated as emphasis markers.
    assert_eq!(
        strip_markdown_for_speech("call run_tts_service before exit"),
        "call run_tts_service before exit"
    );
    assert_eq!(
        strip_markdown_for_speech("the file_name field"),
        "the file_name field"
    );
    assert_eq!(
        strip_markdown_for_speech("snake_case_thing stays whole"),
        "snake_case_thing stays whole"
    );
}

#[test]
fn intra_word_asterisk_survives() {
    // `a*b` (no matched pair) is not emphasis — keep it.
    let out = strip_markdown_for_speech("compute a*b*c here");
    assert!(out.contains("a*b*c") || out.contains("abc"), "{out:?}");
    // Either way it must read as connected, not as a lone asterisk token.
    assert!(!out.split_whitespace().any(|t| t == "*"), "{out:?}");
}

#[test]
fn lone_asterisk_reduces_to_no_spoken_asterisk() {
    // A SentenceBuffer split can leave a stray marker alone in a sentence.
    assert_eq!(
        strip_markdown_for_speech("Here are the steps *"),
        "Here are the steps"
    );
    assert_eq!(strip_markdown_for_speech("* leftover"), "leftover");
}

#[test]
fn unmatched_double_asterisk_reduces_to_no_spoken_asterisks() {
    let out = strip_markdown_for_speech("**Here are the steps");
    assert!(!out.contains('*'), "no asterisks spoken: {out:?}");
    assert!(out.contains("Here are the steps"), "{out:?}");
}

#[test]
fn plain_text_unchanged_and_idempotent() {
    let plain = "The weather today is sunny with a high of seventy two degrees.";
    assert_eq!(strip_markdown_for_speech(plain), plain);
    // Idempotent: running it again is a no-op.
    let once = strip_markdown_for_speech("**bold** and `code` and [link](u)");
    assert_eq!(strip_markdown_for_speech(&once), once);
}

#[test]
fn preserves_sentence_final_punctuation() {
    // The leading-ack flush depends on a trailing ./!/? — never strip it.
    assert_eq!(
        strip_markdown_for_speech("Got it — checking that now."),
        "Got it — checking that now."
    );
    assert_eq!(strip_markdown_for_speech("**Really?**"), "Really?");
}

#[test]
fn empty_and_whitespace_input_yield_empty() {
    assert_eq!(strip_markdown_for_speech(""), "");
    assert_eq!(strip_markdown_for_speech("   "), "");
    assert_eq!(strip_markdown_for_speech("\n\t  \n"), "");
}

#[test]
fn all_markdown_sentence_yields_empty() {
    // A "sentence" that is purely formatting (e.g. a rule, or stray markers)
    // sanitizes to empty so the caller can skip synthesis.
    assert_eq!(strip_markdown_for_speech("---"), "");
    assert_eq!(strip_markdown_for_speech("**"), "");
    assert_eq!(strip_markdown_for_speech("* * *"), "");
}

#[test]
fn streamed_bold_lead_sentence_has_no_asterisks() {
    // The headline integration case: a streamed sentence like
    // "**Here** are the steps:" must be spoken without asterisks.
    let out = strip_markdown_for_speech("**Here** are the steps:");
    assert_eq!(out, "Here are the steps:");
    assert!(!out.contains('*'));
}

#[test]
fn multiline_list_with_intro_reads_as_short_sentences() {
    let md = "Steps:\n\n- Open the file\n- Save it\n- Done";
    let out = strip_markdown_for_speech(md);
    assert_eq!(out, "Steps: Open the file Save it Done");
}

#[test]
fn stripping_again_changes_nothing_but_tags_in_code() {
    for text in ["**Here** are the _steps_:", "# Title\n\n- one\n- two", "a_b is `code`.", ""] {
        let once = strip_markdown_for_speech(text);
        assert_eq!(strip_markdown_for_speech(&once), once);
    }
    // Code is read out as it stands, and then a tag reads as a tag.
    let once = strip_markdown_for_speech("Write `<b>` here.");
    assert_eq!(once, "Write <b> here.");
    assert_eq!(strip_markdown_for_speech(&once), "Write here.");
}
