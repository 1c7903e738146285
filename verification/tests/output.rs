use adele_voice::output::{
    into_speakable_sentences, AdeleOutput, ALWAYS_SYSTEM_REFINEMENT, ON_DEMAND_SYSTEM_REFINEMENT,
};

#[test]
fn default_is_disabled() {
    assert_eq!(AdeleOutput::default(), AdeleOutput::Disabled);
}

#[test]
fn cycles_disabled_on_demand_always() {
    assert_eq!(AdeleOutput::Disabled.next(), AdeleOutput::OnDemand);
    assert_eq!(AdeleOutput::OnDemand.next(), AdeleOutput::Always);
    assert_eq!(AdeleOutput::Always.next(), AdeleOutput::Disabled);
}

#[test]
fn every_level_has_a_label() {
    assert_eq!(AdeleOutput::Disabled.label(), "Disabled");
    assert_eq!(AdeleOutput::OnDemand.label(), "On Demand");
    assert_eq!(AdeleOutput::Always.label(), "Always");
}

#[test]
fn reply_narration_gate() {
    // Only Always auto-narrates the full reply. OnDemand does not (its
    // spoken channel is say_this); Disabled is silent. Decoupled from
    // voice input (`You`) — no argument any more.
    assert!(AdeleOutput::Always.narrates_reply());
    assert!(!AdeleOutput::OnDemand.narrates_reply());
    assert!(!AdeleOutput::Disabled.narrates_reply());
}

#[test]
fn say_this_aside_gate() {
    // say_this is spoken only in OnDemand (its sole spoken channel).
    // Always already narrates the whole reply and Disabled is silent, so
    // both downgrade the aside to shown text.
    assert!(AdeleOutput::OnDemand.speaks_aside());
    assert!(!AdeleOutput::Always.speaks_aside());
    assert!(!AdeleOutput::Disabled.speaks_aside());
}

#[test]
fn send_refinement_per_level() {
    assert_eq!(AdeleOutput::Disabled.send_refinement(), None);
    assert_eq!(
        AdeleOutput::OnDemand.send_refinement(),
        Some(ON_DEMAND_SYSTEM_REFINEMENT)
    );
    assert_eq!(
        AdeleOutput::Always.send_refinement(),
        Some(ALWAYS_SYSTEM_REFINEMENT)
    );
}

#[test]
fn refinements_are_distinct_and_markdown_free() {
    assert_ne!(ON_DEMAND_SYSTEM_REFINEMENT, ALWAYS_SYSTEM_REFINEMENT);
    // OnDemand asks for brevity; Always must NOT (it reads the whole answer).
    assert!(ON_DEMAND_SYSTEM_REFINEMENT.to_lowercase().contains("brief"));
    assert!(!ALWAYS_SYSTEM_REFINEMENT.to_lowercase().contains("brief"));
    // Neither may carry markdown markers, or it could leak formatting.
    for refinement in [ON_DEMAND_SYSTEM_REFINEMENT, ALWAYS_SYSTEM_REFINEMENT] {
        assert!(!refinement.contains('*'));
        assert!(!refinement.contains('`'));
        assert!(!refinement.contains('#'));
    }
}

#[test]
fn chunks_multi_sentence_into_sentences() {
    let chunks = into_speakable_sentences("Hello there. How are you? I am fine.");
    assert_eq!(chunks, vec!["Hello there.", "How are you?", "I am fine."]);
}

#[test]
fn chunks_single_sentence_into_one() {
    let chunks = into_speakable_sentences("Just one sentence here.");
    assert_eq!(chunks, vec!["Just one sentence here."]);
}

#[test]
fn chunks_text_without_terminal_punctuation_into_one() {
    let chunks = into_speakable_sentences("no trailing punctuation here");
    assert_eq!(chunks, vec!["no trailing punctuation here"]);
}

#[test]
fn chunks_empty_or_whitespace_into_nothing() {
    assert!(into_speakable_sentences("").is_empty());
    assert!(into_speakable_sentences("   \n\t  ").is_empty());
}

#[test]
fn chunks_long_paragraph_into_multiple() {
    let paragraph = "The quick brown fox jumps over the lazy dog. \
         It then trots away to find a quiet spot. \
         Later, the dog wakes up and stretches lazily. \
         Neither animal pays the other any further mind. \
         The afternoon sun warms the empty field.";
    let chunks = into_speakable_sentences(paragraph);
    assert!(
        chunks.len() >= 4,
        "a five-sentence paragraph should split into several chunks, got {}: {chunks:?}",
        chunks.len()
    );
    assert!(chunks.iter().all(|c| !c.trim().is_empty()));
}
