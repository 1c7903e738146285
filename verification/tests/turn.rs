//! Tests of a streaming turn and of what comes late.

use adele_voice::assistant::AssistantEvent;
use adele_voice::config::TurnTimeouts;
use adele_voice::late_events::{LateEvents, LateStep};
use adele_voice::phrases::{ERROR_APOLOGY, LIVENESS_PHRASE, STALL_APOLOGY};
use adele_voice::time::{Duration, Instant};
use adele_voice::turn::{StopRequest, StreamEnd, TurnEffect, TurnStep, TurnStream};

const START: Instant = Instant { nanos: 1_000_000_000 };

fn at(millis: u64) -> Instant {
    START.plus(Duration::from_millis(millis))
}

fn limits() -> TurnTimeouts {
    TurnTimeouts {
        response_stall: Duration::from_secs(30),
        turn_budget: Duration::from_secs(120),
        synth: Duration::from_secs(20),
        connect: Duration::from_secs(10),
        status_narration_min_gap: Duration::from_secs(15),
        liveness_delay: Duration::from_secs(4),
    }
}

fn turn() -> TurnStream {
    TurnStream::new("r1".to_string(), &limits(), START)
}

fn chunk(text: &str) -> AssistantEvent<String> {
    AssistantEvent::Chunk { request_id: "r1".to_string(), text: text.to_string() }
}

fn status(message: &str) -> AssistantEvent<String> {
    AssistantEvent::Status { request_id: "r1".to_string(), message: message.to_string() }
}

fn complete(full: &str) -> AssistantEvent<String> {
    AssistantEvent::Complete { request_id: "r1".to_string(), full_response: full.to_string() }
}

fn reply(text: &str) -> TurnEffect<String> {
    TurnEffect::Reply(text.to_string())
}

fn say(text: &str) -> TurnEffect<String> {
    TurnEffect::Say(text.to_string())
}

fn on(t: &mut TurnStream, event: AssistantEvent<String>, now: Instant) -> TurnStep<f32> {
    t.on_event(event, now, &limits())
}

fn goes_on(effects: Vec<TurnEffect<String>>) -> TurnStep<f32> {
    TurnStep { effects, end: None }
}

fn ends(effects: Vec<TurnEffect<String>>) -> TurnStep<f32> {
    TurnStep { effects, end: Some(StreamEnd::Completed) }
}

#[test]
fn stall_with_no_progress_apologizes_and_returns() {
    let t = turn();
    assert_eq!(t.stall_wait(at(0), &limits()), Duration::from_secs(30));
    assert_eq!(t.stall_wait(at(29_000), &limits()), Duration::from_secs(1));
    assert_eq!(t.stall_wait(at(40_000), &limits()), Duration::from_secs(0));
    let step: TurnStep<f32> = t.on_stalled();
    assert_eq!(step.end, Some(StreamEnd::Completed));
    assert!(step.effects.contains(&TurnEffect::TrySay(STALL_APOLOGY.to_string())), "{step:?}");
}

#[test]
fn heartbeat_resets_the_clock_on_each_event() {
    let mut t = turn();
    on(&mut t, status("looking"), at(25_000));
    assert_eq!(t.stall_wait(at(26_000), &limits()), Duration::from_secs(29));
    on(&mut t, chunk("Well, "), at(50_000));
    assert_eq!(t.stall_wait(at(50_000), &limits()), Duration::from_secs(30));
}

#[test]
fn turn_budget_caps_a_dribbling_turn() {
    let mut t = turn();
    for k in 1..12 {
        on(&mut t, chunk("a "), at(k * 10_000));
    }
    assert_eq!(t.check_budget::<f32>(at(119_999)), goes_on(vec![]));
    let step: TurnStep<f32> = t.check_budget(at(120_000));
    assert_eq!(step.end, Some(StreamEnd::Completed));
}

#[test]
fn first_status_narrates_then_rate_limited() {
    let mut t = turn();
    assert_eq!(
        on(&mut t, status(" Checking your calendar. "), at(0)),
        goes_on(vec![TurnEffect::Begin, say("Checking your calendar.")])
    );
    assert_eq!(on(&mut t, status("Still checking."), at(14_999)), goes_on(vec![]));
}

#[test]
fn empty_status_is_not_narrated() {
    let mut t = turn();
    assert_eq!(on(&mut t, status("  "), at(0)), goes_on(vec![]));
}

#[test]
fn status_after_the_gap_narrates_again() {
    let mut t = turn();
    on(&mut t, status("One."), at(0));
    assert_eq!(
        on(&mut t, status("Two."), at(15_000)),
        goes_on(vec![TurnEffect::Begin, say("Two.")])
    );
}

#[test]
fn liveness_speaks_once_on_a_slow_stepless_turn() {
    let mut t = turn();
    assert_eq!(t.liveness_deadline(), Some(at(4_000)));
    assert_eq!(t.on_liveness::<f32>(at(3_999)), goes_on(vec![]));
    assert_eq!(
        t.on_liveness::<f32>(at(4_000)),
        goes_on(vec![TurnEffect::Begin, say(LIVENESS_PHRASE)])
    );
    assert_eq!(t.liveness_deadline(), None);
    assert_eq!(t.on_liveness::<f32>(at(9_000)), goes_on(vec![]));
}

#[test]
fn liveness_suppressed_when_progress_arrives_first() {
    let mut t = turn();
    on(&mut t, status("Looking."), at(1_000));
    assert_eq!(t.liveness_deadline(), None);
    assert_eq!(t.on_liveness::<f32>(at(5_000)), goes_on(vec![]));
    let mut t = turn();
    on(&mut t, chunk("So"), at(1_000));
    assert_eq!(t.on_liveness::<f32>(at(5_000)), goes_on(vec![]));
}

#[test]
fn a_reply_is_spoken_sentence_by_sentence() {
    let mut t = turn();
    assert_eq!(
        on(&mut t, chunk("It is sunny today. And it will stay that wa"), at(0)),
        goes_on(vec![TurnEffect::Begin, reply("It is sunny today.")])
    );
    assert_eq!(
        on(&mut t, chunk("y all week long, they say. The end"), at(100)),
        goes_on(vec![reply("And it will stay that way all week long, they say.")])
    );
    assert_eq!(on(&mut t, complete("ignored"), at(200)), ends(vec![reply("The end")]));
}

#[test]
fn leading_ack_is_spoken_before_the_next_token() {
    let mut t = turn();
    assert_eq!(
        on(&mut t, chunk("Got it, checking now."), at(0)),
        goes_on(vec![TurnEffect::Begin, reply("Got it, checking now.")])
    );
}

#[test]
fn a_reply_that_was_not_streamed_is_spoken_whole() {
    let mut t = turn();
    assert_eq!(
        on(&mut t, complete("First one. Second one."), at(0)),
        ends(vec![TurnEffect::Begin, reply("First one."), reply("Second one.")])
    );
    let mut t = turn();
    assert_eq!(on(&mut t, complete("  "), at(0)), ends(vec![]));
}

#[test]
fn errors_are_apologized_for_and_never_read_aloud() {
    let apology = TurnEffect::Say(ERROR_APOLOGY.to_string());
    let mut t = turn();
    let step = on(&mut t, chunk("LLM error: provider unavailable"), at(0));
    assert_eq!(step.end, Some(StreamEnd::Completed));
    assert!(step.effects.contains(&apology), "{step:?}");
    let mut t = turn();
    let step = on(&mut t, complete("LLM error: provider unavailable"), at(0));
    assert!(step.effects.contains(&apology), "{step:?}");
    let mut t = turn();
    let event = AssistantEvent::Error { request_id: "r1".to_string(), error: "x".to_string() };
    assert!(on(&mut t, event, at(0)).effects.contains(&apology));
    let mut t = turn();
    let step: TurnStep<f32> = t.on_closed(at(0));
    assert!(step.effects.contains(&apology), "{step:?}");
}

#[test]
fn events_of_other_requests_are_ignored() {
    let mut t = turn();
    let event = AssistantEvent::Chunk { request_id: "r2".to_string(), text: "Hi. ".to_string() };
    assert_eq!(on(&mut t, event, at(10)), goes_on(vec![]));
    // But they show that the assistant is alive.
    assert_eq!(t.stall_wait(at(10), &limits()), Duration::from_secs(30));
}

#[test]
fn a_tool_call_is_run() {
    let mut t = turn();
    let event = AssistantEvent::ClientToolCall {
        task_id: "t".to_string(),
        tool_call_id: "c".to_string(),
        tool_name: "say_this".to_string(),
        arguments: "{}".to_string(),
    };
    assert_eq!(
        on(&mut t, event, at(0)),
        goes_on(vec![TurnEffect::RunTool {
            task_id: "t".to_string(),
            tool_call_id: "c".to_string(),
            tool_name: "say_this".to_string(),
            arguments: "{}".to_string(),
        }])
    );
}

#[test]
fn a_paused_stream_is_flushed() {
    let mut t = turn();
    on(&mut t, chunk("Well, that depends on many things, for instance the"), at(0));
    assert_eq!(t.on_tick::<f32>(at(499)), goes_on(vec![]));
    let step: TurnStep<f32> = t.on_tick(at(500));
    assert_eq!(step.end, None);
    assert_eq!(step.effects.len(), 1);
}

#[test]
fn stream_response_returns_stopped_on_mid_turn_stop() {
    let t = turn();
    let step: TurnStep<f32> = t.on_stop(StopRequest::Speaking);
    assert_eq!(step.effects, vec![TurnEffect::StopPlayback]);
    assert_eq!(step.end, Some(StreamEnd::Stopped(StopRequest::Speaking)));
    let step: TurnStep<f32> = t.on_ptt(Some("c9".to_string()));
    assert_eq!(step.end, Some(StreamEnd::PttPressed(Some("c9".to_string()))));
}

#[test]
fn speech_over_the_response_interrupts_it() {
    let mut t = turn();
    assert!(t.hears_audio());
    assert_eq!(t.on_audio(vec![0.1f32], None, 5), goes_on(vec![]));
    assert_eq!(t.on_audio(vec![0.1f32], Some(4), 5), goes_on(vec![]));
    let step = t.on_audio(vec![0.1f32], Some(5), 5);
    assert_eq!(step.effects, vec![TurnEffect::StopPlayback]);
    assert_eq!(step.end, Some(StreamEnd::BargedIn(vec![0.1f32])));
    t.on_audio_closed();
    assert!(!t.hears_audio());
}

#[test]
fn client_tool_call_after_interrupt_gets_error_result() {
    let late = LateEvents::new(Duration::from_secs(120), START);
    assert_eq!(late.deadline(), at(120_000));
    let call = AssistantEvent::ClientToolCall {
        task_id: "t".to_string(),
        tool_call_id: "c".to_string(),
        tool_name: "say_this".to_string(),
        arguments: "{}".to_string(),
    };
    assert_eq!(
        late.on_event(Some(call)),
        LateStep::Refuse {
            task_id: "t".to_string(),
            tool_call_id: "c".to_string(),
            error: "voice session interrupted".to_string(),
        }
    );
    assert_eq!(late.on_event(Some(chunk("x"))), LateStep::Ignore);
    assert_eq!(late.on_event(Some(status("x"))), LateStep::Ignore);
    assert_eq!(late.on_event(Some(complete("x"))), LateStep::Stop);
    assert_eq!(late.on_event(None), LateStep::Stop);
}

#[test]
fn late_events_are_awaited_for_a_minute_at_least() {
    assert_eq!(LateEvents::new(Duration::from_secs(0), START).deadline(), at(60_000));
}

#[test]
fn emits_speaking_text_signal_for_reply_sentences() {
    // Each sentence of a reply is shown and spoken.
    let mut t = turn();
    let step = on(&mut t, complete("Hello there."), START);
    assert_eq!(step, ends(vec![TurnEffect::Begin, reply("Hello there.")]));
}
