//! Tests of the exchange with the assistant.

use adele_voice::assistant::{
    bus_event, dbus_service_name, forward_signal, is_unknown_method, map_signal,
    prepend_refinement, reconnect_grace, resubscribe_pause, timed_out, AssistantEvent, BusFault, BusNews,
    ConnectOnce, DbusAssistantGateway, Forward, PromptSend, Reconnect, RefinedSend, SendStep,
    SignalEvent,
};
use adele_voice::error::VoiceError;
use adele_voice::time::Duration;

#[test]
fn maps_response_turn_signals_into_voice_events() {
    assert!(matches!(
        map_signal(SignalEvent::Chunk { conversation_id: "c".into(), request_id: "r".into(), chunk: "hi".into() }),
        Some(AssistantEvent::Chunk { text, .. }) if text == "hi"
    ));
    assert!(matches!(
        map_signal(SignalEvent::Complete { conversation_id: "c".into(), request_id: "r".into(), full_response: "done".into() }),
        Some(AssistantEvent::Complete { full_response, .. }) if full_response == "done"
    ));
    assert!(matches!(
        map_signal(SignalEvent::Error { conversation_id: "c".into(), request_id: "r".into(), error: "boom".into() }),
        Some(AssistantEvent::Error { error, .. }) if error == "boom"
    ));
}

#[test]
fn maps_status_into_a_voice_status_event() {
    // Progress status must reach the pipeline (for narration + as a stall
    // heartbeat), not be dropped.
    assert!(matches!(
        map_signal(SignalEvent::Status {
            conversation_id: "c".into(),
            request_id: "r".into(),
            message: "checking your calendar".into()
        }),
        Some(AssistantEvent::Status { message, .. }) if message == "checking your calendar"
    ));
}

#[test]
fn maps_client_tool_call_into_a_voice_event() {
    // A suspended client-tool call must reach the pipeline so it can run the
    // tool (stop/listen/say) and post the result back.
    assert!(matches!(
        map_signal(SignalEvent::ClientToolCall {
            task_id: "task-1".into(),
            conversation_id: "conv-1".into(),
            tool_call_id: "call-1".into(),
            tool_name: "stop_listening".into(),
            arguments: "{}".into(),
        }),
        Some(AssistantEvent::ClientToolCall { task_id, tool_call_id, tool_name, .. })
            if task_id == "task-1" && tool_call_id == "call-1" && tool_name == "stop_listening"
    ));
}

#[test]
fn ignores_signals_outside_the_voice_turn() {
    assert!(map_signal(SignalEvent::Disconnected { reason: "x".into() }).is_none());
    assert!(
        map_signal(SignalEvent::TitleChanged {
            conversation_id: "c".into(),
            title: "t".into()
        })
        .is_none()
    );
}

#[test]
fn prepend_refinement_folds_hint_when_present() {
    assert_eq!(
        prepend_refinement("Respond briefly, by voice.", "what's the weather?"),
        "Respond briefly, by voice.\n\nwhat's the weather?"
    );
}

#[test]
fn prepend_refinement_is_bare_prompt_when_blank() {
    assert_eq!(prepend_refinement("", "hello"), "hello");
    assert_eq!(prepend_refinement("   ", "hello"), "hello");
}

/// The three "peer doesn't export this" D-Bus errors must trigger the
/// fallback; an unrelated daemon-side failure must not.
#[test]
fn is_unknown_method_matches_only_absent_method_errors() {
    assert!(is_unknown_method(&BusFault::UnknownMethod));
    assert!(is_unknown_method(&BusFault::UnknownInterface));
    assert!(is_unknown_method(&BusFault::UnknownObject));
    // A real daemon-side failure is NOT an "absent method" — it must
    // propagate, not silently fall back.
    assert!(!is_unknown_method(&BusFault::Other));
}

#[test]
fn a_lost_connection_calls_for_a_new_subscription() {
    assert!(matches!(
        forward_signal(Some(SignalEvent::Disconnected { reason: "gone".into() })),
        Forward::Resubscribe
    ));
    assert!(matches!(forward_signal(None), Forward::End));
    assert!(matches!(forward_signal(Some(SignalEvent::Other)), Forward::Skip));
    assert!(matches!(
        forward_signal(Some(SignalEvent::Status {
            conversation_id: "c".into(),
            request_id: "r".into(),
            message: "m".into()
        })),
        Forward::Pass(AssistantEvent::Status { .. })
    ));
    assert_eq!(resubscribe_pause(), Duration::from_millis(50));
    assert_eq!(reconnect_grace(), Duration::from_millis(250));
}

#[test]
fn the_first_connection_is_kept() {
    let mut once: ConnectOnce<u8> = ConnectOnce::new(None);
    assert_eq!(once.get(), None);
    assert_eq!(once.reconnect(), Reconnect::Dial);
    once.keep_first(1);
    once.keep_first(2);
    assert_eq!(once.get(), Some(&1));
    assert_eq!(once.reconnect(), Reconnect::WaitForGrace);
}

#[test]
fn a_failed_send_is_tried_once_more_with_the_same_key() {
    let mut send = PromptSend::new("key".to_string());
    assert_eq!(send.attempted(Err("first".to_string())), SendStep::ReconnectAndRetry);
    assert_eq!(send.key(), "key");
    assert_eq!(send.attempted(Ok("req-1".to_string())), SendStep::Sent("req-1".to_string()));

    let mut send = PromptSend::new("key".to_string());
    assert_eq!(
        send.no_connection("no route"),
        VoiceError::Assistant("no route".to_string())
    );
    assert_eq!(send.attempted(Err("first".to_string())), SendStep::ReconnectAndRetry);
    assert_eq!(
        send.no_connection("no route"),
        VoiceError::Assistant(
            "send_prompt_with_system_refinement failed; reconnect before retry also failed: \
             first; reconnect error: no route"
                .to_string()
        )
    );
    assert_eq!(
        send.attempted(Err("second".to_string())),
        SendStep::Failed(VoiceError::Assistant(
            "send_prompt_with_system_refinement failed; retry after reconnect also failed: \
             first; retry error: second"
                .to_string()
        ))
    );
}

#[test]
fn a_fresh_key_is_a_random_uuid() {
    let send = PromptSend::begin();
    let key = send.key();
    assert_eq!(key.len(), 36);
    for (i, c) in key.chars().enumerate() {
        match i {
            8 | 13 | 18 | 23 => assert_eq!(c, '-'),
            14 => assert_eq!(c, '4'),
            19 => assert!("89ab".contains(c)),
            _ => assert!(c.is_ascii_digit() || ('a'..='f').contains(&c)),
        }
    }
    assert_ne!(PromptSend::begin().key(), key);
}

#[test]
fn the_service_name_can_be_configured() {
    assert_eq!(dbus_service_name(None), "org.desktopAssistant");
    assert_eq!(dbus_service_name(Some("  \t")), "org.desktopAssistant");
    assert_eq!(dbus_service_name(Some(" org.example.Other ")), "org.example.Other");
    let gateway = DbusAssistantGateway::new(Some("org.example.Other"));
    assert_eq!(gateway.service_name(), "org.example.Other");
}

#[test]
fn an_assistant_without_refinements_gets_one_prompt() {
    let gateway = DbusAssistantGateway::new(None);
    assert_eq!(
        gateway.refinement_refused(&BusFault::UnknownMethod, "no such method", "Be brief.", "hi"),
        RefinedSend::Plain("Be brief.\n\nhi".to_string())
    );
    assert_eq!(
        gateway.refinement_refused(&BusFault::Other, "boom", "Be brief.", "hi"),
        RefinedSend::Fail(VoiceError::Assistant(
            "send_prompt_with_system_refinement failed: boom".to_string()
        ))
    );
}

#[test]
fn bus_news_become_events() {
    assert_eq!(
        bus_event(BusNews::Complete, "r".to_string(), "all".to_string()),
        AssistantEvent::Complete { request_id: "r".to_string(), full_response: "all".to_string() }
    );
    assert_eq!(
        bus_event(BusNews::Chunk, "r".to_string(), "a".to_string()),
        AssistantEvent::Chunk { request_id: "r".to_string(), text: "a".to_string() }
    );
    assert_eq!(
        bus_event(BusNews::Error, "r".to_string(), "e".to_string()),
        AssistantEvent::Error { request_id: "r".to_string(), error: "e".to_string() }
    );
}

#[test]
fn errors_say_what_they_are() {
    assert_eq!(
        VoiceError::Vad("no model".to_string()).message(),
        "VAD error: no model"
    );
    assert_eq!(
        VoiceError::Assistant("gone".to_string()).message(),
        "assistant communication error: gone"
    );
}

#[test]
fn a_request_that_takes_too_long_says_so() {
    assert_eq!(
        timed_out("subscribe", Duration::from_secs(10)),
        VoiceError::Assistant("subscribe timed out after 10000 ms".to_string())
    );
}
