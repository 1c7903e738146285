//! Tests of the session tools and of the phrases that steer a session.

use adele_voice::json::JsonLeaf;
use adele_voice::phrases::{is_error_response, is_stop_phrase};
use adele_voice::tools::{
    answer_tool_call, read_tool_call, session_control_tools, tool_call_with, ClientToolToggles,
    ToolCall, TOOL_LISTEN_FOR_MORE, TOOL_SAY_THIS, TOOL_STOP_LISTENING,
};

#[test]
fn detects_orchestrator_error_responses() {
    // An LLM failure surfaced as reply text must be recognized so the
    // daemon apologizes instead of reading the raw error aloud.
    assert!(is_error_response(
        "Details: LLM error: Bedrock converse_stream request failed: validation error"
    ));
    assert!(is_error_response("LLM error: provider unavailable"));
}

#[test]
fn normal_replies_are_not_errors() {
    assert!(!is_error_response("It's sunny and about 72 degrees today."));
    assert!(!is_error_response(
        "The forecast calls for rain this afternoon, clearing by evening."
    ));
}

#[test]
fn stop_phrases_match_whole_utterance_only() {
    assert!(is_stop_phrase("stop"));
    assert!(is_stop_phrase("Stop listening."));
    assert!(is_stop_phrase("never mind"));
    assert!(is_stop_phrase("That's all!"));
    assert!(is_stop_phrase("goodbye"));
    // Not a command when it's only part of a real request.
    assert!(!is_stop_phrase("stop the timer"));
    assert!(!is_stop_phrase("what should I never mind about?"));
    assert!(!is_stop_phrase("tell me a story"));
}

#[test]
fn session_control_tools_carry_when_to_call_guidance() {
    // All three tools are advertised by default, in a stable order, each
    // with a description that guides the LLM on WHEN to call it.
    let tools = session_control_tools(ClientToolToggles::default());
    let names: Vec<&str> = tools.iter().map(|t| t.name.as_str()).collect();
    assert_eq!(
        names,
        vec![TOOL_STOP_LISTENING, TOOL_LISTEN_FOR_MORE, TOOL_SAY_THIS]
    );
    let stop = &tools[0];
    assert!(
        stop.description.to_lowercase().contains("done")
            || stop.description.to_lowercase().contains("goodbye"),
        "stop_listening must tell the LLM to call it when the user is finished"
    );
    // say_this takes a `text` string; the others take no args.
    let say = tools.iter().find(|t| t.name == TOOL_SAY_THIS).unwrap();
    let schema: serde_json::Value = serde_json::from_str(&say.input_schema).unwrap();
    assert_eq!(schema["properties"]["text"]["type"], "string");
}

#[test]
fn per_tool_toggles_withhold_disabled_tools() {
    // A disabled tool is not advertised; the others still are.
    let tools = session_control_tools(ClientToolToggles {
        stop_listening: true,
        listen_for_more: false,
        say_this: false,
    });
    let names: Vec<&str> = tools.iter().map(|t| t.name.as_str()).collect();
    assert_eq!(names, vec![TOOL_STOP_LISTENING]);
}

#[test]
fn arguments_are_read_as_json() {
    assert_eq!(
        read_tool_call(TOOL_SAY_THIS, "{\"text\": \"  One\\u0020moment.  \"}"),
        ToolCall::SayThis("One moment.".to_string())
    );
    let refused =
        ToolCall::Refused("say_this requires a non-empty `text` argument".to_string());
    assert_eq!(read_tool_call(TOOL_SAY_THIS, "{\"text\": \"  \"}"), refused);
    assert_eq!(read_tool_call(TOOL_SAY_THIS, "{\"text\": 7}"), refused);
    assert_eq!(read_tool_call(TOOL_SAY_THIS, "{}"), refused);
    assert_eq!(read_tool_call(TOOL_SAY_THIS, "no json"), refused);
    assert_eq!(read_tool_call(TOOL_STOP_LISTENING, "no json"), ToolCall::StopListening);
    assert_eq!(read_tool_call(TOOL_LISTEN_FOR_MORE, "{}"), ToolCall::ListenForMore);
    assert_eq!(
        read_tool_call("launch", "{}"),
        ToolCall::Refused("unknown tool".to_string())
    );
    assert_eq!(
        tool_call_with(TOOL_SAY_THIS, Some(JsonLeaf::Text("hi".to_string()))),
        ToolCall::SayThis("hi".to_string())
    );
}

#[test]
fn every_call_is_answered() {
    let say = ToolCall::SayThis("hi".to_string());
    assert_eq!(answer_tool_call(&say, None), Ok("spoken".to_string()));
    assert_eq!(
        answer_tool_call(&say, Some("no voice".to_string())),
        Err("failed to speak: no voice".to_string())
    );
    assert_eq!(answer_tool_call(&ToolCall::StopListening, None), Ok("stopped".to_string()));
    assert_eq!(answer_tool_call(&ToolCall::ListenForMore, None), Ok("listening".to_string()));
    assert_eq!(
        answer_tool_call(&ToolCall::Refused("unknown tool".to_string()), None),
        Err("unknown tool".to_string())
    );
}
