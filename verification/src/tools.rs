//! The tools that the assistant can drive the voice session with.

use vstd::prelude::*;

use crate::json::{json_at, leaf_view, read_json, JsonLeaf};
use crate::text::{copy_of, same_text, trim_text, trimmed};

verus! {

/// Ends the session.
pub const TOOL_STOP_LISTENING: &'static str = "stop_listening";

/// Keeps the microphone open for an answer.
pub const TOOL_LISTEN_FOR_MORE: &'static str = "listen_for_more";

/// Speaks a line at once.
pub const TOOL_SAY_THIS: &'static str = "say_this";

/// Which tools the assistant is offered.
#[derive(Debug, Clone, Copy, PartialEq, Eq, Structural)]
pub struct ClientToolToggles {
    pub stop_listening: bool,
    pub listen_for_more: bool,
    pub say_this: bool,
}

impl Default for ClientToolToggles {
    fn default() -> (t: ClientToolToggles)
        ensures
            t.stop_listening && t.listen_for_more && t.say_this,
    {
        ClientToolToggles { stop_listening: true, listen_for_more: true, say_this: true }
    }
}

// ---------------------------------------------------------------------------
// What is offered
// ---------------------------------------------------------------------------

/// A tool as it is offered to the assistant. `S` holds text; the schema of its
/// arguments is JSON.
#[derive(Debug, PartialEq, Eq)]
pub struct ClientToolSpec<S> {
    pub name: S,
    pub description: S,
    pub input_schema: S,
}

pub open spec fn tool_view(t: ClientToolSpec<String>) -> ClientToolSpec<Seq<char>> {
    ClientToolSpec {
        name: t.name@,
        description: t.description@,
        input_schema: t.input_schema@,
    }
}

pub open spec fn tool_views(v: Seq<ClientToolSpec<String>>) -> Seq<ClientToolSpec<Seq<char>>> {
    v.map_values(|t: ClientToolSpec<String>| tool_view(t))
}

pub const STOP_LISTENING_DESCRIPTION: &'static str = "End the voice session. Call this when the user signals they are done — \
                they decline further help, say goodbye, or otherwise indicate the conversation is \
                over (e.g. you ask \"Anything else?\" and they say \"No\"). After your final \
                reply is spoken the microphone closes and the next wake word starts a brand-new \
                conversation. Do not call it while you still expect the user to respond.";

pub const LISTEN_FOR_MORE_DESCRIPTION: &'static str = "Keep listening for the user's reply. Call this when you expect the user \
                to respond — for example you asked them a question or offered a choice — so the \
                microphone re-opens for their answer instead of the session ending.";

pub const SAY_THIS_DESCRIPTION: &'static str = "Speak this exact line to the user out loud right now, before the rest \
                of your reply. Use it for a brief spoken progress note or aside (e.g. \"One \
                moment, checking that now.\") that should be read aloud verbatim.";

pub const NO_ARGUMENTS_SCHEMA: &'static str = "{\"type\":\"object\",\"properties\":{},\"additionalProperties\":false}";

pub const SAY_THIS_SCHEMA: &'static str = "{\"type\":\"object\",\"properties\":{\"text\":{\"type\":\"string\",\"description\":\"The exact line to speak aloud.\"}},\"required\":[\"text\"],\"additionalProperties\":false}";

/// The tools offered for a choice of them, always in the same order.
pub open spec fn offered_tools(toggles: ClientToolToggles) -> Seq<ClientToolSpec<Seq<char>>> {
    (if toggles.stop_listening {
        seq![
            ClientToolSpec {
                name: TOOL_STOP_LISTENING@,
                description: STOP_LISTENING_DESCRIPTION@,
                input_schema: NO_ARGUMENTS_SCHEMA@,
            },
        ]
    } else {
        seq![]
    }) + (if toggles.listen_for_more {
        seq![
            ClientToolSpec {
                name: TOOL_LISTEN_FOR_MORE@,
                description: LISTEN_FOR_MORE_DESCRIPTION@,
                input_schema: NO_ARGUMENTS_SCHEMA@,
            },
        ]
    } else {
        seq![]
    }) + (if toggles.say_this {
        seq![
            ClientToolSpec {
                name: TOOL_SAY_THIS@,
                description: SAY_THIS_DESCRIPTION@,
                input_schema: SAY_THIS_SCHEMA@,
            },
        ]
    } else {
        seq![]
    })
}

fn push_tool(
    tools: &mut Vec<ClientToolSpec<String>>,
    name: &str,
    description: &str,
    input_schema: &str,
)
    ensures
        tool_views(final(tools)@) == tool_views(old(tools)@).push(
            ClientToolSpec {
                name: name@,
                description: description@,
                input_schema: input_schema@,
            },
        ),
{
    let ghost before = tools@;
    tools.push(
        ClientToolSpec {
            name: copy_of(name),
            description: copy_of(description),
            input_schema: copy_of(input_schema),
        },
    );
    proof {
        assert(tool_views(tools@) =~= tool_views(before).push(
            ClientToolSpec {
                name: name@,
                description: description@,
                input_schema: input_schema@,
            },
        ));
    }
}

/// The tools to offer to the assistant.
pub fn session_control_tools(toggles: ClientToolToggles) -> (tools: Vec<ClientToolSpec<String>>)
    ensures
        tool_views(tools@) == offered_tools(toggles),
{
    let mut tools: Vec<ClientToolSpec<String>> = Vec::new();
    if toggles.stop_listening {
        push_tool(
            &mut tools,
            TOOL_STOP_LISTENING,
            STOP_LISTENING_DESCRIPTION,
            NO_ARGUMENTS_SCHEMA,
        );
    }
    if toggles.listen_for_more {
        push_tool(
            &mut tools,
            TOOL_LISTEN_FOR_MORE,
            LISTEN_FOR_MORE_DESCRIPTION,
            NO_ARGUMENTS_SCHEMA,
        );
    }
    if toggles.say_this {
        push_tool(&mut tools, TOOL_SAY_THIS, SAY_THIS_DESCRIPTION, SAY_THIS_SCHEMA);
    }
    proof {
        assert(tool_views(tools@) =~= offered_tools(toggles));
    }
    tools
}

// ---------------------------------------------------------------------------
// What is called
// ---------------------------------------------------------------------------

/// What a tool call asks for. `S` holds text.
#[derive(Debug, PartialEq, Eq)]
pub enum ToolCall<S> {
    /// To end the session behind this turn.
    StopListening,
    /// To listen for more behind this turn.
    ListenForMore,
    /// To speak a line at once.
    SayThis(S),
    /// Nothing that can be done, for the reason given.
    Refused(S),
}

pub open spec fn call_view(c: ToolCall<String>) -> ToolCall<Seq<char>> {
    match c {
        ToolCall::StopListening => ToolCall::StopListening,
        ToolCall::ListenForMore => ToolCall::ListenForMore,
        ToolCall::SayThis(s) => ToolCall::SayThis(s@),
        ToolCall::Refused(s) => ToolCall::Refused(s@),
    }
}

/// The text given to the tool, without whitespace around it; empty where none
/// was given.
pub open spec fn given_line(text: Option<JsonLeaf<Seq<char>>>) -> Seq<char> {
    match text {
        Some(JsonLeaf::Text(s)) => trimmed(s),
        _ => Seq::empty(),
    }
}

/// What a call of the tool `name` asks for, where its `text` argument is as
/// given.
pub open spec fn requested(name: Seq<char>, text: Option<JsonLeaf<Seq<char>>>) -> ToolCall<
    Seq<char>,
> {
    if name == TOOL_STOP_LISTENING@ {
        ToolCall::StopListening
    } else if name == TOOL_LISTEN_FOR_MORE@ {
        ToolCall::ListenForMore
    } else if name == TOOL_SAY_THIS@ {
        if given_line(text).len() == 0 {
            ToolCall::Refused("say_this requires a non-empty `text` argument"@)
        } else {
            ToolCall::SayThis(given_line(text))
        }
    } else {
        ToolCall::Refused("unknown tool"@)
    }
}

/// Reads a tool call whose `text` argument has been looked up.
pub fn tool_call_with(name: &str, text: Option<JsonLeaf<String>>) -> (c: ToolCall<String>)
    ensures
        call_view(c) == requested(name@, leaf_view(text)),
{
    if same_text(name, TOOL_STOP_LISTENING) {
        ToolCall::StopListening
    } else if same_text(name, TOOL_LISTEN_FOR_MORE) {
        ToolCall::ListenForMore
    } else if same_text(name, TOOL_SAY_THIS) {
        let line = match text {
            Some(JsonLeaf::Text(s)) => trim_text(s.as_str()),
            _ => String::new(),
        };
        if line.as_str().is_empty() {
            ToolCall::Refused(copy_of("say_this requires a non-empty `text` argument"))
        } else {
            ToolCall::SayThis(line)
        }
    } else {
        ToolCall::Refused(copy_of("unknown tool"))
    }
}

/// Reads a tool call; the arguments are JSON.
pub fn read_tool_call(name: &str, arguments: &str) -> (c: ToolCall<String>)
    ensures
        call_view(c) == requested(name@, json_at(arguments@, "/text"@)),
{
    let text = read_json(arguments, "/text");
    tool_call_with(name, text)
}

/// The characters of an answer or a reason against one.
pub open spec fn answer_view(r: Result<String, String>) -> Result<Seq<char>, Seq<char>> {
    match r {
        Ok(s) => Ok(s@),
        Err(s) => Err(s@),
    }
}

/// The answer to a call, where `spoken` says how speaking its line went.
pub open spec fn answer_to(call: ToolCall<Seq<char>>, spoken: Result<(), Seq<char>>) -> Result<
    Seq<char>,
    Seq<char>,
> {
    match call {
        ToolCall::StopListening => Ok("stopped"@),
        ToolCall::ListenForMore => Ok("listening"@),
        ToolCall::SayThis(_) => match spoken {
            Ok(_) => Ok("spoken"@),
            Err(e) => Err("failed to speak: "@ + e),
        },
        ToolCall::Refused(reason) => Err(reason),
    }
}

/// Answers a call. `failure` is why the line could not be spoken, if it could
/// not.
pub fn answer_tool_call(call: &ToolCall<String>, failure: Option<String>) -> (r: Result<
    String,
    String,
>)
    ensures
        answer_view(r) == answer_to(
            call_view(*call),
            match failure {
                Some(e) => Err(e@),
                None => Ok(()),
            },
        ),
{
    match call {
        ToolCall::StopListening => Ok(copy_of("stopped")),
        ToolCall::ListenForMore => Ok(copy_of("listening")),
        ToolCall::SayThis(_) => match failure {
            None => Ok(copy_of("spoken")),
            Some(e) => {
                let mut m = copy_of("failed to speak: ");
                m.append(e.as_str());
                Err(m)
            },
        },
        ToolCall::Refused(reason) => Err(copy_of(reason.as_str())),
    }
}

/// A tool that is offered is never unknown: its call is refused only where it
/// is `say_this` without a line to say.
pub proof fn law_offered_tools_are_known(
    toggles: ClientToolToggles,
    k: int,
    text: Option<JsonLeaf<Seq<char>>>,
)
    requires
        0 <= k < offered_tools(toggles).len(),
    ensures
        requested(offered_tools(toggles)[k].name, text) is Refused ==> {
            &&& offered_tools(toggles)[k].name == TOOL_SAY_THIS@
            &&& given_line(text).len() == 0
        },
{
    reveal_strlit("stop_listening");
    reveal_strlit("listen_for_more");
    reveal_strlit("say_this");
}

/// The tools that are offered, by name and in order: `stop_listening`,
/// `listen_for_more` and `say_this`, each where it is switched on.
pub proof fn law_which_tools_are_offered(toggles: ClientToolToggles)
    ensures
        offered_tools(toggles).len() == (if toggles.stop_listening {
            1int
        } else {
            0
        }) + (if toggles.listen_for_more {
            1int
        } else {
            0
        }) + (if toggles.say_this {
            1int
        } else {
            0
        }),
        toggles.stop_listening ==> offered_tools(toggles)[0].name == "stop_listening"@,
        toggles.listen_for_more ==> offered_tools(toggles)[if toggles.stop_listening {
            1int
        } else {
            0
        }].name == "listen_for_more"@,
        toggles.say_this ==> offered_tools(toggles).last().name == "say_this"@,
{
}

/// What a call asks for: the two that take nothing ask for what they say; a line
/// is spoken without the whitespace round it, and refused where there is none; any
/// other tool is unknown.
pub proof fn law_what_a_call_asks_for(
    name: Seq<char>,
    line: Seq<char>,
    text: Option<JsonLeaf<Seq<char>>>,
)
    ensures
        requested("stop_listening"@, text) is StopListening,
        requested("listen_for_more"@, text) is ListenForMore,
        trimmed(line).len() > 0 ==> requested("say_this"@, Some(JsonLeaf::Text(line)))
            == ToolCall::SayThis(trimmed(line)),
        trimmed(line).len() == 0 ==> requested("say_this"@, Some(JsonLeaf::Text(line)))
            == ToolCall::Refused("say_this requires a non-empty `text` argument"@),
        !(text matches Some(JsonLeaf::Text(_))) ==> requested("say_this"@, text)
            == ToolCall::Refused("say_this requires a non-empty `text` argument"@),
        name != "stop_listening"@ && name != "listen_for_more"@ && name != "say_this"@
            ==> requested(name, text) == ToolCall::Refused("unknown tool"@),
{
    reveal_strlit("stop_listening");
    reveal_strlit("listen_for_more");
    reveal_strlit("say_this");
    assert("stop_listening"@.len() == 14 && "listen_for_more"@.len() == 15 && "say_this"@.len()
        == 8);
}

/// How a call is answered: with what was done, or with the reason why not.
pub proof fn law_how_a_call_is_answered(line: Seq<char>, reason: Seq<char>, spoken: Result<(), Seq<char>>)
    ensures
        answer_to(ToolCall::StopListening, spoken) == Ok::<Seq<char>, Seq<char>>("stopped"@),
        answer_to(ToolCall::ListenForMore, spoken) == Ok::<Seq<char>, Seq<char>>("listening"@),
        answer_to(ToolCall::SayThis(line), Ok(())) == Ok::<Seq<char>, Seq<char>>("spoken"@),
        answer_to(ToolCall::SayThis(line), Err(reason)) == Err::<Seq<char>, Seq<char>>(
            "failed to speak: "@ + reason,
        ),
        answer_to(ToolCall::Refused(reason), spoken) == Err::<Seq<char>, Seq<char>>(reason),
{
}

/// What the tools take: the first two nothing, and `say_this` a text that it cannot
/// do without.
pub proof fn law_what_the_tools_take(toggles: ClientToolToggles, k: int)
    requires
        0 <= k < offered_tools(toggles).len(),
    ensures
        offered_tools(toggles)[k].name == "say_this"@ ==> offered_tools(toggles)[k].input_schema
            == "{\"type\":\"object\",\"properties\":{\"text\":{\"type\":\"string\",\"description\":\"The exact line to speak aloud.\"}},\"required\":[\"text\"],\"additionalProperties\":false}"@,
        offered_tools(toggles)[k].name != "say_this"@ ==> offered_tools(toggles)[k].input_schema
            == "{\"type\":\"object\",\"properties\":{},\"additionalProperties\":false}"@,
{
    reveal_strlit("stop_listening");
    reveal_strlit("listen_for_more");
    reveal_strlit("say_this");
    assert("stop_listening"@.len() == 14 && "listen_for_more"@.len() == 15 && "say_this"@.len()
        == 8);
}

} // verus!
