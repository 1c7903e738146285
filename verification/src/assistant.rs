//! The exchange with the assistant: its events, the prompts sent to it, and how
//! a failed send is handled.

use vstd::prelude::*;

use crate::error::VoiceError;
use crate::text::{
    append_decimal, blank_text, copy_of, decimal, is_blank, lemma_trimmed_blank, trim_text, trimmed,
};
use crate::time::Duration;

verus! {

// ---------------------------------------------------------------------------
// Events
// ---------------------------------------------------------------------------

/// What comes from the assistant. `S` holds text; arguments of tool calls are
/// JSON.
#[derive(Debug, PartialEq, Eq)]
pub enum AssistantEvent<S> {
    /// A part of the response.
    Chunk { request_id: S, text: S },
    /// A note on the progress of the turn.
    Status { request_id: S, message: S },
    /// The response is complete.
    Complete { request_id: S, full_response: S },
    /// The response failed.
    Error { request_id: S, error: S },
    /// The assistant waits for a tool to be run.
    ClientToolCall { task_id: S, tool_call_id: S, tool_name: S, arguments: S },
}

pub open spec fn assistant_view(e: AssistantEvent<String>) -> AssistantEvent<Seq<char>> {
    match e {
        AssistantEvent::Chunk { request_id, text } => AssistantEvent::Chunk {
            request_id: request_id@,
            text: text@,
        },
        AssistantEvent::Status { request_id, message } => AssistantEvent::Status {
            request_id: request_id@,
            message: message@,
        },
        AssistantEvent::Complete { request_id, full_response } => AssistantEvent::Complete {
            request_id: request_id@,
            full_response: full_response@,
        },
        AssistantEvent::Error { request_id, error } => AssistantEvent::Error {
            request_id: request_id@,
            error: error@,
        },
        AssistantEvent::ClientToolCall { task_id, tool_call_id, tool_name, arguments } =>
            AssistantEvent::ClientToolCall {
            task_id: task_id@,
            tool_call_id: tool_call_id@,
            tool_name: tool_name@,
            arguments: arguments@,
        },
    }
}

/// What the connection reports. `S` holds text.
#[derive(Debug, PartialEq, Eq)]
pub enum SignalEvent<S> {
    Chunk { conversation_id: S, request_id: S, chunk: S },
    Status { conversation_id: S, request_id: S, message: S },
    Complete { conversation_id: S, request_id: S, full_response: S },
    Error { conversation_id: S, request_id: S, error: S },
    ClientToolCall { task_id: S, conversation_id: S, tool_call_id: S, tool_name: S, arguments: S },
    /// The connection broke; it comes back by itself.
    Disconnected { reason: S },
    /// A conversation was renamed.
    TitleChanged { conversation_id: S, title: S },
    /// Anything else.
    Other,
}

pub open spec fn signal_view(e: SignalEvent<String>) -> SignalEvent<Seq<char>> {
    match e {
        SignalEvent::Chunk { conversation_id, request_id, chunk } => SignalEvent::Chunk {
            conversation_id: conversation_id@,
            request_id: request_id@,
            chunk: chunk@,
        },
        SignalEvent::Status { conversation_id, request_id, message } => SignalEvent::Status {
            conversation_id: conversation_id@,
            request_id: request_id@,
            message: message@,
        },
        SignalEvent::Complete { conversation_id, request_id, full_response } =>
            SignalEvent::Complete {
            conversation_id: conversation_id@,
            request_id: request_id@,
            full_response: full_response@,
        },
        SignalEvent::Error { conversation_id, request_id, error } => SignalEvent::Error {
            conversation_id: conversation_id@,
            request_id: request_id@,
            error: error@,
        },
        SignalEvent::ClientToolCall {
            task_id,
            conversation_id,
            tool_call_id,
            tool_name,
            arguments,
        } => SignalEvent::ClientToolCall {
            task_id: task_id@,
            conversation_id: conversation_id@,
            tool_call_id: tool_call_id@,
            tool_name: tool_name@,
            arguments: arguments@,
        },
        SignalEvent::Disconnected { reason } => SignalEvent::Disconnected { reason: reason@ },
        SignalEvent::TitleChanged { conversation_id, title } => SignalEvent::TitleChanged {
            conversation_id: conversation_id@,
            title: title@,
        },
        SignalEvent::Other => SignalEvent::Other,
    }
}

/// The event that a signal stands for, where it concerns a turn.
pub open spec fn turn_event(signal: SignalEvent<Seq<char>>) -> Option<AssistantEvent<Seq<char>>> {
    match signal {
        SignalEvent::Chunk { request_id, chunk, .. } => Some(
            AssistantEvent::Chunk { request_id, text: chunk },
        ),
        SignalEvent::Status { request_id, message, .. } => Some(
            AssistantEvent::Status { request_id, message },
        ),
        SignalEvent::Complete { request_id, full_response, .. } => Some(
            AssistantEvent::Complete { request_id, full_response },
        ),
        SignalEvent::Error { request_id, error, .. } => Some(
            AssistantEvent::Error { request_id, error },
        ),
        SignalEvent::ClientToolCall { task_id, tool_call_id, tool_name, arguments, .. } => Some(
            AssistantEvent::ClientToolCall { task_id, tool_call_id, tool_name, arguments },
        ),
        _ => None,
    }
}

pub open spec fn optional_event_view(e: Option<AssistantEvent<String>>) -> Option<
    AssistantEvent<Seq<char>>,
> {
    match e {
        Some(e) => Some(assistant_view(e)),
        None => None,
    }
}

/// The event that a signal stands for, where it concerns a turn.
pub fn map_signal(event: SignalEvent<String>) -> (e: Option<AssistantEvent<String>>)
    ensures
        optional_event_view(e) == turn_event(signal_view(event)),
{
    match event {
        SignalEvent::Chunk { request_id, chunk, .. } => Some(
            AssistantEvent::Chunk { request_id, text: chunk },
        ),
        SignalEvent::Status { request_id, message, .. } => Some(
            AssistantEvent::Status { request_id, message },
        ),
        SignalEvent::Complete { request_id, full_response, .. } => Some(
            AssistantEvent::Complete { request_id, full_response },
        ),
        SignalEvent::Error { request_id, error, .. } => Some(
            AssistantEvent::Error { request_id, error },
        ),
        SignalEvent::ClientToolCall { task_id, tool_call_id, tool_name, arguments, .. } => Some(
            AssistantEvent::ClientToolCall { task_id, tool_call_id, tool_name, arguments },
        ),
        _ => None,
    }
}

/// What the task that passes events on to the pipeline does next. `E` is an
/// event.
#[derive(Debug, PartialEq, Eq)]
pub enum Forward<E> {
    /// Pass the event on.
    Pass(E),
    /// Wait a moment and subscribe anew: the connection broke.
    Resubscribe,
    /// Wait for the next signal.
    Skip,
    /// There will be no more signals.
    End,
}

/// What a signal, or the end of the signals, calls for.
pub open spec fn forward_for(signal: Option<SignalEvent<Seq<char>>>) -> Forward<
    AssistantEvent<Seq<char>>,
> {
    match signal {
        None => Forward::End,
        Some(SignalEvent::Disconnected { .. }) => Forward::Resubscribe,
        Some(s) => match turn_event(s) {
            Some(e) => Forward::Pass(e),
            None => Forward::Skip,
        },
    }
}

pub open spec fn forward_view(f: Forward<AssistantEvent<String>>) -> Forward<
    AssistantEvent<Seq<char>>,
> {
    match f {
        Forward::Pass(e) => Forward::Pass(assistant_view(e)),
        Forward::Resubscribe => Forward::Resubscribe,
        Forward::Skip => Forward::Skip,
        Forward::End => Forward::End,
    }
}

/// Decides what to do with a signal, or with the end of the signals. A broken
/// connection never ends the subscription: it is subscribed anew.
pub fn forward_signal(signal: Option<SignalEvent<String>>) -> (f: Forward<AssistantEvent<String>>)
    ensures
        forward_view(f) == forward_for(
            match signal {
                Some(s) => Some(signal_view(s)),
                None => None,
            },
        ),
{
    match signal {
        None => Forward::End,
        Some(SignalEvent::Disconnected { .. }) => Forward::Resubscribe,
        Some(s) => match map_signal(s) {
            Some(e) => Forward::Pass(e),
            None => Forward::Skip,
        },
    }
}

/// How long to wait before subscribing anew.
pub fn resubscribe_pause() -> (d: Duration)
    ensures
        d.nanos == 50_000_000,
{
    Duration::from_millis(50)
}

// ---------------------------------------------------------------------------
// A connection made at most once
// ---------------------------------------------------------------------------

/// A connection that may not have been made yet, and is never replaced once it
/// has been.
pub struct ConnectOnce<C> {
    connection: Option<C>,
}

/// What to do to have a live connection behind a failed call.
#[derive(Debug, Clone, Copy, PartialEq, Eq, Structural)]
pub enum Reconnect {
    /// Wait: the connection heals itself.
    WaitForGrace,
    /// Connect for the first time.
    Dial,
}

impl<C> ConnectOnce<C> {
    pub closed spec fn made(&self) -> Option<C> {
        self.connection
    }

    pub fn new(connection: Option<C>) -> (s: ConnectOnce<C>)
        ensures
            s.made() == connection,
    {
        ConnectOnce { connection }
    }

    /// The connection, if there is one.
    pub fn get(&self) -> (c: Option<&C>)
        ensures
            c is Some <==> self.made() is Some,
            c is Some ==> *(c->0) == self.made()->0,
    {
        match &self.connection {
            Some(c) => Some(c),
            None => None,
        }
    }

    /// Keeps `made`, unless there is a connection already, which then stays.
    pub fn keep_first(&mut self, made: C)
        ensures
            final(self).made() == (match old(self).made() {
                Some(c) => Some(c),
                None => Some(made),
            }),
    {
        if self.connection.is_none() {
            self.connection = Some(made);
        }
    }

    /// What to do behind a failed call.
    pub fn reconnect(&self) -> (r: Reconnect)
        ensures
            r == (if self.made() is Some {
                Reconnect::WaitForGrace
            } else {
                Reconnect::Dial
            }),
    {
        if self.connection.is_some() {
            Reconnect::WaitForGrace
        } else {
            Reconnect::Dial
        }
    }
}

/// How long to wait for a connection to heal itself.
pub fn reconnect_grace() -> (d: Duration)
    ensures
        d.nanos == 250_000_000,
{
    Duration::from_millis(250)
}

// ---------------------------------------------------------------------------
// Sending a prompt
// ---------------------------------------------------------------------------

/// The error of a request that took longer than it may.
pub fn timed_out(label: &str, limit: Duration) -> (e: VoiceError)
    ensures
        e is Assistant,
        e->Assistant_0@ == label@ + " timed out after "@ + decimal(
            limit.nanos as nat / 1_000_000,
        ) + " ms"@,
{
    let mut m = copy_of(label);
    m.append(" timed out after ");
    append_decimal(&mut m, limit.nanos / 1_000_000);
    m.append(" ms");
    VoiceError::Assistant(m)
}

/// Whether a character is a hexadecimal digit in lower case.
pub open spec fn is_hex(c: char) -> bool {
    '0' <= c <= '9' || 'a' <= c <= 'f'
}

/// Whether a text has the form of a random UUID: thirty-two hexadecimal digits
/// in five groups, of which two digits say of what kind it is.
pub open spec fn is_random_uuid(s: Seq<char>) -> bool {
    &&& s.len() == 36
    &&& s[8] == '-' && s[13] == '-' && s[18] == '-' && s[23] == '-'
    &&& forall|i: int|
        0 <= i < 36 && i != 8 && i != 13 && i != 18 && i != 23 ==> is_hex(#[trigger] s[i])
    &&& s[14] == '4'
    &&& s[19] == '8' || s[19] == '9' || s[19] == 'a' || s[19] == 'b'
}

/// `uuid::Uuid::new_v4`, written out: a random UUID in lower case with hyphens.
/// Which one it is rests on chance, and nothing is claimed of it. Where the
/// system has no random numbers to give, the call does not return.
#[verifier::external_body]
fn fresh_key() -> (key: String)
    ensures
        is_random_uuid(key@),
{
    uuid::Uuid::new_v4().to_string()
}

/// The send of one prompt: at most two attempts, both with the same key, so
/// that the assistant can tell that they are the same turn.
pub struct PromptSend {
    idempotency_key: String,
    first_failure: Option<String>,
}

/// What the send does next.
#[derive(Debug, PartialEq, Eq)]
pub enum SendStep {
    /// Reconnect, then try again with the same key.
    ReconnectAndRetry,
    /// The prompt was taken, under this request id.
    Sent(String),
    /// The prompt was not taken.
    Failed(VoiceError),
}

impl PromptSend {
    /// The key of every attempt.
    pub closed spec fn key_text(&self) -> Seq<char> {
        self.idempotency_key@
    }

    /// Why the first attempt failed, if it did.
    pub closed spec fn failed_once(&self) -> Option<Seq<char>> {
        match self.first_failure {
            Some(f) => Some(f@),
            None => None,
        }
    }

    /// A send under a fresh key.
    pub fn begin() -> (s: PromptSend)
        ensures
            is_random_uuid(s.key_text()),
            s.failed_once() is None,
    {
        PromptSend::new(fresh_key())
    }

    /// A send under a given key.
    pub fn new(idempotency_key: String) -> (s: PromptSend)
        ensures
            s.key_text() == idempotency_key@,
            s.failed_once() is None,
    {
        PromptSend { idempotency_key, first_failure: None }
    }

    /// The key to send along.
    pub fn key(&self) -> (k: &str)
        ensures
            k@ == self.key_text(),
    {
        self.idempotency_key.as_str()
    }

    /// Takes in how an attempt went. A first failure calls for one retry; a
    /// second one is final and tells both.
    pub fn attempted(&mut self, result: Result<String, String>) -> (step: SendStep)
        ensures
            final(self).key_text() == old(self).key_text(),
            match result {
                Ok(id) => step is Sent && step->Sent_0@ == id@ && final(self).failed_once()
                    == old(self).failed_once(),
                Err(e) => match old(self).failed_once() {
                    None => step is ReconnectAndRetry && final(self).failed_once() == Some(e@),
                    Some(first) => {
                        &&& final(self).failed_once() == Some(first)
                        &&& step is Failed
                        &&& step->Failed_0 is Assistant
                        &&& step->Failed_0->Assistant_0@
                            == "send_prompt_with_system_refinement failed; retry after reconnect also failed: "@
                            + first + "; retry error: "@ + e@
                    },
                },
            },
    {
        match result {
            Ok(id) => SendStep::Sent(id),
            Err(e) => match &self.first_failure {
                None => {
                    self.first_failure = Some(e);
                    SendStep::ReconnectAndRetry
                },
                Some(first) => {
                    let mut m = copy_of(
                        "send_prompt_with_system_refinement failed; retry after reconnect also failed: ",
                    );
                    m.append(first.as_str());
                    m.append("; retry error: ");
                    m.append(e.as_str());
                    SendStep::Failed(VoiceError::Assistant(m))
                },
            },
        }
    }

    /// Takes in that no connection could be had for the retry.
    pub fn no_connection(&self, error: &str) -> (e: VoiceError)
        ensures
            e is Assistant,
            self.failed_once() is Some ==> e->Assistant_0@
                == "send_prompt_with_system_refinement failed; reconnect before retry also failed: "@
                + self.failed_once()->0 + "; reconnect error: "@ + error@,
            self.failed_once() is None ==> e->Assistant_0@ == error@,
    {
        match &self.first_failure {
            Some(first) => {
                let mut m = copy_of(
                    "send_prompt_with_system_refinement failed; reconnect before retry also failed: ",
                );
                m.append(first.as_str());
                m.append("; reconnect error: ");
                m.append(error);
                VoiceError::Assistant(m)
            },
            None => VoiceError::Assistant(copy_of(error)),
        }
    }
}

// ---------------------------------------------------------------------------
// An assistant that takes no refinements
// ---------------------------------------------------------------------------

/// Why a call over the bus failed.
#[derive(Debug, Clone, Copy, PartialEq, Eq, Structural)]
pub enum BusFault {
    UnknownMethod,
    UnknownInterface,
    UnknownObject,
    Other,
}

/// Whether the peer does not have the method at all.
pub fn is_unknown_method(fault: &BusFault) -> (b: bool)
    ensures
        b == (*fault !is Other),
{
    match fault {
        BusFault::UnknownMethod | BusFault::UnknownInterface | BusFault::UnknownObject => true,
        BusFault::Other => false,
    }
}

/// A prompt with the refinement in front of it, where there is one.
pub open spec fn with_refinement(refinement: Seq<char>, prompt: Seq<char>) -> Seq<char> {
    if is_blank(refinement) {
        prompt
    } else {
        refinement + "\n\n"@ + prompt
    }
}

/// Folds the refinement into the prompt.
pub fn prepend_refinement(refinement: &str, prompt: &str) -> (s: String)
    ensures
        s@ == with_refinement(refinement@, prompt@),
{
    if blank_text(refinement) {
        copy_of(prompt)
    } else {
        let mut s = copy_of(refinement);
        s.append("\n\n");
        s.append(prompt);
        s
    }
}

/// What to do where a prompt with a refinement could not be sent over the bus:
/// a prompt to send without one, or nothing but to fail.
pub fn fallback_prompt(fault: &BusFault, refinement: &str, prompt: &str) -> (s: Option<String>)
    ensures
        s is Some <==> *fault !is Other,
        s is Some ==> s->0@ == with_refinement(refinement@, prompt@),
{
    if is_unknown_method(fault) {
        Some(prepend_refinement(refinement, prompt))
    } else {
        None
    }
}

/// The assistant's name on the bus, where no other is configured.
pub const DEFAULT_DBUS_SERVICE: &'static str = "org.desktopAssistant";

/// The assistant's name on the bus: the configured one, unless it is blank.
pub fn dbus_service_name(configured: Option<&str>) -> (name: String)
    ensures
        name@ == (if configured is Some && !is_blank(configured->0@) {
            trimmed(configured->0@)
        } else {
            DEFAULT_DBUS_SERVICE@
        }),
{
    if let Some(v) = configured {
        let name = trim_text(v);
        if !blank_text(v) {
            return name;
        }
    }
    copy_of(DEFAULT_DBUS_SERVICE)
}

/// Where the assistant's conversations are found on the bus.
pub const DBUS_CONVERSATIONS_PATH: &'static str = "/org/desktopAssistant/Conversations";

/// The kinds of news that the assistant gives over the bus.
#[derive(Debug, Clone, Copy, PartialEq, Eq, Structural)]
pub enum BusNews {
    Chunk,
    Complete,
    Error,
}

/// News from the bus as an event of the turn.
pub fn bus_event(news: BusNews, request_id: String, text: String) -> (e: AssistantEvent<String>)
    ensures
        e == (match news {
            BusNews::Chunk => AssistantEvent::Chunk { request_id, text },
            BusNews::Complete => AssistantEvent::Complete { request_id, full_response: text },
            BusNews::Error => AssistantEvent::Error { request_id, error: text },
        }),
{
    match news {
        BusNews::Chunk => AssistantEvent::Chunk { request_id, text },
        BusNews::Complete => AssistantEvent::Complete { request_id, full_response: text },
        BusNews::Error => AssistantEvent::Error { request_id, error: text },
    }
}

/// What to do where a prompt with a refinement could not be sent.
#[derive(Debug, PartialEq, Eq)]
pub enum RefinedSend {
    /// Send this prompt without a refinement.
    Plain(String),
    /// Give up.
    Fail(VoiceError),
}

/// The assistant as it is reached over the bus.
pub struct DbusAssistantGateway {
    service_name: String,
}

impl DbusAssistantGateway {
    pub closed spec fn service_text(&self) -> Seq<char> {
        self.service_name@
    }

    /// The assistant under the configured name, unless that is blank.
    pub fn new(configured: Option<&str>) -> (g: DbusAssistantGateway)
        ensures
            g.service_text() == (if configured is Some && !is_blank(configured->0@) {
                trimmed(configured->0@)
            } else {
                DEFAULT_DBUS_SERVICE@
            }),
    {
        DbusAssistantGateway { service_name: dbus_service_name(configured) }
    }

    pub fn service_name(&self) -> (name: &str)
        ensures
            name@ == self.service_text(),
    {
        self.service_name.as_str()
    }

    /// What to do where a prompt with a refinement could not be sent: an
    /// assistant that does not know refinements gets one prompt that holds both.
    pub fn refinement_refused(
        &self,
        fault: &BusFault,
        error: &str,
        refinement: &str,
        prompt: &str,
    ) -> (s: RefinedSend)
        ensures
            s is Plain <==> *fault !is Other,
            s is Plain ==> s->Plain_0@ == with_refinement(refinement@, prompt@),
            s is Fail ==> s->Fail_0 is Assistant && s->Fail_0->Assistant_0@
                == "send_prompt_with_system_refinement failed: "@ + error@,
    {
        match fallback_prompt(fault, refinement, prompt) {
            Some(composed) => RefinedSend::Plain(composed),
            None => {
                let mut m = copy_of("send_prompt_with_system_refinement failed: ");
                m.append(error);
                RefinedSend::Fail(VoiceError::Assistant(m))
            },
        }
    }
}

/// The user's own words are never lost: the prompt that is sent, with or
/// without a refinement in front of it, ends with what the user said.
pub proof fn law_prompt_survives_refinement(refinement: Seq<char>, prompt: Seq<char>)
    ensures
        with_refinement(refinement, prompt).len() >= prompt.len(),
        with_refinement(refinement, prompt).skip(
            with_refinement(refinement, prompt).len() - prompt.len(),
        ) == prompt,
{
    assert(with_refinement(refinement, prompt).skip(
        with_refinement(refinement, prompt).len() - prompt.len(),
    ) =~= prompt);
}

/// What each signal of the connection is passed on as: what concerns a turn under
/// its own name, with its own ids and text; nothing else.
pub proof fn law_what_is_passed_on(
    conversation_id: Seq<char>,
    request_id: Seq<char>,
    text: Seq<char>,
    task_id: Seq<char>,
    tool_call_id: Seq<char>,
    tool_name: Seq<char>,
    arguments: Seq<char>,
)
    ensures
        forward_for(Some(SignalEvent::Chunk { conversation_id, request_id, chunk: text }))
            == Forward::Pass(AssistantEvent::Chunk { request_id, text }),
        forward_for(Some(SignalEvent::Status { conversation_id, request_id, message: text }))
            == Forward::Pass(AssistantEvent::Status { request_id, message: text }),
        forward_for(
            Some(SignalEvent::Complete { conversation_id, request_id, full_response: text }),
        ) == Forward::Pass(AssistantEvent::Complete { request_id, full_response: text }),
        forward_for(Some(SignalEvent::Error { conversation_id, request_id, error: text }))
            == Forward::Pass(AssistantEvent::Error { request_id, error: text }),
        forward_for(
            Some(
                SignalEvent::ClientToolCall {
                    task_id,
                    conversation_id,
                    tool_call_id,
                    tool_name,
                    arguments,
                },
            ),
        ) == Forward::Pass(
            AssistantEvent::ClientToolCall { task_id, tool_call_id, tool_name, arguments },
        ),
        forward_for(Some(SignalEvent::Disconnected { reason: text })) is Resubscribe,
        forward_for(Some(SignalEvent::TitleChanged { conversation_id, title: text })) is Skip,
        forward_for(Some(SignalEvent::Other)) is Skip,
        forward_for(None) is End,
{
}

/// The same, before it is decided whether to go on: a broken connection and a
/// renamed conversation are no events of a turn.
pub proof fn law_what_concerns_a_turn(signal: SignalEvent<Seq<char>>)
    ensures
        turn_event(signal) is None <==> signal is Disconnected || signal is TitleChanged || signal
            is Other,
        turn_event(signal) is Some ==> forward_for(Some(signal)) == Forward::Pass(
            turn_event(signal)->0,
        ),
{
}

/// A prompt is sent as it is where the refinement says nothing, and else behind
/// the refinement and an empty line.
pub proof fn law_where_the_refinement_goes(refinement: Seq<char>, prompt: Seq<char>)
    ensures
        trimmed(refinement).len() == 0 ==> with_refinement(refinement, prompt) == prompt,
        trimmed(refinement).len() > 0 ==> with_refinement(refinement, prompt) == refinement + seq![
            '\n',
            '\n',
        ] + prompt,
{
    reveal_strlit("\n\n");
    lemma_trimmed_blank(refinement);
    assert("\n\n"@ =~= seq!['\n', '\n']);
}

/// Where the assistant is found on the bus, where no other name is configured.
pub proof fn law_where_the_assistant_is_found()
    ensures
        DEFAULT_DBUS_SERVICE@ == "org.desktopAssistant"@,
        DBUS_CONVERSATIONS_PATH@ == "/org/desktopAssistant/Conversations"@,
{
}

} // verus!
