//! What comes of a turn that was given up while the assistant was still at it.

use vstd::prelude::*;

use crate::assistant::{assistant_view, AssistantEvent};
use crate::text::copy_of;
use crate::time::{later_by, Duration, Instant};

verus! {

/// The shortest that late events are listened for, in seconds.
pub const LATE_EVENTS_FLOOR_SECS: u64 = 60;

/// The answer to a tool call that comes too late.
pub const INTERRUPTED: &'static str = "voice session interrupted";

/// What to do with a late event. `S` holds text.
#[derive(Debug, PartialEq, Eq)]
pub enum LateStep<S> {
    /// Nothing.
    Ignore,
    /// Answer this tool call with this error, so that the assistant does not
    /// wait for it.
    Refuse { task_id: S, tool_call_id: S, error: S },
    /// Stop listening: the turn is over.
    Stop,
}

pub open spec fn late_view(s: LateStep<String>) -> LateStep<Seq<char>> {
    match s {
        LateStep::Ignore => LateStep::Ignore,
        LateStep::Refuse { task_id, tool_call_id, error } => LateStep::Refuse {
            task_id: task_id@,
            tool_call_id: tool_call_id@,
            error: error@,
        },
        LateStep::Stop => LateStep::Stop,
    }
}

/// What to do with a late event; none comes where the connection is gone.
pub open spec fn late_step(event: Option<AssistantEvent<Seq<char>>>) -> LateStep<Seq<char>> {
    match event {
        Some(AssistantEvent::ClientToolCall { task_id, tool_call_id, .. }) => LateStep::Refuse {
            task_id,
            tool_call_id,
            error: INTERRUPTED@,
        },
        Some(AssistantEvent::Chunk { .. }) | Some(AssistantEvent::Status { .. }) =>
            LateStep::Ignore,
        _ => LateStep::Stop,
    }
}

/// Listens for what still comes of a turn that was given up.
pub struct LateEvents {
    deadline: Instant,
}

impl LateEvents {
    /// Until when events are listened for.
    pub closed spec fn until(&self) -> Instant {
        self.deadline
    }

    /// Listens for as long as a turn may take, and for no less than a minute.
    pub fn new(turn_budget: Duration, now: Instant) -> (l: LateEvents)
        ensures
            l.until() == later_by(
                now,
                if turn_budget.nanos >= 60_000_000_000 {
                    turn_budget
                } else {
                    Duration { nanos: 60_000_000_000 }
                },
            ),
    {
        let floor = Duration::from_secs(LATE_EVENTS_FLOOR_SECS);
        let cap = if turn_budget.nanos >= floor.nanos {
            turn_budget
        } else {
            floor
        };
        LateEvents { deadline: now.plus(cap) }
    }

    pub fn deadline(&self) -> (t: Instant)
        ensures
            t == self.until(),
    {
        self.deadline
    }

    /// What to do with a late event.
    pub fn on_event(&self, event: Option<AssistantEvent<String>>) -> (step: LateStep<String>)
        ensures
            late_view(step) == late_step(
                match event {
                    Some(e) => Some(assistant_view(e)),
                    None => None,
                },
            ),
    {
        match event {
            Some(AssistantEvent::ClientToolCall { task_id, tool_call_id, .. }) =>
                LateStep::Refuse { task_id, tool_call_id, error: copy_of(INTERRUPTED) },
            Some(AssistantEvent::Chunk { .. }) | Some(AssistantEvent::Status { .. }) =>
                LateStep::Ignore,
            _ => LateStep::Stop,
        }
    }
}

/// No tool call is left without an answer: whichever comes late is refused
/// under its own ids.
pub proof fn law_late_tool_calls_are_answered(
    task_id: Seq<char>,
    tool_call_id: Seq<char>,
    tool_name: Seq<char>,
    arguments: Seq<char>,
)
    ensures
        late_step(
            Some(AssistantEvent::ClientToolCall { task_id, tool_call_id, tool_name, arguments }),
        ) == (LateStep::Refuse { task_id, tool_call_id, error: INTERRUPTED@ }),
{
}

/// What still comes of a turn that was given up: pieces of the reply and notes are
/// passed over; its end, an error of it, or the loss of the connection ends the
/// wait; and only a tool call is answered.
pub proof fn law_what_still_comes(
    request_id: Seq<char>,
    text: Seq<char>,
    event: AssistantEvent<Seq<char>>,
)
    ensures
        late_step(Some(AssistantEvent::Chunk { request_id, text })) is Ignore,
        late_step(Some(AssistantEvent::Status { request_id, message: text })) is Ignore,
        late_step(Some(AssistantEvent::Complete { request_id, full_response: text })) is Stop,
        late_step(Some(AssistantEvent::Error { request_id, error: text })) is Stop,
        late_step(None) is Stop,
        late_step(Some(event)) is Refuse <==> event is ClientToolCall,
        event matches AssistantEvent::ClientToolCall { task_id, tool_call_id, .. } ==> late_step(
            Some(event),
        ) == (LateStep::Refuse { task_id, tool_call_id, error: "voice session interrupted"@ }),
{
}

} // verus!
