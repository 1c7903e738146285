//! Whether the microphone may be open: not while the user's session is in the
//! background.

use vstd::prelude::*;

use crate::text::{copy_of, same_text};

verus! {

/// Says whether capturing is allowed. A gate that cannot tell lets everything
/// through.
#[derive(Debug, Clone, Copy, PartialEq, Eq, Structural)]
pub struct SessionGate {
    watched: Option<bool>,
}

impl SessionGate {
    /// What is known of the session, where it is watched.
    pub closed spec fn known(&self) -> Option<bool> {
        self.watched
    }

    /// A gate that is always open.
    pub fn inert() -> (g: SessionGate)
        ensures
            g.known() is None,
    {
        SessionGate { watched: None }
    }

    /// A gate that follows the session, which is active at first or not.
    pub fn watching(active: bool) -> (g: SessionGate)
        ensures
            g.known() == Some(active),
    {
        SessionGate { watched: Some(active) }
    }

    /// Whether this follows the session at all.
    pub fn is_enabled(&self) -> (b: bool)
        ensures
            b == self.known() is Some,
    {
        self.watched.is_some()
    }

    /// Whether capturing is allowed.
    pub fn is_active(&self) -> (b: bool)
        ensures
            b == (self.known() is None || self.known()->0),
    {
        match self.watched {
            Some(active) => active,
            None => true,
        }
    }

    /// Takes in whether the session is active. An inert gate stays inert.
    pub fn publish(&mut self, active: bool)
        ensures
            final(self).known() == (if old(self).known() is Some {
                Some(active)
            } else {
                None
            }),
    {
        if self.watched.is_some() {
            self.watched = Some(active);
        }
    }
}

/// What could be found out of the session.
#[derive(Debug, Clone, Copy, PartialEq, Eq, Structural)]
pub enum SessionProbe {
    /// There is no session to be found: nothing keeps track of sessions here.
    Absent,
    /// There is one, and it is active or not.
    Known(bool),
    /// There is one, but whether it is active could not be found out.
    Unreadable,
}

/// What to begin with: where there is no session to be found, everything is let
/// through; where there is one that cannot be read, nothing is.
pub fn open_gate(enabled: bool, probe: SessionProbe) -> (g: SessionGate)
    ensures
        g.known() == (if !enabled {
            None
        } else {
            match probe {
                SessionProbe::Absent => None,
                SessionProbe::Known(active) => Some(active),
                SessionProbe::Unreadable => Some(false),
            }
        }),
{
    if !enabled {
        return SessionGate::inert();
    }
    match probe {
        SessionProbe::Absent => SessionGate::inert(),
        SessionProbe::Known(active) => SessionGate::watching(active),
        SessionProbe::Unreadable => SessionGate::watching(false),
    }
}

/// How to ask for the session.
#[derive(Debug, PartialEq, Eq)]
pub enum SessionQuery {
    ById(String),
    ByProcess(u32),
}

/// How to ask for the session: by its id, where the environment gives it, else
/// by this process.
pub fn session_query(id: Option<&str>, pid: u32) -> (q: SessionQuery)
    ensures
        id is Some ==> q is ById && q->ById_0@ == id->0@,
        id is None ==> q == SessionQuery::ByProcess(pid),
{
    match id {
        Some(id) => SessionQuery::ById(copy_of(id)),
        None => SessionQuery::ByProcess(pid),
    }
}

/// What a watch on the session reports.
#[derive(Debug, PartialEq, Eq)]
pub enum WatchEvent {
    /// The watch could not be set up.
    Unwatchable,
    /// A report that could not be read.
    Garbled,
    /// The named properties changed, or have to be read again.
    Changed { changed: Vec<String>, invalidated: Vec<String> },
    /// Whether the session is active, as read.
    Read(bool),
    /// Whether the session is active could not be read.
    ReadFailed,
    /// No more reports come.
    Ended,
}

/// What to do behind a report.
#[derive(Debug, Clone, Copy, PartialEq, Eq, Structural)]
pub enum WatchStep {
    /// Wait for the next report.
    Wait,
    /// Read whether the session is active.
    Read,
    /// Stop watching.
    Stop,
}

/// Whether a text is among others.
pub open spec fn among(texts: Seq<String>, text: Seq<char>) -> bool {
    exists|i: int| 0 <= i < texts.len() && (#[trigger] texts[i])@ == text
}

fn is_among(texts: &Vec<String>, text: &str) -> (b: bool)
    ensures
        b == among(texts@, text@),
{
    let mut i: usize = 0;
    while i < texts.len()
        invariant
            i <= texts@.len(),
            forall|k: int| 0 <= k < i ==> (#[trigger] texts@[k])@ != text@,
        decreases texts@.len() - i,
    {
        if same_text(texts[i].as_str(), text) {
            return true;
        }
        i += 1;
    }
    false
}

/// Whether a report is about the session being active.
pub open spec fn mentions_active(changed: Seq<String>, invalidated: Seq<String>) -> bool {
    among(changed, "Active"@) || among(invalidated, "Active"@)
}

/// Whether the session counts as active behind a report.
pub open spec fn active_after(active: bool, event: WatchEvent) -> bool {
    match event {
        WatchEvent::Garbled | WatchEvent::Changed { .. } => active,
        WatchEvent::Read(read) => read,
        WatchEvent::Unwatchable | WatchEvent::ReadFailed | WatchEvent::Ended => false,
    }
}

/// Takes in a report. Whatever goes wrong forbids capturing; only an answer that
/// the session is active allows it.
pub fn on_report(gate: &mut SessionGate, event: WatchEvent) -> (step: WatchStep)
    requires
        old(gate).known() is Some,
    ensures
        final(gate).known() == Some(active_after(old(gate).known()->0, event)),
        step == (match event {
            WatchEvent::Unwatchable | WatchEvent::Ended => WatchStep::Stop,
            WatchEvent::Changed { changed, invalidated } => if mentions_active(
                changed@,
                invalidated@,
            ) {
                WatchStep::Read
            } else {
                WatchStep::Wait
            },
            _ => WatchStep::Wait,
        }),
{
    match event {
        WatchEvent::Garbled => WatchStep::Wait,
        WatchEvent::Changed { changed, invalidated } => {
            if is_among(&changed, "Active") || is_among(&invalidated, "Active") {
                WatchStep::Read
            } else {
                WatchStep::Wait
            }
        },
        WatchEvent::Read(active) => {
            gate.publish(active);
            WatchStep::Wait
        },
        WatchEvent::ReadFailed => {
            gate.publish(false);
            WatchStep::Wait
        },
        WatchEvent::Unwatchable | WatchEvent::Ended => {
            gate.publish(false);
            WatchStep::Stop
        },
    }
}

// ---------------------------------------------------------------------------
// Laws
// ---------------------------------------------------------------------------

/// Whether the session counts as active behind several reports.
pub open spec fn active_after_all(active: bool, events: Seq<WatchEvent>) -> bool
    decreases events.len(),
{
    if events.len() == 0 {
        active
    } else {
        active_after(active_after_all(active, events.drop_last()), events.last())
    }
}

/// Whether a report says nothing of the session being active.
pub open spec fn says_nothing(event: WatchEvent) -> bool {
    event is Garbled || event is Changed
}

/// The microphone is never open on a guess: where the session counts as active,
/// either it did from the start and nothing was reported of it since, or the
/// last report that said anything was that it is.
pub proof fn law_gate_opens_on_an_answer_alone(active: bool, events: Seq<WatchEvent>)
    requires
        active_after_all(active, events),
    ensures
        (active && forall|i: int| 0 <= i < events.len() ==> says_nothing(#[trigger] events[i]))
            || exists|k: int|
            {
                &&& 0 <= k < events.len()
                &&& #[trigger] events[k] == WatchEvent::Read(true)
                &&& forall|i: int| k < i < events.len() ==> says_nothing(#[trigger] events[i])
            },
    decreases events.len(),
{
    if events.len() > 0 {
        let last = events.len() - 1;
        if says_nothing(events.last()) {
            let before = events.drop_last();
            law_gate_opens_on_an_answer_alone(active, before);
            if !(active && forall|i: int|
                0 <= i < events.len() ==> says_nothing(#[trigger] events[i])) {
                if active && forall|i: int|
                    0 <= i < before.len() ==> says_nothing(#[trigger] before[i]) {
                    assert forall|i: int| 0 <= i < events.len() implies says_nothing(
                        #[trigger] events[i],
                    ) by {
                        if i < last {
                            assert(before[i] == events[i]);
                        }
                    }
                } else {
                    let k = choose|k: int|
                        {
                            &&& 0 <= k < before.len()
                            &&& #[trigger] before[k] == WatchEvent::Read(true)
                            &&& forall|i: int|
                                k < i < before.len() ==> says_nothing(#[trigger] before[i])
                        };
                    assert(events[k] == before[k]);
                    assert forall|i: int| k < i < events.len() implies says_nothing(
                        #[trigger] events[i],
                    ) by {
                        if i < last {
                            assert(before[i] == events[i]);
                        }
                    }
                }
            }
        } else {
            assert(events[last] == WatchEvent::Read(true));
        }
    }
}

/// What each report makes of the session: an answer counts as it is; a report
/// that could not be read, or that only names what changed, changes nothing; a
/// failed reading, a watch that cannot be set up and the end of the reports each
/// make it count as inactive.
pub proof fn law_what_a_report_makes(active: bool, read: bool, event: WatchEvent)
    ensures
        active_after(active, WatchEvent::Read(read)) == read,
        event is Garbled || event is Changed ==> active_after(active, event) == active,
        event is ReadFailed || event is Unwatchable || event is Ended ==> !active_after(
            active,
            event,
        ),
{
}

/// A report calls for a reading exactly where it names `Active` among what changed
/// or what has to be read again.
pub proof fn law_what_calls_for_a_reading(changed: Seq<String>, invalidated: Seq<String>)
    ensures
        mentions_active(changed, invalidated) <==> {
            ||| exists|i: int| 0 <= i < changed.len() && (#[trigger] changed[i])@ == "Active"@
            ||| exists|i: int|
                0 <= i < invalidated.len() && (#[trigger] invalidated[i])@ == "Active"@
        },
{
}

} // verus!
