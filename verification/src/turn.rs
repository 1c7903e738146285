//! One turn of the conversation while the response streams in: what is spoken
//! when, and what ends the turn.

use vstd::prelude::*;

use crate::assistant::{assistant_view, AssistantEvent};
use crate::config::TurnTimeouts;
use crate::phrases::{
    is_error_response, law_what_an_error_report_is, reports_error, spells_llm_error, ERROR_APOLOGY,
    LIVENESS_PHRASE, STALL_APOLOGY,
};
use crate::sentence_buffer::{
    is_clause_cut, is_short_ack, last_clause_cut, law_no_text_is_lost, pause_ends_at, remainder,
    sentences, visible, visible_all, SentenceBuffer,
};
use crate::text::{
    all_texts, blank_text, copy_of, is_blank, lemma_trimmed_blank, same_text, trim_start,
    trim_text, trimmed,
};
use crate::time::{elapsed, later_by, Duration, Instant};

verus! {

/// What the user asked to stop.
#[derive(Debug, Clone, Copy, PartialEq, Eq, Structural)]
pub enum StopRequest {
    /// The speech; the conversation stays.
    Speaking,
    /// The conversation.
    Conversation,
}

/// Something to do while a turn streams. `S` holds text.
#[derive(Debug, PartialEq, Eq)]
pub enum TurnEffect<S> {
    /// Note that the response has begun.
    Begin,
    /// Show a piece of the reply and speak it. The turn fails where that does.
    Reply(S),
    /// Speak a line. The turn fails where that does.
    Say(S),
    /// Speak a line if that works.
    TrySay(S),
    /// Silence the speaker.
    StopPlayback,
    /// Run a tool and answer the call.
    RunTool { task_id: S, tool_call_id: S, tool_name: S, arguments: S },
}

/// How a turn ends. `B` holds samples, `S` text.
#[derive(Debug, PartialEq, Eq)]
pub enum StreamEnd<B, S> {
    /// The response ended, one way or another.
    Completed,
    /// The user asked to stop.
    Stopped(StopRequest),
    /// The user spoke over the response.
    BargedIn(B),
    /// The user pressed push-to-talk, for the conversation given.
    PttPressed(Option<S>),
}

/// What a step of the turn does, and how the turn ends, if it does.
#[derive(Debug, PartialEq, Eq)]
pub struct TurnStep<T> {
    pub effects: Vec<TurnEffect<String>>,
    pub end: Option<StreamEnd<Vec<T>, String>>,
}

/// What a step does, on characters and samples.
#[verifier::ext_equal]
pub struct TurnStepView<T> {
    pub effects: Seq<TurnEffect<Seq<char>>>,
    pub end: Option<StreamEnd<Seq<T>, Seq<char>>>,
}

pub open spec fn effect_view(e: TurnEffect<String>) -> TurnEffect<Seq<char>> {
    match e {
        TurnEffect::Begin => TurnEffect::Begin,
        TurnEffect::Reply(s) => TurnEffect::Reply(s@),
        TurnEffect::Say(s) => TurnEffect::Say(s@),
        TurnEffect::TrySay(s) => TurnEffect::TrySay(s@),
        TurnEffect::StopPlayback => TurnEffect::StopPlayback,
        TurnEffect::RunTool { task_id, tool_call_id, tool_name, arguments } =>
            TurnEffect::RunTool {
            task_id: task_id@,
            tool_call_id: tool_call_id@,
            tool_name: tool_name@,
            arguments: arguments@,
        },
    }
}

pub open spec fn effect_views(v: Seq<TurnEffect<String>>) -> Seq<TurnEffect<Seq<char>>> {
    v.map_values(|e: TurnEffect<String>| effect_view(e))
}

pub open spec fn end_view<T>(e: StreamEnd<Vec<T>, String>) -> StreamEnd<Seq<T>, Seq<char>> {
    match e {
        StreamEnd::Completed => StreamEnd::Completed,
        StreamEnd::Stopped(r) => StreamEnd::Stopped(r),
        StreamEnd::BargedIn(chunk) => StreamEnd::BargedIn(chunk@),
        StreamEnd::PttPressed(Some(t)) => StreamEnd::PttPressed(Some(t@)),
        StreamEnd::PttPressed(None) => StreamEnd::PttPressed(None),
    }
}

impl<T> View for TurnStep<T> {
    type V = TurnStepView<T>;

    open spec fn view(&self) -> TurnStepView<T> {
        TurnStepView {
            effects: effect_views(self.effects@),
            end: match self.end {
                Some(e) => Some(end_view(e)),
                None => None,
            },
        }
    }
}

/// How many words an acknowledgement has at most.
pub const ACK_MAX_WORDS: usize = 8;

/// How long the stream of a reply may pause within a sentence, in milliseconds.
pub const SENTENCE_TIMEOUT_MS: u64 = 500;

// ---------------------------------------------------------------------------
// What a turn holds, and what each event does to it
// ---------------------------------------------------------------------------

/// What a streaming turn holds.
#[verifier::ext_equal]
pub struct TurnView {
    /// The request whose events count.
    pub request_id: Seq<char>,
    /// The part of the reply that is not spoken yet.
    pub text: Seq<char>,
    /// Since when no more of it came, if more is awaited.
    pub quiet_since: Option<Instant>,
    /// How long that may last.
    pub quiet_limit: Duration,
    /// Whether nothing of the reply came yet.
    pub first_chunk: bool,
    /// When a progress note was last spoken.
    pub last_status_at: Option<Instant>,
    /// When the turn has lasted too long.
    pub deadline: Option<Instant>,
    /// When the last event came.
    pub last_event_at: Instant,
    /// When to give a sign of life.
    pub liveness_at: Option<Instant>,
    /// Whether one was given.
    pub liveness_spoken: bool,
    /// Whether audio is still captured.
    pub audio_alive: bool,
}

/// Nothing to do.
pub open spec fn no_step<T>() -> TurnStepView<T> {
    TurnStepView { effects: Seq::empty(), end: None }
}

/// The turn is over behind these effects.
pub open spec fn done_with<T>(effects: Seq<TurnEffect<Seq<char>>>) -> TurnStepView<T> {
    TurnStepView { effects, end: Some(StreamEnd::Completed) }
}

/// These effects, and the turn goes on.
pub open spec fn go_on_with<T>(effects: Seq<TurnEffect<Seq<char>>>) -> TurnStepView<T> {
    TurnStepView { effects, end: None }
}

/// The note that the response has begun, where it is due.
pub open spec fn begin_if(first: bool) -> Seq<TurnEffect<Seq<char>>> {
    if first {
        seq![TurnEffect::Begin]
    } else {
        Seq::empty()
    }
}

/// Each of several pieces of the reply.
pub open spec fn replies(texts: Seq<Seq<char>>) -> Seq<TurnEffect<Seq<char>>> {
    texts.map_values(|t: Seq<char>| TurnEffect::Reply(t))
}

/// A piece of the reply, where there is anything to it.
pub open spec fn reply_if_any(text: Seq<char>) -> Seq<TurnEffect<Seq<char>>> {
    if text.len() > 0 {
        seq![TurnEffect::Reply(text)]
    } else {
        Seq::empty()
    }
}

pub open spec fn apology() -> Seq<TurnEffect<Seq<char>>> {
    seq![TurnEffect::Begin, TurnEffect::Say(ERROR_APOLOGY@)]
}

pub open spec fn stall_apology() -> Seq<TurnEffect<Seq<char>>> {
    seq![TurnEffect::Begin, TurnEffect::TrySay(STALL_APOLOGY@)]
}

impl TurnView {
    /// A turn that has just begun.
    pub open spec fn started(request_id: Seq<char>, limits: TurnTimeouts, now: Instant) -> TurnView {
        TurnView {
            request_id,
            text: Seq::empty(),
            quiet_since: None,
            quiet_limit: Duration { nanos: 500_000_000 },
            first_chunk: true,
            last_status_at: None,
            deadline: if limits.turn_budget.nanos == 0 {
                None
            } else {
                Some(later_by(now, limits.turn_budget))
            },
            last_event_at: now,
            liveness_at: if limits.liveness_delay.nanos == 0 {
                None
            } else {
                Some(later_by(now, limits.liveness_delay))
            },
            liveness_spoken: false,
            audio_alive: true,
        }
    }

    /// The turn behind an event that came at `now`.
    pub open spec fn progressed(self, now: Instant) -> TurnView {
        TurnView { last_event_at: now, ..self }
    }

    /// The turn behind a piece of the reply.
    pub open spec fn after_chunk(self, chunk: Seq<char>, now: Instant) -> TurnView {
        let left = remainder(self.text + chunk);
        if self.first_chunk && reports_error(chunk) {
            self
        } else if is_short_ack(left, ACK_MAX_WORDS as nat) {
            TurnView { text: Seq::empty(), quiet_since: None, first_chunk: false, ..self }
        } else {
            TurnView { text: left, quiet_since: Some(now), first_chunk: false, ..self }
        }
    }

    /// What a piece of the reply calls for: its sentences, and an
    /// acknowledgement behind them as soon as it is complete. An error report
    /// in place of a reply is not read aloud.
    pub open spec fn on_chunk<T>(self, chunk: Seq<char>) -> TurnStepView<T> {
        let whole = self.text + chunk;
        let left = remainder(whole);
        if self.first_chunk && reports_error(chunk) {
            done_with(apology())
        } else {
            go_on_with(
                begin_if(self.first_chunk) + replies(sentences(whole)) + (if is_short_ack(
                    left,
                    ACK_MAX_WORDS as nat,
                ) {
                    seq![TurnEffect::Reply(trimmed(left))]
                } else {
                    Seq::empty()
                }),
            )
        }
    }

    /// Whether a progress note is spoken at `now`: the first one is, the next
    /// ones only if the last one was long enough ago.
    pub open spec fn narrates(self, message: Seq<char>, now: Instant, gap: Duration) -> bool {
        &&& !is_blank(message)
        &&& self.last_status_at is None || elapsed(self.last_status_at->0, now) >= gap.nanos
    }

    pub open spec fn after_status(self, message: Seq<char>, now: Instant, gap: Duration) -> TurnView {
        if self.narrates(message, now, gap) {
            TurnView { last_status_at: Some(now), ..self }
        } else {
            self
        }
    }

    pub open spec fn on_status<T>(self, message: Seq<char>, now: Instant, gap: Duration) -> TurnStepView<
        T,
    > {
        if self.narrates(message, now, gap) {
            go_on_with(begin_if(self.first_chunk) + seq![TurnEffect::Say(trimmed(message))])
        } else {
            no_step()
        }
    }

    /// What the end of the response calls for: the rest of the reply; or, where
    /// nothing of it was streamed, all of it.
    pub open spec fn on_complete<T>(self, full_response: Seq<char>) -> TurnStepView<T> {
        let whole = self.text + full_response;
        if !is_blank(self.text) {
            done_with(seq![TurnEffect::Reply(trimmed(self.text))])
        } else if self.first_chunk && !is_blank(full_response) {
            if reports_error(full_response) {
                done_with(apology())
            } else {
                done_with(
                    begin_if(true) + replies(sentences(whole)) + reply_if_any(
                        trimmed(remainder(whole)),
                    ),
                )
            }
        } else {
            done_with(Seq::empty())
        }
    }

    pub open spec fn after_complete(self, full_response: Seq<char>) -> TurnView {
        if !is_blank(self.text) || (self.first_chunk && !is_blank(full_response) && !reports_error(
            full_response,
        )) {
            TurnView { text: Seq::empty(), quiet_since: None, ..self }
        } else {
            self
        }
    }

    /// What an event of the assistant calls for. Those of other requests call
    /// for nothing, but a tool call belongs to no request.
    pub open spec fn on_event<T>(
        self,
        event: AssistantEvent<Seq<char>>,
        now: Instant,
        gap: Duration,
    ) -> TurnStepView<T> {
        match event {
            AssistantEvent::Chunk { request_id, text } => if request_id == self.request_id {
                self.on_chunk(text)
            } else {
                no_step()
            },
            AssistantEvent::Status { request_id, message } => if request_id == self.request_id {
                self.on_status(message, now, gap)
            } else {
                no_step()
            },
            AssistantEvent::Complete { request_id, full_response } => if request_id
                == self.request_id {
                self.on_complete(full_response)
            } else {
                no_step()
            },
            AssistantEvent::Error { request_id, .. } => if request_id == self.request_id {
                done_with(apology())
            } else {
                no_step()
            },
            AssistantEvent::ClientToolCall { task_id, tool_call_id, tool_name, arguments } =>
                go_on_with(
                seq![TurnEffect::RunTool { task_id, tool_call_id, tool_name, arguments }],
            ),
        }
    }

    /// The turn behind an event of the assistant.
    pub open spec fn after_event(
        self,
        event: AssistantEvent<Seq<char>>,
        now: Instant,
        gap: Duration,
    ) -> TurnView {
        let v = self.progressed(now);
        match event {
            AssistantEvent::Chunk { request_id, text } => if request_id == self.request_id {
                v.after_chunk(text, now)
            } else {
                v
            },
            AssistantEvent::Status { request_id, message } => if request_id == self.request_id {
                v.after_status(message, now, gap)
            } else {
                v
            },
            AssistantEvent::Complete { request_id, full_response } => if request_id
                == self.request_id {
                v.after_complete(full_response)
            } else {
                v
            },
            _ => v,
        }
    }

    /// Whether what is buffered has waited for long enough to be spoken.
    pub open spec fn flush_due(self, now: Instant) -> bool {
        &&& self.quiet_since is Some
        &&& elapsed(self.quiet_since->0, now) >= self.quiet_limit.nanos
        &&& !is_blank(self.text)
    }

    pub open spec fn on_tick<T>(self, now: Instant) -> TurnStepView<T> {
        if self.flush_due(now) {
            match last_clause_cut(self.text, self.text.len() - 1) {
                Some(p) => go_on_with(seq![TurnEffect::Reply(trimmed(self.text.take(p)))]),
                None => go_on_with(seq![TurnEffect::Reply(trimmed(self.text))]),
            }
        } else {
            no_step()
        }
    }

    pub open spec fn after_tick(self, now: Instant) -> TurnView {
        if self.flush_due(now) {
            match last_clause_cut(self.text, self.text.len() - 1) {
                Some(p) => TurnView {
                    text: trim_start(self.text.skip(p)),
                    quiet_since: Some(now),
                    ..self
                },
                None => TurnView { text: Seq::empty(), quiet_since: None, ..self },
            }
        } else {
            self
        }
    }

    /// Whether a sign of life is still called for, should nothing happen.
    pub open spec fn liveness_armed(self) -> bool {
        &&& self.liveness_at is Some
        &&& !self.liveness_spoken
        &&& self.first_chunk
        &&& self.last_status_at is None
    }

    pub open spec fn liveness_due(self, now: Instant) -> bool {
        self.liveness_armed() && now.nanos >= self.liveness_at->0.nanos
    }

    pub open spec fn over_budget(self, now: Instant) -> bool {
        self.deadline is Some && now.nanos >= self.deadline->0.nanos
    }

    /// How long the next event may take to come, counted from `now`.
    pub open spec fn patience(self, now: Instant, stall: Duration) -> nat {
        if stall.nanos == 0 {
            86_400_000_000_000
        } else if elapsed(self.last_event_at, now) >= stall.nanos {
            0
        } else {
            (stall.nanos - elapsed(self.last_event_at, now)) as nat
        }
    }
}

// ---------------------------------------------------------------------------
// The turn
// ---------------------------------------------------------------------------

/// A turn whose response streams in.
pub struct TurnStream {
    request_id: String,
    sentence_buf: SentenceBuffer,
    first_chunk: bool,
    last_status_spoken_at: Option<Instant>,
    turn_deadline: Option<Instant>,
    last_event_at: Instant,
    liveness_deadline: Option<Instant>,
    liveness_spoken: bool,
    audio_alive: bool,
}

impl View for TurnStream {
    type V = TurnView;

    closed spec fn view(&self) -> TurnView {
        TurnView {
            request_id: self.request_id@,
            text: self.sentence_buf.text(),
            quiet_since: self.sentence_buf.quiet_since(),
            quiet_limit: self.sentence_buf.quiet_limit(),
            first_chunk: self.first_chunk,
            last_status_at: self.last_status_spoken_at,
            deadline: self.turn_deadline,
            last_event_at: self.last_event_at,
            liveness_at: self.liveness_deadline,
            liveness_spoken: self.liveness_spoken,
            audio_alive: self.audio_alive,
        }
    }
}

fn push_effect(out: &mut Vec<TurnEffect<String>>, e: TurnEffect<String>)
    ensures
        effect_views(final(out)@) == effect_views(old(out)@).push(effect_view(e)),
{
    let ghost before = out@;
    out.push(e);
    proof {
        assert(effect_views(out@) =~= effect_views(before).push(effect_view(e)));
    }
}

fn push_replies(out: &mut Vec<TurnEffect<String>>, texts: &Vec<String>)
    ensures
        effect_views(final(out)@) == effect_views(old(out)@) + replies(all_texts(texts@)),
{
    let ghost before = effect_views(out@);
    let ghost all = replies(all_texts(texts@));
    let mut i: usize = 0;
    proof {
        assert(before + all.take(0) =~= before);
    }
    while i < texts.len()
        invariant
            i <= texts@.len(),
            all == replies(all_texts(texts@)),
            effect_views(out@) == before + all.take(i as int),
        decreases texts@.len() - i,
    {
        push_effect(out, TurnEffect::Reply(copy_of(texts[i].as_str())));
        proof {
            assert(before + all.take(i as int + 1) =~= (before + all.take(i as int)).push(
                all[i as int],
            ));
        }
        i += 1;
    }
    proof {
        assert(all.take(all.len() as int) =~= all);
    }
}

fn begun(first: bool) -> (out: Vec<TurnEffect<String>>)
    ensures
        effect_views(out@) == begin_if(first),
{
    let mut out: Vec<TurnEffect<String>> = Vec::new();
    proof {
        assert(effect_views(out@) =~= Seq::<TurnEffect<Seq<char>>>::empty());
    }
    if first {
        push_effect(&mut out, TurnEffect::Begin);
        proof {
            assert(effect_views(out@) =~= begin_if(first));
        }
    }
    out
}

fn step_none<T>() -> (s: TurnStep<T>)
    ensures
        s@ == no_step::<T>(),
{
    let s = TurnStep { effects: Vec::new(), end: None };
    proof {
        assert(s@ =~= no_step::<T>());
    }
    s
}

fn step_apology<T>() -> (s: TurnStep<T>)
    ensures
        s@ == done_with::<T>(apology()),
{
    let mut effects = begun(true);
    push_effect(&mut effects, TurnEffect::Say(copy_of(ERROR_APOLOGY)));
    proof {
        assert(effect_views(effects@) =~= apology());
    }
    TurnStep { effects, end: Some(StreamEnd::Completed) }
}

fn step_stall_apology<T>() -> (s: TurnStep<T>)
    ensures
        s@ == done_with::<T>(stall_apology()),
{
    let mut effects = begun(true);
    push_effect(&mut effects, TurnEffect::TrySay(copy_of(STALL_APOLOGY)));
    proof {
        assert(effect_views(effects@) =~= stall_apology());
    }
    TurnStep { effects, end: Some(StreamEnd::Completed) }
}

fn stop_and<T>(end: StreamEnd<Vec<T>, String>) -> (s: TurnStep<T>)
    ensures
        s@.effects == seq![TurnEffect::<Seq<char>>::StopPlayback],
        s@.end == Some(end_view(end)),
{
    let mut effects = begun(false);
    push_effect(&mut effects, TurnEffect::StopPlayback);
    proof {
        assert(effect_views(effects@) =~= seq![TurnEffect::<Seq<char>>::StopPlayback]);
    }
    TurnStep { effects, end: Some(end) }
}

impl TurnStream {
    /// Begins a turn.
    pub fn new(request_id: String, limits: &TurnTimeouts, now: Instant) -> (t: TurnStream)
        ensures
            t@ == TurnView::started(request_id@, *limits, now),
    {
        TurnStream {
            request_id,
            sentence_buf: SentenceBuffer::new(Duration::from_millis(SENTENCE_TIMEOUT_MS)),
            first_chunk: true,
            last_status_spoken_at: None,
            turn_deadline: if limits.turn_budget.is_zero() {
                None
            } else {
                Some(now.plus(limits.turn_budget))
            },
            last_event_at: now,
            liveness_deadline: if limits.liveness_delay.is_zero() {
                None
            } else {
                Some(now.plus(limits.liveness_delay))
            },
            liveness_spoken: false,
            audio_alive: true,
        }
    }

    /// How long to wait for the next event before the turn counts as stalled.
    pub fn stall_wait(&self, now: Instant, limits: &TurnTimeouts) -> (d: Duration)
        ensures
            d.nanos == self@.patience(now, limits.response_stall),
    {
        if limits.response_stall.is_zero() {
            Duration::from_secs(86_400)
        } else {
            let waited = now.duration_since(self.last_event_at);
            if waited.nanos >= limits.response_stall.nanos {
                Duration { nanos: 0 }
            } else {
                Duration { nanos: limits.response_stall.nanos - waited.nanos }
            }
        }
    }

    /// When to give a sign of life, should nothing happen until then.
    pub fn liveness_deadline(&self) -> (d: Option<Instant>)
        ensures
            d == (if self@.liveness_armed() {
                self@.liveness_at
            } else {
                None
            }),
    {
        if !self.liveness_spoken && self.first_chunk && self.last_status_spoken_at.is_none() {
            self.liveness_deadline
        } else {
            None
        }
    }

    /// Whether captured audio is still listened to.
    pub fn hears_audio(&self) -> (b: bool)
        ensures
            b == self@.audio_alive,
    {
        self.audio_alive
    }

    /// Takes in an event of the assistant.
    pub fn on_event<T>(
        &mut self,
        event: AssistantEvent<String>,
        now: Instant,
        limits: &TurnTimeouts,
    ) -> (s: TurnStep<T>)
        ensures
            s@ == old(self)@.on_event::<T>(
                assistant_view(event),
                now,
                limits.status_narration_min_gap,
            ),
            final(self)@ == old(self)@.after_event(
                assistant_view(event),
                now,
                limits.status_narration_min_gap,
            ),
    {
        self.last_event_at = now;
        match event {
            AssistantEvent::Chunk { request_id, text } => {
                if same_text(request_id.as_str(), self.request_id.as_str()) {
                    self.on_chunk(text.as_str(), now)
                } else {
                    step_none()
                }
            },
            AssistantEvent::Status { request_id, message } => {
                if same_text(request_id.as_str(), self.request_id.as_str()) {
                    self.maybe_narrate_status(
                        message.as_str(),
                        now,
                        limits.status_narration_min_gap,
                    )
                } else {
                    step_none()
                }
            },
            AssistantEvent::Complete { request_id, full_response } => {
                if same_text(request_id.as_str(), self.request_id.as_str()) {
                    self.on_complete(full_response.as_str(), now)
                } else {
                    step_none()
                }
            },
            AssistantEvent::Error { request_id, .. } => {
                if same_text(request_id.as_str(), self.request_id.as_str()) {
                    step_apology()
                } else {
                    step_none()
                }
            },
            AssistantEvent::ClientToolCall { task_id, tool_call_id, tool_name, arguments } => {
                let ghost call = TurnEffect::RunTool {
                    task_id: task_id@,
                    tool_call_id: tool_call_id@,
                    tool_name: tool_name@,
                    arguments: arguments@,
                };
                let mut effects = begun(false);
                push_effect(
                    &mut effects,
                    TurnEffect::RunTool { task_id, tool_call_id, tool_name, arguments },
                );
                proof {
                    assert(effect_views(effects@) =~= seq![call]);
                }
                TurnStep { effects, end: None }
            },
        }
    }

    fn on_chunk<T>(&mut self, text: &str, now: Instant) -> (s: TurnStep<T>)
        ensures
            s@ == old(self)@.on_chunk::<T>(text@),
            final(self)@ == old(self)@.after_chunk(text@, now),
    {
        if self.first_chunk && is_error_response(text) {
            return step_apology();
        }
        let ghost whole = self@.text + text@;
        let ghost first = self.first_chunk;
        let mut effects = begun(self.first_chunk);
        self.first_chunk = false;
        let said = self.sentence_buf.push_at(text, now);
        push_replies(&mut effects, &said);
        let ghost so_far = effect_views(effects@);
        let ack = self.sentence_buf.take_leading_ack(ACK_MAX_WORDS);
        if let Some(ack) = ack {
            push_effect(&mut effects, TurnEffect::Reply(ack));
        }
        proof {
            let tail = if is_short_ack(remainder(whole), ACK_MAX_WORDS as nat) {
                seq![TurnEffect::Reply(trimmed(remainder(whole)))]
            } else {
                Seq::empty()
            };
            assert(effect_views(effects@) =~= begin_if(first) + replies(sentences(whole)) + tail);
        }
        TurnStep { effects, end: None }
    }

    fn maybe_narrate_status<T>(&mut self, message: &str, now: Instant, gap: Duration) -> (s: TurnStep<
        T,
    >)
        ensures
            s@ == old(self)@.on_status::<T>(message@, now, gap),
            final(self)@ == old(self)@.after_status(message@, now, gap),
    {
        if blank_text(message) {
            return step_none();
        }
        let should_speak = match self.last_status_spoken_at {
            None => true,
            Some(prev) => now.duration_since(prev).nanos >= gap.nanos,
        };
        if !should_speak {
            return step_none();
        }
        let ghost first = self.first_chunk;
        let mut effects = begun(self.first_chunk);
        self.last_status_spoken_at = Some(now);
        push_effect(&mut effects, TurnEffect::Say(trim_text(message)));
        proof {
            assert(effect_views(effects@) =~= begin_if(first) + seq![
                TurnEffect::Say(trimmed(message@)),
            ]);
        }
        TurnStep { effects, end: None }
    }

    fn on_complete<T>(&mut self, full_response: &str, now: Instant) -> (s: TurnStep<T>)
        ensures
            s@ == old(self)@.on_complete::<T>(full_response@),
            final(self)@ == old(self)@.after_complete(full_response@),
    {
        if self.sentence_buf.has_content() {
            let ghost text = self@.text;
            let mut effects = begun(false);
            let remaining = self.sentence_buf.flush();
            push_effect(&mut effects, TurnEffect::Reply(remaining));
            proof {
                assert(effect_views(effects@) =~= seq![TurnEffect::Reply(trimmed(text))]);
            }
            return TurnStep { effects, end: Some(StreamEnd::Completed) };
        }
        if self.first_chunk && !blank_text(full_response) {
            if is_error_response(full_response) {
                return step_apology();
            }
            let ghost whole = self@.text + full_response@;
            let mut effects = begun(true);
            let said = self.sentence_buf.push_at(full_response, now);
            push_replies(&mut effects, &said);
            let ghost so_far = effect_views(effects@);
            let remaining = self.sentence_buf.flush();
            let ghost rest = remaining@;
            if !remaining.as_str().is_empty() {
                push_effect(&mut effects, TurnEffect::Reply(remaining));
            }
            proof {
                assert(effect_views(effects@) =~= begin_if(true) + replies(sentences(whole))
                    + reply_if_any(rest));
            }
            return TurnStep { effects, end: Some(StreamEnd::Completed) };
        }
        let effects = begun(false);
        TurnStep { effects, end: Some(StreamEnd::Completed) }
    }

    /// Takes in that the assistant's events ended before the response did.
    pub fn on_closed<T>(&mut self, now: Instant) -> (s: TurnStep<T>)
        ensures
            s@ == (if old(self)@.first_chunk {
                done_with::<T>(apology())
            } else {
                done_with::<T>(Seq::empty())
            }),
            final(self)@ == old(self)@.progressed(now),
    {
        self.last_event_at = now;
        if self.first_chunk {
            step_apology()
        } else {
            let effects = begun(false);
            TurnStep { effects, end: Some(StreamEnd::Completed) }
        }
    }

    /// Takes in that no event came for as long as the turn waits for one.
    pub fn on_stalled<T>(&self) -> (s: TurnStep<T>)
        ensures
            s@ == done_with::<T>(stall_apology()),
    {
        step_stall_apology()
    }

    /// Takes in that the user asked to stop.
    pub fn on_stop<T>(&self, request: StopRequest) -> (s: TurnStep<T>)
        ensures
            s@.effects == seq![TurnEffect::<Seq<char>>::StopPlayback],
            s@.end == Some(StreamEnd::<Seq<T>, Seq<char>>::Stopped(request)),
    {
        stop_and(StreamEnd::Stopped(request))
    }

    /// Takes in that push-to-talk was pressed.
    pub fn on_ptt<T>(&self, target: Option<String>) -> (s: TurnStep<T>)
        ensures
            s@.effects == seq![TurnEffect::<Seq<char>>::StopPlayback],
            s@.end == Some(
                StreamEnd::<Seq<T>, Seq<char>>::PttPressed(
                    match target {
                        Some(t) => Some(t@),
                        None => None,
                    },
                ),
            ),
    {
        stop_and(StreamEnd::PttPressed(target))
    }

    /// Takes in captured audio. `heard` is its speech level where anything is
    /// playing, which is when the user can speak over it.
    pub fn on_audio<T>(&self, chunk: Vec<T>, heard: Option<i32>, threshold: i32) -> (s: TurnStep<T>)
        ensures
            heard is Some && heard->0 >= threshold ==> {
                &&& s@.effects == seq![TurnEffect::<Seq<char>>::StopPlayback]
                &&& s@.end == Some(StreamEnd::<Seq<T>, Seq<char>>::BargedIn(chunk@))
            },
            heard is None || heard->0 < threshold ==> s@ == no_step::<T>(),
    {
        match heard {
            Some(level) if level >= threshold => stop_and(StreamEnd::BargedIn(chunk)),
            _ => step_none(),
        }
    }

    /// Takes in that no more audio is captured. The turn goes on without it.
    pub fn on_audio_closed(&mut self)
        ensures
            final(self)@ == (TurnView { audio_alive: false, ..old(self)@ }),
    {
        self.audio_alive = false;
    }

    /// Looks whether buffered text has waited for long enough.
    pub fn on_tick<T>(&mut self, now: Instant) -> (s: TurnStep<T>)
        ensures
            s@ == old(self)@.on_tick::<T>(now),
            final(self)@ == old(self)@.after_tick(now),
    {
        let ghost before = self@;
        match self.sentence_buf.flush_if_timeout_at(now) {
            Some(sentence) => {
                let ghost said = sentence@;
                let mut effects = begun(false);
                push_effect(&mut effects, TurnEffect::Reply(sentence));
                proof {
                    assert(effect_views(effects@) =~= seq![TurnEffect::Reply(said)]);
                    assert(before.flush_due(now));
                }
                TurnStep { effects, end: None }
            },
            None => step_none(),
        }
    }

    /// Looks whether a sign of life is due.
    pub fn on_liveness<T>(&mut self, now: Instant) -> (s: TurnStep<T>)
        ensures
            s@ == (if old(self)@.liveness_due(now) {
                go_on_with::<T>(seq![TurnEffect::Begin, TurnEffect::Say(LIVENESS_PHRASE@)])
            } else {
                no_step::<T>()
            }),
            final(self)@ == (TurnView {
                liveness_spoken: old(self)@.liveness_spoken || old(self)@.liveness_due(now),
                ..old(self)@
            }),
    {
        let due = match self.liveness_deadline() {
            Some(d) => now.nanos >= d.nanos,
            None => false,
        };
        if !due {
            return step_none();
        }
        self.liveness_spoken = true;
        let mut effects = begun(true);
        push_effect(&mut effects, TurnEffect::Say(copy_of(LIVENESS_PHRASE)));
        proof {
            assert(effect_views(effects@) =~= seq![
                TurnEffect::Begin,
                TurnEffect::Say(LIVENESS_PHRASE@),
            ]);
        }
        TurnStep { effects, end: None }
    }

    /// Looks whether the turn has lasted too long.
    pub fn check_budget<T>(&self, now: Instant) -> (s: TurnStep<T>)
        ensures
            s@ == (if self@.over_budget(now) {
                done_with::<T>(stall_apology())
            } else {
                no_step::<T>()
            }),
    {
        match self.turn_deadline {
            Some(deadline) if now.nanos >= deadline.nanos => step_stall_apology(),
            _ => step_none(),
        }
    }
}

// ---------------------------------------------------------------------------
// Laws
// ---------------------------------------------------------------------------

/// Whether the event belongs to another request.
pub open spec fn is_foreign(v: TurnView, event: AssistantEvent<Seq<char>>) -> bool {
    match event {
        AssistantEvent::Chunk { request_id, .. } => request_id != v.request_id,
        AssistantEvent::Status { request_id, .. } => request_id != v.request_id,
        AssistantEvent::Complete { request_id, .. } => request_id != v.request_id,
        AssistantEvent::Error { request_id, .. } => request_id != v.request_id,
        AssistantEvent::ClientToolCall { .. } => false,
    }
}

/// Events of other requests neither do anything nor end the turn.
pub proof fn law_foreign_events_are_ignored<T>(
    v: TurnView,
    event: AssistantEvent<Seq<char>>,
    now: Instant,
    gap: Duration,
)
    requires
        is_foreign(v, event),
    ensures
        v.on_event::<T>(event, now, gap) == no_step::<T>(),
        v.after_event(event, now, gap) == v.progressed(now),
{
}

/// Every event restarts the wait for the next one, so a turn that makes
/// progress never counts as stalled; no event moves the end of its budget.
pub proof fn law_every_event_is_progress(
    v: TurnView,
    event: AssistantEvent<Seq<char>>,
    now: Instant,
    gap: Duration,
    stall: Duration,
)
    requires
        stall.nanos > 0,
    ensures
        v.after_event(event, now, gap).patience(now, stall) == stall.nanos,
        v.after_event(event, now, gap).deadline == v.deadline,
{
}

/// Waiting alone never restarts that wait, nor does speaking text that has
/// waited: the patience left only shrinks.
pub proof fn law_waiting_is_no_progress(v: TurnView, now: Instant, later: Instant, stall: Duration)
    requires
        stall.nanos > 0,
        now.nanos <= later.nanos,
    ensures
        v.after_tick(now).patience(later, stall) == v.patience(later, stall) <= v.patience(now, stall),
        v.after_tick(now).deadline == v.deadline,
{
}

/// A sign of life is given at most once, and never once a piece of the reply
/// came or a progress note was spoken.
pub proof fn law_sign_of_life_comes_at_most_once(
    v: TurnView,
    event: AssistantEvent<Seq<char>>,
    now: Instant,
    gap: Duration,
)
    ensures
        v.liveness_spoken ==> !v.liveness_armed(),
        v.liveness_spoken ==> v.after_event(event, now, gap).liveness_spoken && v.after_tick(
            now,
        ).liveness_spoken,
        !v.liveness_armed() ==> !v.after_event(event, now, gap).liveness_armed() && !v.after_tick(
            now,
        ).liveness_armed(),
        !v.first_chunk || v.last_status_at is Some ==> !v.liveness_armed(),
{
}

/// Two progress notes are never spoken closer together than the gap; the first
/// one is spoken at once.
pub proof fn law_progress_notes_are_rate_limited(
    v: TurnView,
    first: Seq<char>,
    then: Instant,
    second: Seq<char>,
    now: Instant,
    gap: Duration,
)
    ensures
        v.last_status_at is None && !is_blank(first) ==> v.narrates(first, then, gap),
        v.narrates(first, then, gap) && v.after_status(first, then, gap).narrates(second, now, gap)
            ==> elapsed(then, now) >= gap.nanos,
{
}

/// The visible characters of the pieces of the reply among the effects.
pub open spec fn visible_replies(effects: Seq<TurnEffect<Seq<char>>>) -> Seq<char>
    decreases effects.len(),
{
    if effects.len() == 0 {
        Seq::empty()
    } else {
        (match effects[0] {
            TurnEffect::Reply(t) => visible(t),
            _ => Seq::empty(),
        }) + visible_replies(effects.skip(1))
    }
}

proof fn lemma_visible_replies_append(
    a: Seq<TurnEffect<Seq<char>>>,
    b: Seq<TurnEffect<Seq<char>>>,
)
    ensures
        visible_replies(a + b) == visible_replies(a) + visible_replies(b),
    decreases a.len(),
{
    if a.len() == 0 {
        assert(a + b =~= b);
        assert(visible_replies(a) + visible_replies(b) =~= visible_replies(b));
    } else {
        assert((a + b)[0] == a[0]);
        assert((a + b).skip(1) =~= a.skip(1) + b);
        lemma_visible_replies_append(a.skip(1), b);
        assert(visible_replies(a + b) =~= visible_replies(a) + visible_replies(b));
    }
}

proof fn lemma_visible_of_replies(texts: Seq<Seq<char>>)
    ensures
        visible_replies(replies(texts)) == visible_all(texts),
    decreases texts.len(),
{
    if texts.len() > 0 {
        assert(replies(texts)[0] == TurnEffect::Reply(texts[0]));
        assert(replies(texts).skip(1) =~= replies(texts.skip(1)));
        lemma_visible_of_replies(texts.skip(1));
    }
}

proof fn lemma_visible_of_one(text: Seq<char>)
    ensures
        visible_replies(seq![TurnEffect::Reply(text)]) == visible(text),
{
    let one = seq![TurnEffect::Reply(text)];
    assert(one.skip(1) =~= Seq::<TurnEffect<Seq<char>>>::empty());
    assert(visible_replies(one.skip(1)) =~= Seq::<char>::empty());
    assert(visible_replies(one) =~= visible(text));
}

proof fn lemma_visible_of_begin(first: bool)
    ensures
        visible_replies(begin_if(first)) == Seq::<char>::empty(),
{
    if first {
        let one = begin_if(first);
        assert(one.skip(1) =~= Seq::<TurnEffect<Seq<char>>>::empty());
        assert(visible_replies(one.skip(1)) =~= Seq::<char>::empty());
        assert(visible_replies(one) =~= Seq::<char>::empty());
    }
}

/// A piece of the reply is spoken or kept, whole and in order: what is spoken
/// on it and what is still to be spoken hold the visible characters that were
/// to be spoken before and those that came.
pub proof fn law_chunks_are_spoken_or_kept<T>(v: TurnView, chunk: Seq<char>, now: Instant)
    requires
        !(v.first_chunk && reports_error(chunk)),
    ensures
        visible_replies(v.on_chunk::<T>(chunk).effects) + visible(v.after_chunk(chunk, now).text)
            == visible(v.text + chunk),
{
    let whole = v.text + chunk;
    let left = remainder(whole);
    law_no_text_is_lost(whole);
    let a = begin_if(v.first_chunk);
    let b = replies(sentences(whole));
    let c = if is_short_ack(left, ACK_MAX_WORDS as nat) {
        seq![TurnEffect::Reply(trimmed(left))]
    } else {
        Seq::empty()
    };
    lemma_visible_of_begin(v.first_chunk);
    lemma_visible_of_replies(sentences(whole));
    lemma_visible_replies_append(a, b);
    lemma_visible_replies_append(a + b, c);
    if is_short_ack(left, ACK_MAX_WORDS as nat) {
        lemma_visible_of_one(trimmed(left));
        crate::sentence_buffer::lemma_visible_trimmed(left);
    }
    assert(visible_replies(v.on_chunk::<T>(chunk).effects) + visible(
        v.after_chunk(chunk, now).text,
    ) =~= visible(whole));
}

/// The same holds of text that is spoken because the stream went quiet.
pub proof fn law_ticks_lose_nothing<T>(v: TurnView, now: Instant)
    ensures
        visible_replies(v.on_tick::<T>(now).effects) + visible(v.after_tick(now).text) == visible(
            v.text,
        ),
{
    let text = v.text;
    if v.flush_due(now) {
        crate::sentence_buffer::lemma_last_clause_cut(text, text.len() - 1);
        match last_clause_cut(text, text.len() - 1) {
            Some(p) => {
                lemma_visible_of_one(trimmed(text.take(p)));
                assert(text =~= text.take(p) + text.skip(p));
                crate::sentence_buffer::lemma_visible_append(text.take(p), text.skip(p));
                crate::sentence_buffer::lemma_visible_trimmed(text.take(p));
                crate::sentence_buffer::lemma_visible_trim_start(text.skip(p));
            },
            None => {
                lemma_visible_of_one(trimmed(text));
                crate::sentence_buffer::lemma_visible_trimmed(text);
                assert(visible(trimmed(text)) + visible(Seq::<char>::empty()) =~= visible(text));
            },
        }
    } else {
        assert(visible_replies(v.on_tick::<T>(now).effects) + visible(text) =~= visible(text));
    }
}

/// Once the response is complete, all that was streamed has been spoken; and
/// where nothing was streamed, all of the response is, unless it reports an
/// error.
pub proof fn law_complete_speaks_the_rest<T>(v: TurnView, full_response: Seq<char>)
    ensures
        !is_blank(v.text) || !v.first_chunk ==> visible_replies(
            v.on_complete::<T>(full_response).effects,
        ) == visible(v.text),
        is_blank(v.text) && v.first_chunk && !reports_error(full_response) ==> visible_replies(
            v.on_complete::<T>(full_response).effects,
        ) == visible(v.text + full_response),
        v.on_complete::<T>(full_response).end is Some,
{
    if !is_blank(v.text) {
        lemma_visible_of_one(trimmed(v.text));
        crate::sentence_buffer::lemma_visible_trimmed(v.text);
    } else {
        crate::sentence_buffer::lemma_visible_blank(v.text);
        if v.first_chunk && !is_blank(full_response) && !reports_error(full_response) {
            let whole = v.text + full_response;
            law_no_text_is_lost(whole);
            let rest = trimmed(remainder(whole));
            let a = begin_if(true);
            let b = replies(sentences(whole));
            let c = reply_if_any(rest);
            lemma_visible_of_begin(true);
            lemma_visible_of_replies(sentences(whole));
            lemma_visible_replies_append(a, b);
            lemma_visible_replies_append(a + b, c);
            crate::sentence_buffer::lemma_visible_trimmed(remainder(whole));
            if rest.len() > 0 {
                lemma_visible_of_one(rest);
            } else {
                assert(visible(rest) =~= Seq::<char>::empty());
            }
            assert(visible_replies(v.on_complete::<T>(full_response).effects) =~= visible(whole));
        } else if v.first_chunk && is_blank(full_response) {
            crate::sentence_buffer::lemma_visible_blank(full_response);
            crate::sentence_buffer::lemma_visible_append(v.text, full_response);
        }
    }
}

/// The turn behind several pieces of the reply, all for its own request.
pub open spec fn after_chunks(v: TurnView, chunks: Seq<Seq<char>>, now: Instant) -> TurnView
    decreases chunks.len(),
{
    if chunks.len() == 0 {
        v
    } else {
        after_chunks(v, chunks.drop_last(), now).after_chunk(chunks.last(), now)
    }
}

/// What was done on several pieces of the reply.
pub open spec fn on_chunks<T>(v: TurnView, chunks: Seq<Seq<char>>, now: Instant) -> Seq<
    TurnEffect<Seq<char>>,
>
    decreases chunks.len(),
{
    if chunks.len() == 0 {
        Seq::empty()
    } else {
        on_chunks::<T>(v, chunks.drop_last(), now) + after_chunks(
            v,
            chunks.drop_last(),
            now,
        ).on_chunk::<T>(chunks.last()).effects
    }
}

/// The pieces of the reply, one behind the other.
pub open spec fn whole_reply(chunks: Seq<Seq<char>>) -> Seq<char>
    decreases chunks.len(),
{
    if chunks.len() == 0 {
        Seq::empty()
    } else {
        whole_reply(chunks.drop_last()) + chunks.last()
    }
}

/// A reply streamed in any number of pieces is spoken whole, in order, and each
/// part of it once: all that is spoken until the response is complete holds
/// exactly the visible characters of the reply. Only a reply that begins with
/// an error report is not.
pub proof fn law_streamed_reply_is_spoken_whole<T>(
    v: TurnView,
    chunks: Seq<Seq<char>>,
    full_response: Seq<char>,
    now: Instant,
)
    requires
        v.text.len() == 0,
        v.first_chunk,
        chunks.len() > 0,
        !reports_error(chunks[0]),
    ensures
        visible_replies(
            on_chunks::<T>(v, chunks, now) + after_chunks(v, chunks, now).on_complete::<T>(
                full_response,
            ).effects,
        ) == visible(whole_reply(chunks)),
{
    lemma_streaming::<T>(v, chunks, now);
    let u = after_chunks(v, chunks, now);
    law_complete_speaks_the_rest::<T>(u, full_response);
    lemma_visible_replies_append(
        on_chunks::<T>(v, chunks, now),
        u.on_complete::<T>(full_response).effects,
    );
}

proof fn lemma_streaming<T>(v: TurnView, chunks: Seq<Seq<char>>, now: Instant)
    requires
        v.text.len() == 0,
        v.first_chunk,
        chunks.len() > 0 ==> !reports_error(chunks[0]),
    ensures
        after_chunks(v, chunks, now).first_chunk == (chunks.len() == 0),
        visible_replies(on_chunks::<T>(v, chunks, now)) + visible(after_chunks(v, chunks, now).text)
            == visible(whole_reply(chunks)),
    decreases chunks.len(),
{
    if chunks.len() == 0 {
        assert(visible_replies(on_chunks::<T>(v, chunks, now)) + visible(
            after_chunks(v, chunks, now).text,
        ) =~= visible(whole_reply(chunks)));
    } else {
        let before = chunks.drop_last();
        let last = chunks.last();
        if before.len() > 0 {
            assert(before[0] == chunks[0]);
        }
        lemma_streaming::<T>(v, before, now);
        let u = after_chunks(v, before, now);
        law_chunks_are_spoken_or_kept::<T>(u, last, now);
        lemma_visible_replies_append(
            on_chunks::<T>(v, before, now),
            u.on_chunk::<T>(last).effects,
        );
        crate::sentence_buffer::lemma_visible_append(u.text, last);
        crate::sentence_buffer::lemma_visible_append(whole_reply(before), last);
        let spoken = visible_replies(on_chunks::<T>(v, before, now));
        let now_spoken = visible_replies(u.on_chunk::<T>(last).effects);
        let kept = visible(after_chunks(v, chunks, now).text);
        assert((spoken + now_spoken) + kept =~= spoken + (now_spoken + kept));
        assert(spoken + (visible(u.text) + visible(last)) =~= (spoken + visible(u.text)) + visible(
            last,
        ));
    }
}

/// An error report in place of a reply is never read aloud: nothing of it is
/// spoken, and the turn ends with an apology.
pub proof fn law_error_reports_are_not_read_aloud<T>(v: TurnView, report: Seq<char>)
    requires
        reports_error(report),
        v.first_chunk,
        is_blank(v.text),
        !is_blank(report),
    ensures
        v.on_chunk::<T>(report) == done_with::<T>(apology()),
        v.on_complete::<T>(report) == done_with::<T>(apology()),
{
}

/// Whether `LLM` stands somewhere in a text, in whatever case.
pub open spec fn names_an_llm(text: Seq<char>) -> bool {
    exists|i: int|
        {
            &&& 0 <= i < text.len() - 2
            &&& text[i] == 'l' || text[i] == 'L'
            &&& #[trigger] text[i + 1] == 'l' || text[i + 1] == 'L'
            &&& text[i + 2] == 'm' || text[i + 2] == 'M'
        }
}

/// A reply that does not begin with the name of an LLM is spoken whole, whatever
/// errors it speaks of: no apology takes its place, and all that is spoken until
/// the response is complete holds exactly its visible characters.
pub proof fn law_replies_about_errors_are_spoken<T>(
    v: TurnView,
    chunks: Seq<Seq<char>>,
    full_response: Seq<char>,
    now: Instant,
)
    requires
        v.text.len() == 0,
        v.first_chunk,
        chunks.len() > 0,
        !names_an_llm(chunks[0]),
    ensures
        visible_replies(
            on_chunks::<T>(v, chunks, now) + after_chunks(v, chunks, now).on_complete::<T>(
                full_response,
            ).effects,
        ) == visible(whole_reply(chunks)),
        v.on_chunk::<T>(chunks[0]).end is None,
        !names_an_llm(full_response) ==> visible_replies(v.on_complete::<T>(full_response).effects)
            == visible(full_response),
{
    lemma_no_llm_no_report(chunks[0]);
    law_streamed_reply_is_spoken_whole::<T>(v, chunks, full_response, now);
    if !names_an_llm(full_response) {
        lemma_no_llm_no_report(full_response);
        law_complete_speaks_the_rest::<T>(v, full_response);
        assert(v.text + full_response =~= full_response);
    }
}

proof fn lemma_no_llm_no_report(text: Seq<char>)
    requires
        !names_an_llm(text),
    ensures
        !reports_error(text),
{
    assert forall|i: int| 0 <= i < text.len() - 2 implies !((text[i] == 'l' || text[i] == 'L') && (
    #[trigger] text[i + 1] == 'l' || text[i + 1] == 'L') && (text[i + 2] == 'm' || text[i + 2]
        == 'M')) by {}
    law_what_an_error_report_is(text);
}

/// A turn begins with nothing to speak and nothing heard. It has lasted too long
/// behind its budget, and calls for a sign of life behind its delay; where one of
/// them is zero, never. Within a sentence the stream may pause for half a second.
pub proof fn law_a_turn_begins(request_id: Seq<char>, limits: TurnTimeouts, now: Instant)
    requires
        now.nanos + limits.turn_budget.nanos <= u128::MAX,
        now.nanos + limits.liveness_delay.nanos <= u128::MAX,
    ensures
        TurnView::started(request_id, limits, now) == (TurnView {
            request_id,
            text: Seq::empty(),
            quiet_since: None,
            quiet_limit: Duration { nanos: 500_000_000 },
            first_chunk: true,
            last_status_at: None,
            deadline: if limits.turn_budget.nanos > 0 {
                Some(Instant { nanos: (now.nanos + limits.turn_budget.nanos) as u128 })
            } else {
                None
            },
            last_event_at: now,
            liveness_at: if limits.liveness_delay.nanos > 0 {
                Some(Instant { nanos: (now.nanos + limits.liveness_delay.nanos) as u128 })
            } else {
                None
            },
            liveness_spoken: false,
            audio_alive: true,
        }),
{
}

/// What a piece of the reply does: the first one begins the response; the
/// sentences that it completes are spoken; and what is left is spoken at once
/// where it is an acknowledgement of eight words or less, else kept. Only a first
/// piece that is an error report ends the turn, with an apology.
pub proof fn law_a_piece_of_the_reply<T>(
    v: TurnView,
    text: Seq<char>,
    now: Instant,
    gap: Duration,
)
    ensures
        ({
            let event = AssistantEvent::Chunk { request_id: v.request_id, text };
            let step = v.on_event::<T>(event, now, gap);
            let after = v.after_event(event, now, gap);
            let whole = v.text + text;
            let left = remainder(whole);
            if v.first_chunk && exists|i: int| #[trigger] spells_llm_error(text, i) {
                &&& step.effects == seq![
                    TurnEffect::Begin,
                    TurnEffect::Say("Sorry, I ran into an error and couldn't answer that."@),
                ]
                &&& step.end == Some(StreamEnd::<Seq<T>, Seq<char>>::Completed)
                &&& after == (TurnView { last_event_at: now, ..v })
            } else {
                &&& step.end is None
                &&& step.effects == (if v.first_chunk {
                    seq![TurnEffect::Begin]
                } else {
                    Seq::empty()
                }) + Seq::new(
                    sentences(whole).len(),
                    |i: int| TurnEffect::Reply(sentences(whole)[i]),
                ) + (if is_short_ack(left, 8) {
                    seq![TurnEffect::Reply(trimmed(left))]
                } else {
                    Seq::empty()
                })
                &&& after == (TurnView {
                    text: if is_short_ack(left, 8) {
                        Seq::empty()
                    } else {
                        left
                    },
                    quiet_since: if is_short_ack(left, 8) {
                        None
                    } else {
                        Some(now)
                    },
                    first_chunk: false,
                    last_event_at: now,
                    ..v
                })
            }
        }),
{
    law_what_an_error_report_is(text);
    let whole = v.text + text;
    assert(replies(sentences(whole)) =~= Seq::new(
        sentences(whole).len(),
        |i: int| TurnEffect::Reply(sentences(whole)[i]),
    ));
}

/// What a progress note does: it is spoken, without the whitespace round it,
/// where it says anything and the last one spoken was long enough ago; the
/// response begins with it where nothing of it came yet.
pub proof fn law_a_progress_note<T>(v: TurnView, message: Seq<char>, now: Instant, gap: Duration)
    ensures
        ({
            let event = AssistantEvent::Status { request_id: v.request_id, message };
            let step = v.on_event::<T>(event, now, gap);
            let after = v.after_event(event, now, gap);
            if trimmed(message).len() > 0 && (v.last_status_at is None || gap.nanos == 0 || now.nanos
                >= v.last_status_at->0.nanos + gap.nanos) {
                &&& step.end is None
                &&& v.first_chunk ==> step.effects == seq![
                    TurnEffect::Begin,
                    TurnEffect::Say(trimmed(message)),
                ]
                &&& !v.first_chunk ==> step.effects == seq![TurnEffect::Say(trimmed(message))]
                &&& after == (TurnView { last_status_at: Some(now), last_event_at: now, ..v })
            } else {
                &&& step.end is None
                &&& step.effects.len() == 0
                &&& after == (TurnView { last_event_at: now, ..v })
            }
        }),
{
    lemma_trimmed_blank(message);
    if v.first_chunk {
        assert(begin_if(true) + seq![TurnEffect::Say(trimmed(message))] =~= seq![
            TurnEffect::Begin,
            TurnEffect::Say(trimmed(message)),
        ]);
    } else {
        assert(begin_if(false) + seq![TurnEffect::Say(trimmed(message))] =~= seq![
            TurnEffect::Say(trimmed(message)),
        ]);
    }
}

/// What the end of the response does: what is still to be spoken is; where
/// nothing of the reply was streamed, all of it is, unless it is an error report,
/// for which there is an apology. In any case the turn is over.
pub proof fn law_the_end_of_the_response<T>(
    v: TurnView,
    full_response: Seq<char>,
    now: Instant,
    gap: Duration,
)
    ensures
        ({
            let event = AssistantEvent::Complete { request_id: v.request_id, full_response };
            let step = v.on_event::<T>(event, now, gap);
            let after = v.after_event(event, now, gap);
            let whole = v.text + full_response;
            let rest = trimmed(remainder(whole));
            &&& step.end == Some(StreamEnd::<Seq<T>, Seq<char>>::Completed)
            &&& if trimmed(v.text).len() > 0 {
                &&& step.effects == seq![TurnEffect::Reply(trimmed(v.text))]
                &&& after == (TurnView {
                    text: Seq::empty(),
                    quiet_since: None,
                    last_event_at: now,
                    ..v
                })
            } else if v.first_chunk && trimmed(full_response).len() > 0 {
                if exists|i: int| #[trigger] spells_llm_error(full_response, i) {
                    &&& step.effects == seq![
                        TurnEffect::Begin,
                        TurnEffect::Say("Sorry, I ran into an error and couldn't answer that."@),
                    ]
                    &&& after == (TurnView { last_event_at: now, ..v })
                } else {
                    &&& step.effects == seq![TurnEffect::Begin] + Seq::new(
                        sentences(whole).len(),
                        |i: int| TurnEffect::Reply(sentences(whole)[i]),
                    ) + (if rest.len() > 0 {
                        seq![TurnEffect::Reply(rest)]
                    } else {
                        Seq::empty()
                    })
                    &&& after == (TurnView {
                        text: Seq::empty(),
                        quiet_since: None,
                        last_event_at: now,
                        ..v
                    })
                }
            } else {
                &&& step.effects.len() == 0
                &&& after == (TurnView { last_event_at: now, ..v })
            }
        }),
{
    law_what_an_error_report_is(full_response);
    lemma_trimmed_blank(v.text);
    lemma_trimmed_blank(full_response);
    let whole = v.text + full_response;
    assert(replies(sentences(whole)) =~= Seq::new(
        sentences(whole).len(),
        |i: int| TurnEffect::Reply(sentences(whole)[i]),
    ));
}

/// What the other events do: an error of the request ends the turn with an
/// apology; a tool call is run, whatever request it comes with, and the turn goes
/// on; what belongs to another request is passed over. Each counts as a sign that
/// the assistant is at work, and changes nothing else.
pub proof fn law_other_events<T>(
    v: TurnView,
    other: Seq<char>,
    text: Seq<char>,
    task_id: Seq<char>,
    tool_call_id: Seq<char>,
    tool_name: Seq<char>,
    arguments: Seq<char>,
    now: Instant,
    gap: Duration,
)
    ensures
        ({
            let error = AssistantEvent::Error { request_id: v.request_id, error: text };
            let step = v.on_event::<T>(error, now, gap);
            &&& step.effects == seq![
                TurnEffect::Begin,
                TurnEffect::Say("Sorry, I ran into an error and couldn't answer that."@),
            ]
            &&& step.end == Some(StreamEnd::<Seq<T>, Seq<char>>::Completed)
            &&& v.after_event(error, now, gap) == (TurnView { last_event_at: now, ..v })
        }),
        ({
            let call = AssistantEvent::ClientToolCall {
                task_id,
                tool_call_id,
                tool_name,
                arguments,
            };
            let step = v.on_event::<T>(call, now, gap);
            &&& step.effects == seq![
                TurnEffect::RunTool { task_id, tool_call_id, tool_name, arguments },
            ]
            &&& step.end is None
            &&& v.after_event(call, now, gap) == (TurnView { last_event_at: now, ..v })
        }),
        other != v.request_id ==> {
            let chunk = AssistantEvent::Chunk { request_id: other, text };
            let status = AssistantEvent::Status { request_id: other, message: text };
            let complete = AssistantEvent::Complete { request_id: other, full_response: text };
            let error = AssistantEvent::Error { request_id: other, error: text };
            let same = TurnView { last_event_at: now, ..v };
            let nothing = TurnStepView::<T> { effects: Seq::empty(), end: None };
            &&& v.on_event::<T>(chunk, now, gap) == nothing && v.after_event(chunk, now, gap)
                == same
            &&& v.on_event::<T>(status, now, gap) == nothing && v.after_event(status, now, gap)
                == same
            &&& v.on_event::<T>(complete, now, gap) == nothing && v.after_event(complete, now, gap)
                == same
            &&& v.on_event::<T>(error, now, gap) == nothing && v.after_event(error, now, gap)
                == same
        },
{
}

/// What is still to be spoken waits as long as the stream may pause, counted from
/// the last piece of it, and is spoken then: up to its last pause, with the wait
/// starting anew for the rest, or all of it where there is none. Nothing is spoken
/// sooner, and whitespace never is.
pub proof fn law_text_that_has_waited<T>(v: TurnView, since: Instant, now: Instant, p: int)
    requires
        v.quiet_since == Some(since),
    ensures
        ({
            let step = v.on_tick::<T>(now);
            let after = v.after_tick(now);
            let waited = v.quiet_limit.nanos == 0 || now.nanos >= since.nanos
                + v.quiet_limit.nanos;
            &&& step.end is None
            &&& !waited || trimmed(v.text).len() == 0 ==> step.effects.len() == 0 && after == v
            &&& waited && trimmed(v.text).len() > 0 ==> {
                &&& pause_ends_at(v.text, p) && (forall|q: int|
                    p < q ==> !#[trigger] pause_ends_at(v.text, q)) ==> {
                    &&& step.effects == seq![TurnEffect::Reply(trimmed(v.text.take(p)))]
                    &&& after == (TurnView {
                        text: trim_start(v.text.skip(p)),
                        quiet_since: Some(now),
                        ..v
                    })
                }
                &&& (forall|q: int| !#[trigger] pause_ends_at(v.text, q)) ==> {
                    &&& step.effects == seq![TurnEffect::Reply(trimmed(v.text))]
                    &&& after == (TurnView { text: Seq::empty(), quiet_since: None, ..v })
                }
            }
        }),
{
    let text = v.text;
    lemma_trimmed_blank(text);
    crate::sentence_buffer::lemma_last_clause_cut(text, text.len() - 1);
    assert forall|q: int| #[trigger] is_clause_cut(text, q) <==> pause_ends_at(text, q) by {}
    match last_clause_cut(text, text.len() - 1) {
        Some(c) => {
            assert(is_clause_cut(text, c));
            assert(pause_ends_at(text, c));
            if pause_ends_at(text, p) && (forall|q: int| p < q ==> !#[trigger] pause_ends_at(text, q)) {
                assert(is_clause_cut(text, p));
            }
        },
        None => {
            if pause_ends_at(text, p) {
                assert(is_clause_cut(text, p));
            }
        },
    }
}

/// Where no piece of the reply is awaited, time makes nothing come out.
pub proof fn law_time_alone_speaks_nothing<T>(v: TurnView, now: Instant)
    requires
        v.quiet_since is None,
    ensures
        v.on_tick::<T>(now) == (TurnStepView::<T> { effects: Seq::empty(), end: None }),
        v.after_tick(now) == v,
{
}

/// What the clock decides. A sign of life is due once its time has come, where
/// nothing of the reply came, no note was spoken and none was given yet. The turn
/// has lasted too long from its deadline on. The next event may take as long as a
/// stall lasts, less what was waited for it already; without such a bound, a day.
pub proof fn law_what_the_clock_decides(v: TurnView, now: Instant, stall: Duration)
    ensures
        v.liveness_due(now) <==> v.first_chunk && v.last_status_at is None && !v.liveness_spoken
            && v.liveness_at is Some && now.nanos >= v.liveness_at->0.nanos,
        v.over_budget(now) <==> v.deadline is Some && now.nanos >= v.deadline->0.nanos,
        stall.nanos == 0 ==> v.patience(now, stall) == 24 * 3_600 * 1_000_000_000nat,
        stall.nanos > 0 && now.nanos >= v.last_event_at.nanos + stall.nanos ==> v.patience(
            now,
            stall,
        ) == 0,
        stall.nanos > 0 && v.last_event_at.nanos <= now.nanos < v.last_event_at.nanos + stall.nanos
            ==> now.nanos + v.patience(now, stall) == v.last_event_at.nanos + stall.nanos,
        stall.nanos > 0 && now.nanos <= v.last_event_at.nanos ==> v.patience(now, stall)
            == stall.nanos,
{
}

/// What is said where a turn fails, and where it takes too long: the response
/// begins with it, and it is all there is to it.
pub proof fn law_the_apologies<T>()
    ensures
        done_with::<T>(apology()) == (TurnStepView::<T> {
            effects: seq![
                TurnEffect::Begin,
                TurnEffect::Say("Sorry, I ran into an error and couldn't answer that."@),
            ],
            end: Some(StreamEnd::Completed),
        }),
        done_with::<T>(stall_apology()) == (TurnStepView::<T> {
            effects: seq![
                TurnEffect::Begin,
                TurnEffect::TrySay("Sorry, that's taking too long. Let's try again."@),
            ],
            end: Some(StreamEnd::Completed),
        }),
        LIVENESS_PHRASE@ == "One moment."@,
{
}

} // verus!
