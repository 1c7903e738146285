//! What the contracts see of a value: the value as it is, its texts by their
//! characters and its samples in order.

use vstd::prelude::*;

use crate::assistant::{
    assistant_view, forward_view, signal_view, AssistantEvent, Forward, SignalEvent,
};
use crate::config::{found_view, text_view, Tunables, TunablesView};
use crate::cue::{cue_view, CueSound};
use crate::dictation;
use crate::endpointer::{endpoint_view, Endpoint};
use crate::error::VoiceError;
use crate::json::{leaf_view, JsonLeaf};
use crate::late_events::{late_view, LateStep};
use crate::paths::{path_view, FilePath, OwnedPath, PathView};
use crate::pipeline;
use crate::service::{emission_view, news_view, step_view, Emission, ForwarderStep, VoiceSignal};
use crate::setup::{device_view, InputDeviceInfo};
use crate::speaker::{say_view, SayStep};
use crate::speech_text::{event_view, MarkdownEvent};
use crate::state::State;
use crate::text::{all_chars, all_texts};
use crate::time::Duration;
use crate::tools::{
    answer_view, call_view, tool_view, ClientToolSpec, ClientToolToggles, ToolCall,
};
use crate::turn::{effect_view, end_view, StopRequest, StreamEnd, TurnEffect};
use crate::voices::{
    command_view, selection_view, voice_view, work_view, TtsCommand, TtsWork, VoiceInfo,
    VoiceSelection,
};

verus! {

/// What comes to the pipeline, as it is seen.
pub type SeenInput<T> = pipeline::Input<Seq<T>, Seq<char>, TunablesView>;

/// What the pipeline has done, as it is seen.
pub type SeenAction<T> = pipeline::Action<Seq<T>, Seq<char>>;

/// What comes to a dictation, as it is seen.
pub type DictationInput<T> = dictation::Input<Seq<T>>;

/// What a dictation has done, as it is seen.
pub type DictationAction<T> = dictation::Action<Seq<T>>;

/// Lists of texts are seen text by text, in order.
pub proof fn law_lists_of_texts(texts: Seq<String>, runs: Seq<Vec<char>>, i: int)
    ensures
        all_texts(texts).len() == texts.len(),
        0 <= i < texts.len() ==> all_texts(texts)[i] == texts[i]@,
        all_chars(runs).len() == runs.len(),
        0 <= i < runs.len() ==> all_chars(runs)[i] == runs[i]@,
{
}

/// Texts and paths that may be missing, and what is found in JSON.
pub proof fn law_small_values(s: String, b: Vec<u8>, p: OwnedPath, n: u64)
    ensures
        text_view(Some(s)) == Some(s@),
        text_view(None) is None,
        path_view(FilePath::Text(s)) == PathView::Text(s@),
        path_view(FilePath::Bytes(b)) == PathView::Bytes(b@),
        found_view(Some(p)) == Some(path_view(p)),
        found_view(None) is None,
        leaf_view(Some(JsonLeaf::Text(s))) == Some(JsonLeaf::Text(s@)),
        leaf_view(Some(JsonLeaf::Unsigned(n))) == Some(JsonLeaf::<Seq<char>>::Unsigned(n)),
        leaf_view(Some(JsonLeaf::Other)) == Some(JsonLeaf::<Seq<char>>::Other),
        leaf_view(None) is None,
{
}

/// What comes to the pipeline.
pub proof fn law_inputs_of_the_pipeline<T>(
    chunk: Vec<T>,
    s: String,
    t: Tunables,
    r: StopRequest,
    e: StreamEnd<Vec<T>, String>,
    level: i32,
    playing: bool,
    in_tail_pad: bool,
    enabled: bool,
)
    ensures
        pipeline::input_view::<T>(pipeline::Input::Launch) is Launch,
        pipeline::input_view::<T>(pipeline::Input::CaptureStarted) is CaptureStarted,
        pipeline::input_view::<T>(pipeline::Input::CaptureFailed) is CaptureFailed,
        pipeline::input_view::<T>(pipeline::Input::ControlsClosed) is ControlsClosed,
        pipeline::input_view::<T>(pipeline::Input::CaptureClosed) is CaptureClosed,
        pipeline::input_view::<T>(pipeline::Input::EchoDrained) is EchoDrained,
        pipeline::input_view::<T>(pipeline::Input::CuePlayed) is CuePlayed,
        pipeline::input_view::<T>(pipeline::Input::Acknowledged) is Acknowledged,
        pipeline::input_view::<T>(pipeline::Input::Subscribed) is Subscribed,
        pipeline::input_view::<T>(pipeline::Input::Sent) is Sent,
        pipeline::input_view::<T>(pipeline::Input::TurnFailed) is TurnFailed,
        pipeline::input_view::<T>(pipeline::Input::Apologized) is Apologized,
        pipeline::input_view::<T>(pipeline::Input::Ptt { target: Some(s), playing }) == (
        SeenInput::<T>::Ptt { target: Some(s@), playing }),
        pipeline::input_view::<T>(pipeline::Input::Ptt { target: None, playing }) == (
        SeenInput::<T>::Ptt { target: None, playing }),
        pipeline::input_view::<T>(pipeline::Input::Stop(r)) == SeenInput::<T>::Stop(r),
        pipeline::input_view::<T>(pipeline::Input::Reload(t)) == SeenInput::<T>::Reload(t@),
        pipeline::input_view(pipeline::Input::Audio { chunk, playing, in_tail_pad, enabled }) == (
        SeenInput::<T>::Audio { chunk: chunk@, playing, in_tail_pad, enabled }),
        pipeline::input_view::<T>(pipeline::Input::WakeChecked(playing))
            == SeenInput::<T>::WakeChecked(playing),
        pipeline::input_view::<T>(pipeline::Input::SpeechLevel { level, playing }) == (
        SeenInput::<T>::SpeechLevel { level, playing }),
        pipeline::input_view::<T>(pipeline::Input::Transcribed(Some(s)))
            == SeenInput::<T>::Transcribed(Some(s@)),
        pipeline::input_view::<T>(pipeline::Input::Transcribed(None))
            == SeenInput::<T>::Transcribed(None),
        pipeline::input_view::<T>(pipeline::Input::Created(s)) == SeenInput::<T>::Created(s@),
        pipeline::input_view(pipeline::Input::TurnOver { end: e, playing }) == (
        SeenInput::<T>::TurnOver { end: end_view(e), playing }),
{
}

/// What the pipeline has done.
pub proof fn law_actions_of_the_pipeline<T>(
    b: Vec<T>,
    s: String,
    prompt: String,
    hint: String,
    state: State,
    tools: ClientToolToggles,
    level: i32,
)
    ensures
        pipeline::action_view::<T>(pipeline::Action::Publish(state)) == SeenAction::<T>::Publish(
            state,
        ),
        pipeline::action_view::<T>(pipeline::Action::RegisterTools(tools))
            == SeenAction::<T>::RegisterTools(tools),
        pipeline::action_view::<T>(pipeline::Action::StartSource) is StartSource,
        pipeline::action_view::<T>(pipeline::Action::StopSource) is StopSource,
        pipeline::action_view::<T>(pipeline::Action::StopPlayback) is StopPlayback,
        pipeline::action_view::<T>(pipeline::Action::HaltPlayback) is HaltPlayback,
        pipeline::action_view::<T>(pipeline::Action::DrainEcho) is DrainEcho,
        pipeline::action_view::<T>(pipeline::Action::ResetVad) is ResetVad,
        pipeline::action_view::<T>(pipeline::Action::PlayCue(CueSound::Ding))
            == SeenAction::<T>::PlayCue(CueSound::Ding),
        pipeline::action_view::<T>(pipeline::Action::PlayCue(CueSound::Phrase(s)))
            == SeenAction::<T>::PlayCue(CueSound::Phrase(s@)),
        pipeline::action_view(pipeline::Action::DetectWake(b)) == SeenAction::<T>::DetectWake(b@),
        pipeline::action_view(pipeline::Action::MeasureSpeech(b))
            == SeenAction::<T>::MeasureSpeech(b@),
        pipeline::action_view(pipeline::Action::Transcribe(b)) == SeenAction::<T>::Transcribe(b@),
        pipeline::action_view::<T>(pipeline::Action::ShowTranscript(s))
            == SeenAction::<T>::ShowTranscript(s@),
        pipeline::action_view::<T>(pipeline::Action::Acknowledge(s))
            == SeenAction::<T>::Acknowledge(s@),
        pipeline::action_view::<T>(pipeline::Action::CreateConversation(s))
            == SeenAction::<T>::CreateConversation(s@),
        pipeline::action_view::<T>(pipeline::Action::Subscribe) is Subscribe,
        pipeline::action_view::<T>(
            pipeline::Action::SendPrompt { conversation_id: s, prompt, hint },
        ) == (SeenAction::<T>::SendPrompt { conversation_id: s@, prompt: prompt@, hint: hint@ }),
        pipeline::action_view::<T>(pipeline::Action::StreamTurn) is StreamTurn,
        pipeline::action_view::<T>(pipeline::Action::DrainTurn) is DrainTurn,
        pipeline::action_view::<T>(pipeline::Action::Apologize(s)) == SeenAction::<T>::Apologize(
            s@,
        ),
        pipeline::action_view::<T>(pipeline::Action::RebuildWake(level))
            == SeenAction::<T>::RebuildWake(level),
        pipeline::action_view::<T>(pipeline::Action::NoteDeviceChange(s))
            == SeenAction::<T>::NoteDeviceChange(s@),
        pipeline::action_view::<T>(pipeline::Action::Exit) is Exit,
{
}

/// What a turn does and how it ends.
pub proof fn law_effects_of_a_turn<T>(
    b: Vec<T>,
    s: String,
    tool_call_id: String,
    tool_name: String,
    arguments: String,
    r: StopRequest,
)
    ensures
        effect_view(TurnEffect::Begin) is Begin,
        effect_view(TurnEffect::Reply(s)) == TurnEffect::Reply(s@),
        effect_view(TurnEffect::Say(s)) == TurnEffect::Say(s@),
        effect_view(TurnEffect::TrySay(s)) == TurnEffect::TrySay(s@),
        effect_view(TurnEffect::StopPlayback) is StopPlayback,
        effect_view(TurnEffect::RunTool { task_id: s, tool_call_id, tool_name, arguments }) == (
        TurnEffect::RunTool {
            task_id: s@,
            tool_call_id: tool_call_id@,
            tool_name: tool_name@,
            arguments: arguments@,
        }),
        end_view::<T>(StreamEnd::Completed) is Completed,
        end_view::<T>(StreamEnd::Stopped(r)) == StreamEnd::<Seq<T>, Seq<char>>::Stopped(r),
        end_view(StreamEnd::BargedIn(b)) == StreamEnd::<Seq<T>, Seq<char>>::BargedIn(b@),
        end_view::<T>(StreamEnd::PttPressed(Some(s))) == StreamEnd::<
            Seq<T>,
            Seq<char>,
        >::PttPressed(Some(s@)),
        end_view::<T>(StreamEnd::PttPressed(None)) == StreamEnd::<Seq<T>, Seq<char>>::PttPressed(
            None,
        ),
{
}

/// What the assistant and the connection to it report.
pub proof fn law_reports_of_the_assistant(
    conversation_id: String,
    request_id: String,
    text: String,
    tool_call_id: String,
    tool_name: String,
    arguments: String,
    e: AssistantEvent<String>,
)
    ensures
        assistant_view(AssistantEvent::Chunk { request_id, text }) == (AssistantEvent::Chunk {
            request_id: request_id@,
            text: text@,
        }),
        assistant_view(AssistantEvent::Status { request_id, message: text }) == (
        AssistantEvent::Status { request_id: request_id@, message: text@ }),
        assistant_view(AssistantEvent::Complete { request_id, full_response: text }) == (
        AssistantEvent::Complete { request_id: request_id@, full_response: text@ }),
        assistant_view(AssistantEvent::Error { request_id, error: text }) == (
        AssistantEvent::Error { request_id: request_id@, error: text@ }),
        assistant_view(
            AssistantEvent::ClientToolCall { task_id: text, tool_call_id, tool_name, arguments },
        ) == (AssistantEvent::ClientToolCall {
            task_id: text@,
            tool_call_id: tool_call_id@,
            tool_name: tool_name@,
            arguments: arguments@,
        }),
        signal_view(SignalEvent::Chunk { conversation_id, request_id, chunk: text }) == (
        SignalEvent::Chunk {
            conversation_id: conversation_id@,
            request_id: request_id@,
            chunk: text@,
        }),
        signal_view(SignalEvent::Status { conversation_id, request_id, message: text }) == (
        SignalEvent::Status {
            conversation_id: conversation_id@,
            request_id: request_id@,
            message: text@,
        }),
        signal_view(SignalEvent::Complete { conversation_id, request_id, full_response: text })
            == (SignalEvent::Complete {
            conversation_id: conversation_id@,
            request_id: request_id@,
            full_response: text@,
        }),
        signal_view(SignalEvent::Error { conversation_id, request_id, error: text }) == (
        SignalEvent::Error {
            conversation_id: conversation_id@,
            request_id: request_id@,
            error: text@,
        }),
        signal_view(
            SignalEvent::ClientToolCall {
                task_id: text,
                conversation_id,
                tool_call_id,
                tool_name,
                arguments,
            },
        ) == (SignalEvent::ClientToolCall {
            task_id: text@,
            conversation_id: conversation_id@,
            tool_call_id: tool_call_id@,
            tool_name: tool_name@,
            arguments: arguments@,
        }),
        signal_view(SignalEvent::Disconnected { reason: text }) == (SignalEvent::Disconnected {
            reason: text@,
        }),
        signal_view(SignalEvent::TitleChanged { conversation_id, title: text }) == (
        SignalEvent::TitleChanged { conversation_id: conversation_id@, title: text@ }),
        signal_view(SignalEvent::Other) is Other,
        forward_view(Forward::Pass(e)) == Forward::Pass(assistant_view(e)),
        forward_view(Forward::Resubscribe) is Resubscribe,
        forward_view(Forward::Skip) is Skip,
        forward_view(Forward::End) is End,
{
}

/// What a markdown parser reports: each event is of the same kind, and its text is
/// as it is.
pub proof fn law_reports_of_the_parser(s: String)
    ensures
        event_view(MarkdownEvent::TextPiece(s)) == MarkdownEvent::TextPiece(s@),
        event_view(MarkdownEvent::CodePiece(s)) == MarkdownEvent::CodePiece(s@),
        event_view(MarkdownEvent::InlineMathPiece) is InlineMathPiece,
        event_view(MarkdownEvent::DisplayMathPiece) is DisplayMathPiece,
        event_view(MarkdownEvent::HtmlPiece) is HtmlPiece,
        event_view(MarkdownEvent::InlineHtmlPiece) is InlineHtmlPiece,
        event_view(MarkdownEvent::FootnoteMark) is FootnoteMark,
        event_view(MarkdownEvent::SoftLineBreak) is SoftLineBreak,
        event_view(MarkdownEvent::HardLineBreak) is HardLineBreak,
        event_view(MarkdownEvent::RuleMark) is RuleMark,
        event_view(MarkdownEvent::TaskMark) is TaskMark,
        event_view(MarkdownEvent::StartMark) is StartMark,
        event_view(MarkdownEvent::ParagraphEnd) is ParagraphEnd,
        event_view(MarkdownEvent::HeadingEnd) is HeadingEnd,
        event_view(MarkdownEvent::ItemEnd) is ItemEnd,
        event_view(MarkdownEvent::BlockQuoteEnd) is BlockQuoteEnd,
        event_view(MarkdownEvent::CodeBlockEnd) is CodeBlockEnd,
        event_view(MarkdownEvent::ListEnd) is ListEnd,
        event_view(MarkdownEvent::TableRowEnd) is TableRowEnd,
        event_view(MarkdownEvent::TableHeadEnd) is TableHeadEnd,
        event_view(MarkdownEvent::TableCellEnd) is TableCellEnd,
        event_view(MarkdownEvent::OtherEnd) is OtherEnd,
{
}

/// What a dictation takes in and has done, and what is decided of a chunk.
pub proof fn law_dictation_and_endpoints<T>(
    b: Vec<T>,
    playing: bool,
    level: i32,
    e: Option<VoiceError>,
    scored: Result<i32, VoiceError>,
    text: Result<String, VoiceError>,
    r: Result<Option<String>, VoiceError>,
    d: Duration,
)
    ensures
        dictation::input_view::<T>(dictation::Input::Begin) is Begin,
        dictation::input_view::<T>(dictation::Input::Started(e)) == DictationInput::<T>::Started(e),
        dictation::input_view::<T>(dictation::Input::Playback(playing))
            == DictationInput::<T>::Playback(playing),
        dictation::input_view::<T>(dictation::Input::Settled) is Settled,
        dictation::input_view(dictation::Input::Chunk { samples: b, playing }) == (
        DictationInput::<T>::Chunk { samples: b@, playing }),
        dictation::input_view::<T>(dictation::Input::Scored(scored)) == DictationInput::<T>::Scored(
            scored,
        ),
        dictation::input_view::<T>(dictation::Input::Closed) is Closed,
        dictation::input_view::<T>(dictation::Input::Stopped(e)) == DictationInput::<T>::Stopped(e),
        dictation::input_view::<T>(dictation::Input::Measured(level))
            == DictationInput::<T>::Measured(level),
        dictation::input_view::<T>(dictation::Input::Transcribed(text))
            == DictationInput::<T>::Transcribed(text),
        dictation::action_view::<T>(dictation::Action::Nothing) is Nothing,
        dictation::action_view::<T>(dictation::Action::Start) is Start,
        dictation::action_view::<T>(dictation::Action::CheckPlayback(d))
            == DictationAction::<T>::CheckPlayback(d),
        dictation::action_view::<T>(dictation::Action::Settle(d)) == DictationAction::<T>::Settle(d),
        dictation::action_view::<T>(dictation::Action::Receive) is Receive,
        dictation::action_view(dictation::Action::Score(b)) == DictationAction::<T>::Score(b@),
        dictation::action_view::<T>(dictation::Action::Stop) is Stop,
        dictation::action_view(dictation::Action::Measure(b)) == DictationAction::<T>::Measure(b@),
        dictation::action_view(dictation::Action::Transcribe(b)) == DictationAction::<T>::Transcribe(
            b@,
        ),
        dictation::action_view::<T>(dictation::Action::Finish(r)) == DictationAction::<T>::Finish(r),
        endpoint_view::<T>(Endpoint::Accumulating) is Accumulating,
        endpoint_view::<T>(Endpoint::SpeechStarted) is SpeechStarted,
        endpoint_view(Endpoint::Complete(b)) == Endpoint::Complete(b@),
        endpoint_view::<T>(Endpoint::Timeout) is Timeout,
{
}

/// Tools, their calls and the answers to them; what is to be spoken; late events.
pub proof fn law_tools_and_speech(
    s: String,
    t: String,
    u: String,
    within: Option<Duration>,
    cue: &'static str,
)
    ensures
        tool_view(ClientToolSpec { name: s, description: t, input_schema: u }) == (
        ClientToolSpec { name: s@, description: t@, input_schema: u@ }),
        call_view(ToolCall::StopListening) is StopListening,
        call_view(ToolCall::ListenForMore) is ListenForMore,
        call_view(ToolCall::SayThis(s)) == ToolCall::SayThis(s@),
        call_view(ToolCall::Refused(s)) == ToolCall::Refused(s@),
        answer_view(Ok(s)) == Ok::<Seq<char>, Seq<char>>(s@),
        answer_view(Err(s)) == Err::<Seq<char>, Seq<char>>(s@),
        say_view(SayStep::Nothing) is Nothing,
        say_view(SayStep::Synthesize { text: s, within }) == (SayStep::Synthesize {
            text: s@,
            within,
        }),
        late_view(LateStep::Ignore) is Ignore,
        late_view(LateStep::Stop) is Stop,
        late_view(LateStep::Refuse { task_id: s, tool_call_id: t, error: u }) == (
        LateStep::Refuse { task_id: s@, tool_call_id: t@, error: u@ }),
        cue_view(None) is None,
        cue_view(Some(CueSound::Ding)) == Some(CueSound::<Seq<char>>::Ding),
        cue_view(Some(CueSound::Phrase(cue))) == Some(CueSound::Phrase(cue@)),
{
}

/// Voices, the requests that concern them, and what is told over the bus.
pub proof fn law_voices_and_news(
    s: String,
    t: String,
    u: String,
    n: u32,
    total: u32,
    score: i64,
    speaker: i32,
    chosen: Option<i64>,
    within: Option<Duration>,
    model: OwnedPath,
    sidecar: OwnedPath,
    e: Emission<String>,
)
    ensures
        voice_view(VoiceInfo { id: s, name: t, language: u, num_speakers: n }) == (VoiceInfo {
            id: s@,
            name: t@,
            language: u@,
            num_speakers: n,
        }),
        selection_view(Ok(VoiceSelection { model, speaker: chosen, sample_rate: n })) == Ok::<
            VoiceSelection<PathView>,
            Seq<char>,
        >(VoiceSelection { model: path_view(model), speaker: chosen, sample_rate: n }),
        selection_view(Err(s)) == Err::<VoiceSelection<PathView>, Seq<char>>(s@),
        command_view(TtsCommand::Say(s)) == TtsCommand::Say(s@),
        command_view(TtsCommand::Synthesize(s)) == TtsCommand::Synthesize(s@),
        command_view(TtsCommand::ListVoices) is ListVoices,
        command_view(TtsCommand::GetVoice) is GetVoice,
        command_view(TtsCommand::SetVoice { voice_id: s, speaker }) == (TtsCommand::SetVoice {
            voice_id: s@,
            speaker,
        }),
        work_view(TtsWork::Nothing) is Nothing,
        work_view(TtsWork::Speak { text: s, within }) == (TtsWork::<Seq<char>, PathView>::Speak {
            text: s@,
            within,
        }),
        work_view(TtsWork::Encode(s)) == TtsWork::<Seq<char>, PathView>::Encode(s@),
        work_view(TtsWork::ListModels) is ListModels,
        work_view(TtsWork::ListPolly) is ListPolly,
        work_view(TtsWork::ListKokoro) is ListKokoro,
        work_view(TtsWork::TellVoice) is TellVoice,
        work_view(TtsWork::LookUp { voice_id: s, speaker, model, sidecar }) == (TtsWork::<
            Seq<char>,
            PathView,
        >::LookUp {
            voice_id: s@,
            speaker,
            model: path_view(model),
            sidecar: path_view(sidecar),
        }),
        work_view(TtsWork::UsePolly(s)) == TtsWork::<Seq<char>, PathView>::UsePolly(s@),
        work_view(TtsWork::UseKokoro(s)) == TtsWork::<Seq<char>, PathView>::UseKokoro(s@),
        news_view(VoiceSignal::TranscriptReady(s)) == VoiceSignal::TranscriptReady(s@),
        news_view(VoiceSignal::SpeakingText(s)) == VoiceSignal::SpeakingText(s@),
        news_view(VoiceSignal::CalibrationProgress { captured: n, total, score }) == (
        VoiceSignal::<Seq<char>>::CalibrationProgress { captured: n, total, score }),
        emission_view(Emission::StateChanged(s)) == Emission::StateChanged(s@),
        emission_view(Emission::TranscriptReady(s)) == Emission::TranscriptReady(s@),
        emission_view(Emission::SpeakingText(s)) == Emission::SpeakingText(s@),
        emission_view(Emission::CalibrationProgress { captured: n, total, score }) == (
        Emission::<Seq<char>>::CalibrationProgress { captured: n, total, score }),
        step_view(ForwarderStep::Emit(e)) == ForwarderStep::Emit(emission_view(e)),
        step_view(ForwarderStep::Wait) is Wait,
        step_view(ForwarderStep::Stop) is Stop,
{
}

/// Input devices as they are listed.
pub proof fn law_listed_devices(d: InputDeviceInfo<String>)
    ensures
        device_view(d).value == d.value@,
        device_view(d).label == d.label@,
        device_view(d).kind == d.kind@,
        device_view(d).is_default == d.is_default,
        device_view(d).supported == d.supported,
        device_view(d).rate == d.rate,
        device_view(d).channels == d.channels,
        device_view(d).reason is None <==> d.reason is None,
        d.reason is Some ==> device_view(d).reason->0 == d.reason->0@,
{
}

} // verus!
