//! Configuration: the sections of the configuration file, their defaults, and
//! the difference between two snapshots of what can change while running.
//!
//! Speech levels and wake sensitivities are held as the bit patterns of the
//! single-precision numbers they stand for, which order as those numbers do.

use vstd::prelude::*;

use crate::paths::{
    copy_path, join_path, joined_path, path_view, text_path, FilePath, OwnedPath, PathView,
};
use crate::text::{chars_of, copy_of, lower_chars, lowered, same_chars, same_text};
use crate::time::Duration;
use crate::tools::ClientToolToggles;

verus! {

/// The level that stands for one half.
pub const LEVEL_ONE_HALF: i32 = 1_056_964_608;

// ---------------------------------------------------------------------------
// Paths
// ---------------------------------------------------------------------------

/// `dirs::data_dir` is the user's directory for data, as the environment gives
/// it, and nothing is claimed of it. One that is no text comes as its bytes.
#[verifier::external_body]
fn user_data_dir() -> Option<OwnedPath> {
    dirs::data_dir().map(|p| match p.into_os_string().into_string() {
        Ok(text) => FilePath::Text(text),
        Err(raw) => FilePath::Bytes(raw.into_encoded_bytes()),
    })
}

/// The directory that was found, or the working directory where none was.
pub open spec fn dir_or_here(found: Option<PathView>) -> PathView {
    match found {
        Some(dir) => dir,
        None => FilePath::Text("."@),
    }
}

pub open spec fn found_view(found: Option<OwnedPath>) -> Option<PathView> {
    match found {
        Some(dir) => Some(path_view(dir)),
        None => None,
    }
}

/// The directory that was found, or the working directory where none was.
pub fn data_dir_or_here(found: Option<OwnedPath>) -> (dir: OwnedPath)
    ensures
        path_view(dir) == dir_or_here(found_view(found)),
{
    match found {
        Some(dir) => dir,
        None => text_path("."),
    }
}

/// The user's directory for data, or the working directory where there is none.
/// Which one it is rests on the environment, so nothing is claimed of it; what
/// is made of the answer is stated by [`data_dir_or_here`].
fn data_dir() -> OwnedPath {
    data_dir_or_here(user_data_dir())
}

/// Where the models lie below the directory for data.
pub open spec fn models_below(data_dir: PathView) -> PathView {
    joined_path(data_dir, "adele-voice/models"@)
}

pub fn models_dir_in(data_dir: &OwnedPath) -> (dir: OwnedPath)
    ensures
        path_view(dir) == models_below(path_view(*data_dir)),
{
    join_path(data_dir, "adele-voice/models")
}

/// The configuration file below the user's directory for configuration.
pub fn config_path_in(config_dir: Option<OwnedPath>) -> (path: OwnedPath)
    ensures
        path_view(path) == joined_path(
            dir_or_here(found_view(config_dir)),
            "adele-voice/config.toml"@,
        ),
{
    let dir = data_dir_or_here(config_dir);
    join_path(&dir, "adele-voice/config.toml")
}

/// `dirs::config_dir` is the user's directory for configuration, as the
/// environment gives it, and nothing is claimed of it. One that is no text comes
/// as its bytes.
#[verifier::external_body]
fn user_config_dir() -> Option<OwnedPath> {
    dirs::config_dir().map(|p| match p.into_os_string().into_string() {
        Ok(text) => FilePath::Text(text),
        Err(raw) => FilePath::Bytes(raw.into_encoded_bytes()),
    })
}

/// The configuration file.
pub fn config_path() -> (path: OwnedPath)
    ensures
        exists|dir: PathView|
            path_view(path) == #[trigger] joined_path(dir, "adele-voice/config.toml"@),
{
    config_path_in(user_config_dir())
}

/// What happened to a file.
#[derive(Debug, Clone, Copy, PartialEq, Eq, Structural)]
pub enum FileChange {
    Created,
    Modified,
    Removed,
    /// Nothing that changes what it holds.
    Other,
}

/// For how long edits are gathered before the configuration is read again, in
/// milliseconds.
pub const EDIT_QUIET_MS: u64 = 300;

/// Whether one of several files has the given name.
pub open spec fn names_file(files: Seq<Option<String>>, name: Seq<char>) -> bool {
    exists|i: int| 0 <= i < files.len() && (#[trigger] files[i]) is Some && files[i]->0@ == name
}

/// Whether a change in the configuration's directory concerns the configuration:
/// `files` are the names of the files that it touches. Where the configuration's
/// own name is not known, any file may be it.
pub fn touches_config(
    change: FileChange,
    files: &Vec<Option<String>>,
    config_name: Option<&str>,
) -> (b: bool)
    ensures
        b == (change !is Other && (config_name is None || names_file(files@, config_name->0@))),
{
    if matches!(change, FileChange::Other) {
        return false;
    }
    let name = match config_name {
        Some(name) => name,
        None => return true,
    };
    let mut i: usize = 0;
    while i < files.len()
        invariant
            i <= files@.len(),
            change !is Other,
            config_name == Some(name),
            forall|k: int|
                0 <= k < i ==> !((#[trigger] files@[k]) is Some && files@[k]->0@ == name@),
        decreases files@.len() - i,
    {
        if let Some(file) = &files[i] {
            if same_text(file.as_str(), name) {
                return true;
            }
        }
        i += 1;
    }
    false
}

// ---------------------------------------------------------------------------
// The sections
// ---------------------------------------------------------------------------

/// The audio devices.
#[derive(Debug, PartialEq, Eq)]
pub struct AudioConfig {
    pub input_device: String,
    pub output_device: String,
}

impl Default for AudioConfig {
    fn default() -> (c: AudioConfig)
        ensures
            c.input_device@ == "default"@,
            c.output_device@ == "default"@,
    {
        AudioConfig { input_device: copy_of("default"), output_device: copy_of("default") }
    }
}

/// The speech detector.
#[derive(Debug, PartialEq, Eq)]
pub struct VadConfig {
    pub model_path: OwnedPath,
    pub speech_threshold: i32,
    pub silence_duration_ms: u64,
}

impl VadConfig {
    pub fn in_data_dir(data_dir: &OwnedPath) -> (c: VadConfig)
        ensures
            path_view(c.model_path) == joined_path(models_below(path_view(*data_dir)), "silero_vad.onnx"@),
            c.speech_threshold == LEVEL_ONE_HALF,
            c.silence_duration_ms == 800,
    {
        let models = models_dir_in(data_dir);
        VadConfig {
            model_path: join_path(&models, "silero_vad.onnx"),
            speech_threshold: LEVEL_ONE_HALF,
            silence_duration_ms: 800,
        }
    }
}

impl Default for VadConfig {
    fn default() -> (c: VadConfig)
        ensures
            exists|dir: PathView|
                path_view(c.model_path) == joined_path(#[trigger] models_below(dir), "silero_vad.onnx"@),
            c.speech_threshold == LEVEL_ONE_HALF,
            c.silence_duration_ms == 800,
    {
        let dir = data_dir();
        VadConfig::in_data_dir(&dir)
    }
}

/// The speech recognizer.
#[derive(Debug, PartialEq, Eq)]
pub struct SttConfig {
    pub model_path: OwnedPath,
    pub language: String,
}

impl SttConfig {
    pub fn in_data_dir(data_dir: &OwnedPath) -> (c: SttConfig)
        ensures
            path_view(c.model_path) == joined_path(models_below(path_view(*data_dir)), "ggml-distil-large-v3.bin"@),
            c.language@ == "en"@,
    {
        let models = models_dir_in(data_dir);
        SttConfig {
            model_path: join_path(&models, "ggml-distil-large-v3.bin"),
            language: copy_of("en"),
        }
    }
}

impl Default for SttConfig {
    fn default() -> (c: SttConfig)
        ensures
            exists|dir: PathView|
                path_view(c.model_path) == joined_path(
                    #[trigger] models_below(dir),
                    "ggml-distil-large-v3.bin"@,
                ),
            c.language@ == "en"@,
    {
        let dir = data_dir();
        SttConfig::in_data_dir(&dir)
    }
}

/// The speech synthesizer.
#[derive(Debug, PartialEq, Eq)]
pub struct TtsConfig {
    /// `kokoro`, `piper` or `polly`.
    pub backend: String,
    pub piper_binary: String,
    pub model_path: OwnedPath,
    pub polly_voice: String,
    pub polly_engine: String,
    pub polly_region: Option<String>,
    pub kokoro_model_path: OwnedPath,
    pub kokoro_voices_dir: OwnedPath,
    pub kokoro_voice: String,
    pub kokoro_lang: String,
}

impl TtsConfig {
    /// The settings that do not depend on where the models lie.
    pub open spec fn has_default_names(self) -> bool {
        &&& self.backend@ == "kokoro"@
        &&& self.piper_binary@ == "piper"@
        &&& self.polly_voice@ == "Joanna"@
        &&& self.polly_engine@ == "neural"@
        &&& self.polly_region is None
        &&& self.kokoro_voice@ == "af_heart"@
        &&& self.kokoro_lang@ == "en-us"@
    }

    /// The default places of the models, in the directory `models`.
    pub open spec fn has_default_paths(self, models: PathView) -> bool {
        &&& path_view(self.model_path) == joined_path(models, "en_US-amy-medium.onnx"@)
        &&& path_view(self.kokoro_model_path) == joined_path(models, "kokoro.onnx"@)
        &&& path_view(self.kokoro_voices_dir) == joined_path(models, "kokoro-voices"@)
    }

    pub fn in_data_dir(data_dir: &OwnedPath) -> (c: TtsConfig)
        ensures
            c.has_default_names(),
            c.has_default_paths(models_below(path_view(*data_dir))),
    {
        let models = models_dir_in(data_dir);
        TtsConfig {
            backend: copy_of("kokoro"),
            piper_binary: copy_of("piper"),
            model_path: join_path(&models, "en_US-amy-medium.onnx"),
            polly_voice: copy_of("Joanna"),
            polly_engine: copy_of("neural"),
            polly_region: None,
            kokoro_model_path: join_path(&models, "kokoro.onnx"),
            kokoro_voices_dir: join_path(&models, "kokoro-voices"),
            kokoro_voice: copy_of("af_heart"),
            kokoro_lang: copy_of("en-us"),
        }
    }
}

impl Default for TtsConfig {
    fn default() -> (c: TtsConfig)
        ensures
            c.has_default_names(),
            exists|dir: PathView| c.has_default_paths(#[trigger] models_below(dir)),
    {
        let dir = data_dir();
        TtsConfig::in_data_dir(&dir)
    }
}

/// Which synthesizer a configuration asks for first.
#[derive(Debug, Clone, Copy, PartialEq, Eq, Structural)]
pub enum TtsChoice {
    /// Cloud synthesis, only where it is asked for by name.
    Polly,
    /// Local synthesis, falling back to Piper where Kokoro cannot be loaded.
    KokoroOrPiper,
    /// Local synthesis with Piper.
    Piper,
}

/// The synthesizer that a backend's name stands for.
pub open spec fn tts_choice_for(backend: Seq<char>) -> TtsChoice {
    if backend == "polly"@ {
        TtsChoice::Polly
    } else if backend == "kokoro"@ {
        TtsChoice::KokoroOrPiper
    } else {
        TtsChoice::Piper
    }
}

impl TtsConfig {
    /// The synthesizer to build.
    pub fn choice(&self) -> (c: TtsChoice)
        ensures
            c == tts_choice_for(self.backend@),
    {
        if same_text(self.backend.as_str(), "polly") {
            TtsChoice::Polly
        } else if same_text(self.backend.as_str(), "kokoro") {
            TtsChoice::KokoroOrPiper
        } else {
            TtsChoice::Piper
        }
    }
}

/// How the start of listening is announced.
#[derive(Debug, Clone, Copy, PartialEq, Eq, Structural)]
pub enum ListeningCue {
    /// A short tone.
    Ding,
    /// A spoken phrase.
    Phrase,
    /// Not at all.
    Off,
}

impl Default for ListeningCue {
    fn default() -> (c: ListeningCue)
        ensures
            c == ListeningCue::Ding,
    {
        ListeningCue::Ding
    }
}

/// The wake word detector.
#[derive(Debug, PartialEq, Eq)]
pub struct WakeWordConfig {
    pub model_path: OwnedPath,
    pub sensitivity: i32,
    pub eager: bool,
    pub listening_cue: ListeningCue,
}

impl WakeWordConfig {
    pub fn in_data_dir(data_dir: &OwnedPath) -> (c: WakeWordConfig)
        ensures
            path_view(c.model_path) == joined_path(models_below(path_view(*data_dir)), "hey-adele.rpw"@),
            c.sensitivity == LEVEL_ONE_HALF,
            c.eager,
            c.listening_cue == ListeningCue::Ding,
    {
        let models = models_dir_in(data_dir);
        WakeWordConfig {
            model_path: join_path(&models, "hey-adele.rpw"),
            sensitivity: LEVEL_ONE_HALF,
            eager: true,
            listening_cue: ListeningCue::Ding,
        }
    }
}

impl Default for WakeWordConfig {
    fn default() -> (c: WakeWordConfig)
        ensures
            exists|dir: PathView|
                path_view(c.model_path) == joined_path(#[trigger] models_below(dir), "hey-adele.rpw"@),
            c.sensitivity == LEVEL_ONE_HALF,
            c.eager,
            c.listening_cue == ListeningCue::Ding,
    {
        let dir = data_dir();
        WakeWordConfig::in_data_dir(&dir)
    }
}

/// The bounds on what a turn may wait for, in milliseconds; zero is no bound.
#[derive(Debug, Clone, Copy, PartialEq, Eq, Structural)]
pub struct TimeoutConfig {
    /// Between two events of a response.
    pub response_stall_ms: u64,
    /// For a whole response.
    pub turn_budget_ms: u64,
    /// For one transcription.
    pub stt_ms: u64,
    /// For one synthesis.
    pub tts_ms: u64,
    /// For each request to the assistant.
    pub connect_ms: u64,
    /// The least time between two spoken progress notes.
    pub status_narration_min_gap_ms: u64,
}

impl Default for TimeoutConfig {
    fn default() -> (c: TimeoutConfig)
        ensures
            c == (TimeoutConfig {
                response_stall_ms: 30_000,
                turn_budget_ms: 120_000,
                stt_ms: 20_000,
                tts_ms: 20_000,
                connect_ms: 10_000,
                status_narration_min_gap_ms: 15_000,
            }),
    {
        TimeoutConfig {
            response_stall_ms: 30_000,
            turn_budget_ms: 120_000,
            stt_ms: 20_000,
            tts_ms: 20_000,
            connect_ms: 10_000,
            status_narration_min_gap_ms: 15_000,
        }
    }
}

/// Which tools the assistant is offered.
#[derive(Debug, Clone, Copy, PartialEq, Eq, Structural)]
pub struct ClientToolsConfig {
    pub stop_listening: bool,
    pub listen_for_more: bool,
    pub say_this: bool,
}

impl Default for ClientToolsConfig {
    fn default() -> (c: ClientToolsConfig)
        ensures
            c.stop_listening && c.listen_for_more && c.say_this,
    {
        ClientToolsConfig { stop_listening: true, listen_for_more: true, say_this: true }
    }
}

impl ClientToolsConfig {
    /// The same choice as the pipeline takes it.
    pub fn toggles(self) -> (t: ClientToolToggles)
        ensures
            t.stop_listening == self.stop_listening,
            t.listen_for_more == self.listen_for_more,
            t.say_this == self.say_this,
    {
        ClientToolToggles {
            stop_listening: self.stop_listening,
            listen_for_more: self.listen_for_more,
            say_this: self.say_this,
        }
    }
}

/// What the assistant is told with every spoken prompt by default.
pub const SPOKEN_RESPONSE_HINT: &'static str = "You are Adele, responding by voice. The user's message was transcribed from speech, so expect occasional recognition errors and use your judgment. For a simple, quick question, just answer directly — do not preface it. But if the request will take real work (looking something up, using a tool, a multi-step task), open with a SHORT spoken acknowledgement that shows you understood — a handful of words, ending in a period so it can be read aloud immediately (e.g. 'Got it — checking that now.' or 'Sure, looking into your calendar.') — then do the work and answer. Keep that acknowledgement to one short clause; never restate the whole question. Only if a message is clearly garbled or you truly cannot tell what was meant should you briefly check (e.g. 'did you mean X?') or ask one short clarifying question. Your reply will be read aloud, so keep it brief, conversational, and relevant — never a monologue. Default to a few short sentences. If a full answer would be long, give only the most salient points, then ask whether they'd like more. If they ask for more, you may expand but stay under about ten sentences. Let the user lead — invite follow-ups and let them steer. Never use markdown or formatting of any kind — no asterisks, underscores, backticks, pound signs, bullet characters, or emoji. Speak in plain, natural prose. Write every reply as a script to be read aloud verbatim — exactly the words to be spoken. Spell out abbreviations and acronyms as full words (say 'for example' not 'e.g.', 'versus' not 'vs.', 'and so on' not 'etc.', 'approximately' not 'approx.'). Avoid symbols that do not read well aloud: write 'and' not '&', 'percent' not '%', 'number' not '#', 'dollars' not '$', and 'to' for a range rather than a dash. Never read out a URL, file path, or email address — describe it in words instead. Write numbers, dates, and times the way you would say them out loud. Punctuate for the ear, not the page: use commas and periods to control spoken pacing and where natural pauses fall. When spoken phrasing and strict grammar disagree, favor what sounds right read aloud — short clauses and sentences, with commas placed where a speaker would breathe.";

/// The conversation with the assistant, and how it is reached.
#[derive(Debug, PartialEq, Eq)]
pub struct AssistantConfig {
    pub conversation_title: String,
    pub conversation_mode: bool,
    pub followup_timeout_ms: u64,
    pub spoken_response_hint: String,
    pub conversation_reuse_window_ms: u64,
    pub client_tools: ClientToolsConfig,
    pub transport: String,
    pub ws_url: Option<String>,
    pub socket_path: Option<OwnedPath>,
    pub ws_jwt: Option<String>,
    pub ws_login_username: Option<String>,
    pub ws_login_password: Option<String>,
    pub tls_ca_cert: Option<OwnedPath>,
}

impl Default for AssistantConfig {
    fn default() -> (c: AssistantConfig)
        ensures
            c.conversation_title@ == "Voice Conversation"@,
            !c.conversation_mode,
            c.followup_timeout_ms == 8000,
            c.spoken_response_hint@ == SPOKEN_RESPONSE_HINT@,
            c.conversation_reuse_window_ms == 600_000,
            c.client_tools.stop_listening && c.client_tools.listen_for_more
                && c.client_tools.say_this,
            c.transport@ == "uds"@,
            c.ws_url is None && c.socket_path is None && c.ws_jwt is None,
            c.ws_login_username is None && c.ws_login_password is None && c.tls_ca_cert is None,
    {
        AssistantConfig {
            conversation_title: copy_of("Voice Conversation"),
            conversation_mode: false,
            followup_timeout_ms: 8000,
            spoken_response_hint: copy_of(SPOKEN_RESPONSE_HINT),
            conversation_reuse_window_ms: 600_000,
            client_tools: ClientToolsConfig::default(),
            transport: copy_of("uds"),
            ws_url: None,
            socket_path: None,
            ws_jwt: None,
            ws_login_username: None,
            ws_login_password: None,
            tls_ca_cert: None,
        }
    }
}

/// How the assistant is reached.
#[derive(Debug, Clone, Copy, PartialEq, Eq, Structural)]
pub enum TransportMode {
    /// A local socket.
    Uds,
    /// A WebSocket.
    Ws,
    /// The session bus.
    Dbus,
}

/// All that is needed to reach the assistant.
#[derive(Debug, PartialEq, Eq)]
pub struct ConnectionConfig {
    pub transport_mode: TransportMode,
    pub ws_url: String,
    pub socket_path: Option<OwnedPath>,
    pub ws_jwt: Option<String>,
    pub ws_login_username: Option<String>,
    pub ws_login_password: Option<String>,
    pub tls_ca_cert: Option<OwnedPath>,
}

/// The characters of a text that may be missing.
pub open spec fn text_view(s: Option<String>) -> Option<Seq<char>> {
    match s {
        Some(t) => Some(t@),
        None => None,
    }
}

/// The transport that a name stands for, in any case: the local socket where
/// the name stands for no other.
pub open spec fn transport_for(name: Seq<char>) -> TransportMode {
    let n = lowered(name);
    if n == "ws"@ || n == "websocket"@ {
        TransportMode::Ws
    } else if n == "dbus"@ {
        TransportMode::Dbus
    } else {
        TransportMode::Uds
    }
}

/// `first` where there is one, else `second`.
pub open spec fn first_of(first: Option<String>, second: Option<String>) -> Option<Seq<char>> {
    if first is Some {
        text_view(first)
    } else {
        text_view(second)
    }
}

fn copy_optional(s: &Option<String>) -> (r: Option<String>)
    ensures
        text_view(r) == text_view(*s),
{
    match s {
        Some(t) => Some(copy_of(t.as_str())),
        None => None,
    }
}

fn or_default(set: &Option<String>, default: Option<String>) -> (r: Option<String>)
    ensures
        text_view(r) == first_of(*set, default),
{
    if set.is_some() {
        copy_optional(set)
    } else {
        default
    }
}

/// `first` where there is one, else `second`.
pub open spec fn first_path_of(first: Option<OwnedPath>, second: Option<OwnedPath>) -> Option<
    PathView,
> {
    if first is Some {
        found_view(first)
    } else {
        found_view(second)
    }
}

fn path_or_default(set: &Option<OwnedPath>, default: Option<OwnedPath>) -> (r: Option<OwnedPath>)
    ensures
        found_view(r) == first_path_of(*set, default),
{
    match set {
        Some(p) => Some(copy_path(p)),
        None => default,
    }
}

impl AssistantConfig {
    /// How to reach the assistant: as configured, and as `defaults` has it
    /// where nothing is.
    pub fn connection_config(&self, defaults: ConnectionConfig) -> (c: ConnectionConfig)
        ensures
            c.transport_mode == transport_for(self.transport@),
            c.ws_url@ == (match self.ws_url {
                Some(url) => url@,
                None => defaults.ws_url@,
            }),
            found_view(c.socket_path) == first_path_of(self.socket_path, defaults.socket_path),
            text_view(c.ws_jwt) == first_of(self.ws_jwt, defaults.ws_jwt),
            text_view(c.ws_login_username) == first_of(
                self.ws_login_username,
                defaults.ws_login_username,
            ),
            text_view(c.ws_login_password) == first_of(
                self.ws_login_password,
                defaults.ws_login_password,
            ),
            found_view(c.tls_ca_cert) == first_path_of(self.tls_ca_cert, defaults.tls_ca_cert),
    {
        let name = lower_chars(&chars_of(self.transport.as_str()));
        let transport_mode = if same_chars(&name, &chars_of("ws")) || same_chars(
            &name,
            &chars_of("websocket"),
        ) {
            TransportMode::Ws
        } else if same_chars(&name, &chars_of("dbus")) {
            TransportMode::Dbus
        } else {
            TransportMode::Uds
        };
        let ws_url = match &self.ws_url {
            Some(url) => copy_of(url.as_str()),
            None => defaults.ws_url,
        };
        ConnectionConfig {
            transport_mode,
            ws_url,
            socket_path: path_or_default(&self.socket_path, defaults.socket_path),
            ws_jwt: or_default(&self.ws_jwt, defaults.ws_jwt),
            ws_login_username: or_default(&self.ws_login_username, defaults.ws_login_username),
            ws_login_password: or_default(&self.ws_login_password, defaults.ws_login_password),
            tls_ca_cert: path_or_default(&self.tls_ca_cert, defaults.tls_ca_cert),
        }
    }
}

/// The whole configuration.
#[derive(Debug, PartialEq, Eq)]
pub struct Config {
    pub audio: AudioConfig,
    pub wake_word: WakeWordConfig,
    pub vad: VadConfig,
    pub stt: SttConfig,
    pub tts: TtsConfig,
    pub assistant: AssistantConfig,
    pub timeouts: TimeoutConfig,
    /// After how long without use to exit; never where it is zero.
    pub idle_exit_timeout_ms: u64,
}

impl Default for Config {
    fn default() -> (c: Config)
        ensures
            c.audio.input_device@ == "default"@ && c.audio.output_device@ == "default"@,
            c.wake_word.eager && c.wake_word.listening_cue == ListeningCue::Ding,
            c.wake_word.sensitivity == LEVEL_ONE_HALF,
            c.vad.speech_threshold == LEVEL_ONE_HALF && c.vad.silence_duration_ms == 800,
            c.stt.language@ == "en"@,
            exists|dir: PathView|
                path_view(c.wake_word.model_path) == joined_path(
                    #[trigger] models_below(dir),
                    "hey-adele.rpw"@,
                ),
            exists|dir: PathView|
                path_view(c.vad.model_path) == joined_path(
                    #[trigger] models_below(dir),
                    "silero_vad.onnx"@,
                ),
            exists|dir: PathView|
                path_view(c.stt.model_path) == joined_path(
                    #[trigger] models_below(dir),
                    "ggml-distil-large-v3.bin"@,
                ),
            c.tts.has_default_names(),
            exists|dir: PathView| c.tts.has_default_paths(#[trigger] models_below(dir)),
            c.assistant.conversation_title@ == "Voice Conversation"@,
            !c.assistant.conversation_mode,
            c.assistant.followup_timeout_ms == 8000,
            c.assistant.conversation_reuse_window_ms == 600_000,
            c.assistant.spoken_response_hint@ == SPOKEN_RESPONSE_HINT@,
            c.assistant.client_tools.stop_listening && c.assistant.client_tools.listen_for_more
                && c.assistant.client_tools.say_this,
            c.assistant.transport@ == "uds"@,
            c.assistant.ws_url is None && c.assistant.socket_path is None
                && c.assistant.ws_jwt is None,
            c.assistant.ws_login_username is None && c.assistant.ws_login_password is None
                && c.assistant.tls_ca_cert is None,
            c.timeouts.response_stall_ms == 30_000 && c.timeouts.turn_budget_ms == 120_000,
            c.timeouts.stt_ms == 20_000 && c.timeouts.tts_ms == 20_000,
            c.timeouts.connect_ms == 10_000 && c.timeouts.status_narration_min_gap_ms == 15_000,
            c.idle_exit_timeout_ms == 0,
    {
        Config {
            audio: AudioConfig::default(),
            wake_word: WakeWordConfig::default(),
            vad: VadConfig::default(),
            stt: SttConfig::default(),
            tts: TtsConfig::default(),
            assistant: AssistantConfig::default(),
            timeouts: TimeoutConfig::default(),
            idle_exit_timeout_ms: 0,
        }
    }
}

// ---------------------------------------------------------------------------
// What can change while running
// ---------------------------------------------------------------------------

/// The settings that a running pipeline takes over from a changed file, and the
/// devices, which need a restart.
#[derive(Debug, PartialEq, Eq)]
pub struct Tunables {
    pub speech_threshold: i32,
    pub silence_duration_ms: u64,
    pub followup_timeout_ms: u64,
    pub conversation_reuse_window_ms: u64,
    pub conversation_mode: bool,
    pub idle_exit_timeout_ms: u64,
    pub wake_sensitivity: i32,
    pub response_stall_ms: u64,
    pub turn_budget_ms: u64,
    pub status_narration_min_gap_ms: u64,
    pub input_device: String,
    pub output_device: String,
}

/// What a snapshot holds.
#[verifier::ext_equal]
pub struct TunablesView {
    pub speech_threshold: i32,
    pub silence_duration_ms: u64,
    pub followup_timeout_ms: u64,
    pub conversation_reuse_window_ms: u64,
    pub conversation_mode: bool,
    pub idle_exit_timeout_ms: u64,
    pub wake_sensitivity: i32,
    pub response_stall_ms: u64,
    pub turn_budget_ms: u64,
    pub status_narration_min_gap_ms: u64,
    pub input_device: Seq<char>,
    pub output_device: Seq<char>,
}

impl View for Tunables {
    type V = TunablesView;

    open spec fn view(&self) -> TunablesView {
        TunablesView {
            speech_threshold: self.speech_threshold,
            silence_duration_ms: self.silence_duration_ms,
            followup_timeout_ms: self.followup_timeout_ms,
            conversation_reuse_window_ms: self.conversation_reuse_window_ms,
            conversation_mode: self.conversation_mode,
            idle_exit_timeout_ms: self.idle_exit_timeout_ms,
            wake_sensitivity: self.wake_sensitivity,
            response_stall_ms: self.response_stall_ms,
            turn_budget_ms: self.turn_budget_ms,
            status_narration_min_gap_ms: self.status_narration_min_gap_ms,
            input_device: self.input_device@,
            output_device: self.output_device@,
        }
    }
}

impl Clone for Tunables {
    fn clone(&self) -> (t: Tunables)
        ensures
            t@ == self@,
    {
        Tunables {
            speech_threshold: self.speech_threshold,
            silence_duration_ms: self.silence_duration_ms,
            followup_timeout_ms: self.followup_timeout_ms,
            conversation_reuse_window_ms: self.conversation_reuse_window_ms,
            conversation_mode: self.conversation_mode,
            idle_exit_timeout_ms: self.idle_exit_timeout_ms,
            wake_sensitivity: self.wake_sensitivity,
            response_stall_ms: self.response_stall_ms,
            turn_budget_ms: self.turn_budget_ms,
            status_narration_min_gap_ms: self.status_narration_min_gap_ms,
            input_device: copy_of(self.input_device.as_str()),
            output_device: copy_of(self.output_device.as_str()),
        }
    }
}

impl Config {
    /// The settings that can change while running.
    pub fn tunables(&self) -> (t: Tunables)
        ensures
            t@ == (TunablesView {
                speech_threshold: self.vad.speech_threshold,
                silence_duration_ms: self.vad.silence_duration_ms,
                followup_timeout_ms: self.assistant.followup_timeout_ms,
                conversation_reuse_window_ms: self.assistant.conversation_reuse_window_ms,
                conversation_mode: self.assistant.conversation_mode,
                idle_exit_timeout_ms: self.idle_exit_timeout_ms,
                wake_sensitivity: self.wake_word.sensitivity,
                response_stall_ms: self.timeouts.response_stall_ms,
                turn_budget_ms: self.timeouts.turn_budget_ms,
                status_narration_min_gap_ms: self.timeouts.status_narration_min_gap_ms,
                input_device: self.audio.input_device@,
                output_device: self.audio.output_device@,
            }),
    {
        Tunables {
            speech_threshold: self.vad.speech_threshold,
            silence_duration_ms: self.vad.silence_duration_ms,
            followup_timeout_ms: self.assistant.followup_timeout_ms,
            conversation_reuse_window_ms: self.assistant.conversation_reuse_window_ms,
            conversation_mode: self.assistant.conversation_mode,
            idle_exit_timeout_ms: self.idle_exit_timeout_ms,
            wake_sensitivity: self.wake_word.sensitivity,
            response_stall_ms: self.timeouts.response_stall_ms,
            turn_budget_ms: self.timeouts.turn_budget_ms,
            status_narration_min_gap_ms: self.timeouts.status_narration_min_gap_ms,
            input_device: copy_of(self.audio.input_device.as_str()),
            output_device: copy_of(self.audio.output_device.as_str()),
        }
    }
}

/// What a reload has to do: each setting that changed, with its new value.
#[derive(Debug, PartialEq, Eq)]
pub struct ReloadPlan {
    pub set_speech_threshold: Option<i32>,
    pub set_silence_ms: Option<u64>,
    pub set_followup_timeout_ms: Option<u64>,
    pub set_conversation_reuse_window_ms: Option<u64>,
    pub set_conversation_mode: Option<bool>,
    pub set_idle_exit_timeout_ms: Option<u64>,
    pub set_response_stall_ms: Option<u64>,
    pub set_turn_budget_ms: Option<u64>,
    pub set_status_narration_min_gap_ms: Option<u64>,
    pub rebuild_wake_sensitivity: Option<i32>,
    /// A device changed, which needs a restart: what changed, for the log.
    pub restart_required_for_device: Option<String>,
}

/// What a plan holds.
#[verifier::ext_equal]
pub struct ReloadPlanView {
    pub set_speech_threshold: Option<i32>,
    pub set_silence_ms: Option<u64>,
    pub set_followup_timeout_ms: Option<u64>,
    pub set_conversation_reuse_window_ms: Option<u64>,
    pub set_conversation_mode: Option<bool>,
    pub set_idle_exit_timeout_ms: Option<u64>,
    pub set_response_stall_ms: Option<u64>,
    pub set_turn_budget_ms: Option<u64>,
    pub set_status_narration_min_gap_ms: Option<u64>,
    pub rebuild_wake_sensitivity: Option<i32>,
    pub restart_required_for_device: Option<Seq<char>>,
}

impl View for ReloadPlan {
    type V = ReloadPlanView;

    open spec fn view(&self) -> ReloadPlanView {
        ReloadPlanView {
            set_speech_threshold: self.set_speech_threshold,
            set_silence_ms: self.set_silence_ms,
            set_followup_timeout_ms: self.set_followup_timeout_ms,
            set_conversation_reuse_window_ms: self.set_conversation_reuse_window_ms,
            set_conversation_mode: self.set_conversation_mode,
            set_idle_exit_timeout_ms: self.set_idle_exit_timeout_ms,
            set_response_stall_ms: self.set_response_stall_ms,
            set_turn_budget_ms: self.set_turn_budget_ms,
            set_status_narration_min_gap_ms: self.set_status_narration_min_gap_ms,
            rebuild_wake_sensitivity: self.rebuild_wake_sensitivity,
            restart_required_for_device: text_view(self.restart_required_for_device),
        }
    }
}

/// A plan with nothing to do.
pub open spec fn empty_plan() -> ReloadPlanView {
    ReloadPlanView {
        set_speech_threshold: None,
        set_silence_ms: None,
        set_followup_timeout_ms: None,
        set_conversation_reuse_window_ms: None,
        set_conversation_mode: None,
        set_idle_exit_timeout_ms: None,
        set_response_stall_ms: None,
        set_turn_budget_ms: None,
        set_status_narration_min_gap_ms: None,
        rebuild_wake_sensitivity: None,
        restart_required_for_device: None,
    }
}

impl Default for ReloadPlan {
    fn default() -> (p: ReloadPlan)
        ensures
            p@ == empty_plan(),
    {
        ReloadPlan {
            set_speech_threshold: None,
            set_silence_ms: None,
            set_followup_timeout_ms: None,
            set_conversation_reuse_window_ms: None,
            set_conversation_mode: None,
            set_idle_exit_timeout_ms: None,
            set_response_stall_ms: None,
            set_turn_budget_ms: None,
            set_status_narration_min_gap_ms: None,
            rebuild_wake_sensitivity: None,
            restart_required_for_device: None,
        }
    }
}

impl ReloadPlan {
    /// Whether there is nothing to do.
    pub fn is_empty(&self) -> (b: bool)
        ensures
            b == (self@ == empty_plan()),
    {
        self.set_speech_threshold.is_none() && self.set_silence_ms.is_none()
            && self.set_followup_timeout_ms.is_none()
            && self.set_conversation_reuse_window_ms.is_none()
            && self.set_conversation_mode.is_none() && self.set_idle_exit_timeout_ms.is_none()
            && self.set_response_stall_ms.is_none() && self.set_turn_budget_ms.is_none()
            && self.set_status_narration_min_gap_ms.is_none()
            && self.rebuild_wake_sensitivity.is_none()
            && self.restart_required_for_device.is_none()
    }
}

/// A text in quotes, with the escapes that Rust's `Debug` gives it.
pub uninterp spec fn quoted(s: Seq<char>) -> Seq<char>;

/// `format!` with `{:?}`, which is `<str as std::fmt::Debug>`: the text in
/// double quotes, escaped as in Rust source. The escapes are not spelled out,
/// only named.
#[verifier::external_body]
fn quote(s: &str) -> (q: String)
    ensures
        q@ == quoted(s@),
{
    format!("{:?}", s)
}

/// What is logged of a changed device.
pub open spec fn device_change(old: TunablesView, new: TunablesView) -> Seq<char> {
    "input "@ + quoted(old.input_device) + "->"@ + quoted(new.input_device) + ", output "@ + quoted(
        old.output_device,
    ) + "->"@ + quoted(new.output_device)
}

fn describe_device_change(old: &Tunables, new: &Tunables) -> (s: String)
    ensures
        s@ == device_change(old@, new@),
{
    let mut s = copy_of("input ");
    s.append(quote(old.input_device.as_str()).as_str());
    s.append("->");
    s.append(quote(new.input_device.as_str()).as_str());
    s.append(", output ");
    s.append(quote(old.output_device.as_str()).as_str());
    s.append("->");
    s.append(quote(new.output_device.as_str()).as_str());
    s
}

/// The new value, where it is another one.
pub open spec fn changed<A>(old: A, new: A) -> Option<A> {
    if old == new {
        None
    } else {
        Some(new)
    }
}

/// What has to be done to go from `old` to `new`.
pub open spec fn plan_between(old: TunablesView, new: TunablesView) -> ReloadPlanView {
    ReloadPlanView {
        set_speech_threshold: changed(old.speech_threshold, new.speech_threshold),
        set_silence_ms: changed(old.silence_duration_ms, new.silence_duration_ms),
        set_followup_timeout_ms: changed(old.followup_timeout_ms, new.followup_timeout_ms),
        set_conversation_reuse_window_ms: changed(
            old.conversation_reuse_window_ms,
            new.conversation_reuse_window_ms,
        ),
        set_conversation_mode: changed(old.conversation_mode, new.conversation_mode),
        set_idle_exit_timeout_ms: changed(old.idle_exit_timeout_ms, new.idle_exit_timeout_ms),
        set_response_stall_ms: changed(old.response_stall_ms, new.response_stall_ms),
        set_turn_budget_ms: changed(old.turn_budget_ms, new.turn_budget_ms),
        set_status_narration_min_gap_ms: changed(
            old.status_narration_min_gap_ms,
            new.status_narration_min_gap_ms,
        ),
        rebuild_wake_sensitivity: changed(old.wake_sensitivity, new.wake_sensitivity),
        restart_required_for_device: if old.input_device == new.input_device && old.output_device
            == new.output_device {
            None
        } else {
            Some(device_change(old, new))
        },
    }
}

/// Says what has to be done to go from `old` to `new`.
pub fn plan_reload(old: &Tunables, new: &Tunables) -> (plan: ReloadPlan)
    ensures
        plan@ == plan_between(old@, new@),
{
    let mut plan = ReloadPlan::default();
    if old.speech_threshold != new.speech_threshold {
        plan.set_speech_threshold = Some(new.speech_threshold);
    }
    if old.silence_duration_ms != new.silence_duration_ms {
        plan.set_silence_ms = Some(new.silence_duration_ms);
    }
    if old.followup_timeout_ms != new.followup_timeout_ms {
        plan.set_followup_timeout_ms = Some(new.followup_timeout_ms);
    }
    if old.conversation_reuse_window_ms != new.conversation_reuse_window_ms {
        plan.set_conversation_reuse_window_ms = Some(new.conversation_reuse_window_ms);
    }
    if old.conversation_mode != new.conversation_mode {
        plan.set_conversation_mode = Some(new.conversation_mode);
    }
    if old.idle_exit_timeout_ms != new.idle_exit_timeout_ms {
        plan.set_idle_exit_timeout_ms = Some(new.idle_exit_timeout_ms);
    }
    if old.response_stall_ms != new.response_stall_ms {
        plan.set_response_stall_ms = Some(new.response_stall_ms);
    }
    if old.turn_budget_ms != new.turn_budget_ms {
        plan.set_turn_budget_ms = Some(new.turn_budget_ms);
    }
    if old.status_narration_min_gap_ms != new.status_narration_min_gap_ms {
        plan.set_status_narration_min_gap_ms = Some(new.status_narration_min_gap_ms);
    }
    if old.wake_sensitivity != new.wake_sensitivity {
        plan.rebuild_wake_sensitivity = Some(new.wake_sensitivity);
    }
    if !same_text(old.input_device.as_str(), new.input_device.as_str()) || !same_text(
        old.output_device.as_str(),
        new.output_device.as_str(),
    ) {
        plan.restart_required_for_device = Some(describe_device_change(old, new));
    }
    plan
}

/// There is nothing to do exactly where nothing changed.
pub proof fn law_no_change_is_no_work(old: TunablesView, new: TunablesView)
    ensures
        plan_between(old, new) == empty_plan() <==> old == new,
{
    if plan_between(old, new) == empty_plan() {
        let plan = plan_between(old, new);
        assert(plan.set_speech_threshold is None && plan.set_silence_ms is None
            && plan.set_followup_timeout_ms is None
            && plan.set_conversation_reuse_window_ms is None
            && plan.set_conversation_mode is None && plan.set_idle_exit_timeout_ms is None
            && plan.set_response_stall_ms is None && plan.set_turn_budget_ms is None
            && plan.set_status_narration_min_gap_ms is None
            && plan.rebuild_wake_sensitivity is None
            && plan.restart_required_for_device is None);
        assert(old =~= new);
    }
}

/// A changed device never holds back the other settings: what is planned for
/// them does not depend on the devices.
pub proof fn law_devices_block_nothing(
    old: TunablesView,
    new: TunablesView,
    input: Seq<char>,
    output: Seq<char>,
)
    ensures
        ({
            let moved = TunablesView { input_device: input, output_device: output, ..new };
            plan_between(old, moved) == (ReloadPlanView {
                restart_required_for_device: plan_between(old, moved).restart_required_for_device,
                ..plan_between(old, new)
            })
        }),
{
}

// ---------------------------------------------------------------------------
// The bounds of a turn
// ---------------------------------------------------------------------------

/// The bounds that a turn keeps to; a bound of no length is none.
#[derive(Debug, Clone, Copy, PartialEq, Eq, Structural)]
pub struct TurnTimeouts {
    /// Between two events of the response.
    pub response_stall: Duration,
    /// For the whole response.
    pub turn_budget: Duration,
    /// For one synthesis.
    pub synth: Duration,
    /// For each request to the assistant.
    pub connect: Duration,
    /// The least time between two spoken progress notes.
    pub status_narration_min_gap: Duration,
    /// After how long without a word to give a sign of life.
    pub liveness_delay: Duration,
}

impl TimeoutConfig {
    /// The bounds as the pipeline takes them.
    pub fn turn_timeouts(&self, liveness_delay: Duration) -> (t: TurnTimeouts)
        ensures
            t.response_stall.nanos == self.response_stall_ms * 1_000_000,
            t.turn_budget.nanos == self.turn_budget_ms * 1_000_000,
            t.synth.nanos == self.tts_ms * 1_000_000,
            t.connect.nanos == self.connect_ms * 1_000_000,
            t.status_narration_min_gap.nanos == self.status_narration_min_gap_ms * 1_000_000,
            t.liveness_delay == liveness_delay,
    {
        TurnTimeouts {
            response_stall: Duration::from_millis(self.response_stall_ms),
            turn_budget: Duration::from_millis(self.turn_budget_ms),
            synth: Duration::from_millis(self.tts_ms),
            connect: Duration::from_millis(self.connect_ms),
            status_narration_min_gap: Duration::from_millis(self.status_narration_min_gap_ms),
            liveness_delay,
        }
    }
}

// ---------------------------------------------------------------------------
// Laws
// ---------------------------------------------------------------------------

/// Every setting that changed is planned for with its new value, and none that did
/// not; a changed device of either kind is told, both before and after.
pub proof fn law_what_is_planned(old: TunablesView, new: TunablesView)
    ensures
        ({
            let plan = plan_between(old, new);
            &&& plan.set_speech_threshold == (if old.speech_threshold != new.speech_threshold {
                Some(new.speech_threshold)
            } else {
                None
            })
            &&& plan.set_silence_ms == (if old.silence_duration_ms != new.silence_duration_ms {
                Some(new.silence_duration_ms)
            } else {
                None
            })
            &&& plan.set_followup_timeout_ms == (if old.followup_timeout_ms
                != new.followup_timeout_ms {
                Some(new.followup_timeout_ms)
            } else {
                None
            })
            &&& plan.set_conversation_reuse_window_ms == (if old.conversation_reuse_window_ms
                != new.conversation_reuse_window_ms {
                Some(new.conversation_reuse_window_ms)
            } else {
                None
            })
            &&& plan.set_conversation_mode == (if old.conversation_mode != new.conversation_mode {
                Some(new.conversation_mode)
            } else {
                None
            })
            &&& plan.set_idle_exit_timeout_ms == (if old.idle_exit_timeout_ms
                != new.idle_exit_timeout_ms {
                Some(new.idle_exit_timeout_ms)
            } else {
                None
            })
            &&& plan.set_response_stall_ms == (if old.response_stall_ms != new.response_stall_ms {
                Some(new.response_stall_ms)
            } else {
                None
            })
            &&& plan.set_turn_budget_ms == (if old.turn_budget_ms != new.turn_budget_ms {
                Some(new.turn_budget_ms)
            } else {
                None
            })
            &&& plan.set_status_narration_min_gap_ms == (if old.status_narration_min_gap_ms
                != new.status_narration_min_gap_ms {
                Some(new.status_narration_min_gap_ms)
            } else {
                None
            })
            &&& plan.rebuild_wake_sensitivity == (if old.wake_sensitivity != new.wake_sensitivity {
                Some(new.wake_sensitivity)
            } else {
                None
            })
            &&& plan.restart_required_for_device is Some <==> old.input_device != new.input_device
                || old.output_device != new.output_device
            &&& plan.restart_required_for_device is Some ==> plan.restart_required_for_device->0
                == "input "@ + quoted(old.input_device) + "->"@ + quoted(new.input_device)
                + ", output "@ + quoted(old.output_device) + "->"@ + quoted(new.output_device)
        }),
{
}

/// Which transport a name stands for, in whatever case: the web socket for `ws` and
/// `websocket`, the bus for `dbus`, and the local socket for `uds` and everything
/// else.
pub proof fn law_which_transport_is_meant(name: Seq<char>)
    ensures
        transport_for(name) is Ws <==> lowered(name) == "ws"@ || lowered(name) == "websocket"@,
        transport_for(name) is Dbus <==> lowered(name) == "dbus"@,
        transport_for(name) is Uds <==> lowered(name) != "ws"@ && lowered(name) != "websocket"@
            && lowered(name) != "dbus"@,
{
    reveal_strlit("ws");
    reveal_strlit("websocket");
    reveal_strlit("dbus");
    assert("ws"@.len() == 2 && "websocket"@.len() == 9 && "dbus"@.len() == 4);
}

/// Where the models and the configuration lie: below the directory that was found,
/// and below the working directory where none was.
pub proof fn law_where_things_lie(dir: PathView)
    ensures
        dir_or_here(Some(dir)) == dir,
        dir_or_here(None) == PathView::Text("."@),
        models_below(dir) == joined_path(dir, "adele-voice/models"@),
{
}

/// What is configured is taken, and the default only where nothing is.
pub proof fn law_what_is_configured_is_taken(
    set: Option<String>,
    default: Option<String>,
    path: Option<OwnedPath>,
    default_path: Option<OwnedPath>,
)
    ensures
        set is Some ==> first_of(set, default) == Some(set->0@),
        set is None && default is Some ==> first_of(set, default) == Some(default->0@),
        set is None && default is None ==> first_of(set, default) is None,
        path is Some ==> first_path_of(path, default_path) == Some(path_view(path->0)),
        path is None && default_path is Some ==> first_path_of(path, default_path) == Some(
            path_view(default_path->0),
        ),
        path is None && default_path is None ==> first_path_of(path, default_path) is None,
{
}

/// Which synthesizer a configuration asks for: the cloud only by its own name.
pub proof fn law_which_synthesizer_is_asked_for(backend: Seq<char>)
    ensures
        tts_choice_for(backend) is Polly <==> backend == "polly"@,
        tts_choice_for(backend) is KokoroOrPiper <==> backend == "kokoro"@,
        tts_choice_for(backend) is Piper <==> backend != "polly"@ && backend != "kokoro"@,
{
    reveal_strlit("polly");
    reveal_strlit("kokoro");
    assert("polly"@.len() == 5 && "kokoro"@.len() == 6);
}

/// What a synthesizer goes by where nothing is configured: Kokoro, with its own
/// voice and language, and no region for the cloud.
pub proof fn law_the_default_names(c: TtsConfig, models: PathView)
    ensures
        c.has_default_names() <==> {
            &&& c.backend@ == "kokoro"@
            &&& c.piper_binary@ == "piper"@
            &&& c.polly_voice@ == "Joanna"@
            &&& c.polly_engine@ == "neural"@
            &&& c.polly_region is None
            &&& c.kokoro_voice@ == "af_heart"@
            &&& c.kokoro_lang@ == "en-us"@
        },
        c.has_default_paths(models) <==> {
            &&& path_view(c.model_path) == joined_path(models, "en_US-amy-medium.onnx"@)
            &&& path_view(c.kokoro_model_path) == joined_path(models, "kokoro.onnx"@)
            &&& path_view(c.kokoro_voices_dir) == joined_path(models, "kokoro-voices"@)
        },
{
}

} // verus!
