//! Reports on what is installed: models, synthesizers and input devices.

use vstd::prelude::*;

use crate::config::Config;
use crate::paths::{
    join_path, joined_path, path_view, path_views, show_path, shown_path, text_path, FilePath,
    OwnedPath, PathView,
};
use crate::text::{append_decimal, chars_of, copy_of, decimal, same_text};

verus! {

/// What was found on this machine.
#[derive(Debug, Clone, Copy, PartialEq, Eq, Structural)]
pub struct SetupFacts {
    pub vad_model: bool,
    pub stt_model: bool,
    pub wake_model: bool,
    pub kokoro_model: bool,
    /// How many Kokoro voices there are.
    pub kokoro_voices: usize,
    pub espeak: bool,
    pub piper_binary: bool,
    pub piper_voice: bool,
    /// Whether there are credentials for the cloud.
    pub aws_credentials: bool,
}

pub open spec fn mark(found: bool) -> Seq<char> {
    if found {
        "ok  "@
    } else {
        "MISS"@
    }
}

fn mark_text(found: bool) -> (s: &'static str)
    ensures
        s@ == mark(found),
{
    if found {
        "ok  "
    } else {
        "MISS"
    }
}

pub open spec fn either(b: bool, yes: Seq<char>, no: Seq<char>) -> Seq<char> {
    if b {
        yes
    } else {
        no
    }
}

fn append_either(out: &mut String, b: bool, yes: &str, no: &str)
    ensures
        final(out)@ == old(out)@ + either(b, yes@, no@),
{
    if b {
        out.append(yes);
    } else {
        out.append(no);
    }
}

/// A line on a model: whether it was found, what it is and where.
pub open spec fn model_line(found: bool, what: Seq<char>, path: Seq<char>) -> Seq<char> {
    "  ["@ + mark(found) + "] "@ + what + path + "\n"@
}

fn append_model_line(out: &mut String, found: bool, what: &str, path: &str)
    ensures
        final(out)@ == old(out)@ + model_line(found, what@, path@),
{
    let ghost before = out@;
    out.append("  [");
    out.append(mark_text(found));
    out.append("] ");
    out.append(what);
    out.append(path);
    out.append("\n");
    proof {
        assert(out@ =~= before + model_line(found, what@, path@));
    }
}

/// The models that everything needs.
pub open spec fn base_report(config: Config, facts: SetupFacts) -> Seq<char> {
    "adele-voice — setup check\n\nBase models:\n"@ + model_line(
        facts.vad_model,
        "Silero VAD   "@,
        shown_path(path_view(config.vad.model_path)),
    ) + model_line(facts.stt_model, "Whisper STT  "@, shown_path(path_view(config.stt.model_path))) + model_line(
        facts.wake_model,
        "Wake word    "@,
        shown_path(path_view(config.wake_word.model_path)),
    )
}

/// Whether Kokoro can be used: it needs a model, a voice and a phonemizer.
pub open spec fn kokoro_ready(facts: SetupFacts) -> bool {
    facts.kokoro_model && facts.kokoro_voices > 0 && facts.espeak
}

pub open spec fn kokoro_line(facts: SetupFacts) -> Seq<char> {
    "  ["@ + mark(kokoro_ready(facts)) + "] kokoro (local, DEFAULT)   model:"@ + either(
        facts.kokoro_model,
        "yes"@,
        "no"@,
    ) + " voices:"@ + decimal(facts.kokoro_voices as nat) + " espeak-ng:"@ + either(
        facts.espeak,
        "yes"@,
        "NO"@,
    ) + "\n"@
}

pub open spec fn piper_line(facts: SetupFacts) -> Seq<char> {
    "  ["@ + mark(facts.piper_binary && facts.piper_voice)
        + "] piper  (local)            binary:"@ + either(facts.piper_binary, "yes"@, "no"@)
        + " voice:"@ + either(facts.piper_voice, "yes"@, "no"@) + "\n"@
}

pub open spec fn polly_line(facts: SetupFacts) -> Seq<char> {
    "  ["@ + either(facts.aws_credentials, "ok  "@, "--  "@)
        + "] polly  (CLOUD, BILLABLE)  AWS creds:"@ + either(
        facts.aws_credentials,
        "present"@,
        "none"@,
    ) + "  — opt-in only\n"@
}

/// The voice that the configured synthesizer speaks in. `stem` is the name of
/// the configured model's file without the extension.
pub open spec fn configured_voice(config: Config, stem: Option<Seq<char>>) -> Seq<char> {
    if config.tts.backend@ == "kokoro"@ {
        config.tts.kokoro_voice@
    } else if config.tts.backend@ == "polly"@ {
        config.tts.polly_voice@ + " ("@ + config.tts.polly_engine@ + ")"@
    } else {
        match stem {
            Some(s) => s,
            None => "?"@,
        }
    }
}

pub open spec fn backend_lines(config: Config, stem: Option<Seq<char>>) -> Seq<char> {
    "\nConfigured backend: "@ + config.tts.backend@ + "  (voice: "@ + configured_voice(
        config,
        stem,
    )
        + ")\nFallback policy: if the configured backend can't initialize it falls back to a LOCAL\nbackend (Piper) — never to a billable cloud backend automatically.\n"@
}

/// The whole report.
pub open spec fn setup_text(config: Config, facts: SetupFacts, stem: Option<Seq<char>>) -> Seq<
    char,
> {
    base_report(config, facts) + "\nTTS backends:\n"@ + kokoro_line(facts) + piper_line(facts)
        + polly_line(facts) + backend_lines(config, stem)
}

fn append_base(out: &mut String, config: &Config, facts: &SetupFacts)
    ensures
        final(out)@ == old(out)@ + base_report(*config, *facts),
{
    let ghost before = out@;
    out.append("adele-voice — setup check\n\nBase models:\n");
    append_model_line(out, facts.vad_model, "Silero VAD   ", show_path(&config.vad.model_path).as_str());
    append_model_line(out, facts.stt_model, "Whisper STT  ", show_path(&config.stt.model_path).as_str());
    append_model_line(out, facts.wake_model, "Wake word    ", show_path(&config.wake_word.model_path).as_str());
    proof {
        assert(out@ =~= before + base_report(*config, *facts));
    }
}

fn append_kokoro(out: &mut String, facts: &SetupFacts)
    ensures
        final(out)@ == old(out)@ + kokoro_line(*facts),
{
    let ghost before = out@;
    out.append("  [");
    out.append(mark_text(facts.kokoro_model && facts.kokoro_voices > 0 && facts.espeak));
    out.append("] kokoro (local, DEFAULT)   model:");
    append_either(out, facts.kokoro_model, "yes", "no");
    out.append(" voices:");
    append_decimal(out, facts.kokoro_voices as u128);
    out.append(" espeak-ng:");
    append_either(out, facts.espeak, "yes", "NO");
    out.append("\n");
    proof {
        assert(out@ =~= before + kokoro_line(*facts));
    }
}

fn append_piper(out: &mut String, facts: &SetupFacts)
    ensures
        final(out)@ == old(out)@ + piper_line(*facts),
{
    let ghost before = out@;
    out.append("  [");
    out.append(mark_text(facts.piper_binary && facts.piper_voice));
    out.append("] piper  (local)            binary:");
    append_either(out, facts.piper_binary, "yes", "no");
    out.append(" voice:");
    append_either(out, facts.piper_voice, "yes", "no");
    out.append("\n");
    proof {
        assert(out@ =~= before + piper_line(*facts));
    }
}

fn append_polly(out: &mut String, facts: &SetupFacts)
    ensures
        final(out)@ == old(out)@ + polly_line(*facts),
{
    let ghost before = out@;
    out.append("  [");
    append_either(out, facts.aws_credentials, "ok  ", "--  ");
    out.append("] polly  (CLOUD, BILLABLE)  AWS creds:");
    append_either(out, facts.aws_credentials, "present", "none");
    out.append("  — opt-in only\n");
    proof {
        assert(out@ =~= before + polly_line(*facts));
    }
}

fn append_voice(out: &mut String, config: &Config, stem: Option<&str>)
    ensures
        final(out)@ == old(out)@ + configured_voice(
            *config,
            match stem {
                Some(s) => Some(s@),
                None => None,
            },
        ),
{
    let ghost before = out@;
    let ghost told = configured_voice(
        *config,
        match stem {
            Some(s) => Some(s@),
            None => None,
        },
    );
    if same_text(config.tts.backend.as_str(), "kokoro") {
        out.append(config.tts.kokoro_voice.as_str());
    } else if same_text(config.tts.backend.as_str(), "polly") {
        out.append(config.tts.polly_voice.as_str());
        out.append(" (");
        out.append(config.tts.polly_engine.as_str());
        out.append(")");
        proof {
            assert(out@ =~= before + told);
        }
    } else {
        match stem {
            Some(s) => out.append(s),
            None => out.append("?"),
        }
    }
}

/// Reports which models and synthesizers are there, and which is configured.
/// `stem` is the name of the configured model's file without the extension.
pub fn check_setup(config: &Config, facts: &SetupFacts, stem: Option<&str>) -> (report: String)
    ensures
        report@ == setup_text(
            *config,
            *facts,
            match stem {
                Some(s) => Some(s@),
                None => None,
            },
        ),
{
    let ghost whole = setup_text(
        *config,
        *facts,
        match stem {
            Some(s) => Some(s@),
            None => None,
        },
    );
    let mut out = String::new();
    append_base(&mut out, config, facts);
    out.append("\nTTS backends:\n");
    append_kokoro(&mut out, facts);
    append_piper(&mut out, facts);
    append_polly(&mut out, facts);
    out.append("\nConfigured backend: ");
    out.append(config.tts.backend.as_str());
    out.append("  (voice: ");
    append_voice(&mut out, config, stem);
    out.append(
        ")\nFallback policy: if the configured backend can't initialize it falls back to a LOCAL\nbackend (Piper) — never to a billable cloud backend automatically.\n",
    );
    proof {
        assert(out@ =~= whole);
    }
    out
}

// ---------------------------------------------------------------------------
// Programs
// ---------------------------------------------------------------------------

/// Where a program may lie: where its name says, if it is a path, else in one
/// of the directories that programs are looked for in.
pub open spec fn program_paths(bin: Seq<char>, dirs: Seq<OwnedPath>) -> Seq<PathView> {
    if bin.contains('/') {
        seq![FilePath::Text(bin)]
    } else {
        dirs.map_values(|d: OwnedPath| joined_path(path_view(d), bin))
    }
}

fn has_slash(text: &str) -> (b: bool)
    ensures
        b == text@.contains('/'),
{
    let chars = chars_of(text);
    let mut i: usize = 0;
    while i < chars.len()
        invariant
            i <= chars@.len(),
            chars@ == text@,
            forall|k: int| 0 <= k < i ==> #[trigger] chars@[k] != '/',
        decreases chars@.len() - i,
    {
        if chars[i] == '/' {
            return true;
        }
        i += 1;
    }
    false
}

/// Where a program may lie, in the order to look.
pub fn binary_candidates(bin: &str, dirs: &Vec<OwnedPath>) -> (paths: Vec<OwnedPath>)
    ensures
        path_views(paths@) == program_paths(bin@, dirs@),
{
    let mut paths: Vec<OwnedPath> = Vec::new();
    if has_slash(bin) {
        paths.push(text_path(bin));
        proof {
            assert(path_views(paths@) =~= program_paths(bin@, dirs@));
        }
        return paths;
    }
    let mut i: usize = 0;
    while i < dirs.len()
        invariant
            i <= dirs@.len(),
            paths@.len() == i,
            forall|k: int| 0 <= k < i ==> path_view(#[trigger] paths@[k]) == joined_path(path_view(dirs@[k]), bin@),
        decreases dirs@.len() - i,
    {
        paths.push(join_path(&dirs[i], bin));
        i += 1;
    }
    proof {
        assert(path_views(paths@) =~= program_paths(bin@, dirs@));
    }
    paths
}

// ---------------------------------------------------------------------------
// Input devices
// ---------------------------------------------------------------------------

/// An input device as it is listed. `S` holds text.
#[derive(Debug, PartialEq, Eq)]
pub struct InputDeviceInfo<S> {
    pub value: S,
    pub label: S,
    pub is_default: bool,
    pub kind: S,
    pub supported: bool,
    pub rate: Option<u32>,
    pub channels: Option<u16>,
    pub reason: Option<S>,
}

pub open spec fn device_view(d: InputDeviceInfo<String>) -> InputDeviceInfo<Seq<char>> {
    InputDeviceInfo {
        value: d.value@,
        label: d.label@,
        is_default: d.is_default,
        kind: d.kind@,
        supported: d.supported,
        rate: d.rate,
        channels: d.channels,
        reason: match d.reason {
            Some(r) => Some(r@),
            None => None,
        },
    }
}

pub open spec fn device_views(v: Seq<InputDeviceInfo<String>>) -> Seq<InputDeviceInfo<Seq<char>>> {
    v.map_values(|d: InputDeviceInfo<String>| device_view(d))
}

/// The entry for whatever device the system uses, which always works.
pub open spec fn default_device() -> InputDeviceInfo<Seq<char>> {
    InputDeviceInfo {
        value: "default"@,
        label: "Follow system default (recommended)"@,
        is_default: true,
        kind: "default"@,
        supported: true,
        rate: None,
        channels: None,
        reason: None,
    }
}

/// Lists the input devices: the system's default first, then what was found.
pub fn list_devices(found: Vec<InputDeviceInfo<String>>) -> (list: Vec<InputDeviceInfo<String>>)
    ensures
        device_views(list@) == seq![default_device()] + device_views(found@),
{
    let mut list = found;
    list.insert(
        0,
        InputDeviceInfo {
            value: copy_of("default"),
            label: copy_of("Follow system default (recommended)"),
            is_default: true,
            kind: copy_of("default"),
            supported: true,
            rate: None,
            channels: None,
            reason: None,
        },
    );
    proof {
        assert(device_views(list@) =~= seq![default_device()] + device_views(found@));
    }
    list
}

// ---------------------------------------------------------------------------
// Laws
// ---------------------------------------------------------------------------

/// What is there is marked `ok`, and what is not is marked as missing, but for the
/// cloud, which nobody has to have.
pub proof fn law_what_is_marked(facts: SetupFacts, what: Seq<char>, path: Seq<char>)
    ensures
        model_line(true, what, path) == "  [ok  ] "@ + what + path + "\n"@,
        model_line(false, what, path) == "  [MISS] "@ + what + path + "\n"@,
        kokoro_ready(facts) <==> facts.kokoro_model && facts.kokoro_voices >= 1 && facts.espeak,
{
    reveal_strlit("  [");
    reveal_strlit("] ");
    reveal_strlit("ok  ");
    reveal_strlit("MISS");
    reveal_strlit("  [ok  ] ");
    reveal_strlit("  [MISS] ");
    assert("  ["@ + "ok  "@ + "] "@ =~= "  [ok  ] "@);
    assert("  ["@ + "MISS"@ + "] "@ =~= "  [MISS] "@);
}

/// The line on each synthesizer says whether it can be used, and what of it is
/// there.
pub proof fn law_what_is_said_of_synthesizers(facts: SetupFacts)
    ensures
        ({
            let k = kokoro_line(facts);
            let p = piper_line(facts);
            let c = polly_line(facts);
            &&& k == (if facts.kokoro_model && facts.kokoro_voices >= 1 && facts.espeak {
                "  ["@ + "ok  "@
            } else {
                "  ["@ + "MISS"@
            }) + "] kokoro (local, DEFAULT)   model:"@ + (if facts.kokoro_model {
                "yes"@
            } else {
                "no"@
            }) + " voices:"@ + decimal(facts.kokoro_voices as nat) + " espeak-ng:"@ + (
            if facts.espeak {
                "yes"@
            } else {
                "NO"@
            }) + "\n"@
            &&& p == (if facts.piper_binary && facts.piper_voice {
                "  ["@ + "ok  "@
            } else {
                "  ["@ + "MISS"@
            }) + "] piper  (local)            binary:"@ + (if facts.piper_binary {
                "yes"@
            } else {
                "no"@
            }) + " voice:"@ + (if facts.piper_voice {
                "yes"@
            } else {
                "no"@
            }) + "\n"@
            &&& c == (if facts.aws_credentials {
                "  ["@ + "ok  "@ + "] polly  (CLOUD, BILLABLE)  AWS creds:"@ + "present"@
            } else {
                "  ["@ + "--  "@ + "] polly  (CLOUD, BILLABLE)  AWS creds:"@ + "none"@
            }) + "  — opt-in only\n"@
        }),
{
}

/// The voice that is told is the one that the configured synthesizer speaks in.
pub proof fn law_which_voice_is_told(config: Config, stem: Option<Seq<char>>)
    ensures
        config.tts.backend@ == "kokoro"@ ==> configured_voice(config, stem)
            == config.tts.kokoro_voice@,
        config.tts.backend@ == "polly"@ ==> configured_voice(config, stem)
            == config.tts.polly_voice@ + " ("@ + config.tts.polly_engine@ + ")"@,
        config.tts.backend@ != "kokoro"@ && config.tts.backend@ != "polly"@ && stem is Some
            ==> configured_voice(config, stem) == stem->0,
        config.tts.backend@ != "kokoro"@ && config.tts.backend@ != "polly"@ && stem is None
            ==> configured_voice(config, stem) == "?"@,
{
    reveal_strlit("polly");
    reveal_strlit("kokoro");
    assert("polly"@.len() == 5 && "kokoro"@.len() == 6);
}

/// A program whose name is a path lies there and nowhere else; any other may lie
/// in each of the directories, in their order.
pub proof fn law_where_programs_lie(bin: Seq<char>, dirs: Seq<OwnedPath>, i: int)
    ensures
        (exists|k: int| 0 <= k < bin.len() && #[trigger] bin[k] == '/') ==> program_paths(bin, dirs)
            == seq![PathView::Text(bin)],
        (forall|k: int| 0 <= k < bin.len() ==> #[trigger] bin[k] != '/') ==> program_paths(
            bin,
            dirs,
        ).len() == dirs.len(),
        (forall|k: int| 0 <= k < bin.len() ==> #[trigger] bin[k] != '/') && 0 <= i < dirs.len()
            ==> program_paths(bin, dirs)[i] == joined_path(path_view(dirs[i]), bin),
{
    if bin.contains('/') {
        let k = choose|k: int| 0 <= k < bin.len() && bin[k] == '/';
        assert(bin[k] == '/');
    }
}

/// The first device listed is whatever the system uses: it is always there, always
/// works, and is the one recommended.
pub proof fn law_the_first_device()
    ensures
        default_device().value == "default"@,
        default_device().kind == "default"@,
        default_device().label == "Follow system default (recommended)"@,
        default_device().is_default,
        default_device().supported,
        default_device().rate is None,
        default_device().channels is None,
        default_device().reason is None,
{
}

/// The report names each base model with its own place, then each synthesizer, and
/// then the one that is configured, with its voice.
pub proof fn law_the_whole_report(config: Config, facts: SetupFacts, stem: Option<Seq<char>>)
    ensures
        setup_text(config, facts, stem) == "adele-voice — setup check\n\nBase models:\n"@
            + model_line(
            facts.vad_model,
            "Silero VAD   "@,
            shown_path(path_view(config.vad.model_path)),
        ) + model_line(
            facts.stt_model,
            "Whisper STT  "@,
            shown_path(path_view(config.stt.model_path)),
        ) + model_line(
            facts.wake_model,
            "Wake word    "@,
            shown_path(path_view(config.wake_word.model_path)),
        ) + "\nTTS backends:\n"@ + kokoro_line(facts) + piper_line(facts) + polly_line(facts)
            + "\nConfigured backend: "@ + config.tts.backend@ + "  (voice: "@ + configured_voice(
            config,
            stem,
        )
            + ")\nFallback policy: if the configured backend can't initialize it falls back to a LOCAL\nbackend (Piper) — never to a billable cloud backend automatically.\n"@,
{
    let whole = "adele-voice — setup check\n\nBase models:\n"@ + model_line(
        facts.vad_model,
        "Silero VAD   "@,
        shown_path(path_view(config.vad.model_path)),
    ) + model_line(facts.stt_model, "Whisper STT  "@, shown_path(path_view(config.stt.model_path)))
        + model_line(
        facts.wake_model,
        "Wake word    "@,
        shown_path(path_view(config.wake_word.model_path)),
    ) + "\nTTS backends:\n"@ + kokoro_line(facts) + piper_line(facts) + polly_line(facts)
        + "\nConfigured backend: "@ + config.tts.backend@ + "  (voice: "@ + configured_voice(
        config,
        stem,
    )
        + ")\nFallback policy: if the configured backend can't initialize it falls back to a LOCAL\nbackend (Piper) — never to a billable cloud backend automatically.\n"@;
    assert(setup_text(config, facts, stem) =~= whole);
}

} // verus!
