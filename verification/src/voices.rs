//! The voices that texts can be spoken in, and the requests that concern them.

use vstd::prelude::*;
use vstd::relations::{sorted_by, total_ordering};
use vstd::seq_lib::lemma_sorted_unique;

use crate::config::{tts_choice_for, TtsChoice};
use crate::json::{json_at, leaf_view, read_json, JsonLeaf};
use crate::paths::{
    copy_path, file_in, path_in, path_view, show_path, shown_path, OwnedPath, PathView,
};
use crate::speaker::{say_plan, SayStep, Speaker};
use crate::speech_text::spoken;
use crate::text::{append_decimal, chars_of, copy_of, decimal, same_text};
use crate::time::Duration;

verus! {

/// The rate of a voice that does not say.
pub const DEFAULT_PIPER_SAMPLE_RATE: u32 = 22_050;

// ---------------------------------------------------------------------------
// What a voice says of itself
// ---------------------------------------------------------------------------

/// A text found in JSON; empty where there is none.
pub open spec fn text_or_empty(leaf: Option<JsonLeaf<Seq<char>>>) -> Seq<char> {
    match leaf {
        Some(JsonLeaf::Text(s)) => s,
        _ => Seq::empty(),
    }
}

/// The low half of a number found in JSON; `default` where there is none.
pub open spec fn number_or(leaf: Option<JsonLeaf<Seq<char>>>, default: u32) -> u32 {
    match leaf {
        Some(JsonLeaf::Unsigned(n)) => (n % 4_294_967_296) as u32,
        _ => default,
    }
}

fn text_of(leaf: Option<JsonLeaf<String>>) -> (s: String)
    ensures
        s@ == text_or_empty(leaf_view(leaf)),
{
    match leaf {
        Some(JsonLeaf::Text(s)) => s,
        _ => String::new(),
    }
}

fn number_of(leaf: Option<JsonLeaf<String>>, default: u32) -> (n: u32)
    ensures
        n == number_or(leaf_view(leaf), default),
{
    match leaf {
        Some(JsonLeaf::Unsigned(n)) => (n % 4_294_967_296) as u32,
        _ => default,
    }
}

/// Puts together what was found in a voice's description: its name, language,
/// number of speakers and sample rate. The language's code is preferred to its
/// family.
pub fn voice_metadata_from(
    dataset: Option<JsonLeaf<String>>,
    code: Option<JsonLeaf<String>>,
    family: Option<JsonLeaf<String>>,
    speakers: Option<JsonLeaf<String>>,
    rate: Option<JsonLeaf<String>>,
) -> (m: (String, String, u32, u32))
    ensures
        m.0@ == text_or_empty(leaf_view(dataset)),
        m.1@ == text_or_empty(
            if code is Some {
                leaf_view(code)
            } else {
                leaf_view(family)
            },
        ),
        m.2 == number_or(leaf_view(speakers), 1),
        m.3 == number_or(leaf_view(rate), DEFAULT_PIPER_SAMPLE_RATE),
{
    let language = match code {
        Some(leaf) => text_of(Some(leaf)),
        None => text_of(family),
    };
    (
        text_of(dataset),
        language,
        number_of(speakers, 1),
        number_of(rate, DEFAULT_PIPER_SAMPLE_RATE),
    )
}

/// The name in a voice's description.
pub open spec fn described_name(json: Seq<char>) -> Seq<char> {
    text_or_empty(json_at(json, "/dataset"@))
}

/// The language in a voice's description.
pub open spec fn described_language(json: Seq<char>) -> Seq<char> {
    let code = json_at(json, "/language/code"@);
    text_or_empty(
        if code is Some {
            code
        } else {
            json_at(json, "/language/family"@)
        },
    )
}

/// The number of speakers in a voice's description.
pub open spec fn described_speakers(json: Seq<char>) -> u32 {
    number_or(json_at(json, "/num_speakers"@), 1)
}

/// The sample rate in a voice's description.
pub open spec fn described_rate(json: Seq<char>) -> u32 {
    number_or(json_at(json, "/audio/sample_rate"@), DEFAULT_PIPER_SAMPLE_RATE)
}

/// Reads a voice's description: its name, language, number of speakers and
/// sample rate.
pub fn parse_voice_metadata(json: &str) -> (m: (String, String, u32, u32))
    ensures
        m.0@ == described_name(json@),
        m.1@ == described_language(json@),
        m.2 == described_speakers(json@),
        m.3 == described_rate(json@),
{
    voice_metadata_from(
        read_json(json, "/dataset"),
        read_json(json, "/language/code"),
        read_json(json, "/language/family"),
        read_json(json, "/num_speakers"),
        read_json(json, "/audio/sample_rate"),
    )
}

/// Reads a voice's description, if it could be had; else the voice says nothing
/// of itself.
pub fn read_voice_metadata(json: Option<&str>) -> (m: (String, String, u32, u32))
    ensures
        match json {
            Some(text) => {
                &&& m.0@ == described_name(text@)
                &&& m.1@ == described_language(text@)
                &&& m.2 == described_speakers(text@)
                &&& m.3 == described_rate(text@)
            },
            None => {
                &&& m.0@ == Seq::<char>::empty()
                &&& m.1@ == Seq::<char>::empty()
                &&& m.2 == 1
                &&& m.3 == DEFAULT_PIPER_SAMPLE_RATE
            },
        },
{
    match json {
        Some(text) => parse_voice_metadata(text),
        None => (String::new(), String::new(), 1, DEFAULT_PIPER_SAMPLE_RATE),
    }
}

// ---------------------------------------------------------------------------
// The order of voices
// ---------------------------------------------------------------------------

/// A voice that can be chosen. `S` holds text.
#[derive(Debug, PartialEq, Eq)]
pub struct VoiceInfo<S> {
    pub id: S,
    pub name: S,
    pub language: S,
    pub num_speakers: u32,
}

pub open spec fn voice_view(v: VoiceInfo<String>) -> VoiceInfo<Seq<char>> {
    VoiceInfo {
        id: v.id@,
        name: v.name@,
        language: v.language@,
        num_speakers: v.num_speakers,
    }
}

pub open spec fn voice_views(v: Seq<VoiceInfo<String>>) -> Seq<VoiceInfo<Seq<char>>> {
    v.map_values(|x: VoiceInfo<String>| voice_view(x))
}

/// Whether a text stands before another in a dictionary, or is the same.
pub open spec fn text_at_most(a: Seq<char>, b: Seq<char>) -> bool
    decreases a.len(),
{
    if a.len() == 0 {
        true
    } else if b.len() == 0 {
        false
    } else if a[0] == b[0] {
        text_at_most(a.drop_first(), b.drop_first())
    } else {
        a[0] < b[0]
    }
}

/// Whether a voice is listed before another, or is the same: by id, name,
/// language and number of speakers.
pub open spec fn voice_at_most(a: VoiceInfo<Seq<char>>, b: VoiceInfo<Seq<char>>) -> bool {
    if a.id != b.id {
        text_at_most(a.id, b.id)
    } else if a.name != b.name {
        text_at_most(a.name, b.name)
    } else if a.language != b.language {
        text_at_most(a.language, b.language)
    } else {
        a.num_speakers <= b.num_speakers
    }
}

pub open spec fn voice_order() -> spec_fn(VoiceInfo<Seq<char>>, VoiceInfo<Seq<char>>) -> bool {
    |a: VoiceInfo<Seq<char>>, b: VoiceInfo<Seq<char>>| voice_at_most(a, b)
}

proof fn lemma_text_total(a: Seq<char>, b: Seq<char>)
    ensures
        text_at_most(a, b) || text_at_most(b, a),
        text_at_most(a, b) && text_at_most(b, a) ==> a == b,
        a == b ==> text_at_most(a, b),
    decreases a.len(),
{
    if a.len() > 0 && b.len() > 0 {
        lemma_text_total(a.drop_first(), b.drop_first());
        if a[0] == b[0] && a.drop_first() == b.drop_first() {
            assert(a =~= seq![a[0]] + a.drop_first());
            assert(b =~= seq![b[0]] + b.drop_first());
        }
    } else if a.len() == 0 && b.len() == 0 {
        assert(a =~= b);
    }
}

proof fn lemma_text_transitive(a: Seq<char>, b: Seq<char>, c: Seq<char>)
    requires
        text_at_most(a, b),
        text_at_most(b, c),
    ensures
        text_at_most(a, c),
    decreases a.len(),
{
    if a.len() > 0 && b.len() > 0 && c.len() > 0 && a[0] == b[0] && b[0] == c[0] {
        lemma_text_transitive(a.drop_first(), b.drop_first(), c.drop_first());
    }
}

proof fn lemma_voices_transitive(
    a: VoiceInfo<Seq<char>>,
    b: VoiceInfo<Seq<char>>,
    c: VoiceInfo<Seq<char>>,
)
    requires
        voice_at_most(a, b),
        voice_at_most(b, c),
    ensures
        voice_at_most(a, c),
{
    if text_at_most(a.id, b.id) && text_at_most(b.id, c.id) {
        lemma_text_transitive(a.id, b.id, c.id);
    }
    if text_at_most(a.name, b.name) && text_at_most(b.name, c.name) {
        lemma_text_transitive(a.name, b.name, c.name);
    }
    if text_at_most(a.language, b.language) && text_at_most(b.language, c.language) {
        lemma_text_transitive(a.language, b.language, c.language);
    }
    lemma_text_total(a.id, b.id);
    lemma_text_total(b.id, c.id);
    lemma_text_total(a.name, b.name);
    lemma_text_total(b.name, c.name);
    lemma_text_total(a.language, b.language);
    lemma_text_total(b.language, c.language);
}

proof fn lemma_voices_total(a: VoiceInfo<Seq<char>>, b: VoiceInfo<Seq<char>>)
    ensures
        voice_at_most(a, b) || voice_at_most(b, a),
        voice_at_most(a, b) && voice_at_most(b, a) ==> a == b,
{
    lemma_text_total(a.id, b.id);
    lemma_text_total(a.name, b.name);
    lemma_text_total(a.language, b.language);
}

/// Any two voices are in one order or the other, and in both only if they are
/// the same.
pub proof fn law_voice_order_is_total()
    ensures
        total_ordering(voice_order()),
{
    let r = voice_order();
    assert forall|x: VoiceInfo<Seq<char>>, y: VoiceInfo<Seq<char>>|
        #[trigger] r(x, y) || #[trigger] r(y, x) by {
        lemma_voices_total(x, y);
    }
    assert forall|x: VoiceInfo<Seq<char>>, y: VoiceInfo<Seq<char>>| #[trigger]
        r(x, y) && #[trigger] r(y, x) implies x == y by {
        lemma_voices_total(x, y);
    }
    assert forall|x: VoiceInfo<Seq<char>>, y: VoiceInfo<Seq<char>>, z: VoiceInfo<Seq<char>>|
        #[trigger]
        r(x, y) && #[trigger] r(y, z) implies r(x, z) by {
        lemma_voices_transitive(x, y, z);
    }
}

fn chars_at_most(a: &Vec<char>, b: &Vec<char>) -> (r: bool)
    ensures
        r == text_at_most(a@, b@),
{
    let mut i: usize = 0;
    proof {
        assert(a@.skip(0) =~= a@);
        assert(b@.skip(0) =~= b@);
    }
    while i < a.len() && i < b.len()
        invariant
            i <= a@.len(),
            i <= b@.len(),
            text_at_most(a@, b@) == text_at_most(a@.skip(i as int), b@.skip(i as int)),
        decreases a@.len() - i,
    {
        let x = a[i];
        let y = b[i];
        proof {
            assert(a@.skip(i as int)[0] == x && b@.skip(i as int)[0] == y);
            assert(a@.skip(i as int).drop_first() =~= a@.skip(i + 1));
            assert(b@.skip(i as int).drop_first() =~= b@.skip(i + 1));
        }
        if x != y {
            return x < y;
        }
        i += 1;
    }
    i >= a.len()
}

fn texts_at_most(a: &str, b: &str) -> (r: bool)
    ensures
        r == text_at_most(a@, b@),
{
    chars_at_most(&chars_of(a), &chars_of(b))
}

fn voices_at_most(a: &VoiceInfo<String>, b: &VoiceInfo<String>) -> (r: bool)
    ensures
        r == voice_at_most(voice_view(*a), voice_view(*b)),
{
    if !same_text(a.id.as_str(), b.id.as_str()) {
        texts_at_most(a.id.as_str(), b.id.as_str())
    } else if !same_text(a.name.as_str(), b.name.as_str()) {
        texts_at_most(a.name.as_str(), b.name.as_str())
    } else if !same_text(a.language.as_str(), b.language.as_str()) {
        texts_at_most(a.language.as_str(), b.language.as_str())
    } else {
        a.num_speakers <= b.num_speakers
    }
}

/// Puts a voice where it belongs among others that are in order.
fn insert_voice(voices: &mut Vec<VoiceInfo<String>>, voice: VoiceInfo<String>)
    requires
        sorted_by(voice_views(old(voices)@), voice_order()),
    ensures
        sorted_by(voice_views(final(voices)@), voice_order()),
        voice_views(final(voices)@).to_multiset() == voice_views(
            old(voices)@,
        ).to_multiset().insert(voice_view(voice)),
{
    let ghost before = voice_views(voices@);
    let ghost added = voice_view(voice);
    let ghost leq = voice_order();
    let mut i: usize = 0;
    while i < voices.len() && voices_at_most(&voices[i], &voice)
        invariant
            i <= voices@.len(),
            before == voice_views(voices@),
            added == voice_view(voice),
            leq == voice_order(),
            forall|k: int| 0 <= k < i ==> #[trigger] leq(before[k], added),
        ensures
            i < voices@.len() ==> !leq(before[i as int], added),
        decreases voices@.len() - i,
    {
        i += 1;
    }
    voices.insert(i, voice);
    proof {
        broadcast use vstd::seq_lib::group_to_multiset_ensures;

        let after = voice_views(voices@);
        assert(after =~= before.insert(i as int, added));
        assert forall|k: int| i <= k < before.len() implies leq(added, before[k]) by {
            lemma_voices_total(added, before[i as int]);
            if k > i {
                assert(leq(before[i as int], before[k]));
                lemma_voices_transitive(added, before[i as int], before[k]);
            }
        }
        assert forall|j: int, k: int| 0 <= j < k < after.len() implies #[trigger] leq(
            after[j],
            after[k],
        ) by {
            let jj = if j < i {
                j
            } else {
                j - 1
            };
            let kk = if k < i {
                k
            } else {
                k - 1
            };
            if j == i {
                assert(leq(added, before[kk]));
            } else if k == i {
                assert(leq(before[jj], added));
            } else {
                assert(leq(before[jj], before[kk]));
            }
        }
    }
}

// ---------------------------------------------------------------------------
// Which voices there are
// ---------------------------------------------------------------------------

/// The description that lies beside a voice's model.
pub enum Sidecar {
    /// There is none: the model is no voice's.
    Missing,
    /// There is one that could not be read.
    Unreadable,
    Text(String),
}

/// A file found where models lie.
pub struct ModelFile {
    /// Its name without the extension, if it has a name.
    pub stem: Option<String>,
    /// Its extension, if it has one.
    pub extension: Option<String>,
    pub sidecar: Sidecar,
}

/// The voice that a file holds, if it holds one.
pub open spec fn voice_in(file: ModelFile) -> Option<VoiceInfo<Seq<char>>> {
    if file.stem is Some && file.extension is Some && file.extension->0@ == "onnx"@ {
        match file.sidecar {
            Sidecar::Missing => None,
            Sidecar::Unreadable => Some(
                VoiceInfo {
                    id: file.stem->0@,
                    name: file.stem->0@,
                    language: Seq::empty(),
                    num_speakers: 1,
                },
            ),
            Sidecar::Text(json) => Some(
                VoiceInfo {
                    id: file.stem->0@,
                    name: if described_name(json@).len() == 0 {
                        file.stem->0@
                    } else {
                        described_name(json@)
                    },
                    language: described_language(json@),
                    num_speakers: described_speakers(json@),
                },
            ),
        }
    } else {
        None
    }
}

/// The voices that several files hold, in the order of the files.
pub open spec fn voices_in(files: Seq<ModelFile>) -> Seq<VoiceInfo<Seq<char>>>
    decreases files.len(),
{
    if files.len() == 0 {
        Seq::empty()
    } else {
        let found = voices_in(files.drop_last());
        match voice_in(files.last()) {
            Some(v) => found.push(v),
            None => found,
        }
    }
}

fn voice_of(file: &ModelFile) -> (v: Option<VoiceInfo<String>>)
    ensures
        v is Some <==> voice_in(*file) is Some,
        v is Some ==> voice_view(v->0) == voice_in(*file)->0,
{
    let stem = match &file.stem {
        Some(s) => s,
        None => return None,
    };
    match &file.extension {
        Some(e) => {
            if !same_text(e.as_str(), "onnx") {
                return None;
            }
        },
        None => return None,
    }
    let (name, language, num_speakers, _rate) = match &file.sidecar {
        Sidecar::Missing => return None,
        Sidecar::Unreadable => read_voice_metadata(None),
        Sidecar::Text(json) => read_voice_metadata(Some(json.as_str())),
    };
    let name = if name.as_str().is_empty() {
        copy_of(stem.as_str())
    } else {
        name
    };
    Some(VoiceInfo { id: copy_of(stem.as_str()), name, language, num_speakers })
}

/// The voices that several files hold, in the order of voices.
pub fn list_voices(files: &Vec<ModelFile>) -> (voices: Vec<VoiceInfo<String>>)
    ensures
        voice_views(voices@) == voices_in(files@).sort_by(voice_order()),
{
    let mut voices: Vec<VoiceInfo<String>> = Vec::new();
    let mut i: usize = 0;
    proof {
        assert(files@.take(0) =~= Seq::<ModelFile>::empty());
        assert(voice_views(voices@) =~= voices_in(files@.take(0)));
    }
    while i < files.len()
        invariant
            i <= files@.len(),
            sorted_by(voice_views(voices@), voice_order()),
            voice_views(voices@).to_multiset() == voices_in(files@.take(i as int)).to_multiset(),
        decreases files@.len() - i,
    {
        proof {
            broadcast use vstd::seq_lib::group_to_multiset_ensures;

            assert(files@.take(i + 1).drop_last() =~= files@.take(i as int));
        }
        if let Some(voice) = voice_of(&files[i]) {
            insert_voice(&mut voices, voice);
        }
        i += 1;
    }
    proof {
        assert(files@.take(i as int) =~= files@);
        law_voice_order_is_total();
        let all = voices_in(files@);
        all.lemma_sort_by_ensures(voice_order());
        lemma_sorted_unique(voice_views(voices@), all.sort_by(voice_order()), voice_order());
    }
    voices
}

/// A cloud voice.
pub open spec fn polly_voice(id: Seq<char>, name: Seq<char>, language: Seq<char>) -> VoiceInfo<
    Seq<char>,
> {
    VoiceInfo { id, name, language, num_speakers: 1 }
}

/// The cloud voices on offer.
pub open spec fn polly_list() -> Seq<VoiceInfo<Seq<char>>> {
    seq![
        polly_voice("Joanna"@, "Joanna (female, US)"@, "en_US"@),
        polly_voice("Matthew"@, "Matthew (male, US)"@, "en_US"@),
        polly_voice("Ruth"@, "Ruth (female, US)"@, "en_US"@),
        polly_voice("Stephen"@, "Stephen (male, US)"@, "en_US"@),
        polly_voice("Danielle"@, "Danielle (female, US)"@, "en_US"@),
        polly_voice("Gregory"@, "Gregory (male, US)"@, "en_US"@),
        polly_voice("Amy"@, "Amy (female, GB)"@, "en_GB"@),
        polly_voice("Arthur"@, "Arthur (male, GB)"@, "en_GB"@),
    ]
}

fn push_voice(voices: &mut Vec<VoiceInfo<String>>, id: &str, name: &str, language: &str)
    ensures
        voice_views(final(voices)@) == voice_views(old(voices)@).push(
            polly_voice(id@, name@, language@),
        ),
{
    let ghost before = voices@;
    voices.push(
        VoiceInfo {
            id: copy_of(id),
            name: copy_of(name),
            language: copy_of(language),
            num_speakers: 1,
        },
    );
    proof {
        assert(voice_views(voices@) =~= voice_views(before).push(
            polly_voice(id@, name@, language@),
        ));
    }
}

/// The cloud voices on offer.
pub fn polly_voices() -> (voices: Vec<VoiceInfo<String>>)
    ensures
        voice_views(voices@) == polly_list(),
{
    let mut voices: Vec<VoiceInfo<String>> = Vec::new();
    push_voice(&mut voices, "Joanna", "Joanna (female, US)", "en_US");
    push_voice(&mut voices, "Matthew", "Matthew (male, US)", "en_US");
    push_voice(&mut voices, "Ruth", "Ruth (female, US)", "en_US");
    push_voice(&mut voices, "Stephen", "Stephen (male, US)", "en_US");
    push_voice(&mut voices, "Danielle", "Danielle (female, US)", "en_US");
    push_voice(&mut voices, "Gregory", "Gregory (male, US)", "en_US");
    push_voice(&mut voices, "Amy", "Amy (female, GB)", "en_GB");
    push_voice(&mut voices, "Arthur", "Arthur (male, GB)", "en_GB");
    proof {
        assert(voice_views(voices@) =~= polly_list());
    }
    voices
}

/// A Kokoro voice: one whose name begins with a `b` is British.
pub open spec fn kokoro_voice(name: Seq<char>) -> VoiceInfo<Seq<char>> {
    VoiceInfo {
        id: name,
        name,
        language: if name.len() > 0 && name[0] == 'b' {
            "en_GB"@
        } else {
            "en_US"@
        },
        num_speakers: 1,
    }
}

/// The Kokoro voices with these names.
pub fn kokoro_voices(names: &Vec<String>) -> (voices: Vec<VoiceInfo<String>>)
    ensures
        voice_views(voices@) == names@.map_values(|n: String| kokoro_voice(n@)),
{
    let mut voices: Vec<VoiceInfo<String>> = Vec::new();
    let mut i: usize = 0;
    while i < names.len()
        invariant
            i <= names@.len(),
            voice_views(voices@) == names@.take(i as int).map_values(
                |n: String| kokoro_voice(n@),
            ),
        decreases names@.len() - i,
    {
        let name = names[i].as_str();
        let chars = chars_of(name);
        let ghost before = voices@;
        let british = chars.len() > 0 && chars[0] == 'b';
        if british {
            push_voice(&mut voices, name, name, "en_GB");
        } else {
            push_voice(&mut voices, name, name, "en_US");
        }
        i += 1;
        proof {
            assert(voice_views(voices@) =~= names@.take(i as int).map_values(
                |n: String| kokoro_voice(n@),
            ));
        }
    }
    proof {
        assert(names@.take(i as int) =~= names@);
    }
    voices
}

// ---------------------------------------------------------------------------
// Choosing a voice
// ---------------------------------------------------------------------------

/// Where a voice's model lies.
pub fn voice_model_path(models_dir: &OwnedPath, voice_id: &str) -> (path: OwnedPath)
    ensures
        path_view(path) == path_in(path_view(*models_dir), voice_id@ + ".onnx"@),
{
    let mut name = copy_of(voice_id);
    name.append(".onnx");
    file_in(models_dir, name.as_str())
}

/// Where a voice's description lies.
pub fn voice_sidecar_path(models_dir: &OwnedPath, voice_id: &str) -> (path: OwnedPath)
    ensures
        path_view(path) == path_in(path_view(*models_dir), voice_id@ + ".onnx.json"@),
{
    let mut name = copy_of(voice_id);
    name.append(".onnx.json");
    file_in(models_dir, name.as_str())
}

/// The voice to speak in from now on. `P` is a path.
#[derive(Debug, PartialEq, Eq)]
pub struct VoiceSelection<P> {
    pub model: P,
    pub speaker: Option<i64>,
    pub sample_rate: u32,
}

pub open spec fn selection_view(r: Result<VoiceSelection<OwnedPath>, String>) -> Result<
    VoiceSelection<PathView>,
    Seq<char>,
> {
    match r {
        Ok(v) => Ok(
            VoiceSelection { model: path_view(v.model), speaker: v.speaker, sample_rate: v.sample_rate },
        ),
        Err(e) => Err(e@),
    }
}

/// The voice that a request selects, where its description gives `num_speakers`
/// and `rate`. A speaker is checked against their number; a negative one stands
/// for none in particular.
pub open spec fn selected(
    models_dir: PathView,
    voice_id: Seq<char>,
    speaker: i32,
    exists: bool,
    num_speakers: u32,
    rate: u32,
) -> Result<VoiceSelection<PathView>, Seq<char>> {
    if !exists {
        Err("voice '"@ + voice_id + "' not found in "@ + shown_path(models_dir))
    } else if speaker >= 0 && speaker >= num_speakers && speaker >= 1 {
        Err(
            "speaker "@ + decimal(speaker as nat) + " out of range (voice '"@ + voice_id
                + "' has "@ + decimal(num_speakers as nat) + ")"@,
        )
    } else {
        Ok(
            VoiceSelection {
                model: path_in(models_dir, voice_id + ".onnx"@),
                speaker: if speaker >= 0 {
                    Some(speaker as i64)
                } else {
                    None
                },
                sample_rate: rate,
            },
        )
    }
}

/// Selects a voice whose description has been read.
pub fn select_voice(
    models_dir: &OwnedPath,
    voice_id: &str,
    speaker: i32,
    exists: bool,
    num_speakers: u32,
    rate: u32,
) -> (r: Result<VoiceSelection<OwnedPath>, String>)
    ensures
        selection_view(r) == selected(
            path_view(*models_dir),
            voice_id@,
            speaker,
            exists, num_speakers, rate),
{
    if !exists {
        let mut m = copy_of("voice '");
        m.append(voice_id);
        m.append("' not found in ");
        m.append(show_path(models_dir).as_str());
        return Err(m);
    }
    let most: u32 = if num_speakers >= 1 {
        num_speakers
    } else {
        1
    };
    let chosen = if speaker >= 0 {
        if speaker as u32 >= most {
            let mut m = copy_of("speaker ");
            append_decimal(&mut m, speaker as u128);
            m.append(" out of range (voice '");
            m.append(voice_id);
            m.append("' has ");
            append_decimal(&mut m, num_speakers as u128);
            m.append(")");
            return Err(m);
        }
        Some(speaker as i64)
    } else {
        None
    };
    Ok(
        VoiceSelection {
            model: voice_model_path(models_dir, voice_id),
            speaker: chosen,
            sample_rate: rate,
        },
    )
}

/// Selects a voice. `exists` says whether its model does, and `json` is its
/// description, if that could be read.
pub fn set_voice(
    models_dir: &OwnedPath,
    voice_id: &str,
    speaker: i32,
    exists: bool,
    json: Option<&str>,
) -> (r: Result<VoiceSelection<OwnedPath>, String>)
    ensures
        selection_view(r) == selected(
            path_view(*models_dir),
            voice_id@,
            speaker,
            exists,
            match json {
                Some(text) => described_speakers(text@),
                None => 1,
            },
            match json {
                Some(text) => described_rate(text@),
                None => DEFAULT_PIPER_SAMPLE_RATE,
            },
        ),
{
    let (_, _, num_speakers, rate) = read_voice_metadata(json);
    select_voice(models_dir, voice_id, speaker, exists, num_speakers, rate)
}

/// The voice in use as it is told: its id, and its speaker or minus one. `stem`
/// is the name of its model's file without the extension.
pub fn current_voice(stem: Option<&str>, speaker: Option<i64>) -> (v: (String, i32))
    ensures
        v.0@ == (match stem {
            Some(s) => s@,
            None => Seq::empty(),
        }),
        v.1 == (match speaker {
            Some(s) => s as i32 as int,
            None => -1,
        }),
{
    let id = match stem {
        Some(s) => copy_of(s),
        None => String::new(),
    };
    let number: i32 = match speaker {
        Some(s) => {
            #[verifier::truncate]
            (s as i32)
        },
        None => -1,
    };
    (id, number)
}

// ---------------------------------------------------------------------------
// Requests
// ---------------------------------------------------------------------------

/// What synthesizes speech.
#[derive(Debug, Clone, Copy, PartialEq, Eq, Structural)]
pub enum TtsKind {
    Piper,
    Polly,
    Kokoro,
}

/// The synthesizer that a choice comes to, where Kokoro could be loaded or not.
pub open spec fn settled_kind(choice: TtsChoice, kokoro_loaded: bool) -> TtsKind {
    match choice {
        TtsChoice::Polly => TtsKind::Polly,
        TtsChoice::KokoroOrPiper => if kokoro_loaded {
            TtsKind::Kokoro
        } else {
            TtsKind::Piper
        },
        TtsChoice::Piper => TtsKind::Piper,
    }
}

/// Settles on a synthesizer, where Kokoro could be loaded or not.
pub fn settled(choice: TtsChoice, kokoro_loaded: bool) -> (kind: TtsKind)
    ensures
        kind == settled_kind(choice, kokoro_loaded),
{
    match choice {
        TtsChoice::Polly => TtsKind::Polly,
        TtsChoice::KokoroOrPiper => {
            if kokoro_loaded {
                TtsKind::Kokoro
            } else {
                TtsKind::Piper
            }
        },
        TtsChoice::Piper => TtsKind::Piper,
    }
}

/// The fallback is always local: the cloud is used where it is asked for by
/// name, and nowhere else; Kokoro where it is asked for and can be loaded; and
/// Piper in every other case.
pub proof fn law_fallback_is_local(backend: Seq<char>, kokoro_loaded: bool)
    ensures
        ({
            let kind = settled_kind(tts_choice_for(backend), kokoro_loaded);
            &&& kind is Polly <==> backend == "polly"@
            &&& kind is Kokoro <==> backend == "kokoro"@ && kokoro_loaded
            &&& kind is Piper <==> backend != "polly"@ && !(backend == "kokoro"@ && kokoro_loaded)
        }),
{
    reveal_strlit("polly");
    reveal_strlit("kokoro");
    assert("polly"@.len() == 5 && "kokoro"@.len() == 6);
}

/// A request for speech or about voices. `S` holds text.
#[derive(Debug, PartialEq, Eq)]
pub enum TtsCommand<S> {
    /// Speak this.
    Say(S),
    /// Synthesize this, and give it back as a WAV file.
    Synthesize(S),
    ListVoices,
    GetVoice,
    SetVoice { voice_id: S, speaker: i32 },
}

pub open spec fn command_view(c: TtsCommand<String>) -> TtsCommand<Seq<char>> {
    match c {
        TtsCommand::Say(s) => TtsCommand::Say(s@),
        TtsCommand::Synthesize(s) => TtsCommand::Synthesize(s@),
        TtsCommand::ListVoices => TtsCommand::ListVoices,
        TtsCommand::GetVoice => TtsCommand::GetVoice,
        TtsCommand::SetVoice { voice_id, speaker } => TtsCommand::SetVoice {
            voice_id: voice_id@,
            speaker,
        },
    }
}

/// What to do for a request. `S` holds text, `P` is a path.
#[derive(Debug, PartialEq, Eq)]
pub enum TtsWork<S, P> {
    /// Nothing: there is nothing to speak.
    Nothing,
    /// Synthesize this within the time given, and play it.
    Speak { text: S, within: Option<Duration> },
    /// Synthesize this and encode it.
    Encode(S),
    /// Look where the models lie, and list the voices there.
    ListModels,
    /// List the cloud voices.
    ListPolly,
    /// Look where the Kokoro voices lie, and list them.
    ListKokoro,
    /// Tell which voice is in use.
    TellVoice,
    /// Look for the model and the description of this voice, and select it.
    LookUp { voice_id: S, speaker: i32, model: P, sidecar: P },
    /// Use this cloud voice with the engine in use.
    UsePolly(S),
    /// Use this Kokoro voice.
    UseKokoro(S),
}

pub open spec fn work_view(w: TtsWork<String, OwnedPath>) -> TtsWork<Seq<char>, PathView> {
    match w {
        TtsWork::Nothing => TtsWork::Nothing,
        TtsWork::Speak { text, within } => TtsWork::Speak { text: text@, within },
        TtsWork::Encode(s) => TtsWork::Encode(s@),
        TtsWork::ListModels => TtsWork::ListModels,
        TtsWork::ListPolly => TtsWork::ListPolly,
        TtsWork::ListKokoro => TtsWork::ListKokoro,
        TtsWork::TellVoice => TtsWork::TellVoice,
        TtsWork::LookUp { voice_id, speaker, model, sidecar } => TtsWork::LookUp {
            voice_id: voice_id@,
            speaker,
            model: path_view(model),
            sidecar: path_view(sidecar),
        },
        TtsWork::UsePolly(s) => TtsWork::UsePolly(s@),
        TtsWork::UseKokoro(s) => TtsWork::UseKokoro(s@),
    }
}

/// What to do for a request.
pub open spec fn work_for(
    kind: TtsKind,
    models_dir: PathView,
    timeout: Duration,
    command: TtsCommand<Seq<char>>,
) -> TtsWork<Seq<char>, PathView> {
    match command {
        TtsCommand::Say(text) => match say_plan(spoken(text), timeout) {
            SayStep::Nothing => TtsWork::Nothing,
            SayStep::Synthesize { text, within } => TtsWork::Speak { text, within },
        },
        TtsCommand::Synthesize(text) => TtsWork::Encode(text),
        TtsCommand::ListVoices => match kind {
            TtsKind::Piper => TtsWork::ListModels,
            TtsKind::Polly => TtsWork::ListPolly,
            TtsKind::Kokoro => TtsWork::ListKokoro,
        },
        TtsCommand::GetVoice => TtsWork::TellVoice,
        TtsCommand::SetVoice { voice_id, speaker } => match kind {
            TtsKind::Piper => TtsWork::LookUp {
                voice_id,
                speaker,
                model: path_in(models_dir, voice_id + ".onnx"@),
                sidecar: path_in(models_dir, voice_id + ".onnx.json"@),
            },
            TtsKind::Polly => TtsWork::UsePolly(voice_id),
            TtsKind::Kokoro => TtsWork::UseKokoro(voice_id),
        },
    }
}

/// Serves requests for speech and about voices, one behind the other.
pub struct TtsService {
    kind: TtsKind,
    models_dir: OwnedPath,
    speaker: Speaker,
}

impl TtsService {
    pub closed spec fn kind(&self) -> TtsKind {
        self.kind
    }

    pub closed spec fn models_dir(&self) -> PathView {
        path_view(self.models_dir)
    }

    pub closed spec fn timeout(&self) -> Duration {
        self.speaker.timeout()
    }

    pub fn new(kind: TtsKind, models_dir: &OwnedPath, speaker: Speaker) -> (s: TtsService)
        ensures
            s.kind() == kind,
            s.models_dir() == path_view(*models_dir),
            s.timeout() == speaker.timeout(),
    {
        TtsService { kind, models_dir: copy_path(models_dir), speaker }
    }

    /// What to do for a request.
    pub fn on_command(&self, command: TtsCommand<String>) -> (work: TtsWork<String, OwnedPath>)
        ensures
            work_view(work) == work_for(
                self.kind(),
                self.models_dir(),
                self.timeout(),
                command_view(command),
            ),
    {
        match command {
            TtsCommand::Say(text) => match self.speaker.say(text.as_str()) {
                SayStep::Nothing => TtsWork::Nothing,
                SayStep::Synthesize { text, within } => TtsWork::Speak { text, within },
            },
            TtsCommand::Synthesize(text) => TtsWork::Encode(text),
            TtsCommand::ListVoices => match self.kind {
                TtsKind::Piper => TtsWork::ListModels,
                TtsKind::Polly => TtsWork::ListPolly,
                TtsKind::Kokoro => TtsWork::ListKokoro,
            },
            TtsCommand::GetVoice => TtsWork::TellVoice,
            TtsCommand::SetVoice { voice_id, speaker } => match self.kind {
                TtsKind::Piper => {
                    let model = voice_model_path(&self.models_dir, voice_id.as_str());
                    let sidecar = voice_sidecar_path(&self.models_dir, voice_id.as_str());
                    TtsWork::LookUp { voice_id, speaker, model, sidecar }
                },
                TtsKind::Polly => TtsWork::UsePolly(voice_id),
                TtsKind::Kokoro => TtsWork::UseKokoro(voice_id),
            },
        }
    }
}

// ---------------------------------------------------------------------------
// Laws
// ---------------------------------------------------------------------------

proof fn lemma_voices_without(files: Seq<ModelFile>, k: int)
    requires
        0 <= k < files.len(),
    ensures
        voices_in(files).to_multiset() == (match voice_in(files[k]) {
            Some(v) => voices_in(files.remove(k)).to_multiset().insert(v),
            None => voices_in(files.remove(k)).to_multiset(),
        }),
    decreases files.len(),
{
    broadcast use vstd::seq_lib::group_to_multiset_ensures;

    if k == files.len() - 1 {
        assert(files.remove(k) =~= files.drop_last());
    } else {
        lemma_voices_without(files.drop_last(), k);
        assert(files.remove(k).drop_last() =~= files.drop_last().remove(k));
        assert(files.remove(k).last() == files.last());
        let rest = voices_in(files.drop_last().remove(k)).to_multiset();
        if voice_in(files[k]) is Some && voice_in(files.last()) is Some {
            assert(rest.insert(voice_in(files[k])->0).insert(voice_in(files.last())->0)
                =~= rest.insert(voice_in(files.last())->0).insert(voice_in(files[k])->0));
        }
    }
}

proof fn lemma_voices_in_any_order(a: Seq<ModelFile>, b: Seq<ModelFile>)
    requires
        a.to_multiset() == b.to_multiset(),
    ensures
        voices_in(a).to_multiset() == voices_in(b).to_multiset(),
    decreases a.len(),
{
    broadcast use vstd::seq_lib::group_to_multiset_ensures;

    assert(a.len() == a.to_multiset().len() && b.len() == b.to_multiset().len());
    if a.len() > 0 {
        let file = a.last();
        assert(a.contains(file));
        assert(a.to_multiset().count(file) > 0);
        assert(b.contains(file));
        let k = choose|k: int| 0 <= k < b.len() && b[k] == file;
        let last = a.len() - 1;
        assert(a.remove(last).to_multiset() == a.to_multiset().remove(file));
        assert(b.remove(k).to_multiset() == b.to_multiset().remove(file));
        lemma_voices_in_any_order(a.remove(last), b.remove(k));
        lemma_voices_without(a, last);
        lemma_voices_without(b, k);
    } else {
        assert(a =~= b);
    }
}

/// The voices are listed alike in whatever order their files are found.
pub proof fn law_listing_does_not_depend_on_order(a: Seq<ModelFile>, b: Seq<ModelFile>)
    requires
        a.to_multiset() == b.to_multiset(),
    ensures
        voices_in(a).sort_by(voice_order()) == voices_in(b).sort_by(voice_order()),
{
    let found = voices_in(a);
    let other = voices_in(b);
    lemma_voices_in_any_order(a, b);
    law_voice_order_is_total();
    found.lemma_sort_by_ensures(voice_order());
    other.lemma_sort_by_ensures(voice_order());
    lemma_sorted_unique(
        found.sort_by(voice_order()),
        other.sort_by(voice_order()),
        voice_order(),
    );
}

/// A voice whose description cannot be had counts as one with a single speaker,
/// so that its first speaker can always be chosen, and no other.
pub proof fn law_undescribed_voice_has_one_speaker(
    models_dir: PathView,
    voice_id: Seq<char>,
    speaker: i32,
    rate: u32,
)
    ensures
        selected(models_dir, voice_id, speaker, true, 1, rate) is Ok <==> speaker <= 0,
        selected(models_dir, voice_id, speaker, true, 0, rate) is Ok <==> speaker <= 0,
{
}

/// What is read of a description: texts as they stand, whole numbers by their low
/// thirty-two bits, and what is missing or of another kind counts as not said.
pub proof fn law_what_is_read(s: Seq<char>, n: u64, default: u32)
    ensures
        text_or_empty(Some(JsonLeaf::Text(s))) == s,
        text_or_empty(Some(JsonLeaf::<Seq<char>>::Unsigned(n))).len() == 0,
        text_or_empty(Some(JsonLeaf::<Seq<char>>::Other)).len() == 0,
        text_or_empty(None).len() == 0,
        n <= u32::MAX ==> number_or(Some(JsonLeaf::Unsigned(n)), default) == n,
        n == 0x1_0000_0000 * (n / 0x1_0000_0000) + number_or(Some(JsonLeaf::Unsigned(n)), default),
        number_or(Some(JsonLeaf::Text(s)), default) == default,
        number_or(Some(JsonLeaf::Other), default) == default,
        number_or(None, default) == default,
{
}

/// What a voice says of itself, and where: its name under `dataset`; its language
/// under `language`, by its code or else by its family; the number of its
/// speakers, one where it does not say; and its sample rate, 22050 where it does
/// not say.
pub proof fn law_what_a_voice_says(json: Seq<char>, s: Seq<char>, n: u32)
    ensures
        json_at(json, "/dataset"@) == Some(JsonLeaf::Text(s)) ==> described_name(json) == s,
        json_at(json, "/dataset"@) is None ==> described_name(json).len() == 0,
        json_at(json, "/language/code"@) == Some(JsonLeaf::Text(s)) ==> described_language(json)
            == s,
        json_at(json, "/language/code"@) is None && json_at(json, "/language/family"@) == Some(
            JsonLeaf::Text(s),
        ) ==> described_language(json) == s,
        json_at(json, "/language/code"@) is None && json_at(json, "/language/family"@) is None
            ==> described_language(json).len() == 0,
        json_at(json, "/num_speakers"@) == Some(JsonLeaf::<Seq<char>>::Unsigned(n as u64))
            ==> described_speakers(json) == n,
        json_at(json, "/num_speakers"@) is None ==> described_speakers(json) == 1,
        json_at(json, "/audio/sample_rate"@) == Some(JsonLeaf::<Seq<char>>::Unsigned(n as u64))
            ==> described_rate(json) == n,
        json_at(json, "/audio/sample_rate"@) is None ==> described_rate(json) == 22_050,
{
}

/// Texts are in the order of a dictionary: the first character in which they
/// differ decides, and of two of which one goes on the shorter comes first.
pub proof fn law_the_order_of_texts(
    common: Seq<char>,
    x: char,
    a: Seq<char>,
    y: char,
    b: Seq<char>,
)
    ensures
        x < y ==> text_at_most(common + seq![x] + a, common + seq![y] + b),
        x > y ==> !text_at_most(common + seq![x] + a, common + seq![y] + b),
        text_at_most(common, common + b),
        !text_at_most(common + seq![x] + a, common),
    decreases common.len(),
{
    let p = common + seq![x] + a;
    let q = common + seq![y] + b;
    if common.len() > 0 {
        law_the_order_of_texts(common.drop_first(), x, a, y, b);
        assert(p.drop_first() =~= common.drop_first() + seq![x] + a);
        assert(q.drop_first() =~= common.drop_first() + seq![y] + b);
        assert((common + b).drop_first() =~= common.drop_first() + b);
        assert(p[0] == common[0] && q[0] == common[0] && (common + b)[0] == common[0]);
    } else {
        assert(p[0] == x && q[0] == y);
    }
}

/// Voices are listed by their ids; those of one id by their names; those of one
/// name, too, by their languages; and then by how many speakers they have.
pub proof fn law_the_order_of_voices(a: VoiceInfo<Seq<char>>, b: VoiceInfo<Seq<char>>)
    ensures
        a.id != b.id ==> (voice_at_most(a, b) <==> text_at_most(a.id, b.id)),
        a.id == b.id && a.name != b.name ==> (voice_at_most(a, b) <==> text_at_most(
            a.name,
            b.name,
        )),
        a.id == b.id && a.name == b.name && a.language != b.language ==> (voice_at_most(a, b)
            <==> text_at_most(a.language, b.language)),
        a.id == b.id && a.name == b.name && a.language == b.language ==> (voice_at_most(a, b)
            <==> a.num_speakers <= b.num_speakers),
{
}

/// Which files hold a voice: models with a name, the extension `onnx` and a
/// description beside them. Its id is the file's name; what the description says
/// is told as it stands, with the file's name where it names no voice. A
/// description that cannot be read says nothing.
pub proof fn law_which_files_hold_a_voice(file: ModelFile)
    ensures
        voice_in(file) is Some <==> file.stem is Some && file.extension is Some
            && file.extension->0@ == "onnx"@ && file.sidecar !is Missing,
        voice_in(file) is Some ==> voice_in(file)->0.id == file.stem->0@,
        voice_in(file) is Some && file.sidecar is Unreadable ==> {
            &&& voice_in(file)->0.name == file.stem->0@
            &&& voice_in(file)->0.language.len() == 0
            &&& voice_in(file)->0.num_speakers == 1
        },
        voice_in(file) is Some && file.sidecar is Text ==> {
            let json = file.sidecar->Text_0@;
            &&& described_name(json).len() > 0 ==> voice_in(file)->0.name == described_name(json)
            &&& described_name(json).len() == 0 ==> voice_in(file)->0.name == file.stem->0@
            &&& voice_in(file)->0.language == described_language(json)
            &&& voice_in(file)->0.num_speakers == described_speakers(json)
        },
{
}

/// Every voice is listed, once for each file that holds it, and nothing else is.
pub proof fn law_every_voice_is_listed(files: Seq<ModelFile>, v: VoiceInfo<Seq<char>>)
    ensures
        voices_in(files).contains(v) <==> exists|i: int|
            0 <= i < files.len() && #[trigger] voice_in(files[i]) == Some(v),
        voices_in(files).len() <= files.len(),
        (forall|i: int| 0 <= i < files.len() ==> (#[trigger] voice_in(files[i])) is Some)
            ==> voices_in(files).len() == files.len(),
    decreases files.len(),
{
    if files.len() > 0 {
        let before = files.drop_last();
        let last = files.len() - 1;
        law_every_voice_is_listed(before, v);
        let found = voices_in(before);
        let all = voices_in(files);
        assert(files[last] == files.last());
        if all.contains(v) {
            let k = choose|k: int| 0 <= k < all.len() && all[k] == v;
            if k < found.len() {
                assert(found[k] == v);
                assert(found.contains(v));
                let i = choose|i: int|
                    0 <= i < before.len() && #[trigger] voice_in(before[i]) == Some(v);
                assert(voice_in(files[i]) == Some(v));
            } else {
                assert(voice_in(files[last]) == Some(v));
            }
        }
        if exists|i: int| 0 <= i < files.len() && #[trigger] voice_in(files[i]) == Some(v) {
            let i = choose|i: int| 0 <= i < files.len() && #[trigger] voice_in(files[i]) == Some(v);
            if i < last {
                assert(voice_in(before[i]) == Some(v));
                assert(found.contains(v));
                let k = choose|k: int| 0 <= k < found.len() && found[k] == v;
                assert(all[k] == v);
            } else {
                assert(all[found.len() as int] == v);
            }
        }
        if forall|i: int| 0 <= i < files.len() ==> (#[trigger] voice_in(files[i])) is Some {
            assert forall|i: int| 0 <= i < before.len() implies (
            #[trigger] voice_in(before[i])) is Some by {
                assert(voice_in(files[i]) is Some);
            }
            assert(voice_in(files[last]) is Some);
        }
    } else {
        assert(voices_in(files).len() == 0);
    }
}

/// The cloud voices on offer, in order: six American ones and two British.
pub proof fn law_which_cloud_voices_there_are(i: int)
    ensures
        polly_list().len() == 8,
        polly_list()[0].id == "Joanna"@ && polly_list()[0].name == "Joanna (female, US)"@,
        polly_list()[1].id == "Matthew"@ && polly_list()[1].name == "Matthew (male, US)"@,
        polly_list()[2].id == "Ruth"@ && polly_list()[2].name == "Ruth (female, US)"@,
        polly_list()[3].id == "Stephen"@ && polly_list()[3].name == "Stephen (male, US)"@,
        polly_list()[4].id == "Danielle"@ && polly_list()[4].name == "Danielle (female, US)"@,
        polly_list()[5].id == "Gregory"@ && polly_list()[5].name == "Gregory (male, US)"@,
        polly_list()[6].id == "Amy"@ && polly_list()[6].name == "Amy (female, GB)"@,
        polly_list()[7].id == "Arthur"@ && polly_list()[7].name == "Arthur (male, GB)"@,
        0 <= i < 6 ==> polly_list()[i].language == "en_US"@,
        6 <= i < 8 ==> polly_list()[i].language == "en_GB"@,
        0 <= i < 8 ==> polly_list()[i].num_speakers == 1,
{
}

/// A Kokoro voice goes by its own name and has one speaker, who is British where
/// the name begins with a `b`, and else American.
pub proof fn law_which_kokoro_voices_are_british(name: Seq<char>)
    ensures
        kokoro_voice(name).id == name,
        kokoro_voice(name).name == name,
        kokoro_voice(name).num_speakers == 1,
        name.len() > 0 && name[0] == 'b' ==> kokoro_voice(name).language == "en_GB"@,
        name.len() == 0 || name[0] != 'b' ==> kokoro_voice(name).language == "en_US"@,
{
}

/// What a request for a voice comes to: a voice that is not there cannot be
/// selected; nor can a speaker beyond those that it has, of which there is always
/// one; a negative number stands for none in particular; and what is selected is
/// that voice's model at its own rate.
pub proof fn law_which_voice_is_selected(
    models_dir: PathView,
    voice_id: Seq<char>,
    speaker: i32,
    there: bool,
    num_speakers: u32,
    rate: u32,
)
    ensures
        ({
            let r = selected(models_dir, voice_id, speaker, there, num_speakers, rate);
            &&& !there ==> r == Err::<VoiceSelection<PathView>, Seq<char>>(
                "voice '"@ + voice_id + "' not found in "@ + shown_path(models_dir),
            )
            &&& there && speaker < 0 ==> r == Ok::<VoiceSelection<PathView>, Seq<char>>(
                VoiceSelection {
                    model: path_in(models_dir, voice_id + ".onnx"@),
                    speaker: None,
                    sample_rate: rate,
                },
            )
            &&& there && (speaker == 0 || 0 < speaker < num_speakers) ==> r == Ok::<
                VoiceSelection<PathView>,
                Seq<char>,
            >(
                VoiceSelection {
                    model: path_in(models_dir, voice_id + ".onnx"@),
                    speaker: Some(speaker as i64),
                    sample_rate: rate,
                },
            )
            &&& there && speaker > 0 && speaker >= num_speakers ==> r == Err::<
                VoiceSelection<PathView>,
                Seq<char>,
            >(
                "speaker "@ + decimal(speaker as nat) + " out of range (voice '"@ + voice_id
                    + "' has "@ + decimal(num_speakers as nat) + ")"@,
            )
        }),
{
}

/// What is done for each request, by each synthesizer. What is to be said is freed
/// of mark-up and spoken within the time set, or not at all where nothing is left;
/// what is to be given back is synthesized as it stands.
pub proof fn law_what_is_done_for_requests(
    kind: TtsKind,
    models_dir: PathView,
    timeout: Duration,
    text: Seq<char>,
    speaker: i32,
)
    ensures
        spoken(text).len() == 0 ==> work_for(kind, models_dir, timeout, TtsCommand::Say(text))
            is Nothing,
        spoken(text).len() > 0 ==> work_for(kind, models_dir, timeout, TtsCommand::Say(text)) == (
        TtsWork::<Seq<char>, PathView>::Speak {
            text: spoken(text),
            within: if timeout.nanos > 0 {
                Some(timeout)
            } else {
                None
            },
        }),
        work_for(kind, models_dir, timeout, TtsCommand::Synthesize(text)) == TtsWork::<
            Seq<char>,
            PathView,
        >::Encode(text),
        work_for(kind, models_dir, timeout, TtsCommand::GetVoice) is TellVoice,
        work_for(TtsKind::Piper, models_dir, timeout, TtsCommand::ListVoices) is ListModels,
        work_for(TtsKind::Polly, models_dir, timeout, TtsCommand::ListVoices) is ListPolly,
        work_for(TtsKind::Kokoro, models_dir, timeout, TtsCommand::ListVoices) is ListKokoro,
        work_for(
            TtsKind::Piper,
            models_dir,
            timeout,
            TtsCommand::SetVoice { voice_id: text, speaker },
        ) == (TtsWork::<Seq<char>, PathView>::LookUp {
            voice_id: text,
            speaker,
            model: path_in(models_dir, text + ".onnx"@),
            sidecar: path_in(models_dir, text + ".onnx.json"@),
        }),
        work_for(
            TtsKind::Polly,
            models_dir,
            timeout,
            TtsCommand::SetVoice { voice_id: text, speaker },
        ) == TtsWork::<Seq<char>, PathView>::UsePolly(text),
        work_for(
            TtsKind::Kokoro,
            models_dir,
            timeout,
            TtsCommand::SetVoice { voice_id: text, speaker },
        ) == TtsWork::<Seq<char>, PathView>::UseKokoro(text),
{
}

} // verus!
