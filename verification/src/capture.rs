//! Capturing audio: which device, in which format, and how long to go on.

use vstd::prelude::*;

use crate::capture_health::{
    backoff_nanos, capture_stall_timeout, is_fatal_error, on_stream_error, restart_backoff,
    CaptureHealth, FaultReport, StallWatchdog, StreamError,
};
use crate::error::VoiceError;
use crate::playback::SAMPLE_RATE;
use crate::samples::{append_samples, samples_between};
use crate::text::{chars_of, contains_text, copy_of, has_text, same_text};
use crate::time::{elapsed, Duration, Instant};

verus! {

/// How many samples are passed on at once at least: twenty milliseconds.
pub const CHUNK_FRAMES: usize = 320;

// ---------------------------------------------------------------------------
// The device
// ---------------------------------------------------------------------------

/// Whether a device is a route of the sound server, which shares the
/// microphone.
pub open spec fn shares(pcm_id: Seq<char>) -> bool {
    pcm_id == "default"@ || pcm_id == "pipewire"@ || pcm_id == "pulse"@ || pcm_id == "jack"@
}

pub fn is_shared_route(pcm_id: &str) -> (b: bool)
    ensures
        b == shares(pcm_id@),
{
    same_text(pcm_id, "default") || same_text(pcm_id, "pipewire") || same_text(pcm_id, "pulse")
        || same_text(pcm_id, "jack")
}

/// The first of several names that contains `wanted`, at or behind `from`.
pub open spec fn first_containing(names: Seq<Option<String>>, wanted: Seq<char>, from: int) -> Option<
    int,
>
    decreases names.len() - from,
{
    if from >= names.len() {
        None
    } else if names[from] is Some && has_text(names[from]->0@, wanted) {
        Some(from)
    } else {
        first_containing(names, wanted, from + 1)
    }
}

/// Finds the device that a configured name stands for: the first whose own name
/// contains it. A device without a name is none that can be found.
pub fn find_device(names: &Vec<Option<String>>, wanted: &str) -> (at: Option<usize>)
    ensures
        at is Some <==> first_containing(names@, wanted@, 0) is Some,
        at is Some ==> at->0 as int == first_containing(names@, wanted@, 0)->0 && at->0
            < names@.len(),
{
    let pattern = chars_of(wanted);
    let mut i: usize = 0;
    while i < names.len()
        invariant
            i <= names@.len(),
            pattern@ == wanted@,
            first_containing(names@, wanted@, i as int) == first_containing(names@, wanted@, 0),
        decreases names@.len() - i,
    {
        if let Some(name) = &names[i] {
            let chars = chars_of(name.as_str());
            if contains_text(&chars, &pattern) {
                return Some(i);
            }
        }
        i += 1;
    }
    None
}

/// The device that a configured name stands for.
#[derive(Debug, Clone, Copy, PartialEq, Eq, Structural)]
pub enum DevicePick {
    /// The system's own choice.
    Default,
    /// The one at this place.
    Named(usize),
}

/// Finds the device that a configured name stands for. `side` is what kind of
/// device it is, for the error, and `any_default` whether the system has made a
/// choice of its own.
pub fn pick_device(
    side: &str,
    name: &str,
    names: &Vec<Option<String>>,
    any_default: bool,
) -> (r: Result<DevicePick, VoiceError>)
    ensures
        name@ == "default"@ ==> (if any_default {
            r == Ok::<DevicePick, VoiceError>(DevicePick::Default)
        } else {
            r is Err && r->Err_0 is Audio && r->Err_0->Audio_0@ == "no default "@ + side@
                + " device"@
        }),
        name@ != "default"@ ==> match first_containing(names@, name@, 0) {
            Some(i) => r is Ok && r->Ok_0 is Named && r->Ok_0->Named_0 as int == i && i
                < names@.len(),
            None => r is Err && r->Err_0 is Audio && r->Err_0->Audio_0@ == side@ + " device '"@
                + name@ + "' not found"@,
        },
{
    if is_default_device(name) {
        if any_default {
            return Ok(DevicePick::Default);
        }
        let mut m = copy_of("no default ");
        m.append(side);
        m.append(" device");
        return Err(VoiceError::Audio(m));
    }
    match find_device(names, name) {
        Some(i) => Ok(DevicePick::Named(i)),
        None => {
            let mut m = copy_of(side);
            m.append(" device '");
            m.append(name);
            m.append("' not found");
            Err(VoiceError::Audio(m))
        },
    }
}

/// Whether the configured device is the system's own choice.
pub fn is_default_device(name: &str) -> (b: bool)
    ensures
        b == (name@ == "default"@),
{
    same_text(name, "default")
}

/// The first route with the given id, at or behind `from`.
pub open spec fn first_route(routes: Seq<Option<String>>, id: Seq<char>, from: int) -> Option<int>
    decreases routes.len() - from,
{
    if from >= routes.len() {
        None
    } else if routes[from] is Some && routes[from]->0@ == id {
        Some(from)
    } else {
        first_route(routes, id, from + 1)
    }
}

fn find_route(routes: &Vec<Option<String>>, id: &str) -> (at: Option<usize>)
    ensures
        at is Some <==> first_route(routes@, id@, 0) is Some,
        at is Some ==> at->0 as int == first_route(routes@, id@, 0)->0 && at->0 < routes@.len(),
{
    let mut i: usize = 0;
    while i < routes.len()
        invariant
            i <= routes@.len(),
            first_route(routes@, id@, i as int) == first_route(routes@, id@, 0),
        decreases routes@.len() - i,
    {
        if let Some(route) = &routes[i] {
            if same_text(route.as_str(), id) {
                return Some(i);
            }
        }
        i += 1;
    }
    None
}

/// The route of the sound server among several: PipeWire before PulseAudio.
pub open spec fn shared_route(routes: Seq<Option<String>>) -> Option<int> {
    match first_route(routes, "pipewire"@, 0) {
        Some(i) => Some(i),
        None => first_route(routes, "pulse"@, 0),
    }
}

/// Finds a route of the sound server.
pub fn find_shared_route(routes: &Vec<Option<String>>) -> (at: Option<usize>)
    ensures
        at is Some <==> shared_route(routes@) is Some,
        at is Some ==> at->0 as int == shared_route(routes@)->0 && at->0 < routes@.len(),
{
    match find_route(routes, "pipewire") {
        Some(i) => Some(i),
        None => find_route(routes, "pulse"),
    }
}

/// The device to open.
#[derive(Debug, Clone, Copy, PartialEq, Eq, Structural)]
pub enum DeviceChoice {
    /// The configured one.
    Configured,
    /// The route of the sound server at this place.
    Shared(usize),
}

/// Which device to open: the configured one, unless it is a card that would
/// have to be taken exclusively and the sound server has a route.
pub fn resolve_input_device(
    name: &str,
    pcm_id: Option<&str>,
    routes: &Vec<Option<String>>,
) -> (choice: DeviceChoice)
    ensures
        ({
            let shared_already = name@ == "default"@ || (pcm_id is Some && shares(pcm_id->0@));
            &&& shared_already || shared_route(routes@) is None ==> choice
                == DeviceChoice::Configured
            &&& !shared_already && shared_route(routes@) is Some ==> choice is Shared
                && choice->Shared_0 as int == shared_route(routes@)->0
        }),
{
    if is_default_device(name) {
        return DeviceChoice::Configured;
    }
    if let Some(id) = pcm_id {
        if is_shared_route(id) {
            return DeviceChoice::Configured;
        }
    }
    match find_shared_route(routes) {
        Some(i) => DeviceChoice::Shared(i),
        None => DeviceChoice::Configured,
    }
}

// ---------------------------------------------------------------------------
// The format
// ---------------------------------------------------------------------------

/// The forms that a device can deliver samples in.
#[derive(Debug, Clone, Copy, PartialEq, Eq, Structural)]
pub enum SampleFormat {
    I8,
    I16,
    I24,
    I32,
    I64,
    U8,
    U16,
    U24,
    U32,
    U64,
    F32,
    F64,
    DsdU8,
    DsdU16,
    DsdU32,
    Other,
}

impl SampleFormat {
    pub open spec fn name_text(self) -> Seq<char> {
        match self {
            SampleFormat::I8 => "I8"@,
            SampleFormat::I16 => "I16"@,
            SampleFormat::I24 => "I24"@,
            SampleFormat::I32 => "I32"@,
            SampleFormat::I64 => "I64"@,
            SampleFormat::U8 => "U8"@,
            SampleFormat::U16 => "U16"@,
            SampleFormat::U24 => "U24"@,
            SampleFormat::U32 => "U32"@,
            SampleFormat::U64 => "U64"@,
            SampleFormat::F32 => "F32"@,
            SampleFormat::F64 => "F64"@,
            SampleFormat::DsdU8 => "DsdU8"@,
            SampleFormat::DsdU16 => "DsdU16"@,
            SampleFormat::DsdU32 => "DsdU32"@,
            SampleFormat::Other => "Other"@,
        }
    }

    pub fn name(self) -> (s: &'static str)
        ensures
            s@ == self.name_text(),
    {
        match self {
            SampleFormat::I8 => "I8",
            SampleFormat::I16 => "I16",
            SampleFormat::I24 => "I24",
            SampleFormat::I32 => "I32",
            SampleFormat::I64 => "I64",
            SampleFormat::U8 => "U8",
            SampleFormat::U16 => "U16",
            SampleFormat::U24 => "U24",
            SampleFormat::U32 => "U32",
            SampleFormat::U64 => "U64",
            SampleFormat::F32 => "F32",
            SampleFormat::F64 => "F64",
            SampleFormat::DsdU8 => "DsdU8",
            SampleFormat::DsdU16 => "DsdU16",
            SampleFormat::DsdU32 => "DsdU32",
            SampleFormat::Other => "Other",
        }
    }
}

/// A range of formats that a device offers.
#[derive(Debug, Clone, Copy, PartialEq, Eq, Structural)]
pub struct ConfigRange {
    pub channels: u16,
    pub min_rate: u32,
    pub max_rate: u32,
    pub format: SampleFormat,
}

/// The format to capture in.
#[derive(Debug, Clone, Copy, PartialEq, Eq, Structural)]
pub struct ChosenFormat {
    pub rate: u32,
    pub channels: u16,
    pub format: SampleFormat,
}

/// The forms that samples can be converted from.
pub open spec fn can_convert(f: SampleFormat) -> bool {
    f is F32 || f is F64 || f is I16 || f is U16 || f is I32
}

pub fn is_convertible(fmt: SampleFormat) -> (b: bool)
    ensures
        b == can_convert(fmt),
{
    matches!(
        fmt,
        SampleFormat::F32 | SampleFormat::F64 | SampleFormat::I16 | SampleFormat::U16
            | SampleFormat::I32
    )
}

/// Whether a range can deliver the pipeline's own rate in a form that can be
/// converted.
pub open spec fn suits(r: ConfigRange) -> bool {
    r.min_rate <= SAMPLE_RATE <= r.max_rate && can_convert(r.format)
}

/// What a range costs: the less the better. Mono is free, and so is the
/// pipeline's own form, which weighs more.
pub open spec fn cost(r: ConfigRange) -> int {
    (if r.channels == 1 {
        0int
    } else {
        1
    }) + (if r.format is F32 {
        0int
    } else {
        2
    })
}

/// Whether the range at `k` is the one to take: the cheapest that suits, and of
/// those the first.
pub open spec fn is_best(ranges: Seq<ConfigRange>, k: int) -> bool {
    &&& 0 <= k < ranges.len()
    &&& suits(ranges[k])
    &&& forall|j: int|
        0 <= j < ranges.len() && suits(#[trigger] ranges[j]) ==> cost(ranges[k]) <= cost(ranges[j])
            && (j < k ==> cost(ranges[k]) < cost(ranges[j]))
}

/// Picks the format to capture in: the best range at the pipeline's own rate,
/// or the device's default where none suits.
pub fn pick_capture_format(ranges: &[ConfigRange], default: ConfigRange) -> (f: ChosenFormat)
    ensures
        (forall|k: int| 0 <= k < ranges@.len() ==> !suits(#[trigger] ranges@[k])) ==> f == (
        ChosenFormat {
            rate: default.min_rate,
            channels: default.channels,
            format: default.format,
        }),
        (exists|k: int| 0 <= k < ranges@.len() && suits(#[trigger] ranges@[k])) ==> exists|k: int|
            #[trigger] is_best(ranges@, k) && f == (ChosenFormat {
                rate: SAMPLE_RATE,
                channels: ranges@[k].channels,
                format: ranges@[k].format,
            }),
{
    let mut best: Option<(usize, i32)> = None;
    let mut i: usize = 0;
    while i < ranges.len()
        invariant
            i <= ranges@.len(),
            best is None <==> forall|j: int| 0 <= j < i ==> !suits(#[trigger] ranges@[j]),
            best is Some ==> {
                let k = (best->0).0 as int;
                &&& 0 <= k < i
                &&& suits(ranges@[k])
                &&& (best->0).1 as int == cost(ranges@[k])
                &&& forall|j: int|
                    0 <= j < i && suits(#[trigger] ranges@[j]) ==> cost(ranges@[k]) <= cost(
                        ranges@[j],
                    ) && (j < k ==> cost(ranges@[k]) < cost(ranges@[j]))
            },
        decreases ranges@.len() - i,
    {
        let r = ranges[i];
        if r.min_rate <= SAMPLE_RATE && SAMPLE_RATE <= r.max_rate && is_convertible(r.format) {
            let mono: i32 = if r.channels == 1 {
                0
            } else {
                1
            };
            let own: i32 = if matches!(r.format, SampleFormat::F32) {
                0
            } else {
                2
            };
            let score: i32 = mono + own;
            let better = match best {
                Some((_, bs)) => score < bs,
                None => true,
            };
            if better {
                best = Some((i, score));
            }
        }
        i += 1;
    }
    match best {
        Some((k, _)) => {
            proof {
                assert(is_best(ranges@, k as int));
            }
            ChosenFormat {
                rate: SAMPLE_RATE,
                channels: ranges[k].channels,
                format: ranges[k].format,
            }
        },
        None => ChosenFormat {
            rate: default.min_rate,
            channels: default.channels,
            format: default.format,
        },
    }
}

/// Negotiates the format to capture in. It fails where not even the device's
/// default can be converted.
pub fn negotiate_input_config(ranges: &[ConfigRange], default: ConfigRange) -> (r: Result<
    ChosenFormat,
    VoiceError,
>)
    ensures
        r is Ok <==> can_convert(default.format) || exists|k: int|
            0 <= k < ranges@.len() && suits(#[trigger] ranges@[k]),
        r is Ok ==> can_convert(r->Ok_0.format),
        r is Ok ==> {
            ||| r->Ok_0 == (ChosenFormat {
                rate: default.min_rate,
                channels: default.channels,
                format: default.format,
            }) && forall|k: int| 0 <= k < ranges@.len() ==> !suits(#[trigger] ranges@[k])
            ||| exists|k: int| #[trigger]
                is_best(ranges@, k) && r->Ok_0 == (ChosenFormat {
                    rate: SAMPLE_RATE,
                    channels: ranges@[k].channels,
                    format: ranges@[k].format,
                })
        },
        r is Err ==> r->Err_0 is Audio && r->Err_0->Audio_0@
            == "device offers no usable sample format (best was "@ + default.format.name_text()
            + ")"@,
{
    let chosen = pick_capture_format(ranges, default);
    proof {
        if exists|k: int| 0 <= k < ranges@.len() && suits(#[trigger] ranges@[k]) {
            let k = choose|k: int| #[trigger]
                is_best(ranges@, k) && chosen == (ChosenFormat {
                    rate: SAMPLE_RATE,
                    channels: ranges@[k].channels,
                    format: ranges@[k].format,
                });
            assert(suits(ranges@[k]));
        }
    }
    if !is_convertible(chosen.format) {
        let mut m = copy_of("device offers no usable sample format (best was ");
        m.append(chosen.format.name());
        m.append(")");
        return Err(VoiceError::Audio(m));
    }
    Ok(chosen)
}

/// Only one range is the best.
pub proof fn law_best_range_is_unique(ranges: Seq<ConfigRange>, a: int, b: int)
    requires
        is_best(ranges, a),
        is_best(ranges, b),
    ensures
        a == b,
{
    assert(suits(ranges[a]) && suits(ranges[b]));
}

/// How many samples are buffered for a capture at `rate`: a second of them, and
/// no less than a second at the pipeline's own rate.
pub fn ring_capacity(rate: u32) -> (n: usize)
    ensures
        n == (if rate >= SAMPLE_RATE {
            rate
        } else {
            SAMPLE_RATE
        }),
{
    if rate >= SAMPLE_RATE {
        rate as usize
    } else {
        SAMPLE_RATE as usize
    }
}

/// How many samples are taken out of the buffer at once.
pub fn read_capacity(rate: u32) -> (n: usize)
    ensures
        n == (if rate / 25 >= 320 {
            rate / 25
        } else {
            320
        }),
{
    let n: usize = rate as usize / 25;
    if n >= CHUNK_FRAMES {
        n
    } else {
        CHUNK_FRAMES
    }
}

/// Whether a capture at `rate` has to be converted to the pipeline's own rate.
pub fn needs_resampling(rate: u32) -> (b: bool)
    ensures
        b == (rate != SAMPLE_RATE),
{
    rate != SAMPLE_RATE
}

// ---------------------------------------------------------------------------
// Blocks for the resampler
// ---------------------------------------------------------------------------

/// Collects samples into blocks of one size.
pub struct BlockQueue<T> {
    block: usize,
    pending: Vec<T>,
}

/// The blocks, one behind the other.
pub open spec fn concat_blocks<T>(blocks: Seq<Vec<T>>) -> Seq<T>
    decreases blocks.len(),
{
    if blocks.len() == 0 {
        Seq::empty()
    } else {
        concat_blocks(blocks.drop_last()) + blocks.last()@
    }
}

impl<T> BlockQueue<T> {
    pub closed spec fn block_size(&self) -> nat {
        self.block as nat
    }

    /// The samples that do not make a block yet.
    pub closed spec fn rest(&self) -> Seq<T> {
        self.pending@
    }
}

impl<T: Copy> BlockQueue<T> {
    pub fn new(block: usize) -> (q: BlockQueue<T>)
        requires
            block > 0,
        ensures
            q.block_size() == block,
            q.rest() == Seq::<T>::empty(),
    {
        BlockQueue { block, pending: Vec::new() }
    }

    /// Takes in samples and hands out the blocks they complete. No sample is
    /// lost or reordered, and less than a block is kept back.
    pub fn push(&mut self, input: &[T]) -> (blocks: Vec<Vec<T>>)
        requires
            old(self).block_size() > 0,
        ensures
            final(self).block_size() == old(self).block_size(),
            concat_blocks(blocks@) + final(self).rest() == old(self).rest() + input@,
            forall|i: int|
                0 <= i < blocks@.len() ==> (#[trigger] blocks@[i])@.len() == old(
                    self,
                ).block_size(),
            final(self).rest().len() < old(self).block_size(),
    {
        let ghost all = self.pending@ + input@;
        append_samples(&mut self.pending, input);
        let mut blocks: Vec<Vec<T>> = Vec::new();
        proof {
            assert(concat_blocks(blocks@) + self.pending@ =~= all);
        }
        while self.pending.len() >= self.block
            invariant
                self.block > 0,
                self.block == old(self).block,
                concat_blocks(blocks@) + self.pending@ == all,
                forall|i: int|
                    0 <= i < blocks@.len() ==> (#[trigger] blocks@[i])@.len() == self.block,
            decreases self.pending@.len(),
        {
            let ghost done = blocks@;
            let ghost held = self.pending@;
            let next = samples_between(&self.pending, 0, self.block);
            let rest = samples_between(&self.pending, self.block, self.pending.len());
            let ghost taken = next@;
            blocks.push(next);
            self.pending = rest;
            proof {
                assert(blocks@.drop_last() =~= done);
                assert(held =~= taken + self.pending@);
                assert(concat_blocks(blocks@) + self.pending@ =~= concat_blocks(done) + held);
            }
        }
        blocks
    }
}

// ---------------------------------------------------------------------------
// Going on
// ---------------------------------------------------------------------------

/// An audio input, and whether it is being captured from.
pub struct CpalAudioSource {
    device_name: String,
    running: bool,
}

impl CpalAudioSource {
    pub closed spec fn device_text(&self) -> Seq<char> {
        self.device_name@
    }

    pub closed spec fn is_running(&self) -> bool {
        self.running
    }

    pub fn new(device_name: &str) -> (s: CpalAudioSource)
        ensures
            s.device_text() == device_name@,
            !s.is_running(),
    {
        CpalAudioSource { device_name: copy_of(device_name), running: false }
    }

    /// The device to open.
    pub fn device_name(&self) -> (n: &str)
        ensures
            n@ == self.device_text(),
    {
        self.device_name.as_str()
    }

    pub fn running(&self) -> (b: bool)
        ensures
            b == self.is_running(),
    {
        self.running
    }

    /// Whether capturing may begin: not while it is under way.
    pub fn may_start(&self) -> (r: Result<(), VoiceError>)
        ensures
            r is Ok <==> !self.is_running(),
            r is Err ==> r->Err_0 is Audio && r->Err_0->Audio_0@ == "capture already running"@,
    {
        if self.running {
            Err(VoiceError::Audio(copy_of("capture already running")))
        } else {
            Ok(())
        }
    }

    /// Notes that capturing is under way.
    pub fn started(&mut self)
        ensures
            final(self).is_running(),
            final(self).device_text() == old(self).device_text(),
    {
        self.running = true;
    }

    /// Asks for capturing to end, or notes that it has.
    pub fn stop(&mut self)
        ensures
            !final(self).is_running(),
            final(self).device_text() == old(self).device_text(),
    {
        self.running = false;
    }
}

/// How a capture goes on.
#[derive(Debug, Clone, Copy, PartialEq, Eq, Structural)]
pub enum DrainStep {
    /// Wait a moment, then read what was captured.
    GoOn,
    /// It was asked to end.
    Stopped,
    /// It is dead, and may be started anew after this wait.
    Dead(Duration),
}

/// What to do with what was read out of the buffer.
#[derive(Debug, Clone, Copy, PartialEq, Eq, Structural)]
pub enum ReadStep {
    /// Nothing: the buffer was empty.
    Idle,
    /// Pass it on, and read on.
    PassAndReadOn,
    /// Pass it on; the buffer is empty for now.
    Pass,
}

/// The thread that passes captured samples on.
pub struct CaptureDrain {
    health: CaptureHealth,
    watchdog: StallWatchdog,
    started_at: Instant,
    read_capacity: usize,
}

impl CaptureDrain {
    pub closed spec fn health(&self) -> CaptureHealth {
        self.health
    }

    /// When audio last came.
    pub closed spec fn last_seen(&self) -> Instant {
        self.watchdog.last_seen()
    }

    pub closed spec fn began(&self) -> Instant {
        self.started_at
    }

    pub closed spec fn capacity(&self) -> nat {
        self.read_capacity as nat
    }

    pub closed spec fn wf(&self) -> bool {
        self.watchdog.limit().nanos == 5_000_000_000
    }

    pub fn new(rate: u32, now: Instant) -> (d: CaptureDrain)
        ensures
            d.wf(),
            !d.health().finished(),
            d.health().tally() == 0,
            !d.health().storm_reported(),
            d.last_seen() == now,
            d.began() == now,
            d.capacity() == (if rate / 25 >= 320 {
                rate / 25
            } else {
                320
            }),
    {
        CaptureDrain {
            health: CaptureHealth::new(),
            watchdog: StallWatchdog::new(now, capture_stall_timeout()),
            started_at: now,
            read_capacity: read_capacity(rate),
        }
    }

    /// How many samples to read at once.
    pub fn read_size(&self) -> (n: usize)
        ensures
            n == self.capacity(),
    {
        self.read_capacity
    }

    /// Takes in an error of the stream, and says what to report of it.
    pub fn on_error(&mut self, err: &StreamError) -> (report: FaultReport)
        requires
            old(self).wf(),
        ensures
            final(self).wf(),
            final(self).health().finished() == (old(self).health().finished()
                || is_fatal_error(*err)),
            is_fatal_error(*err) ==> {
                &&& final(self).health().tally() == old(self).health().tally()
                &&& final(self).health().storm_reported() == old(self).health().storm_reported()
            },
            !is_fatal_error(*err) ==> {
                &&& final(self).health().tally() == old(self).health().tally().wrapping_add(1)
                &&& final(self).health().storm_reported()
            },
            final(self).last_seen() == old(self).last_seen(),
            final(self).began() == old(self).began(),
            final(self).capacity() == old(self).capacity(),
            report is Fatal <==> !old(self).health().finished()
                && is_fatal_error(*err),
            report is Recoverable <==> !old(self).health().storm_reported()
                && !is_fatal_error(*err),
    {
        on_stream_error(&mut self.health, err)
    }

    /// The recoverable errors since this was last asked.
    pub fn take_errors(&mut self) -> (n: usize)
        requires
            old(self).wf(),
        ensures
            final(self).wf(),
            n == old(self).health().tally(),
            final(self).health().tally() == 0,
            !final(self).health().storm_reported(),
            final(self).health().finished() == old(self).health().finished(),
            final(self).last_seen() == old(self).last_seen(),
            final(self).began() == old(self).began(),
            final(self).capacity() == old(self).capacity(),
    {
        self.health.take_transient()
    }

    /// Whether to go on at `now`, where `running` until the capture is asked to
    /// end. A stream that is finished or has been quiet for too long is dead,
    /// and its end is held back for as long as restarts have to be apart.
    pub fn keep_going(&self, running: bool, now: Instant) -> (step: DrainStep)
        requires
            self.wf(),
        ensures
            step == (if !running {
                DrainStep::Stopped
            } else if self.health().finished() || elapsed(self.last_seen(), now) >= 5_000_000_000 {
                DrainStep::Dead(
                    Duration { nanos: backoff_nanos(elapsed(self.began(), now)) as u128 },
                )
            } else {
                DrainStep::GoOn
            }),
    {
        if !running {
            return DrainStep::Stopped;
        }
        if !self.health.keep_draining(running) || self.watchdog.is_stalled(now) {
            let lifetime = now.duration_since(self.started_at);
            return DrainStep::Dead(restart_backoff(lifetime));
        }
        DrainStep::GoOn
    }

    /// What to do with `popped` samples that were read.
    pub fn on_read(&self, popped: usize) -> (step: ReadStep)
        ensures
            step == (if popped == 0 {
                ReadStep::Idle
            } else if popped < self.capacity() {
                ReadStep::Pass
            } else {
                ReadStep::PassAndReadOn
            }),
    {
        if popped == 0 {
            ReadStep::Idle
        } else if popped < self.read_capacity {
            ReadStep::Pass
        } else {
            ReadStep::PassAndReadOn
        }
    }

    /// Notes that samples were passed on.
    pub fn passed_on(&mut self, now: Instant)
        requires
            old(self).wf(),
        ensures
            final(self).wf(),
            final(self).last_seen() == now,
            final(self).health() == old(self).health(),
            final(self).began() == old(self).began(),
            final(self).capacity() == old(self).capacity(),
    {
        self.watchdog.saw_data(now);
    }
}

// ---------------------------------------------------------------------------
// Laws
// ---------------------------------------------------------------------------

/// The routes that share the microphone are those called `default`, `pipewire`,
/// `pulse` and `jack`, and no other.
pub proof fn law_which_routes_share(pcm_id: Seq<char>)
    ensures
        shares("default"@) && shares("pipewire"@) && shares("pulse"@) && shares("jack"@),
        shares(pcm_id) ==> pcm_id == "default"@ || pcm_id == "pipewire"@ || pcm_id == "pulse"@
            || pcm_id == "jack"@,
{
}

/// The device that a name stands for is the first with a name of its own that
/// contains it; where no device has one, there is none.
pub proof fn law_which_device_is_found(names: Seq<Option<String>>, wanted: Seq<char>, i: int)
    ensures
        0 <= i < names.len() && names[i] is Some && has_text(names[i]->0@, wanted) && (forall|j:
            int| 0 <= j < i && (#[trigger] names[j]) is Some ==> !has_text(names[j]->0@, wanted))
            ==> first_containing(names, wanted, 0) == Some(i),
        (forall|j: int|
            0 <= j < names.len() && (#[trigger] names[j]) is Some ==> !has_text(
                names[j]->0@,
                wanted,
            )) ==> first_containing(names, wanted, 0) is None,
{
    lemma_first_containing(names, wanted, 0);
}

proof fn lemma_first_containing(names: Seq<Option<String>>, wanted: Seq<char>, from: int)
    requires
        0 <= from,
    ensures
        match first_containing(names, wanted, from) {
            Some(i) => from <= i < names.len() && names[i] is Some && has_text(
                names[i]->0@,
                wanted,
            ) && forall|j: int|
                from <= j < i && (#[trigger] names[j]) is Some ==> !has_text(names[j]->0@, wanted),
            None => forall|j: int|
                from <= j < names.len() && (#[trigger] names[j]) is Some ==> !has_text(
                    names[j]->0@,
                    wanted,
                ),
        },
    decreases names.len() - from,
{
    if from < names.len() && !(names[from] is Some && has_text(names[from]->0@, wanted)) {
        lemma_first_containing(names, wanted, from + 1);
    }
}

proof fn lemma_first_route(routes: Seq<Option<String>>, id: Seq<char>, from: int)
    requires
        0 <= from,
    ensures
        match first_route(routes, id, from) {
            Some(i) => from <= i < routes.len() && routes[i] is Some && routes[i]->0@ == id
                && forall|j: int|
                from <= j < i && (#[trigger] routes[j]) is Some ==> routes[j]->0@ != id,
            None => forall|j: int|
                from <= j < routes.len() && (#[trigger] routes[j]) is Some ==> routes[j]->0@ != id,
        },
    decreases routes.len() - from,
{
    if from < routes.len() && !(routes[from] is Some && routes[from]->0@ == id) {
        lemma_first_route(routes, id, from + 1);
    }
}

/// The route of the sound server is the first that is called `pipewire`; where
/// none is, the first that is called `pulse`; and where none is called either,
/// there is none.
pub proof fn law_which_route_is_found(routes: Seq<Option<String>>, i: int)
    ensures
        0 <= i < routes.len() && routes[i] is Some && routes[i]->0@ == "pipewire"@ && (forall|j:
            int| 0 <= j < i && (#[trigger] routes[j]) is Some ==> routes[j]->0@ != "pipewire"@)
            ==> shared_route(routes) == Some(i),
        (forall|j: int|
            0 <= j < routes.len() && (#[trigger] routes[j]) is Some ==> routes[j]->0@
                != "pipewire"@) && 0 <= i < routes.len() && routes[i] is Some && routes[i]->0@
            == "pulse"@ && (forall|j: int|
            0 <= j < i && (#[trigger] routes[j]) is Some ==> routes[j]->0@ != "pulse"@)
            ==> shared_route(routes) == Some(i),
        (forall|j: int|
            0 <= j < routes.len() && (#[trigger] routes[j]) is Some ==> routes[j]->0@
                != "pipewire"@ && routes[j]->0@ != "pulse"@) ==> shared_route(routes) is None,
{
    lemma_first_route(routes, "pipewire"@, 0);
    lemma_first_route(routes, "pulse"@, 0);
    match first_route(routes, "pipewire"@, 0) {
        Some(k) => {
            assert(routes[k] is Some && routes[k]->0@ == "pipewire"@);
        },
        None => {},
    }
}

/// A range suits where it reaches sixteen thousand samples a second in a form that
/// can be converted: `F32`, `F64`, `I16`, `U16` or `I32`.
pub proof fn law_which_ranges_suit(r: ConfigRange)
    ensures
        suits(r) <==> r.min_rate <= 16_000 && r.max_rate >= 16_000 && {
            ||| r.format is F32
            ||| r.format is F64
            ||| r.format is I16
            ||| r.format is U16
            ||| r.format is I32
        },
{
}

/// Of two ranges the one in the pipeline's own form is the better; where both are
/// or neither is, the one of a single channel; else they are as good as each other.
pub proof fn law_which_range_is_better(a: ConfigRange, b: ConfigRange)
    ensures
        cost(a) < cost(b) <==> {
            ||| a.format is F32 && b.format !is F32
            ||| (a.format is F32 <==> b.format is F32) && a.channels == 1 && b.channels != 1
        },
{
}

/// The best range suits, and no other that does is better, nor as good where it
/// comes first.
pub proof fn law_what_the_best_range_is(ranges: Seq<ConfigRange>, k: int, j: int)
    requires
        is_best(ranges, k),
        0 <= j < ranges.len(),
        suits(ranges[j]),
    ensures
        suits(ranges[k]),
        cost(ranges[k]) <= cost(ranges[j]),
        j < k ==> cost(ranges[k]) < cost(ranges[j]),
{
}

/// Blocks of one size, one behind the other, hold each sample of each block in its
/// place.
pub proof fn law_blocks_keep_every_sample<T>(blocks: Seq<Vec<T>>, size: nat, i: int, j: int)
    requires
        forall|k: int| 0 <= k < blocks.len() ==> (#[trigger] blocks[k])@.len() == size,
        0 <= i < blocks.len(),
        0 <= j < size,
    ensures
        concat_blocks(blocks).len() == blocks.len() * size,
        0 <= i * size + j < blocks.len() * size,
        concat_blocks(blocks)[i * size + j] == blocks[i]@[j],
    decreases blocks.len(),
{
    let before = blocks.drop_last();
    let last = blocks.len() - 1;
    assert forall|k: int| 0 <= k < before.len() implies (#[trigger] before[k])@.len() == size by {
        assert(before[k] == blocks[k]);
    }
    lemma_blocks_len(before, size);
    assert(blocks.last() == blocks[last]);
    assert(blocks.len() * size == last * size + size) by (nonlinear_arith)
        requires
            last == blocks.len() - 1,
    ;
    assert(0 <= i * size + j < blocks.len() * size) by (nonlinear_arith)
        requires
            0 <= i < blocks.len(),
            0 <= j < size,
    ;
    if i < last {
        law_blocks_keep_every_sample(before, size, i, j);
        assert(before[i] == blocks[i]);
    }
}

proof fn lemma_blocks_len<T>(blocks: Seq<Vec<T>>, size: nat)
    requires
        forall|k: int| 0 <= k < blocks.len() ==> (#[trigger] blocks[k])@.len() == size,
    ensures
        concat_blocks(blocks).len() == blocks.len() * size,
    decreases blocks.len(),
{
    if blocks.len() > 0 {
        let before = blocks.drop_last();
        assert forall|k: int| 0 <= k < before.len() implies (#[trigger] before[k])@.len() == size by {
            assert(before[k] == blocks[k]);
        }
        lemma_blocks_len(before, size);
        assert(blocks.last() == blocks[blocks.len() - 1]);
        assert(blocks.len() * size == before.len() * size + size) by (nonlinear_arith)
            requires
                before.len() == blocks.len() - 1,
        ;
    } else {
        assert(0 * size == 0) by (nonlinear_arith);
    }
}

} // verus!
