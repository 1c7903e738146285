//! When queued audio has been heard: playback goes on until the time that the
//! queued samples take, and some more for the device, has passed.

use vstd::prelude::*;

use crate::text::copy_of;
use crate::time::{later_by, Clock, Duration, Instant};

verus! {

/// The samples per second that the pipeline works with.
pub const SAMPLE_RATE: u32 = 16_000;

/// The channels that the pipeline works with.
pub const CHANNELS: u16 = 1;

/// How many samples can wait to be played: two minutes of them.
pub const OUTPUT_RING_BUFFER_CAPACITY: usize = 1_920_000;

/// The latency before any was measured.
pub const LATENCY_UNMEASURED: u64 = u64::MAX;

/// The least that is waited for the device behind the last sample, in
/// milliseconds.
pub const PLAYBACK_TAIL_PAD_FLOOR_MS: u64 = 250;

/// What is added to a measured latency, in milliseconds.
pub const PLAYBACK_LATENCY_MARGIN_MS: u64 = 50;

/// The time that a number of samples takes, in nanoseconds.
pub open spec fn play_time(samples: nat) -> nat {
    samples * 62_500
}

/// What is waited for the device behind the last sample, in nanoseconds, at a
/// latency measured in microseconds.
pub open spec fn tail_pad_nanos(latency_micros: u64) -> nat {
    let measured = latency_micros * 1_000 + 50_000_000;
    if latency_micros == LATENCY_UNMEASURED || measured < 250_000_000 {
        250_000_000
    } else {
        measured as nat
    }
}

/// When everything is heard that was queued, once `samples` more are queued at
/// `now`: what still plays is played first.
pub open spec fn extended(end: Option<Instant>, samples: nat, now: Instant) -> Instant {
    let base = if end is Some && end->0.nanos > now.nanos {
        end->0
    } else {
        now
    };
    later_by(base, Duration { nanos: play_time(samples) as u128 })
}

/// Whether anything is heard at `now`.
pub open spec fn heard_at(end: Option<Instant>, pad: Duration, now: Instant) -> bool {
    end is Some && now.nanos < later_by(end->0, pad).nanos
}

/// Whether only the device's latency is waited for at `now`.
pub open spec fn padding_at(end: Option<Instant>, pad: Duration, now: Instant) -> bool {
    end is Some && end->0.nanos <= now.nanos < later_by(end->0, pad).nanos
}

/// What an audio output has been given to play.
pub struct CpalAudioSink {
    device_name: String,
    playback_end: Option<Instant>,
    stream_running: bool,
    measured_latency_micros: u64,
    clock: Clock,
}

impl CpalAudioSink {
    pub closed spec fn device_text(&self) -> Seq<char> {
        self.device_name@
    }

    /// When everything queued is played, if anything is.
    pub closed spec fn end(&self) -> Option<Instant> {
        self.playback_end
    }

    /// Whether the output is open.
    pub closed spec fn is_open(&self) -> bool {
        self.stream_running
    }

    /// The latency last measured.
    pub closed spec fn latency(&self) -> u64 {
        self.measured_latency_micros
    }

    pub open spec fn pad(&self) -> Duration {
        Duration { nanos: tail_pad_nanos(self.latency()) as u128 }
    }

    pub fn new(device_name: &str) -> (s: CpalAudioSink)
        ensures
            s.device_text() == device_name@,
            s.end() is None,
            !s.is_open(),
            s.latency() == LATENCY_UNMEASURED,
    {
        CpalAudioSink {
            device_name: copy_of(device_name),
            playback_end: None,
            stream_running: false,
            measured_latency_micros: LATENCY_UNMEASURED,
            clock: Clock::start(),
        }
    }

    /// The device to open.
    pub fn device_name(&self) -> (n: &str)
        ensures
            n@ == self.device_text(),
    {
        self.device_name.as_str()
    }

    /// What is waited for the device at a measured latency.
    pub fn tail_pad_from_latency(latency_micros: u64) -> (d: Duration)
        ensures
            d.nanos == tail_pad_nanos(latency_micros),
    {
        let floor = Duration::from_millis(PLAYBACK_TAIL_PAD_FLOOR_MS);
        if latency_micros == LATENCY_UNMEASURED {
            return floor;
        }
        let margin = Duration::from_millis(PLAYBACK_LATENCY_MARGIN_MS);
        let measured: u128 = latency_micros as u128 * 1_000 + margin.nanos;
        if measured < floor.nanos {
            floor
        } else {
            Duration { nanos: measured }
        }
    }

    /// What is waited for the device at present.
    pub fn tail_pad(&self) -> (d: Duration)
        ensures
            d == self.pad(),
    {
        CpalAudioSink::tail_pad_from_latency(self.measured_latency_micros)
    }

    /// Takes in the device's latency, as measured.
    pub fn set_measured_latency(&mut self, micros: u64)
        ensures
            final(self).latency() == micros,
            final(self).end() == old(self).end(),
            final(self).is_open() == old(self).is_open(),
            final(self).device_text() == old(self).device_text(),
    {
        self.measured_latency_micros = micros;
    }

    /// Whether the output has to be opened before anything can be queued.
    pub fn needs_open(&self) -> (b: bool)
        ensures
            b == !self.is_open(),
    {
        !self.stream_running
    }

    /// Notes that the output is open.
    pub fn opened(&mut self)
        ensures
            final(self).is_open(),
            final(self).end() == old(self).end(),
            final(self).latency() == old(self).latency(),
            final(self).device_text() == old(self).device_text(),
    {
        self.stream_running = true;
    }

    /// Puts off the end of playback by the time that `samples` take.
    pub fn extend_playback_deadline(&mut self, samples: usize)
        ensures
            exists|now: Instant|
                final(self).end() == Some(#[trigger] extended(old(self).end(), samples as nat, now)),
            final(self).latency() == old(self).latency(),
            final(self).is_open() == old(self).is_open(),
            final(self).device_text() == old(self).device_text(),
    {
        let now = self.clock.now();
        let ghost before = self.end();
        self.extend_playback_deadline_at(samples, now);
        proof {
            assert(self.end() == Some(extended(before, samples as nat, now)));
        }
    }

    pub fn extend_playback_deadline_at(&mut self, samples: usize, now: Instant)
        ensures
            final(self).end() == Some(extended(old(self).end(), samples as nat, now)),
            final(self).latency() == old(self).latency(),
            final(self).is_open() == old(self).is_open(),
            final(self).device_text() == old(self).device_text(),
    {
        let added = Duration { nanos: samples as u128 * 62_500 };
        let base = match self.playback_end {
            Some(prev) if prev.nanos > now.nanos => prev,
            _ => now,
        };
        self.playback_end = Some(base.plus(added));
    }

    /// Takes in that `written` samples were queued. Where none were, nothing
    /// plays that did not play before.
    pub fn queued_at(&mut self, written: usize, now: Instant)
        ensures
            final(self).end() == (if written > 0 {
                Some(extended(old(self).end(), written as nat, now))
            } else {
                old(self).end()
            }),
            final(self).latency() == old(self).latency(),
            final(self).is_open() == old(self).is_open(),
            final(self).device_text() == old(self).device_text(),
    {
        if written > 0 {
            self.extend_playback_deadline_at(written, now);
        }
    }

    /// Forgets all that is queued; the output has to be opened anew.
    pub fn stop(&mut self)
        ensures
            final(self).end() is None,
            !final(self).is_open(),
            final(self).latency() == old(self).latency(),
            final(self).device_text() == old(self).device_text(),
    {
        self.stream_running = false;
        self.playback_end = None;
    }

    /// Whether anything is heard.
    pub fn is_playing(&self) -> (b: bool)
        ensures
            exists|now: Instant| b == #[trigger] heard_at(self.end(), self.pad(), now),
    {
        let now = self.clock.now();
        let b = self.is_playing_at(now);
        proof {
            assert(b == heard_at(self.end(), self.pad(), now));
        }
        b
    }

    pub fn is_playing_at(&self, now: Instant) -> (b: bool)
        ensures
            b == heard_at(self.end(), self.pad(), now),
    {
        let pad = self.tail_pad();
        match self.playback_end {
            Some(deadline) => now.nanos < deadline.plus(pad).nanos,
            None => false,
        }
    }

    /// Whether only the device's latency is waited for.
    pub fn in_tail_pad(&self) -> (b: bool)
        ensures
            exists|now: Instant| b == #[trigger] padding_at(self.end(), self.pad(), now),
    {
        let now = self.clock.now();
        let b = self.in_tail_pad_at(now);
        proof {
            assert(b == padding_at(self.end(), self.pad(), now));
        }
        b
    }

    pub fn in_tail_pad_at(&self, now: Instant) -> (b: bool)
        ensures
            b == padding_at(self.end(), self.pad(), now),
    {
        let pad = self.tail_pad();
        match self.playback_end {
            Some(deadline) => now.nanos >= deadline.nanos && now.nanos < deadline.plus(pad).nanos,
            None => false,
        }
    }

    /// How much longer the queued samples take at `now`, without what is waited
    /// for the device.
    pub fn remaining_at(&self, now: Instant) -> (d: Duration)
        ensures
            d.nanos == (if self.end() is Some && self.end()->0.nanos > now.nanos {
                (self.end()->0.nanos - now.nanos) as int
            } else {
                0
            }),
    {
        match self.playback_end {
            Some(deadline) => deadline.duration_since(now),
            None => Duration { nanos: 0 },
        }
    }
}

// ---------------------------------------------------------------------------
// Laws
// ---------------------------------------------------------------------------

/// The wait for the device is never shorter than its floor, never shorter than
/// the measured latency, and does not shrink as the latency grows.
pub proof fn law_pad_covers_latency(less: u64, more: u64)
    requires
        less <= more < LATENCY_UNMEASURED,
    ensures
        tail_pad_nanos(less) >= 250_000_000,
        tail_pad_nanos(less) >= less * 1_000,
        tail_pad_nanos(less) <= tail_pad_nanos(more),
        tail_pad_nanos(LATENCY_UNMEASURED) == 250_000_000,
{
}

/// While only the device's latency is waited for, audio still counts as
/// playing, and all that was queued has had its time.
pub proof fn law_padding_is_playing(end: Option<Instant>, pad: Duration, now: Instant)
    ensures
        padding_at(end, pad, now) ==> heard_at(end, pad, now),
        heard_at(end, pad, now) && !padding_at(end, pad, now) ==> now.nanos < end->0.nanos,
{
}

/// Sentences queued one behind the other play one behind the other: their times
/// add up, however they are cut.
pub proof fn law_play_times_add_up(end: Option<Instant>, a: nat, b: nat, now: Instant)
    requires
        now.nanos + play_time(a + b) <= u128::MAX,
        end is Some ==> end->0.nanos + play_time(a + b) <= u128::MAX,
    ensures
        extended(Some(extended(end, a, now)), b, now) == extended(end, a + b, now),
{
    assert(play_time(a + b) == play_time(a) + play_time(b));
}

/// Audio counts as playing from the moment it is queued until its time, and the
/// wait for the device, have passed, and no longer.
pub proof fn law_playing_until_heard(samples: nat, pad: Duration, now: Instant, later: Instant)
    requires
        now.nanos + play_time(samples) + pad.nanos <= u128::MAX,
        pad.nanos > 0,
        now.nanos <= later.nanos,
    ensures
        heard_at(Some(extended(None, samples, now)), pad, now),
        heard_at(Some(extended(None, samples, now)), pad, later) <==> later.nanos - now.nanos
            < play_time(samples) + pad.nanos,
{
}

/// Sixteen thousand samples take a second.
pub proof fn law_a_second_of_samples(samples: nat)
    ensures
        play_time(samples) * 16_000 == samples * 1_000_000_000,
{
}

/// What is waited for the device is its measured latency and fifty milliseconds,
/// and never less than two hundred and fifty; so much, too, while none was
/// measured.
pub proof fn law_what_the_pad_is(latency_micros: u64)
    ensures
        latency_micros < 200_000 || latency_micros == u64::MAX ==> tail_pad_nanos(latency_micros)
            == 250_000_000,
        200_000 <= latency_micros < u64::MAX ==> tail_pad_nanos(latency_micros) == (latency_micros
            + 50_000) * 1_000,
{
}

/// What is queued is played behind what still plays, and at once where nothing
/// does. It counts as playing until then and for as long as is waited for the
/// device; from the end of the samples on only the device is waited for. Where
/// nothing was queued nothing plays.
pub proof fn law_what_plays_when(
    end: Option<Instant>,
    samples: nat,
    pad: Duration,
    now: Instant,
    later: Instant,
)
    requires
        now.nanos + play_time(samples) + pad.nanos <= u128::MAX,
        end is Some ==> end->0.nanos + play_time(samples) + pad.nanos <= u128::MAX,
    ensures
        end is Some && end->0.nanos > now.nanos ==> extended(end, samples, now).nanos
            == end->0.nanos + samples * 62_500,
        end is None || end->0.nanos <= now.nanos ==> extended(end, samples, now).nanos == now.nanos
            + samples * 62_500,
        end is None ==> !heard_at(end, pad, later) && !padding_at(end, pad, later),
        end is Some ==> (heard_at(end, pad, later) <==> later.nanos < end->0.nanos + pad.nanos),
        end is Some ==> (padding_at(end, pad, later) <==> end->0.nanos <= later.nanos
            < end->0.nanos + pad.nanos),
{
}

/// What a sink waits for its device goes by the latency that was measured last.
pub proof fn law_the_pad_of_a_sink(s: CpalAudioSink)
    ensures
        s.pad().nanos == tail_pad_nanos(s.latency()),
{
}

} // verus!
