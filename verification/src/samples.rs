//! Runs of audio samples of any copyable kind.

use vstd::prelude::*;

use crate::time::Duration;

verus! {

/// Appends the samples of `tail` to `out`.
pub fn append_samples<T: Copy>(out: &mut Vec<T>, tail: &[T])
    ensures
        final(out)@ == old(out)@ + tail@,
{
    let ghost start = out@;
    let mut i: usize = 0;
    while i < tail.len()
        invariant
            i <= tail@.len(),
            out@ == start + tail@.take(i as int),
        decreases tail@.len() - i,
    {
        proof {
            assert(start + tail@.take(i as int + 1) =~= (start + tail@.take(i as int)).push(
                tail@[i as int],
            ));
        }
        out.push(tail[i]);
        i += 1;
    }
    proof {
        assert(tail@.take(tail@.len() as int) =~= tail@);
    }
}

/// A copy of `samples[from..to]`.
pub fn samples_between<T: Copy>(samples: &[T], from: usize, to: usize) -> (out: Vec<T>)
    requires
        from <= to <= samples@.len(),
    ensures
        out@ == samples@.subrange(from as int, to as int),
{
    let mut out: Vec<T> = Vec::new();
    let mut i: usize = from;
    while i < to
        invariant
            from <= i <= to <= samples@.len(),
            out@ == samples@.subrange(from as int, i as int),
        decreases to - i,
    {
        proof {
            assert(samples@.subrange(from as int, i as int + 1) =~= samples@.subrange(
                from as int,
                i as int,
            ).push(samples@[i as int]));
        }
        out.push(samples[i]);
        i += 1;
    }
    out
}

/// The last `n` of `s`, or all of it where there are fewer.
pub open spec fn last_of<T>(s: Seq<T>, n: nat) -> Seq<T> {
    if s.len() > n {
        s.skip(s.len() - n)
    } else {
        s
    }
}

/// A chunk of audio.
#[derive(Debug, PartialEq, Eq)]
pub struct AudioChunk<T> {
    pub samples: Vec<T>,
}

impl<T> AudioChunk<T> {
    pub fn new(samples: Vec<T>) -> (c: AudioChunk<T>)
        ensures
            c.samples == samples,
    {
        AudioChunk { samples }
    }

    /// How long the chunk takes.
    pub fn duration(&self) -> (d: Duration)
        ensures
            d.nanos == self.samples@.len() * 62_500,
    {
        Duration { nanos: self.samples.len() as u128 * 62_500 }
    }
}

} // verus!
