//! Uncompressed WAV: 16-bit samples of one channel.

use vstd::prelude::*;

verus! {

/// A number in two bytes, the low one first.
pub open spec fn two_bytes(n: nat) -> Seq<u8> {
    seq![(n % 256) as u8, (n / 256 % 256) as u8]
}

/// A number in four bytes, the lowest first.
pub open spec fn four_bytes(n: nat) -> Seq<u8> {
    seq![
        (n % 256) as u8,
        (n / 256 % 256) as u8,
        (n / 65_536 % 256) as u8,
        (n / 16_777_216 % 256) as u8,
    ]
}

/// A sample as a number without a sign, in two's complement.
pub open spec fn unsigned(sample: i16) -> nat {
    if sample < 0 {
        (sample + 65_536) as nat
    } else {
        sample as nat
    }
}

/// The header of a file that holds `data_len` bytes of samples at `rate`.
pub open spec fn wav_header(data_len: nat, rate: nat) -> Seq<u8> {
    seq![82u8, 73u8, 70u8, 70u8] + four_bytes(36 + data_len) + seq![87u8, 65u8, 86u8, 69u8]
        + seq![102u8, 109u8, 116u8, 32u8] + four_bytes(16) + two_bytes(1) + two_bytes(1)
        + four_bytes(rate) + four_bytes(rate * 2) + two_bytes(2) + two_bytes(16)
        + seq![100u8, 97u8, 116u8, 97u8] + four_bytes(data_len)
}

/// The bytes of several samples.
pub open spec fn sample_bytes(samples: Seq<i16>) -> Seq<u8>
    decreases samples.len(),
{
    if samples.len() == 0 {
        Seq::empty()
    } else {
        sample_bytes(samples.drop_last()) + two_bytes(unsigned(samples.last()))
    }
}

fn push_two(buf: &mut Vec<u8>, n: u16)
    ensures
        final(buf)@ == old(buf)@ + two_bytes(n as nat),
{
    let ghost before = buf@;
    buf.push((n % 256) as u8);
    buf.push((n / 256 % 256) as u8);
    proof {
        assert(buf@ =~= before + two_bytes(n as nat));
    }
}

fn push_four(buf: &mut Vec<u8>, n: u32)
    ensures
        final(buf)@ == old(buf)@ + four_bytes(n as nat),
{
    let ghost before = buf@;
    buf.push((n % 256) as u8);
    buf.push((n / 256 % 256) as u8);
    buf.push((n / 65_536 % 256) as u8);
    buf.push((n / 16_777_216 % 256) as u8);
    proof {
        assert(buf@ =~= before + four_bytes(n as nat));
    }
}

fn push_tag(buf: &mut Vec<u8>, a: u8, b: u8, c: u8, d: u8)
    ensures
        final(buf)@ == old(buf)@ + seq![a, b, c, d],
{
    let ghost before = buf@;
    buf.push(a);
    buf.push(b);
    buf.push(c);
    buf.push(d);
    proof {
        assert(buf@ =~= before + seq![a, b, c, d]);
    }
}

/// Encodes samples as a WAV file.
pub fn encode_wav(samples: &[i16], sample_rate: u32) -> (buf: Vec<u8>)
    requires
        samples@.len() * 2 + 36 <= u32::MAX,
        sample_rate * 2 <= u32::MAX,
    ensures
        buf@ == wav_header(samples@.len() * 2, sample_rate as nat) + sample_bytes(samples@),
{
    let data_len: u32 = samples.len() as u32 * 2;
    let mut buf: Vec<u8> = Vec::new();
    push_tag(&mut buf, 82, 73, 70, 70);
    push_four(&mut buf, 36 + data_len);
    push_tag(&mut buf, 87, 65, 86, 69);
    push_tag(&mut buf, 102, 109, 116, 32);
    push_four(&mut buf, 16);
    push_two(&mut buf, 1);
    push_two(&mut buf, 1);
    push_four(&mut buf, sample_rate);
    push_four(&mut buf, sample_rate * 2);
    push_two(&mut buf, 2);
    push_two(&mut buf, 16);
    push_tag(&mut buf, 100, 97, 116, 97);
    push_four(&mut buf, data_len);
    let ghost header = wav_header(samples@.len() * 2, sample_rate as nat);
    proof {
        assert(buf@ =~= header);
        assert(samples@.take(0) =~= Seq::<i16>::empty());
        assert(buf@ =~= header + sample_bytes(samples@.take(0)));
    }
    let mut i: usize = 0;
    while i < samples.len()
        invariant
            i <= samples@.len(),
            buf@ == header + sample_bytes(samples@.take(i as int)),
        decreases samples@.len() - i,
    {
        let v = samples[i];
        let n: u16 = if v < 0 {
            (v as i32 + 65_536) as u16
        } else {
            v as u16
        };
        proof {
            assert(samples@.take(i + 1).drop_last() =~= samples@.take(i as int));
        }
        let ghost before = buf@;
        push_two(&mut buf, n);
        i += 1;
        proof {
            assert(buf@ =~= header + sample_bytes(samples@.take(i as int)));
        }
    }
    proof {
        assert(samples@.take(i as int) =~= samples@);
    }
    buf
}

// ---------------------------------------------------------------------------
// Laws
// ---------------------------------------------------------------------------

/// The sample that two bytes stand for.
pub open spec fn sample_of(low: u8, high: u8) -> int {
    let n = low + high * 256;
    if n >= 32_768 {
        n - 65_536
    } else {
        n
    }
}

/// The number that four bytes stand for.
pub open spec fn number_of(a: u8, b: u8, c: u8, d: u8) -> int {
    a + b * 256 + c * 65_536 + d * 16_777_216
}

proof fn lemma_sample_bytes(samples: Seq<i16>, k: int)
    requires
        0 <= k < samples.len(),
    ensures
        sample_bytes(samples).len() == 2 * samples.len(),
        sample_bytes(samples)[2 * k] == two_bytes(unsigned(samples[k]))[0],
        sample_bytes(samples)[2 * k + 1] == two_bytes(unsigned(samples[k]))[1],
    decreases samples.len(),
{
    lemma_sample_bytes_len(samples.drop_last());
    if k < samples.len() - 1 {
        lemma_sample_bytes(samples.drop_last(), k);
    }
}

proof fn lemma_sample_bytes_len(samples: Seq<i16>)
    ensures
        sample_bytes(samples).len() == 2 * samples.len(),
    decreases samples.len(),
{
    if samples.len() > 0 {
        lemma_sample_bytes_len(samples.drop_last());
    }
}

/// The header always takes forty-four bytes, and every sample two.
pub proof fn law_wav_length(samples: Seq<i16>, rate: nat)
    ensures
        (wav_header(samples.len() * 2, rate) + sample_bytes(samples)).len() == 44 + 2
            * samples.len(),
{
    lemma_sample_bytes_len(samples);
}

/// Every sample can be read back where it stands.
pub proof fn law_wav_keeps_every_sample(samples: Seq<i16>, rate: nat, k: int)
    requires
        0 <= k < samples.len(),
    ensures
        ({
            let file = wav_header(samples.len() * 2, rate) + sample_bytes(samples);
            sample_of(file[44 + 2 * k], file[45 + 2 * k]) == samples[k]
        }),
{
    lemma_sample_bytes(samples, k);
    let file = wav_header(samples.len() * 2, rate) + sample_bytes(samples);
    assert(wav_header(samples.len() * 2, rate).len() == 44);
    assert(file[44 + 2 * k] == sample_bytes(samples)[2 * k]);
    assert(file[45 + 2 * k] == sample_bytes(samples)[2 * k + 1]);
}

/// The rate and the sizes can be read back where they stand.
pub proof fn law_wav_header_is_readable(data_len: nat, rate: nat)
    requires

        36 + data_len <= u32::MAX,
        rate <= u32::MAX,
    ensures
        ({
            let h = wav_header(data_len, rate);
            &&& number_of(h[4], h[5], h[6], h[7]) == 36 + data_len
            &&& number_of(h[24], h[25], h[26], h[27]) == rate
            &&& number_of(h[40], h[41], h[42], h[43]) == data_len
        }),
{
    lemma_four_bytes(36 + data_len);
    lemma_four_bytes(rate);
    lemma_four_bytes(data_len);
    let h = wav_header(data_len, rate);
    assert(h.subrange(4, 8) =~= four_bytes(36 + data_len));
    assert(h.subrange(24, 28) =~= four_bytes(rate));
    assert(h.subrange(40, 44) =~= four_bytes(data_len));
    assert(h[4] == h.subrange(4, 8)[0] && h[5] == h.subrange(4, 8)[1]);
    assert(h[6] == h.subrange(4, 8)[2] && h[7] == h.subrange(4, 8)[3]);
    assert(h[24] == h.subrange(24, 28)[0] && h[25] == h.subrange(24, 28)[1]);
    assert(h[26] == h.subrange(24, 28)[2] && h[27] == h.subrange(24, 28)[3]);
    assert(h[40] == h.subrange(40, 44)[0] && h[41] == h.subrange(40, 44)[1]);
    assert(h[42] == h.subrange(40, 44)[2] && h[43] == h.subrange(40, 44)[3]);
}

proof fn lemma_four_bytes(n: nat)
    requires
        n <= u32::MAX,
    ensures
        ({
            let b = four_bytes(n);
            number_of(b[0], b[1], b[2], b[3]) == n
        }),
{
}

/// What the header says besides: `RIFF`, `WAVE`, `fmt ` and `data` where they
/// belong, and in between sixteen bytes of format: plain samples of one channel,
/// the rate, twice as many bytes a second, two bytes a sample, sixteen bits.
pub proof fn law_what_the_header_says(data_len: nat, rate: nat)
    requires
        rate * 2 <= u32::MAX,
    ensures
        ({
            let h = wav_header(data_len, rate);
            &&& h.len() == 44
            &&& h[0] as char == 'R' && h[1] as char == 'I' && h[2] as char == 'F' && h[3] as char
                == 'F'
            &&& h[8] as char == 'W' && h[9] as char == 'A' && h[10] as char == 'V' && h[11] as char
                == 'E'
            &&& h[12] as char == 'f' && h[13] as char == 'm' && h[14] as char == 't' && h[15]
                as char == ' '
            &&& number_of(h[16], h[17], h[18], h[19]) == 16
            &&& h[20] == 1 && h[21] == 0
            &&& h[22] == 1 && h[23] == 0
            &&& number_of(h[28], h[29], h[30], h[31]) == rate * 2
            &&& h[32] == 2 && h[33] == 0
            &&& h[34] == 16 && h[35] == 0
            &&& h[36] as char == 'd' && h[37] as char == 'a' && h[38] as char == 't' && h[39]
                as char == 'a'
        }),
{
    let h = wav_header(data_len, rate);
    lemma_four_bytes(16);
    lemma_four_bytes(rate * 2);
    assert(h.subrange(0, 4) =~= seq![82u8, 73u8, 70u8, 70u8]);
    assert(h.subrange(8, 12) =~= seq![87u8, 65u8, 86u8, 69u8]);
    assert(h.subrange(12, 16) =~= seq![102u8, 109u8, 116u8, 32u8]);
    assert(h.subrange(16, 20) =~= four_bytes(16));
    assert(h.subrange(20, 22) =~= two_bytes(1));
    assert(h.subrange(22, 24) =~= two_bytes(1));
    assert(h.subrange(28, 32) =~= four_bytes(rate * 2));
    assert(h.subrange(32, 34) =~= two_bytes(2));
    assert(h.subrange(34, 36) =~= two_bytes(16));
    assert(h.subrange(36, 40) =~= seq![100u8, 97u8, 116u8, 97u8]);
    assert(h[0] == h.subrange(0, 4)[0] && h[1] == h.subrange(0, 4)[1]);
    assert(h[2] == h.subrange(0, 4)[2] && h[3] == h.subrange(0, 4)[3]);
    assert(h[8] == h.subrange(8, 12)[0] && h[9] == h.subrange(8, 12)[1]);
    assert(h[10] == h.subrange(8, 12)[2] && h[11] == h.subrange(8, 12)[3]);
    assert(h[12] == h.subrange(12, 16)[0] && h[13] == h.subrange(12, 16)[1]);
    assert(h[14] == h.subrange(12, 16)[2] && h[15] == h.subrange(12, 16)[3]);
    assert(h[16] == h.subrange(16, 20)[0] && h[17] == h.subrange(16, 20)[1]);
    assert(h[18] == h.subrange(16, 20)[2] && h[19] == h.subrange(16, 20)[3]);
    assert(h[20] == h.subrange(20, 22)[0] && h[21] == h.subrange(20, 22)[1]);
    assert(h[22] == h.subrange(22, 24)[0] && h[23] == h.subrange(22, 24)[1]);
    assert(h[28] == h.subrange(28, 32)[0] && h[29] == h.subrange(28, 32)[1]);
    assert(h[30] == h.subrange(28, 32)[2] && h[31] == h.subrange(28, 32)[3]);
    assert(h[32] == h.subrange(32, 34)[0] && h[33] == h.subrange(32, 34)[1]);
    assert(h[34] == h.subrange(34, 36)[0] && h[35] == h.subrange(34, 36)[1]);
    assert(h[36] == h.subrange(36, 40)[0] && h[37] == h.subrange(36, 40)[1]);
    assert(h[38] == h.subrange(36, 40)[2] && h[39] == h.subrange(36, 40)[3]);
}

} // verus!
