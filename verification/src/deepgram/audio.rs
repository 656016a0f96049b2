//! The wire format of audio: signed 16-bit samples, little-endian.

use vstd::prelude::*;

verus! {

/// Fewest samples worth sending: a tenth of a second at 16 kHz.
pub const MIN_AUDIO_SAMPLES: usize = 1600;

/// The largest magnitude of a scaled sample: full scale maps to 32767 on
/// both sides of zero.
pub const SAMPLE_SCALE: i16 = 32767;

/// The low byte of the two's complement form of `x`.
pub open spec fn low_byte(x: i16) -> u8 {
    (if x < 0 {
        x + 65536
    } else {
        x as int
    } % 256) as u8
}

/// The high byte of the two's complement form of `x`.
pub open spec fn high_byte(x: i16) -> u8 {
    (if x < 0 {
        x + 65536
    } else {
        x as int
    } / 256) as u8
}

/// The sample that two little-endian bytes stand for.
pub open spec fn sample_from_le(low: u8, high: u8) -> int {
    let u = low as int + 256 * (high as int);
    if u >= 32768 {
        u - 65536
    } else {
        u
    }
}

/// The wire bytes of a sample sequence: two per sample, low byte first, in
/// the order of the samples.
pub open spec fn linear16(samples: Seq<i16>) -> Seq<u8> {
    Seq::new(
        2 * samples.len(),
        |k: int|
            if k % 2 == 0 {
                low_byte(samples[k / 2])
            } else {
                high_byte(samples[k / 2])
            },
    )
}

/// Decoding the two bytes of a sample gives the sample back.
pub proof fn lemma_sample_round_trip(x: i16)
    ensures
        sample_from_le(low_byte(x), high_byte(x)) == x,
{
}

/// Decoding the bytes at positions `2k` and `2k + 1` of the wire form gives
/// sample `k` back: the encoding keeps every sample, in order.
pub proof fn lemma_linear16_round_trip(samples: Seq<i16>, k: int)
    requires
        0 <= k < samples.len(),
    ensures
        linear16(samples).len() == 2 * samples.len(),
        sample_from_le(linear16(samples)[2 * k], linear16(samples)[2 * k + 1]) == samples[k],
{
    lemma_sample_round_trip(samples[k]);
}

/// The two wire bytes of one sample.
pub fn sample_to_le(x: i16) -> (bytes: (u8, u8))
    ensures
        bytes.0 == low_byte(x),
        bytes.1 == high_byte(x),
{
    let u: i32 = if x < 0 {
        x as i32 + 65536
    } else {
        x as i32
    };
    ((u % 256) as u8, (u / 256) as u8)
}

/// Encodes samples for the wire.
pub fn encode_linear16(samples: &[i16]) -> (out: Vec<u8>)
    ensures
        out@ == linear16(samples@),
{
    let mut out: Vec<u8> = Vec::new();
    let n = samples.len();
    let mut i: usize = 0;
    while i < n
        invariant
            n == samples.len(),
            i <= n,
            out@.len() == 2 * i,
            forall|k: int| 0 <= k < 2 * i ==> out@[k] == linear16(samples@)[k],
        decreases n - i,
    {
        let (low, high) = sample_to_le(samples[i]);
        out.push(low);
        out.push(high);
        i += 1;
    }
    proof {
        assert(out@ =~= linear16(samples@));
    }
    out
}

} // verus!
