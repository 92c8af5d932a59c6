//! Linear PCM to companded-byte codecs (ITU-T G.711).
//!
//! Both encoders are total over all 16-bit signed samples: the magnitude is
//! taken in 32-bit arithmetic, so the most negative sample is handled by the
//! clip like any other loud sample, and no input can make them fail.

use vstd::prelude::*;

verus! {

/// Magnitude of a sample, clipped to 32635 and biased by 132, as the
/// mu-law ladder expects it. Always in 132..=32767.
pub open spec fn mulaw_biased_magnitude(pcm: i16) -> int {
    let mag = if pcm < 0 {
        -(pcm as int)
    } else {
        pcm as int
    };
    let clipped = if mag > 32635 {
        32635int
    } else {
        mag
    };
    clipped + 132
}

/// Exponent band (0..=7) selected by the mu-law magnitude ladder.
pub open spec fn mulaw_exponent(m: int) -> int {
    if m >= 0x7FFF {
        7
    } else if m >= 0x4000 {
        6
    } else if m >= 0x2000 {
        5
    } else if m >= 0x1000 {
        4
    } else if m >= 0x0800 {
        3
    } else if m >= 0x0400 {
        2
    } else if m >= 0x0200 {
        1
    } else {
        0
    }
}

/// 2^(e + 3): the divisor that drops the bits below a band's mantissa.
pub open spec fn mantissa_divisor(e: int) -> int {
    if e == 0 {
        8
    } else if e == 1 {
        16
    } else if e == 2 {
        32
    } else if e == 3 {
        64
    } else if e == 4 {
        128
    } else if e == 5 {
        256
    } else if e == 6 {
        512
    } else {
        1024
    }
}

/// The mu-law byte for a sample: sign bit, exponent band, 4-bit mantissa,
/// packed and then inverted (inverting a byte is 255 minus the byte).
pub open spec fn mulaw_encode_spec(pcm: i16) -> u8 {
    let m = mulaw_biased_magnitude(pcm);
    let e = mulaw_exponent(m);
    let mantissa = (m / mantissa_divisor(e)) % 16;
    let sign = if pcm < 0 {
        128int
    } else {
        0int
    };
    (255 - (sign + 16 * e + mantissa)) as u8
}

/// Convert one linear PCM sample to mu-law (G.711).
///
/// The result is a function of the sample alone, so the encoding is
/// deterministic by contract.
pub fn linear_to_mulaw(pcm: i16) -> (r: u8)
    ensures
        r == mulaw_encode_spec(pcm),
{
    let sign: u16 = if pcm < 0 {
        128
    } else {
        0
    };
    let mag: u16 = if pcm < 0 {
        (-(pcm as i32)) as u16
    } else {
        pcm as u16
    };
    let clipped: u16 = if mag > 32635 {
        32635
    } else {
        mag
    };
    let biased: u16 = clipped + 132;
    let exponent: u16 = if biased >= 0x7FFF {
        7
    } else if biased >= 0x4000 {
        6
    } else if biased >= 0x2000 {
        5
    } else if biased >= 0x1000 {
        4
    } else if biased >= 0x0800 {
        3
    } else if biased >= 0x0400 {
        2
    } else if biased >= 0x0200 {
        1
    } else {
        0
    };
    let divisor: u16 = if exponent == 0 {
        8
    } else if exponent == 1 {
        16
    } else if exponent == 2 {
        32
    } else if exponent == 3 {
        64
    } else if exponent == 4 {
        128
    } else if exponent == 5 {
        256
    } else if exponent == 6 {
        512
    } else {
        1024
    };
    let mantissa: u16 = (biased / divisor) % 16;
    let packed: u16 = sign + 16 * exponent + mantissa;
    (255 - packed) as u8
}

/// Magnitude of a sample for A-law: clipped to 32767, no bias.
pub open spec fn alaw_magnitude(pcm: i16) -> int {
    let mag = if pcm < 0 {
        -(pcm as int)
    } else {
        pcm as int
    };
    if mag > 32767 {
        32767int
    } else {
        mag
    }
}

/// Exponent band (0..=7) selected by the A-law magnitude ladder.
pub open spec fn alaw_exponent(m: int) -> int {
    if m >= 0x4000 {
        7
    } else if m >= 0x2000 {
        6
    } else if m >= 0x1000 {
        5
    } else if m >= 0x0800 {
        4
    } else if m >= 0x0400 {
        3
    } else if m >= 0x0200 {
        2
    } else if m >= 0x0100 {
        1
    } else {
        0
    }
}

/// The A-law mantissa: in band 0 the next four linear bits, otherwise the
/// four bits below the leading one of the band.
pub open spec fn alaw_mantissa(m: int, e: int) -> int {
    if e == 0 {
        m / 16
    } else {
        (m / mantissa_divisor(e)) % 16
    }
}

/// The A-law byte for a sample: sign bit, exponent band, 4-bit mantissa,
/// packed and then XORed with 0x55 per G.711.
pub open spec fn alaw_encode_spec(pcm: i16) -> u8 {
    let m = alaw_magnitude(pcm);
    let e = alaw_exponent(m);
    let sign = if pcm < 0 {
        128int
    } else {
        0int
    };
    (((sign + 16 * e + alaw_mantissa(m, e)) as u8) ^ 0x55) as u8
}

/// Convert one linear PCM sample to A-law (G.711).
///
/// The result is a function of the sample alone, so the encoding is
/// deterministic by contract.
pub fn linear_to_alaw(pcm: i16) -> (r: u8)
    ensures
        r == alaw_encode_spec(pcm),
{
    let sign: u16 = if pcm < 0 {
        128
    } else {
        0
    };
    let mag: u16 = if pcm < 0 {
        (-(pcm as i32)) as u16
    } else {
        pcm as u16
    };
    let clipped: u16 = if mag > 32767 {
        32767
    } else {
        mag
    };
    let exponent: u16 = if clipped >= 0x4000 {
        7
    } else if clipped >= 0x2000 {
        6
    } else if clipped >= 0x1000 {
        5
    } else if clipped >= 0x0800 {
        4
    } else if clipped >= 0x0400 {
        3
    } else if clipped >= 0x0200 {
        2
    } else if clipped >= 0x0100 {
        1
    } else {
        0
    };
    let mantissa: u16 = if exponent == 0 {
        clipped / 16
    } else {
        let divisor: u16 = if exponent == 1 {
            16
        } else if exponent == 2 {
            32
        } else if exponent == 3 {
            64
        } else if exponent == 4 {
            128
        } else if exponent == 5 {
            256
        } else if exponent == 6 {
            512
        } else {
            1024
        };
        (clipped / divisor) % 16
    };
    let packed: u16 = sign + 16 * exponent + mantissa;
    (packed as u8) ^ 0x55
}

/// Convert a PCM buffer to mu-law, one byte per sample, order kept.
pub fn pcm_to_mulaw(pcm_samples: &[i16]) -> (r: Vec<u8>)
    ensures
        r@.len() == pcm_samples@.len(),
        forall|i: int| 0 <= i < r@.len() ==> r@[i] == mulaw_encode_spec(pcm_samples@[i]),
{
    let mut out: Vec<u8> = Vec::new();
    let n = pcm_samples.len();
    for idx in 0..n
        invariant
            out@.len() == idx,
            n == pcm_samples@.len(),
            forall|i: int| 0 <= i < idx ==> out@[i] == mulaw_encode_spec(pcm_samples@[i]),
    {
        out.push(linear_to_mulaw(pcm_samples[idx]));
    }
    out
}

/// Convert a PCM buffer to A-law, one byte per sample, order kept.
pub fn pcm_to_alaw(pcm_samples: &[i16]) -> (r: Vec<u8>)
    ensures
        r@.len() == pcm_samples@.len(),
        forall|i: int| 0 <= i < r@.len() ==> r@[i] == alaw_encode_spec(pcm_samples@[i]),
{
    let mut out: Vec<u8> = Vec::new();
    let n = pcm_samples.len();
    for idx in 0..n
        invariant
            out@.len() == idx,
            n == pcm_samples@.len(),
            forall|i: int| 0 <= i < idx ==> out@[i] == alaw_encode_spec(pcm_samples@[i]),
    {
        out.push(linear_to_alaw(pcm_samples[idx]));
    }
    out
}

/// A silent sample encodes to 0xFF under mu-law.
pub proof fn lemma_mulaw_encode_zero()
    ensures
        mulaw_encode_spec(0) == 0xFF,
{
}

/// A silent sample encodes to 0x55 under A-law.
pub proof fn lemma_alaw_encode_zero()
    ensures
        alaw_encode_spec(0) == 0x55,
{
    assert(0u8 ^ 0x55 == 0x55) by (bit_vector);
}

} // verus!
