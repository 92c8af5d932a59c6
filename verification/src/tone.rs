//! The tone synthesizer's discrete logic: the DTMF frequency plan and the
//! comfort-noise generator's pseudo-random sequence.
//!
//! Turning a frequency pair or a noise seed into floating-point samples is
//! numeric synthesis that the caller performs; what a digit means and which
//! seeds the noise generator walks through are fixed rules stated and proved
//! here.

use vstd::prelude::*;

verus! {

/// Failure of a synthesis request.
#[derive(Debug, Clone, Copy, PartialEq, Eq, Structural)]
pub enum ToneError {
    /// The requested character is not in the DTMF alphabet {0-9, A-D, *, #}.
    UnsupportedDigit,
}

impl ToneError {
    /// A short description of the error, for the caller's report.
    pub fn message(&self) -> (r: &'static str)
        ensures
            r@ == "unsupported DTMF digit"@,
    {
        "unsupported DTMF digit"
    }
}

/// The DTMF plan: row frequency (697/770/852/941 Hz) and column frequency
/// (1209/1336/1477/1633 Hz) of a keypad character, `None` outside the
/// alphabet.
pub open spec fn dtmf_frequencies_spec(digit: char) -> Option<(u16, u16)> {
    match digit {
        '1' => Some((697, 1209)),
        '2' => Some((697, 1336)),
        '3' => Some((697, 1477)),
        'A' => Some((697, 1633)),
        '4' => Some((770, 1209)),
        '5' => Some((770, 1336)),
        '6' => Some((770, 1477)),
        'B' => Some((770, 1633)),
        '7' => Some((852, 1209)),
        '8' => Some((852, 1336)),
        '9' => Some((852, 1477)),
        'C' => Some((852, 1633)),
        '*' => Some((941, 1209)),
        '0' => Some((941, 1336)),
        '#' => Some((941, 1477)),
        'D' => Some((941, 1633)),
        _ => None,
    }
}

/// Look up the two sine frequencies of a DTMF digit.
///
/// Succeeds exactly on the sixteen characters of the DTMF alphabet; any
/// other character is rejected and no samples are owed.
pub fn dtmf_frequencies(digit: char) -> (r: Result<(u16, u16), ToneError>)
    ensures
        r matches Ok(freqs) ==> dtmf_frequencies_spec(digit) == Some(freqs),
        r is Err <==> dtmf_frequencies_spec(digit) is None,
        r matches Err(e) ==> e == ToneError::UnsupportedDigit,
{
    match digit {
        '1' => Ok((697, 1209)),
        '2' => Ok((697, 1336)),
        '3' => Ok((697, 1477)),
        'A' => Ok((697, 1633)),
        '4' => Ok((770, 1209)),
        '5' => Ok((770, 1336)),
        '6' => Ok((770, 1477)),
        'B' => Ok((770, 1633)),
        '7' => Ok((852, 1209)),
        '8' => Ok((852, 1336)),
        '9' => Ok((852, 1477)),
        'C' => Ok((852, 1633)),
        '*' => Ok((941, 1209)),
        '0' => Ok((941, 1336)),
        '#' => Ok((941, 1477)),
        'D' => Ok((941, 1633)),
        _ => Err(ToneError::UnsupportedDigit),
    }
}

/// How many samples a synthesis request covers: the whole samples in
/// `duration_ms` milliseconds at `sample_rate` samples per second.
pub fn tone_sample_count(sample_rate: u32, duration_ms: u64) -> (r: usize)
    requires
        sample_rate * duration_ms / 1000 <= usize::MAX,
    ensures
        r == sample_rate * duration_ms / 1000,
{
    let total: u128 = (sample_rate as u128) * (duration_ms as u128) / 1000;
    total as usize
}

/// Fixed starting seed of the comfort-noise generator.
pub const COMFORT_NOISE_SEED: u64 = 12345;

/// One step of the comfort-noise linear congruential generator,
/// `seed * 1103515245 + 12345` modulo 2^64.
pub open spec fn lcg_next(seed: u64) -> u64 {
    vstd::wrapping::u64_specs::wrapping_add(
        vstd::wrapping::u64_specs::wrapping_mul(seed, 1103515245),
        12345,
    )
}

/// The seed after `n` steps from the fixed starting seed.
pub open spec fn lcg_seed_at(n: nat) -> u64
    decreases n,
{
    if n == 0 {
        COMFORT_NOISE_SEED
    } else {
        lcg_next(lcg_seed_at((n - 1) as nat))
    }
}

/// The seeds a comfort-noise request of `count` samples consumes, in order:
/// the generator steps once before each sample, so entry `i` is the seed
/// after `i + 1` steps.
pub fn comfort_noise_seeds(count: usize) -> (r: Vec<u64>)
    ensures
        r@.len() == count,
        forall|i: int| 0 <= i < count ==> r@[i] == lcg_seed_at((i + 1) as nat),
{
    let mut out: Vec<u64> = Vec::new();
    let mut seed: u64 = COMFORT_NOISE_SEED;
    for idx in 0..count
        invariant
            out@.len() == idx,
            seed == lcg_seed_at(idx as nat),
            forall|i: int| 0 <= i < idx ==> out@[i] == lcg_seed_at((i + 1) as nat),
    {
        seed = seed.wrapping_mul(1103515245).wrapping_add(12345);
        out.push(seed);
    }
    out
}

} // verus!
