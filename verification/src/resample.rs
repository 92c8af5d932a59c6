//! Emission logic of the streaming sample-rate converter.
//!
//! The converter consumes one input sample per call and decides whether one
//! output sample is due. Its phase accumulator advances by
//! `target_rate / source_rate` per input and gives up 1 whenever it reaches 1;
//! here the accumulator is kept exactly, scaled by `source_rate`, so the
//! decision and the output count are proved rather than approximated.
//! Interpolating the emitted sample's value between the previous and current
//! input is the caller's floating-point work.

use vstd::prelude::*;
use vstd::arithmetic::div_mod::lemma_fundamental_div_mod_converse_div;

verus! {

/// Decides, input sample by input sample, when the stream converted from
/// `source_rate` to `target_rate` is owed an output sample. Covers the
/// converter's validated domain, downsampling (`target_rate <= source_rate`).
pub struct SampleRateConverter {
    source_rate: u32,
    target_rate: u32,
    /// The phase accumulator times `source_rate`: the original accumulator
    /// value is `phase / source_rate`.
    phase: u64,
    inputs: Ghost<nat>,
    emitted: Ghost<nat>,
}

impl SampleRateConverter {
    /// The converter's invariant: rates in the validated (downsampling)
    /// range, and the accumulator exactly accounts for every input consumed
    /// and every output emitted.
    pub closed spec fn wf(&self) -> bool {
        &&& 0 < self.target_rate <= self.source_rate
        &&& self.phase == self.inputs@ * self.target_rate - self.emitted@ * self.source_rate
        &&& self.phase < self.source_rate
    }

    /// The rate the input stream arrives at.
    pub closed spec fn source_rate(&self) -> u32 {
        self.source_rate
    }

    /// The rate the output stream leaves at.
    pub closed spec fn target_rate(&self) -> u32 {
        self.target_rate
    }

    /// How many input samples have been consumed.
    pub closed spec fn inputs(&self) -> nat {
        self.inputs@
    }

    /// How many output samples have been emitted.
    pub closed spec fn emitted(&self) -> nat {
        self.emitted@
    }

    /// A fresh converter: nothing consumed, nothing emitted, phase zero.
    pub fn new(source_rate: u32, target_rate: u32) -> (r: Self)
        requires
            0 < target_rate <= source_rate,
        ensures
            r.wf(),
            r.source_rate() == source_rate,
            r.target_rate() == target_rate,
            r.inputs() == 0,
            r.emitted() == 0,
    {
        SampleRateConverter {
            source_rate,
            target_rate,
            phase: 0,
            inputs: Ghost(0),
            emitted: Ghost(0),
        }
    }

    /// Consume one input sample; true exactly when the accumulator reaches 1
    /// and one output sample (interpolated by the caller) is due now.
    pub fn process_step(&mut self) -> (emit: bool)
        requires
            old(self).wf(),
        ensures
            final(self).wf(),
            final(self).source_rate() == old(self).source_rate(),
            final(self).target_rate() == old(self).target_rate(),
            final(self).inputs() == old(self).inputs() + 1,
            final(self).emitted() == old(self).emitted() + if emit {
                1nat
            } else {
                0nat
            },
            emit <==> (old(self).inputs() + 1) * old(self).target_rate() - old(self).emitted()
                * old(self).source_rate() >= old(self).source_rate(),
    {
        proof {
            assert((self.inputs@ + 1) * self.target_rate == self.inputs@ * self.target_rate
                + self.target_rate) by (nonlinear_arith);
            assert((self.emitted@ + 1) * self.source_rate == self.emitted@ * self.source_rate
                + self.source_rate) by (nonlinear_arith);
        }
        self.phase = self.phase + self.target_rate as u64;
        self.inputs = Ghost(self.inputs@ + 1);
        if self.phase >= self.source_rate as u64 {
            self.phase = self.phase - self.source_rate as u64;
            self.emitted = Ghost(self.emitted@ + 1);
            true
        } else {
            false
        }
    }

    /// The converter never runs ahead or behind: after any run of inputs the
    /// number of outputs is exactly the floor of
    /// `inputs * target_rate / source_rate`.
    pub proof fn lemma_output_count(&self)
        requires
            self.wf(),
        ensures
            self.emitted() == (self.inputs() * self.target_rate()) as int / (
            self.source_rate() as int),
    {
        lemma_fundamental_div_mod_converse_div(
            self.inputs@ * self.target_rate as int,
            self.source_rate as int,
            self.emitted@ as int,
            self.phase as int,
        );
    }
}

} // verus!
