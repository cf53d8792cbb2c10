//! The channel sampler: an ordered sequence of sample values along one axis.
//!
//! A [`ColorChannel`] describes one of the three sampled axes: a start and
//! end value (single-precision bit patterns), a step count and a stepping
//! mode.  [`ColorChannel::generate`] produces the samples; its contract pins
//! every sample to the exact IEEE 754 composition `start + i * step_size`,
//! so sampling is deterministic by construction.

use vstd::prelude::*;
use crate::float_bits::{
    add_of, div_of, from_count_of, mul_of, sub_of, ONE_BITS,
    add_bits, div_bits, from_count_bits, mul_bits, sub_bits,
};

verus! {

/// The stepping mode of one channel.
///
/// `Forward` samples the lower edge of each cell, `Reverse` the upper edge,
/// and `Inclusive` spreads the samples so that both `start` and `end` are
/// themselves sampled.
#[derive(Debug, Clone, Copy, PartialEq, Eq, Structural)]
pub enum StepType {
    Forward,
    Reverse,
    Inclusive,
}

/// One sample produced by the channel sampler: the bit pattern of the
/// sampled single-precision value.
#[derive(Debug, Clone, Copy, PartialEq, Eq, Structural)]
pub struct ChannelIndex {
    pub value: u32,
}

/// The specification of one sampled axis.  `start` and `end` hold
/// single-precision bit patterns; `steps` must be at least 1.
#[derive(Debug, Clone, Copy, PartialEq, Eq, Structural)]
pub struct ColorChannel {
    pub start: u32,
    pub end: u32,
    pub steps: usize,
    pub step_type: StepType,
}

/// The number of samples requested: the configured step count, plus one
/// closing sample when the request is not for the Vertex dimensionality.
pub open spec fn effective_steps(ch: ColorChannel, not_vertex: bool) -> int {
    if not_vertex {
        ch.steps + 1
    } else {
        ch.steps as int
    }
}

/// The per-step increment: `(end - start) / steps`, except that `Inclusive`
/// divides by `steps - 1` so that the final sample lands on `end`.  With a
/// single step that divisor would be zero, so `Inclusive` falls back to the
/// `Forward` step size there.
pub open spec fn step_size_of(ch: ColorChannel, steps: usize) -> u32 {
    if ch.step_type == StepType::Inclusive && steps > 1 {
        div_of(sub_of(ch.end, ch.start), sub_of(from_count_of(steps), ONE_BITS))
    } else {
        div_of(sub_of(ch.end, ch.start), from_count_of(steps))
    }
}

/// The sample with step number `step`: `start + step * step_size`.
pub open spec fn sample_at(ch: ColorChannel, steps: usize, step: usize) -> u32 {
    add_of(ch.start, mul_of(from_count_of(step), step_size_of(ch, steps)))
}

/// The first step number of the sampled range: `Reverse` starts one step in,
/// sampling the upper edge of each cell.
pub open spec fn first_step(ch: ColorChannel) -> int {
    if ch.step_type == StepType::Reverse {
        1
    } else {
        0
    }
}

/// The full sample sequence of one channel: a pure function of the channel
/// specification and the dimensionality flag.
pub open spec fn generate_model(ch: ColorChannel, not_vertex: bool) -> Seq<u32> {
    let steps = effective_steps(ch, not_vertex);
    Seq::new(steps as nat, |i: int| sample_at(ch, steps as usize, (first_step(ch) + i) as usize))
}

/// The bare sample values of a generated sequence.
pub open spec fn values_of(s: Seq<ChannelIndex>) -> Seq<u32> {
    Seq::new(s.len(), |i: int| s[i].value)
}

impl ColorChannel {
    /// Produces the ordered samples of this channel.  The sequence has
    /// exactly `steps` entries (`steps + 1` when `not_vertex` asks for the
    /// closing boundary sample), and entry `i` is exactly
    /// `start + (first_step + i) * step_size`.
    pub fn generate(&self, not_vertex: bool) -> (values: Vec<ChannelIndex>)
        requires
            1 <= self.steps,
            self.steps + 2 <= usize::MAX,
        ensures
            values@.len() == effective_steps(*self, not_vertex),
            values_of(values@) == generate_model(*self, not_vertex),
    {
        let steps: usize = if not_vertex {
            self.steps + 1
        } else {
            self.steps
        };
        let mut values: Vec<ChannelIndex> = Vec::new();
        let step_size: u32 = self.step_size(steps);
        let first: usize = if self.step_type == StepType::Reverse {
            1
        } else {
            0
        };
        let mut step: usize = first;
        while step < first + steps
            invariant
                first == first_step(*self),
                steps == effective_steps(*self, not_vertex),
                step_size == step_size_of(*self, steps),
                first <= step <= first + steps,
                first + steps <= usize::MAX,
                values@.len() == step - first,
                forall|j: int|
                    0 <= j < values@.len() ==> values@[j].value == sample_at(
                        *self,
                        steps,
                        (first + j) as usize,
                    ),
            decreases first + steps - step,
        {
            let value: u32 = add_bits(self.start, mul_bits(from_count_bits(step), step_size));
            values.push(ChannelIndex { value });
            step = step + 1;
        }
        proof {
            assert(values_of(values@) =~= generate_model(*self, not_vertex));
        }
        values
    }

    /// The per-step increment used by [`ColorChannel::generate`].
    fn step_size(&self, steps: usize) -> (r: u32)
        ensures
            r == step_size_of(*self, steps),
    {
        if self.step_type == StepType::Inclusive && steps > 1 {
            div_bits(sub_bits(self.end, self.start), sub_bits(from_count_bits(steps), ONE_BITS))
        } else {
            div_bits(sub_bits(self.end, self.start), from_count_bits(steps))
        }
    }
}

impl Default for ColorChannel {
    /// The default channel: the unit range sampled forward in eight steps.
    fn default() -> (r: Self)
        ensures
            r.start == crate::float_bits::ZERO_BITS,
            r.end == ONE_BITS,
            r.steps == 8,
            r.step_type == StepType::Forward,
    {
        Self { start: crate::float_bits::ZERO_BITS, end: ONE_BITS, steps: 8, step_type: StepType::Forward }
    }
}

/// Sampling is deterministic: the sample sequence is a function of the
/// channel specification and the dimensionality flag alone, so two
/// generation passes over equal specifications yield identical sequences.
pub proof fn lemma_generate_deterministic(c1: ColorChannel, c2: ColorChannel, not_vertex: bool)
    requires
        c1 == c2,
    ensures
        generate_model(c1, not_vertex) == generate_model(c2, not_vertex),
{
}

/// A `Reverse` channel's samples are the `Forward` samples shifted by
/// exactly one step: sample `i` of the reverse sequence is the sample with
/// step number `i + 1`, where a forward channel over the same range uses
/// step number `i`.  The step size itself is the same for both modes, so
/// each reverse sample sits exactly one step size further along the axis.
pub proof fn lemma_reverse_shifts_forward(ch: ColorChannel, fw: ColorChannel, not_vertex: bool, i: int)
    requires
        ch.step_type == StepType::Reverse,
        fw == (ColorChannel { step_type: StepType::Forward, ..ch }),
        0 <= i < effective_steps(ch, not_vertex),
    ensures
        step_size_of(fw, effective_steps(fw, not_vertex) as usize) == step_size_of(
            ch,
            effective_steps(ch, not_vertex) as usize,
        ),
        generate_model(ch, not_vertex)[i] == sample_at(
            ch,
            effective_steps(ch, not_vertex) as usize,
            (i + 1) as usize,
        ),
        i + 1 < effective_steps(fw, not_vertex) ==> generate_model(ch, not_vertex)[i]
            == generate_model(fw, not_vertex)[i + 1],
{
}

} // verus!
