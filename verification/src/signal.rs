//! The tone generator's integer core.
//!
//! A tone is a finite, non-restartable sequence of sine samples at a fixed
//! sample rate, shaped by an amplitude envelope that fades the edges in and
//! out to avoid audible clicks. Everything about the tone except the sine
//! itself is integer arithmetic: the total sample count, the running sample
//! index, and the envelope gain of each sample. [`Signal`] models exactly
//! that; the caller multiplies the sine value by the gain it hands out.

use vstd::prelude::*;

verus! {

/// Fixed sample rate of every tone, in samples per second.
pub const SAMPLE_RATE: u64 = 48000;

/// Samples per millisecond at the fixed sample rate.
pub const SAMPLES_PER_MS: u64 = 48;

/// Fixed carrier frequency of every tone, in hertz.
pub const CARRIER_HZ: u64 = 450;

/// Length of the fade-in and fade-out ramps, in samples.
pub const ENVELOPE_SAMPLES: usize = 250;

/// The gain denominator: a gain of `FULL_GAIN` leaves the sine unshaped.
pub const FULL_GAIN: u32 = 62500;

/// The envelope gain of sample `i` of a tone of `total` samples, scaled so
/// that `FULL_GAIN` (250 × 250) means full amplitude.
///
/// A tone of at least 250 samples ramps linearly up over its first 250
/// samples and linearly down over its last 250. A shorter tone is scaled
/// down as a whole by `total` parts in 250 and still carries the outbound
/// ramp, a deliberately asymmetric taper for very short tones.
pub open spec fn gain_spec(total: nat, i: nat) -> nat
    recommends
        i < total,
{
    if total < 250 {
        (total * (total - i)) as nat
    } else {
        let ramp_in: int = if i + 1 < 250 {
            (i + 1) as int
        } else {
            250
        };
        let ramp_out: int = if total - i < 250 {
            total - i
        } else {
            250
        };
        (if ramp_in < ramp_out {
            250 * ramp_in
        } else {
            250 * ramp_out
        }) as nat
    }
}

/// The envelope gain of one sample; mirrors `gain_spec`.
pub fn envelope_gain(total: usize, i: usize) -> (g: u32)
    requires
        i < total,
    ensures
        g == gain_spec(total as nat, i as nat),
{
    if total < ENVELOPE_SAMPLES {
        proof {
            assert(total * (total - i) < 62500) by (nonlinear_arith)
                requires
                    i < total,
                    total < 250,
            ;
        }
        (total * (total - i)) as u32
    } else {
        let ramp_in: usize = if i + 1 < ENVELOPE_SAMPLES {
            i + 1
        } else {
            ENVELOPE_SAMPLES
        };
        let ramp_out: usize = if total - i < ENVELOPE_SAMPLES {
            total - i
        } else {
            ENVELOPE_SAMPLES
        };
        if ramp_in < ramp_out {
            (ENVELOPE_SAMPLES * ramp_in) as u32
        } else {
            (ENVELOPE_SAMPLES * ramp_out) as u32
        }
    }
}

/// Over the first 250 samples of a tone of at least 500 samples, the
/// envelope gain rises strictly.
pub proof fn lemma_fade_in_strictly_increasing(total: nat, i: nat, j: nat)
    requires
        500 <= total,
        i < j < 250,
    ensures
        gain_spec(total, i) < gain_spec(total, j),
{
}

/// Over the last 250 samples of a tone of at least 500 samples, the
/// envelope gain falls strictly.
pub proof fn lemma_fade_out_strictly_decreasing(total: nat, i: nat, j: nat)
    requires
        500 <= total,
        total - 250 <= i < j < total,
    ensures
        gain_spec(total, i) > gain_spec(total, j),
{
}

/// Between the two ramps of a tone of at least 500 samples the sine is
/// unshaped: the gain is the full 250/250.
pub proof fn lemma_middle_unshaped(total: nat, i: nat)
    requires
        500 <= total,
        249 <= i,
        i + 250 <= total,
    ensures
        gain_spec(total, i) == FULL_GAIN,
{
}

/// One tone: a cursor over `sample_count` samples, handing out the envelope
/// gain of each sample exactly once. Exhausted for good once the cursor
/// reaches the end; a replay takes a fresh instance.
pub struct Signal {
    tsample: usize,
    sample_count: usize,
    duration_ms: u64,
}

impl Signal {
    /// How many samples the tone has in total.
    pub closed spec fn spec_sample_count(self) -> nat {
        self.sample_count as nat
    }

    /// How many samples have been handed out so far.
    pub closed spec fn spec_emitted(self) -> nat {
        self.tsample as nat
    }

    /// The duration the tone was created for, in milliseconds.
    pub closed spec fn spec_duration_ms(self) -> nat {
        self.duration_ms as nat
    }

    /// The cursor never passes the end, and the sample count is the
    /// duration times the fixed samples-per-millisecond rate.
    pub open spec fn wf(self) -> bool {
        &&& self.spec_emitted() <= self.spec_sample_count()
        &&& self.spec_sample_count() == SAMPLES_PER_MS * self.spec_duration_ms()
    }

    /// A fresh tone of the given duration. The sample count scales linearly
    /// with the duration: 48 samples per millisecond, so 50 ms yield 2400
    /// samples and 150 ms yield 7200.
    pub fn new(duration_ms: u64) -> (s: Signal)
        requires
            SAMPLES_PER_MS * duration_ms <= usize::MAX,
        ensures
            s.wf(),
            s.spec_sample_count() == SAMPLES_PER_MS * duration_ms,
            s.spec_emitted() == 0,
            s.spec_duration_ms() == duration_ms,
    {
        Signal { tsample: 0, sample_count: (SAMPLES_PER_MS * duration_ms) as usize, duration_ms }
    }

    /// The total number of samples of this tone.
    pub fn sample_count(&self) -> (n: usize)
        ensures
            n == self.spec_sample_count(),
    {
        self.sample_count
    }

    /// How many samples are still to come.
    pub fn remaining(&self) -> (n: usize)
        requires
            self.wf(),
        ensures
            n == self.spec_sample_count() - self.spec_emitted(),
    {
        self.sample_count - self.tsample
    }

    /// The duration this tone was created for, in milliseconds.
    pub fn duration_ms(&self) -> (n: u64)
        ensures
            n == self.spec_duration_ms(),
    {
        self.duration_ms
    }

    /// The envelope gain of the next sample, or `None` once all
    /// `sample_count` samples have been handed out. The sequence is
    /// exhausted exactly at the precomputed count and never restarts.
    pub fn next_gain(&mut self) -> (r: Option<u32>)
        requires
            old(self).wf(),
        ensures
            final(self).wf(),
            final(self).spec_sample_count() == old(self).spec_sample_count(),
            final(self).spec_duration_ms() == old(self).spec_duration_ms(),
            old(self).spec_emitted() < old(self).spec_sample_count() ==> {
                &&& r == Some(
                    gain_spec(old(self).spec_sample_count(), old(self).spec_emitted()) as u32,
                )
                &&& final(self).spec_emitted() == old(self).spec_emitted() + 1
            },
            old(self).spec_emitted() == old(self).spec_sample_count() ==> {
                &&& r is None
                &&& *final(self) == *old(self)
            },
    {
        if self.tsample == self.sample_count {
            return None;
        }
        let g = envelope_gain(self.sample_count, self.tsample);
        self.tsample = self.tsample + 1;
        Some(g)
    }
}

} // verus!
