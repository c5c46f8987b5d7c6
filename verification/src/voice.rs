use vstd::prelude::*;
use vstd::arithmetic::div_mod::{
    lemma_div_is_ordered, lemma_div_is_ordered_by_denominator, lemma_div_multiples_vanish,
    lemma_div_pos_is_pos,
};
use vstd::arithmetic::mul::lemma_mul_upper_bound;
use crate::controls::{SharedControls, BEND_MAX, PITCH_MAX, SCALE};
use crate::envelope::{env_step, Envelope, Stage};

verus! {

/// The oscillator phase is a binary fraction of one waveform cycle, in
/// units of `1 / PHASE_WRAP` of a cycle; it wraps at `PHASE_WRAP` instead
/// of growing without bound.
pub const PHASE_WRAP: u64 = 0x1_0000_0000;

/// The fixed headroom factor in millionths: output is scaled by 0.3 so that
/// the summed oscillator layers cannot clip.
pub const HEADROOM: u64 = 300_000;

/// What one sample tick of the voice hands to the waveform generators.
#[derive(Clone, Copy, PartialEq, Eq, Structural, Debug)]
pub struct TickOutput {
    /// The oscillator phase after this tick, in `1 / PHASE_WRAP` of a cycle.
    pub phase: u64,
    /// The envelope level for this tick, in millionths.
    pub level: u64,
    /// The total amplitude for this tick, in millionths: envelope level
    /// times volume times the headroom factor.
    pub amp: u64,
}

/// The frequency the oscillators run at, in millionths of a hertz: the held
/// pitch times the pitch-bend multiplier.
pub open spec fn spec_effective_freq(c: SharedControls) -> int {
    c.pitch * c.pitch_bend / (SCALE as int)
}

/// How far the phase moves in one tick: the effective frequency's fraction
/// of a cycle per sample, in `1 / PHASE_WRAP` of a cycle.
pub open spec fn spec_phase_inc(c: SharedControls, sample_rate: u32) -> int {
    spec_effective_freq(c) * (PHASE_WRAP as int) / (sample_rate as int * (SCALE as int))
}

/// The output amplitude for an envelope level and a volume, in millionths:
/// `level * volume * HEADROOM`, each factor scaled down by `SCALE`.
pub open spec fn spec_amp(level: u64, volume: u64) -> int {
    level * volume / (SCALE as int) * (HEADROOM as int) / (SCALE as int)
}

/// A scaled product stays under the other factor's bound: for
/// `a <= amax` and `b <= bmax`, `a * b / amax <= bmax`.
proof fn lemma_scaled_product_bound(a: int, b: int, amax: int, bmax: int)
    requires
        0 <= a <= amax,
        0 <= b <= bmax,
        0 < amax,
    ensures
        0 <= a * b / amax <= bmax,
{
    lemma_mul_upper_bound(a, amax, b, bmax);
    lemma_div_pos_is_pos(a * b, amax);
    lemma_div_is_ordered(a * b, amax * bmax, amax);
    lemma_div_multiples_vanish(bmax, amax);
}

/// The voice owned by the render thread: the oscillator phase accumulator
/// and the envelope, advanced together once per sample tick.
pub struct Voice {
    /// Current oscillator phase, always below `PHASE_WRAP`.
    pub phase: u64,
    /// The amplitude envelope.
    pub env: Envelope,
}

impl Voice {
    /// The phase stays a proper fraction of a cycle and the envelope stays
    /// well formed.
    pub open spec fn wf(self) -> bool {
        &&& self.phase < PHASE_WRAP
        &&& self.env.wf()
    }

    /// A silent voice at phase zero, with the standard envelope for the
    /// given sample rate.
    pub fn new(sample_rate: u32) -> (r: Voice)
        requires
            sample_rate >= 20,
        ensures
            r.wf(),
            r.phase == 0,
            r.env.stage is Idle,
            r.env.level == 0,
    {
        Voice { phase: 0, env: Envelope::new(sample_rate) }
    }

    /// Advances the voice one sample tick against the current control bus
    /// values: reads pitch, bend, volume and gate, moves the phase by the
    /// effective frequency's fraction of a cycle (wrapping, never
    /// overflowing), steps the envelope, and yields the amplitude to apply
    /// to the waveform at the new phase.
    pub fn tick(&mut self, controls: &SharedControls, sample_rate: u32) -> (out: TickOutput)
        requires
            old(self).wf(),
            controls.wf(),
            sample_rate >= 20,
        ensures
            final(self).wf(),
            final(self).env == env_step(old(self).env, controls.control),
            final(self).phase == (old(self).phase + spec_phase_inc(*controls, sample_rate)) % (
            PHASE_WRAP as int),
            out.phase == final(self).phase,
            out.level == final(self).env.level,
            out.amp == spec_amp(final(self).env.level, controls.volume),
            out.amp <= HEADROOM,
    {
        proof {
            lemma_mul_upper_bound(controls.pitch as int, PITCH_MAX as int,
                controls.pitch_bend as int, BEND_MAX as int);
            lemma_div_pos_is_pos(controls.pitch * controls.pitch_bend, SCALE as int);
            assert(PITCH_MAX * BEND_MAX == SCALE * 17_600_000_000) by (nonlinear_arith);
            lemma_div_is_ordered(controls.pitch * controls.pitch_bend, SCALE * 17_600_000_000,
                SCALE as int);
            lemma_div_multiples_vanish(17_600_000_000, SCALE as int);
        }
        let eff: u64 = controls.pitch * controls.pitch_bend / SCALE;
        proof {
            lemma_mul_upper_bound(eff as int, 17_600_000_000, PHASE_WRAP as int,
                PHASE_WRAP as int);
            assert(sample_rate as int * (SCALE as int) >= SCALE as int) by (nonlinear_arith)
                requires
                    sample_rate >= 20,
            {}
            lemma_div_is_ordered_by_denominator(eff * (PHASE_WRAP as int), SCALE as int,
                sample_rate as int * (SCALE as int));
            lemma_div_pos_is_pos(eff * (PHASE_WRAP as int), sample_rate as int * (SCALE as int));
            lemma_div_is_ordered(eff * (PHASE_WRAP as int), 17_600_000_000 * (PHASE_WRAP as int),
                SCALE as int);
            assert(17_600_000_000int * (PHASE_WRAP as int) == SCALE * 75_591_424_409_600)
                by (nonlinear_arith);
            lemma_div_multiples_vanish(75_591_424_409_600, SCALE as int);
        }
        let inc: u64 = ((eff as u128) * (PHASE_WRAP as u128) / ((sample_rate as u128) * (
        SCALE as u128))) as u64;
        self.phase = (self.phase + inc) % PHASE_WRAP;
        let level = self.env.tick(controls.control);
        proof {
            lemma_scaled_product_bound(level as int, controls.volume as int, SCALE as int,
                SCALE as int);
            lemma_scaled_product_bound(level * controls.volume / (SCALE as int),
                HEADROOM as int, SCALE as int, HEADROOM as int);
        }
        let amp: u64 = level * controls.volume / SCALE * HEADROOM / SCALE;
        TickOutput { phase: self.phase, level, amp }
    }
}

} // verus!
