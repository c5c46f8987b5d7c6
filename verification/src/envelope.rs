use vstd::prelude::*;
use vstd::arithmetic::div_mod::{
    lemma_div_by_self, lemma_div_is_ordered, lemma_div_multiples_vanish, lemma_div_nonincreasing,
    lemma_div_pos_is_pos,
};
use crate::controls::SCALE;

verus! {

/// Upper bound on the tick count of any envelope phase: an overflow guard,
/// comfortably above the longest phase any 32-bit sample rate can configure.
pub const TICKS_MAX: u64 = 16_000_000_000;

/// The phase the envelope is in.
#[derive(Clone, Copy, PartialEq, Eq, Structural, Debug)]
pub enum Stage {
    Idle,
    Attack,
    Decay,
    Sustain,
    Release,
}

/// The envelope state machine, advanced once per sample tick.
///
/// The level ramps 0 to `SCALE` over the attack phase, `SCALE` down to the
/// sustain level over the decay phase, holds there while its gate input stays
/// open, and ramps from wherever it stood down to 0 over the release phase.
/// The level at each tick is computed from the tick count of the current
/// phase, so it cannot drift however long the process runs.
#[derive(Clone, Copy, PartialEq, Eq, Structural, Debug)]
pub struct Envelope {
    /// Length of the attack ramp, in ticks.
    pub attack_ticks: u64,
    /// Length of the decay ramp, in ticks.
    pub decay_ticks: u64,
    /// Length of the release ramp, in ticks.
    pub release_ticks: u64,
    /// The level held in Sustain, in millionths.
    pub sustain: u64,
    /// The current phase.
    pub stage: Stage,
    /// Ticks spent in the current phase.
    pub t: u64,
    /// The level the current release started from, in millionths.
    pub release_from: u64,
    /// The current output level, in millionths.
    pub level: u64,
}

impl Envelope {
    /// Well-formedness: phase lengths are positive and bounded, and the
    /// level is exactly what the current phase and tick count prescribe.
    pub open spec fn wf(self) -> bool {
        &&& 1 <= self.attack_ticks <= TICKS_MAX
        &&& 1 <= self.decay_ticks <= TICKS_MAX
        &&& 1 <= self.release_ticks <= TICKS_MAX
        &&& self.sustain <= SCALE
        &&& match self.stage {
            Stage::Idle => self.t == 0 && self.level == 0,
            Stage::Attack => self.t < self.attack_ticks && self.level == self.t * SCALE
                / (self.attack_ticks as int),
            Stage::Decay => self.t < self.decay_ticks && self.level == SCALE - self.t * (SCALE
                - self.sustain) / (self.decay_ticks as int),
            Stage::Sustain => self.t == 0 && self.level == self.sustain,
            Stage::Release => self.t < self.release_ticks && self.release_from <= SCALE
                && self.level == self.release_from - self.t * self.release_from
                / (self.release_ticks as int),
        }
    }
}

/// A partial ramp never overshoots its full height: for `t` ticks out of
/// `n`, the ramp `t * x / n` stays between 0 and `x`.
proof fn lemma_ramp_bound(t: int, n: int, x: int)
    requires
        0 <= t <= n,
        0 < n,
        0 <= x,
    ensures
        0 <= t * x / n <= x,
{
    assert(0 <= t * x && t * x <= n * x) by (nonlinear_arith)
        requires
            0 <= t <= n,
            0 <= x,
    {}
    lemma_div_pos_is_pos(t * x, n);
    lemma_div_is_ordered(t * x, n * x, n);
    lemma_div_multiples_vanish(x, n);
}

/// The envelope level always lies in `[0, SCALE]`; in Sustain it sits
/// exactly at the sustain level, and in Decay it never falls below it.
pub proof fn lemma_level_in_range(e: Envelope)
    requires
        e.wf(),
    ensures
        e.level <= SCALE,
        e.stage is Sustain ==> e.level == e.sustain,
        e.stage is Decay ==> e.sustain <= e.level <= SCALE,
        e.stage is Release ==> e.level <= e.release_from,
{
    match e.stage {
        Stage::Attack => {
            lemma_ramp_bound(e.t as int, e.attack_ticks as int, SCALE as int);
        },
        Stage::Decay => {
            lemma_ramp_bound(e.t as int, e.decay_ticks as int, SCALE - e.sustain);
        },
        Stage::Release => {
            lemma_ramp_bound(e.t as int, e.release_ticks as int, e.release_from as int);
        },
        _ => {},
    }
}

/// What one sample tick does to the envelope, for a gate value read from
/// the control bus.
///
/// Gate edges are honored first: a negative gate while the envelope is
/// rising or holding starts Release from the current level, and a positive
/// gate while it is idle or releasing restarts Attack from silence. Then
/// the current phase advances one tick, moving on to the next phase when
/// its configured length is reached.
pub open spec fn env_step(e: Envelope, gate: i64) -> Envelope {
    let e1 = if gate < 0 && (e.stage is Attack || e.stage is Decay || e.stage is Sustain) {
        Envelope { stage: Stage::Release, t: 0, release_from: e.level, ..e }
    } else if gate > 0 && (e.stage is Idle || e.stage is Release) {
        Envelope { stage: Stage::Attack, t: 0, level: 0, ..e }
    } else {
        e
    };
    match e1.stage {
        Stage::Idle => e1,
        Stage::Sustain => e1,
        Stage::Attack => if e1.t + 1 >= e1.attack_ticks {
            Envelope { stage: Stage::Decay, t: 0, level: SCALE, ..e1 }
        } else {
            Envelope { t: (e1.t + 1) as u64, level: ((e1.t + 1) * SCALE / (e1.attack_ticks as int)) as u64, ..e1 }
        },
        Stage::Decay => if e1.t + 1 >= e1.decay_ticks {
            Envelope { stage: Stage::Sustain, t: 0, level: e1.sustain, ..e1 }
        } else {
            Envelope {
                t: (e1.t + 1) as u64,
                level: (SCALE - (e1.t + 1) * (SCALE - e1.sustain) / (e1.decay_ticks as int)) as u64,
                ..e1
            }
        },
        Stage::Release => if e1.t + 1 >= e1.release_ticks {
            Envelope { stage: Stage::Idle, t: 0, level: 0, ..e1 }
        } else {
            Envelope {
                t: (e1.t + 1) as u64,
                level: (e1.release_from - (e1.t + 1) * e1.release_from / (e1.release_ticks as int)) as u64,
                ..e1
            }
        },
    }
}

impl Envelope {
    /// The envelope of the synth's voice: a 50 ms attack, a 300 ms decay to
    /// a sustain level of 0.6, and a 400 ms release, measured in ticks of
    /// the given sample rate.
    pub fn new(sample_rate: u32) -> (r: Envelope)
        requires
            sample_rate >= 20,
        ensures
            r.wf(),
            r.stage is Idle,
            r.level == 0,
            r.attack_ticks == sample_rate as int / 20,
            r.decay_ticks == 3 * sample_rate as int / 10,
            r.release_ticks == 2 * sample_rate as int / 5,
            r.sustain == 600_000,
    {
        let sr = sample_rate as u64;
        proof {
            lemma_div_is_ordered(20, sr as int, 20);
            lemma_div_by_self(20);
            lemma_div_is_ordered(60, 3 * sr as int, 10);
            lemma_div_multiples_vanish(6, 10);
            lemma_div_is_ordered(40, 2 * sr as int, 5);
            lemma_div_multiples_vanish(8, 5);
            lemma_div_nonincreasing(sr as int, 20);
            lemma_div_nonincreasing(3 * sr as int, 10);
            lemma_div_nonincreasing(2 * sr as int, 5);
        }
        Envelope {
            attack_ticks: sr / 20,
            decay_ticks: 3 * sr / 10,
            release_ticks: 2 * sr / 5,
            sustain: 600_000,
            stage: Stage::Idle,
            t: 0,
            release_from: 0,
            level: 0,
        }
    }

    /// Advances the envelope one sample tick under the given gate value and
    /// returns the level for this tick, in millionths.
    pub fn tick(&mut self, gate: i64) -> (level: u64)
        requires
            old(self).wf(),
        ensures
            *final(self) == env_step(*old(self), gate),
            final(self).wf(),
            level == final(self).level,
            level <= SCALE,
    {
        match self.stage {
            Stage::Attack | Stage::Decay | Stage::Sustain => {
                if gate < 0 {
                    proof {
                        lemma_level_in_range(*self);
                    }
                    self.stage = Stage::Release;
                    self.t = 0;
                    self.release_from = self.level;
                }
            },
            Stage::Idle | Stage::Release => {
                if gate > 0 {
                    self.stage = Stage::Attack;
                    self.t = 0;
                    self.level = 0;
                }
            },
        }
        match self.stage {
            Stage::Idle => {},
            Stage::Sustain => {},
            Stage::Attack => {
                if self.t + 1 >= self.attack_ticks {
                    self.stage = Stage::Decay;
                    self.t = 0;
                    self.level = SCALE;
                    proof {
                        lemma_ramp_bound(0, self.decay_ticks as int, SCALE - self.sustain);
                    }
                } else {
                    self.t = self.t + 1;
                    proof {
                        lemma_ramp_bound(self.t as int, self.attack_ticks as int, SCALE as int);
                    }
                    self.level = self.t * SCALE / self.attack_ticks;
                }
            },
            Stage::Decay => {
                if self.t + 1 >= self.decay_ticks {
                    self.stage = Stage::Sustain;
                    self.t = 0;
                    self.level = self.sustain;
                } else {
                    self.t = self.t + 1;
                    proof {
                        lemma_ramp_bound(self.t as int, self.decay_ticks as int, SCALE
                            - self.sustain);
                        vstd::arithmetic::mul::lemma_mul_upper_bound(self.t as int,
                            TICKS_MAX as int, SCALE - self.sustain, SCALE as int);
                    }
                    self.level = SCALE - self.t * (SCALE - self.sustain) / self.decay_ticks;
                }
            },
            Stage::Release => {
                if self.t + 1 >= self.release_ticks {
                    self.stage = Stage::Idle;
                    self.t = 0;
                    self.level = 0;
                } else {
                    self.t = self.t + 1;
                    proof {
                        lemma_ramp_bound(self.t as int, self.release_ticks as int,
                            self.release_from as int);
                        vstd::arithmetic::mul::lemma_mul_upper_bound(self.t as int,
                            TICKS_MAX as int, self.release_from as int, SCALE as int);
                    }
                    self.level = self.release_from - self.t * self.release_from
                        / self.release_ticks;
                }
            },
        }
        proof {
            lemma_level_in_range(*self);
        }
        self.level
    }
}

/// One tick keeps the envelope well formed, whatever gate value arrives; with
/// `lemma_level_in_range`, the level therefore stays in `[0, SCALE]` at
/// every tick, by induction from the idle start.
pub proof fn lemma_env_step_preserves_wf(e: Envelope, gate: i64)
    requires
        e.wf(),
    ensures
        env_step(e, gate).wf(),
        env_step(e, gate).level <= SCALE,
{
    lemma_level_in_range(e);
    let e1 = if gate < 0 && (e.stage is Attack || e.stage is Decay || e.stage is Sustain) {
        Envelope { stage: Stage::Release, t: 0, release_from: e.level, ..e }
    } else if gate > 0 && (e.stage is Idle || e.stage is Release) {
        Envelope { stage: Stage::Attack, t: 0, level: 0, ..e }
    } else {
        e
    };
    match e1.stage {
        Stage::Idle => {},
        Stage::Sustain => {},
        Stage::Attack => {
            if e1.t + 1 < e1.attack_ticks {
                lemma_ramp_bound(e1.t + 1, e1.attack_ticks as int, SCALE as int);
            } else {
                lemma_ramp_bound(0, e1.decay_ticks as int, SCALE - e1.sustain);
            }
        },
        Stage::Decay => {
            if e1.t + 1 < e1.decay_ticks {
                lemma_ramp_bound(e1.t + 1, e1.decay_ticks as int, SCALE - e1.sustain);
            }
        },
        Stage::Release => {
            if e1.t + 1 < e1.release_ticks {
                lemma_ramp_bound(e1.t + 1, e1.release_ticks as int, e1.release_from as int);
            }
        },
    }
    lemma_level_in_range(env_step(e, gate));
}

/// A release triggered while the envelope is rising or holding starts from
/// the current level, never from full scale: the tick that switches to
/// Release records the level it interrupted, and the level moves down from
/// it by exactly one release step, so there is no discontinuous jump.
pub proof fn lemma_release_starts_from_current_level(e: Envelope, gate: i64)
    requires
        e.wf(),
        gate < 0,
        e.stage is Attack || e.stage is Decay || e.stage is Sustain,
    ensures
        env_step(e, gate).release_from == e.level,
        env_step(e, gate).level <= e.level,
        e.release_ticks > 1 ==> e.level - env_step(e, gate).level == e.level as int
            / (e.release_ticks as int),
{
    lemma_level_in_range(e);
    let r = env_step(e, gate);
    if e.release_ticks > 1 {
        assert(1 * e.level == e.level) by (nonlinear_arith);
        lemma_ramp_bound(1, e.release_ticks as int, e.level as int);
    }
}

} // verus!
