use vstd::prelude::*;

verus! {

/// One unit of the fixed-point scale: volume, envelope level, pitch-bend
/// multiplier and gate values are all stored in millionths.
pub const SCALE: u64 = 1_000_000;

/// Upper bound on any pitch the mapper can store, in millionths of a hertz
/// (the highest MIDI note lies well below 16 kHz).
pub const PITCH_MAX: u64 = 16_000_000_000;

/// Lower bound of the pitch-bend multiplier, in millionths (full downward
/// deflection is about one semitone, a factor of roughly 0.9439).
pub const BEND_MIN: u64 = 900_000;

/// Upper bound of the pitch-bend multiplier, in millionths (full upward
/// deflection is about one semitone, a factor of roughly 1.0595).
pub const BEND_MAX: u64 = 1_100_000;

/// The control bus: the scalar parameters written by the MIDI mapper and
/// read on every sample tick by the oscillator/envelope graph.
///
/// Each parameter is an independent scalar; no two are ever updated as one
/// transaction. This struct is the single-writer model of the bus; the
/// process-wide shared cells that carry these values between threads live
/// outside the verified core and mirror exactly these fields.
pub struct SharedControls {
    /// Frequency of the held note in millionths of a hertz.
    pub pitch: u64,
    /// Output volume in millionths, between 0 and `SCALE`.
    pub volume: u64,
    /// Pitch-bend multiplier in millionths, centered at `SCALE` (factor 1.0).
    pub pitch_bend: u64,
    /// Envelope gate in millionths: positive triggers Attack, negative
    /// triggers Release.
    pub control: i64,
}

impl SharedControls {
    /// The ranges every bus value stays within.
    pub open spec fn wf(self) -> bool {
        &&& self.pitch <= PITCH_MAX
        &&& self.volume <= SCALE
        &&& BEND_MIN <= self.pitch_bend <= BEND_MAX
        &&& -(SCALE as i64) <= self.control <= SCALE as i64
    }

    /// The bus at startup: silent, no note held, bend centered, gate closed.
    pub fn new() -> (r: SharedControls)
        ensures
            r.pitch == 0,
            r.volume == 0,
            r.pitch_bend == SCALE,
            r.control == 0,
            r.wf(),
    {
        SharedControls { pitch: 0, volume: 0, pitch_bend: SCALE, control: 0 }
    }

    /// Sets the pitch and touches no other parameter; never blocks, never
    /// fails.
    pub fn set_pitch(&mut self, value: u64)
        ensures
            *final(self) == (SharedControls { pitch: value, ..*old(self) }),
    {
        self.pitch = value;
    }

    /// Sets the volume and touches no other parameter; never blocks, never
    /// fails.
    pub fn set_volume(&mut self, value: u64)
        ensures
            *final(self) == (SharedControls { volume: value, ..*old(self) }),
    {
        self.volume = value;
    }

    /// Sets the pitch-bend multiplier and touches no other parameter; never
    /// blocks, never fails.
    pub fn set_pitch_bend(&mut self, value: u64)
        ensures
            *final(self) == (SharedControls { pitch_bend: value, ..*old(self) }),
    {
        self.pitch_bend = value;
    }

    /// Sets the envelope gate and touches no other parameter; never blocks,
    /// never fails.
    pub fn set_control(&mut self, value: i64)
        ensures
            *final(self) == (SharedControls { control: value, ..*old(self) }),
    {
        self.control = value;
    }

    /// The most recently set pitch; never blocks, never fails.
    pub fn get_pitch(&self) -> (r: u64)
        ensures
            r == self.pitch,
    {
        self.pitch
    }

    /// The most recently set volume; never blocks, never fails.
    pub fn get_volume(&self) -> (r: u64)
        ensures
            r == self.volume,
    {
        self.volume
    }

    /// The most recently set pitch-bend multiplier; never blocks, never
    /// fails.
    pub fn get_pitch_bend(&self) -> (r: u64)
        ensures
            r == self.pitch_bend,
    {
        self.pitch_bend
    }

    /// The most recently set envelope gate; never blocks, never fails.
    pub fn get_control(&self) -> (r: i64)
        ensures
            r == self.control,
    {
        self.control
    }
}

} // verus!
