//! Core logic of a monophonic MIDI synthesizer: the shared control
//! parameters that bridge a MIDI event stream to an audio render callback,
//! the MIDI event mapper, the envelope/oscillator state advanced once per
//! sample tick, the per-frame channel layout of the render callback, and the
//! capture ring that feeds a visualization consumer.
//!
//! Level-like quantities (volume, envelope level, pitch-bend multiplier,
//! gate) are held in millionths, and frequencies in millionths of a hertz,
//! so that every rule here is stated and checked over plain integers; the
//! audio backend's floating-point world is converted at the edges.

pub mod controls;
pub mod envelope;
pub mod midi;
pub mod render;
pub mod sample_tracker;
pub mod voice;
