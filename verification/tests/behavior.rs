use synth_core::controls::SharedControls;
use synth_core::envelope::{Envelope, Stage};
use synth_core::midi::{handle_message, note_freq, pitch_bend_factor, MidiEvent};
use synth_core::render::write_frame;
use synth_core::sample_tracker::SampleTracker;
use synth_core::voice::Voice;

#[test]
fn note_69_is_exactly_440_hz() {
    assert_eq!(note_freq(69), 440_000_000);
    assert_eq!(note_freq(69) as f64 / 1e6, 440.0);
}

#[test]
fn note_frequencies_match_the_standard_mapping() {
    for n in 0u8..=127 {
        let expected = 440.0 * 2f64.powf((n as f64 - 69.0) / 12.0);
        let got = note_freq(n) as f64 / 1e6;
        assert!(
            (got - expected).abs() / expected < 1e-6,
            "note {n}: got {got}, expected {expected}"
        );
    }
}

#[test]
fn note_60_is_middle_c() {
    assert_eq!(note_freq(60), 261_625_568);
    assert!((note_freq(60) as f64 / 1e6 - 261.63).abs() < 0.01);
}

#[test]
fn an_octave_doubles_the_frequency() {
    for n in 0u8..=115 {
        assert_eq!(note_freq(n + 12), 2 * note_freq(n));
    }
    assert_eq!(note_freq(81), 880_000_000);
}

#[test]
fn pitch_bend_center_is_exactly_one() {
    assert_eq!(pitch_bend_factor(8192), 1_000_000);
}

#[test]
fn pitch_bend_extremes_are_about_a_semitone() {
    let up = pitch_bend_factor(16383) as f64 / 1e6;
    assert!((up - 1.0594).abs() < 2e-4, "up: {up}");
    let down = pitch_bend_factor(0) as f64 / 1e6;
    assert!((down - 2f64.powf(-1.0 / 12.0)).abs() < 2e-4, "down: {down}");
}

#[test]
fn pitch_bend_factor_is_strictly_monotonic() {
    let mut prev = pitch_bend_factor(0);
    for b in 1u16..=16383 {
        let cur = pitch_bend_factor(b);
        assert!(cur > prev, "not increasing at bend {b}");
        prev = cur;
    }
}

#[test]
fn note_on_bend_note_off_scenario() {
    let mut bus = SharedControls::new();

    let event = handle_message(&mut bus, &[0x90, 60, 100]);
    assert_eq!(
        event,
        Some(MidiEvent::NoteOn { note: 60, velocity: 100 })
    );
    assert!((bus.pitch as f64 / 1e6 - 261.63).abs() < 0.01);
    assert_eq!(bus.volume, 787_401);
    assert!((bus.volume as f64 / 1e6 - 0.787).abs() < 1e-3);
    assert_eq!(bus.pitch_bend, 1_000_000);
    assert_eq!(bus.control, 1_000_000);

    let event = handle_message(&mut bus, &[0xE0, 0x7F, 0x7F]);
    assert_eq!(event, Some(MidiEvent::PitchBend { bend: 16383 }));
    assert!((bus.pitch_bend as f64 / 1e6 - 1.0594).abs() < 2e-4);

    let event = handle_message(&mut bus, &[0x80, 60, 0]);
    assert_eq!(
        event,
        Some(MidiEvent::NoteOff { note: 60, velocity: 0 })
    );
    assert_eq!(bus.control, -1_000_000);
}

#[test]
fn note_off_for_another_note_is_ignored() {
    let mut bus = SharedControls::new();
    handle_message(&mut bus, &[0x90, 60, 100]);
    let before = (bus.pitch, bus.volume, bus.pitch_bend, bus.control);

    let event = handle_message(&mut bus, &[0x80, 64, 0]);
    assert_eq!(
        event,
        Some(MidiEvent::NoteOff { note: 64, velocity: 0 })
    );
    assert_eq!(
        (bus.pitch, bus.volume, bus.pitch_bend, bus.control),
        before
    );
    assert_eq!(bus.control, 1_000_000);
}

#[test]
fn malformed_midi_leaves_the_bus_unchanged() {
    let mut bus = SharedControls::new();
    handle_message(&mut bus, &[0x90, 60, 100]);
    let before = (bus.pitch, bus.volume, bus.pitch_bend, bus.control);

    // A data byte with no status byte before it.
    assert_eq!(handle_message(&mut bus, &[0x45]), None);
    // A note number above the 7-bit range.
    assert_eq!(handle_message(&mut bus, &[0x90, 0x80, 0x40]), None);
    // An empty message.
    assert_eq!(handle_message(&mut bus, &[]), None);

    assert_eq!(
        (bus.pitch, bus.volume, bus.pitch_bend, bus.control),
        before
    );
}

#[test]
fn other_channel_voice_messages_are_ignored() {
    let mut bus = SharedControls::new();
    let before = (bus.pitch, bus.volume, bus.pitch_bend, bus.control);
    // A control-change message parses fine and does nothing here.
    let event = handle_message(&mut bus, &[0xB0, 7, 100]);
    assert_eq!(event, Some(MidiEvent::Other));
    assert_eq!(
        (bus.pitch, bus.volume, bus.pitch_bend, bus.control),
        before
    );
}

#[test]
fn envelope_ramps_through_all_stages() {
    let mut env = Envelope::new(44100);
    assert_eq!(env.attack_ticks, 2205);
    assert_eq!(env.decay_ticks, 13230);
    assert_eq!(env.release_ticks, 17640);
    assert_eq!(env.sustain, 600_000);
    assert_eq!(env.stage, Stage::Idle);

    // Attack: ramps 0 -> 1 over 2205 ticks.
    assert_eq!(env.tick(1_000_000), 453);
    assert_eq!(env.stage, Stage::Attack);
    for _ in 1..2205 {
        env.tick(1_000_000);
    }
    assert_eq!(env.stage, Stage::Decay);
    assert_eq!(env.level, 1_000_000);

    // Decay: ramps 1 -> 0.6 over 13230 ticks.
    for _ in 0..13230 {
        let level = env.tick(1_000_000);
        assert!(level <= 1_000_000);
        assert!(level >= 600_000);
    }
    assert_eq!(env.stage, Stage::Sustain);
    assert_eq!(env.level, 600_000);

    // Sustain holds while its gate input stays open.
    for _ in 0..100 {
        assert_eq!(env.tick(1_000_000), 600_000);
    }

    // Release: ramps down to 0 over 17640 ticks, then Idle.
    assert_eq!(env.tick(-1_000_000), 599_966);
    assert_eq!(env.stage, Stage::Release);
    for _ in 1..17640 {
        let level = env.tick(-1_000_000);
        assert!(level < 600_000);
    }
    assert_eq!(env.stage, Stage::Idle);
    assert_eq!(env.level, 0);
}

#[test]
fn envelope_level_never_leaves_unit_range() {
    let mut env = Envelope::new(44100);
    // Open, close mid-attack, reopen mid-release, and run long.
    for i in 0..100_000u64 {
        let gate = if i % 1000 < 600 { 1_000_000 } else { -1_000_000 };
        let level = env.tick(gate);
        assert!(level <= 1_000_000);
    }
}

#[test]
fn release_mid_attack_starts_from_the_current_level() {
    let mut env = Envelope::new(44100);
    for _ in 0..100 {
        env.tick(1_000_000);
    }
    assert_eq!(env.stage, Stage::Attack);
    let before = env.level;
    assert_eq!(before, 45_351);

    let after = env.tick(-1_000_000);
    assert_eq!(env.stage, Stage::Release);
    assert_eq!(env.release_from, before);
    assert_eq!(after, 45_349);
    // One release step, nothing like a jump from full scale.
    assert!(before - after <= 1 + before / env.release_ticks);
}

#[test]
fn reopening_the_gate_mid_release_restarts_the_attack() {
    let mut env = Envelope::new(44100);
    for _ in 0..3000 {
        env.tick(1_000_000);
    }
    env.tick(-1_000_000);
    assert_eq!(env.stage, Stage::Release);
    env.tick(1_000_000);
    assert_eq!(env.stage, Stage::Attack);
}

#[test]
fn ring_returns_pushes_in_order_before_full() {
    let mut tracker = SampleTracker::new();
    for v in 0u64..5 {
        tracker.add_sample(v);
    }
    assert_eq!(tracker.samples_vec(), vec![0, 1, 2, 3, 4]);
}

#[test]
fn ring_keeps_the_most_recent_capacity_samples() {
    let mut tracker = SampleTracker::new();
    let total = 4410u64 + 37;
    for v in 0..total {
        tracker.add_sample(v);
    }
    let snapshot = tracker.samples_vec();
    assert_eq!(snapshot.len(), 4410);
    for (i, v) in snapshot.iter().enumerate() {
        assert_eq!(*v, 37 + i as u64);
    }
}

#[test]
fn empty_tracker_snapshot_is_empty() {
    let tracker = SampleTracker::default();
    assert_eq!(tracker.samples_vec(), Vec::<u64>::new());
}

#[test]
fn frames_alternate_left_and_right_and_capture_left_once() {
    let mut tracker = SampleTracker::new();
    let mut frame: Vec<u64> = Vec::new();

    write_frame(&mut tracker, &mut frame, 11, 22, 5);
    assert_eq!(frame, vec![11, 22, 11, 22, 11]);
    assert_eq!(tracker.samples_vec(), vec![11]);

    write_frame(&mut tracker, &mut frame, 33, 44, 2);
    assert_eq!(frame, vec![33, 44]);
    assert_eq!(tracker.samples_vec(), vec![11, 33]);

    // A frame with no channels writes nothing and captures nothing.
    write_frame(&mut tracker, &mut frame, 55, 66, 0);
    assert_eq!(frame, Vec::<u64>::new());
    assert_eq!(tracker.samples_vec(), vec![11, 33]);
}

#[test]
fn voice_tick_advances_phase_and_scales_amplitude() {
    let mut voice = Voice::new(44100);
    let mut bus = SharedControls::new();
    bus.set_pitch(440_000_000);
    bus.set_volume(1_000_000);
    bus.set_control(1_000_000);

    let out = voice.tick(&bus, 44100);
    // 440 Hz at 44.1 kHz: the phase moves 440/44100 of a cycle.
    assert_eq!(out.phase, 42_852_281);
    assert_eq!(out.level, 453);
    assert_eq!(out.amp, 135);

    // The phase keeps wrapping, never overflowing.
    for _ in 0..200_000 {
        let out = voice.tick(&bus, 44100);
        assert!(out.phase < 0x1_0000_0000);
        assert!(out.amp <= 300_000);
    }
}

#[test]
fn control_bus_accessors_touch_one_parameter_each() {
    let mut bus = SharedControls::new();
    assert_eq!(bus.get_pitch(), 0);
    assert_eq!(bus.get_volume(), 0);
    assert_eq!(bus.get_pitch_bend(), 1_000_000);
    assert_eq!(bus.get_control(), 0);

    bus.set_pitch(5);
    bus.set_volume(6);
    bus.set_pitch_bend(7);
    bus.set_control(-8);
    assert_eq!(
        (bus.get_pitch(), bus.get_volume(), bus.get_pitch_bend(), bus.get_control()),
        (5, 6, 7, -8)
    );
}
