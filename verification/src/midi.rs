use vstd::prelude::*;
use vstd::arithmetic::div_mod::{lemma_div_is_ordered, lemma_hoist_over_denominator};
use crate::controls::{SharedControls, BEND_MAX, BEND_MIN, PITCH_MAX, SCALE};
use midi_msg::{ChannelVoiceMsg, MidiMsg};

verus! {

/// The channel-voice messages the mapper reacts to. Everything else a MIDI
/// stream can carry is folded into `Other` and ignored.
#[derive(Clone, Copy, PartialEq, Eq, Structural, Debug)]
pub enum MidiEvent {
    NoteOn { note: u8, velocity: u8 },
    NoteOff { note: u8, velocity: u8 },
    PitchBend { bend: u16 },
    Other,
}

/// What a raw MIDI byte sequence decodes to, folded onto the events the
/// mapper reacts to: the channel-voice note-on, note-off or pitch-bend it
/// opens with, `Other` for any other message, `None` where it cannot be
/// parsed.
pub uninterp spec fn midi_event_of(bytes: Seq<u8>) -> Option<MidiEvent>;

/// Relies on `midi_msg::MidiMsg::from_midi`: its result depends on the byte
/// sequence alone (every call parses with a fresh default receiver
/// context); it rejects any data byte above 127, so a decoded note or
/// velocity fits in 7 bits and a decoded bend value fits in 14 bits; and a
/// byte sequence it cannot parse is an error, never a panic.
#[verifier::external_body]
fn decode_midi(bytes: &[u8]) -> (r: Option<MidiEvent>)
    ensures
        r == midi_event_of(bytes@),
        decoded_event_wf(r),
{
    match MidiMsg::from_midi(bytes) {
        Ok((MidiMsg::ChannelVoice { msg: ChannelVoiceMsg::NoteOn { note, velocity }, .. }, _)) =>
            Some(MidiEvent::NoteOn { note, velocity }),
        Ok((MidiMsg::ChannelVoice { msg: ChannelVoiceMsg::NoteOff { note, velocity }, .. }, _)) =>
            Some(MidiEvent::NoteOff { note, velocity }),
        Ok((MidiMsg::ChannelVoice { msg: ChannelVoiceMsg::PitchBend { bend }, .. }, _)) =>
            Some(MidiEvent::PitchBend { bend }),
        Ok(_) => Some(MidiEvent::Other),
        Err(_) => None,
    }
}

/// The field bounds the MIDI wire format guarantees: 7-bit notes and
/// velocities, a 14-bit bend value.
pub open spec fn decoded_event_wf(e: Option<MidiEvent>) -> bool {
    match e {
        Some(MidiEvent::NoteOn { note, velocity }) => note <= 127 && velocity <= 127,
        Some(MidiEvent::NoteOff { note, velocity }) => note <= 127 && velocity <= 127,
        Some(MidiEvent::PitchBend { bend }) => bend <= 16383,
        Some(MidiEvent::Other) => true,
        None => true,
    }
}

/// Frequency of MIDI note `k` of the lowest octave (`k` in 0..=11), in
/// millionths of a hertz: `440e6 * 2^((k - 69) / 12)` rounded to the nearest
/// millionth. Note 9 is the lowest A, five octaves below A440, at exactly
/// 13.75 Hz.
pub open spec fn spec_base_freq(k: int) -> int {
    if k == 0 {
        8_175_799
    } else if k == 1 {
        8_661_957
    } else if k == 2 {
        9_177_024
    } else if k == 3 {
        9_722_718
    } else if k == 4 {
        10_300_861
    } else if k == 5 {
        10_913_382
    } else if k == 6 {
        11_562_326
    } else if k == 7 {
        12_249_857
    } else if k == 8 {
        12_978_272
    } else if k == 9 {
        13_750_000
    } else if k == 10 {
        14_567_618
    } else {
        15_433_853
    }
}

/// The factor an octave number (`note / 12`, 0..=10 over the MIDI range)
/// contributes: each octave doubles the frequency.
pub open spec fn spec_oct_mult(o: int) -> int {
    if o <= 0 {
        1
    } else if o == 1 {
        2
    } else if o == 2 {
        4
    } else if o == 3 {
        8
    } else if o == 4 {
        16
    } else if o == 5 {
        32
    } else if o == 6 {
        64
    } else if o == 7 {
        128
    } else if o == 8 {
        256
    } else if o == 9 {
        512
    } else {
        1024
    }
}

/// Frequency of MIDI note `n` in millionths of a hertz: the tempered base
/// frequency of its pitch class, doubled once per octave.
pub open spec fn spec_note_freq(n: u8) -> int {
    spec_base_freq(n as int % 12) * spec_oct_mult(n as int / 12)
}

/// Every frequency the MIDI range can produce stays under `PITCH_MAX`.
pub proof fn lemma_note_freq_bounds(n: u8)
    requires
        n <= 127,
    ensures
        0 < spec_note_freq(n) <= PITCH_MAX,
{
    assert(0 < spec_base_freq(n as int % 12) <= 15_433_853);
    assert(1 <= spec_oct_mult(n as int / 12) <= 1024);
    assert(0 < spec_note_freq(n) <= PITCH_MAX) by (nonlinear_arith)
        requires
            spec_note_freq(n) == spec_base_freq(n as int % 12) * spec_oct_mult(n as int / 12),
            0 < spec_base_freq(n as int % 12) <= 15_433_853,
            1 <= spec_oct_mult(n as int / 12) <= 1024,
            PITCH_MAX == 16_000_000_000,
    {}
}

/// Note 69, concert A, maps to exactly 440 Hz.
pub proof fn lemma_note_freq_a440()
    ensures
        spec_note_freq(69) == 440_000_000,
{
    vstd::arithmetic::div_mod::lemma_fundamental_div_mod_converse(69, 12, 5, 9);
    assert(13_750_000int * 32 == 440_000_000) by (nonlinear_arith);
}

/// Moving a note up by an octave exactly doubles its derived frequency.
pub proof fn lemma_note_freq_octave(n: u8)
    requires
        n + 12 <= 127,
    ensures
        spec_note_freq((n + 12) as u8) == 2 * spec_note_freq(n),
{
    let m = n + 12;
    assert(m as int % 12 == n as int % 12 && m as int / 12 == n as int / 12 + 1) by (nonlinear_arith)
        requires
            m == n + 12,
            0 <= n,
    {}
    assert(spec_oct_mult(n as int / 12 + 1) == 2 * spec_oct_mult(n as int / 12));
    assert(spec_base_freq(n as int % 12) * (2 * spec_oct_mult(n as int / 12)) == 2 * (
    spec_base_freq(n as int % 12) * spec_oct_mult(n as int / 12))) by (nonlinear_arith);
}

/// Frequency of MIDI note `note` in millionths of a hertz, the standard
/// mapping `440 * 2^((note - 69) / 12)`; note 69 gives exactly 440 Hz.
pub fn note_freq(note: u8) -> (r: u64)
    requires
        note <= 127,
    ensures
        r == spec_note_freq(note),
        0 < r <= PITCH_MAX,
{
    proof {
        lemma_note_freq_bounds(note);
    }
    let k = note % 12;
    let oct = note / 12;
    let base: u64 = match k {
        0 => 8_175_799,
        1 => 8_661_957,
        2 => 9_177_024,
        3 => 9_722_718,
        4 => 10_300_861,
        5 => 10_913_382,
        6 => 11_562_326,
        7 => 12_249_857,
        8 => 12_978_272,
        9 => 13_750_000,
        10 => 14_567_618,
        _ => 15_433_853,
    };
    let mult: u64 = match oct {
        0 => 1,
        1 => 2,
        2 => 4,
        3 => 8,
        4 => 16,
        5 => 32,
        6 => 64,
        7 => 128,
        8 => 256,
        9 => 512,
        _ => 1024,
    };
    base * mult
}

/// Center of the 14-bit pitch-bend range: no bend, factor exactly 1.
pub const BEND_CENTER: u16 = 8192;

/// `ln 2 / 12` in millionths: the exponent step of one full bend deflection.
pub const BEND_LN2_TWELFTH: u64 = 57_762;

/// The linear term of the bend polynomial: `m * ln2/12 / 8192` in
/// millionths, for a deflection of `m` out of 8192 steps.
pub open spec fn bend_y(m: int) -> int {
    m * 57_762 / 8192
}

/// The quadratic term of the bend polynomial: `y^2 / 2`, with `y` in
/// millionths.
pub open spec fn bend_q(y: int) -> int {
    y * y / 2_000_000
}

/// The cubic term of the bend polynomial: `y^3 / 6`, with `y` in millionths.
pub open spec fn bend_c(y: int) -> int {
    y * y * y / 6_000_000_000_000
}

/// The pitch-bend multiplier in millionths: `2^(((b - 8192) / 8192) / 12)`,
/// evaluated as `e^y` with `y = (b - 8192)/8192 * ln2/12`, by the cubic
/// Taylor polynomial `1 + y + y^2/2 + y^3/6` on the magnitude of the
/// deflection.
pub open spec fn spec_pitch_bend_factor(b: u16) -> int {
    let d = b as int - 8192;
    if d >= 0 {
        let y = bend_y(d);
        1_000_000 + y + bend_q(y) + bend_c(y)
    } else {
        let y = bend_y(-d);
        1_000_000 - y + bend_q(y) - bend_c(y)
    }
}

/// How the linear term moves between adjacent deflections: by at least 7 and
/// at most 8 millionths per step, so it is strictly increasing.
proof fn lemma_bend_y_step(m: int)
    requires
        1 <= m <= 8192,
    ensures
        bend_y(m - 1) + 7 <= bend_y(m) <= bend_y(m - 1) + 8,
        bend_y(m) <= 57_762,
{
    let x = (m - 1) * 57_762;
    assert(m * 57_762 == x + 57_762) by (nonlinear_arith)
        requires
            x == (m - 1) * 57_762,
    {}
    lemma_hoist_over_denominator(x, 7, 8192);
    lemma_div_is_ordered(x + 57_344, x + 57_762, 8192);
    lemma_hoist_over_denominator(x, 8, 8192);
    lemma_div_is_ordered(x + 57_762, x + 65_536, 8192);
    assert(x >= 0) by (nonlinear_arith)
        requires
            m >= 1,
            x == (m - 1) * 57_762,
    {}
    assert(m * 57_762 <= 8192 * 57_762) by (nonlinear_arith)
        requires
            m <= 8192,
    {}
    lemma_div_is_ordered(m * 57_762, 8192 * 57_762int, 8192);
}

/// The linear term is 0 at no deflection and never exceeds 57,762
/// millionths at full deflection.
proof fn lemma_bend_y_bounds(m: int)
    requires
        0 <= m <= 8192,
    ensures
        0 <= bend_y(m) <= 57_762,
{
    assert(0 <= m * 57_762 <= 8192 * 57_762) by (nonlinear_arith)
        requires
            0 <= m <= 8192,
    {}
    lemma_div_is_ordered(0, m * 57_762, 8192);
    lemma_div_is_ordered(m * 57_762, 8192 * 57_762int, 8192);
}

/// How the quadratic term moves when the linear term moves by at most 8:
/// never down, and up by at most 1 millionth.
proof fn lemma_bend_q_step(y1: int, y2: int)
    requires
        0 <= y1 <= y2 <= y1 + 8,
        y2 <= 57_762,
    ensures
        bend_q(y1) <= bend_q(y2) <= bend_q(y1) + 1,
        bend_c(y1) <= bend_c(y2),
{
    assert(y1 * y1 <= y2 * y2 && y2 * y2 <= y1 * y1 + 2_000_000 && y1 * y1 * y1 <= y2 * y2
        * y2) by (nonlinear_arith)
        requires
            0 <= y1 <= y2 <= y1 + 8,
            y2 <= 57_762,
    {}
    lemma_div_is_ordered(y1 * y1, y2 * y2, 2_000_000);
    lemma_hoist_over_denominator(y1 * y1, 1, 2_000_000);
    lemma_div_is_ordered(y2 * y2, y1 * y1 + 2_000_000, 2_000_000);
    lemma_div_is_ordered(y1 * y1 * y1, y2 * y2 * y2, 6_000_000_000_000);
}

/// Bounds of the quadratic and cubic terms over one semitone of deflection.
proof fn lemma_bend_terms_bounds(y: int)
    requires
        0 <= y <= 57_762,
    ensures
        0 <= bend_q(y) <= 1668,
        0 <= bend_c(y) <= 32,
{
    assert(0 <= y * y <= 3_336_448_644 && 0 <= y * y * y <= 192_741_946_764_648int)
        by (nonlinear_arith)
        requires
            0 <= y <= 57_762,
    {}
    lemma_div_is_ordered(0, y * y, 2_000_000);
    lemma_div_is_ordered(y * y, 3_336_448_644, 2_000_000);
    lemma_div_is_ordered(0, y * y * y, 6_000_000_000_000);
    lemma_div_is_ordered(y * y * y, 192_741_946_764_648int, 6_000_000_000_000);
}

/// At the center bend value 8192 the multiplier is exactly 1: every term of
/// the polynomial vanishes on a deflection of zero.
pub proof fn lemma_pitch_bend_center()
    ensures
        spec_pitch_bend_factor(8192) == SCALE,
{
    assert(0int * 57_762 == 0 && 0int * 0 == 0) by (nonlinear_arith);
    vstd::arithmetic::div_mod::lemma_basic_div(0, 8192);
    vstd::arithmetic::div_mod::lemma_basic_div(0, 2_000_000);
    vstd::arithmetic::div_mod::lemma_basic_div(0, 6_000_000_000_000);
}

/// The multiplier always stays within `BEND_MIN..=BEND_MAX`.
pub proof fn lemma_pitch_bend_factor_bounds(b: u16)
    requires
        b <= 16383,
    ensures
        BEND_MIN <= spec_pitch_bend_factor(b) <= BEND_MAX,
{
    let d = b as int - 8192;
    let m = if d >= 0 { d } else { -d };
    lemma_bend_y_bounds(m);
    lemma_bend_terms_bounds(bend_y(m));
}

/// The multiplier grows strictly from each bend value to the next.
proof fn lemma_pitch_bend_factor_adjacent(b: u16)
    requires
        b < 16383,
    ensures
        spec_pitch_bend_factor(b) < spec_pitch_bend_factor((b + 1) as u16),
{
    if b >= 8192 {
        // Rising side: the deflection magnitude grows with b.
        let m = b as int - 8192 + 1;
        lemma_bend_y_step(m);
        lemma_bend_y_bounds(m - 1);
        lemma_bend_q_step(bend_y(m - 1), bend_y(m));
    } else {
        // Falling side: the deflection magnitude shrinks as b grows.
        let m = 8192 - b as int;
        lemma_bend_y_step(m);
        lemma_bend_y_bounds(m - 1);
        lemma_bend_q_step(bend_y(m - 1), bend_y(m));
    }
}

/// The derived pitch-bend multiplier is strictly monotone in the 14-bit
/// bend value, and exactly 1 (one `SCALE`) at the center value 8192.
pub proof fn lemma_pitch_bend_factor_monotonic(b1: u16, b2: u16)
    requires
        b1 < b2 <= 16383,
    ensures
        spec_pitch_bend_factor(b1) < spec_pitch_bend_factor(b2),
        spec_pitch_bend_factor(8192) == SCALE,
    decreases b2 - b1,
{
    lemma_pitch_bend_center();
    if b2 == b1 + 1 {
        lemma_pitch_bend_factor_adjacent(b1);
    } else {
        lemma_pitch_bend_factor_monotonic(b1, (b2 - 1) as u16);
        lemma_pitch_bend_factor_adjacent((b2 - 1) as u16);
    }
}

/// The pitch-bend multiplier in millionths for a 14-bit bend value:
/// approximately `2^(((bend - 8192) / 8192) / 12)`, spanning about one
/// semitone either way, exactly 1 at the center.
pub fn pitch_bend_factor(bend: u16) -> (r: u64)
    requires
        bend <= 16383,
    ensures
        r == spec_pitch_bend_factor(bend),
        BEND_MIN <= r <= BEND_MAX,
        bend == BEND_CENTER ==> r == SCALE,
{
    proof {
        let d = bend as int - 8192;
        let m = if d >= 0 { d } else { -d };
        lemma_bend_y_bounds(m);
        lemma_bend_terms_bounds(bend_y(m));
        lemma_pitch_bend_center();
    }
    if bend >= 8192 {
        let m: u64 = (bend - 8192) as u64;
        let y: u64 = m * BEND_LN2_TWELFTH / 8192;
        let q: u64 = y * y / 2_000_000;
        let c: u64 = y * y * y / 6_000_000_000_000;
        1_000_000 + y + q + c
    } else {
        let m: u64 = (8192 - bend) as u64;
        let y: u64 = m * BEND_LN2_TWELFTH / 8192;
        let q: u64 = y * y / 2_000_000;
        let c: u64 = y * y * y / 6_000_000_000_000;
        1_000_000 - y + q - c
    }
}

/// Volume for a note-on velocity, in millionths: `velocity / 127`, so the
/// highest velocity plays at exactly full volume.
pub open spec fn spec_volume(velocity: u8) -> int {
    velocity as int * 1_000_000 / 127
}

/// What one decoded MIDI event does to the control bus.
///
/// A note-on sets the pitch from the note, the volume from the velocity,
/// recenters the bend and opens the envelope gate. A note-off closes that
/// gate only when the held pitch equals the note's derived frequency;
/// otherwise the bus is untouched, another note is presumed still sounding.
/// A bend sets
/// the multiplier alone. Anything else, a failed parse included, leaves the
/// bus exactly as it was.
pub open spec fn spec_apply_event(c: SharedControls, e: Option<MidiEvent>) -> SharedControls {
    match e {
        Some(MidiEvent::NoteOn { note, velocity }) => SharedControls {
            pitch: spec_note_freq(note) as u64,
            volume: spec_volume(velocity) as u64,
            pitch_bend: SCALE,
            control: SCALE as i64,
        },
        Some(MidiEvent::NoteOff { note, velocity }) => if c.pitch == spec_note_freq(note) {
            SharedControls { control: (-(SCALE as int)) as i64, ..c }
        } else {
            c
        },
        Some(MidiEvent::PitchBend { bend }) => SharedControls {
            pitch_bend: spec_pitch_bend_factor(bend) as u64,
            ..c
        },
        Some(MidiEvent::Other) => c,
        None => c,
    }
}

/// A note-off for a note whose derived frequency is not the held pitch
/// leaves every control unchanged, its gate included; one that matches
/// closes that gate and touches nothing else.
pub proof fn lemma_note_off(c: SharedControls, note: u8, velocity: u8)
    ensures
        c.pitch != spec_note_freq(note) ==> spec_apply_event(
            c,
            Some(MidiEvent::NoteOff { note, velocity }),
        ) == c,
        c.pitch == spec_note_freq(note) ==> spec_apply_event(
            c,
            Some(MidiEvent::NoteOff { note, velocity }),
        ) == (SharedControls { control: (-(SCALE as int)) as i64, ..c }),
{
}

/// Writes one decoded event into the control bus, as the mapper's state
/// machine prescribes, and keeps every bus value within its range.
pub fn apply_event(controls: &mut SharedControls, event: Option<MidiEvent>)
    requires
        old(controls).wf(),
        decoded_event_wf(event),
    ensures
        *final(controls) == spec_apply_event(*old(controls), event),
        final(controls).wf(),
{
    match event {
        Some(MidiEvent::NoteOn { note, velocity }) => {
            proof {
                lemma_div_is_ordered(velocity as int * 1_000_000, 127int * 1_000_000, 127);
                vstd::arithmetic::div_mod::lemma_div_multiples_vanish(1_000_000, 127);
            }
            controls.pitch = note_freq(note);
            controls.volume = (velocity as u64) * 1_000_000 / 127;
            controls.pitch_bend = SCALE;
            controls.control = SCALE as i64;
        },
        Some(MidiEvent::NoteOff { note, velocity: _ }) => {
            if controls.pitch == note_freq(note) {
                controls.control = -(SCALE as i64);
            }
        },
        Some(MidiEvent::PitchBend { bend }) => {
            controls.pitch_bend = pitch_bend_factor(bend);
        },
        Some(MidiEvent::Other) => {},
        None => {},
    }
}

/// Decodes one raw MIDI message and applies it to the control bus: the whole
/// step the listener takes per incoming message. The returned event is
/// exactly what the bytes decode to, and the bus changes exactly as that
/// event prescribes. A malformed byte sequence decodes to `None` and
/// provably leaves the bus unchanged, so bad input can never disturb the
/// held note or crash the listener.
pub fn handle_message(controls: &mut SharedControls, bytes: &[u8]) -> (event: Option<MidiEvent>)
    requires
        old(controls).wf(),
    ensures
        event == midi_event_of(bytes@),
        decoded_event_wf(event),
        *final(controls) == spec_apply_event(*old(controls), event),
        final(controls).wf(),
        event is None ==> *final(controls) == *old(controls),
{
    let event = decode_midi(bytes);
    apply_event(controls, event);
    event
}

} // verus!
