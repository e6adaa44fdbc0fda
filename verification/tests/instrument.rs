use midival_renaissance_lib::configuration::{
    Config, EnvelopeTrigger, InputMode, InstrumentConfig, NoteEmbargo, NotePriority,
};
use midival_renaissance_lib::instrument::{Instrument, Micromoog};
use midival_renaissance_lib::io::{ControlVoltage, Gate, GateState, Midi};
use midival_renaissance_lib::midi::MidiEvent;
use midival_renaissance_lib::note::Note;
use midival_renaissance_lib::time::Instant;
use midival_renaissance_lib::voltage::Voltage;

fn note(note: wmidi::Note) -> Note {
    Note::from_u8_lossy(u8::from(note))
}

fn on(note: wmidi::Note) -> MidiEvent {
    MidiEvent::note_on(0, u8::from(note), 100)
}

fn off(note: wmidi::Note) -> MidiEvent {
    MidiEvent::note_off(0, u8::from(note), 0)
}

fn at(micros: u64) -> Instant {
    Instant::from_micros(micros)
}

fn embargoed() -> Micromoog {
    let mut instrument = Micromoog::default();
    instrument.config_mut().note_embargo = NoteEmbargo::ThirtySecondNote;
    instrument
}

#[test]
fn the_default_instrument() {
    let instrument = Micromoog::default();
    assert_eq!(
        *instrument.config(),
        InstrumentConfig {
            envelope_trigger: EnvelopeTrigger::BreakEnd,
            input_mode: InputMode::Keyboard,
            note_embargo: NoteEmbargo::Disabled,
            note_priority: NotePriority::Low,
        }
    );
    assert_eq!(instrument.gate_state(), GateState::Low);
    assert_eq!(instrument.current_note_to_voltage(), Voltage::from_volts(0));
    assert_eq!(
        instrument.playable_notes(),
        (note(wmidi::Note::F3), note(wmidi::Note::C6))
    );
    assert_eq!(instrument.volts_per_octave(), Voltage::from_volts(1));
}

#[test]
fn the_instrument_plays_the_lowest_key_by_default() {
    let mut instrument = Micromoog::default();
    assert_eq!(instrument.receive_midi(on(wmidi::Note::E4), at(0)), None);
    assert_eq!(instrument.receive_midi(on(wmidi::Note::C4), at(1)), None);
    assert_eq!(instrument.receive_midi(on(wmidi::Note::G4), at(2)), None);
    assert_eq!(instrument.gate_state(), GateState::High);
    // the note to play follows only when it is computed
    assert_eq!(instrument.current_note_to_voltage(), Voltage::from_volts(0));
    instrument.compute_state();
    // C4 lies seven half steps above F3
    assert_eq!(
        instrument.current_note_to_voltage(),
        Voltage::from_microvolts(583_333)
    );
}

#[test]
fn the_note_priority_decides_the_note() {
    let mut instrument = Micromoog::default();
    for struck in [wmidi::Note::E4, wmidi::Note::G4, wmidi::Note::B4, wmidi::Note::C4] {
        instrument.receive_midi(on(struck), at(0));
    }
    for (priority, microvolts) in [
        (NotePriority::First, 916_666),
        (NotePriority::Last, 583_333),
        (NotePriority::Low, 583_333),
        (NotePriority::High, 1_500_000),
    ] {
        instrument.config_mut().note_priority = priority;
        instrument.compute_state();
        assert_eq!(
            instrument.current_note_to_voltage(),
            Voltage::from_microvolts(microvolts)
        );
    }
}

#[test]
fn the_note_stays_when_all_keys_are_released() {
    let mut instrument = Micromoog::default();
    instrument.receive_midi(on(wmidi::Note::F4), at(0));
    instrument.compute_state();
    assert_eq!(instrument.current_note_to_voltage(), Voltage::from_volts(1));
    instrument.receive_midi(off(wmidi::Note::F4), at(10));
    instrument.compute_state();
    assert_eq!(instrument.gate_state(), GateState::Low);
    assert_eq!(instrument.current_note_to_voltage(), Voltage::from_volts(1));
}

#[test]
fn notes_that_are_no_keys_are_passed_over() {
    let mut instrument = Micromoog::default();
    assert!(!instrument.can_voice(&note(wmidi::Note::E3)));
    assert!(!instrument.can_voice(&note(wmidi::Note::Db6)));
    assert!(instrument.can_voice(&note(wmidi::Note::F3)));
    assert!(instrument.can_voice(&note(wmidi::Note::C6)));
    instrument.receive_midi(on(wmidi::Note::E3), at(0));
    instrument.receive_midi(on(wmidi::Note::Db6), at(1));
    assert_eq!(instrument.gate_state(), GateState::Low);
    instrument.receive_midi(on(wmidi::Note::C6), at(2));
    instrument.compute_state();
    assert_eq!(instrument.gate_state(), GateState::High);
    assert_eq!(
        instrument.current_note_to_voltage(),
        Voltage::from_microvolts(2_583_333)
    );
}

#[test]
fn without_an_embargo_nothing_is_held_back() {
    let mut instrument = Micromoog::default();
    assert_eq!(instrument.receive_midi(on(wmidi::Note::C4), at(0)), None);
    assert_eq!(instrument.receive_midi(off(wmidi::Note::C4), at(5)), None);
    assert_eq!(
        instrument.receive_midi(MidiEvent::control_change(0, 5, 1), at(6)),
        None
    );
}

#[test]
fn the_embargo_lasts_one_window_from_the_first_note() {
    let mut instrument = embargoed();
    assert_eq!(
        instrument.receive_midi(on(wmidi::Note::C4), at(0)),
        Some(at(62_500))
    );
    assert_eq!(
        instrument.receive_midi(on(wmidi::Note::E4), at(30_000)),
        Some(at(62_500))
    );
    assert_eq!(
        instrument.receive_midi(on(wmidi::Note::G4), at(62_500)),
        Some(at(62_500))
    );
    assert_eq!(
        instrument.receive_midi(on(wmidi::Note::B4), at(70_000)),
        Some(at(132_500))
    );
    assert_eq!(
        instrument.receive_midi(off(wmidi::Note::B4), at(132_501)),
        Some(at(195_001))
    );
}

#[test]
fn other_messages_leave_the_embargo_alone() {
    let mut instrument = embargoed();
    assert_eq!(
        instrument.receive_midi(MidiEvent::control_change(0, 5, 1), at(0)),
        None
    );
    assert_eq!(instrument.receive_midi(MidiEvent::Unsupported, at(1)), None);
    instrument.receive_midi(on(wmidi::Note::C4), at(10));
    assert_eq!(
        instrument.receive_midi(MidiEvent::control_change(0, 5, 1), at(100_000)),
        Some(at(62_510))
    );
}

#[test]
fn a_note_that_is_no_key_opens_no_window() {
    let mut instrument = embargoed();
    assert_eq!(instrument.receive_midi(on(wmidi::Note::C2), at(5)), None);
    assert_eq!(instrument.receive_midi(off(wmidi::Note::C7), at(6)), None);
    assert_eq!(instrument.updated_at(), None);
    assert_eq!(
        instrument.receive_midi(on(wmidi::Note::C4), at(10)),
        Some(at(62_510))
    );
    // long after the window
    assert_eq!(
        instrument.receive_midi(on(wmidi::Note::C3), at(100_000)),
        Some(at(62_510))
    );
    assert_eq!(
        instrument.receive_midi(off(wmidi::Note::Db6), at(100_001)),
        Some(at(62_510))
    );
    assert_eq!(instrument.updated_at(), Some(at(10)));
    assert_eq!(
        instrument.activated_notes().iter(),
        vec![note(wmidi::Note::C4)]
    );
}

#[test]
fn a_note_outside_the_keyboard_opens_no_window_from_an_old_change() {
    let mut instrument = Micromoog::default();
    assert_eq!(instrument.receive_midi(on(wmidi::Note::C4), at(0)), None);
    instrument.config_mut().note_embargo = NoteEmbargo::ThirtySecondNote;
    assert_eq!(
        instrument.receive_midi(on(wmidi::Note::C3), at(1_000_000)),
        None
    );
    assert_eq!(instrument.embargo_expiry(), None);
    assert_eq!(
        instrument.activated_notes().iter(),
        vec![note(wmidi::Note::C4)]
    );
}

#[test]
fn every_note_event_on_a_key_opens_a_window_at_its_arrival() {
    let mut instrument = embargoed();
    // the release of a key that is not held
    assert_eq!(
        instrument.receive_midi(off(wmidi::Note::G4), at(7)),
        Some(at(62_507))
    );
    assert_eq!(instrument.updated_at(), Some(at(7)));
    assert!(instrument.activated_notes().is_empty());
    assert_eq!(
        instrument.receive_midi(on(wmidi::Note::C4), at(100_000)),
        Some(at(162_500))
    );
    // the strike of a key that is held already
    assert_eq!(
        instrument.receive_midi(on(wmidi::Note::C4), at(200_000)),
        Some(at(262_500))
    );
    assert_eq!(instrument.updated_at(), Some(at(100_000)));
    assert_eq!(
        instrument.activated_notes().iter(),
        vec![note(wmidi::Note::C4)]
    );
    // within the window nothing moves
    assert_eq!(
        instrument.receive_midi(off(wmidi::Note::G4), at(262_500)),
        Some(at(262_500))
    );
}

#[test]
fn with_all_keys_down_a_strike_still_opens_a_window() {
    let mut instrument = embargoed();
    for pitch in 53..=84_u8 {
        instrument.receive_midi(MidiEvent::note_on(0, pitch, 100), at(0));
    }
    assert_eq!(instrument.embargo_expiry(), Some(at(62_500)));
    assert_eq!(instrument.activated_notes().len(), 32);
    instrument.receive_midi(MidiEvent::note_off(0, 60, 0), at(100_000));
    instrument.receive_midi(MidiEvent::note_on(0, 60, 100), at(200_000));
    assert_eq!(instrument.embargo_expiry(), Some(at(262_500)));
    // all 32 keys are down again: the record is full and holds every key
    assert_eq!(
        instrument.receive_midi(MidiEvent::note_on(0, 61, 100), at(300_000)),
        Some(at(362_500))
    );
    assert_eq!(instrument.updated_at(), Some(at(200_000)));
    assert_eq!(instrument.activated_notes().len(), 32);
}

#[test]
fn without_an_embargo_the_end_of_the_clock_is_no_limit() {
    let mut instrument = Micromoog::default();
    assert_eq!(instrument.receive_midi(on(wmidi::Note::C4), at(u64::MAX)), None);
    assert_eq!(instrument.updated_at(), Some(at(u64::MAX)));
    assert_eq!(
        instrument.activated_notes().iter(),
        vec![note(wmidi::Note::C4)]
    );
}

#[test]
fn lifting_the_embargo_clears_it() {
    let mut instrument = embargoed();
    assert_eq!(
        instrument.receive_midi(on(wmidi::Note::C4), at(0)),
        Some(at(62_500))
    );
    instrument.config_mut().note_embargo = NoteEmbargo::Disabled;
    assert_eq!(instrument.receive_midi(MidiEvent::Unsupported, at(1)), None);
    instrument.config_mut().note_embargo = NoteEmbargo::ThirtySecondNote;
    assert_eq!(
        instrument.receive_midi(on(wmidi::Note::E4), at(2)),
        Some(at(62_502))
    );
}

#[test]
fn the_instrument_stands_for_its_micromoog() {
    let mut instrument = Instrument::default();
    assert_eq!(instrument.config().note_priority, NotePriority::Low);
    instrument.config_mut().note_priority = NotePriority::High;
    instrument.config_mut().note_embargo = NoteEmbargo::ThirtySecondNote;
    assert_eq!(
        instrument.receive_midi(on(wmidi::Note::F4), at(0)),
        Some(at(62_500))
    );
    instrument.receive_midi(on(wmidi::Note::F5), at(1));
    instrument.compute_state();
    assert_eq!(instrument.gate_state(), GateState::High);
    assert_eq!(instrument.current_note_to_voltage(), Voltage::from_volts(2));
    assert_eq!(instrument.volts_per_octave(), Voltage::from_volts(1));
    assert_eq!(
        instrument.playable_notes(),
        (note(wmidi::Note::F3), note(wmidi::Note::C6))
    );
    assert!(instrument.can_voice(&note(wmidi::Note::F3)));
    assert!(!instrument.can_voice(&note(wmidi::Note::E3)));
}

#[test]
fn the_instrument_tells_what_it_knows() {
    let mut instrument = embargoed();
    assert!(instrument.activated_notes().is_empty());
    assert_eq!(instrument.current_note(), note(wmidi::Note::F3));
    assert_eq!(instrument.updated_at(), None);
    assert_eq!(instrument.embargo_expiry(), None);
    assert_eq!(instrument.portamento_time().get(), 0);

    instrument.receive_midi(on(wmidi::Note::G4), at(40));
    instrument.receive_midi(on(wmidi::Note::E4), at(50));
    instrument.receive_midi(on(wmidi::Note::G4), at(60));
    instrument.receive_midi(MidiEvent::control_change(0, 5, 77), at(70));
    instrument.compute_state();
    assert_eq!(
        instrument.activated_notes().iter(),
        vec![note(wmidi::Note::G4), note(wmidi::Note::E4)]
    );
    assert_eq!(instrument.current_note(), note(wmidi::Note::E4));
    assert_eq!(instrument.updated_at(), Some(at(50)));
    assert_eq!(instrument.embargo_expiry(), Some(at(62_540)));
    assert_eq!(instrument.portamento_time().get(), 77);
}

#[test]
fn a_full_instrument_takes_no_further_key() {
    let mut instrument = Micromoog::default();
    for pitch in 53..=84_u8 {
        instrument.receive_midi(MidiEvent::note_on(0, pitch, 100), at(u64::from(pitch)));
    }
    assert_eq!(instrument.activated_notes().len(), 32);
    assert_eq!(instrument.updated_at(), Some(at(84)));
    instrument.receive_midi(MidiEvent::note_off(0, 60, 0), at(100));
    instrument.receive_midi(MidiEvent::note_on(0, 60, 100), at(101));
    assert_eq!(instrument.activated_notes().len(), 32);
    assert_eq!(instrument.activated_notes().last(), Some(note(wmidi::Note::C4)));
}
