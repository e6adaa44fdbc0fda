use midival_renaissance_lib::configuration::{
    ChordCleanup, CycleConfig, EnvelopeTrigger, InputMode, InstrumentConfig, NoteEmbargo,
    NotePriority,
};
use midival_renaissance_lib::time::Duration;

#[derive(Debug, Clone, Copy, PartialEq)]
enum Alpha {
    A,
    B,
    C,
}

impl CycleConfig for Alpha {
    fn to_index(&self) -> u8 {
        *self as u8
    }

    fn from_index(index: u8) -> Option<Self> {
        [Alpha::A, Alpha::B, Alpha::C].get(usize::from(index)).copied()
    }
}

#[test]
fn cycle() {
    let config = Alpha::A.cycle();
    assert_eq!(
        Alpha::B,
        config,
        "Should advance to next variant; expected left but got right"
    );

    let config = config.cycle();
    assert_eq!(
        Alpha::C,
        config,
        "Should advance to next variant; expected left but got right"
    );

    let config = config.cycle();
    assert_eq!(
        Alpha::A,
        config,
        "Should wrap around to first variant; expected left but got right"
    );
}

#[test]
fn is_enabled() {
    assert!(
        ChordCleanup::ThirtySecondNote.is_enabled(),
        "Should be enabled"
    );
    assert!(!ChordCleanup::Disabled.is_enabled(), "Should be disabled");
}

#[test]
fn note_embargo_is_enabled() {
    assert!(NoteEmbargo::ThirtySecondNote.is_enabled());
    assert!(!NoteEmbargo::Disabled.is_enabled());
}

#[test]
fn note_priority_cycles_through_its_four_values() {
    let priority = NotePriority::First.cycle();
    assert_eq!(NotePriority::Last, priority);
    let priority = priority.cycle();
    assert_eq!(NotePriority::Low, priority);
    let priority = priority.cycle();
    assert_eq!(NotePriority::High, priority);
    let priority = priority.cycle();
    assert_eq!(NotePriority::First, priority);
}

#[test]
fn two_valued_settings_toggle() {
    assert_eq!(ChordCleanup::Disabled.cycle(), ChordCleanup::ThirtySecondNote);
    assert_eq!(ChordCleanup::ThirtySecondNote.cycle(), ChordCleanup::Disabled);
    assert_eq!(NoteEmbargo::Disabled.cycle(), NoteEmbargo::ThirtySecondNote);
    assert_eq!(NoteEmbargo::ThirtySecondNote.cycle(), NoteEmbargo::Disabled);
    assert_eq!(EnvelopeTrigger::BreakEnd.cycle(), EnvelopeTrigger::NoteChange);
    assert_eq!(EnvelopeTrigger::NoteChange.cycle(), EnvelopeTrigger::BreakEnd);
    assert_eq!(InputMode::Keyboard.cycle(), InputMode::Oscillator);
    assert_eq!(InputMode::Oscillator.cycle(), InputMode::Keyboard);
}

#[test]
fn chord_cleanup_durations() {
    assert_eq!(ChordCleanup::Disabled.duration(), Duration::from_micros(0));
    assert_eq!(
        ChordCleanup::ThirtySecondNote.duration(),
        Duration::from_micros(62_500)
    );
    assert_eq!(NoteEmbargo::Disabled.duration(), Duration::from_micros(0));
    assert_eq!(
        NoteEmbargo::ThirtySecondNote.duration(),
        Duration::from_micros(62_500)
    );
}

#[test]
fn note_embargo_maps_to_chord_cleanup() {
    assert_eq!(NoteEmbargo::Disabled.chord_cleanup(), ChordCleanup::Disabled);
    assert_eq!(
        NoteEmbargo::ThirtySecondNote.chord_cleanup(),
        ChordCleanup::ThirtySecondNote
    );
}

#[test]
fn note_priority_indices() {
    assert_eq!(NotePriority::First.index(), 0);
    assert_eq!(NotePriority::Last.index(), 1);
    assert_eq!(NotePriority::Low.index(), 2);
    assert_eq!(NotePriority::High.index(), 3);
}

#[test]
fn input_mode_defaults_to_keyboard() {
    assert_eq!(InputMode::default(), InputMode::Keyboard);
}

#[test]
fn instrument_config_holds_its_settings() {
    let config = InstrumentConfig {
        envelope_trigger: EnvelopeTrigger::BreakEnd,
        input_mode: InputMode::Keyboard,
        note_embargo: NoteEmbargo::ThirtySecondNote,
        note_priority: NotePriority::High,
    };
    assert_eq!(config.note_priority, NotePriority::High);
    assert_eq!(config.note_embargo, NoteEmbargo::ThirtySecondNote);
}

#[test]
fn settings_know_their_places() {
    assert_eq!(NotePriority::First.to_index(), 0);
    assert_eq!(NotePriority::High.to_index(), 3);
    assert_eq!(NotePriority::from_index(2), Some(NotePriority::Low));
    assert_eq!(NotePriority::from_index(4), None);
    assert_eq!(ChordCleanup::ThirtySecondNote.to_index(), 1);
    assert_eq!(ChordCleanup::from_index(0), Some(ChordCleanup::Disabled));
    assert_eq!(ChordCleanup::from_index(2), None);
    assert_eq!(NoteEmbargo::from_index(1), Some(NoteEmbargo::ThirtySecondNote));
    assert_eq!(NoteEmbargo::Disabled.to_index(), 0);
    assert_eq!(EnvelopeTrigger::NoteChange.to_index(), 1);
    assert_eq!(EnvelopeTrigger::from_index(255), None);
    assert_eq!(InputMode::from_index(1), Some(InputMode::Oscillator));
    assert_eq!(InputMode::Keyboard.to_index(), 0);
}
