use midival_renaissance_lib::activated_notes::{ActivatedNotes, ActiveKeys, GM2_SIMUL_NOTE_NUM};
use midival_renaissance_lib::note::Note;

fn note(note: wmidi::Note) -> Note {
    Note::from_u8_lossy(u8::from(note))
}

fn record(notes: &[wmidi::Note]) -> ActivatedNotes {
    let mut record = ActivatedNotes::new();
    for held in notes {
        record.add(note(*held));
    }
    record
}

fn chord() -> ActivatedNotes {
    record(&[wmidi::Note::E4, wmidi::Note::C4, wmidi::Note::G4])
}

#[test]
fn new() {
    let expected = ActivatedNotes::default();
    let actual = ActivatedNotes::new();
    assert_eq!(expected, actual, "Expected left but got right");
    assert_eq!(actual.iter(), Vec::<Note>::new());
    assert_eq!(actual.len(), 0);
}

#[test]
fn add_appends() {
    let expected = record(&[
        wmidi::Note::E4,
        wmidi::Note::C4,
        wmidi::Note::G4,
        wmidi::Note::D4,
    ]);

    let mut actual = chord();
    actual.add(note(wmidi::Note::D4));

    assert_eq!(expected, actual, "Expected left but got right");
    assert_eq!(
        actual.iter(),
        vec![
            note(wmidi::Note::E4),
            note(wmidi::Note::C4),
            note(wmidi::Note::G4),
            note(wmidi::Note::D4)
        ]
    );
}

#[test]
fn duplicate_add_is_ignored() {
    let expected = chord();
    let mut actual = chord();
    actual.add(note(wmidi::Note::C4));

    assert_eq!(expected, actual, "Expected left but got right");
}

#[test]
fn add_ignores_rather_than_overflow() {
    let mut activated_notes = ActivatedNotes::new();
    for pitch in 0..GM2_SIMUL_NOTE_NUM {
        activated_notes.add(Note::from_u8_lossy(pitch as u8));
    }
    assert_eq!(
        activated_notes.len(),
        GM2_SIMUL_NOTE_NUM,
        "Expected data to be inititalized to max capacity"
    );
    let before = activated_notes;
    // end setup

    activated_notes.add(note(wmidi::Note::D4));
    assert_eq!(
        activated_notes.len(),
        GM2_SIMUL_NOTE_NUM,
        "Expected data length not to change"
    );
    assert!(activated_notes
        .iter()
        .iter()
        .find(|&&n| n == note(wmidi::Note::D4))
        .is_none());
    assert!(!activated_notes.contains(note(wmidi::Note::D4)));
    assert_eq!(before, activated_notes);
}

#[test]
fn remove() {
    let expected = record(&[wmidi::Note::E4, wmidi::Note::G4]);

    let mut actual = chord();
    actual.remove(note(wmidi::Note::C4));

    assert_eq!(expected, actual, "Expected left but got right");
}

#[test]
fn should_be_empty() {
    let activated_notes = ActivatedNotes::new();
    assert!(activated_notes.is_empty());
}

#[test]
fn should_not_be_empty() {
    let activated_notes = chord();
    assert!(!activated_notes.is_empty());
}

#[test]
fn iter() {
    let chord = chord();
    let mut iter = chord.iter().into_iter();
    assert_eq!(Some(note(wmidi::Note::E4)), iter.next());
    assert_eq!(Some(note(wmidi::Note::C4)), iter.next());
    assert_eq!(Some(note(wmidi::Note::G4)), iter.next());
    assert_eq!(None, iter.next());
}

#[test]
fn adding_twice_is_adding_once() {
    let mut once = chord();
    once.add(note(wmidi::Note::B4));
    let mut twice = chord();
    twice.add(note(wmidi::Note::B4));
    twice.add(note(wmidi::Note::B4));
    assert_eq!(once, twice);
    assert_eq!(twice.len(), 4);
}

#[test]
fn removing_a_middle_note_keeps_the_order() {
    let mut notes = record(&[
        wmidi::Note::E4,
        wmidi::Note::C4,
        wmidi::Note::G4,
        wmidi::Note::B4,
        wmidi::Note::D4,
    ]);
    notes.remove(note(wmidi::Note::G4));
    assert_eq!(
        notes.iter(),
        vec![
            note(wmidi::Note::E4),
            note(wmidi::Note::C4),
            note(wmidi::Note::B4),
            note(wmidi::Note::D4)
        ]
    );
}

#[test]
fn removing_an_absent_note_changes_nothing() {
    let mut notes = chord();
    notes.remove(note(wmidi::Note::A4));
    assert_eq!(notes, chord());
}

#[test]
fn removing_the_only_note_empties_the_record() {
    let mut notes = record(&[wmidi::Note::C4]);
    notes.remove(note(wmidi::Note::C4));
    assert!(notes.is_empty());
    assert_eq!(notes, ActivatedNotes::new());
}

#[test]
fn a_full_record_takes_a_note_again_after_a_release() {
    let mut notes = ActivatedNotes::new();
    for pitch in 0..GM2_SIMUL_NOTE_NUM {
        notes.add(Note::from_u8_lossy(pitch as u8));
    }
    notes.remove(Note::from_u8_lossy(7));
    notes.add(note(wmidi::Note::D4));
    assert_eq!(notes.len(), GM2_SIMUL_NOTE_NUM);
    assert_eq!(notes.last(), Some(note(wmidi::Note::D4)));
    assert!(!notes.contains(Note::from_u8_lossy(7)));
}

#[test]
fn first_last_lowest_highest_of_a_chord() {
    let notes = chord();
    assert_eq!(notes.first(), Some(note(wmidi::Note::E4)));
    assert_eq!(notes.last(), Some(note(wmidi::Note::G4)));
    assert_eq!(notes.lowest(), Some(note(wmidi::Note::C4)));
    assert_eq!(notes.highest(), Some(note(wmidi::Note::G4)));
}

#[test]
fn an_empty_record_has_no_first_last_lowest_or_highest() {
    let notes = ActivatedNotes::new();
    assert_eq!(notes.first(), None);
    assert_eq!(notes.last(), None);
    assert_eq!(notes.lowest(), None);
    assert_eq!(notes.highest(), None);
}

#[test]
fn contains_tells_held_from_released() {
    let notes = chord();
    assert!(notes.contains(note(wmidi::Note::C4)));
    assert!(!notes.contains(note(wmidi::Note::D4)));
}

#[test]
fn active_keys_are_the_held_notes() {
    let mut keys = ActiveKeys::new();
    assert!(keys.is_empty());
    keys.add(note(wmidi::Note::E4));
    keys.add(note(wmidi::Note::C4));
    keys.add(note(wmidi::Note::E4));
    assert_eq!(keys.get(), &[note(wmidi::Note::E4), note(wmidi::Note::C4)]);
    keys.remove(note(wmidi::Note::E4));
    assert_eq!(keys.get(), &[note(wmidi::Note::C4)]);
    assert!(!keys.is_empty());
}
