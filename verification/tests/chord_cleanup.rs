use midival_renaissance_lib::chord_cleanup::{ChordCleanupEngine, Outcome, Wake};
use midival_renaissance_lib::configuration::ChordCleanup;
use midival_renaissance_lib::midi::MidiEvent;
use midival_renaissance_lib::midi_state::MidiState;
use midival_renaissance_lib::note::{Note, U7};
use midival_renaissance_lib::time::Instant;

fn notes(pitches: &[u8]) -> Vec<Note> {
    pitches.iter().map(|pitch| Note::from_u8_lossy(*pitch)).collect()
}

fn on(pitch: u8) -> MidiEvent {
    MidiEvent::note_on(0, pitch, 100)
}

fn off(pitch: u8) -> MidiEvent {
    MidiEvent::note_off(0, pitch, 0)
}

fn at(micros: u64) -> Instant {
    Instant::from_micros(micros)
}

fn committed(engine: &ChordCleanupEngine) -> Vec<Note> {
    engine.committed().activated_notes.iter()
}

fn engine(policy: ChordCleanup) -> ChordCleanupEngine {
    ChordCleanupEngine::new(policy, MidiState::default())
}

const NOTHING: Outcome = Outcome {
    committed_at: None,
    wake: Wake::Unchanged,
};

#[test]
fn notes_within_one_window_commit_together() {
    let mut engine = engine(ChordCleanup::ThirtySecondNote);

    let first = engine.note_event(on(60), at(0));
    assert_eq!(
        first,
        Outcome {
            committed_at: None,
            wake: Wake::Arm(at(62_500))
        }
    );
    assert!(engine.is_collecting());
    assert_eq!(engine.expiry(), Some(at(62_500)));
    assert_eq!(committed(&engine), notes(&[]));

    let second = engine.note_event(on(64), at(30_000));
    assert_eq!(second, NOTHING);
    assert_eq!(engine.expiry(), Some(at(62_500)));
    assert_eq!(committed(&engine), notes(&[]));

    let woken = engine.wake(at(62_500));
    assert_eq!(
        woken,
        Outcome {
            committed_at: Some(at(62_500)),
            wake: Wake::Unchanged
        }
    );
    assert!(!engine.is_collecting());
    assert_eq!(engine.expiry(), None);
    assert_eq!(committed(&engine), notes(&[60, 64]));

    let third = engine.note_event(on(67), at(70_000));
    assert_eq!(
        third,
        Outcome {
            committed_at: None,
            wake: Wake::Arm(at(132_500))
        }
    );
    assert_eq!(engine.expiry(), Some(at(132_500)));
    assert_eq!(committed(&engine), notes(&[60, 64]));

    engine.wake(at(132_500));
    assert_eq!(committed(&engine), notes(&[60, 64, 67]));
}

#[test]
fn without_a_policy_every_note_commits_as_it_arrives() {
    let mut engine = engine(ChordCleanup::Disabled);
    for (pitch, time) in [(60_u8, 0_u64), (64, 30_000), (67, 30_001), (71, 9_000_000)] {
        let outcome = engine.note_event(on(pitch), at(time));
        assert_eq!(
            outcome,
            Outcome {
                committed_at: Some(at(time)),
                wake: Wake::Unchanged
            }
        );
        assert!(!engine.is_collecting());
        assert_eq!(committed(&engine).last(), Some(&Note::from_u8_lossy(pitch)));
    }
    assert_eq!(committed(&engine), notes(&[60, 64, 67, 71]));
    let outcome = engine.note_event(off(64), at(9_000_001));
    assert_eq!(outcome.committed_at, Some(at(9_000_001)));
    assert_eq!(committed(&engine), notes(&[60, 67, 71]));
}

#[test]
fn a_window_is_not_extended() {
    let mut engine = engine(ChordCleanup::ThirtySecondNote);
    engine.note_event(on(60), at(1_000));
    for (pitch, time) in [(64_u8, 1_001_u64), (67, 40_000), (71, 63_499), (72, 63_500)] {
        assert_eq!(engine.note_event(on(pitch), at(time)), NOTHING);
        assert_eq!(engine.expiry(), Some(at(63_500)));
    }
    assert_eq!(committed(&engine), notes(&[]));
    engine.wake(at(63_500));
    assert_eq!(committed(&engine), notes(&[60, 64, 67, 71, 72]));
}

#[test]
fn an_event_after_the_expiry_commits_and_opens_the_next_window() {
    let mut engine = engine(ChordCleanup::ThirtySecondNote);
    engine.note_event(on(60), at(0));
    engine.note_event(on(64), at(10));
    let raced = engine.note_event(on(67), at(62_501));
    assert_eq!(
        raced,
        Outcome {
            committed_at: Some(at(62_501)),
            wake: Wake::Arm(at(125_001))
        }
    );
    assert_eq!(committed(&engine), notes(&[60, 64]));
    assert_eq!(engine.expiry(), Some(at(125_001)));

    // the wake of the first window comes late and finds its window closed
    assert_eq!(engine.wake(at(62_502)), NOTHING);
    assert_eq!(committed(&engine), notes(&[60, 64]));
    assert!(engine.is_collecting());

    engine.wake(at(125_001));
    assert_eq!(committed(&engine), notes(&[60, 64, 67]));
}

#[test]
fn a_wake_without_a_window_does_nothing() {
    let mut engine = engine(ChordCleanup::ThirtySecondNote);
    assert_eq!(engine.wake(at(5)), NOTHING);
    assert!(!engine.is_collecting());
    let before = engine;
    engine.note_event(on(60), at(10));
    assert_eq!(engine.wake(at(62_509)), NOTHING);
    assert_ne!(engine, before);
    assert_eq!(committed(&engine), notes(&[]));
}

#[test]
fn releases_are_batched_like_strikes() {
    let mut state = MidiState::default();
    state.apply(on(60));
    state.apply(on(64));
    state.apply(on(67));
    let mut engine = ChordCleanupEngine::new(ChordCleanup::ThirtySecondNote, state);
    engine.note_event(off(64), at(100));
    engine.note_event(off(60), at(200));
    engine.note_event(on(72), at(300));
    assert_eq!(committed(&engine), notes(&[60, 64, 67]));
    engine.wake(at(62_600));
    assert_eq!(committed(&engine), notes(&[67, 72]));
}

#[test]
fn disabling_the_policy_flushes_the_window() {
    let mut engine = engine(ChordCleanup::ThirtySecondNote);
    engine.note_event(on(60), at(0));
    engine.note_event(on(64), at(20_000));
    let outcome = engine.set_policy(ChordCleanup::Disabled, at(25_000));
    assert_eq!(
        outcome,
        Outcome {
            committed_at: Some(at(25_000)),
            wake: Wake::Cancel
        }
    );
    assert!(!engine.is_collecting());
    assert_eq!(engine.policy(), ChordCleanup::Disabled);
    assert_eq!(committed(&engine), notes(&[60, 64]));
    assert_eq!(engine.wake(at(62_500)), NOTHING);
}

#[test]
fn changing_the_policy_while_idle_only_changes_the_policy() {
    let mut engine = engine(ChordCleanup::Disabled);
    assert_eq!(
        engine.set_policy(ChordCleanup::ThirtySecondNote, at(1)),
        NOTHING
    );
    assert_eq!(engine.policy(), ChordCleanup::ThirtySecondNote);
    engine.note_event(on(60), at(2));
    assert!(engine.is_collecting());
    assert_eq!(
        engine.set_policy(ChordCleanup::ThirtySecondNote, at(3)),
        NOTHING
    );
    assert!(engine.is_collecting());
    assert_eq!(engine.expiry(), Some(at(62_502)));
}

#[test]
fn other_events_are_committed_at_once() {
    let mut engine = engine(ChordCleanup::ThirtySecondNote);
    engine.note_event(on(60), at(0));
    let outcome = engine.other_event(MidiEvent::control_change(0, 5, 99), at(10));
    assert_eq!(
        outcome,
        Outcome {
            committed_at: Some(at(10)),
            wake: Wake::Unchanged
        }
    );
    assert_eq!(engine.committed().portamento.time(), U7::from_u8_lossy(99));
    assert_eq!(committed(&engine), notes(&[]));
    assert!(engine.is_collecting());

    assert_eq!(
        engine.other_event(MidiEvent::control_change(0, 7, 99), at(11)),
        NOTHING
    );
    assert_eq!(engine.other_event(MidiEvent::Unsupported, at(12)), NOTHING);

    engine.wake(at(62_500));
    assert_eq!(committed(&engine), notes(&[60]));
    assert_eq!(engine.committed().portamento.time(), U7::from_u8_lossy(99));
}

#[test]
fn without_a_policy_the_end_of_the_clock_is_no_limit() {
    let mut engine = engine(ChordCleanup::Disabled);
    let outcome = engine.note_event(on(60), at(u64::MAX));
    assert_eq!(
        outcome,
        Outcome {
            committed_at: Some(at(u64::MAX)),
            wake: Wake::Unchanged
        }
    );
    assert_eq!(committed(&engine), notes(&[60]));
}
