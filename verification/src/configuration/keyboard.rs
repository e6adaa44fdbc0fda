//! The keyboard of the attached synthesizer: which notes it can play, which
//! of the held notes it plays, and what voltage plays a note.

use crate::activated_notes::ActivatedNotes;
use crate::configuration::NotePriority;
use crate::note::Note;
use crate::selection::{
    first_in, first_of, highest_in, highest_of, last_in, last_of, lemma_highest_of,
    lemma_lowest_of, lowest_in, lowest_of, playable, playable_in,
};
use crate::voltage::{scaled, Voltage, HALF_STEPS_PER_OCTAVE};
use vstd::prelude::*;

verus! {

/// The largest voltage per octave, in microvolts, that a keyboard can have:
/// the voltage of its highest key must fit the 64 bits of a `Voltage`.
pub const MAX_MICROVOLTS_PER_OCTAVE: i64 = 800_000_000_000_000_000;

/// The voltage, in microvolts, that plays the note of pitch `pitch` on a
/// keyboard whose lowest key has pitch `lowest`: `per_octave` for every
/// twelve half steps above the lowest key, rounded towards zero. A note below
/// the keyboard gets the voltage of the lowest key, which is zero.
pub open spec fn key_voltage(pitch: int, lowest: int, per_octave: int) -> int {
    let nth_key = if pitch >= lowest {
        pitch - lowest
    } else {
        0
    };
    scaled(per_octave, nth_key, HALF_STEPS_PER_OCTAVE as int)
}

/// Choosing the note to play when several are held.
pub trait ProvideNote {
    /// The note to play out of `notes`, which are in the order in which they
    /// were struck; none where there is none to play.
    spec fn provided(&self, notes: Seq<Note>) -> Option<Note>;

    /// Chooses the note to play out of `notes`.
    fn provide_note(&self, notes: &[Note]) -> (note: Option<Note>)
        ensures
            note == self.provided(notes@),
    ;
}

impl ProvideNote for NotePriority {
    open spec fn provided(&self, notes: Seq<Note>) -> Option<Note> {
        match self {
            NotePriority::First => first_of(notes),
            NotePriority::Last => last_of(notes),
            NotePriority::Low => lowest_of(notes),
            NotePriority::High => highest_of(notes),
        }
    }

    fn provide_note(&self, notes: &[Note]) -> (note: Option<Note>) {
        match self {
            NotePriority::First => first_in(notes),
            NotePriority::Last => last_in(notes),
            NotePriority::Low => lowest_in(notes),
            NotePriority::High => highest_in(notes),
        }
    }
}

/// The note that a note priority picks is one of the notes that it picks
/// from.
pub proof fn lemma_provided_is_held(priority: NotePriority, notes: Seq<Note>)
    ensures
        priority.provided(notes) matches Some(note) ==> notes.contains(note),
        priority.provided(notes) is None <==> notes.len() == 0,
{
    lemma_lowest_of(notes);
    lemma_highest_of(notes);
    if notes.len() > 0 {
        assert(notes.contains(notes[0]));
        assert(notes.contains(notes[notes.len() - 1]));
    }
}

/// What of the keyboard the adapter has to know: the performer's choice of
/// the note to play, the range of the keys and the voltage of one octave.
#[derive(Debug, PartialEq)]
pub struct Keyboard<T> {
    note_provider: T,
    lowest: Note,
    highest: Note,
    voltage_per_octave: Voltage,
}

impl<T: Clone> Clone for Keyboard<T> {
    /// A keyboard of the same keys and voltages, with a copy of the note
    /// provider.
    fn clone(&self) -> (copy: Self)
        ensures
            cloned(self.note_provider(), copy.note_provider()),
            copy.lowest() == self.lowest(),
            copy.highest() == self.highest(),
            copy.voltage_per_octave() == self.voltage_per_octave(),
    {
        proof {
            use_type_invariant(self);
        }
        Keyboard {
            note_provider: self.note_provider.clone(),
            lowest: self.lowest,
            highest: self.highest,
            voltage_per_octave: self.voltage_per_octave,
        }
    }
}

impl<T> Keyboard<T> {
    #[verifier::type_invariant]
    closed spec fn well_formed(self) -> bool {
        -MAX_MICROVOLTS_PER_OCTAVE <= self.voltage_per_octave@ <= MAX_MICROVOLTS_PER_OCTAVE
    }

    /// The rule by which the note to play is chosen.
    pub closed spec fn note_provider(self) -> T {
        self.note_provider
    }

    /// The lowest key.
    pub closed spec fn lowest(self) -> Note {
        self.lowest
    }

    /// The highest key.
    pub closed spec fn highest(self) -> Note {
        self.highest
    }

    /// The voltage between a key and the key one octave above it.
    pub closed spec fn voltage_per_octave(self) -> Voltage {
        self.voltage_per_octave
    }

    /// The voltage, in microvolts, that plays `note` on this keyboard.
    pub open spec fn voltage_of(self, note: Note) -> int {
        key_voltage(note.pitch() as int, self.lowest().pitch() as int, self.voltage_per_octave()@)
    }
}

impl<T: ProvideNote> Keyboard<T> {
    /// A keyboard of the keys from `lowest` up to `highest`.
    pub fn new(note_provider: T, lowest: Note, highest: Note, voltage_per_octave: Voltage) -> (keyboard: Self)
        requires
            -MAX_MICROVOLTS_PER_OCTAVE <= voltage_per_octave@ <= MAX_MICROVOLTS_PER_OCTAVE,
        ensures
            keyboard.note_provider() == note_provider,
            keyboard.lowest() == lowest,
            keyboard.highest() == highest,
            keyboard.voltage_per_octave() == voltage_per_octave,
    {
        Keyboard { note_provider, lowest, highest, voltage_per_octave }
    }

    /// Puts `note_provider` in charge of choosing the note to play.
    pub fn set_note_provider(&mut self, note_provider: T)
        ensures
            final(self).note_provider() == note_provider,
            final(self).lowest() == old(self).lowest(),
            final(self).highest() == old(self).highest(),
            final(self).voltage_per_octave() == old(self).voltage_per_octave(),
    {
        proof {
            use_type_invariant(&*self);
        }
        self.note_provider = note_provider;
    }

    /// The lowest and the highest key, in this order.
    pub fn playable_range(&self) -> (range: (Note, Note))
        ensures
            range == (self.lowest(), self.highest()),
    {
        (self.lowest, self.highest)
    }

    /// Whether `note` is one of the keys.
    pub fn can_voice(&self, note: Note) -> (can: bool)
        ensures
            can == (self.lowest().pitch() <= note.pitch() <= self.highest().pitch()),
    {
        self.lowest.number() <= note.number() && note.number() <= self.highest.number()
    }

    /// The note to play: the choice of the note provider among the held
    /// notes that are keys of this keyboard.
    pub fn provide_note(&self, notes: &ActivatedNotes) -> (note: Option<Note>)
        ensures
            note == self.note_provider().provided(playable(notes@, self.lowest(), self.highest())),
    {
        let keys = playable_in(notes.get(), self.lowest, self.highest);
        self.note_provider.provide_note(keys.as_slice())
    }

    /// The voltage that plays `note`.
    pub fn voltage(&self, note: Note) -> (voltage: Voltage)
        ensures
            voltage@ == self.voltage_of(note),
    {
        proof {
            use_type_invariant(self);
        }
        let nth_key: u8 = if note.number() >= self.lowest.number() {
            note.number() - self.lowest.number()
        } else {
            0
        };
        proof {
            lemma_key_voltage_fits(nth_key as int, self.voltage_per_octave@);
        }
        self.voltage_per_octave.scale(nth_key as u64, HALF_STEPS_PER_OCTAVE)
    }
}

/// The voltage of a key fits 64 bits.
proof fn lemma_key_voltage_fits(nth_key: int, per_octave: int)
    requires
        0 <= nth_key <= 127,
        -MAX_MICROVOLTS_PER_OCTAVE <= per_octave <= MAX_MICROVOLTS_PER_OCTAVE,
    ensures
        i64::MIN <= scaled(per_octave, nth_key, HALF_STEPS_PER_OCTAVE as int) <= i64::MAX,
{
    let size = if per_octave >= 0 { per_octave } else { -per_octave };
    assert(0 <= (size * nth_key) / 12 <= 8_466_666_666_666_666_667) by (nonlinear_arith)
        requires
            0 <= nth_key <= 127,
            0 <= size <= 800_000_000_000_000_000,
    ;
}

/// Chooses the note to play by a setting, among the keys of an instrument.
pub struct NoteProvider<T> {
    config: T,
    lowest: Note,
    highest: Note,
}

impl<T> NoteProvider<T> {
    /// The setting by which the note to play is chosen.
    pub closed spec fn config(self) -> T {
        self.config
    }

    /// The lowest key.
    pub closed spec fn lowest(self) -> Note {
        self.lowest
    }

    /// The highest key.
    pub closed spec fn highest(self) -> Note {
        self.highest
    }

    /// A provider for the keys from `lowest` up to `highest`.
    pub fn new(config: T, lowest: Note, highest: Note) -> (provider: Self)
        ensures
            provider.config() == config,
            provider.lowest() == lowest,
            provider.highest() == highest,
    {
        NoteProvider { config, lowest, highest }
    }
}

impl NoteProvider<NotePriority> {
    /// The note to play: the one that the note priority picks among the
    /// held notes that are keys of the instrument.
    pub fn provide_note(&self, notes: &ActivatedNotes) -> (note: Option<Note>)
        ensures
            note == self.config().provided(playable(notes@, self.lowest(), self.highest())),
    {
        let keys = playable_in(notes.get(), self.lowest, self.highest);
        self.config.provide_note(keys.as_slice())
    }
}

} // verus!
