//! The settings that a performer can change while playing, and the trait by
//! which a push button steps through the values of one.

pub mod keyboard;

pub use keyboard::{Keyboard, NoteProvider, ProvideNote};

use crate::time::Duration;
use vstd::prelude::*;

verus! {

/// How long the batching window of a thirty-second note lasts, in
/// microseconds, at 120 beats per minute.
pub const THIRTY_SECOND_NOTE_MICROS: u64 = 62_500;

/// A setting whose values form a ring: each press of a button moves to the
/// next value, and from the last back to the first.
pub trait CycleConfig: Sized {
    /// The place of this value on its ring, counted from 0.
    fn to_index(&self) -> u8;

    /// The value at the place `index`; none where the ring has no such
    /// place.
    fn from_index(index: u8) -> Option<Self>;

    /// The next value, cycling back to the first after the last: the value
    /// at the place behind this one, or the value at place 0 where the ring
    /// has no place behind it. The ring has to have a value at place 0.
    fn cycle(self) -> (next: Self)
        requires
            forall|first: Option<Self>| #[trigger]
                call_ensures(Self::from_index, (0u8,), first) ==> first is Some,
        ensures
            exists|index: u8| #[trigger]
                call_ensures(Self::to_index, (&self,), index) && {
                    ||| index < u8::MAX && call_ensures(
                        Self::from_index,
                        ((index + 1) as u8,),
                        Some(next),
                    )
                    ||| {
                        &&& index == u8::MAX || call_ensures(
                            Self::from_index,
                            ((index + 1) as u8,),
                            None::<Self>,
                        )
                        &&& call_ensures(Self::from_index, (0u8,), Some(next))
                    }
                },
    {
        let index: u8 = self.to_index();
        let following = if index < u8::MAX {
            Self::from_index(index + 1)
        } else {
            None
        };
        match following {
            Some(next) => next,
            None => match Self::from_index(0) {
                Some(first) => first,
                None => unreached(),
            },
        }
    }
}

/// Whether the ring of `T` has a value at place 0: what `cycle` asks for.
pub open spec fn has_first<T: CycleConfig>() -> bool {
    forall|first: Option<T>| #[trigger] call_ensures(T::from_index, (0u8,), first) ==> first is Some
}

/// Whether `next` is what `cycle` gives for `value`: the value at the place
/// behind the place of `value`, or the value at place 0 where the ring has
/// no place behind it.
pub open spec fn cycled<T: CycleConfig>(value: T, next: T) -> bool {
    exists|index: u8| #[trigger]
        call_ensures(T::to_index, (&value,), index) && {
            ||| index < u8::MAX && call_ensures(T::from_index, ((index + 1) as u8,), Some(next))
            ||| {
                &&& index == u8::MAX || call_ensures(
                    T::from_index,
                    ((index + 1) as u8,),
                    None::<T>,
                )
                &&& call_ensures(T::from_index, (0u8,), Some(next))
            }
        }
}

/// How long note events are held back so that the notes of one chord take
/// effect together, expressed as a division of a note.
///
/// The window swallows the moment in which a chord is only partly down, so
/// the instrument never sounds the third or the fifth for an instant before
/// the root arrives. It delays every note, and so it should be off when a
/// sequencer drives the instrument.
#[derive(Debug, Clone, Copy, PartialEq, Eq, Structural)]
pub enum ChordCleanup {
    /// No batching: every note event takes effect at once.
    Disabled,
    /// Batches the note events of one thirty-second note.
    ThirtySecondNote,
}

impl ChordCleanup {
    /// The length of the batching window in microseconds.
    pub open spec fn window(self) -> int {
        match self {
            ChordCleanup::Disabled => 0,
            ChordCleanup::ThirtySecondNote => THIRTY_SECOND_NOTE_MICROS as int,
        }
    }

    /// The length of the batching window.
    pub fn duration(&self) -> (span: Duration)
        ensures
            span@ == self.window(),
    {
        match self {
            ChordCleanup::Disabled => Duration::from_micros(0),
            ChordCleanup::ThirtySecondNote => Duration::from_micros(THIRTY_SECOND_NOTE_MICROS),
        }
    }

    /// Whether note events are batched at all.
    pub fn is_enabled(&self) -> (enabled: bool)
        ensures
            enabled == (*self != ChordCleanup::Disabled),
    {
        match self {
            ChordCleanup::Disabled => false,
            ChordCleanup::ThirtySecondNote => true,
        }
    }

    /// The place of this value on its ring, counted from 0.
    pub open spec fn place(self) -> u8 {
        match self {
            ChordCleanup::Disabled => 0,
            ChordCleanup::ThirtySecondNote => 1,
        }
    }

    /// The value at the place `index` of the ring, if there is one.
    pub open spec fn at(index: u8) -> Option<Self> {
        if index == 0 {
            Some(ChordCleanup::Disabled)
        } else if index == 1 {
            Some(ChordCleanup::ThirtySecondNote)
        } else {
            None
        }
    }

    /// The value that follows this one on the ring.
    pub open spec fn following(self) -> Self {
        match self {
            ChordCleanup::Disabled => ChordCleanup::ThirtySecondNote,
            ChordCleanup::ThirtySecondNote => ChordCleanup::Disabled,
        }
    }
}

impl CycleConfig for ChordCleanup {
    fn to_index(&self) -> (index: u8)
        ensures
            index == self.place(),
    {
        match self {
            ChordCleanup::Disabled => 0,
            ChordCleanup::ThirtySecondNote => 1,
        }
    }

    fn from_index(index: u8) -> (value: Option<Self>)
        ensures
            value == Self::at(index),
    {
        match index {
            0 => Some(ChordCleanup::Disabled),
            1 => Some(ChordCleanup::ThirtySecondNote),
            _ => None,
        }
    }
}

/// The chord-cleanup setting as an instrument holds it: for how long note
/// events are embargoed after the first note of a chord.
#[derive(Debug, Clone, Copy, PartialEq, Eq, Structural)]
pub enum NoteEmbargo {
    /// No embargo: every note event takes effect at once.
    Disabled,
    /// An embargo of one thirty-second note.
    ThirtySecondNote,
}

impl NoteEmbargo {
    /// The length of the embargo in microseconds.
    pub open spec fn window(self) -> int {
        match self {
            NoteEmbargo::Disabled => 0,
            NoteEmbargo::ThirtySecondNote => THIRTY_SECOND_NOTE_MICROS as int,
        }
    }

    /// The length of the embargo.
    pub fn duration(&self) -> (span: Duration)
        ensures
            span@ == self.window(),
    {
        match self {
            NoteEmbargo::Disabled => Duration::from_micros(0),
            NoteEmbargo::ThirtySecondNote => Duration::from_micros(THIRTY_SECOND_NOTE_MICROS),
        }
    }

    /// Whether note events are embargoed at all.
    pub fn is_enabled(&self) -> (enabled: bool)
        ensures
            enabled == (*self != NoteEmbargo::Disabled),
    {
        match self {
            NoteEmbargo::Disabled => false,
            NoteEmbargo::ThirtySecondNote => true,
        }
    }

    /// The same setting, as the batching engine names it.
    pub fn chord_cleanup(&self) -> (policy: ChordCleanup)
        ensures
            policy.window() == self.window(),
            (policy == ChordCleanup::Disabled) == (*self == NoteEmbargo::Disabled),
    {
        match self {
            NoteEmbargo::Disabled => ChordCleanup::Disabled,
            NoteEmbargo::ThirtySecondNote => ChordCleanup::ThirtySecondNote,
        }
    }

    /// The place of this value on its ring, counted from 0.
    pub open spec fn place(self) -> u8 {
        match self {
            NoteEmbargo::Disabled => 0,
            NoteEmbargo::ThirtySecondNote => 1,
        }
    }

    /// The value at the place `index` of the ring, if there is one.
    pub open spec fn at(index: u8) -> Option<Self> {
        if index == 0 {
            Some(NoteEmbargo::Disabled)
        } else if index == 1 {
            Some(NoteEmbargo::ThirtySecondNote)
        } else {
            None
        }
    }

    /// The value that follows this one on the ring.
    pub open spec fn following(self) -> Self {
        match self {
            NoteEmbargo::Disabled => NoteEmbargo::ThirtySecondNote,
            NoteEmbargo::ThirtySecondNote => NoteEmbargo::Disabled,
        }
    }
}

impl CycleConfig for NoteEmbargo {
    fn to_index(&self) -> (index: u8)
        ensures
            index == self.place(),
    {
        match self {
            NoteEmbargo::Disabled => 0,
            NoteEmbargo::ThirtySecondNote => 1,
        }
    }

    fn from_index(index: u8) -> (value: Option<Self>)
        ensures
            value == Self::at(index),
    {
        match index {
            0 => Some(NoteEmbargo::Disabled),
            1 => Some(NoteEmbargo::ThirtySecondNote),
            _ => None,
        }
    }
}

/// Which note sounds when more notes are held than the instrument can voice.
/// When the sounding note is released, the next one by the same rule takes
/// over.
#[derive(Debug, Clone, Copy, PartialEq, Eq, Structural)]
pub enum NotePriority {
    /// The note that was struck first.
    First,
    /// The note that was struck last.
    Last,
    /// The lowest note.
    Low,
    /// The highest note.
    High,
}

impl NotePriority {
    /// The place of this value on its ring, counted from 0.
    pub open spec fn place(self) -> u8 {
        match self {
            NotePriority::First => 0,
            NotePriority::Last => 1,
            NotePriority::Low => 2,
            NotePriority::High => 3,
        }
    }

    /// The place of this value on its ring, counted from 0.
    pub fn index(&self) -> (index: u8)
        ensures
            index == self.place(),
    {
        match self {
            NotePriority::First => 0,
            NotePriority::Last => 1,
            NotePriority::Low => 2,
            NotePriority::High => 3,
        }
    }

    /// The value at the place `index` of the ring, if there is one.
    pub open spec fn at(index: u8) -> Option<Self> {
        if index == 0 {
            Some(NotePriority::First)
        } else if index == 1 {
            Some(NotePriority::Last)
        } else if index == 2 {
            Some(NotePriority::Low)
        } else if index == 3 {
            Some(NotePriority::High)
        } else {
            None
        }
    }

    /// The value that follows this one on the ring.
    pub open spec fn following(self) -> Self {
        match self {
            NotePriority::First => NotePriority::Last,
            NotePriority::Last => NotePriority::Low,
            NotePriority::Low => NotePriority::High,
            NotePriority::High => NotePriority::First,
        }
    }
}

impl CycleConfig for NotePriority {
    fn to_index(&self) -> (index: u8)
        ensures
            index == self.place(),
    {
        match self {
            NotePriority::First => 0,
            NotePriority::Last => 1,
            NotePriority::Low => 2,
            NotePriority::High => 3,
        }
    }

    fn from_index(index: u8) -> (value: Option<Self>)
        ensures
            value == Self::at(index),
    {
        match index {
            0 => Some(NotePriority::First),
            1 => Some(NotePriority::Last),
            2 => Some(NotePriority::Low),
            3 => Some(NotePriority::High),
            _ => None,
        }
    }
}

/// When a new envelope is triggered. The instrument starts its loudness and
/// its filter envelope on the same trigger.
#[derive(Debug, Clone, Copy, PartialEq, Eq, Structural)]
pub enum EnvelopeTrigger {
    /// Whenever a break ends: at the first note, and at each note that
    /// follows a silence. Notes played legato share one envelope.
    BreakEnd,
    /// Whenever the sounding note changes, however it is articulated.
    NoteChange,
}

impl EnvelopeTrigger {
    /// The place of this value on its ring, counted from 0.
    pub open spec fn place(self) -> u8 {
        match self {
            EnvelopeTrigger::BreakEnd => 0,
            EnvelopeTrigger::NoteChange => 1,
        }
    }

    /// The value at the place `index` of the ring, if there is one.
    pub open spec fn at(index: u8) -> Option<Self> {
        if index == 0 {
            Some(EnvelopeTrigger::BreakEnd)
        } else if index == 1 {
            Some(EnvelopeTrigger::NoteChange)
        } else {
            None
        }
    }

    /// The value that follows this one on the ring.
    pub open spec fn following(self) -> Self {
        match self {
            EnvelopeTrigger::BreakEnd => EnvelopeTrigger::NoteChange,
            EnvelopeTrigger::NoteChange => EnvelopeTrigger::BreakEnd,
        }
    }
}

impl CycleConfig for EnvelopeTrigger {
    fn to_index(&self) -> (index: u8)
        ensures
            index == self.place(),
    {
        match self {
            EnvelopeTrigger::BreakEnd => 0,
            EnvelopeTrigger::NoteChange => 1,
        }
    }

    fn from_index(index: u8) -> (value: Option<Self>)
        ensures
            value == Self::at(index),
    {
        match index {
            0 => Some(EnvelopeTrigger::BreakEnd),
            1 => Some(EnvelopeTrigger::NoteChange),
            _ => None,
        }
    }
}

/// Which module of the synthesizer takes the notes.
#[derive(Debug, Clone, Copy, PartialEq, Eq, Structural)]
pub enum InputMode {
    /// The keyboard module, as though a performer played the instrument
    /// itself: octave, frequency, doubling and fine tune apply.
    Keyboard,
    /// The oscillator input.
    Oscillator,
}

impl Default for InputMode {
    fn default() -> (mode: InputMode)
        ensures
            mode == InputMode::Keyboard,
    {
        InputMode::Keyboard
    }
}

impl InputMode {
    /// The place of this value on its ring, counted from 0.
    pub open spec fn place(self) -> u8 {
        match self {
            InputMode::Keyboard => 0,
            InputMode::Oscillator => 1,
        }
    }

    /// The value at the place `index` of the ring, if there is one.
    pub open spec fn at(index: u8) -> Option<Self> {
        if index == 0 {
            Some(InputMode::Keyboard)
        } else if index == 1 {
            Some(InputMode::Oscillator)
        } else {
            None
        }
    }

    /// The value that follows this one on the ring.
    pub open spec fn following(self) -> Self {
        match self {
            InputMode::Keyboard => InputMode::Oscillator,
            InputMode::Oscillator => InputMode::Keyboard,
        }
    }
}

impl CycleConfig for InputMode {
    fn to_index(&self) -> (index: u8)
        ensures
            index == self.place(),
    {
        match self {
            InputMode::Keyboard => 0,
            InputMode::Oscillator => 1,
        }
    }

    fn from_index(index: u8) -> (value: Option<Self>)
        ensures
            value == Self::at(index),
    {
        match index {
            0 => Some(InputMode::Keyboard),
            1 => Some(InputMode::Oscillator),
            _ => None,
        }
    }
}

/// The settings of one instrument: how the adapter reads the MIDI that it
/// receives on the instrument's behalf.
#[derive(Debug, Clone, Copy, PartialEq, Eq, Structural)]
pub struct InstrumentConfig {
    /// When a new envelope is triggered.
    pub envelope_trigger: EnvelopeTrigger,
    /// Which module takes the notes.
    pub input_mode: InputMode,
    /// For how long note events are held back to clean up chords.
    pub note_embargo: NoteEmbargo,
    /// Which of the held notes sounds.
    pub note_priority: NotePriority,
}

/// Reading and changing the settings of an instrument.
pub trait Config {
    /// The settings of the instrument.
    spec fn settings(&self) -> InstrumentConfig;

    /// The settings, to read.
    fn config(&self) -> (config: &InstrumentConfig)
        ensures
            *config == self.settings(),
    ;

    /// The settings, to change.
    fn config_mut(&mut self) -> (config: &mut InstrumentConfig)
        ensures
            *config == old(self).settings(),
            final(self).settings() == *final(config),
    ;
}

/// Cycling a setting of the library gives the value that follows it on its
/// ring.
pub proof fn lemma_cycled_follows(
    chord_cleanup: (ChordCleanup, ChordCleanup),
    note_embargo: (NoteEmbargo, NoteEmbargo),
    note_priority: (NotePriority, NotePriority),
    envelope_trigger: (EnvelopeTrigger, EnvelopeTrigger),
    input_mode: (InputMode, InputMode),
)
    ensures
        has_first::<ChordCleanup>(),
        has_first::<NoteEmbargo>(),
        has_first::<NotePriority>(),
        has_first::<EnvelopeTrigger>(),
        has_first::<InputMode>(),
        cycled(chord_cleanup.0, chord_cleanup.1) ==> chord_cleanup.1
            == chord_cleanup.0.following(),
        cycled(note_embargo.0, note_embargo.1) ==> note_embargo.1 == note_embargo.0.following(),
        cycled(note_priority.0, note_priority.1) ==> note_priority.1
            == note_priority.0.following(),
        cycled(envelope_trigger.0, envelope_trigger.1) ==> envelope_trigger.1
            == envelope_trigger.0.following(),
        cycled(input_mode.0, input_mode.1) ==> input_mode.1 == input_mode.0.following(),
{
}

/// Pressing the button as often as a setting has values brings the setting
/// back to where it was.
pub proof fn lemma_cycle_returns(
    chord_cleanup: ChordCleanup,
    note_embargo: NoteEmbargo,
    note_priority: NotePriority,
    envelope_trigger: EnvelopeTrigger,
    input_mode: InputMode,
)
    ensures
        chord_cleanup.following().following() == chord_cleanup,
        note_embargo.following().following() == note_embargo,
        note_priority.following().following().following().following() == note_priority,
        envelope_trigger.following().following() == envelope_trigger,
        input_mode.following().following() == input_mode,
{
}

} // verus!
