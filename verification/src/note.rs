//! Pitches and seven-bit data values of the MIDI protocol.

use vstd::prelude::*;

verus! {

/// Largest pitch number, and largest data value, that MIDI can carry.
pub const DATA_MAX: u8 = 127;

/// A pitch in the piano-key numbering of MIDI, from 0 to 127. Middle C is 60.
///
/// Notes are ordered by pitch.
#[derive(Clone, Copy, Debug, PartialEq, Eq, PartialOrd, Ord, Hash, Structural)]
pub struct Note {
    number: u8,
}

impl Note {
    #[verifier::type_invariant]
    closed spec fn in_range(self) -> bool {
        self.number <= DATA_MAX
    }

    /// The pitch number of this note.
    pub closed spec fn pitch(self) -> u8 {
        self.number
    }

    /// The note with the given pitch number.
    pub closed spec fn from_pitch(pitch: u8) -> Note {
        Note { number: pitch }
    }

    /// A note is its pitch number and nothing else.
    pub broadcast proof fn lemma_pitch_of_from_pitch(pitch: u8)
        ensures
            #[trigger] Note::from_pitch(pitch).pitch() == pitch,
    {
    }

    /// Two notes of one pitch are the same note.
    pub broadcast proof fn lemma_from_pitch_of_pitch(self)
        ensures
            Note::from_pitch(#[trigger] self.pitch()) == self,
    {
    }

    /// The note whose pitch number is the seven low bits of `number`.
    pub fn from_u8_lossy(number: u8) -> (note: Note)
        ensures
            note == Note::from_pitch(number % 128),
    {
        Note { number: number % 128 }
    }

    /// The note with pitch `number`, if `number` is at most 127.
    pub fn new(number: u8) -> (note: Option<Note>)
        ensures
            number <= DATA_MAX ==> note == Some(Note::from_pitch(number)),
            number > DATA_MAX ==> note is None,
    {
        if number <= DATA_MAX {
            Some(Note { number })
        } else {
            None
        }
    }

    /// The pitch number, which is at most 127.
    pub fn number(&self) -> (number: u8)
        ensures
            number == self.pitch(),
            number <= DATA_MAX,
    {
        proof {
            use_type_invariant(self);
        }
        self.number
    }
}

impl Default for Note {
    /// The lowest note, of pitch 0.
    fn default() -> (note: Note)
        ensures
            note == Note::from_pitch(0),
    {
        Note { number: 0 }
    }
}

/// A data byte of a MIDI message: seven bits, from 0 to 127.
#[derive(Clone, Copy, Debug, PartialEq, Eq, PartialOrd, Ord, Hash, Structural)]
pub struct U7 {
    data: u8,
}

/// How hard a key was struck or released.
pub type Velocity = U7;

/// The position of a controller.
pub type ControlValue = U7;

impl U7 {
    #[verifier::type_invariant]
    closed spec fn in_range(self) -> bool {
        self.data <= DATA_MAX
    }

    /// The number that this data byte carries.
    pub closed spec fn value(self) -> u8 {
        self.data
    }

    /// The data byte that carries `value`.
    pub closed spec fn from_value(value: u8) -> U7 {
        U7 { data: value }
    }

    /// A data byte is its value and nothing else.
    pub broadcast proof fn lemma_value_of_from_value(value: u8)
        ensures
            #[trigger] U7::from_value(value).value() == value,
    {
    }

    /// Two data bytes of one value are the same.
    pub broadcast proof fn lemma_from_value_of_value(self)
        ensures
            U7::from_value(#[trigger] self.value()) == self,
    {
    }

    /// The data byte that carries the seven low bits of `data`.
    pub fn from_u8_lossy(data: u8) -> (byte: U7)
        ensures
            byte == U7::from_value(data % 128),
    {
        U7 { data: data % 128 }
    }

    /// The data byte that carries `data`, if `data` is at most 127.
    pub fn new(data: u8) -> (byte: Option<U7>)
        ensures
            data <= DATA_MAX ==> byte == Some(U7::from_value(data)),
            data > DATA_MAX ==> byte is None,
    {
        if data <= DATA_MAX {
            Some(U7 { data })
        } else {
            None
        }
    }

    /// The number carried, which is at most 127.
    pub fn get(&self) -> (data: u8)
        ensures
            data == self.value(),
            data <= DATA_MAX,
    {
        proof {
            use_type_invariant(self);
        }
        self.data
    }
}

impl Default for U7 {
    /// The data byte that carries 0.
    fn default() -> (byte: U7)
        ensures
            byte == U7::from_value(0),
    {
        U7 { data: 0 }
    }
}

pub broadcast group group_note_axioms {
    Note::lemma_pitch_of_from_pitch,
    Note::lemma_from_pitch_of_pitch,
    U7::lemma_value_of_from_value,
    U7::lemma_from_value_of_value,
}

} // verus!
