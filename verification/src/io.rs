//! What an instrument takes in and gives out: MIDI on one side, a gate and a
//! control voltage on the other.
//!
//! Taking a message in and expressing it are kept apart: not every message
//! has an immediate expression, and the notes of a chord arrive one by one.

use crate::configuration::THIRTY_SECOND_NOTE_MICROS;
use crate::midi::MidiEvent;
use crate::note::Note;
use crate::time::Instant;
use crate::voltage::Voltage;
use vstd::prelude::*;

verus! {

/// The level of a gate signal.
#[derive(Debug, Clone, Copy, PartialEq, Eq, Structural)]
pub enum GateState {
    /// The signal is low: no note sounds.
    Low,
    /// The signal is high: a note sounds.
    High,
}

/// Switching an instrument on and off with a gate signal.
pub trait Gate {
    /// Whether a note is to sound.
    spec fn sounding(&self) -> bool;

    /// The level that the signal is to have.
    fn gate_state(&self) -> (level: GateState)
        ensures
            level == if self.sounding() {
                GateState::High
            } else {
                GateState::Low
            },
    ;
}

/// Playing a note on an instrument by a control voltage.
pub trait ControlVoltage {
    /// The lowest and the highest note that the instrument plays.
    spec fn range(&self) -> (Note, Note);

    /// The note to play, as a voltage.
    fn current_note_to_voltage(&self) -> Voltage;

    /// The lowest and the highest note that the instrument plays, in this
    /// order.
    fn playable_notes(&self) -> (range: (Note, Note))
        ensures
            range == self.range(),
    ;

    /// The voltage that raises the pitch by one octave.
    fn volts_per_octave(&self) -> Voltage;

    /// Whether the instrument plays `note`.
    fn can_voice(&self, note: &Note) -> (can: bool)
        ensures
            can == (self.range().0.pitch() <= note.pitch() <= self.range().1.pitch()),
    {
        let (lowest, highest) = self.playable_notes();
        lowest.number() <= note.number() && note.number() <= highest.number()
    }
}

/// Taking MIDI messages in.
pub trait Midi {
    /// Whether the instrument holds note events back at present.
    spec fn embargoes(&self) -> bool;

    /// Works out what follows from the messages taken in so far and from
    /// the settings: above all the note to play. A whole chord can so be
    /// taken in before the note is chosen.
    fn compute_state(&mut self);

    /// Takes in the message `msg`, which arrived at `now`. Gives the time
    /// until which the notes taken in are to be held back, if they are. An
    /// instrument that holds note events back needs room on the clock for
    /// one window behind `now`.
    fn receive_midi(&mut self, msg: MidiEvent, now: Instant) -> Option<Instant>
        requires
            old(self).embargoes() ==> now@ + THIRTY_SECOND_NOTE_MICROS <= u64::MAX,
    ;
}

} // verus!
