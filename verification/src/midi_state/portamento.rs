//! The MIDI controllers of the portamento effect, as last received.

use crate::note::{ControlValue, Note, U7};
use vstd::prelude::*;

verus! {

/// The positions of the portamento controllers.
#[derive(Clone, Copy, Debug, PartialEq, Eq, Structural)]
pub struct Portamento {
    /// Controller 65, Portamento On/Off.
    enabled: bool,
    /// Controller 84, Portamento Control: the note to glide from, in place of
    /// the last one played.
    origin_override: Option<Note>,
    /// Controller 5, Portamento Time.
    time: ControlValue,
    /// Controller 37, the low bits of Portamento Time.
    time_lsb: Option<ControlValue>,
}

impl Portamento {
    /// Whether portamento is on.
    pub closed spec fn is_on(self) -> bool {
        self.enabled
    }

    /// The note to glide from in place of the last one played, if one is
    /// set.
    pub closed spec fn origin(self) -> Option<Note> {
        self.origin_override
    }

    /// The position of Portamento Time.
    pub closed spec fn time_value(self) -> ControlValue {
        self.time
    }

    /// The low bits of Portamento Time, if they were received.
    pub closed spec fn time_low_bits(self) -> Option<ControlValue> {
        self.time_lsb
    }

    /// These controllers are their four positions and nothing else.
    pub broadcast proof fn lemma_positions(self, other: Portamento)
        ensures
            #[trigger] self.is_on() == #[trigger] other.is_on() && self.origin() == other.origin()
                && self.time_value() == other.time_value() && self.time_low_bits()
                == other.time_low_bits() ==> self == other,
    {
    }

    /// These controllers with Portamento Time at `time`.
    pub closed spec fn with_time(self, time: ControlValue) -> Portamento {
        Portamento { time, ..self }
    }

    /// The controllers before any message moved them: portamento is on,
    /// nothing overrides the note to glide from, and Portamento Time is at 0.
    pub closed spec fn initial() -> Portamento {
        Portamento {
            enabled: true,
            origin_override: None,
            time: U7::from_value(0),
            time_lsb: None,
        }
    }

    /// Before any message moved them, portamento is on, nothing overrides
    /// the note to glide from, Portamento Time is at 0 and its low bits were
    /// not received.
    pub broadcast proof fn lemma_initial()
        ensures
            #[trigger] Portamento::initial().is_on(),
            Portamento::initial().origin() is None,
            Portamento::initial().time_value() == U7::from_value(0),
            Portamento::initial().time_low_bits() is None,
    {
    }

    /// Portamento Time is what it was last set to, and setting it leaves the
    /// other controllers where they were.
    pub broadcast proof fn lemma_with_time(self, time: ControlValue)
        ensures
            #[trigger] self.with_time(time).time_value() == time,
            self.with_time(time).is_on() == self.is_on(),
            self.with_time(time).origin() == self.origin(),
            self.with_time(time).time_low_bits() == self.time_low_bits(),
    {
    }

    /// The controllers at the given positions.
    pub fn from_parts(
        enabled: bool,
        origin_override: Option<Note>,
        time: ControlValue,
        time_lsb: Option<ControlValue>,
    ) -> (controls: Portamento)
        ensures
            controls.is_on() == enabled,
            controls.origin() == origin_override,
            controls.time_value() == time,
            controls.time_low_bits() == time_lsb,
    {
        Portamento { enabled, origin_override, time, time_lsb }
    }

    /// Whether portamento is on.
    pub fn is_enabled(&self) -> (enabled: bool)
        ensures
            enabled == self.is_on(),
    {
        self.enabled
    }

    /// The note to glide from in place of the last one played, if one is
    /// set.
    pub fn origin_override(&self) -> (origin: Option<Note>)
        ensures
            origin == self.origin(),
    {
        self.origin_override
    }

    /// The low bits of Portamento Time, if they were received.
    pub fn time_lsb(&self) -> (low_bits: Option<ControlValue>)
        ensures
            low_bits == self.time_low_bits(),
    {
        self.time_lsb
    }

    /// The position of Portamento Time.
    pub fn time(&self) -> (time: ControlValue)
        ensures
            time == self.time_value(),
    {
        self.time
    }

    /// Sets the position of Portamento Time.
    pub fn set_time(&mut self, time: ControlValue)
        ensures
            *final(self) == old(self).with_time(time),
    {
        self.time = time;
    }
}

impl Default for Portamento {
    /// Portamento is on, with Portamento Time at 0.
    fn default() -> (controls: Portamento)
        ensures
            controls == Portamento::initial(),
    {
        Portamento {
            enabled: true,
            origin_override: None,
            time: U7::default(),
            time_lsb: None,
        }
    }
}

} // verus!
