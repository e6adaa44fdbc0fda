//! What the maker states of a keyboard module.

use crate::note::Note;
use crate::voltage::Voltage;
use vstd::prelude::*;

verus! {

/// The figures of a keyboard module: the voltage of its lowest key, the range
/// of its keys and the voltage of one octave.
#[derive(Clone, Copy, Debug, PartialEq, Eq)]
pub struct KeyboardSpec {
    low_key_voltage: Voltage,
    lowest: Note,
    highest: Note,
    volts_per_octave: Voltage,
}

impl KeyboardSpec {
    #[verifier::type_invariant]
    closed spec fn well_formed(self) -> bool {
        self.lowest.pitch() <= self.highest.pitch()
    }

    /// The voltage of the lowest key.
    pub closed spec fn low_key(self) -> Voltage {
        self.low_key_voltage
    }

    /// The lowest and the highest key.
    pub closed spec fn keys(self) -> (Note, Note) {
        (self.lowest, self.highest)
    }

    /// The voltage of one octave.
    pub closed spec fn per_octave(self) -> Voltage {
        self.volts_per_octave
    }

    /// The figures of a keyboard with the keys from `lowest` up to
    /// `highest`. There has to be at least one key.
    pub fn new(low_key_voltage: Voltage, lowest: Note, highest: Note, volts_per_octave: Voltage) -> (spec:
        KeyboardSpec)
        requires
            lowest.pitch() <= highest.pitch(),
        ensures
            spec.low_key() == low_key_voltage,
            spec.keys() == (lowest, highest),
            spec.per_octave() == volts_per_octave,
    {
        KeyboardSpec { low_key_voltage, lowest, highest, volts_per_octave }
    }

    /// The lowest and the highest key, in this order: the lowest is not
    /// above the highest.
    pub fn playable_notes(&self) -> (range: (Note, Note))
        ensures
            range == self.keys(),
            range.0.pitch() <= range.1.pitch(),
    {
        proof {
            use_type_invariant(self);
        }
        (self.lowest, self.highest)
    }

    /// The voltage of one octave.
    pub fn volts_per_octave(&self) -> (voltage: Voltage)
        ensures
            voltage == self.per_octave(),
    {
        self.volts_per_octave
    }
}

} // verus!
