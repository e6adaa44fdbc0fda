//! The instruments that the adapter can drive. So far there is one, the
//! Micromoog.

pub mod micromoog;

pub use micromoog::Micromoog;

use crate::configuration::keyboard::key_voltage;
use crate::configuration::{Config, InstrumentConfig};
use crate::instrument::micromoog::{
    computed, initial, initial_config, received, MicromoogView, LOWEST_KEY, MICROVOLTS_PER_OCTAVE,
};
use crate::io::{ControlVoltage, Gate, GateState, Midi};
use crate::midi::MidiEvent;
use crate::note::Note;
use crate::time::{micros_of, Instant};
use crate::voltage::Voltage;
use vstd::prelude::*;

verus! {

/// The instrument that receives what the adapter gives out. Whatever is asked
/// of it is asked of the instrument that it stands for.
pub enum Instrument {
    /// A Micromoog.
    Micromoog(Micromoog),
}

impl Instrument {
    /// The Micromoog that this instrument is.
    pub open spec fn micromoog(self) -> Micromoog {
        self->Micromoog_0
    }
}

impl Default for Instrument {
    /// A Micromoog with the settings that it starts with, on which nothing
    /// was played yet.
    fn default() -> (instrument: Instrument)
        ensures
            instrument.micromoog()@ == initial(initial_config()),
    {
        Instrument::Micromoog(Micromoog::default())
    }
}

impl Config for Instrument {
    open spec fn settings(&self) -> InstrumentConfig {
        self.micromoog().settings()
    }

    fn config(&self) -> (config: &InstrumentConfig)
        ensures
            *config == self.micromoog()@.config,
    {
        match self {
            Instrument::Micromoog(inner) => inner.config(),
        }
    }

    fn config_mut(&mut self) -> (config: &mut InstrumentConfig)
        ensures
            *config == old(self).micromoog()@.config,
            final(self).micromoog()@ == (MicromoogView {
                config: *final(config),
                ..old(self).micromoog()@
            }),
    {
        match self {
            Instrument::Micromoog(inner) => inner.config_mut(),
        }
    }
}

impl Gate for Instrument {
    open spec fn sounding(&self) -> bool {
        self.micromoog().sounding()
    }

    fn gate_state(&self) -> (level: GateState)
        ensures
            level == if self.micromoog()@.held.len() > 0 {
                GateState::High
            } else {
                GateState::Low
            },
    {
        match self {
            Instrument::Micromoog(inner) => inner.gate_state(),
        }
    }
}

impl ControlVoltage for Instrument {
    open spec fn range(&self) -> (Note, Note) {
        self.micromoog().range()
    }

    fn current_note_to_voltage(&self) -> (voltage: Voltage)
        ensures
            voltage@ == key_voltage(
                self.micromoog()@.current_note.pitch() as int,
                LOWEST_KEY as int,
                MICROVOLTS_PER_OCTAVE as int,
            ),
    {
        match self {
            Instrument::Micromoog(inner) => inner.current_note_to_voltage(),
        }
    }

    fn playable_notes(&self) -> (range: (Note, Note)) {
        match self {
            Instrument::Micromoog(inner) => inner.playable_notes(),
        }
    }

    fn volts_per_octave(&self) -> (voltage: Voltage)
        ensures
            voltage@ == MICROVOLTS_PER_OCTAVE,
    {
        match self {
            Instrument::Micromoog(inner) => inner.volts_per_octave(),
        }
    }
}

impl Midi for Instrument {
    open spec fn embargoes(&self) -> bool {
        self.micromoog().embargoes()
    }

    fn compute_state(&mut self)
        ensures
            final(self).micromoog()@ == computed(
                old(self).micromoog()@,
            ),
    {
        match self {
            Instrument::Micromoog(inner) => inner.compute_state(),
        }
    }

    fn receive_midi(&mut self, msg: MidiEvent, now: Instant) -> (hold_until: Option<Instant>)
        ensures
            final(self).micromoog()@ == received(
                old(self).micromoog()@,
                msg,
                now@,
            ),
            micros_of(hold_until) == final(self).micromoog()@.embargo_expiry,
    {
        match self {
            Instrument::Micromoog(inner) => inner.receive_midi(msg, now),
        }
    }
}

} // verus!
