//! Voicing pipeline for a monophonic analog synthesizer driven over MIDI.
//!
//! The crate turns a stream of MIDI channel-voice messages into the pitch
//! voltage and gate level of a control-voltage instrument: it tracks the held
//! notes, batches the notes of a chord into one commit, picks the note that
//! sounds and glides towards it.

pub mod activated_notes;
pub mod chord_cleanup;
pub mod configuration;
pub mod display;
pub mod instrument;
pub mod io;
pub mod midi;
pub mod midi_state;
pub mod module;
pub mod note;
pub mod portamento;
pub mod selection;
pub mod time;
pub mod voicing;
pub mod voltage;
