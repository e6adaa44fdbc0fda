//! The modules of a synthesizer, as far as the adapter has to know them.

pub mod keyboard;
