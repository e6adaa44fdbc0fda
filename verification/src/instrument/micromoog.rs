//! The Micromoog, a monophonic synthesizer with a keyboard of two and a half
//! octaves, from F3 to C6, that follows one volt per octave.

use crate::activated_notes::{lemma_without_members, with_note, without, ActivatedNotes};
use crate::configuration::keyboard::{key_voltage, lemma_provided_is_held, ProvideNote};
use crate::configuration::{
    Config, EnvelopeTrigger, InputMode, InstrumentConfig, NoteEmbargo, NotePriority,
};
use crate::io::{ControlVoltage, Gate, GateState, Midi};
use crate::midi::{MidiEvent, PORTAMENTO_TIME};
use crate::note::{ControlValue, Note, U7};
use crate::time::{micros_of, Instant};
use crate::voltage::{Voltage, HALF_STEPS_PER_OCTAVE};
use vstd::prelude::*;

verus! {

/// The pitch of the lowest key, F3.
pub const LOWEST_KEY: u8 = 53;

/// The pitch of the highest key, C6.
pub const HIGHEST_KEY: u8 = 84;

/// The voltage of one octave, in microvolts.
pub const MICROVOLTS_PER_OCTAVE: i64 = 1_000_000;

/// Whether `note` is a key of the Micromoog.
pub open spec fn is_key(note: Note) -> bool {
    LOWEST_KEY <= note.pitch() <= HIGHEST_KEY
}

/// What an instrument knows, as its contracts see it. Times are in
/// microseconds.
pub struct MicromoogView {
    /// The settings.
    pub config: InstrumentConfig,
    /// The held keys, oldest first.
    pub held: Seq<Note>,
    /// The note to play.
    pub current_note: Note,
    /// When a key was last released, or struck and taken.
    pub updated_at: Option<int>,
    /// Until when note events are held back.
    pub embargo_expiry: Option<int>,
    /// The position of the Portamento Time controller.
    pub portamento_time: ControlValue,
}

/// The settings that an instrument starts with: the envelope is triggered
/// when a break ends, the keyboard takes the notes, no note is held back and
/// the lowest held key sounds.
pub open spec fn initial_config() -> InstrumentConfig {
    InstrumentConfig {
        envelope_trigger: EnvelopeTrigger::BreakEnd,
        input_mode: InputMode::Keyboard,
        note_embargo: NoteEmbargo::Disabled,
        note_priority: NotePriority::Low,
    }
}

/// An instrument with the settings `config` on which nothing was played
/// yet: no key is held, and the note to play is the lowest key.
pub open spec fn initial(config: InstrumentConfig) -> MicromoogView {
    MicromoogView {
        config,
        held: Seq::<Note>::empty(),
        current_note: Note::from_pitch(LOWEST_KEY),
        updated_at: None,
        embargo_expiry: None,
        portamento_time: U7::from_value(0),
    }
}

/// Whether `msg` plays a key: whether it is a Note On or a Note Off of a
/// note that is a key. A note that is no key is as good as none.
pub open spec fn plays_key(msg: MidiEvent) -> bool {
    match msg {
        MidiEvent::NoteOn { note, .. } => is_key(note),
        MidiEvent::NoteOff { note, .. } => is_key(note),
        _ => false,
    }
}

/// What `msg` does to the keys and the controllers, whatever the embargo:
/// a Note On or Note Off of a key strikes or releases it, Portamento Time
/// sets its controller, and every other message passes unnoticed, a note
/// that is no key among them. `updated_at` follows each release of a key,
/// and each strike that the record took.
pub open spec fn taken_in(before: MicromoogView, msg: MidiEvent, now: int) -> MicromoogView {
    match msg {
        MidiEvent::ControlChange { function, value, .. } => if function.value() == PORTAMENTO_TIME {
            MicromoogView { portamento_time: value, ..before }
        } else {
            before
        },
        MidiEvent::NoteOff { note, .. } => if is_key(note) {
            MicromoogView { held: without(before.held, note), updated_at: Some(now), ..before }
        } else {
            before
        },
        MidiEvent::NoteOn { note, .. } => if is_key(note) && with_note(before.held, note)
            != before.held {
            MicromoogView { held: with_note(before.held, note), updated_at: Some(now), ..before }
        } else {
            before
        },
        MidiEvent::Unsupported => before,
    }
}

/// Until when note events are held back once a message was taken in at
/// `now`. Without an embargo, never. A note event on a key opens a window of
/// the embargo's length at `now`, whether it changes the held keys or not,
/// unless `now` falls into the window that is open: a window is never
/// extended. Every other message leaves the window as it is.
pub open spec fn embargo_after(
    embargo: NoteEmbargo,
    on_key: bool,
    now: int,
    expiry: Option<int>,
) -> Option<int> {
    if embargo == NoteEmbargo::Disabled {
        None
    } else if on_key && (expiry is None || now > expiry.unwrap()) {
        Some(now + embargo.window())
    } else {
        expiry
    }
}

/// The instrument after it took in `msg` at `now`.
pub open spec fn received(before: MicromoogView, msg: MidiEvent, now: int) -> MicromoogView {
    MicromoogView {
        embargo_expiry: embargo_after(
            before.config.note_embargo,
            plays_key(msg),
            now,
            before.embargo_expiry,
        ),
        ..taken_in(before, msg, now)
    }
}

/// A message that plays no key leaves the keys and the embargo alone: the
/// held keys stay as they are, in their order, and so do the time of their
/// last change and the time until which note events are held back, if they
/// are held back at all. A note below or above the keyboard is such a
/// message.
pub proof fn lemma_no_key_no_window(before: MicromoogView, msg: MidiEvent, now: int)
    requires
        !plays_key(msg),
    ensures
        received(before, msg, now).held == before.held,
        received(before, msg, now).updated_at == before.updated_at,
        received(before, msg, now).embargo_expiry == if before.config.note_embargo
            == NoteEmbargo::Disabled {
            None
        } else {
            before.embargo_expiry
        },
{
}

/// Under an embargo every note event on a key is held back: until the end of
/// the window that is open where it arrives within one, and else until one
/// window length after its arrival. It is never held back to a time before
/// its arrival.
pub proof fn lemma_key_is_held_back(before: MicromoogView, msg: MidiEvent, now: int)
    requires
        before.config.note_embargo != NoteEmbargo::Disabled,
        plays_key(msg),
    ensures
        received(before, msg, now).embargo_expiry is Some,
        received(before, msg, now).embargo_expiry.unwrap() >= now,
        before.embargo_expiry is Some && now <= before.embargo_expiry.unwrap() ==> received(
            before,
            msg,
            now,
        ).embargo_expiry == before.embargo_expiry,
        before.embargo_expiry is None || now > before.embargo_expiry.unwrap() ==> received(
            before,
            msg,
            now,
        ).embargo_expiry == Some(now + before.config.note_embargo.window()),
{
}

/// Without an embargo nothing is held back, whatever the message and
/// whenever it arrives: no time to wait until is given or kept, and a note
/// event is applied to the held keys on the spot.
pub proof fn lemma_disabled_holds_nothing_back(before: MicromoogView, msg: MidiEvent, now: int)
    requires
        before.config.note_embargo == NoteEmbargo::Disabled,
    ensures
        received(before, msg, now).embargo_expiry is None,
        received(before, msg, now).held == taken_in(before, msg, now).held,
        msg is NoteOn && is_key(msg->NoteOn_note) ==> received(before, msg, now).held
            == with_note(before.held, msg->NoteOn_note),
        msg is NoteOff && is_key(msg->NoteOff_note) ==> received(before, msg, now).held
            == without(before.held, msg->NoteOff_note),
{
}

/// The instrument after it chose the note to play: the pick of the note
/// priority among the held keys. With no key held the note stays, as the
/// oscillator keeps its pitch when all keys are released.
pub open spec fn computed(before: MicromoogView) -> MicromoogView {
    match before.config.note_priority.provided(before.held) {
        Some(note) => MicromoogView { current_note: note, ..before },
        None => before,
    }
}

struct State {
    activated_notes: ActivatedNotes,
    current_note: Note,
    updated_at: Option<Instant>,
    embargo_expiry: Option<Instant>,
    portamento_time: ControlValue,
}

/// A Micromoog: its settings, its held keys and the note it plays.
pub struct Micromoog {
    config: InstrumentConfig,
    state: State,
}

impl View for Micromoog {
    type V = MicromoogView;

    closed spec fn view(&self) -> MicromoogView {
        MicromoogView {
            config: self.config,
            held: self.state.activated_notes@,
            current_note: self.state.current_note,
            updated_at: micros_of(self.state.updated_at),
            embargo_expiry: micros_of(self.state.embargo_expiry),
            portamento_time: self.state.portamento_time,
        }
    }
}

impl State {
    #[verifier::type_invariant]
    closed spec fn well_formed(self) -> bool {
        &&& is_key(self.current_note)
        &&& forall|note: Note| self.activated_notes@.contains(note) ==> is_key(note)
    }
}

impl Micromoog {
    /// An instrument with the settings `config`: no key is held, and the
    /// note to play is the lowest key.
    pub fn new(config: InstrumentConfig) -> (instrument: Micromoog)
        ensures
            instrument@ == initial(config),
    {
        broadcast use crate::note::group_note_axioms;

        Micromoog {
            config,
            state: State {
                activated_notes: ActivatedNotes::new(),
                current_note: Note::from_u8_lossy(LOWEST_KEY),
                updated_at: None,
                embargo_expiry: None,
                portamento_time: U7::default(),
            },
        }
    }

    /// The held keys, all of them keys of the Micromoog.
    pub fn activated_notes(&self) -> (notes: ActivatedNotes)
        ensures
            notes@ == self@.held,
            forall|note: Note| notes@.contains(note) ==> is_key(note),
    {
        proof {
            use_type_invariant(&self.state);
        }
        self.state.activated_notes
    }

    /// The note to play, a key of the Micromoog.
    pub fn current_note(&self) -> (note: Note)
        ensures
            note == self@.current_note,
            is_key(note),
    {
        proof {
            use_type_invariant(&self.state);
        }
        self.state.current_note
    }

    /// When a key was last released, or struck and taken.
    pub fn updated_at(&self) -> (at: Option<Instant>)
        ensures
            micros_of(at) == self@.updated_at,
    {
        self.state.updated_at
    }

    /// Until when note events are held back.
    pub fn embargo_expiry(&self) -> (expiry: Option<Instant>)
        ensures
            micros_of(expiry) == self@.embargo_expiry,
    {
        self.state.embargo_expiry
    }

    /// The position of the Portamento Time controller.
    pub fn portamento_time(&self) -> (time: ControlValue)
        ensures
            time == self@.portamento_time,
    {
        self.state.portamento_time
    }
}

impl Default for Micromoog {
    /// An instrument with the settings of `initial_config`, on which nothing
    /// was played yet.
    fn default() -> (instrument: Micromoog)
        ensures
            instrument@ == initial(initial_config()),
    {
        Micromoog::new(
            InstrumentConfig {
                envelope_trigger: EnvelopeTrigger::BreakEnd,
                input_mode: InputMode::default(),
                note_embargo: NoteEmbargo::Disabled,
                note_priority: NotePriority::Low,
            },
        )
    }
}

impl Config for Micromoog {
    closed spec fn settings(&self) -> InstrumentConfig {
        self.config
    }

    fn config(&self) -> (config: &InstrumentConfig)
        ensures
            *config == self@.config,
    {
        &self.config
    }

    fn config_mut(&mut self) -> (config: &mut InstrumentConfig)
        ensures
            *config == old(self)@.config,
            final(self)@ == (MicromoogView { config: *final(config), ..old(self)@ }),
    {
        &mut self.config
    }
}

impl Gate for Micromoog {
    closed spec fn sounding(&self) -> bool {
        self.state.activated_notes@.len() > 0
    }

    fn gate_state(&self) -> (level: GateState)
        ensures
            level == if self@.held.len() > 0 {
                GateState::High
            } else {
                GateState::Low
            },
    {
        if self.state.activated_notes.is_empty() {
            GateState::Low
        } else {
            GateState::High
        }
    }
}

impl ControlVoltage for Micromoog {
    open spec fn range(&self) -> (Note, Note) {
        (Note::from_pitch(LOWEST_KEY), Note::from_pitch(HIGHEST_KEY))
    }

    fn current_note_to_voltage(&self) -> (voltage: Voltage)
        ensures
            voltage@ == key_voltage(
                self@.current_note.pitch() as int,
                LOWEST_KEY as int,
                MICROVOLTS_PER_OCTAVE as int,
            ),
    {
        proof {
            use_type_invariant(&self.state);
        }
        let nth_key: u8 = self.state.current_note.number() - LOWEST_KEY;
        assert((MICROVOLTS_PER_OCTAVE * nth_key) / 12 <= 3_000_000) by (nonlinear_arith)
            requires
                0 <= nth_key <= 31,
        ;
        self.volts_per_octave().scale(nth_key as u64, HALF_STEPS_PER_OCTAVE)
    }

    fn playable_notes(&self) -> (range: (Note, Note)) {
        (Note::from_u8_lossy(LOWEST_KEY), Note::from_u8_lossy(HIGHEST_KEY))
    }

    fn volts_per_octave(&self) -> (voltage: Voltage)
        ensures
            voltage@ == MICROVOLTS_PER_OCTAVE,
    {
        Voltage::from_microvolts(MICROVOLTS_PER_OCTAVE)
    }
}

impl Midi for Micromoog {
    open spec fn embargoes(&self) -> bool {
        self@.config.note_embargo != NoteEmbargo::Disabled
    }

    fn compute_state(&mut self)
        ensures
            final(self)@ == computed(old(self)@),
    {
        proof {
            use_type_invariant(&self.state);
            lemma_provided_is_held(self.config.note_priority, self@.held);
        }
        let provided = self.config.note_priority.provide_note(self.state.activated_notes.get());
        if let Some(note) = provided {
            self.state.current_note = note;
        }
    }

    fn receive_midi(&mut self, msg: MidiEvent, now: Instant) -> (hold_until: Option<Instant>)
        ensures
            final(self)@ == received(old(self)@, msg, now@),
            micros_of(hold_until) == final(self)@.embargo_expiry,
    {
        broadcast use crate::note::group_note_axioms;

        proof {
            use_type_invariant(&self.state);
        }
        let mut notes = self.state.activated_notes;
        let mut updated_at = self.state.updated_at;
        let mut portamento_time = self.state.portamento_time;
        let mut on_key = false;
        match msg {
            MidiEvent::ControlChange { channel: _, function, value } => {
                if function.get() == PORTAMENTO_TIME {
                    portamento_time = value;
                }
            },
            MidiEvent::NoteOff { channel: _, note, velocity: _ } => {
                if self.can_voice(&note) {
                    proof {
                        lemma_without_members(notes@, note);
                    }
                    notes.remove(note);
                    updated_at = Some(now);
                    on_key = true;
                }
            },
            MidiEvent::NoteOn { channel: _, note, velocity: _ } => {
                if self.can_voice(&note) {
                    let count: usize = notes.len();
                    notes.add(note);
                    if notes.len() != count {
                        updated_at = Some(now);
                    }
                    on_key = true;
                }
            },
            MidiEvent::Unsupported => {},
        }
        let embargo = self.config.note_embargo;
        let mut expiry = self.state.embargo_expiry;
        if !embargo.is_enabled() {
            expiry = None;
        } else if on_key {
            let opens = match expiry {
                None => true,
                Some(open_until) => now.is_after(open_until),
            };
            if opens {
                expiry = Some(now.plus(embargo.duration()));
            }
        }
        self.state = State {
            activated_notes: notes,
            current_note: self.state.current_note,
            updated_at,
            embargo_expiry: expiry,
            portamento_time,
        };
        expiry
    }
}

} // verus!
