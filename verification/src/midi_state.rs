//! What the MIDI received so far amounts to: the held notes and the
//! positions of the controllers.
//!
//! The state keeps what later decisions need, in the form that suits them: a
//! Note Off is not stored, it takes its note off the record of held notes.

pub mod portamento;

pub use crate::activated_notes::ActivatedNotes;
pub use portamento::Portamento;

use crate::activated_notes::{with_note, without};
use crate::midi::{channel_voice, decode_packet, MidiEvent, PACKET_SIZE, PORTAMENTO_TIME};
use crate::note::Note;
use vstd::prelude::*;

verus! {

/// What an update of the state touched.
#[derive(Clone, Copy, Debug, PartialEq, Eq, Structural)]
pub enum Operation {
    /// Nothing was touched.
    NoChange,
    /// A note was struck or released.
    NoteChange,
    /// A portamento controller moved.
    PortamentoChange,
    /// A note was struck or released, and a portamento controller moved.
    NoteAndPortamentoChange,
}

impl Operation {
    /// Whether a note was struck or released.
    pub open spec fn notes(self) -> bool {
        self == Operation::NoteChange || self == Operation::NoteAndPortamentoChange
    }

    /// Whether a portamento controller moved.
    pub open spec fn portamento(self) -> bool {
        self == Operation::PortamentoChange || self == Operation::NoteAndPortamentoChange
    }

    /// The operation that touched `notes` and `portamento`, each or not.
    pub open spec fn of(notes: bool, portamento: bool) -> Operation {
        if notes && portamento {
            Operation::NoteAndPortamentoChange
        } else if notes {
            Operation::NoteChange
        } else if portamento {
            Operation::PortamentoChange
        } else {
            Operation::NoChange
        }
    }

    /// What `self` and `other` touched together.
    pub open spec fn joined(self, other: Operation) -> Operation {
        Operation::of(self.notes() || other.notes(), self.portamento() || other.portamento())
    }

    /// The operation that touched nothing.
    pub fn none() -> (operation: Operation)
        ensures
            operation == Operation::NoChange,
    {
        Operation::NoChange
    }

    /// The operation that touched everything.
    pub fn all() -> (operation: Operation)
        ensures
            operation == Operation::NoteAndPortamentoChange,
    {
        Operation::NoteAndPortamentoChange
    }

    /// One bit for each kind of change: 1 for the notes, 2 for the
    /// portamento.
    pub fn bits(&self) -> (bits: u8)
        ensures
            bits == (if self.notes() { 1int } else { 0int }) + (if self.portamento() { 2int } else { 0int }),
    {
        match self {
            Operation::NoChange => 0,
            Operation::NoteChange => 1,
            Operation::PortamentoChange => 2,
            Operation::NoteAndPortamentoChange => 3,
        }
    }

    /// Whether nothing was touched.
    pub fn is_none(&self) -> (nothing: bool)
        ensures
            nothing == (*self == Operation::NoChange),
    {
        match self {
            Operation::NoChange => true,
            _ => false,
        }
    }

    /// Whether this operation touched all that `other` touched.
    pub fn contains(&self, other: Operation) -> (all: bool)
        ensures
            all == ((other.notes() ==> self.notes()) && (other.portamento() ==> self.portamento())),
    {
        let notes: bool = match other {
            Operation::NoteChange | Operation::NoteAndPortamentoChange => match self {
                Operation::NoteChange | Operation::NoteAndPortamentoChange => true,
                _ => false,
            },
            _ => true,
        };
        let portamento: bool = match other {
            Operation::PortamentoChange | Operation::NoteAndPortamentoChange => match self {
                Operation::PortamentoChange | Operation::NoteAndPortamentoChange => true,
                _ => false,
            },
            _ => true,
        };
        notes && portamento
    }

    /// What this operation and `other` touched together.
    pub fn union(self, other: Operation) -> (both: Operation)
        ensures
            both == self.joined(other),
    {
        match (self, other) {
            (Operation::NoChange, _) => other,
            (_, Operation::NoChange) => self,
            (Operation::NoteChange, Operation::NoteChange) => Operation::NoteChange,
            (Operation::PortamentoChange, Operation::PortamentoChange) => Operation::PortamentoChange,
            _ => Operation::NoteAndPortamentoChange,
        }
    }
}

impl core::ops::BitOr for Operation {
    type Output = Operation;

    fn bitor(self, other: Operation) -> (both: Operation) {
        self.union(other)
    }
}

impl vstd::std_specs::ops::BitOrSpecImpl for Operation {
    open spec fn obeys_bitor_spec() -> bool {
        true
    }

    open spec fn bitor_req(self, other: Operation) -> bool {
        true
    }

    open spec fn bitor_spec(self, other: Operation) -> Operation {
        self.joined(other)
    }
}

/// The state as the contracts see it.
pub struct MidiStateView {
    /// The held notes, oldest first.
    pub activated_notes: Seq<Note>,
    /// The positions of the portamento controllers.
    pub portamento: Portamento,
}

/// What `event` touches.
pub open spec fn operation_of(event: MidiEvent) -> Operation {
    match event {
        MidiEvent::ControlChange { function, .. } => if function.value() == PORTAMENTO_TIME {
            Operation::PortamentoChange
        } else {
            Operation::NoChange
        },
        MidiEvent::NoteOff { .. } => Operation::NoteChange,
        MidiEvent::NoteOn { .. } => Operation::NoteChange,
        MidiEvent::Unsupported => Operation::NoChange,
    }
}

/// The state after `event`: a Note On strikes its note, a Note Off releases
/// it, Portamento Time sets its controller, and nothing else changes
/// anything.
pub open spec fn applied(state: MidiStateView, event: MidiEvent) -> MidiStateView {
    match event {
        MidiEvent::ControlChange { function, value, .. } => if function.value() == PORTAMENTO_TIME {
            MidiStateView { portamento: state.portamento.with_time(value), ..state }
        } else {
            state
        },
        MidiEvent::NoteOff { note, .. } => MidiStateView {
            activated_notes: without(state.activated_notes, note),
            ..state
        },
        MidiEvent::NoteOn { note, .. } => MidiStateView {
            activated_notes: with_note(state.activated_notes, note),
            ..state
        },
        MidiEvent::Unsupported => state,
    }
}

/// The state after the packets of `data`, taken in order. A packet is four
/// bytes: a header, which is passed over, and a message. Only the notes and
/// controllers of `channel_voice` change anything. Bytes that do not fill a
/// packet are dropped.
pub open spec fn updated(state: MidiStateView, data: Seq<u8>) -> MidiStateView
    decreases data.len(),
{
    if data.len() < PACKET_SIZE {
        state
    } else {
        let next = match channel_voice(data.subrange(1, PACKET_SIZE as int)) {
            Some(event) => applied(state, event),
            None => state,
        };
        updated(next, data.skip(PACKET_SIZE as int))
    }
}

/// What the packets of `data` touch, all together.
pub open spec fn operations_in(data: Seq<u8>) -> Operation
    decreases data.len(),
{
    if data.len() < PACKET_SIZE {
        Operation::NoChange
    } else {
        let first = match channel_voice(data.subrange(1, PACKET_SIZE as int)) {
            Some(event) => operation_of(event),
            None => Operation::NoChange,
        };
        first.joined(operations_in(data.skip(PACKET_SIZE as int)))
    }
}

/// The MIDI received so far, in the form that the voicing needs.
#[derive(Clone, Copy, Debug, PartialEq)]
pub struct MidiState {
    /// The notes that are held.
    pub activated_notes: ActivatedNotes,
    /// The positions of the portamento controllers.
    pub portamento: Portamento,
}

impl View for MidiState {
    type V = MidiStateView;

    open spec fn view(&self) -> MidiStateView {
        MidiStateView { activated_notes: self.activated_notes@, portamento: self.portamento }
    }
}

impl Default for MidiState {
    /// No note is held, and the controllers are where `Portamento::default`
    /// puts them.
    fn default() -> (state: MidiState)
        ensures
            state@ == (MidiStateView {
                activated_notes: Seq::<Note>::empty(),
                portamento: Portamento::initial(),
            }),
    {
        MidiState { activated_notes: ActivatedNotes::new(), portamento: Portamento::default() }
    }
}

impl MidiState {
    /// Takes in one message and tells what it touched.
    pub fn apply(&mut self, event: MidiEvent) -> (operation: Operation)
        ensures
            final(self)@ == applied(old(self)@, event),
            operation == operation_of(event),
    {
        match event {
            MidiEvent::ControlChange { channel: _, function, value } => {
                if function.get() == PORTAMENTO_TIME {
                    self.portamento.set_time(value);
                    Operation::PortamentoChange
                } else {
                    Operation::NoChange
                }
            },
            MidiEvent::NoteOff { channel: _, note, velocity: _ } => {
                self.activated_notes.remove(note);
                Operation::NoteChange
            },
            MidiEvent::NoteOn { channel: _, note, velocity: _ } => {
                self.activated_notes.add(note);
                Operation::NoteChange
            },
            MidiEvent::Unsupported => Operation::NoChange,
        }
    }

    /// Takes in the USB-MIDI event packets of `data`, one after the other,
    /// and tells what they touched.
    pub fn update(&mut self, data: &[u8]) -> (operation: Operation)
        ensures
            final(self)@ == updated(old(self)@, data@),
            operation == operations_in(data@),
    {
        let mut operation = Operation::none();
        let mut start: usize = 0;
        assert(data@.skip(0) == data@);
        while data.len() - start >= PACKET_SIZE
            invariant
                start <= data.len(),
                updated(self@, data@.skip(start as int)) == updated(old(self)@, data@),
                operation.joined(operations_in(data@.skip(start as int))) == operations_in(data@),
            decreases data.len() - start,
        {
            proof {
                let rest = data@.skip(start as int);
                assert(rest.subrange(1, PACKET_SIZE as int) == data@.subrange(
                    start + 1,
                    start + PACKET_SIZE,
                ));
                assert(rest.skip(PACKET_SIZE as int) == data@.skip(start + PACKET_SIZE));
            }
            match decode_packet(data, start) {
                Some(event) => {
                    let touched = self.apply(event);
                    operation = operation.union(touched);
                },
                None => {},
            }
            start += PACKET_SIZE;
        }
        operation
    }
}

} // verus!
