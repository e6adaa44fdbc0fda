//! The messages that the pipeline takes in, decoded from the bytes of a
//! USB-MIDI stream.

use crate::note::{ControlValue, Note, Velocity, U7};
use vstd::prelude::*;
use vstd::slice::slice_subrange;

verus! {

/// The controller number of Portamento Time.
pub const PORTAMENTO_TIME: u8 = 5;

/// How many bytes one USB-MIDI event packet has.
pub const PACKET_SIZE: usize = 4;

/// A decoded MIDI message, as far as the pipeline tells messages apart.
#[derive(Clone, Copy, Debug, PartialEq, Eq, Structural)]
pub enum MidiEvent {
    /// A key was released.
    NoteOff { channel: u8, note: Note, velocity: Velocity },
    /// A key was struck.
    NoteOn { channel: u8, note: Note, velocity: Velocity },
    /// A controller moved.
    ControlChange { channel: u8, function: U7, value: ControlValue },
    /// Any other well-formed message.
    Unsupported,
}

/// Whether `byte` is a data byte: one whose high bit is clear.
pub open spec fn is_data(byte: u8) -> bool {
    byte <= 127
}

/// The note or controller message that `bytes` start with, if they start
/// with one: a status byte of the kind, then two data bytes. A Note On of
/// velocity 0 is a Note Off.
pub open spec fn channel_voice(bytes: Seq<u8>) -> Option<MidiEvent> {
    if bytes.len() >= 3 && is_data(bytes[1]) && is_data(bytes[2]) {
        let channel = bytes[0] % 16;
        let kind = bytes[0] / 16;
        let note = Note::from_pitch(bytes[1]);
        let velocity = U7::from_value(bytes[2]);
        if kind == 0x8 || (kind == 0x9 && bytes[2] == 0) {
            Some(MidiEvent::NoteOff { channel, note, velocity })
        } else if kind == 0x9 {
            Some(MidiEvent::NoteOn { channel, note, velocity })
        } else if kind == 0xB {
            Some(
                MidiEvent::ControlChange {
                    channel,
                    function: U7::from_value(bytes[1]),
                    value: velocity,
                },
            )
        } else {
            None
        }
    } else {
        None
    }
}

/// Whether `bytes` start with a system exclusive message that is complete:
/// behind the status byte come data bytes only, up to the byte that ends the
/// message.
pub open spec fn is_system_exclusive(bytes: Seq<u8>) -> bool {
    exists|end: int|
        {
            &&& 1 <= end < bytes.len()
            &&& #[trigger] bytes[end] == 0xF7
            &&& forall|i: int| 1 <= i < end ==> is_data(#[trigger] bytes[i])
        }
}

/// Whether `bytes` start with a well-formed message that is neither a note
/// nor a controller message: a status byte, and the data bytes that its kind
/// asks for.
pub open spec fn is_other_message(bytes: Seq<u8>) -> bool {
    let status = bytes[0];
    let kind = status / 16;
    let one = bytes.len() >= 2 && is_data(bytes[1]);
    let two = one && bytes.len() >= 3 && is_data(bytes[2]);
    bytes.len() >= 1 && if kind == 0xA || kind == 0xE || status == 0xF2 {
        // polyphonic key pressure, pitch bend, song position
        two
    } else if kind == 0xC || kind == 0xD || status == 0xF1 || status == 0xF3 {
        // program change, channel pressure, time code, song select
        one
    } else if status == 0xF0 {
        is_system_exclusive(bytes)
    } else {
        // the real-time and the reserved messages, which are one byte; the
        // end of a system exclusive message alone is no message
        status >= 0xF4 && status != 0xF7
    }
}

/// What `bytes` start with: a note or controller message, another
/// well-formed message, or nothing that is a message.
pub open spec fn parsed(bytes: Seq<u8>) -> Option<MidiEvent> {
    if channel_voice(bytes) is Some {
        channel_voice(bytes)
    } else if is_other_message(bytes) {
        Some(MidiEvent::Unsupported)
    } else {
        None
    }
}

/// `wmidi::MidiMessage::from_bytes` on the three bytes of a packet, turned
/// into a `MidiEvent`: a Note Off, Note On or Control Change with its fields,
/// `Unsupported` for every other message that `wmidi` accepts, and nothing
/// where it rejects the bytes. `parsed` says which bytes give what.
#[verifier::external_body]
fn decode(bytes: &[u8]) -> (event: Option<MidiEvent>)
    requires
        bytes@.len() == 3,
    ensures
        event == parsed(bytes@),
{
    match wmidi::MidiMessage::from_bytes(bytes) {
        Ok(wmidi::MidiMessage::NoteOff(c, n, v)) => Some(
            MidiEvent::note_off(c.index(), u8::from(n), u8::from(v)),
        ),
        Ok(wmidi::MidiMessage::NoteOn(c, n, v)) => Some(
            MidiEvent::note_on(c.index(), u8::from(n), u8::from(v)),
        ),
        Ok(wmidi::MidiMessage::ControlChange(c, f, v)) => Some(
            MidiEvent::control_change(c.index(), u8::from(f), u8::from(v)),
        ),
        Ok(_) => Some(MidiEvent::Unsupported),
        Err(_) => None,
    }
}

/// The message of the packet that starts at `start` in `data`: the three
/// bytes behind the header of the packet.
pub fn decode_packet(data: &[u8], start: usize) -> (event: Option<MidiEvent>)
    requires
        start + PACKET_SIZE <= data.len(),
    ensures
        event == parsed(data@.subrange(start + 1, start + PACKET_SIZE)),
{
    decode(slice_subrange(data, start + 1, start + PACKET_SIZE))
}

/// The messages in the packets of `data`, in order. A packet is four bytes:
/// a header, which is passed over, and a message. A packet that holds no
/// message gives nothing, and bytes that do not fill a packet are dropped.
pub open spec fn messages_in(data: Seq<u8>) -> Seq<MidiEvent>
    decreases data.len(),
{
    if data.len() < PACKET_SIZE {
        Seq::empty()
    } else {
        let rest = messages_in(data.skip(PACKET_SIZE as int));
        match parsed(data.subrange(1, PACKET_SIZE as int)) {
            Some(event) => seq![event] + rest,
            None => rest,
        }
    }
}

/// Reads the messages out of bytes that are taken to be USB-MIDI event
/// packets.
pub fn bytes_to_midi_message_iterator(data: &[u8]) -> (messages: Vec<MidiEvent>)
    ensures
        messages@ == messages_in(data@),
{
    let mut messages: Vec<MidiEvent> = Vec::new();
    let mut start: usize = 0;
    assert(data@.skip(0) == data@);
    while data.len() - start >= PACKET_SIZE
        invariant
            start <= data.len(),
            messages@ + messages_in(data@.skip(start as int)) == messages_in(data@),
        decreases data.len() - start,
    {
        proof {
            let rest = data@.skip(start as int);
            assert(rest.subrange(1, PACKET_SIZE as int) == data@.subrange(
                start + 1,
                start + PACKET_SIZE,
            ));
            assert(rest.skip(PACKET_SIZE as int) == data@.skip(start + PACKET_SIZE));
        }
        let ghost before = messages@;
        match decode_packet(data, start) {
            Some(event) => {
                messages.push(event);
                assert(before.push(event) + messages_in(data@.skip(start + PACKET_SIZE)) == before
                    + (seq![event] + messages_in(data@.skip(start + PACKET_SIZE))));
            },
            None => {},
        }
        start += PACKET_SIZE;
    }
    messages
}

impl MidiEvent {
    /// A Note Off on `channel`, of the seven low bits of `pitch` and of
    /// `velocity`.
    pub fn note_off(channel: u8, pitch: u8, velocity: u8) -> (event: MidiEvent)
        ensures
            event == (MidiEvent::NoteOff {
                channel,
                note: Note::from_pitch(pitch % 128),
                velocity: U7::from_value(velocity % 128),
            }),
    {
        MidiEvent::NoteOff {
            channel,
            note: Note::from_u8_lossy(pitch),
            velocity: U7::from_u8_lossy(velocity),
        }
    }

    /// A Note On on `channel`, of the seven low bits of `pitch` and of
    /// `velocity`.
    pub fn note_on(channel: u8, pitch: u8, velocity: u8) -> (event: MidiEvent)
        ensures
            event == (MidiEvent::NoteOn {
                channel,
                note: Note::from_pitch(pitch % 128),
                velocity: U7::from_value(velocity % 128),
            }),
    {
        MidiEvent::NoteOn {
            channel,
            note: Note::from_u8_lossy(pitch),
            velocity: U7::from_u8_lossy(velocity),
        }
    }

    /// A Control Change on `channel`, of the seven low bits of `function` and
    /// of `value`.
    pub fn control_change(channel: u8, function: u8, value: u8) -> (event: MidiEvent)
        ensures
            event == (MidiEvent::ControlChange {
                channel,
                function: U7::from_value(function % 128),
                value: U7::from_value(value % 128),
            }),
    {
        MidiEvent::ControlChange {
            channel,
            function: U7::from_u8_lossy(function),
            value: U7::from_u8_lossy(value),
        }
    }

    /// Whether this is a Note On or a Note Off.
    pub open spec fn is_note(self) -> bool {
        self is NoteOn || self is NoteOff
    }
}

/// Whether `event` is a Note On or a Note Off.
pub fn is_note_event(event: &MidiEvent) -> (is_note: bool)
    ensures
        is_note == event.is_note(),
{
    match event {
        MidiEvent::NoteOff { .. } | MidiEvent::NoteOn { .. } => true,
        _ => false,
    }
}

} // verus!
