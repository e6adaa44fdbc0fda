//! Voicing: which of the held notes sounds, when a change of the held notes
//! may be acted on, and what goes out to the instrument.

use crate::activated_notes::ActivatedNotes;
use crate::configuration::keyboard::{Keyboard, ProvideNote};
use crate::configuration::{ChordCleanup, NotePriority, THIRTY_SECOND_NOTE_MICROS};
use crate::io::GateState;
use crate::midi_state::{MidiState, MidiStateView};
use crate::note::Note;
use crate::portamento::{glide_time, glide_voltage, Portamento};
use crate::selection::playable;
use crate::time::{group_time_fits, micros_of, Duration, Instant};
use crate::voltage::{dac_code, voltage_to_dac_value, Voltage, DAC_REFERENCE_MICROVOLTS};
use vstd::prelude::*;

verus! {

broadcast use group_time_fits;

/// The level of a gate signal while `notes` are held: high while any note is
/// held, low once all keys are released.
pub fn gate_level(notes: &ActivatedNotes) -> (level: GateState)
    ensures
        level == if notes@.len() == 0 {
            GateState::Low
        } else {
            GateState::High
        },
{
    if notes.is_empty() {
        GateState::Low
    } else {
        GateState::High
    }
}

/// The note that sounds once `provided` was chosen among the held notes,
/// where `voiced` sounded before. With no note to choose from, the note that
/// sounded goes on: when all keys are released the oscillator keeps its
/// pitch, and only its gate signal goes low.
pub fn voiced_note(provided: Option<Note>, voiced: Note) -> (note: Note)
    ensures
        note == match provided {
            Some(chosen) => chosen,
            None => voiced,
        },
{
    match provided {
        Some(chosen) => chosen,
        None => voiced,
    }
}

/// When the voicing is to follow a change of the notes, as the schedule
/// decides it, in microseconds. `start` is when the batch that is under way
/// began, if one is. The result is the start of the batch that is under way
/// afterwards, and the time at which the voicing is to be updated; `None`
/// where the update for the batch is scheduled already.
pub open spec fn scheduled(start: Option<int>, policy: ChordCleanup, now: int) -> (
    Option<int>,
    Option<int>,
) {
    if policy == ChordCleanup::Disabled {
        (None, Some(now))
    } else if start is Some && now <= start.unwrap() + policy.window() {
        (start, None)
    } else {
        (Some(now), Some(now + policy.window()))
    }
}

/// Without a policy the voicing follows every change of the notes at once,
/// whenever it arrives and whatever batch was under way: the voicing is due
/// at the time of the change, and no start of a batch is kept.
pub proof fn lemma_disabled_voices_at_once(start: Option<int>, now: int)
    ensures
        scheduled(start, ChordCleanup::Disabled, now) == (None::<int>, Some(now)),
{
}

/// Decides when the voicing follows a change of the notes. The notes are
/// committed as they arrive; what waits for the end of the chord-cleanup
/// window is the voicing.
#[derive(Clone, Copy, Debug, PartialEq, Eq)]
pub struct VoiceSchedule {
    chord_cleanup_start: Option<Instant>,
}

impl VoiceSchedule {
    #[verifier::type_invariant]
    closed spec fn well_formed(self) -> bool {
        self.chord_cleanup_start matches Some(start) ==> start@ + THIRTY_SECOND_NOTE_MICROS
            <= u64::MAX
    }

    /// When the batch that is under way began, in microseconds.
    pub closed spec fn start(self) -> Option<int> {
        micros_of(self.chord_cleanup_start)
    }

    /// A schedule with no batch under way.
    pub fn new() -> (schedule: VoiceSchedule)
        ensures
            schedule.start() is None,
    {
        VoiceSchedule { chord_cleanup_start: None }
    }

    /// Takes note of a change of the notes at `now`, and tells when the
    /// voicing is to be updated for it. With a policy there has to be room
    /// on the clock for one window behind `now`.
    pub fn note_change(&mut self, policy: ChordCleanup, now: Instant) -> (voice_at: Option<Instant>)
        requires
            policy != ChordCleanup::Disabled ==> now@ + THIRTY_SECOND_NOTE_MICROS <= u64::MAX,
        ensures
            (final(self).start(), micros_of(voice_at)) == scheduled(old(self).start(), policy, now@),
    {
        proof {
            use_type_invariant(&*self);
        }
        if !policy.is_enabled() {
            self.chord_cleanup_start = None;
            return Some(now);
        }
        let in_batch: bool = match self.chord_cleanup_start {
            Some(start) => !now.is_after(start.plus(policy.duration())),
            None => false,
        };
        if in_batch {
            None
        } else {
            self.chord_cleanup_start = Some(now);
            Some(now.plus(policy.duration()))
        }
    }
}

/// What to do about the voicing after a note event.
#[derive(Clone, Copy, Debug, PartialEq, Eq, Structural)]
pub enum VoicingAction {
    /// Update the voicing now.
    Now,
    /// Update the voicing at this time.
    At(Instant),
    /// Nothing: the event joins the batch whose update is scheduled.
    Batched,
}

/// What to do about the voicing after a note event that is to be held back
/// until `hold_until`, where the embargo known so far ends at
/// `embargo_expiry`; and the end of the embargo to go by from now on. An
/// event that is not held back is voiced at once. One that is held beyond
/// the embargo known so far starts a new one.
pub fn embargo_step(hold_until: Option<Instant>, embargo_expiry: Option<Instant>) -> (step: (
    VoicingAction,
    Option<Instant>,
))
    ensures
        step == match (hold_until, embargo_expiry) {
            (None, _) => (VoicingAction::Now, embargo_expiry),
            (Some(hold), None) => (VoicingAction::At(hold), Some(hold)),
            (Some(hold), Some(expiry)) => if hold@ > expiry@ {
                (VoicingAction::At(hold), Some(hold))
            } else {
                (VoicingAction::Batched, embargo_expiry)
            },
        },
{
    match (hold_until, embargo_expiry) {
        (None, _) => (VoicingAction::Now, embargo_expiry),
        (Some(hold), None) => (VoicingAction::At(hold), Some(hold)),
        (Some(hold), Some(expiry)) => {
            if hold.is_after(expiry) {
                (VoicingAction::At(hold), Some(hold))
            } else {
                (VoicingAction::Batched, embargo_expiry)
            }
        },
    }
}

/// The voice of the instrument: a glide whose destination is the note that
/// was last chosen to sound.
pub struct Voicing {
    glide: Portamento<NotePriority>,
}

impl Voicing {
    /// The glide that leads to the sounding note.
    pub closed spec fn glide(self) -> Portamento<NotePriority> {
        self.glide
    }

    /// The note that `state` makes sound on the keyboard of this voice, if
    /// it holds a note that the keyboard can play.
    pub open spec fn chosen(self, state: MidiStateView) -> Option<Note> {
        self.glide().keyboard().note_provider().provided(
            playable(
                state.activated_notes,
                self.glide().keyboard().lowest(),
                self.glide().keyboard().highest(),
            ),
        )
    }

    /// A voice that rests on `note`.
    pub fn new(keyboard: Keyboard<NotePriority>, note: Note, now: Instant) -> (voice: Voicing)
        ensures
            voice.glide().keyboard() == keyboard,
            voice.glide().destination_note() == note,
            voice.glide().origin()@ == keyboard.voltage_of(note),
            voice.glide().start() == now,
            voice.glide().lasting()@ == 0,
    {
        let origin = keyboard.voltage(note);
        Voicing {
            glide: Portamento::from_parts(
                origin,
                note,
                now,
                Duration::from_micros(0),
                keyboard,
            ),
        }
    }

    /// The note that sounds, or towards which the voice glides.
    pub fn voiced_note(&self) -> (note: Note)
        ensures
            note == self.glide().destination_note(),
    {
        self.glide.destination()
    }

    /// Lets `priority` choose the sounding note from now on.
    pub fn set_note_priority(&mut self, priority: NotePriority)
        ensures
            final(self).glide().keyboard().note_provider() == priority,
            final(self).glide().keyboard().lowest() == old(self).glide().keyboard().lowest(),
            final(self).glide().keyboard().highest() == old(self).glide().keyboard().highest(),
            final(self).glide().keyboard().voltage_per_octave() == old(
                self,
            ).glide().keyboard().voltage_per_octave(),
            final(self).glide().origin() == old(self).glide().origin(),
            final(self).glide().destination_note() == old(self).glide().destination_note(),
            final(self).glide().start() == old(self).glide().start(),
            final(self).glide().lasting() == old(self).glide().lasting(),
    {
        self.glide.set_note_provider(priority);
    }

    /// Follows the committed state `state` at `now`. The glide takes the
    /// length that Portamento Time asks for. Where the state makes another
    /// note sound than the one that sounds, the voice glides to it from the
    /// voltage that it has reached at `now`. Where no note is held that can
    /// be played, the voice stays with its note.
    pub fn update(&mut self, state: &MidiState, now: Instant)
        ensures
            final(self).glide().keyboard() == old(self).glide().keyboard(),
            final(self).glide().lasting()@ == glide_time(
                state@.portamento.time_value().value() as int,
            ),
            final(self).glide().destination_note() == match old(self).chosen(state@) {
                Some(note) => note,
                None => old(self).glide().destination_note(),
            },
            match old(self).chosen(state@) {
                Some(note) if note != old(self).glide().destination_note() => {
                    &&& final(self).glide().start() == now
                    &&& final(self).glide().origin()@ == glide_voltage(
                        old(self).glide().origin()@,
                        old(self).glide().target(),
                        old(self).glide().start()@,
                        glide_time(state@.portamento.time_value().value() as int),
                        now@,
                    )
                },
                _ => {
                    &&& final(self).glide().start() == old(self).glide().start()
                    &&& final(self).glide().origin() == old(self).glide().origin()
                },
            },
    {
        self.glide.set_duration(state.portamento.time());
        match self.glide.provide_note(&state.activated_notes) {
            Some(note) => {
                if note != self.glide.destination() {
                    self.glide.redirect(note, now);
                }
            },
            None => {},
        }
    }

    /// Whether the voice has come to rest at `now`: whether `now` is later
    /// than the end of its glide.
    pub fn is_done_at(&self, now: Instant) -> (done: bool)
        ensures
            done == (now@ > self.glide().start()@ + self.glide().lasting()@),
    {
        self.glide.is_done_at(now)
    }

    /// The control voltage that the voice asks for at `now`.
    pub fn control_voltage(&self, now: Instant) -> (voltage: Voltage)
        ensures
            voltage@ == self.glide().sampled(now@),
    {
        self.glide.glide_at(now)
    }

    /// The code that makes the converter give the control voltage of `now`.
    pub fn dac_value(&self, now: Instant) -> (code: u16)
        ensures
            code == dac_code(self.glide().sampled(now@), DAC_REFERENCE_MICROVOLTS as int, 4_095),
    {
        voltage_to_dac_value(self.glide.glide_at(now))
    }
}

} // verus!
