//! Portamento: gliding from one pitch to the next instead of jumping.
//!
//! A glide is a straight line in voltage over time. It starts from a
//! voltage, not from a note: when a new note is played while a glide is under
//! way, the next glide starts from the voltage that the first had reached.

use crate::activated_notes::ActivatedNotes;
use crate::configuration::keyboard::{Keyboard, ProvideNote};
use crate::note::{ControlValue, Note, DATA_MAX};
use crate::selection::playable;
use crate::time::{group_time_fits, Duration, Instant};
use crate::voltage::{between, lemma_scaled_within, Voltage};
use vstd::prelude::*;

verus! {

broadcast use group_time_fits;

/// The longest glide, in microseconds: the glide at the highest position of
/// Portamento Time. Five seconds match what the Micromoog does by itself.
pub const MAX_GLIDE_TIME_MICROS: u64 = 5_000_000;

/// How long a glide lasts, in microseconds, with Portamento Time at
/// `control_value`: the longest glide at the highest position, and in
/// proportion below it.
pub open spec fn glide_time(control_value: int) -> int {
    MAX_GLIDE_TIME_MICROS * control_value / (DATA_MAX as int)
}

/// The voltage, in microvolts, that a glide has reached at `now`. The glide
/// runs from `origin` to `target`, starts at `start` and lasts `duration`.
/// Before it starts the glide rests at `origin`. From its end on it rests at
/// `target`; a glide that lasts no time is there at once.
pub open spec fn glide_voltage(origin: int, target: int, start: int, duration: int, now: int) -> int {
    let elapsed = if now >= start {
        now - start
    } else {
        0
    };
    if elapsed >= duration {
        target
    } else {
        between(origin, target, elapsed, duration)
    }
}

/// A glide never leaves the stretch between its origin and its target, and
/// at or after its end it is at the target exactly.
pub proof fn lemma_glide_no_overshoot(origin: int, target: int, start: int, duration: int, now: int)
    requires
        0 <= duration,
    ensures
        now >= start + duration ==> glide_voltage(origin, target, start, duration, now) == target,
        origin <= target ==> origin <= glide_voltage(origin, target, start, duration, now)
            <= target,
        origin >= target ==> origin >= glide_voltage(origin, target, start, duration, now)
            >= target,
{
    let elapsed = if now >= start { now - start } else { 0 };
    if elapsed < duration {
        lemma_scaled_within(target - origin, elapsed, duration);
    }
}

/// A glide that has started and still lasts is at its origin at the moment
/// it starts.
pub proof fn lemma_glide_starts_at_origin(origin: int, target: int, start: int, duration: int)
    requires
        0 < duration,
    ensures
        glide_voltage(origin, target, start, duration, start) == origin,
{
    lemma_scaled_within(target - origin, 0, duration);
}

/// Turning a glide that lasts towards a new target makes no jump: the new
/// glide starts at the voltage that the old one had reached, and is there at
/// the moment of the turn.
pub proof fn lemma_retarget_continuity(
    origin: int,
    target: int,
    start: int,
    duration: int,
    now: int,
    new_target: int,
)
    requires
        0 < duration,
    ensures
        glide_voltage(
            glide_voltage(origin, target, start, duration, now),
            new_target,
            now,
            duration,
            now,
        ) == glide_voltage(origin, target, start, duration, now),
{
    lemma_glide_starts_at_origin(
        glide_voltage(origin, target, start, duration, now),
        new_target,
        now,
        duration,
    );
}

/// What it takes to glide: where from, where to, since when and for how
/// long, on which keyboard.
#[derive(Debug, PartialEq)]
pub struct Portamento<T> {
    origin: Voltage,
    destination: Note,
    start: Instant,
    duration: Duration,
    keyboard: Keyboard<T>,
}

impl<T: Clone> Clone for Portamento<T> {
    /// The same glide, on a copy of the keyboard.
    fn clone(&self) -> (copy: Self)
        ensures
            cloned(self.keyboard(), copy.keyboard()),
            copy.origin() == self.origin(),
            copy.destination_note() == self.destination_note(),
            copy.start() == self.start(),
            copy.lasting() == self.lasting(),
    {
        Portamento {
            origin: self.origin,
            destination: self.destination,
            start: self.start,
            duration: self.duration,
            keyboard: self.keyboard.clone(),
        }
    }
}

impl<T> Portamento<T> {
    /// The voltage at which the glide starts.
    pub closed spec fn origin(self) -> Voltage {
        self.origin
    }

    /// The note at which the glide ends.
    pub closed spec fn destination_note(self) -> Note {
        self.destination
    }

    /// The time at which the glide starts.
    pub closed spec fn start(self) -> Instant {
        self.start
    }

    /// How long the glide lasts.
    pub closed spec fn lasting(self) -> Duration {
        self.duration
    }

    /// The keyboard that gives the notes their voltages.
    pub closed spec fn keyboard(self) -> Keyboard<T> {
        self.keyboard
    }

    /// Whether the glide is over at `now`: whether `now` is later than its
    /// end.
    pub open spec fn over_at(self, now: Instant) -> bool {
        now@ > self.start()@ + self.lasting()@
    }

    /// The voltage at which the glide ends, in microvolts.
    pub open spec fn target(self) -> int {
        self.keyboard().voltage_of(self.destination_note())
    }

    /// The voltage that the glide has reached at `now`, in microvolts.
    pub open spec fn sampled(self, now: int) -> int {
        glide_voltage(self.origin()@, self.target(), self.start()@, self.lasting()@, now)
    }
}

impl<T: ProvideNote> Portamento<T> {
    /// A glide that starts now at the voltage of `origin`, and lasts as long
    /// as Portamento Time at `time` says.
    pub fn new(origin: Note, destination: Note, time: ControlValue, keyboard: Keyboard<T>) -> (glide:
        Self)
        ensures
            glide.origin()@ == keyboard.voltage_of(origin),
            glide.destination_note() == destination,
            glide.lasting()@ == glide_time(time.value() as int),
            glide.keyboard() == keyboard,
    {
        Self::new_at(origin, destination, time, keyboard, Instant::now())
    }

    /// A glide that starts at `now` at the voltage of `origin`, and lasts as
    /// long as Portamento Time at `time` says.
    pub fn new_at(
        origin: Note,
        destination: Note,
        time: ControlValue,
        keyboard: Keyboard<T>,
        now: Instant,
    ) -> (glide: Self)
        ensures
            glide.origin()@ == keyboard.voltage_of(origin),
            glide.destination_note() == destination,
            glide.start() == now,
            glide.lasting()@ == glide_time(time.value() as int),
            glide.keyboard() == keyboard,
    {
        Portamento {
            origin: keyboard.voltage(origin),
            destination,
            start: now,
            duration: time_to_duration(time),
            keyboard,
        }
    }

    /// The glide from `origin` to `destination` that starts at `start` and
    /// lasts `duration`.
    pub fn from_parts(
        origin: Voltage,
        destination: Note,
        start: Instant,
        duration: Duration,
        keyboard: Keyboard<T>,
    ) -> (glide: Self)
        ensures
            glide.origin() == origin,
            glide.destination_note() == destination,
            glide.start() == start,
            glide.lasting() == duration,
            glide.keyboard() == keyboard,
    {
        Portamento { origin, destination, start, duration, keyboard }
    }

    /// The glide to `destination` that starts now, where this glide is now:
    /// the pitch is caught where it is and never snaps back to a note.
    pub fn new_destination(self, destination: Note) -> (glide: Self)
        ensures
            glide.destination_note() == destination,
            glide.lasting() == self.lasting(),
            glide.keyboard() == self.keyboard(),
            glide.origin()@ == self.sampled(glide.start()@),
    {
        self.retarget(destination, Instant::now())
    }

    /// The glide to `destination` that starts at `now`, at the voltage that
    /// this glide has reached at `now`.
    pub fn retarget(self, destination: Note, now: Instant) -> (glide: Self)
        ensures
            glide.origin()@ == self.sampled(now@),
            glide.destination_note() == destination,
            glide.start() == now,
            glide.lasting() == self.lasting(),
            glide.keyboard() == self.keyboard(),
    {
        Portamento {
            origin: self.glide_at(now),
            destination,
            start: now,
            duration: self.duration,
            keyboard: self.keyboard,
        }
    }

    /// Turns the glide towards `destination` at `now`: from then on it
    /// starts at `now`, at the voltage that it had reached at `now`.
    pub fn redirect(&mut self, destination: Note, now: Instant)
        ensures
            final(self).origin()@ == old(self).sampled(now@),
            final(self).destination_note() == destination,
            final(self).start() == now,
            final(self).lasting() == old(self).lasting(),
            final(self).keyboard() == old(self).keyboard(),
    {
        self.origin = self.glide_at(now);
        self.destination = destination;
        self.start = now;
    }

    /// Puts `note_provider` in charge of choosing the note to play.
    pub fn set_note_provider(&mut self, note_provider: T)
        ensures
            final(self).keyboard().note_provider() == note_provider,
            final(self).keyboard().lowest() == old(self).keyboard().lowest(),
            final(self).keyboard().highest() == old(self).keyboard().highest(),
            final(self).keyboard().voltage_per_octave() == old(self).keyboard().voltage_per_octave(),
            final(self).origin() == old(self).origin(),
            final(self).destination_note() == old(self).destination_note(),
            final(self).start() == old(self).start(),
            final(self).lasting() == old(self).lasting(),
    {
        self.keyboard.set_note_provider(note_provider);
    }

    /// The note to play out of `notes`, as the keyboard chooses it.
    pub fn provide_note(&self, notes: &ActivatedNotes) -> (note: Option<Note>)
        ensures
            note == self.keyboard().note_provider().provided(
                playable(notes@, self.keyboard().lowest(), self.keyboard().highest()),
            ),
    {
        self.keyboard.provide_note(notes)
    }

    /// The note at which the glide ends.
    pub fn destination(&self) -> (note: Note)
        ensures
            note == self.destination_note(),
    {
        self.destination
    }

    /// How long the glide lasts.
    pub fn duration(&self) -> (duration: Duration)
        ensures
            duration == self.lasting(),
    {
        self.duration
    }

    /// Makes the glide last as long as Portamento Time at `time` says.
    pub fn set_duration(&mut self, time: ControlValue)
        ensures
            final(self).lasting()@ == glide_time(time.value() as int),
            final(self).origin() == old(self).origin(),
            final(self).destination_note() == old(self).destination_note(),
            final(self).start() == old(self).start(),
            final(self).keyboard() == old(self).keyboard(),
    {
        self.duration = time_to_duration(time);
    }

    /// The voltage that the glide has reached now, which may lie between
    /// two notes: the answer of `glide_at` for the time that the clock
    /// shows. Whatever that time is, the voltage lies between the origin and
    /// the target.
    pub fn glide(&self) -> (voltage: Voltage)
        ensures
            exists|now: Instant| voltage@ == #[trigger] self.sampled(now@),
            self.origin()@ <= self.target() ==> self.origin()@ <= voltage@ <= self.target(),
            self.origin()@ >= self.target() ==> self.origin()@ >= voltage@ >= self.target(),
    {
        let now = Instant::now();
        proof {
            lemma_glide_no_overshoot(
                self.origin()@,
                self.target(),
                self.start()@,
                self.lasting()@,
                now@,
            );
        }
        self.glide_at(now)
    }

    /// The voltage that the glide has reached at `now`. At or after the end
    /// of the glide this is the voltage of the destination exactly.
    pub fn glide_at(&self, now: Instant) -> (voltage: Voltage)
        ensures
            voltage@ == self.sampled(now@),
            now@ >= self.start()@ + self.lasting()@ ==> voltage@ == self.target(),
    {
        let target = self.keyboard.voltage(self.destination);
        let elapsed: u64 = now.saturating_duration_since(self.start).as_micros();
        let whole: u64 = self.duration.as_micros();
        if elapsed >= whole {
            target
        } else {
            self.origin.toward(target, elapsed, whole)
        }
    }

    /// Whether the glide is over now: the answer of `is_done_at` for the
    /// time that the clock shows. So a glide whose end lies beyond what the
    /// clock can show is never over.
    pub fn is_done(&self) -> (done: bool)
        ensures
            exists|now: Instant| done == #[trigger] self.over_at(now),
    {
        let now = Instant::now();
        let done = self.is_done_at(now);
        assert(done == self.over_at(now));
        done
    }

    /// Whether the glide is over at `now`: whether `now` is later than its
    /// end.
    pub fn is_done_at(&self, now: Instant) -> (done: bool)
        ensures
            done == (now@ > self.start()@ + self.lasting()@),
    {
        now.is_after(self.start) && now.saturating_duration_since(self.start).as_micros()
            > self.duration.as_micros()
    }
}

/// How long a glide lasts with Portamento Time at `time`.
pub fn time_to_duration(time: ControlValue) -> (duration: Duration)
    ensures
        duration@ == glide_time(time.value() as int),
{
    let position: u64 = time.get() as u64;
    Duration::from_micros(MAX_GLIDE_TIME_MICROS * position / (DATA_MAX as u64))
}

} // verus!
