//! Chord cleanup: the note events of one chord take effect together.
//!
//! A performer never strikes the keys of a chord at the same instant. Were
//! every note applied as it arrives, the instrument would sound the third or
//! the fifth for a moment before the root is down. The engine therefore
//! collects the note events that follow the first one within a window of
//! fixed length in a working set, and commits the working set as a whole when
//! the window closes. What reads the committed notes only ever sees settled
//! chords, and no note is delayed by more than one window.
//!
//! The engine decides; it does no waiting. Its caller hands it each event
//! with the time of its arrival, arms and cancels the timed wake as the
//! outcome says, and calls `wake` when the wake fires.

use crate::activated_notes::{with_note, without, ActivatedNotes};
use crate::configuration::{ChordCleanup, THIRTY_SECOND_NOTE_MICROS};
use crate::midi::MidiEvent;
use crate::midi_state::{applied, operation_of, MidiState, MidiStateView, Operation};
use crate::note::Note;
use crate::time::{micros_of, Instant};
use vstd::prelude::*;

verus! {

/// What the caller is to do with the timed wake.
#[derive(Clone, Copy, Debug, PartialEq, Eq, Structural)]
pub enum Wake {
    /// Leave a pending wake as it is.
    Unchanged,
    /// Arm the wake for this time, in place of any that is pending.
    Arm(Instant),
    /// Cancel the pending wake.
    Cancel,
}

/// What came of one step of the engine.
#[derive(Clone, Copy, Debug, PartialEq, Eq, Structural)]
pub struct Outcome {
    /// When the committed state changed, if it did: what reads it is to be
    /// told.
    pub committed_at: Option<Instant>,
    /// What to do with the timed wake.
    pub wake: Wake,
}

/// `Wake` with its time in microseconds.
pub enum WakeView {
    Unchanged,
    Arm(int),
    Cancel,
}

/// `Outcome` with its times in microseconds.
pub struct OutcomeView {
    pub committed_at: Option<int>,
    pub wake: WakeView,
}

impl View for Wake {
    type V = WakeView;

    open spec fn view(&self) -> WakeView {
        match self {
            Wake::Unchanged => WakeView::Unchanged,
            Wake::Arm(at) => WakeView::Arm(at@),
            Wake::Cancel => WakeView::Cancel,
        }
    }
}

impl View for Outcome {
    type V = OutcomeView;

    open spec fn view(&self) -> OutcomeView {
        OutcomeView { committed_at: micros_of(self.committed_at), wake: self.wake@ }
    }
}

/// An open batching window, as the contracts see it.
pub struct WindowView {
    /// When the window closes, in microseconds.
    pub expiry: int,
    /// The notes that will be held once the window closes.
    pub working_set: Seq<Note>,
}

/// The engine as the contracts see it. It is idle where `window` is `None`
/// and collecting where it is `Some`.
pub struct EngineView {
    /// Whether and for how long note events are batched.
    pub policy: ChordCleanup,
    /// The committed state: what the voicing reads.
    pub committed: MidiStateView,
    /// The open window, if the engine is collecting.
    pub window: Option<WindowView>,
}

/// `notes` after the note event `event`.
pub open spec fn struck(notes: Seq<Note>, event: MidiEvent) -> Seq<Note> {
    match event {
        MidiEvent::NoteOn { note, .. } => with_note(notes, note),
        MidiEvent::NoteOff { note, .. } => without(notes, note),
        _ => notes,
    }
}

/// `state` with `notes` as its held notes.
pub open spec fn holding(state: MidiStateView, notes: Seq<Note>) -> MidiStateView {
    MidiStateView { activated_notes: notes, ..state }
}

/// One step of the engine on the note event `event`, which arrived at `now`.
///
/// Without a policy the event is committed at once. Otherwise the first
/// event opens a window on a copy of the committed notes; the window closes
/// one window length after that event, however many events follow. An event
/// that arrives while the window is open joins the working set. An event
/// that arrives after the window closed, but before the wake was handled,
/// commits the working set and opens the next window on it.
pub open spec fn admitted(before: EngineView, event: MidiEvent, now: int) -> (
    EngineView,
    OutcomeView,
) {
    let expiry = now + before.policy.window();
    if before.policy == ChordCleanup::Disabled {
        (
            EngineView {
                committed: holding(
                    before.committed,
                    struck(before.committed.activated_notes, event),
                ),
                window: None,
                ..before
            },
            OutcomeView { committed_at: Some(now), wake: WakeView::Unchanged },
        )
    } else {
        match before.window {
            None => (
                EngineView {
                    window: Some(
                        WindowView {
                            expiry,
                            working_set: struck(before.committed.activated_notes, event),
                        },
                    ),
                    ..before
                },
                OutcomeView { committed_at: None, wake: WakeView::Arm(expiry) },
            ),
            Some(window) => if now <= window.expiry {
                (
                    EngineView {
                        window: Some(
                            WindowView {
                                expiry: window.expiry,
                                working_set: struck(window.working_set, event),
                            },
                        ),
                        ..before
                    },
                    OutcomeView { committed_at: None, wake: WakeView::Unchanged },
                )
            } else {
                (
                    EngineView {
                        committed: holding(before.committed, window.working_set),
                        window: Some(
                            WindowView { expiry, working_set: struck(window.working_set, event) },
                        ),
                        ..before
                    },
                    OutcomeView { committed_at: Some(now), wake: WakeView::Arm(expiry) },
                )
            },
        }
    }
}

/// One step of the engine on a wake that fires at `now`. A wake at or after
/// the expiry of the open window commits the working set and leaves the
/// engine idle. Any other wake is stale and changes nothing.
pub open spec fn woken(before: EngineView, now: int) -> (EngineView, OutcomeView) {
    match before.window {
        Some(window) if now >= window.expiry => (
            EngineView {
                committed: holding(before.committed, window.working_set),
                window: None,
                ..before
            },
            OutcomeView { committed_at: Some(now), wake: WakeView::Unchanged },
        ),
        _ => (before, OutcomeView { committed_at: None, wake: WakeView::Unchanged }),
    }
}

/// One step of the engine on a change of the policy to `policy` at `now`.
/// Where this disables the policy while a window is open, the working set
/// is committed at once and the wake is cancelled: no event is stranded.
pub open spec fn reconfigured(before: EngineView, policy: ChordCleanup, now: int) -> (
    EngineView,
    OutcomeView,
) {
    match before.window {
        Some(window) if policy == ChordCleanup::Disabled => (
            EngineView {
                policy,
                committed: holding(before.committed, window.working_set),
                window: None,
            },
            OutcomeView { committed_at: Some(now), wake: WakeView::Cancel },
        ),
        _ => (
            EngineView { policy, ..before },
            OutcomeView { committed_at: None, wake: WakeView::Unchanged },
        ),
    }
}

/// One step of the engine on `event`, which is no note event, at `now`: it
/// is applied to the committed state at once, whether a window is open or
/// not.
pub open spec fn passed(before: EngineView, event: MidiEvent, now: int) -> (
    EngineView,
    OutcomeView,
) {
    (
        EngineView { committed: applied(before.committed, event), ..before },
        OutcomeView {
            committed_at: if operation_of(event) == Operation::NoChange {
                None
            } else {
                Some(now)
            },
            wake: WakeView::Unchanged,
        },
    )
}

/// What can be reached: a window is open only while a policy is in force.
pub open spec fn consistent(engine: EngineView) -> bool {
    engine.window is Some ==> engine.policy != ChordCleanup::Disabled
}

/// Every step leads from what can be reached to what can be reached.
pub proof fn lemma_steps_stay_consistent(
    before: EngineView,
    event: MidiEvent,
    policy: ChordCleanup,
    now: int,
)
    requires
        consistent(before),
    ensures
        consistent(admitted(before, event, now).0),
        consistent(woken(before, now).0),
        consistent(reconfigured(before, policy, now).0),
        consistent(passed(before, event, now).0),
{
}

/// Without a policy every note event is committed as it arrives: the
/// committed notes are the ones that were committed, with the event applied
/// to them, the commit bears the time of the arrival, and the engine stays
/// idle.
pub proof fn lemma_disabled_passthrough(before: EngineView, event: MidiEvent, now: int)
    requires
        before.policy == ChordCleanup::Disabled,
    ensures
        admitted(before, event, now).0.committed.activated_notes == struck(
            before.committed.activated_notes,
            event,
        ),
        admitted(before, event, now).1.committed_at == Some(now),
        admitted(before, event, now).0.window is None,
{
}

/// A window has a fixed length. The window that a note event opens closes
/// one window length after that event. A note event that arrives while a
/// window is open leaves the end of the window where it is, leaves the
/// committed state alone, and asks for no new wake.
pub proof fn lemma_window_is_fixed(before: EngineView, event: MidiEvent, now: int)
    requires
        before.policy != ChordCleanup::Disabled,
    ensures
        admitted(before, event, now).0.window is Some,
        before.window is None ==> admitted(before, event, now).0.window.unwrap().expiry == now
            + before.policy.window(),
        before.window is Some && now <= before.window.unwrap().expiry ==> {
            &&& admitted(before, event, now).0.window.unwrap().expiry
                == before.window.unwrap().expiry
            &&& admitted(before, event, now).0.committed == before.committed
            &&& admitted(before, event, now).1.committed_at is None
            &&& admitted(before, event, now).1.wake == WakeView::Unchanged
        },
        before.window is Some && now > before.window.unwrap().expiry ==> {
            &&& admitted(before, event, now).0.window.unwrap().expiry == now
                + before.policy.window()
            &&& admitted(before, event, now).0.committed.activated_notes
                == before.window.unwrap().working_set
            &&& admitted(before, event, now).1.committed_at == Some(now)
        },
{
}

/// `notes` after the note events `events`, applied in order.
pub open spec fn struck_all(notes: Seq<Note>, events: Seq<MidiEvent>) -> Seq<Note>
    decreases events.len(),
{
    if events.len() == 0 {
        notes
    } else {
        struck(struck_all(notes, events.drop_last()), events.last())
    }
}

/// The engine after the note events `events`, each taken in at its time in
/// `times`, in order.
pub open spec fn admitted_all(before: EngineView, events: Seq<MidiEvent>, times: Seq<int>) -> EngineView
    decreases events.len(),
{
    if events.len() == 0 {
        before
    } else {
        admitted(
            admitted_all(before, events.drop_last(), times.drop_last()),
            events.last(),
            times.last(),
        ).0
    }
}

/// The notes of a chord are committed together. Let an idle engine with a
/// policy take in note events, none of them later than one window length
/// after the first. Then the committed notes do not change while the events
/// arrive, the window closes one window length after the first event, and
/// the wake at that time commits the notes that were committed before, with
/// all the events applied in order.
pub proof fn lemma_chord_commits_together(
    before: EngineView,
    events: Seq<MidiEvent>,
    times: Seq<int>,
    wake_at: int,
)
    requires
        before.policy != ChordCleanup::Disabled,
        before.window is None,
        events.len() == times.len(),
        events.len() > 0,
        forall|i: int| 0 <= i < times.len() ==> #[trigger] times[i] <= times[0]
            + before.policy.window(),
        wake_at >= times[0] + before.policy.window(),
    ensures
        admitted_all(before, events, times).committed == before.committed,
        admitted_all(before, events, times).window == Some(
            WindowView {
                expiry: times[0] + before.policy.window(),
                working_set: struck_all(before.committed.activated_notes, events),
            },
        ),
        woken(admitted_all(before, events, times), wake_at).0.committed.activated_notes
            == struck_all(before.committed.activated_notes, events),
        woken(admitted_all(before, events, times), wake_at).0.window is None,
        woken(admitted_all(before, events, times), wake_at).1.committed_at == Some(wake_at),
    decreases events.len(),
{
    if events.len() == 1 {
        assert(struck_all(before.committed.activated_notes, events.drop_last())
            == before.committed.activated_notes);
    } else {
        let earlier = events.drop_last();
        let earlier_times = times.drop_last();
        assert forall|i: int| 0 <= i < earlier_times.len() implies #[trigger] earlier_times[i]
            <= earlier_times[0] + before.policy.window() by {
            assert(earlier_times[i] == times[i]);
        }
        lemma_chord_commits_together(before, earlier, earlier_times, wake_at);
    }
}

/// A batching window: the time at which it closes, and the notes that will
/// be held from then on.
#[derive(Clone, Copy, Debug, PartialEq)]
struct Window {
    expiry: Instant,
    working_set: ActivatedNotes,
}

/// The engine that admits note events to the committed state.
#[derive(Clone, Copy, Debug, PartialEq)]
pub struct ChordCleanupEngine {
    policy: ChordCleanup,
    committed: MidiState,
    window: Option<Window>,
}

impl View for ChordCleanupEngine {
    type V = EngineView;

    closed spec fn view(&self) -> EngineView {
        EngineView {
            policy: self.policy,
            committed: self.committed@,
            window: match self.window {
                Some(window) => Some(
                    WindowView { expiry: window.expiry@, working_set: window.working_set@ },
                ),
                None => None,
            },
        }
    }
}

impl ChordCleanupEngine {
    #[verifier::type_invariant]
    closed spec fn well_formed(self) -> bool {
        self.window is Some ==> self.policy != ChordCleanup::Disabled
    }

    /// An idle engine with the committed state `committed`.
    pub fn new(policy: ChordCleanup, committed: MidiState) -> (engine: ChordCleanupEngine)
        ensures
            engine@ == (EngineView { policy, committed: committed@, window: None }),
    {
        ChordCleanupEngine { policy, committed, window: None }
    }

    /// The policy in force.
    pub fn policy(&self) -> (policy: ChordCleanup)
        ensures
            policy == self@.policy,
    {
        self.policy
    }

    /// The committed state.
    pub fn committed(&self) -> (state: MidiState)
        ensures
            state@ == self@.committed,
    {
        self.committed
    }

    /// When the open window closes; `None` where the engine is idle. A
    /// window is open only while a policy is in force.
    pub fn expiry(&self) -> (expiry: Option<Instant>)
        ensures
            self@.window matches Some(window) ==> micros_of(expiry) == Some(window.expiry)
                && self@.policy != ChordCleanup::Disabled,
            self@.window is None ==> expiry is None,
    {
        proof {
            use_type_invariant(self);
        }
        match self.window {
            Some(window) => Some(window.expiry),
            None => None,
        }
    }

    /// Whether a window is open.
    pub fn is_collecting(&self) -> (collecting: bool)
        ensures
            collecting == self@.window is Some,
    {
        self.window.is_some()
    }

    /// Takes in the note event `event`, which arrived at `now`. While a
    /// policy is in force there has to be room on the clock for one window
    /// behind `now`.
    pub fn note_event(&mut self, event: MidiEvent, now: Instant) -> (outcome: Outcome)
        requires
            event.is_note(),
            old(self)@.policy != ChordCleanup::Disabled ==> now@ + THIRTY_SECOND_NOTE_MICROS
                <= u64::MAX,
        ensures
            (final(self)@, outcome@) == admitted(old(self)@, event, now@),
    {
        proof {
            use_type_invariant(&*self);
        }
        if !self.policy.is_enabled() {
            let mut committed = self.committed;
            strike(&mut committed.activated_notes, event);
            self.committed = committed;
            return Outcome { committed_at: Some(now), wake: Wake::Unchanged };
        }
        let expiry = now.plus(self.policy.duration());
        match self.window {
            None => {
                let mut working_set = self.committed.activated_notes;
                strike(&mut working_set, event);
                self.window = Some(Window { expiry, working_set });
                Outcome { committed_at: None, wake: Wake::Arm(expiry) }
            },
            Some(window) => {
                let mut working_set = window.working_set;
                strike(&mut working_set, event);
                if now.is_after(window.expiry) {
                    let mut committed = self.committed;
                    committed.activated_notes = window.working_set;
                    self.committed = committed;
                    self.window = Some(Window { expiry, working_set });
                    Outcome { committed_at: Some(now), wake: Wake::Arm(expiry) }
                } else {
                    self.window = Some(Window { expiry: window.expiry, working_set });
                    Outcome { committed_at: None, wake: Wake::Unchanged }
                }
            },
        }
    }

    /// Handles the wake that fires at `now`.
    pub fn wake(&mut self, now: Instant) -> (outcome: Outcome)
        ensures
            (final(self)@, outcome@) == woken(old(self)@, now@),
    {
        proof {
            use_type_invariant(&*self);
        }
        match self.window {
            Some(window) => {
                if !window.expiry.is_after(now) {
                    let mut committed = self.committed;
                    committed.activated_notes = window.working_set;
                    self.committed = committed;
                    self.window = None;
                    Outcome { committed_at: Some(now), wake: Wake::Unchanged }
                } else {
                    Outcome { committed_at: None, wake: Wake::Unchanged }
                }
            },
            None => Outcome { committed_at: None, wake: Wake::Unchanged },
        }
    }

    /// Puts `policy` in force at `now`.
    pub fn set_policy(&mut self, policy: ChordCleanup, now: Instant) -> (outcome: Outcome)
        ensures
            (final(self)@, outcome@) == reconfigured(old(self)@, policy, now@),
    {
        proof {
            use_type_invariant(&*self);
        }
        match self.window {
            Some(window) => {
                if !policy.is_enabled() {
                    let mut committed = self.committed;
                    committed.activated_notes = window.working_set;
                    *self = ChordCleanupEngine { policy, committed, window: None };
                    Outcome { committed_at: Some(now), wake: Wake::Cancel }
                } else {
                    self.policy = policy;
                    Outcome { committed_at: None, wake: Wake::Unchanged }
                }
            },
            None => {
                self.policy = policy;
                Outcome { committed_at: None, wake: Wake::Unchanged }
            },
        }
    }

    /// Takes in `event`, which is no note event and arrived at `now`.
    pub fn other_event(&mut self, event: MidiEvent, now: Instant) -> (outcome: Outcome)
        requires
            !event.is_note(),
        ensures
            (final(self)@, outcome@) == passed(old(self)@, event, now@),
    {
        proof {
            use_type_invariant(&*self);
        }
        let mut committed = self.committed;
        let operation = committed.apply(event);
        self.committed = committed;
        Outcome {
            committed_at: if operation.is_none() {
                None
            } else {
                Some(now)
            },
            wake: Wake::Unchanged,
        }
    }
}

/// Applies the note event `event` to `notes`.
fn strike(notes: &mut ActivatedNotes, event: MidiEvent)
    ensures
        final(notes)@ == struck(old(notes)@, event),
{
    match event {
        MidiEvent::NoteOn { channel: _, note, velocity: _ } => notes.add(note),
        MidiEvent::NoteOff { channel: _, note, velocity: _ } => notes.remove(note),
        _ => {},
    }
}

} // verus!
