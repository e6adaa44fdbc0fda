//! The notes that are held down right now, in the order in which they were
//! struck. On a monophonic instrument many keys may be held while only one
//! sounds, so the record tells "held" apart from "voiced".

use crate::note::Note;
use crate::selection::{
    first_in, first_of, highest_in, highest_of, last_in, last_of, lowest_in, lowest_of,
};
use vstd::prelude::*;

verus! {

/// How many notes the record can hold. General MIDI Level 2 asks a device for
/// at least 32 simultaneous notes.
pub const GM2_SIMUL_NOTE_NUM: usize = 32;

/// `tinyvec::ArrayVec`: a vector of bounded length that lives in an array.
/// Nothing is known of what is inside one but what `held` tells.
#[verifier::external_type_specification]
#[verifier::external_body]
#[verifier::reject_recursive_types(A)]
pub struct ExArrayVec<A>(tinyvec::ArrayVec<A>);

/// The notes that a store holds, in the order in which they were pushed.
pub uninterp spec fn held(store: tinyvec::ArrayVec<[Note; 32]>) -> Seq<Note>;

/// `notes` without `note`: the other notes, in the order they had.
pub open spec fn without(notes: Seq<Note>, note: Note) -> Seq<Note> {
    notes.filter(other_than(note))
}

/// The test that every note but `note` passes.
pub open spec fn other_than(note: Note) -> spec_fn(Note) -> bool {
    |other: Note| other != note
}

/// `notes` after `note` was struck: `note` comes last if it was not held and
/// there was room for it, and nothing changes otherwise.
pub open spec fn with_note(notes: Seq<Note>, note: Note) -> Seq<Note> {
    if notes.contains(note) || notes.len() >= GM2_SIMUL_NOTE_NUM {
        notes
    } else {
        notes.push(note)
    }
}

/// Taking out a note that is not held changes nothing. Taking out one that is
/// held, where no note is held twice, removes it from its place: the notes
/// before it and the notes behind it stay as they were, in their order.
pub proof fn lemma_without(notes: Seq<Note>, note: Note)
    requires
        notes.no_duplicates(),
    ensures
        !notes.contains(note) ==> without(notes, note) == notes,
        notes.contains(note) ==> without(notes, note) == notes.remove(notes.index_of(note)),
        without(notes, note).no_duplicates(),
        !without(notes, note).contains(note),
        without(notes, note).len() <= notes.len(),
    decreases notes.len(),
{
    if notes.len() == 0 {
        reveal(Seq::filter);
    } else {
        let front = notes.drop_last();
        let last = notes.last();
        lemma_without(front, note);
        assert(without(notes, note) == if last != note {
            without(front, note).push(last)
        } else {
            without(front, note)
        }) by {
            reveal(Seq::filter);
        }
        if last == note {
            // no note is held twice: `note` is the last one and nowhere else
            assert(!front.contains(note)) by {
                if front.contains(note) {
                    assert(notes[front.index_of(note)] == notes[notes.len() - 1]);
                }
            }
            assert(notes.index_of(note) == notes.len() - 1);
            assert(notes.remove(notes.len() - 1) == front);
        } else if front.contains(note) {
            // `note` leaves its place in the front, and the last note stays
            let at = notes.index_of(note);
            assert(at == front.index_of(note));
            let kept = notes.remove(at);
            assert(front.remove(at).push(last) == kept);
            assert forall|j: int, k: int| 0 <= j < kept.len() && 0 <= k < kept.len() && j != k
                implies kept[j] != kept[k] by {
                assert(kept[j] == notes[if j < at { j } else { j + 1 }]);
                assert(kept[k] == notes[if k < at { k } else { k + 1 }]);
            }
            assert(!kept.contains(note)) by {
                if kept.contains(note) {
                    let j = kept.index_of(note);
                    assert(kept[j] == notes[if j < at { j } else { j + 1 }]);
                }
            }
        } else {
            // `note` is not held at all
            assert(!notes.contains(note)) by {
                if notes.contains(note) {
                    assert(front[notes.index_of(note)] == note);
                }
            }
            assert(front.push(last) == notes);
        }
    }
}

/// Striking a note twice comes to the same as striking it once.
pub proof fn lemma_add_idempotent(notes: Seq<Note>, note: Note)
    ensures
        with_note(with_note(notes, note), note) == with_note(notes, note),
{
    if !notes.contains(note) && notes.len() < GM2_SIMUL_NOTE_NUM {
        assert(notes.push(note)[notes.len() as int] == note);
    }
}

/// A full record takes no further note: it holds what it held, and not the
/// new note.
pub proof fn lemma_add_at_capacity(notes: Seq<Note>, note: Note)
    requires
        notes.len() == GM2_SIMUL_NOTE_NUM,
        !notes.contains(note),
    ensures
        with_note(notes, note) == notes,
        with_note(notes, note).len() == GM2_SIMUL_NOTE_NUM,
        !with_note(notes, note).contains(note),
{
}

/// Releasing a note from the middle of a record leaves the notes before it
/// and the notes behind it as they were, in their order.
pub proof fn lemma_remove_keeps_order(before: Seq<Note>, note: Note, after: Seq<Note>)
    requires
        (before + seq![note] + after).no_duplicates(),
    ensures
        without(before + seq![note] + after, note) == before + after,
{
    let notes = before + seq![note] + after;
    lemma_without(notes, note);
    assert(notes[before.len() as int] == note);
    assert(notes.index_of(note) == before.len());
    assert(notes.remove(before.len() as int) == before + after);
}

/// Taking out a note leaves exactly the other notes that were there.
pub proof fn lemma_without_members(notes: Seq<Note>, note: Note)
    ensures
        forall|other: Note| #[trigger]
            without(notes, note).contains(other) <==> notes.contains(other) && other != note,
    decreases notes.len(),
{
    reveal(Seq::filter);
    if notes.len() > 0 {
        let front = notes.drop_last();
        let last = notes.last();
        lemma_without_members(front, note);
        let kept = without(notes, note);
        let front_kept = without(front, note);
        assert(kept == if last != note {
            front_kept.push(last)
        } else {
            front_kept
        });
        assert forall|other: Note| #[trigger]
            kept.contains(other) <==> notes.contains(other) && other != note by {
            if kept.contains(other) {
                let j = kept.index_of(other);
                if last != note && j == kept.len() - 1 {
                    assert(notes[notes.len() - 1] == other);
                } else {
                    assert(front_kept[j] == other);
                    assert(front_kept.contains(other));
                    assert(notes[front.index_of(other)] == other);
                }
            }
            if notes.contains(other) && other != note {
                let i = notes.index_of(other);
                if i == notes.len() - 1 {
                    assert(kept[kept.len() - 1] == other);
                } else {
                    assert(front[i] == other);
                    assert(front_kept.contains(other));
                    assert(kept[front_kept.index_of(other)] == other);
                }
            }
        }
    }
}

/// `tinyvec::ArrayVec::new`: a store that holds nothing.
#[verifier::external_body]
fn store_new() -> (store: tinyvec::ArrayVec<[Note; 32]>)
    ensures
        held(store) == Seq::<Note>::empty(),
{
    tinyvec::ArrayVec::new()
}

/// `tinyvec::ArrayVec::as_slice`: the held notes as a slice, oldest first.
#[verifier::external_body]
fn store_as_slice(store: &tinyvec::ArrayVec<[Note; 32]>) -> (notes: &[Note])
    ensures
        notes@ == held(*store),
{
    store.as_slice()
}

/// `tinyvec::ArrayVec::push`: appends `note` behind the held notes. The call
/// panics on a full store, which the precondition leaves out.
#[verifier::external_body]
fn store_push(store: &mut tinyvec::ArrayVec<[Note; 32]>, note: Note)
    requires
        held(*old(store)).len() < 32,
    ensures
        held(*final(store)) == held(*old(store)).push(note),
{
    store.push(note)
}

/// `tinyvec::ArrayVec::retain`: keeps the held notes that differ from `note`,
/// in the order they had.
#[verifier::external_body]
fn store_retain_other(store: &mut tinyvec::ArrayVec<[Note; 32]>, note: Note)
    ensures
        held(*final(store)) == without(held(*old(store)), note),
{
    store.retain(|held_note| differs(*held_note, note))
}

/// Whether two notes differ.
fn differs(a: Note, b: Note) -> (differ: bool)
    ensures
        differ == (a != b),
{
    a != b
}

/// A bounded record of the held notes: each at most once, oldest first.
#[derive(Clone, Copy, Debug, PartialEq)]
pub struct ActivatedNotes {
    data: tinyvec::ArrayVec<[Note; 32]>,
}

/// The record of the keys that are down: another name for the record of the
/// held notes.
pub type ActiveKeys = ActivatedNotes;

impl View for ActivatedNotes {
    type V = Seq<Note>;

    /// The held notes, oldest first.
    closed spec fn view(&self) -> Seq<Note> {
        held(self.data)
    }
}

impl Default for ActivatedNotes {
    /// An empty record.
    fn default() -> (notes: ActivatedNotes)
        ensures
            notes@ == Seq::<Note>::empty(),
    {
        ActivatedNotes::new()
    }
}

impl ActivatedNotes {
    #[verifier::type_invariant]
    closed spec fn well_formed(self) -> bool {
        &&& held(self.data).no_duplicates()
        &&& held(self.data).len() <= GM2_SIMUL_NOTE_NUM
    }

    /// An empty record.
    pub fn new() -> (notes: ActivatedNotes)
        ensures
            notes@ == Seq::<Note>::empty(),
    {
        ActivatedNotes { data: store_new() }
    }

    /// Whether no note is held.
    pub fn is_empty(&self) -> (empty: bool)
        ensures
            empty == (self@.len() == 0),
    {
        store_as_slice(&self.data).len() == 0
    }

    /// The held notes as a slice, oldest first.
    pub fn get(&self) -> (notes: &[Note])
        ensures
            notes@ == self@,
    {
        store_as_slice(&self.data)
    }

    /// Whether `note` is held.
    pub fn contains(&self, note: Note) -> (is_held: bool)
        ensures
            is_held == self@.contains(note),
    {
        let notes = store_as_slice(&self.data);
        let mut i: usize = 0;
        while i < notes.len()
            invariant
                i <= notes.len(),
                notes@ == self@,
                forall|j: int| 0 <= j < i ==> notes@[j] != note,
            decreases notes.len() - i,
        {
            if notes[i] == note {
                return true;
            }
            i += 1;
        }
        false
    }

    /// Records that `note` was struck. A note that is held already stays where
    /// it is, and a note for which there is no room left is dropped.
    pub fn add(&mut self, note: Note)
        ensures
            final(self)@ == with_note(old(self)@, note),
    {
        proof {
            use_type_invariant(&*self);
        }
        if self.len() != GM2_SIMUL_NOTE_NUM && !self.contains(note) {
            let mut data = self.data;
            store_push(&mut data, note);
            proof {
                // the new note is none of the held ones, and no held one is there twice
                let before = old(self)@;
                let after = before.push(note);
                assert forall|j: int, k: int| 0 <= j < after.len() && 0 <= k < after.len() && j != k
                    implies after[j] != after[k] by {
                    if j < before.len() {
                        assert(after[j] == before[j]);
                    }
                    if k < before.len() {
                        assert(after[k] == before[k]);
                    }
                }
            }
            self.data = data;
        }
    }

    /// Records that `note` was released: it leaves its place, and the other
    /// notes stay in their order.
    pub fn remove(&mut self, note: Note)
        ensures
            final(self)@ == without(old(self)@, note),
            !old(self)@.contains(note) ==> final(self)@ == old(self)@,
            old(self)@.contains(note) ==> final(self)@ == old(self)@.remove(
                old(self)@.index_of(note),
            ),
    {
        proof {
            use_type_invariant(&*self);
            lemma_without(self@, note);
        }
        let mut data = self.data;
        store_retain_other(&mut data, note);
        self.data = data;
    }

    /// The held notes, oldest first.
    pub fn iter(&self) -> (notes: Vec<Note>)
        ensures
            notes@ == self@,
    {
        let held_notes = store_as_slice(&self.data);
        let mut notes: Vec<Note> = Vec::new();
        let mut i: usize = 0;
        while i < held_notes.len()
            invariant
                i <= held_notes.len(),
                notes@ == held_notes@.take(i as int),
            decreases held_notes.len() - i,
        {
            notes.push(held_notes[i]);
            i += 1;
        }
        notes
    }

    /// The note that was struck first among the held ones.
    pub fn first(&self) -> (note: Option<Note>)
        ensures
            note == first_of(self@),
    {
        first_in(store_as_slice(&self.data))
    }

    /// The note that was struck last among the held ones.
    pub fn last(&self) -> (note: Option<Note>)
        ensures
            note == last_of(self@),
    {
        last_in(store_as_slice(&self.data))
    }

    /// The lowest held note: the leftmost on a keyboard.
    pub fn lowest(&self) -> (note: Option<Note>)
        ensures
            note == lowest_of(self@),
    {
        lowest_in(store_as_slice(&self.data))
    }

    /// The highest held note: the rightmost on a keyboard.
    pub fn highest(&self) -> (note: Option<Note>)
        ensures
            note == highest_of(self@),
    {
        highest_in(store_as_slice(&self.data))
    }

    /// How many notes are held: never more than the record has room for,
    /// and none of them twice.
    pub fn len(&self) -> (count: usize)
        ensures
            count == self@.len(),
            count <= GM2_SIMUL_NOTE_NUM,
            self@.no_duplicates(),
    {
        proof {
            use_type_invariant(self);
        }
        store_as_slice(&self.data).len()
    }
}

} // verus!
