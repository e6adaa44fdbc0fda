//! Picking one note out of several: by the order in which they were struck,
//! or by pitch.

use crate::note::Note;
use vstd::prelude::*;

verus! {

/// The first of `notes`, if there is any.
pub open spec fn first_of(notes: Seq<Note>) -> Option<Note> {
    if notes.len() == 0 {
        None
    } else {
        Some(notes.first())
    }
}

/// The last of `notes`, if there is any.
pub open spec fn last_of(notes: Seq<Note>) -> Option<Note> {
    if notes.len() == 0 {
        None
    } else {
        Some(notes.last())
    }
}

/// The lowest of `notes` by pitch, if there is any.
pub open spec fn lowest_of(notes: Seq<Note>) -> Option<Note>
    decreases notes.len(),
{
    if notes.len() == 0 {
        None
    } else {
        let before = lowest_of(notes.drop_last());
        if before is Some && before.unwrap().pitch() <= notes.last().pitch() {
            before
        } else {
            Some(notes.last())
        }
    }
}

/// The highest of `notes` by pitch, if there is any.
pub open spec fn highest_of(notes: Seq<Note>) -> Option<Note>
    decreases notes.len(),
{
    if notes.len() == 0 {
        None
    } else {
        let before = highest_of(notes.drop_last());
        if before is Some && before.unwrap().pitch() >= notes.last().pitch() {
            before
        } else {
            Some(notes.last())
        }
    }
}

/// The lowest of some notes is one of them, and none of them is lower.
/// Of no notes there is no lowest.
pub proof fn lemma_lowest_of(notes: Seq<Note>)
    ensures
        notes.len() == 0 <==> lowest_of(notes) is None,
        lowest_of(notes) matches Some(low) ==> {
            &&& notes.contains(low)
            &&& forall|i: int| 0 <= i < notes.len() ==> low.pitch() <= #[trigger] notes[i].pitch()
        },
    decreases notes.len(),
{
    if notes.len() > 0 {
        let front = notes.drop_last();
        lemma_lowest_of(front);
        let low = lowest_of(notes).unwrap();
        if low != notes.last() {
            // the lowest of the front is the lowest of all
            assert(notes[front.index_of(low)] == low);
        }
        assert forall|i: int| 0 <= i < notes.len() implies low.pitch() <= #[trigger] notes[i].pitch() by {
            if i < front.len() {
                assert(front[i] == notes[i]);
            }
        }
    }
}

/// The highest of some notes is one of them, and none of them is higher.
/// Of no notes there is no highest.
pub proof fn lemma_highest_of(notes: Seq<Note>)
    ensures
        notes.len() == 0 <==> highest_of(notes) is None,
        highest_of(notes) matches Some(high) ==> {
            &&& notes.contains(high)
            &&& forall|i: int| 0 <= i < notes.len() ==> high.pitch() >= #[trigger] notes[i].pitch()
        },
    decreases notes.len(),
{
    if notes.len() > 0 {
        let front = notes.drop_last();
        lemma_highest_of(front);
        let high = highest_of(notes).unwrap();
        if high != notes.last() {
            // the highest of the front is the highest of all
            assert(notes[front.index_of(high)] == high);
        }
        assert forall|i: int| 0 <= i < notes.len() implies high.pitch() >= #[trigger] notes[i].pitch() by {
            if i < front.len() {
                assert(front[i] == notes[i]);
            }
        }
    }
}

/// The test that the notes from `lowest` up to `highest` pass.
pub open spec fn within(lowest: Note, highest: Note) -> spec_fn(Note) -> bool {
    |note: Note| lowest.pitch() <= note.pitch() <= highest.pitch()
}

/// The notes of `notes` from `lowest` up to `highest`, in the order they had.
pub open spec fn playable(notes: Seq<Note>, lowest: Note, highest: Note) -> Seq<Note> {
    notes.filter(within(lowest, highest))
}

/// The notes of `notes` from `lowest` up to `highest`, in the order they had.
pub fn playable_in(notes: &[Note], lowest: Note, highest: Note) -> (kept: Vec<Note>)
    ensures
        kept@ == playable(notes@, lowest, highest),
{
    let mut kept: Vec<Note> = Vec::new();
    let mut i: usize = 0;
    proof {
        reveal(Seq::filter);
    }
    while i < notes.len()
        invariant
            i <= notes.len(),
            kept@ == playable(notes@.take(i as int), lowest, highest),
        decreases notes.len() - i,
    {
        proof {
            reveal(Seq::filter);
            assert(notes@.take(i + 1).drop_last() == notes@.take(i as int));
        }
        let note: Note = notes[i];
        if lowest.number() <= note.number() && note.number() <= highest.number() {
            kept.push(note);
        }
        i += 1;
    }
    assert(notes@.take(i as int) == notes@);
    kept
}

/// The first of `notes`, if there is any.
pub fn first_in(notes: &[Note]) -> (first: Option<Note>)
    ensures
        first == first_of(notes@),
{
    if notes.len() == 0 {
        None
    } else {
        Some(notes[0])
    }
}

/// The last of `notes`, if there is any.
pub fn last_in(notes: &[Note]) -> (last: Option<Note>)
    ensures
        last == last_of(notes@),
{
    if notes.len() == 0 {
        None
    } else {
        Some(notes[notes.len() - 1])
    }
}

/// The lowest of `notes` by pitch, if there is any.
pub fn lowest_in(notes: &[Note]) -> (lowest: Option<Note>)
    ensures
        lowest == lowest_of(notes@),
{
    if notes.len() == 0 {
        return None;
    }
    let mut best: Note = notes[0];
    let mut i: usize = 1;
    assert(lowest_of(notes@.take(1).drop_last()) is None);
    while i < notes.len()
        invariant
            1 <= i <= notes.len(),
            lowest_of(notes@.take(i as int)) == Some(best),
        decreases notes.len() - i,
    {
        assert(notes@.take(i + 1).drop_last() == notes@.take(i as int));
        if notes[i].number() < best.number() {
            best = notes[i];
        }
        i += 1;
    }
    assert(notes@.take(i as int) == notes@);
    Some(best)
}

/// The highest of `notes` by pitch, if there is any.
pub fn highest_in(notes: &[Note]) -> (highest: Option<Note>)
    ensures
        highest == highest_of(notes@),
{
    if notes.len() == 0 {
        return None;
    }
    let mut best: Note = notes[0];
    let mut i: usize = 1;
    assert(highest_of(notes@.take(1).drop_last()) is None);
    while i < notes.len()
        invariant
            1 <= i <= notes.len(),
            highest_of(notes@.take(i as int)) == Some(best),
        decreases notes.len() - i,
    {
        assert(notes@.take(i + 1).drop_last() == notes@.take(i as int));
        if notes[i].number() > best.number() {
            best = notes[i];
        }
        i += 1;
    }
    assert(notes@.take(i as int) == notes@);
    Some(best)
}

} // verus!
