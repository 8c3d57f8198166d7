//! The selection cursor of a list.
//!
//! A cursor is an optional index into the entries that are shown, not into
//! the whole list. What is shown changes with every keystroke while the
//! cursor is left alone, so a stored cursor may point past the end. It is
//! checked against the number of shown entries whenever it is read, and a
//! cursor out of range counts as no selection. Moving the cursor wraps round
//! at both ends.

use vstd::prelude::*;

verus! {

/// A step of the cursor.
#[derive(Clone, Copy, Debug, PartialEq, Eq, Structural)]
pub enum Move {
    Next,
    Previous,
}

/// The cursor is absent or points at one of `count` shown entries.
pub open spec fn in_range(selected: Option<usize>, count: usize) -> bool {
    selected matches Some(i) ==> i < count
}

/// The cursor as it is read: itself where it points at one of `count` shown
/// entries, absent otherwise.
pub open spec fn resolved(selected: Option<usize>, count: usize) -> Option<usize> {
    match selected {
        Some(i) => if i < count {
            Some(i)
        } else {
            None
        },
        None => None,
    }
}

/// The cursor one entry further: the first entry after the last one or when
/// nothing is selected, and absent when nothing is shown.
pub open spec fn next_of(selected: Option<usize>, count: usize) -> Option<usize> {
    if count == 0 {
        None
    } else {
        match resolved(selected, count) {
            Some(i) => if i + 1 < count {
                Some((i + 1) as usize)
            } else {
                Some(0)
            },
            None => Some(0),
        }
    }
}

/// The cursor one entry back: the last entry before the first one or when
/// nothing is selected, and absent when nothing is shown.
pub open spec fn previous_of(selected: Option<usize>, count: usize) -> Option<usize> {
    if count == 0 {
        None
    } else {
        match resolved(selected, count) {
            Some(i) => if i > 0 {
                Some((i - 1) as usize)
            } else {
                Some((count - 1) as usize)
            },
            None => Some((count - 1) as usize),
        }
    }
}

/// The cursor after one step.
pub open spec fn moved(selected: Option<usize>, count: usize, step: Move) -> Option<usize> {
    match step {
        Move::Next => next_of(selected, count),
        Move::Previous => previous_of(selected, count),
    }
}

/// The cursor after a sequence of steps, taken in order.
pub open spec fn moved_all(selected: Option<usize>, count: usize, steps: Seq<Move>) -> Option<
    usize,
>
    decreases steps.len(),
{
    if steps.len() == 0 {
        selected
    } else {
        moved(moved_all(selected, count, steps.drop_last()), count, steps.last())
    }
}

/// The cursor as it is read against `count` shown entries.
pub fn resolve(selected: Option<usize>, count: usize) -> (r: Option<usize>)
    ensures
        r == resolved(selected, count),
        in_range(r, count),
{
    match selected {
        Some(i) => if i < count {
            Some(i)
        } else {
            None
        },
        None => None,
    }
}

/// Moves the cursor one entry further over `count` shown entries.
pub fn select_next(selected: Option<usize>, count: usize) -> (r: Option<usize>)
    ensures
        r == next_of(selected, count),
        in_range(r, count),
{
    if count == 0 {
        return None;
    }
    match resolve(selected, count) {
        Some(i) => if i + 1 < count {
            Some(i + 1)
        } else {
            Some(0)
        },
        None => Some(0),
    }
}

/// Moves the cursor one entry back over `count` shown entries.
pub fn select_previous(selected: Option<usize>, count: usize) -> (r: Option<usize>)
    ensures
        r == previous_of(selected, count),
        in_range(r, count),
{
    if count == 0 {
        return None;
    }
    match resolve(selected, count) {
        Some(i) => if i > 0 {
            Some(i - 1)
        } else {
            Some(count - 1)
        },
        None => Some(count - 1),
    }
}

/// After any sequence of at least one step the cursor is absent or points at
/// a shown entry, wherever it stood before.
pub proof fn lemma_moves_stay_in_range(selected: Option<usize>, count: usize, steps: Seq<Move>)
    requires
        steps.len() > 0,
    ensures
        in_range(moved_all(selected, count, steps), count),
{
}

/// A cursor in range stays in range under any sequence of steps, the empty
/// one too.
pub proof fn lemma_in_range_is_kept(selected: Option<usize>, count: usize, steps: Seq<Move>)
    requires
        in_range(selected, count),
    ensures
        in_range(moved_all(selected, count, steps), count),
    decreases steps.len(),
{
    if steps.len() > 0 {
        lemma_in_range_is_kept(selected, count, steps.drop_last());
    }
}

/// On a cursor that points at a shown entry, a step further and a step back
/// undo each other.
pub proof fn lemma_steps_undo_each_other(selected: Option<usize>, count: usize)
    requires
        selected is Some,
        in_range(selected, count),
    ensures
        previous_of(next_of(selected, count), count) == selected,
        next_of(previous_of(selected, count), count) == selected,
{
}

} // verus!
