//! Selection cursors over lists: circular movement, repair after the list
//! changed, and the adjustment after the selected row was deleted.
use vstd::prelude::*;

verus! {

/// A selection that points into a list of `len` rows: none exactly when
/// the list is empty.
pub open spec fn selection_valid(sel: Option<usize>, len: nat) -> bool {
    match sel {
        Some(i) => i < len,
        None => len == 0,
    }
}

/// Moves the selection one row down, wrapping to the first row; an empty
/// list keeps its selection.
pub fn list_next(state: &mut Option<usize>, list_len: usize)
    ensures
        list_len == 0 ==> *final(state) == *old(state),
        list_len > 0 ==> *final(state) == Some(
            match *old(state) {
                Some(i) => if i >= list_len - 1 {
                    0
                } else {
                    (i + 1) as usize
                },
                None => 0,
            },
        ),
{
    if list_len == 0 {
        return;
    }
    let i: usize = match *state {
        Some(i) => if i >= list_len - 1 {
            0
        } else {
            i + 1
        },
        None => 0,
    };
    *state = Some(i);
}

/// Moves the selection one row up, wrapping to the last row; an empty list
/// keeps its selection.
pub fn list_previous(state: &mut Option<usize>, list_len: usize)
    ensures
        list_len == 0 ==> *final(state) == *old(state),
        list_len > 0 ==> *final(state) == Some(
            match *old(state) {
                Some(i) => if i == 0 {
                    (list_len - 1) as usize
                } else {
                    (i - 1) as usize
                },
                None => (list_len - 1) as usize,
            },
        ),
{
    if list_len == 0 {
        return;
    }
    let i: usize = match *state {
        Some(i) => if i == 0 {
            list_len - 1
        } else {
            i - 1
        },
        None => list_len - 1,
    };
    *state = Some(i);
}

/// Repairs a selection after its list changed: none for an empty list, the
/// last row for one past the end, the first row for none; a valid one stays.
pub fn ensure_selection_is_valid(state: &mut Option<usize>, list_len: usize)
    ensures
        selection_valid(*final(state), list_len as nat),
        list_len == 0 ==> *final(state) is None,
        list_len > 0 ==> *final(state) == Some(
            match *old(state) {
                Some(i) => if i >= list_len {
                    (list_len - 1) as usize
                } else {
                    i
                },
                None => 0,
            },
        ),
{
    if list_len == 0 {
        *state = None;
    } else {
        match *state {
            Some(i) => {
                if i >= list_len {
                    *state = Some(list_len - 1);
                }
            },
            None => {
                *state = Some(0);
            },
        }
    }
}

/// The selection after the selected row of a list of `old_len` rows was
/// deleted: where that was the last row, the new last row, or none once the
/// list is empty; otherwise the index is kept and now names the row that
/// followed.
pub open spec fn selection_after_delete_spec(sel: Option<usize>, old_len: nat) -> Option<usize> {
    match sel {
        Some(i) => if old_len >= 1 && i >= old_len - 1 {
            if old_len <= 1 {
                None
            } else {
                Some((old_len - 2) as usize)
            }
        } else {
            Some(i)
        },
        None => None,
    }
}

/// Adjusts a selection after the selected row was deleted.
pub fn selection_after_delete(sel: Option<usize>, old_len: usize) -> (r: Option<usize>)
    ensures
        r == selection_after_delete_spec(sel, old_len as nat),
{
    match sel {
        Some(i) => if old_len >= 1 && i >= old_len - 1 {
            if old_len <= 1 {
                None
            } else {
                Some(old_len - 2)
            }
        } else {
            Some(i)
        },
        None => None,
    }
}

/// Deleting the selected row keeps the selection valid: on the last row it
/// moves to the new last row, or to none when the list empties; on any
/// other row the index stays as it was.
pub proof fn lemma_delete_keeps_selection_valid(sel: Option<usize>, old_len: nat)
    requires
        selection_valid(sel, old_len),
        1 <= old_len <= usize::MAX,
    ensures
        selection_valid(selection_after_delete_spec(sel, old_len), (old_len - 1) as nat),
        sel == Some((old_len - 1) as usize) ==> selection_after_delete_spec(sel, old_len) == (
        if old_len == 1 {
            None::<usize>
        } else {
            Some((old_len - 2) as usize)
        }),
        (sel matches Some(i) && i < old_len - 1) ==> selection_after_delete_spec(sel, old_len)
            == sel,
{
}

} // verus!
