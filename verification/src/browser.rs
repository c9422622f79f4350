use vstd::prelude::*;
use vstd::arithmetic::div_mod::lemma_fundamental_div_mod_converse_mod;

verus! {

/// The selection after moving down a list of `len` entries: past the last
/// entry it wraps to the first; with nothing selected the first is taken.
pub open spec fn down_index(selected: Option<usize>, len: int) -> int {
    match selected {
        Some(i) => if i >= len - 1 {
            0
        } else {
            i + 1
        },
        None => 0,
    }
}

/// The selection after moving up: above the first entry it wraps to the
/// last; with nothing selected the first is taken.
pub open spec fn up_index(selected: Option<usize>, len: int) -> int {
    match selected {
        Some(i) => if i == 0 {
            len - 1
        } else {
            i - 1
        },
        None => 0,
    }
}

/// Moves the selection of the file list down. With a selection, the list
/// cannot be empty.
pub fn select_down(selected: Option<usize>, len: usize) -> (i: usize)
    requires
        selected is Some ==> len > 0,
    ensures
        i == down_index(selected, len as int),
        selected matches Some(s) ==> (s < len ==> i == (s + 1) % (len as int)),
        selected is None ==> i == 0,
{
    proof {
        if let Some(s) = selected {
            if s < len {
                lemma_moves_wrap_round(s, len as int);
            }
        }
    }
    match selected {
        Some(i) => if i >= len - 1 {
            0
        } else {
            i + 1
        },
        None => 0,
    }
}

/// Moves the selection of the file list up. Wrapping round from the first
/// entry needs a last one.
pub fn select_up(selected: Option<usize>, len: usize) -> (i: usize)
    requires
        selected == Some(0usize) ==> len > 0,
    ensures
        i == up_index(selected, len as int),
        selected matches Some(s) ==> (s < len ==> i == (s + len - 1) % (len as int)),
        selected is None ==> i == 0,
{
    proof {
        if let Some(s) = selected {
            if s < len {
                lemma_moves_wrap_round(s, len as int);
            }
        }
    }
    match selected {
        Some(i) => if i == 0 {
            len - 1
        } else {
            i - 1
        },
        None => 0,
    }
}

/// The entry that Enter opens: the selected one, if any.
pub fn chosen_entry(entries: &Vec<String>, selected: Option<usize>) -> (e: Option<&String>)
    requires
        selected matches Some(i) ==> i < entries.len(),
    ensures
        selected is None ==> e is None,
        selected matches Some(i) ==> e == Some(&entries@[i as int]),
{
    match selected {
        Some(i) => Some(&entries[i]),
        None => None,
    }
}

/// Moving down or up from an entry of a non-empty list lands on an entry
/// of it.
pub proof fn lemma_selection_stays_in_list(selected: Option<usize>, len: int)
    requires
        len > 0,
        selected matches Some(i) ==> i < len,
    ensures
        0 <= down_index(selected, len) < len,
        0 <= up_index(selected, len) < len,
{
}

/// Down moves to the next entry round the list, up to the previous one:
/// from entry `i` of `len`, down lands on `(i + 1) % len` and up on
/// `(i + len - 1) % len`; with nothing selected both land on the first.
pub proof fn lemma_moves_wrap_round(i: usize, len: int)
    requires
        0 <= i < len,
        len <= usize::MAX,
    ensures
        down_index(Some(i), len) == (i + 1) % len,
        up_index(Some(i), len) == (i + len - 1) % len,
        down_index(None, len) == 0,
        up_index(None, len) == 0,
{
    if i + 1 < len {
        lemma_fundamental_div_mod_converse_mod(i + 1, len, 0, i + 1);
    } else {
        lemma_fundamental_div_mod_converse_mod(i + 1, len, 1, 0);
    }
    if i == 0 {
        lemma_fundamental_div_mod_converse_mod(len - 1, len, 0, len - 1);
    } else {
        lemma_fundamental_div_mod_converse_mod(i + len - 1, len, 1, i - 1);
    }
}

/// Down then up, or up then down, returns to the same entry of a list.
pub proof fn lemma_down_up_inverse(i: usize, len: int)
    requires
        0 <= i < len,
        len <= usize::MAX,
    ensures
        up_index(Some(down_index(Some(i), len) as usize), len) == i,
        down_index(Some(up_index(Some(i), len) as usize), len) == i,
{
}

} // verus!
