//! Moving a selection cursor through a list, wrapping at the ends.

use vstd::prelude::*;

verus! {

/// The selection after moving down a list of `length` entries: nothing in
/// an empty list, the first entry from no selection or from the last
/// entry (or beyond), the next entry otherwise.
pub fn select_down(current: Option<usize>, length: usize) -> (r: Option<usize>)
    ensures
        length == 0 ==> r is None,
        length > 0 && current is None ==> r == Some(0usize),
        length > 0 && current is Some && current->0 >= length - 1 ==> r == Some(0usize),
        length > 0 && current is Some && current->0 < length - 1 ==> r == Some(
            (current->0 + 1) as usize,
        ),
{
    if length < 1 {
        None
    } else {
        match current {
            None => Some(0),
            Some(c) => {
                let limit = length - 1;
                if c >= limit {
                    Some(0)
                } else {
                    Some(c + 1)
                }
            },
        }
    }
}

/// The selection after moving up a list of `length` entries: nothing in an
/// empty list, the last entry from no selection or from the first entry,
/// the previous entry otherwise.
pub fn select_up(current: Option<usize>, length: usize) -> (r: Option<usize>)
    ensures
        length == 0 ==> r is None,
        length > 0 && current is None ==> r == Some((length - 1) as usize),
        length > 0 && current == Some(0usize) ==> r == Some((length - 1) as usize),
        length > 0 && current is Some && current->0 > 0 ==> r == Some((current->0 - 1) as usize),
{
    if length < 1 {
        None
    } else {
        match current {
            None => Some(length - 1),
            Some(c) => {
                if c == 0 {
                    Some(length - 1)
                } else {
                    Some(c - 1)
                }
            },
        }
    }
}

} // verus!
