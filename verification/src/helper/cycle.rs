//! Moving a selection through a list of `all` items.

use vstd::prelude::*;

verus! {

/// The item before `idx`, wrapping from the first to the last; the last item
/// where nothing is selected. `None` only where the list is empty.
pub fn prev(idx: Option<usize>, all: usize) -> (r: Option<usize>)
    ensures
        r == match idx {
            Some(i) => if i > 0 {
                Some((i - 1) as usize)
            } else if all > 0 {
                Some((all - 1) as usize)
            } else {
                None
            },
            None => if all > 0 {
                Some((all - 1) as usize)
            } else {
                None
            },
        },
{
    match idx {
        Some(i) => {
            if i > 0 {
                Some(i - 1)
            } else if all > 0 {
                Some(all - 1)
            } else {
                None
            }
        },
        None => {
            if all > 0 {
                Some(all - 1)
            } else {
                None
            }
        },
    }
}

/// The item after `idx`, wrapping from the last to the first; the first item
/// where nothing is selected. `None` only where the list is empty.
pub fn next(idx: Option<usize>, all: usize) -> (r: Option<usize>)
    ensures
        r == match idx {
            Some(i) => if i + 1 < all {
                Some((i + 1) as usize)
            } else if all > 0 {
                Some(0usize)
            } else {
                None
            },
            None => if all > 0 {
                Some(0usize)
            } else {
                None
            },
        },
{
    match idx {
        Some(i) => {
            if i < all && i + 1 < all {
                Some(i + 1)
            } else if all > 0 {
                Some(0)
            } else {
                None
            }
        },
        None => {
            if all > 0 {
                Some(0)
            } else {
                None
            }
        },
    }
}

/// The item before `idx` in a list that has one more place in front of the
/// first item, where nothing is selected: from the first item to that place,
/// from that place to the last item.
pub fn prev_opt(idx: Option<usize>, all: usize) -> (r: Option<usize>)
    ensures
        r == match idx {
            Some(i) => if i == 0 {
                None
            } else {
                Some((i - 1) as usize)
            },
            None => if all > 0 {
                Some((all - 1) as usize)
            } else {
                None
            },
        },
{
    match idx {
        Some(i) => {
            if i == 0 {
                None
            } else {
                Some(i - 1)
            }
        },
        None => {
            if all > 0 {
                Some(all - 1)
            } else {
                None
            }
        },
    }
}

/// The item after `idx` in a list that has one more place behind the last
/// item, where nothing is selected: from the last item to that place, from that
/// place to the first item.
pub fn next_opt(idx: Option<usize>, all: usize) -> (r: Option<usize>)
    ensures
        r == match idx {
            Some(i) => if i + 1 < all {
                Some((i + 1) as usize)
            } else {
                None
            },
            None => if all > 0 {
                Some(0usize)
            } else {
                None
            },
        },
{
    match idx {
        Some(i) => {
            if i < all && i + 1 < all {
                Some(i + 1)
            } else {
                None
            }
        },
        None => {
            if all > 0 {
                Some(0)
            } else {
                None
            }
        },
    }
}

} // verus!
