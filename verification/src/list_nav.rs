//! Cycling selection for the on-screen lists.
//!
//! Moving the selection down past the last entry wraps to the first, and up
//! past the first wraps to the last; with nothing selected yet, down lands
//! on the first entry and up on the last.

use vstd::prelude::*;

verus! {

/// Where the selection lands after one step down.
pub open spec fn spec_next_index(len: int, selected: Option<usize>) -> int {
    match selected {
        Some(s) => if s as int % len + 1 == len {
            0
        } else {
            s as int % len + 1
        },
        None => 0,
    }
}

/// Where the selection lands after one step up.
pub open spec fn spec_prev_index(len: int, selected: Option<usize>) -> int {
    match selected {
        Some(s) => if s as int % len == 0 {
            len - 1
        } else {
            s as int % len - 1
        },
        None => len - 1,
    }
}

/// Step the selection down, wrapping at the end of the list.
pub fn next_index(len: usize, selected: Option<usize>) -> (r: usize)
    requires
        len > 0,
    ensures
        r == spec_next_index(len as int, selected),
        r < len,
{
    match selected {
        Some(s) => {
            let t = s % len;
            if t + 1 == len {
                0
            } else {
                t + 1
            }
        },
        None => 0,
    }
}

/// Step the selection up, wrapping at the start of the list.
pub fn prev_index(len: usize, selected: Option<usize>) -> (r: usize)
    requires
        len > 0,
    ensures
        r == spec_prev_index(len as int, selected),
        r < len,
{
    match selected {
        Some(s) => {
            let t = s % len;
            if t == 0 {
                len - 1
            } else {
                t - 1
            }
        },
        None => len - 1,
    }
}

} // verus!
