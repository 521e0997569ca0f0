use vstd::prelude::*;

verus! {

/// Next library row after a downward move: one step down, wrapping from the
/// last row back to the first; with no row selected, the first is taken.
pub fn down(selected: Option<usize>, len: usize) -> (r: usize)
    requires
        len > 0,
    ensures
        r == (match selected {
            Some(i) => if i >= len - 1 {
                0int
            } else {
                i + 1
            },
            None => 0int,
        }),
        r < len,
{
    match selected {
        Some(i) => if i >= len - 1 {
            0
        } else {
            i + 1
        },
        None => 0,
    }
}

/// Next library row after an upward move: one step up, wrapping from the
/// first row back to the last; with no row selected, the first is taken.
pub fn up(selected: Option<usize>, len: usize) -> (r: usize)
    requires
        len > 0,
    ensures
        r == (match selected {
            Some(i) => if i == 0 {
                len - 1
            } else {
                i - 1
            },
            None => 0int,
        }),
        (match selected {
            Some(i) => i < len,
            None => true,
        }) ==> r < len,
{
    match selected {
        Some(i) => if i == 0 {
            len - 1
        } else {
            i - 1
        },
        None => 0,
    }
}

} // verus!
