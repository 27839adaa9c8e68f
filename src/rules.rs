use vstd::prelude::*;

verus! {

/// The next state of a cell, from its current state and the number of its live neighbours.
pub open spec fn next_state(state: int, neighs: int) -> int {
    if state == 1 {
        if neighs < 2 || neighs > 3 { 0 } else { 1 }
    } else {
        if neighs == 3 { 1 } else { 0 }
    }
}

/// Standard Life transition: a live cell survives with two or three live
/// neighbours, a dead cell is born with exactly three.
pub fn rules(state: i32, neighs: i32) -> (r: i32)
    requires
        state == 0 || state == 1,
    ensures
        r as int == next_state(state as int, neighs as int),
{
    if state == 1 {
        if neighs < 2 {
            0
        } else if neighs > 3 {
            0
        } else {
            1
        }
    } else {
        if neighs == 3 {
            1
        } else {
            0
        }
    }
}

} // verus!
