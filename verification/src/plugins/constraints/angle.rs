//! The angle range that a word may be turned in: between its neighbours.

use vstd::prelude::*;

verus! {

/// One end of a word's angle range.
#[derive(Debug, Copy, Clone, PartialEq, Eq, Structural)]
pub enum AngleBound {
    /// The start of the circle, 0°.
    Start,
    /// The end of the circle, 360°.
    End,
    /// The angle of the word at this position.
    AngleOf(usize),
}

/// The range of the word at `index` of `len` words: from its left neighbour (or the
/// start) to its right neighbour (or the end).
pub open spec fn word_angle_bounds_spec(index: nat, len: nat) -> (AngleBound, AngleBound) {
    (
        if index > 0 {
            AngleBound::AngleOf((index - 1) as usize)
        } else {
            AngleBound::Start
        },
        if index + 1 < len {
            AngleBound::AngleOf((index + 1) as usize)
        } else {
            AngleBound::End
        },
    )
}

/// The neighbours that bound the angle of the word at `index`.
pub fn word_angle_bounds(index: usize, len: usize) -> (r: (AngleBound, AngleBound))
    requires
        index < len,
    ensures
        r == word_angle_bounds_spec(index as nat, len as nat),
{
    let left = if index > 0 {
        AngleBound::AngleOf(index - 1)
    } else {
        AngleBound::Start
    };
    let right = if index < len - 1 {
        AngleBound::AngleOf(index + 1)
    } else {
        AngleBound::End
    };
    (left, right)
}

} // verus!
