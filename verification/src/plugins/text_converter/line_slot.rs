//! Which way the line slots of a letter point.

use super::components::letter::{Letter as DrawnLetter, vocal_decoration as drawn_vocal_decoration};
use super::letter::vocal::{vocal_decoration, VocalDecoration};
use super::letter::Letter;
use vstd::prelude::*;

verus! {

/// The lines of a letter point outward only for a vocal whose line is drawn outside.
pub open spec fn line_points_outside_spec(letter: Option<Letter>) -> bool {
    match letter {
        Some(Letter::Vocal(v)) => vocal_decoration(v) == VocalDecoration::LineOutside,
        _ => false,
    }
}

/// Whether the line slots of the parent (a letter, or another circle) point outward.
pub fn line_points_outside(letter: Option<Letter>) -> (r: bool)
    ensures
        r == line_points_outside_spec(letter),
{
    match letter {
        Some(Letter::Vocal(vocal)) => VocalDecoration::from(vocal) == VocalDecoration::LineOutside,
        Some(Letter::Consonant(_)) => false,
        None => false,
    }
}

/// The same rule for a letter of the drawing model, which may hold a nested vocal.
pub fn drawn_line_points_outside(letter: DrawnLetter) -> (r: bool)
    ensures
        r == match letter {
            DrawnLetter::Vocal(v) => drawn_vocal_decoration(v) == VocalDecoration::LineOutside,
            _ => false,
        },
{
    match letter {
        DrawnLetter::Vocal(vocal) => VocalDecoration::from(vocal) == VocalDecoration::LineOutside,
        DrawnLetter::Consonant(_) | DrawnLetter::ConsonantWithVocal { .. } => false,
    }
}

} // verus!
