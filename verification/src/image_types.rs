//! The placement and decoration of letters, read from their lower-case text.

use crate::plugins::text_converter::components::letter::consonant::{
    consonant_of_lower, consonant_placement, Consonant as DrawnConsonant, ConsonantPlacement,
};
use crate::plugins::text_converter::components::letter::{
    letter_dots, letter_lines, vocal_of, vocal_placement, Letter as DrawnLetter, Vocal,
    VocalPlacement,
};
use crate::plugins::text_converter::letter::consonant::{
    cluster_placement, ConsonantPlacement as TextPlacement,
};
use crate::plugins::text_converter::letter::{
    is_cutting_letter, letter_of as text_letter_of, Decorated, Letter as TextLetter,
};
use crate::plugins::text_converter::line_slot::line_points_outside_spec;
use crate::text::{
    lemma_lower_text, lemma_utf8_len_ge_len, lemma_utf8_len_one, lower_text, quoted, utf8_len,
};
use vstd::prelude::*;

pub use crate::plugins::text_converter::components::letter as letter;

verus! {

#[derive(Debug, Copy, Clone, PartialEq, Eq, Structural)]
pub enum Placement {
    DeepCut,
    Inside,
    ShallowCut,
    OnLine,
    Outside,
}

/// The placement that a text names (lower case only).
pub open spec fn placement_of(s: Seq<char>) -> Option<Placement> {
    if (s.len() == 1 && s[0] == 'b') || (s.len() == 2 && s[0] == 'c' && s[1] == 'h') || (s.len() == 1 && s[0] == 'd') || (s.len() == 1 && s[0] == 'g') || (s.len() == 1 && s[0] == 'h') || (s.len() == 1 && s[0] == 'f') {
        Some(Placement::DeepCut)
    } else if (s.len() == 1 && s[0] == 'j') || (s.len() == 2 && s[0] == 'p' && s[1] == 'h') || (s.len() == 1 && s[0] == 'k') || (s.len() == 1 && s[0] == 'l') || (s.len() == 1 && s[0] == 'c') || (s.len() == 1 && s[0] == 'n') || (s.len() == 1 && s[0] == 'p') || (s.len() == 1 && s[0] == 'm') {
        Some(Placement::Inside)
    } else if (s.len() == 1 && s[0] == 't') || (s.len() == 2 && s[0] == 'w' && s[1] == 'h') || (s.len() == 2 && s[0] == 's' && s[1] == 'h') || (s.len() == 1 && s[0] == 'r') || (s.len() == 1 && s[0] == 'v') || (s.len() == 1 && s[0] == 'w') || (s.len() == 1 && s[0] == 's') {
        Some(Placement::ShallowCut)
    } else if (s.len() == 2 && s[0] == 't' && s[1] == 'h') || (s.len() == 2 && s[0] == 'g' && s[1] == 'h') || (s.len() == 1 && s[0] == 'y') || (s.len() == 1 && s[0] == 'z') || (s.len() == 1 && s[0] == 'q') || (s.len() == 2 && s[0] == 'q' && s[1] == 'u') || (s.len() == 1 && s[0] == 'x') || (s.len() == 2 && s[0] == 'n' && s[1] == 'g') {
        Some(Placement::OnLine)
    } else if (s.len() == 1 && s[0] == 'o') {
        Some(Placement::Inside)
    } else if (s.len() == 1 && s[0] == 'a') {
        Some(Placement::Outside)
    } else if (s.len() == 1 && s[0] == 'e') || (s.len() == 1 && s[0] == 'i') || (s.len() == 1 && s[0] == 'u') {
        Some(Placement::OnLine)
    } else {
        None
    }
}

/// The first two characters of a text, and its length, read for the tables below.
fn first_two(value: &str) -> (r: (usize, char, char))
    ensures
        r.0 == value@.len(),
        r.0 >= 1 ==> r.1 == value@[0],
        r.0 >= 2 ==> r.2 == value@[1],
{
    let n = value.unicode_len();
    let a = if n >= 1 { value.get_char(0) } else { ' ' };
    let b = if n >= 2 { value.get_char(1) } else { ' ' };
    (n, a, b)
}

/// Builds the message `Cannot assign <what> to '<value>' as it is not a valid letter!`.
fn cannot_assign(what: &str, value: &str) -> (r: String)
    ensures
        r@ == "Cannot assign "@ + what@ + " to "@ + quoted(value@, "' as it is not a valid letter!"@),
{
    let mut message = String::from_str("Cannot assign ");
    message.append(what);
    message.append(" to ");
    let quoted = crate::text::quoted_message(value, "' as it is not a valid letter!");
    message.append(quoted.as_str());
    message
}

impl Placement {
    /// Reads the placement of a letter from its lower-case text.
    pub fn try_from(value: &str) -> (r: Result<Placement, String>)
        ensures
            match placement_of(value@) {
                Some(p) => r == Ok::<Placement, String>(p),
                None => r is Err && r->Err_0@ == "Cannot assign "@ + "placement"@ + " to "@
                    + quoted(value@, "' as it is not a valid letter!"@),
            },
    {
        let (n, a, b) = first_two(value);
        let found = if (n == 1 && a == 'b') || (n == 2 && a == 'c' && b == 'h') || (n == 1 && a == 'd') || (n == 1 && a == 'g') || (n == 1 && a == 'h') || (n == 1 && a == 'f') {
            Some(Placement::DeepCut)
        } else if (n == 1 && a == 'j') || (n == 2 && a == 'p' && b == 'h') || (n == 1 && a == 'k') || (n == 1 && a == 'l') || (n == 1 && a == 'c') || (n == 1 && a == 'n') || (n == 1 && a == 'p') || (n == 1 && a == 'm') {
            Some(Placement::Inside)
        } else if (n == 1 && a == 't') || (n == 2 && a == 'w' && b == 'h') || (n == 2 && a == 's' && b == 'h') || (n == 1 && a == 'r') || (n == 1 && a == 'v') || (n == 1 && a == 'w') || (n == 1 && a == 's') {
            Some(Placement::ShallowCut)
        } else if (n == 2 && a == 't' && b == 'h') || (n == 2 && a == 'g' && b == 'h') || (n == 1 && a == 'y') || (n == 1 && a == 'z') || (n == 1 && a == 'q') || (n == 2 && a == 'q' && b == 'u') || (n == 1 && a == 'x') || (n == 2 && a == 'n' && b == 'g') {
            Some(Placement::OnLine)
        } else if (n == 1 && a == 'o') {
            Some(Placement::Inside)
        } else if (n == 1 && a == 'a') {
            Some(Placement::Outside)
        } else if (n == 1 && a == 'e') || (n == 1 && a == 'i') || (n == 1 && a == 'u') {
            Some(Placement::OnLine)
        } else {
            None
        };
        match found {
            Some(p) => Ok(p),
            None => Err(cannot_assign("placement", value)),
        }
    }
}

#[derive(Debug, Copy, Clone, PartialEq, Eq, Structural)]
pub enum Decoration {
    Undecorated,
    SingleDot,
    DoubleDot,
    TripleDot,
    QuadrupleDot,
    SingleLine,
    DoubleLine,
    TripleLine,
    LineInside,
    LineOutside,
}

/// The decoration that a text names (lower case only).
pub open spec fn decoration_of(s: Seq<char>) -> Option<Decoration> {
    if (s.len() == 1 && s[0] == 'b') || (s.len() == 1 && s[0] == 'j') || (s.len() == 1 && s[0] == 't') || (s.len() == 2 && s[0] == 't' && s[1] == 'h') {
        Some(Decoration::Undecorated)
    } else if (s.len() == 2 && s[0] == 'p' && s[1] == 'h') || (s.len() == 2 && s[0] == 'w' && s[1] == 'h') || (s.len() == 2 && s[0] == 'g' && s[1] == 'h') {
        Some(Decoration::SingleDot)
    } else if (s.len() == 2 && s[0] == 'c' && s[1] == 'h') || (s.len() == 1 && s[0] == 'k') || (s.len() == 2 && s[0] == 's' && s[1] == 'h') || (s.len() == 1 && s[0] == 'y') {
        Some(Decoration::DoubleDot)
    } else if (s.len() == 1 && s[0] == 'd') || (s.len() == 1 && s[0] == 'l') || (s.len() == 1 && s[0] == 'r') || (s.len() == 1 && s[0] == 'z') {
        Some(Decoration::TripleDot)
    } else if (s.len() == 1 && s[0] == 'c') || (s.len() == 1 && s[0] == 'q') {
        Some(Decoration::QuadrupleDot)
    } else if (s.len() == 1 && s[0] == 'g') || (s.len() == 1 && s[0] == 'n') || (s.len() == 1 && s[0] == 'v') || (s.len() == 2 && s[0] == 'q' && s[1] == 'u') {
        Some(Decoration::SingleLine)
    } else if (s.len() == 1 && s[0] == 'h') || (s.len() == 1 && s[0] == 'p') || (s.len() == 1 && s[0] == 'w') || (s.len() == 1 && s[0] == 'x') {
        Some(Decoration::DoubleLine)
    } else if (s.len() == 1 && s[0] == 'f') || (s.len() == 1 && s[0] == 'm') || (s.len() == 1 && s[0] == 's') || (s.len() == 2 && s[0] == 'n' && s[1] == 'g') {
        Some(Decoration::TripleLine)
    } else if (s.len() == 1 && s[0] == 'i') {
        Some(Decoration::LineInside)
    } else if (s.len() == 1 && s[0] == 'u') {
        Some(Decoration::LineOutside)
    } else if (s.len() == 1 && s[0] == 'a') || (s.len() == 1 && s[0] == 'e') || (s.len() == 1 && s[0] == 'o') {
        Some(Decoration::Undecorated)
    } else {
        None
    }
}

/// Number of dots of a decoration.
pub open spec fn decoration_dots(d: Decoration) -> nat {
    match d {
        Decoration::SingleDot => 1,
        Decoration::DoubleDot => 2,
        Decoration::TripleDot => 3,
        Decoration::QuadrupleDot => 4,
        _ => 0,
    }
}

/// Number of lines of a decoration.
pub open spec fn decoration_lines(d: Decoration) -> nat {
    match d {
        Decoration::SingleLine | Decoration::LineInside | Decoration::LineOutside => 1,
        Decoration::DoubleLine => 2,
        Decoration::TripleLine => 3,
        _ => 0,
    }
}

impl Decoration {
    /// Reads the decoration of a letter from its lower-case text.
    pub fn try_from(value: &str) -> (r: Result<Decoration, String>)
        ensures
            match decoration_of(value@) {
                Some(d) => r == Ok::<Decoration, String>(d),
                None => r is Err && r->Err_0@ == "Cannot assign "@ + "decoration"@ + " to "@
                    + quoted(value@, "' as it is not a valid letter!"@),
            },
    {
        let (n, a, b) = first_two(value);
        let found = if (n == 1 && a == 'b') || (n == 1 && a == 'j') || (n == 1 && a == 't') || (n == 2 && a == 't' && b == 'h') {
            Some(Decoration::Undecorated)
        } else if (n == 2 && a == 'p' && b == 'h') || (n == 2 && a == 'w' && b == 'h') || (n == 2 && a == 'g' && b == 'h') {
            Some(Decoration::SingleDot)
        } else if (n == 2 && a == 'c' && b == 'h') || (n == 1 && a == 'k') || (n == 2 && a == 's' && b == 'h') || (n == 1 && a == 'y') {
            Some(Decoration::DoubleDot)
        } else if (n == 1 && a == 'd') || (n == 1 && a == 'l') || (n == 1 && a == 'r') || (n == 1 && a == 'z') {
            Some(Decoration::TripleDot)
        } else if (n == 1 && a == 'c') || (n == 1 && a == 'q') {
            Some(Decoration::QuadrupleDot)
        } else if (n == 1 && a == 'g') || (n == 1 && a == 'n') || (n == 1 && a == 'v') || (n == 2 && a == 'q' && b == 'u') {
            Some(Decoration::SingleLine)
        } else if (n == 1 && a == 'h') || (n == 1 && a == 'p') || (n == 1 && a == 'w') || (n == 1 && a == 'x') {
            Some(Decoration::DoubleLine)
        } else if (n == 1 && a == 'f') || (n == 1 && a == 'm') || (n == 1 && a == 's') || (n == 2 && a == 'n' && b == 'g') {
            Some(Decoration::TripleLine)
        } else if (n == 1 && a == 'i') {
            Some(Decoration::LineInside)
        } else if (n == 1 && a == 'u') {
            Some(Decoration::LineOutside)
        } else if (n == 1 && a == 'a') || (n == 1 && a == 'e') || (n == 1 && a == 'o') {
            Some(Decoration::Undecorated)
        } else {
            None
        };
        match found {
            Some(d) => Ok(d),
            None => Err(cannot_assign("decoration", value)),
        }
    }

    pub fn dots(&self) -> (r: usize)
        ensures
            r == decoration_dots(*self),
    {
        match self {
            Decoration::SingleDot => 1,
            Decoration::DoubleDot => 2,
            Decoration::TripleDot => 3,
            Decoration::QuadrupleDot => 4,
            _ => 0,
        }
    }

    pub fn lines(&self) -> (r: usize)
        ensures
            r == decoration_lines(*self),
    {
        match self {
            Decoration::SingleLine | Decoration::LineInside | Decoration::LineOutside => 1,
            Decoration::DoubleLine => 2,
            Decoration::TripleLine => 3,
            _ => 0,
        }
    }

    /// Whether the decoration's lines point away from the letter: all but those
    /// drawn inside.
    pub fn line_points_outside(&self) -> (r: bool)
        ensures
            r == (*self != Decoration::LineInside),
    {
        match self {
            Decoration::LineInside => false,
            _ => true,
        }
    }
}

/// A placement whose letter cuts the word circle: deep or shallow.
pub open spec fn placement_cuts(p: Placement) -> bool {
    p == Placement::DeepCut || p == Placement::ShallowCut
}

impl Placement {
    /// Whether a letter with this placement cuts the word circle, and so is drawn
    /// cut out of it.
    pub fn cuts(&self) -> (r: bool)
        ensures
            r == placement_cuts(*self),
    {
        match self {
            Placement::DeepCut | Placement::ShallowCut => true,
            Placement::Inside | Placement::OnLine | Placement::Outside => false,
        }
    }
}

/// The positions, in order, of the letters that cut the word circle.
pub open spec fn cutting_positions(placements: Seq<Placement>) -> Seq<usize>
    decreases placements.len(),
{
    if placements.len() == 0 {
        seq![]
    } else if placement_cuts(placements.last()) {
        cutting_positions(placements.drop_last()).push((placements.len() - 1) as usize)
    } else {
        cutting_positions(placements.drop_last())
    }
}

/// The letters of a word that the exported image cuts out of the word circle. A
/// word without any is drawn as a plain circle; otherwise the word circle is
/// masked by these letters.
pub fn cutting_letters(placements: &Vec<Placement>) -> (r: Vec<usize>)
    ensures
        r@ == cutting_positions(placements@),
{
    let mut r: Vec<usize> = Vec::new();
    let mut i: usize = 0;
    while i < placements.len()
        invariant
            i <= placements.len(),
            r@ == cutting_positions(placements@.take(i as int)),
        decreases placements.len() - i,
    {
        proof {
            assert(placements@.take(i + 1).drop_last() =~= placements@.take(i as int));
        }
        if placements[i].cuts() {
            r.push(i);
        }
        i = i + 1;
    }
    proof {
        assert(placements@.take(placements.len() as int) =~= placements@);
    }
    r
}

/// Exactly the cutting letters are listed, each once and in order.
pub proof fn lemma_cutting_positions(placements: Seq<Placement>)
    requires
        placements.len() <= usize::MAX,
    ensures
        forall|k: int|
            0 <= k < cutting_positions(placements).len() ==> (
            #[trigger] cutting_positions(placements)[k]) < placements.len() && placement_cuts(
                placements[cutting_positions(placements)[k] as int],
            ),
        forall|j: int|
            0 <= j < placements.len() && placement_cuts(#[trigger] placements[j]) ==> exists|k: int|
                0 <= k < cutting_positions(placements).len() && cutting_positions(placements)[k]
                    == j,
        forall|a: int, b: int|
            0 <= a < b < cutting_positions(placements).len() ==> #[trigger] cutting_positions(
                placements,
            )[a] < #[trigger] cutting_positions(placements)[b],
    decreases placements.len(),
{
    if placements.len() > 0 {
        let init = placements.drop_last();
        let n = placements.len() - 1;
        let ci = cutting_positions(init);
        let c = cutting_positions(placements);
        lemma_cutting_positions(init);
        assert forall|k: int| 0 <= k < ci.len() implies c[k] == ci[k] && ci[k] < n by {
            if placement_cuts(placements.last()) {
                assert(c == ci.push(n as usize));
            }
        }
        assert forall|k: int| 0 <= k < c.len() implies (#[trigger] c[k]) < placements.len()
            && placement_cuts(placements[c[k] as int]) by {
            if k < ci.len() {
                assert(init[ci[k] as int] == placements[ci[k] as int]);
            }
        }
        assert forall|j: int| 0 <= j < placements.len() && placement_cuts(
            #[trigger] placements[j],
        ) implies exists|k: int| 0 <= k < c.len() && c[k] == j by {
            if j < n {
                assert(init[j] == placements[j]);
                let k = choose|k: int| 0 <= k < ci.len() && ci[k] == j;
                assert(c[k] == j);
            } else {
                assert(c[c.len() - 1] == j);
            }
        }
    }
}

/// The lower-case text of a consonant of the drawing model.
pub open spec fn consonant_text(c: DrawnConsonant) -> Seq<char> {
    match c {
        DrawnConsonant::B => seq!['b'],
        DrawnConsonant::J => seq!['j'],
        DrawnConsonant::T => seq!['t'],
        DrawnConsonant::TH => seq!['t', 'h'],
        DrawnConsonant::PH => seq!['p', 'h'],
        DrawnConsonant::WH => seq!['w', 'h'],
        DrawnConsonant::GH => seq!['g', 'h'],
        DrawnConsonant::CH => seq!['c', 'h'],
        DrawnConsonant::K => seq!['k'],
        DrawnConsonant::SH => seq!['s', 'h'],
        DrawnConsonant::Y => seq!['y'],
        DrawnConsonant::D => seq!['d'],
        DrawnConsonant::L => seq!['l'],
        DrawnConsonant::R => seq!['r'],
        DrawnConsonant::Z => seq!['z'],
        DrawnConsonant::C => seq!['c'],
        DrawnConsonant::Q => seq!['q'],
        DrawnConsonant::G => seq!['g'],
        DrawnConsonant::N => seq!['n'],
        DrawnConsonant::V => seq!['v'],
        DrawnConsonant::QU => seq!['q', 'u'],
        DrawnConsonant::H => seq!['h'],
        DrawnConsonant::P => seq!['p'],
        DrawnConsonant::W => seq!['w'],
        DrawnConsonant::X => seq!['x'],
        DrawnConsonant::F => seq!['f'],
        DrawnConsonant::M => seq!['m'],
        DrawnConsonant::S => seq!['s'],
        DrawnConsonant::NG => seq!['n', 'g'],
    }
}

/// The lower-case text of a vocal.
pub open spec fn vocal_text(v: Vocal) -> Seq<char> {
    match v {
        Vocal::A => seq!['a'],
        Vocal::E => seq!['e'],
        Vocal::I => seq!['i'],
        Vocal::O => seq!['o'],
        Vocal::U => seq!['u'],
    }
}

/// The placement of the image tables that a consonant placement stands for.
pub open spec fn from_consonant_placement(p: ConsonantPlacement) -> Placement {
    match p {
        ConsonantPlacement::DeepCut => Placement::DeepCut,
        ConsonantPlacement::Inside => Placement::Inside,
        ConsonantPlacement::ShallowCut => Placement::ShallowCut,
        ConsonantPlacement::OnLine => Placement::OnLine,
    }
}

/// The placement of the image tables that a vocal placement stands for.
pub open spec fn from_vocal_placement(p: VocalPlacement) -> Placement {
    match p {
        VocalPlacement::Inside => Placement::Inside,
        VocalPlacement::OnLine => Placement::OnLine,
        VocalPlacement::Outside => Placement::Outside,
    }
}

/// The tables that read a letter's placement and decoration from its text agree
/// with those of the drawing model: each consonant's text names that consonant, its
/// placement, and a decoration with its number of dots and lines.
pub proof fn lemma_consonant_tables_agree(c: DrawnConsonant)
    ensures
        consonant_of_lower(consonant_text(c)) == Some(c),
        placement_of(consonant_text(c)) == Some(from_consonant_placement(consonant_placement(c))),
        decoration_of(consonant_text(c)) is Some,
        decoration_dots(decoration_of(consonant_text(c))->Some_0) == letter_dots(
            DrawnLetter::Consonant(c),
        ),
        decoration_lines(decoration_of(consonant_text(c))->Some_0) == letter_lines(
            DrawnLetter::Consonant(c),
        ),
{
}

/// Each vocal's text names that vocal, its placement, and a decoration with its
/// number of lines; vocals carry no dots.
pub proof fn lemma_vocal_tables_agree(v: Vocal)
    ensures
        vocal_of(vocal_text(v)) == Some(v),
        placement_of(vocal_text(v)) == Some(from_vocal_placement(vocal_placement(v))),
        decoration_of(vocal_text(v)) is Some,
        decoration_dots(decoration_of(vocal_text(v))->Some_0) == letter_dots(DrawnLetter::Vocal(v)),
        decoration_lines(decoration_of(vocal_text(v))->Some_0) == letter_lines(
            DrawnLetter::Vocal(v),
        ),
{
}

/// The placement of the image tables that a placement of the text converter stands
/// for.
pub open spec fn from_text_placement(p: TextPlacement) -> Placement {
    match p {
        TextPlacement::DeepCut => Placement::DeepCut,
        TextPlacement::Inside => Placement::Inside,
        TextPlacement::ShallowCut => Placement::ShallowCut,
        TextPlacement::OnLine => Placement::OnLine,
    }
}

/// The letters of the text converter are placed and decorated as the alphabet's
/// tables say: every text that names a letter there names, in lower case, the same
/// placement in the image tables (so the same letters cut the word circle), a
/// decoration with the letter's number of dots and lines, and lines that point
/// outward exactly when its decoration is a line outside.
pub proof fn lemma_text_letters_follow_tables(s: Seq<char>)
    requires
        text_letter_of(s) is Some,
    ensures
        placement_of(lower_text(s)) is Some,
        decoration_of(lower_text(s)) is Some,
        placement_of(lower_text(s)) == Some(
            match text_letter_of(s)->Some_0 {
                TextLetter::Consonant(c) => from_text_placement(cluster_placement(c)),
                TextLetter::Vocal(v) => from_vocal_placement(vocal_placement(v)),
            },
        ),
        placement_cuts(placement_of(lower_text(s))->Some_0) == is_cutting_letter(
            text_letter_of(s)->Some_0,
        ),
        decoration_dots(decoration_of(lower_text(s))->Some_0) == text_letter_of(s)->Some_0.dots_of(),
        decoration_lines(decoration_of(lower_text(s))->Some_0) == text_letter_of(
            s,
        )->Some_0.lines_of(),
        line_points_outside_spec(text_letter_of(s)) == (decoration_of(lower_text(s)) == Some(
            Decoration::LineOutside,
        )),
{
    lemma_utf8_len_one(s);
    lemma_utf8_len_ge_len(s);
    lemma_lower_text(s);
    if s.len() == 2 {
        reveal_with_fuel(utf8_len, 3);
        assert(s.drop_first().drop_first().len() == 0);
    }
}

} // verus!
