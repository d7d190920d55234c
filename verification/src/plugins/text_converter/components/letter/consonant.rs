use crate::text::{ascii_lower, quoted, quoted_message};
use vstd::prelude::*;

verus! {

/// A consonant of the drawing model, digraphs included.
#[derive(Debug, Copy, Clone, PartialEq, Eq, Structural, Hash)]
pub enum Consonant {
    B,
    J,
    T,
    TH,
    PH,
    WH,
    GH,
    CH,
    K,
    SH,
    Y,
    D,
    L,
    R,
    Z,
    C,
    Q,
    G,
    N,
    V,
    QU,
    H,
    P,
    W,
    X,
    F,
    M,
    S,
    NG,
}

/// The consonant that a lower-case text of one or two letters names.
pub open spec fn consonant_of_lower(s: Seq<char>) -> Option<Consonant> {
    if s.len() == 1 && s[0] == 'b' {
        Some(Consonant::B)
    } else if s.len() == 1 && s[0] == 'j' {
        Some(Consonant::J)
    } else if s.len() == 1 && s[0] == 't' {
        Some(Consonant::T)
    } else if s.len() == 2 && s[0] == 't' && s[1] == 'h' {
        Some(Consonant::TH)
    } else if s.len() == 2 && s[0] == 'p' && s[1] == 'h' {
        Some(Consonant::PH)
    } else if s.len() == 2 && s[0] == 'w' && s[1] == 'h' {
        Some(Consonant::WH)
    } else if s.len() == 2 && s[0] == 'g' && s[1] == 'h' {
        Some(Consonant::GH)
    } else if s.len() == 2 && s[0] == 'c' && s[1] == 'h' {
        Some(Consonant::CH)
    } else if s.len() == 1 && s[0] == 'k' {
        Some(Consonant::K)
    } else if s.len() == 2 && s[0] == 's' && s[1] == 'h' {
        Some(Consonant::SH)
    } else if s.len() == 1 && s[0] == 'y' {
        Some(Consonant::Y)
    } else if s.len() == 1 && s[0] == 'd' {
        Some(Consonant::D)
    } else if s.len() == 1 && s[0] == 'l' {
        Some(Consonant::L)
    } else if s.len() == 1 && s[0] == 'r' {
        Some(Consonant::R)
    } else if s.len() == 1 && s[0] == 'z' {
        Some(Consonant::Z)
    } else if s.len() == 1 && s[0] == 'c' {
        Some(Consonant::C)
    } else if s.len() == 1 && s[0] == 'q' {
        Some(Consonant::Q)
    } else if s.len() == 1 && s[0] == 'g' {
        Some(Consonant::G)
    } else if s.len() == 1 && s[0] == 'n' {
        Some(Consonant::N)
    } else if s.len() == 1 && s[0] == 'v' {
        Some(Consonant::V)
    } else if s.len() == 2 && s[0] == 'q' && s[1] == 'u' {
        Some(Consonant::QU)
    } else if s.len() == 1 && s[0] == 'h' {
        Some(Consonant::H)
    } else if s.len() == 1 && s[0] == 'p' {
        Some(Consonant::P)
    } else if s.len() == 1 && s[0] == 'w' {
        Some(Consonant::W)
    } else if s.len() == 1 && s[0] == 'x' {
        Some(Consonant::X)
    } else if s.len() == 1 && s[0] == 'f' {
        Some(Consonant::F)
    } else if s.len() == 1 && s[0] == 'm' {
        Some(Consonant::M)
    } else if s.len() == 1 && s[0] == 's' {
        Some(Consonant::S)
    } else if s.len() == 2 && s[0] == 'n' && s[1] == 'g' {
        Some(Consonant::NG)
    } else {
        None
    }
}

/// The consonant that a text names, ignoring ASCII case.
pub open spec fn consonant_of(s: Seq<char>) -> Option<Consonant> {
    consonant_of_lower(s.map_values(|c: char| ascii_lower(c)))
}

/// Whether a character is the given lower-case letter in either case.
fn is_letter(c: char, lower: char) -> (r: bool)
    requires
        'a' <= lower <= 'z',
    ensures
        r == (ascii_lower(c) == lower),
{
    c == lower || (c as u32) + 32 == (lower as u32)
}

impl Consonant {
    /// Parses a consonant or digraph, ignoring ASCII case.
    pub fn try_from(value: &str) -> (r: Result<Consonant, String>)
        ensures
            match consonant_of(value@) {
                Some(c) => r == Ok::<Consonant, String>(c),
                None => r is Err && r->Err_0@ == quoted(value@, "' is not a valid consonant!"@),
            },
    {
        let n = value.unicode_len();
        let ghost lower = value@.map_values(|c: char| ascii_lower(c));
        let consonant = if n == 1 {
            let c = value.get_char(0);
            if is_letter(c, 'b') {
                Some(Consonant::B)
            } else if is_letter(c, 'j') {
                Some(Consonant::J)
            } else if is_letter(c, 't') {
                Some(Consonant::T)
            } else if is_letter(c, 'k') {
                Some(Consonant::K)
            } else if is_letter(c, 'y') {
                Some(Consonant::Y)
            } else if is_letter(c, 'd') {
                Some(Consonant::D)
            } else if is_letter(c, 'l') {
                Some(Consonant::L)
            } else if is_letter(c, 'r') {
                Some(Consonant::R)
            } else if is_letter(c, 'z') {
                Some(Consonant::Z)
            } else if is_letter(c, 'c') {
                Some(Consonant::C)
            } else if is_letter(c, 'q') {
                Some(Consonant::Q)
            } else if is_letter(c, 'g') {
                Some(Consonant::G)
            } else if is_letter(c, 'n') {
                Some(Consonant::N)
            } else if is_letter(c, 'v') {
                Some(Consonant::V)
            } else if is_letter(c, 'h') {
                Some(Consonant::H)
            } else if is_letter(c, 'p') {
                Some(Consonant::P)
            } else if is_letter(c, 'w') {
                Some(Consonant::W)
            } else if is_letter(c, 'x') {
                Some(Consonant::X)
            } else if is_letter(c, 'f') {
                Some(Consonant::F)
            } else if is_letter(c, 'm') {
                Some(Consonant::M)
            } else if is_letter(c, 's') {
                Some(Consonant::S)
            } else {
                None
            }
        } else if n == 2 {
            let a = value.get_char(0);
            let b = value.get_char(1);
            if is_letter(a, 't') && is_letter(b, 'h') {
                Some(Consonant::TH)
            } else if is_letter(a, 'p') && is_letter(b, 'h') {
                Some(Consonant::PH)
            } else if is_letter(a, 'w') && is_letter(b, 'h') {
                Some(Consonant::WH)
            } else if is_letter(a, 'g') && is_letter(b, 'h') {
                Some(Consonant::GH)
            } else if is_letter(a, 'c') && is_letter(b, 'h') {
                Some(Consonant::CH)
            } else if is_letter(a, 's') && is_letter(b, 'h') {
                Some(Consonant::SH)
            } else if is_letter(a, 'q') && is_letter(b, 'u') {
                Some(Consonant::QU)
            } else if is_letter(a, 'n') && is_letter(b, 'g') {
                Some(Consonant::NG)
            } else {
                None
            }
        } else {
            None
        };
        proof {
            if n == 1 {
                assert(lower =~= seq![ascii_lower(value@[0])]);
            } else if n == 2 {
                assert(lower =~= seq![ascii_lower(value@[0]), ascii_lower(value@[1])]);
            }
        }
        match consonant {
            Some(c) => Ok(c),
            None => Err(quoted_message(value, "' is not a valid consonant!")),
        }
    }
}

#[derive(Debug, Copy, Clone, PartialEq, Eq, Structural)]
pub enum ConsonantPlacement {
    DeepCut,
    Inside,
    ShallowCut,
    OnLine,
}

/// Where a consonant sits relative to the word circle.
pub open spec fn consonant_placement(value: Consonant) -> ConsonantPlacement {
    match value {
        Consonant::B | Consonant::CH | Consonant::D | Consonant::G | Consonant::H | Consonant::F => {
            ConsonantPlacement::DeepCut
        },
        Consonant::J | Consonant::PH | Consonant::K | Consonant::L | Consonant::C | Consonant::N
        | Consonant::P | Consonant::M => ConsonantPlacement::Inside,
        Consonant::T | Consonant::WH | Consonant::SH | Consonant::R | Consonant::V | Consonant::W
        | Consonant::S => ConsonantPlacement::ShallowCut,
        Consonant::TH | Consonant::GH | Consonant::Y | Consonant::Z | Consonant::Q | Consonant::QU
        | Consonant::X | Consonant::NG => ConsonantPlacement::OnLine,
    }
}

impl From<Consonant> for ConsonantPlacement {
    fn from(value: Consonant) -> (r: Self) {
        match value {
            Consonant::B | Consonant::CH | Consonant::D | Consonant::G | Consonant::H
            | Consonant::F => Self::DeepCut,
            Consonant::J | Consonant::PH | Consonant::K | Consonant::L | Consonant::C
            | Consonant::N | Consonant::P | Consonant::M => Self::Inside,
            Consonant::T | Consonant::WH | Consonant::SH | Consonant::R | Consonant::V
            | Consonant::W | Consonant::S => Self::ShallowCut,
            Consonant::TH | Consonant::GH | Consonant::Y | Consonant::Z | Consonant::Q
            | Consonant::QU | Consonant::X | Consonant::NG => Self::OnLine,
        }
    }
}

impl vstd::std_specs::convert::FromSpecImpl<Consonant> for ConsonantPlacement {
    open spec fn obeys_from_spec() -> bool {
        true
    }

    open spec fn from_spec(v: Consonant) -> Self {
        consonant_placement(v)
    }
}

#[derive(Debug, Copy, Clone, PartialEq, Eq, Structural)]
pub enum ConsonantDecoration {
    Undecorated,
    SingleDot,
    DoubleDot,
    TripleDot,
    QuadrupleDot,
    SingleLine,
    DoubleLine,
    TripleLine,
}

/// The decoration drawn on a consonant.
pub open spec fn consonant_decoration(value: Consonant) -> ConsonantDecoration {
    match value {
        Consonant::B | Consonant::J | Consonant::T | Consonant::TH => ConsonantDecoration::Undecorated,
        Consonant::PH | Consonant::WH | Consonant::GH => ConsonantDecoration::SingleDot,
        Consonant::CH | Consonant::K | Consonant::SH | Consonant::Y => ConsonantDecoration::DoubleDot,
        Consonant::D | Consonant::L | Consonant::R | Consonant::Z => ConsonantDecoration::TripleDot,
        Consonant::C | Consonant::Q => ConsonantDecoration::QuadrupleDot,
        Consonant::G | Consonant::N | Consonant::V | Consonant::QU => ConsonantDecoration::SingleLine,
        Consonant::H | Consonant::P | Consonant::W | Consonant::X => ConsonantDecoration::DoubleLine,
        Consonant::F | Consonant::M | Consonant::S | Consonant::NG => ConsonantDecoration::TripleLine,
    }
}

impl From<Consonant> for ConsonantDecoration {
    fn from(value: Consonant) -> (r: Self) {
        match value {
            Consonant::B | Consonant::J | Consonant::T | Consonant::TH => Self::Undecorated,
            Consonant::PH | Consonant::WH | Consonant::GH => Self::SingleDot,
            Consonant::CH | Consonant::K | Consonant::SH | Consonant::Y => Self::DoubleDot,
            Consonant::D | Consonant::L | Consonant::R | Consonant::Z => Self::TripleDot,
            Consonant::C | Consonant::Q => Self::QuadrupleDot,
            Consonant::G | Consonant::N | Consonant::V | Consonant::QU => Self::SingleLine,
            Consonant::H | Consonant::P | Consonant::W | Consonant::X => Self::DoubleLine,
            Consonant::F | Consonant::M | Consonant::S | Consonant::NG => Self::TripleLine,
        }
    }
}

impl vstd::std_specs::convert::FromSpecImpl<Consonant> for ConsonantDecoration {
    open spec fn obeys_from_spec() -> bool {
        true
    }

    open spec fn from_spec(v: Consonant) -> Self {
        consonant_decoration(v)
    }
}

/// Number of dots of a consonant decoration.
pub open spec fn decoration_dots(d: ConsonantDecoration) -> nat {
    match d {
        ConsonantDecoration::SingleDot => 1,
        ConsonantDecoration::DoubleDot => 2,
        ConsonantDecoration::TripleDot => 3,
        ConsonantDecoration::QuadrupleDot => 4,
        _ => 0,
    }
}

/// Number of lines of a consonant decoration.
pub open spec fn decoration_lines(d: ConsonantDecoration) -> nat {
    match d {
        ConsonantDecoration::SingleLine => 1,
        ConsonantDecoration::DoubleLine => 2,
        ConsonantDecoration::TripleLine => 3,
        _ => 0,
    }
}

impl ConsonantDecoration {
    pub fn dots(&self) -> (r: usize)
        ensures
            r == decoration_dots(*self),
    {
        match self {
            Self::SingleDot => 1,
            Self::DoubleDot => 2,
            Self::TripleDot => 3,
            Self::QuadrupleDot => 4,
            _ => 0,
        }
    }

    pub fn lines(&self) -> (r: usize)
        ensures
            r == decoration_lines(*self),
    {
        match self {
            Self::SingleLine => 1,
            Self::DoubleLine => 2,
            Self::TripleLine => 3,
            _ => 0,
        }
    }
}

} // verus!
