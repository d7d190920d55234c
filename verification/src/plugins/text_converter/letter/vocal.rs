use super::Decorated;
use crate::text::{ascii_lower, quoted, quoted_message};
use vstd::prelude::*;

verus! {

#[derive(Debug, Copy, Clone, PartialEq, Eq, Structural, Hash)]
pub enum Vocal {
    A,
    E,
    I,
    O,
    U,
}

/// The vocal that a text names, ignoring ASCII case.
pub open spec fn vocal_of(s: Seq<char>) -> Option<Vocal> {
    if s.len() == 1 {
        let c = ascii_lower(s[0]);
        if c == 'a' {
            Some(Vocal::A)
        } else if c == 'e' {
            Some(Vocal::E)
        } else if c == 'i' {
            Some(Vocal::I)
        } else if c == 'o' {
            Some(Vocal::O)
        } else if c == 'u' {
            Some(Vocal::U)
        } else {
            None
        }
    } else {
        None
    }
}

impl Vocal {
    /// Parses a vocal, ignoring ASCII case.
    pub fn try_from(value: &str) -> (r: Result<Vocal, String>)
        ensures
            match vocal_of(value@) {
                Some(v) => r == Ok::<Vocal, String>(v),
                None => r is Err && r->Err_0@ == quoted(value@, "' it is not a valid vocal!"@),
            },
    {
        if value.unicode_len() == 1 {
            let c = value.get_char(0);
            if c == 'a' || c == 'A' {
                return Ok(Vocal::A);
            } else if c == 'e' || c == 'E' {
                return Ok(Vocal::E);
            } else if c == 'i' || c == 'I' {
                return Ok(Vocal::I);
            } else if c == 'o' || c == 'O' {
                return Ok(Vocal::O);
            } else if c == 'u' || c == 'U' {
                return Ok(Vocal::U);
            }
        }
        Err(quoted_message(value, "' it is not a valid vocal!"))
    }
}

/// The upper-case name of a vocal.
pub open spec fn vocal_name(v: Vocal) -> Seq<char> {
    match v {
        Vocal::A => "A"@,
        Vocal::E => "E"@,
        Vocal::I => "I"@,
        Vocal::O => "O"@,
        Vocal::U => "U"@,
    }
}

impl Vocal {
    /// The upper-case name of the vocal, as the text rendering shows it.
    pub fn to_string(&self) -> (r: String)
        ensures
            r@ == vocal_name(*self),
    {
        let s = match self {
            Vocal::A => "A",
            Vocal::E => "E",
            Vocal::I => "I",
            Vocal::O => "O",
            Vocal::U => "U",
        };
        String::from_str(s)
    }
}

#[derive(Debug, Copy, Clone, PartialEq, Eq, Structural)]
pub enum VocalPlacement {
    Inside,
    OnLine,
    Outside,
}

/// Where a vocal sits relative to the word circle.
pub open spec fn vocal_placement(value: Vocal) -> VocalPlacement {
    match value {
        Vocal::A => VocalPlacement::Outside,
        Vocal::O => VocalPlacement::Inside,
        Vocal::E | Vocal::I | Vocal::U => VocalPlacement::OnLine,
    }
}

impl From<Vocal> for VocalPlacement {
    fn from(value: Vocal) -> (r: Self) {
        match value {
            Vocal::A => Self::Outside,
            Vocal::O => Self::Inside,
            Vocal::E | Vocal::I | Vocal::U => Self::OnLine,
        }
    }
}

impl vstd::std_specs::convert::FromSpecImpl<Vocal> for VocalPlacement {
    open spec fn obeys_from_spec() -> bool {
        true
    }

    open spec fn from_spec(v: Vocal) -> Self {
        vocal_placement(v)
    }
}

#[derive(Debug, Copy, Clone, PartialEq, Eq, Structural)]
pub enum VocalDecoration {
    Undecorated,
    LineInside,
    LineOutside,
}

/// The decoration drawn on a vocal.
pub open spec fn vocal_decoration(value: Vocal) -> VocalDecoration {
    match value {
        Vocal::I => VocalDecoration::LineInside,
        Vocal::U => VocalDecoration::LineOutside,
        Vocal::A | Vocal::E | Vocal::O => VocalDecoration::Undecorated,
    }
}

impl From<Vocal> for VocalDecoration {
    fn from(value: Vocal) -> (r: Self) {
        match value {
            Vocal::I => Self::LineInside,
            Vocal::U => Self::LineOutside,
            Vocal::A | Vocal::E | Vocal::O => Self::Undecorated,
        }
    }
}

impl vstd::std_specs::convert::FromSpecImpl<Vocal> for VocalDecoration {
    open spec fn obeys_from_spec() -> bool {
        true
    }

    open spec fn from_spec(v: Vocal) -> Self {
        vocal_decoration(v)
    }
}

/// Number of lines of a vocal decoration; vocals carry no dots.
pub open spec fn vocal_decoration_lines(d: VocalDecoration) -> nat {
    match d {
        VocalDecoration::LineOutside | VocalDecoration::LineInside => 1,
        _ => 0,
    }
}

impl Decorated for VocalDecoration {
    open spec fn dots_of(&self) -> nat {
        0
    }

    open spec fn lines_of(&self) -> nat {
        vocal_decoration_lines(*self)
    }

    fn dots(&self) -> (r: usize) {
        0
    }

    fn lines(&self) -> (r: usize) {
        match self {
            Self::LineOutside | Self::LineInside => 1,
            _ => 0,
        }
    }
}

} // verus!
