use super::Decorated;
use crate::text::{ascii_lower, byte_len_up_to_three, quoted, quoted_message, utf8_len};
use vstd::prelude::*;

verus! {

#[derive(Debug, Copy, Clone, PartialEq, Eq, Structural, Hash)]
pub enum ConsonantCluster {
    Single(Consonant),
    Digraph(Digraph),
}

#[derive(Debug, Copy, Clone, PartialEq, Eq, Structural, Hash)]
pub enum Consonant {
    B,
    J,
    T,
    K,
    Y,
    D,
    L,
    R,
    Z,
    C,
    Q,
    G,
    N,
    V,
    H,
    P,
    W,
    X,
    F,
    M,
    S,
}

#[derive(Debug, Copy, Clone, PartialEq, Eq, Structural, Hash)]
pub enum Digraph {
    TH,
    PH,
    WH,
    GH,
    CH,
    SH,
    QU,
    NG,
}

/// The consonant that a lower-case letter names.
pub open spec fn consonant_of_char(c: char) -> Option<Consonant> {
    if c == 'b' {
        Some(Consonant::B)
    } else if c == 'j' {
        Some(Consonant::J)
    } else if c == 't' {
        Some(Consonant::T)
    } else if c == 'k' {
        Some(Consonant::K)
    } else if c == 'y' {
        Some(Consonant::Y)
    } else if c == 'd' {
        Some(Consonant::D)
    } else if c == 'l' {
        Some(Consonant::L)
    } else if c == 'r' {
        Some(Consonant::R)
    } else if c == 'z' {
        Some(Consonant::Z)
    } else if c == 'c' {
        Some(Consonant::C)
    } else if c == 'q' {
        Some(Consonant::Q)
    } else if c == 'g' {
        Some(Consonant::G)
    } else if c == 'n' {
        Some(Consonant::N)
    } else if c == 'v' {
        Some(Consonant::V)
    } else if c == 'h' {
        Some(Consonant::H)
    } else if c == 'p' {
        Some(Consonant::P)
    } else if c == 'w' {
        Some(Consonant::W)
    } else if c == 'x' {
        Some(Consonant::X)
    } else if c == 'f' {
        Some(Consonant::F)
    } else if c == 'm' {
        Some(Consonant::M)
    } else if c == 's' {
        Some(Consonant::S)
    } else {
        None
    }
}

/// The consonant that a text names, ignoring ASCII case.
pub open spec fn consonant_of(s: Seq<char>) -> Option<Consonant> {
    if s.len() == 1 {
        consonant_of_char(ascii_lower(s[0]))
    } else {
        None
    }
}

/// The digraph that two lower-case letters name.
pub open spec fn digraph_of_chars(a: char, b: char) -> Option<Digraph> {
    if a == 't' && b == 'h' {
        Some(Digraph::TH)
    } else if a == 'p' && b == 'h' {
        Some(Digraph::PH)
    } else if a == 'w' && b == 'h' {
        Some(Digraph::WH)
    } else if a == 'g' && b == 'h' {
        Some(Digraph::GH)
    } else if a == 'c' && b == 'h' {
        Some(Digraph::CH)
    } else if a == 's' && b == 'h' {
        Some(Digraph::SH)
    } else if a == 'q' && b == 'u' {
        Some(Digraph::QU)
    } else if a == 'n' && b == 'g' {
        Some(Digraph::NG)
    } else {
        None
    }
}

/// The digraph that a text names, ignoring ASCII case.
pub open spec fn digraph_of(s: Seq<char>) -> Option<Digraph> {
    if s.len() == 2 {
        digraph_of_chars(ascii_lower(s[0]), ascii_lower(s[1]))
    } else {
        None
    }
}

/// The consonant cluster that a text names: a text of one byte names a single
/// consonant, a text of two bytes a digraph.
pub open spec fn consonant_cluster_of(s: Seq<char>) -> Option<ConsonantCluster> {
    if utf8_len(s) == 1 {
        match consonant_of(s) {
            Some(c) => Some(ConsonantCluster::Single(c)),
            None => None,
        }
    } else if utf8_len(s) == 2 {
        match digraph_of(s) {
            Some(d) => Some(ConsonantCluster::Digraph(d)),
            None => None,
        }
    } else {
        None
    }
}

/// The message with which `ConsonantCluster::try_from` refuses a text.
pub open spec fn consonant_cluster_error(s: Seq<char>) -> Seq<char> {
    if utf8_len(s) == 1 {
        quoted(s, "' is not a valid grapheme!"@)
    } else if utf8_len(s) == 2 {
        quoted(s, "' is not a valid digraph!"@)
    } else {
        quoted(s, "' is not a valid consonant!"@)
    }
}

impl Consonant {
    /// Parses a single consonant, ignoring ASCII case.
    pub fn try_from(value: &str) -> (r: Result<Consonant, String>)
        ensures
            match consonant_of(value@) {
                Some(c) => r == Ok::<Consonant, String>(c),
                None => r is Err && r->Err_0@ == quoted(value@, "' is not a valid grapheme!"@),
            },
    {
        if value.unicode_len() == 1 {
            let c = value.get_char(0);
            let consonant = if c == 'b' || c == 'B' {
                Some(Consonant::B)
            } else if c == 'j' || c == 'J' {
                Some(Consonant::J)
            } else if c == 't' || c == 'T' {
                Some(Consonant::T)
            } else if c == 'k' || c == 'K' {
                Some(Consonant::K)
            } else if c == 'y' || c == 'Y' {
                Some(Consonant::Y)
            } else if c == 'd' || c == 'D' {
                Some(Consonant::D)
            } else if c == 'l' || c == 'L' {
                Some(Consonant::L)
            } else if c == 'r' || c == 'R' {
                Some(Consonant::R)
            } else if c == 'z' || c == 'Z' {
                Some(Consonant::Z)
            } else if c == 'c' || c == 'C' {
                Some(Consonant::C)
            } else if c == 'q' || c == 'Q' {
                Some(Consonant::Q)
            } else if c == 'g' || c == 'G' {
                Some(Consonant::G)
            } else if c == 'n' || c == 'N' {
                Some(Consonant::N)
            } else if c == 'v' || c == 'V' {
                Some(Consonant::V)
            } else if c == 'h' || c == 'H' {
                Some(Consonant::H)
            } else if c == 'p' || c == 'P' {
                Some(Consonant::P)
            } else if c == 'w' || c == 'W' {
                Some(Consonant::W)
            } else if c == 'x' || c == 'X' {
                Some(Consonant::X)
            } else if c == 'f' || c == 'F' {
                Some(Consonant::F)
            } else if c == 'm' || c == 'M' {
                Some(Consonant::M)
            } else if c == 's' || c == 'S' {
                Some(Consonant::S)
            } else {
                None
            };
            if let Some(consonant) = consonant {
                return Ok(consonant);
            }
        }
        Err(quoted_message(value, "' is not a valid grapheme!"))
    }
}

impl Digraph {
    /// Parses a digraph, ignoring ASCII case.
    pub fn try_from(value: &str) -> (r: Result<Digraph, String>)
        ensures
            match digraph_of(value@) {
                Some(d) => r == Ok::<Digraph, String>(d),
                None => r is Err && r->Err_0@ == quoted(value@, "' is not a valid digraph!"@),
            },
    {
        if value.unicode_len() == 2 {
            let a = value.get_char(0);
            let b = value.get_char(1);
            let digraph = if (a == 't' || a == 'T') && (b == 'h' || b == 'H') {
                Some(Digraph::TH)
            } else if (a == 'p' || a == 'P') && (b == 'h' || b == 'H') {
                Some(Digraph::PH)
            } else if (a == 'w' || a == 'W') && (b == 'h' || b == 'H') {
                Some(Digraph::WH)
            } else if (a == 'g' || a == 'G') && (b == 'h' || b == 'H') {
                Some(Digraph::GH)
            } else if (a == 'c' || a == 'C') && (b == 'h' || b == 'H') {
                Some(Digraph::CH)
            } else if (a == 's' || a == 'S') && (b == 'h' || b == 'H') {
                Some(Digraph::SH)
            } else if (a == 'q' || a == 'Q') && (b == 'u' || b == 'U') {
                Some(Digraph::QU)
            } else if (a == 'n' || a == 'N') && (b == 'g' || b == 'G') {
                Some(Digraph::NG)
            } else {
                None
            };
            if let Some(digraph) = digraph {
                return Ok(digraph);
            }
        }
        Err(quoted_message(value, "' is not a valid digraph!"))
    }
}

impl ConsonantCluster {
    /// Parses a consonant cluster: a one-byte text as a single consonant, a two-byte
    /// text as a digraph.
    pub fn try_from(value: &str) -> (r: Result<ConsonantCluster, String>)
        ensures
            match consonant_cluster_of(value@) {
                Some(c) => r == Ok::<ConsonantCluster, String>(c),
                None => r is Err && r->Err_0@ == consonant_cluster_error(value@),
            },
    {
        let n = byte_len_up_to_three(value);
        if n == 1 {
            match Consonant::try_from(value) {
                Ok(c) => Ok(ConsonantCluster::Single(c)),
                Err(e) => Err(e),
            }
        } else if n == 2 {
            match Digraph::try_from(value) {
                Ok(d) => Ok(ConsonantCluster::Digraph(d)),
                Err(e) => Err(e),
            }
        } else {
            Err(quoted_message(value, "' is not a valid consonant!"))
        }
    }
}

impl From<Consonant> for ConsonantCluster {
    fn from(value: Consonant) -> (r: Self) {
        Self::Single(value)
    }
}

impl vstd::std_specs::convert::FromSpecImpl<Consonant> for ConsonantCluster {
    open spec fn obeys_from_spec() -> bool {
        true
    }

    open spec fn from_spec(v: Consonant) -> Self {
        ConsonantCluster::Single(v)
    }
}

impl From<Digraph> for ConsonantCluster {
    fn from(value: Digraph) -> (r: Self) {
        Self::Digraph(value)
    }
}

impl vstd::std_specs::convert::FromSpecImpl<Digraph> for ConsonantCluster {
    open spec fn obeys_from_spec() -> bool {
        true
    }

    open spec fn from_spec(v: Digraph) -> Self {
        ConsonantCluster::Digraph(v)
    }
}

#[derive(Debug, Copy, Clone, PartialEq, Eq, Structural)]
pub enum ConsonantPlacement {
    DeepCut,
    Inside,
    ShallowCut,
    OnLine,
}

/// Where a single consonant sits relative to the word circle.
pub open spec fn consonant_placement(value: Consonant) -> ConsonantPlacement {
    match value {
        Consonant::B | Consonant::D | Consonant::G | Consonant::H | Consonant::F => {
            ConsonantPlacement::DeepCut
        },
        Consonant::J | Consonant::K | Consonant::L | Consonant::C | Consonant::N | Consonant::P
        | Consonant::M => ConsonantPlacement::Inside,
        Consonant::T | Consonant::R | Consonant::V | Consonant::W | Consonant::S => {
            ConsonantPlacement::ShallowCut
        },
        Consonant::Y | Consonant::Z | Consonant::Q | Consonant::X => ConsonantPlacement::OnLine,
    }
}

/// Where a digraph sits relative to the word circle.
pub open spec fn digraph_placement(value: Digraph) -> ConsonantPlacement {
    match value {
        Digraph::PH => ConsonantPlacement::Inside,
        Digraph::CH => ConsonantPlacement::DeepCut,
        Digraph::WH | Digraph::SH => ConsonantPlacement::ShallowCut,
        Digraph::TH | Digraph::GH | Digraph::QU | Digraph::NG => ConsonantPlacement::OnLine,
    }
}

/// Where a consonant cluster sits relative to the word circle.
pub open spec fn cluster_placement(value: ConsonantCluster) -> ConsonantPlacement {
    match value {
        ConsonantCluster::Single(c) => consonant_placement(c),
        ConsonantCluster::Digraph(d) => digraph_placement(d),
    }
}

impl From<Consonant> for ConsonantPlacement {
    fn from(value: Consonant) -> (r: Self) {
        match value {
            Consonant::B | Consonant::D | Consonant::G | Consonant::H | Consonant::F => {
                Self::DeepCut
            },
            Consonant::J | Consonant::K | Consonant::L | Consonant::C | Consonant::N
            | Consonant::P | Consonant::M => Self::Inside,
            Consonant::T | Consonant::R | Consonant::V | Consonant::W | Consonant::S => {
                Self::ShallowCut
            },
            Consonant::Y | Consonant::Z | Consonant::Q | Consonant::X => Self::OnLine,
        }
    }
}

impl vstd::std_specs::convert::FromSpecImpl<Consonant> for ConsonantPlacement {
    open spec fn obeys_from_spec() -> bool {
        true
    }

    open spec fn from_spec(v: Consonant) -> Self {
        consonant_placement(v)
    }
}

impl From<Digraph> for ConsonantPlacement {
    fn from(value: Digraph) -> (r: Self) {
        match value {
            Digraph::PH => Self::Inside,
            Digraph::CH => Self::DeepCut,
            Digraph::WH | Digraph::SH => Self::ShallowCut,
            Digraph::TH | Digraph::GH | Digraph::QU | Digraph::NG => Self::OnLine,
        }
    }
}

impl vstd::std_specs::convert::FromSpecImpl<Digraph> for ConsonantPlacement {
    open spec fn obeys_from_spec() -> bool {
        true
    }

    open spec fn from_spec(v: Digraph) -> Self {
        digraph_placement(v)
    }
}

impl From<ConsonantCluster> for ConsonantPlacement {
    fn from(value: ConsonantCluster) -> (r: Self) {
        match value {
            ConsonantCluster::Single(grapheme) => ConsonantPlacement::from(grapheme),
            ConsonantCluster::Digraph(digraph) => ConsonantPlacement::from(digraph),
        }
    }
}

impl vstd::std_specs::convert::FromSpecImpl<ConsonantCluster> for ConsonantPlacement {
    open spec fn obeys_from_spec() -> bool {
        true
    }

    open spec fn from_spec(v: ConsonantCluster) -> Self {
        cluster_placement(v)
    }
}

/// Gives the placement of a consonant-like value.
pub trait ConsonantPlacementT {
    spec fn placement_of(&self) -> ConsonantPlacement;

    fn placement(&self) -> (r: ConsonantPlacement)
        ensures
            r == self.placement_of(),
    ;
}

impl ConsonantPlacementT for Consonant {
    open spec fn placement_of(&self) -> ConsonantPlacement {
        consonant_placement(*self)
    }

    fn placement(&self) -> (r: ConsonantPlacement) {
        ConsonantPlacement::from(*self)
    }
}

impl ConsonantPlacementT for Digraph {
    open spec fn placement_of(&self) -> ConsonantPlacement {
        digraph_placement(*self)
    }

    fn placement(&self) -> (r: ConsonantPlacement) {
        ConsonantPlacement::from(*self)
    }
}

impl ConsonantPlacementT for ConsonantCluster {
    open spec fn placement_of(&self) -> ConsonantPlacement {
        cluster_placement(*self)
    }

    fn placement(&self) -> (r: ConsonantPlacement) {
        ConsonantPlacement::from(*self)
    }
}

#[derive(Debug, Copy, Clone, PartialEq, Eq, Structural)]
pub enum ConsonantDecoration {
    Undecorated,
    SingleDot,
    DoubleDot,
    TripleDot,
    QuadrupleDot,
    SingleLine,
    DoubleLine,
    TripleLine,
}

/// The decoration drawn on a single consonant.
pub open spec fn consonant_decoration(value: Consonant) -> ConsonantDecoration {
    match value {
        Consonant::B | Consonant::J | Consonant::T => ConsonantDecoration::Undecorated,
        Consonant::K | Consonant::Y => ConsonantDecoration::DoubleDot,
        Consonant::D | Consonant::L | Consonant::R | Consonant::Z => ConsonantDecoration::TripleDot,
        Consonant::C | Consonant::Q => ConsonantDecoration::QuadrupleDot,
        Consonant::G | Consonant::N | Consonant::V => ConsonantDecoration::SingleLine,
        Consonant::H | Consonant::P | Consonant::W | Consonant::X => ConsonantDecoration::DoubleLine,
        Consonant::F | Consonant::M | Consonant::S => ConsonantDecoration::TripleLine,
    }
}

/// The decoration drawn on a digraph.
pub open spec fn digraph_decoration(value: Digraph) -> ConsonantDecoration {
    match value {
        Digraph::TH => ConsonantDecoration::Undecorated,
        Digraph::PH | Digraph::WH | Digraph::GH => ConsonantDecoration::SingleDot,
        Digraph::CH | Digraph::SH => ConsonantDecoration::DoubleDot,
        Digraph::QU => ConsonantDecoration::SingleLine,
        Digraph::NG => ConsonantDecoration::TripleLine,
    }
}

/// The decoration drawn on a consonant cluster.
pub open spec fn cluster_decoration(value: ConsonantCluster) -> ConsonantDecoration {
    match value {
        ConsonantCluster::Single(c) => consonant_decoration(c),
        ConsonantCluster::Digraph(d) => digraph_decoration(d),
    }
}

impl From<Consonant> for ConsonantDecoration {
    fn from(value: Consonant) -> (r: Self) {
        match value {
            Consonant::B | Consonant::J | Consonant::T => Self::Undecorated,
            Consonant::K | Consonant::Y => Self::DoubleDot,
            Consonant::D | Consonant::L | Consonant::R | Consonant::Z => Self::TripleDot,
            Consonant::C | Consonant::Q => Self::QuadrupleDot,
            Consonant::G | Consonant::N | Consonant::V => Self::SingleLine,
            Consonant::H | Consonant::P | Consonant::W | Consonant::X => Self::DoubleLine,
            Consonant::F | Consonant::M | Consonant::S => Self::TripleLine,
        }
    }
}

impl vstd::std_specs::convert::FromSpecImpl<Consonant> for ConsonantDecoration {
    open spec fn obeys_from_spec() -> bool {
        true
    }

    open spec fn from_spec(v: Consonant) -> Self {
        consonant_decoration(v)
    }
}

impl From<Digraph> for ConsonantDecoration {
    fn from(value: Digraph) -> (r: Self) {
        match value {
            Digraph::TH => Self::Undecorated,
            Digraph::PH | Digraph::WH | Digraph::GH => Self::SingleDot,
            Digraph::CH | Digraph::SH => Self::DoubleDot,
            Digraph::QU => Self::SingleLine,
            Digraph::NG => Self::TripleLine,
        }
    }
}

impl vstd::std_specs::convert::FromSpecImpl<Digraph> for ConsonantDecoration {
    open spec fn obeys_from_spec() -> bool {
        true
    }

    open spec fn from_spec(v: Digraph) -> Self {
        digraph_decoration(v)
    }
}

impl From<ConsonantCluster> for ConsonantDecoration {
    fn from(value: ConsonantCluster) -> (r: Self) {
        match value {
            ConsonantCluster::Single(grapheme) => ConsonantDecoration::from(grapheme),
            ConsonantCluster::Digraph(digraph) => ConsonantDecoration::from(digraph),
        }
    }
}

impl vstd::std_specs::convert::FromSpecImpl<ConsonantCluster> for ConsonantDecoration {
    open spec fn obeys_from_spec() -> bool {
        true
    }

    open spec fn from_spec(v: ConsonantCluster) -> Self {
        cluster_decoration(v)
    }
}

/// Gives the decoration of a consonant-like value.
pub trait ConsonantDecorationT {
    spec fn decoration_of(&self) -> ConsonantDecoration;

    fn decoration(&self) -> (r: ConsonantDecoration)
        ensures
            r == self.decoration_of(),
    ;
}

impl ConsonantDecorationT for Consonant {
    open spec fn decoration_of(&self) -> ConsonantDecoration {
        consonant_decoration(*self)
    }

    fn decoration(&self) -> (r: ConsonantDecoration) {
        ConsonantDecoration::from(*self)
    }
}

impl ConsonantDecorationT for Digraph {
    open spec fn decoration_of(&self) -> ConsonantDecoration {
        digraph_decoration(*self)
    }

    fn decoration(&self) -> (r: ConsonantDecoration) {
        ConsonantDecoration::from(*self)
    }
}

impl ConsonantDecorationT for ConsonantCluster {
    open spec fn decoration_of(&self) -> ConsonantDecoration {
        cluster_decoration(*self)
    }

    fn decoration(&self) -> (r: ConsonantDecoration) {
        ConsonantDecoration::from(*self)
    }
}

/// Number of dots of a consonant decoration.
pub open spec fn consonant_decoration_dots(d: ConsonantDecoration) -> nat {
    match d {
        ConsonantDecoration::SingleDot => 1,
        ConsonantDecoration::DoubleDot => 2,
        ConsonantDecoration::TripleDot => 3,
        ConsonantDecoration::QuadrupleDot => 4,
        _ => 0,
    }
}

/// Number of lines of a consonant decoration.
pub open spec fn consonant_decoration_lines(d: ConsonantDecoration) -> nat {
    match d {
        ConsonantDecoration::SingleLine => 1,
        ConsonantDecoration::DoubleLine => 2,
        ConsonantDecoration::TripleLine => 3,
        _ => 0,
    }
}

impl Decorated for ConsonantDecoration {
    open spec fn dots_of(&self) -> nat {
        consonant_decoration_dots(*self)
    }

    open spec fn lines_of(&self) -> nat {
        consonant_decoration_lines(*self)
    }

    fn dots(&self) -> (r: usize) {
        match self {
            Self::SingleDot => 1,
            Self::DoubleDot => 2,
            Self::TripleDot => 3,
            Self::QuadrupleDot => 4,
            _ => 0,
        }
    }

    fn lines(&self) -> (r: usize) {
        match self {
            Self::SingleLine => 1,
            Self::DoubleLine => 2,
            Self::TripleLine => 3,
            _ => 0,
        }
    }
}

} // verus!
