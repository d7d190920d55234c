pub mod consonant;
pub mod vocal;

use crate::plugins::text_converter::letter::Decorated;
use crate::text::{ascii_lower, lemma_utf8_len_ge_len, lemma_utf8_len_one, quoted_message, utf8_len};
pub use consonant::{
    consonant_decoration, consonant_of, consonant_placement, decoration_dots, decoration_lines,
    Consonant, ConsonantDecoration, ConsonantPlacement,
};
use vstd::prelude::*;
pub use vocal::{
    vocal_decoration, vocal_decoration_lines, vocal_of, vocal_placement, Vocal, VocalDecoration,
    VocalPlacement,
};

verus! {

/// A letter of the drawing model: a vocal, a consonant, or a consonant with a vocal
/// nested in it.
#[derive(Debug, Copy, Clone, PartialEq, Eq, Structural)]
pub enum Letter {
    Vocal(Vocal),
    Consonant(Consonant),
    ConsonantWithVocal { consonant: Consonant, vocal: Vocal },
}

impl Default for Letter {
    fn default() -> (r: Self)
        ensures
            r == Letter::Consonant(Consonant::B),
    {
        Self::Consonant(Consonant::B)
    }
}

/// The consonant that a letter draws, if any.
pub open spec fn letter_consonant(l: Letter) -> Option<Consonant> {
    match l {
        Letter::Consonant(c) => Some(c),
        Letter::ConsonantWithVocal { consonant, .. } => Some(consonant),
        Letter::Vocal(_) => None,
    }
}

/// A letter cuts the word circle when its consonant is placed deep or shallow.
pub open spec fn is_cutting_letter(l: Letter) -> bool {
    match letter_consonant(l) {
        Some(c) => consonant_placement(c) == ConsonantPlacement::DeepCut || consonant_placement(c)
            == ConsonantPlacement::ShallowCut,
        None => false,
    }
}

/// Number of dots drawn on a letter.
pub open spec fn letter_dots(l: Letter) -> nat {
    match l {
        Letter::Vocal(_) => 0,
        Letter::Consonant(c) => decoration_dots(consonant_decoration(c)),
        Letter::ConsonantWithVocal { consonant, .. } => decoration_dots(
            consonant_decoration(consonant),
        ),
    }
}

/// Number of lines drawn on a letter: those of its vocal, or of its consonant.
pub open spec fn letter_lines(l: Letter) -> nat {
    match l {
        Letter::Vocal(v) => vocal_decoration_lines(vocal_decoration(v)),
        Letter::Consonant(c) => decoration_lines(consonant_decoration(c)),
        Letter::ConsonantWithVocal { consonant, .. } => decoration_lines(
            consonant_decoration(consonant),
        ),
    }
}

/// The letter that a text names: a vocal if it is one, else a consonant.
pub open spec fn letter_of(s: Seq<char>) -> Option<Letter> {
    match vocal_of(s) {
        Some(v) => Some(Letter::Vocal(v)),
        None => match consonant_of(s) {
            Some(c) => Some(Letter::Consonant(c)),
            None => None,
        },
    }
}

/// The message with which `Letter::try_from` refuses a text.
pub open spec fn letter_error(s: Seq<char>) -> Seq<char> {
    "Cannot assign letter to "@ + crate::text::quoted(s, "' as it is not a valid letter!"@)
}

impl Letter {
    pub fn is_cutting(&self) -> (r: bool)
        ensures
            r == is_cutting_letter(*self),
    {
        match self {
            Self::Consonant(consonant) | Self::ConsonantWithVocal { consonant, .. } => {
                match ConsonantPlacement::from(*consonant) {
                    ConsonantPlacement::DeepCut | ConsonantPlacement::ShallowCut => true,
                    ConsonantPlacement::OnLine | ConsonantPlacement::Inside => false,
                }
            },
            Self::Vocal(_) => false,
        }
    }

    pub fn dots(&self) -> (r: usize)
        ensures
            r == letter_dots(*self),
    {
        match self {
            Letter::Vocal(vocal) => VocalDecoration::from(*vocal).dots(),
            Letter::Consonant(consonant) | Letter::ConsonantWithVocal { consonant, .. } => {
                ConsonantDecoration::from(*consonant).dots()
            },
        }
    }

    pub fn lines(&self) -> (r: usize)
        ensures
            r == letter_lines(*self),
    {
        match self {
            Letter::Vocal(vocal) => VocalDecoration::from(*vocal).lines(),
            Letter::Consonant(consonant) | Letter::ConsonantWithVocal { consonant, .. } => {
                ConsonantDecoration::from(*consonant).lines()
            },
        }
    }

    /// Parses a vocal or a consonant (digraphs included), ignoring ASCII case.
    pub fn try_from(value: &str) -> (r: Result<Letter, String>)
        ensures
            match letter_of(value@) {
                Some(l) => r == Ok::<Letter, String>(l),
                None => r is Err && r->Err_0@ == letter_error(value@),
            },
    {
        match Vocal::try_from(value) {
            Ok(v) => Ok(Letter::Vocal(v)),
            Err(_) => match Consonant::try_from(value) {
                Ok(c) => Ok(Letter::Consonant(c)),
                Err(_) => {
                    let mut message = String::from_str("Cannot assign letter to ");
                    let quoted = quoted_message(value, "' as it is not a valid letter!");
                    message.append(quoted.as_str());
                    Err(message)
                },
            },
        }
    }
}

/// A set of consonant and vocal pairs, held in a hash set.
#[verifier::external_body]
pub struct NestingRules {
    rules: bevy::utils::HashSet<(Consonant, Vocal)>,
}

/// The pairs that a set of nesting rules holds.
pub uninterp spec fn nesting_rules_contents(rules: NestingRules) -> Set<(Consonant, Vocal)>;

/// Calls `HashSet::default` (bevy's hash set, hashbrown's `HashSet`) and claims that
/// the set it makes holds nothing.
#[verifier::external_body]
fn new_rule_set() -> (r: NestingRules)
    ensures
        nesting_rules_contents(r) == Set::<(Consonant, Vocal)>::empty(),
{
    NestingRules { rules: bevy::utils::HashSet::default() }
}

/// Calls `HashSet::insert` and claims that the set afterwards holds the pair and
/// everything it held before, and that the result tells whether the pair was new.
/// This rests on the derived `Hash` and `Eq` of the pair agreeing with equality.
#[verifier::external_body]
fn insert_rule(rules: &mut NestingRules, consonant: Consonant, vocal: Vocal) -> (r: bool)
    ensures
        nesting_rules_contents(*final(rules)) == nesting_rules_contents(*old(rules)).insert(
            (consonant, vocal),
        ),
        r == !nesting_rules_contents(*old(rules)).contains((consonant, vocal)),
{
    rules.rules.insert((consonant, vocal))
}

/// Calls `HashSet::contains` and claims that it tells whether the set holds the
/// pair. This rests on the derived `Hash` and `Eq` of the pair agreeing with
/// equality.
#[verifier::external_body]
fn contains_rule(rules: &NestingRules, consonant: Consonant, vocal: Vocal) -> (r: bool)
    ensures
        r == nesting_rules_contents(*rules).contains((consonant, vocal)),
{
    rules.rules.contains(&(consonant, vocal))
}

impl NestingRules {
    /// A set of nesting rules that holds no pair.
    pub fn new() -> (r: NestingRules)
        ensures
            nesting_rules_contents(r) == Set::<(Consonant, Vocal)>::empty(),
    {
        new_rule_set()
    }

    /// Adds a pair; tells whether it was new.
    pub fn insert(&mut self, consonant: Consonant, vocal: Vocal) -> (r: bool)
        ensures
            nesting_rules_contents(*final(self)) == nesting_rules_contents(*old(self)).insert(
                (consonant, vocal),
            ),
            r == !nesting_rules_contents(*old(self)).contains((consonant, vocal)),
    {
        insert_rule(self, consonant, vocal)
    }

    /// Whether the pair is in the set.
    pub fn contains(&self, consonant: Consonant, vocal: Vocal) -> (r: bool)
        ensures
            r == nesting_rules_contents(*self).contains((consonant, vocal)),
    {
        contains_rule(self, consonant, vocal)
    }
}

/// Which vocals may be nested in which consonants.
pub enum NestingSettings {
    /// No vocal is nested.
    Never,
    All,
    Custom(NestingRules),
}

/// Whether the settings let the vocal be nested in the consonant.
pub open spec fn can_nest_spec(settings: &NestingSettings, consonant: Consonant, vocal: Vocal) -> bool {
    match settings {
        NestingSettings::Never => false,
        NestingSettings::All => true,
        NestingSettings::Custom(rules) => nesting_rules_contents(*rules).contains((consonant, vocal)),
    }
}

impl NestingSettings {
    pub fn can_nest(&self, consonant: Consonant, vocal: Vocal) -> (r: bool)
        ensures
            r == can_nest_spec(self, consonant, vocal),
    {
        match self {
            NestingSettings::Never => false,
            NestingSettings::All => true,
            NestingSettings::Custom(rules) => rules.contains(consonant, vocal),
        }
    }
}

/// The letters of the text converter and those of the drawing model are read from
/// the same texts: a text names a letter in one model exactly when it does in the
/// other.
pub proof fn lemma_models_read_same_texts(s: Seq<char>)
    ensures
        (crate::plugins::text_converter::letter::letter_of(s) is Some) == (letter_of(s) is Some),
{
    lemma_utf8_len_one(s);
    lemma_utf8_len_ge_len(s);
    let lower = s.map_values(|c: char| ascii_lower(c));
    if s.len() == 2 {
        reveal_with_fuel(utf8_len, 3);
        assert(s.drop_first().drop_first().len() == 0);
        assert(lower[0] == ascii_lower(s[0]) && lower[1] == ascii_lower(s[1]));
    } else if s.len() == 1 {
        assert(lower[0] == ascii_lower(s[0]));
    }
}

} // verus!
