use crate::text::{ascii_lower, char_width, lemma_utf8_len_one, quoted, quoted_message, utf8_len};
use vstd::prelude::*;

pub mod combinator;
pub mod consonant;
pub mod vocal;

use combinator::{
    combine, joined_text, lemma_combine_keeps_text, views, CombineLetters, LetterText,
};
use consonant::{
    cluster_decoration, cluster_placement, consonant_cluster_of, Consonant, ConsonantCluster,
    ConsonantDecoration, ConsonantPlacement, Digraph,
};
use vocal::{vocal_decoration, vocal_name, vocal_of, Vocal, VocalDecoration};

verus! {

#[derive(Debug, Copy, Clone, PartialEq, Eq, Structural, Hash)]
pub enum Letter {
    Vocal(Vocal),
    Consonant(ConsonantCluster),
}

/// The letter that a text names: a vocal if it is one, else a consonant cluster.
pub open spec fn letter_of(s: Seq<char>) -> Option<Letter> {
    match vocal_of(s) {
        Some(v) => Some(Letter::Vocal(v)),
        None => match consonant_cluster_of(s) {
            Some(c) => Some(Letter::Consonant(c)),
            None => None,
        },
    }
}

/// The message with which `Letter::try_from` refuses a text.
pub open spec fn letter_error(s: Seq<char>) -> Seq<char> {
    "Cannot assign letter to "@ + quoted(s, "' as it is not a valid letter!"@)
}

impl Letter {
    /// Parses a letter: a vocal, a single consonant or a digraph, ignoring ASCII case.
    pub fn try_from(value: &str) -> (r: Result<Letter, String>)
        ensures
            match letter_of(value@) {
                Some(l) => r == Ok::<Letter, String>(l),
                None => r is Err && r->Err_0@ == letter_error(value@),
            },
    {
        match Vocal::try_from(value) {
            Ok(v) => Ok(Letter::Vocal(v)),
            Err(_) => match ConsonantCluster::try_from(value) {
                Ok(c) => Ok(Letter::Consonant(c)),
                Err(_) => {
                    let mut message = String::from_str("Cannot assign letter to ");
                    let quoted = quoted_message(value, "' as it is not a valid letter!");
                    message.append(quoted.as_str());
                    proof {
                        assert(message@ =~= letter_error(value@));
                    }
                    Err(message)
                },
            },
        }
    }

    /// Whether the letter cuts through the word circle.
    pub fn is_cutting(&self) -> (r: bool)
        ensures
            r == is_cutting_letter(*self),
    {
        match self {
            Self::Consonant(consonant) => match ConsonantPlacement::from(*consonant) {
                ConsonantPlacement::DeepCut | ConsonantPlacement::ShallowCut => true,
                ConsonantPlacement::OnLine | ConsonantPlacement::Inside => false,
            },
            Self::Vocal(_) => false,
        }
    }
}

/// A letter cuts the word circle when it is a consonant placed deep or shallow.
pub open spec fn is_cutting_letter(l: Letter) -> bool {
    match l {
        Letter::Consonant(c) => cluster_placement(c) == ConsonantPlacement::DeepCut
            || cluster_placement(c) == ConsonantPlacement::ShallowCut,
        Letter::Vocal(_) => false,
    }
}

impl From<ConsonantCluster> for Letter {
    fn from(value: ConsonantCluster) -> (r: Self) {
        Self::Consonant(value)
    }
}

impl vstd::std_specs::convert::FromSpecImpl<ConsonantCluster> for Letter {
    open spec fn obeys_from_spec() -> bool {
        true
    }

    open spec fn from_spec(v: ConsonantCluster) -> Self {
        Letter::Consonant(v)
    }
}

impl From<Consonant> for Letter {
    fn from(value: Consonant) -> (r: Self) {
        Self::Consonant(ConsonantCluster::Single(value))
    }
}

impl vstd::std_specs::convert::FromSpecImpl<Consonant> for Letter {
    open spec fn obeys_from_spec() -> bool {
        true
    }

    open spec fn from_spec(v: Consonant) -> Self {
        Letter::Consonant(ConsonantCluster::Single(v))
    }
}

impl From<Digraph> for Letter {
    fn from(value: Digraph) -> (r: Self) {
        Self::Consonant(ConsonantCluster::Digraph(value))
    }
}

impl vstd::std_specs::convert::FromSpecImpl<Digraph> for Letter {
    open spec fn obeys_from_spec() -> bool {
        true
    }

    open spec fn from_spec(v: Digraph) -> Self {
        Letter::Consonant(ConsonantCluster::Digraph(v))
    }
}

impl From<Vocal> for Letter {
    fn from(value: Vocal) -> (r: Self) {
        Self::Vocal(value)
    }
}

impl vstd::std_specs::convert::FromSpecImpl<Vocal> for Letter {
    open spec fn obeys_from_spec() -> bool {
        true
    }

    open spec fn from_spec(v: Vocal) -> Self {
        Letter::Vocal(v)
    }
}

/// Something that carries dots and lines.
pub trait Decorated {
    spec fn dots_of(&self) -> nat;

    spec fn lines_of(&self) -> nat;

    fn dots(&self) -> (r: usize)
        ensures
            r == self.dots_of(),
    ;

    fn lines(&self) -> (r: usize)
        ensures
            r == self.lines_of(),
    ;
}

impl Decorated for Letter {
    open spec fn dots_of(&self) -> nat {
        match *self {
            Letter::Vocal(vocal) => vocal_decoration(vocal).dots_of(),
            Letter::Consonant(consonant) => cluster_decoration(consonant).dots_of(),
        }
    }

    open spec fn lines_of(&self) -> nat {
        match *self {
            Letter::Vocal(vocal) => vocal_decoration(vocal).lines_of(),
            Letter::Consonant(consonant) => cluster_decoration(consonant).lines_of(),
        }
    }

    fn dots(&self) -> (r: usize) {
        match self {
            Letter::Vocal(vocal) => VocalDecoration::from(*vocal).dots(),
            Letter::Consonant(consonant) => ConsonantDecoration::from(*consonant).dots(),
        }
    }

    fn lines(&self) -> (r: usize) {
        match self {
            Letter::Vocal(vocal) => VocalDecoration::from(*vocal).lines(),
            Letter::Consonant(consonant) => ConsonantDecoration::from(*consonant).lines(),
        }
    }
}

/// Each character of a word, read as the letter it names.
pub open spec fn char_letters(word: Seq<char>) -> Seq<(Seq<char>, Letter)> {
    Seq::new(word.len(), |i: int| (seq![word[i]], letter_of(seq![word[i]])->Some_0))
}

/// Every character of the word names a letter.
pub open spec fn is_letter_word(word: Seq<char>) -> bool {
    forall|i: int| 0 <= i < word.len() ==> letter_of(#[trigger] seq![word[i]]) is Some
}

/// Whether every character of a word names a letter, so that the word can be split
/// into letters.
pub fn is_letter_text(word: &str) -> (r: bool)
    ensures
        r == is_letter_word(word@),
{
    let n = word.unicode_len();
    let mut i: usize = 0;
    while i < n
        invariant
            n == word@.len(),
            i <= n,
            forall|j: int| 0 <= j < i ==> letter_of(#[trigger] seq![word@[j]]) is Some,
        decreases n - i,
    {
        let piece = word.substring_char(i, i + 1);
        proof {
            assert(piece@ =~= seq![word@[i as int]]);
        }
        if Letter::try_from(piece).is_err() {
            return false;
        }
        i = i + 1;
    }
    true
}

/// Splits a sanitized word into its letters, joining the pairs that form digraphs.
pub fn split_word_to_letters(word: &str) -> (r: Vec<LetterText>)
    requires
        is_letter_word(word@),
    ensures
        views(r@) == combine(char_letters(word@)),
        joined_text(views(r@)) == word@,
        forall|i: int| 0 <= i < r.len() ==> (#[trigger] r@[i]).well_formed(),
{
    let n = word.unicode_len();
    let mut letters: Vec<LetterText> = Vec::new();
    let mut i: usize = 0;
    while i < n
        invariant
            n == word@.len(),
            i <= n,
            is_letter_word(word@),
            letters.len() == i,
            forall|j: int| 0 <= j < i ==> (#[trigger] letters@[j])@ == char_letters(word@)[j],
            forall|j: int| 0 <= j < i ==> (#[trigger] letters@[j]).well_formed(),
        decreases n - i,
    {
        let grapheme = word.substring_char(i, i + 1);
        proof {
            assert(grapheme@ =~= seq![word@[i as int]]);
        }
        let letter = Letter::try_from(grapheme).unwrap();
        letters.push(LetterText { text: String::from_str(grapheme), letter });
        i = i + 1;
    }
    proof {
        assert(views(letters@) =~= char_letters(word@));
    }
    proof {
        lemma_char_letters_text(word@);
        lemma_combine_keeps_text(char_letters(word@));
    }
    letters.combine().collect_letters()
}

/// Reading each character as a letter keeps the text.
proof fn lemma_char_letters_text(word: Seq<char>)
    ensures
        joined_text(char_letters(word)) == word,
    decreases word.len(),
{
    if word.len() > 0 {
        lemma_char_letters_text(word.drop_first());
        assert(char_letters(word).drop_first() =~= char_letters(word.drop_first()));
        assert(word =~= seq![word[0]] + word.drop_first());
    }
}

/// The name a vocal is shown by parses back to the vocal.
pub proof fn lemma_vocal_name_parses(v: Vocal)
    ensures
        vocal_of(vocal_name(v)) == Some(v),
        letter_of(vocal_name(v)) == Some(Letter::Vocal(v)),
{
    reveal_strlit("A");
    reveal_strlit("E");
    reveal_strlit("I");
    reveal_strlit("O");
    reveal_strlit("U");
}

/// Lower-casing twice is lower-casing once.
pub proof fn lemma_ascii_lower_idempotent(c: char)
    ensures
        ascii_lower(ascii_lower(c)) == ascii_lower(c),
        char_width(ascii_lower(c)) == char_width(c),
{
}

/// Lower-casing keeps the byte length of a text.
proof fn lemma_lower_keeps_utf8_len(s: Seq<char>)
    ensures
        utf8_len(s.map_values(|c: char| ascii_lower(c))) == utf8_len(s),
    decreases s.len(),
{
    if s.len() > 0 {
        lemma_lower_keeps_utf8_len(s.drop_first());
        assert(s.map_values(|c: char| ascii_lower(c)).drop_first() =~= s.drop_first().map_values(
            |c: char| ascii_lower(c),
        ));
    }
}

/// Reading a letter ignores ASCII case: a text names the letter that its
/// lower-case form names.
pub proof fn lemma_letter_ignores_case(s: Seq<char>)
    ensures
        letter_of(s) == letter_of(s.map_values(|c: char| ascii_lower(c))),
{
    let l = s.map_values(|c: char| ascii_lower(c));
    lemma_lower_keeps_utf8_len(s);
    if s.len() >= 1 {
        lemma_ascii_lower_idempotent(s[0]);
    }
    if s.len() >= 2 {
        lemma_ascii_lower_idempotent(s[1]);
    }
}

/// No letter carries both dots and lines.
pub proof fn lemma_dots_or_lines(l: Letter)
    ensures
        l.dots_of() == 0 || l.lines_of() == 0,
{
}

/// Every character of a text that names a letter names a letter by itself: a
/// digraph is made of two letters.
pub proof fn lemma_letter_chars(g: Seq<char>)
    requires
        letter_of(g) is Some,
    ensures
        is_letter_word(g),
{
    lemma_utf8_len_one(g);
    if vocal_of(g) is Some || utf8_len(g) == 1 {
        assert(seq![g[0]] =~= g);
    } else {
        let a = g[0];
        let b = g[1];
        lemma_utf8_len_one(seq![a]);
        lemma_utf8_len_one(seq![b]);
        assert('A' <= a && a <= 'Z' ==> (a as u32) < 0x80);
        assert('A' <= b && b <= 'Z' ==> (b as u32) < 0x80);
        assert(letter_of(seq![a]) is Some);
        assert(letter_of(seq![b]) is Some);
        assert forall|i: int| 0 <= i < g.len() implies letter_of(#[trigger] seq![g[i]]) is Some by {
            if i == 0 {
                assert(seq![g[i]] =~= seq![a]);
            } else {
                assert(seq![g[i]] =~= seq![b]);
            }
        }
    }
}

} // verus!
