use super::letter::{is_letter_word, lemma_letter_chars, letter_of, Letter};
use crate::text::{
    all_chars, is_white_space, join, join_strings, lemma_join_all_chars, lemma_words_all_chars,
    split_whitespace, string_views, words_of,
};
use unicode_segmentation::UnicodeSegmentation;
use vstd::prelude::*;

verus! {

/// The grapheme clusters that `UnicodeSegmentation::graphemes` finds in a text.
pub uninterp spec fn graphemes_of(s: Seq<char>, is_extended: bool) -> Seq<Seq<char>>;

/// Calls `unicode_segmentation::UnicodeSegmentation::graphemes` and collects the
/// clusters it yields. The contract claims only that the clusters are those that
/// the segmentation of this text gives (the name `graphemes_of`); what a cluster
/// is (UAX #29) is not stated.
#[verifier::external_body]
fn graphemes(s: &str, is_extended: bool) -> (r: Vec<String>)
    ensures
        string_views(r@) == graphemes_of(s@, is_extended),
{
    s.graphemes(is_extended).map(|g| g.to_string()).collect()
}

/// The grapheme clusters that name a letter, in order.
pub open spec fn letter_graphemes(gs: Seq<Seq<char>>) -> Seq<Seq<char>>
    decreases gs.len(),
{
    if gs.len() == 0 {
        seq![]
    } else if letter_of(gs.last()) is Some {
        letter_graphemes(gs.drop_last()).push(gs.last())
    } else {
        letter_graphemes(gs.drop_last())
    }
}

/// A word with every grapheme cluster that is not a letter taken out.
pub open spec fn sanitized_word(w: Seq<char>) -> Seq<char> {
    join(letter_graphemes(graphemes_of(w, true)), ""@)
}

/// Each word, sanitized.
pub open spec fn sanitized_words(ws: Seq<Seq<char>>) -> Seq<Seq<char>> {
    ws.map_values(|w: Seq<char>| sanitized_word(w))
}

/// A sentence with its words sanitized and separated by single spaces.
pub open spec fn sanitized(s: Seq<char>) -> Seq<char> {
    join(sanitized_words(words_of(s)), " "@)
}

/// Keeps of each word only the grapheme clusters that are letters, and separates
/// the words by single spaces.
pub fn sanitize_sentence(sentence: &str) -> (r: String)
    ensures
        r@ == sanitized(sentence@),
{
    let words = split_whitespace(sentence);
    let mut cleaned: Vec<String> = Vec::new();
    let mut i: usize = 0;
    while i < words.len()
        invariant
            i <= words.len(),
            string_views(words@) == words_of(sentence@),
            string_views(cleaned@) == sanitized_words(string_views(words@.take(i as int))),
        decreases words.len() - i,
    {
        let ghost before = string_views(cleaned@);
        let word = sanitize_word(words[i].as_str());
        cleaned.push(word);
        proof {
            let done = string_views(words@.take(i as int));
            let next = string_views(words@.take(i + 1));
            assert(next =~= done.push(words@[i as int]@));
            assert(string_views(cleaned@) =~= before.push(sanitized_word(words@[i as int]@)));
            assert(sanitized_words(next) =~= sanitized_words(done).push(
                sanitized_word(words@[i as int]@),
            ));
        }
        i = i + 1;
    }
    proof {
        assert(words@.take(words.len() as int) =~= words@);
    }
    join_strings(&cleaned, " ")
}

/// Keeps of a word only the grapheme clusters that are letters.
fn sanitize_word(word: &str) -> (r: String)
    ensures
        r@ == sanitized_word(word@),
{
    let clusters = graphemes(word, true);
    join_letter_graphemes(&clusters)
}

/// Joins, in order, the grapheme clusters that name a letter and drops the others.
pub fn join_letter_graphemes(clusters: &Vec<String>) -> (r: String)
    ensures
        r@ == join(letter_graphemes(string_views(clusters@)), ""@),
{
    let mut kept: Vec<String> = Vec::new();
    let mut i: usize = 0;
    while i < clusters.len()
        invariant
            i <= clusters.len(),
            string_views(kept@) == letter_graphemes(string_views(clusters@.take(i as int))),
        decreases clusters.len() - i,
    {
        let ghost done = string_views(clusters@.take(i as int));
        let ghost next = string_views(clusters@.take(i + 1));
        proof {
            assert(next.drop_last() =~= done);
            assert(next.last() == clusters@[i as int]@);
        }
        if Letter::try_from(clusters[i].as_str()).is_ok() {
            let cluster = String::from_str(clusters[i].as_str());
            kept.push(cluster);
            proof {
                assert(string_views(kept@) =~= letter_graphemes(next));
            }
        }
        i = i + 1;
    }
    proof {
        assert(clusters@.take(clusters.len() as int) =~= clusters@);
    }
    join_strings(&kept, "")
}

/// Why the sentence query found no single sentence.
#[derive(Debug, Copy, Clone, PartialEq, Eq, Structural)]
pub enum SentenceLookupError {
    NoEntities,
    MultipleEntities,
}

/// What becomes of the sentence entity when a new sentence is set.
#[derive(Debug, PartialEq, Eq)]
pub enum SentenceAction {
    /// Leave everything as it is.
    Keep,
    /// Despawn the sentence with all its descendants.
    Despawn,
    /// Give the existing sentence this text.
    Update(String),
    /// Spawn a sentence with this text.
    Spawn(String),
    /// More than one sentence exists, which is not supported.
    ReportMultiple,
}

/// The action as plain values, with texts by their views.
pub open spec fn action_view(a: SentenceAction) -> (nat, Seq<char>) {
    match a {
        SentenceAction::Keep => (0, seq![]),
        SentenceAction::Despawn => (1, seq![]),
        SentenceAction::Update(t) => (2, t@),
        SentenceAction::Spawn(t) => (3, t@),
        SentenceAction::ReportMultiple => (4, seq![]),
    }
}

/// The action of `set_sentence`: the new text is sanitized first; an empty
/// sentence despawns the current one, a different one replaces its text, and a
/// sentence is spawned where there was none.
pub open spec fn set_sentence_action_spec(
    current: Result<Seq<char>, SentenceLookupError>,
    new_sentence: Seq<char>,
) -> (nat, Seq<char>) {
    let new = sanitized(new_sentence);
    match current {
        Ok(text) => if new.len() == 0 {
            (1, seq![])
        } else if text != new {
            (2, new)
        } else {
            (0, seq![])
        },
        Err(SentenceLookupError::NoEntities) => if new.len() == 0 {
            (0, seq![])
        } else {
            (3, new)
        },
        Err(SentenceLookupError::MultipleEntities) => (4, seq![]),
    }
}

/// Decides what `set_sentence` does with the sentence query's result and the
/// newest requested sentence.
pub fn set_sentence_action(current: Result<&str, SentenceLookupError>, new_sentence: &str) -> (r:
    SentenceAction)
    ensures
        action_view(r) == set_sentence_action_spec(
            match current {
                Ok(t) => Ok(t@),
                Err(e) => Err(e),
            },
            new_sentence@,
        ),
        match r {
            SentenceAction::Update(t) => t@ == sanitized(new_sentence@),
            SentenceAction::Spawn(t) => t@ == sanitized(new_sentence@),
            _ => true,
        },
{
    let new_sentence = sanitize_sentence(new_sentence);
    match current {
        Ok(text) => {
            if new_sentence.unicode_len() == 0 {
                SentenceAction::Despawn
            } else if String::from_str(text) != new_sentence {
                SentenceAction::Update(new_sentence)
            } else {
                SentenceAction::Keep
            }
        },
        Err(SentenceLookupError::NoEntities) => {
            if new_sentence.unicode_len() == 0 {
                SentenceAction::Keep
            } else {
                SentenceAction::Spawn(new_sentence)
            }
        },
        Err(SentenceLookupError::MultipleEntities) => SentenceAction::ReportMultiple,
    }
}

/// Setting a sentence is settled by one call: once the sentence holds the
/// sanitized text, setting the same sentence again leaves it as it is.
pub proof fn lemma_set_sentence_settles(new_sentence: Seq<char>)
    requires
        sanitized(new_sentence).len() > 0,
    ensures
        set_sentence_action_spec(Ok(sanitized(new_sentence)), new_sentence) == (
            0nat,
            Seq::<char>::empty(),
        ),
{
}

/// A sentence is only ever given sanitized text: whatever is set, the text that an
/// update or a spawn gives the sentence is the sanitized new sentence, so each of
/// its words splits into letters.
pub proof fn lemma_set_sentence_gives_sanitized(
    current: Result<Seq<char>, SentenceLookupError>,
    new_sentence: Seq<char>,
)
    ensures
        ({
            let a = set_sentence_action_spec(current, new_sentence);
            (a.0 == 2 || a.0 == 3) ==> {
                &&& a.1 == sanitized(new_sentence)
                &&& forall|k: int|
                    0 <= k < words_of(a.1).len() ==> is_letter_word(#[trigger] words_of(a.1)[k])
            }
        }),
{
    lemma_sanitized_words_are_letters(new_sentence);
}

/// The action of the text setting system that takes the text as it is: an empty
/// text despawns the sentence, any other text is given to it, and a sentence is
/// spawned where there was none.
pub open spec fn convert_sentence_action_spec(
    current: Result<Seq<char>, SentenceLookupError>,
    text: Seq<char>,
) -> (nat, Seq<char>) {
    match current {
        Ok(_) => if text.len() == 0 {
            (1, seq![])
        } else {
            (2, text)
        },
        Err(SentenceLookupError::NoEntities) => (3, text),
        Err(SentenceLookupError::MultipleEntities) => (4, seq![]),
    }
}

/// Decides what the text setting system does with the sentence query's result and
/// the newest text.
pub fn convert_sentence_action(current: Result<&str, SentenceLookupError>, text: &str) -> (r:
    SentenceAction)
    ensures
        action_view(r) == convert_sentence_action_spec(
            match current {
                Ok(t) => Ok(t@),
                Err(e) => Err(e),
            },
            text@,
        ),
{
    match current {
        Ok(_) => {
            if text.unicode_len() == 0 {
                SentenceAction::Despawn
            } else {
                SentenceAction::Update(String::from_str(text))
            }
        },
        Err(SentenceLookupError::NoEntities) => SentenceAction::Spawn(String::from_str(text)),
        Err(SentenceLookupError::MultipleEntities) => SentenceAction::ReportMultiple,
    }
}

/// The grapheme clusters kept of a word all name letters.
proof fn lemma_letter_graphemes_name_letters(gs: Seq<Seq<char>>)
    ensures
        forall|k: int|
            0 <= k < letter_graphemes(gs).len() ==> letter_of(#[trigger] letter_graphemes(gs)[k]) is Some,
    decreases gs.len(),
{
    if gs.len() > 0 {
        lemma_letter_graphemes_name_letters(gs.drop_last());
        let init = letter_graphemes(gs.drop_last());
        if letter_of(gs.last()) is Some {
            assert forall|k: int| 0 <= k < letter_graphemes(gs).len() implies letter_of(
                #[trigger] letter_graphemes(gs)[k],
            ) is Some by {
                if k < init.len() {
                    assert(letter_graphemes(gs)[k] == init[k]);
                }
            }
        }
    }
}

/// A sanitized word is made of letters only, so it can be split into letters.
pub proof fn lemma_sanitized_word_is_letters(w: Seq<char>)
    ensures
        is_letter_word(sanitized_word(w)),
{
    let p = |c: char| letter_of(seq![c]) is Some;
    let kept = letter_graphemes(graphemes_of(w, true));
    lemma_letter_graphemes_name_letters(graphemes_of(w, true));
    assert forall|k: int| 0 <= k < kept.len() implies all_chars(#[trigger] kept[k], p) by {
        lemma_letter_chars(kept[k]);
    }
    assert(all_chars(""@, p)) by {
        reveal_strlit("");
    }
    lemma_join_all_chars(kept, ""@, p);
    let t = sanitized_word(w);
    assert forall|i: int| 0 <= i < t.len() implies letter_of(#[trigger] seq![t[i]]) is Some by {
        assert(p(t[i]));
    }
}

/// Every word of a sanitized sentence can be split into letters: the text
/// converter reads the sentence that the text input sets without ever meeting a
/// character that is not a letter.
pub proof fn lemma_sanitized_words_are_letters(s: Seq<char>)
    ensures
        forall|k: int|
            0 <= k < words_of(sanitized(s)).len() ==> is_letter_word(
                #[trigger] words_of(sanitized(s))[k],
            ),
{
    let p = |c: char| letter_of(seq![c]) is Some;
    let q = |c: char| is_white_space(c) || letter_of(seq![c]) is Some;
    let ws = sanitized_words(words_of(s));
    assert forall|k: int| 0 <= k < ws.len() implies all_chars(#[trigger] ws[k], q) by {
        let w = words_of(s)[k];
        lemma_sanitized_word_is_letters(w);
        assert(ws[k] == sanitized_word(w));
        assert forall|i: int| 0 <= i < ws[k].len() implies q(#[trigger] ws[k][i]) by {
            assert(letter_of(seq![ws[k][i]]) is Some);
        }
    }
    assert(all_chars(" "@, q)) by {
        reveal_strlit(" ");
    }
    lemma_join_all_chars(ws, " "@, q);
    let t = sanitized(s);
    assert forall|i: int| 0 <= i < t.len() implies is_white_space(#[trigger] t[i]) || p(t[i]) by {
        assert(q(t[i]));
    }
    lemma_words_all_chars(t, seq![], p);
    assert forall|k: int| 0 <= k < words_of(t).len() implies is_letter_word(
        #[trigger] words_of(t)[k],
    ) by {
        let w = words_of(t)[k];
        assert(all_chars(w, p));
        assert forall|i: int| 0 <= i < w.len() implies letter_of(#[trigger] seq![w[i]]) is Some by {
            assert(p(w[i]));
        }
    }
}

} // verus!
