use super::consonant::{Consonant, ConsonantCluster};
use super::vocal::Vocal;
use super::{letter_of, Letter};
use crate::text::{lemma_utf8_len_concat, lemma_utf8_len_one};
use vstd::prelude::*;

verus! {

/// A letter together with the text that it was read from.
#[derive(Debug, PartialEq, Eq)]
pub struct LetterText {
    pub text: String,
    pub letter: Letter,
}

impl View for LetterText {
    type V = (Seq<char>, Letter);

    open spec fn view(&self) -> (Seq<char>, Letter) {
        (self.text@, self.letter)
    }
}

/// The views of a sequence of letter texts.
pub open spec fn views(s: Seq<LetterText>) -> Seq<(Seq<char>, Letter)> {
    s.map_values(|t: LetterText| t@)
}

impl LetterText {
    /// The letter is the one that the text names.
    pub open spec fn well_formed(&self) -> bool {
        letter_of(self.text@) == Some(self.letter)
    }

    pub fn new(text: &str, letter: Letter) -> (r: LetterText)
        ensures
            r@ == (text@, letter),
    {
        LetterText { text: String::from_str(text), letter }
    }
}

/// Two letters that are written as one digraph when they follow each other:
/// t, p, w, g, c or s before h; n before g; q before u.
pub open spec fn combinable(prev: Letter, next: Letter) -> bool {
    match (prev, next) {
        (
            Letter::Consonant(ConsonantCluster::Single(a)),
            Letter::Consonant(ConsonantCluster::Single(Consonant::H)),
        ) => a == Consonant::T || a == Consonant::P || a == Consonant::W || a == Consonant::G
            || a == Consonant::C || a == Consonant::S,
        (
            Letter::Consonant(ConsonantCluster::Single(Consonant::N)),
            Letter::Consonant(ConsonantCluster::Single(Consonant::G)),
        ) => true,
        (Letter::Consonant(ConsonantCluster::Single(Consonant::Q)), Letter::Vocal(Vocal::U)) => true,
        _ => false,
    }
}

/// The letter text that two combinable letter texts form.
pub open spec fn merge(prev: (Seq<char>, Letter), next: (Seq<char>, Letter)) -> (Seq<char>, Letter) {
    (prev.0 + next.0, letter_of(prev.0 + next.0)->Some_0)
}

/// The letters of a word after joining every pair that forms a digraph, read from
/// left to right.
pub open spec fn combine(s: Seq<(Seq<char>, Letter)>) -> Seq<(Seq<char>, Letter)>
    decreases s.len(),
{
    if s.len() <= 1 {
        s
    } else if combinable(s[0].1, s[1].1) {
        seq![merge(s[0], s[1])] + combine(s.skip(2))
    } else {
        seq![s[0]] + combine(s.skip(1))
    }
}

/// The texts of a sequence of letter texts, written one after the other.
pub open spec fn joined_text(s: Seq<(Seq<char>, Letter)>) -> Seq<char>
    decreases s.len(),
{
    if s.len() == 0 {
        seq![]
    } else {
        s[0].0 + joined_text(s.drop_first())
    }
}

/// Every letter text names its letter.
pub open spec fn all_name_their_letters(s: Seq<(Seq<char>, Letter)>) -> bool {
    forall|i: int| 0 <= i < s.len() ==> letter_of(#[trigger] s[i].0) == Some(s[i].1)
}

/// Joining digraphs neither loses nor adds text: the combined letters spell the
/// same text as the letters they were made of.
pub proof fn lemma_combine_keeps_text(s: Seq<(Seq<char>, Letter)>)
    ensures
        joined_text(combine(s)) == joined_text(s),
    decreases s.len(),
{
    if s.len() <= 1 {
    } else if combinable(s[0].1, s[1].1) {
        lemma_combine_keeps_text(s.skip(2));
        let c = combine(s);
        assert(c.drop_first() =~= combine(s.skip(2)));
        assert(s.drop_first().drop_first() =~= s.skip(2));
        assert(s.drop_first()[0] == s[1]);
        assert(joined_text(s.drop_first()) == s[1].0 + joined_text(s.skip(2)));
        assert(joined_text(c) == (s[0].0 + s[1].0) + joined_text(s.skip(2)));
        assert(joined_text(s) =~= (s[0].0 + s[1].0) + joined_text(s.skip(2)));
    } else {
        lemma_combine_keeps_text(s.skip(1));
        let c = combine(s);
        assert(c.drop_first() =~= combine(s.skip(1)));
        assert(s.drop_first() =~= s.skip(1));
    }
}

/// Combining never makes a word longer: each step joins two letters or keeps one.
pub proof fn lemma_combine_not_longer(s: Seq<(Seq<char>, Letter)>)
    ensures
        combine(s).len() <= s.len(),
        s.len() > 0 ==> combine(s).len() > 0,
    decreases s.len(),
{
    if s.len() <= 1 {
    } else if combinable(s[0].1, s[1].1) {
        lemma_combine_not_longer(s.skip(2));
    } else {
        lemma_combine_not_longer(s.skip(1));
    }
}

/// The combined letters of well-formed letter texts all name their letters.
pub proof fn lemma_combine_names_letters(s: Seq<(Seq<char>, Letter)>)
    requires
        all_name_their_letters(s),
    ensures
        all_name_their_letters(combine(s)),
    decreases s.len(),
{
    if s.len() <= 1 {
    } else if combinable(s[0].1, s[1].1) {
        lemma_combine_names_letters(s.skip(2));
        lemma_merge_parses_view(s[0], s[1]);
        let c = combine(s);
        assert forall|i: int| 0 <= i < c.len() implies letter_of(#[trigger] c[i].0) == Some(c[i].1) by {
            if i > 0 {
                assert(c[i] == combine(s.skip(2))[i - 1]);
            }
        }
    } else {
        lemma_combine_names_letters(s.skip(1));
        let c = combine(s);
        assert forall|i: int| 0 <= i < c.len() implies letter_of(#[trigger] c[i].0) == Some(c[i].1) by {
            if i > 0 {
                assert(c[i] == combine(s.skip(1))[i - 1]);
            }
        }
    }
}

/// Combining is greedy and complete: of well-formed letter texts, no two neighbours
/// of the result would still form a digraph.
pub proof fn lemma_combine_leaves_no_pair(s: Seq<(Seq<char>, Letter)>)
    requires
        all_name_their_letters(s),
    ensures
        forall|i: int|
            0 <= i < combine(s).len() - 1 ==> !combinable(
                #[trigger] combine(s)[i].1,
                combine(s)[i + 1].1,
            ),
    decreases s.len(),
{
    if s.len() <= 1 {
    } else if combinable(s[0].1, s[1].1) {
        let t = s.skip(2);
        lemma_combine_leaves_no_pair(t);
        lemma_merge_parses_view(s[0], s[1]);
        lemma_combine_not_longer(t);
        let c = combine(s);
        assert forall|i: int| 0 <= i < c.len() - 1 implies !combinable(#[trigger] c[i].1, c[i + 1].1) by {
            if i > 0 {
                assert(c[i] == combine(t)[i - 1]);
                assert(c[i + 1] == combine(t)[i]);
            } else {
                lemma_merged_is_digraph(s[0], s[1]);
            }
        }
    } else {
        let t = s.skip(1);
        lemma_combine_leaves_no_pair(t);
        lemma_combine_not_longer(t);
        let c = combine(s);
        assert forall|i: int| 0 <= i < c.len() - 1 implies !combinable(#[trigger] c[i].1, c[i + 1].1) by {
            if i > 0 {
                assert(c[i] == combine(t)[i - 1]);
                assert(c[i + 1] == combine(t)[i]);
            } else {
                lemma_combine_starts_with(t);
                if t.len() > 1 && combinable(t[0].1, t[1].1) {
                    lemma_merged_is_digraph(t[0], t[1]);
                }
            }
        }
    }
}

/// Letter texts of which no two neighbours form a digraph are left as they are.
pub proof fn lemma_combine_without_pairs(s: Seq<(Seq<char>, Letter)>)
    requires
        forall|i: int| 0 <= i < s.len() - 1 ==> !combinable(#[trigger] s[i].1, s[i + 1].1),
    ensures
        combine(s) == s,
    decreases s.len(),
{
    if s.len() > 1 {
        let t = s.skip(1);
        assert forall|i: int| 0 <= i < t.len() - 1 implies !combinable(#[trigger] t[i].1, t[i + 1].1) by {
            assert(t[i] == s[i + 1] && t[i + 1] == s[i + 2]);
        }
        lemma_combine_without_pairs(t);
        assert(seq![s[0]] + t =~= s);
    }
}

/// Combining twice is combining once: the letters that a word splits into are not
/// joined any further by a second pass.
pub proof fn lemma_combine_idempotent(s: Seq<(Seq<char>, Letter)>)
    requires
        all_name_their_letters(s),
    ensures
        combine(combine(s)) == combine(s),
{
    lemma_combine_leaves_no_pair(s);
    lemma_combine_without_pairs(combine(s));
}

/// The first combined letter is the first letter, or the merge of the first two.
proof fn lemma_combine_starts_with(s: Seq<(Seq<char>, Letter)>)
    requires
        s.len() > 0,
    ensures
        combine(s)[0] == if s.len() > 1 && combinable(s[0].1, s[1].1) {
            merge(s[0], s[1])
        } else {
            s[0]
        },
{
}

/// The view-level form of `lemma_merge_parses`.
proof fn lemma_merge_parses_view(a: (Seq<char>, Letter), b: (Seq<char>, Letter))
    requires
        letter_of(a.0) == Some(a.1),
        letter_of(b.0) == Some(b.1),
        combinable(a.1, b.1),
    ensures
        letter_of(a.0 + b.0) is Some,
{
    lemma_utf8_len_one(a.0);
    lemma_utf8_len_one(b.0);
    lemma_utf8_len_concat(a.0, b.0);
    let ab = a.0 + b.0;
    assert(ab.len() == 2);
    assert(ab[0] == a.0[0] && ab[1] == b.0[0]);
}

/// A merged pair is a digraph.
proof fn lemma_merged_is_digraph(a: (Seq<char>, Letter), b: (Seq<char>, Letter))
    requires
        letter_of(a.0) == Some(a.1),
        letter_of(b.0) == Some(b.1),
        combinable(a.1, b.1),
    ensures
        merge(a, b).1 is Consonant,
        merge(a, b).1->Consonant_0 is Digraph,
{
    lemma_merge_parses_view(a, b);
}

/// Whether two letters form a digraph when they follow each other.
fn is_combinable(prev: Letter, next: Letter) -> (r: bool)
    ensures
        r == combinable(prev, next),
{
    match (prev, next) {
        (
            Letter::Consonant(ConsonantCluster::Single(
                Consonant::T
                | Consonant::P
                | Consonant::W
                | Consonant::G
                | Consonant::C
                | Consonant::S,
            )),
            Letter::Consonant(ConsonantCluster::Single(Consonant::H)),
        )
        | (
            Letter::Consonant(ConsonantCluster::Single(Consonant::N)),
            Letter::Consonant(ConsonantCluster::Single(Consonant::G)),
        )
        | (Letter::Consonant(ConsonantCluster::Single(Consonant::Q)), Letter::Vocal(Vocal::U)) => {
            true
        },
        _ => false,
    }
}

/// Joins letter texts that form digraphs.
pub trait CombineLetters: Sized {
    spec fn letter_texts(&self) -> Seq<(Seq<char>, Letter)>;

    spec fn all_well_formed(&self) -> bool;

    fn combine(self) -> (r: LetterCombinator)
        requires
            self.all_well_formed(),
        ensures
            r.well_formed(),
            r.pending() == combine(self.letter_texts()),
    ;
}

impl CombineLetters for Vec<LetterText> {
    open spec fn letter_texts(&self) -> Seq<(Seq<char>, Letter)> {
        views(self@)
    }

    open spec fn all_well_formed(&self) -> bool {
        forall|i: int| 0 <= i < self.len() ==> (#[trigger] self@[i]).well_formed()
    }

    fn combine(self) -> (r: LetterCombinator) {
        let mut input = self;
        let mut rest: Vec<LetterText> = Vec::new();
        let ghost given = input@;
        while input.len() > 0
            invariant
                forall|i: int| 0 <= i < given.len() ==> (#[trigger] given[i]).well_formed(),
                input@ == given.take(input.len() as int),
                input.len() + rest.len() == given.len(),
                forall|i: int|
                    0 <= i < rest.len() ==> #[trigger] rest@[i] == given[given.len() - 1
                        - i],
            decreases input.len(),
        {
            let last = input.pop().unwrap();
            rest.push(last);
            proof {
                assert(input@ =~= given.take(input.len() as int));
            }
        }
        let r = LetterCombinator { rest, prev: None };
        proof {
            assert(r.input() =~= views(given));
        }
        r
    }
}

/// Reads letter texts one at a time and joins the pairs that form digraphs.
pub struct LetterCombinator {
    /// The letter texts not read yet, the next one last.
    rest: Vec<LetterText>,
    /// A letter text that was read and not given out yet.
    prev: Option<LetterText>,
}

impl LetterCombinator {
    /// The letter texts that are still to be combined, in reading order.
    pub closed spec fn input(&self) -> Seq<(Seq<char>, Letter)> {
        let rest = views(self.rest@.reverse());
        match self.prev {
            Some(p) => seq![p@] + rest,
            None => rest,
        }
    }

    /// The letter texts that `next` will still give out, in order.
    pub closed spec fn pending(&self) -> Seq<(Seq<char>, Letter)> {
        combine(self.input())
    }

    pub closed spec fn well_formed(&self) -> bool {
        &&& forall|i: int| 0 <= i < self.rest.len() ==> (#[trigger] self.rest@[i]).well_formed()
        &&& self.prev matches Some(p) ==> p.well_formed()
    }

    /// Gives the next letter text, joined with its successor where the two form a
    /// digraph.
    pub fn next(&mut self) -> (r: Option<LetterText>)
        requires
            old(self).well_formed(),
        ensures
            final(self).well_formed(),
            match r {
                None => old(self).pending().len() == 0 && final(self).pending().len() == 0,
                Some(t) => old(self).pending() == seq![t@] + final(self).pending() && t.well_formed(),
            },
    {
        let ghost old_input = self.input();
        let prev = match self.prev.take() {
            Some(p) => p,
            None => match self.rest.pop() {
                Some(n) => n,
                None => {
                    proof {
                        assert(old_input.len() == 0);
                    }
                    return None;
                },
            },
        };
        proof {
            assert(old_input =~= seq![prev@] + self.input());
        }
        match self.rest.pop() {
            None => {
                proof {
                    assert(self.input().len() == 0);
                    assert(old_input =~= seq![prev@]);
                }
                Some(prev)
            },
            Some(next) => {
                let ghost tail = self.input();
                proof {
                    assert(old_input =~= seq![prev@, next@] + tail);
                    assert(old_input.skip(2) =~= tail);
                    assert(old_input.skip(1) =~= seq![next@] + tail);
                }
                if is_combinable(prev.letter, next.letter) {
                    proof {
                        lemma_merge_parses_view(prev@, next@);
                    }
                    let text = prev.text.concat(next.text.as_str());
                    let letter = Letter::try_from(text.as_str()).unwrap();
                    Some(LetterText { text, letter })
                } else {
                    self.prev = Some(next);
                    proof {
                        assert(self.input() =~= seq![next@] + tail);
                    }
                    Some(prev)
                }
            },
        }
    }

    /// Gives out all remaining letter texts.
    pub fn collect_letters(self) -> (r: Vec<LetterText>)
        requires
            self.well_formed(),
        ensures
            views(r@) == self.pending(),
            forall|i: int| 0 <= i < r.len() ==> (#[trigger] r@[i]).well_formed(),
    {
        let ghost all = self.pending();
        let mut it = self;
        let mut out: Vec<LetterText> = Vec::new();
        loop
            invariant
                it.well_formed(),
                all == self.pending(),
                all == views(out@) + it.pending(),
                forall|i: int| 0 <= i < out.len() ==> (#[trigger] out@[i]).well_formed(),
            decreases it.pending().len(),
        {
            match it.next() {
                Some(t) => {
                    out.push(t);
                    proof {
                        assert(all =~= views(out@) + it.pending());
                    }
                },
                None => {
                    proof {
                        assert(all =~= views(out@));
                    }
                    return out;
                },
            }
        }
    }
}

} // verus!
