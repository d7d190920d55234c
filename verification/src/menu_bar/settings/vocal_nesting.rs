//! The custom vocal nesting rules, written as a comma separated list of consonants
//! each followed by a vocal (`"bo,sha"`).

use crate::plugins::text_converter::components::letter::{
    consonant_of, nesting_rules_contents, vocal_of, Consonant, NestingRules, Vocal,
};
use crate::plugins::text_converter::letter::lemma_ascii_lower_idempotent;
use crate::text::{
    ascii_lower, byte_len_up_to_three, lemma_lower_text, lower_text, pieces_of, quoted,
    split_on_char, string_views, utf8_len,
};
use vstd::prelude::*;

verus! {

/// What one rule of the list gives: the pair, or the message that refuses it.
pub open spec fn rule_result(rule: Seq<char>) -> Result<(Consonant, Vocal), Seq<char>> {
    if rule.len() == 0 {
        Err("Rule can't be empty!"@)
    } else if utf8_len(rule) == 1 {
        match consonant_of(rule) {
            None => Err(quoted(rule, "' is not a valid consonant!"@)),
            Some(_) => Err("Not enough letters!"@),
        }
    } else {
        let consonant = rule.drop_last();
        let vocal = seq![rule.last()];
        match consonant_of(consonant) {
            None => Err(quoted(consonant, "' is not a valid consonant!"@)),
            Some(c) => match vocal_of(vocal) {
                None => Err(quoted(vocal, "' it is not a valid vocal!"@)),
                Some(v) => Ok((c, v)),
            },
        }
    }
}

/// Reading a rule ignores ASCII case: a rule is accepted exactly when its
/// lower-case form is, and then gives the same consonant and vocal.
pub proof fn lemma_rule_ignores_case(rule: Seq<char>)
    ensures
        (rule_result(rule) is Ok) == (rule_result(lower_text(rule)) is Ok),
        rule_result(rule) is Ok ==> rule_result(rule) == rule_result(lower_text(rule)),
{
    let l = lower_text(rule);
    lemma_lower_text(rule);
    if rule.len() > 0 && utf8_len(rule) != 1 {
        let c = rule.drop_last();
        lemma_lower_text(c);
        assert(l.drop_last() =~= lower_text(c));
        assert(c.map_values(|x: char| ascii_lower(x)) =~= lower_text(c));
        assert(lower_text(c).map_values(|x: char| ascii_lower(x)) =~= lower_text(lower_text(c)));
        assert(l.last() == ascii_lower(rule.last()));
        lemma_ascii_lower_idempotent(rule.last());
    }
}

/// What a list of rules gives: all pairs, or the message of the first rule that
/// is refused.
pub open spec fn rules_result(rules: Seq<Seq<char>>) -> Result<Set<(Consonant, Vocal)>, Seq<char>>
    decreases rules.len(),
{
    if rules.len() == 0 {
        Ok(Set::empty())
    } else {
        match rule_result(rules[0]) {
            Err(e) => Err(e),
            Ok(pair) => match rules_result(rules.drop_first()) {
                Err(e) => Err(e),
                Ok(set) => Ok(set.insert(pair)),
            },
        }
    }
}

/// The rules are read, up to the first refused one, without splitting a rule
/// inside a character: a rule of two or more bytes that is reached ends in an
/// ASCII character.
pub open spec fn splits_at_char_boundaries(rules: Seq<Seq<char>>) -> bool
    decreases rules.len(),
{
    if rules.len() == 0 {
        true
    } else {
        let rule = rules[0];
        if rule.len() == 0 || utf8_len(rule) == 1 {
            true
        } else if (rule.last() as u32) >= 0x80 {
            false
        } else {
            match rule_result(rule) {
                Err(_) => true,
                Ok(_) => splits_at_char_boundaries(rules.drop_first()),
            }
        }
    }
}

/// Whether reading the rules splits no rule inside a character: each rule of two or
/// more bytes that is reached ends in an ASCII character.
pub fn rules_split_at_char_boundaries(rules: &str) -> (r: bool)
    ensures
        r == splits_at_char_boundaries(pieces_of(rules@, ',')),
{
    let pieces = split_on_char(rules, ',');
    let ghost all = string_views(pieces@);
    let mut i: usize = 0;
    proof {
        assert(all.skip(0) =~= all);
    }
    while i < pieces.len()
        invariant
            all == pieces_of(rules@, ','),
            all == string_views(pieces@),
            i <= pieces.len(),
            forall|j: int| 0 <= j < i ==> rule_result(#[trigger] all[j]) is Ok,
            splits_at_char_boundaries(all) == splits_at_char_boundaries(all.skip(i as int)),
        decreases pieces.len() - i,
    {
        let rule = pieces[i].as_str();
        let ghost rest = all.skip(i as int);
        proof {
            assert(rest[0] == all[i as int]);
            assert(rest.drop_first() =~= all.skip(i + 1));
        }
        let n = rule.unicode_len();
        if n == 0 || byte_len_up_to_three(rule) == 1 {
            return true;
        }
        if (rule.get_char(n - 1) as u32) >= 0x80 {
            return false;
        }
        match convert_rule(rule) {
            Err(_) => {
                return true;
            },
            Ok(_) => {},
        }
        i = i + 1;
    }
    proof {
        assert(all.skip(i as int) =~= Seq::<Seq<char>>::empty());
    }
    true
}

/// Reads a comma separated list of nesting rules, each a consonant followed by a
/// vocal.
pub fn convert_rules_string(rules: &str) -> (r: Result<NestingRules, String>)
    requires
        splits_at_char_boundaries(pieces_of(rules@, ',')),
    ensures
        match rules_result(pieces_of(rules@, ',')) {
            Ok(set) => r is Ok && nesting_rules_contents(r->Ok_0) == set,
            Err(e) => r is Err && r->Err_0@ == e,
        },
{
    let pieces = split_on_char(rules, ',');
    let ghost all = string_views(pieces@);
    let mut rules_map = NestingRules::new();
    let mut i: usize = 0;
    proof {
        assert(accepted_pairs(all.take(0)) =~= Set::<(Consonant, Vocal)>::empty());
    }
    while i < pieces.len()
        invariant
            all == pieces_of(rules@, ','),
            all == string_views(pieces@),
            i <= pieces.len(),
            forall|j: int| 0 <= j < i ==> rule_result(#[trigger] all[j]) is Ok,
            nesting_rules_contents(rules_map) == accepted_pairs(all.take(i as int)),
            splits_at_char_boundaries(all),
        decreases pieces.len() - i,
    {
        proof {
            lemma_splits_suffix(all, i as int);
            lemma_rules_prefix(all, i as int);
            assert(all.take(i + 1).drop_last() =~= all.take(i as int));
        }
        match convert_rule(pieces[i].as_str()) {
            Err(e) => {
                proof {
                    assert(all.skip(i as int)[0] == all[i as int]);
                }
                return Err(e);
            },
            Ok((consonant, vocal)) => {
                rules_map.insert(consonant, vocal);
            },
        }
        i = i + 1;
    }
    proof {
        lemma_rules_prefix(all, i as int);
        assert(all.take(i as int) =~= all);
    }
    Ok(rules_map)
}

/// The pairs of accepted rules.
pub open spec fn accepted_pairs(rules: Seq<Seq<char>>) -> Set<(Consonant, Vocal)>
    decreases rules.len(),
{
    if rules.len() == 0 {
        Set::empty()
    } else {
        match rule_result(rules.last()) {
            Ok(pair) => accepted_pairs(rules.drop_last()).insert(pair),
            Err(_) => accepted_pairs(rules.drop_last()),
        }
    }
}

/// When the first `i` rules are accepted, the list gives what its rest gives, with
/// their pairs added.
proof fn lemma_rules_prefix(rules: Seq<Seq<char>>, i: int)
    requires
        0 <= i <= rules.len(),
        forall|j: int| 0 <= j < i ==> rule_result(#[trigger] rules[j]) is Ok,
    ensures
        rules_result(rules) == match rules_result(rules.skip(i)) {
            Err(e) => Err::<Set<(Consonant, Vocal)>, Seq<char>>(e),
            Ok(set) => Ok(set.union(accepted_pairs(rules.take(i)))),
        },
    decreases i,
{
    if i == 0 {
        assert(rules.skip(0) =~= rules);
        match rules_result(rules) {
            Ok(set) => {
                assert(set.union(accepted_pairs(rules.take(0))) =~= set);
            },
            Err(_) => {},
        }
    } else {
        let tail = rules.drop_first();
        assert forall|j: int| 0 <= j < i - 1 implies rule_result(#[trigger] tail[j]) is Ok by {
            assert(tail[j] == rules[j + 1]);
        }
        lemma_rules_prefix(tail, i - 1);
        assert(tail.skip(i - 1) =~= rules.skip(i));
        lemma_accepted_pairs_first(rules.take(i));
        assert(rules.take(i).drop_first() =~= tail.take(i - 1));
        assert(rules.take(i)[0] == rules[0]);
        match rules_result(rules.skip(i)) {
            Ok(set) => {
                let pair = rule_result(rules[0])->Ok_0;
                assert(set.union(accepted_pairs(tail.take(i - 1))).insert(pair) =~= set.union(
                    accepted_pairs(rules.take(i)),
                ));
            },
            Err(_) => {},
        }
    }
}

/// The accepted pairs of a list are those of its first rule and of the rest.
proof fn lemma_accepted_pairs_first(rules: Seq<Seq<char>>)
    requires
        rules.len() > 0,
    ensures
        accepted_pairs(rules) == match rule_result(rules[0]) {
            Ok(pair) => accepted_pairs(rules.drop_first()).insert(pair),
            Err(_) => accepted_pairs(rules.drop_first()),
        },
    decreases rules.len(),
{
    if rules.len() == 1 {
        assert(rules.drop_last() =~= rules.drop_first());
    } else {
        lemma_accepted_pairs_first(rules.drop_last());
        assert(rules.drop_last().drop_first() =~= rules.drop_first().drop_last());
        assert(rules.drop_last()[0] == rules[0]);
        assert(rules.drop_first().last() == rules.last());
        match rule_result(rules[0]) {
            Ok(pair) => {
                match rule_result(rules.last()) {
                    Ok(p2) => {
                        assert(accepted_pairs(rules.drop_first().drop_last()).insert(pair).insert(p2)
                            =~= accepted_pairs(rules.drop_first().drop_last()).insert(p2).insert(
                            pair,
                        ));
                    },
                    Err(_) => {},
                }
            },
            Err(_) => {},
        }
    }
}

/// In a list that is read safely, a reached rule of two or more bytes (one whose
/// predecessors are all accepted) ends in an ASCII character.
proof fn lemma_splits_suffix(rules: Seq<Seq<char>>, i: int)
    requires
        splits_at_char_boundaries(rules),
        0 <= i < rules.len(),
    ensures
        (forall|j: int| 0 <= j < i ==> rule_result(#[trigger] rules[j]) is Ok) ==> {
            let rule = rules[i];
            (rule.len() != 0 && utf8_len(rule) != 1) ==> (rule.last() as u32) < 0x80
        },
    decreases i,
{
    if i > 0 {
        if forall|j: int| 0 <= j < i ==> rule_result(#[trigger] rules[j]) is Ok {
            assert(rule_result(rules[0]) is Ok);
            lemma_splits_suffix(rules.drop_first(), i - 1);
            assert forall|j: int| 0 <= j < i - 1 implies rule_result(
                #[trigger] rules.drop_first()[j],
            ) is Ok by {
                assert(rules.drop_first()[j] == rules[j + 1]);
            }
        }
    }
}

/// Reads one rule.
fn convert_rule(rule: &str) -> (r: Result<(Consonant, Vocal), String>)
    requires
        (rule@.len() != 0 && utf8_len(rule@) != 1) ==> (rule@.last() as u32) < 0x80,
    ensures
        match rule_result(rule@) {
            Ok(pair) => r == Ok::<(Consonant, Vocal), String>(pair),
            Err(e) => r is Err && r->Err_0@ == e,
        },
{
    let n = rule.unicode_len();
    if n == 0 {
        return Err(String::from_str("Rule can't be empty!"));
    }
    if byte_len_up_to_three(rule) == 1 {
        return match Consonant::try_from(rule) {
            Err(e) => Err(e),
            Ok(_) => Err(String::from_str("Not enough letters!")),
        };
    }
    let consonant_text = rule.substring_char(0, n - 1);
    let vocal_text = rule.substring_char(n - 1, n);
    proof {
        assert(consonant_text@ =~= rule@.drop_last());
        assert(vocal_text@ =~= seq![rule@.last()]);
    }
    let consonant = match Consonant::try_from(consonant_text) {
        Ok(c) => c,
        Err(e) => return Err(e),
    };
    let vocal = match Vocal::try_from(vocal_text) {
        Ok(v) => v,
        Err(e) => return Err(e),
    };
    Ok((consonant, vocal))
}

} // verus!
