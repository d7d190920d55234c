//! How a parent's children follow a new list of items: the existing children are
//! reused in order, the surplus ones despawned and the missing ones spawned.

use crate::text::string_views;
use vstd::prelude::*;

verus! {

#[derive(Debug, Copy, Clone, PartialEq, Eq, Structural)]
pub enum ChildChange {
    /// The existing child at position `existing` stays, as sibling `sibling_index`.
    Keep { existing: usize, sibling_index: usize },
    /// The existing child at position `existing` is despawned.
    Remove { existing: usize },
    /// A new child is spawned as sibling `sibling_index`.
    Add { sibling_index: usize },
}

/// The changes that turn `existing` children into `wanted` ones: the first
/// `min(existing, wanted)` children are kept in place, then the surplus ones are
/// removed or the missing ones added.
pub open spec fn child_changes(existing: nat, wanted: nat) -> Seq<ChildChange> {
    let kept: nat = if existing < wanted { existing } else { wanted };
    Seq::new(kept, |i: int| ChildChange::Keep { existing: i as usize, sibling_index: i as usize })
        + if existing > wanted {
        Seq::new(
            (existing - wanted) as nat,
            |i: int| ChildChange::Remove { existing: (wanted + i) as usize },
        )
    } else {
        Seq::new(
            (wanted - existing) as nat,
            |i: int| ChildChange::Add { sibling_index: (existing + i) as usize },
        )
    }
}

/// Pairs the existing children with the wanted items, one by one, as the text
/// conversion systems do for words, letters, dots and line slots.
pub fn plan_children(existing: usize, wanted: usize) -> (r: Vec<ChildChange>)
    ensures
        r@ == child_changes(existing as nat, wanted as nat),
{
    let mut r: Vec<ChildChange> = Vec::new();
    let mut i: usize = 0;
    while i < existing || i < wanted
        invariant
            i <= existing || i <= wanted,
            r@ == child_changes(existing as nat, wanted as nat).take(i as int),
            i <= existing + wanted,
            (i > existing ==> i <= wanted) && (i > wanted ==> i <= existing),
        decreases existing + wanted - i,
    {
        let change = if i < existing && i < wanted {
            ChildChange::Keep { existing: i, sibling_index: i }
        } else if i < existing {
            ChildChange::Remove { existing: i }
        } else {
            ChildChange::Add { sibling_index: i }
        };
        proof {
            assert(change == child_changes(existing as nat, wanted as nat)[i as int]);
        }
        r.push(change);
        proof {
            assert(r@ =~= child_changes(existing as nat, wanted as nat).take(i + 1));
        }
        i = i + 1;
    }
    proof {
        assert(child_changes(existing as nat, wanted as nat).len() == i);
        assert(r@ =~= child_changes(existing as nat, wanted as nat));
    }
    r
}

/// The sibling indices of the children that the parent has after the changes, in
/// order.
pub open spec fn sibling_indices(cs: Seq<ChildChange>) -> Seq<nat>
    decreases cs.len(),
{
    if cs.len() == 0 {
        seq![]
    } else {
        let rest = sibling_indices(cs.drop_last());
        match cs.last() {
            ChildChange::Keep { sibling_index, .. } => rest.push(sibling_index as nat),
            ChildChange::Add { sibling_index } => rest.push(sibling_index as nat),
            ChildChange::Remove { .. } => rest,
        }
    }
}

/// The positions of the existing children that the changes keep or remove, in
/// order.
pub open spec fn touched_children(cs: Seq<ChildChange>) -> Seq<nat>
    decreases cs.len(),
{
    if cs.len() == 0 {
        seq![]
    } else {
        let rest = touched_children(cs.drop_last());
        match cs.last() {
            ChildChange::Keep { existing, .. } => rest.push(existing as nat),
            ChildChange::Remove { existing } => rest.push(existing as nat),
            ChildChange::Add { .. } => rest,
        }
    }
}

/// After following the plan, the parent has exactly the wanted number of children,
/// numbered 0, 1, 2, ... in order; every existing child is either kept or removed,
/// exactly once, in its old order.
pub proof fn lemma_plan_children(existing: nat, wanted: nat)
    requires
        existing <= usize::MAX,
        wanted <= usize::MAX,
    ensures
        sibling_indices(child_changes(existing, wanted)) == Seq::new(wanted, |i: int| i as nat),
        touched_children(child_changes(existing, wanted)) == Seq::new(existing, |i: int| i as nat),
{
    let cs = child_changes(existing, wanted);
    assert forall|k: nat| k <= cs.len() implies #[trigger] sibling_indices(cs.take(k as int))
        == Seq::new(if k <= wanted { k } else { wanted }, |i: int| i as nat) by {
        lemma_siblings_prefix(existing, wanted, k);
    }
    assert forall|k: nat| k <= cs.len() implies #[trigger] touched_children(cs.take(k as int))
        == Seq::new(if k <= existing { k } else { existing }, |i: int| i as nat) by {
        lemma_touched_prefix(existing, wanted, k);
    }
    assert(cs.take(cs.len() as int) =~= cs);
    let n = cs.len() as nat;
    assert(sibling_indices(cs.take(n as int)) == Seq::new(wanted, |i: int| i as nat));
    assert(touched_children(cs.take(n as int)) == Seq::new(existing, |i: int| i as nat));
}

proof fn lemma_siblings_prefix(existing: nat, wanted: nat, k: nat)
    requires
        existing <= usize::MAX,
        wanted <= usize::MAX,
        k <= child_changes(existing, wanted).len(),
    ensures
        sibling_indices(child_changes(existing, wanted).take(k as int)) == Seq::new(
            if k <= wanted { k } else { wanted },
            |i: int| i as nat,
        ),
    decreases k,
{
    let cs = child_changes(existing, wanted);
    if k == 0 {
        assert(sibling_indices(cs.take(0)) =~= Seq::<nat>::empty());
    } else {
        lemma_siblings_prefix(existing, wanted, (k - 1) as nat);
        assert(cs.take(k as int).drop_last() =~= cs.take(k - 1));
        assert(cs.take(k as int).last() == cs[k - 1]);
        assert(sibling_indices(cs.take(k as int)) =~= Seq::new(
            if k <= wanted { k } else { wanted },
            |i: int| i as nat,
        ));
    }
}

proof fn lemma_touched_prefix(existing: nat, wanted: nat, k: nat)
    requires
        existing <= usize::MAX,
        wanted <= usize::MAX,
        k <= child_changes(existing, wanted).len(),
    ensures
        touched_children(child_changes(existing, wanted).take(k as int)) == Seq::new(
            if k <= existing { k } else { existing },
            |i: int| i as nat,
        ),
    decreases k,
{
    let cs = child_changes(existing, wanted);
    if k == 0 {
        assert(touched_children(cs.take(0)) =~= Seq::<nat>::empty());
    } else {
        lemma_touched_prefix(existing, wanted, (k - 1) as nat);
        assert(cs.take(k as int).drop_last() =~= cs.take(k - 1));
        assert(cs.take(k as int).last() == cs[k - 1]);
        assert(touched_children(cs.take(k as int)) =~= Seq::new(
            if k <= existing { k } else { existing },
            |i: int| i as nat,
        ));
    }
}

/// A change of a child that carries a text (a word or a letter).
#[derive(Debug, PartialEq, Eq)]
pub enum TextChildChange {
    /// The existing child stays as sibling `sibling_index`; `new_text` is the text
    /// it gets, where that differs from its current one.
    Keep { existing: usize, sibling_index: usize, new_text: Option<String> },
    /// The existing child at position `existing` is despawned.
    Remove { existing: usize },
    /// A new child with this text is spawned as sibling `sibling_index`.
    Add { sibling_index: usize, text: String },
}

/// The text change that belongs to a child change, given the current and the new
/// texts.
pub open spec fn text_change_matches(
    r: TextChildChange,
    c: ChildChange,
    existing: Seq<Seq<char>>,
    new_texts: Seq<Seq<char>>,
) -> bool {
    match (r, c) {
        (
            TextChildChange::Keep { existing: e, sibling_index: s, new_text },
            ChildChange::Keep { existing: e2, sibling_index: s2 },
        ) => e == e2 && s == s2 && match new_text {
            Some(t) => existing[e as int] != new_texts[s as int] && t@ == new_texts[s as int],
            None => existing[e as int] == new_texts[s as int],
        },
        (TextChildChange::Remove { existing: e }, ChildChange::Remove { existing: e2 }) => e == e2,
        (
            TextChildChange::Add { sibling_index: s, text },
            ChildChange::Add { sibling_index: s2 },
        ) => s == s2 && text@ == new_texts[s as int],
        _ => false,
    }
}

/// Pairs the children's current texts with the new texts: kept children get the
/// new text where it differs, surplus children are removed and missing ones added
/// with their text.
pub fn plan_text_children(existing: &Vec<String>, new_texts: &Vec<String>) -> (r: Vec<
    TextChildChange,
>)
    ensures
        r.len() == child_changes(existing.len() as nat, new_texts.len() as nat).len(),
        forall|i: int|
            0 <= i < r.len() ==> text_change_matches(
                #[trigger] r@[i],
                child_changes(existing.len() as nat, new_texts.len() as nat)[i],
                string_views(existing@),
                string_views(new_texts@),
            ),
{
    let plan = plan_children(existing.len(), new_texts.len());
    let mut r: Vec<TextChildChange> = Vec::new();
    let mut i: usize = 0;
    while i < plan.len()
        invariant
            plan@ == child_changes(existing.len() as nat, new_texts.len() as nat),
            i <= plan.len(),
            r.len() == i,
            forall|j: int|
                0 <= j < i ==> text_change_matches(
                    #[trigger] r@[j],
                    plan@[j],
                    string_views(existing@),
                    string_views(new_texts@),
                ),
        decreases plan.len() - i,
    {
        let change = match plan[i] {
            ChildChange::Keep { existing: e, sibling_index: s } => {
                let new_text = if existing[e] != new_texts[s] {
                    Some(new_texts[s].clone())
                } else {
                    None
                };
                TextChildChange::Keep { existing: e, sibling_index: s, new_text }
            },
            ChildChange::Remove { existing: e } => TextChildChange::Remove { existing: e },
            ChildChange::Add { sibling_index: s } => TextChildChange::Add {
                sibling_index: s,
                text: new_texts[s].clone(),
            },
        };
        r.push(change);
        i = i + 1;
    }
    r
}

/// The texts of the children, in order, after following text changes: kept
/// children hold their new text or keep their own, added children hold theirs.
pub open spec fn texts_after(existing: Seq<Seq<char>>, r: Seq<TextChildChange>) -> Seq<Seq<char>>
    decreases r.len(),
{
    if r.len() == 0 {
        seq![]
    } else {
        let rest = texts_after(existing, r.drop_last());
        match r.last() {
            TextChildChange::Keep { existing: e, new_text, .. } => rest.push(
                match new_text {
                    Some(t) => t@,
                    None => existing[e as int],
                },
            ),
            TextChildChange::Remove { .. } => rest,
            TextChildChange::Add { text, .. } => rest.push(text@),
        }
    }
}

/// Following the plan of `plan_text_children` leaves the parent with children that
/// hold exactly the new texts, in order.
pub proof fn lemma_text_children_follow(
    existing: Seq<Seq<char>>,
    new_texts: Seq<Seq<char>>,
    r: Seq<TextChildChange>,
)
    requires
        existing.len() <= usize::MAX,
        new_texts.len() <= usize::MAX,
        r.len() == child_changes(existing.len(), new_texts.len()).len(),
        forall|i: int|
            0 <= i < r.len() ==> text_change_matches(
                #[trigger] r[i],
                child_changes(existing.len(), new_texts.len())[i],
                existing,
                new_texts,
            ),
    ensures
        texts_after(existing, r) == new_texts,
{
    let w = new_texts.len();
    assert forall|k: nat| k <= r.len() implies #[trigger] texts_after(existing, r.take(k as int))
        == new_texts.take(if k <= w { k as int } else { w as int }) by {
        lemma_texts_after_prefix(existing, new_texts, r, k);
    }
    assert(r.take(r.len() as int) =~= r);
    let n = r.len() as nat;
    assert(texts_after(existing, r.take(n as int)) == new_texts.take(
        if n <= w { n as int } else { w as int },
    ));
    assert(new_texts.take(w as int) =~= new_texts);
}

proof fn lemma_texts_after_prefix(
    existing: Seq<Seq<char>>,
    new_texts: Seq<Seq<char>>,
    r: Seq<TextChildChange>,
    k: nat,
)
    requires
        existing.len() <= usize::MAX,
        new_texts.len() <= usize::MAX,
        r.len() == child_changes(existing.len(), new_texts.len()).len(),
        forall|i: int|
            0 <= i < r.len() ==> text_change_matches(
                #[trigger] r[i],
                child_changes(existing.len(), new_texts.len())[i],
                existing,
                new_texts,
            ),
        k <= r.len(),
    ensures
        texts_after(existing, r.take(k as int)) == new_texts.take(
            if k <= new_texts.len() { k as int } else { new_texts.len() as int },
        ),
    decreases k,
{
    let w = new_texts.len();
    if k == 0 {
        assert(texts_after(existing, r.take(0)) =~= Seq::<Seq<char>>::empty());
        assert(new_texts.take(0) =~= Seq::<Seq<char>>::empty());
    } else {
        lemma_texts_after_prefix(existing, new_texts, r, (k - 1) as nat);
        let cs = child_changes(existing.len(), new_texts.len());
        let j = k - 1;
        assert(r.take(k as int).drop_last() =~= r.take(j));
        assert(r.take(k as int).last() == r[j]);
        assert(text_change_matches(r[j], cs[j], existing, new_texts));
        let prev = texts_after(existing, r.take(j));
        if j < w {
            assert(new_texts.take(k as int) =~= new_texts.take(j).push(new_texts[j]));
        }
        if existing.len() > w && j >= w {
            assert(texts_after(existing, r.take(k as int)) == prev);
        } else {
            assert(j < w);
            assert(texts_after(existing, r.take(k as int)) == prev.push(new_texts[j]));
        }
    }
}

} // verus!
