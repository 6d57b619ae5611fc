//! Which marked entities hand their components over to the entity of their
//! Godot parent.
//!
//! A child entity spawned from the Godot scene carries a component marker that
//! names its Godot parent.  When that parent is alive and of the class the
//! system looks for, the child's components are cloned onto the parent's
//! entity and the child is despawned; every other child is left as it is.
use vstd::prelude::*;
use bevy::ecs::entity::Entity;

verus! {

#[verifier::external_type_specification]
#[verifier::external_body]
pub struct ExEntity(Entity);

/// The merges planned for `children`, in their order: each child entity
/// paired with the entity of its parent, for the children whose parent was
/// found.
pub open spec fn merges(children: Seq<(Entity, Option<Entity>)>) -> Seq<(Entity, Entity)>
    decreases children.len(),
{
    if children.len() == 0 {
        Seq::empty()
    } else {
        let rest = merges(children.drop_last());
        match children.last().1 {
            Some(target) => rest.push((children.last().0, target)),
            None => rest,
        }
    }
}

/// Whether the parent of a marked child was found.
pub open spec fn parent_found(child: (Entity, Option<Entity>)) -> bool {
    child.1 is Some
}

/// The merge of one marked child into its parent, if the parent was found.
pub open spec fn merge_of(child: (Entity, Option<Entity>)) -> Option<(Entity, Entity)> {
    match child.1 {
        Some(target) => Some((child.0, target)),
        None => None,
    }
}

/// Plans the merges of the marked children: each child is paired with the
/// entity of its parent, where the parent was found, and skipped otherwise.
pub fn plan_component_merges(children: &Vec<(Entity, Option<Entity>)>) -> (r: Vec<(Entity, Entity)>)
    ensures
        r@ == merges(children@),
        r@ == children@.filter_map(|c: (Entity, Option<Entity>)| merge_of(c)),
        r@.len() == children@.filter(|c: (Entity, Option<Entity>)| parent_found(c)).len(),
{
    proof {
        lemma_merges_keep_found_children_in_order(children@);
        lemma_merges_one_per_found_child(children@);
    }
    let mut plan: Vec<(Entity, Entity)> = Vec::new();
    let n = children.len();
    for i in 0..n
        invariant
            n == children@.len(),
            plan@ == merges(children@.take(i as int)),
    {
        let (child, parent) = children[i];
        assert(children@.take(i + 1).drop_last() == children@.take(i as int));
        match parent {
            Some(target) => plan.push((child, target)),
            None => {},
        }
    }
    assert(children@.take(n as int) == children@);
    plan
}

/// Every planned merge comes from a child whose parent was found, every child
/// whose parent was found is merged into that parent, and no more merges are
/// planned than there are children.
pub proof fn lemma_merges_are_exactly_the_found_parents(children: Seq<(Entity, Option<Entity>)>)
    ensures
        merges(children).len() <= children.len(),
        forall|k: int|
            0 <= k < children.len() && (#[trigger] children[k]).1 is Some
                ==> merges(children).contains((children[k].0, children[k].1.unwrap())),
        forall|m: int|
            0 <= m < merges(children).len() ==> exists|k: int|
                0 <= k < children.len() && (#[trigger] children[k]).0 == (#[trigger] merges(children)[m]).0
                    && children[k].1 == Some(merges(children)[m].1),
    decreases children.len(),
{
    if children.len() > 0 {
        let init = children.drop_last();
        lemma_merges_are_exactly_the_found_parents(init);
        let rest = merges(init);
        let last = children.last();
        assert forall|k: int|
            0 <= k < children.len() && (#[trigger] children[k]).1 is Some
                implies merges(children).contains((children[k].0, children[k].1.unwrap())) by {
            if k < children.len() - 1 {
                assert(init[k] == children[k]);
                let j = choose|j: int| 0 <= j < rest.len() && rest[j] == (init[k].0, init[k].1.unwrap());
                assert(merges(children)[j] == rest[j]);
            } else {
                assert(merges(children) == rest.push((last.0, last.1.unwrap())));
                assert(merges(children)[rest.len() as int] == (last.0, last.1.unwrap()));
            }
        }
        assert forall|m: int| 0 <= m < merges(children).len() implies exists|k: int|
            0 <= k < children.len() && (#[trigger] children[k]).0 == (#[trigger] merges(children)[m]).0
                && children[k].1 == Some(merges(children)[m].1) by {
            if m < rest.len() {
                assert(merges(children)[m] == rest[m]);
                let k = choose|k: int| 0 <= k < init.len() && (#[trigger] init[k]).0 == rest[m].0
                    && init[k].1 == Some(rest[m].1);
                assert(children[k] == init[k]);
            } else {
                assert(children[children.len() - 1] == last);
            }
        }
    }
}

/// A child whose parent was not found adds nothing to the plan; a child
/// whose parent was found adds exactly its own merge, after all the merges of
/// the children before it.
pub proof fn lemma_merges_push(s: Seq<(Entity, Option<Entity>)>, child: Entity, parent: Entity)
    ensures
        merges(s.push((child, None))) == merges(s),
        merges(s.push((child, Some(parent)))) == merges(s).push((child, parent)),
{
    assert(s.push((child, None)).drop_last() =~= s);
    assert(s.push((child, Some(parent))).drop_last() =~= s);
}

/// The plan of a run of children followed by more children is the plan of
/// the first run followed by the plan of the rest: merges keep the order of
/// the children.
pub proof fn lemma_merges_concat(a: Seq<(Entity, Option<Entity>)>, b: Seq<(Entity, Option<Entity>)>)
    ensures
        merges(a + b) == merges(a) + merges(b),
    decreases b.len(),
{
    if b.len() == 0 {
        assert(a + b =~= a);
        assert(merges(a) + merges(b) =~= merges(a));
    } else {
        let init = b.drop_last();
        lemma_merges_concat(a, init);
        assert((a + b).drop_last() =~= a + init);
        assert((a + b).last() == b.last());
        match b.last().1 {
            Some(t) => {
                assert(merges(a) + merges(init).push((b.last().0, t)) =~= (merges(a) + merges(init)).push(
                    (b.last().0, t),
                ));
            },
            None => {},
        }
    }
}

/// The plan is the found children, each paired with its parent, in the
/// children's order, and nothing else.
pub proof fn lemma_merges_keep_found_children_in_order(s: Seq<(Entity, Option<Entity>)>)
    ensures
        merges(s) == s.filter_map(|c: (Entity, Option<Entity>)| merge_of(c)),
    decreases s.len(),
{
    if s.len() > 0 {
        lemma_merges_keep_found_children_in_order(s.drop_last());
        match s.last().1 {
            Some(t) => {
                assert(merges(s.drop_last()).push((s.last().0, t)) =~= merges(s.drop_last()) + seq![
                    (s.last().0, t),
                ]);
            },
            None => {},
        }
    }
}

/// The plan holds one merge per child whose parent was found: its length is
/// the number of such children.
pub proof fn lemma_merges_one_per_found_child(s: Seq<(Entity, Option<Entity>)>)
    ensures
        merges(s).len() == s.filter(|c: (Entity, Option<Entity>)| parent_found(c)).len(),
    decreases s.len(),
{
    let p = |c: (Entity, Option<Entity>)| parent_found(c);
    if s.len() == 0 {
        reveal(Seq::filter);
    } else {
        let init = s.drop_last();
        lemma_merges_one_per_found_child(init);
        assert(init.push(s.last()) =~= s);
        init.lemma_filter_len_push(p, s.last());
    }
}

/// The merge of the `k`-th child, when its parent was found, stands in the
/// plan right after the merges of the found children before it.
pub proof fn lemma_merge_position(s: Seq<(Entity, Option<Entity>)>, k: int)
    requires
        0 <= k < s.len(),
        s[k].1 is Some,
    ensures
        merges(s)[merges(s.take(k)).len() as int] == (s[k].0, s[k].1.unwrap()),
        merges(s.take(k)).len() == s.take(k).filter(|c: (Entity, Option<Entity>)| parent_found(c)).len(),
{
    let head = s.take(k);
    let tail = s.skip(k + 1);
    assert(s =~= head.push(s[k]) + tail);
    lemma_merges_concat(head.push(s[k]), tail);
    lemma_merges_push(head, s[k].0, s[k].1.unwrap());
    assert(head.push(s[k]) == head.push((s[k].0, Some(s[k].1.unwrap()))));
    lemma_merges_one_per_found_child(head);
}

} // verus!
