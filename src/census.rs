//! Counting the entities of a sequence that satisfy a predicate.
use vstd::prelude::*;
use crate::components::Entity;

verus! {

/// Number of entities of `s` that satisfy `p`.
pub open spec fn count(s: Seq<Entity>, p: spec_fn(Entity) -> bool) -> nat
    decreases s.len(),
{
    if s.len() == 0 {
        0
    } else {
        count(s.drop_last(), p) + if p(s.last()) { 1nat } else { 0nat }
    }
}

pub open spec fn live_enemy_fn() -> spec_fn(Entity) -> bool {
    |e: Entity| e.live_enemy()
}

pub open spec fn live_player_fn() -> spec_fn(Entity) -> bool {
    |e: Entity| e.live_player()
}

pub proof fn lemma_count_push(s: Seq<Entity>, e: Entity, p: spec_fn(Entity) -> bool)
    ensures
        count(s.push(e), p) == count(s, p) + if p(e) { 1nat } else { 0nat },
{
    assert(s.push(e).drop_last() =~= s);
}

pub proof fn lemma_count_update(s: Seq<Entity>, i: int, e: Entity, p: spec_fn(Entity) -> bool)
    requires
        0 <= i < s.len(),
    ensures
        count(s.update(i, e), p) + (if p(s[i]) { 1nat } else { 0nat }) == count(s, p) + (if p(e) { 1nat } else { 0nat }),
    decreases s.len(),
{
    let t = s.update(i, e);
    if i == s.len() - 1 {
        assert(t.drop_last() =~= s.drop_last());
    } else {
        assert(t.drop_last() =~= s.drop_last().update(i, e));
        lemma_count_update(s.drop_last(), i, e, p);
    }
}

/// An entity that satisfies `p` is counted.
pub proof fn lemma_count_member(s: Seq<Entity>, i: int, p: spec_fn(Entity) -> bool)
    requires
        0 <= i < s.len(),
        p(s[i]),
    ensures
        count(s, p) >= 1,
    decreases s.len(),
{
    if i < s.len() - 1 {
        lemma_count_member(s.drop_last(), i, p);
    }
}

/// With nothing counted, no entity satisfies `p`.
pub proof fn lemma_count_zero(s: Seq<Entity>, p: spec_fn(Entity) -> bool)
    requires
        count(s, p) == 0,
    ensures
        forall|i: int| 0 <= i < s.len() ==> !p(#[trigger] s[i]),
{
    assert forall|i: int| 0 <= i < s.len() implies !p(#[trigger] s[i]) by {
        if p(s[i]) {
            lemma_count_member(s, i, p);
        }
    }
}

/// The first index below `m` of an entity of `s` that satisfies `p`.
pub open spec fn first_index(s: Seq<Entity>, p: spec_fn(Entity) -> bool, m: int) -> Option<int>
    decreases m,
{
    if m <= 0 {
        None
    } else {
        match first_index(s, p, m - 1) {
            Some(j) => Some(j),
            None => if p(s[m - 1]) { Some(m - 1) } else { None },
        }
    }
}

pub proof fn lemma_first_index_stays(s: Seq<Entity>, p: spec_fn(Entity) -> bool, m: int, k: int)
    requires
        m <= k,
        first_index(s, p, m) is Some,
    ensures
        first_index(s, p, k) == first_index(s, p, m),
    decreases k - m,
{
    if m < k {
        lemma_first_index_stays(s, p, m, k - 1);
    }
}

/// What `first_index` finds satisfies `p` and lies below `m`.
pub proof fn lemma_first_index_found(s: Seq<Entity>, p: spec_fn(Entity) -> bool, m: int)
    requires
        first_index(s, p, m) is Some,
    ensures
        0 <= first_index(s, p, m)->0 < m,
        p(s[first_index(s, p, m)->0]),
    decreases m,
{
    if m > 0 && first_index(s, p, m - 1) is Some {
        lemma_first_index_found(s, p, m - 1);
    }
}

/// A prefix counts no more than the whole.
pub proof fn lemma_count_take(s: Seq<Entity>, i: int, p: spec_fn(Entity) -> bool)
    requires
        0 <= i <= s.len(),
    ensures
        count(s.take(i), p) <= count(s, p),
    decreases s.len(),
{
    if i < s.len() {
        assert(s.take(i) =~= s.drop_last().take(i));
        lemma_count_take(s.drop_last(), i, p);
    } else {
        assert(s.take(i) =~= s);
    }
}

} // verus!
