//! The entity store, its invariant, and end-of-tick cleanup.
use vstd::prelude::*;
use crate::census::{
    count, first_index, lemma_count_push, lemma_count_update, lemma_first_index_stays,
    live_enemy_fn, live_player_fn,
};
use crate::components::{
    enemy_bullet_template, enemy_template, player_bullet_template, player_template, Entity,
};
use crate::config::{ENEMY_HALF, ENEMY_MAX, INSET, MARGIN, PLAYER_HALF, SPEED_MAX};
use crate::geometry::Point;
use crate::state::{EnemyCount, Input, PlayerState, Score, WinSize};

verus! {

/// `p` lies in the box of half extents `hx`, `hy` centred on the origin.
pub open spec fn within(p: Point, hx: int, hy: int) -> bool {
    -hx <= p.x <= hx && -hy <= p.y <= hy
}

/// `p` is past the arena by more than the margin on some axis.
pub open spec fn outside(p: Point, win: WinSize) -> bool {
    ||| p.y > win.half_h() + MARGIN
    ||| p.y < -win.half_h() - MARGIN
    ||| p.x > win.half_w() + MARGIN
    ||| p.x < -win.half_w() - MARGIN
}

/// Where the player is confined: walls less its half size and inset, and
/// never above a quarter of the height below the centre.
pub open spec fn in_player_region(p: Point, win: WinSize) -> bool {
    &&& -win.half_w() + PLAYER_HALF + INSET <= p.x <= win.half_w() - PLAYER_HALF - INSET
    &&& -win.half_h() + PLAYER_HALF + INSET <= p.y <= win.player_top()
}

/// Where a live enemy may stand: within the walls across, and within the
/// enemy clamp band vertically.
pub open spec fn in_enemy_region(p: Point, win: WinSize) -> bool {
    &&& -win.half_w() <= p.x <= win.half_w()
    &&& -win.half_h() + ENEMY_HALF + INSET <= p.y <= win.half_h() - ENEMY_HALF - INSET
}

/// The role tags, boundary policy and size fit together, as fixed by the role.
pub open spec fn role_wf(e: Entity) -> bool {
    ||| e == (Entity { id: e.id, pos: e.pos, speed: e.speed, despawned: e.despawned, ..player_template(0, e.pos) })
    ||| e == (Entity { id: e.id, pos: e.pos, speed: e.speed, despawned: e.despawned, ..enemy_template(0, e.pos) })
    ||| e == (Entity { id: e.id, pos: e.pos, speed: e.speed, despawned: e.despawned, ..player_bullet_template(0, e.pos) })
    ||| e == (Entity { id: e.id, pos: e.pos, speed: e.speed, despawned: e.despawned, ..enemy_bullet_template(0, e.pos) })
}

/// A well-formed entity in arena `win`: tags consistent, speed bounded, and
/// position inside the region of its role (a bullet at most one move past the
/// margin; one marked for removal at most one move further).
pub open spec fn entity_wf(e: Entity, win: WinSize) -> bool {
    &&& role_wf(e)
    &&& -SPEED_MAX <= e.speed.x <= SPEED_MAX
    &&& -SPEED_MAX <= e.speed.y <= SPEED_MAX
    &&& if e.despawned {
        within(e.pos, win.half_w() + MARGIN + 2 * SPEED_MAX, win.half_h() + MARGIN + 2 * SPEED_MAX)
    } else if e.is_player() {
        in_player_region(e.pos, win)
    } else if e.is_enemy() {
        in_enemy_region(e.pos, win)
    } else {
        within(e.pos, win.half_w() + MARGIN + SPEED_MAX, win.half_h() + MARGIN + SPEED_MAX)
    }
}

/// The entities of `s` not marked for removal, in order.
pub open spec fn live_only(s: Seq<Entity>) -> Seq<Entity>
    decreases s.len(),
{
    if s.len() == 0 {
        s
    } else {
        let r = live_only(s.drop_last());
        if s.last().despawned { r } else { r.push(s.last()) }
    }
}

/// Every entity that survives cleanup was in the store, unmarked.
pub(crate) proof fn lemma_live_only_keeps(s: Seq<Entity>)
    ensures
        forall|i: int| 0 <= i < live_only(s).len() ==> exists|j: int| 0 <= j < s.len() && #[trigger] live_only(s)[i] == s[j] && !s[j].despawned,
    decreases s.len(),
{
    if s.len() > 0 {
        lemma_live_only_keeps(s.drop_last());
        let r = live_only(s.drop_last());
        assert forall|i: int| 0 <= i < live_only(s).len() implies exists|j: int| 0 <= j < s.len() && #[trigger] live_only(s)[i] == s[j] && !s[j].despawned by {
            if i < r.len() {
                let j = choose|j: int| 0 <= j < s.drop_last().len() && #[trigger] r[i] == s.drop_last()[j] && !s.drop_last()[j].despawned;
                assert(live_only(s)[i] == s[j]);
            } else {
                assert(live_only(s)[i] == s[s.len() - 1]);
            }
        }
    }
}

/// Identifiers are increasing along `s` and below `next_id`.
pub open spec fn ids_ordered(s: Seq<Entity>, next_id: u64) -> bool {
    &&& forall|i: int, j: int| 0 <= i < j < s.len() ==> s[i].id < s[j].id
    &&& forall|i: int| 0 <= i < s.len() ==> s[i].id < next_id
}

/// Rewriting entities without touching their identifiers keeps them ordered.
pub(crate) proof fn lemma_ids_kept(s0: Seq<Entity>, s: Seq<Entity>, next_id: u64)
    requires
        ids_ordered(s0, next_id),
        s.len() == s0.len(),
        forall|k: int| 0 <= k < s.len() ==> s[k].id == #[trigger] s0[k].id,
    ensures
        ids_ordered(s, next_id),
{
    assert forall|a: int, b: int| 0 <= a < b < s.len() implies s[a].id < s[b].id by {
        assert(s[a].id == s0[a].id);
        assert(s[b].id == s0[b].id);
    }
    assert forall|a: int| 0 <= a < s.len() implies s[a].id < next_id by {
        assert(s[a].id == s0[a].id);
    }
}

/// The whole simulation state: arena, entities, player lifecycle, enemy
/// population and score.
pub struct World {
    pub win: WinSize,
    pub entities: Vec<Entity>,
    pub next_id: u64,
    pub player_state: PlayerState,
    pub enemy_count: EnemyCount,
    pub score: Score,
}

impl World {
    /// Live enemies in the store.
    pub open spec fn live_enemies(&self) -> nat {
        count(self.entities@, live_enemy_fn())
    }

    /// Live player ships in the store.
    pub open spec fn live_players(&self) -> nat {
        count(self.entities@, live_player_fn())
    }

    /// Identifiers are increasing along the store and below `next_id`.
    pub open spec fn ids_wf(&self) -> bool {
        ids_ordered(self.entities@, self.next_id)
    }

    /// The invariant of the simulation.
    pub open spec fn wf(&self) -> bool {
        &&& self.win.wf()
        &&& forall|i: int| 0 <= i < self.entities@.len() ==> entity_wf(#[trigger] self.entities@[i], self.win)
        &&& self.ids_wf()
        &&& self.enemy_count.0 == self.live_enemies()
        &&& self.enemy_count.0 <= ENEMY_MAX
        &&& self.live_players() <= 1
        &&& self.player_state.on == (self.live_players() == 1)
    }

    /// A new session in arena `win`: no entity, player dead and never died,
    /// no enemy, score zero.
    pub fn new(win: WinSize) -> (r: World)
        requires
            win.wf(),
        ensures
            r.wf(),
            r.win == win,
            r.entities@ == Seq::<Entity>::empty(),
            r.next_id == 0,
            r.player_state == (PlayerState { on: false, last_shot: None }),
            r.enemy_count.0 == 0,
            r.score.0 == 0,
    {
        let r = World {
            win,
            entities: Vec::new(),
            next_id: 0,
            player_state: PlayerState { on: false, last_shot: None },
            enemy_count: EnemyCount(0),
            score: Score(0),
        };
        assert(r.entities@.len() == 0);
        r
    }

    /// The fields other than the entity store are those of `old`.
    pub open spec fn same_resources(&self, old: World) -> bool {
        &&& self.win == old.win
        &&& self.next_id == old.next_id
        &&& self.player_state == old.player_state
        &&& self.enemy_count == old.enemy_count
        &&& self.score == old.score
    }

    /// Marks the entity at `i` for removal.
    pub(crate) fn mark(&mut self, i: usize)
        requires
            i < old(self).entities@.len(),
            forall|k: int| 0 <= k < old(self).entities@.len() ==> entity_wf(#[trigger] old(self).entities@[k], old(self).win),
            old(self).ids_wf(),
            old(self).win.wf(),
        ensures
            final(self).same_resources(*old(self)),
            final(self).entities@ == old(self).entities@.update(i as int, old(self).entities@[i as int].marked()),
            forall|k: int| 0 <= k < final(self).entities@.len() ==> entity_wf(#[trigger] final(self).entities@[k], final(self).win),
            final(self).ids_wf(),
            final(self).live_enemies() + (if old(self).entities@[i as int].live_enemy() { 1nat } else { 0nat }) == old(self).live_enemies(),
            final(self).live_players() + (if old(self).entities@[i as int].live_player() { 1nat } else { 0nat }) == old(self).live_players(),
    {
        let ghost s0 = self.entities@;
        let mut e = self.entities[i];
        e.despawned = true;
        proof {
            lemma_count_update(s0, i as int, e, live_enemy_fn());
            lemma_count_update(s0, i as int, e, live_player_fn());
        }
        self.entities.set(i, e);
        proof {
            lemma_ids_kept(s0, self.entities@, self.next_id);
        }
    }

    /// Appends `e`, which takes the next identifier.
    pub(crate) fn spawn(&mut self, e: Entity)
        requires
            forall|k: int| 0 <= k < old(self).entities@.len() ==> entity_wf(#[trigger] old(self).entities@[k], old(self).win),
            old(self).ids_wf(),
            old(self).win.wf(),
            e.id == old(self).next_id,
            old(self).next_id < u64::MAX,
            entity_wf(e, old(self).win),
        ensures
            final(self).entities@ == old(self).entities@.push(e),
            final(self).next_id == old(self).next_id + 1,
            final(self).win == old(self).win,
            final(self).player_state == old(self).player_state,
            final(self).enemy_count == old(self).enemy_count,
            final(self).score == old(self).score,
            forall|k: int| 0 <= k < final(self).entities@.len() ==> entity_wf(#[trigger] final(self).entities@[k], final(self).win),
            final(self).ids_wf(),
            final(self).live_enemies() == old(self).live_enemies() + if e.live_enemy() { 1nat } else { 0nat },
            final(self).live_players() == old(self).live_players() + if e.live_player() { 1nat } else { 0nat },
    {
        proof {
            lemma_count_push(self.entities@, e, live_enemy_fn());
            lemma_count_push(self.entities@, e, live_player_fn());
        }
        self.entities.push(e);
        self.next_id = self.next_id + 1;
    }

    /// Index of the live player ship, if there is one.
    pub fn find_player(&self) -> (r: Option<usize>)
        ensures
            r is None ==> first_index(self.entities@, live_player_fn(), self.entities@.len() as int) is None,
            r matches Some(j) ==> j < self.entities@.len()
                && first_index(self.entities@, live_player_fn(), self.entities@.len() as int) == Some(j as int)
                && self.entities@[j as int].live_player(),
    {
        let n = self.entities.len();
        let mut j: usize = 0;
        while j < n
            invariant
                0 <= j <= n == self.entities@.len(),
                first_index(self.entities@, live_player_fn(), j as int) is None,
            decreases n - j,
        {
            if self.entities[j].is_live_player() {
                proof {
                    lemma_first_index_stays(self.entities@, live_player_fn(), j as int + 1, n as int);
                }
                return Some(j);
            }
            j += 1;
        }
        None
    }

    /// End of tick: entities marked for removal leave the store; the others
    /// keep their order.
    pub fn cleanup(&mut self)
        requires
            old(self).wf(),
        ensures
            final(self).wf(),
            final(self).same_resources(*old(self)),
            final(self).entities@ == live_only(old(self).entities@),
            forall|i: int| 0 <= i < final(self).entities@.len() ==> !(#[trigger] final(self).entities@[i]).despawned,
    {
        let ghost s0 = self.entities@;
        let n = self.entities.len();
        let mut kept: Vec<Entity> = Vec::new();
        let mut i: usize = 0;
        while i < n
            invariant
                0 <= i <= n == s0.len(),
                *self == *old(self),
                s0 == self.entities@,
                self.wf(),
                kept@ == live_only(s0.take(i as int)),
                forall|k: int| 0 <= k < kept@.len() ==> !(#[trigger] kept@[k]).despawned,
                forall|k: int| 0 <= k < kept@.len() ==> entity_wf(#[trigger] kept@[k], self.win),
                forall|a: int, b: int| 0 <= a < b < kept@.len() ==> kept@[a].id < kept@[b].id,
                forall|a: int, b: int| 0 <= a < kept@.len() && i <= b < n ==> kept@[a].id < s0[b].id,
                forall|a: int| 0 <= a < kept@.len() ==> kept@[a].id < self.next_id,
                count(kept@, live_enemy_fn()) == count(s0.take(i as int), live_enemy_fn()),
                count(kept@, live_player_fn()) == count(s0.take(i as int), live_player_fn()),
            decreases n - i,
        {
            let e = self.entities[i];
            assert(s0.take(i as int + 1).drop_last() =~= s0.take(i as int));
            assert(s0.take(i as int + 1).last() == e);
            proof {
                lemma_count_push(kept@, e, live_enemy_fn());
                lemma_count_push(kept@, e, live_player_fn());
            }
            if !e.despawned {
                kept.push(e);
            }
            i += 1;
        }
        assert(s0.take(n as int) =~= s0);
        self.entities = kept;
    }
}

} // verus!
