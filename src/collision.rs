//! Collision passes: player bullets against enemies, enemy bullets against
//! the player, and enemies against each other.
use vstd::prelude::*;
use crate::census::{
    count, first_index, lemma_count_update, lemma_first_index_stays, live_enemy_fn,
    live_player_fn,
};
use crate::components::{Entity, Speed};
use crate::geometry::{collide, overlaps};
use crate::state::PlayerState;
use crate::world::{lemma_ids_kept, entity_wf, World};

verus! {

/// The entity at `b` is a live player bullet and the one at `j` a live enemy
/// whose boxes overlap.
pub open spec fn hits(s: Seq<Entity>, b: int, j: int) -> bool {
    &&& s[b].live_player_bullet()
    &&& s[j].live_enemy()
    &&& overlaps(s[b].pos, s[b].size.0, s[j].pos, s[j].size.0)
}

/// The first index below `m` of an enemy hit by the bullet at `b`.
pub open spec fn first_target(s: Seq<Entity>, b: int, m: int) -> Option<int>
    decreases m,
{
    if m <= 0 {
        None
    } else {
        match first_target(s, b, m - 1) {
            Some(j) => Some(j),
            None => if hits(s, b, m - 1) { Some(m - 1) } else { None },
        }
    }
}

/// The bullet at `b` and the first enemy it hits, if any, are marked for removal.
pub open spec fn resolve_bullet(s: Seq<Entity>, b: int) -> Seq<Entity> {
    match first_target(s, b, s.len() as int) {
        Some(j) => s.update(b, s[b].marked()).update(j, s[j].marked()),
        None => s,
    }
}

/// The store after the bullets at indices below `n` have been resolved in order.
pub open spec fn kills_upto(s: Seq<Entity>, n: int) -> Seq<Entity>
    decreases n,
{
    if n <= 0 {
        s
    } else {
        resolve_bullet(kills_upto(s, n - 1), n - 1)
    }
}

pub(crate) proof fn lemma_first_target_stays(s: Seq<Entity>, b: int, m: int, k: int)
    requires
        m <= k,
        first_target(s, b, m) is Some,
    ensures
        first_target(s, b, k) == first_target(s, b, m),
    decreases k - m,
{
    if m < k {
        lemma_first_target_stays(s, b, m, k - 1);
    }
}

/// An enemy bullet still live and overlapping `player`.
pub open spec fn strikes_fn(player: Entity) -> spec_fn(Entity) -> bool {
    |e: Entity| e.live_enemy_bullet() && overlaps(e.pos, e.size.0, player.pos, player.size.0)
}

/// The store after a death, once the entities at indices below `m` have been
/// swept: the player at `pl`, the bullet at `k` and every live player bullet
/// below `m` are marked for removal.
pub open spec fn death_upto(s: Seq<Entity>, pl: int, k: int, m: int) -> Seq<Entity> {
    Seq::new(s.len(), |i: int| if i == pl || i == k || (i < m && s[i].live_player_bullet()) { s[i].marked() } else { s[i] })
}

/// The enemy at `i` is live and overlaps another live enemy.
pub open spec fn bounces(s: Seq<Entity>, i: int) -> bool {
    &&& s[i].live_enemy()
    &&& exists|j: int| 0 <= j < s.len() && j != i && (#[trigger] s[j]).live_enemy()
        && overlaps(s[i].pos, s[i].size.0, s[j].pos, s[j].size.0)
}

/// The entity with its velocity inverted.
pub open spec fn bounced(e: Entity) -> Entity {
    Entity { speed: Speed { x: -e.speed.x as i64, y: -e.speed.y as i64 }, ..e }
}

impl World {
    /// The first live enemy, in store order, hit by the entity at `b`, which
    /// must be a live player bullet for any enemy to count.
    pub(crate) fn find_target(&self, b: usize) -> (r: Option<usize>)
        requires
            b < self.entities@.len(),
            self.win.wf(),
            forall|k: int| 0 <= k < self.entities@.len() ==> entity_wf(#[trigger] self.entities@[k], self.win),
        ensures
            r is None ==> first_target(self.entities@, b as int, self.entities@.len() as int) is None,
            r matches Some(j) ==> j < self.entities@.len() && hits(self.entities@, b as int, j as int)
                && first_target(self.entities@, b as int, j + 1) == Some(j as int),
    {
        let bullet = self.entities[b];
        if !bullet.is_live_player_bullet() {
            assert(entity_wf(bullet, self.win));
        }
        let n = self.entities.len();
        let mut j: usize = 0;
        while j < n
            invariant
                0 <= j <= n == self.entities@.len(),
                b < n,
                bullet == self.entities@[b as int],
                self.win.wf(),
                forall|k: int| 0 <= k < self.entities@.len() ==> entity_wf(#[trigger] self.entities@[k], self.win),
                first_target(self.entities@, b as int, j as int) is None,
            decreases n - j,
        {
            let enemy = self.entities[j];
            assert(entity_wf(self.entities@[b as int], self.win));
            assert(entity_wf(self.entities@[j as int], self.win));
            if bullet.is_live_player_bullet() && enemy.is_live_enemy()
                && collide(bullet.pos, bullet.size.0, enemy.pos, enemy.size.0) {
                return Some(j);
            }
            j += 1;
        }
        None
    }

    /// Collision pass of player bullets against enemies. Bullets are taken in
    /// store order; each one that overlaps a live enemy kills the first such
    /// enemy: both are marked for removal, the enemy count drops by one and the
    /// score rises by one (saturating). A bullet or enemy already resolved
    /// takes no further part.
    pub fn player_hit_enemy(&mut self)
        requires
            old(self).wf(),
        ensures
            final(self).wf(),
            final(self).entities@ == kills_upto(old(self).entities@, old(self).entities@.len() as int),
            final(self).entities@.len() == old(self).entities@.len(),
            forall|i: int| 0 <= i < old(self).entities@.len() ==> #[trigger] final(self).entities@[i] == old(self).entities@[i]
                || final(self).entities@[i] == old(self).entities@[i].marked(),
            final(self).win == old(self).win,
            final(self).next_id == old(self).next_id,
            final(self).player_state == old(self).player_state,
            final(self).enemy_count.0 <= old(self).enemy_count.0,
            final(self).score.0 == if old(self).score.0 + (old(self).enemy_count.0 - final(self).enemy_count.0) > u64::MAX {
                u64::MAX as int
            } else {
                old(self).score.0 + (old(self).enemy_count.0 - final(self).enemy_count.0)
            },
    {
        let ghost s0 = self.entities@;
        let n = self.entities.len();
        let mut b: usize = 0;
        while b < n
            invariant
                self.win == old(self).win,
                self.win.wf(),
                self.next_id == old(self).next_id,
                self.player_state == old(self).player_state,
                s0 == old(self).entities@,
                0 <= b <= n == self.entities@.len() == s0.len(),
                self.entities@ == kills_upto(s0, b as int),
                forall|i: int| 0 <= i < n ==> #[trigger] self.entities@[i] == s0[i] || self.entities@[i] == s0[i].marked(),
                forall|k: int| 0 <= k < self.entities@.len() ==> entity_wf(#[trigger] self.entities@[k], self.win),
                self.ids_wf(),
                self.enemy_count.0 == self.live_enemies(),
                self.live_players() == old(self).live_players(),
                self.enemy_count.0 <= old(self).enemy_count.0,
                self.score.0 == if old(self).score.0 + (old(self).enemy_count.0 - self.enemy_count.0) > u64::MAX {
                    u64::MAX as int
                } else {
                    old(self).score.0 + (old(self).enemy_count.0 - self.enemy_count.0)
                },
            decreases n - b,
        {
            let ghost t = self.entities@;
            match self.find_target(b) {
                Some(j) => {
                    proof {
                        lemma_first_target_stays(t, b as int, j as int + 1, n as int);
                        assert(hits(t, b as int, j as int));
                    }
                    self.mark(b);
                    self.mark(j);
                    self.enemy_count.0 = self.enemy_count.0 - 1;
                    self.score.0 = self.score.0.saturating_add(1);
                },
                None => {},
            }
            b += 1;
        }
    }

    /// Index of the first live enemy bullet that overlaps the entity at `pl`.
    pub(crate) fn find_strike(&self, pl: usize) -> (r: Option<usize>)
        requires
            pl < self.entities@.len(),
            self.win.wf(),
            forall|k: int| 0 <= k < self.entities@.len() ==> entity_wf(#[trigger] self.entities@[k], self.win),
        ensures
            r is None ==> first_index(self.entities@, strikes_fn(self.entities@[pl as int]), self.entities@.len() as int) is None,
            r matches Some(j) ==> j < self.entities@.len()
                && first_index(self.entities@, strikes_fn(self.entities@[pl as int]), self.entities@.len() as int) == Some(j as int)
                && self.entities@[j as int].live_enemy_bullet(),
    {
        let player = self.entities[pl];
        let ghost p = strikes_fn(player);
        assert(entity_wf(player, self.win));
        let n = self.entities.len();
        let mut j: usize = 0;
        while j < n
            invariant
                0 <= j <= n == self.entities@.len(),
                pl < n,
                player == self.entities@[pl as int],
                p == strikes_fn(player),
                self.win.wf(),
                entity_wf(player, self.win),
                forall|k: int| 0 <= k < self.entities@.len() ==> entity_wf(#[trigger] self.entities@[k], self.win),
                first_index(self.entities@, p, j as int) is None,
            decreases n - j,
        {
            let bullet = self.entities[j];
            assert(entity_wf(self.entities@[j as int], self.win));
            if bullet.is_live_enemy_bullet() && collide(bullet.pos, bullet.size.0, player.pos, player.size.0) {
                proof {
                    assert(p(bullet));
                    lemma_first_index_stays(self.entities@, p, j as int + 1, n as int);
                }
                return Some(j);
            }
            j += 1;
        }
        None
    }

    /// Collision pass of enemy bullets against the player. If a live player
    /// exists and some live enemy bullet overlaps it, the first such bullet
    /// kills it: the player, that bullet and every live player bullet are
    /// marked for removal, the player is recorded dead at `now`, and the score
    /// goes back to zero. Otherwise nothing changes.
    pub fn enemy_hit_player(&mut self, now: u64)
        requires
            old(self).wf(),
        ensures
            final(self).wf(),
            final(self).win == old(self).win,
            final(self).next_id == old(self).next_id,
            final(self).enemy_count == old(self).enemy_count,
            ({
                let s = old(self).entities@;
                match first_index(s, live_player_fn(), s.len() as int) {
                    Some(pl) => match first_index(s, strikes_fn(s[pl]), s.len() as int) {
                        Some(k) => {
                            &&& final(self).entities@ == death_upto(s, pl, k, s.len() as int)
                            &&& final(self).player_state == (PlayerState { on: false, last_shot: Some(now) })
                            &&& final(self).score.0 == 0
                            &&& final(self).live_players() == 0
                            &&& forall|i: int| 0 <= i < s.len() ==> !(#[trigger] final(self).entities@[i]).live_player_bullet()
                        },
                        None => final(self).entities@ == s && final(self).player_state == old(self).player_state
                            && final(self).score == old(self).score,
                    },
                    None => final(self).entities@ == s && final(self).player_state == old(self).player_state
                        && final(self).score == old(self).score,
                }
            }),
    {
        let ghost s = self.entities@;
        let pl = match self.find_player() {
            Some(pl) => pl,
            None => return,
        };
        let k = match self.find_strike(pl) {
            Some(k) => k,
            None => return,
        };
        let n = self.entities.len();
        proof {
            crate::census::lemma_count_member(s, pl as int, live_player_fn());
        }
        self.mark(pl);
        self.player_state.shot(now);
        self.score.0 = 0;
        self.mark(k);
        assert(self.entities@ =~= death_upto(s, pl as int, k as int, 0));
        let mut i: usize = 0;
        while i < n
            invariant
                0 <= i <= n == s.len() == self.entities@.len(),
                pl < n,
                k < n,
                s[pl as int].live_player(),
                s[k as int].live_enemy_bullet(),
                self.entities@ == death_upto(s, pl as int, k as int, i as int),
                self.win == old(self).win,
                self.win.wf(),
                self.next_id == old(self).next_id,
                self.enemy_count == old(self).enemy_count,
                self.enemy_count.0 == self.live_enemies(),
                self.live_players() == 0,
                self.player_state == (PlayerState { on: false, last_shot: Some(now) }),
                self.score.0 == 0,
                forall|j: int| 0 <= j < self.entities@.len() ==> entity_wf(#[trigger] self.entities@[j], self.win),
                self.ids_wf(),
            decreases n - i,
        {
            if self.entities[i].is_live_player_bullet() {
                self.mark(i);
                assert(self.entities@ =~= death_upto(s, pl as int, k as int, i as int + 1));
            } else {
                assert(self.entities@ =~= death_upto(s, pl as int, k as int, i as int + 1));
            }
            i += 1;
        }
    }

    /// Whether the entity at `i` is a live enemy that overlaps another.
    pub(crate) fn touches_enemy(&self, i: usize) -> (r: bool)
        requires
            i < self.entities@.len(),
            self.win.wf(),
            forall|k: int| 0 <= k < self.entities@.len() ==> entity_wf(#[trigger] self.entities@[k], self.win),
        ensures
            r == bounces(self.entities@, i as int),
    {
        let a = self.entities[i];
        if !a.is_live_enemy() {
            return false;
        }
        assert(entity_wf(self.entities@[i as int], self.win));
        let n = self.entities.len();
        let mut j: usize = 0;
        while j < n
            invariant
                0 <= j <= n == self.entities@.len(),
                i < n,
                a == self.entities@[i as int],
                a.live_enemy(),
                self.win.wf(),
                entity_wf(a, self.win),
                forall|k: int| 0 <= k < self.entities@.len() ==> entity_wf(#[trigger] self.entities@[k], self.win),
                forall|k: int| 0 <= k < j && k != i && (#[trigger] self.entities@[k]).live_enemy()
                    ==> !overlaps(a.pos, a.size.0, self.entities@[k].pos, self.entities@[k].size.0),
            decreases n - j,
        {
            let b = self.entities[j];
            assert(entity_wf(self.entities@[j as int], self.win));
            if j != i && b.is_live_enemy() && collide(a.pos, a.size.0, b.pos, b.size.0) {
                assert(self.entities@[j as int].live_enemy());
                return true;
            }
            j += 1;
        }
        false
    }

    /// Collision pass of enemies against each other: every live enemy that
    /// overlaps another live enemy has its velocity inverted.
    pub fn enemy_collide(&mut self)
        requires
            old(self).wf(),
        ensures
            final(self).wf(),
            final(self).same_resources(*old(self)),
            final(self).entities@.len() == old(self).entities@.len(),
            forall|i: int| 0 <= i < old(self).entities@.len() ==> (#[trigger] final(self).entities@[i]) == if bounces(old(self).entities@, i) {
                bounced(old(self).entities@[i])
            } else {
                old(self).entities@[i]
            },
    {
        let ghost s0 = self.entities@;
        let n = self.entities.len();
        let mut flags: Vec<bool> = Vec::new();
        let mut i: usize = 0;
        while i < n
            invariant
                0 <= i <= n == self.entities@.len(),
                self.entities@ == s0,
                *self == *old(self),
                self.wf(),
                flags@.len() == i,
                forall|k: int| 0 <= k < i ==> flags@[k] == bounces(s0, k),
            decreases n - i,
        {
            let f = self.touches_enemy(i);
            flags.push(f);
            i += 1;
        }
        i = 0;
        while i < n
            invariant
                0 <= i <= n == self.entities@.len() == s0.len() == flags@.len(),
                s0 == old(self).entities@,
                self.same_resources(*old(self)),
                self.win.wf(),
                forall|k: int| 0 <= k < n ==> flags@[k] == bounces(s0, k),
                forall|k: int| 0 <= k < i ==> (#[trigger] self.entities@[k]) == if flags@[k] { bounced(s0[k]) } else { s0[k] },
                forall|k: int| i <= k < n ==> (#[trigger] self.entities@[k]) == s0[k],
                forall|k: int| 0 <= k < n ==> entity_wf(#[trigger] self.entities@[k], self.win),
                forall|k: int| 0 <= k < n ==> self.entities@[k].id == #[trigger] s0[k].id,
                count(self.entities@, live_enemy_fn()) == count(s0, live_enemy_fn()),
                count(self.entities@, live_player_fn()) == count(s0, live_player_fn()),
            decreases n - i,
        {
            if flags[i] {
                let mut e = self.entities[i];
                assert(entity_wf(e, self.win));
                e.speed = Speed { x: -e.speed.x, y: -e.speed.y };
                proof {
                    lemma_count_update(self.entities@, i as int, e, live_enemy_fn());
                    lemma_count_update(self.entities@, i as int, e, live_player_fn());
                }
                self.entities.set(i, e);
            }
            i += 1;
        }
        proof {
            lemma_ids_kept(s0, self.entities@, self.next_id);
        }
    }
}

} // verus!
