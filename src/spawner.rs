//! Spawning: enemies on their timer, the player on respawn, and the bullets
//! fired by both.
use vstd::prelude::*;
use crate::census::{
    count, first_index, lemma_count_push, lemma_count_take, live_enemy_fn, live_player_fn,
};
use crate::components::{
    enemy_bullet_template, enemy_template, player_bullet_template, player_template, Entity,
};
use crate::config::{
    ENEMY_FIRE_ODDS, ENEMY_HALF, ENEMY_MAX, INSET, MUZZLE_X, MUZZLE_Y, PLAYER_HALF,
};
use crate::geometry::Point;
use crate::random::{random_range, random_ratio};
use crate::state::{respawn_due, Input, PlayerState, WinSize};
use crate::world::{entity_wf, World};
use crate::movement::arena_bounds;

verus! {

/// Where an enemy appears: at `x` along the top edge, inset by its size.
pub open spec fn enemy_spawn_point(x: i64, win: WinSize) -> Point {
    Point { x, y: (win.half_h() - ENEMY_HALF - INSET) as i64 }
}

/// Where the player appears: bottom centre, inset by its size.
pub open spec fn player_spawn_point(win: WinSize) -> Point {
    Point { x: 0, y: (-win.half_h() + PLAYER_HALF + INSET) as i64 }
}

/// Where an enemy at `p` fires from: below it by the muzzle distance.
pub open spec fn enemy_muzzle(p: Point) -> Point {
    Point { x: p.x, y: (p.y - MUZZLE_Y) as i64 }
}

/// One bullet below each live enemy of `s`, in store order, numbered from `id`.
pub open spec fn volley(s: Seq<Entity>, id: int) -> Seq<Entity>
    decreases s.len(),
{
    if s.len() == 0 {
        Seq::empty()
    } else {
        let r = volley(s.drop_last(), id);
        if s.last().live_enemy() {
            r.push(enemy_bullet_template((id + r.len()) as u64, enemy_muzzle(s.last().pos)))
        } else {
            r
        }
    }
}

pub(crate) proof fn lemma_volley_len(s: Seq<Entity>, id: int)
    ensures
        volley(s, id).len() == count(s, live_enemy_fn()),
    decreases s.len(),
{
    if s.len() > 0 {
        lemma_volley_len(s.drop_last(), id);
    }
}

impl World {
    /// Spawns an enemy at `x` on the top edge, at rest, unless the enemy
    /// population is already at its cap, in which case nothing changes.
    pub fn spawn_enemy_at(&mut self, x: i64)
        requires
            old(self).wf(),
            old(self).next_id < u64::MAX,
            -old(self).win.half_w() <= x <= old(self).win.half_w(),
        ensures
            final(self).wf(),
            if old(self).enemy_count.0 < ENEMY_MAX {
                &&& final(self).entities@ == old(self).entities@.push(
                    enemy_template(old(self).next_id, enemy_spawn_point(x, old(self).win)),
                )
                &&& final(self).enemy_count.0 == old(self).enemy_count.0 + 1
                &&& final(self).next_id == old(self).next_id + 1
                &&& final(self).win == old(self).win
                &&& final(self).player_state == old(self).player_state
                &&& final(self).score == old(self).score
            } else {
                *final(self) == *old(self)
            },
    {
        if self.enemy_count.0 < ENEMY_MAX {
            let (_, hh, _) = arena_bounds(self.win);
            let e = Entity::new_enemy(self.next_id, Point { x, y: hh - ENEMY_HALF - INSET });
            self.spawn(e);
            self.enemy_count.0 = self.enemy_count.0 + 1;
        }
    }

    /// Enemy spawn timer: spawns an enemy at a uniformly drawn position along
    /// the top edge, unless the enemy population is at its cap.
    pub fn enemy_spawn(&mut self)
        requires
            old(self).wf(),
            old(self).next_id < u64::MAX,
        ensures
            final(self).wf(),
            if old(self).enemy_count.0 < ENEMY_MAX {
                &&& exists|x: i64| -old(self).win.half_w() <= x < old(self).win.half_w()
                    && final(self).entities@ == old(self).entities@.push(
                        #[trigger] enemy_template(old(self).next_id, enemy_spawn_point(x, old(self).win)),
                    )
                &&& final(self).enemy_count.0 == old(self).enemy_count.0 + 1
                &&& final(self).next_id == old(self).next_id + 1
                &&& final(self).win == old(self).win
                &&& final(self).player_state == old(self).player_state
                &&& final(self).score == old(self).score
            } else {
                *final(self) == *old(self)
            },
    {
        if self.enemy_count.0 < ENEMY_MAX {
            let (hw, _, _) = arena_bounds(self.win);
            let x = random_range(-hw, hw);
            self.spawn_enemy_at(x);
            assert(self.entities@ == old(self).entities@.push(enemy_template(old(self).next_id, enemy_spawn_point(x, old(self).win))));
        }
    }

    /// Player respawn timer: if the player is dead and either never died or
    /// died at least the respawn time before `now`, spawns it at rest at the
    /// bottom centre and records it alive. Otherwise nothing changes.
    pub fn player_spawn(&mut self, now: u64)
        requires
            old(self).wf(),
            old(self).next_id < u64::MAX,
        ensures
            final(self).wf(),
            if !old(self).player_state.on && respawn_due(old(self).player_state.last_shot, now) {
                &&& final(self).entities@ == old(self).entities@.push(
                    player_template(old(self).next_id, player_spawn_point(old(self).win)),
                )
                &&& final(self).player_state == (PlayerState { on: true, last_shot: None })
                &&& final(self).next_id == old(self).next_id + 1
                &&& final(self).win == old(self).win
                &&& final(self).enemy_count == old(self).enemy_count
                &&& final(self).score == old(self).score
            } else {
                *final(self) == *old(self)
            },
    {
        if self.player_state.can_respawn(now) {
            let (_, hh, top) = arena_bounds(self.win);
            assert(hh - top >= PLAYER_HALF + INSET) by (nonlinear_arith)
                requires hh == self.win.h as int / 2, top == -(self.win.h as int / 4), self.win.h >= 4800;
            let e = Entity::new_player(self.next_id, Point { x: 0, y: -hh + PLAYER_HALF + INSET });
            self.spawn(e);
            self.player_state.spawned();
        }
    }

    /// Fire key: when fire was just pressed and a player is alive, two player
    /// bullets appear at its muzzle points, right gun first, then left.
    pub fn player_fire_input(&mut self, input: Input)
        requires
            old(self).wf(),
            old(self).next_id + 2 <= u64::MAX,
        ensures
            final(self).wf(),
            final(self).win == old(self).win,
            final(self).player_state == old(self).player_state,
            final(self).enemy_count == old(self).enemy_count,
            final(self).score == old(self).score,
            ({
                let s = old(self).entities@;
                let id = old(self).next_id;
                match first_index(s, live_player_fn(), s.len() as int) {
                    Some(pl) if input.fire => {
                        let p = s[pl].pos;
                        &&& final(self).entities@ == s.push(
                            player_bullet_template(id, Point { x: (p.x + MUZZLE_X) as i64, y: (p.y + MUZZLE_Y) as i64 }),
                        ).push(
                            player_bullet_template((id + 1) as u64, Point { x: (p.x - MUZZLE_X) as i64, y: (p.y + MUZZLE_Y) as i64 }),
                        )
                        &&& final(self).next_id == id + 2
                    },
                    _ => final(self).entities@ == s && final(self).next_id == id,
                }
            }),
    {
        if !input.fire {
            return;
        }
        let pl = match self.find_player() {
            Some(pl) => pl,
            None => return,
        };
        let p = self.entities[pl].pos;
        assert(entity_wf(self.entities@[pl as int], self.win));
        let (hw, hh, top) = arena_bounds(self.win);
        assert(top + MUZZLE_Y <= hh) by (nonlinear_arith)
            requires hh == self.win.h as int / 2, top == -(self.win.h as int / 4), self.win.h >= 4800;
        let right = Entity::new_player_bullet(self.next_id, Point { x: p.x + MUZZLE_X, y: p.y + MUZZLE_Y });
        self.spawn(right);
        let left = Entity::new_player_bullet(self.next_id, Point { x: p.x - MUZZLE_X, y: p.y + MUZZLE_Y });
        self.spawn(left);
    }

    /// Enemy fire: each live enemy, in store order, fires one bullet
    /// downward from below its hull.
    pub fn enemy_fire(&mut self)
        requires
            old(self).wf(),
            old(self).next_id + ENEMY_MAX <= u64::MAX,
        ensures
            final(self).wf(),
            final(self).entities@ == old(self).entities@ + volley(old(self).entities@, old(self).next_id as int),
            final(self).next_id == old(self).next_id + old(self).enemy_count.0,
            final(self).win == old(self).win,
            final(self).player_state == old(self).player_state,
            final(self).enemy_count == old(self).enemy_count,
            final(self).score == old(self).score,
    {
        let ghost s0 = self.entities@;
        let ghost id0 = self.next_id as int;
        let n = self.entities.len();
        let mut i: usize = 0;
        while i < n
            invariant
                0 <= i <= n == s0.len(),
                s0 == old(self).entities@,
                id0 == old(self).next_id,
                id0 + ENEMY_MAX <= u64::MAX,
                self.entities@ == s0 + volley(s0.take(i as int), id0),
                self.next_id == id0 + volley(s0.take(i as int), id0).len(),
                count(s0, live_enemy_fn()) <= ENEMY_MAX,
                self.win == old(self).win,
                self.win.wf(),
                self.player_state == old(self).player_state,
                self.enemy_count == old(self).enemy_count,
                self.score == old(self).score,
                self.enemy_count.0 == self.live_enemies(),
                self.live_players() == old(self).live_players(),
                forall|k: int| 0 <= k < self.entities@.len() ==> entity_wf(#[trigger] self.entities@[k], self.win),
                self.ids_wf(),
            decreases n - i,
        {
            let e = self.entities[i];
            assert(self.entities@[i as int] == s0[i as int]);
            assert(s0.take(i as int + 1).drop_last() =~= s0.take(i as int));
            assert(s0.take(i as int + 1).last() == e);
            proof {
                lemma_volley_len(s0.take(i as int), id0);
                lemma_count_take(s0, i as int, live_enemy_fn());
                if e.live_enemy() {
                    lemma_count_take(s0, i as int + 1, live_enemy_fn());
                    lemma_count_push(s0.take(i as int), e, live_enemy_fn());
                }
            }
            if e.is_live_enemy() {
                assert(entity_wf(e, self.win));
                let b = Entity::new_enemy_bullet(self.next_id, Point { x: e.pos.x, y: e.pos.y - MUZZLE_Y });
                self.spawn(b);
            }
            i += 1;
        }
        assert(s0.take(n as int) =~= s0);
        proof {
            lemma_volley_len(s0, id0);
        }
    }

    /// Whether the enemies fire this tick: one chance in `ENEMY_FIRE_ODDS`.
    pub fn enemy_fire_criteria() -> (r: bool) {
        random_ratio(1, ENEMY_FIRE_ODDS)
    }
}

} // verus!
