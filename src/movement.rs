//! Movement: integration of velocities, boundary policies, and velocity
//! assignment from the keys and from random enemy steering.
use vstd::prelude::*;
use crate::census::{count, lemma_count_update, live_enemy_fn, live_player_fn};
use crate::components::{Entity, Speed};
use crate::config::{ENEMY_HALF, ENEMY_SPEED_RANGE, INSET, MARGIN, PLAYER_HALF, PLAYER_SPEED};
use crate::geometry::Point;
use crate::random::random_range;
use crate::state::{Input, WinSize};
use crate::world::{lemma_ids_kept, entity_wf, in_player_region, outside, World};

verus! {

/// `v` brought into `[lo, hi]`.
pub open spec fn clamp(v: int, lo: int, hi: int) -> int {
    if v < lo {
        lo
    } else if v > hi {
        hi
    } else {
        v
    }
}

/// The entity after one tick of integration and its boundary policy.
pub open spec fn moved(e: Entity, win: WinSize) -> Entity {
    if e.despawned {
        e
    } else {
        let p = Point { x: (e.pos.x + e.speed.x) as i64, y: (e.pos.y + e.speed.y) as i64 };
        if e.movable.despawn {
            Entity { pos: p, despawned: outside(p, win), ..e }
        } else if e.movable.player {
            let lo_x = -win.half_w() + PLAYER_HALF + INSET;
            let hi_x = win.half_w() - PLAYER_HALF - INSET;
            let lo_y = -win.half_h() + PLAYER_HALF + INSET;
            Entity {
                pos: Point {
                    x: clamp(p.x as int, lo_x, hi_x) as i64,
                    y: clamp(p.y as int, lo_y, win.player_top()) as i64,
                },
                ..e
            }
        } else if e.movable.enemy {
            let lo_x = -win.half_w() + ENEMY_HALF + INSET;
            let hi_x = win.half_w() - ENEMY_HALF - INSET;
            let lo_y = -win.half_h() + ENEMY_HALF + INSET;
            let hi_y = win.half_h() - ENEMY_HALF - INSET;
            Entity {
                pos: Point { x: clamp(p.x as int, lo_x, hi_x) as i64, y: clamp(p.y as int, lo_y, hi_y) as i64 },
                ..e
            }
        } else {
            Entity { pos: p, ..e }
        }
    }
}

/// `v` brought into `[lo, hi]`.
pub(crate) fn clamp_exec(v: i64, lo: i64, hi: i64) -> (r: i64)
    ensures
        r == clamp(v as int, lo as int, hi as int),
{
    if v < lo {
        lo
    } else if v > hi {
        hi
    } else {
        v
    }
}

/// Half width, half height and player ceiling of the arena.
pub(crate) fn arena_bounds(win: WinSize) -> (r: (i64, i64, i64))
    requires
        win.wf(),
    ensures
        r.0 == win.half_w(),
        r.1 == win.half_h(),
        r.2 == win.player_top(),
{
    ((win.w / 2) as i64, (win.h / 2) as i64, -((win.h / 4) as i64))
}

/// Every draw lies in the enemy speed range on both axes.
pub open spec fn steer_draws_ok(d: Seq<(i64, i64)>) -> bool {
    forall|i: int| 0 <= i < d.len() ==> -ENEMY_SPEED_RANGE <= (#[trigger] d[i]).0 < ENEMY_SPEED_RANGE
        && -ENEMY_SPEED_RANGE <= d[i].1 < ENEMY_SPEED_RANGE
}

/// A live enemy takes the drawn velocity; any other entity is left as it is.
pub open spec fn steered(e: Entity, d: (i64, i64)) -> Entity {
    if e.live_enemy() {
        Entity { speed: Speed { x: d.0, y: d.1 }, ..e }
    } else {
        e
    }
}

/// `n` velocity draws, each uniform in the enemy speed range on both axes.
pub fn draw_steering(n: usize) -> (r: Vec<(i64, i64)>)
    ensures
        r@.len() == n,
        steer_draws_ok(r@),
{
    let mut r: Vec<(i64, i64)> = Vec::new();
    let mut i: usize = 0;
    while i < n
        invariant
            0 <= i <= n,
            r@.len() == i,
            steer_draws_ok(r@),
        decreases n - i,
    {
        let x = random_range(-ENEMY_SPEED_RANGE, ENEMY_SPEED_RANGE);
        let y = random_range(-ENEMY_SPEED_RANGE, ENEMY_SPEED_RANGE);
        r.push((x, y));
        i += 1;
    }
    r
}

/// One tick of integration and boundary policy for one entity.
pub fn move_entity(e: Entity, win: WinSize) -> (r: Entity)
    requires
        win.wf(),
        entity_wf(e, win),
    ensures
        r == moved(e, win),
        entity_wf(r, win),
        r.id == e.id,
        r.live_enemy() == e.live_enemy(),
        r.live_player() == e.live_player(),
{
    if e.despawned {
        return e;
    }
    let (hw, hh, top) = arena_bounds(win);
    assert(hh - top >= PLAYER_HALF + INSET) by (nonlinear_arith)
        requires hh == win.h as int / 2, top == -(win.h as int / 4), win.h >= 4800;
    let p = Point { x: e.pos.x + e.speed.x, y: e.pos.y + e.speed.y };
    if e.movable.despawn {
        let out = p.y > hh + MARGIN || p.y < -hh - MARGIN || p.x > hw + MARGIN || p.x < -hw - MARGIN;
        Entity { pos: p, despawned: out, ..e }
    } else if e.movable.player {
        let x = clamp_exec(p.x, -hw + PLAYER_HALF + INSET, hw - PLAYER_HALF - INSET);
        let y = clamp_exec(p.y, -hh + PLAYER_HALF + INSET, top);
        Entity { pos: Point { x, y }, ..e }
    } else if e.movable.enemy {
        let x = clamp_exec(p.x, -hw + ENEMY_HALF + INSET, hw - ENEMY_HALF - INSET);
        let y = clamp_exec(p.y, -hh + ENEMY_HALF + INSET, hh - ENEMY_HALF - INSET);
        Entity { pos: Point { x, y }, ..e }
    } else {
        Entity { pos: p, ..e }
    }
}

/// The player's velocity for the keys held: left before right, up before down.
pub open spec fn input_speed(input: Input) -> Speed {
    Speed {
        x: if input.left { (-PLAYER_SPEED) as i64 } else if input.right { PLAYER_SPEED } else { 0 },
        y: if input.up { PLAYER_SPEED } else if input.down { (-PLAYER_SPEED) as i64 } else { 0 },
    }
}

impl World {
    /// Movement phase: every live entity advances by its speed, then bullets
    /// past the arena and margin are marked for removal and ships are clamped
    /// to their regions.
    pub fn movement(&mut self)
        requires
            old(self).wf(),
        ensures
            final(self).wf(),
            final(self).same_resources(*old(self)),
            final(self).entities@.len() == old(self).entities@.len(),
            forall|i: int| 0 <= i < old(self).entities@.len()
                ==> #[trigger] final(self).entities@[i] == moved(old(self).entities@[i], old(self).win),
            forall|i: int| 0 <= i < final(self).entities@.len() && (#[trigger] final(self).entities@[i]).live_player()
                ==> in_player_region(final(self).entities@[i].pos, final(self).win),
    {
        let ghost s0 = self.entities@;
        let n = self.entities.len();
        let mut i: usize = 0;
        while i < n
            invariant
                self.win == old(self).win,
                self.same_resources(*old(self)),
                self.win.wf(),
                0 <= i <= n == s0.len() == self.entities@.len(),
                s0 == old(self).entities@,
                forall|k: int| 0 <= k < i ==> self.entities@[k] == moved(#[trigger] s0[k], self.win),
                forall|k: int| i <= k < n ==> self.entities@[k] == #[trigger] s0[k],
                forall|k: int| 0 <= k < n ==> entity_wf(#[trigger] self.entities@[k], self.win),
                forall|k: int| 0 <= k < n ==> self.entities@[k].id == #[trigger] s0[k].id,
                count(self.entities@, live_enemy_fn()) == count(s0, live_enemy_fn()),
                count(self.entities@, live_player_fn()) == count(s0, live_player_fn()),
            decreases n - i,
        {
            let e = self.entities[i];
            let m = move_entity(e, self.win);
            proof {
                lemma_count_update(self.entities@, i as int, m, live_enemy_fn());
                lemma_count_update(self.entities@, i as int, m, live_player_fn());
            }
            self.entities.set(i, m);
            i += 1;
        }
        proof {
            lemma_ids_kept(s0, self.entities@, self.next_id);
        }
    }

    /// Movement keys: the live player, if any, takes the velocity of the keys
    /// held; nothing else changes.
    pub fn player_movement_input(&mut self, input: Input)
        requires
            old(self).wf(),
        ensures
            final(self).wf(),
            final(self).same_resources(*old(self)),
            final(self).entities@.len() == old(self).entities@.len(),
            forall|i: int| 0 <= i < old(self).entities@.len() ==> (#[trigger] final(self).entities@[i]) == if old(self).entities@[i].live_player() {
                Entity { speed: input_speed(input), ..old(self).entities@[i] }
            } else {
                old(self).entities@[i]
            },
    {
        let ghost s0 = self.entities@;
        let speed = Speed {
            x: if input.left { -PLAYER_SPEED } else if input.right { PLAYER_SPEED } else { 0 },
            y: if input.up { PLAYER_SPEED } else if input.down { -PLAYER_SPEED } else { 0 },
        };
        let n = self.entities.len();
        let mut i: usize = 0;
        while i < n
            invariant
                0 <= i <= n == self.entities@.len() == s0.len(),
                s0 == old(self).entities@,
                speed == input_speed(input),
                self.same_resources(*old(self)),
                self.win.wf(),
                forall|k: int| 0 <= k < i ==> (#[trigger] self.entities@[k]) == if s0[k].live_player() {
                    Entity { speed: input_speed(input), ..s0[k] }
                } else {
                    s0[k]
                },
                forall|k: int| i <= k < n ==> (#[trigger] self.entities@[k]) == s0[k],
                forall|k: int| 0 <= k < n ==> entity_wf(#[trigger] self.entities@[k], self.win),
                forall|k: int| 0 <= k < n ==> self.entities@[k].id == #[trigger] s0[k].id,
                count(self.entities@, live_enemy_fn()) == count(s0, live_enemy_fn()),
                count(self.entities@, live_player_fn()) == count(s0, live_player_fn()),
            decreases n - i,
        {
            let mut e = self.entities[i];
            if e.is_live_player() {
                assert(entity_wf(e, self.win));
                e.speed = speed;
                proof {
                    lemma_count_update(self.entities@, i as int, e, live_enemy_fn());
                    lemma_count_update(self.entities@, i as int, e, live_player_fn());
                }
                self.entities.set(i, e);
            }
            i += 1;
        }
        proof {
            lemma_ids_kept(s0, self.entities@, self.next_id);
        }
    }

    /// Enemy steering with given draws: every live enemy at index `i` takes the
    /// velocity `draws[i]`; nothing else changes.
    pub fn steer_enemies(&mut self, draws: &Vec<(i64, i64)>)
        requires
            old(self).wf(),
            draws@.len() >= old(self).entities@.len(),
            steer_draws_ok(draws@),
        ensures
            final(self).wf(),
            final(self).same_resources(*old(self)),
            final(self).entities@.len() == old(self).entities@.len(),
            forall|i: int| 0 <= i < old(self).entities@.len()
                ==> #[trigger] final(self).entities@[i] == steered(old(self).entities@[i], draws@[i]),
    {
        let ghost s0 = self.entities@;
        let n = self.entities.len();
        let mut i: usize = 0;
        while i < n
            invariant
                0 <= i <= n == self.entities@.len() == s0.len(),
                n <= draws@.len(),
                steer_draws_ok(draws@),
                s0 == old(self).entities@,
                self.same_resources(*old(self)),
                self.win.wf(),
                forall|k: int| 0 <= k < i ==> #[trigger] self.entities@[k] == steered(s0[k], draws@[k]),
                forall|k: int| i <= k < n ==> (#[trigger] self.entities@[k]) == s0[k],
                forall|k: int| 0 <= k < n ==> entity_wf(#[trigger] self.entities@[k], self.win),
                forall|k: int| 0 <= k < n ==> self.entities@[k].id == #[trigger] s0[k].id,
                count(self.entities@, live_enemy_fn()) == count(s0, live_enemy_fn()),
                count(self.entities@, live_player_fn()) == count(s0, live_player_fn()),
            decreases n - i,
        {
            let mut e = self.entities[i];
            if e.is_live_enemy() {
                assert(entity_wf(e, self.win));
                let (x, y) = draws[i];
                e.speed = Speed { x, y };
                proof {
                    lemma_count_update(self.entities@, i as int, e, live_enemy_fn());
                    lemma_count_update(self.entities@, i as int, e, live_player_fn());
                }
                self.entities.set(i, e);
            }
            i += 1;
        }
        proof {
            lemma_ids_kept(s0, self.entities@, self.next_id);
        }
    }

    /// Enemy steering: every live enemy takes a new velocity drawn uniformly
    /// from `[-ENEMY_SPEED_RANGE, ENEMY_SPEED_RANGE)` on each axis; nothing else
    /// changes.
    pub fn enemy_movement(&mut self)
        requires
            old(self).wf(),
        ensures
            final(self).wf(),
            final(self).same_resources(*old(self)),
            final(self).entities@.len() == old(self).entities@.len(),
            exists|d: Seq<(i64, i64)>| {
                &&& d.len() == old(self).entities@.len()
                &&& steer_draws_ok(d)
                &&& forall|i: int| 0 <= i < old(self).entities@.len()
                    ==> #[trigger] final(self).entities@[i] == steered(old(self).entities@[i], d[i])
            },
    {
        let draws = draw_steering(self.entities.len());
        self.steer_enemies(&draws);
    }
}

} // verus!
