//! The tick: the phases composed in order, first over a mathematical model of
//! the state, then over the state itself.
use vstd::prelude::*;
use crate::census::{
    count, first_index, lemma_count_member, lemma_count_zero, lemma_first_index_found,
    live_enemy_fn, live_player_fn,
};
use crate::collision::{bounced, bounces, death_upto, kills_upto, strikes_fn};
use crate::components::{enemy_template, player_bullet_template, player_template, Entity};
use crate::config::{ENEMY_MAX, MUZZLE_X, MUZZLE_Y};
use crate::geometry::Point;
use crate::movement::{
    arena_bounds, draw_steering, input_speed, moved, steer_draws_ok, steered,
};
use crate::spawner::{enemy_spawn_point, lemma_volley_len, player_spawn_point, volley};
use crate::state::{respawn_due, Input, PlayerState, WinSize};
use crate::world::{
    entity_wf, in_player_region, lemma_live_only_keeps, live_only, outside, World,
};

verus! {

/// The simulation state as mathematical values.
pub struct Model {
    pub entities: Seq<Entity>,
    pub next_id: int,
    pub player_state: PlayerState,
    pub enemy_count: int,
    pub score: int,
}

impl World {
    pub open spec fn model(&self) -> Model {
        Model {
            entities: self.entities@,
            next_id: self.next_id as int,
            player_state: self.player_state,
            enemy_count: self.enemy_count.0 as int,
            score: self.score.0 as int,
        }
    }
}

/// Enemy spawn timer, with the enemy placed at `x`.
pub open spec fn enemy_spawn_step(m: Model, win: WinSize, x: i64) -> Model {
    if m.enemy_count < ENEMY_MAX {
        Model {
            entities: m.entities.push(enemy_template(m.next_id as u64, enemy_spawn_point(x, win))),
            next_id: m.next_id + 1,
            enemy_count: m.enemy_count + 1,
            ..m
        }
    } else {
        m
    }
}

/// Player respawn timer at `now`.
pub open spec fn player_spawn_step(m: Model, win: WinSize, now: u64) -> Model {
    if !m.player_state.on && respawn_due(m.player_state.last_shot, now) {
        Model {
            entities: m.entities.push(player_template(m.next_id as u64, player_spawn_point(win))),
            next_id: m.next_id + 1,
            player_state: PlayerState { on: true, last_shot: None },
            ..m
        }
    } else {
        m
    }
}

/// Movement keys.
pub open spec fn keys_step(m: Model, input: Input) -> Model {
    Model {
        entities: Seq::new(
            m.entities.len(),
            |i: int|
                if m.entities[i].live_player() {
                    Entity { speed: input_speed(input), ..m.entities[i] }
                } else {
                    m.entities[i]
                },
        ),
        ..m
    }
}

/// Fire key.
pub open spec fn fire_step(m: Model, input: Input) -> Model {
    let s = m.entities;
    match first_index(s, live_player_fn(), s.len() as int) {
        Some(pl) if input.fire => {
            let p = s[pl].pos;
            Model {
                entities: s.push(
                    player_bullet_template(m.next_id as u64, Point { x: (p.x + MUZZLE_X) as i64, y: (p.y + MUZZLE_Y) as i64 }),
                ).push(
                    player_bullet_template((m.next_id + 1) as u64, Point { x: (p.x - MUZZLE_X) as i64, y: (p.y + MUZZLE_Y) as i64 }),
                ),
                next_id: m.next_id + 2,
                ..m
            }
        },
        _ => m,
    }
}

/// Enemy steering with the given draws.
pub open spec fn steer_step(m: Model, draws: Seq<(i64, i64)>) -> Model {
    Model { entities: Seq::new(m.entities.len(), |i: int| steered(m.entities[i], draws[i])), ..m }
}

/// Enemy fire.
pub open spec fn volley_step(m: Model) -> Model {
    let v = volley(m.entities, m.next_id);
    Model { entities: m.entities + v, next_id: m.next_id + v.len(), ..m }
}

/// Movement.
pub open spec fn movement_step(m: Model, win: WinSize) -> Model {
    Model { entities: Seq::new(m.entities.len(), |i: int| moved(m.entities[i], win)), ..m }
}

/// Player bullets against enemies: one point per enemy killed, saturating.
pub open spec fn kills_step(m: Model) -> Model {
    let s = kills_upto(m.entities, m.entities.len() as int);
    let c = count(s, live_enemy_fn()) as int;
    let score = m.score + (m.enemy_count - c);
    Model {
        entities: s,
        enemy_count: c,
        score: if score > u64::MAX { u64::MAX as int } else { score },
        ..m
    }
}

/// Enemy bullets against the player at `now`, and whether the player died.
pub open spec fn death_step(m: Model, now: u64) -> (Model, bool) {
    let s = m.entities;
    match first_index(s, live_player_fn(), s.len() as int) {
        Some(pl) => match first_index(s, strikes_fn(s[pl]), s.len() as int) {
            Some(k) => (
                Model {
                    entities: death_upto(s, pl, k, s.len() as int),
                    player_state: PlayerState { on: false, last_shot: Some(now) },
                    score: 0,
                    ..m
                },
                true,
            ),
            None => (m, false),
        },
        None => (m, false),
    }
}

/// Enemies against each other.
pub open spec fn bounce_step(m: Model) -> Model {
    Model {
        entities: Seq::new(
            m.entities.len(),
            |i: int| if bounces(m.entities, i) { bounced(m.entities[i]) } else { m.entities[i] },
        ),
        ..m
    }
}

/// End of tick.
pub open spec fn cleanup_step(m: Model) -> Model {
    Model { entities: live_only(m.entities), ..m }
}

/// The state after one tick and whether the player died in it, given the
/// random draws: the spawn position `x`, the steering `draws` and whether the
/// enemies `fire`.
pub open spec fn after_tick(
    m: Model,
    win: WinSize,
    input: Input,
    now: u64,
    enemy_timer: bool,
    player_timer: bool,
    x: i64,
    draws: Seq<(i64, i64)>,
    fire: bool,
) -> (Model, bool) {
    let m1 = if enemy_timer { enemy_spawn_step(m, win, x) } else { m };
    let m2 = if player_timer { player_spawn_step(m1, win, now) } else { m1 };
    let m3 = fire_step(keys_step(m2, input), input);
    let m4 = steer_step(m3, draws);
    let m5 = if fire { volley_step(m4) } else { m4 };
    let m6 = kills_step(movement_step(m5, win));
    let (m7, died) = death_step(m6, now);
    (cleanup_step(bounce_step(m7)), died)
}

/// What holds after every tick: no entity left marked, no bullet past the
/// margin, the player in its region, the enemy population within its cap,
/// and, if the player died, a zero score and no player bullet left.
pub open spec fn tick_laws(w: World, now: u64, died: bool) -> bool {
    &&& w.enemy_count.0 <= ENEMY_MAX
    &&& w.enemy_count.0 == w.live_enemies()
    &&& forall|i: int| 0 <= i < w.entities@.len() ==> !(#[trigger] w.entities@[i]).despawned
    &&& forall|i: int| 0 <= i < w.entities@.len() && (#[trigger] w.entities@[i]).bullet is Some
        ==> !outside(w.entities@[i].pos, w.win)
    &&& forall|i: int| 0 <= i < w.entities@.len() && (#[trigger] w.entities@[i]).is_player()
        ==> in_player_region(w.entities@[i].pos, w.win)
    &&& died ==> {
        &&& w.score.0 == 0
        &&& w.player_state == (PlayerState { on: false, last_shot: Some(now) })
        &&& forall|i: int| 0 <= i < w.entities@.len() ==> !(#[trigger] w.entities@[i]).is_player_bullet()
        &&& forall|i: int| 0 <= i < w.entities@.len() ==> !(#[trigger] w.entities@[i]).is_player()
    }
}

/// No live bullet of `s` lies past the margin.
pub open spec fn bullets_inside(s: Seq<Entity>, win: WinSize) -> bool {
    forall|i: int| 0 <= i < s.len() && (#[trigger] s[i]).bullet is Some && !s[i].despawned ==> !outside(s[i].pos, win)
}

impl World {
    /// The phases before movement: timers, keys, steering and enemy fire.
    fn tick_actions(
        &mut self,
        input: Input,
        now: u64,
        enemy_timer: bool,
        player_timer: bool,
        x: i64,
        draws: &Vec<(i64, i64)>,
        fire: bool,
    )
        requires
            old(self).wf(),
            old(self).next_id + 4 + ENEMY_MAX <= u64::MAX,
            -old(self).win.half_w() <= x <= old(self).win.half_w(),
            draws@.len() >= old(self).entities@.len() + 4,
            steer_draws_ok(draws@),
        ensures
            final(self).wf(),
            final(self).win == old(self).win,
            ({
                let m = old(self).model();
                let win = old(self).win;
                let m1 = if enemy_timer { enemy_spawn_step(m, win, x) } else { m };
                let m2 = if player_timer { player_spawn_step(m1, win, now) } else { m1 };
                let m4 = steer_step(fire_step(keys_step(m2, input), input), draws@);
                final(self).model() == if fire { volley_step(m4) } else { m4 }
            }),
    {
        let ghost win = self.win;
        let ghost m0 = self.model();
        if enemy_timer {
            self.spawn_enemy_at(x);
        }
        assert(self.model() == if enemy_timer { enemy_spawn_step(m0, win, x) } else { m0 });
        let ghost m1 = self.model();
        if player_timer {
            self.player_spawn(now);
        }
        assert(self.model() == if player_timer { player_spawn_step(m1, win, now) } else { m1 });
        let ghost m2 = self.model();
        self.player_movement_input(input);
        assert(self.entities@ =~= keys_step(m2, input).entities);
        let ghost m3a = self.model();
        self.player_fire_input(input);
        assert(self.model() == fire_step(m3a, input));
        let ghost m3 = self.model();
        self.steer_enemies(draws);
        assert(self.entities@ =~= steer_step(m3, draws@).entities);
        let ghost m4 = self.model();
        if fire {
            proof {
                lemma_volley_len(m4.entities, m4.next_id);
            }
            self.enemy_fire();
        }
        assert(self.model() == if fire { volley_step(m4) } else { m4 });
    }

    /// Movement, which leaves no live bullet past the margin.
    fn tick_movement(&mut self)
        requires
            old(self).wf(),
        ensures
            final(self).wf(),
            final(self).win == old(self).win,
            final(self).model() == movement_step(old(self).model(), old(self).win),
            bullets_inside(final(self).entities@, final(self).win),
    {
        let ghost m5 = self.model();
        let ghost win = self.win;
        self.movement();
        assert(self.entities@ =~= movement_step(m5, win).entities);
        let ghost s = self.entities@;
        assert forall|i: int| 0 <= i < s.len() && (#[trigger] s[i]).bullet is Some && !s[i].despawned
            implies !outside(s[i].pos, win) by {
            assert(s[i] == moved(m5.entities[i], win));
            assert(entity_wf(m5.entities[i], win));
        }
    }

    /// Player bullets against enemies.
    fn tick_kills(&mut self)
        requires
            old(self).wf(),
            bullets_inside(old(self).entities@, old(self).win),
        ensures
            final(self).wf(),
            final(self).win == old(self).win,
            final(self).model() == kills_step(old(self).model()),
            bullets_inside(final(self).entities@, final(self).win),
    {
        let ghost s0 = self.entities@;
        self.player_hit_enemy();
        let ghost s = self.entities@;
        assert forall|i: int| 0 <= i < s.len() && (#[trigger] s[i]).bullet is Some && !s[i].despawned
            implies !outside(s[i].pos, self.win) by {
            assert(s[i] == s0[i] || s[i] == s0[i].marked());
        }
    }

    /// Enemy bullets against the player.
    fn tick_death(&mut self, now: u64) -> (died: bool)
        requires
            old(self).wf(),
            bullets_inside(old(self).entities@, old(self).win),
        ensures
            final(self).wf(),
            final(self).win == old(self).win,
            (final(self).model(), died) == death_step(old(self).model(), now),
            bullets_inside(final(self).entities@, final(self).win),
            died ==> {
                &&& final(self).score.0 == 0
                &&& final(self).player_state == (PlayerState { on: false, last_shot: Some(now) })
                &&& final(self).live_players() == 0
                &&& forall|i: int| 0 <= i < final(self).entities@.len() ==> !(#[trigger] final(self).entities@[i]).live_player_bullet()
            },
    {
        let ghost m6 = self.model();
        let ghost s0 = self.entities@;
        let before = self.player_state;
        self.enemy_hit_player(now);
        let died = self.player_state != before;
        proof {
            let s = m6.entities;
            if let Some(pl) = first_index(s, live_player_fn(), s.len() as int) {
                lemma_first_index_found(s, live_player_fn(), s.len() as int);
                lemma_count_member(s, pl, live_player_fn());
            }
        }
        let ghost s = self.entities@;
        assert forall|i: int| 0 <= i < s.len() && (#[trigger] s[i]).bullet is Some && !s[i].despawned
            implies !outside(s[i].pos, self.win) by {
            assert(s[i] == s0[i] || s[i] == s0[i].marked());
        }
        died
    }

    /// Enemies against each other, then cleanup.
    fn tick_finish(&mut self, now: u64, died: bool)
        requires
            old(self).wf(),
            bullets_inside(old(self).entities@, old(self).win),
            died ==> {
                &&& old(self).score.0 == 0
                &&& old(self).player_state == (PlayerState { on: false, last_shot: Some(now) })
                &&& old(self).live_players() == 0
                &&& forall|i: int| 0 <= i < old(self).entities@.len() ==> !(#[trigger] old(self).entities@[i]).live_player_bullet()
            },
        ensures
            final(self).wf(),
            final(self).win == old(self).win,
            final(self).model() == cleanup_step(bounce_step(old(self).model())),
            tick_laws(*final(self), now, died),
    {
        let ghost m7 = self.model();
        let ghost s7 = self.entities@;
        self.enemy_collide();
        assert(self.entities@ =~= bounce_step(m7).entities);
        let ghost s8 = self.entities@;
        assert(bullets_inside(s8, self.win)) by {
            assert forall|i: int| 0 <= i < s8.len() && (#[trigger] s8[i]).bullet is Some && !s8[i].despawned
                implies !outside(s8[i].pos, self.win) by {
                assert(s8[i].pos == s7[i].pos && s8[i].despawned == s7[i].despawned && s8[i].bullet == s7[i].bullet);
            }
        }
        proof {
            if died {
                lemma_count_zero(s8, live_player_fn());
                assert forall|i: int| 0 <= i < s8.len() implies !(#[trigger] s8[i]).live_player_bullet() by {
                    assert(s8[i].despawned == s7[i].despawned && s8[i].bullet == s7[i].bullet && s8[i].from_player == s7[i].from_player);
                }
            }
        }
        self.cleanup();
        proof {
            let s = self.entities@;
            lemma_live_only_keeps(s8);
            assert forall|i: int| 0 <= i < s.len() && (#[trigger] s[i]).bullet is Some implies !outside(s[i].pos, self.win) by {
                let j = choose|j: int| 0 <= j < s8.len() && #[trigger] live_only(s8)[i] == s8[j] && !s8[j].despawned;
            }
            assert forall|i: int| 0 <= i < s.len() && (#[trigger] s[i]).is_player() implies in_player_region(s[i].pos, self.win) by {
                assert(entity_wf(s[i], self.win));
            }
            if died {
                assert forall|i: int| 0 <= i < s.len() implies !(#[trigger] s[i]).is_player_bullet() && !s[i].is_player() by {
                    let j = choose|j: int| 0 <= j < s8.len() && #[trigger] live_only(s8)[i] == s8[j] && !s8[j].despawned;
                }
            }
        }
    }

    /// One simulation tick with the random draws given: the spawn timers act
    /// first (`enemy_timer` and `player_timer` say whether each fired), then the
    /// player's keys, enemy steering (`draws`) and fire (`fire`), movement, the
    /// three collision passes, and cleanup. Returns whether the player died.
    pub fn tick_with(
        &mut self,
        input: Input,
        now: u64,
        enemy_timer: bool,
        player_timer: bool,
        x: i64,
        draws: &Vec<(i64, i64)>,
        fire: bool,
    ) -> (died: bool)
        requires
            old(self).wf(),
            old(self).next_id + 4 + ENEMY_MAX <= u64::MAX,
            -old(self).win.half_w() <= x <= old(self).win.half_w(),
            draws@.len() >= old(self).entities@.len() + 4,
            steer_draws_ok(draws@),
        ensures
            final(self).wf(),
            final(self).win == old(self).win,
            (final(self).model(), died) == after_tick(
                old(self).model(), old(self).win, input, now, enemy_timer, player_timer, x, draws@, fire,
            ),
            tick_laws(*final(self), now, died),
    {
        self.tick_actions(input, now, enemy_timer, player_timer, x, draws, fire);
        self.tick_movement();
        self.tick_kills();
        let died = self.tick_death(now);
        self.tick_finish(now, died);
        died
    }

    /// One simulation tick, drawing the enemy spawn position, the enemy
    /// steering and the enemy fire decision at random. Returns whether the
    /// player died.
    pub fn tick(&mut self, input: Input, now: u64, enemy_timer: bool, player_timer: bool) -> (died: bool)
        requires
            old(self).wf(),
            old(self).next_id + 4 + ENEMY_MAX <= u64::MAX,
            old(self).entities@.len() + 4 <= usize::MAX,
        ensures
            final(self).wf(),
            final(self).win == old(self).win,
            exists|x: i64, draws: Seq<(i64, i64)>, fire: bool| {
                &&& -old(self).win.half_w() <= x <= old(self).win.half_w()
                &&& steer_draws_ok(draws)
                &&& (final(self).model(), died) == #[trigger] after_tick(
                    old(self).model(), old(self).win, input, now, enemy_timer, player_timer, x, draws, fire,
                )
            },
            tick_laws(*final(self), now, died),
    {
        let ghost m0 = self.model();
        let ghost win = self.win;
        let (hw, _, _) = arena_bounds(self.win);
        let x = if enemy_timer && self.enemy_count.0 < ENEMY_MAX {
            crate::random::random_range(-hw, hw)
        } else {
            0
        };
        let draws = draw_steering(self.entities.len() + 4);
        let fire = World::enemy_fire_criteria();
        let died = self.tick_with(input, now, enemy_timer, player_timer, x, &draws, fire);
        assert(-win.half_w() <= x <= win.half_w() && steer_draws_ok(draws@)
            && (self.model(), died) == after_tick(m0, win, input, now, enemy_timer, player_timer, x, draws@, fire));
        died
    }
}

} // verus!
