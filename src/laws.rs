//! General facts about the phases of a tick, stated over the model.
use vstd::prelude::*;
use crate::components::{Entity, Movable};
use crate::config::ENEMY_MAX;
use crate::movement::moved;
use crate::state::WinSize;
use crate::tick::{death_step, enemy_spawn_step, player_spawn_step, Model};
use crate::world::in_player_region;

verus! {

/// The enemy spawn timer never takes the population past its cap, and never
/// lowers it.
pub proof fn lemma_spawn_keeps_cap(m: Model, win: WinSize, x: i64)
    requires
        0 <= m.enemy_count <= ENEMY_MAX,
    ensures
        m.enemy_count <= enemy_spawn_step(m, win, x).enemy_count <= ENEMY_MAX,
{
}

/// The respawn check leaves a live player's state as it is, and running it
/// twice in a row does no more than running it once.
pub proof fn lemma_respawn_idempotent(m: Model, win: WinSize, now: u64)
    ensures
        m.player_state.on ==> player_spawn_step(m, win, now) == m,
        player_spawn_step(player_spawn_step(m, win, now), win, now) == player_spawn_step(m, win, now),
{
}

/// A player ship that moves, from anywhere and at any speed, ends inside the
/// walls less its inset and no higher than a quarter of the arena height below
/// the centre.
pub proof fn lemma_player_confined(e: Entity, win: WinSize)
    requires
        win.wf(),
        !e.despawned,
        e.movable == (Movable { despawn: false, player: true, enemy: false }),
        i64::MIN <= e.pos.x + e.speed.x <= i64::MAX,
        i64::MIN <= e.pos.y + e.speed.y <= i64::MAX,
    ensures
        in_player_region(moved(e, win).pos, win),
{
    assert(win.half_h() - (win.h as int / 4) >= 1200) by (nonlinear_arith)
        requires win.h >= 4800;
}

/// A death resets the score to zero and leaves no live player bullet.
pub proof fn lemma_death_resets(m: Model, now: u64)
    ensures
        death_step(m, now).1 ==> {
            let r = death_step(m, now).0;
            &&& r.score == 0
            &&& !r.player_state.on
            &&& r.player_state.last_shot == Some(now)
            &&& forall|i: int| 0 <= i < r.entities.len() ==> !(#[trigger] r.entities[i]).live_player_bullet()
        },
{
}

} // verus!
