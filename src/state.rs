//! Session-wide state: arena size, player lifecycle, enemy population, score
//! and the per-tick input.
use vstd::prelude::*;
use crate::config::{ARENA_MAX, ARENA_MIN_H, ARENA_MIN_W, PLAYER_RESPAWN_MS};

verus! {

/// Arena width and height in sub-units, centred on the origin.
#[derive(Clone, Copy, Debug, PartialEq, Eq, Structural)]
pub struct WinSize {
    pub w: u32,
    pub h: u32,
}

impl WinSize {
    /// Sizes for which every clamping region is non-empty.
    pub open spec fn wf(self) -> bool {
        ARENA_MIN_W <= self.w <= ARENA_MAX && ARENA_MIN_H <= self.h <= ARENA_MAX
    }

    pub open spec fn half_w(self) -> int {
        self.w as int / 2
    }

    pub open spec fn half_h(self) -> int {
        self.h as int / 2
    }

    /// The highest the player may go: a quarter of the height below the centre.
    pub open spec fn player_top(self) -> int {
        -(self.h as int / 4)
    }

    /// An arena of the given size, if it is within the supported bounds.
    pub fn new(w: u32, h: u32) -> (r: Option<WinSize>)
        ensures
            r == (if (WinSize { w, h }).wf() { Some(WinSize { w, h }) } else { None::<WinSize> }),
    {
        if ARENA_MIN_W <= w && w <= ARENA_MAX && ARENA_MIN_H <= h && h <= ARENA_MAX {
            Some(WinSize { w, h })
        } else {
            None
        }
    }
}

/// Lifecycle of the player: alive (`on`) or dead, and the time of the last
/// death, `None` when the player has never died since it last spawned.
#[derive(Clone, Copy, Debug, PartialEq, Eq, Structural)]
pub struct PlayerState {
    pub on: bool,
    pub last_shot: Option<u64>,
}

/// Whether a dead player may respawn at `now`.
pub open spec fn respawn_due(last_shot: Option<u64>, now: u64) -> bool {
    match last_shot {
        None => true,
        Some(t) => now >= t + PLAYER_RESPAWN_MS,
    }
}

impl Default for PlayerState {
    fn default() -> (r: Self)
        ensures
            r == (PlayerState { on: false, last_shot: None }),
    {
        PlayerState { on: false, last_shot: None }
    }
}

impl PlayerState {
    /// Records the player's death at `time`.
    pub fn shot(&mut self, time: u64)
        ensures
            *final(self) == (PlayerState { on: false, last_shot: Some(time) }),
    {
        self.last_shot = Some(time);
        self.on = false;
    }

    /// Records that the player has spawned.
    pub fn spawned(&mut self)
        ensures
            *final(self) == (PlayerState { on: true, last_shot: None }),
    {
        self.on = true;
        self.last_shot = None;
    }

    /// Whether a dead player may respawn at `now`.
    pub fn can_respawn(&self, now: u64) -> (r: bool)
        ensures
            r == (!self.on && respawn_due(self.last_shot, now)),
    {
        if self.on {
            return false;
        }
        match self.last_shot {
            None => true,
            Some(t) => now >= t && now - t >= PLAYER_RESPAWN_MS,
        }
    }
}

/// Number of live enemies.
#[derive(Clone, Copy, Debug, PartialEq, Eq, Structural)]
pub struct EnemyCount(pub u32);

/// The player's score: one point per enemy killed, back to zero on death.
#[derive(Clone, Copy, Debug, PartialEq, Eq, Structural)]
pub struct Score(pub u64);

/// The keys held this tick, and whether fire was just pressed.
#[derive(Clone, Copy, Debug, PartialEq, Eq, Structural)]
pub struct Input {
    pub left: bool,
    pub right: bool,
    pub up: bool,
    pub down: bool,
    pub fire: bool,
}

} // verus!
