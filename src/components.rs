//! The data attached to each simulated entity.
use vstd::prelude::*;
use crate::config::{ENEMY_BULLET_HALF, ENEMY_HALF, PLAYER_BULLET_HALF, PLAYER_HALF};
use crate::geometry::Point;

verus! {

/// Velocity, in sub-units per tick on each axis.
#[derive(Clone, Copy, Debug, PartialEq, Eq, Structural)]
pub struct Speed {
    pub x: i64,
    pub y: i64,
}

/// Boundary policy of an entity: removed once it leaves the arena (`despawn`),
/// clamped to the player's region (`player`), clamped to the arena (`enemy`),
/// or, with none of them set, left free.
#[derive(Clone, Copy, Debug, PartialEq, Eq, Structural)]
pub struct Movable {
    pub despawn: bool,
    pub player: bool,
    pub enemy: bool,
}

/// Tag of a projectile.
#[derive(Clone, Copy, Debug, PartialEq, Eq, Structural)]
pub struct Bullet;

/// Half extents of an entity's bounding box.
#[derive(Clone, Copy, Debug, PartialEq, Eq, Structural)]
pub struct SpriteSize(pub Point);

/// Tag of the player's ship.
#[derive(Clone, Copy, Debug, PartialEq, Eq, Structural)]
pub struct Player;

/// Faction tag of a bullet fired by the player.
#[derive(Clone, Copy, Debug, PartialEq, Eq, Structural)]
pub struct FromPlayer;

/// Tag of an enemy ship.
#[derive(Clone, Copy, Debug, PartialEq, Eq, Structural)]
pub struct Enemy;

/// Faction tag of a bullet fired by an enemy.
#[derive(Clone, Copy, Debug, PartialEq, Eq, Structural)]
pub struct FromEnemy;

/// One simulated actor: its identifier, transform, velocity, size, boundary
/// policy and role tags. `despawned` marks it for removal at the end of the tick.
#[derive(Clone, Copy, Debug, PartialEq, Eq, Structural)]
pub struct Entity {
    pub id: u64,
    pub pos: Point,
    pub speed: Speed,
    pub size: SpriteSize,
    pub movable: Movable,
    pub player: Option<Player>,
    pub enemy: Option<Enemy>,
    pub bullet: Option<Bullet>,
    pub from_player: Option<FromPlayer>,
    pub from_enemy: Option<FromEnemy>,
    pub despawned: bool,
}


/// A freshly spawned player ship, at rest.
pub open spec fn player_template(id: u64, pos: Point) -> Entity {
    Entity {
        id,
        pos,
        speed: Speed { x: 0, y: 0 },
        size: SpriteSize(Point { x: PLAYER_HALF, y: PLAYER_HALF }),
        movable: Movable { despawn: false, player: true, enemy: false },
        player: Some(Player),
        enemy: None,
        bullet: None,
        from_player: None,
        from_enemy: None,
        despawned: false,
    }
}

/// A freshly spawned enemy ship, at rest.
pub open spec fn enemy_template(id: u64, pos: Point) -> Entity {
    Entity {
        id,
        pos,
        speed: Speed { x: 0, y: 0 },
        size: SpriteSize(Point { x: ENEMY_HALF, y: ENEMY_HALF }),
        movable: Movable { despawn: false, player: false, enemy: true },
        player: None,
        enemy: Some(Enemy),
        bullet: None,
        from_player: None,
        from_enemy: None,
        despawned: false,
    }
}

/// A bullet of the given faction and size with the given speed.
pub open spec fn bullet_template(id: u64, pos: Point, speed: Speed, half: i64, from_player: bool) -> Entity {
    Entity {
        id,
        pos,
        speed,
        size: SpriteSize(Point { x: half, y: half }),
        movable: Movable { despawn: true, player: false, enemy: false },
        player: None,
        enemy: None,
        bullet: Some(Bullet),
        from_player: if from_player { Some(FromPlayer) } else { None },
        from_enemy: if from_player { None } else { Some(FromEnemy) },
        despawned: false,
    }
}

/// A player bullet flying upward.
pub open spec fn player_bullet_template(id: u64, pos: Point) -> Entity {
    bullet_template(id, pos, Speed { x: 0, y: crate::config::PLAYER_BULLET_SPEED }, PLAYER_BULLET_HALF, true)
}

/// An enemy bullet flying downward.
pub open spec fn enemy_bullet_template(id: u64, pos: Point) -> Entity {
    bullet_template(id, pos, Speed { x: 0, y: (-crate::config::ENEMY_BULLET_SPEED) as i64 }, ENEMY_BULLET_HALF, false)
}

impl Entity {
    pub open spec fn is_player(self) -> bool {
        self.player is Some
    }

    pub open spec fn is_enemy(self) -> bool {
        self.enemy is Some
    }

    pub open spec fn is_player_bullet(self) -> bool {
        self.bullet is Some && self.from_player is Some
    }

    pub open spec fn is_enemy_bullet(self) -> bool {
        self.bullet is Some && self.from_enemy is Some
    }

    pub open spec fn live_player(self) -> bool {
        !self.despawned && self.is_player()
    }

    pub open spec fn live_enemy(self) -> bool {
        !self.despawned && self.is_enemy()
    }

    pub open spec fn live_player_bullet(self) -> bool {
        !self.despawned && self.is_player_bullet()
    }

    pub open spec fn live_enemy_bullet(self) -> bool {
        !self.despawned && self.is_enemy_bullet()
    }

    /// The same entity, marked for removal.
    pub open spec fn marked(self) -> Entity {
        Entity { despawned: true, ..self }
    }

    /// A new player ship at `pos`.
    pub fn new_player(id: u64, pos: Point) -> (r: Entity)
        ensures
            r == player_template(id, pos),
    {
        Entity {
            id,
            pos,
            speed: Speed { x: 0, y: 0 },
            size: SpriteSize(Point { x: PLAYER_HALF, y: PLAYER_HALF }),
            movable: Movable { despawn: false, player: true, enemy: false },
            player: Some(Player),
            enemy: None,
            bullet: None,
            from_player: None,
            from_enemy: None,
            despawned: false,
        }
    }

    /// A new enemy ship at `pos`.
    pub fn new_enemy(id: u64, pos: Point) -> (r: Entity)
        ensures
            r == enemy_template(id, pos),
    {
        Entity {
            id,
            pos,
            speed: Speed { x: 0, y: 0 },
            size: SpriteSize(Point { x: ENEMY_HALF, y: ENEMY_HALF }),
            movable: Movable { despawn: false, player: false, enemy: true },
            player: None,
            enemy: Some(Enemy),
            bullet: None,
            from_player: None,
            from_enemy: None,
            despawned: false,
        }
    }

    /// A new player bullet at `pos`.
    pub fn new_player_bullet(id: u64, pos: Point) -> (r: Entity)
        ensures
            r == player_bullet_template(id, pos),
    {
        Entity {
            id,
            pos,
            speed: Speed { x: 0, y: crate::config::PLAYER_BULLET_SPEED },
            size: SpriteSize(Point { x: PLAYER_BULLET_HALF, y: PLAYER_BULLET_HALF }),
            movable: Movable { despawn: true, player: false, enemy: false },
            player: None,
            enemy: None,
            bullet: Some(Bullet),
            from_player: Some(FromPlayer),
            from_enemy: None,
            despawned: false,
        }
    }

    /// A new enemy bullet at `pos`.
    pub fn new_enemy_bullet(id: u64, pos: Point) -> (r: Entity)
        ensures
            r == enemy_bullet_template(id, pos),
    {
        Entity {
            id,
            pos,
            speed: Speed { x: 0, y: -crate::config::ENEMY_BULLET_SPEED },
            size: SpriteSize(Point { x: ENEMY_BULLET_HALF, y: ENEMY_BULLET_HALF }),
            movable: Movable { despawn: true, player: false, enemy: false },
            player: None,
            enemy: None,
            bullet: Some(Bullet),
            from_player: None,
            from_enemy: Some(FromEnemy),
            despawned: false,
        }
    }

    /// Whether this entity is a live player ship.
    pub fn is_live_player(&self) -> (r: bool)
        ensures
            r == self.live_player(),
    {
        !self.despawned && self.player.is_some()
    }

    /// Whether this entity is a live enemy ship.
    pub fn is_live_enemy(&self) -> (r: bool)
        ensures
            r == self.live_enemy(),
    {
        !self.despawned && self.enemy.is_some()
    }

    /// Whether this entity is a live bullet of the player.
    pub fn is_live_player_bullet(&self) -> (r: bool)
        ensures
            r == self.live_player_bullet(),
    {
        !self.despawned && self.bullet.is_some() && self.from_player.is_some()
    }

    /// Whether this entity is a live bullet of an enemy.
    pub fn is_live_enemy_bullet(&self) -> (r: bool)
        ensures
            r == self.live_enemy_bullet(),
    {
        !self.despawned && self.bullet.is_some() && self.from_enemy.is_some()
    }
}

} // verus!
