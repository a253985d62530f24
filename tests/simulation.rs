use galaga::components::{Entity, Speed};
use galaga::config::{ENEMY_MAX, ENEMY_SPEED_RANGE, SUBUNITS};
use galaga::geometry::{collide, Point};
use galaga::state::{Input, PlayerState, WinSize};
use galaga::world::World;
use std::collections::HashSet;

fn u(n: i64) -> i64 {
    n * SUBUNITS
}

fn arena() -> World {
    World::new(WinSize::new(400 * 60, 1000 * 60).unwrap())
}

fn no_keys() -> Input {
    Input { left: false, right: false, up: false, down: false, fire: false }
}

fn push(w: &mut World, make: fn(u64, Point) -> Entity, x: i64, y: i64) -> u64 {
    let id = w.next_id;
    w.entities.push(make(id, Point { x, y }));
    w.next_id += 1;
    id
}

#[test]
fn bullet_past_margin_is_removed_on_next_movement() {
    let mut w = arena();
    push(&mut w, Entity::new_player_bullet, 0, u(512));
    w.movement();
    assert!(w.entities[0].despawned);
    w.cleanup();
    assert!(w.entities.is_empty());
}

#[test]
fn bullet_inside_margin_stays() {
    let mut w = arena();
    push(&mut w, Entity::new_enemy_bullet, 0, u(-500));
    w.movement();
    assert_eq!(w.entities[0].pos, Point { x: 0, y: u(-500) - 500 });
    assert!(!w.entities[0].despawned);
    w.movement();
    assert!(w.entities[0].despawned);
}

#[test]
fn enemy_spawn_at_cap_is_no_op() {
    let mut w = arena();
    assert_eq!(ENEMY_MAX, 3);
    w.spawn_enemy_at(0);
    w.spawn_enemy_at(u(50));
    w.spawn_enemy_at(u(-50));
    assert_eq!(w.enemy_count.0, 3);
    assert_eq!(w.entities.len(), 3);
    w.spawn_enemy_at(u(100));
    w.enemy_spawn();
    assert_eq!(w.enemy_count.0, 3);
    assert_eq!(w.entities.len(), 3);
}

#[test]
fn enemy_spawns_on_top_edge() {
    let mut w = arena();
    w.spawn_enemy_at(u(-30));
    let e = w.entities[0];
    assert_eq!(e.pos, Point { x: u(-30), y: u(500) - u(20) });
    assert_eq!(e.speed, Speed { x: 0, y: 0 });
    assert!(e.enemy.is_some());
    assert_eq!(w.enemy_count.0, 1);
}

#[test]
fn random_enemy_spawn_lands_inside_top_edge() {
    let mut seen = HashSet::new();
    for _ in 0..50 {
        let mut w = arena();
        w.enemy_spawn();
        assert_eq!(w.entities.len(), 1);
        let e = w.entities[0];
        assert!(e.pos.x >= u(-200) && e.pos.x < u(200));
        assert_eq!(e.pos.y, u(480));
        seen.insert(e.pos.x);
    }
    assert!(seen.len() > 1);
}

#[test]
fn player_bullet_kills_enemy() {
    let mut w = arena();
    push(&mut w, Entity::new_player_bullet, u(100), u(200));
    push(&mut w, Entity::new_enemy, u(100), u(200));
    w.enemy_count.0 = 1;
    assert_eq!(w.entities[0].size.0, Point { x: 90, y: 90 });
    assert_eq!(w.entities[1].size.0, Point { x: u(15), y: u(15) });
    w.player_hit_enemy();
    assert!(w.entities[0].despawned && w.entities[1].despawned);
    assert_eq!(w.score.0, 1);
    assert_eq!(w.enemy_count.0, 0);
    w.cleanup();
    assert!(w.entities.is_empty());
}

#[test]
fn one_bullet_kills_only_first_enemy() {
    let mut w = arena();
    push(&mut w, Entity::new_player_bullet, 0, 0);
    push(&mut w, Entity::new_enemy, u(10), 0);
    push(&mut w, Entity::new_enemy, u(-10), 0);
    w.enemy_count.0 = 2;
    w.player_hit_enemy();
    assert!(w.entities[1].despawned);
    assert!(!w.entities[2].despawned);
    assert_eq!(w.score.0, 1);
    assert_eq!(w.enemy_count.0, 1);
}

#[test]
fn player_death_and_respawn_cooldown() {
    let mut w = arena();
    w.player_spawn(0);
    assert!(w.player_state.on);
    assert_eq!(w.entities[0].pos, Point { x: 0, y: u(-480) });
    w.score.0 = 7;
    let mut keys = no_keys();
    keys.fire = true;
    w.player_fire_input(keys);
    assert_eq!(w.entities.len(), 3);
    push(&mut w, Entity::new_enemy_bullet, u(5), u(-470));
    w.enemy_hit_player(10_000);
    assert_eq!(w.score.0, 0);
    assert_eq!(w.player_state, PlayerState { on: false, last_shot: Some(10_000) });
    assert!(w.entities.iter().all(|e| e.despawned));
    w.cleanup();
    assert!(w.entities.is_empty());
    w.player_spawn(10_100);
    assert!(w.entities.is_empty());
    assert!(!w.player_state.on);
    w.player_spawn(12_100);
    assert_eq!(w.entities.len(), 1);
    assert!(w.entities[0].player.is_some());
    assert_eq!(w.entities[0].pos, Point { x: 0, y: u(-480) });
    assert_eq!(w.player_state, PlayerState { on: true, last_shot: None });
}

#[test]
fn enemy_bullet_that_misses_changes_nothing() {
    let mut w = arena();
    w.player_spawn(0);
    push(&mut w, Entity::new_enemy_bullet, u(100), u(-480));
    w.score.0 = 4;
    w.enemy_hit_player(500);
    assert_eq!(w.score.0, 4);
    assert!(w.player_state.on);
    assert!(w.entities.iter().all(|e| !e.despawned));
}

#[test]
fn respawn_while_alive_is_no_op() {
    let mut w = arena();
    w.player_spawn(0);
    let before = w.entities.clone();
    w.player_spawn(100_000);
    assert_eq!(w.entities, before);
    assert_eq!(w.player_state, PlayerState { on: true, last_shot: None });
}

#[test]
fn respawn_cooldown_boundary() {
    let s = PlayerState { on: false, last_shot: Some(1000) };
    assert!(!s.can_respawn(2999));
    assert!(s.can_respawn(3000));
    assert!(PlayerState::default().can_respawn(0));
}

#[test]
fn player_state_transitions() {
    let mut s = PlayerState::default();
    assert_eq!(s, PlayerState { on: false, last_shot: None });
    s.spawned();
    assert_eq!(s, PlayerState { on: true, last_shot: None });
    s.shot(42);
    assert_eq!(s, PlayerState { on: false, last_shot: Some(42) });
}

#[test]
fn player_clamped_below_quarter_line_and_walls() {
    let mut w = arena();
    w.player_spawn(0);
    w.entities[0].pos = Point { x: u(-180), y: u(-255) };
    let keys = Input { left: true, right: true, up: true, down: false, fire: false };
    w.player_movement_input(keys);
    assert_eq!(w.entities[0].speed, Speed { x: -500, y: 500 });
    w.movement();
    assert_eq!(w.entities[0].pos, Point { x: u(-180), y: u(-250) });
    w.movement();
    assert_eq!(w.entities[0].pos, Point { x: u(-180), y: u(-250) });
}

#[test]
fn player_moves_by_speed() {
    let mut w = arena();
    w.player_spawn(0);
    let keys = Input { left: false, right: true, up: false, down: true, fire: false };
    w.player_movement_input(keys);
    assert_eq!(w.entities[0].speed, Speed { x: 500, y: -500 });
    w.movement();
    assert_eq!(w.entities[0].pos, Point { x: 500, y: u(-480) });
}

#[test]
fn enemy_clamped_to_arena() {
    let mut w = arena();
    w.spawn_enemy_at(u(199));
    w.entities[0].speed = Speed { x: 700, y: 700 };
    w.movement();
    assert_eq!(w.entities[0].pos, Point { x: u(180), y: u(480) });
}

#[test]
fn fire_spawns_two_bullets_at_muzzles() {
    let mut w = arena();
    w.player_spawn(0);
    let mut keys = no_keys();
    w.player_fire_input(keys);
    assert_eq!(w.entities.len(), 1);
    keys.fire = true;
    w.player_fire_input(keys);
    assert_eq!(w.entities.len(), 3);
    assert_eq!(w.entities[1].pos, Point { x: u(10), y: u(-460) });
    assert_eq!(w.entities[2].pos, Point { x: u(-10), y: u(-460) });
    assert_eq!(w.entities[1].speed, Speed { x: 0, y: 1000 });
    assert!(w.entities[1].from_player.is_some() && w.entities[1].bullet.is_some());
    assert_eq!((w.entities[1].id, w.entities[2].id), (1, 2));
}

#[test]
fn fire_without_player_does_nothing() {
    let mut w = arena();
    let mut keys = no_keys();
    keys.fire = true;
    w.player_fire_input(keys);
    assert!(w.entities.is_empty());
}

#[test]
fn enemies_fire_one_bullet_each() {
    let mut w = arena();
    w.spawn_enemy_at(u(-50));
    w.spawn_enemy_at(u(60));
    w.enemy_fire();
    assert_eq!(w.entities.len(), 4);
    assert_eq!(w.entities[2].pos, Point { x: u(-50), y: u(460) });
    assert_eq!(w.entities[3].pos, Point { x: u(60), y: u(460) });
    assert_eq!(w.entities[3].speed, Speed { x: 0, y: -500 });
    assert!(w.entities[2].from_enemy.is_some());
    assert_eq!(w.next_id, 4);
}

#[test]
fn overlapping_enemies_bounce() {
    let mut w = arena();
    w.spawn_enemy_at(0);
    w.spawn_enemy_at(u(20));
    w.spawn_enemy_at(u(-150));
    w.entities[0].speed = Speed { x: 100, y: -200 };
    w.entities[1].speed = Speed { x: -300, y: 400 };
    w.entities[2].speed = Speed { x: 5, y: 6 };
    w.enemy_collide();
    assert_eq!(w.entities[0].speed, Speed { x: -100, y: 200 });
    assert_eq!(w.entities[1].speed, Speed { x: 300, y: -400 });
    assert_eq!(w.entities[2].speed, Speed { x: 5, y: 6 });
}

#[test]
fn enemy_steering_stays_in_range() {
    let mut w = arena();
    w.spawn_enemy_at(0);
    w.spawn_enemy_at(u(100));
    let mut seen = HashSet::new();
    for _ in 0..20 {
        w.enemy_movement();
        for e in w.entities.iter() {
            seen.insert((e.speed.x, e.speed.y));
            assert!(e.speed.x >= -ENEMY_SPEED_RANGE && e.speed.x < ENEMY_SPEED_RANGE);
            assert!(e.speed.y >= -ENEMY_SPEED_RANGE && e.speed.y < ENEMY_SPEED_RANGE);
        }
    }
    assert!(seen.len() > 1);
}

#[test]
fn enemies_fire_now_and_then() {
    let fired = (0..6000).filter(|_| World::enemy_fire_criteria()).count();
    assert!(fired > 0 && fired < 1000);
}

#[test]
fn overlap_is_strict() {
    let h = Point { x: 10, y: 10 };
    assert!(collide(Point { x: 0, y: 0 }, h, Point { x: 19, y: 19 }, h));
    assert!(!collide(Point { x: 0, y: 0 }, h, Point { x: 20, y: 0 }, h));
    assert!(!collide(Point { x: 0, y: -20 }, h, Point { x: 0, y: 0 }, h));
}

#[test]
fn arena_size_bounds() {
    assert!(WinSize::new(2400, 4800).is_some());
    assert!(WinSize::new(2399, 4800).is_none());
    assert!(WinSize::new(2400, 4799).is_none());
    assert!(WinSize::new(1_000_000_001, 4800).is_none());
}

#[test]
fn ticks_keep_population_and_bullets_in_bounds() {
    let mut w = arena();
    let mut keys = no_keys();
    let mut now: u64 = 0;
    for t in 0..600u64 {
        keys.fire = t % 7 == 0;
        keys.left = t % 50 < 25;
        keys.right = !keys.left;
        keys.up = t % 3 == 0;
        let died = w.tick(keys, now, t % 30 == 0, t % 30 == 0);
        assert!(w.enemy_count.0 <= ENEMY_MAX);
        let live = w.entities.iter().filter(|e| e.enemy.is_some()).count();
        assert_eq!(live as u32, w.enemy_count.0);
        for e in w.entities.iter() {
            assert!(!e.despawned);
            if e.bullet.is_some() {
                assert!(e.pos.y.abs() <= u(510) && e.pos.x.abs() <= u(210));
            }
            if e.player.is_some() {
                assert!(e.pos.y <= u(-250));
            }
        }
        if died {
            assert_eq!(w.score.0, 0);
            assert!(w.entities.iter().all(|e| e.from_player.is_none() && e.player.is_none()));
        }
        now += 16;
    }
}

#[test]
fn steering_takes_the_drawn_speeds() {
    let mut w = arena();
    w.spawn_enemy_at(0);
    w.player_spawn(0);
    w.spawn_enemy_at(u(100));
    w.steer_enemies(&vec![(100, -200), (300, 400), (-700, 699)]);
    assert_eq!(w.entities[0].speed, Speed { x: 100, y: -200 });
    assert_eq!(w.entities[1].speed, Speed { x: 0, y: 0 });
    assert_eq!(w.entities[2].speed, Speed { x: -700, y: 699 });
}

#[test]
fn tick_with_given_draws() {
    let mut w = arena();
    let draws = vec![(0, 0); 8];
    let died = w.tick_with(no_keys(), 0, true, true, u(50), &draws, false);
    assert!(!died);
    assert_eq!(w.entities.len(), 2);
    assert_eq!(w.entities[0].pos, Point { x: u(50), y: u(480) });
    assert_eq!(w.entities[1].pos, Point { x: 0, y: u(-480) });
    assert_eq!(w.enemy_count.0, 1);
    let draws = vec![(-600, 0); 8];
    let mut keys = no_keys();
    keys.fire = true;
    keys.right = true;
    let died = w.tick_with(keys, 16, false, false, 0, &draws, true);
    assert!(!died);
    // enemy moved left, player moved right, two player bullets and one enemy bullet moved
    assert_eq!(w.entities[0].pos, Point { x: u(40), y: u(480) });
    assert_eq!(w.entities[0].speed, Speed { x: -600, y: 0 });
    assert_eq!(w.entities[1].pos, Point { x: 500, y: u(-480) });
    assert_eq!(w.entities.len(), 5);
    assert_eq!(w.entities[2].pos, Point { x: u(10), y: u(-460) + 1000 });
    assert_eq!(w.entities[4].pos, Point { x: u(40) + 600, y: u(460) - 500 });
}

#[test]
fn tick_with_records_death() {
    let mut w = arena();
    w.player_spawn(0);
    w.score.0 = 3;
    push(&mut w, Entity::new_enemy_bullet, 0, u(-470));
    let draws = vec![(0, 0); 8];
    let died = w.tick_with(no_keys(), 5000, false, false, 0, &draws, false);
    assert!(died);
    assert_eq!(w.score.0, 0);
    assert!(w.entities.is_empty());
    assert_eq!(w.player_state, PlayerState { on: false, last_shot: Some(5000) });
}
