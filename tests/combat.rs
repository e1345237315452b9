use arcade_shooter::geometry::Point;
use arcade_shooter::rolls::SpawnRoll;
use arcade_shooter::weapons::{create_bullet, spawn_enemy};
use arcade_shooter::world::{apply_damage, Bullet, Enemy, GameState, Tint, World};

fn running_world() -> World {
    let mut w = World::new();
    w.apply_state_transition();
    assert_eq!(w.state, GameState::Running);
    w
}

fn enemy_at(x: i64, y: i64) -> Enemy {
    let roll = SpawnRoll { x: 0, cooldown: 0, upper: 0, lower: 0, rearm: 0 };
    let mut e = spawn_enemy(roll);
    e.pos = Point { x, y };
    e
}

fn bullet(x: i64, y: i64, damage: u32, hostile: bool) -> Bullet {
    let v = if hostile { -500_000 } else { 1_000_000 };
    create_bullet(Point { x, y }, v, damage, hostile)
}

#[test]
fn damage_stops_at_zero() {
    assert_eq!(apply_damage(5, 10), 0);
    assert_eq!(apply_damage(10, 10), 0);
    assert_eq!(apply_damage(3, u32::MAX), 0);
    assert_eq!(apply_damage(100, 10), 90);
    assert_eq!(apply_damage(0, 0), 0);
}

#[test]
fn hostile_bullet_hits_player() {
    let mut w = running_world();
    let p = w.player.unwrap();
    assert_eq!(p.pos, Point { x: 0, y: -350_000 });
    assert_eq!(p.hp, 100);
    w.bullets.push(bullet(0, -350_000, 10, true));
    w.check_for_collisions_player();
    assert!(w.bullets.is_empty());
    assert_eq!(w.hit_events, vec![10]);
    w.player_hit();
    let p = w.player.unwrap();
    assert_eq!(p.hp, 90);
    assert_eq!(p.tint, Tint::Hit);
    assert_eq!(w.hit_feedback.duration, 50_000);
    assert_eq!(w.hit_feedback.elapsed, 0);
    assert!(!w.hit_feedback.finished);
    assert!(w.hit_events.is_empty());
    assert_eq!(w.game_over_events, 0);
}

#[test]
fn hit_feedback_restores_tint() {
    let mut w = running_world();
    w.hit_events.push(10);
    w.player_hit();
    w.player_hit_feedback(10_000);
    assert_eq!(w.player.unwrap().tint, Tint::Hit);
    w.player_hit_feedback(40_000);
    assert_eq!(w.player.unwrap().tint, Tint::Normal);
}

#[test]
fn friendly_bullet_kills_enemy() {
    let mut w = running_world();
    w.enemies.push(enemy_at(0, 200_000));
    assert_eq!(w.enemies[0].hp, 10);
    w.bullets.push(bullet(0, 200_000, 10, false));
    w.check_for_collisions();
    assert!(w.enemies.is_empty());
    assert!(w.bullets.is_empty());
    assert_eq!(w.collision_events, 1);
    w.increase_score();
    assert_eq!(w.score, 10);
    assert_eq!(w.collision_events, 0);
}

#[test]
fn bullet_strikes_only_first_overlapping_enemy() {
    let mut w = running_world();
    w.enemies.push(enemy_at(0, 200_000));
    w.enemies.push(enemy_at(10_000, 210_000));
    w.bullets.push(bullet(5_000, 205_000, 4, false));
    w.check_for_collisions();
    assert_eq!(w.enemies.len(), 2);
    assert_eq!(w.enemies[0].hp, 6);
    assert_eq!(w.enemies[1].hp, 10);
    assert!(w.bullets.is_empty());
    assert_eq!(w.collision_events, 1);
}

#[test]
fn later_bullet_finds_next_enemy_after_kill() {
    let mut w = running_world();
    w.enemies.push(enemy_at(0, 200_000));
    w.enemies.push(enemy_at(10_000, 210_000));
    w.bullets.push(bullet(5_000, 205_000, 10, false));
    w.bullets.push(bullet(5_000, 205_000, 3, false));
    w.check_for_collisions();
    assert_eq!(w.enemies.len(), 1);
    assert_eq!(w.enemies[0].pos, Point { x: 10_000, y: 210_000 });
    assert_eq!(w.enemies[0].hp, 7);
    assert_eq!(w.collision_events, 2);
}

#[test]
fn hostile_bullets_spare_enemies() {
    let mut w = running_world();
    w.enemies.push(enemy_at(0, 200_000));
    w.bullets.push(bullet(0, 200_000, 10, true));
    w.check_for_collisions();
    assert_eq!(w.enemies.len(), 1);
    assert_eq!(w.enemies[0].hp, 10);
    assert_eq!(w.bullets.len(), 1);
    assert_eq!(w.collision_events, 0);
}

#[test]
fn friendly_bullets_spare_player() {
    let mut w = running_world();
    w.bullets.push(bullet(0, -350_000, 10, false));
    w.check_for_collisions_player();
    assert_eq!(w.bullets.len(), 1);
    assert!(w.hit_events.is_empty());
    w.player_hit();
    assert_eq!(w.player.unwrap().hp, 100);
    assert_eq!(w.player.unwrap().tint, Tint::Normal);
}

#[test]
fn bullet_misses_at_touching_edge() {
    let mut w = running_world();
    w.enemies.push(enemy_at(0, 200_000));
    w.bullets.push(bullet(30_000, 200_000, 10, false));
    w.bullets.push(bullet(29_999, 200_000, 1, false));
    w.check_for_collisions();
    assert_eq!(w.bullets.len(), 1);
    assert_eq!(w.bullets[0].pos.x, 30_000);
    assert_eq!(w.enemies[0].hp, 9);
}

#[test]
fn player_death_ends_round() {
    let mut w = running_world();
    w.player.as_mut().unwrap().hp = 10;
    w.hit_events.push(10);
    w.player_hit();
    assert_eq!(w.player.unwrap().hp, 0);
    assert_eq!(w.game_over_events, 1);
    w.game_over();
    assert!(w.player.is_none());
    assert!(!w.displays.score_text);
    assert!(w.displays.game_over_text);
    assert!(w.displays.restart_control);
    assert_eq!(w.game_over_events, 0);
}

#[test]
fn overkill_counts_each_zero_hit() {
    let mut w = running_world();
    w.player.as_mut().unwrap().hp = 15;
    w.hit_events.push(10);
    w.hit_events.push(10);
    w.hit_events.push(10);
    w.player_hit();
    assert_eq!(w.player.unwrap().hp, 0);
    assert_eq!(w.game_over_events, 2);
}

#[test]
fn score_adds_ten_per_collision() {
    let mut w = running_world();
    w.collision_events = 3;
    w.increase_score();
    assert_eq!(w.score, 30);
    w.score = u32::MAX - 5;
    w.collision_events = 1;
    w.increase_score();
    assert_eq!(w.score, u32::MAX);
}

#[test]
fn game_over_without_score_text() {
    let mut w = running_world();
    w.displays.score_text = false;
    w.game_over_events = 1;
    w.game_over();
    assert!(w.player.is_none());
    assert!(!w.displays.score_text);
    assert!(w.displays.game_over_text);
    assert!(w.displays.restart_control);
}
