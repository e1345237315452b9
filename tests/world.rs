use arcade_shooter::frame::{FrameDraws, FrameInput};
use arcade_shooter::geometry::{collide, isqrt, Point};
use arcade_shooter::motion::{displacement, steer, Keys};
use arcade_shooter::rolls::{SpawnRoll, UNIT};
use arcade_shooter::timer::Timer;
use arcade_shooter::weapons::{create_bullet, spawn_enemy};
use arcade_shooter::world::{new_player, GameState, Heading, Hostility, World};

fn running_world() -> World {
    let mut w = World::new();
    w.apply_state_transition();
    w
}

const NO_KEYS: Keys = Keys { left: false, right: false, up: false, down: false };

fn roll(x: u32, cooldown: u32, upper: u32, lower: u32, rearm: u32) -> SpawnRoll {
    SpawnRoll { x, cooldown, upper, lower, rearm }
}

#[test]
fn one_shot_timer_fires_once() {
    let mut t = Timer::from_micros(100, false);
    t.tick(60);
    assert!(!t.just_finished());
    assert_eq!(t.elapsed, 60);
    t.tick(60);
    assert!(t.just_finished());
    assert!(t.finished());
    assert_eq!(t.elapsed, 100);
    t.tick(500);
    assert!(!t.just_finished());
    assert!(t.finished());
    t.reset();
    assert_eq!(t.elapsed, 0);
    assert!(!t.finished());
    t.set_duration(30);
    t.tick(30);
    assert!(t.just_finished());
}

#[test]
fn repeating_timer_wraps() {
    let mut t = Timer::from_micros(100, true);
    t.tick(250);
    assert!(t.just_finished());
    assert_eq!(t.elapsed, 50);
    t.tick(20);
    assert!(!t.just_finished());
    assert_eq!(t.elapsed, 70);
}

#[test]
fn zero_duration_timer_fires_at_once() {
    let mut t = Timer::from_micros(0, false);
    t.tick(0);
    assert!(t.just_finished());
}

#[test]
fn new_world_starts_round_on_first_transition() {
    let mut w = World::new();
    assert_eq!(w.state, GameState::Restarting);
    assert_eq!(w.next_state, Some(GameState::Running));
    assert!(w.player.is_none());
    w.apply_state_transition();
    assert_eq!(w.state, GameState::Running);
    assert_eq!(w.next_state, None);
    assert_eq!(w.player, Some(new_player()));
    assert!(w.displays.camera);
    assert!(w.displays.score_text);
    assert_eq!(w.spawn_timer.duration, 2_000_000);
}

#[test]
fn restart_resets_the_round() {
    let mut w = running_world();
    w.score = 120;
    w.enemies.push(spawn_enemy(roll(1, 2, 3, 4, 5)));
    w.bullets.push(create_bullet(Point { x: 0, y: 0 }, 1_000_000, 10, false));
    w.player.as_mut().unwrap().hp = 40;
    w.restart_button(false);
    assert_eq!(w.next_state, None);
    w.restart_button(true);
    assert_eq!(w.next_state, Some(GameState::Restarting));
    w.apply_state_transition();
    assert_eq!(w.state, GameState::Restarting);
    assert_eq!(w.score, 0);
    assert!(w.player.is_none());
    assert!(!w.displays.camera);
    w.apply_state_transition();
    assert_eq!(w.state, GameState::Running);
    assert_eq!(w.score, 0);
    assert!(w.enemies.is_empty());
    assert!(w.bullets.is_empty());
    let p = w.player.unwrap();
    assert_eq!(p.hp, 100);
    assert_eq!(p.pos, Point { x: 0, y: -350_000 });
}

#[test]
fn same_state_request_is_dropped() {
    let mut w = running_world();
    w.score = 7;
    w.next_state = Some(GameState::Running);
    w.apply_state_transition();
    assert_eq!(w.next_state, None);
    assert_eq!(w.score, 7);
}

#[test]
fn integer_square_root() {
    assert_eq!(isqrt(0), 0);
    assert_eq!(isqrt(1), 1);
    assert_eq!(isqrt(15), 3);
    assert_eq!(isqrt(16), 4);
    assert_eq!(isqrt(180_000_000_000), 424_264);
    assert_eq!(isqrt(u64::MAX), 4_294_967_295);
}

#[test]
fn player_moves_by_keys() {
    let right = Keys { right: true, ..NO_KEYS };
    assert_eq!(displacement(right, 1_000_000), (600_000, 0));
    assert_eq!(displacement(right, 16_000), (9_600, 0));
    let diag = Keys { left: true, up: true, ..NO_KEYS };
    assert_eq!(displacement(diag, 1_000_000), (-424_264, 424_264));
    let opposed = Keys { left: true, right: true, down: true, ..NO_KEYS };
    assert_eq!(displacement(opposed, 1_000_000), (0, -600_000));
    assert_eq!(displacement(NO_KEYS, 1_000_000), (0, 0));
    let mut w = running_world();
    w.move_player(diag, 1_000_000);
    assert_eq!(w.player.unwrap().pos, Point { x: -424_264, y: 74_264 });
}

#[test]
fn player_is_held_on_screen() {
    let mut w = running_world();
    w.player.as_mut().unwrap().pos = Point { x: 400_000, y: -500_000 };
    w.limit_player_bounds();
    assert_eq!(w.player.unwrap().pos, Point { x: 275_000, y: -375_000 });
    w.player.as_mut().unwrap().pos = Point { x: -276_000, y: 10 };
    w.limit_player_bounds();
    assert_eq!(w.player.unwrap().pos, Point { x: -275_000, y: 10 });
}

#[test]
fn bullets_fly_and_leave() {
    let mut w = running_world();
    w.bullets.push(create_bullet(Point { x: 0, y: 0 }, 1_000_000, 10, false));
    w.bullets.push(create_bullet(Point { x: 0, y: 0 }, -500_000, 10, true));
    w.move_bullets(100_000);
    assert_eq!(w.bullets[0].pos.y, 100_000);
    assert_eq!(w.bullets[1].pos.y, -50_000);
    w.move_bullets(500_000);
    assert_eq!(w.bullets[0].pos.y, 600_000);
    assert_eq!(w.bullets[1].pos.y, -300_000);
    w.remove_out_of_bounds_bullets();
    assert_eq!(w.bullets.len(), 1);
    assert_eq!(w.bullets[0].hostility, Hostility::Hostile);
}

#[test]
fn bullet_past_bound_is_removed() {
    let mut w = running_world();
    let mut e = spawn_enemy(roll(0, 0, 0, 0, 0));
    e.pos = Point { x: 0, y: 405_000 };
    w.enemies.push(e);
    w.bullets.push(create_bullet(Point { x: 0, y: 405_000 }, 1_000_000, 10, false));
    w.bullets.push(create_bullet(Point { x: 0, y: 400_000 }, 1_000_000, 10, false));
    w.move_bullets(0);
    w.remove_out_of_bounds_bullets();
    assert_eq!(w.bullets.len(), 1);
    assert_eq!(w.bullets[0].pos.y, 400_000);
}

#[test]
fn player_fires_when_cooled_down() {
    let mut w = running_world();
    w.shoot(true, 100_000);
    assert!(w.bullets.is_empty());
    w.shoot(false, 200_000);
    assert!(w.bullets.is_empty());
    w.shoot(true, 0);
    assert_eq!(w.bullets.len(), 1);
    let b = w.bullets[0];
    assert_eq!(b.pos, Point { x: 0, y: -300_000 });
    assert_eq!(b.velocity, 1_000_000);
    assert_eq!(b.damage, 10);
    assert_eq!(b.hostility, Hostility::Friendly);
    assert_eq!(w.player.unwrap().gun.cooldown.elapsed, 0);
    w.shoot(true, 0);
    assert_eq!(w.bullets.len(), 1);
}

#[test]
fn enemy_spawn_follows_draws() {
    let e = spawn_enemy(roll(0, 250_000, 500_000, 500_000, 0));
    assert_eq!(e.pos, Point { x: -240_000, y: 400_000 });
    assert_eq!(e.hp, 10);
    assert_eq!(e.gun.cooldown.duration, 1_250_000);
    assert_eq!(e.gun.damage, 10);
    assert_eq!(e.hover.upper_base, 350_000);
    assert_eq!(e.hover.lower_base, 150_000);
    assert_eq!(e.hover.upper_margin, 50_000);
    assert_eq!(e.hover.lower_margin, 50_000);
    assert_eq!(e.heading, Heading::Still);
    let far = spawn_enemy(roll(999_999, 0, 0, 0, 0));
    assert_eq!(far.pos.x, 239_999);
}

#[test]
fn spawn_timer_rearms_in_range() {
    let mut w = running_world();
    w.spawn_enemies(1_999_999, roll(0, 0, 0, 0, 999_999));
    assert!(w.enemies.is_empty());
    w.spawn_enemies(1, roll(500_000, 0, 0, 0, 999_999));
    assert_eq!(w.enemies.len(), 1);
    assert_eq!(w.enemies[0].pos.x, 0);
    assert_eq!(w.spawn_timer.duration, 1_999_999);
    assert_eq!(w.spawn_timer.elapsed, 0);
    w.spawn_enemies(0, roll(0, 0, 0, 0, 0));
    assert_eq!(w.enemies.len(), 1);
    w.spawn_enemies(1_999_999, roll(0, 0, 0, 0, 0));
    assert_eq!(w.enemies.len(), 2);
    assert_eq!(w.spawn_timer.duration, 1_000_000);
}

#[test]
fn enemies_steer_within_band() {
    let mut e = spawn_enemy(roll(0, 0, 0, 0, 0));
    e.pos.y = 160_000;
    assert_eq!(steer(e, 0, 0), Heading::Up);
    assert_eq!(steer(e, 999_999, 0), Heading::Still);
    e.pos.y = 330_000;
    assert_eq!(steer(e, 0, 0), Heading::Down);
    assert_eq!(steer(e, 0, 800_000), Heading::Still);
    e.heading = Heading::Down;
    e.pos.y = 250_000;
    assert_eq!(steer(e, 0, 0), Heading::Down);
}

#[test]
fn enemies_hover_and_fire() {
    let mut w = running_world();
    let mut e = spawn_enemy(roll(0, 0, 0, 0, 0));
    e.pos = Point { x: 10_000, y: 0 };
    w.enemies.push(e);
    w.set_enemies_direction(&vec![0, 0]);
    assert_eq!(w.enemies[0].heading, Heading::Up);
    w.apply_enemy_velocity(500_000);
    assert_eq!(w.enemies[0].pos, Point { x: 10_000, y: 50_000 });
    w.enemy_shots(1_000_000, &vec![300_000]);
    assert_eq!(w.bullets.len(), 1);
    let b = w.bullets[0];
    assert_eq!(b.pos, Point { x: 10_000, y: 0 });
    assert_eq!(b.velocity, -500_000);
    assert_eq!(b.hostility, Hostility::Hostile);
    let t = w.enemies[0].gun.cooldown;
    assert_eq!(t.duration, 1_300_000);
    assert_eq!(t.elapsed, 0);
    assert!(!t.finished);
}

#[test]
fn fresh_draws_are_fractions() {
    for _ in 0..50 {
        let r = SpawnRoll::draw();
        assert!(r.x < UNIT && r.cooldown < UNIT && r.upper < UNIT && r.lower < UNIT && r.rearm < UNIT);
    }
}

#[test]
fn boxes_overlap_strictly() {
    let a = Point { x: 0, y: 0 };
    assert!(collide(a, 10, 10, Point { x: 9, y: 0 }, 10, 10));
    assert!(!collide(a, 10, 10, Point { x: 10, y: 0 }, 10, 10));
    assert!(!collide(a, 10, 10, Point { x: 0, y: -10 }, 10, 10));
    assert!(collide(a, 10, 10, Point { x: -9, y: 9 }, 10, 10));
}

fn zero_draws(enemies: usize) -> FrameDraws {
    FrameDraws {
        spawn: roll(0, 0, 0, 0, 0),
        hover: vec![0; 2 * (enemies + 1)],
        cooldown: vec![0; enemies + 1],
    }
}

#[test]
fn hover_jitter_comes_from_draws() {
    let mut w = running_world();
    let mut e = spawn_enemy(roll(0, 0, 0, 0, 0));
    e.pos = Point { x: 0, y: 160_000 };
    w.enemies.push(e);
    w.enemies.push(e);
    w.set_enemies_direction(&vec![0, 0, 999_999, 0]);
    assert_eq!(w.enemies[0].heading, Heading::Up);
    assert_eq!(w.enemies[1].heading, Heading::Still);
}

#[test]
fn fresh_frame_draws_suffice() {
    let d = FrameDraws::draw(3);
    assert_eq!(d.hover.len(), 8);
    assert_eq!(d.cooldown.len(), 4);
    assert!(d.hover.iter().chain(d.cooldown.iter()).all(|&r| r < UNIT));
}

#[test]
fn frame_runs_a_round() {
    let mut w = World::new();
    let input = FrameInput {
        dt: 16_000,
        keys: Keys { right: true, ..NO_KEYS },
        fire: false,
        restart_pressed: false,
        fixed_steps: 1,
    };
    w.frame(input, &zero_draws(w.enemies.len()));
    assert_eq!(w.state, GameState::Running);
    assert_eq!(w.player.unwrap().pos, Point { x: 9_600, y: -350_000 });
    assert!(w.hit_events.is_empty());
    let press = FrameInput { restart_pressed: true, ..input };
    w.frame(press, &zero_draws(w.enemies.len()));
    assert_eq!(w.next_state, Some(GameState::Restarting));
    w.frame(input, &zero_draws(w.enemies.len()));
    assert_eq!(w.state, GameState::Restarting);
    w.frame(input, &zero_draws(w.enemies.len()));
    assert_eq!(w.state, GameState::Running);
    assert_eq!(w.player.unwrap().hp, 100);
}

#[test]
fn invariant_check_and_event_clearing() {
    let mut w = running_world();
    assert!(w.is_wf());
    w.collision_events = 2;
    w.hit_events.push(3);
    w.game_over_events = 1;
    w.clear_events();
    assert_eq!(w.collision_events, 0);
    assert!(w.hit_events.is_empty());
    assert_eq!(w.game_over_events, 0);
    w.enemies.push(spawn_enemy(roll(0, 0, 0, 0, 0)));
    assert!(w.is_wf());
    w.enemies[0].gun.cooldown.duration = 0;
    assert!(!w.is_wf());
}
