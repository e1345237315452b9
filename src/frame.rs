use vstd::prelude::*;
use crate::motion::Keys;
use crate::rolls::{SpawnRoll, all_fractions, draw_fractions};
use crate::world::{World, world_wf, transitioned, restart_button_effect};
use crate::motion::{
    move_player_effect, limit_player_bounds_effect, move_bullets_effect,
    remove_out_of_bounds_bullets_effect, set_enemies_direction_effect, apply_enemy_velocity_effect,
};
use crate::weapons::{shoot_effect, spawn_enemies_effect, enemy_shots_effect};
use crate::combat::{
    check_for_collisions_effect, check_for_collisions_player_effect, increase_score_effect,
    player_hit_effect, player_hit_feedback_effect, game_over_effect,
};

verus! {

/// What the host samples for one frame.
#[derive(Clone, Copy, Debug, PartialEq, Eq, Structural)]
pub struct FrameInput {
    /// Time since the last frame, in microseconds.
    pub dt: u32,
    /// Movement keys held.
    pub keys: Keys,
    /// Whether the fire key is held.
    pub fire: bool,
    /// Whether the restart control reported a press.
    pub restart_pressed: bool,
    /// How many fixed-timestep collision passes fall in this frame.
    pub fixed_steps: u32,
}

/// One fixed-timestep collision round: bullets against enemies, then
/// bullets against the player.
pub open spec fn collision_round(a: World, b: World) -> bool {
    exists|m: World| #[trigger] check_for_collisions_effect(a, m) && check_for_collisions_player_effect(m, b)
}

/// Whether the worlds `ws` run from `a` to `b`, each after one collision
/// round from the one before.
pub open spec fn round_chain(ws: Seq<World>, a: World, b: World) -> bool {
    &&& ws.len() >= 1
    &&& ws[0] == a
    &&& ws.last() == b
    &&& forall|i: int| 0 <= i < ws.len() - 1 ==> #[trigger] collision_round(ws[i], ws[i + 1])
}

/// `n` collision rounds, one after another, lead from `a` to `b`.
pub open spec fn collision_rounds(a: World, n: int, b: World) -> bool {
    exists|ws: Seq<World>| ws.len() == n + 1 && #[trigger] round_chain(ws, a, b)
}

/// The first half of a frame, from `a` to `b`: the pending state change,
/// then player movement, firing and bounds, bullet movement and removal,
/// enemy spawning, steering, movement and firing.
pub open spec fn motion_phase(a: World, input: FrameInput, draws: FrameDraws, b: World) -> bool {
    exists|w1: World| #[trigger] transitioned(a, w1) && world_wf(w1)
    && exists|w2: World| #[trigger] move_player_effect(w1, w2, input.keys, input.dt)
    && exists|w3: World| #[trigger] shoot_effect(w2, w3, input.fire, input.dt as u64)
    && exists|w4: World| #[trigger] limit_player_bounds_effect(w3, w4)
    && exists|w5: World| #[trigger] move_bullets_effect(w4, w5, input.dt)
    && exists|w6: World| #[trigger] remove_out_of_bounds_bullets_effect(w5, w6)
    && exists|w7: World| #[trigger] spawn_enemies_effect(w6, w7, input.dt as u64, draws.spawn)
    && exists|w8: World| #[trigger] set_enemies_direction_effect(w7, w8, draws.hover@)
    && exists|w9: World| #[trigger] apply_enemy_velocity_effect(w8, w9, input.dt)
    && enemy_shots_effect(w9, b, input.dt as u64, draws.cooldown@)
}

/// The second half of a frame, from `a` to `b`: score, player hits, hit
/// feedback, game over, the restart control, and last the events cleared.
pub open spec fn resolution_phase(a: World, input: FrameInput, b: World) -> bool {
    exists|w1: World| #[trigger] increase_score_effect(a, w1)
    && exists|w2: World| #[trigger] player_hit_effect(w1, w2)
    && exists|w3: World| #[trigger] player_hit_feedback_effect(w2, w3, input.dt as u64)
    && exists|w4: World| #[trigger] game_over_effect(w3, w4)
    && exists|w5: World| #[trigger] restart_button_effect(w4, w5, input.restart_pressed)
    && clear_events_effect(w5, b)
}

/// The effect of `World::frame`: the motion phase, `input.fixed_steps`
/// collision rounds, then the resolution phase, in that order.
pub open spec fn frame_effect(a: World, input: FrameInput, draws: FrameDraws, b: World) -> bool {
    exists|m: World, c: World|
        #[trigger] motion_phase(a, input, draws, m) && #[trigger] collision_rounds(m, input.fixed_steps as int, c)
    && resolution_phase(c, input, b)
}

/// The random draws one frame may consume.
pub struct FrameDraws {
    /// Draws of an enemy spawn.
    pub spawn: SpawnRoll,
    /// Two hover-band jitters for each enemy, in order.
    pub hover: Vec<u32>,
    /// A cooldown jitter for each enemy, in order.
    pub cooldown: Vec<u32>,
}

impl FrameDraws {
    /// Whether the draws lie in `[0, UNIT)` and suffice for a frame that
    /// starts with `enemies` enemies (one more may spawn during it).
    pub open spec fn wf(&self, enemies: int) -> bool {
        &&& self.spawn.wf()
        &&& self.hover@.len() >= 2 * (enemies + 1)
        &&& self.cooldown@.len() >= enemies + 1
        &&& all_fractions(self.hover@)
        &&& all_fractions(self.cooldown@)
    }

    /// Fresh draws from the thread's random source for a frame that starts
    /// with `enemies` enemies.
    pub fn draw(enemies: usize) -> (r: FrameDraws)
        requires
            enemies < usize::MAX / 2,
        ensures
            r.wf(enemies as int),
    {
        FrameDraws {
            spawn: SpawnRoll::draw(),
            hover: draw_fractions(2 * (enemies + 1)),
            cooldown: draw_fractions(enemies + 1),
        }
    }
}

impl World {
    /// Empties the event queues: events live for one frame only.
    pub fn clear_events(&mut self)
        ensures
            clear_events_effect(*old(self), *final(self)),
    {
        self.collision_events = 0;
        self.hit_events = Vec::new();
        self.game_over_events = 0;
    }

    /// One frame, in a fixed order: the pending state change; player
    /// movement, firing and bounds; bullet movement and removal; enemy
    /// spawning, steering, movement and firing (with the draws of `draws`);
    /// the fixed-timestep collision passes; then score, player hits, hit
    /// feedback and game over; last the restart control. The frame's events
    /// are gone at its end.
    pub fn frame(&mut self, input: FrameInput, draws: &FrameDraws)
        requires
            world_wf(*old(self)),
            draws.wf(old(self).enemies@.len() as int),
        ensures
            world_wf(*final(self)),
            frame_effect(*old(self), input, *draws, *final(self)),
            final(self).collision_events == 0,
            final(self).hit_events@.len() == 0,
            final(self).game_over_events == 0,
    {
        let dt = input.dt;
        let ghost g0 = *self;
        self.apply_state_transition();
        let ghost g1 = *self;
        self.move_player(input.keys, dt);
        let ghost g2 = *self;
        self.shoot(input.fire, dt as u64);
        let ghost g3 = *self;
        self.limit_player_bounds();
        let ghost g4 = *self;
        self.move_bullets(dt);
        let ghost g5 = *self;
        self.remove_out_of_bounds_bullets();
        let ghost g6 = *self;
        self.spawn_enemies(dt as u64, draws.spawn);
        let ghost g7 = *self;
        self.set_enemies_direction(&draws.hover);
        let ghost g8 = *self;
        self.apply_enemy_velocity(dt);
        let ghost g9 = *self;
        self.enemy_shots(dt as u64, &draws.cooldown);
        let ghost m = *self;
        proof {
            assert(motion_phase(g0, input, *draws, m));
        }
        let mut step: u32 = 0;
        let ghost mut ws: Seq<World> = seq![m];
        proof {
            assert(round_chain(ws, m, *self));
        }
        while step < input.fixed_steps
            invariant
                world_wf(*self),
                step <= input.fixed_steps,
                ws.len() == step + 1,
                round_chain(ws, m, *self),
            decreases input.fixed_steps - step,
        {
            let ghost before = *self;
            self.check_for_collisions();
            let ghost mid = *self;
            self.check_for_collisions_player();
            proof {
                assert(check_for_collisions_effect(before, mid));
                assert(collision_round(before, *self));
                let ws1 = ws.push(*self);
                assert forall|i: int| 0 <= i < ws1.len() - 1 implies #[trigger] collision_round(ws1[i], ws1[i + 1]) by {
                    if i < ws.len() - 1 {
                        assert(ws1[i] == ws[i] && ws1[i + 1] == ws[i + 1]);
                    }
                }
                ws = ws1;
            }
            step = step + 1;
        }
        let ghost c = *self;
        proof {
            assert(step == input.fixed_steps);
            assert(round_chain(ws, m, c));
            assert(collision_rounds(m, input.fixed_steps as int, c));
        }
        self.increase_score();
        let ghost h1 = *self;
        self.player_hit();
        let ghost h2 = *self;
        self.player_hit_feedback(dt as u64);
        let ghost h3 = *self;
        self.game_over();
        let ghost h4 = *self;
        self.restart_button(input.restart_pressed);
        let ghost h5 = *self;
        self.clear_events();
        proof {
            assert(resolution_phase(c, input, *self));
            assert(frame_effect(g0, input, *draws, *self));
        }
    }
}

/// The effect of `World::clear_events`: `b` is `a` after the call.
pub open spec fn clear_events_effect(a: World, b: World) -> bool {
    &&& b.collision_events == 0
    &&& b.hit_events@.len() == 0
    &&& b.game_over_events == 0
    &&& b.player == a.player
    &&& b.enemies@ == a.enemies@
    &&& b.bullets@ == a.bullets@
    &&& b.state == a.state
    &&& b.next_state == a.next_state
    &&& b.displays == a.displays
    &&& b.score == a.score
    &&& b.spawn_timer == a.spawn_timer
    &&& b.hit_feedback == a.hit_feedback
}

} // verus!
