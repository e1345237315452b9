use vstd::prelude::*;
use crate::geometry::{Point, saturated, shift};
use crate::rolls::{UNIT, SpawnRoll, all_fractions};
use crate::timer::{Timer, ticked, restarted, consistent, lemma_one_shot_fires_exactly};
use crate::world::{
    Bullet, Enemy, Gun, Heading, Hostility, Hover, Player, World, ENEMY_MAX_HP, GUN_DAMAGE,
    same_globals,
};

verus! {

/// Speed of the player's bullets, in thousandths per second (upwards).
pub const PLAYER_BULLET_SPEED: i64 = 1_000_000;
/// Speed of the enemies' bullets, in thousandths per second (downwards).
pub const ENEMY_BULLET_SPEED: i64 = 500_000;
/// How far above or below its ship a bullet appears.
pub const MUZZLE_OFFSET: i64 = 50_000;
/// The shortest random cooldown, in microseconds; the longest is just under twice it.
pub const MIN_JITTERED_MICROS: u64 = 1_000_000;
/// Height at which enemies appear.
pub const ENEMY_SPAWN_Y: i64 = 400_000;
/// Margin of both limits of a fresh enemy's hover band.
pub const HOVER_MARGIN: u32 = 50_000;

/// A bullet at `pos` with the given velocity, damage and side.
pub open spec fn bullet_at(pos: Point, velocity: i64, damage: u32, hostile: bool) -> Bullet {
    Bullet {
        pos,
        velocity,
        damage,
        hostility: if hostile { Hostility::Hostile } else { Hostility::Friendly },
    }
}

/// A new bullet (see `bullet_at`).
pub fn create_bullet(pos: Point, velocity: i64, damage: u32, hostile: bool) -> (r: Bullet)
    ensures
        r == bullet_at(pos, velocity, damage, hostile),
{
    Bullet {
        pos,
        velocity,
        damage,
        hostility: if hostile {
            Hostility::Hostile
        } else {
            Hostility::Friendly
        },
    }
}

/// `p` moved by `dy` vertically, stopping at the bounds of `i64`.
pub open spec fn above(p: Point, dy: int) -> Point {
    Point { x: p.x, y: saturated(p.y + dy) }
}

/// A one-shot timer of `r` microseconds more than `MIN_JITTERED_MICROS`,
/// counted from zero, otherwise like `t`.
pub open spec fn rearmed(t: Timer, r: int) -> Timer {
    restarted(Timer { duration: (MIN_JITTERED_MICROS + r) as u64, ..t })
}

/// The player after its gun has ticked for `dt` microseconds, and whether it
/// fires: when the cooldown is over and the fire key is held.
pub open spec fn player_fires(p: Player, dt: u64, fire: bool) -> bool {
    ticked(p.gun.cooldown, dt).finished && fire
}

/// The enemy spawned by the draws of `r`: along the top edge at a random
/// horizontal position kept off the sides, with a random gun cooldown and a
/// random hover band.
pub open spec fn spawned_enemy(r: SpawnRoll) -> Enemy {
    Enemy {
        pos: Point { x: (12 * r.x / 25 - 240_000) as i64, y: ENEMY_SPAWN_Y },
        hp: ENEMY_MAX_HP,
        gun: Gun {
            cooldown: Timer {
                duration: (MIN_JITTERED_MICROS + r.cooldown) as u64,
                elapsed: 0,
                repeating: false,
                finished: false,
                just_finished: false,
            },
            damage: GUN_DAMAGE,
        },
        hover: Hover {
            upper_base: (300_000 + r.upper / 10) as i64,
            upper_margin: HOVER_MARGIN,
            lower_base: (200_000 - r.lower / 10) as i64,
            lower_margin: HOVER_MARGIN,
        },
        heading: Heading::Still,
    }
}

/// The enemy of `spawned_enemy` built.
pub fn spawn_enemy(r: SpawnRoll) -> (e: Enemy)
    requires
        r.wf(),
    ensures
        e == spawned_enemy(r),
{
    let x: i64 = (12 * r.x as i64) / 25 - 240_000;
    Enemy {
        pos: Point { x, y: ENEMY_SPAWN_Y },
        hp: ENEMY_MAX_HP,
        gun: Gun {
            cooldown: Timer::from_micros(MIN_JITTERED_MICROS + r.cooldown as u64, false),
            damage: GUN_DAMAGE,
        },
        hover: Hover {
            upper_base: 300_000 + (r.upper / 10) as i64,
            upper_margin: HOVER_MARGIN,
            lower_base: 200_000 - (r.lower / 10) as i64,
            lower_margin: HOVER_MARGIN,
        },
        heading: Heading::Still,
    }
}

/// The bullets that the enemies `es` fire when their guns tick for `dt`
/// microseconds, in order: one below each enemy whose cooldown just ran out.
pub open spec fn volley(es: Seq<Enemy>, dt: u64) -> Seq<Bullet>
    decreases es.len(),
{
    if es.len() == 0 {
        Seq::empty()
    } else {
        let e = es.last();
        let rest = volley(es.drop_last(), dt);
        if ticked(e.gun.cooldown, dt).just_finished {
            rest.push(bullet_at(above(e.pos, -MUZZLE_OFFSET as int), (-ENEMY_BULLET_SPEED) as i64, e.gun.damage, true))
        } else {
            rest
        }
    }
}

/// Enemy `e` once its gun has ticked for `dt` microseconds, its cooldown
/// re-armed with draw `r` if it fired.
pub open spec fn gun_cycled(e: Enemy, dt: u64, r: int) -> Enemy {
    let t = ticked(e.gun.cooldown, dt);
    if t.just_finished {
        Enemy { gun: Gun { cooldown: rearmed(t, r), ..e.gun }, ..e }
    } else {
        Enemy { gun: Gun { cooldown: t, ..e.gun }, ..e }
    }
}

impl World {
    /// Ticks the player's gun for `dt` microseconds. When the cooldown is over
    /// and `fire` is held, a friendly bullet appears above the player and the
    /// cooldown restarts.
    pub fn shoot(&mut self, fire: bool, dt: u64)
        ensures
            shoot_effect(*old(self), *final(self), fire, dt),
    {
        match self.player {
            Some(p) => {
                let mut gun = p.gun;
                gun.cooldown.tick(dt);
                if gun.cooldown.finished() && fire {
                    let b = create_bullet(
                        Point { x: p.pos.x, y: shift(p.pos.y, MUZZLE_OFFSET as i128) },
                        PLAYER_BULLET_SPEED,
                        gun.damage,
                        false,
                    );
                    self.bullets.push(b);
                    gun.cooldown.reset();
                }
                self.player = Some(Player { gun, ..p });
            },
            None => {},
        }
    }

    /// Ticks every enemy's gun for `dt` microseconds. Each enemy whose
    /// cooldown just ran out fires a hostile bullet below itself and gets a
    /// cooldown in `[1, 2)` seconds: enemy `i` jitters it by `draws[i]`.
    pub fn enemy_shots(&mut self, dt: u64, draws: &Vec<u32>)
        requires
            draws@.len() >= old(self).enemies@.len(),
            all_fractions(draws@),
        ensures
            enemy_shots_effect(*old(self), *final(self), dt, draws@),
    {
        let ghost es = self.enemies@;
        let ghost bs = self.bullets@;
        let mut i: usize = 0;
        while i < self.enemies.len()
            invariant
                self.enemies@.len() == es.len(),
                0 <= i <= es.len(),
                draws@.len() >= es.len(),
                all_fractions(draws@),
                forall|j: int| 0 <= j < i ==> #[trigger] self.enemies@[j] == gun_cycled(es[j], dt, draws@[j] as int),
                forall|j: int| i <= j < es.len() ==> #[trigger] self.enemies@[j] == es[j],
                self.bullets@ == bs + volley(es.take(i as int), dt),
                self.player == old(self).player,
                same_globals(*old(self), *self),
            decreases es.len() - i,
        {
            let e = self.enemies[i];
            proof {
                assert(es.take(i as int + 1).drop_last() =~= es.take(i as int));
                assert(es.take(i as int + 1).last() == e);
            }
            let mut gun = e.gun;
            gun.cooldown.tick(dt);
            if gun.cooldown.just_finished() {
                let b = create_bullet(
                    Point { x: e.pos.x, y: shift(e.pos.y, -(MUZZLE_OFFSET as i128)) },
                    -ENEMY_BULLET_SPEED,
                    gun.damage,
                    true,
                );
                let ghost before = self.bullets@;
                self.bullets.push(b);
                proof {
                    assert(bs + volley(es.take(i as int), dt).push(b) =~= before.push(b));
                }
                let r = draws[i];
                let ghost t = gun.cooldown;
                gun.cooldown.set_duration(MIN_JITTERED_MICROS + r as u64);
                gun.cooldown.reset();
                proof {
                    assert(gun.cooldown == rearmed(t, r as int));
                }
            }
            self.enemies.set(i, Enemy { gun, ..e });
            i = i + 1;
        }
        proof {
            assert(es.take(es.len() as int) =~= es);
        }
    }

    /// Ticks the spawn timer for `dt` microseconds. When it fires, the enemy
    /// of `roll` appears and the timer is re-armed to a random duration in
    /// `[1, 2)` seconds, counted from zero.
    pub fn spawn_enemies(&mut self, dt: u64, roll: SpawnRoll)
        requires
            roll.wf(),
        ensures
            spawn_enemies_effect(*old(self), *final(self), dt, roll),
    {
        self.spawn_timer.tick(dt);
        if self.spawn_timer.just_finished() {
            let e = spawn_enemy(roll);
            self.enemies.push(e);
            self.spawn_timer.set_duration(MIN_JITTERED_MICROS + roll.rearm as u64);
            self.spawn_timer.reset();
        }
    }
}

/// The spawn timer of a well-formed world fires on a tick exactly when the
/// tick carries its count from below its duration to it; when it fires, the
/// re-armed timer is again consistent, lasts `[1, 2)` seconds and has not
/// finished, so it cannot fire twice without being armed in between.
pub proof fn lemma_spawn_cadence(t: Timer, dt: u64, r: int)
    requires
        consistent(t),
        0 <= r < UNIT,
    ensures
        ticked(t, dt).just_finished <==> (t.elapsed < t.duration && t.duration <= t.elapsed + dt),
        ticked(t, dt).just_finished ==> {
            let n = rearmed(ticked(t, dt), r);
            &&& consistent(n)
            &&& MIN_JITTERED_MICROS <= n.duration < 2 * MIN_JITTERED_MICROS
            &&& n.elapsed == 0
            &&& !n.finished
        },
        !ticked(t, dt).just_finished ==> consistent(ticked(t, dt)),
{
    lemma_one_shot_fires_exactly(t, dt);
}

/// Whenever the spawn timer fires it is re-armed to a duration in `[1, 2)`
/// seconds with nothing elapsed, so it cannot fire again at once.
pub proof fn lemma_spawn_rearm_range(t: Timer, dt: u64, r: int)
    requires
        0 <= r < UNIT,
    ensures
        MIN_JITTERED_MICROS <= rearmed(ticked(t, dt), r).duration < 2 * MIN_JITTERED_MICROS,
        rearmed(ticked(t, dt), r).elapsed == 0,
        !rearmed(ticked(t, dt), r).finished,
        !rearmed(ticked(t, dt), r).just_finished,
{
}

/// The effect of `World::shoot`: `b` is `a` after the call.
pub open spec fn shoot_effect(a: World, b: World, fire: bool, dt: u64) -> bool {
    &&& match a.player {
            Some(p) => {
                let t = ticked(p.gun.cooldown, dt);
                if player_fires(p, dt, fire) {
                    &&& b.player == Some(Player { gun: Gun { cooldown: restarted(t), ..p.gun }, ..p })
                    &&& b.bullets@ == a.bullets@.push(
                        bullet_at(above(p.pos, MUZZLE_OFFSET as int), PLAYER_BULLET_SPEED, p.gun.damage, false))
                } else {
                    &&& b.player == Some(Player { gun: Gun { cooldown: t, ..p.gun }, ..p })
                    &&& b.bullets@ == a.bullets@
                }
            },
            None => b.player == a.player && b.bullets@ == a.bullets@,
        }
    &&& b.enemies@ == a.enemies@
    &&& same_globals(a, b)
}

/// The effect of `World::enemy_shots`: `b` is `a` after the call.
pub open spec fn enemy_shots_effect(a: World, b: World, dt: u64, draws: Seq<u32>) -> bool {
    &&& b.enemies@.len() == a.enemies@.len()
    &&& forall|i: int| 0 <= i < a.enemies@.len()
            ==> #[trigger] b.enemies@[i] == gun_cycled(a.enemies@[i], dt, draws[i] as int)
    &&& b.bullets@ == a.bullets@ + volley(a.enemies@, dt)
    &&& b.player == a.player
    &&& same_globals(a, b)
}

/// The effect of `World::spawn_enemies`: `b` is `a` after the call.
pub open spec fn spawn_enemies_effect(a: World, b: World, dt: u64, roll: SpawnRoll) -> bool {
    &&& ({
            let t = ticked(a.spawn_timer, dt);
            if t.just_finished {
                &&& b.enemies@ == a.enemies@.push(spawned_enemy(roll))
                &&& b.spawn_timer == rearmed(t, roll.rearm as int)
            } else {
                &&& b.enemies@ == a.enemies@
                &&& b.spawn_timer == t
            }
        })
    &&& b.player == a.player
    &&& b.bullets@ == a.bullets@
    &&& same_globals(World { spawn_timer: a.spawn_timer, ..b }, a)
}

} // verus!
