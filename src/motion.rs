use vstd::prelude::*;
use crate::geometry::{Point, saturated, clamped, shift, travel, distance, is_isqrt, isqrt};
use crate::rolls::{UNIT, all_fractions};
use crate::world::{Bullet, Enemy, Heading, World, same_globals};

verus! {

/// Player speed, in thousandths per second.
pub const PLAYER_SPEED: u64 = 600_000;
/// Enemy hover speed, in thousandths per second.
pub const ENEMY_SPEED: u64 = 100_000;
/// How far the player's centre may go from the middle, sideways.
pub const PLAYER_LIMIT_X: i64 = 275_000;
/// How far the player's centre may go from the middle, up or down.
pub const PLAYER_LIMIT_Y: i64 = 375_000;
/// How far a bullet may go from the middle, up or down, before it leaves.
pub const BULLET_LIMIT_Y: i64 = 400_000;

/// The movement keys held this frame.
#[derive(Clone, Copy, Debug, PartialEq, Eq, Structural)]
pub struct Keys {
    pub left: bool,
    pub right: bool,
    pub up: bool,
    pub down: bool,
}

/// -1, 0 or 1 along one axis, from the keys for each way.
pub open spec fn axis(neg: bool, pos: bool) -> int {
    (if pos { 1int } else { 0int }) - (if neg { 1int } else { 0int })
}

/// The integer square root of `n`.
pub open spec fn root(n: int) -> int {
    choose|r: int| is_isqrt(n, r)
}

/// The integer square root is unique.
pub proof fn lemma_root_unique(n: int, r: int)
    requires
        is_isqrt(n, r),
    ensures
        root(n) == r,
{
    let q = root(n);
    assert(is_isqrt(n, q));
    if q < r {
        assert((q + 1) * (q + 1) <= r * r) by (nonlinear_arith)
            requires 0 <= q, q + 1 <= r;
    } else if r < q {
        assert((r + 1) * (r + 1) <= q * q) by (nonlinear_arith)
            requires 0 <= r, r + 1 <= q;
    }
}

/// The player's displacement for the held keys over `dt` microseconds: the
/// full step along a single axis, and the step divided by the square root of
/// two (rounded down) along each axis of a diagonal.
pub open spec fn player_displacement(k: Keys, dt: int) -> (int, int) {
    let ax = axis(k.left, k.right);
    let ay = axis(k.down, k.up);
    let s = travel(PLAYER_SPEED as int, dt);
    if ax != 0 && ay != 0 {
        let d = root(s * s / 2);
        (ax * d, ay * d)
    } else {
        (ax * s, ay * s)
    }
}

/// `player_displacement` computed.
pub fn displacement(k: Keys, dt: u32) -> (r: (i64, i64))
    ensures
        r.0 == player_displacement(k, dt as int).0,
        r.1 == player_displacement(k, dt as int).1,
{
    let s: u128 = distance(PLAYER_SPEED, dt);
    proof {
        assert(s <= 2_600_000_000) by (nonlinear_arith)
            requires s == PLAYER_SPEED as int * dt as int / 1_000_000, dt <= 0xffff_ffffu32;
        assert(s * s <= 2_600_000_000 * 2_600_000_000) by (nonlinear_arith)
            requires 0 <= s <= 2_600_000_000;
    }
    let ax: i64 = (if k.right { 1 } else { 0 }) - (if k.left { 1 } else { 0 });
    let ay: i64 = (if k.up { 1 } else { 0 }) - (if k.down { 1 } else { 0 });
    let len: i64 = if ax != 0 && ay != 0 {
        let n: u64 = (s * s / 2) as u64;
        let d = isqrt(n);
        proof {
            lemma_root_unique(n as int, d as int);
            assert(d as int * d as int <= n);
            assert(d <= 2_600_000_000) by (nonlinear_arith)
                requires d as int * d as int <= n, n <= 2_600_000_000 * 2_600_000_000 / 2, d >= 0;
        }
        d as i64
    } else {
        s as i64
    };
    (ax * len, ay * len)
}

/// The player's position after moving: each axis stops at the bounds of `i64`.
pub open spec fn player_moved(p: Point, k: Keys, dt: int) -> Point {
    Point {
        x: saturated(p.x + player_displacement(k, dt).0),
        y: saturated(p.y + player_displacement(k, dt).1),
    }
}

/// `p` held inside the area where the player's box stays on screen.
pub open spec fn held_inside(p: Point) -> Point {
    Point {
        x: clamped(p.x as int, -PLAYER_LIMIT_X, PLAYER_LIMIT_X as int) as i64,
        y: clamped(p.y as int, -PLAYER_LIMIT_Y, PLAYER_LIMIT_Y as int) as i64,
    }
}

/// How far a bullet of velocity `v` goes up in `dt` microseconds (rounded
/// towards zero).
pub open spec fn bullet_rise(v: int, dt: int) -> int {
    if v >= 0 {
        travel(v, dt)
    } else {
        -travel(-v, dt)
    }
}

/// `b` after `dt` microseconds of flight.
pub open spec fn bullet_moved(b: Bullet, dt: int) -> Bullet {
    Bullet { pos: Point { x: b.pos.x, y: saturated(b.pos.y + bullet_rise(b.velocity as int, dt)) }, ..b }
}

/// Whether a bullet is still inside the play area's vertical bounds.
pub open spec fn in_play(b: Bullet) -> bool {
    -BULLET_LIMIT_Y <= b.pos.y <= BULLET_LIMIT_Y
}

/// The bullets of `bs` still inside the play area, in order.
pub open spec fn bullets_in_play(bs: Seq<Bullet>) -> Seq<Bullet>
    decreases bs.len(),
{
    if bs.len() == 0 {
        Seq::empty()
    } else if in_play(bs.last()) {
        bullets_in_play(bs.drop_last()).push(bs.last())
    } else {
        bullets_in_play(bs.drop_last())
    }
}

/// The heading of enemy `e` after checking its hover band, with `low` and
/// `high` the draws that jitter the lower and upper limits: below the lower
/// limit it turns up, above the upper one it turns down, between them it keeps
/// its heading.
pub open spec fn steered(e: Enemy, low: int, high: int) -> Heading {
    let lower = e.hover.lower_base - low * e.hover.lower_margin / (UNIT as int);
    let upper = e.hover.upper_base + high * e.hover.upper_margin / (UNIT as int);
    if e.pos.y < lower {
        Heading::Up
    } else if e.pos.y > upper {
        Heading::Down
    } else {
        e.heading
    }
}

/// Enemy `e`, the `i`-th, with the heading that draws `2 * i` and `2 * i + 1`
/// of `draws` give it.
pub open spec fn steered_with(e: Enemy, draws: Seq<u32>, i: int) -> Enemy {
    Enemy { heading: steered(e, draws[2 * i] as int, draws[2 * i + 1] as int), ..e }
}

/// `steered` computed, for draws `low` and `high` below `UNIT`.
pub fn steer(e: Enemy, low: u32, high: u32) -> (r: Heading)
    requires
        low < UNIT,
        high < UNIT,
    ensures
        r == steered(e, low as int, high as int),
{
    proof {
        assert(low as int * e.hover.lower_margin as int <= 1_000_000 * 0xffff_ffff) by (nonlinear_arith)
            requires low < 1_000_000, e.hover.lower_margin <= 0xffff_ffffu32;
        assert(high as int * e.hover.upper_margin as int <= 1_000_000 * 0xffff_ffff) by (nonlinear_arith)
            requires high < 1_000_000, e.hover.upper_margin <= 0xffff_ffffu32;
        assert(low as int * e.hover.lower_margin as int >= 0) by (nonlinear_arith);
        assert(high as int * e.hover.upper_margin as int >= 0) by (nonlinear_arith);
    }
    let lower: i128 = e.hover.lower_base as i128
        - (low as u64 * e.hover.lower_margin as u64 / UNIT as u64) as i128;
    if (e.pos.y as i128) < lower {
        return Heading::Up;
    }
    let upper: i128 = e.hover.upper_base as i128
        + (high as u64 * e.hover.upper_margin as u64 / UNIT as u64) as i128;
    if e.pos.y as i128 > upper {
        Heading::Down
    } else {
        e.heading
    }
}

/// -1, 0 or 1 for a heading.
pub open spec fn heading_sign(h: Heading) -> int {
    match h {
        Heading::Up => 1,
        Heading::Down => -1,
        Heading::Still => 0,
    }
}

/// `e` after `dt` microseconds of hovering.
pub open spec fn enemy_moved(e: Enemy, dt: int) -> Enemy {
    Enemy {
        pos: Point {
            x: e.pos.x,
            y: saturated(e.pos.y + heading_sign(e.heading) * travel(ENEMY_SPEED as int, dt)),
        },
        ..e
    }
}

impl World {
    /// Moves the player by the held keys over `dt` microseconds.
    pub fn move_player(&mut self, keys: Keys, dt: u32)
        ensures
            move_player_effect(*old(self), *final(self), keys, dt),
    {
        match self.player {
            Some(p) => {
                let (dx, dy) = displacement(keys, dt);
                let pos = Point { x: shift(p.pos.x, dx as i128), y: shift(p.pos.y, dy as i128) };
                self.player = Some(crate::world::Player { pos, ..p });
            },
            None => {},
        }
    }

    /// Holds the player's centre where its box stays inside the play area.
    pub fn limit_player_bounds(&mut self)
        ensures
            limit_player_bounds_effect(*old(self), *final(self)),
    {
        match self.player {
            Some(p) => {
                let mut pos = p.pos;
                if pos.x > PLAYER_LIMIT_X {
                    pos.x = PLAYER_LIMIT_X;
                } else if pos.x < -PLAYER_LIMIT_X {
                    pos.x = -PLAYER_LIMIT_X;
                }
                if pos.y > PLAYER_LIMIT_Y {
                    pos.y = PLAYER_LIMIT_Y;
                } else if pos.y < -PLAYER_LIMIT_Y {
                    pos.y = -PLAYER_LIMIT_Y;
                }
                self.player = Some(crate::world::Player { pos, ..p });
            },
            None => {},
        }
    }

    /// Moves every bullet along its velocity for `dt` microseconds.
    pub fn move_bullets(&mut self, dt: u32)
        ensures
            move_bullets_effect(*old(self), *final(self), dt),
    {
        let ghost bs = self.bullets@;
        let mut i: usize = 0;
        while i < self.bullets.len()
            invariant
                self.bullets@.len() == bs.len(),
                0 <= i <= bs.len(),
                forall|j: int| 0 <= j < i ==> #[trigger] self.bullets@[j] == bullet_moved(bs[j], dt as int),
                forall|j: int| i <= j < bs.len() ==> #[trigger] self.bullets@[j] == bs[j],
                self.player == old(self).player,
                self.enemies@ == old(self).enemies@,
                same_globals(*old(self), *self),
            decreases bs.len() - i,
        {
            let b = self.bullets[i];
            let rise: i128 = if b.velocity >= 0 {
                distance(b.velocity as u64, dt) as i128
            } else {
                -(distance((-(b.velocity as i128)) as u64, dt) as i128)
            };
            let y = shift(b.pos.y, rise);
            self.bullets.set(i, Bullet { pos: Point { x: b.pos.x, y }, ..b });
            i = i + 1;
        }
    }

    /// Despawns the bullets that have left the play area's vertical bounds.
    pub fn remove_out_of_bounds_bullets(&mut self)
        ensures
            remove_out_of_bounds_bullets_effect(*old(self), *final(self)),
    {
        let ghost bs = self.bullets@;
        let mut kept: Vec<Bullet> = Vec::new();
        let mut i: usize = 0;
        while i < self.bullets.len()
            invariant
                self.bullets@ == bs,
                0 <= i <= bs.len(),
                kept@ == bullets_in_play(bs.take(i as int)),
            decreases bs.len() - i,
        {
            let b = self.bullets[i];
            proof {
                assert(bs.take(i as int + 1).drop_last() =~= bs.take(i as int));
                assert(bs.take(i as int + 1).last() == b);
            }
            if -BULLET_LIMIT_Y <= b.pos.y && b.pos.y <= BULLET_LIMIT_Y {
                kept.push(b);
            }
            i = i + 1;
        }
        proof {
            assert(bs.take(bs.len() as int) =~= bs);
        }
        self.bullets = kept;
    }

    /// Checks each enemy against its hover band and updates its heading; enemy
    /// `i` jitters its lower limit by `draws[2 * i]` and its upper limit by
    /// `draws[2 * i + 1]`.
    pub fn set_enemies_direction(&mut self, draws: &Vec<u32>)
        requires
            draws@.len() >= 2 * old(self).enemies@.len(),
            all_fractions(draws@),
        ensures
            set_enemies_direction_effect(*old(self), *final(self), draws@),
    {
        let ghost es = self.enemies@;
        let n: usize = draws.len();
        let mut i: usize = 0;
        while i < self.enemies.len()
            invariant
                self.enemies@.len() == es.len(),
                0 <= i <= es.len(),
                n == draws@.len(),
                draws@.len() >= 2 * es.len(),
                all_fractions(draws@),
                forall|j: int| 0 <= j < i ==> #[trigger] self.enemies@[j] == steered_with(es[j], draws@, j),
                forall|j: int| i <= j < es.len() ==> #[trigger] self.enemies@[j] == es[j],
                self.player == old(self).player,
                self.bullets@ == old(self).bullets@,
                same_globals(*old(self), *self),
            decreases es.len() - i,
        {
            let e = self.enemies[i];
            proof {
                assert(2 * i + 1 < draws@.len());
            }
            let low = draws[2 * i];
            let high = draws[2 * i + 1];
            let heading = steer(e, low, high);
            self.enemies.set(i, Enemy { heading, ..e });
            i = i + 1;
        }
    }

    /// Moves every enemy along its heading for `dt` microseconds.
    pub fn apply_enemy_velocity(&mut self, dt: u32)
        ensures
            apply_enemy_velocity_effect(*old(self), *final(self), dt),
    {
        let ghost es = self.enemies@;
        let step: u128 = distance(ENEMY_SPEED, dt);
        let mut i: usize = 0;
        while i < self.enemies.len()
            invariant
                self.enemies@.len() == es.len(),
                0 <= i <= es.len(),
                step == travel(ENEMY_SPEED as int, dt as int),
                step <= 0x1_0000_0000_0000_0000_0000_0000,
                forall|j: int| 0 <= j < i ==> #[trigger] self.enemies@[j] == enemy_moved(es[j], dt as int),
                forall|j: int| i <= j < es.len() ==> #[trigger] self.enemies@[j] == es[j],
                self.player == old(self).player,
                self.bullets@ == old(self).bullets@,
                same_globals(*old(self), *self),
            decreases es.len() - i,
        {
            let e = self.enemies[i];
            let d: i128 = match e.heading {
                Heading::Up => step as i128,
                Heading::Down => -(step as i128),
                Heading::Still => 0,
            };
            let y = shift(e.pos.y, d);
            self.enemies.set(i, Enemy { pos: Point { x: e.pos.x, y }, ..e });
            i = i + 1;
        }
    }
}

/// The effect of `World::move_player`: `b` is `a` after the call.
pub open spec fn move_player_effect(a: World, b: World, keys: Keys, dt: u32) -> bool {
    &&& b.player == (match a.player {
            Some(p) => Some(crate::world::Player { pos: player_moved(p.pos, keys, dt as int), ..p }),
            None => None,
        })
    &&& b.enemies@ == a.enemies@
    &&& b.bullets@ == a.bullets@
    &&& same_globals(a, b)
}

/// The effect of `World::limit_player_bounds`: `b` is `a` after the call.
pub open spec fn limit_player_bounds_effect(a: World, b: World) -> bool {
    &&& b.player == (match a.player {
            Some(p) => Some(crate::world::Player { pos: held_inside(p.pos), ..p }),
            None => None,
        })
    &&& b.enemies@ == a.enemies@
    &&& b.bullets@ == a.bullets@
    &&& same_globals(a, b)
}

/// The effect of `World::move_bullets`: `b` is `a` after the call.
pub open spec fn move_bullets_effect(a: World, b: World, dt: u32) -> bool {
    &&& b.bullets@.len() == a.bullets@.len()
    &&& forall|i: int| 0 <= i < a.bullets@.len()
            ==> #[trigger] b.bullets@[i] == bullet_moved(a.bullets@[i], dt as int)
    &&& b.player == a.player
    &&& b.enemies@ == a.enemies@
    &&& same_globals(a, b)
}

/// The effect of `World::remove_out_of_bounds_bullets`: `b` is `a` after the call.
pub open spec fn remove_out_of_bounds_bullets_effect(a: World, b: World) -> bool {
    &&& b.bullets@ == bullets_in_play(a.bullets@)
    &&& b.player == a.player
    &&& b.enemies@ == a.enemies@
    &&& same_globals(a, b)
}

/// The effect of `World::set_enemies_direction`: `b` is `a` after the call.
pub open spec fn set_enemies_direction_effect(a: World, b: World, draws: Seq<u32>) -> bool {
    &&& b.enemies@.len() == a.enemies@.len()
    &&& forall|i: int| 0 <= i < a.enemies@.len()
            ==> #[trigger] b.enemies@[i] == steered_with(a.enemies@[i], draws, i)
    &&& b.player == a.player
    &&& b.bullets@ == a.bullets@
    &&& same_globals(a, b)
}

/// The effect of `World::apply_enemy_velocity`: `b` is `a` after the call.
pub open spec fn apply_enemy_velocity_effect(a: World, b: World, dt: u32) -> bool {
    &&& b.enemies@.len() == a.enemies@.len()
    &&& forall|i: int| 0 <= i < a.enemies@.len()
            ==> #[trigger] b.enemies@[i] == enemy_moved(a.enemies@[i], dt as int)
    &&& b.player == a.player
    &&& b.bullets@ == a.bullets@
    &&& same_globals(a, b)
}

} // verus!
