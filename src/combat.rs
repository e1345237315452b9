use vstd::prelude::*;
use crate::geometry::{boxes_overlap, collide};
use crate::timer::{Timer, restarted};
use crate::world::{
    Bullet, Enemy, Hostility, Player, Tint, World, BULLET_SIZE, SHIP_SIZE, HIT_FEEDBACK_MICROS,
    SCORE_PER_HIT, damaged, apply_damage, added, counted, same_entities,
};

verus! {

/// Whether bullet `b`'s box overlaps a ship's box centred at `ship`.
pub open spec fn bullet_hits(b: Bullet, ship: crate::geometry::Point) -> bool {
    boxes_overlap(b.pos, BULLET_SIZE as int, BULLET_SIZE as int, ship, SHIP_SIZE as int, SHIP_SIZE as int)
}

/// The index of the first enemy at or after `j` that `b` overlaps, or -1.
pub open spec fn first_hit_from(b: Bullet, es: Seq<Enemy>, j: int) -> int
    decreases es.len() - j,
{
    if j < 0 || j >= es.len() {
        -1
    } else if bullet_hits(b, es[j].pos) {
        j
    } else {
        first_hit_from(b, es, j + 1)
    }
}

/// The index of the first enemy that `b` overlaps, or -1.
pub open spec fn first_hit(b: Bullet, es: Seq<Enemy>) -> int {
    first_hit_from(b, es, 0)
}

/// The enemies after enemy `i` takes `d` damage: it leaves when its health
/// reaches zero.
pub open spec fn struck(es: Seq<Enemy>, i: int, d: u32) -> Seq<Enemy> {
    let hp = damaged(es[i].hp, d);
    if hp == 0 {
        es.remove(i)
    } else {
        es.update(i, Enemy { hp, ..es[i] })
    }
}

/// One pass of bullets against enemies, bullet by bullet in order: a friendly
/// bullet that overlaps an enemy strikes the first one and is consumed with
/// one collision event; any other bullet is kept. Gives the bullets kept, the
/// enemies after the pass, and the number of collision events.
pub open spec fn enemy_pass(bs: Seq<Bullet>, es: Seq<Enemy>) -> (Seq<Bullet>, Seq<Enemy>, nat)
    decreases bs.len(),
{
    if bs.len() == 0 {
        (Seq::empty(), es, 0)
    } else {
        let (kept, es1, n) = enemy_pass(bs.drop_last(), es);
        let b = bs.last();
        let k = first_hit(b, es1);
        if b.hostility == Hostility::Friendly && k >= 0 {
            (kept, struck(es1, k, b.damage), n + 1)
        } else {
            (kept.push(b), es1, n)
        }
    }
}

/// One pass of bullets against the player: a hostile bullet that overlaps the
/// player is consumed and yields a hit event carrying its damage; any other
/// bullet is kept. Gives the bullets kept and the damages, in order.
pub open spec fn player_pass(bs: Seq<Bullet>, p: Option<Player>) -> (Seq<Bullet>, Seq<u32>)
    decreases bs.len(),
{
    if bs.len() == 0 {
        (Seq::empty(), Seq::empty())
    } else {
        let (kept, hits) = player_pass(bs.drop_last(), p);
        let b = bs.last();
        if b.hostility == Hostility::Hostile && p is Some && bullet_hits(b, p.unwrap().pos) {
            (kept, hits.push(b.damage))
        } else {
            (kept.push(b), hits)
        }
    }
}

/// Health `h` after hits of the damages `ds`, in order.
pub open spec fn hp_after(h: u32, ds: Seq<u32>) -> u32
    decreases ds.len(),
{
    if ds.len() == 0 {
        h
    } else {
        damaged(hp_after(h, ds.drop_last()), ds.last())
    }
}

/// How many of the hits `ds` leave health `h` at zero.
pub open spec fn zero_hits(h: u32, ds: Seq<u32>) -> nat
    decreases ds.len(),
{
    if ds.len() == 0 {
        0
    } else {
        zero_hits(h, ds.drop_last()) + if hp_after(h, ds) == 0 { 1nat } else { 0nat }
    }
}

proof fn lemma_first_hit_from(b: Bullet, es: Seq<Enemy>, j: int)
    requires
        0 <= j <= es.len(),
    ensures
        first_hit_from(b, es, j) == -1 || (j <= first_hit_from(b, es, j) < es.len()
            && bullet_hits(b, es[first_hit_from(b, es, j)].pos)),
        forall|m: int| j <= m < es.len() && (first_hit_from(b, es, j) == -1 || m < first_hit_from(b, es, j))
            ==> !bullet_hits(b, #[trigger] es[m].pos),
    decreases es.len() - j,
{
    if j < es.len() {
        lemma_first_hit_from(b, es, j + 1);
    }
}

/// A friendly bullet that overlaps several enemies strikes exactly one, the
/// first it overlaps in order, and is consumed once, with one collision event.
pub proof fn lemma_one_target_per_bullet(b: Bullet, es: Seq<Enemy>, i: int)
    requires
        b.hostility == Hostility::Friendly,
        0 <= i < es.len(),
        bullet_hits(b, es[i].pos),
    ensures
        0 <= first_hit(b, es) <= i,
        bullet_hits(b, es[first_hit(b, es)].pos),
        forall|m: int| 0 <= m < first_hit(b, es) ==> !bullet_hits(b, #[trigger] es[m].pos),
        enemy_pass(seq![b], es) == (Seq::<Bullet>::empty(), struck(es, first_hit(b, es), b.damage), 1nat),
{
    lemma_first_hit_from(b, es, 0);
    let s = seq![b];
    assert(s.drop_last() =~= Seq::<Bullet>::empty());
    assert(s.last() == b);
    assert(enemy_pass(s.drop_last(), es) == (Seq::<Bullet>::empty(), es, 0nat));
}

/// Hostile bullets leave every enemy as it is.
pub proof fn lemma_hostile_spares_enemies(bs: Seq<Bullet>, es: Seq<Enemy>)
    requires
        forall|i: int| 0 <= i < bs.len() ==> #[trigger] bs[i].hostility == Hostility::Hostile,
    ensures
        enemy_pass(bs, es) == (bs, es, 0nat),
    decreases bs.len(),
{
    if bs.len() > 0 {
        lemma_hostile_spares_enemies(bs.drop_last(), es);
        assert(bs.drop_last().push(bs.last()) =~= bs);
    }
}

/// Friendly bullets never hit the player: they raise no hit event, so the
/// player's health stays as it is.
pub proof fn lemma_friendly_spares_player(bs: Seq<Bullet>, p: Option<Player>)
    requires
        forall|i: int| 0 <= i < bs.len() ==> #[trigger] bs[i].hostility == Hostility::Friendly,
    ensures
        player_pass(bs, p) == (bs, Seq::<u32>::empty()),
        p matches Some(q) ==> hp_after(q.hp, player_pass(bs, p).1) == q.hp,
    decreases bs.len(),
{
    if bs.len() > 0 {
        lemma_friendly_spares_player(bs.drop_last(), p);
        assert(bs.drop_last().push(bs.last()) =~= bs);
    }
}

/// A collision pass keeps every enemy's gun as it was.
proof fn lemma_pass_keeps_guns(bs: Seq<Bullet>, es: Seq<Enemy>)
    requires
        forall|i: int| 0 <= i < es.len() ==> crate::world::gun_ready(#[trigger] es[i].gun),
    ensures
        forall|i: int| 0 <= i < enemy_pass(bs, es).1.len()
            ==> crate::world::gun_ready(#[trigger] enemy_pass(bs, es).1[i].gun),
    decreases bs.len(),
{
    if bs.len() > 0 {
        lemma_pass_keeps_guns(bs.drop_last(), es);
        let es1 = enemy_pass(bs.drop_last(), es).1;
        let k = first_hit(bs.last(), es1);
        if bs.last().hostility == Hostility::Friendly && k >= 0 {
            lemma_first_hit_from(bs.last(), es1, 0);
            let r = struck(es1, k, bs.last().damage);
            assert forall|i: int| 0 <= i < r.len() implies crate::world::gun_ready(#[trigger] r[i].gun) by {
                if damaged(es1[k].hp, bs.last().damage) == 0 {
                    if i >= k {
                        assert(r[i] == es1[i + 1]);
                    } else {
                        assert(r[i] == es1[i]);
                    }
                }
            }
        }
    }
}

/// The index of the first enemy that `b` overlaps.
fn find_target(es: &Vec<Enemy>, b: Bullet) -> (r: Option<usize>)
    ensures
        match r {
            Some(k) => k < es@.len() && k as int == first_hit(b, es@),
            None => first_hit(b, es@) == -1,
        },
{
    let mut j: usize = 0;
    while j < es.len()
        invariant
            0 <= j <= es@.len(),
            first_hit(b, es@) == first_hit_from(b, es@, j as int),
        decreases es@.len() - j,
    {
        if collide(b.pos, BULLET_SIZE, BULLET_SIZE, es[j].pos, SHIP_SIZE, SHIP_SIZE) {
            return Some(j);
        }
        j = j + 1;
    }
    None
}

/// Enemy `i` takes `d` damage and leaves if its health reaches zero.
fn strike(es: &mut Vec<Enemy>, i: usize, d: u32)
    requires
        i < old(es)@.len(),
    ensures
        final(es)@ == struck(old(es)@, i as int, d),
{
    let e = es[i];
    let hp = apply_damage(e.hp, d);
    if hp == 0 {
        es.remove(i);
    } else {
        es.set(i, Enemy { hp, ..e });
    }
}

impl World {
    /// Resolves friendly bullets against enemies (see `enemy_pass`): struck
    /// enemies lose health, dead ones leave, consumed bullets leave, and one
    /// collision event is added for each.
    pub fn check_for_collisions(&mut self)
        ensures
            check_for_collisions_effect(*old(self), *final(self)),
    {
        let ghost bs = self.bullets@;
        let ghost es = self.enemies@;
        let mut kept: Vec<Bullet> = Vec::new();
        let mut n: u64 = 0;
        let mut i: usize = 0;
        while i < self.bullets.len()
            invariant
                self.bullets@ == bs,
                0 <= i <= bs.len(),
                n <= i,
                enemy_pass(bs.take(i as int), es) == (kept@, self.enemies@, n as nat),
                self.player == old(self).player,
                self.state == old(self).state,
                self.next_state == old(self).next_state,
                self.displays == old(self).displays,
                self.score == old(self).score,
                self.spawn_timer == old(self).spawn_timer,
                self.hit_feedback == old(self).hit_feedback,
                self.collision_events == old(self).collision_events,
                self.hit_events@ == old(self).hit_events@,
                self.game_over_events == old(self).game_over_events,
            decreases bs.len() - i,
        {
            let b = self.bullets[i];
            proof {
                assert(bs.take(i as int + 1).drop_last() =~= bs.take(i as int));
                assert(bs.take(i as int + 1).last() == b);
            }
            let mut consumed = false;
            if b.hostility == Hostility::Friendly {
                match find_target(&self.enemies, b) {
                    Some(k) => {
                        strike(&mut self.enemies, k, b.damage);
                        n = n + 1;
                        consumed = true;
                    },
                    None => {},
                }
            }
            if !consumed {
                kept.push(b);
            }
            i = i + 1;
        }
        proof {
            assert(bs.take(bs.len() as int) =~= bs);
            if crate::world::world_wf(*old(self)) {
                lemma_pass_keeps_guns(bs, es);
            }
        }
        self.bullets = kept;
        self.collision_events = if n > u64::MAX - self.collision_events {
            u64::MAX
        } else {
            self.collision_events + n
        };
    }

    /// Resolves hostile bullets against the player (see `player_pass`):
    /// consumed bullets leave and their damages join the hit events.
    pub fn check_for_collisions_player(&mut self)
        ensures
            check_for_collisions_player_effect(*old(self), *final(self)),
    {
        let ghost bs = self.bullets@;
        let ghost h0 = self.hit_events@;
        let mut kept: Vec<Bullet> = Vec::new();
        let mut i: usize = 0;
        while i < self.bullets.len()
            invariant
                self.bullets@ == bs,
                0 <= i <= bs.len(),
                player_pass(bs.take(i as int), self.player).0 == kept@,
                h0 + player_pass(bs.take(i as int), self.player).1 == self.hit_events@,
                self.player == old(self).player,
                self.enemies@ == old(self).enemies@,
                self.state == old(self).state,
                self.next_state == old(self).next_state,
                self.displays == old(self).displays,
                self.score == old(self).score,
                self.spawn_timer == old(self).spawn_timer,
                self.hit_feedback == old(self).hit_feedback,
                self.collision_events == old(self).collision_events,
                self.game_over_events == old(self).game_over_events,
            decreases bs.len() - i,
        {
            let b = self.bullets[i];
            proof {
                assert(bs.take(i as int + 1).drop_last() =~= bs.take(i as int));
                assert(bs.take(i as int + 1).last() == b);
            }
            let ghost before = self.hit_events@;
            let hit = match self.player {
                Some(p) => b.hostility == Hostility::Hostile
                    && collide(b.pos, BULLET_SIZE, BULLET_SIZE, p.pos, SHIP_SIZE, SHIP_SIZE),
                None => false,
            };
            if hit {
                self.hit_events.push(b.damage);
                proof {
                    assert(h0 + player_pass(bs.take(i as int), self.player).1.push(b.damage)
                        =~= before.push(b.damage));
                }
            } else {
                kept.push(b);
            }
            i = i + 1;
        }
        proof {
            assert(bs.take(bs.len() as int) =~= bs);
        }
        self.bullets = kept;
    }
}

/// The hit-feedback timer armed anew: a short duration, counted from zero.
pub open spec fn armed_feedback(t: Timer) -> Timer {
    restarted(Timer { duration: HIT_FEEDBACK_MICROS, ..t })
}

impl World {
    /// Applies this frame's hit events to the player in order: health drops
    /// by each damage and stops at zero, each hit that leaves it at zero adds
    /// a game-over event, and any hit turns the player to the hit tint and
    /// arms the hit-feedback timer. The hit events are drained.
    pub fn player_hit(&mut self)
        ensures
            player_hit_effect(*old(self), *final(self)),
    {
        let ghost ds = self.hit_events@;
        match self.player {
            None => {},
            Some(p0) => {
                let mut p = p0;
                let mut i: usize = 0;
                while i < self.hit_events.len()
                    invariant
                        self.hit_events@ == ds,
                        0 <= i <= ds.len(),
                        self.player == Some(p0),
                        p.hp == hp_after(p0.hp, ds.take(i as int)),
                        p == (Player { hp: p.hp, tint: p.tint, ..p0 }),
                        i > 0 ==> p.tint == Tint::Hit,
                        i > 0 ==> self.hit_feedback == armed_feedback(old(self).hit_feedback),
                        i == 0 ==> p == p0 && self.hit_feedback == old(self).hit_feedback,
                        self.game_over_events == counted(
                            old(self).game_over_events,
                            zero_hits(p0.hp, ds.take(i as int)) as int,
                        ),
                        self.enemies@ == old(self).enemies@,
                        self.bullets@ == old(self).bullets@,
                        self.state == old(self).state,
                        self.next_state == old(self).next_state,
                        self.displays == old(self).displays,
                        self.score == old(self).score,
                        self.spawn_timer == old(self).spawn_timer,
                        self.collision_events == old(self).collision_events,
                    decreases ds.len() - i,
                {
                    let d = self.hit_events[i];
                    proof {
                        assert(ds.take(i as int + 1).drop_last() =~= ds.take(i as int));
                        assert(ds.take(i as int + 1).last() == d);
                    }
                    p.hp = apply_damage(p.hp, d);
                    if p.hp == 0 && self.game_over_events < u64::MAX {
                        self.game_over_events = self.game_over_events + 1;
                    }
                    p.tint = Tint::Hit;
                    self.hit_feedback.set_duration(HIT_FEEDBACK_MICROS);
                    self.hit_feedback.reset();
                    i = i + 1;
                }
                proof {
                    assert(ds.take(ds.len() as int) =~= ds);
                }
                self.player = Some(p);
            },
        }
        self.hit_events = Vec::new();
    }

    /// Ticks the hit-feedback timer by `dt` microseconds; when it fires the
    /// player gets back the normal tint.
    pub fn player_hit_feedback(&mut self, dt: u64)
        ensures
            player_hit_feedback_effect(*old(self), *final(self), dt),
    {
        self.hit_feedback.tick(dt);
        if self.hit_feedback.just_finished() {
            match self.player {
                Some(p) => {
                    self.player = Some(Player { tint: Tint::Normal, ..p });
                },
                None => {},
            }
        }
    }

    /// Drains this frame's collision events, adding `SCORE_PER_HIT` points for
    /// each (the score stops at the largest `u32`).
    pub fn increase_score(&mut self)
        ensures
            increase_score_effect(*old(self), *final(self)),
    {
        proof {
            assert(SCORE_PER_HIT as int * self.collision_events as int <= 10 * 0xffff_ffff_ffff_ffff) by (nonlinear_arith)
                requires self.collision_events <= 0xffff_ffff_ffff_ffffu64, SCORE_PER_HIT == 10;
        }
        let total: u128 = self.score as u128 + SCORE_PER_HIT as u128 * self.collision_events as u128;
        self.score = if total > u32::MAX as u128 {
            u32::MAX
        } else {
            total as u32
        };
        self.collision_events = 0;
    }

    /// Drains this frame's game-over events. On one, the player and the score
    /// text go (if still there) and the game-over text and the restart control
    /// appear.
    pub fn game_over(&mut self)
        ensures
            game_over_effect(*old(self), *final(self)),
    {
        if self.game_over_events > 0 {
            self.player = None;
            self.displays.score_text = false;
            self.displays.game_over_text = true;
            self.displays.restart_control = true;
        }
        self.game_over_events = 0;
    }
}

/// The effect of `World::check_for_collisions`: `b` is `a` after the call.
pub open spec fn check_for_collisions_effect(a: World, b: World) -> bool {
    &&& b.bullets@ == enemy_pass(a.bullets@, a.enemies@).0
    &&& b.enemies@ == enemy_pass(a.bullets@, a.enemies@).1
    &&& b.collision_events == counted(
            a.collision_events,
            enemy_pass(a.bullets@, a.enemies@).2 as int,
        )
    &&& crate::world::world_wf(a) ==> crate::world::world_wf(b)
    &&& b.player == a.player
    &&& b.state == a.state
    &&& b.next_state == a.next_state
    &&& b.displays == a.displays
    &&& b.score == a.score
    &&& b.spawn_timer == a.spawn_timer
    &&& b.hit_feedback == a.hit_feedback
    &&& b.hit_events@ == a.hit_events@
    &&& b.game_over_events == a.game_over_events
}

/// The effect of `World::check_for_collisions_player`: `b` is `a` after the call.
pub open spec fn check_for_collisions_player_effect(a: World, b: World) -> bool {
    &&& b.bullets@ == player_pass(a.bullets@, a.player).0
    &&& b.hit_events@ == a.hit_events@ + player_pass(a.bullets@, a.player).1
    &&& b.player == a.player
    &&& b.enemies@ == a.enemies@
    &&& b.state == a.state
    &&& b.next_state == a.next_state
    &&& b.displays == a.displays
    &&& b.score == a.score
    &&& b.spawn_timer == a.spawn_timer
    &&& b.hit_feedback == a.hit_feedback
    &&& b.collision_events == a.collision_events
    &&& b.game_over_events == a.game_over_events
}

/// The effect of `World::player_hit`: `b` is `a` after the call.
pub open spec fn player_hit_effect(a: World, b: World) -> bool {
    &&& b.hit_events@.len() == 0
    &&& match a.player {
            Some(p) => if a.hit_events@.len() > 0 {
                &&& b.player == Some(Player {
                    hp: hp_after(p.hp, a.hit_events@),
                    tint: Tint::Hit,
                    ..p
                })
                &&& b.game_over_events == counted(
                    a.game_over_events,
                    zero_hits(p.hp, a.hit_events@) as int,
                )
                &&& b.hit_feedback == armed_feedback(a.hit_feedback)
            } else {
                &&& b.player == a.player
                &&& b.game_over_events == a.game_over_events
                &&& b.hit_feedback == a.hit_feedback
            },
            None => {
                &&& b.player == a.player
                &&& b.game_over_events == a.game_over_events
                &&& b.hit_feedback == a.hit_feedback
            },
        }
    &&& b.enemies@ == a.enemies@
    &&& b.bullets@ == a.bullets@
    &&& b.state == a.state
    &&& b.next_state == a.next_state
    &&& b.displays == a.displays
    &&& b.score == a.score
    &&& b.spawn_timer == a.spawn_timer
    &&& b.collision_events == a.collision_events
}

/// The effect of `World::player_hit_feedback`: `b` is `a` after the call.
pub open spec fn player_hit_feedback_effect(a: World, b: World, dt: u64) -> bool {
    &&& b.hit_feedback == crate::timer::ticked(a.hit_feedback, dt)
    &&& b.player == (match a.player {
            Some(p) => if b.hit_feedback.just_finished {
                Some(Player { tint: Tint::Normal, ..p })
            } else {
                Some(p)
            },
            None => None,
        })
    &&& same_entities(World { player: a.player, ..b }, a)
    &&& b.state == a.state
    &&& b.next_state == a.next_state
    &&& b.displays == a.displays
    &&& b.score == a.score
    &&& b.spawn_timer == a.spawn_timer
    &&& b.collision_events == a.collision_events
    &&& b.hit_events@ == a.hit_events@
    &&& b.game_over_events == a.game_over_events
}

/// The effect of `World::increase_score`: `b` is `a` after the call.
pub open spec fn increase_score_effect(a: World, b: World) -> bool {
    &&& b.score == added(a.score, SCORE_PER_HIT as int * a.collision_events as int)
    &&& b.collision_events == 0
    &&& same_entities(a, b)
    &&& b.state == a.state
    &&& b.next_state == a.next_state
    &&& b.displays == a.displays
    &&& b.spawn_timer == a.spawn_timer
    &&& b.hit_feedback == a.hit_feedback
    &&& b.hit_events@ == a.hit_events@
    &&& b.game_over_events == a.game_over_events
}

/// The effect of `World::game_over`: `b` is `a` after the call.
pub open spec fn game_over_effect(a: World, b: World) -> bool {
    &&& b.game_over_events == 0
    &&& ({
            let ends = a.game_over_events > 0;
            &&& b.player == (if ends { None } else { a.player })
            &&& b.displays == (if ends {
                crate::world::Displays {
                    score_text: false,
                    game_over_text: true,
                    restart_control: true,
                    ..a.displays
                }
            } else {
                a.displays
            })
        })
    &&& b.enemies@ == a.enemies@
    &&& b.bullets@ == a.bullets@
    &&& b.state == a.state
    &&& b.next_state == a.next_state
    &&& b.score == a.score
    &&& b.spawn_timer == a.spawn_timer
    &&& b.hit_feedback == a.hit_feedback
    &&& b.collision_events == a.collision_events
    &&& b.hit_events@ == a.hit_events@
}

} // verus!
