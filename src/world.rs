use vstd::prelude::*;
use crate::geometry::Point;
use crate::timer::{Timer, restarted, consistent};

verus! {

/// Hit points of a fresh player.
pub const PLAYER_MAX_HP: u32 = 100;
/// Hit points of a fresh enemy.
pub const ENEMY_MAX_HP: u32 = 10;
/// Damage of every gun's bullets.
pub const GUN_DAMAGE: u32 = 10;
/// Side of a ship's (player's or enemy's) square bounding box.
pub const SHIP_SIZE: u32 = 50_000;
/// Side of a bullet's square bounding box.
pub const BULLET_SIZE: u32 = 10_000;
/// Cooldown of the player's gun, in microseconds.
pub const PLAYER_COOLDOWN: u64 = 250_000;
/// How long the player shows the hit tint, in microseconds.
pub const HIT_FEEDBACK_MICROS: u64 = 50_000;
/// Duration of the enemy spawn timer before its first firing.
pub const FIRST_SPAWN_MICROS: u64 = 2_000_000;
/// Points scored for each bullet that hits an enemy.
pub const SCORE_PER_HIT: u32 = 10;
/// Height at which a fresh player appears.
pub const PLAYER_START_Y: i64 = -350_000;

/// Which side an entity or bullet is on.
#[derive(Clone, Copy, Debug, PartialEq, Eq, Structural)]
pub enum Hostility {
    /// Harms the player.
    Hostile,
    /// Harms enemies.
    Friendly,
}

/// The player's colour.
#[derive(Clone, Copy, Debug, PartialEq, Eq, Structural)]
pub enum Tint {
    Normal,
    Hit,
}

/// The vertical direction an enemy hovers in.
#[derive(Clone, Copy, Debug, PartialEq, Eq, Structural)]
pub enum Heading {
    Up,
    Down,
    Still,
}

/// The lifecycle of a round.
#[derive(Clone, Copy, Debug, PartialEq, Eq, Structural)]
pub enum GameState {
    Restarting,
    Running,
}

/// A gun: the cooldown between shots and the damage of each bullet.
#[derive(Clone, Copy, Debug, PartialEq, Eq, Structural)]
pub struct Gun {
    pub cooldown: Timer,
    pub damage: u32,
}

/// The player ship.
#[derive(Clone, Copy, Debug, PartialEq, Eq, Structural)]
pub struct Player {
    pub pos: Point,
    pub hp: u32,
    pub gun: Gun,
    pub tint: Tint,
}

/// The band an enemy hovers in: below `lower_base` less some of `lower_margin`
/// it turns up, above `upper_base` plus some of `upper_margin` it turns down.
#[derive(Clone, Copy, Debug, PartialEq, Eq, Structural)]
pub struct Hover {
    pub upper_base: i64,
    pub upper_margin: u32,
    pub lower_base: i64,
    pub lower_margin: u32,
}

/// An enemy ship.
#[derive(Clone, Copy, Debug, PartialEq, Eq, Structural)]
pub struct Enemy {
    pub pos: Point,
    pub hp: u32,
    pub gun: Gun,
    pub hover: Hover,
    pub heading: Heading,
}

/// A bullet; `velocity` is in thousandths per second, positive upwards.
#[derive(Clone, Copy, Debug, PartialEq, Eq, Structural)]
pub struct Bullet {
    pub pos: Point,
    pub velocity: i64,
    pub damage: u32,
    pub hostility: Hostility,
}

/// The display elements that the presentation side shows.
#[derive(Clone, Copy, Debug, PartialEq, Eq, Structural)]
pub struct Displays {
    pub camera: bool,
    pub score_text: bool,
    pub game_over_text: bool,
    pub restart_control: bool,
}

/// The whole simulation: entities, global counters and timers, and the events
/// of the current frame.
pub struct World {
    pub state: GameState,
    pub next_state: Option<GameState>,
    pub player: Option<Player>,
    pub enemies: Vec<Enemy>,
    pub bullets: Vec<Bullet>,
    pub displays: Displays,
    pub score: u32,
    pub spawn_timer: Timer,
    pub hit_feedback: Timer,
    /// Bullets that hit an enemy this frame.
    pub collision_events: u64,
    /// Damage of each bullet that hit the player this frame, in order.
    pub hit_events: Vec<u32>,
    /// Times the player's health reached zero this frame.
    pub game_over_events: u64,
}

/// `h` reduced by `d`, stopping at zero.
pub open spec fn damaged(h: u32, d: u32) -> u32 {
    if d >= h {
        0
    } else {
        (h - d) as u32
    }
}

/// Health `h` after a hit of `d`: never below zero.
pub fn apply_damage(h: u32, d: u32) -> (r: u32)
    ensures
        r == damaged(h, d),
{
    h.saturating_sub(d)
}

/// Damage at least equal to the health left brings it to exactly zero.
pub proof fn lemma_overkill_leaves_zero(h: u32, d: u32)
    requires
        d >= h,
    ensures
        damaged(h, d) == 0,
{
}

/// `v` plus `d`, stopping at the largest `u32`.
pub open spec fn added(v: u32, d: int) -> u32 {
    if v + d > u32::MAX {
        u32::MAX
    } else {
        (v + d) as u32
    }
}

/// `v` plus `d`, stopping at the largest `u64`.
pub open spec fn counted(v: u64, d: int) -> u64 {
    if v + d > u64::MAX {
        u64::MAX
    } else {
        (v + d) as u64
    }
}

/// The player as a round starts.
pub open spec fn fresh_player() -> Player {
    Player {
        pos: Point { x: 0, y: PLAYER_START_Y },
        hp: PLAYER_MAX_HP,
        gun: Gun {
            cooldown: Timer {
                duration: PLAYER_COOLDOWN,
                elapsed: 0,
                repeating: false,
                finished: false,
                just_finished: false,
            },
            damage: GUN_DAMAGE,
        },
        tint: Tint::Normal,
    }
}

/// A player as a round starts: full health, at the bottom of the play area.
pub fn new_player() -> (r: Player)
    ensures
        r == fresh_player(),
{
    Player {
        pos: Point { x: 0, y: PLAYER_START_Y },
        hp: PLAYER_MAX_HP,
        gun: Gun { cooldown: Timer::from_micros(PLAYER_COOLDOWN, false), damage: GUN_DAMAGE },
        tint: Tint::Normal,
    }
}

/// What every state of the world keeps: guns and the spawn timer are
/// one-shot timers of positive duration whose finished flag agrees with their
/// count.
pub open spec fn world_wf(w: World) -> bool {
    &&& w.spawn_timer.duration > 0
    &&& consistent(w.spawn_timer)
    &&& (w.player matches Some(p) ==> gun_ready(p.gun))
    &&& forall|i: int| 0 <= i < w.enemies@.len() ==> gun_ready(#[trigger] w.enemies@[i].gun)
}

/// A gun whose cooldown is a consistent one-shot timer of positive duration.
pub open spec fn gun_ready(g: Gun) -> bool {
    g.cooldown.duration > 0 && consistent(g.cooldown)
}

/// `gun_ready` computed.
pub fn is_gun_ready(g: Gun) -> (r: bool)
    ensures
        r == gun_ready(g),
{
    let t = g.cooldown;
    t.duration > 0 && !t.repeating && (if t.finished { t.elapsed == t.duration } else { t.elapsed < t.duration })
}

/// Every field of `b` but the entities equals that of `a`.
pub open spec fn same_globals(a: World, b: World) -> bool {
    &&& b.state == a.state
    &&& b.next_state == a.next_state
    &&& b.displays == a.displays
    &&& b.score == a.score
    &&& b.spawn_timer == a.spawn_timer
    &&& b.hit_feedback == a.hit_feedback
    &&& b.collision_events == a.collision_events
    &&& b.hit_events@ == a.hit_events@
    &&& b.game_over_events == a.game_over_events
}

/// `b` holds the same entities as `a`.
pub open spec fn same_entities(a: World, b: World) -> bool {
    &&& b.player == a.player
    &&& b.enemies@ == a.enemies@
    &&& b.bullets@ == a.bullets@
}

/// The world after one state change: leaving `Running` clears every entity
/// and the score, entering `Restarting` asks for `Running` at once, entering
/// `Running` spawns the camera, the player and the score text.
pub open spec fn transitioned(a: World, b: World) -> bool {
    match a.next_state {
        None => same_globals(a, b) && same_entities(a, b),
        Some(s) => if s == a.state {
            &&& b.next_state == None::<GameState>
            &&& same_globals(World { next_state: None, ..a }, b)
            &&& same_entities(a, b)
        } else {
            &&& b.state == s
            &&& b.next_state == (if s == GameState::Restarting {
                Some(GameState::Running)
            } else {
                None
            })
            &&& b.score == (if a.state == GameState::Running { 0 } else { a.score })
            &&& b.enemies@ == (if a.state == GameState::Running { Seq::empty() } else { a.enemies@ })
            &&& b.bullets@ == (if a.state == GameState::Running { Seq::empty() } else { a.bullets@ })
            &&& b.player == (if s == GameState::Running {
                Some(fresh_player())
            } else if a.state == GameState::Running {
                None
            } else {
                a.player
            })
            &&& b.displays == (if s == GameState::Running {
                Displays { camera: true, score_text: true, ..(if a.state == GameState::Running {
                    Displays { camera: false, score_text: false, game_over_text: false, restart_control: false }
                } else {
                    a.displays
                }) }
            } else if a.state == GameState::Running {
                Displays { camera: false, score_text: false, game_over_text: false, restart_control: false }
            } else {
                a.displays
            })
            &&& b.spawn_timer == a.spawn_timer
            &&& b.hit_feedback == a.hit_feedback
            &&& b.collision_events == a.collision_events
            &&& b.hit_events@ == a.hit_events@
            &&& b.game_over_events == a.game_over_events
        },
    }
}

impl World {
    /// A world before its first round: `Restarting`, with `Running` requested.
    pub fn new() -> (r: World)
        ensures
            world_wf(r),
            r.state == GameState::Restarting,
            r.next_state == Some(GameState::Running),
            r.player.is_none(),
            r.enemies@.len() == 0,
            r.bullets@.len() == 0,
            r.displays == (Displays { camera: false, score_text: false, game_over_text: false, restart_control: false }),
            r.score == 0,
            r.spawn_timer == restarted(Timer { duration: FIRST_SPAWN_MICROS, elapsed: 0, repeating: false, finished: false, just_finished: false }),
            r.hit_feedback == restarted(Timer { duration: 0, elapsed: 0, repeating: false, finished: false, just_finished: false }),
            r.collision_events == 0,
            r.hit_events@.len() == 0,
            r.game_over_events == 0,
    {
        World {
            state: GameState::Restarting,
            next_state: Some(GameState::Running),
            player: None,
            enemies: Vec::new(),
            bullets: Vec::new(),
            displays: Displays { camera: false, score_text: false, game_over_text: false, restart_control: false },
            score: 0,
            spawn_timer: Timer::from_micros(FIRST_SPAWN_MICROS, false),
            hit_feedback: Timer::from_micros(0, false),
            collision_events: 0,
            hit_events: Vec::new(),
            game_over_events: 0,
        }
    }

    /// Whether the world holds `world_wf`.
    pub fn is_wf(&self) -> (r: bool)
        ensures
            r == world_wf(*self),
    {
        let t = self.spawn_timer;
        if !(t.duration > 0 && !t.repeating && (if t.finished { t.elapsed == t.duration } else { t.elapsed < t.duration })) {
            return false;
        }
        match self.player {
            Some(p) => {
                if !is_gun_ready(p.gun) {
                    return false;
                }
            },
            None => {},
        }
        let mut i: usize = 0;
        while i < self.enemies.len()
            invariant
                0 <= i <= self.enemies@.len(),
                forall|j: int| 0 <= j < i ==> gun_ready(#[trigger] self.enemies@[j].gun),
            decreases self.enemies@.len() - i,
        {
            if !is_gun_ready(self.enemies[i].gun) {
                return false;
            }
            i = i + 1;
        }
        true
    }

    /// Despawns every entity and display and sets the score to zero.
    fn teardown(&mut self)
        ensures
            final(self).player.is_none(),
            final(self).enemies@ == Seq::<Enemy>::empty(),
            final(self).bullets@ == Seq::<Bullet>::empty(),
            final(self).displays == (Displays { camera: false, score_text: false, game_over_text: false, restart_control: false }),
            final(self).score == 0,
            final(self).state == old(self).state,
            final(self).next_state == old(self).next_state,
            final(self).spawn_timer == old(self).spawn_timer,
            final(self).hit_feedback == old(self).hit_feedback,
            final(self).collision_events == old(self).collision_events,
            final(self).hit_events@ == old(self).hit_events@,
            final(self).game_over_events == old(self).game_over_events,
    {
        self.player = None;
        self.enemies = Vec::new();
        self.bullets = Vec::new();
        self.displays = Displays { camera: false, score_text: false, game_over_text: false, restart_control: false };
        self.score = 0;
        assert(self.enemies@ =~= Seq::<Enemy>::empty());
        assert(self.bullets@ =~= Seq::<Bullet>::empty());
    }

    /// Performs the requested state change, if any.
    pub fn apply_state_transition(&mut self)
        requires
            world_wf(*old(self)),
        ensures
            world_wf(*final(self)),
            transitioned(*old(self), *final(self)),
    {
        let next = self.next_state;
        self.next_state = None;
        match next {
            None => {},
            Some(s) => {
                if s != self.state {
                    if self.state == GameState::Running {
                        self.teardown();
                    }
                    self.state = s;
                    match s {
                        GameState::Restarting => {
                            self.next_state = Some(GameState::Running);
                        },
                        GameState::Running => {
                            self.displays.camera = true;
                            self.player = Some(new_player());
                            self.displays.score_text = true;
                        },
                    }
                }
            },
        }
        proof {
            if next.is_none() {
                assert(self.next_state == None::<GameState>);
            }
        }
    }

    /// Asks for a restart when the restart control was pressed.
    pub fn restart_button(&mut self, pressed: bool)
        ensures
            restart_button_effect(*old(self), *final(self), pressed),
    {
        if pressed {
            self.next_state = Some(GameState::Restarting);
        }
    }
}

/// A restart requested in a running round (as `restart_button` does on a
/// press), followed by the two state changes it leads to, gives a score of
/// zero, no enemies, no bullets and exactly one fresh player at full health.
pub proof fn lemma_restart_resets(w1: World, w2: World, w3: World)
    requires
        w1.state == GameState::Running,
        w1.next_state == Some(GameState::Restarting),
        transitioned(w1, w2),
        transitioned(w2, w3),
    ensures
        w3.state == GameState::Running,
        w3.score == 0,
        w3.enemies@.len() == 0,
        w3.bullets@.len() == 0,
        w3.player == Some(fresh_player()),
        w3.player.unwrap().hp == PLAYER_MAX_HP,
{
}

/// The effect of `World::restart_button`: `b` is `a` after the call.
pub open spec fn restart_button_effect(a: World, b: World, pressed: bool) -> bool {
    &&& b.next_state == (if pressed { Some(GameState::Restarting) } else { a.next_state })
    &&& same_globals(World { next_state: a.next_state, ..b }, a)
    &&& same_entities(a, b)
}

} // verus!
