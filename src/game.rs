//! The game's phases (title, playing, game over), the score aggregate, and
//! the frame loop of a session.
use vstd::prelude::*;
use crate::config::{DT_LIMIT, FIRST_SPAWN_DELAY, GAMEOVER_DELAY};
use crate::fixed::EXTENT;
use crate::lifecycle::lifetime_control;
use crate::physics::{apply_gravity, apply_velocity, asteroid_drag};
use crate::planet::{planet_collapse, planet_collision};
use crate::ship::{fire_control, lay_trail, ship_control, space_clamp, Controls};
use crate::spawner::asteroid_spawner;
use crate::strike::asteroid_collision;
use crate::config::{
    ASTEROID_MASS_MIN, ASTEROID_RADIUS_MIN, ASTEROID_SPAWN_DELAY_MIN, ASTEROID_SPEED_MIN,
};
use crate::fixed::Vec2;
use crate::lifecycle::expire;
use crate::physics::{advanced, dragged, moved, pulled, pulled_ship};
use crate::planet::{collapsed, fed_planet, ship_swallowed, spared_by};
use crate::ship::{after_gun, bullet_from, count_down, gun_ready, steered, trail_from, wrap_axis};
use crate::spawner::{due, launched, SpawnRoll};
use crate::shatter::ShatterRoll;
use crate::strike::{add_score, all_debris, rolls_fit, score_total, struck_asteroids, survivors};
use crate::world::{scene, start_planet, start_ship, Body, Planet, Scene, Ship, World};

verus! {

#[derive(Clone, Copy, PartialEq, Eq, Debug, Structural)]
pub enum GameState {
    Title,
    Playing,
    GameOver,
}

/// The score aggregate of a session.
#[derive(Clone, Copy, PartialEq, Eq, Debug, Structural)]
pub struct Game {
    pub score: u32,
    /// Milliseconds played while the ship was alive and the planet stable.
    pub time: u64,
    /// Milliseconds that the loss condition has held.
    pub gameover_time: u64,
    /// Whether the ship's predicted trajectory is shown.
    pub draw_trajectory: bool,
}

impl Game {
    pub fn new() -> (r: Game)
        ensures
            r == (Game { score: 0, time: 0, gameover_time: 0, draw_trajectory: false }),
    {
        Game { score: 0, time: 0, gameover_time: 0, draw_trajectory: false }
    }
}

/// The aggregate as a new session starts: score and timers at zero, the
/// trajectory display as it was.
pub open spec fn reset_game(g: Game) -> Game {
    Game { score: 0, time: 0, gameover_time: 0, draw_trajectory: g.draw_trajectory }
}

pub open spec fn sat_add(a: int, b: int) -> int {
    if a + b > u64::MAX {
        u64::MAX as int
    } else {
        a + b
    }
}

/// The session is lost once the ship is gone or the planet collapses.
pub open spec fn loss_holds(ship: Option<Ship>, planet: Option<Planet>) -> bool {
    ship is None || (planet matches Some(p) && p.is_collapsing())
}

/// The aggregate after a frame of `dt` milliseconds: the grace timer runs
/// while the loss condition holds, the play time while it does not. The
/// grace timer is not reset when the condition lifts.
pub open spec fn checked(g: Game, loss: bool, dt: int) -> Game {
    if loss {
        Game { gameover_time: sat_add(g.gameover_time as int, dt) as u64, ..g }
    } else {
        Game { time: sat_add(g.time as int, dt) as u64, ..g }
    }
}

fn add_sat(a: u64, b: u64) -> (r: u64)
    ensures
        r == sat_add(a as int, b as int),
{
    if a > u64::MAX - b {
        u64::MAX
    } else {
        a + b
    }
}

/// The loss check of a frame; tells whether the grace time has run out.
pub fn check_player(game: &mut Game, loss: bool, dt: u64) -> (over: bool)
    ensures
        *final(game) == checked(*old(game), loss, dt as int),
        over == (loss && final(game).gameover_time >= GAMEOVER_DELAY),
{
    if loss {
        game.gameover_time = add_sat(game.gameover_time, dt);
        game.gameover_time >= GAMEOVER_DELAY
    } else {
        game.time = add_sat(game.time, dt);
        false
    }
}

pub fn is_lost(world: &World) -> (r: bool)
    ensures
        r == loss_holds(world.ship, world.planet),
{
    match (world.ship, world.planet) {
        (None, _) => true,
        (Some(_), Some(p)) => p.collapse != crate::world::Collapse::Stable,
        (Some(_), None) => false,
    }
}

/// What the input source reports for one frame.
#[derive(Clone, Copy, PartialEq, Eq, Debug, Structural)]
pub struct Input {
    pub controls: Controls,
    pub confirm: bool,
    pub toggle_trajectory: bool,
}

pub open spec fn valid_transition(from: GameState, to: GameState) -> bool {
    match (from, to) {
        (GameState::Title, GameState::Playing) => true,
        (GameState::Playing, GameState::GameOver) => true,
        (GameState::GameOver, GameState::Playing) => true,
        _ => false,
    }
}

pub open spec fn is_fresh(w: World) -> bool {
    &&& w.ship == Some(start_ship())
    &&& w.planet == Some(start_planet())
    &&& w.bodies@.len() == 0
}

pub open spec fn is_empty(w: World) -> bool {
    &&& w.ship is None
    &&& w.planet is None
    &&& w.bodies@.len() == 0
}

pub open spec fn steer_scene(sc: Scene, c: Controls, dt: int) -> Scene {
    (
        match sc.0 {
            Some(s) => Some(steered(s, c, dt)),
            None => None,
        },
        sc.1,
        sc.2,
    )
}

pub open spec fn gravity_scene(sc: Scene, dt: int) -> Scene {
    match sc.1 {
        None => sc,
        Some(p) => (
            match sc.0 {
                Some(s) => Some(pulled_ship(p, s, dt)),
                None => None,
            },
            sc.1,
            sc.2.map_values(|b: Body| pulled(p, b, dt)),
        ),
    }
}

pub open spec fn drag_scene(sc: Scene, dt: int) -> Scene {
    (
        sc.0,
        sc.1,
        match sc.1 {
            None => sc.2,
            Some(p) => sc.2.map_values(|b: Body| dragged(p, b, dt)),
        },
    )
}

pub open spec fn motion_scene(sc: Scene, dt: int) -> Scene {
    (
        match sc.0 {
            Some(s) => Some(Ship { pos: moved(s.pos, s.vel, dt), ..s }),
            None => None,
        },
        sc.1,
        sc.2.map_values(|b: Body| advanced(b, dt)),
    )
}

pub open spec fn swallow_scene(sc: Scene) -> Scene {
    match sc.1 {
        None => sc,
        Some(p) => (
            if ship_swallowed(p, sc.0) {
                None
            } else {
                sc.0
            },
            Some(fed_planet(p, sc.0, sc.2)),
            sc.2.filter(spared_by(p)),
        ),
    }
}

pub open spec fn strike_scene(sc: Scene, rolls: Seq<ShatterRoll>) -> Scene {
    (sc.0, sc.1, survivors(sc.2) + all_debris(struck_asteroids(sc.2), rolls))
}

pub open spec fn gun_scene(sc: Scene, fire: bool, dt: int) -> Scene {
    match sc.0 {
        None => sc,
        Some(s) => (
            Some(after_gun(s, fire, dt)),
            sc.1,
            if gun_ready(s, fire, dt) {
                sc.2.push(bullet_from(s))
            } else {
                sc.2
            },
        ),
    }
}

pub open spec fn spawn_scene(sc: Scene, timer: int, dt: int, roll: SpawnRoll) -> Scene {
    if due(timer, dt) {
        (sc.0, sc.1, sc.2.push(launched(roll)))
    } else {
        sc
    }
}

pub open spec fn spawn_timer_after(timer: int, dt: int, roll: SpawnRoll) -> int {
    if due(timer, dt) {
        roll.delay as int
    } else {
        count_down(timer, dt)
    }
}

pub open spec fn expire_scene(sc: Scene, dt: int) -> Scene {
    (sc.0, sc.1, expire(sc.2, dt))
}

pub open spec fn collapse_scene(sc: Scene, dt: int) -> Scene {
    (
        sc.0,
        match sc.1 {
            Some(p) => Some(collapsed(p, dt)),
            None => None,
        },
        sc.2,
    )
}

pub open spec fn wrap_scene(sc: Scene, half_w: int, half_h: int) -> Scene {
    (
        match sc.0 {
            Some(s) => Some(
                Ship {
                    pos: Vec2 {
                        x: wrap_axis(s.pos.x as int, half_w) as i64,
                        y: wrap_axis(s.pos.y as int, half_h) as i64,
                    },
                    ..s
                },
            ),
            None => None,
        },
        sc.1,
        sc.2,
    )
}

pub open spec fn trail_scene(sc: Scene) -> Scene {
    match sc.0 {
        None => sc,
        Some(s) => (Some(Ship { last_pos: s.pos, ..s }), sc.1, sc.2.push(trail_from(s))),
    }
}

/// The scene that the bullet strikes of a frame act on: after steering,
/// gravity, drag, motion and the planet's swallowing.
pub open spec fn strike_input(sc: Scene, c: Controls, dt: int) -> Scene {
    swallow_scene(motion_scene(drag_scene(gravity_scene(steer_scene(sc, c, dt), dt), dt), dt))
}

/// The shatter rolls fit the asteroids that the frame's strikes destroy.
pub open spec fn frame_rolls_fit(sc: Scene, input: Input, dt: int, rolls: Seq<ShatterRoll>) -> bool {
    rolls_fit(struck_asteroids(strike_input(sc, input.controls, dt).2), rolls)
}

/// The scene at the end of a frame of play, given the random draws.
pub open spec fn frame_scene(
    sc: Scene,
    timer: int,
    input: Input,
    dt: int,
    half_w: int,
    half_h: int,
    rolls: Seq<ShatterRoll>,
    launch: SpawnRoll,
) -> Scene {
    let s2 = strike_scene(strike_input(sc, input.controls, dt), rolls);
    let s4 = spawn_scene(gun_scene(s2, input.controls.fire, dt), timer, dt, launch);
    trail_scene(wrap_scene(collapse_scene(expire_scene(s4, dt), dt), half_w, half_h))
}

/// The score aggregate at the end of a frame of play.
pub open spec fn frame_game(sc: Scene, g: Game, input: Input, dt: int, end: Scene) -> Game {
    let gained = add_score(
        g.score as int,
        score_total(struck_asteroids(strike_input(sc, input.controls, dt).2)),
    );
    checked(
        Game {
            score: gained as u32,
            draw_trajectory: g.draw_trajectory != input.toggle_trajectory,
            ..g
        },
        loss_holds(end.0, end.1),
        dt,
    )
}

/// The session has lost once the loss condition has held for the grace
/// time.
pub open spec fn grace_over(end: Scene, g: Game) -> bool {
    loss_holds(end.0, end.1) && g.gameover_time >= GAMEOVER_DELAY
}

/// A frame of play turned `old` into `new` with these draws.
pub open spec fn played(
    sc: Scene,
    g: Game,
    timer: int,
    input: Input,
    dt: int,
    half_w: int,
    half_h: int,
    rolls: Seq<ShatterRoll>,
    launch: SpawnRoll,
    end: Scene,
    g2: Game,
    timer2: int,
) -> bool {
    &&& frame_rolls_fit(sc, input, dt, rolls)
    &&& launch.wf()
    &&& end == frame_scene(sc, timer, input, dt, half_w, half_h, rolls, launch)
    &&& g2 == frame_game(sc, g, input, dt, end)
    &&& timer2 == spawn_timer_after(timer, dt, launch)
}

/// A game: its phase, score aggregate, entities and spawn countdown.
pub struct Session {
    pub state: GameState,
    pub game: Game,
    pub world: World,
    /// Milliseconds before the next asteroid launch; kept across sessions.
    pub spawn_timer: u64,
}

impl Session {
    pub open spec fn wf(self) -> bool {
        &&& self.world.wf()
        &&& self.state != GameState::Playing ==> is_empty(self.world)
    }

    /// A game at its title screen.
    pub fn new() -> (r: Session)
        ensures
            r.wf(),
            r.state == GameState::Title,
            r.game == (Game { score: 0, time: 0, gameover_time: 0, draw_trajectory: false }),
            is_empty(r.world),
            r.spawn_timer == FIRST_SPAWN_DELAY,
    {
        Session { state: GameState::Title, game: Game::new(), world: World::empty(), spawn_timer: FIRST_SPAWN_DELAY }
    }

    /// Entering play: a fresh ship and planet, and the aggregate reset.
    pub fn setup_playing(&mut self)
        ensures
            is_fresh(final(self).world),
            final(self).world.wf(),
            final(self).game == reset_game(old(self).game),
            final(self).state == old(self).state,
            final(self).spawn_timer == old(self).spawn_timer,
    {
        self.world = World { ship: Some(Ship::new()), planet: Some(Planet::new()), bodies: Vec::new() };
        self.game = Game { score: 0, time: 0, gameover_time: 0, draw_trajectory: self.game.draw_trajectory };
    }

    /// Leaving play: every entity of the session goes.
    pub fn teardown_playing(&mut self)
        ensures
            is_empty(final(self).world),
            final(self).world.wf(),
            final(self).game == old(self).game,
            final(self).state == old(self).state,
            final(self).spawn_timer == old(self).spawn_timer,
    {
        self.world = World::empty();
    }

    /// Moves to phase `to`, running the exit hook of the phase left and the
    /// enter hook of the phase entered, once each. A transition that the
    /// game does not have is refused and changes nothing.
    pub fn transition(&mut self, to: GameState) -> (done: bool)
        requires
            old(self).wf(),
        ensures
            final(self).wf(),
            done == valid_transition(old(self).state, to),
            final(self).spawn_timer == old(self).spawn_timer,
            !done ==> final(self).state == old(self).state && final(self).game == old(self).game
                && final(self).world == old(self).world,
            done ==> final(self).state == to,
            done && to == GameState::Playing ==> is_fresh(final(self).world) && final(self).game
                == reset_game(old(self).game),
            done && to == GameState::GameOver ==> is_empty(final(self).world) && final(self).game
                == old(self).game,
    {
        let ok = match (self.state, to) {
            (GameState::Title, GameState::Playing) => true,
            (GameState::Playing, GameState::GameOver) => true,
            (GameState::GameOver, GameState::Playing) => true,
            _ => false,
        };
        if !ok {
            return false;
        }
        if self.state == GameState::Playing {
            self.teardown_playing();
        }
        self.state = to;
        if to == GameState::Playing {
            self.setup_playing();
        }
        true
    }

    /// One frame of play, in order: steering, gravity, drag, motion, the
    /// planet's swallowing, bullet strikes, the gun, the spawner, expiry,
    /// collapse, screen wrap, the trail, and the loss check. The world,
    /// score aggregate and spawn countdown end as `played` states for some
    /// fitting draws; the result tells whether the grace time of the loss
    /// condition has run out.
    pub fn play_frame(&mut self, input: Input, dt: u64, half_w: i64, half_h: i64) -> (over: bool)
        requires
            old(self).world.wf(),
            dt <= DT_LIMIT,
            0 < half_w <= EXTENT,
            0 < half_h <= EXTENT,
        ensures
            final(self).world.wf(),
            final(self).state == old(self).state,
            exists|rolls: Seq<ShatterRoll>, launch: SpawnRoll|
                played(
                    scene(old(self).world),
                    old(self).game,
                    old(self).spawn_timer as int,
                    input,
                    dt as int,
                    half_w as int,
                    half_h as int,
                    rolls,
                    launch,
                    scene(final(self).world),
                    final(self).game,
                    final(self).spawn_timer as int,
                ),
            over == grace_over(scene(final(self).world), final(self).game),
    {
        let ghost sc0 = scene(self.world);
        let ghost g0 = self.game;
        let ghost t0 = self.spawn_timer as int;
        let ghost c = input.controls;
        let ghost d = dt as int;
        ship_control(&mut self.world, &mut self.game, input.controls, input.toggle_trajectory, dt);
        assert(scene(self.world) == steer_scene(sc0, c, d));
        apply_gravity(&mut self.world, dt);
        assert(scene(self.world) == gravity_scene(steer_scene(sc0, c, d), d));
        asteroid_drag(&mut self.world, dt);
        apply_velocity(&mut self.world, dt);
        planet_collision(&mut self.world);
        let ghost s1 = strike_input(sc0, c, d);
        assert(scene(self.world) == s1);
        let ghost score0 = self.game.score;
        asteroid_collision(&mut self.world, &mut self.game.score);
        let ghost rolls = choose|rolls: Seq<ShatterRoll>|
            {
                &&& rolls_fit(struck_asteroids(s1.2), rolls)
                &&& self.world.bodies@ == survivors(s1.2) + all_debris(struck_asteroids(s1.2), rolls)
            };
        let ghost s2 = strike_scene(s1, rolls);
        assert(scene(self.world) == s2);
        fire_control(&mut self.world, input.controls.fire, dt);
        let ghost s3 = gun_scene(s2, input.controls.fire, d);
        assert(scene(self.world) == s3);
        let ghost timer_before = self.spawn_timer as int;
        asteroid_spawner(&mut self.world, &mut self.spawn_timer, dt);
        let ghost launch = if due(timer_before, d) {
            choose|roll: SpawnRoll|
                {
                    &&& roll.wf()
                    &&& self.spawn_timer == roll.delay
                    &&& self.world.bodies@ == s3.2.push(launched(roll))
                }
        } else {
            SpawnRoll {
                angle: 0,
                radius: ASTEROID_RADIUS_MIN,
                mass: ASTEROID_MASS_MIN,
                speed: ASTEROID_SPEED_MIN,
                seed: 0,
                delay: ASTEROID_SPAWN_DELAY_MIN,
            }
        };
        assert(scene(self.world) == spawn_scene(s3, t0, d, launch));
        assert(self.spawn_timer == spawn_timer_after(t0, d, launch));
        lifetime_control(&mut self.world, dt);
        planet_collapse(&mut self.world, dt);
        space_clamp(&mut self.world, half_w, half_h);
        lay_trail(&mut self.world);
        let ghost end = frame_scene(sc0, t0, input, d, half_w as int, half_h as int, rolls, launch);
        assert(scene(self.world) == end);
        let loss = is_lost(&self.world);
        let over = check_player(&mut self.game, loss, dt);
        assert(self.game == frame_game(sc0, g0, input, d, end));
        assert(played(
            sc0,
            g0,
            t0,
            input,
            d,
            half_w as int,
            half_h as int,
            rolls,
            launch,
            scene(self.world),
            self.game,
            self.spawn_timer as int,
        ));
        over
    }

    /// One frame of the game: confirm starts play from the title or game
    /// over screens; during play the frame runs, and the session is torn
    /// down into game over exactly when the loss condition has held for the
    /// grace time.
    pub fn update(&mut self, input: Input, dt: u64, half_w: i64, half_h: i64)
        requires
            old(self).wf(),
            dt <= DT_LIMIT,
            0 < half_w <= EXTENT,
            0 < half_h <= EXTENT,
        ensures
            final(self).wf(),
            old(self).state != GameState::Playing && input.confirm ==> final(self).state
                == GameState::Playing && is_fresh(final(self).world) && final(self).game
                == reset_game(old(self).game) && final(self).spawn_timer == old(self).spawn_timer,
            old(self).state != GameState::Playing && !input.confirm ==> final(self).state == old(
                self,
            ).state && final(self).game == old(self).game && final(self).world == old(self).world
                && final(self).spawn_timer == old(self).spawn_timer,
            old(self).state == GameState::Playing ==> exists|
                rolls: Seq<ShatterRoll>,
                launch: SpawnRoll,
                end: Scene,
            |
                {
                    &&& played(
                        scene(old(self).world),
                        old(self).game,
                        old(self).spawn_timer as int,
                        input,
                        dt as int,
                        half_w as int,
                        half_h as int,
                        rolls,
                        launch,
                        end,
                        final(self).game,
                        final(self).spawn_timer as int,
                    )
                    &&& if grace_over(end, final(self).game) {
                        final(self).state == GameState::GameOver && is_empty(final(self).world)
                    } else {
                        final(self).state == GameState::Playing && scene(final(self).world) == end
                    }
                },
    {
        if self.state == GameState::Playing {
            let over = self.play_frame(input, dt, half_w, half_h);
            let ghost end = scene(self.world);
            if over {
                self.transition(GameState::GameOver);
            }
            assert(grace_over(end, self.game) == over);
        } else if input.confirm {
            self.transition(GameState::Playing);
        }
    }
}

} // verus!
