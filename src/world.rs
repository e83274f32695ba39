//! The entity store: the ship and the planet as singletons, and a list of
//! short-lived bodies (bullets, asteroids, explosions, trail segments).
use vstd::prelude::*;
use crate::config::{
    MASS_LIMIT, PLANET_COLLAPSE_TIME, PLANET_START_MASS, PLANET_START_RADIUS, SHIP_MASS, SHIP_RADIUS,
    SHIP_ROTATION_SPEED, SHIP_START_Y,
};
use crate::fixed::{Vec2, EXTENT};
use crate::trig::is_angle;

verus! {

#[derive(Clone, Copy, PartialEq, Eq, Debug, Structural)]
pub enum BodyKind {
    Bullet,
    Asteroid,
    Explosion,
    Trail,
}

/// A short-lived entity. Explosions and trail segments carry no radius or
/// mass; a trail segment runs from `pos` to `end` and does not move.
#[derive(Clone, Copy, PartialEq, Eq, Debug, Structural)]
pub struct Body {
    pub kind: BodyKind,
    pub pos: Vec2,
    pub vel: Vec2,
    pub radius: i64,
    pub mass: i64,
    /// Milliseconds left before the body expires.
    pub lifetime: u64,
    /// Seed of an asteroid's outline; no effect on the simulation.
    pub seed: u64,
    pub end: Vec2,
}

impl Body {
    /// Bullets and asteroids have mass: gravity pulls them and the planet
    /// swallows them.
    pub open spec fn is_massive(self) -> bool {
        self.kind == BodyKind::Bullet || self.kind == BodyKind::Asteroid
    }

    pub open spec fn moves(self) -> bool {
        self.kind != BodyKind::Trail
    }

    pub open spec fn wf(self) -> bool {
        &&& self.pos.in_extent()
        &&& self.vel.in_extent()
        &&& self.end.in_extent()
        &&& 0 <= self.radius <= EXTENT
        &&& 0 <= self.mass <= MASS_LIMIT
        &&& self.is_massive() ==> self.radius > 0 && self.mass > 0
    }
}

#[derive(Clone, Copy, PartialEq, Eq, Debug, Structural)]
pub enum Collapse {
    Stable,
    /// The planet implodes; radius and mass follow a curve from the values
    /// they had when it began.
    Collapsing { init_radius: i64, init_mass: i64, elapsed: u64 },
}

#[derive(Clone, Copy, PartialEq, Eq, Debug, Structural)]
pub struct Planet {
    pub pos: Vec2,
    pub radius: i64,
    pub mass: i64,
    pub collapse: Collapse,
}

impl Planet {
    pub open spec fn wf(self) -> bool {
        &&& self.pos.in_extent()
        &&& 0 < self.radius <= EXTENT
        &&& 0 < self.mass <= MASS_LIMIT
        &&& match self.collapse {
            Collapse::Stable => true,
            Collapse::Collapsing { init_radius, init_mass, elapsed } => {
                &&& 0 < init_radius <= EXTENT
                &&& 0 < init_mass <= MASS_LIMIT
                &&& elapsed <= PLANET_COLLAPSE_TIME
            },
        }
    }

    pub open spec fn is_collapsing(self) -> bool {
        self.collapse is Collapsing
    }
}

#[derive(Clone, Copy, PartialEq, Eq, Debug, Structural)]
pub struct Ship {
    pub pos: Vec2,
    pub vel: Vec2,
    /// Heading, counter-clockwise from straight up.
    pub angle: i64,
    /// Angular velocity, per second.
    pub spin: i64,
    pub radius: i64,
    pub mass: i64,
    /// Milliseconds before the gun may fire again.
    pub fire_delay: u64,
    /// Where the ship stood when the last trail segment was laid.
    pub last_pos: Vec2,
}

impl Ship {
    pub open spec fn wf(self) -> bool {
        &&& self.pos.in_extent()
        &&& self.vel.in_extent()
        &&& self.last_pos.in_extent()
        &&& is_angle(self.angle as int)
        &&& -SHIP_ROTATION_SPEED <= self.spin <= SHIP_ROTATION_SPEED
        &&& 0 < self.radius <= EXTENT
        &&& 0 < self.mass <= MASS_LIMIT
    }
}

/// Everything that lives during a session.
pub struct World {
    pub ship: Option<Ship>,
    pub planet: Option<Planet>,
    pub bodies: Vec<Body>,
}

/// What a world holds: the ship, the planet and the bodies.
pub type Scene = (Option<Ship>, Option<Planet>, Seq<Body>);

pub open spec fn scene(w: World) -> Scene {
    (w.ship, w.planet, w.bodies@)
}

pub open spec fn bodies_wf(s: Seq<Body>) -> bool {
    forall|i: int| 0 <= i < s.len() ==> (#[trigger] s[i]).wf()
}

impl World {
    pub open spec fn wf(self) -> bool {
        &&& (self.ship matches Some(s) ==> s.wf())
        &&& (self.planet matches Some(p) ==> p.wf())
        &&& bodies_wf(self.bodies@)
    }

    /// A world with nothing in it.
    pub fn empty() -> (r: World)
        ensures
            r.ship is None,
            r.planet is None,
            r.bodies@.len() == 0,
            r.wf(),
    {
        World { ship: None, planet: None, bodies: Vec::new() }
    }
}

pub open spec fn start_ship() -> Ship {
    Ship {
        pos: Vec2 { x: 0, y: SHIP_START_Y },
        vel: Vec2 { x: 0, y: 0 },
        angle: 0,
        spin: 0,
        radius: SHIP_RADIUS,
        mass: SHIP_MASS,
        fire_delay: 0,
        last_pos: Vec2 { x: 0, y: SHIP_START_Y },
    }
}

pub open spec fn start_planet() -> Planet {
    Planet {
        pos: Vec2 { x: 0, y: 0 },
        radius: PLANET_START_RADIUS,
        mass: PLANET_START_MASS,
        collapse: Collapse::Stable,
    }
}

impl Ship {
    /// The ship as it starts a session: at rest above the planet.
    pub fn new() -> (r: Ship)
        ensures
            r == start_ship(),
            r.wf(),
    {
        let p = Vec2 { x: 0, y: SHIP_START_Y };
        Ship {
            pos: p,
            vel: Vec2 { x: 0, y: 0 },
            angle: 0,
            spin: 0,
            radius: SHIP_RADIUS,
            mass: SHIP_MASS,
            fire_delay: 0,
            last_pos: p,
        }
    }
}

impl Planet {
    /// The planet as it starts a session: stable, at the origin.
    pub fn new() -> (r: Planet)
        ensures
            r == start_planet(),
            r.wf(),
    {
        Planet {
            pos: Vec2 { x: 0, y: 0 },
            radius: PLANET_START_RADIUS,
            mass: PLANET_START_MASS,
            collapse: Collapse::Stable,
        }
    }
}

} // verus!
