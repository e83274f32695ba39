use schwarzschild::fixed::{circles_overlap, div_floor, isqrt, vec2, Vec2};
use schwarzschild::physics::{apply_gravity, apply_velocity, asteroid_drag, gravity_velocity};
use schwarzschild::ship::{space_clamp, steer, wrap_coord, Controls};
use schwarzschild::trig::{cos_of, sin_of, wrap_angle};
use schwarzschild::world::{Body, BodyKind, Planet, Ship, World};

fn asteroid(x: i64, y: i64, vx: i64, vy: i64, radius: i64, mass: i64) -> Body {
    Body {
        kind: BodyKind::Asteroid,
        pos: vec2(x, y),
        vel: vec2(vx, vy),
        radius,
        mass,
        lifetime: 60_000,
        seed: 7,
        end: vec2(x, y),
    }
}

#[test]
fn floor_division_rounds_down() {
    assert_eq!(div_floor(7, 2), 3);
    assert_eq!(div_floor(-7, 2), -4);
    assert_eq!(div_floor(-6, 2), -3);
    assert_eq!(div_floor(0, 5), 0);
}

#[test]
fn integer_square_root() {
    assert_eq!(isqrt(0), 0);
    assert_eq!(isqrt(1), 1);
    assert_eq!(isqrt(15), 3);
    assert_eq!(isqrt(16), 4);
    assert_eq!(isqrt(1_000_000), 1_000);
    assert_eq!(isqrt(u128::MAX), 18_446_744_073_709_551_615);
}

#[test]
fn overlap_is_strict() {
    let a = vec2(0, 0);
    assert!(circles_overlap(a, 3_000, vec2(5_000, 0), 2_001));
    assert!(!circles_overlap(a, 3_000, vec2(5_000, 0), 2_000));
    assert!(circles_overlap(a, 3_000, vec2(3_000, 4_000), 2_001));
}

#[test]
fn sine_and_cosine_at_known_angles() {
    assert_eq!(sin_of(0), 0);
    assert_eq!(sin_of(30_000), 500_000);
    assert_eq!(sin_of(90_000), 1_000_000);
    assert_eq!(sin_of(270_000), -1_000_000);
    assert_eq!(cos_of(0), 1_000_000);
    assert_eq!(cos_of(180_000), -1_000_000);
    assert_eq!(wrap_angle(-10), 359_990);
    assert_eq!(wrap_angle(360_005), 5);
}

#[test]
fn gravity_is_clamped_inside_one_unit() {
    let source = vec2(0, 0);
    // Half a unit away: the pull is that at one unit, G * mp * me.
    let near = gravity_velocity(source, 500_000, vec2(0, 500), 10_000, 1_000);
    assert_eq!(near, vec2(0, -1_250_000_000));
    let at_one = gravity_velocity(source, 500_000, vec2(0, 1_000), 10_000, 1_000);
    assert_eq!(at_one, vec2(0, -1_250_000_000));
    // Ten units away: a hundredth of it.
    let far = gravity_velocity(source, 500_000, vec2(0, 10_000), 10_000, 1_000);
    assert_eq!(far, vec2(0, -12_500_000));
    // At the centre there is no direction and no pull.
    assert_eq!(gravity_velocity(source, 500_000, source, 10_000, 1_000), vec2(0, 0));
}

#[test]
fn gravity_pulls_massive_bodies_only() {
    let mut world = World::empty();
    world.planet = Some(Planet::new());
    world.bodies.push(asteroid(10_000, 0, 0, 0, 10_000, 10_000));
    let mut explosion = asteroid(10_000, 0, 0, 0, 0, 0);
    explosion.kind = BodyKind::Explosion;
    world.bodies.push(explosion);
    apply_gravity(&mut world, 10);
    assert_eq!(world.bodies[0].vel, vec2(-125_000, 0));
    assert_eq!(world.bodies[1].vel, vec2(0, 0));
}

#[test]
fn drag_slows_asteroids_near_the_planet() {
    let mut world = World::empty();
    world.planet = Some(Planet::new());
    world.bodies.push(asteroid(100_000, 0, 0, 50_000, 10_000, 10_000));
    world.bodies.push(asteroid(100_000, 0, 0, 0, 10_000, 10_000));
    asteroid_drag(&mut world, 16);
    assert_eq!(world.bodies[0].vel, vec2(0, 49_920));
    assert_eq!(world.bodies[1].vel, vec2(0, 0));
}

#[test]
fn drag_stops_at_zero_speed() {
    let mut world = World::empty();
    world.planet = Some(Planet::new());
    world.bodies.push(asteroid(40_000, 0, 30, 40, 10_000, 10_000));
    asteroid_drag(&mut world, 1_000);
    assert_eq!(world.bodies[0].vel, vec2(0, 0));
}

#[test]
fn velocity_moves_positions() {
    let mut world = World::empty();
    world.bodies.push(asteroid(1_000, 2_000, 3_000, -4_000, 10_000, 10_000));
    let mut trail = asteroid(0, 0, 5_000, 5_000, 0, 0);
    trail.kind = BodyKind::Trail;
    world.bodies.push(trail);
    apply_velocity(&mut world, 500);
    assert_eq!(world.bodies[0].pos, vec2(2_500, 0));
    assert_eq!(world.bodies[1].pos, vec2(0, 0));
}

#[test]
fn steering_spins_and_settles() {
    let ship = Ship::new();
    let left = Controls { left: true, right: false, thrust: false, fire: false };
    let s = steer(ship, left, 16);
    assert_eq!(s.spin, 22_918);
    assert_eq!(s.angle, 366);
    // Without input the spin decays to zero without overshooting.
    let idle = Controls { left: false, right: false, thrust: false, fire: false };
    let s2 = steer(s, idle, 100);
    assert_eq!(s2.spin, 0);
    // Held long enough, the spin stops at its limit.
    let s3 = steer(ship, left, 1_000);
    assert_eq!(s3.spin, 240_642);
}

#[test]
fn thrust_pushes_along_the_heading() {
    let ship = Ship::new();
    let thrust = Controls { left: false, right: false, thrust: true, fire: false };
    let s = steer(ship, thrust, 1_000);
    assert_eq!(s.vel, vec2(0, 55_000));
}

#[test]
fn space_wrap_keeps_overshoot() {
    assert_eq!(wrap_coord(-410_000, 400_000), 390_000);
    assert_eq!(wrap_coord(410_000, 400_000), -390_000);
    assert_eq!(wrap_coord(399_999, 400_000), 399_999);
    let mut world = World::empty();
    let mut ship = Ship::new();
    ship.pos = Vec2 { x: 650_000, y: -310_000 };
    world.ship = Some(ship);
    space_clamp(&mut world, 640_000, 300_000);
    assert_eq!(world.ship.unwrap().pos, vec2(-630_000, 290_000));
}

#[test]
fn gravity_never_exceeds_its_cap_next_to_the_centre() {
    // One mass unit each, one second, a distance of sqrt(2) thousandths:
    // the cap is G * m1 * m2 = 250 units per second.
    let dv = gravity_velocity(vec2(0, 0), 1_000, vec2(1, 1), 1_000, 1_000);
    assert_eq!(dv, vec2(-125_000, -125_000));
    let len2 = (dv.x as i128).pow(2) + (dv.y as i128).pow(2);
    assert!(len2 <= 250_000i128 * 250_000);
    let dv = gravity_velocity(vec2(0, 0), 1_000, vec2(1, 0), 1_000, 1_000);
    assert_eq!(dv, vec2(-250_000, 0));
}
