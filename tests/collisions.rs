use schwarzschild::fixed::vec2;
use schwarzschild::game::{GameState, Session};
use schwarzschild::lifecycle::lifetime_control;
use schwarzschild::planet::{collapse_tick, planet_collapse, planet_collision};
use schwarzschild::shatter::{asteroid_score, FragmentRoll, ShatterRoll};
use schwarzschild::ship::{fire_control, lay_trail};
use schwarzschild::spawner::{launch, spawn_step, SpawnRoll};
use schwarzschild::strike::{asteroid_collision, count_struck, resolve_strikes};
use schwarzschild::world::{Body, BodyKind, Collapse, Planet, Ship, World};

fn body(kind: BodyKind, x: i64, y: i64, radius: i64, mass: i64, lifetime: u64) -> Body {
    Body {
        kind,
        pos: vec2(x, y),
        vel: vec2(0, 0),
        radius,
        mass,
        lifetime,
        seed: 0,
        end: vec2(x, y),
    }
}

fn rolls(n: usize) -> Vec<ShatterRoll> {
    let mut v = Vec::new();
    for _ in 0..n {
        v.push(ShatterRoll {
            angle: 0,
            fragments: vec![
                FragmentRoll { speed: 10_000, seed: 1 },
                FragmentRoll { speed: 20_000, seed: 2 },
                FragmentRoll { speed: 29_999, seed: 3 },
            ],
        });
    }
    v
}

fn count(bodies: &[Body], kind: BodyKind) -> usize {
    bodies.iter().filter(|b| b.kind == kind).count()
}

#[test]
fn score_follows_radius_band() {
    assert_eq!(asteroid_score(20_000), 0);
    assert_eq!(asteroid_score(10_000), 43);
    assert_eq!(asteroid_score(4_000), 70);
    assert_eq!(asteroid_score(17_714), 10);
    assert_eq!(asteroid_score(17_715), 9);
    assert_eq!(asteroid_score(2_000), 78);
    assert_eq!(asteroid_score(30_000), 0);
}

#[test]
fn bullet_and_asteroid_destroy_each_other() {
    let mut bodies = vec![
        body(BodyKind::Asteroid, 100_000, 0, 10_000, 12_000, 60_000),
        body(BodyKind::Bullet, 100_000, 5_000, 1_000, 15_000, 3_000),
    ];
    let mut score: u32 = 5;
    assert_eq!(count_struck(&bodies), 1);
    resolve_strikes(&mut bodies, &mut score, &rolls(1));
    assert_eq!(score, 48);
    assert_eq!(count(&bodies, BodyKind::Bullet), 0);
    assert_eq!(count(&bodies, BodyKind::Explosion), 1);
    assert_eq!(bodies[0].kind, BodyKind::Explosion);
    assert_eq!(bodies[0].pos, vec2(100_000, 0));
    assert_eq!(bodies[0].lifetime, 500);
}

#[test]
fn large_asteroid_fractures_into_three() {
    let mut bodies = vec![
        body(BodyKind::Asteroid, 0, 200_000, 20_000, 20_000, 1_000),
        body(BodyKind::Bullet, 0, 200_000, 1_000, 15_000, 3_000),
    ];
    let mut score: u32 = 0;
    resolve_strikes(&mut bodies, &mut score, &rolls(1));
    assert_eq!(bodies.len(), 4);
    let fragments: Vec<&Body> = bodies.iter().filter(|b| b.kind == BodyKind::Asteroid).collect();
    assert_eq!(fragments.len(), 3);
    for f in &fragments {
        assert_eq!(f.radius, 6_000);
        assert_eq!(f.mass, 6_000);
        assert_eq!(f.lifetime, 60_000);
    }
    // The first fragment leaves along bearing zero, one new radius out.
    assert_eq!(fragments[0].pos, vec2(6_000, 200_000));
    assert_eq!(fragments[0].vel, vec2(10_000, 0));
    assert_eq!(fragments[0].seed, 1);
}

#[test]
fn small_asteroid_does_not_fracture() {
    let mut bodies = vec![
        body(BodyKind::Asteroid, 0, 0, 4_000, 1_000, 1_000),
        body(BodyKind::Bullet, 0, 0, 1_000, 15_000, 3_000),
    ];
    let mut score: u32 = 0;
    resolve_strikes(&mut bodies, &mut score, &rolls(1));
    assert_eq!(bodies.len(), 1);
    assert_eq!(bodies[0].kind, BodyKind::Explosion);
    assert_eq!(score, 70);
}

#[test]
fn asteroid_hit_by_two_bullets_scores_once() {
    let mut bodies = vec![
        body(BodyKind::Bullet, 0, 1_000, 1_000, 15_000, 3_000),
        body(BodyKind::Asteroid, 0, 0, 10_000, 10_000, 1_000),
        body(BodyKind::Bullet, 0, -1_000, 1_000, 15_000, 3_000),
        body(BodyKind::Asteroid, 500_000, 0, 10_000, 10_000, 1_000),
    ];
    let mut score: u32 = 0;
    resolve_strikes(&mut bodies, &mut score, &rolls(1));
    assert_eq!(score, 43);
    assert_eq!(bodies[0].pos, vec2(500_000, 0));
    assert_eq!(count(&bodies, BodyKind::Explosion), 1);
    assert_eq!(count(&bodies, BodyKind::Bullet), 0);
    assert_eq!(bodies.len(), 5);
}

#[test]
fn score_saturates() {
    let mut bodies = vec![
        body(BodyKind::Asteroid, 0, 0, 4_000, 1_000, 1_000),
        body(BodyKind::Bullet, 0, 0, 1_000, 15_000, 3_000),
    ];
    let mut score: u32 = u32::MAX - 1;
    resolve_strikes(&mut bodies, &mut score, &rolls(1));
    assert_eq!(score, u32::MAX);
}

#[test]
fn planet_grows_by_what_it_swallows() {
    let mut world = World::empty();
    world.planet = Some(Planet::new());
    world.bodies.push(body(BodyKind::Asteroid, 35_000, 0, 10_000, 15_000, 1_000));
    world.bodies.push(body(BodyKind::Asteroid, 300_000, 0, 10_000, 15_000, 1_000));
    planet_collision(&mut world);
    let p = world.planet.unwrap();
    assert_eq!(p.radius, 33_000);
    assert_eq!(p.mass, 575_000);
    assert_eq!(p.collapse, Collapse::Stable);
    assert_eq!(world.bodies.len(), 1);
    assert_eq!(world.bodies[0].pos, vec2(300_000, 0));
}

#[test]
fn planet_swallows_bullets_without_growing() {
    let mut world = World::empty();
    world.planet = Some(Planet::new());
    world.bodies.push(body(BodyKind::Bullet, 0, 30_500, 1_000, 15_000, 1_000));
    planet_collision(&mut world);
    let p = world.planet.unwrap();
    assert_eq!(p.radius, 30_000);
    assert_eq!(p.mass, 500_000);
    assert!(world.bodies.is_empty());
}

#[test]
fn planet_swallows_the_ship() {
    let mut world = World::empty();
    world.planet = Some(Planet::new());
    let mut ship = Ship::new();
    ship.pos = vec2(0, 35_000);
    world.ship = Some(ship);
    planet_collision(&mut world);
    assert!(world.ship.is_none());
    assert_eq!(world.planet.unwrap().radius, 33_000);
    assert_eq!(world.planet.unwrap().mass, 550_000);
}

#[test]
fn collapse_starts_at_the_trigger() {
    let mut world = World::empty();
    let mut p = Planet::new();
    p.mass = 2_490_000;
    world.planet = Some(p);
    world.bodies.push(body(BodyKind::Asteroid, 0, 0, 10_000, 2_000, 1_000));
    planet_collision(&mut world);
    let p = world.planet.unwrap();
    assert_eq!(p.mass, 2_500_000);
    assert_eq!(
        p.collapse,
        Collapse::Collapsing { init_radius: 33_000, init_mass: 2_500_000, elapsed: 0 }
    );
}

#[test]
fn collapse_follows_its_curves() {
    let p = Planet {
        pos: vec2(0, 0),
        radius: 33_000,
        mass: 2_500_000,
        collapse: Collapse::Collapsing { init_radius: 33_000, init_mass: 2_500_000, elapsed: 0 },
    };
    let half = collapse_tick(p, 750);
    // (1/2)^8 = 1/256 of the way down; half of the way up.
    assert_eq!(half.radius, 2_000 + (31_000 * 255 + 255) / 256);
    assert_eq!(half.mass, 16_250_000);
    let nearly = collapse_tick(p, 1_499);
    assert!(nearly.radius > 2_000);
    assert!(nearly.mass < 30_000_000);
    let done = collapse_tick(p, 5_000);
    assert_eq!(done.radius, 2_000);
    assert_eq!(done.mass, 30_000_000);
    assert_eq!(
        done.collapse,
        Collapse::Collapsing { init_radius: 33_000, init_mass: 2_500_000, elapsed: 1_500 }
    );
    let mut world = World::empty();
    world.planet = Some(p);
    planet_collapse(&mut world, 1_500);
    assert_eq!(world.planet.unwrap().radius, 2_000);
}

#[test]
fn lifetimes_run_down_and_expire() {
    let mut world = World::empty();
    world.bodies.push(body(BodyKind::Bullet, 0, 0, 1_000, 15_000, 3_000));
    world.bodies.push(body(BodyKind::Explosion, 0, 0, 0, 0, 500));
    lifetime_control(&mut world, 1_000);
    assert_eq!(world.bodies.len(), 1);
    assert_eq!(world.bodies[0].lifetime, 2_000);
    lifetime_control(&mut world, 1_000);
    assert_eq!(world.bodies[0].lifetime, 1_000);
    lifetime_control(&mut world, 1_000);
    assert!(world.bodies.is_empty());
}

#[test]
fn gun_fires_then_waits() {
    let mut world = World::empty();
    world.ship = Some(Ship::new());
    fire_control(&mut world, true, 16);
    assert_eq!(world.bodies.len(), 1);
    let b = world.bodies[0];
    assert_eq!(b.kind, BodyKind::Bullet);
    assert_eq!(b.pos, vec2(0, 305_000));
    assert_eq!(b.vel, vec2(0, 300_000));
    assert_eq!(b.lifetime, 3_000);
    assert_eq!(world.ship.unwrap().fire_delay, 100);
    fire_control(&mut world, true, 50);
    assert_eq!(world.bodies.len(), 1);
    assert_eq!(world.ship.unwrap().fire_delay, 50);
    fire_control(&mut world, true, 50);
    assert_eq!(world.bodies.len(), 2);
}

#[test]
fn trail_covers_the_displacement() {
    let mut world = World::empty();
    let mut ship = Ship::new();
    ship.pos = vec2(10, 20);
    world.ship = Some(ship);
    lay_trail(&mut world);
    let t = world.bodies[0];
    assert_eq!(t.kind, BodyKind::Trail);
    assert_eq!(t.pos, vec2(10, 20));
    assert_eq!(t.end, vec2(0, 300_000));
    assert_eq!(t.lifetime, 3_000);
    assert_eq!(world.ship.unwrap().last_pos, vec2(10, 20));
}

#[test]
fn spawner_launches_when_due() {
    let roll = SpawnRoll { angle: 0, radius: 15_000, mass: 12_000, speed: 40_000, seed: 9, delay: 2_500 };
    let a = launch(roll);
    assert_eq!(a.pos, vec2(640_000, 0));
    assert_eq!(a.radius, 15_000);
    assert_eq!(a.lifetime, 60_000);
    let mut world = World::empty();
    let mut timer: u64 = 100;
    spawn_step(&mut world, &mut timer, 40, roll);
    assert_eq!(timer, 60);
    assert!(world.bodies.is_empty());
    spawn_step(&mut world, &mut timer, 100, roll);
    assert_eq!(timer, 2_500);
    assert_eq!(world.bodies.len(), 1);
    assert_eq!(world.bodies[0].kind, BodyKind::Asteroid);
    assert_eq!(world.bodies[0].seed, 9);
}

#[test]
fn end_to_end_strike_after_starting_play() {
    let mut session = Session::new();
    assert!(session.transition(GameState::Playing));
    assert_eq!(session.game.score, 0);
    session.world.bodies.push(body(BodyKind::Asteroid, 200_000, 0, 20_000, 15_000, 60_000));
    session.world.bodies.push(body(BodyKind::Bullet, 220_000, 0, 1_000, 15_000, 3_000));
    asteroid_collision(&mut session.world, &mut session.game.score);
    let bodies = &session.world.bodies;
    assert_eq!(count(bodies, BodyKind::Bullet), 0);
    assert_eq!(count(bodies, BodyKind::Explosion), 1);
    assert_eq!(bodies[0].pos, vec2(200_000, 0));
    let fragments: Vec<&Body> = bodies.iter().filter(|b| b.kind == BodyKind::Asteroid).collect();
    assert_eq!(fragments.len(), 3);
    for f in &fragments {
        assert_eq!(f.radius, 6_000);
        assert_eq!(f.lifetime, 60_000);
    }
    // A radius at the top of the band earns the least.
    assert_eq!(session.game.score, 0);
}

#[test]
fn random_launches_stay_in_their_bands() {
    let mut world = World::empty();
    let mut radii = Vec::new();
    for _ in 0..20 {
        let mut timer: u64 = 0;
        schwarzschild::spawner::asteroid_spawner(&mut world, &mut timer, 16);
        assert!((2_000..4_000).contains(&timer));
        let a = *world.bodies.last().unwrap();
        assert!((10_000..20_000).contains(&a.radius));
        assert!((10_000..20_000).contains(&a.mass));
        assert_eq!(a.lifetime, 60_000);
        let d2 = (a.pos.x as i128).pow(2) + (a.pos.y as i128).pow(2);
        assert!(d2 > 630_000i128 * 630_000 && d2 < 650_000i128 * 650_000);
        radii.push(a.radius);
    }
    assert_eq!(world.bodies.len(), 20);
    assert!(radii.iter().any(|r| *r != 10_000));
}

#[test]
fn random_fragments_fly_within_their_speed_band() {
    let mut world = World::empty();
    world.bodies.push(body(BodyKind::Asteroid, 0, 0, 20_000, 20_000, 1_000));
    world.bodies.push(body(BodyKind::Bullet, 0, 0, 1_000, 15_000, 3_000));
    let mut score: u32 = 0;
    asteroid_collision(&mut world, &mut score);
    assert_eq!(world.bodies.len(), 4);
    for f in world.bodies.iter().filter(|b| b.kind == BodyKind::Asteroid) {
        let v2 = (f.vel.x as i128).pow(2) + (f.vel.y as i128).pow(2);
        assert!(v2 >= 9_900i128 * 9_900 && v2 <= 30_100i128 * 30_100);
        assert_eq!(f.radius, 6_000);
    }
}
