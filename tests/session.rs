use schwarzschild::display::format_score;
use schwarzschild::game::{check_player, Game, GameState, Input, Session};
use schwarzschild::ship::Controls;
use schwarzschild::world::{Planet, Ship};

fn idle() -> Input {
    Input {
        controls: Controls { left: false, right: false, thrust: false, fire: false },
        confirm: false,
        toggle_trajectory: false,
    }
}

#[test]
fn score_text_groups_thousands() {
    assert_eq!(format_score(0), "0");
    assert_eq!(format_score(999), "999");
    assert_eq!(format_score(1_000), "1,000");
    assert_eq!(format_score(1_234_567), "1,234,567");
}

#[test]
fn grace_timer_runs_while_lost() {
    let mut g = Game::new();
    assert!(!check_player(&mut g, false, 16));
    assert_eq!(g.time, 16);
    assert!(!check_player(&mut g, true, 2_000));
    assert_eq!(g.gameover_time, 2_000);
    assert!(!check_player(&mut g, false, 16));
    assert_eq!(g.gameover_time, 2_000);
    assert!(check_player(&mut g, true, 1_000));
    assert_eq!(g.gameover_time, 3_000);
    assert_eq!(g.time, 32);
}

#[test]
fn only_game_transitions_are_taken() {
    let mut s = Session::new();
    assert_eq!(s.state, GameState::Title);
    assert!(!s.transition(GameState::GameOver));
    assert_eq!(s.state, GameState::Title);
    assert!(s.transition(GameState::Playing));
    assert_eq!(s.world.ship, Some(Ship::new()));
    assert_eq!(s.world.planet, Some(Planet::new()));
    assert!(!s.transition(GameState::Title));
    assert!(s.transition(GameState::GameOver));
    assert!(s.world.ship.is_none());
    assert!(s.world.planet.is_none());
    assert!(s.world.bodies.is_empty());
}

#[test]
fn confirm_starts_and_restarts_play() {
    let mut s = Session::new();
    s.update(idle(), 16, 640_000, 360_000);
    assert_eq!(s.state, GameState::Title);
    let mut go = idle();
    go.confirm = true;
    s.update(go, 16, 640_000, 360_000);
    assert_eq!(s.state, GameState::Playing);
    s.game.score = 77;
    // The ship is gone: the session ends once the grace time has passed.
    s.world.ship = None;
    s.update(idle(), 1_500, 640_000, 360_000);
    assert_eq!(s.state, GameState::Playing);
    s.update(idle(), 1_500, 640_000, 360_000);
    assert_eq!(s.state, GameState::GameOver);
    assert_eq!(s.game.score, 77);
    assert!(s.world.planet.is_none());
    s.update(go, 16, 640_000, 360_000);
    assert_eq!(s.state, GameState::Playing);
    assert_eq!(s.game.score, 0);
    assert_eq!(s.game.gameover_time, 0);
}

#[test]
fn frames_move_the_ship_and_lay_trail() {
    let mut s = Session::new();
    assert!(s.transition(GameState::Playing));
    let mut input = idle();
    input.toggle_trajectory = true;
    assert!(!s.play_frame(input, 16, 640_000, 360_000));
    assert!(s.game.draw_trajectory);
    let ship = s.world.ship.unwrap();
    // Gravity pulls the ship toward the planet below it.
    assert!(ship.vel.y < 0);
    assert_eq!(ship.vel.x, 0);
    assert!(s.world.bodies.iter().any(|b| b.kind == schwarzschild::world::BodyKind::Trail));
    assert_eq!(s.spawn_timer, 5_000 - 16);
}
