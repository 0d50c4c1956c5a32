use pong::chance::{Heading, Sign};
use pong::control::Controls;
use pong::entities::{Ball, Computer, Player, Wall};
use pong::frame::FrameReport;
use pong::geometry::{Collider, Transform, Vec2, Velocity};
use pong::score::{BallCollided, BallDestroyed, Scoreboard};
use pong::units::{PLAYER_START_POSITION, UNIT, WALL_HEIGHT};
use pong::world::World;

const FRAME: u32 = 16_667;

fn idle() -> Controls {
    Controls { up: false, down: false, reset: false }
}

fn up_right() -> Heading {
    Heading { x: Sign::Plus, y: Sign::Plus }
}

fn down_left() -> Heading {
    Heading { x: Sign::Minus, y: Sign::Minus }
}

fn ball(x: i64, y: i64, vx: i64, vy: i64) -> Ball {
    Ball {
        transform: Transform::from_translation(Vec2::new(x, y)),
        velocity: Velocity(Vec2::new(vx, vy)),
        collider: Collider::circle(15 * UNIT),
    }
}

fn world_with(ball: Ball) -> World {
    let mut world = World::setup();
    world.ball = Some(ball);
    world
}

#[test]
fn setup_lays_out_the_court() {
    let world = World::setup();
    assert_eq!(PLAYER_START_POSITION, 1920 * UNIT / 4 + 1920 * UNIT / 5);
    assert_eq!(WALL_HEIGHT, 1080 * UNIT / 2);
    assert_eq!(
        world.player,
        Player {
            transform: Transform::from_translation(Vec2::new(864 * UNIT, 0)),
            velocity: Velocity(Vec2::new(0, 0)),
            collider: Collider::cuboid(17 * UNIT, 120 * UNIT),
        }
    );
    assert_eq!(
        world.computer,
        Computer {
            transform: Transform::from_translation(Vec2::new(-864 * UNIT, 0)),
            velocity: Velocity(Vec2::new(0, 0)),
            collider: Collider::cuboid(17 * UNIT, 120 * UNIT),
        }
    );
    assert_eq!(
        world.top_wall,
        Wall {
            transform: Transform::from_translation(Vec2::new(0, 550 * UNIT)),
            collider: Collider::cuboid(1920 * UNIT, 10 * UNIT),
        }
    );
    assert_eq!(
        world.bottom_wall,
        Wall {
            transform: Transform::from_translation(Vec2::new(0, -550 * UNIT)),
            collider: Collider::cuboid(1920 * UNIT, 10 * UNIT),
        }
    );
    assert_eq!(world.ball, None);
    assert_eq!(world.scoreboard, Scoreboard { player: 0, computer: 0 });
}

#[test]
fn collider_shapes() {
    assert_eq!(Collider::cuboid(3, 4).0, Vec2::new(3, 4));
    assert_eq!(Collider::circle(15).0, Vec2::new(30, 30));
    assert_eq!(Collider::circle(-2).0, Vec2::new(-4, -4));
    assert_eq!(Velocity::default(), Velocity(Vec2::new(0, 0)));
    assert_eq!(Vec2::zero(), Vec2::new(0, 0));
}

#[test]
fn ball_at_the_right_boundary_is_replaced_and_the_computer_scores() {
    let mut world = world_with(ball(970 * UNIT, 0, 495, 495));
    let report = world.frame_with(idle(), FRAME, up_right(), down_left()).unwrap();
    assert_eq!(report.destroyed, vec![BallDestroyed { player_scored: false }]);
    assert_eq!(report.score_sounds, 0);
    assert!(report.collided.is_empty());
    assert_eq!(world.scoreboard, Scoreboard { player: 0, computer: 1 });
    let fresh = world.ball.unwrap();
    assert_eq!(fresh.transform.translation, Vec2::new(0, 0));
    assert_eq!(fresh.velocity, Velocity(Vec2::new(-495, -495)));
    assert_eq!(fresh, Ball::fresh(down_left()));
}

#[test]
fn ball_at_the_left_boundary_is_replaced_and_the_player_scores() {
    let mut world = world_with(ball(-970 * UNIT, 40 * UNIT, -495, 495));
    let report = world.frame_with(idle(), FRAME, down_left(), up_right()).unwrap();
    assert_eq!(report.destroyed, vec![BallDestroyed { player_scored: true }]);
    assert_eq!(report.score_sounds, 1);
    assert_eq!(world.scoreboard, Scoreboard { player: 1, computer: 0 });
    assert_eq!(world.ball, Some(Ball::fresh(up_right())));
}

#[test]
fn ball_at_the_boundary_by_coin_flips_comes_back_at_ball_speed() {
    let mut world = world_with(ball(970 * UNIT, -300 * UNIT, 495, -495));
    let report = world.frame(idle(), FRAME).unwrap();
    assert_eq!(report.destroyed.len(), 1);
    assert_eq!(world.scoreboard, Scoreboard { player: 0, computer: 1 });
    let fresh = world.ball.unwrap();
    assert_eq!(fresh.transform.translation, Vec2::new(0, 0));
    let v = fresh.velocity.0;
    assert_eq!(v.x.abs(), 495);
    assert_eq!(v.y.abs(), 495);
    let speed = (((v.x * v.x + v.y * v.y) as f64).sqrt()).floor();
    assert_eq!(speed, 700.0);
}

#[test]
fn ball_that_stops_on_the_line_stays_in_play() {
    let mut world = world_with(ball(970 * UNIT, 0, 0, 495));
    let report = world.frame_with(idle(), FRAME, up_right(), up_right()).unwrap();
    assert!(report.destroyed.is_empty());
    assert_eq!(world.ball, Some(ball(970 * UNIT, 495 * 16_667, 0, 495)));
    assert_eq!(world.scoreboard, Scoreboard::default());
}

#[test]
fn frame_moves_everything_once() {
    let mut world = world_with(ball(0, 100 * UNIT, -495, 495));
    world.computer.transform.translation.y = -10 * UNIT;
    let keys = Controls { up: false, down: true, reset: false };
    let report = world.frame_with(keys, 1000, up_right(), up_right()).unwrap();
    assert_eq!(
        report,
        FrameReport { collided: Vec::new(), destroyed: Vec::new(), score_sounds: 0 }
    );
    assert_eq!(world.player.velocity, Velocity(Vec2::new(0, -550)));
    assert_eq!(world.player.transform.translation, Vec2::new(864 * UNIT, -550_000));
    assert_eq!(world.computer.velocity, Velocity(Vec2::new(0, 350)));
    assert_eq!(world.computer.transform.translation, Vec2::new(-864 * UNIT, -10 * UNIT + 350_000));
    assert_eq!(world.ball, Some(ball(-495_000, 100 * UNIT + 495_000, -495, 495)));
}

#[test]
fn collision_is_tested_before_the_move() {
    let mut world = world_with(ball(840 * UNIT, 0, 495, 495));
    let report = world.frame_with(idle(), 1_000_000 / 50, up_right(), up_right()).unwrap();
    assert!(report.collided.is_empty());
    let overlapping = world.ball.unwrap();
    assert_eq!(overlapping.transform.translation.x, 840 * UNIT + 495 * 20_000);
    assert_eq!(overlapping.velocity.0.x, 495);
    let report = world.frame_with(idle(), 1_000_000 / 50, up_right(), up_right()).unwrap();
    assert_eq!(report.collided, vec![BallCollided]);
    let turned = world.ball.unwrap();
    assert_eq!(turned.velocity.0.x, -495);
    assert_eq!(turned.transform.translation.x, 840 * UNIT);
}

#[test]
fn frame_without_a_ball_moves_the_player_only() {
    let mut world = World::setup();
    let keys = Controls { up: true, down: false, reset: false };
    let report = world.frame_with(keys, 1_000_000, up_right(), up_right()).unwrap();
    assert!(report.collided.is_empty());
    assert!(report.destroyed.is_empty());
    assert_eq!(world.ball, None);
    assert_eq!(world.player.transform.translation, Vec2::new(864 * UNIT, 550 * UNIT));
    assert_eq!(world.computer, World::setup().computer);
}

#[test]
fn frame_beyond_the_range_changes_nothing() {
    let mut world = world_with(ball(0, 0, 495, 495));
    world.player.transform.translation.y = i64::MAX - 100;
    let before = world;
    let keys = Controls { up: true, down: false, reset: false };
    assert_eq!(world.frame_with(keys, FRAME, up_right(), up_right()), None);
    assert_eq!(world, before);
    assert_eq!(world.frame(keys, FRAME), None);
    assert_eq!(world, before);
    let keys = Controls { up: false, down: true, reset: false };
    assert!(world.frame_with(keys, FRAME, up_right(), up_right()).is_some());
}

#[test]
fn frame_with_a_velocity_that_cannot_turn_changes_nothing() {
    let mut world = world_with(ball(0, 0, i64::MIN, 0));
    let before = world;
    assert_eq!(world.frame_with(idle(), 0, up_right(), up_right()), None);
    assert_eq!(world, before);
}

#[test]
fn frame_with_a_full_counter_changes_nothing() {
    let mut world = world_with(ball(970 * UNIT, 0, 495, 495));
    world.scoreboard.computer = u32::MAX;
    let before = world;
    assert_eq!(world.frame_with(idle(), FRAME, up_right(), up_right()), None);
    assert_eq!(world, before);
}

#[test]
fn reset_key_starts_over_before_the_frame() {
    let mut world = world_with(ball(300 * UNIT, 200 * UNIT, 495, -495));
    world.scoreboard = Scoreboard { player: 3, computer: 9 };
    world.player.transform.translation.y = 77 * UNIT;
    world.computer.transform.translation.y = -400 * UNIT;
    let keys = Controls { up: false, down: false, reset: true };
    let report = world.frame_with(keys, 1000, down_left(), up_right()).unwrap();
    assert!(report.destroyed.is_empty());
    assert_eq!(world.scoreboard, Scoreboard { player: 0, computer: 0 });
    assert_eq!(world.player.transform.translation, Vec2::new(864 * UNIT, 0));
    assert_eq!(world.computer.transform.translation, Vec2::new(-864 * UNIT, 0));
    assert_eq!(world.ball, Some(ball(-495_000, -495_000, -495, -495)));
}

#[test]
fn there_is_one_ball_after_every_frame() {
    let mut world = World::setup();
    world.spawn_ball();
    assert!(world.ball.is_some());
    let mut n: u32 = 0;
    while n < 20_000 {
        let keys = Controls { up: n % 7 < 3, down: n % 5 < 2, reset: n % 4096 == 4095 };
        world.frame(keys, FRAME).unwrap();
        assert!(world.ball.is_some());
        n += 1;
    }
}

#[test]
fn counters_never_go_down_without_a_reset() {
    let mut world = World::setup();
    world.spawn_ball_with(up_right());
    let mut points: u32 = 0;
    let mut n: u32 = 0;
    while n < 20_000 {
        let keys = Controls { up: n > 1000 && n % 7 < 3, down: n > 1000 && n % 5 < 2, reset: false };
        let before = world.scoreboard;
        let report = world.frame_with(keys, FRAME, up_right(), down_left()).unwrap();
        assert!(world.ball.is_some());
        assert!(report.destroyed.len() <= 1);
        assert!(world.scoreboard.player >= before.player);
        assert!(world.scoreboard.computer >= before.computer);
        points += report.destroyed.len() as u32;
        assert_eq!(world.scoreboard.player + world.scoreboard.computer, points);
        n += 1;
    }
    assert!(points > 0);
}

#[test]
fn paddle_places_are_fixed_along_the_court() {
    let mut world = World::setup();
    world.spawn_ball_with(up_right());
    let mut n: u32 = 0;
    while n < 2_000 {
        let keys = Controls { up: n % 2 == 0, down: true, reset: false };
        world.frame_with(keys, FRAME, up_right(), down_left()).unwrap();
        assert_eq!(world.player.transform.translation.x, 864 * UNIT);
        assert_eq!(world.computer.transform.translation.x, -864 * UNIT);
        assert_eq!(world.top_wall, World::setup().top_wall);
        assert_eq!(world.bottom_wall, World::setup().bottom_wall);
        n += 1;
    }
}
