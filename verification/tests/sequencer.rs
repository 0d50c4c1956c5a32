use pong::chance::{Heading, Sign};
use pong::entities::Ball;
use pong::geometry::{Collider, Transform, Vec2, Velocity};
use pong::score::BallDestroyed;
use pong::units::{BALL_AXIS_SPEED, BALL_SPEED, EXIT_LINE, UNIT};
use pong::world::World;

fn ball_at_x(x: i64) -> Ball {
    Ball {
        transform: Transform::from_translation(Vec2::new(x, 123)),
        velocity: Velocity(Vec2::new(495, 495)),
        collider: Collider::circle(15 * UNIT),
    }
}

fn heading(x: Sign, y: Sign) -> Heading {
    Heading { x, y }
}

#[test]
fn fresh_ball_stands_at_the_centre() {
    let ball = Ball::fresh(heading(Sign::Plus, Sign::Minus));
    assert_eq!(ball.transform.translation, Vec2::new(0, 0));
    assert_eq!(ball.collider, Collider::cuboid(30 * UNIT, 30 * UNIT));
    assert_eq!(ball.velocity, Velocity(Vec2::new(495, -495)));
}

#[test]
fn fresh_ball_takes_each_diagonal() {
    assert_eq!(Ball::fresh(heading(Sign::Plus, Sign::Plus)).velocity.0, Vec2::new(495, 495));
    assert_eq!(Ball::fresh(heading(Sign::Minus, Sign::Plus)).velocity.0, Vec2::new(-495, 495));
    assert_eq!(Ball::fresh(heading(Sign::Minus, Sign::Minus)).velocity.0, Vec2::new(-495, -495));
}

#[test]
fn fresh_ball_has_the_nominal_speed() {
    let v = Ball::fresh(heading(Sign::Minus, Sign::Plus)).velocity.0;
    let squared: i64 = v.x * v.x + v.y * v.y;
    assert_eq!(squared, 490_050);
    assert!(BALL_SPEED * BALL_SPEED <= squared);
    assert!(squared < (BALL_SPEED + 1) * (BALL_SPEED + 1));
    assert!(2 * (BALL_AXIS_SPEED - 1) * (BALL_AXIS_SPEED - 1) < BALL_SPEED * BALL_SPEED);
    let speed = ((squared as f64).sqrt()).floor();
    assert_eq!(speed, 700.0);
}

#[test]
fn spawn_puts_one_ball_on_the_court() {
    let mut world = World::setup();
    assert_eq!(world.ball, None);
    world.spawn_ball_with(heading(Sign::Plus, Sign::Plus));
    assert_eq!(world.ball, Some(Ball::fresh(heading(Sign::Plus, Sign::Plus))));
    let mut expected = World::setup();
    expected.ball = world.ball;
    assert_eq!(world, expected);
}

#[test]
fn spawn_by_coin_flips_gives_a_diagonal_ball() {
    let mut world = World::setup();
    world.spawn_ball();
    let ball = world.ball.unwrap();
    assert_eq!(ball.transform.translation, Vec2::new(0, 0));
    assert_eq!(ball.velocity.0.x.abs(), 495);
    assert_eq!(ball.velocity.0.y.abs(), 495);
    assert_eq!(ball.collider, Collider::circle(15 * UNIT));
}

#[test]
fn ball_on_the_line_stays() {
    let mut world = World::setup();
    world.ball = Some(ball_at_x(EXIT_LINE));
    assert!(world.despawn_ball().is_empty());
    assert_eq!(world.ball, Some(ball_at_x(EXIT_LINE)));
    world.ball = Some(ball_at_x(-EXIT_LINE));
    assert!(world.despawn_ball().is_empty());
    assert_eq!(world.ball, Some(ball_at_x(-EXIT_LINE)));
    assert_eq!(EXIT_LINE, 970 * UNIT);
}

#[test]
fn ball_beyond_the_right_line_gives_the_computer_the_point() {
    let mut world = World::setup();
    world.ball = Some(ball_at_x(EXIT_LINE + 1));
    let events = world.despawn_ball();
    assert_eq!(events, vec![BallDestroyed { player_scored: false }]);
    assert_eq!(world, World::setup());
}

#[test]
fn ball_beyond_the_left_line_gives_the_player_the_point() {
    let mut world = World::setup();
    world.ball = Some(ball_at_x(-EXIT_LINE - 1));
    let events = world.despawn_ball();
    assert_eq!(events, vec![BallDestroyed { player_scored: true }]);
    assert_eq!(world.ball, None);
}

#[test]
fn despawn_without_a_ball_gives_nothing() {
    let mut world = World::setup();
    assert!(world.despawn_ball().is_empty());
    assert_eq!(world, World::setup());
}

#[test]
fn respawn_follows_an_event() {
    let mut world = World::setup();
    let events = vec![BallDestroyed { player_scored: true }];
    world.respawn_ball_with(&events, heading(Sign::Minus, Sign::Plus));
    assert_eq!(world.ball, Some(Ball::fresh(heading(Sign::Minus, Sign::Plus))));
}

#[test]
fn respawn_without_an_event_does_nothing() {
    let mut world = World::setup();
    world.respawn_ball_with(&Vec::new(), heading(Sign::Minus, Sign::Plus));
    assert_eq!(world, World::setup());
    world.ball = Some(ball_at_x(7));
    world.respawn_ball(&Vec::new());
    assert_eq!(world.ball, Some(ball_at_x(7)));
}

#[test]
fn respawn_by_coin_flips_gives_a_diagonal_ball() {
    let mut world = World::setup();
    let events = vec![BallDestroyed { player_scored: false }, BallDestroyed { player_scored: true }];
    world.respawn_ball(&events);
    let ball = world.ball.unwrap();
    assert_eq!(ball.transform.translation, Vec2::new(0, 0));
    assert_eq!(ball.velocity.0.x.abs(), 495);
    assert_eq!(ball.velocity.0.y.abs(), 495);
}
