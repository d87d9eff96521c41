use bouncing_ball::telemetry::ball_altitudes;
use bouncing_ball::telemetry::decimal_i64;
use bouncing_ball::telemetry::telemetry_line;
use bouncing_ball::telemetry::telemetry_report;
use bouncing_ball::world::player_movement;
use bouncing_ball::world::setup_character;
use bouncing_ball::world::setup_physics;
use bouncing_ball::world::Vec2;
use bouncing_ball::world::World;

fn demo_world() -> World {
    let mut w = World::new();
    setup_physics(&mut w);
    setup_character(&mut w);
    w
}

#[test]
fn altitudes_list_rigid_bodies_in_spawn_order() {
    let w = demo_world();
    let positions = ball_altitudes(&w);
    assert_eq!(
        positions,
        vec![Vec2 { x: 50, y: -75 }, Vec2 { x: 200, y: -100 }]
    );
}

#[test]
fn altitudes_leave_out_the_static_ground() {
    let w = demo_world();
    let positions = ball_altitudes(&w);
    assert!(!positions.contains(&Vec2 { x: 0, y: -200 }));
}

#[test]
fn telemetry_never_mutates_the_world() {
    let mut w = demo_world();
    player_movement(&mut w, false, true);
    let gravity = w.gravity;
    let bodies = w.bodies.clone();
    for _frame in 0..10 {
        let _ = ball_altitudes(&w);
        let _ = telemetry_report(&w);
        assert_eq!(w.gravity, gravity);
        assert_eq!(w.bodies, bodies);
    }
}

#[test]
fn decimal_renders_exact_digits() {
    assert_eq!(decimal_i64(0), "0");
    assert_eq!(decimal_i64(7), "7");
    assert_eq!(decimal_i64(100), "100");
    assert_eq!(decimal_i64(-600), "-600");
    assert_eq!(decimal_i64(123456789), "123456789");
    assert_eq!(decimal_i64(i64::MAX), "9223372036854775807");
    assert_eq!(decimal_i64(i64::MIN), "-9223372036854775808");
}

#[test]
fn line_has_the_reported_format() {
    let line = telemetry_line(&Vec2 { x: 50, y: -75 });
    assert_eq!(line, "Ball altitude: x:50, y:-75");
}

#[test]
fn report_prints_one_line_per_rigid_body() {
    let w = demo_world();
    let lines = telemetry_report(&w);
    assert_eq!(
        lines,
        vec![
            String::from("Ball altitude: x:50, y:-75"),
            String::from("Ball altitude: x:200, y:-100"),
        ]
    );
}
