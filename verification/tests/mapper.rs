use bouncing_ball::input::axis;
use bouncing_ball::input::held_actions;
use bouncing_ball::input::velocity_x;
use bouncing_ball::input::Keys;

#[test]
fn axis_left_only() {
    assert_eq!(axis(true, false), -1);
}

#[test]
fn axis_right_only() {
    assert_eq!(axis(false, true), 1);
}

#[test]
fn axis_both_cancel() {
    assert_eq!(axis(true, true), 0);
}

#[test]
fn axis_neither() {
    assert_eq!(axis(false, false), 0);
}

#[test]
fn velocity_scales_axis_by_speed() {
    for speed in [1i64, 7, 100, 250, i64::MAX] {
        assert_eq!(velocity_x(true, false, speed), -speed);
        assert_eq!(velocity_x(false, true, speed), speed);
    }
}

#[test]
fn velocity_zero_when_cancelled_regardless_of_speed() {
    for speed in [1i64, 100, i64::MAX] {
        assert_eq!(velocity_x(true, true, speed), 0);
        assert_eq!(velocity_x(false, false, speed), 0);
    }
}

#[test]
fn any_key_of_a_set_holds_its_action() {
    let idle = Keys {
        key_a: false,
        left_arrow: false,
        key_d: false,
        right_arrow: false,
    };
    assert_eq!(held_actions(&idle), (false, false));
    assert_eq!(held_actions(&Keys { key_a: true, ..idle }), (true, false));
    assert_eq!(
        held_actions(&Keys {
            left_arrow: true,
            ..idle
        }),
        (true, false)
    );
    assert_eq!(held_actions(&Keys { key_d: true, ..idle }), (false, true));
    assert_eq!(
        held_actions(&Keys {
            right_arrow: true,
            ..idle
        }),
        (false, true)
    );
    assert_eq!(
        held_actions(&Keys {
            key_a: true,
            right_arrow: true,
            ..idle
        }),
        (true, true)
    );
}

#[test]
fn mapper_is_deterministic_per_frame() {
    let first = velocity_x(false, true, 100);
    let second = velocity_x(false, true, 100);
    assert_eq!(first, 100);
    assert_eq!(second, 100);
}
