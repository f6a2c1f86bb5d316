use ray_tracer::algebra::Plane;
use ray_tracer::camera::{
    arrow_turn, Arrow, Camera, Key, KeyState, Turn, MOVEMENT_SPEED, SENSITIVITY, VOLUME_TRANSITION,
};
use ray_tracer::rotor::{HalfAngle, Rotor};
use ray_tracer::scalar::{FRAC_PI_2, ONE};
use ray_tracer::state::{CursorAction, State};
use ray_tracer::vector::Vector4;

fn still() -> HalfAngle {
    HalfAngle::zero()
}

#[test]
fn new_camera_is_at_rest_at_the_origin() {
    let camera = Camera::new();
    assert_eq!(camera.position, Vector4::zero());
    assert_eq!(camera.base_rotation, Rotor::identity());
    assert_eq!(
        (camera.forward_movement, camera.up_movement, camera.right_movement, camera.ana_movement),
        (0, 0, 0, 0)
    );
    assert!(!camera.volume_mode);
    assert_eq!(camera.volume_mode_percentage, 0);
    assert_eq!(camera.xy_rotation, 0);
    assert_eq!(Camera::default(), camera);
}

#[test]
fn axes_of_the_camera_are_the_four_unit_vectors() {
    assert_eq!(Camera::forward(), Vector4::new(ONE, 0, 0, 0));
    assert_eq!(Camera::up(), Vector4::new(0, ONE, 0, 0));
    assert_eq!(Camera::right(), Vector4::new(0, 0, ONE, 0));
    assert_eq!(Camera::ana(), Vector4::new(0, 0, 0, ONE));
}

#[test]
fn constants_have_their_values() {
    assert_eq!(MOVEMENT_SPEED, 2 * ONE);
    assert_eq!(SENSITIVITY, 655);
    assert_eq!(VOLUME_TRANSITION, ONE / 2);
}

#[test]
fn keys_set_and_clear_the_movement_along_their_axis() {
    let cases = [
        (Key::W, (MOVEMENT_SPEED, 0, 0, 0)),
        (Key::S, (-MOVEMENT_SPEED, 0, 0, 0)),
        (Key::E, (0, MOVEMENT_SPEED, 0, 0)),
        (Key::Q, (0, -MOVEMENT_SPEED, 0, 0)),
        (Key::D, (0, 0, MOVEMENT_SPEED, 0)),
        (Key::A, (0, 0, -MOVEMENT_SPEED, 0)),
        (Key::R, (0, 0, 0, MOVEMENT_SPEED)),
        (Key::F, (0, 0, 0, -MOVEMENT_SPEED)),
        (Key::Escape, (0, 0, 0, 0)),
        (Key::Other, (0, 0, 0, 0)),
    ];
    for (key, expected) in cases {
        let mut camera = Camera::new();
        camera.key(key, KeyState::Pressed);
        assert_eq!(
            (camera.forward_movement, camera.up_movement, camera.right_movement, camera.ana_movement),
            expected
        );
        camera.key(key, KeyState::Released);
        assert_eq!(camera, Camera::new());
    }
}

#[test]
fn releasing_a_key_stops_its_axis_whichever_key_set_it() {
    let mut camera = Camera::new();
    camera.key(Key::W, KeyState::Pressed);
    camera.key(Key::D, KeyState::Pressed);
    camera.key(Key::S, KeyState::Released);
    assert_eq!((camera.forward_movement, camera.right_movement), (0, MOVEMENT_SPEED));
}

#[test]
fn reset_keys_stops_all_movement() {
    let mut camera = Camera::new();
    camera.key(Key::W, KeyState::Pressed);
    camera.key(Key::Q, KeyState::Pressed);
    camera.key(Key::D, KeyState::Pressed);
    camera.key(Key::F, KeyState::Pressed);
    camera.xy_rotation = 5;
    camera.reset_keys();
    assert_eq!(camera, Camera { xy_rotation: 5, ..Camera::new() });
}

#[test]
fn update_moves_along_the_axes_of_the_camera() {
    let mut camera = Camera::new();
    camera.key(Key::W, KeyState::Pressed);
    camera.key(Key::Q, KeyState::Pressed);
    camera.update(ONE, still(), still());
    assert_eq!(camera.position, Vector4::new(2 * ONE, -2 * ONE, 0, 0));
    camera.update(ONE / 4, still(), still());
    assert_eq!(camera.position, Vector4::new(5 * ONE / 2, -5 * ONE / 2, 0, 0));
    camera.key(Key::W, KeyState::Released);
    camera.key(Key::Q, KeyState::Released);
    camera.key(Key::R, KeyState::Pressed);
    camera.key(Key::A, KeyState::Pressed);
    camera.update(ONE / 2, still(), still());
    assert_eq!(camera.position, Vector4::new(5 * ONE / 2, -5 * ONE / 2, -ONE, ONE));
}

#[test]
fn update_moves_along_the_turned_axes() {
    let mut camera = Camera::new();
    // A quarter turn of the free orientation from x toward z.
    camera.base_rotation = Rotor::rotation_xz(HalfAngle { cos: 46341, sin: 46341 }).normalized();
    camera.key(Key::W, KeyState::Pressed);
    camera.update(ONE, still(), still());
    assert_eq!(camera.position, Vector4::new(0, 0, 2 * ONE, 0));
}

#[test]
fn update_without_time_changes_only_the_normalization() {
    let mut camera = Camera::new();
    camera.key(Key::W, KeyState::Pressed);
    camera.xy_rotation = 100;
    camera.base_rotation = Rotor { s: 3 * ONE, ..Rotor::identity() };
    let before = camera;
    camera.update(0, still(), still());
    assert_eq!(camera, Camera { base_rotation: Rotor::identity(), ..before });
}

#[test]
fn volume_view_advances_to_one_and_then_forces_the_look_angle_to_zero() {
    let mut camera = Camera::new();
    camera.volume_mode = true;
    camera.xy_rotation = ONE / 2;
    // A tenth of a second for each frame: a fifth of the transition.
    let ts = 6554;
    let mut expected = 0;
    for _ in 0..4 {
        camera.update(ts, still(), still());
        expected += 2 * ts;
        assert_eq!(camera.volume_mode_percentage, expected);
        assert_eq!(camera.xy_rotation, ONE / 2);
    }
    camera.update(ts, still(), still());
    assert_eq!(camera.volume_mode_percentage, ONE);
    assert_eq!(camera.xy_rotation, 0);
    camera.update(ts, still(), still());
    assert_eq!(camera.volume_mode_percentage, ONE);
    assert_eq!(camera.xy_rotation, 0);
}

#[test]
fn volume_view_retreats_to_zero_when_switched_off() {
    let mut camera = Camera::new();
    camera.volume_mode_percentage = ONE;
    camera.xy_rotation = 0;
    camera.update(ONE / 8, still(), still());
    assert_eq!(camera.volume_mode_percentage, 3 * ONE / 4);
    camera.update(ONE, still(), still());
    assert_eq!(camera.volume_mode_percentage, 0);
    camera.update(ONE, still(), still());
    assert_eq!(camera.volume_mode_percentage, 0);
}

#[test]
fn blend_after_is_what_update_stores() {
    let mut camera = Camera::new();
    camera.volume_mode = true;
    camera.volume_mode_percentage = 1000;
    assert_eq!(camera.blend_after(100), 1200);
    assert_eq!(camera.blend_after(ONE), ONE);
    assert_eq!(camera.blend_after(i32::MAX), ONE);
    assert_eq!(camera.blend_after(-ONE), 0);
    camera.volume_mode = false;
    assert_eq!(camera.blend_after(100), 800);
    assert_eq!(camera.blend_after(i32::MIN), ONE);
}

#[test]
fn constrained_angles_follow_the_volume_view() {
    let mut camera = Camera::new();
    camera.xy_rotation = ONE;
    assert_eq!(camera.volume_angle(), 0);
    assert_eq!(camera.look_angle(), ONE);
    camera.volume_mode_percentage = ONE / 2;
    assert_eq!(camera.volume_angle(), FRAC_PI_2 / 2);
    assert_eq!(camera.look_angle(), ONE / 2);
    camera.volume_mode_percentage = ONE;
    assert_eq!(camera.volume_angle(), FRAC_PI_2);
    assert_eq!(camera.look_angle(), 0);
}

#[test]
fn drag_angle_is_a_hundredth_of_the_pointer_movement() {
    assert_eq!(Camera::drag_angle(100 * ONE), 65500);
    assert_eq!(Camera::drag_angle(-100 * ONE), -65500);
    assert_eq!(Camera::drag_angle(0), 0);
}

#[test]
fn effective_rotation_composes_base_volume_and_look() {
    let mut camera = Camera::new();
    let base = Rotor::rotation_xz(HalfAngle { cos: 0, sin: ONE });
    camera.base_rotation = base;
    let volume = HalfAngle { cos: 46341, sin: 46341 };
    let look = HalfAngle { cos: 60000, sin: 26350 };
    assert_eq!(camera.get_rotation_without_xy(volume), base.compose(Rotor::rotation_yw(volume)));
    assert_eq!(
        camera.get_rotation(volume, look),
        base.compose(Rotor::rotation_yw(volume)).compose(Rotor::rotation_xy(look))
    );
    assert_eq!(camera.get_rotation(still(), still()), base);
}

#[test]
fn pointer_turns_the_look_angle_and_the_base_rotation() {
    let mut camera = Camera::new();
    let turn_x = HalfAngle { cos: 60000, sin: 26350 };
    let turn_y = HalfAngle { cos: 46341, sin: 46341 };
    camera.mouse_moved(10 * ONE, turn_x, turn_y);
    assert_eq!(camera.xy_rotation, -6550);
    assert_eq!(camera.base_rotation, Rotor::rotation_xz(turn_x));
    camera.mouse_moved(-30 * ONE, still(), turn_y);
    assert_eq!(camera.xy_rotation, 13100);
    assert_eq!(camera.base_rotation, Rotor::rotation_xz(turn_x));
}

#[test]
fn look_angle_stays_within_a_quarter_turn() {
    let mut camera = Camera::new();
    camera.mouse_moved(-1000 * ONE, still(), still());
    assert_eq!(camera.xy_rotation, FRAC_PI_2);
    camera.mouse_moved(i32::MAX, still(), still());
    assert_eq!(camera.xy_rotation, -FRAC_PI_2);
    camera.mouse_moved(i32::MIN, still(), still());
    assert_eq!(camera.xy_rotation, FRAC_PI_2);
}

#[test]
fn pointer_turns_only_the_base_rotation_in_the_volume_view() {
    let mut camera = Camera::new();
    camera.volume_mode = true;
    camera.xy_rotation = 77;
    let turn_x = HalfAngle { cos: 60000, sin: 26350 };
    let turn_y = HalfAngle { cos: 46341, sin: 46341 };
    camera.mouse_moved(10 * ONE, turn_x, turn_y);
    assert_eq!(camera.xy_rotation, 77);
    assert_eq!(
        camera.base_rotation,
        Rotor::identity().compose(Rotor::rotation_xz(turn_x)).compose(Rotor::rotation_xw(turn_y))
    );
}

#[test]
fn escape_toggles_the_lock_of_the_pointer() {
    let mut state = State::new();
    assert!(!state.mouse_locked);
    assert_eq!(state.key(Key::Escape, KeyState::Pressed), CursorAction::Confine);
    assert!(state.mouse_locked);
    assert_eq!(state.key(Key::Escape, KeyState::Released), CursorAction::Keep);
    assert!(state.mouse_locked);
    assert_eq!(state.key(Key::Escape, KeyState::Pressed), CursorAction::Release);
    assert!(!state.mouse_locked);
    assert_eq!(state.camera, Camera::new());
}

#[test]
fn state_hands_keys_to_the_camera() {
    let mut state = State::new();
    assert_eq!(state.key(Key::W, KeyState::Pressed), CursorAction::Keep);
    assert_eq!(state.camera.forward_movement, MOVEMENT_SPEED);
    assert!(!state.mouse_locked);
    state.update(ONE, still(), still());
    assert_eq!(state.camera.position, Vector4::new(2 * ONE, 0, 0, 0));
}

#[test]
fn losing_the_focus_frees_the_pointer_and_stops_the_camera() {
    let mut state = State::new();
    state.key(Key::Escape, KeyState::Pressed);
    state.key(Key::W, KeyState::Pressed);
    assert_eq!(state.focused(true), CursorAction::Keep);
    assert!(state.mouse_locked);
    assert_eq!(state.camera.forward_movement, MOVEMENT_SPEED);
    assert_eq!(state.focused(false), CursorAction::Release);
    assert!(!state.mouse_locked);
    assert_eq!(state.camera, Camera::new());
}

#[test]
fn pointer_turns_the_camera_only_while_it_is_locked() {
    let mut state = State::new();
    let turn = HalfAngle { cos: 60000, sin: 26350 };
    state.mouse_moved(10 * ONE, turn, turn);
    assert_eq!(state.camera, Camera::new());
    state.key(Key::Escape, KeyState::Pressed);
    state.mouse_moved(10 * ONE, turn, turn);
    assert_eq!(state.camera.xy_rotation, -6550);
    assert_eq!(state.camera.base_rotation, Rotor::rotation_xz(turn));
}

#[test]
fn arrows_look_and_turn_outside_the_volume_view() {
    assert_eq!(arrow_turn(false, false, Arrow::Up), Turn::Look { positive: true });
    assert_eq!(arrow_turn(false, false, Arrow::Down), Turn::Look { positive: false });
    assert_eq!(
        arrow_turn(false, false, Arrow::Left),
        Turn::Rotate { plane: Plane::XY, positive: false }
    );
    assert_eq!(
        arrow_turn(false, false, Arrow::Right),
        Turn::Rotate { plane: Plane::XY, positive: true }
    );
    assert_eq!(
        arrow_turn(false, true, Arrow::Up),
        Turn::Rotate { plane: Plane::XW, positive: true }
    );
    assert_eq!(
        arrow_turn(false, true, Arrow::Down),
        Turn::Rotate { plane: Plane::XW, positive: false }
    );
    assert_eq!(
        arrow_turn(false, true, Arrow::Left),
        Turn::Rotate { plane: Plane::YW, positive: false }
    );
    assert_eq!(
        arrow_turn(false, true, Arrow::Right),
        Turn::Rotate { plane: Plane::YW, positive: true }
    );
}

#[test]
fn arrows_turn_into_the_fourth_dimension_in_the_volume_view() {
    assert_eq!(
        arrow_turn(true, false, Arrow::Up),
        Turn::Rotate { plane: Plane::XW, positive: true }
    );
    assert_eq!(
        arrow_turn(true, false, Arrow::Down),
        Turn::Rotate { plane: Plane::XW, positive: false }
    );
    assert_eq!(
        arrow_turn(true, false, Arrow::Left),
        Turn::Rotate { plane: Plane::XY, positive: false }
    );
    assert_eq!(
        arrow_turn(true, false, Arrow::Right),
        Turn::Rotate { plane: Plane::XY, positive: true }
    );
    assert_eq!(arrow_turn(true, true, Arrow::Up), Turn::Nothing);
    assert_eq!(arrow_turn(true, true, Arrow::Down), Turn::Nothing);
    assert_eq!(
        arrow_turn(true, true, Arrow::Left),
        Turn::Rotate { plane: Plane::YW, positive: true }
    );
    assert_eq!(
        arrow_turn(true, true, Arrow::Right),
        Turn::Rotate { plane: Plane::YW, positive: false }
    );
}

#[test]
fn turn_angle_is_a_quarter_turn_for_each_second() {
    assert_eq!(Camera::turn_angle(ONE), FRAC_PI_2);
    assert_eq!(Camera::turn_angle(ONE / 2), FRAC_PI_2 / 2);
    assert_eq!(Camera::turn_angle(0), 0);
    assert_eq!(Camera::turn_angle(-ONE), -FRAC_PI_2);
}

#[test]
fn turning_composes_a_plane_rotation_into_the_base_rotation() {
    let half = HalfAngle { cos: 60000, sin: 26350 };
    let mut camera = Camera::new();
    camera.turn(Turn::Rotate { plane: Plane::XW, positive: true }, 1000, half);
    assert_eq!(camera.base_rotation, Rotor::rotation_xw(half));
    camera.turn(Turn::Rotate { plane: Plane::XW, positive: false }, 1000, half);
    assert_eq!(
        camera.base_rotation,
        Rotor::rotation_xw(half).compose(Rotor::rotation_xw(HalfAngle { cos: 60000, sin: -26350 }))
    );
    assert_eq!(camera.xy_rotation, 0);
    assert_eq!(half.opposite(), HalfAngle { cos: 60000, sin: -26350 });
    assert_eq!(HalfAngle { cos: 0, sin: i32::MIN }.opposite(), HalfAngle { cos: 0, sin: i32::MAX });
}

#[test]
fn looking_changes_the_look_angle_within_a_quarter_turn() {
    let half = HalfAngle { cos: 60000, sin: 26350 };
    let mut camera = Camera::new();
    camera.turn(Turn::Look { positive: true }, 1000, half);
    assert_eq!(camera.xy_rotation, 1000);
    camera.turn(Turn::Look { positive: false }, 3000, half);
    assert_eq!(camera.xy_rotation, -2000);
    camera.turn(Turn::Look { positive: false }, i32::MAX, half);
    assert_eq!(camera.xy_rotation, -FRAC_PI_2);
    camera.turn(Turn::Look { positive: true }, i32::MAX, half);
    assert_eq!(camera.xy_rotation, FRAC_PI_2);
    assert_eq!(camera.base_rotation, Rotor::identity());
    let before = camera;
    camera.turn(Turn::Nothing, 1000, half);
    assert_eq!(camera, before);
}
