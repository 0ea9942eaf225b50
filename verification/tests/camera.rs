use render_core::camera::clamp_pitch;
use render_core::camera::Axis;
use render_core::camera::Direction;
use render_core::camera::Movement;
use render_core::camera::NEGATIVE_PITCH_LIMIT;
use render_core::camera::PITCH_LIMIT;
use render_core::camera::RIGHT_ANGLE;
use render_core::camera::SENSITIVITY;
use render_core::camera::SPEED;
use render_core::scalar::less_than;

fn clamp(pitch: f32) -> f32 {
    f32::from_bits(clamp_pitch(pitch.to_bits()))
}

fn forward(yaw: f32, pitch: f32) -> [f32; 3] {
    [
        pitch.to_radians().cos() * yaw.to_radians().cos(),
        pitch.to_radians().sin(),
        pitch.to_radians().cos() * yaw.to_radians().sin(),
    ]
}

fn travel(position: [f32; 3], axis: [f32; 3], movement: Movement, seconds: f32) -> [f32; 3] {
    let speed = f32::from_bits(SPEED) * seconds;
    let sign = if movement.negative { -1.0 } else { 1.0 };
    [
        position[0] + sign * axis[0] * speed,
        position[1] + sign * axis[1] * speed,
        position[2] + sign * axis[2] * speed,
    ]
}

#[test]
fn constants_are_the_numbers_they_stand_for() {
    assert_eq!(f32::from_bits(SPEED), 10.0);
    assert_eq!(f32::from_bits(SENSITIVITY), 0.1);
    assert_eq!(f32::from_bits(PITCH_LIMIT), 89.9);
    assert_eq!(f32::from_bits(NEGATIVE_PITCH_LIMIT), -89.9);
    assert_eq!(f32::from_bits(RIGHT_ANGLE), 90.0);
}

#[test]
fn forward_for_one_second_at_rest_travels_speed_along_forward() {
    let movement = Direction::FORWARD.movement();
    assert_eq!(movement, Movement { axis: Axis::Forward, negative: false });
    let axis = forward(0.0, 0.0);
    assert_eq!(axis, [1.0, 0.0, 0.0]);
    let position = travel([0.0, 0.0, 0.0], axis, movement, 1.0);
    assert_eq!(position, [10.0, 0.0, 0.0]);
}

#[test]
fn directions_map_to_axes_and_signs() {
    assert_eq!(Direction::FORWARD.movement(), Movement { axis: Axis::Forward, negative: false });
    assert_eq!(Direction::BACKWARD.movement(), Movement { axis: Axis::Forward, negative: true });
    assert_eq!(Direction::LEFT.movement(), Movement { axis: Axis::Right, negative: true });
    assert_eq!(Direction::RIGHT.movement(), Movement { axis: Axis::Right, negative: false });
}

#[test]
fn backward_undoes_forward() {
    let axis = forward(30.0, 10.0);
    let there = travel([1.0, 2.0, 3.0], axis, Direction::FORWARD.movement(), 0.5);
    let back = travel(there, axis, Direction::BACKWARD.movement(), 0.5);
    for i in 0..3 {
        assert!((back[i] - [1.0, 2.0, 3.0][i]).abs() < 1e-5);
    }
}

#[test]
fn ten_thousand_degrees_down_ends_at_the_limit() {
    let sensitivity = f32::from_bits(SENSITIVITY);
    let mut pitch = 0.0f32;
    for _ in 0..1000 {
        pitch = clamp(pitch + -100.0 * sensitivity);
        assert!(pitch > -90.0 && pitch < 90.0);
        assert!(!pitch.is_nan());
    }
    assert_eq!(pitch, -89.9);
    let ahead = forward(0.0, pitch);
    assert!(ahead[0] > 0.0);
    for _ in 0..3000 {
        pitch = clamp(pitch + 100.0 * sensitivity);
        assert!(pitch > -90.0 && pitch < 90.0);
    }
    assert_eq!(pitch, 89.9);
}

#[test]
fn pitch_beyond_the_limits_is_brought_back() {
    assert_eq!(clamp(-1000.0), -89.9);
    assert_eq!(clamp(1000.0), 89.9);
    assert_eq!(clamp(90.0), 89.9);
    assert_eq!(clamp(-90.0), -89.9);
    assert_eq!(clamp(f32::INFINITY), 89.9);
    assert_eq!(clamp(f32::NEG_INFINITY), -89.9);
    assert_eq!(clamp(f32::MAX), 89.9);
    assert_eq!(clamp(f32::MIN), -89.9);
    assert_eq!(clamp(89.90001), 89.9);
}

#[test]
fn pitch_within_the_limits_is_left_alone() {
    for pitch in [0.0f32, -0.0, 1.0, -1.0, 45.5, -45.5, 89.9, -89.9, 89.89999, 1e-40, -1e-40, f32::MIN_POSITIVE] {
        assert_eq!(clamp_pitch(pitch.to_bits()), pitch.to_bits());
    }
}

#[test]
fn nan_pitch_stays_as_it_is() {
    assert_eq!(clamp_pitch(f32::NAN.to_bits()), f32::NAN.to_bits());
    assert_eq!(clamp_pitch(0xffc0_0001), 0xffc0_0001);
    assert_eq!(clamp_pitch(0x7f80_0001), 0x7f80_0001);
}

#[test]
fn clamp_agrees_with_the_comparison_of_numbers() {
    let samples = [
        0.0f32, -0.0, 0.1, -0.1, 89.0, 89.9, 89.91, 90.0, -89.0, -89.9, -89.91, -90.0, 1e30, -1e30,
        f32::INFINITY, f32::NEG_INFINITY, f32::NAN, 1e-45, -1e-45,
    ];
    for pitch in samples {
        let expected = if pitch < -89.9 {
            -89.9
        } else if pitch > 89.9 {
            89.9
        } else {
            pitch
        };
        assert_eq!(clamp_pitch(pitch.to_bits()), expected.to_bits());
    }
}

#[test]
fn less_than_orders_bit_patterns_as_numbers() {
    let samples = [
        0.0f32, -0.0, 1.0, -1.0, 0.5, -0.5, 2.0, -2.0, 89.9, -89.9, 1e-45, -1e-45, f32::MAX, f32::MIN,
        f32::MIN_POSITIVE, f32::INFINITY, f32::NEG_INFINITY, f32::NAN, -f32::NAN,
    ];
    for a in samples {
        for b in samples {
            assert_eq!(less_than(a.to_bits(), b.to_bits()), a < b);
        }
    }
}
