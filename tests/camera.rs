use flycam::camera::{
    Camera, CameraController, Heading, Position, FULL_TURN, HEADING_SCALE, PITCH_LIMIT,
    QUARTER_TURN,
};
use flycam::input::{InputEvent, Key};

fn heading_of(yaw_degrees: f64) -> Heading {
    let r = yaw_degrees.to_radians();
    Heading {
        cos: (r.cos() * HEADING_SCALE as f64).round() as i32,
        sin: (r.sin() * HEADING_SCALE as f64).round() as i32,
    }
}

fn origin() -> Position {
    Position { x: 0, y: 0, z: 0 }
}

#[test]
fn forward_at_yaw_ninety_moves_along_z_by_speed() {
    let mut camera = Camera::new(origin(), 900_000, 0);
    let mut controller = CameraController::new(2_000_000, 1_145_916);
    controller.process_event(InputEvent::KeyDown(Key::W));
    let heading = heading_of(90.0);
    assert_eq!(heading, Heading { cos: 0, sin: 1_000_000 });
    controller.update_camera(&mut camera, heading, 1_000_000);
    assert_eq!(camera.position, Position { x: 0, y: 0, z: 2_000_000 });
    assert_eq!(camera.yaw, 900_000);
    assert_eq!(camera.pitch, 0);
}

#[test]
fn forward_at_yaw_zero_moves_along_x() {
    let mut camera = Camera::new(origin(), 0, 0);
    let mut controller = CameraController::new(3_000_000, 0);
    controller.process_event(InputEvent::KeyDown(Key::W));
    controller.update_camera(&mut camera, heading_of(0.0), 500_000);
    assert_eq!(camera.position, Position { x: 1_500_000, y: 0, z: 0 });
}

#[test]
fn right_and_back_follow_the_yaw_only_basis() {
    let mut camera = Camera::new(origin(), 0, 450_000);
    let mut controller = CameraController::new(1_000_000, 0);
    controller.process_event(InputEvent::KeyDown(Key::D));
    controller.update_camera(&mut camera, heading_of(0.0), 1_000_000);
    // Right of yaw zero is +z, whatever the pitch.
    assert_eq!(camera.position, Position { x: 0, y: 0, z: 1_000_000 });
    controller.process_event(InputEvent::KeyUp(Key::D));
    controller.process_event(InputEvent::KeyDown(Key::S));
    controller.update_camera(&mut camera, heading_of(0.0), 1_000_000);
    assert_eq!(camera.position, Position { x: -1_000_000, y: 0, z: 1_000_000 });
}

#[test]
fn vertical_movement_uses_world_up() {
    let mut camera = Camera::new(origin(), 1_234_567, 300_000);
    let mut controller = CameraController::new(2_000_000, 0);
    controller.process_event(InputEvent::KeyDown(Key::Space));
    controller.update_camera(&mut camera, heading_of(123.4567), 250_000);
    assert_eq!(camera.position, Position { x: 0, y: 500_000, z: 0 });
    controller.process_event(InputEvent::KeyDown(Key::RShift));
    controller.update_camera(&mut camera, heading_of(123.4567), 1_000_000);
    assert_eq!(camera.position.y, -1_500_000);
}

#[test]
fn steps_round_down() {
    let mut camera = Camera::new(origin(), 0, 0);
    let mut controller = CameraController::new(1, 0);
    controller.process_event(InputEvent::KeyDown(Key::LShift));
    controller.update_camera(&mut camera, heading_of(0.0), 1);
    assert_eq!(camera.position.y, -1);
    controller.process_event(InputEvent::KeyDown(Key::Space));
    controller.update_camera(&mut camera, heading_of(0.0), 1);
    assert_eq!(camera.position.y, -1);
}

#[test]
fn position_saturates_at_the_integer_bounds() {
    let mut camera = Camera::new(Position { x: i64::MAX - 1, y: i64::MIN + 1, z: 0 }, 0, 0);
    let mut controller = CameraController::new(u32::MAX, 0);
    controller.process_event(InputEvent::KeyDown(Key::W));
    controller.process_event(InputEvent::KeyDown(Key::LShift));
    controller.update_camera(&mut camera, heading_of(0.0), u32::MAX);
    assert_eq!(camera.position.x, i64::MAX);
    assert_eq!(camera.position.y, i64::MIN);
}

#[test]
fn idle_controller_leaves_camera_unchanged() {
    let controller = CameraController::new(2_000_000, 1_145_916);
    for dt in [0u32, 1, 16_666, 1_000_000, u32::MAX] {
        let start = Camera::new(Position { x: 5, y: -7, z: 11 }, 1_000_000, -400_000);
        let mut camera = start;
        controller.update_camera(&mut camera, heading_of(100.0), dt);
        assert_eq!(camera, start);
    }
}

#[test]
fn pitch_never_reaches_the_poles() {
    let mut camera = Camera::new(origin(), 0, 0);
    let mut controller = CameraController::new(0, 1_145_916);
    controller.process_event(InputEvent::KeyDown(Key::Up));
    for _ in 0..100 {
        controller.update_camera(&mut camera, heading_of(0.0), 100_000);
        assert!(camera.pitch < QUARTER_TURN && camera.pitch > -QUARTER_TURN);
    }
    assert_eq!(camera.pitch, PITCH_LIMIT);
    controller.process_event(InputEvent::KeyDown(Key::Down));
    controller.update_camera(&mut camera, heading_of(0.0), u32::MAX);
    assert_eq!(camera.pitch, -PITCH_LIMIT);
}

#[test]
fn pitch_integrates_inside_the_limits() {
    let mut camera = Camera::new(origin(), 0, 0);
    let mut controller = CameraController::new(0, 100_000);
    controller.process_event(InputEvent::KeyDown(Key::Up));
    controller.update_camera(&mut camera, heading_of(0.0), 1_500_000);
    assert_eq!(camera.pitch, 150_000);
}

#[test]
fn yaw_turns_and_wraps_within_one_turn() {
    let mut camera = Camera::new(origin(), 0, 0);
    let mut controller = CameraController::new(0, 1_000_000);
    controller.process_event(InputEvent::KeyDown(Key::Left));
    controller.update_camera(&mut camera, heading_of(0.0), 1_000_000);
    assert_eq!(camera.yaw, FULL_TURN - 1_000_000);
    controller.process_event(InputEvent::KeyDown(Key::Right));
    controller.update_camera(&mut camera, heading_of(0.0), 2_000_000);
    assert_eq!(camera.yaw, 1_000_000);
}

#[test]
fn camera_new_normalizes_yaw_and_clamps_pitch() {
    let camera = Camera::new(origin(), -1, 900_000);
    assert_eq!(camera.yaw, FULL_TURN - 1);
    assert_eq!(camera.pitch, PITCH_LIMIT);
    let camera = Camera::new(origin(), FULL_TURN * 2 + 5, -2_000_000);
    assert_eq!(camera.yaw, 5);
    assert_eq!(camera.pitch, -PITCH_LIMIT);
}

#[test]
fn key_presses_set_intents_to_the_speed() {
    let mut c = CameraController::new(7, 3);
    c.process_event(InputEvent::KeyDown(Key::W));
    assert_eq!(c.forward, 7);
    c.process_event(InputEvent::KeyDown(Key::S));
    assert_eq!(c.forward, -7);
    c.process_event(InputEvent::KeyDown(Key::A));
    assert_eq!(c.right, -7);
    c.process_event(InputEvent::KeyDown(Key::D));
    assert_eq!(c.right, 7);
    c.process_event(InputEvent::KeyDown(Key::LShift));
    assert_eq!(c.up, -7);
    c.process_event(InputEvent::KeyDown(Key::Space));
    assert_eq!(c.up, 7);
    c.process_event(InputEvent::KeyDown(Key::Left));
    assert_eq!(c.yaw_rate, -3);
    c.process_event(InputEvent::KeyDown(Key::Right));
    assert_eq!(c.yaw_rate, 3);
    c.process_event(InputEvent::KeyDown(Key::Down));
    assert_eq!(c.pitch_rate, -3);
    c.process_event(InputEvent::KeyDown(Key::Up));
    assert_eq!(c.pitch_rate, 3);
}

#[test]
fn key_releases_clear_their_axis() {
    let mut c = CameraController::new(7, 3);
    for key in [Key::S, Key::A, Key::RShift, Key::Left, Key::Down] {
        c.process_event(InputEvent::KeyDown(key));
    }
    c.process_event(InputEvent::KeyUp(Key::W));
    assert_eq!(c.forward, 0);
    assert_eq!(c.right, -7);
    c.process_event(InputEvent::KeyUp(Key::D));
    assert_eq!(c.right, 0);
    c.process_event(InputEvent::KeyUp(Key::Space));
    assert_eq!(c.up, 0);
    c.process_event(InputEvent::KeyUp(Key::Right));
    assert_eq!(c.yaw_rate, 0);
    c.process_event(InputEvent::KeyUp(Key::Up));
    assert_eq!(c.pitch_rate, 0);
    assert_eq!(c, CameraController::new(7, 3));
}

#[test]
fn unrecognized_events_are_ignored() {
    let mut c = CameraController::new(7, 3);
    c.process_event(InputEvent::KeyDown(Key::W));
    let before = c;
    for event in [
        InputEvent::KeyDown(Key::Other),
        InputEvent::KeyUp(Key::Other),
        InputEvent::KeyDown(Key::Escape),
        InputEvent::Resized(10, 10),
        InputEvent::Quit,
        InputEvent::Other,
    ] {
        c.process_event(event);
    }
    assert_eq!(c, before);
}

#[test]
fn basis_vectors_come_from_the_heading() {
    let (forward, right) = Heading { cos: 600_000, sin: 800_000 }.dirs_forward_right();
    assert_eq!((forward.x, forward.y, forward.z), (600_000, 0, 800_000));
    assert_eq!((right.x, right.y, right.z), (-800_000, 0, 600_000));
}
