use vstd::prelude::*;
use crate::input::{InputEvent, Key};

verus! {

/// Angles are counted in ten-thousandths of a degree.
pub const ANGLE_UNITS_PER_DEGREE: i64 = 10_000;

/// A quarter turn (90 degrees) in angle units.
pub const QUARTER_TURN: i64 = 900_000;

/// A half turn (180 degrees) in angle units.
pub const HALF_TURN: i64 = 1_800_000;

/// A full turn (360 degrees) in angle units.
pub const FULL_TURN: i64 = 3_600_000;

/// The largest pitch magnitude: one angle unit short of straight up or down,
/// where the look direction degenerates.
pub const PITCH_LIMIT: i64 = 899_999;

/// Lengths are counted in millionths of a world unit.
pub const LENGTH_UNITS_PER_WORLD_UNIT: i64 = 1_000_000;

/// Fixed-point scale of a heading's cosine and sine: `cos(0) == HEADING_SCALE`.
pub const HEADING_SCALE: i64 = 1_000_000;

/// Elapsed time is counted in microseconds.
pub const MICROS_PER_SECOND: i64 = 1_000_000;

/// A point in world space, in length units.
#[derive(Clone, Copy, Debug, PartialEq, Eq)]
pub struct Position {
    pub x: i64,
    pub y: i64,
    pub z: i64,
}

/// A direction in the horizontal plane or along the up axis, scaled by `HEADING_SCALE`.
#[derive(Clone, Copy, Debug, PartialEq, Eq)]
pub struct Direction {
    pub x: i64,
    pub y: i64,
    pub z: i64,
}

/// Cosine and sine of the camera's yaw, scaled by `HEADING_SCALE`.
#[derive(Clone, Copy, Debug, PartialEq, Eq)]
pub struct Heading {
    pub cos: i32,
    pub sin: i32,
}

/// First-person camera: a position and a yaw / pitch orientation.
#[derive(Clone, Copy, Debug, PartialEq, Eq)]
pub struct Camera {
    pub position: Position,
    /// Rotation about the up axis, in angle units.
    pub yaw: i64,
    /// Elevation of the look direction, in angle units.
    pub pitch: i64,
}

/// Yaw brought into `[0, FULL_TURN)`; whole turns do not change the orientation.
pub open spec fn normalize_yaw(a: int) -> i64 {
    (a % (FULL_TURN as int)) as i64
}

/// Pitch clamped into `[-PITCH_LIMIT, PITCH_LIMIT]`, strictly inside the poles.
pub open spec fn clamp_pitch(a: int) -> i64 {
    if a > PITCH_LIMIT {
        PITCH_LIMIT
    } else if a < -PITCH_LIMIT {
        (-PITCH_LIMIT) as i64
    } else {
        a as i64
    }
}

/// A coordinate held at the bounds of `i64` when it would leave them.
pub open spec fn saturate(v: int) -> i64 {
    if v > i64::MAX {
        i64::MAX
    } else if v < i64::MIN {
        i64::MIN
    } else {
        v as i64
    }
}

/// How far a rate (units per second) carries over `dt` microseconds, rounded down.
pub open spec fn linear_step(rate: int, dt: int) -> int {
    (rate * dt) / (MICROS_PER_SECOND as int)
}

/// `linear_step` for a rate that is still scaled by `HEADING_SCALE`.
pub open spec fn planar_step(scaled_rate: int, dt: int) -> int {
    (scaled_rate * dt) / (HEADING_SCALE * MICROS_PER_SECOND)
}

fn yaw_in_turn(a: i128) -> (r: i64)
    ensures
        r == normalize_yaw(a as int),
{
    match a.checked_rem_euclid(FULL_TURN as i128) {
        Some(v) => v as i64,
        None => 0,
    }
}

fn pitch_in_range(a: i128) -> (r: i64)
    ensures
        r == clamp_pitch(a as int),
{
    if a > PITCH_LIMIT as i128 {
        PITCH_LIMIT
    } else if a < -PITCH_LIMIT as i128 {
        -PITCH_LIMIT
    } else {
        a as i64
    }
}

fn saturating_offset(base: i64, delta: i128) -> (r: i64)
    requires
        -0x10_0000_0000_0000_0000_0000_0000 <= delta <= 0x10_0000_0000_0000_0000_0000_0000,
    ensures
        r == saturate(base + delta),
{
    let v: i128 = base as i128 + delta;
    if v > i64::MAX as i128 {
        i64::MAX
    } else if v < i64::MIN as i128 {
        i64::MIN
    } else {
        v as i64
    }
}

impl Camera {
    /// Pitch strictly between the poles and yaw within one turn.
    pub open spec fn wf(&self) -> bool {
        &&& 0 <= self.yaw < FULL_TURN
        &&& -QUARTER_TURN < self.pitch < QUARTER_TURN
    }

    pub fn new(position: Position, yaw: i64, pitch: i64) -> (r: Camera)
        ensures
            r.position == position,
            r.yaw == normalize_yaw(yaw as int),
            r.pitch == clamp_pitch(pitch as int),
            r.wf(),
    {
        Camera { position, yaw: yaw_in_turn(yaw as i128), pitch: pitch_in_range(pitch as i128) }
    }
}

impl Heading {
    /// Forward and right basis vectors in the horizontal plane, from the yaw alone:
    /// forward is `(cos, 0, sin)` and right is `(-sin, 0, cos)`.
    pub fn dirs_forward_right(&self) -> (r: (Direction, Direction))
        ensures
            r.0 == (Direction { x: self.cos as i64, y: 0, z: self.sin as i64 }),
            r.1 == (Direction { x: -self.sin as i64, y: 0, z: self.cos as i64 }),
    {
        (
            Direction { x: self.cos as i64, y: 0, z: self.sin as i64 },
            Direction { x: -(self.sin as i64), y: 0, z: self.cos as i64 },
        )
    }
}

/// Maps key presses to movement and turning intents and integrates them into a camera.
#[derive(Clone, Copy, Debug, PartialEq, Eq)]
pub struct CameraController {
    /// Intent along the forward axis, in length units per second.
    pub forward: i64,
    /// Intent along the right axis, in length units per second.
    pub right: i64,
    /// Intent along the world up axis, in length units per second.
    pub up: i64,
    /// Turning intent about the up axis, in angle units per second.
    pub yaw_rate: i64,
    /// Turning intent of the elevation, in angle units per second.
    pub pitch_rate: i64,
    /// Movement speed, in length units per second.
    pub move_speed: u32,
    /// Turning speed, in angle units per second.
    pub rot_speed: u32,
}

/// An intent is the configured speed, its negation, or zero: a key is held or it is not.
pub open spec fn is_intent(v: i64, speed: u32) -> bool {
    v == speed as i64 || v == -(speed as i64) || v == 0
}

impl CameraController {
    pub open spec fn wf(&self) -> bool {
        &&& is_intent(self.forward, self.move_speed)
        &&& is_intent(self.right, self.move_speed)
        &&& is_intent(self.up, self.move_speed)
        &&& is_intent(self.yaw_rate, self.rot_speed)
        &&& is_intent(self.pitch_rate, self.rot_speed)
    }

    /// True when no key of the controller is held.
    pub open spec fn is_idle(&self) -> bool {
        &&& self.forward == 0
        &&& self.right == 0
        &&& self.up == 0
        &&& self.yaw_rate == 0
        &&& self.pitch_rate == 0
    }

    /// The controller after one event: a key press sets its axis to plus or minus the
    /// speed, a key release sets the axis to zero, and anything else changes nothing.
    pub open spec fn after_event(self, event: InputEvent) -> CameraController {
        let m = self.move_speed as i64;
        let r = self.rot_speed as i64;
        match event {
            InputEvent::KeyDown(key) => match key {
                Key::W => CameraController { forward: m, ..self },
                Key::S => CameraController { forward: (-m) as i64, ..self },
                Key::D => CameraController { right: m, ..self },
                Key::A => CameraController { right: (-m) as i64, ..self },
                Key::Space => CameraController { up: m, ..self },
                Key::LShift | Key::RShift => CameraController { up: (-m) as i64, ..self },
                Key::Right => CameraController { yaw_rate: r, ..self },
                Key::Left => CameraController { yaw_rate: (-r) as i64, ..self },
                Key::Up => CameraController { pitch_rate: r, ..self },
                Key::Down => CameraController { pitch_rate: (-r) as i64, ..self },
                _ => self,
            },
            InputEvent::KeyUp(key) => match key {
                Key::W | Key::S => CameraController { forward: 0, ..self },
                Key::D | Key::A => CameraController { right: 0, ..self },
                Key::Space | Key::LShift | Key::RShift => CameraController { up: 0, ..self },
                Key::Right | Key::Left => CameraController { yaw_rate: 0, ..self },
                Key::Up | Key::Down => CameraController { pitch_rate: 0, ..self },
                _ => self,
            },
            _ => self,
        }
    }

    /// The camera after `dt` microseconds: the position moves by the movement intents
    /// along the yaw-only forward / right basis and the world up axis, yaw turns and
    /// stays within one turn, and pitch turns and is clamped strictly inside the poles.
    pub open spec fn integrated(self, camera: Camera, heading: Heading, dt: int) -> Camera {
        let fx = self.forward * heading.cos - self.right * heading.sin;
        let fz = self.forward * heading.sin + self.right * heading.cos;
        Camera {
            position: Position {
                x: saturate(camera.position.x + planar_step(fx, dt)),
                y: saturate(camera.position.y + linear_step(self.up as int, dt)),
                z: saturate(camera.position.z + planar_step(fz, dt)),
            },
            yaw: normalize_yaw(camera.yaw + linear_step(self.yaw_rate as int, dt)),
            pitch: clamp_pitch(camera.pitch + linear_step(self.pitch_rate as int, dt)),
        }
    }

    pub fn new(move_speed: u32, rot_speed: u32) -> (r: CameraController)
        ensures
            r.move_speed == move_speed,
            r.rot_speed == rot_speed,
            r.is_idle(),
            r.wf(),
    {
        CameraController {
            forward: 0,
            right: 0,
            up: 0,
            yaw_rate: 0,
            pitch_rate: 0,
            move_speed,
            rot_speed,
        }
    }

    /// Updates the intents on a key press or release; other events are ignored.
    pub fn process_event(&mut self, event: InputEvent)
        ensures
            *final(self) == old(self).after_event(event),
            old(self).wf() ==> final(self).wf(),
    {
        let m = self.move_speed as i64;
        let r = self.rot_speed as i64;
        match event {
            InputEvent::KeyDown(key) => match key {
                Key::W => { self.forward = m; },
                Key::S => { self.forward = -m; },
                Key::D => { self.right = m; },
                Key::A => { self.right = -m; },
                Key::Space => { self.up = m; },
                Key::LShift | Key::RShift => { self.up = -m; },
                Key::Right => { self.yaw_rate = r; },
                Key::Left => { self.yaw_rate = -r; },
                Key::Up => { self.pitch_rate = r; },
                Key::Down => { self.pitch_rate = -r; },
                _ => {},
            },
            InputEvent::KeyUp(key) => match key {
                Key::W | Key::S => { self.forward = 0; },
                Key::D | Key::A => { self.right = 0; },
                Key::Space | Key::LShift | Key::RShift => { self.up = 0; },
                Key::Right | Key::Left => { self.yaw_rate = 0; },
                Key::Up | Key::Down => { self.pitch_rate = 0; },
                _ => {},
            },
            _ => {},
        }
    }

    /// Integrates the intents over `dt_micros` microseconds into `camera`.
    /// `heading` holds the cosine and sine of the camera's yaw before the call.
    pub fn update_camera(&self, camera: &mut Camera, heading: Heading, dt_micros: u32)
        requires
            self.wf(),
        ensures
            *final(camera) == self.integrated(*old(camera), heading, dt_micros as int),
            final(camera).wf(),
    {
        let dt = dt_micros as i128;
        let f = self.forward as i128;
        let r = self.right as i128;
        let (forward, right) = heading.dirs_forward_right();
        let c = heading.cos as i128;
        let s = heading.sin as i128;
        proof {
            lemma_intent_products(self.forward as int, self.right as int, self.move_speed as int,
                c as int, s as int, dt as int);
            assert(r * (right.x as int) == -(r * s)) by (nonlinear_arith)
                requires
                    right.x == -s,
            ;
        }
        // Movement along the forward and right basis vectors, in the horizontal plane.
        let fx: i128 = f * forward.x as i128 + r * right.x as i128;
        let fz: i128 = f * forward.z as i128 + r * right.z as i128;
        let planar: i128 = (HEADING_SCALE * MICROS_PER_SECOND) as i128;
        let dx = match (fx * dt).checked_div_euclid(planar) { Some(v) => v, None => 0 };
        let dz = match (fz * dt).checked_div_euclid(planar) { Some(v) => v, None => 0 };
        proof {
            lemma_rate_product(self.up as int, self.move_speed as int, dt as int);
            lemma_rate_product(self.yaw_rate as int, self.rot_speed as int, dt as int);
            lemma_rate_product(self.pitch_rate as int, self.rot_speed as int, dt as int);
            lemma_step_bound(fx * dt, planar as int);
            lemma_step_bound(fz * dt, planar as int);
        }
        let micros = MICROS_PER_SECOND as i128;
        let dy = match (self.up as i128 * dt).checked_div_euclid(micros) { Some(v) => v, None => 0 };
        let dyaw = match (self.yaw_rate as i128 * dt).checked_div_euclid(micros) { Some(v) => v, None => 0 };
        let dpitch = match (self.pitch_rate as i128 * dt).checked_div_euclid(micros) { Some(v) => v, None => 0 };
        proof {
            lemma_step_bound(self.up as i128 * dt, micros as int);
            lemma_step_bound(self.yaw_rate as i128 * dt, micros as int);
            lemma_step_bound(self.pitch_rate as i128 * dt, micros as int);
        }
        let x = saturating_offset(camera.position.x, dx);
        let y = saturating_offset(camera.position.y, dy);
        let z = saturating_offset(camera.position.z, dz);
        let yaw = yaw_in_turn(camera.yaw as i128 + dyaw);
        let pitch = pitch_in_range(camera.pitch as i128 + dpitch);
        camera.position = Position { x, y, z };
        camera.yaw = yaw;
        camera.pitch = pitch;
    }
}

/// The camera after a run of updates, each with its own controller, heading and elapsed time.
pub open spec fn integrate_steps(camera: Camera, steps: Seq<(CameraController, Heading, u32)>) -> Camera
    decreases steps.len(),
{
    if steps.len() == 0 {
        camera
    } else {
        let (controller, heading, dt) = steps.last();
        controller.integrated(integrate_steps(camera, steps.drop_last()), heading, dt as int)
    }
}

/// However the pitch is integrated, over any run of updates, it stays strictly between
/// straight down and straight up (and the camera stays well formed).
pub proof fn lemma_pitch_stays_inside(camera: Camera, steps: Seq<(CameraController, Heading, u32)>)
    requires
        camera.wf(),
    ensures
        integrate_steps(camera, steps).wf(),
        -QUARTER_TURN < integrate_steps(camera, steps).pitch < QUARTER_TURN,
    decreases steps.len(),
{
    if steps.len() > 0 {
        lemma_pitch_stays_inside(camera, steps.drop_last());
    }
}

/// An update with no key held leaves a well-formed camera exactly as it was, whatever the
/// elapsed time and heading.
pub proof fn lemma_idle_update_keeps_camera(
    controller: CameraController,
    camera: Camera,
    heading: Heading,
    dt: u32,
)
    requires
        controller.is_idle(),
        camera.wf(),
    ensures
        controller.integrated(camera, heading, dt as int) == camera,
{
}

proof fn lemma_rate_product(v: int, speed: int, dt: int)
    requires
        0 <= speed <= u32::MAX,
        v == speed || v == -speed || v == 0,
        0 <= dt <= u32::MAX,
    ensures
        -0x10_0000_0000_0000_0000_0000_0000 <= v * dt <= 0x10_0000_0000_0000_0000_0000_0000,
{
    assert(-0x10_0000_0000_0000_0000_0000_0000 <= v * dt <= 0x10_0000_0000_0000_0000_0000_0000) by (nonlinear_arith)
        requires
            -speed <= v <= speed,
            0 <= speed <= u32::MAX,
            0 <= dt <= u32::MAX,
    ;
}

proof fn lemma_intent_products(f: int, r: int, speed: int, c: int, s: int, dt: int)
    requires
        0 <= speed <= u32::MAX,
        f == speed || f == -speed || f == 0,
        r == speed || r == -speed || r == 0,
        i32::MIN <= c <= i32::MAX,
        i32::MIN <= s <= i32::MAX,
        0 <= dt <= u32::MAX,
    ensures
        -0x10_0000_0000_0000_0000_0000_0000 <= f * c <= 0x10_0000_0000_0000_0000_0000_0000,
        -0x10_0000_0000_0000_0000_0000_0000 <= r * s <= 0x10_0000_0000_0000_0000_0000_0000,
        -0x10_0000_0000_0000_0000_0000_0000 <= f * s <= 0x10_0000_0000_0000_0000_0000_0000,
        -0x10_0000_0000_0000_0000_0000_0000 <= r * c <= 0x10_0000_0000_0000_0000_0000_0000,
        -0x10_0000_0000_0000_0000_0000_0000 <= f * c - r * s <= 0x10_0000_0000_0000_0000_0000_0000,
        -0x10_0000_0000_0000_0000_0000_0000 <= f * s + r * c <= 0x10_0000_0000_0000_0000_0000_0000,
        -0x10_0000_0000_0000_0000_0000_0000 <= (f * c - r * s) * dt <= 0x10_0000_0000_0000_0000_0000_0000,
        -0x10_0000_0000_0000_0000_0000_0000 <= (f * s + r * c) * dt <= 0x10_0000_0000_0000_0000_0000_0000,
{
    let b: int = 0x1_0000_0000_0000_0000;
    assert(-b <= f * c <= b && -b <= r * s <= b && -b <= f * s <= b && -b <= r * c <= b)
        by (nonlinear_arith)
        requires
            -speed <= f <= speed,
            -speed <= r <= speed,
            0 <= speed <= u32::MAX,
            i32::MIN <= c <= i32::MAX,
            i32::MIN <= s <= i32::MAX,
            b == 0x1_0000_0000_0000_0000,
    ;
    let p = f * c - r * s;
    let q = f * s + r * c;
    assert(-0x10_0000_0000_0000_0000_0000_0000 <= p * dt <= 0x10_0000_0000_0000_0000_0000_0000 && -0x10_0000_0000_0000_0000_0000_0000 <= q * dt <= 0x10_0000_0000_0000_0000_0000_0000)
        by (nonlinear_arith)
        requires
            -2 * b <= p <= 2 * b,
            -2 * b <= q <= 2 * b,
            0 <= dt <= u32::MAX,
            b == 0x1_0000_0000_0000_0000,
    ;
}

proof fn lemma_step_bound(n: int, d: int)
    requires
        -0x10_0000_0000_0000_0000_0000_0000 <= n <= 0x10_0000_0000_0000_0000_0000_0000,
        d >= 1,
    ensures
        -0x10_0000_0000_0000_0000_0000_0000 <= n / d <= 0x10_0000_0000_0000_0000_0000_0000,
{
    assert(-0x10_0000_0000_0000_0000_0000_0000 <= n / d <= 0x10_0000_0000_0000_0000_0000_0000) by (nonlinear_arith)
        requires
            -0x10_0000_0000_0000_0000_0000_0000 <= n <= 0x10_0000_0000_0000_0000_0000_0000,
            d >= 1,
    ;
}

} // verus!
