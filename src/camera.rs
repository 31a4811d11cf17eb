//! An orbit camera and the controller that turns input into camera motion.
//!
//! Angles are in thousandths of a degree; distances are lattice steps;
//! frame times are milliseconds.
use vstd::prelude::*;

verus! {

/// A full turn.
pub const FULL_TURN: i64 = 360_000;

/// The pitch may not pass this, up or down, so the view never flips.
pub const PITCH_LIMIT: i64 = 89_000;

pub const MIN_DISTANCE: i64 = 100;

pub const MAX_DISTANCE: i64 = 1_000_000;

/// Largest speed (per second) and largest sensitivity (per pixel or scroll
/// step) a controller may have.
pub const RATE_LIMIT: i64 = 1_000_000;

/// Pending mouse and scroll input saturates at this magnitude.
pub const PENDING_LIMIT: i64 = 1_000_000_000;

pub open spec fn clamp(v: int, lo: int, hi: int) -> int {
    if v < lo {
        lo
    } else if v > hi {
        hi
    } else {
        v
    }
}

fn clamp_exec(v: i64, lo: i64, hi: i64) -> (r: i64)
    requires
        lo <= hi,
    ensures
        r == clamp(v as int, lo as int, hi as int),
{
    if v < lo {
        lo
    } else if v > hi {
        hi
    } else {
        v
    }
}

/// A camera circling the origin.
#[derive(Clone, Copy, PartialEq, Eq, Structural, Debug)]
pub struct OrbitCamera {
    pub yaw: i64,
    pub pitch: i64,
    pub distance: i64,
}

impl OrbitCamera {
    pub open spec fn wf(&self) -> bool {
        &&& 0 <= self.yaw < FULL_TURN
        &&& -PITCH_LIMIT <= self.pitch <= PITCH_LIMIT
        &&& MIN_DISTANCE <= self.distance <= MAX_DISTANCE
    }

    /// A camera at the given angles and distance, the yaw taken modulo a full
    /// turn and the pitch and distance clamped to their ranges.
    pub fn new(yaw: i64, pitch: i64, distance: i64) -> (r: OrbitCamera)
        ensures
            r.wf(),
            r.yaw == yaw % FULL_TURN,
            r.pitch == clamp(pitch as int, -PITCH_LIMIT, PITCH_LIMIT as int),
            r.distance == clamp(distance as int, MIN_DISTANCE as int, MAX_DISTANCE as int),
    {
        OrbitCamera {
            yaw: wrap_turn(yaw),
            pitch: clamp_exec(pitch, -PITCH_LIMIT, PITCH_LIMIT),
            distance: clamp_exec(distance, MIN_DISTANCE, MAX_DISTANCE),
        }
    }
}

/// `v` modulo a full turn, in `0..FULL_TURN`.
fn wrap_turn(v: i64) -> (r: i64)
    ensures
        r == v % FULL_TURN,
        0 <= r < FULL_TURN,
{
    let m = v % FULL_TURN;
    if m < 0 {
        m + FULL_TURN
    } else {
        m
    }
}

/// The keys that move the camera.
#[derive(Clone, Copy, PartialEq, Eq, Structural, Debug)]
pub enum Key {
    Left,
    Right,
    Up,
    Down,
    Forward,
    Backward,
    Other,
}

/// Input gathered between frames: the held keys, as speeds, and the mouse
/// and scroll motion not yet applied.
#[derive(Clone, Copy, PartialEq, Eq, Structural, Debug)]
pub struct CameraController {
    pub amount_left: i64,
    pub amount_right: i64,
    pub amount_up: i64,
    pub amount_down: i64,
    pub amount_forward: i64,
    pub amount_backward: i64,
    pub rotate_horizontal: i64,
    pub rotate_vertical: i64,
    pub scroll: i64,
    /// Thousandths of a degree, or lattice steps, per second a held key moves.
    pub speed: i64,
    /// Thousandths of a degree per pixel of mouse motion, and lattice steps
    /// per scroll step.
    pub sensitivity: i64,
}

pub open spec fn pending_ok(v: i64) -> bool {
    -PENDING_LIMIT <= v <= PENDING_LIMIT
}

pub open spec fn amount_ok(v: i64, speed: i64) -> bool {
    0 <= v <= speed
}

/// How far a held key moves the camera in `dt_ms` milliseconds.
pub open spec fn travel(amount: i64, dt_ms: u32) -> int {
    amount * dt_ms / 1000
}

fn travel_exec(amount: i64, dt_ms: u32) -> (r: i64)
    requires
        0 <= amount <= RATE_LIMIT,
    ensures
        r == travel(amount, dt_ms),
        0 <= r <= 4_294_967_295_000,
{
    assert(0 <= amount * dt_ms <= 4_294_967_295_000_000) by (nonlinear_arith)
        requires
            0 <= amount <= 1_000_000,
            0 <= dt_ms <= 4_294_967_295u32,
    ;
    amount * (dt_ms as i64) / 1000
}

/// The camera after one frame of `dt_ms` milliseconds under controller `c`.
pub open spec fn camera_after(cam: OrbitCamera, c: CameraController, dt_ms: u32) -> OrbitCamera {
    let yaw = cam.yaw + travel(c.amount_right, dt_ms) - travel(c.amount_left, dt_ms)
        + c.rotate_horizontal * c.sensitivity;
    let pitch = cam.pitch + travel(c.amount_up, dt_ms) - travel(c.amount_down, dt_ms)
        - c.rotate_vertical * c.sensitivity;
    let distance = cam.distance + travel(c.amount_backward, dt_ms) - travel(c.amount_forward, dt_ms)
        - c.scroll * c.sensitivity;
    OrbitCamera {
        yaw: (yaw % FULL_TURN as int) as i64,
        pitch: clamp(pitch, -PITCH_LIMIT, PITCH_LIMIT as int) as i64,
        distance: clamp(distance, MIN_DISTANCE as int, MAX_DISTANCE as int) as i64,
    }
}

/// A controller with no keys held and nothing pending.
pub open spec fn idle_controller(speed: i64, sensitivity: i64) -> CameraController {
    CameraController {
        amount_left: 0,
        amount_right: 0,
        amount_up: 0,
        amount_down: 0,
        amount_forward: 0,
        amount_backward: 0,
        rotate_horizontal: 0,
        rotate_vertical: 0,
        scroll: 0,
        speed,
        sensitivity,
    }
}

/// However far the input pushes it, a frame leaves the pitch within
/// `±PITCH_LIMIT`; input that would carry it past a limit leaves it exactly
/// at that limit.
pub proof fn lemma_pitch_stays_clamped(cam: OrbitCamera, c: CameraController, dt_ms: u32)
    requires
        cam.wf(),
        c.wf(),
    ensures
        ({
            let after = camera_after(cam, c, dt_ms);
            let wanted = cam.pitch + travel(c.amount_up, dt_ms) - travel(c.amount_down, dt_ms)
                - c.rotate_vertical * c.sensitivity;
            &&& -PITCH_LIMIT <= after.pitch <= PITCH_LIMIT
            &&& wanted >= PITCH_LIMIT ==> after.pitch == PITCH_LIMIT
            &&& wanted <= -PITCH_LIMIT ==> after.pitch == -PITCH_LIMIT
        }),
{
}

impl CameraController {
    pub open spec fn wf(&self) -> bool {
        &&& 0 <= self.speed <= RATE_LIMIT
        &&& 0 <= self.sensitivity <= RATE_LIMIT
        &&& amount_ok(self.amount_left, self.speed)
        &&& amount_ok(self.amount_right, self.speed)
        &&& amount_ok(self.amount_up, self.speed)
        &&& amount_ok(self.amount_down, self.speed)
        &&& amount_ok(self.amount_forward, self.speed)
        &&& amount_ok(self.amount_backward, self.speed)
        &&& pending_ok(self.rotate_horizontal)
        &&& pending_ok(self.rotate_vertical)
        &&& pending_ok(self.scroll)
    }

    /// A controller with no keys held and nothing pending.
    pub fn new(speed: i64, sensitivity: i64) -> (r: CameraController)
        requires
            0 <= speed <= RATE_LIMIT,
            0 <= sensitivity <= RATE_LIMIT,
        ensures
            r.wf(),
            r == idle_controller(speed, sensitivity),
    {
        CameraController {
            amount_left: 0,
            amount_right: 0,
            amount_up: 0,
            amount_down: 0,
            amount_forward: 0,
            amount_backward: 0,
            rotate_horizontal: 0,
            rotate_vertical: 0,
            scroll: 0,
            speed,
            sensitivity,
        }
    }

    /// Records a key going down (`pressed`) or up. Returns whether the key
    /// moves the camera.
    pub fn process_keyboard(&mut self, key: Key, pressed: bool) -> (r: bool)
        requires
            old(self).wf(),
        ensures
            final(self).wf(),
            r == (key != Key::Other),
            ({
                let a = if pressed { old(self).speed } else { 0 };
                let o = *old(self);
                *final(self) == match key {
                    Key::Left => CameraController { amount_left: a, ..o },
                    Key::Right => CameraController { amount_right: a, ..o },
                    Key::Up => CameraController { amount_up: a, ..o },
                    Key::Down => CameraController { amount_down: a, ..o },
                    Key::Forward => CameraController { amount_forward: a, ..o },
                    Key::Backward => CameraController { amount_backward: a, ..o },
                    Key::Other => o,
                }
            }),
    {
        let a = if pressed { self.speed } else { 0 };
        match key {
            Key::Left => { self.amount_left = a; },
            Key::Right => { self.amount_right = a; },
            Key::Up => { self.amount_up = a; },
            Key::Down => { self.amount_down = a; },
            Key::Forward => { self.amount_forward = a; },
            Key::Backward => { self.amount_backward = a; },
            Key::Other => { return false; },
        }
        true
    }

    /// Adds mouse motion, in pixels, to what is pending.
    pub fn process_mouse(&mut self, dx: i64, dy: i64)
        requires
            old(self).wf(),
        ensures
            final(self).wf(),
            *final(self) == (CameraController {
                rotate_horizontal: clamp(old(self).rotate_horizontal + dx, -PENDING_LIMIT, PENDING_LIMIT as int) as i64,
                rotate_vertical: clamp(old(self).rotate_vertical + dy, -PENDING_LIMIT, PENDING_LIMIT as int) as i64,
                ..*old(self)
            }),
    {
        self.rotate_horizontal = saturating_pending(self.rotate_horizontal, dx);
        self.rotate_vertical = saturating_pending(self.rotate_vertical, dy);
    }

    /// Adds scroll steps (positive toward the scene) to what is pending.
    pub fn process_scroll(&mut self, delta: i64)
        requires
            old(self).wf(),
        ensures
            final(self).wf(),
            *final(self) == (CameraController {
                scroll: clamp(old(self).scroll + delta, -PENDING_LIMIT, PENDING_LIMIT as int) as i64,
                ..*old(self)
            }),
    {
        self.scroll = saturating_pending(self.scroll, delta);
    }

    /// Moves the camera for a frame of `dt_ms` milliseconds: held keys move it
    /// in proportion to the time, pending mouse and scroll motion is applied
    /// whole and then cleared. The pitch stays within `PITCH_LIMIT` and the
    /// distance within its range.
    pub fn update_camera(&mut self, camera: &mut OrbitCamera, dt_ms: u32)
        requires
            old(self).wf(),
            old(camera).wf(),
        ensures
            final(self).wf(),
            final(camera).wf(),
            *final(camera) == camera_after(*old(camera), *old(self), dt_ms),
            *final(self) == (CameraController {
                rotate_horizontal: 0,
                rotate_vertical: 0,
                scroll: 0,
                ..*old(self)
            }),
    {
        let s = self.sensitivity;
        proof {
            lemma_pending_product(self.rotate_horizontal, s);
            lemma_pending_product(self.rotate_vertical, s);
            lemma_pending_product(self.scroll, s);
        }
        let yaw = camera.yaw + travel_exec(self.amount_right, dt_ms) - travel_exec(self.amount_left, dt_ms)
            + self.rotate_horizontal * s;
        let pitch = camera.pitch + travel_exec(self.amount_up, dt_ms) - travel_exec(self.amount_down, dt_ms)
            - self.rotate_vertical * s;
        let distance = camera.distance + travel_exec(self.amount_backward, dt_ms)
            - travel_exec(self.amount_forward, dt_ms) - self.scroll * s;
        camera.yaw = wrap_turn(yaw);
        camera.pitch = clamp_exec(pitch, -PITCH_LIMIT, PITCH_LIMIT);
        camera.distance = clamp_exec(distance, MIN_DISTANCE, MAX_DISTANCE);
        self.rotate_horizontal = 0;
        self.rotate_vertical = 0;
        self.scroll = 0;
    }
}

proof fn lemma_pending_product(v: i64, s: i64)
    requires
        pending_ok(v),
        0 <= s <= RATE_LIMIT,
    ensures
        -1_000_000_000_000_000 <= v * s <= 1_000_000_000_000_000,
{
    assert(-1_000_000_000_000_000 <= v * s <= 1_000_000_000_000_000) by (nonlinear_arith)
        requires
            -1_000_000_000 <= v <= 1_000_000_000,
            0 <= s <= 1_000_000,
    ;
}

fn saturating_pending(v: i64, d: i64) -> (r: i64)
    requires
        pending_ok(v),
    ensures
        r == clamp(v + d, -PENDING_LIMIT, PENDING_LIMIT as int),
        pending_ok(r),
{
    if d > PENDING_LIMIT * 2 {
        PENDING_LIMIT
    } else if d < -PENDING_LIMIT * 2 {
        -PENDING_LIMIT
    } else {
        clamp_exec(v + d, -PENDING_LIMIT, PENDING_LIMIT)
    }
}

} // verus!
