//! The viewer's per-window state: camera, input, projection and surface
//! size, with the decisions taken on each event and frame.
use vstd::prelude::*;

use crate::camera::{camera_after, clamp, idle_controller, PENDING_LIMIT, CameraController, Key, OrbitCamera};
use crate::projection::Projection;

verus! {

/// An input event, as the window system reports it.
#[derive(Clone, Copy, PartialEq, Eq, Structural, Debug)]
pub enum InputEvent {
    Key { key: Key, pressed: bool },
    /// Scroll steps, positive toward the scene.
    Scroll { delta: i64 },
    Button { button: u32, pressed: bool },
    /// Mouse motion in pixels.
    MouseMotion { dx: i64, dy: i64 },
    Other,
}

/// Why a frame could not be acquired.
#[derive(Clone, Copy, PartialEq, Eq, Structural, Debug)]
pub enum FrameError {
    Lost,
    OutOfMemory,
    Outdated,
    Timeout,
}

/// What the render loop does about a failed frame.
#[derive(Clone, Copy, PartialEq, Eq, Structural, Debug)]
pub enum FrameAction {
    /// Configure the surface again at the current size and go on.
    Reconfigure,
    /// Stop the application.
    Exit,
    /// Report the error and skip the frame.
    Skip,
}

/// The mouse button that drags the camera round.
pub const DRAG_BUTTON: u32 = 1;

/// Vertical field of view, in thousandths of a degree.
pub const FIELD_OF_VIEW: i64 = 45_000;

pub const Z_NEAR: i64 = 100;

pub const Z_FAR: i64 = 100_000;

pub const CAMERA_SPEED: i64 = 90_000;

pub const CAMERA_SENSITIVITY: i64 = 400;

pub struct State {
    pub camera: OrbitCamera,
    pub controller: CameraController,
    pub mouse_pressed: bool,
    pub projection: Projection,
    pub width: u32,
    pub height: u32,
}

impl State {
    pub open spec fn wf(&self) -> bool {
        &&& self.camera.wf()
        &&& self.controller.wf()
        &&& self.projection.wf()
        &&& self.projection.width == self.width
        &&& self.projection.height == self.height
    }

    /// State for a surface of the given size: the camera looks at the origin
    /// from above and behind, nothing is held or pending.
    pub fn new(width: u32, height: u32) -> (r: State)
        requires
            width > 0,
            height > 0,
        ensures
            r.wf(),
            r.width == width,
            r.height == height,
            !r.mouse_pressed,
            r.projection == (Projection { width, height, fovy: FIELD_OF_VIEW, znear: Z_NEAR, zfar: Z_FAR }),
            r.controller == idle_controller(CAMERA_SPEED, CAMERA_SENSITIVITY),
            r.camera == (OrbitCamera { yaw: 0, pitch: -26_565i64, distance: 11_180 }),
    {
        State {
            camera: OrbitCamera::new(0, -26_565, 11_180),
            controller: CameraController::new(CAMERA_SPEED, CAMERA_SENSITIVITY),
            mouse_pressed: false,
            projection: Projection::new(width, height, FIELD_OF_VIEW, Z_NEAR, Z_FAR),
            width,
            height,
        }
    }

    /// Takes a new surface size. A size with a zero side changes nothing and
    /// returns false; otherwise the size and the projection's aspect ratio
    /// follow it and the caller must configure the surface again (true).
    pub fn resize(&mut self, width: u32, height: u32) -> (r: bool)
        requires
            old(self).wf(),
        ensures
            final(self).wf(),
            r == (width > 0 && height > 0),
            r ==> final(self).width == width && final(self).height == height
                && final(self).projection.aspect() == (width as int, height as int)
                && final(self).projection == (Projection { width, height, ..old(self).projection })
                && final(self).camera == old(self).camera
                && final(self).controller == old(self).controller
                && final(self).mouse_pressed == old(self).mouse_pressed,
            !r ==> final(self).width == old(self).width && final(self).height == old(self).height
                && final(self).projection == old(self).projection
                && final(self).camera == old(self).camera
                && final(self).controller == old(self).controller
                && final(self).mouse_pressed == old(self).mouse_pressed,
    {
        if width > 0 && height > 0 {
            self.width = width;
            self.height = height;
            self.projection.resize(width, height);
            true
        } else {
            false
        }
    }

    /// Feeds one input event to the camera controller. Keys, scrolling and
    /// the drag button are always taken; mouse motion turns the camera only
    /// while the drag button is held. Returns whether the event was taken.
    pub fn input(&mut self, event: InputEvent) -> (r: bool)
        requires
            old(self).wf(),
        ensures
            final(self).wf(),
            r == (!(event is Other) && !(event matches InputEvent::Button { button, .. } && button != DRAG_BUTTON)),
            final(self).camera == old(self).camera,
            final(self).projection == old(self).projection,
            final(self).width == old(self).width,
            final(self).height == old(self).height,
            match event {
                InputEvent::Key { key, pressed } => {
                    let c = old(self).controller;
                    &&& final(self).mouse_pressed == old(self).mouse_pressed
                    &&& final(self).controller == (match key {
                        Key::Left => CameraController { amount_left: if pressed { c.speed } else { 0 }, ..c },
                        Key::Right => CameraController { amount_right: if pressed { c.speed } else { 0 }, ..c },
                        Key::Up => CameraController { amount_up: if pressed { c.speed } else { 0 }, ..c },
                        Key::Down => CameraController { amount_down: if pressed { c.speed } else { 0 }, ..c },
                        Key::Forward => CameraController { amount_forward: if pressed { c.speed } else { 0 }, ..c },
                        Key::Backward => CameraController { amount_backward: if pressed { c.speed } else { 0 }, ..c },
                        Key::Other => c,
                    })
                },
                InputEvent::Scroll { delta } => {
                    &&& final(self).mouse_pressed == old(self).mouse_pressed
                    &&& final(self).controller == (CameraController {
                        scroll: clamp(old(self).controller.scroll + delta, -PENDING_LIMIT, PENDING_LIMIT as int) as i64,
                        ..old(self).controller
                    })
                },
                InputEvent::Button { button, pressed } => {
                    &&& final(self).controller == old(self).controller
                    &&& final(self).mouse_pressed == if button == DRAG_BUTTON { pressed } else { old(self).mouse_pressed }
                },
                InputEvent::MouseMotion { dx, dy } => {
                    let c = old(self).controller;
                    &&& final(self).mouse_pressed == old(self).mouse_pressed
                    &&& final(self).controller == if old(self).mouse_pressed {
                        CameraController {
                            rotate_horizontal: clamp(c.rotate_horizontal + dx, -PENDING_LIMIT, PENDING_LIMIT as int) as i64,
                            rotate_vertical: clamp(c.rotate_vertical + dy, -PENDING_LIMIT, PENDING_LIMIT as int) as i64,
                            ..c
                        }
                    } else {
                        c
                    }
                },
                InputEvent::Other => {
                    &&& final(self).mouse_pressed == old(self).mouse_pressed
                    &&& final(self).controller == old(self).controller
                },
            },
    {
        match event {
            InputEvent::Key { key, pressed } => {
                self.controller.process_keyboard(key, pressed);
                true
            },
            InputEvent::Scroll { delta } => {
                self.controller.process_scroll(delta);
                true
            },
            InputEvent::Button { button, pressed } => {
                if button == DRAG_BUTTON {
                    self.mouse_pressed = pressed;
                    true
                } else {
                    false
                }
            },
            InputEvent::MouseMotion { dx, dy } => {
                if self.mouse_pressed {
                    self.controller.process_mouse(dx, dy);
                }
                true
            },
            InputEvent::Other => false,
        }
    }

    /// Advances the camera by one frame of `dt_ms` milliseconds.
    pub fn update(&mut self, dt_ms: u32)
        requires
            old(self).wf(),
        ensures
            final(self).wf(),
            final(self).camera == camera_after(old(self).camera, old(self).controller, dt_ms),
            final(self).controller == (CameraController {
                rotate_horizontal: 0,
                rotate_vertical: 0,
                scroll: 0,
                ..old(self).controller
            }),
            final(self).projection == old(self).projection,
            final(self).mouse_pressed == old(self).mouse_pressed,
            final(self).width == old(self).width,
            final(self).height == old(self).height,
    {
        self.controller.update_camera(&mut self.camera, dt_ms);
    }

    /// What to do when a frame could not be acquired: a lost surface is
    /// configured again, running out of memory ends the application, and
    /// anything else skips the frame.
    pub fn frame_action(error: FrameError) -> (r: FrameAction)
        ensures
            r == match error {
                FrameError::Lost => FrameAction::Reconfigure,
                FrameError::OutOfMemory => FrameAction::Exit,
                _ => FrameAction::Skip,
            },
    {
        match error {
            FrameError::Lost => FrameAction::Reconfigure,
            FrameError::OutOfMemory => FrameAction::Exit,
            _ => FrameAction::Skip,
        }
    }
}

} // verus!
