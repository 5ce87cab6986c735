//! The camera controls and the decisions of the window's event loop.
//!
//! The camera orbits the origin at a fixed height. The arrow keys move it:
//! up and down bring it one unit closer or farther, between 5 and 30 units;
//! left and right turn it by a tenth of a radian. The angle is kept in
//! tenths of a radian; the renderer computes the eye position
//! `(d cos a, 8, d sin a)` from it.
use vstd::prelude::*;

verus! {

/// The least and greatest distances of the camera from the origin.
pub const MIN_DISTANCE: u32 = 5;

pub const MAX_DISTANCE: u32 = 30;

/// The camera's distance when the program starts.
pub const START_DISTANCE: u32 = 15;

/// Height of the camera's eye above the island's base.
pub const EYE_HEIGHT: u32 = 8;

/// A key that was pressed.
#[derive(Clone, Copy, Debug, PartialEq, Eq, Structural)]
pub enum Key {
    Up,
    Down,
    Left,
    Right,
    Escape,
    Other,
}

/// What the window reports.
#[derive(Clone, Copy, Debug, PartialEq, Eq, Structural)]
pub enum WindowInput {
    CloseRequested,
    KeyPressed(Key),
    Resized { width: u32, height: u32 },
    ScaleFactorChanged { width: u32, height: u32 },
    Other,
}

/// How drawing a frame went.
#[derive(Clone, Copy, Debug, PartialEq, Eq, Structural)]
pub enum RenderOutcome {
    Drawn,
    SurfaceLost,
    OutOfMemory,
    OtherError,
}

/// What the event loop does next.
#[derive(Clone, Copy, Debug, PartialEq, Eq, Structural)]
pub enum Action {
    /// Nothing beyond going on.
    Continue,
    /// Leave the event loop.
    Exit,
    /// Reconfigure the surface and the projection for the new size.
    Resize { width: u32, height: u32 },
    /// Report the render error and go on.
    ReportError,
}

/// The orbiting camera.
#[derive(Clone, Copy, Debug)]
pub struct Camera {
    /// Distance from the origin, in whole units.
    pub camera_distance: u32,
    /// Angle around the vertical axis, in tenths of a radian.
    pub camera_angle: i64,
}

/// The camera after `key` was pressed.
pub open spec fn camera_after(c: Camera, key: Key) -> Camera {
    match key {
        Key::Up => Camera {
            camera_distance: if c.camera_distance <= MIN_DISTANCE + 1 {
                MIN_DISTANCE
            } else {
                (c.camera_distance - 1) as u32
            },
            ..c
        },
        Key::Down => Camera {
            camera_distance: if c.camera_distance >= MAX_DISTANCE - 1 {
                MAX_DISTANCE
            } else {
                (c.camera_distance + 1) as u32
            },
            ..c
        },
        Key::Left => Camera {
            camera_angle: if c.camera_angle == i64::MIN {
                i64::MIN
            } else {
                (c.camera_angle - 1) as i64
            },
            ..c
        },
        Key::Right => Camera {
            camera_angle: if c.camera_angle == i64::MAX {
                i64::MAX
            } else {
                (c.camera_angle + 1) as i64
            },
            ..c
        },
        _ => c,
    }
}

/// The keys that move the camera: the four arrows.
pub open spec fn moves_camera(key: Key) -> bool {
    key == Key::Up || key == Key::Down || key == Key::Left || key == Key::Right
}

/// A size that the surface can take: both sides positive.
pub open spec fn drawable(width: u32, height: u32) -> bool {
    width > 0 && height > 0
}

/// The action that resizing to `width` by `height` calls for: a resize when
/// the size is drawable, nothing otherwise.
pub open spec fn resize_action(width: u32, height: u32) -> Action {
    if drawable(width, height) {
        Action::Resize { width, height }
    } else {
        Action::Continue
    }
}

/// The action that a window input calls for, the camera's own keys aside.
pub open spec fn window_action(event: WindowInput) -> Action {
    match event {
        WindowInput::CloseRequested => Action::Exit,
        WindowInput::KeyPressed(k) => if k == Key::Escape {
            Action::Exit
        } else {
            Action::Continue
        },
        WindowInput::Resized { width, height } => resize_action(width, height),
        WindowInput::ScaleFactorChanged { width, height } => resize_action(width, height),
        WindowInput::Other => Action::Continue,
    }
}

impl Camera {
    /// The camera's distance stays within its bounds.
    pub open spec fn wf(&self) -> bool {
        MIN_DISTANCE <= self.camera_distance <= MAX_DISTANCE
    }

    /// The camera at the start: 15 units away, at angle 0.
    pub fn new() -> (r: Self)
        ensures
            r.camera_distance == START_DISTANCE,
            r.camera_angle == 0,
            r.wf(),
    {
        Camera { camera_distance: START_DISTANCE, camera_angle: 0 }
    }

    /// Moves the camera for a pressed key; tells whether the key was one of
    /// the camera's.
    pub fn input(&mut self, key: Key) -> (handled: bool)
        ensures
            *final(self) == camera_after(*old(self), key),
            handled == moves_camera(key),
    {
        match key {
            Key::Up => {
                self.camera_distance = if self.camera_distance <= MIN_DISTANCE + 1 {
                    MIN_DISTANCE
                } else {
                    self.camera_distance - 1
                };
                true
            },
            Key::Down => {
                self.camera_distance = if self.camera_distance >= MAX_DISTANCE - 1 {
                    MAX_DISTANCE
                } else {
                    self.camera_distance + 1
                };
                true
            },
            Key::Left => {
                self.camera_angle = if self.camera_angle == i64::MIN {
                    i64::MIN
                } else {
                    self.camera_angle - 1
                };
                true
            },
            Key::Right => {
                self.camera_angle = if self.camera_angle == i64::MAX {
                    i64::MAX
                } else {
                    self.camera_angle + 1
                };
                true
            },
            _ => false,
        }
    }

    /// Handles what the window reports: the camera's keys move the camera;
    /// otherwise closing the window or pressing Escape ends the program and a
    /// new drawable size calls for a resize.
    pub fn handle_window_event(&mut self, event: WindowInput) -> (r: Action)
        ensures
            *final(self) == (match event {
                WindowInput::KeyPressed(k) => camera_after(*old(self), k),
                _ => *old(self),
            }),
            r == (match event {
                WindowInput::KeyPressed(k) => if moves_camera(k) {
                    Action::Continue
                } else {
                    window_action(event)
                },
                _ => window_action(event),
            }),
    {
        let handled = match event {
            WindowInput::KeyPressed(k) => self.input(k),
            _ => false,
        };
        if handled {
            return Action::Continue;
        }
        match event {
            WindowInput::CloseRequested => Action::Exit,
            WindowInput::KeyPressed(k) => match k {
                Key::Escape => Action::Exit,
                _ => Action::Continue,
            },
            WindowInput::Resized { width, height } => resize_for(width, height),
            WindowInput::ScaleFactorChanged { width, height } => resize_for(width, height),
            WindowInput::Other => Action::Continue,
        }
    }
}

/// A resize to `width` by `height` when both are positive; nothing otherwise.
pub fn resize_for(width: u32, height: u32) -> (r: Action)
    ensures
        r == resize_action(width, height),
{
    if width > 0 && height > 0 {
        Action::Resize { width, height }
    } else {
        Action::Continue
    }
}

/// What to do after drawing a frame on a surface of `width` by `height`: a
/// lost surface is configured again at its current size, running out of
/// memory ends the program, other errors are reported.
pub fn after_render(outcome: RenderOutcome, width: u32, height: u32) -> (r: Action)
    ensures
        r == (match outcome {
            RenderOutcome::Drawn => Action::Continue,
            RenderOutcome::SurfaceLost => resize_action(width, height),
            RenderOutcome::OutOfMemory => Action::Exit,
            RenderOutcome::OtherError => Action::ReportError,
        }),
{
    match outcome {
        RenderOutcome::Drawn => Action::Continue,
        RenderOutcome::SurfaceLost => resize_for(width, height),
        RenderOutcome::OutOfMemory => Action::Exit,
        RenderOutcome::OtherError => Action::ReportError,
    }
}

/// Every key keeps the camera's distance within its bounds, and the up and
/// down arrows never leave them, wherever the camera was.
pub proof fn lemma_camera_stays_in_bounds(c: Camera, key: Key)
    ensures
        c.wf() ==> camera_after(c, key).wf(),
        key == Key::Up ==> camera_after(c, key).camera_distance >= MIN_DISTANCE,
        key == Key::Down ==> camera_after(c, key).camera_distance <= MAX_DISTANCE,
{
}

/// Only the arrows move the camera; every other key leaves it as it was.
pub proof fn lemma_other_keys_keep_camera(c: Camera, key: Key)
    requires
        !moves_camera(key),
    ensures
        camera_after(c, key) == c,
{
}

/// Left then right turns the camera back, and so does right then left,
/// unless the angle is at the end of its range.
pub proof fn lemma_turn_back(c: Camera)
    ensures
        c.camera_angle > i64::MIN ==> camera_after(camera_after(c, Key::Left), Key::Right) == c,
        c.camera_angle < i64::MAX ==> camera_after(camera_after(c, Key::Right), Key::Left) == c,
{
}

/// Up then down brings the camera back unless it was already as close as it
/// goes; down then up unless it was already as far as it goes.
pub proof fn lemma_zoom_back(c: Camera)
    requires
        c.wf(),
    ensures
        c.camera_distance > MIN_DISTANCE ==> camera_after(camera_after(c, Key::Up), Key::Down) == c,
        c.camera_distance < MAX_DISTANCE ==> camera_after(camera_after(c, Key::Down), Key::Up) == c,
{
}

/// Turning never changes the distance and zooming never changes the angle.
pub proof fn lemma_turn_and_zoom_independent(c: Camera, key: Key)
    ensures
        (key == Key::Left || key == Key::Right) ==> camera_after(c, key).camera_distance == c.camera_distance,
        (key == Key::Up || key == Key::Down) ==> camera_after(c, key).camera_angle == c.camera_angle,
{
}

/// Every drawable size (both sides positive), and only such a size, calls for
/// a resize to exactly that size, whether the window reports a resize or a
/// change of scale factor; closing the window or pressing Escape ends the
/// program, and no other key or event calls for anything.
pub proof fn lemma_window_actions(width: u32, height: u32, key: Key)
    ensures
        width > 0 && height > 0 ==> resize_action(width, height) == (Action::Resize { width, height }),
        width > 0 && height > 0 ==> window_action(WindowInput::Resized { width, height }) == (Action::Resize { width, height }),
        width > 0 && height > 0 ==> window_action(WindowInput::ScaleFactorChanged { width, height }) == (Action::Resize { width, height }),
        width == 0 || height == 0 ==> resize_action(width, height) == Action::Continue,
        width == 0 || height == 0 ==> window_action(WindowInput::Resized { width, height }) == Action::Continue,
        width == 0 || height == 0 ==> window_action(WindowInput::ScaleFactorChanged { width, height }) == Action::Continue,
        window_action(WindowInput::CloseRequested) == Action::Exit,
        window_action(WindowInput::KeyPressed(Key::Escape)) == Action::Exit,
        key != Key::Escape ==> window_action(WindowInput::KeyPressed(key)) == Action::Continue,
        window_action(WindowInput::Other) == Action::Continue,
{
}

/// Each arrow moves the camera by one step: up one unit closer and down one
/// unit farther, unless that would pass the nearest (5) or farthest (30)
/// distance, where the camera stops; left and right by one tenth of a
/// radian, unless the angle is at the end of its range.
pub proof fn lemma_camera_steps(c: Camera)
    requires
        c.wf(),
    ensures
        c.camera_distance > 5 ==> camera_after(c, Key::Up).camera_distance + 1 == c.camera_distance,
        c.camera_distance == 5 ==> camera_after(c, Key::Up).camera_distance == 5,
        c.camera_distance < 30 ==> camera_after(c, Key::Down).camera_distance == c.camera_distance + 1,
        c.camera_distance == 30 ==> camera_after(c, Key::Down).camera_distance == 30,
        c.camera_angle > i64::MIN ==> camera_after(c, Key::Left).camera_angle + 1 == c.camera_angle,
        c.camera_angle < i64::MAX ==> camera_after(c, Key::Right).camera_angle == c.camera_angle + 1,
        MIN_DISTANCE == 5 && MAX_DISTANCE == 30,
        MIN_DISTANCE < START_DISTANCE < MAX_DISTANCE,
{
}

} // verus!
