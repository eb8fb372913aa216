//! What the keys of the viewer do.

use vstd::prelude::*;
use crate::camera::{moved, pitch_after, pitch_allowed, CameraMove, CameraPose, CameraState};
use crate::render_context::{RenderContext, RenderState};

verus! {

/// Bit pattern of the binary32 number 0.5: how far one key press moves the
/// camera.
pub const KEY_STEP: u32 = 0x3f00_0000;

/// Bit pattern of the binary32 number 500: the cursor travel that turns the
/// camera by one radian.
pub const CURSOR_SENSITIVITY: u32 = 0x43fa_0000;

/// The keys that the viewer may react to.
#[derive(Clone, Copy, Debug, PartialEq, Eq)]
pub enum Key {
    F,
    S,
    R,
    T,
    W,
    P,
    Up,
    Down,
    Left,
    Right,
    /// Any other key.
    Other,
}

/// The step that a key stands for, if any.
pub open spec fn key_binding(key: Key) -> Option<CameraMove> {
    match key {
        Key::F | Key::Up => Some(CameraMove::Forward),
        Key::S | Key::Down => Some(CameraMove::Backward),
        Key::R | Key::Left => Some(CameraMove::Left),
        Key::T | Key::Right => Some(CameraMove::Right),
        Key::W => Some(CameraMove::Up),
        Key::P => Some(CameraMove::Down),
        Key::Other => None,
    }
}

/// How the viewer reacts to keys and to the cursor.
pub struct InputContext {
    x_sensitivity: u32,
    y_sensitivity: u32,
}

impl InputContext {
    /// The sensitivities of the cursor, sideways and up and down, as
    /// binary32 bit patterns.
    pub closed spec fn sensitivity(&self) -> (u32, u32) {
        (self.x_sensitivity, self.y_sensitivity)
    }

    /// The input context of a new viewer.
    pub fn new() -> (context: InputContext)
        ensures
            context.sensitivity() == (CURSOR_SENSITIVITY, CURSOR_SENSITIVITY),
    {
        InputContext { x_sensitivity: CURSOR_SENSITIVITY, y_sensitivity: CURSOR_SENSITIVITY }
    }

    /// The sensitivity of the cursor sideways.
    pub fn x_sensitivity(&self) -> (s: u32)
        ensures
            s == self.sensitivity().0,
    {
        self.x_sensitivity
    }

    /// The sensitivity of the cursor up and down.
    pub fn y_sensitivity(&self) -> (s: u32)
        ensures
            s == self.sensitivity().1,
    {
        self.y_sensitivity
    }

    /// Makes the step of the camera that a key asks for. Each step is
    /// `KEY_STEP` long, and marks the camera as changed. Keys without a
    /// binding are ignored.
    pub fn handle_key<
        C: FnOnce([u32; 3], [u32; 3]) -> [u32; 3],
        F: FnOnce([u32; 3], [u32; 3], u32, bool) -> [u32; 3],
    >(&self, render_context: &mut RenderContext, key: Key, cross: C, shift: F)
        requires
            forall|view: [u32; 3], up: [u32; 3]| call_requires(cross, (view, up)),
            forall|position: [u32; 3], direction: [u32; 3], length: u32, ahead: bool|
                call_requires(shift, (position, direction, length, ahead)),
        ensures
            key_binding(key) is None ==> final(render_context)@ == old(render_context)@,
            key_binding(key) is Some ==> {
                &&& final(render_context)@ == (RenderState {
                    camera: final(render_context)@.camera,
                    camera_dirty: true,
                    ..old(render_context)@
                })
                &&& moved(
                    old(render_context)@.camera,
                    final(render_context)@.camera,
                    key_binding(key)->0,
                    KEY_STEP,
                    cross,
                    shift,
                )
            },
    {
        match Self::binding(key) {
            Some(step) => {
                render_context.camera_mut().make_move(step, KEY_STEP, cross, shift);
            },
            // Ignore other keys.
            None => {},
        }
    }

    /// Turns the camera as a motion of the cursor asks, and marks the
    /// camera as changed. `new_pitch` is the pitch that the motion asks
    /// for; `turn` is told the pose and whether the camera may pitch, and
    /// answers with the new view direction.
    pub fn handle_cursor_moved<T: FnOnce(CameraPose, bool) -> [u32; 3]>(
        &mut self,
        render_context: &mut RenderContext,
        new_pitch: u32,
        turn: T,
    )
        requires
            call_requires(turn, (old(render_context)@.camera.pose, pitch_allowed(new_pitch))),
        ensures
            final(self).sensitivity() == old(self).sensitivity(),
            call_ensures(
                turn,
                (old(render_context)@.camera.pose, pitch_allowed(new_pitch)),
                final(render_context)@.camera.pose.view,
            ),
            final(render_context)@ == (RenderState {
                camera: CameraState::fresh(
                    CameraPose {
                        view: final(render_context)@.camera.pose.view,
                        pitch: pitch_after(old(render_context)@.camera.pose.pitch, new_pitch),
                        ..old(render_context)@.camera.pose
                    },
                ),
                camera_dirty: true,
                ..old(render_context)@
            }),
    {
        render_context.camera_mut().rotate_by_x_y(new_pitch, turn);
    }

    /// The step that a key stands for, if any.
    pub fn binding(key: Key) -> (step: Option<CameraMove>)
        ensures
            step == key_binding(key),
    {
        match key {
            Key::F | Key::Up => Some(CameraMove::Forward),
            Key::S | Key::Down => Some(CameraMove::Backward),
            Key::R | Key::Left => Some(CameraMove::Left),
            Key::T | Key::Right => Some(CameraMove::Right),
            Key::W => Some(CameraMove::Up),
            Key::P => Some(CameraMove::Down),
            Key::Other => None,
        }
    }
}

} // verus!
