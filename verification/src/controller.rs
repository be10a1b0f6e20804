//! The camera controller: once per frame it moves, turns and zooms the
//! camera from what the frame context holds.
//!
//! Movement comes first and uses the axes of the orientation at the start
//! of the frame; a turn made in this frame shows in the movement of the
//! next.

use crate::camera::{Axes, Camera, CameraView, Motion};
use crate::context::{Context, ContextView};
use crate::input::{key_down, KEY_BACK, KEY_DOWN, KEY_FORWARD, KEY_LEFT, KEY_RIGHT, KEY_UP};
use crate::system::System;
use vstd::prelude::*;

verus! {

/// Speed of a new controller: two and a half world units per second.
pub const DEFAULT_SPEED: u32 = 2_500_000;

/// The movement keys that are held in `keys`.
pub open spec fn motion_of(keys: Map<u32, bool>) -> Motion {
    Motion {
        forward: key_down(keys, KEY_FORWARD),
        back: key_down(keys, KEY_BACK),
        left: key_down(keys, KEY_LEFT),
        right: key_down(keys, KEY_RIGHT),
        up: key_down(keys, KEY_UP),
        down: key_down(keys, KEY_DOWN),
    }
}

/// The camera after one frame of `dt` microseconds: moved by the held keys,
/// then turned by the pointer movement, then zoomed by the scroll.
pub open spec fn camera_after_frame(
    camera: CameraView,
    ctx: ContextView,
    sensitivity: u32,
    speed: u32,
    dt: i64,
) -> CameraView {
    camera.stepped(motion_of(ctx.keys), speed, dt).looked(
        ctx.mouse.dx,
        ctx.mouse.dy,
        sensitivity,
    ).zoomed(ctx.mouse.scroll)
}

/// What a [`CameraSystem`] stands for in contracts.
pub ghost struct CameraSystemView {
    pub camera: CameraView,
    /// Millionths of a degree per pixel of pointer movement.
    pub sensitivity: u32,
    /// Millionths of a world unit per second.
    pub speed: u32,
}

/// Drives a camera from the frame context.
pub struct CameraSystem {
    camera: Camera,
    sensitivity: u32,
    speed: u32,
}

impl View for CameraSystem {
    type V = CameraSystemView;

    closed spec fn view(&self) -> CameraSystemView {
        CameraSystemView {
            camera: self.camera@,
            sensitivity: self.sensitivity,
            speed: self.speed,
        }
    }
}

impl CameraSystem {
    /// A controller for `camera` that turns it by `sensitivity` per pixel and
    /// moves it at the default speed.
    pub fn new(camera: Camera, sensitivity: u32) -> (system: CameraSystem)
        ensures
            system@ == (CameraSystemView { camera: camera@, sensitivity, speed: DEFAULT_SPEED }),
    {
        CameraSystem { camera, sensitivity, speed: DEFAULT_SPEED }
    }

    /// Sets the speed of movement.
    pub fn set_speed(&mut self, speed: u32)
        ensures
            final(self)@ == (CameraSystemView { speed, ..old(self)@ }),
    {
        self.speed = speed;
    }

    /// The camera as the last run left it.
    pub fn camera(&self) -> (camera: &Camera)
        ensures
            camera@ == self@.camera,
    {
        &self.camera
    }

    /// Hands the camera the axes derived from its yaw and pitch; see
    /// [`Camera::set_axes`].
    pub fn set_axes(&mut self, axes: Axes) -> (taken: bool)
        ensures
            taken == axes.is_orthonormal(),
            final(self)@ == (CameraSystemView {
                camera: old(self)@.camera.with_axes(axes),
                ..old(self)@
            }),
    {
        self.camera.set_axes(axes)
    }

    /// Reads which movement keys are held.
    pub fn read_motion(ctx: &Context) -> (motion: Motion)
        ensures
            motion == motion_of(ctx@.keys),
    {
        Motion {
            forward: ctx.key_state.is_pressed(KEY_FORWARD),
            back: ctx.key_state.is_pressed(KEY_BACK),
            left: ctx.key_state.is_pressed(KEY_LEFT),
            right: ctx.key_state.is_pressed(KEY_RIGHT),
            up: ctx.key_state.is_pressed(KEY_UP),
            down: ctx.key_state.is_pressed(KEY_DOWN),
        }
    }
}

impl System for CameraSystem {
    /// Updates the camera for one frame and consumes the pointer movement
    /// and the scroll, so that neither is applied twice.
    fn run(&mut self, ctx: &mut Context, dt: i64)
        ensures
            final(self)@ == (CameraSystemView {
                camera: camera_after_frame(
                    old(self)@.camera,
                    old(ctx)@,
                    old(self)@.sensitivity,
                    old(self)@.speed,
                    dt,
                ),
                ..old(self)@
            }),
            final(ctx)@ == old(ctx)@.pointer_consumed(),
    {
        let motion = CameraSystem::read_motion(ctx);
        self.camera.advance(motion, self.speed, dt);
        let (dx, dy) = ctx.mouse_state.take_delta();
        self.camera.look(dx, dy, self.sensitivity);
        let scroll = ctx.mouse_state.take_scroll();
        self.camera.zoom(scroll);
    }
}

/// In a frame without pointer movement, scroll or held keys the camera does
/// not change.
pub proof fn lemma_idle_frame_keeps_camera(
    camera: CameraView,
    ctx: ContextView,
    sensitivity: u32,
    speed: u32,
    dt: i64,
)
    requires
        camera.wf(),
        ctx.mouse.dx == 0,
        ctx.mouse.dy == 0,
        ctx.mouse.scroll == 0,
        motion_of(ctx.keys) == (Motion {
            forward: false,
            back: false,
            left: false,
            right: false,
            up: false,
            down: false,
        }),
    ensures
        camera_after_frame(camera, ctx, sensitivity, speed, dt) == camera,
{
    crate::camera::lemma_still_camera(camera, motion_of(ctx.keys), speed, dt);
    assert(0int * sensitivity == 0) by (nonlinear_arith);
}

/// A run consumes the pointer: a second run on the context it left turns and
/// zooms by nothing.
pub proof fn lemma_pointer_is_consumed_once(ctx: ContextView)
    ensures
        ctx.pointer_consumed().mouse.dx == 0,
        ctx.pointer_consumed().mouse.dy == 0,
        ctx.pointer_consumed().mouse.scroll == 0,
        ctx.pointer_consumed().keys == ctx.keys,
{
}

} // verus!
