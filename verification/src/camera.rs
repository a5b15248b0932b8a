//! The camera: a position with a yaw and a pitch.
//!
//! The view matrix itself is the renderer's business; the simulation
//! only tracks the pose.  Movement is rotated by the yaw so that it
//! is relative to where the camera looks; the pitch is clamped to a
//! quarter turn each way and the yaw wraps around the full turn.

use vstd::prelude::*;

use crate::math::{
    clamp_i128, div_trunc_i128, spec_clamp, spec_cos_micro, spec_div_trunc, spec_sin_micro,
    cos_micro, sin_micro, wrap_angle, Vec3, HALF_PI_MICRO, TWO_PI_MICRO, VEC_LIMIT,
};

verus! {

/// How far one look step may turn, in microradians.
pub const LOOK_LIMIT: i64 = 1_000_000_000_000;

/// Microradians the view turns per pixel of mouse movement (0.008
/// radians per pixel), applied against the movement direction.
pub const LOOK_PER_PIXEL_MICRO: i64 = 8000;

/// Structure holding the position and rotation of a camera.
#[derive(Clone, Copy, Debug, PartialEq, Eq, Structural)]
pub struct Camera {
    pub pos: Vec3,
    /// Rotation around the vertical axis, microradians in `[0, 2 pi)`.
    pub yaw: i64,
    /// Rotation around the horizontal axis, microradians in
    /// `[-pi/2, pi/2]`.
    pub pitch: i64,
}

/// A movement vector rotated by the camera's yaw: movement is
/// relative to where the camera looks.
pub open spec fn spec_camera_rotate(v: Vec3, yaw: int) -> Vec3 {
    let s = spec_sin_micro(yaw);
    let c = spec_cos_micro(yaw);
    Vec3 {
        x: spec_div_trunc(v.x * c + v.z * s, 1000) as i64,
        y: v.y,
        z: spec_div_trunc(v.z * c - v.x * s, 1000) as i64,
    }
}

/// The camera after translating by `v`, rotated by the yaw and
/// clamped to the tracked range.
pub open spec fn spec_camera_translate(cam: Camera, v: Vec3) -> Camera {
    let r = spec_camera_rotate(v, cam.yaw as int);
    Camera {
        pos: Vec3 {
            x: spec_clamp(cam.pos.x + r.x, VEC_LIMIT as int) as i64,
            y: spec_clamp(cam.pos.y + r.y, VEC_LIMIT as int) as i64,
            z: spec_clamp(cam.pos.z + r.z, VEC_LIMIT as int) as i64,
        },
        ..cam
    }
}

/// The camera after a look rotation: the yaw wraps around the full
/// turn, the pitch is clamped to a quarter turn each way.
pub open spec fn spec_camera_look(cam: Camera, dx: int, dy: int) -> Camera {
    Camera {
        yaw: ((cam.yaw + dx) % (TWO_PI_MICRO as int)) as i64,
        pitch: spec_clamp(cam.pitch + dy, HALF_PI_MICRO as int) as i64,
        ..cam
    }
}

/// The camera after a mouse movement of whole pixels: a look
/// rotation against the movement direction.
pub open spec fn spec_camera_mouse(cam: Camera, dx: int, dy: int) -> Camera {
    spec_camera_look(cam, -LOOK_PER_PIXEL_MICRO * dx, -LOOK_PER_PIXEL_MICRO * dy)
}

impl Camera {
    /// A camera the simulation accepts: position in range, yaw and
    /// pitch within their turns.
    pub open spec fn wf(self) -> bool {
        &&& self.pos.in_range()
        &&& 0 <= self.yaw < TWO_PI_MICRO
        &&& -HALF_PI_MICRO <= self.pitch <= HALF_PI_MICRO
    }

    /// A new camera at `pos`, looking straight ahead.
    pub fn new(pos: Vec3) -> (c: Camera)
        requires
            pos.in_range(),
        ensures
            c == (Camera { pos, yaw: 0, pitch: 0 }),
            c.wf(),
    {
        Camera { pos, yaw: 0, pitch: 0 }
    }

    /// The camera's position.
    pub fn pos(&self) -> (p: Vec3)
        ensures
            p == self.pos,
    {
        self.pos
    }

    /// Translates the camera by `v`, taking the yaw into account.
    pub fn translate(&mut self, v: Vec3)
        requires
            old(self).wf(),
            v.in_range(),
        ensures
            *final(self) == spec_camera_translate(*old(self), v),
            final(self).wf(),
    {
        let s = sin_micro(self.yaw);
        let c = cos_micro(self.yaw);
        proof {
            crate::math::lemma_abs_mul_le(v.x as int, c as int, VEC_LIMIT as int, 1000);
            crate::math::lemma_abs_mul_le(v.z as int, s as int, VEC_LIMIT as int, 1000);
            crate::math::lemma_abs_mul_le(v.z as int, c as int, VEC_LIMIT as int, 1000);
            crate::math::lemma_abs_mul_le(v.x as int, s as int, VEC_LIMIT as int, 1000);
            crate::math::lemma_div_trunc_abs_le(
                (v.x as int) * (c as int) + (v.z as int) * (s as int),
                1000,
                2 * (VEC_LIMIT as int) * 1000,
            );
            crate::math::lemma_div_trunc_abs_le(
                (v.z as int) * (c as int) - (v.x as int) * (s as int),
                1000,
                2 * (VEC_LIMIT as int) * 1000,
            );
        }
        let rx = div_trunc_i128((v.x as i128) * (c as i128) + (v.z as i128) * (s as i128), 1000);
        let rz = div_trunc_i128((v.z as i128) * (c as i128) - (v.x as i128) * (s as i128), 1000);
        self.pos = Vec3 {
            x: clamp_i128((self.pos.x as i128) + rx, VEC_LIMIT),
            y: clamp_i128((self.pos.y as i128) + (v.y as i128), VEC_LIMIT),
            z: clamp_i128((self.pos.z as i128) + rz, VEC_LIMIT),
        };
    }

    /// Applies a look rotation of `dx` (yaw) and `dy` (pitch)
    /// microradians.
    pub fn look(&mut self, dx: i64, dy: i64)
        requires
            old(self).wf(),
            -LOOK_LIMIT <= dx <= LOOK_LIMIT,
            -LOOK_LIMIT <= dy <= LOOK_LIMIT,
        ensures
            *final(self) == spec_camera_look(*old(self), dx as int, dy as int),
            final(self).wf(),
    {
        self.yaw = wrap_angle(self.yaw + dx);
        self.pitch = clamp_i128((self.pitch as i128) + (dy as i128), HALF_PI_MICRO);
    }

    /// Handles a mouse movement of whole pixels by rotating the
    /// camera against it.
    pub fn mouse_moved(&mut self, dx: i64, dy: i64)
        requires
            old(self).wf(),
            -100_000_000 <= dx <= 100_000_000,
            -100_000_000 <= dy <= 100_000_000,
        ensures
            *final(self) == spec_camera_mouse(*old(self), dx as int, dy as int),
            final(self).wf(),
    {
        proof {
            crate::math::lemma_abs_mul_le(
                LOOK_PER_PIXEL_MICRO as int,
                dx as int,
                LOOK_PER_PIXEL_MICRO as int,
                100_000_000,
            );
            crate::math::lemma_abs_mul_le(
                LOOK_PER_PIXEL_MICRO as int,
                dy as int,
                LOOK_PER_PIXEL_MICRO as int,
                100_000_000,
            );
        }
        self.look(-(LOOK_PER_PIXEL_MICRO * dx), -(LOOK_PER_PIXEL_MICRO * dy))
    }
}

} // verus!
