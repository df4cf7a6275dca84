//! The scene camera: a transform plus movement and rotation speeds, moved
//! by keyboard state and rotated by mouse drag. Rotations from mouse
//! deltas use the small-angle quaternion (half-angle in place of its
//! sine), which keeps the update exact in fixed point.

use crate::input::{InputState, KeyCode, KeyState};
use crate::transform::{
    exec_fmul, exec_fneg, exec_quat_mul, exec_quat_rotate, exec_vec3_add, exec_vec3_scale, fmul,
    fneg, quat_mul, quat_rotate, vec3_add, vec3_scale, Mat4f, Quatf, Transform, Vec3f,
};
use vstd::prelude::*;

verus! {

/// Half of 0.01 in fixed point: the half-angle factor the mouse rotation
/// speed is scaled by.
pub const FX_HALF_HUNDREDTH: i64 = 327;

/// A key counts as down while entered or held.
pub open spec fn down(k: KeyState) -> bool {
    k is Hold || k is Enter
}

#[derive(Clone, Copy, Debug, PartialEq, Eq, Structural)]
pub struct Camera {
    pub movement_speed: i64,
    pub rotation_speed: i64,
    pub zoom_speed: i64,
    pub fov: i64,
    pub transform: Transform,
}

/// `c` after moving along the rotated axis by `amount * movement_speed`.
pub open spec fn moved_along(c: Camera, axis: Vec3f, amount: i64) -> Camera {
    let v = vec3_scale(fmul(amount, c.movement_speed), quat_rotate(c.transform.rotation, axis));
    Camera {
        transform: Transform {
            position: vec3_add(c.transform.position, v),
            ..c.transform
        },
        ..c
    }
}

/// The small-angle quaternion for a yaw of `2 * half` radians (fixed point).
pub open spec fn small_yaw(half: i64) -> Quatf {
    Quatf { x: 0, y: half, z: 0, w: crate::fx::FX_ONE }
}

/// The small-angle quaternion for a pitch of `2 * half` radians (fixed point).
pub open spec fn small_pitch(half: i64) -> Quatf {
    Quatf { x: half, y: 0, z: 0, w: crate::fx::FX_ONE }
}

/// `c` after a mouse drag of `(y, x)`: yaw is applied on the left of the
/// current rotation and pitch on the right, each with half-angle
/// `FX_HALF_HUNDREDTH * rotation_speed * delta`.
pub open spec fn rotated_xy(c: Camera, y: i64, x: i64) -> Camera {
    let yaw = small_yaw(fmul(fmul(FX_HALF_HUNDREDTH, c.rotation_speed), y));
    let pitch = small_pitch(fmul(fmul(FX_HALF_HUNDREDTH, c.rotation_speed), x));
    Camera {
        transform: Transform {
            rotation: quat_mul(quat_mul(yaw, c.transform.rotation), pitch),
            ..c.transform
        },
        ..c
    }
}

/// One camera update step: w/s move forward and back, a/d strafe, q/e
/// move up and down, and a held right mouse button rotates by the mouse
/// delta.
pub open spec fn updated(c: Camera, delta_time: i64, input: InputState) -> Camera {
    let c = if down(input.key_spec(KeyCode::KeyW)) {
        moved_along(c, Vec3f { z: crate::fx::FX_ONE, x: 0, y: 0 }, fneg(delta_time))
    } else {
        c
    };
    let c = if down(input.key_spec(KeyCode::KeyS)) {
        moved_along(c, Vec3f { z: crate::fx::FX_ONE, x: 0, y: 0 }, fneg(fneg(delta_time)))
    } else {
        c
    };
    let c = if down(input.key_spec(KeyCode::KeyA)) {
        moved_along(c, Vec3f { x: crate::fx::FX_ONE, y: 0, z: 0 }, fneg(delta_time))
    } else {
        c
    };
    let c = if down(input.key_spec(KeyCode::KeyD)) {
        moved_along(c, Vec3f { x: crate::fx::FX_ONE, y: 0, z: 0 }, fneg(fneg(delta_time)))
    } else {
        c
    };
    let c = if down(input.key_spec(KeyCode::KeyE)) {
        moved_along(c, Vec3f { y: crate::fx::FX_ONE, x: 0, z: 0 }, fneg(delta_time))
    } else {
        c
    };
    let c = if down(input.key_spec(KeyCode::KeyQ)) {
        moved_along(c, Vec3f { y: crate::fx::FX_ONE, x: 0, z: 0 }, delta_time)
    } else {
        c
    };
    if down(input.mouse_right) {
        rotated_xy(c, input.mouse_delta.x, input.mouse_delta.y)
    } else {
        c
    }
}

impl Camera {
    pub fn new(
        position: Vec3f,
        rotation: Quatf,
        movement_speed: i64,
        rotation_speed: i64,
        zoom_speed: i64,
        fov: i64,
    ) -> (r: Camera)
        ensures
            r.movement_speed == movement_speed,
            r.rotation_speed == rotation_speed,
            r.zoom_speed == zoom_speed,
            r.fov == fov,
            r.transform == (Transform { position, rotation, ..Transform::identity_spec() }),
    {
        Camera {
            movement_speed,
            rotation_speed,
            zoom_speed,
            fov,
            transform: Transform { position, scale: Vec3f::one(), rotation },
        }
    }

    /// Moves along the camera's backward axis scaled by `amount`.
    pub fn move_forward(&mut self, amount: i64)
        ensures
            *final(self) == moved_along(
                *old(self),
                Vec3f { z: crate::fx::FX_ONE, x: 0, y: 0 },
                fneg(amount),
            ),
    {
        let axis = exec_quat_rotate(self.transform.rotation, Vec3f { x: 0, y: 0, z: crate::fx::FX_ONE });
        let v = exec_vec3_scale(exec_fmul(exec_fneg(amount), self.movement_speed), axis);
        self.transform.position = exec_vec3_add(self.transform.position, v);
    }

    /// Moves along the camera's left axis scaled by `amount`.
    pub fn move_right(&mut self, amount: i64)
        ensures
            *final(self) == moved_along(
                *old(self),
                Vec3f { x: crate::fx::FX_ONE, y: 0, z: 0 },
                fneg(amount),
            ),
    {
        let axis = exec_quat_rotate(self.transform.rotation, Vec3f { x: crate::fx::FX_ONE, y: 0, z: 0 });
        let v = exec_vec3_scale(exec_fmul(exec_fneg(amount), self.movement_speed), axis);
        self.transform.position = exec_vec3_add(self.transform.position, v);
    }

    /// Moves along the camera's up axis scaled by `amount`.
    pub fn move_up(&mut self, amount: i64)
        ensures
            *final(self) == moved_along(
                *old(self),
                Vec3f { y: crate::fx::FX_ONE, x: 0, z: 0 },
                amount,
            ),
    {
        let axis = exec_quat_rotate(self.transform.rotation, Vec3f { x: 0, y: crate::fx::FX_ONE, z: 0 });
        let v = exec_vec3_scale(exec_fmul(amount, self.movement_speed), axis);
        self.transform.position = exec_vec3_add(self.transform.position, v);
    }

    /// Applies a mouse drag as a yaw and a pitch rotation.
    pub fn rotate_xy(&mut self, y: i64, x: i64)
        ensures
            *final(self) == rotated_xy(*old(self), y, x),
    {
        let half_y = exec_fmul(exec_fmul(FX_HALF_HUNDREDTH, self.rotation_speed), y);
        let half_x = exec_fmul(exec_fmul(FX_HALF_HUNDREDTH, self.rotation_speed), x);
        let yaw = Quatf { x: 0, y: half_y, z: 0, w: crate::fx::FX_ONE };
        let pitch = Quatf { x: half_x, y: 0, z: 0, w: crate::fx::FX_ONE };
        self.transform.rotation = exec_quat_mul(exec_quat_mul(yaw, self.transform.rotation), pitch);
    }

    /// The view matrix: translation times rotation (no scale).
    pub fn matrix(&self) -> (r: Mat4f)
        ensures
            r == crate::transform::trs_matrix(
                Transform {
                    position: self.transform.position,
                    scale: Vec3f::one_spec(),
                    rotation: self.transform.rotation,
                },
            ),
    {
        let t = Transform {
            position: self.transform.position,
            scale: Vec3f::one(),
            rotation: self.transform.rotation,
        };
        t.matrix()
    }

    /// One per-frame update from the input state.
    pub fn update(&mut self, delta_time: i64, input: &InputState)
        requires
            input.wf(),
        ensures
            *final(self) == updated(*old(self), delta_time, *input),
    {
        if input.key(&KeyCode::KeyW).is_down() {
            self.move_forward(delta_time);
        }
        if input.key(&KeyCode::KeyS).is_down() {
            self.move_forward(exec_fneg(delta_time));
        }
        if input.key(&KeyCode::KeyA).is_down() {
            self.move_right(delta_time);
        }
        if input.key(&KeyCode::KeyD).is_down() {
            self.move_right(exec_fneg(delta_time));
        }
        if input.key(&KeyCode::KeyE).is_down() {
            self.move_up(exec_fneg(delta_time));
        }
        if input.key(&KeyCode::KeyQ).is_down() {
            self.move_up(delta_time);
        }
        if input.mouse_right.is_down() {
            self.rotate_xy(input.mouse_delta.x, input.mouse_delta.y);
        }
    }
}

impl Default for Camera {
    fn default() -> (r: Camera)
        ensures
            r.transform == (Transform { ..Transform::identity_spec() }),
            r.movement_speed == crate::fx::FX_ONE,
    {
        Camera {
            movement_speed: crate::fx::FX_ONE,
            rotation_speed: crate::fx::FX_ONE / 5,
            zoom_speed: crate::fx::FX_ONE,
            fov: crate::fx::FX_ONE / 8,
            transform: Transform {
                position: Vec3f::zero(),
                scale: Vec3f::one(),
                rotation: Quatf::identity(),
            },
        }
    }
}

} // verus!
