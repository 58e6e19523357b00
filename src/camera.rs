//! Cameras.
use vstd::prelude::*;

use crate::{Bits32, Vector3D};

verus! {

/// A foreign camera.
#[derive(Debug, Clone)]
pub struct RawCamera {
    pub name: String,
    pub aspect: Bits32,
    pub clip_plane_far: Bits32,
    pub clip_plane_near: Bits32,
    pub horizontal_fov: Bits32,
    pub look_at: Vector3D,
    pub position: Vector3D,
    pub up: Vector3D,
}

/// A camera.
#[derive(Debug, Clone)]
pub struct Camera {
    pub name: String,
    pub aspect: Bits32,
    pub clip_plane_far: Bits32,
    pub clip_plane_near: Bits32,
    pub horizontal_fov: Bits32,
    pub look_at: Vector3D,
    pub position: Vector3D,
    pub up: Vector3D,
}

/// `r` holds the contents of the foreign camera `c`.
pub open spec fn camera_converted(c: RawCamera, r: Camera) -> bool {
    &&& r.name@ == c.name@
    &&& r.aspect == c.aspect && r.clip_plane_far == c.clip_plane_far
    &&& r.clip_plane_near == c.clip_plane_near && r.horizontal_fov == c.horizontal_fov
    &&& r.look_at == c.look_at && r.position == c.position && r.up == c.up
}

impl Camera {
    /// The camera of a foreign one.
    pub fn from(c: &RawCamera) -> (r: Camera)
        ensures
            camera_converted(*c, r),
    {
        Camera {
            name: c.name.clone(),
            aspect: c.aspect,
            clip_plane_far: c.clip_plane_far,
            clip_plane_near: c.clip_plane_near,
            horizontal_fov: c.horizontal_fov,
            look_at: c.look_at,
            position: c.position,
            up: c.up,
        }
    }
}

} // verus!
