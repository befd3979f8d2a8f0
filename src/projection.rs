use vstd::prelude::*;
use crate::camera::HALF_TURN;

verus! {

/// Perspective parameters: the vertical field of view, the aspect ratio kept as the
/// output surface's width and height, and the near and far clip distances.
#[derive(Clone, Copy, Debug, PartialEq, Eq)]
pub struct CameraProjection {
    /// Vertical field of view, in angle units.
    pub fovy: i64,
    pub aspect_width: u32,
    pub aspect_height: u32,
    /// Near clip distance, in length units.
    pub near: u64,
    /// Far clip distance, in length units.
    pub far: u64,
}

impl CameraProjection {
    /// A usable frustum: an open field of view, a positive aspect ratio and `0 < near < far`.
    pub open spec fn wf(&self) -> bool {
        &&& 0 < self.fovy < HALF_TURN
        &&& self.aspect_width > 0
        &&& self.aspect_height > 0
        &&& 0 < self.near < self.far
    }

    pub fn new(fovy: i64, container_width: u32, container_height: u32, near: u64, far: u64) -> (r:
        CameraProjection)
        requires
            0 < fovy < HALF_TURN,
            container_width > 0,
            container_height > 0,
            0 < near < far,
        ensures
            r == (CameraProjection {
                fovy,
                aspect_width: container_width,
                aspect_height: container_height,
                near,
                far,
            }),
            r.wf(),
    {
        CameraProjection {
            fovy,
            aspect_width: container_width,
            aspect_height: container_height,
            near,
            far,
        }
    }

    /// Takes the aspect ratio of a resized surface. A surface with a zero side has no
    /// aspect ratio: the last valid one is kept. The field of view and the clip
    /// distances never change.
    pub fn resize(&mut self, width: u32, height: u32)
        ensures
            final(self).fovy == old(self).fovy,
            final(self).near == old(self).near,
            final(self).far == old(self).far,
            width > 0 && height > 0 ==> final(self).aspect_width == width
                && final(self).aspect_height == height,
            !(width > 0 && height > 0) ==> *final(self) == *old(self),
            old(self).wf() ==> final(self).wf(),
    {
        if width > 0 && height > 0 {
            self.aspect_width = width;
            self.aspect_height = height;
        }
    }
}

} // verus!
