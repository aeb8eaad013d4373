//! The camera: where the eye is, what it looks at, and how it projects.

use crate::scalar::Scalar;
use crate::scalar::MINUS_ONE_HUNDRED_BITS;
use crate::scalar::ZERO_BITS;
use crate::transform::LookAt;
use crate::transform::Perspective;
use crate::transform::Point;
use vstd::prelude::*;

verus! {

/// The point from which a new camera looks: `(0, 0, -100)`.
pub open spec fn default_position() -> Point {
    Point {
        x: Scalar { bits: ZERO_BITS },
        y: Scalar { bits: ZERO_BITS },
        z: Scalar { bits: MINUS_ONE_HUNDRED_BITS },
    }
}

/// The point at which a new camera looks: the origin.
pub open spec fn default_target() -> Point {
    Point {
        x: Scalar { bits: ZERO_BITS },
        y: Scalar { bits: ZERO_BITS },
        z: Scalar { bits: ZERO_BITS },
    }
}

/// A perspective camera.
///
/// The view transform is kept beside the two points it is made from and is
/// renewed whenever one of them changes, so it never lags behind them.
#[derive(Clone, Debug, PartialEq, Eq)]
pub struct Camera {
    position: Point,
    target: Point,
    view: LookAt,
    projection: Perspective,
    vfov: Scalar,
    aspect_ratio: Scalar,
    near: Scalar,
    far: Scalar,
}

impl Camera {
    /// Where the eye is.
    pub closed spec fn position(&self) -> Point {
        self.position
    }

    /// What the eye looks at.
    pub closed spec fn target(&self) -> Point {
        self.target
    }

    /// The view transform as last derived.
    pub closed spec fn view_transform(&self) -> LookAt {
        self.view
    }

    /// The projection.
    pub closed spec fn projection_transform(&self) -> Perspective {
        self.projection
    }

    /// The four numbers the projection was made from: vertical field of
    /// view, aspect ratio, near and far plane.
    pub closed spec fn parameters(&self) -> (Scalar, Scalar, Scalar, Scalar) {
        (self.vfov, self.aspect_ratio, self.near, self.far)
    }

    /// The view transform is the look-at of position and target, and the
    /// projection is that of the four parameters.
    pub open spec fn wf(&self) -> bool {
        &&& self.view_transform() == LookAt { eye: self.position(), target: self.target() }
        &&& self.projection_transform() == Perspective {
            aspect_ratio: self.parameters().1,
            vertical_fov: self.parameters().0,
            near: self.parameters().2,
            far: self.parameters().3,
        }
    }

    /// A camera with the given projection, placed at `(0, 0, -100)` and
    /// looking at the origin.
    pub fn new(vfov: Scalar, aspect_ratio: Scalar, near: Scalar, far: Scalar) -> (camera: Camera)
        ensures
            camera.wf(),
            camera.position() == default_position(),
            camera.target() == default_target(),
            camera.parameters() == (vfov, aspect_ratio, near, far),
    {
        let position = Point {
            x: Scalar { bits: ZERO_BITS },
            y: Scalar { bits: ZERO_BITS },
            z: Scalar { bits: MINUS_ONE_HUNDRED_BITS },
        };
        let target = Point {
            x: Scalar { bits: ZERO_BITS },
            y: Scalar { bits: ZERO_BITS },
            z: Scalar { bits: ZERO_BITS },
        };
        let view = LookAt { eye: position, target };
        let projection = Perspective { aspect_ratio, vertical_fov: vfov, near, far };
        Camera { position, target, view, projection, vfov, aspect_ratio, near, far }
    }

    /// Moves the eye and renews the view transform at once.
    pub fn set_position(&mut self, x: Scalar, y: Scalar, z: Scalar)
        requires
            old(self).wf(),
        ensures
            final(self).wf(),
            final(self).position() == (Point { x, y, z }),
            final(self).target() == old(self).target(),
            final(self).projection_transform() == old(self).projection_transform(),
            final(self).parameters() == old(self).parameters(),
    {
        self.position = Point { x, y, z };
        self.update();
    }

    /// Moves the point looked at and renews the view transform at once. The
    /// projection stays as it was.
    pub fn set_target(&mut self, x: Scalar, y: Scalar, z: Scalar)
        requires
            old(self).wf(),
        ensures
            final(self).wf(),
            final(self).target() == (Point { x, y, z }),
            final(self).position() == old(self).position(),
            final(self).projection_transform() == old(self).projection_transform(),
            final(self).parameters() == old(self).parameters(),
    {
        self.target = Point { x, y, z };
        self.update();
    }

    /// Where the eye is.
    pub fn eye(&self) -> (position: Point)
        ensures
            position == self.position(),
    {
        self.position
    }

    /// What the eye looks at.
    pub fn looks_at(&self) -> (target: Point)
        ensures
            target == self.target(),
    {
        self.target
    }

    /// The view transform, as derived when position or target last changed.
    pub fn view(&self) -> (view: &LookAt)
        ensures
            *view == self.view_transform(),
    {
        &self.view
    }

    /// The projection.
    pub fn projection(&self) -> (projection: &Perspective)
        ensures
            *projection == self.projection_transform(),
    {
        &self.projection
    }

    /// Derives the view transform from position and target.
    fn update(&mut self)
        ensures
            final(self).view_transform() == (LookAt {
                eye: old(self).position(),
                target: old(self).target(),
            }),
            final(self).position() == old(self).position(),
            final(self).target() == old(self).target(),
            final(self).projection_transform() == old(self).projection_transform(),
            final(self).parameters() == old(self).parameters(),
    {
        self.view = LookAt { eye: self.position, target: self.target };
    }
}

/// The view transform depends on position and target alone: two cameras
/// that agree on both have the same view transform, whatever else was done
/// to them.
pub proof fn lemma_view_from_position_and_target(a: Camera, b: Camera)
    requires
        a.wf(),
        b.wf(),
        a.position() == b.position(),
        a.target() == b.target(),
    ensures
        a.view_transform() == b.view_transform(),
{
}

/// The projection depends on the four projection parameters alone.
pub proof fn lemma_projection_from_parameters(a: Camera, b: Camera)
    requires
        a.wf(),
        b.wf(),
        a.parameters() == b.parameters(),
    ensures
        a.projection_transform() == b.projection_transform(),
{
}

} // verus!
