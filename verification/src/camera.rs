use vstd::prelude::*;
use crate::units::{Ratio, COORD_LIMIT, MICRO};

verus! {

/// An orthographic projection of the axis-aligned box
/// `[left, right] x [bottom, top] x [near, far]` (all in micro units) onto
/// the normalized device volume `[-1, 1] x [-1, 1] x [0, 1]`, left-handed.
#[derive(Clone, Copy, PartialEq, Eq, Structural, Debug)]
pub struct OrthoProjection {
    pub left: i64,
    pub right: i64,
    pub bottom: i64,
    pub top: i64,
    pub near: i64,
    pub far: i64,
}

/// The exact rational `(2x - (left + right)) / (right - left)` equals the
/// integer `v`: the projection sends world `x` to normalized device `v`.
pub open spec fn maps_to_ndc_x(p: OrthoProjection, x: int, v: int) -> bool {
    2 * x - (p.left + p.right) == v * (p.right - p.left)
}

/// The exact rational `(2y - (bottom + top)) / (top - bottom)` equals `v`.
pub open spec fn maps_to_ndc_y(p: OrthoProjection, y: int, v: int) -> bool {
    2 * y - (p.bottom + p.top) == v * (p.top - p.bottom)
}

/// The exact rational `(z - near) / (far - near)` equals `v` (depth maps
/// to `[0, 1]`).
pub open spec fn maps_to_ndc_z(p: OrthoProjection, z: int, v: int) -> bool {
    z - p.near == v * (p.far - p.near)
}

impl OrthoProjection {
    /// Each axis spans a non-empty range and stays within the coordinate
    /// budget.
    pub open spec fn wf(self) -> bool {
        &&& self.left < self.right
        &&& self.bottom < self.top
        &&& self.near < self.far
        &&& -COORD_LIMIT <= self.left && self.right <= COORD_LIMIT
        &&& -COORD_LIMIT <= self.bottom && self.top <= COORD_LIMIT
        &&& -COORD_LIMIT <= self.near && self.far <= COORD_LIMIT
    }

    /// Normalized device x of a world x, as an exact rational.
    pub fn ndc_x(&self, x: i64) -> (r: Ratio)
        requires
            self.wf(),
            -COORD_LIMIT <= x <= COORD_LIMIT,
        ensures
            r.wf(),
            r.num == 2 * x - (self.left + self.right),
            r.den == self.right - self.left,
            forall|v: int| r.is_int(v) == maps_to_ndc_x(*self, x as int, v),
    {
        let num: i128 = 2 * (x as i128) - (self.left as i128 + self.right as i128);
        let den: i128 = self.right as i128 - self.left as i128;
        Ratio::new(num, den)
    }

    /// Normalized device y of a world y, as an exact rational.
    pub fn ndc_y(&self, y: i64) -> (r: Ratio)
        requires
            self.wf(),
            -COORD_LIMIT <= y <= COORD_LIMIT,
        ensures
            r.wf(),
            r.num == 2 * y - (self.bottom + self.top),
            r.den == self.top - self.bottom,
            forall|v: int| r.is_int(v) == maps_to_ndc_y(*self, y as int, v),
    {
        let num: i128 = 2 * (y as i128) - (self.bottom as i128 + self.top as i128);
        let den: i128 = self.top as i128 - self.bottom as i128;
        Ratio::new(num, den)
    }

    /// Normalized device depth of a world z, as an exact rational.
    pub fn ndc_z(&self, z: i64) -> (r: Ratio)
        requires
            self.wf(),
            -COORD_LIMIT <= z <= COORD_LIMIT,
        ensures
            r.wf(),
            r.num == z - self.near,
            r.den == self.far - self.near,
            forall|v: int| r.is_int(v) == maps_to_ndc_z(*self, z as int, v),
    {
        let num: i128 = z as i128 - self.near as i128;
        let den: i128 = self.far as i128 - self.near as i128;
        Ratio::new(num, den)
    }
}

/// A camera position in world space, in micro units.
#[derive(Clone, Copy, PartialEq, Eq, Structural, Debug)]
pub struct EyePoint {
    pub x: i64,
    pub y: i64,
    pub z: i64,
}

impl EyePoint {
    pub open spec fn wf(self) -> bool {
        &&& -COORD_LIMIT <= self.x <= COORD_LIMIT
        &&& -COORD_LIMIT <= self.y <= COORD_LIMIT
        &&& -COORD_LIMIT <= self.z <= COORD_LIMIT
    }
}

/// The view transform: a pure translation that carries the camera position
/// to the origin. The camera position is a parameter of the camera rather
/// than a constant baked into the transform.
#[derive(Clone, Copy, PartialEq, Eq, Structural, Debug)]
pub struct ViewTransform {
    pub translate_x: i64,
    pub translate_y: i64,
    pub translate_z: i64,
}

/// The view transform induced by a camera position: translate by its
/// negation.
pub open spec fn spec_view_of(eye: EyePoint) -> ViewTransform {
    ViewTransform {
        translate_x: (-eye.x) as i64,
        translate_y: (-eye.y) as i64,
        translate_z: (-eye.z) as i64,
    }
}

/// The orthographic projection spanning `[0, w] x [0, h]` world units
/// (pixel units) with depth range `[-1, 1]`.
pub open spec fn spec_ortho_for_viewport(width: u32, height: u32) -> OrthoProjection {
    OrthoProjection {
        left: 0,
        right: (width * MICRO) as i64,
        bottom: 0,
        top: (height * MICRO) as i64,
        near: (-MICRO) as i64,
        far: MICRO,
    }
}

/// The per-frame uniform: the two transforms every vertex runs through,
/// written to a GPU-resident buffer before any draw of the frame reads it.
#[derive(Clone, Copy, PartialEq, Eq, Structural, Debug)]
pub struct ViewProjectionUniform {
    pub view: ViewTransform,
    pub projection: OrthoProjection,
}

/// The camera: a viewport-sized orthographic projection plus a movable
/// position. The projection is recomputed whenever the viewport changes;
/// the view depends only on the position.
#[derive(Clone, Copy, PartialEq, Eq, Structural, Debug)]
pub struct Camera {
    pub width: u32,
    pub height: u32,
    pub eye: EyePoint,
    pub projection: OrthoProjection,
}

/// A viewport dimension in pixels, scaled to micro units, stays within the
/// coordinate budget.
proof fn lemma_viewport_in_budget(d: u32)
    ensures
        0 <= d * MICRO <= COORD_LIMIT,
{
    assert(0 <= d * MICRO <= COORD_LIMIT) by (nonlinear_arith)
        requires
            0 <= d <= 0xffff_ffff,
    ;
}

impl Camera {
    /// The projection always matches the current viewport, which is
    /// non-degenerate, and the position is in budget.
    pub open spec fn wf(self) -> bool {
        &&& self.width > 0
        &&& self.height > 0
        &&& self.eye.wf()
        &&& self.projection == spec_ortho_for_viewport(self.width, self.height)
    }

    pub open spec fn spec_width(self) -> u32 {
        self.width
    }

    pub open spec fn spec_height(self) -> u32 {
        self.height
    }

    pub open spec fn spec_eye(self) -> EyePoint {
        self.eye
    }

    pub open spec fn spec_projection(self) -> OrthoProjection {
        self.projection
    }

    /// A camera for a viewport of `width x height` pixels, positioned at
    /// the origin. Zero-sized viewports are rejected upstream.
    pub fn new(width: u32, height: u32) -> (r: Camera)
        requires
            width > 0,
            height > 0,
        ensures
            r.wf(),
            r.spec_width() == width,
            r.spec_height() == height,
            r.spec_eye() == (EyePoint { x: 0, y: 0, z: 0 }),
    {
        proof {
            lemma_viewport_in_budget(width);
            lemma_viewport_in_budget(height);
        }
        let projection = OrthoProjection {
            left: 0,
            right: (width as i64) * MICRO,
            bottom: 0,
            top: (height as i64) * MICRO,
            near: -MICRO,
            far: MICRO,
        };
        Camera { width, height, eye: EyePoint { x: 0, y: 0, z: 0 }, projection }
    }

    /// Recomputes the projection for a new viewport; the position (and so
    /// the view transform) is untouched. Zero dimensions are rejected
    /// upstream.
    pub fn resize(&mut self, width: u32, height: u32)
        requires
            width > 0,
            height > 0,
            old(self).wf(),
        ensures
            final(self).wf(),
            final(self).spec_width() == width,
            final(self).spec_height() == height,
            final(self).spec_eye() == old(self).spec_eye(),
            final(self).spec_projection() == spec_ortho_for_viewport(width, height),
    {
        proof {
            lemma_viewport_in_budget(width);
            lemma_viewport_in_budget(height);
        }
        self.width = width;
        self.height = height;
        self.projection = OrthoProjection {
            left: 0,
            right: (width as i64) * MICRO,
            bottom: 0,
            top: (height as i64) * MICRO,
            near: -MICRO,
            far: MICRO,
        };
    }

    /// Moves the camera.
    pub fn look_from(&mut self, eye: EyePoint)
        requires
            eye.wf(),
            old(self).wf(),
        ensures
            final(self).wf(),
            final(self).spec_eye() == eye,
            final(self).spec_width() == old(self).spec_width(),
            final(self).spec_height() == old(self).spec_height(),
            final(self).spec_projection() == old(self).spec_projection(),
    {
        self.eye = eye;
    }

    /// The view transform: translation by the negated camera position.
    pub fn get_view(&self) -> (r: ViewTransform)
        requires
            self.wf(),
        ensures
            r == spec_view_of(self.spec_eye()),
    {
        ViewTransform {
            translate_x: -self.eye.x,
            translate_y: -self.eye.y,
            translate_z: -self.eye.z,
        }
    }

    /// The current projection.
    pub fn get_projection(&self) -> (r: OrthoProjection)
        requires
            self.wf(),
        ensures
            r == self.spec_projection(),
            r == spec_ortho_for_viewport(self.spec_width(), self.spec_height()),
            r.wf(),
    {
        self.projection
    }

    /// The per-frame uniform derived from the camera's current state.
    pub fn view_projection(&self) -> (r: ViewProjectionUniform)
        requires
            self.wf(),
        ensures
            r.view == spec_view_of(self.spec_eye()),
            r.projection == self.spec_projection(),
            r.projection.wf(),
    {
        ViewProjectionUniform { view: self.get_view(), projection: self.get_projection() }
    }
}

/// A well-formed camera's projection sends the viewport's corners to
/// opposite corners of the normalized device square: `(0, 0)` to
/// `(-1, -1)` and `(width, height)` to `(1, 1)`, exactly.
pub proof fn lemma_projection_maps_viewport_corners(cam: Camera)
    requires
        cam.wf(),
    ensures
        maps_to_ndc_x(cam.spec_projection(), 0, -1),
        maps_to_ndc_y(cam.spec_projection(), 0, -1),
        maps_to_ndc_x(cam.spec_projection(), cam.spec_width() * MICRO, 1),
        maps_to_ndc_y(cam.spec_projection(), cam.spec_height() * MICRO, 1),
{
    lemma_viewport_in_budget(cam.spec_width());
    lemma_viewport_in_budget(cam.spec_height());
}

} // verus!
