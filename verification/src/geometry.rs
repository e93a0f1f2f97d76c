use vstd::prelude::*;
use crate::units::{COORD_LIMIT, MICRO};

verus! {

/// A vertex of the tessellated-geometry pipeline: a position and an RGBA
/// color, both in micro units (one unit is `MICRO`).
#[derive(Clone, Copy, PartialEq, Eq, Structural, Debug)]
pub struct GpuVertex {
    pub x: i64,
    pub y: i64,
    pub z: i64,
    pub r: i64,
    pub g: i64,
    pub b: i64,
    pub a: i64,
}

/// An axis-aligned rectangle in world space, in micro units.
#[derive(Clone, Copy, PartialEq, Eq, Structural, Debug)]
pub struct Rect {
    pub min_x: i64,
    pub min_y: i64,
    pub max_x: i64,
    pub max_y: i64,
}

impl Rect {
    /// Non-degenerate and within the coordinate budget.
    pub open spec fn wf(self) -> bool {
        &&& self.min_x < self.max_x
        &&& self.min_y < self.max_y
        &&& -COORD_LIMIT <= self.min_x && self.max_x <= COORD_LIMIT
        &&& -COORD_LIMIT <= self.min_y && self.max_y <= COORD_LIMIT
    }

    pub fn new(min_x: i64, min_y: i64, max_x: i64, max_y: i64) -> (r: Rect)
        ensures
            r == (Rect { min_x, min_y, max_x, max_y }),
    {
        Rect { min_x, min_y, max_x, max_y }
    }
}

/// A fill vertex: the path position itself, at depth zero, solid white.
pub open spec fn spec_fill_vertex(x: i64, y: i64) -> GpuVertex {
    GpuVertex { x, y, z: 0, r: MICRO, g: MICRO, b: MICRO, a: MICRO }
}

/// A stroke vertex: the path position offset by `(dx, dy)` along the local
/// normal, at depth zero, solid black (opaque).
pub open spec fn spec_stroke_vertex(x: i64, y: i64, dx: i64, dy: i64) -> GpuVertex {
    GpuVertex {
        x: (x + dx) as i64,
        y: (y + dy) as i64,
        z: 0,
        r: 0,
        g: 0,
        b: 0,
        a: MICRO,
    }
}

/// The vertex constructor shared by the fill and stroke tessellators: it
/// fixes depth and color for each of the two stages so that fill and
/// stroke are visually distinct in one combined mesh.
pub struct WithId;

impl WithId {
    /// Builds a fill-stage vertex.
    pub fn new_vertex(&self, x: i64, y: i64) -> (v: GpuVertex)
        ensures
            v == spec_fill_vertex(x, y),
    {
        GpuVertex { x, y, z: 0, r: MICRO, g: MICRO, b: MICRO, a: MICRO }
    }

    /// Builds a stroke-stage vertex: the position moves by `half_width`
    /// along each axis of the corner normal `(nx, ny)`.
    pub fn new_stroke_vertex(&self, x: i64, y: i64, nx: i64, ny: i64, half_width: i64) -> (v:
        GpuVertex)
        requires
            nx == 1 || nx == -1,
            ny == 1 || ny == -1,
            0 < half_width <= COORD_LIMIT,
            -COORD_LIMIT <= x <= COORD_LIMIT,
            -COORD_LIMIT <= y <= COORD_LIMIT,
        ensures
            v == spec_stroke_vertex(x, y, (nx * half_width) as i64, (ny * half_width) as i64),
    {
        let dx: i64 = nx * half_width;
        let dy: i64 = ny * half_width;
        GpuVertex { x: x + dx, y: y + dy, z: 0, r: 0, g: 0, b: 0, a: MICRO }
    }
}

/// The four fill vertices of a rectangle, counter-clockwise from the
/// bottom-left corner.
pub open spec fn spec_fill_vertices(rect: Rect) -> Seq<GpuVertex> {
    seq![
        spec_fill_vertex(rect.min_x, rect.min_y),
        spec_fill_vertex(rect.max_x, rect.min_y),
        spec_fill_vertex(rect.max_x, rect.max_y),
        spec_fill_vertex(rect.min_x, rect.max_y),
    ]
}

/// The two fill triangles over those four vertices, based at `base`:
/// `(0, 1, 2)` and `(0, 2, 3)`, both counter-clockwise.
pub open spec fn spec_fill_indices(base: u16) -> Seq<u16> {
    seq![
        base,
        (base + 1) as u16,
        (base + 2) as u16,
        base,
        (base + 2) as u16,
        (base + 3) as u16,
    ]
}

/// The eight stroke vertices of a rectangle: for each corner, counter-
/// clockwise from the bottom-left one, the corner pushed outward then the
/// corner pulled inward along its diagonal normal.
pub open spec fn spec_stroke_vertices(rect: Rect, half_width: i64) -> Seq<GpuVertex> {
    seq![
        spec_stroke_vertex(rect.min_x, rect.min_y, (-half_width) as i64, (-half_width) as i64),
        spec_stroke_vertex(rect.min_x, rect.min_y, half_width, half_width),
        spec_stroke_vertex(rect.max_x, rect.min_y, half_width, (-half_width) as i64),
        spec_stroke_vertex(rect.max_x, rect.min_y, (-half_width) as i64, half_width),
        spec_stroke_vertex(rect.max_x, rect.max_y, half_width, half_width),
        spec_stroke_vertex(rect.max_x, rect.max_y, (-half_width) as i64, (-half_width) as i64),
        spec_stroke_vertex(rect.min_x, rect.max_y, (-half_width) as i64, half_width),
        spec_stroke_vertex(rect.min_x, rect.max_y, half_width, (-half_width) as i64),
    ]
}

/// The eight stroke triangles: one quad (two counter-clockwise triangles)
/// per edge of the rectangle, between the outer ring (even offsets) and
/// the inner ring (odd offsets).
pub open spec fn spec_stroke_indices(base: u16) -> Seq<u16> {
    seq![
        // bottom edge: outer 0, outer 2, inner 3, inner 1
        base, (base + 2) as u16, (base + 3) as u16,
        base, (base + 3) as u16, (base + 1) as u16,
        // right edge: outer 2, outer 4, inner 5, inner 3
        (base + 2) as u16, (base + 4) as u16, (base + 5) as u16,
        (base + 2) as u16, (base + 5) as u16, (base + 3) as u16,
        // top edge: outer 4, outer 6, inner 7, inner 5
        (base + 4) as u16, (base + 6) as u16, (base + 7) as u16,
        (base + 4) as u16, (base + 7) as u16, (base + 5) as u16,
        // left edge: outer 6, outer 0, inner 1, inner 7
        (base + 6) as u16, base, (base + 1) as u16,
        (base + 6) as u16, (base + 1) as u16, (base + 7) as u16,
    ]
}

/// A growing vertex/index buffer pair shared by the fill and the stroke
/// stage, so that both stages land in one mesh and one buffer bind.
pub struct GeometryBuilder {
    pub vertices: Vec<GpuVertex>,
    pub indices: Vec<u16>,
}

impl GeometryBuilder {
    /// Every index points at an existing vertex, and the vertex count
    /// stays addressable by 16-bit indices.
    pub open spec fn wf(self) -> bool {
        &&& self.vertices@.len() <= 0x1_0000
        &&& forall|i: int|
            0 <= i < self.indices@.len() ==> (self.indices@[i] as int) < self.vertices@.len()
    }

    pub fn new() -> (r: GeometryBuilder)
        ensures
            r.wf(),
            r.vertices@.len() == 0,
            r.indices@.len() == 0,
    {
        GeometryBuilder { vertices: Vec::new(), indices: Vec::new() }
    }

    /// Appends the filled interior of `rect`: four white vertices and two
    /// counter-clockwise triangles over them.
    pub fn fill_rectangle(&mut self, rect: &Rect)
        requires
            old(self).wf(),
            rect.wf(),
            old(self).vertices@.len() + 4 <= 0x1_0000,
        ensures
            final(self).wf(),
            final(self).vertices@ == old(self).vertices@ + spec_fill_vertices(*rect),
            final(self).indices@ == old(self).indices@ + spec_fill_indices(
                old(self).vertices@.len() as u16,
            ),
    {
        let base: u16 = self.vertices.len() as u16;
        let ctor = WithId;
        let v0 = ctor.new_vertex(rect.min_x, rect.min_y);
        let v1 = ctor.new_vertex(rect.max_x, rect.min_y);
        let v2 = ctor.new_vertex(rect.max_x, rect.max_y);
        let v3 = ctor.new_vertex(rect.min_x, rect.max_y);
        self.vertices.push(v0);
        self.vertices.push(v1);
        self.vertices.push(v2);
        self.vertices.push(v3);
        self.indices.push(base);
        self.indices.push(base + 1);
        self.indices.push(base + 2);
        self.indices.push(base);
        self.indices.push(base + 2);
        self.indices.push(base + 3);
        proof {
            assert(self.vertices@ =~= old(self).vertices@ + spec_fill_vertices(*rect));
            assert(self.indices@ =~= old(self).indices@ + spec_fill_indices(base));
        }
    }

    /// Appends the stroked outline of `rect`: eight black vertices (the
    /// corners pushed outward and pulled inward along their diagonal
    /// normals by half the stroke width) and eight counter-clockwise
    /// triangles forming a closed ring.
    pub fn stroke_rectangle(&mut self, rect: &Rect, stroke_width: i64)
        requires
            old(self).wf(),
            rect.wf(),
            old(self).vertices@.len() + 8 <= 0x1_0000,
            0 < stroke_width <= COORD_LIMIT,
            stroke_width % 2 == 0,
        ensures
            final(self).wf(),
            final(self).vertices@ == old(self).vertices@ + spec_stroke_vertices(
                *rect,
                (stroke_width / 2) as i64,
            ),
            final(self).indices@ == old(self).indices@ + spec_stroke_indices(
                old(self).vertices@.len() as u16,
            ),
    {
        let base: u16 = self.vertices.len() as u16;
        let half: i64 = stroke_width / 2;
        let ctor = WithId;
        let o0 = ctor.new_stroke_vertex(rect.min_x, rect.min_y, -1, -1, half);
        let i0 = ctor.new_stroke_vertex(rect.min_x, rect.min_y, 1, 1, half);
        let o1 = ctor.new_stroke_vertex(rect.max_x, rect.min_y, 1, -1, half);
        let i1 = ctor.new_stroke_vertex(rect.max_x, rect.min_y, -1, 1, half);
        let o2 = ctor.new_stroke_vertex(rect.max_x, rect.max_y, 1, 1, half);
        let i2 = ctor.new_stroke_vertex(rect.max_x, rect.max_y, -1, -1, half);
        let o3 = ctor.new_stroke_vertex(rect.min_x, rect.max_y, -1, 1, half);
        let i3 = ctor.new_stroke_vertex(rect.min_x, rect.max_y, 1, -1, half);
        self.vertices.push(o0);
        self.vertices.push(i0);
        self.vertices.push(o1);
        self.vertices.push(i1);
        self.vertices.push(o2);
        self.vertices.push(i2);
        self.vertices.push(o3);
        self.vertices.push(i3);
        self.indices.push(base);
        self.indices.push(base + 2);
        self.indices.push(base + 3);
        self.indices.push(base);
        self.indices.push(base + 3);
        self.indices.push(base + 1);
        self.indices.push(base + 2);
        self.indices.push(base + 4);
        self.indices.push(base + 5);
        self.indices.push(base + 2);
        self.indices.push(base + 5);
        self.indices.push(base + 3);
        self.indices.push(base + 4);
        self.indices.push(base + 6);
        self.indices.push(base + 7);
        self.indices.push(base + 4);
        self.indices.push(base + 7);
        self.indices.push(base + 5);
        self.indices.push(base + 6);
        self.indices.push(base);
        self.indices.push(base + 1);
        self.indices.push(base + 6);
        self.indices.push(base + 1);
        self.indices.push(base + 7);
        proof {
            assert(self.vertices@ =~= old(self).vertices@ + spec_stroke_vertices(
                *rect,
                (stroke_width / 2) as i64,
            ));
            assert(self.indices@ =~= old(self).indices@ + spec_stroke_indices(base));
        }
    }
}

/// A contiguous run of indices, `[start, end)`, drawn by one indexed draw
/// call.
#[derive(Clone, Copy, PartialEq, Eq, Structural, Debug)]
pub struct IndexRange {
    pub start: u32,
    pub end: u32,
}

impl IndexRange {
    pub open spec fn len(self) -> int {
        self.end - self.start
    }
}

/// A tessellated path: one combined vertex/index buffer pair with the fill
/// indices first and the stroke indices immediately after them.
pub struct TessellatedGeometry {
    pub vertices: Vec<GpuVertex>,
    pub indices: Vec<u16>,
    pub fill_range: IndexRange,
    pub stroke_range: IndexRange,
}

impl TessellatedGeometry {
    /// The fill range starts at zero, the stroke range starts exactly
    /// where the fill range ends, together they cover the whole index
    /// buffer with no gap or overlap, and every index is in bounds.
    pub open spec fn wf(self) -> bool {
        &&& self.fill_range.start == 0
        &&& self.fill_range.end == self.stroke_range.start
        &&& self.stroke_range.start <= self.stroke_range.end
        &&& self.stroke_range.end == self.indices@.len()
        &&& self.vertices@.len() <= 0x1_0000
        &&& forall|i: int|
            0 <= i < self.indices@.len() ==> (self.indices@[i] as int) < self.vertices@.len()
    }
}

/// Tessellates a rectangle path: fills it, then strokes its outline into
/// the same growing buffers, and records the two index sub-ranges. The
/// tolerances bound the flattening error of curved paths; an axis-aligned
/// rectangle is flattened exactly, so the output depends only on the
/// rectangle and the stroke width.
pub fn tessellate(rect: &Rect, fill_tolerance: i64, stroke_tolerance: i64, stroke_width: i64) -> (r:
    TessellatedGeometry)
    requires
        rect.wf(),
        fill_tolerance > 0,
        stroke_tolerance > 0,
        0 < stroke_width <= COORD_LIMIT,
        stroke_width % 2 == 0,
    ensures
        r.wf(),
        r.vertices@ == spec_fill_vertices(*rect) + spec_stroke_vertices(
            *rect,
            (stroke_width / 2) as i64,
        ),
        r.indices@ == spec_fill_indices(0) + spec_stroke_indices(4),
        r.fill_range == (IndexRange { start: 0, end: 6 }),
        r.stroke_range == (IndexRange { start: 6, end: 30 }),
{
    let mut builder = GeometryBuilder::new();
    builder.fill_rectangle(rect);
    let fill_end: u32 = builder.indices.len() as u32;
    builder.stroke_rectangle(rect, stroke_width);
    let stroke_end: u32 = builder.indices.len() as u32;
    proof {
        assert(builder.vertices@ =~= spec_fill_vertices(*rect) + spec_stroke_vertices(
            *rect,
            (stroke_width / 2) as i64,
        ));
        assert(builder.indices@ =~= spec_fill_indices(0) + spec_stroke_indices(4));
    }
    TessellatedGeometry {
        vertices: builder.vertices,
        indices: builder.indices,
        fill_range: IndexRange { start: 0, end: fill_end },
        stroke_range: IndexRange { start: fill_end, end: stroke_end },
    }
}

/// The triangle `(a, b, c)` winds counter-clockwise in the plane (with x
/// right and y up): its doubled signed area is positive.
pub open spec fn spec_triangle_ccw(a: GpuVertex, b: GpuVertex, c: GpuVertex) -> bool {
    (b.x - a.x) * (c.y - a.y) - (c.x - a.x) * (b.y - a.y) > 0
}

/// Triangle number `t` of an indexed mesh winds counter-clockwise.
pub open spec fn spec_mesh_triangle_ccw(
    vertices: Seq<GpuVertex>,
    indices: Seq<u16>,
    t: int,
) -> bool {
    spec_triangle_ccw(
        vertices[indices[3 * t] as int],
        vertices[indices[3 * t + 1] as int],
        vertices[indices[3 * t + 2] as int],
    )
}

/// Every triangle a tessellated rectangle is made of — the two fill
/// triangles and the eight stroke triangles — winds counter-clockwise,
/// so none of them is lost to back-face culling. The stroke must be
/// narrower than the rectangle, else its inner ring would fold over.
pub proof fn lemma_tessellation_counter_clockwise(
    rect: Rect,
    stroke_width: i64,
    g: TessellatedGeometry,
)
    requires
        rect.wf(),
        0 < stroke_width <= COORD_LIMIT,
        stroke_width % 2 == 0,
        stroke_width < rect.max_x - rect.min_x,
        stroke_width < rect.max_y - rect.min_y,
        g.vertices@ == spec_fill_vertices(rect) + spec_stroke_vertices(
            rect,
            (stroke_width / 2) as i64,
        ),
        g.indices@ == spec_fill_indices(0) + spec_stroke_indices(4),
    ensures
        g.indices@.len() == 3 * 10,
        forall|t: int| 0 <= t < 10 ==> spec_mesh_triangle_ccw(g.vertices@, g.indices@, t),
{
    let x0 = rect.min_x as int;
    let x1 = rect.max_x as int;
    let y0 = rect.min_y as int;
    let y1 = rect.max_y as int;
    let h = (stroke_width / 2) as int;
    assert(0 < h && 2 * h < x1 - x0 && 2 * h < y1 - y0);
    assert forall|t: int| 0 <= t < 10 implies spec_mesh_triangle_ccw(g.vertices@, g.indices@, t) by {
        if t == 0 {
            assert((x1 - x0) * (y1 - y0) - (x1 - x0) * 0 > 0) by (nonlinear_arith)
                requires x0 < x1, y0 < y1;
        } else if t == 1 {
            assert((x1 - x0) * (y1 - y0) - 0 * (y1 - y0) > 0) by (nonlinear_arith)
                requires x0 < x1, y0 < y1;
        } else if t == 2 {
            assert(((x1 + h) - (x0 - h)) * ((y0 + h) - (y0 - h)) - ((x1 - h) - (x0 - h)) * ((y0
                - h) - (y0 - h)) > 0) by (nonlinear_arith)
                requires 0 < h, x0 < x1;
        } else if t == 3 {
            assert(((x1 - h) - (x0 - h)) * ((y0 + h) - (y0 - h)) - ((x0 + h) - (x0 - h)) * ((y0
                + h) - (y0 - h)) > 0) by (nonlinear_arith)
                requires 0 < h, 2 * h < x1 - x0;
        } else if t == 4 {
            assert(((x1 + h) - (x1 + h)) * ((y1 - h) - (y0 - h)) - ((x1 - h) - (x1 + h)) * ((y1
                + h) - (y0 - h)) > 0) by (nonlinear_arith)
                requires 0 < h, y0 < y1;
        } else if t == 5 {
            assert(((x1 - h) - (x1 + h)) * ((y0 + h) - (y0 - h)) - ((x1 - h) - (x1 + h)) * ((y1
                - h) - (y0 - h)) > 0) by (nonlinear_arith)
                requires 0 < h, 2 * h < y1 - y0;
        } else if t == 6 {
            assert(((x0 - h) - (x1 + h)) * ((y1 - h) - (y1 + h)) - ((x0 + h) - (x1 + h)) * ((y1
                + h) - (y1 + h)) > 0) by (nonlinear_arith)
                requires 0 < h, x0 < x1;
        } else if t == 7 {
            assert(((x0 + h) - (x1 + h)) * ((y1 - h) - (y1 + h)) - ((x1 - h) - (x1 + h)) * ((y1
                - h) - (y1 + h)) > 0) by (nonlinear_arith)
                requires 0 < h, 2 * h < x1 - x0;
        } else if t == 8 {
            assert(((x0 - h) - (x0 - h)) * ((y0 + h) - (y1 + h)) - ((x0 + h) - (x0 - h)) * ((y0
                - h) - (y1 + h)) > 0) by (nonlinear_arith)
                requires 0 < h, y0 < y1;
        } else {
            assert(((x0 + h) - (x0 - h)) * ((y1 - h) - (y1 + h)) - ((x0 + h) - (x0 - h)) * ((y0
                + h) - (y1 + h)) > 0) by (nonlinear_arith)
                requires 0 < h, 2 * h < y1 - y0;
        }
    }
}


} // verus!
