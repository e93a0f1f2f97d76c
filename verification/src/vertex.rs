use vstd::prelude::*;
use crate::units::MICRO;

verus! {

/// Bytes of one 32-bit scalar in a GPU vertex buffer.
pub const SCALAR_BYTES: u32 = 4;

/// A vertex of the flat-shape and sprite pipelines: a position, texture
/// coordinates and an RGB color, all in micro units.
#[derive(Clone, Copy, PartialEq, Eq, Structural, Debug)]
pub struct Vertex {
    pub x: i64,
    pub y: i64,
    pub z: i64,
    pub u: i64,
    pub v: i64,
    pub r: i64,
    pub g: i64,
    pub b: i64,
}

/// The wire format of one vertex attribute: how many 32-bit scalars it
/// occupies.
#[derive(Clone, Copy, PartialEq, Eq, Structural, Debug)]
pub enum VertexFormat {
    Float32x2,
    Float32x3,
    Float32x4,
}

impl VertexFormat {
    /// Size of the attribute in bytes.
    pub open spec fn spec_size(self) -> int {
        match self {
            VertexFormat::Float32x2 => 8,
            VertexFormat::Float32x3 => 12,
            VertexFormat::Float32x4 => 16,
        }
    }

    pub fn size(&self) -> (r: u32)
        ensures
            r == self.spec_size(),
    {
        match self {
            VertexFormat::Float32x2 => 2 * SCALAR_BYTES,
            VertexFormat::Float32x3 => 3 * SCALAR_BYTES,
            VertexFormat::Float32x4 => 4 * SCALAR_BYTES,
        }
    }
}

/// One attribute of a vertex buffer layout: where it starts inside a
/// vertex and which shader location reads it.
#[derive(Clone, Copy, PartialEq, Eq, Structural, Debug)]
pub struct VertexAttribute {
    pub offset: u32,
    pub shader_location: u32,
    pub format: VertexFormat,
}

/// The memory layout of one vertex buffer: the distance between
/// consecutive vertices and the attributes packed inside each.
#[derive(PartialEq, Eq, Debug)]
pub struct VertexBufferLayout {
    pub array_stride: u32,
    pub attributes: Vec<VertexAttribute>,
}

impl VertexBufferLayout {
    /// Attributes are packed back to back: the first starts at zero, each
    /// next one starts where the previous ends, the last ends at or before
    /// the stride, and shader locations count up from zero. Packing rules
    /// out any overlap.
    pub open spec fn wf(self) -> bool {
        &&& self.attributes@.len() > 0 ==> self.attributes@[0].offset == 0
        &&& forall|i: int|
            0 <= i < self.attributes@.len() ==> #[trigger] self.attributes@[i].shader_location
                == i
        &&& forall|i: int|
            0 < i < self.attributes@.len() ==> #[trigger] self.attributes@[i].offset
                == self.attributes@[i - 1].offset + self.attributes@[i - 1].format.spec_size()
        &&& forall|i: int|
            0 <= i < self.attributes@.len() ==> #[trigger] self.attributes@[i].offset
                + self.attributes@[i].format.spec_size() <= self.array_stride
    }
}

/// The three packed attributes of the flat-shape and sprite vertex
/// layout.
pub open spec fn spec_vertex_attributes() -> Seq<VertexAttribute> {
    seq![
        VertexAttribute { offset: 0, shader_location: 0, format: VertexFormat::Float32x3 },
        VertexAttribute { offset: 12, shader_location: 1, format: VertexFormat::Float32x2 },
        VertexAttribute { offset: 20, shader_location: 2, format: VertexFormat::Float32x3 },
    ]
}

/// The two packed attributes of the tessellated-geometry vertex layout.
pub open spec fn spec_geometry_attributes() -> Seq<VertexAttribute> {
    seq![
        VertexAttribute { offset: 0, shader_location: 0, format: VertexFormat::Float32x3 },
        VertexAttribute { offset: 12, shader_location: 1, format: VertexFormat::Float32x4 },
    ]
}

impl Vertex {
    /// The layout of the flat-shape and sprite vertex buffers: a
    /// three-scalar position, two texture coordinates and a three-scalar
    /// color, packed into a 32-byte vertex.
    pub fn desc() -> (r: VertexBufferLayout)
        ensures
            r.wf(),
            r.array_stride == 32,
            r.attributes@.len() == 3,
            r.attributes@[0] == (VertexAttribute {
                offset: 0,
                shader_location: 0,
                format: VertexFormat::Float32x3,
            }),
            r.attributes@[1] == (VertexAttribute {
                offset: 12,
                shader_location: 1,
                format: VertexFormat::Float32x2,
            }),
            r.attributes@[2] == (VertexAttribute {
                offset: 20,
                shader_location: 2,
                format: VertexFormat::Float32x3,
            }),
            r.attributes@ == spec_vertex_attributes(),
    {
        let position = VertexAttribute {
            offset: 0,
            shader_location: 0,
            format: VertexFormat::Float32x3,
        };
        let tex_coords = VertexAttribute {
            offset: position.format.size(),
            shader_location: 1,
            format: VertexFormat::Float32x2,
        };
        let color = VertexAttribute {
            offset: tex_coords.offset + tex_coords.format.size(),
            shader_location: 2,
            format: VertexFormat::Float32x3,
        };
        let mut attributes: Vec<VertexAttribute> = Vec::new();
        attributes.push(position);
        attributes.push(tex_coords);
        attributes.push(color);
        let stride = color.offset + color.format.size();
        proof {
            assert(attributes@ =~= spec_vertex_attributes());
        }
        VertexBufferLayout { array_stride: stride, attributes }
    }
}

/// The layout of the tessellated-geometry vertex buffer: a three-scalar
/// position and a four-scalar color, packed into a 28-byte vertex.
pub fn geometry_vertex_desc() -> (r: VertexBufferLayout)
    ensures
        r.wf(),
        r.array_stride == 28,
        r.attributes@.len() == 2,
        r.attributes@[0] == (VertexAttribute {
            offset: 0,
            shader_location: 0,
            format: VertexFormat::Float32x3,
        }),
        r.attributes@[1] == (VertexAttribute {
            offset: 12,
            shader_location: 1,
            format: VertexFormat::Float32x4,
        }),
        r.attributes@ == spec_geometry_attributes(),
{
    let position = VertexAttribute {
        offset: 0,
        shader_location: 0,
        format: VertexFormat::Float32x3,
    };
    let color = VertexAttribute {
        offset: position.format.size(),
        shader_location: 1,
        format: VertexFormat::Float32x4,
    };
    let mut attributes: Vec<VertexAttribute> = Vec::new();
    attributes.push(position);
    attributes.push(color);
    let stride = color.offset + color.format.size();
    proof {
        assert(attributes@ =~= spec_geometry_attributes());
    }
    VertexBufferLayout { array_stride: stride, attributes }
}

/// A mesh fixed at startup: vertices plus 16-bit triangle-list indices.
pub struct StaticMesh {
    pub vertices: Vec<Vertex>,
    pub indices: Vec<u16>,
}

impl StaticMesh {
    /// Every index points at an existing vertex.
    pub open spec fn wf(self) -> bool {
        &&& self.vertices@.len() <= 0x1_0000
        &&& forall|i: int|
            0 <= i < self.indices@.len() ==> (self.indices@[i] as int) < self.vertices@.len()
    }
}

/// The five vertices of the built-in pentagon, purple, with no texture
/// area.
pub open spec fn spec_shape_vertices() -> Seq<Vertex> {
    seq![
        Vertex { x: -8682410i64, y: 49240386, z: 0, u: 0, v: 0, r: 500000, g: 0, b: 500000 },
        Vertex { x: -49513406i64, y: 6958647, z: 0, u: 0, v: 0, r: 500000, g: 0, b: 500000 },
        Vertex { x: -21918549i64, y: -44939706i64, z: 0, u: 0, v: 0, r: 500000, g: 0, b: 500000 },
        Vertex { x: 35966998, y: -34732910i64, z: 0, u: 0, v: 0, r: 500000, g: 0, b: 500000 },
        Vertex { x: 44147372, y: 23473590, z: 0, u: 0, v: 0, r: 500000, g: 0, b: 500000 },
    ]
}

/// The pentagon's index list. Ten entries: three triangles and one
/// trailing index that pads the list to an even length; a triangle-list
/// draw consumes the indices in groups of three and ignores the leftover.
pub open spec fn spec_shape_indices() -> Seq<u16> {
    seq![0u16, 1, 4, 1, 2, 4, 2, 3, 4, 0]
}

/// The four corners of the built-in sprite quad, white, with the full
/// texture mapped across it.
pub open spec fn spec_sprite_vertices() -> Seq<Vertex> {
    seq![
        Vertex { x: -25000000i64, y: 25000000, z: 0, u: 0, v: 0, r: MICRO, g: MICRO, b: MICRO },
        Vertex { x: -25000000i64, y: -75000000i64, z: 0, u: 0, v: MICRO, r: MICRO, g: MICRO, b: MICRO },
        Vertex { x: 75000000, y: 25000000, z: 0, u: MICRO, v: 0, r: MICRO, g: MICRO, b: MICRO },
        Vertex {
            x: 75000000,
            y: -75000000i64,
            z: 0,
            u: MICRO,
            v: MICRO,
            r: MICRO,
            g: MICRO,
            b: MICRO,
        },
    ]
}

/// The sprite quad's two triangles.
pub open spec fn spec_sprite_indices() -> Seq<u16> {
    seq![0u16, 1, 2, 2, 1, 3]
}

/// Builds the built-in pentagon mesh: five vertices, ten indices.
pub fn shape_mesh() -> (m: StaticMesh)
    ensures
        m.wf(),
        m.vertices@ == spec_shape_vertices(),
        m.indices@ == spec_shape_indices(),
{
    let mut vertices: Vec<Vertex> = Vec::new();
    vertices.push(Vertex { x: -8682410, y: 49240386, z: 0, u: 0, v: 0, r: 500000, g: 0, b: 500000 });
    vertices.push(
        Vertex { x: -49513406, y: 6958647, z: 0, u: 0, v: 0, r: 500000, g: 0, b: 500000 },
    );
    vertices.push(
        Vertex { x: -21918549, y: -44939706, z: 0, u: 0, v: 0, r: 500000, g: 0, b: 500000 },
    );
    vertices.push(
        Vertex { x: 35966998, y: -34732910, z: 0, u: 0, v: 0, r: 500000, g: 0, b: 500000 },
    );
    vertices.push(
        Vertex { x: 44147372, y: 23473590, z: 0, u: 0, v: 0, r: 500000, g: 0, b: 500000 },
    );
    let mut indices: Vec<u16> = Vec::new();
    indices.push(0);
    indices.push(1);
    indices.push(4);
    indices.push(1);
    indices.push(2);
    indices.push(4);
    indices.push(2);
    indices.push(3);
    indices.push(4);
    indices.push(0);
    proof {
        assert(vertices@ =~= spec_shape_vertices());
        assert(indices@ =~= spec_shape_indices());
    }
    StaticMesh { vertices, indices }
}

/// Builds the built-in sprite quad mesh: four vertices, six indices.
pub fn sprite_mesh() -> (m: StaticMesh)
    ensures
        m.wf(),
        m.vertices@ == spec_sprite_vertices(),
        m.indices@ == spec_sprite_indices(),
{
    let mut vertices: Vec<Vertex> = Vec::new();
    vertices.push(
        Vertex { x: -25000000, y: 25000000, z: 0, u: 0, v: 0, r: MICRO, g: MICRO, b: MICRO },
    );
    vertices.push(
        Vertex { x: -25000000, y: -75000000, z: 0, u: 0, v: MICRO, r: MICRO, g: MICRO, b: MICRO },
    );
    vertices.push(
        Vertex { x: 75000000, y: 25000000, z: 0, u: MICRO, v: 0, r: MICRO, g: MICRO, b: MICRO },
    );
    vertices.push(
        Vertex { x: 75000000, y: -75000000, z: 0, u: MICRO, v: MICRO, r: MICRO, g: MICRO, b: MICRO },
    );
    let mut indices: Vec<u16> = Vec::new();
    indices.push(0);
    indices.push(1);
    indices.push(2);
    indices.push(2);
    indices.push(1);
    indices.push(3);
    proof {
        assert(vertices@ =~= spec_sprite_vertices());
        assert(indices@ =~= spec_sprite_indices());
    }
    StaticMesh { vertices, indices }
}

} // verus!
