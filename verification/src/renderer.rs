use vstd::prelude::*;
use std::sync::Arc;
use crate::camera::{Camera, ViewProjectionUniform};
use crate::context::{Bananas, SurfaceSize, TextureFormat};
use crate::geometry::{
    spec_fill_indices, spec_fill_vertices, spec_stroke_indices, spec_stroke_vertices, tessellate,
    IndexRange, Rect, TessellatedGeometry,
};
use crate::texture::Texture;
use crate::units::MICRO;
use crate::vertex::{
    geometry_vertex_desc, shape_mesh, spec_geometry_attributes, spec_shape_indices,
    spec_shape_vertices, spec_sprite_indices, spec_sprite_vertices, spec_vertex_attributes,
    sprite_mesh, StaticMesh, Vertex, VertexBufferLayout,
};

verus! {

/// An RGBA color with channels in micro units: `MICRO` is full intensity.
#[derive(Clone, Copy, PartialEq, Eq, Structural, Debug)]
pub struct Color {
    pub r: i64,
    pub g: i64,
    pub b: i64,
    pub a: i64,
}

impl Color {
    pub open spec fn wf(self) -> bool {
        &&& 0 <= self.r <= MICRO
        &&& 0 <= self.g <= MICRO
        &&& 0 <= self.b <= MICRO
        &&& 0 <= self.a <= MICRO
    }
}

/// How one blend component combines a fragment with the target: replace
/// it outright, or blend by source alpha.
#[derive(Clone, Copy, PartialEq, Eq, Structural, Debug)]
pub enum BlendComponent {
    Replace,
    AlphaOver,
}

/// The blend configuration of a pipeline's color target.
#[derive(Clone, Copy, PartialEq, Eq, Structural, Debug)]
pub struct BlendState {
    pub color: BlendComponent,
    pub alpha: BlendComponent,
}

/// The depth comparison a pipeline performs per fragment.
#[derive(Clone, Copy, PartialEq, Eq, Structural, Debug)]
pub enum CompareFunction {
    Greater,
    Less,
    Always,
}

/// The depth configuration shared by every pipeline: a 32-bit float depth
/// buffer written through, with greater depth values drawing on top.
#[derive(Clone, Copy, PartialEq, Eq, Structural, Debug)]
pub struct DepthStencilState {
    pub format: TextureFormat,
    pub depth_write_enabled: bool,
    pub depth_compare: CompareFunction,
}

/// The fixed primitive configuration: triangle lists, counter-clockwise
/// front faces, back faces culled.
#[derive(Clone, Copy, PartialEq, Eq, Structural, Debug)]
pub struct PrimitiveState {
    pub triangle_list: bool,
    pub front_face_ccw: bool,
    pub cull_back: bool,
}

/// The bind-group layout shapes a pipeline declares.
#[derive(Clone, Copy, PartialEq, Eq, Structural, Debug)]
pub enum BindGroupLayoutKind {
    /// One binding: the view-projection uniform buffer.
    Uniforms,
    /// Two bindings: a sampled image and its sampler.
    SpriteMaterial,
}

/// One pipeline's complete configuration: what the GPU pipeline object is
/// built from.
pub struct RenderPipeline {
    pub surface_format: TextureFormat,
    pub blend: BlendState,
    pub depth: DepthStencilState,
    pub primitive: PrimitiveState,
    pub vertex_layout: VertexBufferLayout,
    pub bind_group_layouts: Vec<BindGroupLayoutKind>,
}

/// The depth state every pipeline here uses.
pub open spec fn spec_depth_state() -> DepthStencilState {
    DepthStencilState {
        format: TextureFormat::Depth32Float,
        depth_write_enabled: true,
        depth_compare: CompareFunction::Greater,
    }
}

/// The primitive state every pipeline here uses.
pub open spec fn spec_primitive_state() -> PrimitiveState {
    PrimitiveState { triangle_list: true, front_face_ccw: true, cull_back: true }
}

/// What all three pipelines share: the surface's format, the configured
/// blend mode, the common depth test and primitive state.
pub open spec fn spec_pipeline_common(
    p: RenderPipeline,
    format: TextureFormat,
    blend: BlendState,
) -> bool {
    &&& p.surface_format == format
    &&& p.blend == blend
    &&& p.depth == spec_depth_state()
    &&& p.primitive == spec_primitive_state()
    &&& p.vertex_layout.wf()
}

/// The flat-shape pipeline: the shape vertex layout, no bind groups.
pub open spec fn spec_shape_pipeline_wf(
    p: RenderPipeline,
    format: TextureFormat,
    blend: BlendState,
) -> bool {
    &&& spec_pipeline_common(p, format, blend)
    &&& p.vertex_layout.array_stride == 32
    &&& p.vertex_layout.attributes@ == spec_vertex_attributes()
    &&& p.bind_group_layouts@ == Seq::<BindGroupLayoutKind>::empty()
}

/// The sprite pipeline: the shared vertex layout, the uniform layout and
/// one material layout.
pub open spec fn spec_sprite_pipeline_wf(
    p: RenderPipeline,
    format: TextureFormat,
    blend: BlendState,
) -> bool {
    &&& spec_pipeline_common(p, format, blend)
    &&& p.vertex_layout.array_stride == 32
    &&& p.vertex_layout.attributes@ == spec_vertex_attributes()
    &&& p.bind_group_layouts@ == seq![
        BindGroupLayoutKind::Uniforms,
        BindGroupLayoutKind::SpriteMaterial,
    ]
}

/// The tessellated-geometry pipeline: its own vertex layout and the
/// uniform layout.
pub open spec fn spec_geometry_pipeline_wf(
    p: RenderPipeline,
    format: TextureFormat,
    blend: BlendState,
) -> bool {
    &&& spec_pipeline_common(p, format, blend)
    &&& p.vertex_layout.array_stride == 28
    &&& p.vertex_layout.attributes@ == spec_geometry_attributes()
    &&& p.bind_group_layouts@ == seq![BindGroupLayoutKind::Uniforms]
}

/// A reusable binding of one texture to the sprite pipeline's material
/// layout. Several bind groups may share one texture; the pixel data is
/// never copied and never mutated.
pub struct SpriteBindGroup {
    pub texture: Arc<Texture>,
}

impl SpriteBindGroup {
    pub open spec fn wf(self) -> bool {
        self.texture.wf()
    }
}

/// The drawable kinds, listed in their fixed draw order.
#[derive(Clone, Copy, PartialEq, Eq, Structural, Debug)]
pub enum DrawKind {
    FlatShape,
    Sprite,
    TessellatedFill,
    TessellatedStroke,
}

/// One indexed draw call: which pipeline kind it runs, which index range
/// it consumes, and which bind groups it needs.
#[derive(Clone, Copy, PartialEq, Eq, Structural, Debug)]
pub struct DrawCall {
    pub kind: DrawKind,
    pub indices: IndexRange,
    pub uses_uniform: bool,
    pub has_material: bool,
}

/// What the render pass clears before the draws: the configured clear
/// color, and depth to zero, the farthest value under a greater-than
/// comparison.
#[derive(Clone, Copy, PartialEq, Eq, Structural, Debug)]
pub struct PassClearOps {
    pub clear_color: Color,
    pub depth_clear_micro: i64,
}

/// One recorded GPU command of a frame, in recording order. A single
/// queue executes one submission in this order, which is what makes the
/// uniform copy visible to the draws after it.
#[derive(Clone, Copy, PartialEq, Eq, Structural, Debug)]
pub enum RenderCommand {
    /// Copy a freshly built view-projection uniform into the GPU-resident
    /// uniform buffer.
    CopyUniform(ViewProjectionUniform),
    /// Open the single render pass, clearing color and depth.
    BeginPass(PassClearOps),
    /// One indexed draw inside the pass.
    Draw(DrawCall),
    /// Close the render pass.
    EndPass,
    /// Submit the recorded commands to the queue.
    Submit,
    /// Present the acquired frame.
    Present,
}

/// Where a frame stands in its lifecycle.
#[derive(Clone, Copy, PartialEq, Eq, Structural, Debug)]
pub enum FramePhase {
    Idle,
    FrameAcquired,
    PassOpen,
    PassClosed,
    Submitted,
    Presented,
}

/// The command recording of one frame: its phase and the commands
/// recorded so far.
pub struct FrameScript {
    pub phase: FramePhase,
    pub commands: Vec<RenderCommand>,
}

/// Somewhere in `cmds` a uniform copy is recorded before position `j`.
pub open spec fn spec_copy_before(cmds: Seq<RenderCommand>, j: int) -> bool {
    exists|i: int| 0 <= i < j && cmds[i] is CopyUniform
}

/// Every draw that reads the view-projection uniform is recorded after a
/// copy into the uniform buffer: within one submission the queue applies
/// the copy first.
pub open spec fn spec_uniform_written_before_draws(cmds: Seq<RenderCommand>) -> bool {
    forall|j: int|
        0 <= j < cmds.len() && ((#[trigger] cmds[j]) matches RenderCommand::Draw(d)
            && d.uses_uniform) ==> spec_copy_before(cmds, j)
}

impl FrameScript {
    /// A fresh recording for one frame: nothing recorded, no frame
    /// acquired yet.
    pub fn new() -> (r: FrameScript)
        ensures
            r.phase == FramePhase::Idle,
            r.commands@.len() == 0,
    {
        FrameScript { phase: FramePhase::Idle, commands: Vec::new() }
    }

    /// The presentation layer handed over a frame target.
    pub fn acquire_succeeded(&mut self)
        requires
            old(self).phase == FramePhase::Idle,
        ensures
            final(self).phase == FramePhase::FrameAcquired,
            final(self).commands@ == old(self).commands@,
    {
        self.phase = FramePhase::FrameAcquired;
    }

    /// Acquiring failed: the frame is skipped and the recording stays
    /// idle; nothing was recorded.
    pub fn acquire_failed(&mut self)
        requires
            old(self).phase == FramePhase::Idle,
        ensures
            final(self).phase == FramePhase::Idle,
            final(self).commands@ == old(self).commands@,
    {
    }

    /// Records the per-frame uniform copy, before the pass opens.
    pub fn copy_uniform(&mut self, uniform: ViewProjectionUniform)
        requires
            old(self).phase == FramePhase::FrameAcquired,
        ensures
            final(self).phase == FramePhase::FrameAcquired,
            final(self).commands@ == old(self).commands@.push(
                RenderCommand::CopyUniform(uniform),
            ),
    {
        self.commands.push(RenderCommand::CopyUniform(uniform));
    }
}

/// The renderer: every pipeline object, the static and tessellated
/// meshes, the clear color, and the size its depth buffer was last
/// allocated at.
pub struct Renderer {
    pub clear_color: Color,
    pub blend_state: BlendState,
    pub surface_format: TextureFormat,
    pub shape_mesh: StaticMesh,
    pub sprite_mesh: StaticMesh,
    pub geometry: TessellatedGeometry,
    pub shape_pipeline: RenderPipeline,
    pub sprite_pipeline: RenderPipeline,
    pub geometry_pipeline: RenderPipeline,
    pub depth_size: Option<SurfaceSize>,
}

/// The rectangle the built-in tessellated geometry is made from: five
/// hundred world units on each side, anchored at the origin.
pub open spec fn spec_geometry_rect() -> Rect {
    Rect { min_x: 0, min_y: 0, max_x: (500 * MICRO) as i64, max_y: (500 * MICRO) as i64 }
}

/// The stroke width of the built-in geometry's outline: one world unit.
pub open spec fn spec_geometry_stroke_width() -> i64 {
    MICRO
}

/// The four draw calls of one frame, in their fixed order: the flat
/// shape, the sprite quad, then the tessellated fill and stroke ranges.
pub open spec fn spec_draw_calls(r: Renderer) -> Seq<DrawCall> {
    seq![
        DrawCall {
            kind: DrawKind::FlatShape,
            indices: IndexRange { start: 0, end: r.shape_mesh.indices@.len() as u32 },
            uses_uniform: false,
            has_material: false,
        },
        DrawCall {
            kind: DrawKind::Sprite,
            indices: IndexRange { start: 0, end: r.sprite_mesh.indices@.len() as u32 },
            uses_uniform: true,
            has_material: true,
        },
        DrawCall {
            kind: DrawKind::TessellatedFill,
            indices: r.geometry.fill_range,
            uses_uniform: true,
            has_material: false,
        },
        DrawCall {
            kind: DrawKind::TessellatedStroke,
            indices: r.geometry.stroke_range,
            uses_uniform: true,
            has_material: false,
        },
    ]
}

/// Those four draws as recorded commands.
pub open spec fn spec_draw_commands(r: Renderer) -> Seq<RenderCommand> {
    seq![
        RenderCommand::Draw(spec_draw_calls(r)[0]),
        RenderCommand::Draw(spec_draw_calls(r)[1]),
        RenderCommand::Draw(spec_draw_calls(r)[2]),
        RenderCommand::Draw(spec_draw_calls(r)[3]),
    ]
}

impl Renderer {
    /// Meshes hold exactly the built-in data, the tessellated geometry is
    /// internally consistent, and each pipeline is configured for its
    /// vertex layout, the shared depth test, and the surface format.
    pub open spec fn wf(self) -> bool {
        &&& self.clear_color.wf()
        &&& self.shape_mesh.wf()
        &&& self.shape_mesh.vertices@ == spec_shape_vertices()
        &&& self.shape_mesh.indices@ == spec_shape_indices()
        &&& self.sprite_mesh.wf()
        &&& self.sprite_mesh.vertices@ == spec_sprite_vertices()
        &&& self.sprite_mesh.indices@ == spec_sprite_indices()
        &&& self.geometry.wf()
        &&& spec_shape_pipeline_wf(self.shape_pipeline, self.surface_format, self.blend_state)
        &&& spec_sprite_pipeline_wf(self.sprite_pipeline, self.surface_format, self.blend_state)
        &&& spec_geometry_pipeline_wf(
            self.geometry_pipeline,
            self.surface_format,
            self.blend_state,
        )
    }

    /// The depth buffer exists and was allocated at the surface's current
    /// size; required before a pass may open.
    pub open spec fn depth_matches(self, bananas: Bananas) -> bool {
        self.depth_size == Some(bananas.size)
    }

    /// Builds the renderer: the three pipeline configurations, the
    /// built-in shape and sprite meshes, and the tessellated geometry
    /// with its fill-then-stroke index ranges. The depth buffer is not
    /// yet allocated; `resize` must run before the first frame.
    pub fn new(surface_format: TextureFormat, clear_color: Color, blend_state: BlendState) -> (r:
        Renderer)
        requires
            clear_color.wf(),
        ensures
            r.wf(),
            r.clear_color == clear_color,
            r.blend_state == blend_state,
            r.surface_format == surface_format,
            r.depth_size is None,
            r.geometry.vertices@ == spec_fill_vertices(spec_geometry_rect())
                + spec_stroke_vertices(
                spec_geometry_rect(),
                (spec_geometry_stroke_width() / 2) as i64,
            ),
            r.geometry.indices@ == spec_fill_indices(0) + spec_stroke_indices(4),
            r.geometry.vertices@.len() == 12,
            r.geometry.fill_range == (IndexRange { start: 0, end: 6 }),
            r.geometry.stroke_range == (IndexRange { start: 6, end: 30 }),
    {
        let depth = DepthStencilState {
            format: TextureFormat::Depth32Float,
            depth_write_enabled: true,
            depth_compare: CompareFunction::Greater,
        };
        let primitive = PrimitiveState { triangle_list: true, front_face_ccw: true, cull_back: true };

        let shape_layouts: Vec<BindGroupLayoutKind> = Vec::new();
        let shape_pipeline = RenderPipeline {
            surface_format,
            blend: blend_state,
            depth,
            primitive,
            vertex_layout: Vertex::desc(),
            bind_group_layouts: shape_layouts,
        };

        let mut sprite_layouts: Vec<BindGroupLayoutKind> = Vec::new();
        sprite_layouts.push(BindGroupLayoutKind::Uniforms);
        sprite_layouts.push(BindGroupLayoutKind::SpriteMaterial);
        let sprite_pipeline = RenderPipeline {
            surface_format,
            blend: blend_state,
            depth,
            primitive,
            vertex_layout: Vertex::desc(),
            bind_group_layouts: sprite_layouts,
        };

        let mut geometry_layouts: Vec<BindGroupLayoutKind> = Vec::new();
        geometry_layouts.push(BindGroupLayoutKind::Uniforms);
        let geometry_pipeline = RenderPipeline {
            surface_format,
            blend: blend_state,
            depth,
            primitive,
            vertex_layout: geometry_vertex_desc(),
            bind_group_layouts: geometry_layouts,
        };

        let rect = Rect { min_x: 0, min_y: 0, max_x: 500 * MICRO, max_y: 500 * MICRO };
        let tolerance: i64 = MICRO / 50;
        let geometry = tessellate(&rect, tolerance, tolerance, MICRO);

        proof {
            assert(shape_pipeline.bind_group_layouts@ =~= Seq::<BindGroupLayoutKind>::empty());
            assert(sprite_pipeline.bind_group_layouts@ =~= seq![
                BindGroupLayoutKind::Uniforms,
                BindGroupLayoutKind::SpriteMaterial,
            ]);
            assert(geometry_pipeline.bind_group_layouts@ =~= seq![BindGroupLayoutKind::Uniforms]);
        }

        Renderer {
            clear_color,
            blend_state,
            surface_format,
            shape_mesh: shape_mesh(),
            sprite_mesh: sprite_mesh(),
            geometry,
            shape_pipeline,
            sprite_pipeline,
            geometry_pipeline,
            depth_size: None,
        }
    }

    /// Reallocates the depth buffer to the surface's current size. Must
    /// be called after every context resize, before the next draw.
    pub fn resize(&mut self, bananas: &Bananas)
        requires
            old(self).wf(),
            bananas.wf(),
        ensures
            final(self).wf(),
            final(self).depth_size == Some(bananas.size),
            final(self).depth_matches(*bananas),
            final(self).clear_color == old(self).clear_color,
            final(self).blend_state == old(self).blend_state,
            final(self).surface_format == old(self).surface_format,
            final(self).shape_mesh.vertices@ == old(self).shape_mesh.vertices@,
            final(self).shape_mesh.indices@ == old(self).shape_mesh.indices@,
            final(self).sprite_mesh.vertices@ == old(self).sprite_mesh.vertices@,
            final(self).sprite_mesh.indices@ == old(self).sprite_mesh.indices@,
            final(self).geometry.vertices@ == old(self).geometry.vertices@,
            final(self).geometry.indices@ == old(self).geometry.indices@,
            final(self).geometry.fill_range == old(self).geometry.fill_range,
            final(self).geometry.stroke_range == old(self).geometry.stroke_range,
    {
        self.depth_size = Some(bananas.size);
    }

    /// Opens the single render pass of the frame: color cleared to the
    /// configured clear color, depth cleared to zero (the farthest value
    /// under the greater-than comparison). The depth buffer must match
    /// the surface being drawn to.
    pub fn begin(&self, frame: &mut FrameScript, bananas: &Bananas)
        requires
            self.wf(),
            bananas.wf(),
            self.depth_matches(*bananas),
            old(frame).phase == FramePhase::FrameAcquired,
        ensures
            final(frame).phase == FramePhase::PassOpen,
            final(frame).commands@ == old(frame).commands@.push(
                RenderCommand::BeginPass(
                    PassClearOps { clear_color: self.clear_color, depth_clear_micro: 0 },
                ),
            ),
    {
        frame.commands.push(
            RenderCommand::BeginPass(
                PassClearOps { clear_color: self.clear_color, depth_clear_micro: 0 },
            ),
        );
        frame.phase = FramePhase::PassOpen;
    }

    /// Records the fixed draw sequence into the open pass: the flat
    /// shape, the sprite quad with its material binding, then the
    /// tessellated fill and stroke ranges — four indexed draws, in that
    /// order, each over its own index range.
    pub fn render(
        &self,
        frame: &mut FrameScript,
        shape_bind_group: &SpriteBindGroup,
        sprite_bind_group: &SpriteBindGroup,
    )
        requires
            self.wf(),
            shape_bind_group.wf(),
            sprite_bind_group.wf(),
            old(frame).phase == FramePhase::PassOpen,
            spec_copy_before(old(frame).commands@, old(frame).commands@.len() as int),
        ensures
            final(frame).phase == FramePhase::PassOpen,
            final(frame).commands@ == old(frame).commands@ + spec_draw_commands(*self),
    {
        let shape_count: u32 = self.shape_mesh.indices.len() as u32;
        let sprite_count: u32 = self.sprite_mesh.indices.len() as u32;
        frame.commands.push(
            RenderCommand::Draw(
                DrawCall {
                    kind: DrawKind::FlatShape,
                    indices: IndexRange { start: 0, end: shape_count },
                    uses_uniform: false,
                    has_material: false,
                },
            ),
        );
        frame.commands.push(
            RenderCommand::Draw(
                DrawCall {
                    kind: DrawKind::Sprite,
                    indices: IndexRange { start: 0, end: sprite_count },
                    uses_uniform: true,
                    has_material: true,
                },
            ),
        );
        frame.commands.push(
            RenderCommand::Draw(
                DrawCall {
                    kind: DrawKind::TessellatedFill,
                    indices: self.geometry.fill_range,
                    uses_uniform: true,
                    has_material: false,
                },
            ),
        );
        frame.commands.push(
            RenderCommand::Draw(
                DrawCall {
                    kind: DrawKind::TessellatedStroke,
                    indices: self.geometry.stroke_range,
                    uses_uniform: true,
                    has_material: false,
                },
            ),
        );
        proof {
            assert(frame.commands@ =~= old(frame).commands@ + spec_draw_commands(*self));
        }
    }

    /// Builds a material binding of one texture for the sprite pipeline.
    /// The bind group shares the texture; no pixel data is copied.
    pub fn create_sprite_bind_group(&self, texture: Arc<Texture>) -> (r: SpriteBindGroup)
        requires
            self.wf(),
            texture.wf(),
        ensures
            r.wf(),
            r.texture == texture,
    {
        SpriteBindGroup { texture }
    }
}

/// Closes the pass, submits the recording, presents the frame: the tail
/// of every successful frame.
pub fn finish_frame(frame: &mut FrameScript)
    requires
        old(frame).phase == FramePhase::PassOpen,
    ensures
        final(frame).phase == FramePhase::Presented,
        final(frame).commands@ == old(frame).commands@ + seq![
            RenderCommand::EndPass,
            RenderCommand::Submit,
            RenderCommand::Present,
        ],
{
    frame.commands.push(RenderCommand::EndPass);
    frame.phase = FramePhase::PassClosed;
    frame.commands.push(RenderCommand::Submit);
    frame.phase = FramePhase::Submitted;
    frame.commands.push(RenderCommand::Present);
    frame.phase = FramePhase::Presented;
    proof {
        assert(frame.commands@ =~= old(frame).commands@ + seq![
            RenderCommand::EndPass,
            RenderCommand::Submit,
            RenderCommand::Present,
        ]);
    }
}

/// Records one complete frame after its target was acquired: the uniform
/// copy from the camera's current state, the cleared pass, the four
/// draws, then close, submit, present. The copy is recorded before the
/// pass, so the single queue applies it before every draw that reads it.
pub fn record_frame(
    renderer: &Renderer,
    camera: &Camera,
    bananas: &Bananas,
    frame: &mut FrameScript,
    shape_bind_group: &SpriteBindGroup,
    sprite_bind_group: &SpriteBindGroup,
)
    requires
        renderer.wf(),
        camera.wf(),
        bananas.wf(),
        renderer.depth_matches(*bananas),
        shape_bind_group.wf(),
        sprite_bind_group.wf(),
        old(frame).phase == FramePhase::FrameAcquired,
        old(frame).commands@.len() == 0,
    ensures
        final(frame).phase == FramePhase::Presented,
        final(frame).commands@ == seq![
            RenderCommand::CopyUniform(
                ViewProjectionUniform {
                    view: crate::camera::spec_view_of(camera.spec_eye()),
                    projection: camera.spec_projection(),
                },
            ),
            RenderCommand::BeginPass(
                PassClearOps { clear_color: renderer.clear_color, depth_clear_micro: 0 },
            ),
        ] + spec_draw_commands(*renderer) + seq![
            RenderCommand::EndPass,
            RenderCommand::Submit,
            RenderCommand::Present,
        ],
        spec_uniform_written_before_draws(final(frame).commands@),
{
    let uniform = camera.view_projection();
    frame.copy_uniform(uniform);
    renderer.begin(frame, bananas);
    proof {
        assert(frame.commands@[0] is CopyUniform);
        assert(spec_copy_before(frame.commands@, frame.commands@.len() as int));
    }
    renderer.render(frame, shape_bind_group, sprite_bind_group);
    finish_frame(frame);
    proof {
        let cmds = frame.commands@;
        assert(cmds =~= seq![
            RenderCommand::CopyUniform(uniform),
            RenderCommand::BeginPass(
                PassClearOps { clear_color: renderer.clear_color, depth_clear_micro: 0 },
            ),
        ] + spec_draw_commands(*renderer) + seq![
            RenderCommand::EndPass,
            RenderCommand::Submit,
            RenderCommand::Present,
        ]);
        assert(cmds[0] is CopyUniform);
        assert forall|j: int|
            0 <= j < cmds.len() && ((#[trigger] cmds[j]) matches RenderCommand::Draw(d)
                && d.uses_uniform) implies spec_copy_before(cmds, j) by {
            assert(!(cmds[0] matches RenderCommand::Draw(d) && d.uses_uniform));
            assert(0 <= 0 < j && cmds[0] is CopyUniform);
        }
    }
}

} // verus!
