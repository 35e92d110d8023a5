use vstd::prelude::*;

use crate::pass::PassBehavior;

verus! {

/// The vertex shader stage may see a binding.
pub const STAGE_VERTEX: u32 = 1;
/// The fragment shader stage may see a binding.
pub const STAGE_FRAGMENT: u32 = 2;

/// The colour write mask that lets every channel through.
pub const COLOR_WRITE_ALL: u32 = 15;

/// What kind of resource one binding slot carries.
#[derive(Clone, Copy, Debug, PartialEq, Eq, Structural)]
pub enum BindingType {
    UniformBuffer,
    SampledTexture { dimension: TextureViewDimension },
    Sampler,
}

/// How a shader views a sampled texture.
#[derive(Clone, Copy, Debug, PartialEq, Eq, Structural)]
pub enum TextureViewDimension {
    D2,
    Cube,
}

/// One slot of a resource-binding layout: its binding number, the shader
/// stages that use it, and the resource kind it takes.
#[derive(Clone, Copy, Debug, PartialEq, Eq, Structural)]
pub struct BindGroupLayoutEntry {
    pub binding: u32,
    pub visibility: u32,
    pub ty: BindingType,
}

/// Which triangle winding is the front face.
#[derive(Clone, Copy, Debug, PartialEq, Eq, Structural)]
pub enum FrontFace {
    Ccw,
    Cw,
}

/// Which faces the rasterizer culls.
#[derive(Clone, Copy, Debug, PartialEq, Eq, Structural)]
pub enum CullMode {
    NoCulling,
    Front,
    Back,
}

/// Rasterizer state a pass declares.
#[derive(Clone, Copy, Debug, PartialEq, Eq, Structural)]
pub struct RasterizationState {
    pub front_face: FrontFace,
    pub cull_mode: CullMode,
    pub depth_bias: i32,
}

/// How vertices form primitives.
#[derive(Clone, Copy, Debug, PartialEq, Eq, Structural)]
pub enum PrimitiveTopology {
    TriangleList,
}

/// Per-attachment blending; these passes only ever replace.
#[derive(Clone, Copy, Debug, PartialEq, Eq, Structural)]
pub enum BlendMode {
    Replace,
}

/// One colour attachment's format, blend state and write mask.
#[derive(Clone, Copy, Debug, PartialEq, Eq, Structural)]
pub struct ColorState {
    pub format: crate::target::TextureFormat,
    pub color_blend: BlendMode,
    pub alpha_blend: BlendMode,
    pub write_mask: u32,
}

/// The depth comparison a pass declares.
#[derive(Clone, Copy, Debug, PartialEq, Eq, Structural)]
pub enum CompareFunction {
    Less,
}

/// Depth-test state; the stencil faces are left untouched.
#[derive(Clone, Copy, Debug, PartialEq, Eq, Structural)]
pub struct DepthStencilState {
    pub format: crate::target::TextureFormat,
    pub depth_write_enabled: bool,
    pub depth_compare: CompareFunction,
    pub stencil_read_mask: u32,
    pub stencil_write_mask: u32,
}

/// How mesh indices are encoded.
#[derive(Clone, Copy, Debug, PartialEq, Eq, Structural)]
pub enum IndexFormat {
    Uint16,
    Uint32,
}

/// The encoding of one vertex attribute.
#[derive(Clone, Copy, Debug, PartialEq, Eq, Structural)]
pub enum VertexFormat {
    Float2,
    Float3,
    Float4,
}

/// One vertex attribute: where it sits in the vertex and which shader
/// location reads it.
#[derive(Clone, Copy, Debug, PartialEq, Eq, Structural)]
pub struct VertexAttribute {
    pub format: VertexFormat,
    pub offset: u32,
    pub shader_location: u32,
}

/// One vertex buffer slot: its stride and its attributes.
#[derive(Clone, Debug, PartialEq, Eq)]
pub struct VertexBufferDescriptor {
    pub stride: u32,
    pub attributes: Vec<VertexAttribute>,
}

/// The spec-level shape of a vertex buffer slot.
pub struct VertexBufferView {
    pub stride: u32,
    pub attributes: Seq<VertexAttribute>,
}

impl View for VertexBufferDescriptor {
    type V = VertexBufferView;

    open spec fn view(&self) -> VertexBufferView {
        VertexBufferView { stride: self.stride, attributes: self.attributes@ }
    }
}

/// Collects the vertex-input declaration of a pass: the index encoding and
/// the vertex buffer layouts, in slot order.
#[derive(Clone, Debug, PartialEq, Eq)]
pub struct VertexStateBuilder {
    pub index_format: IndexFormat,
    pub buffers: Vec<VertexBufferDescriptor>,
}

/// The spec-level shape of a vertex-input declaration.
pub struct VertexStateView {
    pub index_format: IndexFormat,
    pub buffers: Seq<VertexBufferView>,
}

impl View for VertexStateBuilder {
    type V = VertexStateView;

    open spec fn view(&self) -> VertexStateView {
        VertexStateView {
            index_format: self.index_format,
            buffers: self.buffers@.map_values(|b: VertexBufferDescriptor| b@),
        }
    }
}

impl VertexStateBuilder {
    /// An empty declaration: 16-bit indices, no vertex buffers.
    pub fn new() -> (b: VertexStateBuilder)
        ensures
            b.index_format == IndexFormat::Uint16,
            b.buffers@.len() == 0,
    {
        VertexStateBuilder { index_format: IndexFormat::Uint16, buffers: Vec::new() }
    }

    /// Chooses the index encoding.
    pub fn set_index_format(&mut self, f: IndexFormat)
        ensures
            final(self).index_format == f,
            final(self).buffers == old(self).buffers,
    {
        self.index_format = f;
    }

    /// Declares one more vertex buffer slot.
    pub fn new_buffer_descriptor(&mut self, stride: u32, attributes: Vec<VertexAttribute>)
        ensures
            final(self).index_format == old(self).index_format,
            final(self).buffers@.len() == old(self).buffers@.len() + 1,
            final(self).buffers@ == old(self).buffers@.push(
                VertexBufferDescriptor { stride, attributes }),
    {
        self.buffers.push(VertexBufferDescriptor { stride, attributes });
    }
}

/// Everything a pass description supplies to build its GPU pipeline: the
/// binding-set layouts in slot order, the shader, fixed-function state and
/// the vertex-input declaration.
#[derive(Clone, Debug, PartialEq, Eq)]
pub struct PipelineDescription {
    pub shader: String,
    pub layouts: Vec<Vec<BindGroupLayoutEntry>>,
    pub rasterization: RasterizationState,
    pub topology: PrimitiveTopology,
    pub color_states: Vec<ColorState>,
    pub depth_stencil: Option<DepthStencilState>,
    pub vertex_state: VertexStateBuilder,
}

/// The spec-level shape of a pipeline description.
pub struct PipelineDescriptionView {
    pub shader: Seq<char>,
    pub layouts: Seq<Seq<BindGroupLayoutEntry>>,
    pub rasterization: RasterizationState,
    pub topology: PrimitiveTopology,
    pub color_states: Seq<ColorState>,
    pub depth_stencil: Option<DepthStencilState>,
    pub vertex_state: VertexStateView,
}

impl View for PipelineDescription {
    type V = PipelineDescriptionView;

    open spec fn view(&self) -> PipelineDescriptionView {
        PipelineDescriptionView {
            shader: self.shader@,
            layouts: self.layouts@.map_values(|l: Vec<BindGroupLayoutEntry>| l@),
            rasterization: self.rasterization,
            topology: self.topology,
            color_states: self.color_states@,
            depth_stencil: self.depth_stencil,
            vertex_state: self.vertex_state@,
        }
    }
}

/// A compiled pipeline handle: immutable once built.  The GPU object lives
/// with the backend; the graph keeps the description it was built from,
/// including the binding-set layouts callers look up.
#[derive(Clone, Debug, PartialEq, Eq)]
pub struct Pipeline {
    pub desc: PipelineDescription,
}

/// What a pass type supplies to be added to the graph: its pipeline
/// description, and the pass behaviour that runs each frame.
pub trait SimplePipelineDesc: Sized {
    /// The description this type builds when the swap chain uses
    /// `swap_format` (on-screen passes draw in the swap chain's format).
    spec fn spec_description(&self, swap_format: crate::target::TextureFormat)
        -> PipelineDescriptionView;

    /// The behaviour this type always builds.
    spec fn spec_behavior(&self) -> PassBehavior;

    /// Assembles the pipeline description.
    fn description(&self, swap_format: crate::target::TextureFormat)
        -> (d: PipelineDescription)
        ensures
            d@ == self.spec_description(swap_format),
    ;

    /// Builds the per-frame pass behaviour.
    fn build(self) -> (b: PassBehavior)
        ensures
            b == self.spec_behavior(),
    ;
}

/// The depth format of the window's shared depth buffer.
pub const DEPTH_FORMAT: crate::target::TextureFormat =
    crate::target::TextureFormat::Depth32Float;

/// The attributes of one imported mesh vertex: position, normal, texture
/// coordinates and tangent, packed in that order (twelve 32-bit floats,
/// hence the 48-byte stride).
pub open spec fn spec_mesh_vertex_attributes() -> Seq<VertexAttribute> {
    seq![
        VertexAttribute { format: VertexFormat::Float3, offset: 0, shader_location: 0 },
        VertexAttribute { format: VertexFormat::Float3, offset: 12, shader_location: 1 },
        VertexAttribute { format: VertexFormat::Float2, offset: 24, shader_location: 2 },
        VertexAttribute { format: VertexFormat::Float4, offset: 32, shader_location: 3 },
    ]
}

/// The single vertex buffer slot shading passes read meshes through.
pub open spec fn spec_mesh_vertex_buffers() -> Seq<VertexBufferView> {
    seq![VertexBufferView { stride: 48, attributes: spec_mesh_vertex_attributes() }]
}

/// The vertex-input declaration of the shading passes: 32-bit indices and
/// the packed mesh vertex layout.
pub fn mesh_vertex_state() -> (v: VertexStateBuilder)
    ensures
        v@ == (VertexStateView {
            index_format: IndexFormat::Uint32,
            buffers: spec_mesh_vertex_buffers(),
        }),
{
    let mut attributes: Vec<VertexAttribute> = Vec::new();
    attributes.push(VertexAttribute { format: VertexFormat::Float3, offset: 0, shader_location: 0 });
    attributes.push(VertexAttribute { format: VertexFormat::Float3, offset: 12, shader_location: 1 });
    attributes.push(VertexAttribute { format: VertexFormat::Float2, offset: 24, shader_location: 2 });
    attributes.push(VertexAttribute { format: VertexFormat::Float4, offset: 32, shader_location: 3 });
    proof {
        assert(attributes@ =~= spec_mesh_vertex_attributes());
    }
    let mut v = VertexStateBuilder::new();
    v.set_index_format(IndexFormat::Uint32);
    v.new_buffer_descriptor(48, attributes);
    proof {
        assert(v@.buffers =~= spec_mesh_vertex_buffers());
    }
    v
}

/// The vertex-input declaration of the passes that generate their own
/// vertices in the shader: no buffers at all.
pub fn empty_vertex_state() -> (v: VertexStateBuilder)
    ensures
        v@ == (VertexStateView {
            index_format: IndexFormat::Uint16,
            buffers: Seq::<VertexBufferView>::empty(),
        }),
{
    let v = VertexStateBuilder::new();
    proof {
        assert(v@.buffers =~= Seq::<VertexBufferView>::empty());
    }
    v
}

/// The layout of the graph-wide local binding set: one uniform buffer of
/// per-object data, visible to the vertex stage, at binding 0.
pub open spec fn spec_local_layout() -> Seq<BindGroupLayoutEntry> {
    seq![
        BindGroupLayoutEntry { binding: 0, visibility: STAGE_VERTEX, ty: BindingType::UniformBuffer },
    ]
}

/// Builds the graph-wide local binding-set layout.
pub fn local_bind_group_layout() -> (l: Vec<BindGroupLayoutEntry>)
    ensures
        l@ == spec_local_layout(),
{
    let mut l: Vec<BindGroupLayoutEntry> = Vec::new();
    l.push(BindGroupLayoutEntry {
        binding: 0,
        visibility: STAGE_VERTEX,
        ty: BindingType::UniformBuffer,
    });
    proof {
        assert(l@ =~= spec_local_layout());
    }
    l
}

} // verus!
