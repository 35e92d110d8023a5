use vstd::prelude::*;

use crate::pass::PassBehavior;
use crate::pipeline::{
    BindGroupLayoutEntry, BindingType, BlendMode, ColorState,
    CompareFunction, CullMode, DepthStencilState, FrontFace, IndexFormat,
    PipelineDescription, PipelineDescriptionView, PrimitiveTopology, RasterizationState,
    SimplePipelineDesc, TextureViewDimension, VertexStateBuilder, VertexStateView,
    COLOR_WRITE_ALL, DEPTH_FORMAT, STAGE_FRAGMENT, STAGE_VERTEX, mesh_vertex_state, spec_mesh_vertex_buffers,
};
use crate::target::TextureFormat;

verus! {

/// Describes the unlit shading pass: entities with unlit materials are
/// drawn on the swap image, batched by material.
#[derive(Clone, Copy, Debug, Default, PartialEq, Eq, Structural)]
pub struct UnlitPipelineDesc;

/// The unlit shader's binding sets: the camera constants, and the
/// material's colour buffer, texture and sampler.
pub open spec fn spec_unlit_layouts() -> Seq<Seq<BindGroupLayoutEntry>> {
    seq![
        seq![
            BindGroupLayoutEntry {
                binding: 0,
                visibility: STAGE_VERTEX,
                ty: BindingType::UniformBuffer,
            },
        ],
        seq![
            BindGroupLayoutEntry {
                binding: 0,
                visibility: STAGE_VERTEX,
                ty: BindingType::UniformBuffer,
            },
            BindGroupLayoutEntry {
                binding: 1,
                visibility: STAGE_FRAGMENT,
                ty: BindingType::SampledTexture { dimension: TextureViewDimension::D2 },
            },
            BindGroupLayoutEntry {
                binding: 2,
                visibility: STAGE_FRAGMENT,
                ty: BindingType::Sampler,
            },
        ],
    ]
}

impl UnlitPipelineDesc {
    /// The shader program this pass runs.
    pub fn load_shader(&self) -> (s: &'static str)
        ensures
            s@ == "unlit.shader"@,
    {
        "unlit.shader"
    }

    /// Declares the binding-set layouts.
    pub fn create_layout(&self) -> (l: Vec<Vec<BindGroupLayoutEntry>>)
        ensures
            l@.map_values(|v: Vec<BindGroupLayoutEntry>| v@) == spec_unlit_layouts(),
    {
        let mut global_layout: Vec<BindGroupLayoutEntry> = Vec::new();
        global_layout.push(BindGroupLayoutEntry {
            binding: 0,
            visibility: STAGE_VERTEX,
            ty: BindingType::UniformBuffer,
        });
        let mut material_layout: Vec<BindGroupLayoutEntry> = Vec::new();
        material_layout.push(BindGroupLayoutEntry {
            binding: 0,
            visibility: STAGE_VERTEX,
            ty: BindingType::UniformBuffer,
        });
        material_layout.push(BindGroupLayoutEntry {
            binding: 1,
            visibility: STAGE_FRAGMENT,
            ty: BindingType::SampledTexture { dimension: TextureViewDimension::D2 },
        });
        material_layout.push(BindGroupLayoutEntry {
            binding: 2,
            visibility: STAGE_FRAGMENT,
            ty: BindingType::Sampler,
        });
        proof {
            assert(global_layout@ =~= spec_unlit_layouts()[0]);
            assert(material_layout@ =~= spec_unlit_layouts()[1]);
        }
        let mut l: Vec<Vec<BindGroupLayoutEntry>> = Vec::new();
        l.push(global_layout);
        l.push(material_layout);
        proof {
            assert(l@.map_values(|v: Vec<BindGroupLayoutEntry>| v@) =~= spec_unlit_layouts());
        }
        l
    }

    /// Clockwise front faces, back faces culled.
    pub fn rasterization_state_desc(&self) -> (r: RasterizationState)
        ensures
            r == (RasterizationState {
                front_face: FrontFace::Cw,
                cull_mode: CullMode::Back,
                depth_bias: 0,
            }),
    {
        RasterizationState {
            front_face: FrontFace::Cw,
            cull_mode: CullMode::Back,
            depth_bias: 0,
        }
    }

    /// Plain triangles.
    pub fn primitive_topology(&self) -> (t: PrimitiveTopology)
        ensures
            t == PrimitiveTopology::TriangleList,
    {
        PrimitiveTopology::TriangleList
    }

    /// One attachment in the swap chain's format, blending off.
    pub fn color_states_desc(&self, swap_format: TextureFormat) -> (v: Vec<ColorState>)
        ensures
            v@ == seq![
                ColorState {
                    format: swap_format,
                    color_blend: BlendMode::Replace,
                    alpha_blend: BlendMode::Replace,
                    write_mask: COLOR_WRITE_ALL,
                },
            ],
    {
        let mut v: Vec<ColorState> = Vec::new();
        v.push(ColorState {
            format: swap_format,
            color_blend: BlendMode::Replace,
            alpha_blend: BlendMode::Replace,
            write_mask: COLOR_WRITE_ALL,
        });
        proof {
            assert(v@ =~= seq![
                ColorState {
                    format: swap_format,
                    color_blend: BlendMode::Replace,
                    alpha_blend: BlendMode::Replace,
                    write_mask: COLOR_WRITE_ALL,
                },
            ]);
        }
        v
    }

    /// Depth-tested and written, stencil untouched.
    pub fn depth_stencil_state_desc(&self) -> (d: Option<DepthStencilState>)
        ensures
            d == Some(DepthStencilState {
                format: DEPTH_FORMAT,
                depth_write_enabled: true,
                depth_compare: CompareFunction::Less,
                stencil_read_mask: 0,
                stencil_write_mask: 0,
            }),
    {
        Some(DepthStencilState {
            format: DEPTH_FORMAT,
            depth_write_enabled: true,
            depth_compare: CompareFunction::Less,
            stencil_read_mask: 0,
            stencil_write_mask: 0,
        })
    }

    /// Reads the packed mesh vertex layout with 32-bit indices.
    pub fn vertex_state_desc(&self) -> (v: VertexStateBuilder)
        ensures
            v@ == (VertexStateView {
                index_format: IndexFormat::Uint32,
                buffers: spec_mesh_vertex_buffers(),
            }),
    {
        mesh_vertex_state()
    }
}

impl SimplePipelineDesc for UnlitPipelineDesc {
    open spec fn spec_description(&self, swap_format: TextureFormat) -> PipelineDescriptionView {
        PipelineDescriptionView {
            shader: "unlit.shader"@,
            layouts: spec_unlit_layouts(),
            rasterization: RasterizationState {
                front_face: FrontFace::Cw,
                cull_mode: CullMode::Back,
                depth_bias: 0,
            },
            topology: PrimitiveTopology::TriangleList,
            color_states: seq![
                ColorState {
                    format: swap_format,
                    color_blend: BlendMode::Replace,
                    alpha_blend: BlendMode::Replace,
                    write_mask: COLOR_WRITE_ALL,
                },
            ],
            depth_stencil: Some(DepthStencilState {
                format: DEPTH_FORMAT,
                depth_write_enabled: true,
                depth_compare: CompareFunction::Less,
                stencil_read_mask: 0,
                stencil_write_mask: 0,
            }),
            vertex_state: VertexStateView {
                index_format: IndexFormat::Uint32,
                buffers: spec_mesh_vertex_buffers(),
            },
        }
    }

    open spec fn spec_behavior(&self) -> PassBehavior {
        PassBehavior::Unlit
    }

    fn description(&self, swap_format: TextureFormat) -> (d: PipelineDescription) {
        PipelineDescription {
            shader: String::from_str(self.load_shader()),
            layouts: self.create_layout(),
            rasterization: self.rasterization_state_desc(),
            topology: self.primitive_topology(),
            color_states: self.color_states_desc(swap_format),
            depth_stencil: self.depth_stencil_state_desc(),
            vertex_state: self.vertex_state_desc(),
        }
    }

    fn build(self) -> (b: PassBehavior) {
        PassBehavior::Unlit
    }
}

} // verus!
