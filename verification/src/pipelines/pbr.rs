use vstd::prelude::*;

use crate::pass::PassBehavior;
use crate::pipeline::{
    BindGroupLayoutEntry, BindingType, BlendMode, ColorState,
    CompareFunction, CullMode, DepthStencilState, FrontFace, IndexFormat,
    PipelineDescription, PipelineDescriptionView, PrimitiveTopology, RasterizationState,
    SimplePipelineDesc, TextureViewDimension, VertexStateBuilder, VertexStateView,
    COLOR_WRITE_ALL, DEPTH_FORMAT, STAGE_FRAGMENT, STAGE_VERTEX, mesh_vertex_state, spec_mesh_vertex_buffers,
};
use crate::target::TextureFormat;

verus! {

/// Describes the physically-based shading pass: entities with PBR
/// materials are drawn on the swap image, batched by material, sampling
/// the skybox's environment maps.
#[derive(Clone, Copy, Debug, Default, PartialEq, Eq, Structural)]
pub struct PBRPipelineDesc;

/// The PBR shader's binding sets: camera and lighting constants; the
/// material's colour buffer, texture and sampler; and the
/// image-based-lighting set (irradiance cube, specular cube and BRDF
/// look-up table, each with its sampler).
pub open spec fn spec_pbr_layouts() -> Seq<Seq<BindGroupLayoutEntry>> {
    seq![
        seq![
            BindGroupLayoutEntry {
                binding: 0,
                visibility: STAGE_VERTEX,
                ty: BindingType::UniformBuffer,
            },
            BindGroupLayoutEntry {
                binding: 1,
                visibility: STAGE_VERTEX | STAGE_FRAGMENT,
                ty: BindingType::UniformBuffer,
            },
        ],
        seq![
            BindGroupLayoutEntry {
                binding: 0,
                visibility: STAGE_VERTEX,
                ty: BindingType::UniformBuffer,
            },
            BindGroupLayoutEntry {
                binding: 1,
                visibility: STAGE_FRAGMENT,
                ty: BindingType::SampledTexture { dimension: TextureViewDimension::D2 },
            },
            BindGroupLayoutEntry {
                binding: 2,
                visibility: STAGE_FRAGMENT,
                ty: BindingType::Sampler,
            },
        ],
        seq![
            BindGroupLayoutEntry {
                binding: 0,
                visibility: STAGE_FRAGMENT,
                ty: BindingType::SampledTexture { dimension: TextureViewDimension::Cube },
            },
            BindGroupLayoutEntry {
                binding: 1,
                visibility: STAGE_FRAGMENT,
                ty: BindingType::Sampler,
            },
            BindGroupLayoutEntry {
                binding: 2,
                visibility: STAGE_FRAGMENT,
                ty: BindingType::SampledTexture { dimension: TextureViewDimension::Cube },
            },
            BindGroupLayoutEntry {
                binding: 3,
                visibility: STAGE_FRAGMENT,
                ty: BindingType::Sampler,
            },
            BindGroupLayoutEntry {
                binding: 4,
                visibility: STAGE_FRAGMENT,
                ty: BindingType::SampledTexture { dimension: TextureViewDimension::D2 },
            },
            BindGroupLayoutEntry {
                binding: 5,
                visibility: STAGE_FRAGMENT,
                ty: BindingType::Sampler,
            },
        ],
    ]
}

impl PBRPipelineDesc {
    /// The shader program this pass runs.
    pub fn load_shader(&self) -> (s: &'static str)
        ensures
            s@ == "pbr.shader"@,
    {
        "pbr.shader"
    }

    /// Declares the binding-set layouts.
    pub fn create_layout(&self) -> (l: Vec<Vec<BindGroupLayoutEntry>>)
        ensures
            l@.map_values(|v: Vec<BindGroupLayoutEntry>| v@) == spec_pbr_layouts(),
    {
        let mut global_layout: Vec<BindGroupLayoutEntry> = Vec::new();
        global_layout.push(BindGroupLayoutEntry {
            binding: 0,
            visibility: STAGE_VERTEX,
            ty: BindingType::UniformBuffer,
        });
        global_layout.push(BindGroupLayoutEntry {
            binding: 1,
            visibility: STAGE_VERTEX | STAGE_FRAGMENT,
            ty: BindingType::UniformBuffer,
        });
        let mut material_layout: Vec<BindGroupLayoutEntry> = Vec::new();
        material_layout.push(BindGroupLayoutEntry {
            binding: 0,
            visibility: STAGE_VERTEX,
            ty: BindingType::UniformBuffer,
        });
        material_layout.push(BindGroupLayoutEntry {
            binding: 1,
            visibility: STAGE_FRAGMENT,
            ty: BindingType::SampledTexture { dimension: TextureViewDimension::D2 },
        });
        material_layout.push(BindGroupLayoutEntry {
            binding: 2,
            visibility: STAGE_FRAGMENT,
            ty: BindingType::Sampler,
        });
        let mut pbr_layout: Vec<BindGroupLayoutEntry> = Vec::new();
        pbr_layout.push(BindGroupLayoutEntry {
            binding: 0,
            visibility: STAGE_FRAGMENT,
            ty: BindingType::SampledTexture { dimension: TextureViewDimension::Cube },
        });
        pbr_layout.push(BindGroupLayoutEntry {
            binding: 1,
            visibility: STAGE_FRAGMENT,
            ty: BindingType::Sampler,
        });
        pbr_layout.push(BindGroupLayoutEntry {
            binding: 2,
            visibility: STAGE_FRAGMENT,
            ty: BindingType::SampledTexture { dimension: TextureViewDimension::Cube },
        });
        pbr_layout.push(BindGroupLayoutEntry {
            binding: 3,
            visibility: STAGE_FRAGMENT,
            ty: BindingType::Sampler,
        });
        pbr_layout.push(BindGroupLayoutEntry {
            binding: 4,
            visibility: STAGE_FRAGMENT,
            ty: BindingType::SampledTexture { dimension: TextureViewDimension::D2 },
        });
        pbr_layout.push(BindGroupLayoutEntry {
            binding: 5,
            visibility: STAGE_FRAGMENT,
            ty: BindingType::Sampler,
        });
        proof {
            assert(global_layout@ =~= spec_pbr_layouts()[0]);
            assert(material_layout@ =~= spec_pbr_layouts()[1]);
            assert(pbr_layout@ =~= spec_pbr_layouts()[2]);
        }
        let mut l: Vec<Vec<BindGroupLayoutEntry>> = Vec::new();
        l.push(global_layout);
        l.push(material_layout);
        l.push(pbr_layout);
        proof {
            assert(l@.map_values(|v: Vec<BindGroupLayoutEntry>| v@) =~= spec_pbr_layouts());
        }
        l
    }

    /// Clockwise front faces, back faces culled.
    pub fn rasterization_state_desc(&self) -> (r: RasterizationState)
        ensures
            r == (RasterizationState {
                front_face: FrontFace::Cw,
                cull_mode: CullMode::Back,
                depth_bias: 0,
            }),
    {
        RasterizationState {
            front_face: FrontFace::Cw,
            cull_mode: CullMode::Back,
            depth_bias: 0,
        }
    }

    /// Plain triangles.
    pub fn primitive_topology(&self) -> (t: PrimitiveTopology)
        ensures
            t == PrimitiveTopology::TriangleList,
    {
        PrimitiveTopology::TriangleList
    }

    /// One attachment in the swap chain's format, blending off.
    pub fn color_states_desc(&self, swap_format: TextureFormat) -> (v: Vec<ColorState>)
        ensures
            v@ == seq![
                ColorState {
                    format: swap_format,
                    color_blend: BlendMode::Replace,
                    alpha_blend: BlendMode::Replace,
                    write_mask: COLOR_WRITE_ALL,
                },
            ],
    {
        let mut v: Vec<ColorState> = Vec::new();
        v.push(ColorState {
            format: swap_format,
            color_blend: BlendMode::Replace,
            alpha_blend: BlendMode::Replace,
            write_mask: COLOR_WRITE_ALL,
        });
        proof {
            assert(v@ =~= seq![
                ColorState {
                    format: swap_format,
                    color_blend: BlendMode::Replace,
                    alpha_blend: BlendMode::Replace,
                    write_mask: COLOR_WRITE_ALL,
                },
            ]);
        }
        v
    }

    /// Depth-tested and written, stencil untouched.
    pub fn depth_stencil_state_desc(&self) -> (d: Option<DepthStencilState>)
        ensures
            d == Some(DepthStencilState {
                format: DEPTH_FORMAT,
                depth_write_enabled: true,
                depth_compare: CompareFunction::Less,
                stencil_read_mask: 0,
                stencil_write_mask: 0,
            }),
    {
        Some(DepthStencilState {
            format: DEPTH_FORMAT,
            depth_write_enabled: true,
            depth_compare: CompareFunction::Less,
            stencil_read_mask: 0,
            stencil_write_mask: 0,
        })
    }

    /// Reads the packed mesh vertex layout with 32-bit indices.
    pub fn vertex_state_desc(&self) -> (v: VertexStateBuilder)
        ensures
            v@ == (VertexStateView {
                index_format: IndexFormat::Uint32,
                buffers: spec_mesh_vertex_buffers(),
            }),
    {
        mesh_vertex_state()
    }
}

impl SimplePipelineDesc for PBRPipelineDesc {
    open spec fn spec_description(&self, swap_format: TextureFormat) -> PipelineDescriptionView {
        PipelineDescriptionView {
            shader: "pbr.shader"@,
            layouts: spec_pbr_layouts(),
            rasterization: RasterizationState {
                front_face: FrontFace::Cw,
                cull_mode: CullMode::Back,
                depth_bias: 0,
            },
            topology: PrimitiveTopology::TriangleList,
            color_states: seq![
                ColorState {
                    format: swap_format,
                    color_blend: BlendMode::Replace,
                    alpha_blend: BlendMode::Replace,
                    write_mask: COLOR_WRITE_ALL,
                },
            ],
            depth_stencil: Some(DepthStencilState {
                format: DEPTH_FORMAT,
                depth_write_enabled: true,
                depth_compare: CompareFunction::Less,
                stencil_read_mask: 0,
                stencil_write_mask: 0,
            }),
            vertex_state: VertexStateView {
                index_format: IndexFormat::Uint32,
                buffers: spec_mesh_vertex_buffers(),
            },
        }
    }

    open spec fn spec_behavior(&self) -> PassBehavior {
        PassBehavior::Pbr
    }

    fn description(&self, swap_format: TextureFormat) -> (d: PipelineDescription) {
        PipelineDescription {
            shader: String::from_str(self.load_shader()),
            layouts: self.create_layout(),
            rasterization: self.rasterization_state_desc(),
            topology: self.primitive_topology(),
            color_states: self.color_states_desc(swap_format),
            depth_stencil: self.depth_stencil_state_desc(),
            vertex_state: self.vertex_state_desc(),
        }
    }

    fn build(self) -> (b: PassBehavior) {
        PassBehavior::Pbr
    }
}

} // verus!
