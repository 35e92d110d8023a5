use vstd::prelude::*;

use crate::pass::PassBehavior;
use crate::pipeline::{
    empty_vertex_state, BindGroupLayoutEntry, BindingType, BlendMode, ColorState,
    CompareFunction, CullMode, DepthStencilState, FrontFace, IndexFormat, PipelineDescription,
    PipelineDescriptionView, PrimitiveTopology, RasterizationState, SimplePipelineDesc,
    TextureViewDimension, VertexStateBuilder, VertexStateView, COLOR_WRITE_ALL, DEPTH_FORMAT,
    STAGE_FRAGMENT, STAGE_VERTEX,
};
use crate::target::TextureFormat;

verus! {

/// Describes the skybox (background) pass: it draws the scene's cube
/// texture behind everything, on the swap image, depth-tested against the
/// shared depth buffer.
#[derive(Clone, Copy, Debug, Default, PartialEq, Eq, Structural)]
pub struct SkyboxPipelineDesc;

/// The skybox shader's two binding sets: the camera constants, and the
/// cube texture with its sampler.
pub open spec fn spec_skybox_layouts() -> Seq<Seq<BindGroupLayoutEntry>> {
    seq![
        seq![
            BindGroupLayoutEntry {
                binding: 0,
                visibility: STAGE_VERTEX,
                ty: BindingType::UniformBuffer,
            },
        ],
        seq![
            BindGroupLayoutEntry {
                binding: 0,
                visibility: STAGE_FRAGMENT,
                ty: BindingType::SampledTexture { dimension: TextureViewDimension::Cube },
            },
            BindGroupLayoutEntry {
                binding: 1,
                visibility: STAGE_FRAGMENT,
                ty: BindingType::Sampler,
            },
        ],
    ]
}

impl SkyboxPipelineDesc {
    /// The shader program this pass runs.
    pub fn load_shader(&self) -> (s: &'static str)
        ensures
            s@ == "skybox.shader"@,
    {
        "skybox.shader"
    }

    /// Declares the binding-set layouts.
    pub fn create_layout(&self) -> (l: Vec<Vec<BindGroupLayoutEntry>>)
        ensures
            l@.map_values(|v: Vec<BindGroupLayoutEntry>| v@) == spec_skybox_layouts(),
    {
        let mut global: Vec<BindGroupLayoutEntry> = Vec::new();
        global.push(BindGroupLayoutEntry {
            binding: 0,
            visibility: STAGE_VERTEX,
            ty: BindingType::UniformBuffer,
        });
        let mut material: Vec<BindGroupLayoutEntry> = Vec::new();
        material.push(BindGroupLayoutEntry {
            binding: 0,
            visibility: STAGE_FRAGMENT,
            ty: BindingType::SampledTexture { dimension: TextureViewDimension::Cube },
        });
        material.push(BindGroupLayoutEntry {
            binding: 1,
            visibility: STAGE_FRAGMENT,
            ty: BindingType::Sampler,
        });
        proof {
            assert(global@ =~= spec_skybox_layouts()[0]);
            assert(material@ =~= spec_skybox_layouts()[1]);
        }
        let mut l: Vec<Vec<BindGroupLayoutEntry>> = Vec::new();
        l.push(global);
        l.push(material);
        proof {
            assert(l@.map_values(|v: Vec<BindGroupLayoutEntry>| v@) =~= spec_skybox_layouts());
        }
        l
    }

    /// Clockwise front faces, no culling.
    pub fn rasterization_state_desc(&self) -> (r: RasterizationState)
        ensures
            r == (RasterizationState {
                front_face: FrontFace::Cw,
                cull_mode: CullMode::NoCulling,
                depth_bias: 0,
            }),
    {
        RasterizationState {
            front_face: FrontFace::Cw,
            cull_mode: CullMode::NoCulling,
            depth_bias: 0,
        }
    }

    /// Plain triangles.
    pub fn primitive_topology(&self) -> (t: PrimitiveTopology)
        ensures
            t == PrimitiveTopology::TriangleList,
    {
        PrimitiveTopology::TriangleList
    }

    /// One attachment in the swap chain's format, blending off.
    pub fn color_states_desc(&self, swap_format: TextureFormat) -> (v: Vec<ColorState>)
        ensures
            v@ == seq![
                ColorState {
                    format: swap_format,
                    color_blend: BlendMode::Replace,
                    alpha_blend: BlendMode::Replace,
                    write_mask: COLOR_WRITE_ALL,
                },
            ],
    {
        let mut v: Vec<ColorState> = Vec::new();
        v.push(ColorState {
            format: swap_format,
            color_blend: BlendMode::Replace,
            alpha_blend: BlendMode::Replace,
            write_mask: COLOR_WRITE_ALL,
        });
        proof {
            assert(v@ =~= seq![
                ColorState {
                    format: swap_format,
                    color_blend: BlendMode::Replace,
                    alpha_blend: BlendMode::Replace,
                    write_mask: COLOR_WRITE_ALL,
                },
            ]);
        }
        v
    }

    /// Depth-tested and written, stencil untouched.
    pub fn depth_stencil_state_desc(&self) -> (d: Option<DepthStencilState>)
        ensures
            d == Some(DepthStencilState {
                format: DEPTH_FORMAT,
                depth_write_enabled: true,
                depth_compare: CompareFunction::Less,
                stencil_read_mask: 0,
                stencil_write_mask: 0,
            }),
    {
        Some(DepthStencilState {
            format: DEPTH_FORMAT,
            depth_write_enabled: true,
            depth_compare: CompareFunction::Less,
            stencil_read_mask: 0,
            stencil_write_mask: 0,
        })
    }

    /// The sky triangle is generated in the shader: no vertex buffers.
    pub fn vertex_state_desc(&self) -> (v: VertexStateBuilder)
        ensures
            v@ == (VertexStateView {
                index_format: IndexFormat::Uint16,
                buffers: Seq::empty(),
            }),
    {
        empty_vertex_state()
    }
}

impl SimplePipelineDesc for SkyboxPipelineDesc {
    open spec fn spec_description(&self, swap_format: TextureFormat) -> PipelineDescriptionView {
        PipelineDescriptionView {
            shader: "skybox.shader"@,
            layouts: spec_skybox_layouts(),
            rasterization: RasterizationState {
                front_face: FrontFace::Cw,
                cull_mode: CullMode::NoCulling,
                depth_bias: 0,
            },
            topology: PrimitiveTopology::TriangleList,
            color_states: seq![
                ColorState {
                    format: swap_format,
                    color_blend: BlendMode::Replace,
                    alpha_blend: BlendMode::Replace,
                    write_mask: COLOR_WRITE_ALL,
                },
            ],
            depth_stencil: Some(DepthStencilState {
                format: DEPTH_FORMAT,
                depth_write_enabled: true,
                depth_compare: CompareFunction::Less,
                stencil_read_mask: 0,
                stencil_write_mask: 0,
            }),
            vertex_state: VertexStateView {
                index_format: IndexFormat::Uint16,
                buffers: Seq::empty(),
            },
        }
    }

    open spec fn spec_behavior(&self) -> PassBehavior {
        PassBehavior::Sky
    }

    fn description(&self, swap_format: TextureFormat) -> (d: PipelineDescription) {
        PipelineDescription {
            shader: String::from_str(self.load_shader()),
            layouts: self.create_layout(),
            rasterization: self.rasterization_state_desc(),
            topology: self.primitive_topology(),
            color_states: self.color_states_desc(swap_format),
            depth_stencil: self.depth_stencil_state_desc(),
            vertex_state: self.vertex_state_desc(),
        }
    }

    fn build(self) -> (b: PassBehavior) {
        PassBehavior::Sky
    }
}

} // verus!
