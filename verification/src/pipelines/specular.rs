use vstd::prelude::*;

use crate::pass::PassBehavior;
use crate::pipeline::{
    BindGroupLayoutEntry, BindingType, BlendMode, ColorState,
    CullMode, DepthStencilState, FrontFace, IndexFormat,
    PipelineDescription, PipelineDescriptionView, PrimitiveTopology, RasterizationState,
    SimplePipelineDesc, TextureViewDimension, VertexStateBuilder, VertexStateView,
    COLOR_WRITE_ALL, STAGE_FRAGMENT, empty_vertex_state,
};
use crate::target::TextureFormat;

verus! {

/// Describes one specular pre-filter pass: it convolves its
/// dependency's output for one roughness (mip) level into its own
/// offscreen target.
#[derive(Clone, Copy, Debug, PartialEq, Eq, Structural)]
pub struct SpecularPipelineDesc {
    /// Which mip level of the specular chain this pass fills.
    pub mip_level: u32,
    /// The edge length, in texels, of the level-zero face.
    pub resolution: u32,
}

impl SpecularPipelineDesc {
    /// A pre-filter pass for `mip_level` at `resolution`.
    pub fn new(mip_level: u32, resolution: u32) -> (d: SpecularPipelineDesc)
        ensures
            d.mip_level == mip_level,
            d.resolution == resolution,
    {
        SpecularPipelineDesc { mip_level, resolution }
    }
}

/// The pre-filter shader's single binding set: the roughness constants,
/// and the input target's view and sampler.
pub open spec fn spec_specular_layouts() -> Seq<Seq<BindGroupLayoutEntry>> {
    seq![
        seq![
            BindGroupLayoutEntry {
                binding: 0,
                visibility: STAGE_FRAGMENT,
                ty: BindingType::UniformBuffer,
            },
            BindGroupLayoutEntry {
                binding: 1,
                visibility: STAGE_FRAGMENT,
                ty: BindingType::SampledTexture { dimension: TextureViewDimension::D2 },
            },
            BindGroupLayoutEntry {
                binding: 2,
                visibility: STAGE_FRAGMENT,
                ty: BindingType::Sampler,
            },
        ],
    ]
}

impl SpecularPipelineDesc {
    /// The shader program this pass runs.
    pub fn load_shader(&self) -> (s: &'static str)
        ensures
            s@ == "specular.shader"@,
    {
        "specular.shader"
    }

    /// Declares the binding-set layouts.
    pub fn create_layout(&self) -> (l: Vec<Vec<BindGroupLayoutEntry>>)
        ensures
            l@.map_values(|v: Vec<BindGroupLayoutEntry>| v@) == spec_specular_layouts(),
    {
        let mut global_layout: Vec<BindGroupLayoutEntry> = Vec::new();
        global_layout.push(BindGroupLayoutEntry {
            binding: 0,
            visibility: STAGE_FRAGMENT,
            ty: BindingType::UniformBuffer,
        });
        global_layout.push(BindGroupLayoutEntry {
            binding: 1,
            visibility: STAGE_FRAGMENT,
            ty: BindingType::SampledTexture { dimension: TextureViewDimension::D2 },
        });
        global_layout.push(BindGroupLayoutEntry {
            binding: 2,
            visibility: STAGE_FRAGMENT,
            ty: BindingType::Sampler,
        });
        proof {
            assert(global_layout@ =~= spec_specular_layouts()[0]);
        }
        let mut l: Vec<Vec<BindGroupLayoutEntry>> = Vec::new();
        l.push(global_layout);
        proof {
            assert(l@.map_values(|v: Vec<BindGroupLayoutEntry>| v@) =~= spec_specular_layouts());
        }
        l
    }

    /// Clockwise front faces, no culling.
    pub fn rasterization_state_desc(&self) -> (r: RasterizationState)
        ensures
            r == (RasterizationState {
                front_face: FrontFace::Cw,
                cull_mode: CullMode::NoCulling,
                depth_bias: 0,
            }),
    {
        RasterizationState {
            front_face: FrontFace::Cw,
            cull_mode: CullMode::NoCulling,
            depth_bias: 0,
        }
    }

    /// Plain triangles.
    pub fn primitive_topology(&self) -> (t: PrimitiveTopology)
        ensures
            t == PrimitiveTopology::TriangleList,
    {
        PrimitiveTopology::TriangleList
    }

    /// One attachment in the pass's fixed offscreen format, blending off.
    pub fn color_states_desc(&self, _swap_format: TextureFormat) -> (v: Vec<ColorState>)
        ensures
            v@ == seq![
                ColorState {
                    format: TextureFormat::Rgba32Float,
                    color_blend: BlendMode::Replace,
                    alpha_blend: BlendMode::Replace,
                    write_mask: COLOR_WRITE_ALL,
                },
            ],
    {
        let mut v: Vec<ColorState> = Vec::new();
        v.push(ColorState {
            format: TextureFormat::Rgba32Float,
            color_blend: BlendMode::Replace,
            alpha_blend: BlendMode::Replace,
            write_mask: COLOR_WRITE_ALL,
        });
        proof {
            assert(v@ =~= seq![
                ColorState {
                    format: TextureFormat::Rgba32Float,
                    color_blend: BlendMode::Replace,
                    alpha_blend: BlendMode::Replace,
                    write_mask: COLOR_WRITE_ALL,
                },
            ]);
        }
        v
    }

    /// An offscreen pass: no depth attachment.
    pub fn depth_stencil_state_desc(&self) -> (d: Option<DepthStencilState>)
        ensures
            d == None::<DepthStencilState>,
    {
        None
    }

    /// The pass generates its vertices in the shader: no buffers.
    pub fn vertex_state_desc(&self) -> (v: VertexStateBuilder)
        ensures
            v@ == (VertexStateView {
                index_format: IndexFormat::Uint16,
                buffers: Seq::empty(),
            }),
    {
        empty_vertex_state()
    }
}

impl SimplePipelineDesc for SpecularPipelineDesc {
    open spec fn spec_description(&self, swap_format: TextureFormat) -> PipelineDescriptionView {
        PipelineDescriptionView {
            shader: "specular.shader"@,
            layouts: spec_specular_layouts(),
            rasterization: RasterizationState {
                front_face: FrontFace::Cw,
                cull_mode: CullMode::NoCulling,
                depth_bias: 0,
            },
            topology: PrimitiveTopology::TriangleList,
            color_states: seq![
                ColorState {
                    format: TextureFormat::Rgba32Float,
                    color_blend: BlendMode::Replace,
                    alpha_blend: BlendMode::Replace,
                    write_mask: COLOR_WRITE_ALL,
                },
            ],
            depth_stencil: None,
            vertex_state: VertexStateView {
                index_format: IndexFormat::Uint16,
                buffers: Seq::empty(),
            },
        }
    }

    open spec fn spec_behavior(&self) -> PassBehavior {
        PassBehavior::Specular { mip_level: self.mip_level, resolution: self.resolution }
    }

    fn description(&self, swap_format: TextureFormat) -> (d: PipelineDescription) {
        PipelineDescription {
            shader: String::from_str(self.load_shader()),
            layouts: self.create_layout(),
            rasterization: self.rasterization_state_desc(),
            topology: self.primitive_topology(),
            color_states: self.color_states_desc(swap_format),
            depth_stencil: self.depth_stencil_state_desc(),
            vertex_state: self.vertex_state_desc(),
        }
    }

    fn build(self) -> (b: PassBehavior) {
        PassBehavior::Specular { mip_level: self.mip_level, resolution: self.resolution }
    }
}

} // verus!
