use vstd::prelude::*;

use crate::pass::PassBehavior;
use crate::pipeline::{
    BindGroupLayoutEntry, BindingType, BlendMode, ColorState,
    CullMode, DepthStencilState, FrontFace, IndexFormat,
    PipelineDescription, PipelineDescriptionView, PrimitiveTopology, RasterizationState,
    SimplePipelineDesc, TextureViewDimension, VertexStateBuilder, VertexStateView,
    COLOR_WRITE_ALL, STAGE_FRAGMENT, empty_vertex_state,
};
use crate::target::TextureFormat;

verus! {

/// Describes the irradiance convolution pass: it samples its
/// dependency's output and renders the diffuse irradiance cube atlas into
/// its own offscreen target.
#[derive(Clone, Copy, Debug, PartialEq, Eq, Structural)]
pub struct IrradiancePipelineDesc {
    /// The edge length, in texels, of one cube face.
    pub size: u32,
}

impl IrradiancePipelineDesc {
    /// A convolution pass producing `size`-texel faces.
    pub fn new(size: u32) -> (d: IrradiancePipelineDesc)
        ensures
            d.size == size,
    {
        IrradiancePipelineDesc { size }
    }
}

/// The convolution shader's single binding set: the input target's view
/// and sampler.
pub open spec fn spec_irradiance_layouts() -> Seq<Seq<BindGroupLayoutEntry>> {
    seq![
        seq![
            BindGroupLayoutEntry {
                binding: 0,
                visibility: STAGE_FRAGMENT,
                ty: BindingType::SampledTexture { dimension: TextureViewDimension::D2 },
            },
            BindGroupLayoutEntry {
                binding: 1,
                visibility: STAGE_FRAGMENT,
                ty: BindingType::Sampler,
            },
        ],
    ]
}

impl IrradiancePipelineDesc {
    /// The shader program this pass runs.
    pub fn load_shader(&self) -> (s: &'static str)
        ensures
            s@ == "irradiance.shader"@,
    {
        "irradiance.shader"
    }

    /// Declares the binding-set layouts.
    pub fn create_layout(&self) -> (l: Vec<Vec<BindGroupLayoutEntry>>)
        ensures
            l@.map_values(|v: Vec<BindGroupLayoutEntry>| v@) == spec_irradiance_layouts(),
    {
        let mut global_layout: Vec<BindGroupLayoutEntry> = Vec::new();
        global_layout.push(BindGroupLayoutEntry {
            binding: 0,
            visibility: STAGE_FRAGMENT,
            ty: BindingType::SampledTexture { dimension: TextureViewDimension::D2 },
        });
        global_layout.push(BindGroupLayoutEntry {
            binding: 1,
            visibility: STAGE_FRAGMENT,
            ty: BindingType::Sampler,
        });
        proof {
            assert(global_layout@ =~= spec_irradiance_layouts()[0]);
        }
        let mut l: Vec<Vec<BindGroupLayoutEntry>> = Vec::new();
        l.push(global_layout);
        proof {
            assert(l@.map_values(|v: Vec<BindGroupLayoutEntry>| v@) =~= spec_irradiance_layouts());
        }
        l
    }

    /// Clockwise front faces, no culling.
    pub fn rasterization_state_desc(&self) -> (r: RasterizationState)
        ensures
            r == (RasterizationState {
                front_face: FrontFace::Cw,
                cull_mode: CullMode::NoCulling,
                depth_bias: 0,
            }),
    {
        RasterizationState {
            front_face: FrontFace::Cw,
            cull_mode: CullMode::NoCulling,
            depth_bias: 0,
        }
    }

    /// Plain triangles.
    pub fn primitive_topology(&self) -> (t: PrimitiveTopology)
        ensures
            t == PrimitiveTopology::TriangleList,
    {
        PrimitiveTopology::TriangleList
    }

    /// One attachment in the pass's fixed offscreen format, blending off.
    pub fn color_states_desc(&self, _swap_format: TextureFormat) -> (v: Vec<ColorState>)
        ensures
            v@ == seq![
                ColorState {
                    format: TextureFormat::Rgba32Float,
                    color_blend: BlendMode::Replace,
                    alpha_blend: BlendMode::Replace,
                    write_mask: COLOR_WRITE_ALL,
                },
            ],
    {
        let mut v: Vec<ColorState> = Vec::new();
        v.push(ColorState {
            format: TextureFormat::Rgba32Float,
            color_blend: BlendMode::Replace,
            alpha_blend: BlendMode::Replace,
            write_mask: COLOR_WRITE_ALL,
        });
        proof {
            assert(v@ =~= seq![
                ColorState {
                    format: TextureFormat::Rgba32Float,
                    color_blend: BlendMode::Replace,
                    alpha_blend: BlendMode::Replace,
                    write_mask: COLOR_WRITE_ALL,
                },
            ]);
        }
        v
    }

    /// An offscreen pass: no depth attachment.
    pub fn depth_stencil_state_desc(&self) -> (d: Option<DepthStencilState>)
        ensures
            d == None::<DepthStencilState>,
    {
        None
    }

    /// The pass generates its vertices in the shader: no buffers.
    pub fn vertex_state_desc(&self) -> (v: VertexStateBuilder)
        ensures
            v@ == (VertexStateView {
                index_format: IndexFormat::Uint16,
                buffers: Seq::empty(),
            }),
    {
        empty_vertex_state()
    }
}

impl SimplePipelineDesc for IrradiancePipelineDesc {
    open spec fn spec_description(&self, swap_format: TextureFormat) -> PipelineDescriptionView {
        PipelineDescriptionView {
            shader: "irradiance.shader"@,
            layouts: spec_irradiance_layouts(),
            rasterization: RasterizationState {
                front_face: FrontFace::Cw,
                cull_mode: CullMode::NoCulling,
                depth_bias: 0,
            },
            topology: PrimitiveTopology::TriangleList,
            color_states: seq![
                ColorState {
                    format: TextureFormat::Rgba32Float,
                    color_blend: BlendMode::Replace,
                    alpha_blend: BlendMode::Replace,
                    write_mask: COLOR_WRITE_ALL,
                },
            ],
            depth_stencil: None,
            vertex_state: VertexStateView {
                index_format: IndexFormat::Uint16,
                buffers: Seq::empty(),
            },
        }
    }

    open spec fn spec_behavior(&self) -> PassBehavior {
        PassBehavior::Irradiance
    }

    fn description(&self, swap_format: TextureFormat) -> (d: PipelineDescription) {
        PipelineDescription {
            shader: String::from_str(self.load_shader()),
            layouts: self.create_layout(),
            rasterization: self.rasterization_state_desc(),
            topology: self.primitive_topology(),
            color_states: self.color_states_desc(swap_format),
            depth_stencil: self.depth_stencil_state_desc(),
            vertex_state: self.vertex_state_desc(),
        }
    }

    fn build(self) -> (b: PassBehavior) {
        PassBehavior::Irradiance
    }
}

} // verus!
