use vstd::prelude::*;

use crate::pass::PassBehavior;
use crate::pipeline::{
    BindGroupLayoutEntry, BlendMode, ColorState,
    CullMode, DepthStencilState, FrontFace, IndexFormat,
    PipelineDescription, PipelineDescriptionView, PrimitiveTopology, RasterizationState,
    SimplePipelineDesc, VertexStateBuilder, VertexStateView,
    COLOR_WRITE_ALL, empty_vertex_state,
};
use crate::target::TextureFormat;

verus! {

/// Describes the specular BRDF look-up-table pass: it needs no inputs
/// at all and renders the table into its own offscreen target.
#[derive(Clone, Copy, Debug, PartialEq, Eq, Structural)]
pub struct SpecularBRDFPipelineDesc {
    /// The edge length, in texels, of the table.
    pub size: u32,
}

impl SpecularBRDFPipelineDesc {
    /// A look-up-table pass of `size` texels.
    pub fn new(size: u32) -> (d: SpecularBRDFPipelineDesc)
        ensures
            d.size == size,
    {
        SpecularBRDFPipelineDesc { size }
    }
}

/// The table shader declares no bindings at all.
pub open spec fn spec_specular_brdf_layouts() -> Seq<Seq<BindGroupLayoutEntry>> {
    Seq::empty()
}

impl SpecularBRDFPipelineDesc {
    /// The shader program this pass runs.
    pub fn load_shader(&self) -> (s: &'static str)
        ensures
            s@ == "specular_brdf.shader"@,
    {
        "specular_brdf.shader"
    }

    /// Declares the binding-set layouts.
    pub fn create_layout(&self) -> (l: Vec<Vec<BindGroupLayoutEntry>>)
        ensures
            l@.map_values(|v: Vec<BindGroupLayoutEntry>| v@) == spec_specular_brdf_layouts(),
    {
        let mut l: Vec<Vec<BindGroupLayoutEntry>> = Vec::new();
        proof {
            assert(l@.map_values(|v: Vec<BindGroupLayoutEntry>| v@) =~= spec_specular_brdf_layouts());
        }
        l
    }

    /// Clockwise front faces, no culling.
    pub fn rasterization_state_desc(&self) -> (r: RasterizationState)
        ensures
            r == (RasterizationState {
                front_face: FrontFace::Cw,
                cull_mode: CullMode::NoCulling,
                depth_bias: 0,
            }),
    {
        RasterizationState {
            front_face: FrontFace::Cw,
            cull_mode: CullMode::NoCulling,
            depth_bias: 0,
        }
    }

    /// Plain triangles.
    pub fn primitive_topology(&self) -> (t: PrimitiveTopology)
        ensures
            t == PrimitiveTopology::TriangleList,
    {
        PrimitiveTopology::TriangleList
    }

    /// One attachment in the pass's fixed offscreen format, blending off.
    pub fn color_states_desc(&self, _swap_format: TextureFormat) -> (v: Vec<ColorState>)
        ensures
            v@ == seq![
                ColorState {
                    format: TextureFormat::Rgba8UnormSrgb,
                    color_blend: BlendMode::Replace,
                    alpha_blend: BlendMode::Replace,
                    write_mask: COLOR_WRITE_ALL,
                },
            ],
    {
        let mut v: Vec<ColorState> = Vec::new();
        v.push(ColorState {
            format: TextureFormat::Rgba8UnormSrgb,
            color_blend: BlendMode::Replace,
            alpha_blend: BlendMode::Replace,
            write_mask: COLOR_WRITE_ALL,
        });
        proof {
            assert(v@ =~= seq![
                ColorState {
                    format: TextureFormat::Rgba8UnormSrgb,
                    color_blend: BlendMode::Replace,
                    alpha_blend: BlendMode::Replace,
                    write_mask: COLOR_WRITE_ALL,
                },
            ]);
        }
        v
    }

    /// An offscreen pass: no depth attachment.
    pub fn depth_stencil_state_desc(&self) -> (d: Option<DepthStencilState>)
        ensures
            d == None::<DepthStencilState>,
    {
        None
    }

    /// The pass generates its vertices in the shader: no buffers.
    pub fn vertex_state_desc(&self) -> (v: VertexStateBuilder)
        ensures
            v@ == (VertexStateView {
                index_format: IndexFormat::Uint16,
                buffers: Seq::empty(),
            }),
    {
        empty_vertex_state()
    }
}

impl SimplePipelineDesc for SpecularBRDFPipelineDesc {
    open spec fn spec_description(&self, swap_format: TextureFormat) -> PipelineDescriptionView {
        PipelineDescriptionView {
            shader: "specular_brdf.shader"@,
            layouts: spec_specular_brdf_layouts(),
            rasterization: RasterizationState {
                front_face: FrontFace::Cw,
                cull_mode: CullMode::NoCulling,
                depth_bias: 0,
            },
            topology: PrimitiveTopology::TriangleList,
            color_states: seq![
                ColorState {
                    format: TextureFormat::Rgba8UnormSrgb,
                    color_blend: BlendMode::Replace,
                    alpha_blend: BlendMode::Replace,
                    write_mask: COLOR_WRITE_ALL,
                },
            ],
            depth_stencil: None,
            vertex_state: VertexStateView {
                index_format: IndexFormat::Uint16,
                buffers: Seq::empty(),
            },
        }
    }

    open spec fn spec_behavior(&self) -> PassBehavior {
        PassBehavior::SpecularBrdf
    }

    fn description(&self, swap_format: TextureFormat) -> (d: PipelineDescription) {
        PipelineDescription {
            shader: String::from_str(self.load_shader()),
            layouts: self.create_layout(),
            rasterization: self.rasterization_state_desc(),
            topology: self.primitive_topology(),
            color_states: self.color_states_desc(swap_format),
            depth_stencil: self.depth_stencil_state_desc(),
            vertex_state: self.vertex_state_desc(),
        }
    }

    fn build(self) -> (b: PassBehavior) {
        PassBehavior::SpecularBrdf
    }
}

} // verus!
