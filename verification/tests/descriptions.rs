use framegraph::pipeline::{
    BindingType, CullMode, IndexFormat, SimplePipelineDesc, TextureViewDimension, VertexFormat,
    COLOR_WRITE_ALL, STAGE_FRAGMENT, STAGE_VERTEX,
};
use framegraph::pipelines::equirectangular::CubeProjectionPipelineDesc;
use framegraph::pipelines::irradiance::IrradiancePipelineDesc;
use framegraph::pipelines::pbr::PBRPipelineDesc;
use framegraph::pipelines::skybox::SkyboxPipelineDesc;
use framegraph::pipelines::specular::SpecularPipelineDesc;
use framegraph::pipelines::specular_brdf::SpecularBRDFPipelineDesc;
use framegraph::pipelines::unlit::UnlitPipelineDesc;
use framegraph::pass::PassBehavior;
use framegraph::target::TextureFormat;

const SWAP: TextureFormat = TextureFormat::Bgra8UnormSrgb;

#[test]
fn skybox_description() {
    let desc = SkyboxPipelineDesc::default();
    let d = desc.description(SWAP);
    assert_eq!(d.shader, "skybox.shader");
    assert_eq!(d.layouts.len(), 2);
    assert_eq!(d.layouts[0].len(), 1);
    assert_eq!(d.layouts[0][0].visibility, STAGE_VERTEX);
    assert_eq!(d.layouts[0][0].ty, BindingType::UniformBuffer);
    assert_eq!(d.layouts[1].len(), 2);
    assert_eq!(
        d.layouts[1][0].ty,
        BindingType::SampledTexture { dimension: TextureViewDimension::Cube }
    );
    assert_eq!(d.rasterization.cull_mode, CullMode::NoCulling);
    assert_eq!(d.color_states[0].format, SWAP);
    assert!(d.depth_stencil.is_some());
    assert_eq!(d.vertex_state.index_format, IndexFormat::Uint16);
    assert_eq!(d.vertex_state.buffers.len(), 0);
    assert_eq!(desc.build(), PassBehavior::Sky);
}

#[test]
fn unlit_description() {
    let desc = UnlitPipelineDesc::default();
    let d = desc.description(SWAP);
    assert_eq!(d.shader, "unlit.shader");
    assert_eq!(d.layouts.len(), 2);
    assert_eq!(d.layouts[1].len(), 3);
    assert_eq!(d.rasterization.cull_mode, CullMode::Back);
    assert_eq!(d.vertex_state.index_format, IndexFormat::Uint32);
    assert_eq!(d.vertex_state.buffers.len(), 1);
    let buffer = &d.vertex_state.buffers[0];
    // position, normal, texture coordinates, tangent: twelve floats packed
    assert_eq!(buffer.stride, 48);
    assert_eq!(buffer.attributes.len(), 4);
    assert_eq!(buffer.attributes[0].format, VertexFormat::Float3);
    assert_eq!(buffer.attributes[0].offset, 0);
    assert_eq!(buffer.attributes[1].offset, 12);
    assert_eq!(buffer.attributes[2].format, VertexFormat::Float2);
    assert_eq!(buffer.attributes[2].offset, 24);
    assert_eq!(buffer.attributes[3].format, VertexFormat::Float4);
    assert_eq!(buffer.attributes[3].offset, 32);
    assert_eq!(desc.build(), PassBehavior::Unlit);
}

#[test]
fn pbr_description() {
    let desc = PBRPipelineDesc::default();
    let d = desc.description(SWAP);
    assert_eq!(d.shader, "pbr.shader");
    assert_eq!(d.layouts.len(), 3);
    assert_eq!(d.layouts[0].len(), 2);
    assert_eq!(d.layouts[0][1].visibility, STAGE_VERTEX | STAGE_FRAGMENT);
    assert_eq!(d.layouts[2].len(), 6);
    assert_eq!(
        d.layouts[2][0].ty,
        BindingType::SampledTexture { dimension: TextureViewDimension::Cube }
    );
    assert_eq!(d.layouts[2][5].ty, BindingType::Sampler);
    assert!(d.depth_stencil.is_some());
    assert_eq!(desc.build(), PassBehavior::Pbr);
}

#[test]
fn cube_projection_description() {
    let desc = CubeProjectionPipelineDesc::new("sky.hdr".to_string(), 512);
    assert_eq!(desc.size, 512);
    let d = desc.description(SWAP);
    assert_eq!(d.shader, "hdr_to_cubemap.shader");
    assert_eq!(d.layouts.len(), 1);
    // offscreen: fixed format, no depth
    assert_eq!(d.color_states[0].format, TextureFormat::Rgba32Float);
    assert!(d.depth_stencil.is_none());
    assert_eq!(
        desc.build(),
        PassBehavior::CubeProjection { texture: "sky.hdr".to_string() }
    );
}

#[test]
fn irradiance_description() {
    let desc = IrradiancePipelineDesc::new(64);
    let d = desc.description(SWAP);
    assert_eq!(d.shader, "irradiance.shader");
    assert_eq!(d.layouts.len(), 1);
    assert_eq!(d.layouts[0].len(), 2);
    assert_eq!(d.layouts[0][0].visibility, STAGE_FRAGMENT);
    assert_eq!(d.color_states[0].format, TextureFormat::Rgba32Float);
    assert_eq!(desc.build(), PassBehavior::Irradiance);
}

#[test]
fn specular_description() {
    let desc = SpecularPipelineDesc::new(2, 1024);
    let d = desc.description(SWAP);
    assert_eq!(d.shader, "specular.shader");
    assert_eq!(d.layouts.len(), 1);
    assert_eq!(d.layouts[0].len(), 3);
    assert_eq!(d.layouts[0][0].ty, BindingType::UniformBuffer);
    assert_eq!(
        desc.build(),
        PassBehavior::Specular { mip_level: 2, resolution: 1024 }
    );
}

#[test]
fn specular_brdf_description() {
    let desc = SpecularBRDFPipelineDesc::new(512);
    let d = desc.description(SWAP);
    assert_eq!(d.shader, "specular_brdf.shader");
    assert_eq!(d.layouts.len(), 0);
    assert_eq!(d.color_states[0].format, TextureFormat::Rgba8UnormSrgb);
    assert_eq!(d.color_states[0].write_mask, COLOR_WRITE_ALL);
    assert_eq!(desc.build(), PassBehavior::SpecularBrdf);
}
