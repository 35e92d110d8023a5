use framegraph::command::Cmd;
use framegraph::graph::RenderGraph;
use framegraph::pipelines::equirectangular::CubeProjectionPipelineDesc;
use framegraph::pipelines::pbr::PBRPipelineDesc;
use framegraph::pipelines::skybox::SkyboxPipelineDesc;
use framegraph::pipelines::unlit::UnlitPipelineDesc;
use framegraph::scene::{AssetManager, CameraData, EntityRow, Material, MaterialKind, Mesh,
    SubMesh, World};
use framegraph::target::{RenderTarget, TextureFormat, TEXTURE_USAGE_COPY_SRC,
    TEXTURE_USAGE_OUTPUT_ATTACHMENT, TEXTURE_USAGE_SAMPLED};
use framegraph::GraphError;

const SWAP: TextureFormat = TextureFormat::Bgra8UnormSrgb;

fn empty_world() -> World {
    World { cameras: Vec::new(), entities: Vec::new(), has_skybox: false }
}

fn empty_assets() -> AssetManager {
    AssetManager { materials: Vec::new(), meshes: Vec::new(), images: Vec::new() }
}

fn atlas_target(id: u64, width: u32, height: u32) -> RenderTarget {
    RenderTarget::new(
        id,
        width,
        height,
        1,
        1,
        TextureFormat::Rgba32Float,
        TEXTURE_USAGE_SAMPLED | TEXTURE_USAGE_COPY_SRC | TEXTURE_USAGE_OUTPUT_ATTACHMENT,
    )
}

#[test]
fn duplicate_node_is_rejected() {
    let mut g = RenderGraph::new();
    g.add(
        "skybox".to_string(),
        SkyboxPipelineDesc::default(),
        &Vec::new(),
        false,
        SWAP,
        None,
        false,
        false,
    )
    .unwrap();
    let r = g.add(
        "skybox".to_string(),
        SkyboxPipelineDesc::default(),
        &Vec::new(),
        false,
        SWAP,
        None,
        false,
        false,
    );
    assert!(matches!(r, Err(GraphError::DuplicateNode)));
}

#[test]
fn unknown_dependency_leaves_nodes_unchanged() {
    let mut g = RenderGraph::new();
    g.add(
        "a".to_string(),
        SkyboxPipelineDesc::default(),
        &Vec::new(),
        false,
        SWAP,
        None,
        false,
        false,
    )
    .unwrap();
    let r = g.add(
        "b".to_string(),
        UnlitPipelineDesc::default(),
        &vec!["missing".to_string()],
        true,
        SWAP,
        None,
        false,
        false,
    );
    assert!(matches!(r, Err(GraphError::UnknownDependency)));
    // the failed registration left no trace of "b" ...
    assert!(matches!(g.get(&"b".to_string()), Err(GraphError::UnknownNode)));
    // ... so registering it properly still works
    g.add(
        "b".to_string(),
        UnlitPipelineDesc::default(),
        &vec!["a".to_string()],
        true,
        SWAP,
        None,
        false,
        false,
    )
    .unwrap();
    assert!(g.get(&"b".to_string()).is_ok());
}

#[test]
fn get_unknown_node_fails() {
    let g = RenderGraph::new();
    assert!(matches!(g.get(&"nope".to_string()), Err(GraphError::UnknownNode)));
}

#[test]
fn pull_render_target_moves_the_target_out() {
    let mut g = RenderGraph::new();
    let t = atlas_target(7, 16, 96);
    g.add(
        "sky".to_string(),
        CubeProjectionPipelineDesc::new("env.hdr".to_string(), 16),
        &Vec::new(),
        false,
        SWAP,
        Some(t),
        false,
        false,
    )
    .unwrap();
    let pulled = g.pull_render_target(&"sky".to_string()).unwrap();
    assert_eq!(pulled, t);
    // a second pull finds the slot empty
    assert!(matches!(
        g.pull_render_target(&"sky".to_string()),
        Err(GraphError::NoOutput)
    ));
    // an unknown name is told apart from an emptied slot
    assert!(matches!(
        g.pull_render_target(&"other".to_string()),
        Err(GraphError::UnknownNode)
    ));
}

#[test]
fn resolve_order_puts_dependencies_first() {
    let mut g = RenderGraph::new();
    g.add(
        "skybox".to_string(),
        SkyboxPipelineDesc::default(),
        &Vec::new(),
        false,
        SWAP,
        None,
        false,
        false,
    )
    .unwrap();
    g.add(
        "unlit".to_string(),
        UnlitPipelineDesc::default(),
        &vec!["skybox".to_string()],
        true,
        SWAP,
        None,
        false,
        false,
    )
    .unwrap();
    g.add(
        "pbr".to_string(),
        PBRPipelineDesc::default(),
        &vec!["skybox".to_string()],
        true,
        SWAP,
        None,
        false,
        false,
    )
    .unwrap();
    let order = g.resolve_order().unwrap();
    assert_eq!(order, vec!["skybox".to_string(), "unlit".to_string(), "pbr".to_string()]);
}

#[test]
fn no_render_target_without_output_or_frame() {
    let mut g = RenderGraph::new();
    g.add(
        "skybox".to_string(),
        SkyboxPipelineDesc::default(),
        &Vec::new(),
        false,
        SWAP,
        None,
        false,
        false,
    )
    .unwrap();
    let r = g.render(&empty_world(), &empty_assets(), false);
    assert_eq!(r, Err(GraphError::NoRenderTarget));
}

#[test]
fn empty_graph_renders_no_commands() {
    let mut g = RenderGraph::new();
    let cmds = g.render(&empty_world(), &empty_assets(), true).unwrap();
    assert_eq!(cmds.len(), 0);
}

#[test]
fn skybox_with_zero_active_cameras_draws_nothing() {
    let mut g = RenderGraph::new();
    g.add(
        "skybox".to_string(),
        SkyboxPipelineDesc::default(),
        &Vec::new(),
        false,
        SWAP,
        None,
        false,
        false,
    )
    .unwrap();
    let world = World { cameras: Vec::new(), entities: Vec::new(), has_skybox: true };
    let cmds = g.render(&world, &empty_assets(), true).unwrap();
    // the pass still opens and closes its render pass, but issues no work
    assert_eq!(
        cmds,
        vec![
            Cmd::BeginFramePass { node: 0 },
            Cmd::EndPass { node: 0 },
        ]
    );
}

#[test]
fn skybox_with_two_active_cameras_draws_nothing() {
    let mut g = RenderGraph::new();
    g.add(
        "skybox".to_string(),
        SkyboxPipelineDesc::default(),
        &Vec::new(),
        false,
        SWAP,
        None,
        false,
        false,
    )
    .unwrap();
    let world = World {
        cameras: vec![CameraData { active: true }, CameraData { active: true }],
        entities: Vec::new(),
        has_skybox: true,
    };
    let cmds = g.render(&world, &empty_assets(), true).unwrap();
    assert!(!cmds.iter().any(|c| matches!(c, Cmd::Draw { .. } | Cmd::DrawIndexed { .. })));
}

#[test]
fn skybox_with_one_active_camera_draws_once() {
    let mut g = RenderGraph::new();
    g.add(
        "skybox".to_string(),
        SkyboxPipelineDesc::default(),
        &Vec::new(),
        false,
        SWAP,
        None,
        false,
        false,
    )
    .unwrap();
    let world = World {
        cameras: vec![CameraData { active: false }, CameraData { active: true }],
        entities: Vec::new(),
        has_skybox: true,
    };
    let cmds = g.render(&world, &empty_assets(), true).unwrap();
    let draws = cmds
        .iter()
        .filter(|c| matches!(c, Cmd::Draw { vertex_count: 3, instance_count: 1 }))
        .count();
    assert_eq!(draws, 1);
}

#[test]
fn cube_map_derivation_copies_the_six_slices() {
    // a 4 x 24 atlas: six stacked 4 x 4 faces
    let mut g = RenderGraph::new();
    let src = atlas_target(100, 4, 24);
    let mut assets = empty_assets();
    assets.images.push("env.hdr".to_string());
    g.add(
        "projection".to_string(),
        CubeProjectionPipelineDesc::new("env.hdr".to_string(), 4),
        &Vec::new(),
        false,
        SWAP,
        Some(src),
        false,
        true,
    )
    .unwrap();
    let cmds = g.render(&empty_world(), &assets, false).unwrap();

    // the derived target replaced the node's output
    let derived = g.pull_render_target(&"projection".to_string()).unwrap();
    assert_eq!(derived.layer_count, 6);
    assert_eq!(derived.width, 4);
    assert_eq!(derived.height, 4);
    assert_eq!(derived.format, TextureFormat::Rgba32Float);

    // replay the recorded copies against texel arrays: row r of the atlas
    // holds the value r in every texel
    let atlas: Vec<Vec<u32>> = (0..24u32).map(|r| vec![r; 4]).collect();
    let mut faces: Vec<Vec<Vec<u32>>> = vec![vec![vec![9999; 4]; 4]; 6];
    let mut copies = 0;
    for c in &cmds {
        if let Cmd::CopyTargetRegion { src: s, src_y, dst, dst_layer, width, height } = c {
            assert_eq!(*s, 100);
            assert_eq!(*dst, derived.id);
            assert_eq!(*width, 4);
            assert_eq!(*height, 4);
            for r in 0..*height as usize {
                faces[*dst_layer as usize][r] = atlas[*src_y as usize + r].clone();
            }
            copies += 1;
        }
    }
    assert_eq!(copies, 6);
    for i in 0..6usize {
        for r in 0..4usize {
            // face i, row r came from atlas row i*4 + r
            assert_eq!(faces[i][r], vec![(i * 4 + r) as u32; 4]);
        }
    }
}

#[test]
fn full_scene_places_sky_first_and_derives_its_cube_map() {
    let mut g = RenderGraph::new();
    let mut assets = empty_assets();
    assets.images.push("env.hdr".to_string());
    assets.materials.push(Material { kind: MaterialKind::Unlit, index: 0 });
    assets.meshes.push(Mesh {
        sub_meshes: vec![SubMesh { index_count: 36, material_index: 0 }],
    });
    let sky_target = atlas_target(1, 8, 48);
    g.add(
        "sky".to_string(),
        CubeProjectionPipelineDesc::new("env.hdr".to_string(), 8),
        &Vec::new(),
        false,
        SWAP,
        Some(sky_target),
        false,
        true,
    )
    .unwrap();
    g.add(
        "unlit".to_string(),
        UnlitPipelineDesc::default(),
        &vec!["sky".to_string()],
        true,
        SWAP,
        None,
        false,
        false,
    )
    .unwrap();
    g.add(
        "pbr".to_string(),
        PBRPipelineDesc::default(),
        &vec!["sky".to_string()],
        true,
        SWAP,
        None,
        false,
        false,
    )
    .unwrap();

    let order = g.resolve_order().unwrap();
    let pos = |n: &str| order.iter().position(|x| x == n).unwrap();
    assert!(pos("sky") < pos("unlit"));
    assert!(pos("sky") < pos("pbr"));

    let world = World {
        cameras: vec![CameraData { active: true }],
        entities: vec![EntityRow { mesh: 0, material_index: 0 }],
        has_skybox: true,
    };
    g.render(&world, &assets, true).unwrap();

    // after the frame, sky's output was replaced by a six-layer cube target
    let out = g.pull_render_target(&"sky".to_string()).unwrap();
    assert_eq!(out.layer_count, 6);
    assert_eq!(out.width, 8);
    assert_eq!(out.height, 8);
}

#[test]
fn consuming_pass_binds_its_dependency_output() {
    let mut g = RenderGraph::new();
    let mut assets = empty_assets();
    assets.images.push("env.hdr".to_string());
    let projection_out = atlas_target(40, 8, 48);
    let irradiance_out = atlas_target(41, 8, 48);
    g.add(
        "projection".to_string(),
        CubeProjectionPipelineDesc::new("env.hdr".to_string(), 8),
        &Vec::new(),
        false,
        SWAP,
        Some(projection_out),
        false,
        false,
    )
    .unwrap();
    g.add(
        "irradiance".to_string(),
        framegraph::pipelines::irradiance::IrradiancePipelineDesc::new(8),
        &vec!["projection".to_string()],
        false,
        SWAP,
        Some(irradiance_out),
        true,
        false,
    )
    .unwrap();
    let cmds = g.render(&empty_world(), &assets, false).unwrap();
    // the irradiance pass rebuilt its binding set around its dependency's
    // current output, and drew
    assert!(cmds.contains(&Cmd::BindInput { node: 1, target: 40 }));
    assert!(cmds.contains(&Cmd::Draw { vertex_count: 6, instance_count: 6 }));

    // once the dependency's output is pulled, the pass skips silently
    // (the projection pass itself now falls back to the swap image)
    g.pull_render_target(&"projection".to_string()).unwrap();
    let cmds = g.render(&empty_world(), &assets, true).unwrap();
    assert!(!cmds.iter().any(|c| matches!(c, Cmd::BindInput { node: 1, .. })));
    let own_draws = cmds
        .iter()
        .filter(|c| matches!(c, Cmd::Draw { vertex_count: 6, instance_count: 6 }))
        .count();
    // only the projection pass itself still draws
    assert_eq!(own_draws, 1);
}

#[test]
fn local_bindings_prepend_the_shared_layout() {
    let mut g = RenderGraph::new();
    g.add(
        "unlit".to_string(),
        UnlitPipelineDesc::default(),
        &Vec::new(),
        true,
        SWAP,
        None,
        false,
        false,
    )
    .unwrap();
    let node = g.get(&"unlit".to_string()).unwrap();
    // the pass declares two binding sets; the graph's per-object layout
    // comes in front of them
    assert_eq!(node.pipeline.desc.layouts.len(), 3);
    assert_eq!(node.pipeline.desc.layouts[0].len(), 1);
    assert_eq!(node.pipeline.desc.layouts[0][0].binding, 0);
}
