use framegraph::command::Cmd;
use framegraph::scene::{AssetManager, CameraData, World};
use framegraph::target::{derive_cubemap, RenderTarget, TextureFormat, TEXTURE_USAGE_COPY_DST,
    TEXTURE_USAGE_SAMPLED};

#[test]
fn derive_cubemap_emits_the_six_region_copies() {
    let src = RenderTarget::new(3, 32, 192, 1, 1, TextureFormat::Rgba32Float, 0);
    let (derived, cmds) = derive_cubemap(&src, 9);
    assert_eq!(derived.id, 9);
    assert_eq!(derived.width, 32);
    assert_eq!(derived.height, 32);
    assert_eq!(derived.layer_count, 6);
    assert_eq!(derived.mip_count, 1);
    assert_eq!(derived.format, TextureFormat::Rgba32Float);
    assert_eq!(derived.usage, TEXTURE_USAGE_SAMPLED | TEXTURE_USAGE_COPY_DST);

    assert_eq!(cmds.len(), 7);
    assert_eq!(cmds[0], Cmd::CreateTarget { descriptor: derived });
    for i in 0..6u32 {
        assert_eq!(
            cmds[1 + i as usize],
            Cmd::CopyTargetRegion {
                src: 3,
                src_y: i * 32,
                dst: 9,
                dst_layer: i,
                width: 32,
                height: 32,
            }
        );
    }
}

#[test]
fn active_camera_count_counts_only_active_flags() {
    let world = World {
        cameras: vec![
            CameraData { active: false },
            CameraData { active: true },
            CameraData { active: false },
            CameraData { active: true },
        ],
        entities: Vec::new(),
        has_skybox: false,
    };
    assert_eq!(world.active_camera_count(), 2);
}

#[test]
fn image_lookup_finds_loaded_images() {
    let assets = AssetManager {
        materials: Vec::new(),
        meshes: Vec::new(),
        images: vec!["a.png".to_string(), "env.hdr".to_string()],
    };
    assert!(assets.image_is_loaded(&"env.hdr".to_string()));
    assert!(!assets.image_is_loaded(&"missing.png".to_string()));
}

#[test]
fn derivation_rounds_the_face_height_down() {
    let src = RenderTarget::new(1, 10, 20, 1, 1, TextureFormat::Rgba32Float, 0);
    let (derived, cmds) = derive_cubemap(&src, 2);
    assert_eq!(derived.height, 3);
    // slice offsets stay inside the atlas
    for c in &cmds[1..] {
        if let Cmd::CopyTargetRegion { src_y, height, .. } = c {
            assert!(src_y + height <= 20);
        }
    }
}

#[test]
fn derivation_of_an_empty_atlas_is_empty_but_well_formed() {
    let src = RenderTarget::new(1, 0, 0, 1, 1, TextureFormat::Rgba32Float, 0);
    let (derived, cmds) = derive_cubemap(&src, 2);
    assert_eq!(derived.layer_count, 6);
    assert_eq!(derived.height, 0);
    assert_eq!(cmds.len(), 7);
}
