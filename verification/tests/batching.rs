use framegraph::batch::submit_batched;
use framegraph::command::{BindGroupRef, Cmd};
use framegraph::pass::PassBehavior;
use framegraph::scene::{AssetManager, CameraData, EntityRow, Material, MaterialKind, Mesh,
    SubMesh, World};

fn one_submesh_mesh() -> Mesh {
    Mesh { sub_meshes: vec![SubMesh { index_count: 36, material_index: 0 }] }
}

fn material_bind_count(cmds: &[Cmd]) -> usize {
    cmds.iter()
        .filter(|c| matches!(
            c,
            Cmd::SetBindGroup { slot: 2, group: BindGroupRef::Material { .. } }
        ))
        .count()
}

fn entity_bind_count(cmds: &[Cmd], e: usize) -> usize {
    cmds.iter()
        .filter(|c| match c {
            Cmd::SetBindGroup { slot: 0, group: BindGroupRef::Transform { entity } } => {
                *entity == e
            },
            _ => false,
        })
        .count()
}

#[test]
fn two_materials_bind_twice_and_draw_every_entity_once() {
    let materials = vec![
        Material { kind: MaterialKind::Unlit, index: 0 },
        Material { kind: MaterialKind::Unlit, index: 1 },
    ];
    // three entities on material 0, two on material 1
    let entities = vec![
        EntityRow { mesh: 0, material_index: 0 },
        EntityRow { mesh: 0, material_index: 0 },
        EntityRow { mesh: 0, material_index: 1 },
        EntityRow { mesh: 0, material_index: 0 },
        EntityRow { mesh: 0, material_index: 1 },
    ];
    let meshes = vec![one_submesh_mesh()];
    let cmds = submit_batched(MaterialKind::Unlit, &materials, &entities, &meshes);

    // exactly one material binding-set switch per distinct material
    assert_eq!(material_bind_count(&cmds), 2);
    // every entity is drawn exactly once
    for e in 0..entities.len() {
        assert_eq!(entity_bind_count(&cmds, e), 1);
    }
    // one indexed draw per entity (each mesh has one sub-mesh)
    let draws = cmds
        .iter()
        .filter(|c| matches!(c, Cmd::DrawIndexed { index_count: 36 }))
        .count();
    assert_eq!(draws, 5);
}

#[test]
fn batch_touches_only_materials_of_its_shading_model() {
    let materials = vec![
        Material { kind: MaterialKind::Unlit, index: 0 },
        Material { kind: MaterialKind::Pbr, index: 1 },
    ];
    let entities = vec![
        EntityRow { mesh: 0, material_index: 0 },
        EntityRow { mesh: 0, material_index: 1 },
    ];
    let meshes = vec![one_submesh_mesh()];
    let cmds = submit_batched(MaterialKind::Pbr, &materials, &entities, &meshes);
    assert_eq!(material_bind_count(&cmds), 1);
    assert_eq!(entity_bind_count(&cmds, 0), 0);
    assert_eq!(entity_bind_count(&cmds, 1), 1);
}

#[test]
fn material_binds_do_not_grow_with_entity_count() {
    let materials = vec![Material { kind: MaterialKind::Unlit, index: 0 }];
    let entities: Vec<EntityRow> = (0..100)
        .map(|_| EntityRow { mesh: 0, material_index: 0 })
        .collect();
    let meshes = vec![one_submesh_mesh()];
    let cmds = submit_batched(MaterialKind::Unlit, &materials, &entities, &meshes);
    assert_eq!(material_bind_count(&cmds), 1);
}

#[test]
fn every_sub_mesh_of_an_entity_is_drawn() {
    let materials = vec![Material { kind: MaterialKind::Unlit, index: 3 }];
    let entities = vec![EntityRow { mesh: 0, material_index: 3 }];
    let meshes = vec![Mesh {
        sub_meshes: vec![
            SubMesh { index_count: 6, material_index: 3 },
            SubMesh { index_count: 12, material_index: 3 },
        ],
    }];
    let cmds = submit_batched(MaterialKind::Unlit, &materials, &entities, &meshes);
    assert_eq!(
        cmds,
        vec![
            Cmd::SetBindGroup { slot: 2, group: BindGroupRef::Material { index: 3 } },
            Cmd::SetBindGroup { slot: 0, group: BindGroupRef::Transform { entity: 0 } },
            Cmd::SetIndexBuffer { mesh: 0, sub_mesh: 0 },
            Cmd::SetVertexBuffer { mesh: 0, sub_mesh: 0 },
            Cmd::DrawIndexed { index_count: 6 },
            Cmd::SetIndexBuffer { mesh: 0, sub_mesh: 1 },
            Cmd::SetVertexBuffer { mesh: 0, sub_mesh: 1 },
            Cmd::DrawIndexed { index_count: 12 },
        ]
    );
}

#[test]
fn pbr_pass_skips_silently_without_entities_or_skybox() {
    let assets = AssetManager {
        materials: vec![Material { kind: MaterialKind::Pbr, index: 0 }],
        meshes: vec![one_submesh_mesh()],
        images: Vec::new(),
    };
    let no_entities = World {
        cameras: vec![CameraData { active: true }],
        entities: Vec::new(),
        has_skybox: true,
    };
    assert_eq!(PassBehavior::Pbr.render(0, &no_entities, &assets, None), vec![]);
    let no_skybox = World {
        cameras: vec![CameraData { active: true }],
        entities: vec![EntityRow { mesh: 0, material_index: 0 }],
        has_skybox: false,
    };
    assert_eq!(PassBehavior::Pbr.render(0, &no_skybox, &assets, None), vec![]);
}

#[test]
fn sky_pass_prepares_camera_uniforms_only_when_ready() {
    let assets = AssetManager { materials: Vec::new(), meshes: Vec::new(), images: Vec::new() };
    let ready = World {
        cameras: vec![CameraData { active: true }],
        entities: Vec::new(),
        has_skybox: true,
    };
    assert_eq!(
        PassBehavior::Sky.prepare(4, &ready, &assets, None),
        vec![Cmd::WriteCameraUniforms { node: 4 }]
    );
    let no_camera = World {
        cameras: vec![CameraData { active: false }],
        entities: Vec::new(),
        has_skybox: true,
    };
    assert_eq!(PassBehavior::Sky.prepare(4, &no_camera, &assets, None), vec![]);
}
