use vstd::prelude::*;

use crate::batch::{batch_cmds, submit_batched};
use crate::command::{BindGroupRef, Cmd};
use crate::scene::{count_active, has_image, AssetManager, MaterialKind, World};
use crate::target::RenderTarget;

verus! {

/// The per-node capability that runs every frame, one variant per shading
/// model or precompute step.  `prepare` updates binding sets and uniform
/// buffers; `render` issues draw calls inside an open render pass.
#[derive(Clone, Debug, PartialEq, Eq)]
pub enum PassBehavior {
    /// Draws the scene's skybox behind everything.
    Sky,
    /// Draws entities with unlit materials, batched by material.
    Unlit,
    /// Draws entities with physically-based materials, batched by material.
    Pbr,
    /// Projects the named equirectangular image onto the six faces of a
    /// cube atlas.
    CubeProjection { texture: String },
    /// Convolves its dependency's output into an irradiance map.
    Irradiance,
    /// Pre-filters its dependency's output for one specular mip level.
    Specular { mip_level: u32, resolution: u32 },
    /// Computes the specular BRDF look-up table.
    SpecularBrdf,
}

/// The render target handed to a pass, if any, as specification data.
pub open spec fn spec_input(input: Option<&RenderTarget>) -> Option<RenderTarget> {
    match input {
        Some(t) => Some(*t),
        None => None,
    }
}

/// Everything `prepare` records for one node: uniform writes and
/// binding-set rebuilds, no draw calls.  A pass that is missing what it
/// needs (no skybox, not exactly one active camera, an absent image or
/// dependency output) records nothing and is skipped silently.
pub open spec fn spec_prepare(
    pass: PassBehavior,
    node: usize,
    world: World,
    assets: AssetManager,
    input: Option<RenderTarget>,
) -> Seq<Cmd> {
    match pass {
        PassBehavior::Sky => if world.has_skybox && count_active(world.cameras@) == 1 {
            seq![Cmd::WriteCameraUniforms { node }]
        } else {
            Seq::empty()
        },
        PassBehavior::Unlit => seq![Cmd::WriteGlobalUniforms { node }],
        PassBehavior::Pbr => seq![
            Cmd::WriteGlobalUniforms { node },
            Cmd::WriteLightingUniforms { node },
        ],
        PassBehavior::CubeProjection { texture } => if has_image(assets.images@, texture@) {
            seq![Cmd::BindImage { node }]
        } else {
            Seq::empty()
        },
        PassBehavior::Irradiance => match input {
            Some(t) => seq![Cmd::BindInput { node, target: t.id }],
            None => Seq::empty(),
        },
        PassBehavior::Specular { .. } => match input {
            Some(t) => seq![Cmd::BindInput { node, target: t.id }],
            None => Seq::empty(),
        },
        PassBehavior::SpecularBrdf => Seq::empty(),
    }
}

/// Everything `render` records for one node, inside its open render pass.
/// Shading passes batch their draws by material; the sky pass draws only
/// when the scene has a skybox and exactly one active camera; precompute
/// passes draw only when `prepare` could bind their input.
pub open spec fn spec_render(
    pass: PassBehavior,
    node: usize,
    world: World,
    assets: AssetManager,
    input: Option<RenderTarget>,
) -> Seq<Cmd> {
    match pass {
        PassBehavior::Sky => if world.has_skybox && count_active(world.cameras@) == 1 {
            seq![
                Cmd::SetPipeline { node },
                Cmd::SetBindGroup { slot: 0, group: BindGroupRef::Global { node } },
                Cmd::SetBindGroup { slot: 1, group: BindGroupRef::SkyboxCubemap },
                Cmd::Draw { vertex_count: 3, instance_count: 1 },
            ]
        } else {
            Seq::empty()
        },
        PassBehavior::Unlit => seq![
            Cmd::SetPipeline { node },
            Cmd::SetBindGroup { slot: 1, group: BindGroupRef::Global { node } },
        ] + batch_cmds(MaterialKind::Unlit, assets.materials@, world.entities@, assets.meshes@),
        PassBehavior::Pbr => if world.entities@.len() == 0 || !world.has_skybox {
            Seq::empty()
        } else {
            seq![
                Cmd::SetPipeline { node },
                Cmd::SetBindGroup { slot: 1, group: BindGroupRef::Global { node } },
                Cmd::SetBindGroup { slot: 3, group: BindGroupRef::SkyboxEnvironment },
            ] + batch_cmds(MaterialKind::Pbr, assets.materials@, world.entities@, assets.meshes@)
        },
        PassBehavior::CubeProjection { texture } => if has_image(assets.images@, texture@) {
            seq![
                Cmd::SetPipeline { node },
                Cmd::SetBindGroup { slot: 0, group: BindGroupRef::Internal { node } },
                Cmd::Draw { vertex_count: 6, instance_count: 6 },
            ]
        } else {
            Seq::empty()
        },
        PassBehavior::Irradiance => match input {
            Some(_) => seq![
                Cmd::SetPipeline { node },
                Cmd::SetBindGroup { slot: 0, group: BindGroupRef::Internal { node } },
                Cmd::Draw { vertex_count: 6, instance_count: 6 },
            ],
            None => Seq::empty(),
        },
        PassBehavior::Specular { .. } => match input {
            Some(_) => seq![
                Cmd::SetPipeline { node },
                Cmd::SetBindGroup { slot: 0, group: BindGroupRef::Internal { node } },
                Cmd::Draw { vertex_count: 6, instance_count: 6 },
            ],
            None => Seq::empty(),
        },
        PassBehavior::SpecularBrdf => seq![
            Cmd::SetPipeline { node },
            Cmd::Draw { vertex_count: 3, instance_count: 1 },
        ],
    }
}

/// Every entity row's mesh reference resolves in the asset collaborator's
/// mesh list; the load phase guarantees it before the first frame.
pub open spec fn meshes_resolve(world: World, assets: AssetManager) -> bool {
    forall|e: int| 0 <= e < world.entities@.len()
        ==> ((#[trigger] world.entities@[e]).mesh as int) < assets.meshes@.len()
}

impl PassBehavior {
    /// Records this node's `prepare` phase: binding-set and uniform-buffer
    /// updates, never a draw call.
    pub fn prepare(
        &self,
        node: usize,
        world: &World,
        assets: &AssetManager,
        input: Option<&RenderTarget>,
    ) -> (cmds: Vec<Cmd>)
        ensures
            cmds@ == spec_prepare(*self, node, *world, *assets, spec_input(input)),
    {
        let mut cmds: Vec<Cmd> = Vec::new();
        match self {
            PassBehavior::Sky => {
                if world.has_skybox && world.active_camera_count() == 1 {
                    cmds.push(Cmd::WriteCameraUniforms { node });
                }
            },
            PassBehavior::Unlit => {
                cmds.push(Cmd::WriteGlobalUniforms { node });
            },
            PassBehavior::Pbr => {
                cmds.push(Cmd::WriteGlobalUniforms { node });
                cmds.push(Cmd::WriteLightingUniforms { node });
            },
            PassBehavior::CubeProjection { texture } => {
                if assets.image_is_loaded(texture) {
                    cmds.push(Cmd::BindImage { node });
                }
            },
            PassBehavior::Irradiance => {
                if let Some(t) = input {
                    cmds.push(Cmd::BindInput { node, target: t.id });
                }
            },
            PassBehavior::Specular { .. } => {
                if let Some(t) = input {
                    cmds.push(Cmd::BindInput { node, target: t.id });
                }
            },
            PassBehavior::SpecularBrdf => {},
        }
        proof {
            assert(cmds@ =~= spec_prepare(*self, node, *world, *assets, spec_input(input)));
        }
        cmds
    }

    /// Records this node's draw calls for the open render pass.
    pub fn render(
        &self,
        node: usize,
        world: &World,
        assets: &AssetManager,
        input: Option<&RenderTarget>,
    ) -> (cmds: Vec<Cmd>)
        requires
            meshes_resolve(*world, *assets),
        ensures
            cmds@ == spec_render(*self, node, *world, *assets, spec_input(input)),
    {
        let mut cmds: Vec<Cmd> = Vec::new();
        match self {
            PassBehavior::Sky => {
                if world.has_skybox && world.active_camera_count() == 1 {
                    cmds.push(Cmd::SetPipeline { node });
                    cmds.push(Cmd::SetBindGroup {
                        slot: 0,
                        group: BindGroupRef::Global { node },
                    });
                    cmds.push(Cmd::SetBindGroup {
                        slot: 1,
                        group: BindGroupRef::SkyboxCubemap,
                    });
                    cmds.push(Cmd::Draw { vertex_count: 3, instance_count: 1 });
                }
            },
            PassBehavior::Unlit => {
                cmds.push(Cmd::SetPipeline { node });
                cmds.push(Cmd::SetBindGroup { slot: 1, group: BindGroupRef::Global { node } });
                let mut batch = submit_batched(
                    MaterialKind::Unlit,
                    &assets.materials,
                    &world.entities,
                    &assets.meshes,
                );
                cmds.append(&mut batch);
            },
            PassBehavior::Pbr => {
                if world.entities.len() > 0 && world.has_skybox {
                    cmds.push(Cmd::SetPipeline { node });
                    cmds.push(Cmd::SetBindGroup {
                        slot: 1,
                        group: BindGroupRef::Global { node },
                    });
                    cmds.push(Cmd::SetBindGroup {
                        slot: 3,
                        group: BindGroupRef::SkyboxEnvironment,
                    });
                    let mut batch = submit_batched(
                        MaterialKind::Pbr,
                        &assets.materials,
                        &world.entities,
                        &assets.meshes,
                    );
                    cmds.append(&mut batch);
                }
            },
            PassBehavior::CubeProjection { texture } => {
                if assets.image_is_loaded(texture) {
                    cmds.push(Cmd::SetPipeline { node });
                    cmds.push(Cmd::SetBindGroup {
                        slot: 0,
                        group: BindGroupRef::Internal { node },
                    });
                    cmds.push(Cmd::Draw { vertex_count: 6, instance_count: 6 });
                }
            },
            PassBehavior::Irradiance => {
                if input.is_some() {
                    cmds.push(Cmd::SetPipeline { node });
                    cmds.push(Cmd::SetBindGroup {
                        slot: 0,
                        group: BindGroupRef::Internal { node },
                    });
                    cmds.push(Cmd::Draw { vertex_count: 6, instance_count: 6 });
                }
            },
            PassBehavior::Specular { .. } => {
                if input.is_some() {
                    cmds.push(Cmd::SetPipeline { node });
                    cmds.push(Cmd::SetBindGroup {
                        slot: 0,
                        group: BindGroupRef::Internal { node },
                    });
                    cmds.push(Cmd::Draw { vertex_count: 6, instance_count: 6 });
                }
            },
            PassBehavior::SpecularBrdf => {
                cmds.push(Cmd::SetPipeline { node });
                cmds.push(Cmd::Draw { vertex_count: 3, instance_count: 1 });
            },
        }
        proof {
            assert(cmds@ =~= spec_render(*self, node, *world, *assets, spec_input(input)));
        }
        cmds
    }
}

/// The skybox pass is a silent no-op unless the scene has exactly one
/// active camera (and a skybox resource at all): with zero active cameras
/// it prepares nothing and draws nothing, and that is not an error.
pub proof fn lemma_sky_skips_without_camera(
    node: usize,
    world: World,
    assets: AssetManager,
    input: Option<RenderTarget>,
)
    requires
        count_active(world.cameras@) != 1 || !world.has_skybox,
    ensures
        spec_prepare(PassBehavior::Sky, node, world, assets, input) == Seq::<Cmd>::empty(),
        spec_render(PassBehavior::Sky, node, world, assets, input) == Seq::<Cmd>::empty(),
{
}

} // verus!
