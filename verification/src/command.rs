use vstd::prelude::*;

use crate::target::RenderTarget;

verus! {

/// Which binding set a draw-time bind refers to.  The GPU backend owns the
/// actual binding objects; the graph only names them.
#[derive(Clone, Copy, Debug, PartialEq, Eq, Structural)]
pub enum BindGroupRef {
    /// The per-pass global set (camera / lighting constants) of a node.
    Global { node: usize },
    /// The binding set of the material with this stable index.
    Material { index: u32 },
    /// The per-object binding set of the entity at this position in the
    /// scene's joined rows.
    Transform { entity: usize },
    /// The skybox resource's background (cube texture) set.
    SkyboxCubemap,
    /// The skybox resource's environment set sampled by shading passes.
    SkyboxEnvironment,
    /// A binding set a pass built for itself during `prepare`.
    Internal { node: usize },
}

/// One recorded GPU command.  A frame is a sequence of these, in the order
/// the device must execute them; an unverified backend replays them.
#[derive(Clone, Copy, Debug, PartialEq, Eq, Structural)]
pub enum Cmd {
    /// Copy this node's camera constants (view + projection) into its
    /// uniform buffer.
    WriteCameraUniforms { node: usize },
    /// Copy this node's global shading constants into its uniform buffer.
    WriteGlobalUniforms { node: usize },
    /// Copy this node's lighting constants into its uniform buffer.
    WriteLightingUniforms { node: usize },
    /// Rebuild this node's internal binding set around the render target it
    /// consumes from its dependency.
    BindInput { node: usize, target: u64 },
    /// Rebuild this node's internal binding set around the source image the
    /// pass was configured with.
    BindImage { node: usize },
    /// Allocate a texture, view and sampler for this render target.
    CreateTarget { descriptor: RenderTarget },
    /// Open a render pass onto the node's own target, cleared to the fixed
    /// clear colour, with no depth attachment.
    BeginTargetPass { node: usize, target: u64 },
    /// Open a render pass onto the frame's swap image, loading what earlier
    /// passes drew, sharing the depth buffer (also loaded).
    BeginFramePass { node: usize },
    /// Close the node's render pass.
    EndPass { node: usize },
    /// Bind this node's compiled pipeline.
    SetPipeline { node: usize },
    /// Bind one binding set at one slot.
    SetBindGroup { slot: u32, group: BindGroupRef },
    /// Bind one sub-mesh's vertex buffer.
    SetVertexBuffer { mesh: usize, sub_mesh: usize },
    /// Bind one sub-mesh's index buffer.
    SetIndexBuffer { mesh: usize, sub_mesh: usize },
    /// One indexed draw over the bound buffers.
    DrawIndexed { index_count: u32 },
    /// One plain draw.
    Draw { vertex_count: u32, instance_count: u32 },
    /// Copy `width` x `height` texels from layer 0 of `src`, starting at row
    /// `src_y`, into layer `dst_layer` of `dst` at the origin.
    CopyTargetRegion {
        src: u64,
        src_y: u32,
        dst: u64,
        dst_layer: u32,
        width: u32,
        height: u32,
    },
}

} // verus!
