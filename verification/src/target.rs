use vstd::prelude::*;

use crate::command::Cmd;

verus! {

/// Copying from a texture is allowed.
pub const TEXTURE_USAGE_COPY_SRC: u32 = 1;
/// Copying into a texture is allowed.
pub const TEXTURE_USAGE_COPY_DST: u32 = 2;
/// A shader may sample the texture.
pub const TEXTURE_USAGE_SAMPLED: u32 = 4;
/// A render pass may draw into the texture.
pub const TEXTURE_USAGE_OUTPUT_ATTACHMENT: u32 = 16;

/// Pixel formats the graph's targets use.
#[derive(Clone, Copy, Debug, PartialEq, Eq, Structural)]
pub enum TextureFormat {
    Rgba32Float,
    Rgba8UnormSrgb,
    Bgra8UnormSrgb,
    Depth32Float,
}

/// The descriptor of one offscreen GPU image: a pass draws into it and a
/// later pass may sample it.  `id` names the texture, view and sampler that
/// the GPU backend allocated for it.
#[derive(Clone, Copy, Debug, PartialEq, Eq, Structural)]
pub struct RenderTarget {
    pub id: u64,
    pub width: u32,
    pub height: u32,
    pub layer_count: u32,
    pub mip_count: u32,
    pub format: TextureFormat,
    pub usage: u32,
}

impl RenderTarget {
    /// Describes a fresh target.  The backend allocates the texture, a 2-D
    /// or cube view depending on whether `layer_count` is 6, and a
    /// linear-filtering clamp-to-edge sampler.
    pub fn new(
        id: u64,
        width: u32,
        height: u32,
        layer_count: u32,
        mip_count: u32,
        format: TextureFormat,
        usage: u32,
    ) -> (t: RenderTarget)
        ensures
            t == (RenderTarget { id, width, height, layer_count, mip_count, format, usage }),
    {
        RenderTarget { id, width, height, layer_count, mip_count, format, usage }
    }
}

/// The height of one cube face cut out of a six-slice atlas.
pub open spec fn spec_face_height(src: RenderTarget) -> int {
    src.height as int / 6
}

/// The cube-layout target derived from a node's flat output atlas: the
/// atlas's width, one sixth of its height, six layers, ready to be sampled
/// and copied into.
pub open spec fn derived_target(src: RenderTarget, new_id: u64) -> RenderTarget {
    RenderTarget {
        id: new_id,
        width: src.width,
        height: spec_face_height(src) as u32,
        layer_count: 6,
        mip_count: 1,
        format: src.format,
        usage: TEXTURE_USAGE_SAMPLED | TEXTURE_USAGE_COPY_DST,
    }
}

/// The six region copies that move slice `i` of the atlas (rows starting at
/// `i` times the face height) into cube face `i`.
pub open spec fn cube_copy_cmds(src: RenderTarget, new_id: u64) -> Seq<Cmd> {
    Seq::new(6, |i: int| Cmd::CopyTargetRegion {
        src: src.id,
        src_y: (i * spec_face_height(src)) as u32,
        dst: new_id,
        dst_layer: i as u32,
        width: src.width,
        height: spec_face_height(src) as u32,
    })
}

/// Everything `render` records when a node asks for a cube map: allocate
/// the derived target, then fill its six faces.
pub open spec fn derive_cmds(src: RenderTarget, new_id: u64) -> Seq<Cmd> {
    seq![Cmd::CreateTarget { descriptor: derived_target(src, new_id) }] + cube_copy_cmds(src, new_id)
}

/// Builds the cube-layout target derived from `src` and the commands that
/// allocate it and copy each of the six vertical atlas slices into its
/// matching face.
pub fn derive_cubemap(src: &RenderTarget, new_id: u64) -> (r: (RenderTarget, Vec<Cmd>))
    ensures
        r.0 == derived_target(*src, new_id),
        r.1@ == derive_cmds(*src, new_id),
{
    let face_height: u32 = src.height / 6;
    let target = RenderTarget {
        id: new_id,
        width: src.width,
        height: face_height,
        layer_count: 6,
        mip_count: 1,
        format: src.format,
        usage: TEXTURE_USAGE_SAMPLED | TEXTURE_USAGE_COPY_DST,
    };
    let mut cmds: Vec<Cmd> = Vec::new();
    cmds.push(Cmd::CreateTarget { descriptor: target });
    let mut i: u32 = 0;
    while i < 6
        invariant
            i <= 6,
            face_height == spec_face_height(*src),
            target == derived_target(*src, new_id),
            cmds@ == seq![Cmd::CreateTarget { descriptor: target }] + cube_copy_cmds(*src, new_id).take(
                i as int),
        decreases 6 - i,
    {
        proof {
            assert(i * face_height <= 6 * face_height <= src.height) by (nonlinear_arith)
                requires face_height == src.height as int / 6 && i <= 5;
        }
        cmds.push(Cmd::CopyTargetRegion {
            src: src.id,
            src_y: i * face_height,
            dst: new_id,
            dst_layer: i,
            width: src.width,
            height: face_height,
        });
        proof {
            assert(cube_copy_cmds(*src, new_id)[i as int] == cmds@.last());
            assert(cmds@ =~= seq![Cmd::CreateTarget { descriptor: target }] + cube_copy_cmds(
                *src, new_id).take(i as int + 1));
        }
        i = i + 1;
    }
    proof {
        assert(cube_copy_cmds(*src, new_id).take(6) =~= cube_copy_cmds(*src, new_id));
    }
    (target, cmds)
}

/// The texel contents of every allocated target, by target id: a texture is
/// a sequence of layers, a layer a sequence of rows, a row a sequence of
/// texel words.  The copies this graph records are always full-width, so a
/// row moves as a whole.
pub type TexelStore = Map<u64, Seq<Seq<Seq<u32>>>>;

/// What one recorded command does to the texel contents: a region copy
/// moves `height` rows from layer 0 of the source, starting at `src_y`,
/// onto the top of the destination layer; everything else leaves texels
/// alone.
pub open spec fn apply_copy_cmd(store: TexelStore, c: Cmd) -> TexelStore {
    match c {
        Cmd::CopyTargetRegion { src, src_y, dst, dst_layer, width: _, height } => {
            if store.dom().contains(src) && store.dom().contains(dst) {
                let s = store[src];
                let d = store[dst];
                let moved = Seq::new(
                    d[dst_layer as int].len(),
                    |r: int| if r < height as int {
                        s[0][src_y as int + r]
                    } else {
                        d[dst_layer as int][r]
                    },
                );
                store.insert(dst, d.update(dst_layer as int, moved))
            } else {
                store
            }
        },
        _ => store,
    }
}

/// The copies of a command list applied in order.
pub open spec fn apply_copies(store: TexelStore, cmds: Seq<Cmd>) -> TexelStore
    decreases cmds.len(),
{
    if cmds.len() == 0 {
        store
    } else {
        apply_copy_cmd(apply_copies(store, cmds.drop_last()), cmds.last())
    }
}

proof fn lemma_cube_copies_prefix(src: RenderTarget, new_id: u64, store: TexelStore, k: int)
    requires
        store.dom().contains(src.id),
        store.dom().contains(new_id),
        new_id != src.id,
        store[src.id].len() >= 1,
        store[src.id][0].len() == src.height as int,
        store[new_id].len() == 6,
        forall|l: int| 0 <= l < 6
            ==> (#[trigger] store[new_id][l]).len() == spec_face_height(src),
        0 <= k <= 6,
    ensures
        ({
            let fh = spec_face_height(src);
            let out = apply_copies(store, cube_copy_cmds(src, new_id).take(k));
            &&& out.dom() == store.dom()
            &&& out[src.id] == store[src.id]
            &&& out[new_id].len() == 6
            &&& forall|l: int| 0 <= l < k
                ==> #[trigger] out[new_id][l]
                    == store[src.id][0].subrange(l * fh, l * fh + fh)
            &&& forall|l: int| k <= l < 6 ==> #[trigger] out[new_id][l] == store[new_id][l]
        }),
    decreases k,
{
    let fh = spec_face_height(src);
    let all = cube_copy_cmds(src, new_id);
    if k == 0 {
        assert(all.take(0).len() == 0);
    } else {
        lemma_cube_copies_prefix(src, new_id, store, k - 1);
        let prev = apply_copies(store, all.take(k - 1));
        assert(all.take(k).drop_last() =~= all.take(k - 1));
        assert(all.take(k).last() == all[k - 1]);
        let out = apply_copies(store, all.take(k));
        assert(out == apply_copy_cmd(prev, all[k - 1]));
        assert((k - 1) * fh + fh <= src.height && 0 <= (k - 1) * fh) by (nonlinear_arith)
            requires fh == src.height as int / 6 && 1 <= k <= 6;
        assert(((k - 1) * fh) as u32 as int == (k - 1) * fh);
        let moved = Seq::new(
            prev[new_id][k - 1].len(),
            |r: int| if r < fh as u32 as int {
                prev[src.id][0][(k - 1) * fh + r]
            } else {
                prev[new_id][k - 1][r]
            },
        );
        assert(out == prev.insert(new_id, prev[new_id].update(k - 1, moved)));
        assert(moved =~= store[src.id][0].subrange((k - 1) * fh, (k - 1) * fh + fh));
        assert forall|l: int| 0 <= l < k
            implies #[trigger] out[new_id][l]
                == store[src.id][0].subrange(l * fh, l * fh + fh) by {
            if l < k - 1 {
                assert(out[new_id][l] == prev[new_id][l]);
            }
        }
    }
}

/// Cube-map derivation moves the right texels: applying the six recorded
/// region copies to any texel store that holds the source atlas (one layer,
/// as many rows as the atlas is high) and the freshly allocated cube target
/// (six layers of face height) leaves face `i` holding exactly the atlas's
/// `i`-th vertical slice, and leaves the source unchanged.
pub proof fn lemma_cube_copies_fill_faces(src: RenderTarget, new_id: u64, store: TexelStore)
    requires
        store.dom().contains(src.id),
        store.dom().contains(new_id),
        new_id != src.id,
        store[src.id].len() >= 1,
        store[src.id][0].len() == src.height as int,
        store[new_id].len() == 6,
        forall|l: int| 0 <= l < 6
            ==> (#[trigger] store[new_id][l]).len() == spec_face_height(src),
    ensures
        ({
            let fh = spec_face_height(src);
            let out = apply_copies(store, cube_copy_cmds(src, new_id));
            &&& out.dom() == store.dom()
            &&& out[src.id] == store[src.id]
            &&& out[new_id].len() == 6
            &&& forall|l: int| 0 <= l < 6
                ==> #[trigger] out[new_id][l]
                    == store[src.id][0].subrange(l * fh, l * fh + fh)
        }),
{
    lemma_cube_copies_prefix(src, new_id, store, 6);
    assert(cube_copy_cmds(src, new_id).take(6) =~= cube_copy_cmds(src, new_id));
}

} // verus!
