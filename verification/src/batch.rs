use vstd::prelude::*;

use crate::command::{BindGroupRef, Cmd};
use crate::scene::{EntityRow, Material, MaterialKind, Mesh};

verus! {

/// The commands that draw the first `j` sub-meshes of mesh `mesh_id`: bind
/// each sub-mesh's buffers, then one indexed draw.
pub open spec fn submesh_cmds_upto(mesh_id: usize, subs: Seq<crate::scene::SubMesh>, j: int)
    -> Seq<Cmd>
    decreases j,
{
    if j <= 0 {
        Seq::empty()
    } else {
        submesh_cmds_upto(mesh_id, subs, j - 1) + seq![
            Cmd::SetIndexBuffer { mesh: mesh_id, sub_mesh: (j - 1) as usize },
            Cmd::SetVertexBuffer { mesh: mesh_id, sub_mesh: (j - 1) as usize },
            Cmd::DrawIndexed { index_count: subs[j - 1].index_count },
        ]
    }
}

/// The commands that draw one entity: bind its transform set at slot 0,
/// then draw every sub-mesh of its mesh.
pub open spec fn entity_cmds(e: usize, row: EntityRow, meshes: Seq<Mesh>) -> Seq<Cmd> {
    let subs = meshes[row.mesh as int].sub_meshes@;
    seq![Cmd::SetBindGroup { slot: 0, group: BindGroupRef::Transform { entity: e } }]
        + submesh_cmds_upto(row.mesh, subs, subs.len() as int)
}

/// The commands that draw, among the first `i` scene rows, exactly those
/// whose material reference equals `idx`.
pub open spec fn rows_cmds_upto(idx: u32, rows: Seq<EntityRow>, meshes: Seq<Mesh>, i: int)
    -> Seq<Cmd>
    decreases i,
{
    if i <= 0 {
        Seq::empty()
    } else {
        rows_cmds_upto(idx, rows, meshes, i - 1) + if rows[i - 1].material_index == idx {
            entity_cmds((i - 1) as usize, rows[i - 1], meshes)
        } else {
            Seq::empty()
        }
    }
}

/// One material's batch: bind its binding set at slot 2 once, then draw
/// every row that references it.
pub open spec fn material_cmds(m: Material, rows: Seq<EntityRow>, meshes: Seq<Mesh>)
    -> Seq<Cmd> {
    seq![Cmd::SetBindGroup { slot: 2, group: BindGroupRef::Material { index: m.index } }]
        + rows_cmds_upto(m.index, rows, meshes, rows.len() as int)
}

/// The batches of the first `k` known materials whose shading model is
/// `kind`, in the asset collaborator's stable order.
pub open spec fn batch_upto(
    kind: MaterialKind,
    mats: Seq<Material>,
    rows: Seq<EntityRow>,
    meshes: Seq<Mesh>,
    k: int,
) -> Seq<Cmd>
    decreases k,
{
    if k <= 0 {
        Seq::empty()
    } else {
        batch_upto(kind, mats, rows, meshes, k - 1) + if mats[k - 1].kind == kind {
            material_cmds(mats[k - 1], rows, meshes)
        } else {
            Seq::empty()
        }
    }
}

/// Everything a shading pass submits: one batch per known material of its
/// shading model, each batch binding its material set once.
pub open spec fn batch_cmds(
    kind: MaterialKind,
    mats: Seq<Material>,
    rows: Seq<EntityRow>,
    meshes: Seq<Mesh>,
) -> Seq<Cmd> {
    batch_upto(kind, mats, rows, meshes, mats.len() as int)
}

/// Walks the known materials of this pass's shading model and, for each in
/// turn, binds its binding set once and draws every scene row referencing
/// it — so the expensive material bind happens once per material, not once
/// per entity.
pub fn submit_batched(
    kind: MaterialKind,
    materials: &Vec<Material>,
    entities: &Vec<EntityRow>,
    meshes: &Vec<Mesh>,
) -> (cmds: Vec<Cmd>)
    requires
        forall|e: int| 0 <= e < entities@.len()
            ==> ((#[trigger] entities@[e]).mesh as int) < meshes@.len(),
    ensures
        cmds@ == batch_cmds(kind, materials@, entities@, meshes@),
{
    let mut cmds: Vec<Cmd> = Vec::new();
    let mut m: usize = 0;
    while m < materials.len()
        invariant
            m <= materials@.len(),
            forall|e: int| 0 <= e < entities@.len()
                ==> ((#[trigger] entities@[e]).mesh as int) < meshes@.len(),
            cmds@ == batch_upto(kind, materials@, entities@, meshes@, m as int),
        decreases materials@.len() - m,
    {
        let mat: Material = materials[m];
        if mat.kind == kind {
            let ghost before = cmds@;
            cmds.push(Cmd::SetBindGroup {
                slot: 2,
                group: BindGroupRef::Material { index: mat.index },
            });
            let mut e: usize = 0;
            while e < entities.len()
                invariant
                    e <= entities@.len(),
                    forall|e2: int| 0 <= e2 < entities@.len()
                        ==> ((#[trigger] entities@[e2]).mesh as int) < meshes@.len(),
                    mat == materials@[m as int],
                    m < materials@.len(),
                    cmds@ == before + seq![
                        Cmd::SetBindGroup {
                            slot: 2,
                            group: BindGroupRef::Material { index: mat.index },
                        },
                    ] + rows_cmds_upto(mat.index, entities@, meshes@, e as int),
                decreases entities@.len() - e,
            {
                let row: EntityRow = entities[e];
                if row.material_index == mat.index {
                    let ghost row_before = cmds@;
                    cmds.push(Cmd::SetBindGroup {
                        slot: 0,
                        group: BindGroupRef::Transform { entity: e },
                    });
                    let mesh: &Mesh = &meshes[row.mesh];
                    let mut j: usize = 0;
                    while j < mesh.sub_meshes.len()
                        invariant
                            j <= mesh.sub_meshes@.len(),
                            cmds@ == row_before + seq![
                                Cmd::SetBindGroup {
                                    slot: 0,
                                    group: BindGroupRef::Transform { entity: e },
                                },
                            ] + submesh_cmds_upto(row.mesh, mesh.sub_meshes@, j as int),
                        decreases mesh.sub_meshes@.len() - j,
                    {
                        let sub: crate::scene::SubMesh = mesh.sub_meshes[j];
                        cmds.push(Cmd::SetIndexBuffer { mesh: row.mesh, sub_mesh: j });
                        cmds.push(Cmd::SetVertexBuffer { mesh: row.mesh, sub_mesh: j });
                        cmds.push(Cmd::DrawIndexed { index_count: sub.index_count });
                        proof {
                            assert(cmds@ =~= row_before + seq![
                                Cmd::SetBindGroup {
                                    slot: 0,
                                    group: BindGroupRef::Transform { entity: e },
                                },
                            ] + submesh_cmds_upto(row.mesh, mesh.sub_meshes@, j as int + 1));
                        }
                        j = j + 1;
                    }
                    proof {
                        assert(entity_cmds(e, row, meshes@) == seq![
                            Cmd::SetBindGroup {
                                slot: 0,
                                group: BindGroupRef::Transform { entity: e },
                            },
                        ] + submesh_cmds_upto(row.mesh, mesh.sub_meshes@,
                            mesh.sub_meshes@.len() as int));
                        assert(cmds@ =~= before + seq![
                            Cmd::SetBindGroup {
                                slot: 2,
                                group: BindGroupRef::Material { index: mat.index },
                            },
                        ] + rows_cmds_upto(mat.index, entities@, meshes@, e as int + 1));
                    }
                } else {
                    proof {
                        assert(cmds@ =~= before + seq![
                            Cmd::SetBindGroup {
                                slot: 2,
                                group: BindGroupRef::Material { index: mat.index },
                            },
                        ] + rows_cmds_upto(mat.index, entities@, meshes@, e as int + 1));
                    }
                }
                e = e + 1;
            }
            proof {
                assert(material_cmds(mat, entities@, meshes@) == seq![
                    Cmd::SetBindGroup {
                        slot: 2,
                        group: BindGroupRef::Material { index: mat.index },
                    },
                ] + rows_cmds_upto(mat.index, entities@, meshes@, entities@.len() as int));
                assert(cmds@ =~= batch_upto(kind, materials@, entities@, meshes@,
                    m as int + 1));
            }
        } else {
            proof {
                assert(cmds@ =~= batch_upto(kind, materials@, entities@, meshes@,
                    m as int + 1));
            }
        }
        m = m + 1;
    }
    cmds
}

/// `c` switches a material binding set (slot 2).
pub open spec fn is_material_bind(c: Cmd) -> bool {
    match c {
        Cmd::SetBindGroup { slot, group } => slot == 2 && match group {
            BindGroupRef::Material { .. } => true,
            _ => false,
        },
        _ => false,
    }
}

/// `c` binds the per-object set of entity `e` (slot 0), which draw
/// submission does exactly once each time it draws that entity.
pub open spec fn is_entity_bind(c: Cmd, e: usize) -> bool {
    match c {
        Cmd::SetBindGroup { slot, group } => slot == 0 && match group {
            BindGroupRef::Transform { entity } => entity == e,
            _ => false,
        },
        _ => false,
    }
}

/// How many material binding-set switches a command list performs.
pub open spec fn count_material_binds(cmds: Seq<Cmd>) -> int
    decreases cmds.len(),
{
    if cmds.len() == 0 {
        0
    } else {
        count_material_binds(cmds.drop_last()) + if is_material_bind(cmds.last()) {
            1int
        } else {
            0int
        }
    }
}

/// How many times a command list draws entity `e`.
pub open spec fn count_entity_binds(cmds: Seq<Cmd>, e: usize) -> int
    decreases cmds.len(),
{
    if cmds.len() == 0 {
        0
    } else {
        count_entity_binds(cmds.drop_last(), e) + if is_entity_bind(cmds.last(), e) {
            1int
        } else {
            0int
        }
    }
}

/// How many of the first `k` known materials have this shading model.
pub open spec fn count_kind_upto(mats: Seq<Material>, kind: MaterialKind, k: int) -> int
    decreases k,
{
    if k <= 0 {
        0
    } else {
        count_kind_upto(mats, kind, k - 1) + if mats[k - 1].kind == kind { 1int } else { 0int }
    }
}

/// How many known materials have this shading model.
pub open spec fn count_kind(mats: Seq<Material>, kind: MaterialKind) -> int {
    count_kind_upto(mats, kind, mats.len() as int)
}

/// How many of the first `k` known materials have this shading model and
/// this stable index.
pub open spec fn count_kind_index_upto(
    mats: Seq<Material>,
    kind: MaterialKind,
    idx: u32,
    k: int,
) -> int
    decreases k,
{
    if k <= 0 {
        0
    } else {
        count_kind_index_upto(mats, kind, idx, k - 1) + if mats[k - 1].kind == kind
            && mats[k - 1].index == idx {
            1int
        } else {
            0int
        }
    }
}

/// How many known materials have this shading model and this stable index.
pub open spec fn count_kind_index(mats: Seq<Material>, kind: MaterialKind, idx: u32) -> int {
    count_kind_index_upto(mats, kind, idx, mats.len() as int)
}

proof fn lemma_count_material_binds_concat(a: Seq<Cmd>, b: Seq<Cmd>)
    ensures
        count_material_binds(a + b) == count_material_binds(a) + count_material_binds(b),
    decreases b.len(),
{
    if b.len() == 0 {
        assert(a + b =~= a);
    } else {
        assert((a + b).drop_last() =~= a + b.drop_last());
        lemma_count_material_binds_concat(a, b.drop_last());
    }
}

proof fn lemma_count_entity_binds_concat(a: Seq<Cmd>, b: Seq<Cmd>, e: usize)
    ensures
        count_entity_binds(a + b, e) == count_entity_binds(a, e) + count_entity_binds(b, e),
    decreases b.len(),
{
    if b.len() == 0 {
        assert(a + b =~= a);
    } else {
        assert((a + b).drop_last() =~= a + b.drop_last());
        lemma_count_entity_binds_concat(a, b.drop_last(), e);
    }
}

proof fn lemma_submesh_cmds_counts(mesh_id: usize, subs: Seq<crate::scene::SubMesh>, j: int)
    ensures
        count_material_binds(submesh_cmds_upto(mesh_id, subs, j)) == 0,
        forall|e: usize| #[trigger] count_entity_binds(submesh_cmds_upto(mesh_id, subs, j), e)
            == 0,
    decreases j,
{
    if j > 0 {
        reveal_with_fuel(count_material_binds, 5);
        reveal_with_fuel(count_entity_binds, 5);
        lemma_submesh_cmds_counts(mesh_id, subs, j - 1);
        let triple = seq![
            Cmd::SetIndexBuffer { mesh: mesh_id, sub_mesh: (j - 1) as usize },
            Cmd::SetVertexBuffer { mesh: mesh_id, sub_mesh: (j - 1) as usize },
            Cmd::DrawIndexed { index_count: subs[j - 1].index_count },
        ];
        assert(triple.drop_last().drop_last().drop_last() =~= Seq::<Cmd>::empty());
        assert(count_material_binds(triple) == 0);
        lemma_count_material_binds_concat(submesh_cmds_upto(mesh_id, subs, j - 1), triple);
        assert forall|e: usize|
            #[trigger] count_entity_binds(submesh_cmds_upto(mesh_id, subs, j), e) == 0 by {
            assert(count_entity_binds(triple, e) == 0);
            lemma_count_entity_binds_concat(submesh_cmds_upto(mesh_id, subs, j - 1), triple, e);
        }
    }
}

proof fn lemma_entity_cmds_counts(e_pos: usize, row: EntityRow, meshes: Seq<Mesh>)
    ensures
        count_material_binds(entity_cmds(e_pos, row, meshes)) == 0,
        forall|e: usize| #[trigger] count_entity_binds(entity_cmds(e_pos, row, meshes), e)
            == if e == e_pos { 1int } else { 0int },
{
    reveal_with_fuel(count_material_binds, 3);
    reveal_with_fuel(count_entity_binds, 3);
    let subs = meshes[row.mesh as int].sub_meshes@;
    let bind = seq![
        Cmd::SetBindGroup { slot: 0, group: BindGroupRef::Transform { entity: e_pos } },
    ];
    lemma_submesh_cmds_counts(row.mesh, subs, subs.len() as int);
    assert(bind.drop_last() =~= Seq::<Cmd>::empty());
    lemma_count_material_binds_concat(bind, submesh_cmds_upto(row.mesh, subs,
        subs.len() as int));
    assert forall|e: usize|
        #[trigger] count_entity_binds(entity_cmds(e_pos, row, meshes), e)
            == if e == e_pos { 1int } else { 0int } by {
        assert(count_entity_binds(bind, e) == if e == e_pos { 1int } else { 0int });
        lemma_count_entity_binds_concat(bind, submesh_cmds_upto(row.mesh, subs,
            subs.len() as int), e);
    }
}

proof fn lemma_rows_cmds_counts(idx: u32, rows: Seq<EntityRow>, meshes: Seq<Mesh>, i: int)
    requires
        i <= rows.len(),
        rows.len() <= usize::MAX,
    ensures
        count_material_binds(rows_cmds_upto(idx, rows, meshes, i)) == 0,
        forall|e: usize| #[trigger] count_entity_binds(rows_cmds_upto(idx, rows, meshes, i), e)
            == if (e as int) < i && rows[e as int].material_index == idx { 1int } else { 0int },
    decreases i,
{
    if i > 0 {
        lemma_rows_cmds_counts(idx, rows, meshes, i - 1);
        let part = if rows[i - 1].material_index == idx {
            entity_cmds((i - 1) as usize, rows[i - 1], meshes)
        } else {
            Seq::<Cmd>::empty()
        };
        if rows[i - 1].material_index == idx {
            lemma_entity_cmds_counts((i - 1) as usize, rows[i - 1], meshes);
        }
        lemma_count_material_binds_concat(rows_cmds_upto(idx, rows, meshes, i - 1), part);
        assert forall|e: usize|
            #[trigger] count_entity_binds(rows_cmds_upto(idx, rows, meshes, i), e)
                == if (e as int) < i && rows[e as int].material_index == idx {
                    1int
                } else {
                    0int
                } by {
            if rows[i - 1].material_index == idx {
                assert(count_entity_binds(entity_cmds((i - 1) as usize, rows[i - 1],
                    meshes), e) == if e == (i - 1) as usize { 1int } else { 0int });
                assert(part == entity_cmds((i - 1) as usize, rows[i - 1], meshes));
            } else {
                assert(count_entity_binds(Seq::<Cmd>::empty(), e) == 0);
            }
            lemma_count_entity_binds_concat(rows_cmds_upto(idx, rows, meshes, i - 1), part, e);
        }
    }
}

proof fn lemma_material_cmds_counts(m: Material, rows: Seq<EntityRow>, meshes: Seq<Mesh>)
    requires
        rows.len() <= usize::MAX,
    ensures
        count_material_binds(material_cmds(m, rows, meshes)) == 1,
        forall|e: usize| #[trigger] count_entity_binds(material_cmds(m, rows, meshes), e)
            == if (e as int) < rows.len() && rows[e as int].material_index == m.index {
                1int
            } else {
                0int
            },
{
    reveal_with_fuel(count_material_binds, 3);
    reveal_with_fuel(count_entity_binds, 3);
    let bind = seq![
        Cmd::SetBindGroup { slot: 2, group: BindGroupRef::Material { index: m.index } },
    ];
    let body = rows_cmds_upto(m.index, rows, meshes, rows.len() as int);
    lemma_rows_cmds_counts(m.index, rows, meshes, rows.len() as int);
    assert(bind.drop_last() =~= Seq::<Cmd>::empty());
    lemma_count_material_binds_concat(bind, body);
    assert forall|e: usize|
        #[trigger] count_entity_binds(material_cmds(m, rows, meshes), e)
            == if (e as int) < rows.len() && rows[e as int].material_index == m.index {
                1int
            } else {
                0int
            } by {
        assert(count_entity_binds(bind, e) == 0);
        lemma_count_entity_binds_concat(bind, body, e);
    }
}

proof fn lemma_batch_upto_counts(
    kind: MaterialKind,
    mats: Seq<Material>,
    rows: Seq<EntityRow>,
    meshes: Seq<Mesh>,
    e: usize,
    k: int,
)
    requires
        k <= mats.len(),
        (e as int) < rows.len(),
        rows.len() <= usize::MAX,
    ensures
        count_material_binds(batch_upto(kind, mats, rows, meshes, k))
            == count_kind_upto(mats, kind, k),
        count_entity_binds(batch_upto(kind, mats, rows, meshes, k), e)
            == count_kind_index_upto(mats, kind, rows[e as int].material_index, k),
    decreases k,
{
    if k > 0 {
        lemma_batch_upto_counts(kind, mats, rows, meshes, e, k - 1);
        let part = if mats[k - 1].kind == kind {
            material_cmds(mats[k - 1], rows, meshes)
        } else {
            Seq::<Cmd>::empty()
        };
        if mats[k - 1].kind == kind {
            lemma_material_cmds_counts(mats[k - 1], rows, meshes);
        }
        lemma_count_material_binds_concat(batch_upto(kind, mats, rows, meshes, k - 1), part);
        lemma_count_entity_binds_concat(batch_upto(kind, mats, rows, meshes, k - 1), part, e);
    }
}

/// Batched submission switches the material binding set exactly once per
/// known material of the pass's shading model — however many entities each
/// material is used by.
pub proof fn lemma_batch_binds_once_per_material(
    kind: MaterialKind,
    mats: Seq<Material>,
    rows: Seq<EntityRow>,
    meshes: Seq<Mesh>,
)
    requires
        rows.len() <= usize::MAX,
    ensures
        count_material_binds(batch_cmds(kind, mats, rows, meshes)) == count_kind(mats, kind),
{
    if rows.len() == 0 {
        lemma_batch_material_only(kind, mats, rows, meshes, mats.len() as int);
    } else {
        lemma_batch_upto_counts(kind, mats, rows, meshes, 0, mats.len() as int);
    }
}

proof fn lemma_batch_material_only(
    kind: MaterialKind,
    mats: Seq<Material>,
    rows: Seq<EntityRow>,
    meshes: Seq<Mesh>,
    k: int,
)
    requires
        k <= mats.len(),
        rows.len() <= usize::MAX,
    ensures
        count_material_binds(batch_upto(kind, mats, rows, meshes, k))
            == count_kind_upto(mats, kind, k),
    decreases k,
{
    if k > 0 {
        lemma_batch_material_only(kind, mats, rows, meshes, k - 1);
        let part = if mats[k - 1].kind == kind {
            material_cmds(mats[k - 1], rows, meshes)
        } else {
            Seq::<Cmd>::empty()
        };
        if mats[k - 1].kind == kind {
            lemma_material_cmds_counts(mats[k - 1], rows, meshes);
        }
        lemma_count_material_binds_concat(batch_upto(kind, mats, rows, meshes, k - 1), part);
    }
}

/// Batched submission draws scene row `e` once for every known material
/// that matches the pass's shading model and the row's material index —
/// so with distinct indices in the material list, every referencing entity
/// is drawn exactly once, and rows of other materials are untouched.
pub proof fn lemma_batch_draws_each_entity(
    kind: MaterialKind,
    mats: Seq<Material>,
    rows: Seq<EntityRow>,
    meshes: Seq<Mesh>,
    e: usize,
)
    requires
        (e as int) < rows.len(),
        rows.len() <= usize::MAX,
    ensures
        count_entity_binds(batch_cmds(kind, mats, rows, meshes), e)
            == count_kind_index(mats, kind, rows[e as int].material_index),
{
    lemma_batch_upto_counts(kind, mats, rows, meshes, e, mats.len() as int);
}

} // verus!
