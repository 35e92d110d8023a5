use vstd::prelude::*;

verus! {

/// The one camera component this core reads: whether the camera is active.
/// (Its matrices live with the scene store; a recorded uniform write tells
/// the backend to copy them.)
#[derive(Clone, Copy, Debug, PartialEq, Eq, Structural)]
pub struct CameraData {
    pub active: bool,
}

/// One joined scene row: an entity with a mesh reference, a material
/// reference and a spatial transform.  The row's position in the world's
/// entity list names its transform binding set.
#[derive(Clone, Copy, Debug, PartialEq, Eq, Structural)]
pub struct EntityRow {
    /// Index of the entity's mesh in the asset collaborator's mesh list.
    pub mesh: usize,
    /// The stable index of the material the entity was authored with.
    pub material_index: u32,
}

/// What the frame graph reads from the entity-component scene store.  It
/// never writes any of it.
#[derive(Clone, Debug, PartialEq, Eq)]
pub struct World {
    pub cameras: Vec<CameraData>,
    pub entities: Vec<EntityRow>,
    /// Whether a skybox resource (cube texture plus its two binding sets)
    /// is present in the scene.
    pub has_skybox: bool,
}

/// A material known to the asset collaborator: a shading-model tag and the
/// stable index that draw submission batches by.
#[derive(Clone, Copy, Debug, PartialEq, Eq, Structural)]
pub struct Material {
    pub kind: MaterialKind,
    pub index: u32,
}

/// The shading model a material selects.
#[derive(Clone, Copy, Debug, PartialEq, Eq, Structural)]
pub enum MaterialKind {
    Unlit,
    Pbr,
}

/// One immutable piece of a mesh: a vertex buffer, an index buffer with
/// this many indices, and the material index it was authored with.
#[derive(Clone, Copy, Debug, PartialEq, Eq, Structural)]
pub struct SubMesh {
    pub index_count: u32,
    pub material_index: u32,
}

/// An ordered sequence of sub-meshes.
#[derive(Clone, Debug, PartialEq, Eq)]
pub struct Mesh {
    pub sub_meshes: Vec<SubMesh>,
}

/// What the frame graph reads from the asset collaborator: the stable,
/// ordered material list that draw submission walks, the imported meshes,
/// and the names of the GPU-resident images.
#[derive(Clone, Debug, PartialEq, Eq)]
pub struct AssetManager {
    pub materials: Vec<Material>,
    pub meshes: Vec<Mesh>,
    pub images: Vec<String>,
}

/// How many cameras are flagged active.
pub open spec fn count_active(cams: Seq<CameraData>) -> int
    decreases cams.len(),
{
    if cams.len() == 0 {
        0
    } else {
        count_active(cams.drop_last()) + if cams.last().active { 1int } else { 0int }
    }
}

impl World {
    /// Counts the active-camera components in the scene.
    pub fn active_camera_count(&self) -> (n: usize)
        ensures
            n as int == count_active(self.cameras@),
    {
        let mut n: usize = 0;
        let mut i: usize = 0;
        while i < self.cameras.len()
            invariant
                i <= self.cameras@.len(),
                n <= i,
                n as int == count_active(self.cameras@.take(i as int)),
            decreases self.cameras@.len() - i,
        {
            proof {
                assert(self.cameras@.take(i as int + 1).drop_last()
                    =~= self.cameras@.take(i as int));
                assert(self.cameras@.take(i as int + 1).last() == self.cameras@[i as int]);
            }
            if self.cameras[i].active {
                n = n + 1;
            }
            i = i + 1;
        }
        proof {
            assert(self.cameras@.take(self.cameras@.len() as int) =~= self.cameras@);
        }
        n
    }
}

/// `name` is the name of an image the asset collaborator holds.
pub open spec fn has_image(images: Seq<String>, name: Seq<char>) -> bool {
    exists|i: int| 0 <= i < images.len() && images[i]@ == name
}

impl AssetManager {
    /// Whether a GPU-resident image with this name is loaded.
    pub fn image_is_loaded(&self, name: &String) -> (r: bool)
        ensures
            r == has_image(self.images@, name@),
    {
        let mut i: usize = 0;
        while i < self.images.len()
            invariant
                i <= self.images@.len(),
                forall|j: int| 0 <= j < i as int ==> (#[trigger] self.images@[j])@ != name@,
            decreases self.images@.len() - i,
        {
            if self.images[i] == *name {
                return true;
            }
            i = i + 1;
        }
        false
    }
}

} // verus!
