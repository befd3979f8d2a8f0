use vstd::prelude::*;
use vstd::string::StringExecFns;

verus! {

/// A material of a model; its texture and binding resources live beside it, at the
/// same index.
pub struct Material {
    pub name: String,
}

/// A mesh of a model; its vertex and index buffers live beside it, at the same index.
pub struct Mesh {
    pub name: String,
    /// Number of indices to draw.
    pub num_elements: u32,
    /// Index into the model's materials.
    pub material: usize,
}

/// A mesh as the asset parser reports it, before its material is resolved.
pub struct MeshSource {
    pub name: String,
    pub num_elements: u32,
    /// The material the asset names for the mesh, if any.
    pub material_id: Option<usize>,
}

/// Meshes and the materials they refer to.
pub struct Model {
    pub meshes: Vec<Mesh>,
    pub materials: Vec<Material>,
}

/// Why a set of meshes and materials is not a model.
#[derive(Clone, Copy, Debug, PartialEq, Eq)]
pub enum ModelError {
    /// Mesh `mesh` refers to material `material`, which does not exist.
    MaterialOutOfRange { mesh: usize, material: usize },
}

/// Name of the material that stands in when an asset defines none.
pub open spec fn fallback_material_name() -> Seq<char> {
    "missing_material"@
}

/// The material a mesh uses: the one the asset names, else the first.
pub open spec fn material_index(material_id: Option<usize>) -> usize {
    match material_id {
        Some(k) => k,
        None => 0,
    }
}

/// Number of materials once the fallback has been added to an empty list.
pub open spec fn material_count(n: nat) -> nat {
    if n == 0 {
        1
    } else {
        n
    }
}

/// Every mesh's material exists among `n` materials.
pub open spec fn all_materials_valid(meshes: Seq<MeshSource>, n: nat) -> bool {
    forall|i: int| 0 <= i < meshes.len() ==> material_index(#[trigger] meshes[i].material_id) < n
}

impl Model {
    /// Every mesh refers to an existing material.
    pub open spec fn wf(&self) -> bool {
        forall|i: int|
            0 <= i < self.meshes@.len() ==> #[trigger] self.meshes@[i].material
                < self.materials@.len()
    }

    /// Builds a model from parsed meshes and materials. An asset without materials gets
    /// one fallback material, named `missing_material`; a mesh that names no material
    /// uses the first. Fails on the first mesh whose material does not exist.
    pub fn from_parts(meshes: Vec<MeshSource>, materials: Vec<Material>) -> (r: Result<
        Model,
        ModelError,
    >)
        ensures
            r is Ok <==> all_materials_valid(meshes@, material_count(materials@.len())),
            r matches Ok(m) ==> {
                &&& m.wf()
                &&& materials@.len() == 0 ==> m.materials@.len() == 1
                    && m.materials@[0].name@ == fallback_material_name()
                &&& materials@.len() > 0 ==> m.materials@ == materials@
                &&& m.meshes@.len() == meshes@.len()
                &&& forall|i: int|
                    0 <= i < meshes@.len() ==> {
                        &&& (#[trigger] m.meshes@[i]).name@ == meshes@[i].name@
                        &&& m.meshes@[i].num_elements == meshes@[i].num_elements
                        &&& m.meshes@[i].material == material_index(meshes@[i].material_id)
                    }
            },
            r matches Err(ModelError::MaterialOutOfRange { mesh, material }) ==> {
                &&& mesh < meshes@.len()
                &&& material == material_index(meshes@[mesh as int].material_id)
                &&& material >= material_count(materials@.len())
                &&& all_materials_valid(
                    meshes@.take(mesh as int),
                    material_count(materials@.len()),
                )
            },
    {
        let ghost given = materials@;
        let mut table = materials;
        if table.len() == 0 {
            let name = String::from_str("missing_material");
            table.push(Material { name });
        }
        let n = table.len();
        let mut resolved: Vec<Mesh> = Vec::new();
        let mut i: usize = 0;
        while i < meshes.len()
            invariant
                i <= meshes@.len(),
                n == table@.len(),
                n == material_count(given.len()),
                given == materials@,
                resolved@.len() == i,
                all_materials_valid(meshes@.take(i as int), n as nat),
                forall|k: int|
                    0 <= k < i ==> {
                        &&& (#[trigger] resolved@[k]).name@ == meshes@[k].name@
                        &&& resolved@[k].num_elements == meshes@[k].num_elements
                        &&& resolved@[k].material == material_index(meshes@[k].material_id)
                        &&& resolved@[k].material < n
                    },
            decreases meshes@.len() - i,
        {
            let source = &meshes[i];
            let material: usize = match source.material_id {
                Some(k) => k,
                None => 0,
            };
            if material >= n {
                assert(material == material_index(meshes@[i as int].material_id));
                assert(!all_materials_valid(meshes@, n as nat));
                return Err(ModelError::MaterialOutOfRange { mesh: i, material });
            }
            let name = source.name.clone();
            resolved.push(Mesh { name, num_elements: source.num_elements, material });
            proof {
                assert forall|k: int| 0 <= k < i + 1 implies material_index(
                    #[trigger] meshes@.take(i + 1)[k].material_id,
                ) < n by {
                    if k < i {
                        assert(meshes@.take(i as int)[k] == meshes@.take(i + 1)[k]);
                    }
                }
            }
            i = i + 1;
        }
        proof {
            assert(meshes@.take(meshes@.len() as int) =~= meshes@);
        }
        proof {
            reveal_strlit("missing_material");
        }
        Ok(Model { meshes: resolved, materials: table })
    }
}

} // verus!
