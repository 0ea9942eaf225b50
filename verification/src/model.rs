//! From a parsed asset to a renderable model: attribute counts are checked,
//! vertices assembled, and each sub-mesh's material resolved by name.

use vstd::prelude::*;
use crate::gpu::lemma_views_add;
use crate::gpu::views;
use crate::gpu::GpuCommand;
use crate::gpu::GpuCommandView;
use crate::material::texture_view;
use crate::material::Material;
use crate::material::MaterialView;
use crate::mesh::draw_commands;
use crate::mesh::indices_in_range;
use crate::mesh::Mesh;
use crate::mesh::MeshView;
use crate::mesh::Vertex;
use crate::shader::Shader;
use crate::texture::Texture;
use crate::scalar::Vec2Bits;
use crate::scalar::Vec3Bits;

verus! {

/// A material as the asset describes it. A texture path is empty where the
/// material names no texture.
#[derive(PartialEq, Debug)]
pub struct AssetMaterial {
    pub name: String,
    pub ambient: Vec3Bits,
    pub diffuse: Vec3Bits,
    pub specular: Vec3Bits,
    pub shininess: u32,
    pub diffuse_texture: String,
    pub specular_texture: String,
}

/// A sub-mesh as the asset describes it: flat attribute arrays, three words
/// to a position or a normal and two to a texture coordinate, the indices of
/// its triangles, and the name of the material it declares.
#[derive(PartialEq, Debug)]
pub struct AssetMesh {
    pub positions: Vec<u32>,
    pub normals: Vec<u32>,
    pub texcoords: Vec<u32>,
    pub indices: Vec<u32>,
    pub material: String,
}

/// The names of an asset's materials, in order.
pub open spec fn names(materials: Seq<AssetMaterial>) -> Seq<Seq<char>> {
    Seq::new(materials.len(), |i: int| materials[i].name@)
}

/// Whether some material bears `name`.
pub open spec fn has_match(names: Seq<Seq<char>>, name: Seq<char>) -> bool {
    exists|i: int| 0 <= i < names.len() && names[i] == name
}

/// Whether `i` is the first material that bears `name`.
pub open spec fn is_first_match(names: Seq<Seq<char>>, name: Seq<char>, i: int) -> bool {
    &&& 0 <= i < names.len()
    &&& names[i] == name
    &&& forall|j: int| 0 <= j < i ==> names[j] != name
}

/// Resolves a material by exact name: the first material that bears `name`,
/// if any does.
pub fn find_material(materials: &Vec<AssetMaterial>, name: &String) -> (found: Option<usize>)
    ensures
        match found {
            Some(i) => is_first_match(names(materials@), name@, i as int),
            None => !has_match(names(materials@), name@),
        },
{
    let mut i: usize = 0;
    while i < materials.len()
        invariant
            i <= materials.len(),
            forall|j: int| 0 <= j < i ==> names(materials@)[j] != name@,
        decreases materials.len() - i,
    {
        if materials[i].name == *name {
            return Some(i);
        }
        i += 1;
    }
    None
}

/// The name that a sub-mesh declares when it refers to its material by
/// position among the asset's materials: that material's name, and the
/// empty name, which no material of a parsed asset bears, where it refers to
/// none or to a position past the last material.
pub fn declared_material(materials: &Vec<AssetMaterial>, material_id: Option<usize>) -> (name: String)
    ensures
        match material_id {
            Some(id) if id < materials@.len() => name@ == materials@[id as int].name@,
            _ => name@.len() == 0,
        },
{
    match material_id {
        Some(id) if id < materials.len() => materials[id].name.clone(),
        _ => String::new(),
    }
}

/// Copies a sub-mesh's indices, provided each names one of `count` vertices.
pub fn checked_indices(indices: &Vec<u32>, count: usize) -> (copy: Option<Vec<u32>>)
    ensures
        match copy {
            Some(v) => indices_in_range(indices@, count as nat) && v@ == indices@,
            None => !indices_in_range(indices@, count as nat),
        },
{
    let mut copy: Vec<u32> = Vec::new();
    let mut k: usize = 0;
    while k < indices.len()
        invariant
            k <= indices.len(),
            copy@ == indices@.take(k as int),
            forall|j: int| 0 <= j < k ==> indices@[j] < count,
        decreases indices.len() - k,
    {
        let index: u32 = indices[k];
        if index as usize >= count {
            return None;
        }
        copy.push(index);
        k += 1;
    }
    Some(copy)
}

/// Number of whole vertices that attribute arrays of these lengths describe:
/// three words to a position.
pub open spec fn vertex_count(positions: Seq<u32>) -> nat {
    positions.len() / 3
}

/// Whether positions, normals and texture coordinates describe the same
/// number of vertices: three words to a position or a normal, two to a
/// texture coordinate, a trailing partial attribute not counted.
pub open spec fn counts_agree(positions: Seq<u32>, normals: Seq<u32>, texcoords: Seq<u32>) -> bool {
    positions.len() / 3 == normals.len() / 3 && normals.len() / 3 == texcoords.len() / 2
}

/// Vertex `i` of an asset's flat attribute arrays.
pub open spec fn vertex_at(
    positions: Seq<u32>,
    normals: Seq<u32>,
    texcoords: Seq<u32>,
    i: int,
) -> Vertex {
    Vertex {
        position: Vec3Bits { x: positions[3 * i], y: positions[3 * i + 1], z: positions[3 * i + 2] },
        normal: Vec3Bits { x: normals[3 * i], y: normals[3 * i + 1], z: normals[3 * i + 2] },
        tex_coords: Vec2Bits { x: texcoords[2 * i], y: texcoords[2 * i + 1] },
    }
}

/// The vertices that flat attribute arrays describe, in order.
pub open spec fn assembled(positions: Seq<u32>, normals: Seq<u32>, texcoords: Seq<u32>) -> Seq<Vertex> {
    Seq::new(vertex_count(positions), |i: int| vertex_at(positions, normals, texcoords, i))
}

/// Gathers the flat attribute arrays of a sub-mesh into vertices.
pub fn assemble_vertices(positions: &Vec<u32>, normals: &Vec<u32>, texcoords: &Vec<u32>) -> (vertices:
    Vec<Vertex>)
    requires
        counts_agree(positions@, normals@, texcoords@),
    ensures
        vertices@ == assembled(positions@, normals@, texcoords@),
{
    let count: usize = positions.len() / 3;
    let mut vertices: Vec<Vertex> = Vec::new();
    let mut i: usize = 0;
    while i < count
        invariant
            count == positions@.len() / 3,
            counts_agree(positions@, normals@, texcoords@),
            i <= count,
            vertices@.len() == i,
            forall|k: int| 0 <= k < i ==> vertices@[k] == vertex_at(positions@, normals@, texcoords@, k),
        decreases count - i,
    {
        assert(3 * i + 2 < positions.len() && 3 * i + 2 < normals.len() && 2 * i + 1
            < texcoords.len());
        let position = Vec3Bits {
            x: positions[i * 3],
            y: positions[i * 3 + 1],
            z: positions[i * 3 + 2],
        };
        let normal = Vec3Bits { x: normals[i * 3], y: normals[i * 3 + 1], z: normals[i * 3 + 2] };
        let tex_coords = Vec2Bits { x: texcoords[i * 2], y: texcoords[i * 2 + 1] };
        vertices.push(Vertex { position, normal, tex_coords });
        i += 1;
    }
    vertices
}

/// What can be wrong with a sub-mesh, in the order in which it is looked for.
pub enum Defect {
    /// Its attribute arrays describe different numbers of vertices.
    Malformed,
    /// One of its indices names no vertex.
    IndexOutOfRange,
    /// No material bears the name it declares.
    Unresolved,
}

/// The first thing wrong with a sub-mesh, if anything is.
pub open spec fn defect_of(names: Seq<Seq<char>>, mesh: AssetMesh) -> Option<Defect> {
    if !counts_agree(mesh.positions@, mesh.normals@, mesh.texcoords@) {
        Some(Defect::Malformed)
    } else if !indices_in_range(mesh.indices@, vertex_count(mesh.positions@)) {
        Some(Defect::IndexOutOfRange)
    } else if !has_match(names, mesh.material@) {
        Some(Defect::Unresolved)
    } else {
        None
    }
}

/// Whether sub-mesh `k` is the first one with anything wrong.
pub open spec fn is_first_defective(names: Seq<Seq<char>>, meshes: Seq<AssetMesh>, k: int) -> bool {
    &&& 0 <= k < meshes.len()
    &&& defect_of(names, meshes[k]) is Some
    &&& forall|j: int| 0 <= j < k ==> defect_of(names, #[trigger] meshes[j]) is None
}

/// Why an asset cannot become a model.
#[derive(PartialEq, Debug)]
pub enum ModelError {
    /// Sub-mesh `mesh` has positions, normals and texture coordinates of
    /// different counts.
    MalformedAsset { mesh: usize },
    /// Sub-mesh `mesh` has an index that names no vertex.
    IndexOutOfRange { mesh: usize },
    /// Sub-mesh `mesh` declares the material `name`, which the asset lacks.
    UnresolvedMaterial { mesh: usize, name: String },
}

/// A `ModelError` with its text as a sequence of characters.
pub enum ModelErrorView {
    MalformedAsset { mesh: int },
    IndexOutOfRange { mesh: int },
    UnresolvedMaterial { mesh: int, name: Seq<char> },
}

impl ModelErrorView {
    /// The sub-mesh that the error is about.
    pub open spec fn mesh(self) -> int {
        match self {
            ModelErrorView::MalformedAsset { mesh } => mesh,
            ModelErrorView::IndexOutOfRange { mesh } => mesh,
            ModelErrorView::UnresolvedMaterial { mesh, .. } => mesh,
        }
    }
}

impl View for ModelError {
    type V = ModelErrorView;

    open spec fn view(&self) -> ModelErrorView {
        match self {
            ModelError::MalformedAsset { mesh } => ModelErrorView::MalformedAsset {
                mesh: *mesh as int,
            },
            ModelError::IndexOutOfRange { mesh } => ModelErrorView::IndexOutOfRange {
                mesh: *mesh as int,
            },
            ModelError::UnresolvedMaterial { mesh, name } => ModelErrorView::UnresolvedMaterial {
                mesh: *mesh as int,
                name: name@,
            },
        }
    }
}

/// The error that reports defect `defect` of sub-mesh `k`.
pub open spec fn error_of(k: int, mesh: AssetMesh, defect: Defect) -> ModelErrorView {
    match defect {
        Defect::Malformed => ModelErrorView::MalformedAsset { mesh: k },
        Defect::IndexOutOfRange => ModelErrorView::IndexOutOfRange { mesh: k },
        Defect::Unresolved => ModelErrorView::UnresolvedMaterial { mesh: k, name: mesh.material@ },
    }
}

/// A sub-mesh ready for upload: its vertices, its indices, and the place of
/// its material among the model's materials.
#[derive(PartialEq, Debug)]
pub struct MeshPlan {
    pub vertices: Vec<Vertex>,
    pub indices: Vec<u32>,
    pub material: usize,
}

impl MeshPlan {
    /// Whether this is what sub-mesh `mesh` becomes among materials named `names`.
    pub open spec fn realizes(self, names: Seq<Seq<char>>, mesh: AssetMesh) -> bool {
        &&& self.vertices@ == assembled(mesh.positions@, mesh.normals@, mesh.texcoords@)
        &&& self.indices@ == mesh.indices@
        &&& is_first_match(names, mesh.material@, self.material as int)
    }

    /// Whether every index names a vertex and the material is one of `materials`.
    pub open spec fn valid(self, materials: nat) -> bool {
        &&& indices_in_range(self.indices@, self.vertices@.len())
        &&& self.material < materials
    }
}

/// Checks one sub-mesh and makes it ready for upload.
pub fn plan_mesh(materials: &Vec<AssetMaterial>, mesh: &AssetMesh) -> (r: Result<MeshPlan, Defect>)
    ensures
        match r {
            Ok(plan) => defect_of(names(materials@), *mesh) is None && plan.realizes(
                names(materials@),
                *mesh,
            ) && plan.valid(materials@.len()),
            Err(defect) => defect_of(names(materials@), *mesh) == Some(defect),
        },
{
    let vertices_count: usize = mesh.positions.len() / 3;
    let normals_count: usize = mesh.normals.len() / 3;
    let texcoords_count: usize = mesh.texcoords.len() / 2;
    if vertices_count != normals_count || normals_count != texcoords_count {
        return Err(Defect::Malformed);
    }
    let vertices = assemble_vertices(&mesh.positions, &mesh.normals, &mesh.texcoords);
    let indices = match checked_indices(&mesh.indices, vertices_count) {
        Some(indices) => indices,
        None => {
            return Err(Defect::IndexOutOfRange);
        },
    };
    match find_material(materials, &mesh.material) {
        Some(material) => Ok(MeshPlan { vertices, indices, material }),
        None => Err(Defect::Unresolved),
    }
}

/// A checked asset: its materials as described, and every sub-mesh ready
/// for upload with its material resolved. Nothing is on the GPU yet.
#[derive(Debug)]
pub struct ModelPlan {
    materials: Vec<AssetMaterial>,
    meshes: Vec<MeshPlan>,
}

impl ModelPlan {
    #[verifier::type_invariant]
    spec fn well_formed(self) -> bool {
        forall|k: int|
            0 <= k < self.meshes@.len() ==> (#[trigger] self.meshes@[k]).valid(self.materials@.len())
    }

    /// The materials of the asset, as described.
    pub closed spec fn materials(self) -> Seq<AssetMaterial> {
        self.materials@
    }

    /// The sub-meshes, ready for upload, in the asset's order.
    pub closed spec fn meshes(self) -> Seq<MeshPlan> {
        self.meshes@
    }

    /// Whether this is the plan of the asset made of `materials` and `meshes`.
    pub open spec fn realizes(self, materials: Seq<AssetMaterial>, meshes: Seq<AssetMesh>) -> bool {
        &&& self.materials() == materials
        &&& self.meshes().len() == meshes.len()
        &&& forall|k: int|
            0 <= k < meshes.len() ==> (#[trigger] self.meshes()[k]).realizes(
                names(materials),
                meshes[k],
            )
    }

    /// Whether `textures` and `vertex_arrays` are what loading and uploading
    /// this plan gives: for each material its textures, one exactly where
    /// the material names one, and for each sub-mesh its vertex array.
    pub open spec fn served_by(self, textures: Seq<MaterialTextures>, vertex_arrays: Seq<u32>) -> bool {
        &&& textures.len() == self.materials().len()
        &&& forall|j: int|
            0 <= j < textures.len() ==> (#[trigger] self.materials()[j]).served_by(textures[j])
        &&& vertex_arrays.len() == self.meshes().len()
    }

    /// Whether `textures` and `vertex_arrays` are what loading and uploading
    /// this plan gives.
    pub fn accepts(&self, textures: &Vec<MaterialTextures>, vertex_arrays: &Vec<u32>) -> (accepted:
        bool)
        ensures
            accepted == self.served_by(textures@, vertex_arrays@),
    {
        if textures.len() != self.materials.len() || vertex_arrays.len() != self.meshes.len() {
            return false;
        }
        let mut j: usize = 0;
        while j < textures.len()
            invariant
                j <= textures@.len(),
                textures@.len() == self.materials@.len(),
                forall|i: int|
                    0 <= i < j ==> (#[trigger] self.materials@[i]).served_by(textures@[i]),
            decreases textures@.len() - j,
        {
            let material = &self.materials[j];
            let loaded = &textures[j];
            if loaded.diffuse.is_some() == material.diffuse_texture.as_str().is_empty()
                || loaded.specular.is_some() == material.specular_texture.as_str().is_empty() {
                return false;
            }
            j += 1;
        }
        true
    }

    /// Number of materials.
    pub fn material_count(&self) -> (n: usize)
        ensures
            n == self.materials().len(),
    {
        self.materials.len()
    }

    /// Material `i` as the asset describes it.
    pub fn material(&self, i: usize) -> (m: &AssetMaterial)
        requires
            i < self.materials().len(),
        ensures
            *m == self.materials()[i as int],
    {
        &self.materials[i]
    }

    /// Number of sub-meshes.
    pub fn mesh_count(&self) -> (n: usize)
        ensures
            n == self.meshes().len(),
    {
        self.meshes.len()
    }

    /// Sub-mesh `k`, ready for upload.
    pub fn mesh(&self, k: usize) -> (m: &MeshPlan)
        requires
            k < self.meshes().len(),
        ensures
            *m == self.meshes()[k as int],
            m.valid(self.materials().len()),
    {
        proof {
            use_type_invariant(self);
        }
        &self.meshes[k]
    }
}

/// What checking the asset made of `materials` and `meshes` gives: a plan
/// of it exactly when no sub-mesh has anything wrong, and otherwise the error
/// that reports the first defect of the first sub-mesh that has one.
pub open spec fn plan_result(
    materials: Seq<AssetMaterial>,
    meshes: Seq<AssetMesh>,
    r: Result<ModelPlan, ModelError>,
) -> bool {
    match r {
        Ok(plan) => {
            &&& forall|k: int|
                0 <= k < meshes.len() ==> defect_of(names(materials), #[trigger] meshes[k]) is None
            &&& plan.realizes(materials, meshes)
        },
        Err(e) => {
            &&& is_first_defective(names(materials), meshes, e@.mesh())
            &&& e@ == error_of(
                e@.mesh(),
                meshes[e@.mesh()],
                defect_of(names(materials), meshes[e@.mesh()])->0,
            )
        },
    }
}

/// An asset with a defect in any sub-mesh yields no plan, and so no mesh:
/// loading is all or nothing.
pub proof fn lemma_defect_fails(
    materials: Seq<AssetMaterial>,
    meshes: Seq<AssetMesh>,
    r: Result<ModelPlan, ModelError>,
    k: int,
)
    requires
        plan_result(materials, meshes, r),
        0 <= k < meshes.len(),
        defect_of(names(materials), meshes[k]) is Some,
    ensures
        r is Err,
{
}

/// The error reports the first sub-mesh with a defect and that mesh's first
/// defect. So where sub-mesh `k` is the first with anything wrong, it is
/// `MalformedAsset` exactly when its attribute counts differ, and
/// `UnresolvedMaterial` naming the declared material exactly when its counts
/// agree, its indices name vertices, and no material bears that name.
pub proof fn lemma_first_defect_reported(
    materials: Seq<AssetMaterial>,
    meshes: Seq<AssetMesh>,
    r: Result<ModelPlan, ModelError>,
    k: int,
)
    requires
        plan_result(materials, meshes, r),
        is_first_defective(names(materials), meshes, k),
    ensures
        r is Err,
        r->Err_0@ == error_of(k, meshes[k], defect_of(names(materials), meshes[k])->0),
        r->Err_0@ == (ModelErrorView::MalformedAsset { mesh: k }) <==> !counts_agree(
            meshes[k].positions@,
            meshes[k].normals@,
            meshes[k].texcoords@,
        ),
        r->Err_0@ == (ModelErrorView::UnresolvedMaterial { mesh: k, name: meshes[k].material@ })
            <==> defect_of(names(materials), meshes[k]) == Some(Defect::Unresolved),
{
    assert(r->Err_0@.mesh() == k);
}

/// In a plan every sub-mesh refers to a material that bears the name it
/// declares, and two sub-meshes that declare the same name refer to the same
/// material: the material is shared, not copied.
pub proof fn lemma_material_shared(
    plan: ModelPlan,
    materials: Seq<AssetMaterial>,
    meshes: Seq<AssetMesh>,
    a: int,
    b: int,
)
    requires
        plan.realizes(materials, meshes),
        0 <= a < meshes.len(),
        0 <= b < meshes.len(),
    ensures
        0 <= plan.meshes()[a].material < materials.len(),
        materials[plan.meshes()[a].material as int].name@ == meshes[a].material@,
        meshes[a].material@ == meshes[b].material@ ==> plan.meshes()[a].material
            == plan.meshes()[b].material,
{
    assert(plan.meshes()[a].realizes(names(materials), meshes[a]));
    assert(plan.meshes()[b].realizes(names(materials), meshes[b]));
}

/// The textures that were loaded for one material.
#[derive(Debug)]
pub struct MaterialTextures {
    pub diffuse: Option<Texture>,
    pub specular: Option<Texture>,
}

impl AssetMaterial {
    /// The path of the diffuse texture, where the material names one.
    pub fn diffuse_path(&self) -> (path: Option<&str>)
        ensures
            match path {
                Some(p) => p@ == self.diffuse_texture@ && p@.len() > 0,
                None => self.diffuse_texture@.len() == 0,
            },
    {
        if self.diffuse_texture.as_str().is_empty() {
            None
        } else {
            Some(self.diffuse_texture.as_str())
        }
    }

    /// The path of the specular texture, where the material names one.
    pub fn specular_path(&self) -> (path: Option<&str>)
        ensures
            match path {
                Some(p) => p@ == self.specular_texture@ && p@.len() > 0,
                None => self.specular_texture@.len() == 0,
            },
    {
        if self.specular_texture.as_str().is_empty() {
            None
        } else {
            Some(self.specular_texture.as_str())
        }
    }

    /// Whether `textures` holds a texture exactly where this material names one.
    pub open spec fn served_by(self, textures: MaterialTextures) -> bool {
        &&& textures.diffuse is Some <==> self.diffuse_texture@.len() > 0
        &&& textures.specular is Some <==> self.specular_texture@.len() > 0
    }

    /// The material that this description becomes with `textures` loaded.
    pub open spec fn with_textures(self, textures: MaterialTextures) -> MaterialView {
        MaterialView {
            name: self.name@,
            ambient_color: self.ambient,
            diffuse_color: self.diffuse,
            specular_color: self.specular,
            diffuse_texture: texture_view(textures.diffuse),
            specular_texture: texture_view(textures.specular),
            shininess: self.shininess,
        }
    }
}

impl MeshPlan {
    /// The mesh that this plan becomes once uploaded as `vertex_array`.
    pub open spec fn uploaded_as(self, vertex_array: u32) -> MeshView {
        MeshView {
            vertices: self.vertices@,
            indices: self.indices@,
            material: self.material,
            vertex_array,
        }
    }
}

/// The commands that draw `meshes` one after the other, each with its own
/// material out of `materials`.
pub open spec fn model_commands(
    program: u32,
    materials: Seq<MaterialView>,
    meshes: Seq<MeshView>,
) -> Seq<GpuCommandView>
    decreases meshes.len(),
{
    if meshes.len() == 0 {
        seq![]
    } else {
        model_commands(program, materials, meshes.drop_last()) + draw_commands(
            program,
            materials[meshes.last().material as int],
            meshes.last(),
        )
    }
}

/// A renderable model: its materials, and its meshes in the order of the
/// asset, each of which refers to one of the materials.
#[derive(Debug)]
pub struct Model {
    materials: Vec<Material>,
    meshes: Vec<Mesh>,
}

impl Model {
    #[verifier::type_invariant]
    spec fn well_formed(self) -> bool {
        forall|k: int|
            0 <= k < self.meshes@.len() ==> (#[trigger] self.meshes@[k])@.material
                < self.materials@.len()
    }

    /// The materials, in the order of the asset.
    pub closed spec fn materials(self) -> Seq<MaterialView> {
        Seq::new(self.materials@.len(), |j: int| self.materials@[j]@)
    }

    /// The meshes, in the order of the asset.
    pub closed spec fn meshes(self) -> Seq<MeshView> {
        Seq::new(self.meshes@.len(), |k: int| self.meshes@[k]@)
    }

    /// Whether this is the model that `plan` becomes with `textures` loaded
    /// for its materials and `vertex_arrays` uploaded for its sub-meshes:
    /// material `j` is material `j` of the asset with its textures, and mesh
    /// `k` is sub-mesh `k` with its vertex array and its resolved material.
    pub open spec fn built_from(
        self,
        plan: ModelPlan,
        textures: Seq<MaterialTextures>,
        vertex_arrays: Seq<u32>,
    ) -> bool {
        &&& self.materials().len() == plan.materials().len()
        &&& forall|j: int|
            0 <= j < plan.materials().len() ==> #[trigger] self.materials()[j]
                == plan.materials()[j].with_textures(textures[j])
        &&& self.meshes().len() == plan.meshes().len()
        &&& forall|k: int|
            0 <= k < plan.meshes().len() ==> #[trigger] self.meshes()[k]
                == plan.meshes()[k].uploaded_as(vertex_arrays[k])
    }

    /// Checks a parsed asset and makes it ready for upload. Nothing is loaded or
    /// uploaded on the way, so an asset that fails has cost no GPU resource.
    ///
    /// Succeeds exactly when no sub-mesh has anything wrong. Otherwise the error
    /// reports the first sub-mesh that has, and of that mesh the first defect:
    /// differing attribute counts, then an index that names no vertex, then a
    /// material name that no material bears.
    pub fn plan(materials: Vec<AssetMaterial>, meshes: &Vec<AssetMesh>) -> (r: Result<
        ModelPlan,
        ModelError,
    >)
        ensures
            plan_result(materials@, meshes@, r),
    {
        let mut plans: Vec<MeshPlan> = Vec::new();
        let mut k: usize = 0;
        while k < meshes.len()
            invariant
                k <= meshes.len(),
                plans@.len() == k,
                forall|j: int|
                    0 <= j < k ==> defect_of(names(materials@), #[trigger] meshes@[j]) is None,
                forall|j: int|
                    0 <= j < k ==> (#[trigger] plans@[j]).realizes(names(materials@), meshes@[j]),
                forall|j: int| 0 <= j < k ==> (#[trigger] plans@[j]).valid(materials@.len()),
            decreases meshes.len() - k,
        {
            match plan_mesh(&materials, &meshes[k]) {
                Ok(plan) => {
                    plans.push(plan);
                },
                Err(Defect::Malformed) => {
                    return Err(ModelError::MalformedAsset { mesh: k });
                },
                Err(Defect::IndexOutOfRange) => {
                    return Err(ModelError::IndexOutOfRange { mesh: k });
                },
                Err(Defect::Unresolved) => {
                    return Err(ModelError::UnresolvedMaterial { mesh: k, name: meshes[k].material.clone() });
                },
            }
            k += 1;
        }
        Ok(ModelPlan { materials, meshes: plans })
    }

    /// Builds the model of a checked asset once its textures are loaded and
    /// its sub-meshes uploaded: `textures[j]` holds what was loaded for
    /// material `j`, a texture exactly where the material names one, and
    /// `vertex_arrays[k]` is the vertex array of sub-mesh `k`.
    ///
    /// Material `j` of the model is material `j` of the asset with its
    /// textures, and mesh `k` is sub-mesh `k` with its vertex array and its
    /// resolved material.
    pub fn new(plan: ModelPlan, textures: Vec<MaterialTextures>, vertex_arrays: &Vec<u32>) -> (model:
        Model)
        requires
            plan.served_by(textures@, vertex_arrays@),
        ensures
            model.built_from(plan, textures@, vertex_arrays@),
    {
        proof {
            use_type_invariant(&plan);
        }
        let ModelPlan { materials: described, meshes: planned } = plan;
        let mut materials: Vec<Material> = Vec::new();
        let mut j: usize = 0;
        for loaded in it: textures
            invariant
                j == it.index(),
                it.seq() == textures@,
                textures@.len() == described@.len(),
                described@.len() == described.len(),
                materials@.len() == j,
                forall|i: int|
                    0 <= i < j ==> (#[trigger] materials@[i])@ == described@[i].with_textures(
                        textures@[i],
                    ),
        {
            let d = &described[j];
            materials.push(
                Material {
                    name: d.name.clone(),
                    ambient_color: d.ambient,
                    diffuse_color: d.diffuse,
                    specular_color: d.specular,
                    diffuse_texture: loaded.diffuse,
                    specular_texture: loaded.specular,
                    shininess: d.shininess,
                },
            );
            j += 1;
        }
        let mut meshes: Vec<Mesh> = Vec::new();
        let mut k: usize = 0;
        for planned_mesh in it: planned
            invariant
                k == it.index(),
                it.seq() == planned@,
                vertex_arrays@.len() == planned@.len(),
                vertex_arrays@.len() == vertex_arrays.len(),
                materials@.len() == described@.len(),
                forall|i: int|
                    0 <= i < planned@.len() ==> (#[trigger] planned@[i]).valid(described@.len()),
                meshes@.len() == k,
                forall|i: int|
                    0 <= i < k ==> (#[trigger] meshes@[i])@ == planned@[i].uploaded_as(
                        vertex_arrays@[i],
                    ),
        {
            let MeshPlan { vertices, indices, material } = planned_mesh;
            meshes.push(Mesh::new(vertices, indices, material, vertex_arrays[k]));
            k += 1;
        }
        Model { materials, meshes }
    }

    /// Number of materials.
    pub fn material_count(&self) -> (n: usize)
        ensures
            n == self.materials().len(),
    {
        self.materials.len()
    }

    /// Material `j`.
    pub fn material(&self, j: usize) -> (material: &Material)
        requires
            j < self.materials().len(),
        ensures
            material@ == self.materials()[j as int],
    {
        &self.materials[j]
    }

    /// Number of meshes.
    pub fn mesh_count(&self) -> (n: usize)
        ensures
            n == self.meshes().len(),
    {
        self.meshes.len()
    }

    /// Mesh `k`, whose material is one of the model's.
    pub fn mesh(&self, k: usize) -> (mesh: &Mesh)
        requires
            k < self.meshes().len(),
        ensures
            mesh@ == self.meshes()[k as int],
            mesh@.material < self.materials().len(),
    {
        proof {
            use_type_invariant(self);
        }
        &self.meshes[k]
    }

    /// The commands that draw the model with `shader`: every mesh in the
    /// order of the asset, none left out, none regrouped.
    pub fn draw(&self, shader: &Shader) -> (commands: Vec<GpuCommand>)
        ensures
            views(commands@) == model_commands(shader.id(), self.materials(), self.meshes()),
    {
        proof {
            use_type_invariant(self);
        }
        let mut commands: Vec<GpuCommand> = Vec::new();
        let mut k: usize = 0;
        while k < self.meshes.len()
            invariant
                k <= self.meshes@.len(),
                self.well_formed(),
                views(commands@) == model_commands(
                    shader.id(),
                    self.materials(),
                    self.meshes().take(k as int),
                ),
            decreases self.meshes@.len() - k,
        {
            let mut drawn = self.meshes[k].draw(shader, &self.materials);
            proof {
                lemma_views_add(commands@, drawn@);
                let upto = self.meshes().take(k + 1);
                assert(upto.drop_last() =~= self.meshes().take(k as int));
            }
            commands.append(&mut drawn);
            k += 1;
        }
        assert(self.meshes().take(k as int) =~= self.meshes());
        commands
    }
}

/// A model built from the plan of an asset has one material for each of the
/// asset's materials and one mesh for each of its sub-meshes, in the asset's
/// order. Every mesh refers to a material of the model that bears the name
/// its sub-mesh declares, and meshes whose sub-meshes declare the same name
/// refer to the same material.
pub proof fn lemma_model_resolved(
    model: Model,
    plan: ModelPlan,
    textures: Seq<MaterialTextures>,
    vertex_arrays: Seq<u32>,
    materials: Seq<AssetMaterial>,
    meshes: Seq<AssetMesh>,
    a: int,
    b: int,
)
    requires
        plan.realizes(materials, meshes),
        model.built_from(plan, textures, vertex_arrays),
        0 <= a < meshes.len(),
        0 <= b < meshes.len(),
    ensures
        model.materials().len() == materials.len(),
        model.meshes().len() == meshes.len(),
        0 <= model.meshes()[a].material < model.materials().len(),
        model.materials()[model.meshes()[a].material as int].name == meshes[a].material@,
        model.meshes()[a].vertices == assembled(
            meshes[a].positions@,
            meshes[a].normals@,
            meshes[a].texcoords@,
        ),
        model.meshes()[a].indices == meshes[a].indices@,
        meshes[a].material@ == meshes[b].material@ ==> model.meshes()[a].material
            == model.meshes()[b].material,
{
    lemma_material_shared(plan, materials, meshes, a, b);
    assert(plan.meshes()[a].realizes(names(materials), meshes[a]));
    assert(model.meshes()[a] == plan.meshes()[a].uploaded_as(vertex_arrays[a]));
    assert(model.meshes()[b] == plan.meshes()[b].uploaded_as(vertex_arrays[b]));
    let m = plan.meshes()[a].material as int;
    assert(model.materials()[m] == plan.materials()[m].with_textures(textures[m]));
}

} // verus!
