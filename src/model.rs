//! Mesh import: the checks that turn a parsed sub-mesh into a drawable
//! `Mesh`, and the per-vertex triangle counts that tangent averaging uses.
use vstd::prelude::*;

verus! {

/// Why a sub-mesh cannot be imported.
#[derive(Clone, Copy, Debug, PartialEq, Eq, Structural)]
pub enum LoadError {
    /// Fewer than two texture coordinates per vertex.
    MissingTexcoords,
    /// Fewer than three normal components per vertex.
    MissingNormals,
    /// The index list does not split into whole triangles.
    IndicesNotTriangles,
    /// An index names a vertex that does not exist.
    IndexOutOfRange,
    /// More indices than a 32-bit element count can hold.
    TooManyIndices,
    /// The sub-mesh refers to a material the model does not have.
    MaterialOutOfRange,
}

/// One triangulated sub-mesh as the mesh file gives it, with one index space
/// shared by positions, texture coordinates and normals. The counts are the
/// numbers of scalar components in each attribute array.
#[derive(Debug)]
pub struct MeshSource {
    pub name: String,
    pub position_count: usize,
    pub texcoord_count: usize,
    pub normal_count: usize,
    pub indices: Vec<u32>,
    pub material_id: Option<usize>,
}

/// A drawable sub-mesh: its index count and the material it is drawn with.
#[derive(Debug)]
pub struct Mesh {
    pub name: String,
    pub num_elements: u32,
    pub material: usize,
}

/// A material and the file names of its two textures.
#[derive(Debug)]
pub struct Material {
    pub name: String,
    pub diffuse_texture: String,
    pub normal_texture: String,
}

/// The sub-meshes and materials of a loaded model. Meshes name materials by
/// index into `materials`.
#[derive(Debug)]
pub struct Model {
    pub meshes: Vec<Mesh>,
    pub materials: Vec<Material>,
}

/// What tangent averaging needs of a sub-mesh besides its attributes: the
/// number of vertices and, for each vertex, how many triangle corners use it.
#[derive(Debug)]
pub struct MeshGeometry {
    pub vertex_count: usize,
    pub triangle_counts: Vec<usize>,
}

/// How many times vertex `v` appears in the index list `s`.
pub open spec fn occurrences(s: Seq<u32>, v: int) -> nat
    decreases s.len(),
{
    if s.len() == 0 {
        0
    } else {
        occurrences(s.drop_last(), v) + (if s.last() as int == v { 1nat } else { 0nat })
    }
}

/// The number of vertices of a sub-mesh: one per position triple.
pub open spec fn vertex_count_of(src: MeshSource) -> int {
    src.position_count as int / 3
}

/// The material a sub-mesh is drawn with: the one it names, else the first.
pub open spec fn resolved_material(id: Option<usize>) -> int {
    match id {
        Some(m) => m as int,
        None => 0,
    }
}

pub open spec fn indices_in_range(indices: Seq<u32>, n: int) -> bool {
    forall|k: int| 0 <= k < indices.len() ==> (#[trigger] indices[k]) < n
}

/// The first check that `src` fails, in the order they are made, if any.
pub open spec fn import_error(src: MeshSource, material_count: int) -> Option<LoadError> {
    let n = vertex_count_of(src);
    if src.texcoord_count < 2 * n {
        Some(LoadError::MissingTexcoords)
    } else if src.normal_count < 3 * n {
        Some(LoadError::MissingNormals)
    } else if src.indices@.len() % 3 != 0 {
        Some(LoadError::IndicesNotTriangles)
    } else if !indices_in_range(src.indices@, n) {
        Some(LoadError::IndexOutOfRange)
    } else if src.indices@.len() > u32::MAX {
        Some(LoadError::TooManyIndices)
    } else if resolved_material(src.material_id) >= material_count {
        Some(LoadError::MaterialOutOfRange)
    } else {
        None
    }
}

/// The mesh record that importing `src` yields.
pub open spec fn mesh_of(src: MeshSource) -> Mesh {
    Mesh {
        name: src.name,
        num_elements: src.indices@.len() as u32,
        material: resolved_material(src.material_id) as usize,
    }
}

/// `g` holds the vertex count of `src` and, per vertex, its corner count.
pub open spec fn geometry_of(g: MeshGeometry, src: MeshSource) -> bool {
    &&& g.vertex_count == vertex_count_of(src)
    &&& g.triangle_counts@.len() == g.vertex_count
    &&& forall|v: int|
        0 <= v < g.vertex_count ==> #[trigger] g.triangle_counts@[v] == occurrences(
            src.indices@,
            v,
        )
}

proof fn lemma_occurrences_bound(s: Seq<u32>, v: int)
    ensures
        occurrences(s, v) <= s.len(),
    decreases s.len(),
{
    if s.len() > 0 {
        lemma_occurrences_bound(s.drop_last(), v);
    }
}

/// For each of `vertex_count` vertices, the number of entries of `indices`
/// that name it.
pub fn triangle_counts(indices: &Vec<u32>, vertex_count: usize) -> (r: Vec<usize>)
    requires
        indices_in_range(indices@, vertex_count as int),
    ensures
        r@.len() == vertex_count,
        forall|v: int| 0 <= v < vertex_count ==> #[trigger] r@[v] == occurrences(indices@, v),
{
    let mut counts: Vec<usize> = Vec::new();
    let mut v: usize = 0;
    while v < vertex_count
        invariant
            v <= vertex_count,
            counts@.len() == v,
            forall|w: int| 0 <= w < v ==> #[trigger] counts@[w] == 0,
        decreases vertex_count - v,
    {
        counts.push(0);
        v = v + 1;
    }
    let mut k: usize = 0;
    while k < indices.len()
        invariant
            k <= indices@.len(),
            counts@.len() == vertex_count,
            indices_in_range(indices@, vertex_count as int),
            forall|w: int|
                0 <= w < vertex_count ==> #[trigger] counts@[w] == occurrences(
                    indices@.take(k as int),
                    w,
                ),
        decreases indices@.len() - k,
    {
        let i = indices[k] as usize;
        assert(indices@.take(k as int + 1).drop_last() =~= indices@.take(k as int));
        assert(indices@[k as int] < vertex_count);
        proof {
            lemma_occurrences_bound(indices@.take(k as int), i as int);
        }
        counts.set(i, counts[i] + 1);
        k = k + 1;
        assert forall|w: int| 0 <= w < vertex_count implies #[trigger] counts@[w] == occurrences(
            indices@.take(k as int),
            w,
        ) by {
            assert(indices@.take(k as int).last() == indices@[k - 1]);
        }
    }
    assert(indices@.take(indices@.len() as int) =~= indices@);
    counts
}

/// The material index a sub-mesh resolves to: the one it names, or the first
/// when it names none. Fails when that material does not exist.
pub fn resolve_material(id: Option<usize>, material_count: usize) -> (r: Result<usize, LoadError>)
    ensures
        resolved_material(id) < material_count ==> r == Ok::<usize, LoadError>(
            resolved_material(id) as usize,
        ),
        resolved_material(id) >= material_count ==> r == Err::<usize, LoadError>(
            LoadError::MaterialOutOfRange,
        ),
{
    let m: usize = match id {
        Some(m) => m,
        None => 0,
    };
    if m < material_count {
        Ok(m)
    } else {
        Err(LoadError::MaterialOutOfRange)
    }
}

/// Checks one sub-mesh and derives its mesh record and geometry. Fails with
/// the first check the sub-mesh does not pass.
pub fn import_mesh(src: &MeshSource, material_count: usize) -> (r: Result<
    (Mesh, MeshGeometry),
    LoadError,
>)
    ensures
        match r {
            Ok((mesh, geometry)) => {
                &&& import_error(*src, material_count as int).is_none()
                &&& mesh == mesh_of(*src)
                &&& geometry_of(geometry, *src)
            },
            Err(e) => import_error(*src, material_count as int) == Some(e),
        },
{
    let n: usize = src.position_count / 3;
    assert(n * 3 <= src.position_count) by (nonlinear_arith)
        requires
            n == src.position_count / 3,
    ;
    if src.texcoord_count < 2 * n {
        return Err(LoadError::MissingTexcoords);
    }
    if src.normal_count < 3 * n {
        return Err(LoadError::MissingNormals);
    }
    if src.indices.len() % 3 != 0 {
        return Err(LoadError::IndicesNotTriangles);
    }
    let mut k: usize = 0;
    while k < src.indices.len()
        invariant
            k <= src.indices@.len(),
            n == vertex_count_of(*src),
            src.texcoord_count >= 2 * n,
            src.normal_count >= 3 * n,
            src.indices@.len() % 3 == 0,
            forall|j: int| 0 <= j < k ==> (#[trigger] src.indices@[j]) < n,
        decreases src.indices@.len() - k,
    {
        if src.indices[k] as usize >= n {
            assert(!indices_in_range(src.indices@, n as int)) by {
                assert(src.indices@[k as int] >= n);
            }
            return Err(LoadError::IndexOutOfRange);
        }
        k = k + 1;
    }
    if src.indices.len() > u32::MAX as usize {
        return Err(LoadError::TooManyIndices);
    }
    let material = match resolve_material(src.material_id, material_count) {
        Ok(m) => m,
        Err(e) => {
            return Err(e);
        },
    };
    let counts = triangle_counts(&src.indices, n);
    let mesh = Mesh {
        name: src.name.clone(),
        num_elements: src.indices.len() as u32,
        material,
    };
    let geometry = MeshGeometry { vertex_count: n, triangle_counts: counts };
    Ok((mesh, geometry))
}

/// No sub-mesh before `i` fails its checks.
pub open spec fn imports_before(sources: Seq<MeshSource>, material_count: int, i: int) -> bool {
    forall|j: int|
        0 <= j < i ==> (#[trigger] import_error(sources[j], material_count)).is_none()
}

impl Model {
    /// Every mesh names a material the model holds.
    pub open spec fn wf(&self) -> bool {
        forall|i: int|
            0 <= i < self.meshes@.len() ==> (#[trigger] self.meshes@[i]).material
                < self.materials@.len()
    }

    /// Whether every mesh names a material the model holds.
    pub fn is_well_formed(&self) -> (r: bool)
        ensures
            r == self.wf(),
    {
        let mut i: usize = 0;
        while i < self.meshes.len()
            invariant
                i <= self.meshes@.len(),
                forall|j: int|
                    0 <= j < i ==> (#[trigger] self.meshes@[j]).material < self.materials@.len(),
            decreases self.meshes@.len() - i,
        {
            if self.meshes[i].material >= self.materials.len() {
                return false;
            }
            i = i + 1;
        }
        true
    }

    /// Imports every sub-mesh against `materials`. The whole load fails with
    /// the error of the first sub-mesh that fails; there is no partial model.
    pub fn load(sources: &Vec<MeshSource>, materials: Vec<Material>) -> (r: Result<
        (Model, Vec<MeshGeometry>),
        LoadError,
    >)
        ensures
            match r {
                Ok((model, geometry)) => {
                    &&& model.wf()
                    &&& model.materials == materials
                    &&& imports_before(sources@, materials@.len() as int, sources@.len() as int)
                    &&& model.meshes@.len() == sources@.len()
                    &&& geometry@.len() == sources@.len()
                    &&& forall|i: int|
                        0 <= i < sources@.len() ==> #[trigger] model.meshes@[i] == mesh_of(
                            sources@[i],
                        ) && geometry_of(geometry@[i], sources@[i])
                },
                Err(e) => exists|i: int|
                    0 <= i < sources@.len() && imports_before(
                        sources@,
                        materials@.len() as int,
                        i,
                    ) && import_error(sources@[i], materials@.len() as int) == Some(e),
            },
    {
        let count = materials.len();
        let mut meshes: Vec<Mesh> = Vec::new();
        let mut geometry: Vec<MeshGeometry> = Vec::new();
        let mut i: usize = 0;
        while i < sources.len()
            invariant
                i <= sources@.len(),
                count == materials@.len(),
                meshes@.len() == i,
                geometry@.len() == i,
                imports_before(sources@, count as int, i as int),
                forall|j: int|
                    0 <= j < i ==> #[trigger] meshes@[j] == mesh_of(sources@[j]) && geometry_of(
                        geometry@[j],
                        sources@[j],
                    ),
            decreases sources@.len() - i,
        {
            match import_mesh(&sources[i], count) {
                Ok((mesh, g)) => {
                    meshes.push(mesh);
                    geometry.push(g);
                },
                Err(e) => {
                    return Err(e);
                },
            }
            i = i + 1;
        }
        let model = Model { meshes, materials };
        assert forall|j: int| 0 <= j < model.meshes@.len() implies (
        #[trigger] model.meshes@[j]).material < model.materials@.len() by {
            assert(import_error(sources@[j], count as int).is_none());
        }
        Ok((model, geometry))
    }
}

} // verus!
