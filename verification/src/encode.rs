//! Flattening baked meshes into single contiguous GPU-ready arrays.
//!
//! Vertices and materials are concatenated in mesh order, unchanged in
//! value. Face vertex indices are re-based by the count of vertices emitted
//! from prior meshes, and face material indices by the count of materials
//! emitted from prior meshes. Materials are appended per mesh with no
//! deduplication: later meshes repeat identical materials, trading memory
//! for indexing simplicity.

use vstd::prelude::*;
use crate::math::copy_vec;
use crate::mesh::{face_wf, mesh_wf, Face, Material, Mesh};

verus! {

/// One flattened triangle: globally re-based vertex indices, a globally
/// re-based material index, and the three corner normals.
pub struct GpuFace {
    pub indices: [u32; 3],
    pub material_idx: u32,
    pub normals: [glam::Vec3A; 3],
}

/// Totals the compute kernel needs to walk the flat arrays.
pub struct GpuSceneInfo {
    pub num_faces: u32,
    pub num_materials: u32,
}

/// The flattened scene: one vertex array, one face array with re-based
/// indices, one material array, and the totals record.
pub struct GpuScene {
    pub vertices: Vec<glam::Vec3A>,
    pub faces: Vec<GpuFace>,
    pub materials: Vec<Material>,
    pub info: GpuSceneInfo,
}

/// Count of vertices emitted by the meshes before index `i`.
pub open spec fn vert_offset(ms: Seq<Mesh>, i: int) -> nat
    decreases i,
{
    if i <= 0 {
        0
    } else {
        vert_offset(ms, i - 1) + ms[i - 1].vertices@.len()
    }
}

/// Count of materials emitted by the meshes before index `i`.
pub open spec fn mat_offset(ms: Seq<Mesh>, i: int) -> nat
    decreases i,
{
    if i <= 0 {
        0
    } else {
        mat_offset(ms, i - 1) + ms[i - 1].materials@.len()
    }
}

/// Count of faces emitted by the meshes before index `i`.
pub open spec fn face_offset(ms: Seq<Mesh>, i: int) -> nat
    decreases i,
{
    if i <= 0 {
        0
    } else {
        face_offset(ms, i - 1) + ms[i - 1].faces@.len()
    }
}

/// How a flattened face relates to its source face: each vertex index moved
/// up by the vertex offset of its mesh, the material index moved up by the
/// material offset of its mesh, normals unchanged.
pub open spec fn encoded_face_ok(gf: GpuFace, f: Face, voff: nat, moff: nat) -> bool {
    &&& gf.indices[0] == f.indices[0] + voff
    &&& gf.indices[1] == f.indices[1] + voff
    &&& gf.indices[2] == f.indices[2] + voff
    &&& gf.material_idx == f.material_idx + moff
    &&& gf.normals[0] == f.normals[0]
    &&& gf.normals[1] == f.normals[1]
    &&& gf.normals[2] == f.normals[2]
}

/// The full relation between a mesh list and its flattened form: array
/// lengths equal the offset totals, every vertex and material is copied to
/// its offset position in mesh order, every face is re-based against its
/// mesh's offsets, and the totals record matches the arrays.
pub open spec fn encodes(ms: Seq<Mesh>, r: GpuScene) -> bool {
    &&& r.vertices@.len() == vert_offset(ms, ms.len() as int)
    &&& r.materials@.len() == mat_offset(ms, ms.len() as int)
    &&& r.faces@.len() == face_offset(ms, ms.len() as int)
    &&& (forall|m: int, i: int|
        0 <= m < ms.len() && 0 <= i < ms[m].vertices@.len() ==> r.vertices@[vert_offset(ms, m)
            + i] == #[trigger] ms[m].vertices@[i])
    &&& (forall|m: int, i: int|
        0 <= m < ms.len() && 0 <= i < ms[m].materials@.len() ==> r.materials@[mat_offset(ms, m)
            + i] == #[trigger] ms[m].materials@[i])
    &&& (forall|m: int, k: int|
        0 <= m < ms.len() && 0 <= k < ms[m].faces@.len() ==> encoded_face_ok(
            r.faces@[face_offset(ms, m) + k],
            #[trigger] ms[m].faces@[k],
            vert_offset(ms, m),
            mat_offset(ms, m),
        ))
    &&& r.info.num_faces == r.faces@.len()
    &&& r.info.num_materials == r.materials@.len()
}

/// Per-mesh vertex offsets never decrease along the mesh list.
pub proof fn lemma_vert_offset_mono(ms: Seq<Mesh>, i: int, j: int)
    requires
        0 <= i <= j <= ms.len(),
    ensures
        vert_offset(ms, i) <= vert_offset(ms, j),
    decreases j - i,
{
    if i < j {
        lemma_vert_offset_mono(ms, i, j - 1);
    }
}

/// Per-mesh material offsets never decrease along the mesh list.
pub proof fn lemma_mat_offset_mono(ms: Seq<Mesh>, i: int, j: int)
    requires
        0 <= i <= j <= ms.len(),
    ensures
        mat_offset(ms, i) <= mat_offset(ms, j),
    decreases j - i,
{
    if i < j {
        lemma_mat_offset_mono(ms, i, j - 1);
    }
}

/// Per-mesh face offsets never decrease along the mesh list.
pub proof fn lemma_face_offset_mono(ms: Seq<Mesh>, i: int, j: int)
    requires
        0 <= i <= j <= ms.len(),
    ensures
        face_offset(ms, i) <= face_offset(ms, j),
    decreases j - i,
{
    if i < j {
        lemma_face_offset_mono(ms, i, j - 1);
    }
}

/// Every position in the flat face array decomposes into a mesh index and a
/// face index local to that mesh.
pub proof fn lemma_face_index_decompose(ms: Seq<Mesh>, n: int, g: int) -> (mk: (int, int))
    requires
        0 <= n <= ms.len(),
        0 <= g < face_offset(ms, n),
    ensures
        0 <= mk.0 < n,
        0 <= mk.1 < ms[mk.0].faces@.len(),
        g == face_offset(ms, mk.0) + mk.1,
    decreases n,
{
    if g >= face_offset(ms, n - 1) {
        (n - 1, g - face_offset(ms, n - 1) as int)
    } else {
        lemma_face_index_decompose(ms, n - 1, g)
    }
}

/// Law: in a flattened scene built from well-formed meshes, every face's
/// vertex indices address inside the flat vertex array and its material
/// index addresses inside the flat material array.
pub proof fn lemma_encoded_faces_in_bounds(ms: Seq<Mesh>, r: GpuScene)
    requires
        encodes(ms, r),
        forall|m: int| 0 <= m < ms.len() ==> mesh_wf(#[trigger] ms[m]),
    ensures
        forall|g: int|
            0 <= g < r.faces@.len() ==> (#[trigger] r.faces@[g]).indices[0] < r.vertices@.len()
                && r.faces@[g].indices[1] < r.vertices@.len() && r.faces@[g].indices[2]
                < r.vertices@.len() && r.faces@[g].material_idx < r.materials@.len(),
{
    assert forall|g: int|
        0 <= g < r.faces@.len() implies (#[trigger] r.faces@[g]).indices[0] < r.vertices@.len()
        && r.faces@[g].indices[1] < r.vertices@.len() && r.faces@[g].indices[2]
        < r.vertices@.len() && r.faces@[g].material_idx < r.materials@.len() by {
        let mk = lemma_face_index_decompose(ms, ms.len() as int, g);
        let m = mk.0;
        let k = mk.1;
        assert(mesh_wf(ms[m]));
        assert(face_wf(ms[m].faces@[k], ms[m].vertices@.len(), ms[m].materials@.len()));
        assert(encoded_face_ok(r.faces@[g], ms[m].faces@[k], vert_offset(ms, m), mat_offset(ms, m)));
        assert(vert_offset(ms, m + 1) == vert_offset(ms, m) + ms[m].vertices@.len());
        assert(mat_offset(ms, m + 1) == mat_offset(ms, m) + ms[m].materials@.len());
        lemma_vert_offset_mono(ms, m + 1, ms.len() as int);
        lemma_mat_offset_mono(ms, m + 1, ms.len() as int);
    }
}

/// Flattens baked meshes into contiguous vertex, face and material arrays
/// with globally re-based indices, plus the totals record.
pub fn encode_scene(meshes: &Vec<Mesh>) -> (r: GpuScene)
    requires
        forall|m: int| 0 <= m < meshes@.len() ==> mesh_wf(#[trigger] meshes@[m]),
        vert_offset(meshes@, meshes@.len() as int) <= u32::MAX,
        mat_offset(meshes@, meshes@.len() as int) <= u32::MAX,
        face_offset(meshes@, meshes@.len() as int) <= u32::MAX,
    ensures
        encodes(meshes@, r),
{
    let ghost ms = meshes@;
    let mut gpu_vertices: Vec<glam::Vec3A> = Vec::new();
    let mut gpu_faces: Vec<GpuFace> = Vec::new();
    let mut gpu_materials: Vec<Material> = Vec::new();

    let mut m: usize = 0;
    while m < meshes.len()
        invariant
            ms == meshes@,
            forall|t: int| 0 <= t < ms.len() ==> mesh_wf(#[trigger] ms[t]),
            vert_offset(ms, ms.len() as int) <= u32::MAX,
            mat_offset(ms, ms.len() as int) <= u32::MAX,
            face_offset(ms, ms.len() as int) <= u32::MAX,
            m <= ms.len(),
            gpu_vertices@.len() == vert_offset(ms, m as int),
            gpu_materials@.len() == mat_offset(ms, m as int),
            gpu_faces@.len() == face_offset(ms, m as int),
            forall|t: int, i: int|
                0 <= t < m && 0 <= i < ms[t].vertices@.len() ==> gpu_vertices@[vert_offset(ms, t)
                    + i] == #[trigger] ms[t].vertices@[i],
            forall|t: int, i: int|
                0 <= t < m && 0 <= i < ms[t].materials@.len() ==> gpu_materials@[mat_offset(ms, t)
                    + i] == #[trigger] ms[t].materials@[i],
            forall|t: int, k: int|
                0 <= t < m && 0 <= k < ms[t].faces@.len() ==> encoded_face_ok(
                    gpu_faces@[face_offset(ms, t) + k],
                    #[trigger] ms[t].faces@[k],
                    vert_offset(ms, t),
                    mat_offset(ms, t),
                ),
        decreases ms.len() - m,
    {
        let mesh = &meshes[m];
        let vertex_offset: usize = gpu_vertices.len();
        let material_offset: usize = gpu_materials.len();
        proof {
            lemma_vert_offset_mono(ms, m as int + 1, ms.len() as int);
            lemma_mat_offset_mono(ms, m as int + 1, ms.len() as int);
            lemma_face_offset_mono(ms, m as int + 1, ms.len() as int);
        }

        let mut i: usize = 0;
        while i < mesh.vertices.len()
            invariant
                ms == meshes@,
                m < ms.len(),
                *mesh == ms[m as int],
                i <= mesh.vertices@.len(),
                vertex_offset == vert_offset(ms, m as int),
                gpu_vertices@.len() == vertex_offset + i,
                forall|t: int, ii: int|
                    0 <= t < m && 0 <= ii < ms[t].vertices@.len() ==> gpu_vertices@[vert_offset(
                        ms,
                        t,
                    ) + ii] == #[trigger] ms[t].vertices@[ii],
                forall|ii: int|
                    0 <= ii < i ==> gpu_vertices@[vertex_offset + ii] == #[trigger] mesh.vertices@[ii],
            decreases mesh.vertices@.len() - i,
        {
            gpu_vertices.push(copy_vec(&mesh.vertices[i]));
            proof {
                assert forall|t: int, ii: int|
                    0 <= t < m && 0 <= ii < ms[t].vertices@.len() implies gpu_vertices@[vert_offset(
                    ms,
                    t,
                ) + ii] == ms[t].vertices@[ii] by {
                    lemma_vert_offset_mono(ms, t + 1, m as int);
                }
            }
            i += 1;
        }

        let mut k: usize = 0;
        while k < mesh.faces.len()
            invariant
                ms == meshes@,
                m < ms.len(),
                *mesh == ms[m as int],
                mesh_wf(*mesh),
                k <= mesh.faces@.len(),
                vertex_offset == vert_offset(ms, m as int),
                material_offset == mat_offset(ms, m as int),
                vertex_offset + mesh.vertices@.len() <= u32::MAX,
                material_offset + mesh.materials@.len() <= u32::MAX,
                gpu_faces@.len() == face_offset(ms, m as int) + k,
                forall|t: int, kk: int|
                    0 <= t < m && 0 <= kk < ms[t].faces@.len() ==> encoded_face_ok(
                        gpu_faces@[face_offset(ms, t) + kk],
                        #[trigger] ms[t].faces@[kk],
                        vert_offset(ms, t),
                        mat_offset(ms, t),
                    ),
                forall|kk: int|
                    0 <= kk < k ==> encoded_face_ok(
                        gpu_faces@[face_offset(ms, m as int) + kk],
                        #[trigger] mesh.faces@[kk],
                        vert_offset(ms, m as int),
                        mat_offset(ms, m as int),
                    ),
            decreases mesh.faces@.len() - k,
        {
            let f = &mesh.faces[k];
            proof {
                assert(face_wf(mesh.faces@[k as int], mesh.vertices@.len(), mesh.materials@.len()));
            }
            let gi0: u32 = (f.indices[0] + vertex_offset) as u32;
            let gi1: u32 = (f.indices[1] + vertex_offset) as u32;
            let gi2: u32 = (f.indices[2] + vertex_offset) as u32;
            let gm: u32 = (f.material_idx + material_offset) as u32;
            gpu_faces.push(
                GpuFace {
                    indices: [gi0, gi1, gi2],
                    material_idx: gm,
                    normals: [copy_vec(&f.normals[0]), copy_vec(&f.normals[1]), copy_vec(
                        &f.normals[2],
                    )],
                },
            );
            proof {
                assert forall|t: int, kk: int|
                    0 <= t < m && 0 <= kk < ms[t].faces@.len() implies encoded_face_ok(
                    gpu_faces@[face_offset(ms, t) + kk],
                    ms[t].faces@[kk],
                    vert_offset(ms, t),
                    mat_offset(ms, t),
                ) by {
                    lemma_face_offset_mono(ms, t + 1, m as int);
                }
            }
            k += 1;
        }

        let mut j: usize = 0;
        while j < mesh.materials.len()
            invariant
                ms == meshes@,
                m < ms.len(),
                *mesh == ms[m as int],
                j <= mesh.materials@.len(),
                material_offset == mat_offset(ms, m as int),
                gpu_materials@.len() == material_offset + j,
                forall|t: int, jj: int|
                    0 <= t < m && 0 <= jj < ms[t].materials@.len() ==> gpu_materials@[mat_offset(
                        ms,
                        t,
                    ) + jj] == #[trigger] ms[t].materials@[jj],
                forall|jj: int|
                    0 <= jj < j ==> gpu_materials@[material_offset + jj]
                        == #[trigger] mesh.materials@[jj],
            decreases mesh.materials@.len() - j,
        {
            let mat = &mesh.materials[j];
            gpu_materials.push(
                Material {
                    albedo: copy_vec(&mat.albedo),
                    emission: copy_vec(&mat.emission),
                    roughness_bits: mat.roughness_bits,
                },
            );
            proof {
                assert forall|t: int, jj: int|
                    0 <= t < m && 0 <= jj < ms[t].materials@.len() implies gpu_materials@[mat_offset(
                    ms,
                    t,
                ) + jj] == ms[t].materials@[jj] by {
                    lemma_mat_offset_mono(ms, t + 1, m as int);
                }
            }
            j += 1;
        }

        m += 1;
    }

    let num_faces = gpu_faces.len() as u32;
    let num_materials = gpu_materials.len() as u32;
    GpuScene {
        vertices: gpu_vertices,
        faces: gpu_faces,
        materials: gpu_materials,
        info: GpuSceneInfo { num_faces, num_materials },
    }
}

} // verus!
