//! Scene data model: faces, materials, meshes and the world that owns them.
//!
//! Geometry lives in mesh-local space until `World::bake_meshes` produces the
//! world-space copies. A face's edge vectors are placeholders until baking
//! recomputes them from the baked vertices.

use vstd::prelude::*;
use crate::math::{
    copy_vec, quat_identity, quat_of_bits, vec_of_bits, vec_one, vec_zero, F32_ONE_BITS,
};

verus! {

/// One triangle: three vertex indices into the owning mesh's vertex list,
/// one normal per corner, one material index into the owning mesh's material
/// list, and two edge vectors (meaningful only after baking).
pub struct Face {
    pub indices: [usize; 3],
    pub normals: [glam::Vec3A; 3],
    pub material_idx: usize,
    pub edges: [glam::Vec3A; 2],
}

/// Surface description. `roughness_bits` carries the IEEE 754 bit pattern of
/// the single-precision roughness scalar; the library never reads it, only
/// stores and forwards it.
pub struct Material {
    pub albedo: glam::Vec3A,
    pub emission: glam::Vec3A,
    pub roughness_bits: u32,
}

/// A mesh: local-space vertices, triangles, the scale/rotate/translate
/// transform to world space, and the materials its faces index into.
pub struct Mesh {
    pub vertices: Vec<glam::Vec3A>,
    pub faces: Vec<Face>,
    pub scale: glam::Vec3A,
    pub position: glam::Vec3A,
    pub rotation: glam::Quat,
    pub materials: Vec<Material>,
}

/// The scene: the loaded meshes and the world-space copies derived from them.
pub struct World {
    pub meshes: Vec<Mesh>,
    pub baked_meshes: Vec<Mesh>,
}

/// The result of a ray/scene intersection, as handed back by a tracing
/// kernel. `distance_bits` carries the bit pattern of the single-precision
/// hit distance.
pub struct RayHit {
    pub material: Material,
    pub distance_bits: u32,
    pub position: glam::Vec3A,
    pub direction: glam::Vec3A,
    pub reflected_dir: glam::Vec3A,
}

/// A face is well formed against its mesh when every vertex index and the
/// material index land inside the owning lists.
pub open spec fn face_wf(f: Face, num_vertices: nat, num_materials: nat) -> bool {
    &&& f.indices[0] < num_vertices
    &&& f.indices[1] < num_vertices
    &&& f.indices[2] < num_vertices
    &&& f.material_idx < num_materials
}

/// A mesh is well formed when every face indexes inside its vertex and
/// material lists.
pub open spec fn mesh_wf(m: Mesh) -> bool {
    forall|k: int|
        0 <= k < m.faces@.len() ==> face_wf(
            #[trigger] m.faces@[k],
            m.vertices@.len(),
            m.materials@.len(),
        )
}

impl Default for Face {
    /// All indices zero, zero normals and edges.
    fn default() -> (r: Face)
        ensures
            r.indices[0] == 0 && r.indices[1] == 0 && r.indices[2] == 0,
            r.material_idx == 0,
            forall|j: int| 0 <= j < 3 ==> r.normals[j] == vec_of_bits(0, 0, 0),
            forall|j: int| 0 <= j < 2 ==> r.edges[j] == vec_of_bits(0, 0, 0),
    {
        let z = vec_zero();
        Face {
            indices: [0, 0, 0],
            normals: [copy_vec(&z), copy_vec(&z), copy_vec(&z)],
            material_idx: 0,
            edges: [copy_vec(&z), copy_vec(&z)],
        }
    }
}

impl Default for Material {
    /// A perfectly rough white surface that emits nothing.
    fn default() -> (r: Material)
        ensures
            r.albedo == vec_of_bits(F32_ONE_BITS, F32_ONE_BITS, F32_ONE_BITS),
            r.emission == vec_of_bits(0, 0, 0),
            r.roughness_bits == F32_ONE_BITS,
    {
        Material { albedo: vec_one(), emission: vec_zero(), roughness_bits: F32_ONE_BITS }
    }
}

impl Default for Mesh {
    /// No geometry, no materials, zero transform components and the zero
    /// quaternion, as a neutral placeholder before the loader fills it.
    fn default() -> (r: Mesh)
        ensures
            r.vertices@.len() == 0,
            r.faces@.len() == 0,
            r.materials@.len() == 0,
            r.scale == vec_of_bits(0, 0, 0),
            r.position == vec_of_bits(0, 0, 0),
            r.rotation == quat_of_bits(0, 0, 0, F32_ONE_BITS),
    {
        Mesh {
            vertices: Vec::new(),
            faces: Vec::new(),
            scale: vec_zero(),
            position: vec_zero(),
            rotation: quat_identity(),
            materials: Vec::new(),
        }
    }
}

impl Default for RayHit {
    /// A hit at distance zero with the default material.
    fn default() -> (r: RayHit)
        ensures
            r.distance_bits == 0,
            r.position == vec_of_bits(0, 0, 0),
            r.direction == vec_of_bits(0, 0, 0),
            r.reflected_dir == vec_of_bits(0, 0, 0),
            r.material.albedo == vec_of_bits(F32_ONE_BITS, F32_ONE_BITS, F32_ONE_BITS),
            r.material.emission == vec_of_bits(0, 0, 0),
            r.material.roughness_bits == F32_ONE_BITS,
    {
        RayHit {
            material: Material::default(),
            distance_bits: 0,
            position: vec_zero(),
            direction: vec_zero(),
            reflected_dir: vec_zero(),
        }
    }
}

} // verus!
