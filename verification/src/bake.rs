//! Transform baking: applying a mesh's scale/rotate/translate transform to
//! produce world-space geometry.
//!
//! The vertex transform order is fixed and non-commutative: scale first,
//! then rotate, then translate. Normals are rotated only, never scaled or
//! translated, and renormalized afterwards. Edge vectors are recomputed from
//! the baked vertices; edges computed before baking would be wrong in world
//! space and are never reused.

use vstd::prelude::*;
use crate::math::{
    add_vec, copy_quat, copy_vec, mul_vec, normalize_vec, quat_rotate, rotate_vec, sub_vec,
    vec_add, vec_mul, vec_sub, vec_unit,
};
use crate::mesh::{mesh_wf, Face, Mesh, World};

verus! {

/// World-space position of a local vertex under the mesh's transform:
/// `rotation * (scale (.*) v) + position`.
pub open spec fn baked_vertex(m: Mesh, v: glam::Vec3A) -> glam::Vec3A {
    vec_add(quat_rotate(m.rotation, vec_mul(m.scale, v)), m.position)
}

/// World-space direction of a local normal: rotated only, then renormalized.
pub open spec fn baked_normal(m: Mesh, n: glam::Vec3A) -> glam::Vec3A {
    vec_unit(quat_rotate(m.rotation, n))
}

/// How a baked face relates to its source face: indices and material kept,
/// normals rotated and renormalized, and both edge vectors recomputed from
/// the baked vertex list.
pub open spec fn baked_face_ok(bf: Face, f: Face, m: Mesh, baked_verts: Seq<glam::Vec3A>) -> bool {
    &&& bf.indices[0] == f.indices[0]
    &&& bf.indices[1] == f.indices[1]
    &&& bf.indices[2] == f.indices[2]
    &&& bf.material_idx == f.material_idx
    &&& bf.normals[0] == baked_normal(m, f.normals[0])
    &&& bf.normals[1] == baked_normal(m, f.normals[1])
    &&& bf.normals[2] == baked_normal(m, f.normals[2])
    &&& bf.edges[0] == vec_sub(
        baked_verts[f.indices[1] as int],
        baked_verts[f.indices[0] as int],
    )
    &&& bf.edges[1] == vec_sub(
        baked_verts[f.indices[2] as int],
        baked_verts[f.indices[0] as int],
    )
}

/// How a baked mesh relates to its source mesh: every vertex transformed,
/// every face rebuilt from the baked vertices, transform and materials kept.
pub open spec fn baked_mesh_ok(b: Mesh, m: Mesh) -> bool {
    &&& b.vertices@.len() == m.vertices@.len()
    &&& (forall|i: int|
        0 <= i < m.vertices@.len() ==> #[trigger] b.vertices@[i] == baked_vertex(
            m,
            m.vertices@[i],
        ))
    &&& b.faces@.len() == m.faces@.len()
    &&& (forall|k: int|
        0 <= k < m.faces@.len() ==> baked_face_ok(#[trigger] b.faces@[k], m.faces@[k], m, b.vertices@))
    &&& b.scale == m.scale
    &&& b.position == m.position
    &&& b.rotation == m.rotation
    &&& b.materials@ == m.materials@
}

impl World {
    /// World-space copy of one mesh. Pure and deterministic; a mesh with no
    /// faces keeps its (empty) face list untouched.
    pub fn bake_mesh(&self, mesh: &Mesh) -> (r: Mesh)
        requires
            mesh_wf(*mesh),
        ensures
            baked_mesh_ok(r, *mesh),
    {
        let mut verts: Vec<glam::Vec3A> = Vec::new();
        let mut i: usize = 0;
        while i < mesh.vertices.len()
            invariant
                i <= mesh.vertices@.len(),
                verts@.len() == i,
                forall|j: int|
                    0 <= j < i ==> #[trigger] verts@[j] == baked_vertex(*mesh, mesh.vertices@[j]),
            decreases mesh.vertices@.len() - i,
        {
            let scaled = mul_vec(&mesh.scale, &mesh.vertices[i]);
            let rotated = rotate_vec(&mesh.rotation, &scaled);
            let world = add_vec(&rotated, &mesh.position);
            verts.push(world);
            i += 1;
        }

        let mut faces: Vec<Face> = Vec::new();
        let mut k: usize = 0;
        while k < mesh.faces.len()
            invariant
                mesh_wf(*mesh),
                k <= mesh.faces@.len(),
                faces@.len() == k,
                verts@.len() == mesh.vertices@.len(),
                forall|j: int|
                    0 <= j < verts@.len() ==> #[trigger] verts@[j] == baked_vertex(
                        *mesh,
                        mesh.vertices@[j],
                    ),
                forall|j: int|
                    0 <= j < k ==> baked_face_ok(#[trigger] faces@[j], mesh.faces@[j], *mesh, verts@),
            decreases mesh.faces@.len() - k,
        {
            let f = &mesh.faces[k];
            let r0 = rotate_vec(&mesh.rotation, &f.normals[0]);
            let n0 = normalize_vec(&r0);
            let r1 = rotate_vec(&mesh.rotation, &f.normals[1]);
            let n1 = normalize_vec(&r1);
            let r2 = rotate_vec(&mesh.rotation, &f.normals[2]);
            let n2 = normalize_vec(&r2);
            let i0 = f.indices[0];
            let i1 = f.indices[1];
            let i2 = f.indices[2];
            let e0 = sub_vec(&verts[i1], &verts[i0]);
            let e1 = sub_vec(&verts[i2], &verts[i0]);
            faces.push(
                Face {
                    indices: [i0, i1, i2],
                    normals: [n0, n1, n2],
                    material_idx: f.material_idx,
                    edges: [e0, e1],
                },
            );
            k += 1;
        }

        let mut mats: Vec<crate::mesh::Material> = Vec::new();
        let mut j: usize = 0;
        while j < mesh.materials.len()
            invariant
                j <= mesh.materials@.len(),
                mats@.len() == j,
                forall|t: int| 0 <= t < j ==> #[trigger] mats@[t] == mesh.materials@[t],
            decreases mesh.materials@.len() - j,
        {
            let mat = &mesh.materials[j];
            mats.push(
                crate::mesh::Material {
                    albedo: copy_vec(&mat.albedo),
                    emission: copy_vec(&mat.emission),
                    roughness_bits: mat.roughness_bits,
                },
            );
            j += 1;
        }

        let r = Mesh {
            vertices: verts,
            faces,
            scale: copy_vec(&mesh.scale),
            position: copy_vec(&mesh.position),
            rotation: copy_quat(&mesh.rotation),
            materials: mats,
        };
        proof {
            assert(r.materials@ =~= mesh.materials@);
        }
        r
    }

    /// Rebuilds the baked mesh list from the current meshes. The source
    /// meshes are left untouched.
    pub fn bake_meshes(&mut self)
        requires
            forall|m: int|
                0 <= m < old(self).meshes@.len() ==> mesh_wf(#[trigger] old(self).meshes@[m]),
        ensures
            final(self).meshes@ == old(self).meshes@,
            final(self).baked_meshes@.len() == old(self).meshes@.len(),
            forall|m: int|
                0 <= m < old(self).meshes@.len() ==> baked_mesh_ok(
                    #[trigger] final(self).baked_meshes@[m],
                    old(self).meshes@[m],
                ),
    {
        let mut baked: Vec<Mesh> = Vec::new();
        let mut m: usize = 0;
        while m < self.meshes.len()
            invariant
                *self == *old(self),
                forall|t: int|
                    0 <= t < old(self).meshes@.len() ==> mesh_wf(#[trigger] old(self).meshes@[t]),
                m <= self.meshes@.len(),
                baked@.len() == m,
                forall|t: int|
                    0 <= t < m ==> baked_mesh_ok(#[trigger] baked@[t], self.meshes@[t]),
            decreases self.meshes@.len() - m,
        {
            let b = self.bake_mesh(&self.meshes[m]);
            baked.push(b);
            m += 1;
        }
        self.baked_meshes = baked;
    }
}

} // verus!
