//! Assembling one loaded primitive into a mesh: triangulation and defaults.
//!
//! The file format reader hands over plain lists — vertex positions,
//! optional per-vertex normals, optional indices — plus the node transform
//! and the scene's global material list. Here they become a well-formed
//! mesh: indexed primitives split into consecutive index triples,
//! non-indexed ones into consecutive vertex triples, any trailing group
//! smaller than a triangle discarded, and missing normals replaced by the
//! world y axis.

use vstd::prelude::*;
use vstd::arithmetic::div_mod::lemma_fundamental_div_mod;
use crate::math::{
    copy_vec, mul_vec, splat_of, vec_from_bits, vec_mul, vec_of_bits, vec_zero, F32_ONE_BITS,
};
use crate::mesh::{face_wf, mesh_wf, Face, Material, Mesh};

verus! {

/// The normal substituted when the source declares none: the world y axis.
pub open spec fn default_normal() -> glam::Vec3A {
    vec_of_bits(0, F32_ONE_BITS, 0)
}

/// The normal of vertex `i`: the declared one, or the default when the
/// source declared none.
pub open spec fn normal_at(normals: Option<Vec<glam::Vec3A>>, i: int) -> glam::Vec3A {
    match normals {
        Some(ns) => ns@[i],
        None => default_normal(),
    }
}

/// How an assembled face relates to its three vertex indices: each corner
/// carries the normal of its vertex, the face carries the primitive's
/// material index, and the edge vectors are zero placeholders until baking.
pub open spec fn loaded_face_ok(
    f: Face,
    i0: usize,
    i1: usize,
    i2: usize,
    normals: Option<Vec<glam::Vec3A>>,
    material_idx: usize,
) -> bool {
    &&& f.indices[0] == i0
    &&& f.indices[1] == i1
    &&& f.indices[2] == i2
    &&& f.material_idx == material_idx
    &&& f.normals[0] == normal_at(normals, i0 as int)
    &&& f.normals[1] == normal_at(normals, i1 as int)
    &&& f.normals[2] == normal_at(normals, i2 as int)
    &&& f.edges[0] == vec_of_bits(0, 0, 0)
    &&& f.edges[1] == vec_of_bits(0, 0, 0)
}

/// The emissive color as loaded: scaled by the emissive strength where the
/// source declares one, unscaled otherwise.
pub open spec fn loaded_emission(emissive: glam::Vec3A, strength_bits: Option<u32>) -> glam::Vec3A {
    match strength_bits {
        Some(b) => vec_mul(emissive, splat_of(b)),
        None => emissive,
    }
}

/// The scene's global material list. Each source material carries its base
/// color, its emissive color, the bit pattern of its optional emissive
/// strength, and the bit pattern of its roughness; the emissive color is
/// scaled by the strength where one is declared. A source that declares no
/// materials gets the single default material instead, so faces always have
/// something to index.
pub fn collect_materials(raw: Vec<(glam::Vec3A, glam::Vec3A, Option<u32>, u32)>) -> (r: Vec<
    Material,
>)
    ensures
        raw@.len() == 0 ==> r@.len() == 1 && r@[0].albedo == vec_of_bits(
            F32_ONE_BITS,
            F32_ONE_BITS,
            F32_ONE_BITS,
        ) && r@[0].emission == vec_of_bits(0, 0, 0) && r@[0].roughness_bits == F32_ONE_BITS,
        raw@.len() > 0 ==> r@.len() == raw@.len() && (forall|i: int|
            0 <= i < raw@.len() ==> (#[trigger] r@[i]).albedo == raw@[i].0 && r@[i].roughness_bits
                == raw@[i].3 && r@[i].emission == loaded_emission(raw@[i].1, raw@[i].2)),
{
    let mut r: Vec<Material> = Vec::new();
    if raw.len() == 0 {
        r.push(Material::default());
        return r;
    }
    let mut i: usize = 0;
    while i < raw.len()
        invariant
            i <= raw@.len(),
            r@.len() == i,
            forall|t: int|
                0 <= t < i ==> (#[trigger] r@[t]).albedo == raw@[t].0 && r@[t].roughness_bits
                    == raw@[t].3 && r@[t].emission == loaded_emission(raw@[t].1, raw@[t].2),
        decreases raw@.len() - i,
    {
        let entry = &raw[i];
        let albedo = copy_vec(&entry.0);
        let emission = match &entry.2 {
            Some(b) => {
                let strength = vec_from_bits(*b, *b, *b);
                mul_vec(&entry.1, &strength)
            },
            None => copy_vec(&entry.1),
        };
        r.push(Material { albedo, emission, roughness_bits: entry.3 });
        i += 1;
    }
    r
}

/// Builds the mesh for one primitive. With indices, consecutive index
/// triples become faces; without, consecutive vertex triples do. Either
/// way a trailing group smaller than three is discarded, and the result is
/// well formed against its own vertex and material lists.
pub fn assemble_primitive(
    vertices: Vec<glam::Vec3A>,
    normals: Option<Vec<glam::Vec3A>>,
    indices: Option<Vec<usize>>,
    material_idx: usize,
    scale: glam::Vec3A,
    position: glam::Vec3A,
    rotation: glam::Quat,
    materials: Vec<Material>,
) -> (r: Mesh)
    requires
        material_idx < materials@.len(),
        normals matches Some(ns) ==> ns@.len() == vertices@.len(),
        indices matches Some(ix) ==> forall|t: int| 0 <= t < ix@.len() ==> ix@[t] < vertices@.len(),
    ensures
        r.vertices@ == vertices@,
        r.materials@ == materials@,
        r.scale == scale,
        r.position == position,
        r.rotation == rotation,
        indices matches Some(ix) ==> r.faces@.len() == ix@.len() / 3 && (forall|k: int|
            0 <= k < r.faces@.len() ==> loaded_face_ok(
                #[trigger] r.faces@[k],
                ix@[3 * k],
                ix@[3 * k + 1],
                ix@[3 * k + 2],
                normals,
                material_idx,
            )),
        indices is None ==> r.faces@.len() == vertices@.len() / 3 && (forall|k: int|
            0 <= k < r.faces@.len() ==> loaded_face_ok(
                #[trigger] r.faces@[k],
                (3 * k) as usize,
                (3 * k + 1) as usize,
                (3 * k + 2) as usize,
                normals,
                material_idx,
            )),
        mesh_wf(r),
{
    let nverts = vertices.len();
    let ghost gnormals = normals;
    let ns: Vec<glam::Vec3A> = match normals {
        Some(ns) => ns,
        None => {
            let mut d: Vec<glam::Vec3A> = Vec::new();
            let mut i: usize = 0;
            while i < nverts
                invariant
                    i <= nverts,
                    d@.len() == i,
                    forall|t: int| 0 <= t < i ==> #[trigger] d@[t] == default_normal(),
                decreases nverts - i,
            {
                d.push(vec_from_bits(0, F32_ONE_BITS, 0));
                i += 1;
            }
            d
        },
    };
    proof {
        assert(ns@.len() == nverts);
        assert(forall|t: int| 0 <= t < nverts ==> #[trigger] ns@[t] == normal_at(gnormals, t));
    }

    let zero_edge = vec_zero();
    let mut faces: Vec<Face> = Vec::new();
    match &indices {
        Some(ix) => {
            let total = ix.len() / 3;
            proof {
                lemma_fundamental_div_mod(ix@.len() as int, 3);
            }
            let mut f: usize = 0;
            while f < total
                invariant
                    total == ix@.len() / 3,
                    3 * total <= ix@.len() <= usize::MAX,
                    f <= total,
                    faces@.len() == f,
                    zero_edge == vec_of_bits(0, 0, 0),
                    ns@.len() == nverts,
                    forall|t: int| 0 <= t < nverts ==> #[trigger] ns@[t] == normal_at(gnormals, t),
                    forall|t: int| 0 <= t < ix@.len() ==> #[trigger] ix@[t] < nverts,
                    forall|k: int|
                        0 <= k < f ==> loaded_face_ok(
                            #[trigger] faces@[k],
                            ix@[3 * k],
                            ix@[3 * k + 1],
                            ix@[3 * k + 2],
                            gnormals,
                            material_idx,
                        ),
                decreases total - f,
            {
                let i0 = ix[3 * f];
                let i1 = ix[3 * f + 1];
                let i2 = ix[3 * f + 2];
                let n0 = copy_vec(&ns[i0]);
                let n1 = copy_vec(&ns[i1]);
                let n2 = copy_vec(&ns[i2]);
                let e0 = copy_vec(&zero_edge);
                let e1 = copy_vec(&zero_edge);
                faces.push(
                    Face {
                        indices: [i0, i1, i2],
                        normals: [n0, n1, n2],
                        material_idx,
                        edges: [e0, e1],
                    },
                );
                f += 1;
            }
        },
        None => {
            let total = nverts / 3;
            proof {
                lemma_fundamental_div_mod(nverts as int, 3);
            }
            let mut f: usize = 0;
            while f < total
                invariant
                    total == nverts / 3,
                    3 * total <= nverts,
                    f <= total,
                    faces@.len() == f,
                    zero_edge == vec_of_bits(0, 0, 0),
                    ns@.len() == nverts,
                    forall|t: int| 0 <= t < nverts ==> #[trigger] ns@[t] == normal_at(gnormals, t),
                    forall|k: int|
                        0 <= k < f ==> loaded_face_ok(
                            #[trigger] faces@[k],
                            (3 * k) as usize,
                            (3 * k + 1) as usize,
                            (3 * k + 2) as usize,
                            gnormals,
                            material_idx,
                        ),
                decreases total - f,
            {
                let i0 = 3 * f;
                let i1 = 3 * f + 1;
                let i2 = 3 * f + 2;
                let n0 = copy_vec(&ns[i0]);
                let n1 = copy_vec(&ns[i1]);
                let n2 = copy_vec(&ns[i2]);
                let e0 = copy_vec(&zero_edge);
                let e1 = copy_vec(&zero_edge);
                faces.push(
                    Face {
                        indices: [i0, i1, i2],
                        normals: [n0, n1, n2],
                        material_idx,
                        edges: [e0, e1],
                    },
                );
                f += 1;
            }
        },
    }

    let r = Mesh { vertices, faces, scale, position, rotation, materials };
    proof {
        assert forall|k: int| 0 <= k < r.faces@.len() implies face_wf(
            #[trigger] r.faces@[k],
            r.vertices@.len(),
            r.materials@.len(),
        ) by {
            assert(r.faces@[k] == faces@[k]);
        }
    }
    r
}

} // verus!
