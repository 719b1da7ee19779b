use glam::{Quat, Vec3A};
use raytrace::encode::encode_scene;
use raytrace::mesh::{Face, Material, Mesh, RayHit, World};

fn face(i0: usize, i1: usize, i2: usize, material_idx: usize) -> Face {
    Face {
        indices: [i0, i1, i2],
        normals: [Vec3A::new(0.0, 1.0, 0.0); 3],
        material_idx,
        edges: [Vec3A::ZERO; 2],
    }
}

fn triangle_mesh() -> Mesh {
    Mesh {
        vertices: vec![
            Vec3A::new(0.0, 0.0, 0.0),
            Vec3A::new(1.0, 0.0, 0.0),
            Vec3A::new(0.0, 1.0, 0.0),
        ],
        faces: vec![face(0, 1, 2, 0)],
        scale: Vec3A::ONE,
        position: Vec3A::ZERO,
        rotation: Quat::IDENTITY,
        materials: vec![Material::default()],
    }
}

#[test]
fn baked_vertices_follow_scale_rotate_translate() {
    let rotation = Quat::from_rotation_z(std::f32::consts::FRAC_PI_2);
    let scale = Vec3A::new(2.0, 3.0, 4.0);
    let position = Vec3A::new(10.0, -5.0, 0.5);
    let vertices = vec![
        Vec3A::new(1.0, 0.0, 0.0),
        Vec3A::new(0.25, -2.0, 8.0),
        Vec3A::new(-1.5, 4.0, -0.125),
    ];
    let mut world = World {
        meshes: vec![Mesh {
            vertices: vertices.clone(),
            faces: vec![face(0, 1, 2, 0)],
            scale,
            position,
            rotation,
            materials: vec![Material::default()],
        }],
        baked_meshes: vec![],
    };
    world.bake_meshes();
    let baked = &world.baked_meshes[0];
    assert_eq!(baked.vertices.len(), 3);
    for (v, bv) in vertices.iter().zip(baked.vertices.iter()) {
        let expected = rotation * (scale * *v) + position;
        assert_eq!(*bv, expected);
    }
    // Source meshes are untouched.
    assert_eq!(world.meshes[0].vertices[1], vertices[1]);
}

#[test]
fn baked_normals_are_rotated_and_renormalized() {
    let rotation = Quat::from_rotation_x(1.0);
    let mut mesh = triangle_mesh();
    mesh.rotation = rotation;
    mesh.faces[0].normals = [
        Vec3A::new(0.0, 2.0, 0.0),
        Vec3A::new(3.0, 0.0, 0.0),
        Vec3A::new(0.0, 0.0, 0.5),
    ];
    let mut world = World { meshes: vec![mesh], baked_meshes: vec![] };
    world.bake_meshes();
    let baked_face = &world.baked_meshes[0].faces[0];
    for j in 0..3 {
        let expected = (rotation * world.meshes[0].faces[0].normals[j]).normalize();
        assert_eq!(baked_face.normals[j], expected);
        assert!((baked_face.normals[j].length() - 1.0).abs() < 1e-6);
    }
}

#[test]
fn baked_edges_use_post_bake_vertices_only() {
    let rotation = Quat::from_rotation_y(0.75);
    let mut mesh = triangle_mesh();
    mesh.rotation = rotation;
    mesh.scale = Vec3A::new(5.0, 5.0, 5.0);
    mesh.position = Vec3A::new(-2.0, 9.0, 1.0);
    let mut world = World { meshes: vec![mesh], baked_meshes: vec![] };
    world.bake_meshes();
    let baked = &world.baked_meshes[0];
    let f = &baked.faces[0];
    let expected_e0 = baked.vertices[f.indices[1]] - baked.vertices[f.indices[0]];
    let expected_e1 = baked.vertices[f.indices[2]] - baked.vertices[f.indices[0]];
    assert_eq!(f.edges[0], expected_e0);
    assert_eq!(f.edges[1], expected_e1);
    // Edges from the pre-bake vertices would be wrong in world space.
    let local = &world.meshes[0];
    let wrong_e0 = local.vertices[1] - local.vertices[0];
    assert_ne!(f.edges[0], wrong_e0);
}

#[test]
fn bake_keeps_zero_face_meshes_intact() {
    let mut mesh = triangle_mesh();
    mesh.faces = vec![];
    let mut world = World { meshes: vec![mesh], baked_meshes: vec![] };
    world.bake_meshes();
    assert_eq!(world.baked_meshes.len(), 1);
    assert_eq!(world.baked_meshes[0].faces.len(), 0);
    assert_eq!(world.baked_meshes[0].vertices.len(), 3);
}

#[test]
fn single_triangle_encodes_to_expected_arrays() {
    let meshes = vec![triangle_mesh()];
    let scene = encode_scene(&meshes);
    assert_eq!(scene.vertices.len(), 3);
    assert_eq!(scene.faces.len(), 1);
    assert_eq!(scene.materials.len(), 1);
    assert_eq!(scene.faces[0].indices, [0u32, 1, 2]);
    assert_eq!(scene.faces[0].material_idx, 0);
    assert_eq!(scene.info.num_faces, 1);
    assert_eq!(scene.info.num_materials, 1);
}

fn two_mesh_scene() -> Vec<Mesh> {
    let mesh_a = Mesh {
        vertices: vec![
            Vec3A::new(0.0, 0.0, 0.0),
            Vec3A::new(1.0, 0.0, 0.0),
            Vec3A::new(0.0, 1.0, 0.0),
            Vec3A::new(1.0, 1.0, 0.0),
        ],
        faces: vec![face(0, 1, 2, 0), face(1, 3, 2, 0)],
        scale: Vec3A::ONE,
        position: Vec3A::ZERO,
        rotation: Quat::IDENTITY,
        materials: vec![Material::default()],
    };
    let mesh_b = Mesh {
        vertices: vec![
            Vec3A::new(5.0, 0.0, 0.0),
            Vec3A::new(6.0, 0.0, 0.0),
            Vec3A::new(5.0, 1.0, 0.0),
        ],
        faces: vec![face(0, 1, 2, 0)],
        scale: Vec3A::ONE,
        position: Vec3A::ZERO,
        rotation: Quat::IDENTITY,
        materials: vec![Material {
            albedo: Vec3A::new(0.5, 0.25, 0.125),
            emission: Vec3A::new(1.0, 2.0, 3.0),
            roughness_bits: 0.5f32.to_bits(),
        }],
    };
    vec![mesh_a, mesh_b]
}

#[test]
fn second_mesh_is_rebased_by_first_mesh_counts() {
    let meshes = two_mesh_scene();
    let scene = encode_scene(&meshes);
    assert_eq!(scene.vertices.len(), 7);
    assert_eq!(scene.faces.len(), 3);
    assert_eq!(scene.materials.len(), 2);
    // Mesh B's face indices are offset by the 4 vertices of mesh A and its
    // material index by the 1 material of mesh A.
    assert_eq!(scene.faces[2].indices, [4u32, 5, 6]);
    assert_eq!(scene.faces[2].material_idx, 1);
    assert_eq!(scene.info.num_faces, 3);
    assert_eq!(scene.info.num_materials, 2);
}

#[test]
fn encoded_indices_stay_in_bounds() {
    let meshes = two_mesh_scene();
    let scene = encode_scene(&meshes);
    for f in &scene.faces {
        for &ix in &f.indices {
            assert!((ix as usize) < scene.vertices.len());
        }
        assert!((f.material_idx as usize) < scene.materials.len());
    }
}

#[test]
fn encoding_preserves_mesh_order_with_nondecreasing_offsets() {
    let meshes = two_mesh_scene();
    let scene = encode_scene(&meshes);
    // Vertices appear in mesh order, unchanged in value.
    let mut flat = vec![];
    let mut offsets = vec![];
    for m in &meshes {
        offsets.push(flat.len());
        flat.extend(m.vertices.iter().copied());
    }
    assert_eq!(scene.vertices, flat);
    for w in offsets.windows(2) {
        assert!(w[0] <= w[1]);
    }
    // Materials appear in mesh order, with no deduplication performed.
    assert_eq!(scene.materials[0].albedo, meshes[0].materials[0].albedo);
    assert_eq!(scene.materials[1].albedo, meshes[1].materials[0].albedo);
    assert_eq!(scene.materials[1].roughness_bits, 0.5f32.to_bits());
}

#[test]
fn empty_scene_encodes_to_empty_arrays() {
    let scene = encode_scene(&vec![]);
    assert!(scene.vertices.is_empty());
    assert!(scene.faces.is_empty());
    assert!(scene.materials.is_empty());
    assert_eq!(scene.info.num_faces, 0);
    assert_eq!(scene.info.num_materials, 0);
}

#[test]
fn faceless_mesh_still_advances_offsets() {
    let mut meshes = two_mesh_scene();
    let mut faceless = triangle_mesh();
    faceless.faces = vec![];
    meshes.insert(1, faceless); // three vertices and one material, no faces
    let scene = encode_scene(&meshes);
    assert_eq!(scene.vertices.len(), 10);
    assert_eq!(scene.faces.len(), 3);
    assert_eq!(scene.materials.len(), 3);
    // Mesh B now sits after 4 + 3 vertices and 1 + 1 materials.
    assert_eq!(scene.faces[2].indices, [7u32, 8, 9]);
    assert_eq!(scene.faces[2].material_idx, 2);
}

#[test]
fn default_material_is_rough_white() {
    let m = Material::default();
    assert_eq!(m.albedo, Vec3A::new(1.0, 1.0, 1.0));
    assert_eq!(m.emission, Vec3A::ZERO);
    assert_eq!(f32::from_bits(m.roughness_bits), 1.0);
}

#[test]
fn default_face_mesh_and_ray_hit_are_neutral() {
    let f = Face::default();
    assert_eq!(f.indices, [0usize, 0, 0]);
    assert_eq!(f.material_idx, 0);
    assert_eq!(f.normals[0], Vec3A::ZERO);
    assert_eq!(f.edges[1], Vec3A::ZERO);
    let m = Mesh::default();
    assert!(m.vertices.is_empty());
    assert!(m.faces.is_empty());
    assert!(m.materials.is_empty());
    assert_eq!(m.scale, Vec3A::ZERO);
    assert_eq!(m.rotation, Quat::IDENTITY);
    let h = RayHit::default();
    assert_eq!(f32::from_bits(h.distance_bits), 0.0);
    assert_eq!(h.position, Vec3A::ZERO);
    assert_eq!(h.material.albedo, Vec3A::ONE);
}
