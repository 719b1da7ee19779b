use glam::{Quat, Vec3A};
use raytrace::loader::{assemble_primitive, collect_materials};
use raytrace::mesh::Material;

fn grid_vertices(n: usize) -> Vec<Vec3A> {
    (0..n).map(|i| Vec3A::new(i as f32, 2.0 * i as f32, 0.5)).collect()
}

#[test]
fn indexed_primitive_splits_into_index_triples() {
    let vertices = grid_vertices(5);
    let normals: Vec<Vec3A> = (0..5).map(|i| Vec3A::new(0.0, 0.0, 1.0 + i as f32)).collect();
    // Seven indices: two whole triangles, one trailing index discarded.
    let indices = vec![0usize, 1, 2, 2, 3, 4, 1];
    let mesh = assemble_primitive(
        vertices.clone(),
        Some(normals.clone()),
        Some(indices),
        0,
        Vec3A::ONE,
        Vec3A::ZERO,
        Quat::IDENTITY,
        vec![Material::default()],
    );
    assert_eq!(mesh.vertices, vertices);
    assert_eq!(mesh.faces.len(), 2);
    assert_eq!(mesh.faces[0].indices, [0usize, 1, 2]);
    assert_eq!(mesh.faces[1].indices, [2usize, 3, 4]);
    // Each corner carries the normal of its vertex.
    assert_eq!(mesh.faces[1].normals[0], normals[2]);
    assert_eq!(mesh.faces[1].normals[2], normals[4]);
    assert_eq!(mesh.faces[0].material_idx, 0);
    // Edges are placeholders until baking.
    assert_eq!(mesh.faces[0].edges[0], Vec3A::ZERO);
}

#[test]
fn non_indexed_primitive_splits_into_vertex_triples() {
    let vertices = grid_vertices(8); // two triangles, two trailing vertices discarded
    let mesh = assemble_primitive(
        vertices.clone(),
        None,
        None,
        0,
        Vec3A::new(2.0, 2.0, 2.0),
        Vec3A::new(0.0, 0.0, 1.0),
        Quat::from_rotation_z(0.5),
        vec![Material::default()],
    );
    assert_eq!(mesh.faces.len(), 2);
    assert_eq!(mesh.faces[0].indices, [0usize, 1, 2]);
    assert_eq!(mesh.faces[1].indices, [3usize, 4, 5]);
    // Missing normals default to the world y axis.
    for f in &mesh.faces {
        for n in &f.normals {
            assert_eq!(*n, Vec3A::new(0.0, 1.0, 0.0));
        }
    }
    // The node transform is carried through unchanged.
    assert_eq!(mesh.scale, Vec3A::new(2.0, 2.0, 2.0));
    assert_eq!(mesh.position, Vec3A::new(0.0, 0.0, 1.0));
    assert_eq!(mesh.rotation, Quat::from_rotation_z(0.5));
}

#[test]
fn declared_materials_carry_scaled_emission() {
    let raw = vec![
        (Vec3A::new(0.8, 0.1, 0.2), Vec3A::new(1.0, 2.0, 4.0), Some(3.0f32.to_bits()), 0.25f32.to_bits()),
        (Vec3A::new(0.5, 0.5, 0.5), Vec3A::new(0.5, 0.25, 0.0), None, 1.0f32.to_bits()),
    ];
    let mats = collect_materials(raw);
    assert_eq!(mats.len(), 2);
    assert_eq!(mats[0].albedo, Vec3A::new(0.8, 0.1, 0.2));
    // The emissive strength scales the emissive color componentwise.
    assert_eq!(mats[0].emission, Vec3A::new(3.0, 6.0, 12.0));
    assert_eq!(f32::from_bits(mats[0].roughness_bits), 0.25);
    // Without a declared strength the emissive color is kept as read.
    assert_eq!(mats[1].emission, Vec3A::new(0.5, 0.25, 0.0));
    assert_eq!(f32::from_bits(mats[1].roughness_bits), 1.0);
}

#[test]
fn missing_materials_fall_back_to_the_single_default() {
    let mats = collect_materials(vec![]);
    assert_eq!(mats.len(), 1);
    assert_eq!(mats[0].albedo, Vec3A::ONE);
    assert_eq!(mats[0].emission, Vec3A::ZERO);
    assert_eq!(f32::from_bits(mats[0].roughness_bits), 1.0);
}

#[test]
fn short_primitives_produce_no_faces() {
    let mesh = assemble_primitive(
        grid_vertices(2),
        None,
        None,
        0,
        Vec3A::ONE,
        Vec3A::ZERO,
        Quat::IDENTITY,
        vec![Material::default()],
    );
    assert!(mesh.faces.is_empty());
    let mesh2 = assemble_primitive(
        grid_vertices(3),
        None,
        Some(vec![0, 1]),
        0,
        Vec3A::ONE,
        Vec3A::ZERO,
        Quat::IDENTITY,
        vec![Material::default()],
    );
    assert!(mesh2.faces.is_empty());
}
