use meshweaver::RenderError;
use meshweaver::math::{Mat4Bits, RotorBits, Vec2Bits, Vec3Bits};
use meshweaver::mesh::{Mesh, Vertex};
use meshweaver::transform::Transform;

fn rotor_bits(r: ultraviolet::Rotor3) -> RotorBits {
    RotorBits {
        s: r.s.to_bits(),
        xy: r.bv.xy.to_bits(),
        xz: r.bv.xz.to_bits(),
        yz: r.bv.yz.to_bits(),
    }
}

fn vec3_bits(x: f32, y: f32, z: f32) -> Vec3Bits {
    Vec3Bits { x: x.to_bits(), y: y.to_bits(), z: z.to_bits() }
}

fn words_of(m: ultraviolet::Mat4) -> [u32; 16] {
    m.as_array().map(|v| v.to_bits())
}

fn floats_of(m: &Mat4Bits) -> [f32; 16] {
    m.words.map(f32::from_bits)
}

fn triangle_vertices() -> Vec<Vertex> {
    let mut vs = Vec::new();
    let normal = vec3_bits(0.0, 0.0, 1.0);
    let uv = Vec2Bits { x: 0, y: 0 };
    vs.push(Vertex { position: vec3_bits(0.0, 0.0, 0.0), normal, uv });
    vs.push(Vertex { position: vec3_bits(1.0, 0.0, 0.0), normal, uv });
    vs.push(Vertex { position: vec3_bits(0.0, 1.0, 0.0), normal, uv });
    vs
}

fn triangle_mesh() -> Mesh {
    Mesh::create(triangle_vertices(), vec![0u16, 1, 2]).unwrap()
}

#[test]
fn default_transform_is_identity() {
    let t = Transform::default();
    assert_eq!(t, Transform::identity());
    assert_eq!(t.scale, 1.0f32.to_bits());
    assert_eq!(t.rotation.s, 1.0f32.to_bits());
    assert_eq!(t.rotation.xy, 0);
    assert_eq!(t.translation, Vec3Bits { x: 0, y: 0, z: 0 });
}

#[test]
fn identity_transform_matrix_is_identity() {
    let m = Transform::identity().to_matrix();
    assert_eq!(m.words, words_of(ultraviolet::Mat4::identity()));
}

#[test]
fn to_matrix_matches_similarity_composition() {
    let t = Transform {
        translation: vec3_bits(-1.0, 0.25, 3.0),
        rotation: rotor_bits(ultraviolet::Rotor3::from_rotation_xz(30f32.to_radians())),
        scale: 0.5f32.to_bits(),
    };
    let expected = ultraviolet::Similarity3 {
        translation: ultraviolet::Vec3::new(-1.0, 0.25, 3.0),
        rotation: ultraviolet::Rotor3::from_rotation_xz(30f32.to_radians()),
        scale: 0.5,
    }
    .into_homogeneous_matrix();
    assert_eq!(t.to_matrix().words, words_of(expected));
}

#[test]
fn rotation_deltas_compose_like_single_composed_rotor() {
    let r1 = ultraviolet::Rotor3::from_rotation_xz(20f32.to_radians());
    let r2 = ultraviolet::Rotor3::from_rotation_xy(35f32.to_radians());

    let mut stepped = Transform::identity();
    stepped.rotate_by(&rotor_bits(r1));
    stepped.rotate_by(&rotor_bits(r2));

    let mut composed = Transform::identity();
    composed.rotate_by(&rotor_bits(r2 * r1));

    let a = floats_of(&stepped.to_matrix());
    let b = floats_of(&composed.to_matrix());
    for i in 0..16 {
        assert!((a[i] - b[i]).abs() < 1e-5, "entry {} differs: {} vs {}", i, a[i], b[i]);
    }
}

#[test]
fn rotate_by_keeps_translation_and_scale() {
    let mut t = Transform {
        translation: vec3_bits(4.0, 5.0, 6.0),
        rotation: rotor_bits(ultraviolet::Rotor3::identity()),
        scale: 2.0f32.to_bits(),
    };
    t.rotate_by(&rotor_bits(ultraviolet::Rotor3::from_rotation_yz(10f32.to_radians())));
    assert_eq!(t.translation, vec3_bits(4.0, 5.0, 6.0));
    assert_eq!(t.scale, 2.0f32.to_bits());
}

#[test]
fn mesh_create_rejects_empty_vertices() {
    let r = Mesh::create(Vec::new(), vec![0u16]);
    assert_eq!(r.unwrap_err(), RenderError::EmptyVertexList);
}

#[test]
fn mesh_create_rejects_empty_indices() {
    let r = Mesh::create(triangle_vertices(), Vec::new());
    assert_eq!(r.unwrap_err(), RenderError::EmptyIndexList);
}

#[test]
fn mesh_exposes_geometry_unchanged() {
    let mesh = triangle_mesh();
    assert_eq!(mesh.vertex_buffer().len(), 3);
    assert_eq!(mesh.index_buffer().as_slice(), &[0u16, 1, 2]);
    assert_eq!(mesh.index_count(), 3);
    assert_eq!(mesh.instance_count(), 0);
    assert_eq!(mesh.vertex_buffer()[1].position, vec3_bits(1.0, 0.0, 0.0));
}

#[test]
fn vertex_buffer_bytes_follow_attribute_layout() {
    let mesh = triangle_mesh();
    let bytes = mesh.vertex_buffer_bytes();
    // Eight words of four bytes per vertex: position, normal, uv.
    assert_eq!(bytes.len(), 3 * 32);
    let expected: Vec<u8> = mesh
        .vertex_buffer()
        .iter()
        .flat_map(|v| {
            [
                v.position.x, v.position.y, v.position.z,
                v.normal.x, v.normal.y, v.normal.z,
                v.uv.x, v.uv.y,
            ]
        })
        .flat_map(|w| w.to_le_bytes())
        .collect();
    assert_eq!(bytes, expected);
    // The second vertex's position starts one stride in.
    let x = f32::from_bits(u32::from_le_bytes([bytes[32], bytes[33], bytes[34], bytes[35]]));
    assert_eq!(x, 1.0);
}

#[test]
fn index_buffer_bytes_are_little_endian() {
    let mesh = Mesh::create(triangle_vertices(), vec![0x0102u16, 0x0304, 0x0506]).unwrap();
    assert_eq!(mesh.index_buffer_bytes(), vec![0x02u8, 0x01, 0x04, 0x03, 0x06, 0x05]);
}

#[test]
fn instances_keep_insertion_order() {
    let mut mesh = triangle_mesh();
    let a = Transform { translation: vec3_bits(1.0, 0.0, 0.0), ..Transform::identity() };
    let b = Transform { translation: vec3_bits(2.0, 0.0, 0.0), ..Transform::identity() };
    let c = Transform { translation: vec3_bits(3.0, 0.0, 0.0), ..Transform::identity() };
    mesh.add_instance(a);
    mesh.add_instance(b);
    mesh.add_instance(c);
    assert_eq!(mesh.instance_count(), 3);
    assert_eq!(mesh.instances()[0], a);
    assert_eq!(mesh.instances()[1], b);
    assert_eq!(mesh.instances()[2], c);
}

#[test]
fn instance_matrices_stable_across_calls() {
    let mut mesh = triangle_mesh();
    for i in 0..3u32 {
        mesh.add_instance(Transform {
            translation: vec3_bits(i as f32, 0.0, 0.0),
            ..Transform::identity()
        });
    }
    let first = mesh.instance_matrices();
    let second = mesh.instance_matrices();
    assert_eq!(first.len(), 3);
    assert_eq!(second.len(), 3);
    for i in 0..3 {
        assert_eq!(first[i].words, second[i].words, "matrix {} changed between calls", i);
    }
    // The order is the instance order: with identity rotation and unit
    // scale, the translation column of matrix i is instance i's offset.
    for i in 0..3 {
        let m = floats_of(&first[i]);
        assert_eq!(m[12], i as f32);
        assert_eq!(m[13], 0.0);
        assert_eq!(m[14], 0.0);
    }
}

#[test]
fn update_transform_applies_mutator_in_place() {
    let mut mesh = triangle_mesh();
    mesh.add_instance(Transform::identity());
    mesh.add_instance(Transform::identity());
    let r = mesh.update_transform(1, |mut t| {
        t.translation = vec3_bits(-1.0, 0.0, 0.0);
        t.scale = 0.5f32.to_bits();
        t
    });
    assert!(r.is_ok());
    assert_eq!(mesh.instances()[0], Transform::identity());
    assert_eq!(mesh.instances()[1].translation, vec3_bits(-1.0, 0.0, 0.0));
    assert_eq!(mesh.instances()[1].scale, 0.5f32.to_bits());
}

#[test]
fn update_transform_out_of_range_reports_error() {
    let mut mesh = triangle_mesh();
    mesh.add_instance(Transform::identity());
    let before = mesh.instance_matrices();
    let r = mesh.update_transform(1, |t| t);
    assert_eq!(r.unwrap_err(), RenderError::InstanceIndexOutOfRange);
    let after = mesh.instance_matrices();
    assert_eq!(before.len(), after.len());
    for i in 0..before.len() {
        assert_eq!(before[i].words, after[i].words);
    }
    assert_eq!(mesh.instances()[0], Transform::identity());
}

#[test]
fn rotate_by_spins_per_tick_like_host_loop() {
    // The host loop's fixed tick applies the same small spin to every
    // instance each tick; two ticks land where the doubled spin lands.
    let tick = ultraviolet::Rotor3::from_rotation_xz(0.5f32.to_radians());
    let mut t = Transform::identity();
    t.rotate_by(&rotor_bits(tick));
    t.rotate_by(&rotor_bits(tick));
    let mut u = Transform::identity();
    u.rotate_by(&rotor_bits(ultraviolet::Rotor3::from_rotation_xz(1.0f32.to_radians())));
    let a = floats_of(&t.to_matrix());
    let b = floats_of(&u.to_matrix());
    for i in 0..16 {
        assert!((a[i] - b[i]).abs() < 1e-5);
    }
}
