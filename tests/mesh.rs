use stl_thumb::mesh::{Mesh, ParseError, Vec3Bits};

fn bits(v: [f32; 3]) -> Vec3Bits {
    Vec3Bits { x: v[0].to_bits(), y: v[1].to_bits(), z: v[2].to_bits() }
}

fn push_vec(out: &mut Vec<u8>, v: [f32; 3]) {
    for c in v.iter() {
        out.extend_from_slice(&c.to_le_bytes());
    }
}

/// A binary STL file of the given facets: (normal, three vertices).
fn binary_stl(facets: &[([f32; 3], [[f32; 3]; 3])]) -> Vec<u8> {
    let mut out = vec![0u8; 80];
    out.extend_from_slice(&(facets.len() as u32).to_le_bytes());
    for (n, vs) in facets {
        push_vec(&mut out, *n);
        for v in vs.iter() {
            push_vec(&mut out, *v);
        }
        out.extend_from_slice(&[0, 0]);
    }
    out
}

fn cube_facets() -> Vec<([f32; 3], [[f32; 3]; 3])> {
    let mut facets = Vec::new();
    for axis in 0..3 {
        for &side in [-1.0f32, 1.0].iter() {
            let mut n = [0.0f32; 3];
            n[axis] = side;
            let (a, b) = ((axis + 1) % 3, (axis + 2) % 3);
            let corner = |u: f32, v: f32| {
                let mut p = [0.0f32; 3];
                p[axis] = side;
                p[a] = u;
                p[b] = v;
                p
            };
            facets.push((n, [corner(-1.0, -1.0), corner(1.0, -1.0), corner(1.0, 1.0)]));
            facets.push((n, [corner(-1.0, -1.0), corner(1.0, 1.0), corner(-1.0, 1.0)]));
        }
    }
    facets
}

#[test]
fn one_triangle_round_trip() {
    let bytes = binary_stl(&[([0.0, 0.0, 1.0], [[0.0, 0.0, 0.0], [1.0, 0.0, 0.0], [0.0, 1.0, 0.0]])]);
    let mesh = Mesh::from_stl(&bytes).expect("valid STL");
    assert_eq!(mesh.vertices.len(), 3);
    assert_eq!(mesh.normals.len(), 3);
    assert_eq!(mesh.vertices, vec![bits([0.0, 0.0, 0.0]), bits([1.0, 0.0, 0.0]), bits([0.0, 1.0, 0.0])]);
    for n in mesh.normals.iter() {
        assert_eq!(*n, bits([0.0, 0.0, 1.0]));
    }
}

#[test]
fn cube_mesh_has_twelve_facets() {
    let bytes = binary_stl(&cube_facets());
    assert_eq!(bytes.len(), 84 + 12 * 50);
    let mesh = Mesh::from_stl(&bytes).expect("valid STL");
    assert_eq!(mesh.vertices.len(), 36);
    assert_eq!(mesh.normals.len(), 36);
    for v in mesh.vertices.iter() {
        for c in [v.x, v.y, v.z].iter() {
            let f = f32::from_bits(*c);
            assert!(f == 1.0 || f == -1.0);
        }
    }
}

#[test]
fn normals_follow_their_facet() {
    let bytes = binary_stl(&[
        ([1.0, 0.0, 0.0], [[1.0, 2.0, 3.0], [4.0, 5.0, 6.0], [7.0, 8.0, 9.0]]),
        ([0.0, -1.0, 0.0], [[-1.0, -2.0, -3.0], [-4.0, -5.0, -6.0], [-7.0, -8.0, -9.0]]),
    ]);
    let mesh = Mesh::from_stl(&bytes).unwrap();
    assert_eq!(mesh.vertices.len(), 6);
    assert_eq!(mesh.vertices[4], bits([-4.0, -5.0, -6.0]));
    assert_eq!(mesh.normals[2], bits([1.0, 0.0, 0.0]));
    assert_eq!(mesh.normals[3], bits([0.0, -1.0, 0.0]));
}

#[test]
fn zero_triangles_is_an_empty_mesh() {
    let bytes = binary_stl(&[]);
    let mesh = Mesh::from_stl(&bytes).unwrap();
    assert!(mesh.vertices.is_empty());
    assert!(mesh.normals.is_empty());
}

#[test]
fn trailing_bytes_are_ignored() {
    let mut bytes = binary_stl(&[([0.0, 0.0, 1.0], [[0.0; 3], [1.0, 0.0, 0.0], [0.0, 1.0, 0.0]])]);
    bytes.extend_from_slice(b"trailer");
    assert_eq!(Mesh::from_stl(&bytes).unwrap().vertices.len(), 3);
}

#[test]
fn short_header_is_refused() {
    assert_eq!(Mesh::from_stl(&[0u8; 83]).unwrap_err(), ParseError::MissingHeader);
    assert_eq!(Mesh::from_stl(&[]).unwrap_err(), ParseError::MissingHeader);
}

#[test]
fn truncated_record_is_refused() {
    let mut bytes = binary_stl(&cube_facets());
    bytes.truncate(bytes.len() - 1);
    let len = bytes.len();
    assert_eq!(
        Mesh::from_stl(&bytes).unwrap_err(),
        ParseError::Truncated { triangles: 12, available: len }
    );
}

#[test]
fn huge_count_is_refused() {
    let mut bytes = vec![0u8; 80];
    bytes.extend_from_slice(&u32::MAX.to_le_bytes());
    assert_eq!(
        Mesh::from_stl(&bytes).unwrap_err(),
        ParseError::Truncated { triangles: u32::MAX, available: 84 }
    );
}

#[test]
fn reading_twice_gives_the_same_mesh() {
    let bytes = binary_stl(&cube_facets());
    let a = Mesh::from_stl(&bytes).unwrap();
    let b = Mesh::from_stl(&bytes).unwrap();
    assert_eq!(a.vertices, b.vertices);
    assert_eq!(a.normals, b.normals);
}
