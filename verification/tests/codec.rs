//! End-to-end tests of the mesh codec: encoding a mesh into the wire tree
//! and decoding it back, in both raw and non-raw modes.

use combustion::data::{Mesh, MeshVertices, Vertices};
use combustion::error::ProtocolError;
use combustion::geometry::{Point3f, TexCoord, Vector3f, Vertex};
use combustion::storage::{load_mesh_from_reader, save_mesh_to_builder};
use combustion::wire::{WireMesh, WireVertices};

fn p3(x: f32, y: f32, z: f32) -> Point3f {
    Point3f { x: x.to_bits(), y: y.to_bits(), z: z.to_bits() }
}

fn v3(x: f32, y: f32, z: f32) -> Vector3f {
    Vector3f { x: x.to_bits(), y: y.to_bits(), z: z.to_bits() }
}

fn uv(u: f32, v: f32) -> TexCoord {
    TexCoord { u: u.to_bits(), v: v.to_bits() }
}

fn vx(p: (f32, f32, f32), n: (f32, f32, f32), t: (f32, f32)) -> Vertex {
    Vertex { position: p3(p.0, p.1, p.2), normal: v3(n.0, n.1, n.2), uv: uv(t.0, t.1) }
}

fn empty_builder() -> WireMesh {
    WireMesh { vertices: WireVertices::Interleaved(Vec::new()), indices: None, materials: Vec::new() }
}

fn round_trip(mesh: &Mesh, raw: bool) -> Mesh {
    let mut builder = empty_builder();
    save_mesh_to_builder(&mut builder, mesh, raw).expect("encoding cannot fail");
    load_mesh_from_reader(&builder).expect("decoding an encoded mesh cannot fail")
}

fn sample_vertices() -> Vec<Vertex> {
    vec![
        vx((1.0, 2.0, 3.0), (0.0, 0.0, 1.0), (0.5, 0.5)),
        vx((-1.5, 0.25, 8.0), (0.0, 1.0, 0.0), (0.0, 1.0)),
        vx((0.0, -0.0, 3.5e7), (-1.0, 0.0, 0.0), (0.25, 0.75)),
    ]
}

#[test]
fn round_trip_interleaved_non_raw() {
    let mesh = Mesh {
        vertices: MeshVertices::Interleaved(sample_vertices()),
        indices: Some(vec![0, 1, 2, 2, 1, 0]),
        materials: vec![7, 11],
    };
    assert_eq!(round_trip(&mesh, false), mesh);
}

#[test]
fn round_trip_interleaved_raw() {
    let mesh = Mesh {
        vertices: MeshVertices::Interleaved(sample_vertices()),
        indices: Some(vec![2, 1, 0]),
        materials: vec![1],
    };
    assert_eq!(round_trip(&mesh, true), mesh);
}

#[test]
fn round_trip_discrete_non_raw() {
    let mesh = Mesh {
        vertices: MeshVertices::Discrete(Vertices {
            positions: vec![p3(1.0, 2.0, 3.0), p3(4.0, 5.0, 6.0)],
            normals: Some(vec![v3(0.0, 0.0, 1.0), v3(0.0, 1.0, 0.0)]),
            uvs: Some(vec![uv(0.0, 0.0), uv(1.0, 1.0)]),
        }),
        indices: Some(Vec::new()),
        materials: Vec::new(),
    };
    assert_eq!(round_trip(&mesh, false), mesh);
}

#[test]
fn round_trip_discrete_raw() {
    let mesh = Mesh {
        vertices: MeshVertices::Discrete(Vertices {
            positions: vec![p3(0.5, -0.5, 12.0)],
            normals: None,
            uvs: Some(vec![uv(0.25, 0.75)]),
        }),
        indices: None,
        materials: vec![3, 3, 3],
    };
    assert_eq!(round_trip(&mesh, true), mesh);
}

#[test]
fn optionality_distinguishes_absent_from_empty() {
    for raw in [false, true] {
        let mesh = Mesh {
            vertices: MeshVertices::Discrete(Vertices {
                positions: vec![p3(1.0, 1.0, 1.0)],
                normals: None,
                uvs: Some(Vec::new()),
            }),
            indices: None,
            materials: Vec::new(),
        };
        let back = round_trip(&mesh, raw);
        match &back.vertices {
            MeshVertices::Discrete(d) => {
                assert!(d.normals.is_none());
                assert_eq!(d.uvs, Some(Vec::new()));
            }
            _ => panic!("layout variant must be preserved"),
        }
        assert_eq!(back, mesh);
    }
}

#[test]
fn empty_sequences_round_trip() {
    for raw in [false, true] {
        let mesh = Mesh {
            vertices: MeshVertices::Interleaved(Vec::new()),
            indices: Some(Vec::new()),
            materials: Vec::new(),
        };
        assert_eq!(round_trip(&mesh, raw), mesh);

        let discrete = Mesh {
            vertices: MeshVertices::Discrete(Vertices {
                positions: Vec::new(),
                normals: None,
                uvs: None,
            }),
            indices: None,
            materials: Vec::new(),
        };
        assert_eq!(round_trip(&discrete, raw), discrete);
    }
}

#[test]
fn indices_absent_and_present_are_distinct() {
    for raw in [false, true] {
        let without = Mesh {
            vertices: MeshVertices::Interleaved(sample_vertices()),
            indices: None,
            materials: vec![9],
        };
        let with_empty = Mesh { indices: Some(Vec::new()), ..without.clone() };
        assert_eq!(round_trip(&without, raw).indices, None);
        assert_eq!(round_trip(&with_empty, raw).indices, Some(Vec::new()));
    }
}

#[test]
fn interleaved_raw_rejects_length_not_multiple_of_record() {
    let wire = WireMesh {
        vertices: WireVertices::InterleavedRaw(vec![0u8; 17]),
        indices: None,
        materials: Vec::new(),
    };
    assert_eq!(load_mesh_from_reader(&wire), Err(ProtocolError::InvalidLength));
}

#[test]
fn interleaved_raw_accepts_exact_multiples() {
    let wire = WireMesh {
        vertices: WireVertices::InterleavedRaw(vec![0u8; 3 * 32]),
        indices: None,
        materials: Vec::new(),
    };
    let mesh = load_mesh_from_reader(&wire).expect("a 96-byte blob holds 3 records");
    match mesh.vertices {
        MeshVertices::Interleaved(vs) => assert_eq!(vs.len(), 3),
        _ => panic!("an interleaved raw blob decodes to the interleaved layout"),
    }
}

#[test]
fn discrete_raw_rejects_bad_blob_lengths() {
    // 13 bytes is not a whole number of 12-byte position records.
    let bad_positions = WireMesh {
        vertices: WireVertices::DiscreteRaw {
            positions: vec![0u8; 13],
            normals: None,
            uvs: None,
        },
        indices: None,
        materials: Vec::new(),
    };
    assert_eq!(load_mesh_from_reader(&bad_positions), Err(ProtocolError::InvalidLength));

    let bad_normals = WireMesh {
        vertices: WireVertices::DiscreteRaw {
            positions: vec![0u8; 12],
            normals: Some(vec![0u8; 11]),
            uvs: None,
        },
        indices: None,
        materials: Vec::new(),
    };
    assert_eq!(load_mesh_from_reader(&bad_normals), Err(ProtocolError::InvalidLength));

    let bad_uvs = WireMesh {
        vertices: WireVertices::DiscreteRaw {
            positions: vec![0u8; 12],
            normals: Some(vec![0u8; 12]),
            uvs: Some(vec![0u8; 7]),
        },
        indices: None,
        materials: Vec::new(),
    };
    assert_eq!(load_mesh_from_reader(&bad_uvs), Err(ProtocolError::InvalidLength));
}

#[test]
fn cross_mode_equivalent_decodes() {
    let mesh = Mesh {
        vertices: MeshVertices::Interleaved(sample_vertices()),
        indices: Some(vec![0, 2, 1]),
        materials: vec![4, 5, 6],
    };
    let plain = round_trip(&mesh, false);
    let raw = round_trip(&mesh, true);
    assert_eq!(plain, raw);
    assert_eq!(plain, mesh);
}

#[test]
fn concrete_single_vertex_scenario() {
    let vertex = vx((1.0, 2.0, 3.0), (0.0, 0.0, 1.0), (0.5, 0.5));
    let mesh = Mesh {
        vertices: MeshVertices::Interleaved(vec![vertex]),
        indices: None,
        materials: Vec::new(),
    };
    for raw in [false, true] {
        let back = round_trip(&mesh, raw);
        match back.vertices {
            MeshVertices::Interleaved(vs) => {
                assert_eq!(vs.len(), 1);
                let v = vs[0];
                assert_eq!(f32::from_bits(v.position.x), 1.0);
                assert_eq!(f32::from_bits(v.position.y), 2.0);
                assert_eq!(f32::from_bits(v.position.z), 3.0);
                assert_eq!(f32::from_bits(v.normal.x), 0.0);
                assert_eq!(f32::from_bits(v.normal.y), 0.0);
                assert_eq!(f32::from_bits(v.normal.z), 1.0);
                assert_eq!(f32::from_bits(v.uv.u), 0.5);
                assert_eq!(f32::from_bits(v.uv.v), 0.5);
            }
            _ => panic!("layout variant must be preserved"),
        }
    }
}

#[test]
fn interleaved_raw_blob_has_packed_little_endian_layout() {
    let vertex = vx((1.0, 2.0, 3.0), (0.0, 0.0, 1.0), (0.5, 0.5));
    let mesh = Mesh {
        vertices: MeshVertices::Interleaved(vec![vertex]),
        indices: None,
        materials: Vec::new(),
    };
    let mut builder = empty_builder();
    save_mesh_to_builder(&mut builder, &mesh, true).expect("encoding cannot fail");
    match &builder.vertices {
        WireVertices::InterleavedRaw(blob) => {
            let mut expected: Vec<u8> = Vec::new();
            for c in [1.0f32, 2.0, 3.0, 0.0, 0.0, 1.0, 0.5, 0.5] {
                expected.extend_from_slice(&c.to_le_bytes());
            }
            assert_eq!(blob, &expected);
            assert_eq!(blob.len(), 32);
        }
        _ => panic!("raw interleaved encoding writes the raw variant"),
    }
}

#[test]
fn discrete_raw_blobs_have_packed_little_endian_layout() {
    let mesh = Mesh {
        vertices: MeshVertices::Discrete(Vertices {
            positions: vec![p3(1.0, 2.0, 3.0), p3(4.0, 5.0, 6.0)],
            normals: Some(vec![v3(0.0, 1.0, 0.0)]),
            uvs: None,
        }),
        indices: None,
        materials: Vec::new(),
    };
    let mut builder = empty_builder();
    save_mesh_to_builder(&mut builder, &mesh, true).expect("encoding cannot fail");
    match &builder.vertices {
        WireVertices::DiscreteRaw { positions, normals, uvs } => {
            let mut expected_positions: Vec<u8> = Vec::new();
            for c in [1.0f32, 2.0, 3.0, 4.0, 5.0, 6.0] {
                expected_positions.extend_from_slice(&c.to_le_bytes());
            }
            assert_eq!(positions, &expected_positions);
            let mut expected_normals: Vec<u8> = Vec::new();
            for c in [0.0f32, 1.0, 0.0] {
                expected_normals.extend_from_slice(&c.to_le_bytes());
            }
            assert_eq!(normals.as_ref(), Some(&expected_normals));
            assert!(uvs.is_none());
        }
        _ => panic!("raw discrete encoding writes the raw variant"),
    }
}

#[test]
fn interleaved_raw_blob_decodes_by_offset_and_byte_order() {
    // Build the 32-byte record by hand, little-endian component by
    // component, and check that decoding reads each field at its offset.
    let mut blob: Vec<u8> = Vec::new();
    for c in [9.0f32, 8.0, 7.0, 0.0, 1.0, 0.0, 0.25, 0.125] {
        blob.extend_from_slice(&c.to_le_bytes());
    }
    let wire = WireMesh {
        vertices: WireVertices::InterleavedRaw(blob),
        indices: None,
        materials: Vec::new(),
    };
    let mesh = load_mesh_from_reader(&wire).expect("a whole record decodes");
    match mesh.vertices {
        MeshVertices::Interleaved(vs) => {
            assert_eq!(vs.len(), 1);
            assert_eq!(vs[0], vx((9.0, 8.0, 7.0), (0.0, 1.0, 0.0), (0.25, 0.125)));
        }
        _ => panic!("an interleaved raw blob decodes to the interleaved layout"),
    }
}

#[test]
fn discrete_raw_blobs_decode_independently() {
    let mut positions: Vec<u8> = Vec::new();
    for c in [1.0f32, 2.0, 3.0, 4.0, 5.0, 6.0] {
        positions.extend_from_slice(&c.to_le_bytes());
    }
    let mut uvs: Vec<u8> = Vec::new();
    for c in [0.5f32, 1.0] {
        uvs.extend_from_slice(&c.to_le_bytes());
    }
    let wire = WireMesh {
        vertices: WireVertices::DiscreteRaw { positions, normals: None, uvs: Some(uvs) },
        indices: Some(vec![1, 0]),
        materials: vec![42],
    };
    let mesh = load_mesh_from_reader(&wire).expect("valid blobs decode");
    let expected = Mesh {
        vertices: MeshVertices::Discrete(Vertices {
            positions: vec![p3(1.0, 2.0, 3.0), p3(4.0, 5.0, 6.0)],
            normals: None,
            uvs: Some(vec![uv(0.5, 1.0)]),
        }),
        indices: Some(vec![1, 0]),
        materials: vec![42],
    };
    assert_eq!(mesh, expected);
}

#[test]
fn non_raw_encoding_keeps_field_by_field_records() {
    let vs = sample_vertices();
    let mesh = Mesh {
        vertices: MeshVertices::Interleaved(vs.clone()),
        indices: Some(vec![1]),
        materials: vec![2],
    };
    let mut builder = empty_builder();
    save_mesh_to_builder(&mut builder, &mesh, false).expect("encoding cannot fail");
    match &builder.vertices {
        WireVertices::Interleaved(written) => assert_eq!(written, &vs),
        _ => panic!("non-raw interleaved encoding writes the record variant"),
    }
    assert_eq!(builder.indices, Some(vec![1]));
    assert_eq!(builder.materials, vec![2]);
}
