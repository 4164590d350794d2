//! The mesh codec: conversion between the wire message tree and the owned
//! in-memory [`Mesh`].
//!
//! Decoding turns a [`WireMesh`] read view into a fresh [`Mesh`], validating
//! raw blob lengths on the way; encoding populates a [`WireMesh`] write view
//! from a [`Mesh`] and a `raw` mode flag. Both directions are specified
//! against the spec-level functions [`decode_mesh_spec`] and
//! [`encode_mesh_spec`], and the round-trip laws at the end of the module
//! relate the two.

use vstd::prelude::*;
use crate::data::{Material, Mesh, MeshVertices, MeshVerticesView, MeshView, Vertices, VerticesView};
use crate::error::{ProtocolError, ProtocolResult};
use crate::geometry::{POINT_SIZE, TEXCOORD_SIZE, VECTOR_SIZE, VERTEX_SIZE};
use crate::raw::{
    lemma_points_blob_round_trip, lemma_texcoords_blob_round_trip, lemma_vectors_blob_round_trip,
    lemma_vertices_blob_round_trip, pack_points, pack_texcoords, pack_vectors, pack_vertices,
    points_blob, points_of_blob, texcoords_blob, texcoords_of_blob, unpack_points,
    unpack_texcoords, unpack_vectors, unpack_vertices, vectors_blob, vectors_of_blob,
    vertices_blob, vertices_of_blob,
};
use crate::wire::{WireMesh, WireMeshView, WireVertices, WireVerticesView};

verus! {

/// What decoding the wire vertex union yields: the owned vertex data, or
/// `InvalidLength` when a raw blob is not a whole number of records.
pub open spec fn decode_vertices_spec(w: WireVerticesView) -> Result<MeshVerticesView, ProtocolError> {
    match w {
        WireVerticesView::Interleaved(vs) => Ok(MeshVerticesView::Interleaved(vs)),
        WireVerticesView::Discrete { positions, normals, uvs } => Ok(
            MeshVerticesView::Discrete(VerticesView { positions, normals, uvs }),
        ),
        WireVerticesView::InterleavedRaw(b) => {
            if b.len() as int % (VERTEX_SIZE as int) != 0 {
                Err(ProtocolError::InvalidLength)
            } else {
                Ok(MeshVerticesView::Interleaved(vertices_of_blob(b)))
            }
        },
        WireVerticesView::DiscreteRaw { positions, normals, uvs } => {
            let ok_positions = positions.len() as int % (POINT_SIZE as int) == 0;
            let ok_normals = match normals {
                Some(nb) => nb.len() as int % (VECTOR_SIZE as int) == 0,
                None => true,
            };
            let ok_uvs = match uvs {
                Some(tb) => tb.len() as int % (TEXCOORD_SIZE as int) == 0,
                None => true,
            };
            if ok_positions && ok_normals && ok_uvs {
                Ok(MeshVerticesView::Discrete(VerticesView {
                    positions: points_of_blob(positions),
                    normals: match normals {
                        Some(nb) => Some(vectors_of_blob(nb)),
                        None => None,
                    },
                    uvs: match uvs {
                        Some(tb) => Some(texcoords_of_blob(tb)),
                        None => None,
                    },
                }))
            } else {
                Err(ProtocolError::InvalidLength)
            }
        },
    }
}

/// What decoding a whole wire mesh message yields: indices and materials are
/// copied positionally, the vertex union is decoded by
/// [`decode_vertices_spec`], and the first failure aborts the whole decode.
pub open spec fn decode_mesh_spec(w: WireMeshView) -> Result<MeshView, ProtocolError> {
    match decode_vertices_spec(w.vertices) {
        Ok(v) => Ok(MeshView { vertices: v, indices: w.indices, materials: w.materials }),
        Err(e) => Err(e),
    }
}

/// What encoding the vertex data writes into the wire vertex union, for
/// each of the four meaningful (layout, raw) combinations.
pub open spec fn encode_vertices_spec(v: MeshVerticesView, raw: bool) -> WireVerticesView {
    match v {
        MeshVerticesView::Interleaved(vs) => {
            if !raw {
                WireVerticesView::Interleaved(vs)
            } else {
                WireVerticesView::InterleavedRaw(vertices_blob(vs))
            }
        },
        MeshVerticesView::Discrete(d) => {
            if !raw {
                WireVerticesView::Discrete {
                    positions: d.positions,
                    normals: d.normals,
                    uvs: d.uvs,
                }
            } else {
                WireVerticesView::DiscreteRaw {
                    positions: points_blob(d.positions),
                    normals: match d.normals {
                        Some(ns) => Some(vectors_blob(ns)),
                        None => None,
                    },
                    uvs: match d.uvs {
                        Some(ts) => Some(texcoords_blob(ts)),
                        None => None,
                    },
                }
            }
        },
    }
}

/// What encoding a whole mesh writes into the wire message tree.
pub open spec fn encode_mesh_spec(m: MeshView, raw: bool) -> WireMeshView {
    WireMeshView {
        vertices: encode_vertices_spec(m.vertices, raw),
        indices: m.indices,
        materials: m.materials,
    }
}

/// The raw blobs of this mesh fit in addressable memory: each packed byte
/// count stays within `usize`. This is the only machine limit the raw
/// encoder depends on.
pub open spec fn encode_fits(m: MeshView) -> bool {
    match m.vertices {
        MeshVerticesView::Interleaved(vs) => vs.len() * (VERTEX_SIZE as int) <= usize::MAX,
        MeshVerticesView::Discrete(d) => {
            &&& d.positions.len() * (POINT_SIZE as int) <= usize::MAX
            &&& match d.normals {
                Some(ns) => ns.len() * (VECTOR_SIZE as int) <= usize::MAX,
                None => true,
            }
            &&& match d.uvs {
                Some(ts) => ts.len() * (TEXCOORD_SIZE as int) <= usize::MAX,
                None => true,
            }
        },
    }
}

/// Copy a vector of plain values element by element.
fn copy_vec<T: Copy>(src: &Vec<T>) -> (out: Vec<T>)
    ensures
        out@ == src@,
{
    let mut out: Vec<T> = Vec::with_capacity(src.len());
    let mut i: usize = 0;
    while i < src.len()
        invariant
            i <= src@.len(),
            out@ == src@.take(i as int),
        decreases src@.len() - i,
    {
        out.push(src[i]);
        proof {
            assert(out@ =~= src@.take(i as int + 1));
        }
        i += 1;
    }
    proof {
        assert(src@.take(src@.len() as int) =~= src@);
    }
    out
}

/// Load a `Mesh` from a mesh read view.
///
/// Every value in the result is freshly owned; nothing aliases the wire
/// tree. Raw blobs are validated against their record sizes and rejected
/// with `InvalidLength` when their byte length is not an exact multiple; no
/// partial mesh is ever returned on failure.
pub fn load_mesh_from_reader(mesh_reader: &WireMesh) -> (r: ProtocolResult<Mesh>)
    ensures
        r is Ok <==> decode_mesh_spec(mesh_reader@) is Ok,
        r matches Ok(m) ==> decode_mesh_spec(mesh_reader@) == Ok::<MeshView, ProtocolError>(m@),
        r matches Err(e) ==> decode_mesh_spec(mesh_reader@) == Err::<MeshView, ProtocolError>(e),
{
    let indices: Option<Vec<u32>> = match &mesh_reader.indices {
        Some(ix) => Some(copy_vec(ix)),
        None => None,
    };

    let materials: Vec<Material> = copy_vec(&mesh_reader.materials);

    let vertices: MeshVertices = match &mesh_reader.vertices {
        WireVertices::Interleaved(vs) => MeshVertices::Interleaved(copy_vec(vs)),
        WireVertices::Discrete { positions, normals, uvs } => MeshVertices::Discrete(
            Vertices {
                positions: copy_vec(positions),
                normals: match normals {
                    Some(ns) => Some(copy_vec(ns)),
                    None => None,
                },
                uvs: match uvs {
                    Some(ts) => Some(copy_vec(ts)),
                    None => None,
                },
            },
        ),
        WireVertices::InterleavedRaw(b) => {
            match unpack_vertices(b) {
                Ok(ws) => MeshVertices::Interleaved(ws),
                Err(e) => {
                    return Err(e);
                },
            }
        },
        WireVertices::DiscreteRaw { positions, normals, uvs } => {
            let ps = match unpack_points(positions) {
                Ok(ps) => ps,
                Err(e) => {
                    return Err(e);
                },
            };
            let ns = match normals {
                Some(nb) => match unpack_vectors(nb) {
                    Ok(ns) => Some(ns),
                    Err(e) => {
                        return Err(e);
                    },
                },
                None => None,
            };
            let ts = match uvs {
                Some(tb) => match unpack_texcoords(tb) {
                    Ok(ts) => Some(ts),
                    Err(e) => {
                        return Err(e);
                    },
                },
                None => None,
            };
            MeshVertices::Discrete(Vertices { positions: ps, normals: ns, uvs: ts })
        },
    };

    let m = Mesh { vertices, indices, materials };
    proof {
        assert(decode_mesh_spec(mesh_reader@) matches Ok(mv) && mv =~= m@);
    }
    Ok(m)
}

/// Save a `Mesh` to a mesh write view.
///
/// The four meaningful combinations of vertex layout and `raw` flag are
/// dispatched exhaustively; the mesh itself is never mutated. Encoding
/// always succeeds: the only failure source of the wire layer, exhausted
/// write buffers, cannot arise for an owned write view.
pub fn save_mesh_to_builder(mesh_builder: &mut WireMesh, mesh: &Mesh, raw: bool) -> (r:
    ProtocolResult<()>)
    requires
        raw ==> encode_fits(mesh@),
    ensures
        r == Ok::<(), ProtocolError>(()),
        final(mesh_builder)@ == encode_mesh_spec(mesh@, raw),
{
    let indices: Option<Vec<u32>> = match &mesh.indices {
        Some(ix) => Some(copy_vec(ix)),
        None => None,
    };

    let materials: Vec<Material> = copy_vec(&mesh.materials);

    let vertices: WireVertices = match &mesh.vertices {
        MeshVertices::Discrete(d) => {
            if !raw {
                WireVertices::Discrete {
                    positions: copy_vec(&d.positions),
                    normals: match &d.normals {
                        Some(ns) => Some(copy_vec(ns)),
                        None => None,
                    },
                    uvs: match &d.uvs {
                        Some(ts) => Some(copy_vec(ts)),
                        None => None,
                    },
                }
            } else {
                WireVertices::DiscreteRaw {
                    positions: pack_points(&d.positions),
                    normals: match &d.normals {
                        Some(ns) => Some(pack_vectors(ns)),
                        None => None,
                    },
                    uvs: match &d.uvs {
                        Some(ts) => Some(pack_texcoords(ts)),
                        None => None,
                    },
                }
            }
        },
        MeshVertices::Interleaved(vs) => {
            if !raw {
                WireVertices::Interleaved(copy_vec(vs))
            } else {
                WireVertices::InterleavedRaw(pack_vertices(vs))
            }
        },
    };

    *mesh_builder = WireMesh { vertices, indices, materials };
    proof {
        assert(final(mesh_builder)@ =~= encode_mesh_spec(mesh@, raw));
    }
    Ok(())
}

/// Law: decoding an encoded mesh restores it exactly, field for field, for
/// either vertex layout, either state of the `raw` flag, and any
/// combination of absent, empty and non-empty optional sequences.
pub proof fn lemma_mesh_round_trip(m: MeshView, raw: bool)
    ensures
        decode_mesh_spec(encode_mesh_spec(m, raw)) == Ok::<MeshView, ProtocolError>(m),
{
    match m.vertices {
        MeshVerticesView::Interleaved(vs) => {
            if raw {
                lemma_vertices_blob_round_trip(vs);
            }
        },
        MeshVerticesView::Discrete(d) => {
            if raw {
                lemma_points_blob_round_trip(d.positions);
                match d.normals {
                    Some(ns) => lemma_vectors_blob_round_trip(ns),
                    None => (),
                }
                match d.uvs {
                    Some(ts) => lemma_texcoords_blob_round_trip(ts),
                    None => (),
                }
            }
            assert(decode_vertices_spec(encode_vertices_spec(m.vertices, raw)) matches Ok(v)
                && v matches MeshVerticesView::Discrete(d2) && d2 =~= d);
        },
    }
    assert(decode_mesh_spec(encode_mesh_spec(m, raw)) matches Ok(m2) && m2 =~= m);
}

/// Law: an interleaved raw blob decodes if and only if its length is an
/// exact multiple of the `Vertex` record size; a valid blob yields exactly
/// one vertex per record, and an invalid one fails with `InvalidLength`.
pub proof fn lemma_raw_length_validation(b: Seq<u8>)
    ensures
        b.len() as int % (VERTEX_SIZE as int) != 0 ==> decode_vertices_spec(
            WireVerticesView::InterleavedRaw(b),
        ) == Err::<MeshVerticesView, ProtocolError>(ProtocolError::InvalidLength),
        b.len() as int % (VERTEX_SIZE as int) == 0 ==> (decode_vertices_spec(
            WireVerticesView::InterleavedRaw(b),
        ) matches Ok(MeshVerticesView::Interleaved(ws)) && ws.len() == b.len() as int / (
        VERTEX_SIZE as int)),
{
}

/// Law: encoding a mesh field by field and encoding it as raw blobs decode
/// to the identical mesh, with bit-identical components, despite the
/// different encoding paths.
pub proof fn lemma_cross_mode_equivalence(m: MeshView)
    ensures
        decode_mesh_spec(encode_mesh_spec(m, false)) == decode_mesh_spec(encode_mesh_spec(m, true)),
{
    lemma_mesh_round_trip(m, false);
    lemma_mesh_round_trip(m, true);
}

/// Law: a discrete mesh keeps the exact absent/present state of its
/// optional attribute arrays across a round trip; an absent array is never
/// conflated with an empty present one.
pub proof fn lemma_optionality_fidelity(m: MeshView, raw: bool)
    ensures
        m.vertices matches MeshVerticesView::Discrete(d) ==> (decode_mesh_spec(
            encode_mesh_spec(m, raw),
        ) matches Ok(m2) && m2.vertices matches MeshVerticesView::Discrete(d2) && (d2.normals
            is Some <==> d.normals is Some) && (d2.uvs is Some <==> d.uvs is Some) && m2 == m),
{
    lemma_mesh_round_trip(m, raw);
}

} // verus!
