//! Owned model of the wire-format mesh message tree.
//!
//! A mesh travels as a message with three fields: a four-way tagged union of
//! vertex layouts, an optional index list, and a required material list.
//! An external schema-based codec maps this tree to and from serialized
//! bytes; this crate is concerned only with the conversion between the tree
//! and the in-memory [`crate::data::Mesh`].
//!
//! The `...Raw` variants carry packed byte blobs laid out as described in
//! [`crate::geometry`]; their validity is checked during decoding.

use vstd::prelude::*;
use crate::geometry::{Point3f, TexCoord, Vector3f, Vertex};
use crate::data::Material;

verus! {

/// The wire form of the vertex data: a four-way tagged union.
#[derive(Clone, Debug, PartialEq, Eq)]
pub enum WireVertices {
    /// A list of vertex records, one sub-message per vertex.
    Interleaved(Vec<Vertex>),
    /// Parallel attribute lists; `normals` and `uvs` follow the optional-tag
    /// convention independently of each other.
    Discrete {
        positions: Vec<Point3f>,
        normals: Option<Vec<Vector3f>>,
        uvs: Option<Vec<TexCoord>>,
    },
    /// A single byte blob holding packed `Vertex` records.
    InterleavedRaw(Vec<u8>),
    /// Independent byte blobs holding packed `Point3f`, `Vector3f` and
    /// `TexCoord` records; the optional blobs follow the optional-tag
    /// convention.
    DiscreteRaw {
        positions: Vec<u8>,
        normals: Option<Vec<u8>>,
        uvs: Option<Vec<u8>>,
    },
}

/// The wire form of a whole mesh message.
#[derive(Clone, Debug, PartialEq, Eq)]
pub struct WireMesh {
    pub vertices: WireVertices,
    pub indices: Option<Vec<u32>>,
    pub materials: Vec<Material>,
}

/// Mathematical model of [`WireVertices`].
#[verifier::ext_equal]
pub enum WireVerticesView {
    Interleaved(Seq<Vertex>),
    Discrete {
        positions: Seq<Point3f>,
        normals: Option<Seq<Vector3f>>,
        uvs: Option<Seq<TexCoord>>,
    },
    InterleavedRaw(Seq<u8>),
    DiscreteRaw {
        positions: Seq<u8>,
        normals: Option<Seq<u8>>,
        uvs: Option<Seq<u8>>,
    },
}

/// Mathematical model of [`WireMesh`].
#[verifier::ext_equal]
pub struct WireMeshView {
    pub vertices: WireVerticesView,
    pub indices: Option<Seq<u32>>,
    pub materials: Seq<Material>,
}

impl View for WireVertices {
    type V = WireVerticesView;

    open spec fn view(&self) -> WireVerticesView {
        match self {
            WireVertices::Interleaved(vs) => WireVerticesView::Interleaved(vs@),
            WireVertices::Discrete { positions, normals, uvs } => WireVerticesView::Discrete {
                positions: positions@,
                normals: match normals {
                    Some(ns) => Some(ns@),
                    None => None,
                },
                uvs: match uvs {
                    Some(ts) => Some(ts@),
                    None => None,
                },
            },
            WireVertices::InterleavedRaw(b) => WireVerticesView::InterleavedRaw(b@),
            WireVertices::DiscreteRaw { positions, normals, uvs } => WireVerticesView::DiscreteRaw {
                positions: positions@,
                normals: match normals {
                    Some(nb) => Some(nb@),
                    None => None,
                },
                uvs: match uvs {
                    Some(tb) => Some(tb@),
                    None => None,
                },
            },
        }
    }
}

impl View for WireMesh {
    type V = WireMeshView;

    open spec fn view(&self) -> WireMeshView {
        WireMeshView {
            vertices: self.vertices@,
            indices: match self.indices {
                Some(ix) => Some(ix@),
                None => None,
            },
            materials: self.materials@,
        }
    }
}

} // verus!
