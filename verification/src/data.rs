//! The owned in-memory mesh representation produced by the decoder and
//! consumed by the encoder.

use vstd::prelude::*;
use crate::geometry::{Point3f, TexCoord, Vector3f, Vertex};

verus! {

/// A material identifier. The codec copies materials positionally and never
/// interprets their content.
pub type Material = u32;

/// Attributes stored in separate parallel arrays (discrete layout).
///
/// `positions` defines the vertex count. `normals` and `uvs` are each either
/// absent or a parallel array; the codec deliberately does not check that
/// their lengths match `positions` — consumers stay responsible for that.
#[derive(Clone, Debug, PartialEq, Eq)]
pub struct Vertices {
    pub positions: Vec<Point3f>,
    pub normals: Option<Vec<Vector3f>>,
    pub uvs: Option<Vec<TexCoord>>,
}

/// The vertex data of a mesh: exactly one of the two layouts.
#[derive(Clone, Debug, PartialEq, Eq)]
pub enum MeshVertices {
    /// One record per vertex bundling all attributes together.
    Interleaved(Vec<Vertex>),
    /// Attributes stored in separate parallel arrays.
    Discrete(Vertices),
}

/// An owned mesh: vertex data, an optional index buffer, and material IDs.
///
/// `indices` absent means "no index buffer — draw vertices directly", which
/// is distinct from an empty index buffer.
#[derive(Clone, Debug, PartialEq, Eq)]
pub struct Mesh {
    pub vertices: MeshVertices,
    pub indices: Option<Vec<u32>>,
    pub materials: Vec<Material>,
}

/// Mathematical model of [`Vertices`].
#[verifier::ext_equal]
pub struct VerticesView {
    pub positions: Seq<Point3f>,
    pub normals: Option<Seq<Vector3f>>,
    pub uvs: Option<Seq<TexCoord>>,
}

/// Mathematical model of [`MeshVertices`].
#[verifier::ext_equal]
pub enum MeshVerticesView {
    Interleaved(Seq<Vertex>),
    Discrete(VerticesView),
}

/// Mathematical model of [`Mesh`].
#[verifier::ext_equal]
pub struct MeshView {
    pub vertices: MeshVerticesView,
    pub indices: Option<Seq<u32>>,
    pub materials: Seq<Material>,
}

impl View for Vertices {
    type V = VerticesView;

    open spec fn view(&self) -> VerticesView {
        VerticesView {
            positions: self.positions@,
            normals: match self.normals {
                Some(ns) => Some(ns@),
                None => None,
            },
            uvs: match self.uvs {
                Some(ts) => Some(ts@),
                None => None,
            },
        }
    }
}

impl View for MeshVertices {
    type V = MeshVerticesView;

    open spec fn view(&self) -> MeshVerticesView {
        match self {
            MeshVertices::Interleaved(vs) => MeshVerticesView::Interleaved(vs@),
            MeshVertices::Discrete(d) => MeshVerticesView::Discrete(d@),
        }
    }
}

impl View for Mesh {
    type V = MeshView;

    open spec fn view(&self) -> MeshView {
        MeshView {
            vertices: self.vertices@,
            indices: match self.indices {
                Some(ix) => Some(ix@),
                None => None,
            },
            materials: self.materials@,
        }
    }
}

} // verus!
