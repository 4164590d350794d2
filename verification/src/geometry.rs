//! Plain geometry value types and their packed byte layout.
//!
//! Every component is a 32-bit floating-point value on the wire. The codec
//! never performs arithmetic on components; it only moves their exact bits
//! around. Components are therefore held as their IEEE-754 bit patterns
//! (`u32`), which keeps every copy bit-identical.
//!
//! The raw wire layout packs the components in field order, little-endian,
//! with no padding between fields: a `Point3f` and a `Vector3f` occupy 12
//! bytes each, a `TexCoord` 8 bytes, and a full `Vertex` record 32 bytes.

use vstd::prelude::*;
use vstd::bytes::*;

verus! {

/// Packed byte size of one 32-bit component.
pub const COMPONENT_SIZE: usize = 4;

/// Packed byte size of a `Point3f`: three components.
pub const POINT_SIZE: usize = 12;

/// Packed byte size of a `Vector3f`: three components.
pub const VECTOR_SIZE: usize = 12;

/// Packed byte size of a `TexCoord`: two components.
pub const TEXCOORD_SIZE: usize = 8;

/// Packed byte size of a `Vertex` record: position, normal, uv in order.
pub const VERTEX_SIZE: usize = 32;

/// A position with three 32-bit floating components, each held as its
/// IEEE-754 bit pattern.
#[derive(Clone, Copy, Debug, PartialEq, Eq, Structural)]
pub struct Point3f {
    pub x: u32,
    pub y: u32,
    pub z: u32,
}

/// A direction with three 32-bit floating components, each held as its
/// IEEE-754 bit pattern.
#[derive(Clone, Copy, Debug, PartialEq, Eq, Structural)]
pub struct Vector3f {
    pub x: u32,
    pub y: u32,
    pub z: u32,
}

/// A texture coordinate with two 32-bit floating components, each held as
/// its IEEE-754 bit pattern.
#[derive(Clone, Copy, Debug, PartialEq, Eq, Structural)]
pub struct TexCoord {
    pub u: u32,
    pub v: u32,
}

/// One interleaved vertex record bundling all attributes together.
#[derive(Clone, Copy, Debug, PartialEq, Eq, Structural)]
pub struct Vertex {
    pub position: Point3f,
    pub normal: Vector3f,
    pub uv: TexCoord,
}

/// The packed bytes of a `Point3f`: x, y, z, little-endian, no padding.
pub open spec fn point_bytes(p: Point3f) -> Seq<u8> {
    spec_u32_to_le_bytes(p.x) + spec_u32_to_le_bytes(p.y) + spec_u32_to_le_bytes(p.z)
}

/// The `Point3f` read back from 12 packed bytes.
pub open spec fn point_of_bytes(s: Seq<u8>) -> Point3f
    recommends
        s.len() == POINT_SIZE,
{
    Point3f {
        x: spec_u32_from_le_bytes(s.subrange(0, 4)),
        y: spec_u32_from_le_bytes(s.subrange(4, 8)),
        z: spec_u32_from_le_bytes(s.subrange(8, 12)),
    }
}

/// The packed bytes of a `Vector3f`: x, y, z, little-endian, no padding.
pub open spec fn vector_bytes(v: Vector3f) -> Seq<u8> {
    spec_u32_to_le_bytes(v.x) + spec_u32_to_le_bytes(v.y) + spec_u32_to_le_bytes(v.z)
}

/// The `Vector3f` read back from 12 packed bytes.
pub open spec fn vector_of_bytes(s: Seq<u8>) -> Vector3f
    recommends
        s.len() == VECTOR_SIZE,
{
    Vector3f {
        x: spec_u32_from_le_bytes(s.subrange(0, 4)),
        y: spec_u32_from_le_bytes(s.subrange(4, 8)),
        z: spec_u32_from_le_bytes(s.subrange(8, 12)),
    }
}

/// The packed bytes of a `TexCoord`: u, v, little-endian, no padding.
pub open spec fn texcoord_bytes(t: TexCoord) -> Seq<u8> {
    spec_u32_to_le_bytes(t.u) + spec_u32_to_le_bytes(t.v)
}

/// The `TexCoord` read back from 8 packed bytes.
pub open spec fn texcoord_of_bytes(s: Seq<u8>) -> TexCoord
    recommends
        s.len() == TEXCOORD_SIZE,
{
    TexCoord {
        u: spec_u32_from_le_bytes(s.subrange(0, 4)),
        v: spec_u32_from_le_bytes(s.subrange(4, 8)),
    }
}

/// The packed bytes of a full `Vertex` record: position, normal, uv in
/// field order with no inter-field padding.
pub open spec fn vertex_bytes(v: Vertex) -> Seq<u8> {
    point_bytes(v.position) + vector_bytes(v.normal) + texcoord_bytes(v.uv)
}

/// The `Vertex` read back from 32 packed bytes.
pub open spec fn vertex_of_bytes(s: Seq<u8>) -> Vertex
    recommends
        s.len() == VERTEX_SIZE,
{
    Vertex {
        position: point_of_bytes(s.subrange(0, 12)),
        normal: vector_of_bytes(s.subrange(12, 24)),
        uv: texcoord_of_bytes(s.subrange(24, 32)),
    }
}

/// The packed sizes are what the layout promises.
pub proof fn lemma_record_bytes_len(p: Point3f, v: Vector3f, t: TexCoord, w: Vertex)
    ensures
        point_bytes(p).len() == POINT_SIZE,
        vector_bytes(v).len() == VECTOR_SIZE,
        texcoord_bytes(t).len() == TEXCOORD_SIZE,
        vertex_bytes(w).len() == VERTEX_SIZE,
{
    lemma_auto_spec_u32_to_from_le_bytes();
}

/// Unpacking the packed bytes of a `Point3f` restores it exactly.
pub proof fn lemma_point_round_trip(p: Point3f)
    ensures
        point_bytes(p).len() == POINT_SIZE,
        point_of_bytes(point_bytes(p)) == p,
{
    lemma_auto_spec_u32_to_from_le_bytes();
    let s = point_bytes(p);
    assert(s.subrange(0, 4) =~= spec_u32_to_le_bytes(p.x));
    assert(s.subrange(4, 8) =~= spec_u32_to_le_bytes(p.y));
    assert(s.subrange(8, 12) =~= spec_u32_to_le_bytes(p.z));
}

/// Unpacking the packed bytes of a `Vector3f` restores it exactly.
pub proof fn lemma_vector_round_trip(v: Vector3f)
    ensures
        vector_bytes(v).len() == VECTOR_SIZE,
        vector_of_bytes(vector_bytes(v)) == v,
{
    lemma_auto_spec_u32_to_from_le_bytes();
    let s = vector_bytes(v);
    assert(s.subrange(0, 4) =~= spec_u32_to_le_bytes(v.x));
    assert(s.subrange(4, 8) =~= spec_u32_to_le_bytes(v.y));
    assert(s.subrange(8, 12) =~= spec_u32_to_le_bytes(v.z));
}

/// Unpacking the packed bytes of a `TexCoord` restores it exactly.
pub proof fn lemma_texcoord_round_trip(t: TexCoord)
    ensures
        texcoord_bytes(t).len() == TEXCOORD_SIZE,
        texcoord_of_bytes(texcoord_bytes(t)) == t,
{
    lemma_auto_spec_u32_to_from_le_bytes();
    let s = texcoord_bytes(t);
    assert(s.subrange(0, 4) =~= spec_u32_to_le_bytes(t.u));
    assert(s.subrange(4, 8) =~= spec_u32_to_le_bytes(t.v));
}

/// Unpacking the packed bytes of a `Vertex` record restores it exactly.
pub proof fn lemma_vertex_round_trip(w: Vertex)
    ensures
        vertex_bytes(w).len() == VERTEX_SIZE,
        vertex_of_bytes(vertex_bytes(w)) == w,
{
    lemma_record_bytes_len(w.position, w.normal, w.uv, w);
    let s = vertex_bytes(w);
    assert(s.subrange(0, 12) =~= point_bytes(w.position));
    assert(s.subrange(12, 24) =~= vector_bytes(w.normal));
    assert(s.subrange(24, 32) =~= texcoord_bytes(w.uv));
    lemma_point_round_trip(w.position);
    lemma_vector_round_trip(w.normal);
    lemma_texcoord_round_trip(w.uv);
}

/// Append the packed bytes of a `Point3f` to `out`.
pub fn push_point_bytes(out: &mut Vec<u8>, p: &Point3f)
    requires
        old(out)@.len() + POINT_SIZE <= usize::MAX,
    ensures
        final(out)@ == old(out)@ + point_bytes(*p),
{
    let mut bx = u32_to_le_bytes(p.x);
    out.append(&mut bx);
    let mut by = u32_to_le_bytes(p.y);
    out.append(&mut by);
    let mut bz = u32_to_le_bytes(p.z);
    out.append(&mut bz);
    assert(final(out)@ =~= old(out)@ + point_bytes(*p));
}

/// Append the packed bytes of a `Vector3f` to `out`.
pub fn push_vector_bytes(out: &mut Vec<u8>, v: &Vector3f)
    requires
        old(out)@.len() + VECTOR_SIZE <= usize::MAX,
    ensures
        final(out)@ == old(out)@ + vector_bytes(*v),
{
    let mut bx = u32_to_le_bytes(v.x);
    out.append(&mut bx);
    let mut by = u32_to_le_bytes(v.y);
    out.append(&mut by);
    let mut bz = u32_to_le_bytes(v.z);
    out.append(&mut bz);
    assert(final(out)@ =~= old(out)@ + vector_bytes(*v));
}

/// Append the packed bytes of a `TexCoord` to `out`.
pub fn push_texcoord_bytes(out: &mut Vec<u8>, t: &TexCoord)
    requires
        old(out)@.len() + TEXCOORD_SIZE <= usize::MAX,
    ensures
        final(out)@ == old(out)@ + texcoord_bytes(*t),
{
    let mut bu = u32_to_le_bytes(t.u);
    out.append(&mut bu);
    let mut bv = u32_to_le_bytes(t.v);
    out.append(&mut bv);
    assert(final(out)@ =~= old(out)@ + texcoord_bytes(*t));
}

/// Append the packed bytes of a full `Vertex` record to `out`.
pub fn push_vertex_bytes(out: &mut Vec<u8>, w: &Vertex)
    requires
        old(out)@.len() + VERTEX_SIZE <= usize::MAX,
    ensures
        final(out)@ == old(out)@ + vertex_bytes(*w),
{
    proof {
        lemma_record_bytes_len(w.position, w.normal, w.uv, *w);
    }
    push_point_bytes(out, &w.position);
    push_vector_bytes(out, &w.normal);
    push_texcoord_bytes(out, &w.uv);
    assert(final(out)@ =~= old(out)@ + vertex_bytes(*w));
}

/// Read one little-endian `u32` component at byte offset `off` of `data`.
pub fn read_component(data: &[u8], off: usize) -> (x: u32)
    requires
        off + COMPONENT_SIZE <= data@.len(),
    ensures
        x == spec_u32_from_le_bytes(data@.subrange(off as int, off + 4)),
{
    let len: usize = data.len();
    assert(off < len);
    let chunk = vstd::slice::slice_subrange(data, off, off + 4);
    u32_from_le_bytes(chunk)
}

/// Read a packed `Point3f` at byte offset `off` of `data`.
pub fn read_point(data: &[u8], off: usize) -> (p: Point3f)
    requires
        off + POINT_SIZE <= data@.len(),
    ensures
        p == point_of_bytes(data@.subrange(off as int, off + POINT_SIZE)),
{
    let len: usize = data.len();
    assert(off < len);
    let p = Point3f {
        x: read_component(data, off),
        y: read_component(data, off + 4),
        z: read_component(data, off + 8),
    };
    proof {
        let s = data@.subrange(off as int, off + POINT_SIZE);
        assert(s.subrange(0, 4) =~= data@.subrange(off as int, off + 4));
        assert(s.subrange(4, 8) =~= data@.subrange(off + 4, off + 8));
        assert(s.subrange(8, 12) =~= data@.subrange(off + 8, off + 12));
    }
    p
}

/// Read a packed `Vector3f` at byte offset `off` of `data`.
pub fn read_vector(data: &[u8], off: usize) -> (v: Vector3f)
    requires
        off + VECTOR_SIZE <= data@.len(),
    ensures
        v == vector_of_bytes(data@.subrange(off as int, off + VECTOR_SIZE)),
{
    let len: usize = data.len();
    assert(off < len);
    let v = Vector3f {
        x: read_component(data, off),
        y: read_component(data, off + 4),
        z: read_component(data, off + 8),
    };
    proof {
        let s = data@.subrange(off as int, off + VECTOR_SIZE);
        assert(s.subrange(0, 4) =~= data@.subrange(off as int, off + 4));
        assert(s.subrange(4, 8) =~= data@.subrange(off + 4, off + 8));
        assert(s.subrange(8, 12) =~= data@.subrange(off + 8, off + 12));
    }
    v
}

/// Read a packed `TexCoord` at byte offset `off` of `data`.
pub fn read_texcoord(data: &[u8], off: usize) -> (t: TexCoord)
    requires
        off + TEXCOORD_SIZE <= data@.len(),
    ensures
        t == texcoord_of_bytes(data@.subrange(off as int, off + TEXCOORD_SIZE)),
{
    let len: usize = data.len();
    assert(off < len);
    let t = TexCoord { u: read_component(data, off), v: read_component(data, off + 4) };
    proof {
        let s = data@.subrange(off as int, off + TEXCOORD_SIZE);
        assert(s.subrange(0, 4) =~= data@.subrange(off as int, off + 4));
        assert(s.subrange(4, 8) =~= data@.subrange(off + 4, off + 8));
    }
    t
}

/// Read a packed `Vertex` record at byte offset `off` of `data`.
pub fn read_vertex(data: &[u8], off: usize) -> (w: Vertex)
    requires
        off + VERTEX_SIZE <= data@.len(),
    ensures
        w == vertex_of_bytes(data@.subrange(off as int, off + VERTEX_SIZE)),
{
    let len: usize = data.len();
    assert(off < len);
    let w = Vertex {
        position: read_point(data, off),
        normal: read_vector(data, off + 12),
        uv: read_texcoord(data, off + 24),
    };
    proof {
        let s = data@.subrange(off as int, off + VERTEX_SIZE);
        assert(s.subrange(0, 12) =~= data@.subrange(off as int, off + 12));
        assert(s.subrange(12, 24) =~= data@.subrange(off + 12, off + 24));
        assert(s.subrange(24, 32) =~= data@.subrange(off + 24, off + 32));
    }
    w
}

} // verus!
