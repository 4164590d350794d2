//! Packing and unpacking of raw byte blobs.
//!
//! A raw blob is the concatenation of fixed-size packed records with no
//! padding in between. This module defines the blob layout as a spec-level
//! function, proves that packing and unpacking invert each other, and
//! provides the executable packers and unpackers used by the codec.

use vstd::prelude::*;
use vstd::arithmetic::div_mod::{
    lemma_fundamental_div_mod, lemma_fundamental_div_mod_converse, lemma_mod_multiples_basic,
};
use vstd::arithmetic::mul::{
    lemma_mul_inequality, lemma_mul_is_distributive_add_other_way,
};
use crate::error::{ProtocolError, ProtocolResult};
use crate::geometry::{
    Point3f, TexCoord, Vector3f, Vertex, POINT_SIZE, TEXCOORD_SIZE, VECTOR_SIZE, VERTEX_SIZE,
    point_bytes, point_of_bytes, texcoord_bytes, texcoord_of_bytes, vector_bytes,
    vector_of_bytes, vertex_bytes, vertex_of_bytes, lemma_record_bytes_len,
    lemma_point_round_trip, lemma_texcoord_round_trip, lemma_vector_round_trip,
    lemma_vertex_round_trip, push_point_bytes, push_texcoord_bytes, push_vector_bytes,
    push_vertex_bytes, read_point, read_texcoord, read_vector, read_vertex,
};

verus! {

/// Every record in `rs` is exactly `size` bytes.
pub open spec fn records_wf(rs: Seq<Seq<u8>>, size: int) -> bool {
    forall|i: int| 0 <= i < rs.len() ==> (#[trigger] rs[i]).len() == size
}

/// The concatenation of the records of `rs`, each `size` bytes, with no
/// padding in between: byte `i` of the blob is byte `i % size` of record
/// `i / size`.
pub open spec fn records_blob(rs: Seq<Seq<u8>>, size: int) -> Seq<u8>
    recommends
        size > 0,
        records_wf(rs, size),
{
    Seq::new((rs.len() * size) as nat, |i: int| rs[i / size][i % size])
}

/// Appending one record to the sequence appends its bytes to the blob.
pub proof fn lemma_records_blob_push(rs: Seq<Seq<u8>>, size: int, r: Seq<u8>)
    requires
        size > 0,
        records_wf(rs, size),
        r.len() == size,
    ensures
        records_blob(rs.push(r), size) == records_blob(rs, size) + r,
{
    let n = rs.len() as int;
    lemma_mul_is_distributive_add_other_way(size, n, 1);
    let a = records_blob(rs.push(r), size);
    let b = records_blob(rs, size) + r;
    assert(a.len() == b.len());
    assert forall|i: int| 0 <= i < a.len() implies a[i] == b[i] by {
        lemma_fundamental_div_mod(i, size);
        let q = i / size;
        let rem = i % size;
        if i < n * size {
            if q >= n {
                lemma_mul_inequality(n, q, size);
                assert(false);
            }
            assert(rs.push(r)[q] == rs[q]);
        } else {
            lemma_fundamental_div_mod_converse(i, size, n, i - n * size);
            assert(q == n && rem == i - n * size);
            assert(rs.push(r)[q] == r);
        }
    }
    assert(a =~= b);
}

/// Record `k` occupies bytes `k * size .. k * size + size` of the blob.
pub proof fn lemma_records_blob_subrange(rs: Seq<Seq<u8>>, size: int, k: int)
    requires
        size > 0,
        records_wf(rs, size),
        0 <= k < rs.len(),
    ensures
        records_blob(rs, size).subrange(k * size, k * size + size) == rs[k],
{
    let blob = records_blob(rs, size);
    lemma_mul_inequality(k + 1, rs.len() as int, size);
    lemma_mul_is_distributive_add_other_way(size, k, 1);
    assert(k * size + size <= blob.len());
    let part = blob.subrange(k * size, k * size + size);
    assert forall|j: int| 0 <= j < size implies part[j] == rs[k][j] by {
        lemma_fundamental_div_mod_converse(k * size + j, size, k, j);
        assert(blob[k * size + j] == rs[k][j]);
    }
    assert(part =~= rs[k]);
}

/// The packed bytes of a sequence of `Point3f` records.
pub open spec fn points_blob(ps: Seq<Point3f>) -> Seq<u8> {
    records_blob(ps.map_values(|p: Point3f| point_bytes(p)), POINT_SIZE as int)
}

/// The packed bytes of a sequence of `Vector3f` records.
pub open spec fn vectors_blob(vs: Seq<Vector3f>) -> Seq<u8> {
    records_blob(vs.map_values(|v: Vector3f| vector_bytes(v)), VECTOR_SIZE as int)
}

/// The packed bytes of a sequence of `TexCoord` records.
pub open spec fn texcoords_blob(ts: Seq<TexCoord>) -> Seq<u8> {
    records_blob(ts.map_values(|t: TexCoord| texcoord_bytes(t)), TEXCOORD_SIZE as int)
}

/// The packed bytes of a sequence of full `Vertex` records.
pub open spec fn vertices_blob(ws: Seq<Vertex>) -> Seq<u8> {
    records_blob(ws.map_values(|w: Vertex| vertex_bytes(w)), VERTEX_SIZE as int)
}

/// The `Point3f` records read back from a blob, one per 12 bytes.
pub open spec fn points_of_blob(b: Seq<u8>) -> Seq<Point3f>
    recommends
        b.len() as int % (POINT_SIZE as int) == 0,
{
    Seq::new(b.len() / (POINT_SIZE as nat), |i: int| point_of_bytes(b.subrange(i * 12, i * 12 + 12)))
}

/// The `Vector3f` records read back from a blob, one per 12 bytes.
pub open spec fn vectors_of_blob(b: Seq<u8>) -> Seq<Vector3f>
    recommends
        b.len() as int % (VECTOR_SIZE as int) == 0,
{
    Seq::new(b.len() / (VECTOR_SIZE as nat), |i: int| vector_of_bytes(b.subrange(i * 12, i * 12 + 12)))
}

/// The `TexCoord` records read back from a blob, one per 8 bytes.
pub open spec fn texcoords_of_blob(b: Seq<u8>) -> Seq<TexCoord>
    recommends
        b.len() as int % (TEXCOORD_SIZE as int) == 0,
{
    Seq::new(b.len() / (TEXCOORD_SIZE as nat), |i: int| texcoord_of_bytes(b.subrange(i * 8, i * 8 + 8)))
}

/// The `Vertex` records read back from a blob, one per 32 bytes.
pub open spec fn vertices_of_blob(b: Seq<u8>) -> Seq<Vertex>
    recommends
        b.len() as int % (VERTEX_SIZE as int) == 0,
{
    Seq::new(b.len() / (VERTEX_SIZE as nat), |i: int| vertex_of_bytes(b.subrange(i * 32, i * 32 + 32)))
}

/// The mapped record sequences are well formed: each packed record has its
/// fixed size.
proof fn lemma_mapped_records_wf(ps: Seq<Point3f>, vs: Seq<Vector3f>, ts: Seq<TexCoord>, ws: Seq<Vertex>)
    ensures
        records_wf(ps.map_values(|p: Point3f| point_bytes(p)), POINT_SIZE as int),
        records_wf(vs.map_values(|v: Vector3f| vector_bytes(v)), VECTOR_SIZE as int),
        records_wf(ts.map_values(|t: TexCoord| texcoord_bytes(t)), TEXCOORD_SIZE as int),
        records_wf(ws.map_values(|w: Vertex| vertex_bytes(w)), VERTEX_SIZE as int),
{
    let mp = ps.map_values(|p: Point3f| point_bytes(p));
    assert forall|i: int| 0 <= i < mp.len() implies (#[trigger] mp[i]).len() == POINT_SIZE as int by {
        lemma_record_bytes_len(ps[i], Vector3f { x: 0, y: 0, z: 0 }, TexCoord { u: 0, v: 0 },
            Vertex { position: ps[i], normal: Vector3f { x: 0, y: 0, z: 0 }, uv: TexCoord { u: 0, v: 0 } });
    }
    let mv = vs.map_values(|v: Vector3f| vector_bytes(v));
    assert forall|i: int| 0 <= i < mv.len() implies (#[trigger] mv[i]).len() == VECTOR_SIZE as int by {
        lemma_record_bytes_len(Point3f { x: 0, y: 0, z: 0 }, vs[i], TexCoord { u: 0, v: 0 },
            Vertex { position: Point3f { x: 0, y: 0, z: 0 }, normal: vs[i], uv: TexCoord { u: 0, v: 0 } });
    }
    let mt = ts.map_values(|t: TexCoord| texcoord_bytes(t));
    assert forall|i: int| 0 <= i < mt.len() implies (#[trigger] mt[i]).len() == TEXCOORD_SIZE as int by {
        lemma_record_bytes_len(Point3f { x: 0, y: 0, z: 0 }, Vector3f { x: 0, y: 0, z: 0 }, ts[i],
            Vertex { position: Point3f { x: 0, y: 0, z: 0 }, normal: Vector3f { x: 0, y: 0, z: 0 }, uv: ts[i] });
    }
    let mw = ws.map_values(|w: Vertex| vertex_bytes(w));
    assert forall|i: int| 0 <= i < mw.len() implies (#[trigger] mw[i]).len() == VERTEX_SIZE as int by {
        lemma_record_bytes_len(ws[i].position, ws[i].normal, ws[i].uv, ws[i]);
    }
}

/// A blob of packed `Vertex` records has a length that is the exact multiple
/// of the record size, and unpacking it restores every record exactly.
pub proof fn lemma_vertices_blob_round_trip(ws: Seq<Vertex>)
    ensures
        vertices_blob(ws).len() == ws.len() * (VERTEX_SIZE as int),
        vertices_blob(ws).len() as int % (VERTEX_SIZE as int) == 0,
        vertices_of_blob(vertices_blob(ws)) == ws,
{
    let empty: Seq<Point3f> = Seq::empty();
    lemma_mapped_records_wf(empty, Seq::empty(), Seq::empty(), ws);
    let mapped = ws.map_values(|w: Vertex| vertex_bytes(w));
    let blob = vertices_blob(ws);
    lemma_mod_multiples_basic(ws.len() as int, VERTEX_SIZE as int);
    let back = vertices_of_blob(blob);
    vstd::arithmetic::div_mod::lemma_div_multiples_vanish(ws.len() as int, VERTEX_SIZE as int);
    assert(back.len() == ws.len());
    assert forall|i: int| 0 <= i < ws.len() implies back[i] == ws[i] by {
        lemma_records_blob_subrange(mapped, VERTEX_SIZE as int, i);
        assert(blob.subrange(i * 32, i * 32 + 32) == vertex_bytes(ws[i]));
        lemma_vertex_round_trip(ws[i]);
    }
    assert(back =~= ws);
}

/// A blob of packed `Point3f` records has a length that is the exact
/// multiple of the record size, and unpacking it restores every record.
pub proof fn lemma_points_blob_round_trip(ps: Seq<Point3f>)
    ensures
        points_blob(ps).len() == ps.len() * (POINT_SIZE as int),
        points_blob(ps).len() as int % (POINT_SIZE as int) == 0,
        points_of_blob(points_blob(ps)) == ps,
{
    lemma_mapped_records_wf(ps, Seq::empty(), Seq::empty(), Seq::empty());
    let mapped = ps.map_values(|p: Point3f| point_bytes(p));
    let blob = points_blob(ps);
    lemma_mod_multiples_basic(ps.len() as int, POINT_SIZE as int);
    let back = points_of_blob(blob);
    vstd::arithmetic::div_mod::lemma_div_multiples_vanish(ps.len() as int, POINT_SIZE as int);
    assert(back.len() == ps.len());
    assert forall|i: int| 0 <= i < ps.len() implies back[i] == ps[i] by {
        lemma_records_blob_subrange(mapped, POINT_SIZE as int, i);
        assert(blob.subrange(i * 12, i * 12 + 12) == point_bytes(ps[i]));
        lemma_point_round_trip(ps[i]);
    }
    assert(back =~= ps);
}

/// A blob of packed `Vector3f` records has a length that is the exact
/// multiple of the record size, and unpacking it restores every record.
pub proof fn lemma_vectors_blob_round_trip(vs: Seq<Vector3f>)
    ensures
        vectors_blob(vs).len() == vs.len() * (VECTOR_SIZE as int),
        vectors_blob(vs).len() as int % (VECTOR_SIZE as int) == 0,
        vectors_of_blob(vectors_blob(vs)) == vs,
{
    lemma_mapped_records_wf(Seq::empty(), vs, Seq::empty(), Seq::empty());
    let mapped = vs.map_values(|v: Vector3f| vector_bytes(v));
    let blob = vectors_blob(vs);
    lemma_mod_multiples_basic(vs.len() as int, VECTOR_SIZE as int);
    let back = vectors_of_blob(blob);
    vstd::arithmetic::div_mod::lemma_div_multiples_vanish(vs.len() as int, VECTOR_SIZE as int);
    assert(back.len() == vs.len());
    assert forall|i: int| 0 <= i < vs.len() implies back[i] == vs[i] by {
        lemma_records_blob_subrange(mapped, VECTOR_SIZE as int, i);
        assert(blob.subrange(i * 12, i * 12 + 12) == vector_bytes(vs[i]));
        lemma_vector_round_trip(vs[i]);
    }
    assert(back =~= vs);
}

/// A blob of packed `TexCoord` records has a length that is the exact
/// multiple of the record size, and unpacking it restores every record.
pub proof fn lemma_texcoords_blob_round_trip(ts: Seq<TexCoord>)
    ensures
        texcoords_blob(ts).len() == ts.len() * (TEXCOORD_SIZE as int),
        texcoords_blob(ts).len() as int % (TEXCOORD_SIZE as int) == 0,
        texcoords_of_blob(texcoords_blob(ts)) == ts,
{
    lemma_mapped_records_wf(Seq::empty(), Seq::empty(), ts, Seq::empty());
    let mapped = ts.map_values(|t: TexCoord| texcoord_bytes(t));
    let blob = texcoords_blob(ts);
    lemma_mod_multiples_basic(ts.len() as int, TEXCOORD_SIZE as int);
    let back = texcoords_of_blob(blob);
    vstd::arithmetic::div_mod::lemma_div_multiples_vanish(ts.len() as int, TEXCOORD_SIZE as int);
    assert(back.len() == ts.len());
    assert forall|i: int| 0 <= i < ts.len() implies back[i] == ts[i] by {
        lemma_records_blob_subrange(mapped, TEXCOORD_SIZE as int, i);
        assert(blob.subrange(i * 8, i * 8 + 8) == texcoord_bytes(ts[i]));
        lemma_texcoord_round_trip(ts[i]);
    }
    assert(back =~= ts);
}

/// Pack a vertex sequence into one contiguous raw blob.
pub fn pack_vertices(ws: &Vec<Vertex>) -> (out: Vec<u8>)
    requires
        ws@.len() * (VERTEX_SIZE as int) <= usize::MAX,
    ensures
        out@ == vertices_blob(ws@),
{
    let mut out: Vec<u8> = Vec::new();
    let mut i: usize = 0;
    while i < ws.len()
        invariant
            i <= ws@.len(),
            ws@.len() * (VERTEX_SIZE as int) <= usize::MAX,
            out@ == vertices_blob(ws@.take(i as int)),
        decreases ws@.len() - i,
    {
        let w = ws[i];
        proof {
            lemma_mapped_records_wf(Seq::empty(), Seq::empty(), Seq::empty(), ws@.take(i as int));
            lemma_vertices_blob_round_trip(ws@.take(i as int));
            lemma_mul_inequality(i as int + 1, ws@.len() as int, VERTEX_SIZE as int);
            lemma_mul_is_distributive_add_other_way(VERTEX_SIZE as int, i as int, 1);
        }
        push_vertex_bytes(&mut out, &w);
        proof {
            lemma_record_bytes_len(w.position, w.normal, w.uv, w);
            lemma_records_blob_push(
                ws@.take(i as int).map_values(|x: Vertex| vertex_bytes(x)),
                VERTEX_SIZE as int,
                vertex_bytes(w),
            );
            assert(ws@.take(i as int + 1).map_values(|x: Vertex| vertex_bytes(x)) =~= ws@.take(
                i as int,
            ).map_values(|x: Vertex| vertex_bytes(x)).push(vertex_bytes(w)));
        }
        i += 1;
    }
    proof {
        assert(ws@.take(ws@.len() as int) =~= ws@);
    }
    out
}

/// Pack a position sequence into one contiguous raw blob.
pub fn pack_points(ps: &Vec<Point3f>) -> (out: Vec<u8>)
    requires
        ps@.len() * (POINT_SIZE as int) <= usize::MAX,
    ensures
        out@ == points_blob(ps@),
{
    let mut out: Vec<u8> = Vec::new();
    let mut i: usize = 0;
    while i < ps.len()
        invariant
            i <= ps@.len(),
            ps@.len() * (POINT_SIZE as int) <= usize::MAX,
            out@ == points_blob(ps@.take(i as int)),
        decreases ps@.len() - i,
    {
        let p = ps[i];
        proof {
            lemma_points_blob_round_trip(ps@.take(i as int));
            lemma_mul_inequality(i as int + 1, ps@.len() as int, POINT_SIZE as int);
            lemma_mul_is_distributive_add_other_way(POINT_SIZE as int, i as int, 1);
            lemma_mapped_records_wf(ps@.take(i as int), Seq::empty(), Seq::empty(), Seq::empty());
        }
        push_point_bytes(&mut out, &p);
        proof {
            lemma_record_bytes_len(p, Vector3f { x: 0, y: 0, z: 0 }, TexCoord { u: 0, v: 0 },
                Vertex { position: p, normal: Vector3f { x: 0, y: 0, z: 0 }, uv: TexCoord { u: 0, v: 0 } });
            lemma_records_blob_push(
                ps@.take(i as int).map_values(|x: Point3f| point_bytes(x)),
                POINT_SIZE as int,
                point_bytes(p),
            );
            assert(ps@.take(i as int + 1).map_values(|x: Point3f| point_bytes(x)) =~= ps@.take(
                i as int,
            ).map_values(|x: Point3f| point_bytes(x)).push(point_bytes(p)));
        }
        i += 1;
    }
    proof {
        assert(ps@.take(ps@.len() as int) =~= ps@);
    }
    out
}

/// Pack a normal sequence into one contiguous raw blob.
pub fn pack_vectors(vs: &Vec<Vector3f>) -> (out: Vec<u8>)
    requires
        vs@.len() * (VECTOR_SIZE as int) <= usize::MAX,
    ensures
        out@ == vectors_blob(vs@),
{
    let mut out: Vec<u8> = Vec::new();
    let mut i: usize = 0;
    while i < vs.len()
        invariant
            i <= vs@.len(),
            vs@.len() * (VECTOR_SIZE as int) <= usize::MAX,
            out@ == vectors_blob(vs@.take(i as int)),
        decreases vs@.len() - i,
    {
        let v = vs[i];
        proof {
            lemma_vectors_blob_round_trip(vs@.take(i as int));
            lemma_mul_inequality(i as int + 1, vs@.len() as int, VECTOR_SIZE as int);
            lemma_mul_is_distributive_add_other_way(VECTOR_SIZE as int, i as int, 1);
            lemma_mapped_records_wf(Seq::empty(), vs@.take(i as int), Seq::empty(), Seq::empty());
        }
        push_vector_bytes(&mut out, &v);
        proof {
            lemma_record_bytes_len(Point3f { x: 0, y: 0, z: 0 }, v, TexCoord { u: 0, v: 0 },
                Vertex { position: Point3f { x: 0, y: 0, z: 0 }, normal: v, uv: TexCoord { u: 0, v: 0 } });
            lemma_records_blob_push(
                vs@.take(i as int).map_values(|x: Vector3f| vector_bytes(x)),
                VECTOR_SIZE as int,
                vector_bytes(v),
            );
            assert(vs@.take(i as int + 1).map_values(|x: Vector3f| vector_bytes(x)) =~= vs@.take(
                i as int,
            ).map_values(|x: Vector3f| vector_bytes(x)).push(vector_bytes(v)));
        }
        i += 1;
    }
    proof {
        assert(vs@.take(vs@.len() as int) =~= vs@);
    }
    out
}

/// Pack a texture-coordinate sequence into one contiguous raw blob.
pub fn pack_texcoords(ts: &Vec<TexCoord>) -> (out: Vec<u8>)
    requires
        ts@.len() * (TEXCOORD_SIZE as int) <= usize::MAX,
    ensures
        out@ == texcoords_blob(ts@),
{
    let mut out: Vec<u8> = Vec::new();
    let mut i: usize = 0;
    while i < ts.len()
        invariant
            i <= ts@.len(),
            ts@.len() * (TEXCOORD_SIZE as int) <= usize::MAX,
            out@ == texcoords_blob(ts@.take(i as int)),
        decreases ts@.len() - i,
    {
        let t = ts[i];
        proof {
            lemma_texcoords_blob_round_trip(ts@.take(i as int));
            lemma_mul_inequality(i as int + 1, ts@.len() as int, TEXCOORD_SIZE as int);
            lemma_mul_is_distributive_add_other_way(TEXCOORD_SIZE as int, i as int, 1);
            lemma_mapped_records_wf(Seq::empty(), Seq::empty(), ts@.take(i as int), Seq::empty());
        }
        push_texcoord_bytes(&mut out, &t);
        proof {
            lemma_record_bytes_len(Point3f { x: 0, y: 0, z: 0 }, Vector3f { x: 0, y: 0, z: 0 }, t,
                Vertex { position: Point3f { x: 0, y: 0, z: 0 }, normal: Vector3f { x: 0, y: 0, z: 0 }, uv: t });
            lemma_records_blob_push(
                ts@.take(i as int).map_values(|x: TexCoord| texcoord_bytes(x)),
                TEXCOORD_SIZE as int,
                texcoord_bytes(t),
            );
            assert(ts@.take(i as int + 1).map_values(|x: TexCoord| texcoord_bytes(x)) =~= ts@.take(
                i as int,
            ).map_values(|x: TexCoord| texcoord_bytes(x)).push(texcoord_bytes(t)));
        }
        i += 1;
    }
    proof {
        assert(ts@.take(ts@.len() as int) =~= ts@);
    }
    out
}

/// Unpack a raw blob into `Vertex` records, validating that the blob length
/// is an exact multiple of the record size.
pub fn unpack_vertices(data: &Vec<u8>) -> (r: ProtocolResult<Vec<Vertex>>)
    ensures
        r is Ok <==> data@.len() as int % (VERTEX_SIZE as int) == 0,
        r matches Ok(ws) ==> ws@ == vertices_of_blob(data@),
        r matches Err(e) ==> e == ProtocolError::InvalidLength,
{
    let len: usize = data.len();
    if len % VERTEX_SIZE != 0 {
        return Err(ProtocolError::InvalidLength);
    }
    let n: usize = len / VERTEX_SIZE;
    proof {
        lemma_fundamental_div_mod(len as int, VERTEX_SIZE as int);
    }
    let mut out: Vec<Vertex> = Vec::with_capacity(n);
    let mut i: usize = 0;
    while i < n
        invariant
            i <= n,
            n * (VERTEX_SIZE as int) == data@.len(),
            data@.len() <= usize::MAX,
            out@ == vertices_of_blob(data@).take(i as int),
        decreases n - i,
    {
        proof {
            lemma_mul_inequality(i as int + 1, n as int, VERTEX_SIZE as int);
            lemma_mul_is_distributive_add_other_way(VERTEX_SIZE as int, i as int, 1);
        }
        let w = read_vertex(data.as_slice(), i * VERTEX_SIZE);
        out.push(w);
        proof {
            lemma_mod_multiples_basic(n as int, VERTEX_SIZE as int);
            vstd::arithmetic::div_mod::lemma_div_multiples_vanish(n as int, VERTEX_SIZE as int);
            assert(out@ =~= vertices_of_blob(data@).take(i as int + 1));
        }
        i += 1;
    }
    proof {
        lemma_mod_multiples_basic(n as int, VERTEX_SIZE as int);
        vstd::arithmetic::div_mod::lemma_div_multiples_vanish(n as int, VERTEX_SIZE as int);
        assert(vertices_of_blob(data@).take(n as int) =~= vertices_of_blob(data@));
    }
    Ok(out)
}

/// Unpack a raw blob into `Point3f` records, validating the blob length.
pub fn unpack_points(data: &Vec<u8>) -> (r: ProtocolResult<Vec<Point3f>>)
    ensures
        r is Ok <==> data@.len() as int % (POINT_SIZE as int) == 0,
        r matches Ok(ps) ==> ps@ == points_of_blob(data@),
        r matches Err(e) ==> e == ProtocolError::InvalidLength,
{
    let len: usize = data.len();
    if len % POINT_SIZE != 0 {
        return Err(ProtocolError::InvalidLength);
    }
    let n: usize = len / POINT_SIZE;
    proof {
        lemma_fundamental_div_mod(len as int, POINT_SIZE as int);
    }
    let mut out: Vec<Point3f> = Vec::with_capacity(n);
    let mut i: usize = 0;
    while i < n
        invariant
            i <= n,
            n * (POINT_SIZE as int) == data@.len(),
            data@.len() <= usize::MAX,
            out@ == points_of_blob(data@).take(i as int),
        decreases n - i,
    {
        proof {
            lemma_mul_inequality(i as int + 1, n as int, POINT_SIZE as int);
            lemma_mul_is_distributive_add_other_way(POINT_SIZE as int, i as int, 1);
        }
        let p = read_point(data.as_slice(), i * POINT_SIZE);
        out.push(p);
        proof {
            lemma_mod_multiples_basic(n as int, POINT_SIZE as int);
            vstd::arithmetic::div_mod::lemma_div_multiples_vanish(n as int, POINT_SIZE as int);
            assert(out@ =~= points_of_blob(data@).take(i as int + 1));
        }
        i += 1;
    }
    proof {
        lemma_mod_multiples_basic(n as int, POINT_SIZE as int);
        vstd::arithmetic::div_mod::lemma_div_multiples_vanish(n as int, POINT_SIZE as int);
        assert(points_of_blob(data@).take(n as int) =~= points_of_blob(data@));
    }
    Ok(out)
}

/// Unpack a raw blob into `Vector3f` records, validating the blob length.
pub fn unpack_vectors(data: &Vec<u8>) -> (r: ProtocolResult<Vec<Vector3f>>)
    ensures
        r is Ok <==> data@.len() as int % (VECTOR_SIZE as int) == 0,
        r matches Ok(vs) ==> vs@ == vectors_of_blob(data@),
        r matches Err(e) ==> e == ProtocolError::InvalidLength,
{
    let len: usize = data.len();
    if len % VECTOR_SIZE != 0 {
        return Err(ProtocolError::InvalidLength);
    }
    let n: usize = len / VECTOR_SIZE;
    proof {
        lemma_fundamental_div_mod(len as int, VECTOR_SIZE as int);
    }
    let mut out: Vec<Vector3f> = Vec::with_capacity(n);
    let mut i: usize = 0;
    while i < n
        invariant
            i <= n,
            n * (VECTOR_SIZE as int) == data@.len(),
            data@.len() <= usize::MAX,
            out@ == vectors_of_blob(data@).take(i as int),
        decreases n - i,
    {
        proof {
            lemma_mul_inequality(i as int + 1, n as int, VECTOR_SIZE as int);
            lemma_mul_is_distributive_add_other_way(VECTOR_SIZE as int, i as int, 1);
        }
        let v = read_vector(data.as_slice(), i * VECTOR_SIZE);
        out.push(v);
        proof {
            lemma_mod_multiples_basic(n as int, VECTOR_SIZE as int);
            vstd::arithmetic::div_mod::lemma_div_multiples_vanish(n as int, VECTOR_SIZE as int);
            assert(out@ =~= vectors_of_blob(data@).take(i as int + 1));
        }
        i += 1;
    }
    proof {
        lemma_mod_multiples_basic(n as int, VECTOR_SIZE as int);
        vstd::arithmetic::div_mod::lemma_div_multiples_vanish(n as int, VECTOR_SIZE as int);
        assert(vectors_of_blob(data@).take(n as int) =~= vectors_of_blob(data@));
    }
    Ok(out)
}

/// Unpack a raw blob into `TexCoord` records, validating the blob length.
pub fn unpack_texcoords(data: &Vec<u8>) -> (r: ProtocolResult<Vec<TexCoord>>)
    ensures
        r is Ok <==> data@.len() as int % (TEXCOORD_SIZE as int) == 0,
        r matches Ok(ts) ==> ts@ == texcoords_of_blob(data@),
        r matches Err(e) ==> e == ProtocolError::InvalidLength,
{
    let len: usize = data.len();
    if len % TEXCOORD_SIZE != 0 {
        return Err(ProtocolError::InvalidLength);
    }
    let n: usize = len / TEXCOORD_SIZE;
    proof {
        lemma_fundamental_div_mod(len as int, TEXCOORD_SIZE as int);
    }
    let mut out: Vec<TexCoord> = Vec::with_capacity(n);
    let mut i: usize = 0;
    while i < n
        invariant
            i <= n,
            n * (TEXCOORD_SIZE as int) == data@.len(),
            data@.len() <= usize::MAX,
            out@ == texcoords_of_blob(data@).take(i as int),
        decreases n - i,
    {
        proof {
            lemma_mul_inequality(i as int + 1, n as int, TEXCOORD_SIZE as int);
            lemma_mul_is_distributive_add_other_way(TEXCOORD_SIZE as int, i as int, 1);
        }
        let t = read_texcoord(data.as_slice(), i * TEXCOORD_SIZE);
        out.push(t);
        proof {
            lemma_mod_multiples_basic(n as int, TEXCOORD_SIZE as int);
            vstd::arithmetic::div_mod::lemma_div_multiples_vanish(n as int, TEXCOORD_SIZE as int);
            assert(out@ =~= texcoords_of_blob(data@).take(i as int + 1));
        }
        i += 1;
    }
    proof {
        lemma_mod_multiples_basic(n as int, TEXCOORD_SIZE as int);
        vstd::arithmetic::div_mod::lemma_div_multiples_vanish(n as int, TEXCOORD_SIZE as int);
        assert(texcoords_of_blob(data@).take(n as int) =~= texcoords_of_blob(data@));
    }
    Ok(out)
}

} // verus!
