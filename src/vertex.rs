//! The vertex record of the pipeline and the triangles made of it.

use vstd::prelude::*;

use crate::command::GlCommand;
use crate::data::{f32_f32_f32, u2_u10_u10_u10_rev_float, AttribFormat};
use crate::layout::{
    derive_layout, layout_commands, layout_of, offset_of, record_size, register_layout,
    AttribBinding,
};

verus! {

/// Byte size of one [`VertexData`].
pub const VERTEX_SIZE: usize = 28;

/// One vertex: position, packed color and surface normal, tightly packed in
/// that order.
#[derive(Clone, Copy, Debug, PartialEq, Eq, Structural)]
pub struct VertexData {
    pub pos: f32_f32_f32,
    pub clr: u2_u10_u10_u10_rev_float,
    pub norm: f32_f32_f32,
}

impl VertexData {
    /// The fields of the record, in declaration order.
    pub open spec fn spec_fields() -> Seq<AttribFormat> {
        seq![
            f32_f32_f32::spec_format(),
            u2_u10_u10_u10_rev_float::spec_format(),
            f32_f32_f32::spec_format(),
        ]
    }

    pub fn fields() -> (r: Vec<AttribFormat>)
        ensures
            r@ == Self::spec_fields(),
    {
        let mut v: Vec<AttribFormat> = Vec::new();
        v.push(f32_f32_f32::format());
        v.push(u2_u10_u10_u10_rev_float::format());
        v.push(f32_f32_f32::format());
        assert(v@ =~= Self::spec_fields());
        v
    }

    /// The encoding of the record: its fields' encodings, in order.
    pub open spec fn bytes(self) -> Seq<u8> {
        self.pos.bytes() + self.clr.bytes() + self.norm.bytes()
    }

    pub fn write_bytes(&self, out: &mut Vec<u8>)
        ensures
            final(out)@ == old(out)@ + self.bytes(),
    {
        self.pos.write_bytes(out);
        self.clr.write_bytes(out);
        self.norm.write_bytes(out);
        assert(out@ =~= old(out)@ + self.bytes());
    }

    /// Registers the record's layout with the driver against the bound buffer.
    pub fn vertex_attrib_pointers(cmds: &mut Vec<GlCommand>)
        ensures
            final(cmds)@ == old(cmds)@ + layout_commands(layout_of(Self::spec_fields())),
    {
        let fields = Self::fields();
        proof {
            lemma_vertex_data_layout();
        }
        match derive_layout(&fields) {
            Ok(bindings) => register_layout(cmds, &bindings),
            Err(_) => {},
        }
    }
}

/// The layout of [`VertexData`]: offsets 0, 12 and 16 at locations 0, 1 and
/// 2, with a stride of 28 bytes.
pub proof fn lemma_vertex_data_layout()
    ensures
        record_size(VertexData::spec_fields()) == VERTEX_SIZE,
        layout_of(VertexData::spec_fields()) == seq![
            AttribBinding { location: 0, format: f32_f32_f32::spec_format(), stride: 28, offset: 0 },
            AttribBinding {
                location: 1,
                format: u2_u10_u10_u10_rev_float::spec_format(),
                stride: 28,
                offset: 12,
            },
            AttribBinding { location: 2, format: f32_f32_f32::spec_format(), stride: 28, offset: 16 },
        ],
{
    let f = VertexData::spec_fields();
    assert(offset_of(f, 0) == 0);
    assert(offset_of(f, 1) == 12);
    assert(offset_of(f, 2) == 16);
    assert(offset_of(f, 3) == 28);
    assert(layout_of(f) =~= seq![
        AttribBinding { location: 0, format: f32_f32_f32::spec_format(), stride: 28, offset: 0 },
        AttribBinding {
            location: 1,
            format: u2_u10_u10_u10_rev_float::spec_format(),
            stride: 28,
            offset: 12,
        },
        AttribBinding { location: 2, format: f32_f32_f32::spec_format(), stride: 28, offset: 16 },
    ]);
}

/// The encoding of a batch of vertices: each vertex's encoding, in order.
pub open spec fn vertices_bytes(vs: Seq<VertexData>) -> Seq<u8>
    decreases vs.len(),
{
    if vs.len() == 0 {
        seq![]
    } else {
        vertices_bytes(vs.drop_last()) + vs.last().bytes()
    }
}

/// A vertex takes exactly [`VERTEX_SIZE`] bytes.
pub proof fn lemma_vertices_bytes_len(vs: Seq<VertexData>)
    ensures
        vertices_bytes(vs).len() == VERTEX_SIZE * vs.len(),
    decreases vs.len(),
{
    if vs.len() > 0 {
        lemma_vertices_bytes_len(vs.drop_last());
    }
}

/// Packs a batch of vertices for upload.
pub fn vertices_to_bytes(vs: &Vec<VertexData>) -> (r: Vec<u8>)
    ensures
        r@ == vertices_bytes(vs@),
        r@.len() == VERTEX_SIZE * vs@.len(),
{
    let mut out: Vec<u8> = Vec::new();
    let mut i: usize = 0;
    while i < vs.len()
        invariant
            i <= vs@.len(),
            out@ == vertices_bytes(vs@.take(i as int)),
        decreases vs@.len() - i,
    {
        vs[i].write_bytes(&mut out);
        proof {
            let t = vs@.take(i as int + 1);
            assert(t.drop_last() =~= vs@.take(i as int));
        }
        i = i + 1;
    }
    assert(vs@.take(i as int) =~= vs@);
    proof {
        lemma_vertices_bytes_len(vs@);
    }
    out
}

/// Three vertices drawn as one triangle.
#[derive(Clone, Copy, Debug, PartialEq, Eq, Structural)]
pub struct Triangle {
    pub a: VertexData,
    pub b: VertexData,
    pub c: VertexData,
}

impl Triangle {
    pub fn vertices(&self) -> (r: Vec<VertexData>)
        ensures
            r@ == seq![self.a, self.b, self.c],
    {
        let mut v: Vec<VertexData> = Vec::new();
        v.push(self.a);
        v.push(self.b);
        v.push(self.c);
        assert(v@ =~= seq![self.a, self.b, self.c]);
        v
    }
}

/// The vertices of the triangles, three per triangle, in order.
pub open spec fn triangles_vertices(ts: Seq<Triangle>) -> Seq<VertexData>
    decreases ts.len(),
{
    if ts.len() == 0 {
        seq![]
    } else {
        let t = ts.last();
        triangles_vertices(ts.drop_last()) + seq![t.a, t.b, t.c]
    }
}

/// Each triangle gives three vertices.
pub proof fn lemma_triangles_vertices_len(ts: Seq<Triangle>)
    ensures
        triangles_vertices(ts).len() == 3 * ts.len(),
    decreases ts.len(),
{
    if ts.len() > 0 {
        lemma_triangles_vertices_len(ts.drop_last());
    }
}

/// Lists the vertices of the triangles, in order.
pub fn flatten_triangles(ts: &Vec<Triangle>) -> (r: Vec<VertexData>)
    ensures
        r@ == triangles_vertices(ts@),
        r@.len() == 3 * ts@.len(),
{
    let mut out: Vec<VertexData> = Vec::new();
    let mut i: usize = 0;
    while i < ts.len()
        invariant
            i <= ts@.len(),
            out@ == triangles_vertices(ts@.take(i as int)),
        decreases ts@.len() - i,
    {
        let t = ts[i];
        out.push(t.a);
        out.push(t.b);
        out.push(t.c);
        proof {
            let s = ts@.take(i as int + 1);
            assert(s.drop_last() =~= ts@.take(i as int));
            assert(out@ =~= triangles_vertices(s));
        }
        i = i + 1;
    }
    assert(ts@.take(i as int) =~= ts@);
    proof {
        lemma_triangles_vertices_len(ts@);
    }
    out
}

} // verus!
