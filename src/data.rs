//! Attribute codecs: the fixed-size binary encodings of the fields of a vertex
//! record, each with the description that the driver needs to read it.
//!
//! Floating-point components are held as their IEEE-754 binary32 bit patterns,
//! which is exactly what the driver reads; all words are laid out little-endian.

use vstd::prelude::*;

use crate::command::{GlCommand, ScalarKind};

verus! {

/// What the driver needs to know to read one field of a vertex record.
#[derive(Clone, Copy, Debug, PartialEq, Eq, Structural)]
pub struct AttribFormat {
    /// Number of scalar components of the attribute.
    pub components: u32,
    /// Storage kind of the components.
    pub kind: ScalarKind,
    /// Whether integer data is mapped to `[0, 1]` or `[-1, 1]` by the driver.
    pub normalized: bool,
    /// Byte size of the field inside the record.
    pub size: usize,
}

/// The four little-endian bytes of a 32-bit word.
pub open spec fn le_bytes(v: u32) -> Seq<u8> {
    seq![
        (v & 0xff) as u8,
        ((v >> 8u32) & 0xff) as u8,
        ((v >> 16u32) & 0xff) as u8,
        ((v >> 24u32) & 0xff) as u8,
    ]
}

/// The 32-bit word whose little-endian bytes are `b0, b1, b2, b3`.
pub open spec fn word_from_le(b0: u8, b1: u8, b2: u8, b3: u8) -> u32 {
    (b0 as u32) | ((b1 as u32) << 8u32) | ((b2 as u32) << 16u32) | ((b3 as u32) << 24u32)
}

/// The word read from four bytes of `s` starting at `at`.
pub open spec fn word_at(s: Seq<u8>, at: int) -> u32 {
    word_from_le(s[at], s[at + 1], s[at + 2], s[at + 3])
}

/// Reading back the bytes of a word gives the word.
pub proof fn lemma_word_round_trip(v: u32)
    ensures
        word_at(le_bytes(v), 0) == v,
{
    let b0 = (v & 0xff) as u8;
    let b1 = ((v >> 8u32) & 0xff) as u8;
    let b2 = ((v >> 16u32) & 0xff) as u8;
    let b3 = ((v >> 24u32) & 0xff) as u8;
    assert(word_from_le(b0, b1, b2, b3) == v) by (bit_vector)
        requires
            b0 == (v & 0xff) as u8,
            b1 == ((v >> 8u32) & 0xff) as u8,
            b2 == ((v >> 16u32) & 0xff) as u8,
            b3 == ((v >> 24u32) & 0xff) as u8,
    ;
}

/// Appends the little-endian bytes of `v`.
pub fn push_word(out: &mut Vec<u8>, v: u32)
    ensures
        final(out)@ == old(out)@ + le_bytes(v),
{
    out.push((v & 0xff) as u8);
    out.push(((v >> 8u32) & 0xff) as u8);
    out.push(((v >> 16u32) & 0xff) as u8);
    out.push(((v >> 24u32) & 0xff) as u8);
    assert(out@ =~= old(out)@ + le_bytes(v));
}

/// Reads the little-endian word at `at`.
pub fn read_word(bytes: &Vec<u8>, at: usize) -> (r: u32)
    requires
        at + 4 <= bytes@.len(),
    ensures
        r == word_at(bytes@, at as int),
{
    let len = bytes.len();
    assert(at + 4 <= len);
    (bytes[at] as u32) | ((bytes[at + 1] as u32) << 8u32) | ((bytes[at + 2] as u32) << 16u32)
        | ((bytes[at + 3] as u32) << 24u32)
}

/// Three 32-bit floats.
#[allow(non_camel_case_types)]
#[derive(Clone, Copy, Debug, PartialEq, Eq, Structural)]
pub struct f32_f32_f32 {
    pub d0: u32,
    pub d1: u32,
    pub d2: u32,
}

impl f32_f32_f32 {
    pub fn new(d0: u32, d1: u32, d2: u32) -> (r: f32_f32_f32)
        ensures
            r == (f32_f32_f32 { d0, d1, d2 }),
    {
        f32_f32_f32 { d0, d1, d2 }
    }

    pub open spec fn spec_format() -> AttribFormat {
        AttribFormat { components: 3, kind: ScalarKind::Float, normalized: false, size: 12 }
    }

    pub fn format() -> (r: AttribFormat)
        ensures
            r == Self::spec_format(),
    {
        AttribFormat { components: 3, kind: ScalarKind::Float, normalized: false, size: 12 }
    }

    /// The encoding: each float's word, in order.
    pub open spec fn bytes(self) -> Seq<u8> {
        le_bytes(self.d0) + le_bytes(self.d1) + le_bytes(self.d2)
    }

    /// The value encoded by the twelve bytes of `s` starting at `at`.
    pub open spec fn decode(s: Seq<u8>, at: int) -> f32_f32_f32 {
        f32_f32_f32 { d0: word_at(s, at), d1: word_at(s, at + 4), d2: word_at(s, at + 8) }
    }

    pub fn write_bytes(&self, out: &mut Vec<u8>)
        ensures
            final(out)@ == old(out)@ + self.bytes(),
    {
        push_word(out, self.d0);
        push_word(out, self.d1);
        push_word(out, self.d2);
        assert(out@ =~= old(out)@ + self.bytes());
    }

    pub fn read_bytes(bytes: &Vec<u8>, at: usize) -> (r: f32_f32_f32)
        requires
            at + 12 <= bytes@.len(),
        ensures
            r == Self::decode(bytes@, at as int),
    {
        let len = bytes.len();
        assert(at + 12 <= len);
        f32_f32_f32 {
            d0: read_word(bytes, at),
            d1: read_word(bytes, at + 4),
            d2: read_word(bytes, at + 8),
        }
    }

    /// Describes this field to the driver at `location`.
    pub fn vertex_attrib_pointer(
        cmds: &mut Vec<GlCommand>,
        stride: usize,
        location: u32,
        offset: usize,
    )
        ensures
            final(cmds)@ == old(cmds)@ + pointer_commands(
                Self::spec_format(),
                location,
                stride,
                offset,
            ),
    {
        attrib_pointer(cmds, Self::format(), stride, location, offset);
    }
}

/// Four 32-bit floats.
#[allow(non_camel_case_types)]
#[derive(Clone, Copy, Debug, PartialEq, Eq, Structural)]
pub struct f32_f32_f32_f32 {
    pub d0: u32,
    pub d1: u32,
    pub d2: u32,
    pub d3: u32,
}

impl f32_f32_f32_f32 {
    pub fn new(d0: u32, d1: u32, d2: u32, d3: u32) -> (r: f32_f32_f32_f32)
        ensures
            r == (f32_f32_f32_f32 { d0, d1, d2, d3 }),
    {
        f32_f32_f32_f32 { d0, d1, d2, d3 }
    }

    pub open spec fn spec_format() -> AttribFormat {
        AttribFormat { components: 4, kind: ScalarKind::Float, normalized: false, size: 16 }
    }

    pub fn format() -> (r: AttribFormat)
        ensures
            r == Self::spec_format(),
    {
        AttribFormat { components: 4, kind: ScalarKind::Float, normalized: false, size: 16 }
    }

    pub open spec fn bytes(self) -> Seq<u8> {
        le_bytes(self.d0) + le_bytes(self.d1) + le_bytes(self.d2) + le_bytes(self.d3)
    }

    pub open spec fn decode(s: Seq<u8>, at: int) -> f32_f32_f32_f32 {
        f32_f32_f32_f32 {
            d0: word_at(s, at),
            d1: word_at(s, at + 4),
            d2: word_at(s, at + 8),
            d3: word_at(s, at + 12),
        }
    }

    pub fn write_bytes(&self, out: &mut Vec<u8>)
        ensures
            final(out)@ == old(out)@ + self.bytes(),
    {
        push_word(out, self.d0);
        push_word(out, self.d1);
        push_word(out, self.d2);
        push_word(out, self.d3);
        assert(out@ =~= old(out)@ + self.bytes());
    }

    pub fn read_bytes(bytes: &Vec<u8>, at: usize) -> (r: f32_f32_f32_f32)
        requires
            at + 16 <= bytes@.len(),
        ensures
            r == Self::decode(bytes@, at as int),
    {
        let len = bytes.len();
        assert(at + 16 <= len);
        f32_f32_f32_f32 {
            d0: read_word(bytes, at),
            d1: read_word(bytes, at + 4),
            d2: read_word(bytes, at + 8),
            d3: read_word(bytes, at + 12),
        }
    }

    pub fn vertex_attrib_pointer(
        cmds: &mut Vec<GlCommand>,
        stride: usize,
        location: u32,
        offset: usize,
    )
        ensures
            final(cmds)@ == old(cmds)@ + pointer_commands(
                Self::spec_format(),
                location,
                stride,
                offset,
            ),
    {
        attrib_pointer(cmds, Self::format(), stride, location, offset);
    }
}

/// Largest level of a 10-bit channel.
pub const LEVEL_MAX_10: u32 = 1023;

/// Largest level of the 2-bit channel.
pub const LEVEL_MAX_2: u32 = 3;

/// The packed word of four channel levels: `x` in bits 0..10, `y` in 10..20,
/// `z` in 20..30 and `w` in 30..32.
pub open spec fn packed_word(x: u32, y: u32, z: u32, w: u32) -> u32 {
    (w << 30u32) | (z << 20u32) | (y << 10u32) | x
}

/// A color packed in one word as three 10-bit channels and a 2-bit alpha
/// (`GL_UNSIGNED_INT_2_10_10_10_REV`, normalized by the driver to `[0, 1]`).
#[allow(non_camel_case_types)]
#[derive(Clone, Copy, Debug, PartialEq, Eq, Structural)]
pub struct u2_u10_u10_u10_rev_float {
    pub raw: u32,
}

impl u2_u10_u10_u10_rev_float {
    pub fn from_raw(raw: u32) -> (r: u2_u10_u10_u10_rev_float)
        ensures
            r.raw == raw,
    {
        u2_u10_u10_u10_rev_float { raw }
    }

    /// Packs channel levels; a level `k` of a 10-bit channel stands for
    /// `k / 1023`, of the alpha channel for `k / 3`.
    pub fn from_levels(x: u32, y: u32, z: u32, w: u32) -> (r: u2_u10_u10_u10_rev_float)
        requires
            x <= LEVEL_MAX_10,
            y <= LEVEL_MAX_10,
            z <= LEVEL_MAX_10,
            w <= LEVEL_MAX_2,
        ensures
            r.raw == packed_word(x, y, z, w),
            r.x_level_spec() == x,
            r.y_level_spec() == y,
            r.z_level_spec() == z,
            r.w_level_spec() == w,
    {
        let raw = (w << 30u32) | (z << 20u32) | (y << 10u32) | x;
        proof {
            lemma_levels_round_trip(x, y, z, w);
        }
        u2_u10_u10_u10_rev_float { raw }
    }

    pub open spec fn x_level_spec(self) -> u32 {
        self.raw & 1023
    }

    pub open spec fn y_level_spec(self) -> u32 {
        (self.raw >> 10u32) & 1023
    }

    pub open spec fn z_level_spec(self) -> u32 {
        (self.raw >> 20u32) & 1023
    }

    pub open spec fn w_level_spec(self) -> u32 {
        (self.raw >> 30u32) & 3
    }

    pub fn x_level(&self) -> (r: u32)
        ensures
            r == self.x_level_spec(),
            r <= LEVEL_MAX_10,
    {
        let raw = self.raw;
        assert(raw & 1023 <= 1023) by (bit_vector);
        self.raw & 1023
    }

    pub fn y_level(&self) -> (r: u32)
        ensures
            r == self.y_level_spec(),
            r <= LEVEL_MAX_10,
    {
        let raw = self.raw;
        assert((raw >> 10u32) & 1023 <= 1023) by (bit_vector);
        (self.raw >> 10u32) & 1023
    }

    pub fn z_level(&self) -> (r: u32)
        ensures
            r == self.z_level_spec(),
            r <= LEVEL_MAX_10,
    {
        let raw = self.raw;
        assert((raw >> 20u32) & 1023 <= 1023) by (bit_vector);
        (self.raw >> 20u32) & 1023
    }

    pub fn w_level(&self) -> (r: u32)
        ensures
            r == self.w_level_spec(),
            r <= LEVEL_MAX_2,
    {
        let raw = self.raw;
        assert((raw >> 30u32) & 3 <= 3) by (bit_vector);
        (self.raw >> 30u32) & 3
    }

    pub open spec fn spec_format() -> AttribFormat {
        AttribFormat {
            components: 4,
            kind: ScalarKind::UnsignedInt2101010Rev,
            normalized: true,
            size: 4,
        }
    }

    pub fn format() -> (r: AttribFormat)
        ensures
            r == Self::spec_format(),
    {
        AttribFormat {
            components: 4,
            kind: ScalarKind::UnsignedInt2101010Rev,
            normalized: true,
            size: 4,
        }
    }

    pub open spec fn bytes(self) -> Seq<u8> {
        le_bytes(self.raw)
    }

    pub open spec fn decode(s: Seq<u8>, at: int) -> u2_u10_u10_u10_rev_float {
        u2_u10_u10_u10_rev_float { raw: word_at(s, at) }
    }

    pub fn write_bytes(&self, out: &mut Vec<u8>)
        ensures
            final(out)@ == old(out)@ + self.bytes(),
    {
        push_word(out, self.raw);
    }

    pub fn read_bytes(bytes: &Vec<u8>, at: usize) -> (r: u2_u10_u10_u10_rev_float)
        requires
            at + 4 <= bytes@.len(),
        ensures
            r == Self::decode(bytes@, at as int),
    {
        u2_u10_u10_u10_rev_float { raw: read_word(bytes, at) }
    }

    pub fn vertex_attrib_pointer(
        cmds: &mut Vec<GlCommand>,
        stride: usize,
        location: u32,
        offset: usize,
    )
        ensures
            final(cmds)@ == old(cmds)@ + pointer_commands(
                Self::spec_format(),
                location,
                stride,
                offset,
            ),
    {
        attrib_pointer(cmds, Self::format(), stride, location, offset);
    }
}

/// Packing levels and reading them back gives the same levels.
pub proof fn lemma_levels_round_trip(x: u32, y: u32, z: u32, w: u32)
    requires
        x <= LEVEL_MAX_10,
        y <= LEVEL_MAX_10,
        z <= LEVEL_MAX_10,
        w <= LEVEL_MAX_2,
    ensures
        ({
            let c = u2_u10_u10_u10_rev_float { raw: packed_word(x, y, z, w) };
            &&& c.x_level_spec() == x
            &&& c.y_level_spec() == y
            &&& c.z_level_spec() == z
            &&& c.w_level_spec() == w
        }),
{
    let p = packed_word(x, y, z, w);
    assert(p & 1023 == x && (p >> 10u32) & 1023 == y && (p >> 20u32) & 1023 == z && (p >> 30u32)
        & 3 == w) by (bit_vector)
        requires
            x <= 1023,
            y <= 1023,
            z <= 1023,
            w <= 3,
            p == (w << 30u32) | (z << 20u32) | (y << 10u32) | x,
    ;
}

/// One 32-bit float.
#[allow(non_camel_case_types)]
#[derive(Clone, Copy, Debug, PartialEq, Eq, Structural)]
pub struct f32_ {
    pub d0: u32,
}

impl f32_ {
    pub fn new(d0: u32) -> (r: f32_)
        ensures
            r.d0 == d0,
    {
        f32_ { d0 }
    }

    pub open spec fn spec_format() -> AttribFormat {
        AttribFormat { components: 1, kind: ScalarKind::Float, normalized: false, size: 4 }
    }

    pub fn format() -> (r: AttribFormat)
        ensures
            r == Self::spec_format(),
    {
        AttribFormat { components: 1, kind: ScalarKind::Float, normalized: false, size: 4 }
    }

    pub open spec fn bytes(self) -> Seq<u8> {
        le_bytes(self.d0)
    }

    pub fn write_bytes(&self, out: &mut Vec<u8>)
        ensures
            final(out)@ == old(out)@ + self.bytes(),
    {
        push_word(out, self.d0);
    }

    pub fn vertex_attrib_pointer(
        cmds: &mut Vec<GlCommand>,
        stride: usize,
        location: u32,
        offset: usize,
    )
        ensures
            final(cmds)@ == old(cmds)@ + pointer_commands(
                Self::spec_format(),
                location,
                stride,
                offset,
            ),
    {
        attrib_pointer(cmds, Self::format(), stride, location, offset);
    }
}

/// One signed byte, read by the driver as an integer.
#[allow(non_camel_case_types)]
#[derive(Clone, Copy, Debug, PartialEq, Eq, Structural)]
pub struct i8_ {
    pub d0: i8,
}

impl i8_ {
    pub fn new(d0: i8) -> (r: i8_)
        ensures
            r.d0 == d0,
    {
        i8_ { d0 }
    }

    pub open spec fn spec_format() -> AttribFormat {
        AttribFormat { components: 1, kind: ScalarKind::Byte, normalized: false, size: 1 }
    }

    pub fn format() -> (r: AttribFormat)
        ensures
            r == Self::spec_format(),
    {
        AttribFormat { components: 1, kind: ScalarKind::Byte, normalized: false, size: 1 }
    }

    pub open spec fn bytes(self) -> Seq<u8> {
        seq![self.d0 as u8]
    }

    pub fn write_bytes(&self, out: &mut Vec<u8>)
        ensures
            final(out)@ == old(out)@ + self.bytes(),
    {
        out.push(self.d0 as u8);
        assert(out@ =~= old(out)@ + self.bytes());
    }

    pub fn vertex_attrib_pointer(
        cmds: &mut Vec<GlCommand>,
        stride: usize,
        location: u32,
        offset: usize,
    )
        ensures
            final(cmds)@ == old(cmds)@ + pointer_commands(
                Self::spec_format(),
                location,
                stride,
                offset,
            ),
    {
        attrib_pointer(cmds, Self::format(), stride, location, offset);
    }
}

/// One signed byte, normalized by the driver to `[-1, 1]`.
#[allow(non_camel_case_types)]
#[derive(Clone, Copy, Debug, PartialEq, Eq, Structural)]
pub struct i8_float {
    pub d0: i8,
}

impl i8_float {
    pub fn new(d0: i8) -> (r: i8_float)
        ensures
            r.d0 == d0,
    {
        i8_float { d0 }
    }

    pub open spec fn spec_format() -> AttribFormat {
        AttribFormat { components: 1, kind: ScalarKind::Byte, normalized: true, size: 1 }
    }

    pub fn format() -> (r: AttribFormat)
        ensures
            r == Self::spec_format(),
    {
        AttribFormat { components: 1, kind: ScalarKind::Byte, normalized: true, size: 1 }
    }

    pub open spec fn bytes(self) -> Seq<u8> {
        seq![self.d0 as u8]
    }

    pub fn write_bytes(&self, out: &mut Vec<u8>)
        ensures
            final(out)@ == old(out)@ + self.bytes(),
    {
        out.push(self.d0 as u8);
        assert(out@ =~= old(out)@ + self.bytes());
    }

    pub fn vertex_attrib_pointer(
        cmds: &mut Vec<GlCommand>,
        stride: usize,
        location: u32,
        offset: usize,
    )
        ensures
            final(cmds)@ == old(cmds)@ + pointer_commands(
                Self::spec_format(),
                location,
                stride,
                offset,
            ),
    {
        attrib_pointer(cmds, Self::format(), stride, location, offset);
    }
}

/// A 3x3 matrix of 32-bit floats, row by row.
#[allow(non_camel_case_types)]
#[derive(Clone, Copy, Debug, PartialEq, Eq, Structural)]
pub struct mat3_f32 {
    pub d00: u32,
    pub d01: u32,
    pub d02: u32,
    pub d10: u32,
    pub d11: u32,
    pub d12: u32,
    pub d20: u32,
    pub d21: u32,
    pub d22: u32,
}

impl mat3_f32 {
    pub fn new(
        d00: u32,
        d01: u32,
        d02: u32,
        d10: u32,
        d11: u32,
        d12: u32,
        d20: u32,
        d21: u32,
        d22: u32,
    ) -> (r: mat3_f32)
        ensures
            r == (mat3_f32 { d00, d01, d02, d10, d11, d12, d20, d21, d22 }),
    {
        mat3_f32 { d00, d01, d02, d10, d11, d12, d20, d21, d22 }
    }

    pub open spec fn spec_format() -> AttribFormat {
        AttribFormat { components: 9, kind: ScalarKind::Float, normalized: false, size: 36 }
    }

    pub fn format() -> (r: AttribFormat)
        ensures
            r == Self::spec_format(),
    {
        AttribFormat { components: 9, kind: ScalarKind::Float, normalized: false, size: 36 }
    }

    pub open spec fn bytes(self) -> Seq<u8> {
        le_bytes(self.d00) + le_bytes(self.d01) + le_bytes(self.d02) + le_bytes(self.d10)
            + le_bytes(self.d11) + le_bytes(self.d12) + le_bytes(self.d20) + le_bytes(self.d21)
            + le_bytes(self.d22)
    }

    pub fn write_bytes(&self, out: &mut Vec<u8>)
        ensures
            final(out)@ == old(out)@ + self.bytes(),
    {
        push_word(out, self.d00);
        push_word(out, self.d01);
        push_word(out, self.d02);
        push_word(out, self.d10);
        push_word(out, self.d11);
        push_word(out, self.d12);
        push_word(out, self.d20);
        push_word(out, self.d21);
        push_word(out, self.d22);
        assert(out@ =~= old(out)@ + self.bytes());
    }

    pub fn vertex_attrib_pointer(
        cmds: &mut Vec<GlCommand>,
        stride: usize,
        location: u32,
        offset: usize,
    )
        ensures
            final(cmds)@ == old(cmds)@ + pointer_commands(
                Self::spec_format(),
                location,
                stride,
                offset,
            ),
    {
        attrib_pointer(cmds, Self::format(), stride, location, offset);
    }
}

/// The two calls that register one field: enable its location, then describe it.
pub open spec fn pointer_commands(
    format: AttribFormat,
    location: u32,
    stride: usize,
    offset: usize,
) -> Seq<GlCommand> {
    seq![
        GlCommand::EnableVertexAttribArray { location },
        GlCommand::VertexAttribPointer {
            location,
            components: format.components,
            kind: format.kind,
            normalized: format.normalized,
            stride,
            offset,
        },
    ]
}

/// Registers a field of the given format at `location`, `offset` bytes into
/// records of `stride` bytes.
pub fn attrib_pointer(
    cmds: &mut Vec<GlCommand>,
    format: AttribFormat,
    stride: usize,
    location: u32,
    offset: usize,
)
    ensures
        final(cmds)@ == old(cmds)@ + pointer_commands(format, location, stride, offset),
{
    cmds.push(GlCommand::EnableVertexAttribArray { location });
    cmds.push(
        GlCommand::VertexAttribPointer {
            location,
            components: format.components,
            kind: format.kind,
            normalized: format.normalized,
            stride,
            offset,
        },
    );
    assert(cmds@ =~= old(cmds)@ + pointer_commands(format, location, stride, offset));
}

/// Decoding the encoding of three floats gives them back exactly.
pub proof fn lemma_f32_f32_f32_round_trip(v: f32_f32_f32)
    ensures
        f32_f32_f32::decode(v.bytes(), 0) == v,
{
    lemma_word_round_trip(v.d0);
    lemma_word_round_trip(v.d1);
    lemma_word_round_trip(v.d2);
    let s = v.bytes();
    assert(s.subrange(4, 8) =~= le_bytes(v.d1));
    assert(s.subrange(8, 12) =~= le_bytes(v.d2));
}

/// Decoding the encoding of four floats gives them back exactly.
pub proof fn lemma_f32_f32_f32_f32_round_trip(v: f32_f32_f32_f32)
    ensures
        f32_f32_f32_f32::decode(v.bytes(), 0) == v,
{
    lemma_word_round_trip(v.d0);
    lemma_word_round_trip(v.d1);
    lemma_word_round_trip(v.d2);
    lemma_word_round_trip(v.d3);
    let s = v.bytes();
    assert(s.subrange(4, 8) =~= le_bytes(v.d1));
    assert(s.subrange(8, 12) =~= le_bytes(v.d2));
    assert(s.subrange(12, 16) =~= le_bytes(v.d3));
}

} // verus!
