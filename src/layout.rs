//! Derivation of a vertex layout from the ordered fields of a vertex record:
//! tightly packed, in declaration order, one attribute location per field.

use vstd::prelude::*;

use crate::command::GlCommand;
use crate::data::{attrib_pointer, pointer_commands, AttribFormat};

verus! {

/// Where one field of a record is found, as registered with the driver.
#[derive(Clone, Copy, Debug, PartialEq, Eq, Structural)]
pub struct AttribBinding {
    /// Attribute location: the field's index in the record.
    pub location: u32,
    pub format: AttribFormat,
    /// Byte size of a whole record.
    pub stride: usize,
    /// Byte offset of the field inside a record.
    pub offset: usize,
}

/// Why no layout could be derived.
#[derive(Clone, Copy, Debug, PartialEq, Eq, Structural)]
pub enum LayoutError {
    /// A record needs at least one field.
    NoFields,
}

/// Sum of the sizes of the first `i` fields: the offset of field `i`.
pub open spec fn offset_of(fields: Seq<AttribFormat>, i: int) -> int
    decreases i,
{
    if i <= 0 {
        0
    } else {
        offset_of(fields, i - 1) + fields[i - 1].size
    }
}

/// Byte size of a record made of `fields`, without padding.
pub open spec fn record_size(fields: Seq<AttribFormat>) -> int {
    offset_of(fields, fields.len() as int)
}

/// The binding of field `i`.
pub open spec fn binding_of(fields: Seq<AttribFormat>, i: int) -> AttribBinding {
    AttribBinding {
        location: i as u32,
        format: fields[i],
        stride: record_size(fields) as usize,
        offset: offset_of(fields, i) as usize,
    }
}

/// The bindings of all fields, in declaration order.
pub open spec fn layout_of(fields: Seq<AttribFormat>) -> Seq<AttribBinding> {
    Seq::new(fields.len(), |i: int| binding_of(fields, i))
}

/// The calls that register `bindings`, one pair per binding, in order.
pub open spec fn layout_commands(bindings: Seq<AttribBinding>) -> Seq<GlCommand>
    decreases bindings.len(),
{
    if bindings.len() == 0 {
        seq![]
    } else {
        let b = bindings.last();
        layout_commands(bindings.drop_last()) + pointer_commands(
            b.format,
            b.location,
            b.stride,
            b.offset,
        )
    }
}

/// Offsets grow with the field index.
pub proof fn lemma_offset_monotone(fields: Seq<AttribFormat>, i: int, j: int)
    requires
        0 <= i <= j <= fields.len(),
    ensures
        0 <= offset_of(fields, i) <= offset_of(fields, j),
    decreases j,
{
    if j > 0 {
        if i < j {
            lemma_offset_monotone(fields, i, j - 1);
        } else {
            lemma_offset_monotone(fields, j - 1, j - 1);
        }
    }
}

/// Computes the binding of each field of a record: field `i` goes to
/// location `i`, at the sum of the sizes of the fields before it, with the
/// record's total size as stride. A record without fields has no layout.
pub fn derive_layout(fields: &Vec<AttribFormat>) -> (r: Result<Vec<AttribBinding>, LayoutError>)
    requires
        record_size(fields@) <= usize::MAX,
        fields@.len() <= u32::MAX,
    ensures
        fields@.len() == 0 ==> r == Err::<Vec<AttribBinding>, LayoutError>(LayoutError::NoFields),
        fields@.len() > 0 ==> (r matches Ok(bindings) && bindings@ == layout_of(fields@)),
{
    if fields.len() == 0 {
        return Err(LayoutError::NoFields);
    }
    let mut stride: usize = 0;
    let mut i: usize = 0;
    while i < fields.len()
        invariant
            i <= fields@.len(),
            stride == offset_of(fields@, i as int),
            record_size(fields@) <= usize::MAX,
        decreases fields@.len() - i,
    {
        proof {
            lemma_offset_monotone(fields@, i as int + 1, fields@.len() as int);
        }
        stride = stride + fields[i].size;
        i = i + 1;
    }
    let mut bindings: Vec<AttribBinding> = Vec::new();
    let mut offset: usize = 0;
    let mut location: u32 = 0;
    let mut k: usize = 0;
    while k < fields.len()
        invariant
            k <= fields@.len(),
            fields@.len() <= u32::MAX,
            stride == record_size(fields@),
            offset == offset_of(fields@, k as int),
            location == k,
            record_size(fields@) <= usize::MAX,
            bindings@ == layout_of(fields@).take(k as int),
        decreases fields@.len() - k,
    {
        proof {
            lemma_offset_monotone(fields@, k as int + 1, fields@.len() as int);
        }
        bindings.push(AttribBinding { location, format: fields[k], stride, offset });
        offset = offset + fields[k].size;
        location = location + 1;
        k = k + 1;
        assert(bindings@ =~= layout_of(fields@).take(k as int));
    }
    assert(bindings@ =~= layout_of(fields@));
    Ok(bindings)
}

/// Registers each binding with the driver, in order.
pub fn register_layout(cmds: &mut Vec<GlCommand>, bindings: &Vec<AttribBinding>)
    ensures
        final(cmds)@ == old(cmds)@ + layout_commands(bindings@),
{
    let mut i: usize = 0;
    while i < bindings.len()
        invariant
            i <= bindings@.len(),
            cmds@ == old(cmds)@ + layout_commands(bindings@.take(i as int)),
        decreases bindings@.len() - i,
    {
        let b = bindings[i];
        attrib_pointer(cmds, b.format, b.stride, b.location, b.offset);
        proof {
            let t = bindings@.take(i as int + 1);
            assert(t.drop_last() =~= bindings@.take(i as int));
            assert(t.last() == b);
        }
        i = i + 1;
    }
    assert(bindings@.take(i as int) =~= bindings@);
}

} // verus!
