//! Owned driver objects: buffers, tagged by the target they bind to, and
//! vertex arrays. Each value owns one object name; `release` consumes the
//! value, so an object is deleted at most once.

use vstd::prelude::*;

use crate::command::{BufferTarget, GlCommand, Usage};

verus! {

/// The binding point that a kind of buffer uses.
pub trait BufferType {
    spec fn spec_target() -> BufferTarget;

    fn target() -> (r: BufferTarget)
        ensures
            r == Self::spec_target(),
    ;
}

/// Buffers of vertex attributes.
pub struct BufferTypeArray;

impl BufferType for BufferTypeArray {
    open spec fn spec_target() -> BufferTarget {
        BufferTarget::Array
    }

    fn target() -> (r: BufferTarget) {
        BufferTarget::Array
    }
}

/// Buffers of vertex indices.
pub struct BufferTypeElementArray;

impl BufferType for BufferTypeElementArray {
    open spec fn spec_target() -> BufferTarget {
        BufferTarget::ElementArray
    }

    fn target() -> (r: BufferTarget) {
        BufferTarget::ElementArray
    }
}

/// A buffer object of kind `B`.
pub struct Buffer<B: BufferType> {
    vbo: u32,
    _marker: std::marker::PhantomData<B>,
}

pub type ArrayBuffer = Buffer<BufferTypeArray>;

pub type ElementArrayBuffer = Buffer<BufferTypeElementArray>;

impl<B: BufferType> Buffer<B> {
    /// The name of the owned buffer object.
    pub closed spec fn handle(&self) -> u32 {
        self.vbo
    }

    /// Takes ownership of the buffer object `vbo`, freshly generated by the driver.
    pub fn new(vbo: u32) -> (r: Buffer<B>)
        ensures
            r.handle() == vbo,
    {
        Buffer { vbo, _marker: std::marker::PhantomData }
    }

    pub fn bind(&self, cmds: &mut Vec<GlCommand>)
        ensures
            final(cmds)@ == old(cmds)@.push(
                GlCommand::BindBuffer { target: B::spec_target(), buffer: self.handle() },
            ),
    {
        cmds.push(GlCommand::BindBuffer { target: B::target(), buffer: self.vbo });
    }

    pub fn unbind(&self, cmds: &mut Vec<GlCommand>)
        ensures
            final(cmds)@ == old(cmds)@.push(
                GlCommand::BindBuffer { target: B::spec_target(), buffer: 0 },
            ),
    {
        cmds.push(GlCommand::BindBuffer { target: B::target(), buffer: 0 });
    }

    /// Uploads content that stays the same for the rest of the buffer's life.
    /// The buffer must be bound.
    pub fn static_draw_data(&self, cmds: &mut Vec<GlCommand>, data: Vec<u8>)
        ensures
            final(cmds)@ == old(cmds)@.push(
                GlCommand::BufferData { target: B::spec_target(), data, usage: Usage::StaticDraw },
            ),
    {
        cmds.push(GlCommand::BufferData { target: B::target(), data, usage: Usage::StaticDraw });
    }

    /// Replaces the whole content, of any size; meant to be called every
    /// frame. The buffer must be bound.
    pub fn dynamic_draw_data(&self, cmds: &mut Vec<GlCommand>, data: Vec<u8>)
        ensures
            final(cmds)@ == old(cmds)@.push(
                GlCommand::BufferData { target: B::spec_target(), data, usage: Usage::DynamicDraw },
            ),
    {
        cmds.push(GlCommand::BufferData { target: B::target(), data, usage: Usage::DynamicDraw });
    }

    /// Deletes the buffer object: exactly one delete of its name.
    pub fn release(self, cmds: &mut Vec<GlCommand>)
        ensures
            final(cmds)@ == old(cmds)@.push(GlCommand::DeleteBuffer { buffer: self.handle() }),
    {
        cmds.push(GlCommand::DeleteBuffer { buffer: self.vbo });
    }
}

/// A vertex array object: the attribute layout registered against a buffer.
pub struct VertexArray {
    vao: u32,
}

impl VertexArray {
    /// The name of the owned vertex array object.
    pub closed spec fn handle(&self) -> u32 {
        self.vao
    }

    /// Takes ownership of the vertex array object `vao`, freshly generated by the driver.
    pub fn new(vao: u32) -> (r: VertexArray)
        ensures
            r.handle() == vao,
    {
        VertexArray { vao }
    }

    pub fn bind(&self, cmds: &mut Vec<GlCommand>)
        ensures
            final(cmds)@ == old(cmds)@.push(GlCommand::BindVertexArray { array: self.handle() }),
    {
        cmds.push(GlCommand::BindVertexArray { array: self.vao });
    }

    pub fn unbind(&self, cmds: &mut Vec<GlCommand>)
        ensures
            final(cmds)@ == old(cmds)@.push(GlCommand::BindVertexArray { array: 0 }),
    {
        cmds.push(GlCommand::BindVertexArray { array: 0 });
    }

    /// Deletes the vertex array object: exactly one delete of its name.
    pub fn release(self, cmds: &mut Vec<GlCommand>)
        ensures
            final(cmds)@ == old(cmds)@.push(GlCommand::DeleteVertexArray { array: self.handle() }),
    {
        cmds.push(GlCommand::DeleteVertexArray { array: self.vao });
    }
}

} // verus!
