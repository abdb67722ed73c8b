//! The driver calls that the pipeline issues, as plain values.

use vstd::prelude::*;

use crate::data::{f32_, f32_f32_f32, f32_f32_f32_f32};

verus! {

/// Binding point of a buffer object.
#[derive(Clone, Copy, Debug, PartialEq, Eq, Structural)]
pub enum BufferTarget {
    /// Vertex attribute data (`GL_ARRAY_BUFFER`).
    Array,
    /// Vertex indices (`GL_ELEMENT_ARRAY_BUFFER`).
    ElementArray,
}

/// Expected update pattern of a buffer's content.
#[derive(Clone, Copy, Debug, PartialEq, Eq, Structural)]
pub enum Usage {
    /// Written once, drawn many times (`GL_STATIC_DRAW`).
    StaticDraw,
    /// Rewritten often, drawn many times (`GL_DYNAMIC_DRAW`).
    DynamicDraw,
}

/// Storage kind of the scalars of one vertex attribute.
#[derive(Clone, Copy, Debug, PartialEq, Eq, Structural)]
pub enum ScalarKind {
    /// 32-bit float (`GL_FLOAT`).
    Float,
    /// Signed byte (`GL_BYTE`).
    Byte,
    /// Four components packed in one 32-bit word (`GL_UNSIGNED_INT_2_10_10_10_REV`).
    UnsignedInt2101010Rev,
}

/// A 4x4 matrix in column-major order. Each entry is the IEEE-754 binary32
/// bit pattern of the float that the driver receives.
#[derive(Clone, Copy, Debug, PartialEq, Eq)]
pub struct Mat4 {
    pub entries: [u32; 16],
}

/// One call into the driver.
#[derive(Clone, Debug, PartialEq, Eq)]
pub enum GlCommand {
    /// `glBindBuffer`; buffer 0 unbinds the target.
    BindBuffer { target: BufferTarget, buffer: u32 },
    /// `glBufferData` on the buffer bound to `target`, replacing its content.
    BufferData { target: BufferTarget, data: Vec<u8>, usage: Usage },
    /// `glDeleteBuffers` of one buffer.
    DeleteBuffer { buffer: u32 },
    /// `glBindVertexArray`; array 0 unbinds.
    BindVertexArray { array: u32 },
    /// `glDeleteVertexArrays` of one vertex array.
    DeleteVertexArray { array: u32 },
    /// `glEnableVertexAttribArray`.
    EnableVertexAttribArray { location: u32 },
    /// `glVertexAttribPointer` against the bound array buffer.
    VertexAttribPointer {
        location: u32,
        components: u32,
        kind: ScalarKind,
        normalized: bool,
        stride: usize,
        offset: usize,
    },
    /// `glUseProgram`.
    UseProgram { program: u32 },
    /// `glDeleteProgram`.
    DeleteProgram { program: u32 },
    /// `glDeleteShader`.
    DeleteShader { shader: u32 },
    /// `glUniform1f` on the active program.
    Uniform1f { location: i32, value: f32_ },
    /// `glUniform3f` on the active program.
    Uniform3f { location: i32, value: f32_f32_f32 },
    /// `glUniform4f` on the active program.
    Uniform4f { location: i32, value: f32_f32_f32_f32 },
    /// `glUniform1ui` on the active program.
    Uniform1ui { location: i32, value: u32 },
    /// `glUniformMatrix4fv` of one matrix, not transposed, on the active program.
    UniformMatrix4f { location: i32, value: Mat4 },
    /// `glDrawArrays(GL_TRIANGLES, first, count)`.
    DrawTriangles { first: i32, count: i32 },
}

} // verus!
