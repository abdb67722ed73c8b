use render_gl::buffer::{ArrayBuffer, ElementArrayBuffer, VertexArray};
use render_gl::command::{BufferTarget, GlCommand, Usage};

#[test]
fn array_buffer_binds_uploads_and_releases() {
    let vbo = ArrayBuffer::new(7);
    let mut cmds = Vec::new();
    vbo.bind(&mut cmds);
    vbo.static_draw_data(&mut cmds, vec![1, 2, 3]);
    vbo.dynamic_draw_data(&mut cmds, vec![4]);
    vbo.unbind(&mut cmds);
    vbo.release(&mut cmds);
    assert_eq!(
        cmds,
        vec![
            GlCommand::BindBuffer { target: BufferTarget::Array, buffer: 7 },
            GlCommand::BufferData { target: BufferTarget::Array, data: vec![1, 2, 3], usage: Usage::StaticDraw },
            GlCommand::BufferData { target: BufferTarget::Array, data: vec![4], usage: Usage::DynamicDraw },
            GlCommand::BindBuffer { target: BufferTarget::Array, buffer: 0 },
            GlCommand::DeleteBuffer { buffer: 7 },
        ]
    );
}

#[test]
fn element_buffer_uses_its_own_target() {
    let ebo = ElementArrayBuffer::new(3);
    let mut cmds = Vec::new();
    ebo.bind(&mut cmds);
    ebo.static_draw_data(&mut cmds, vec![0, 1, 2]);
    assert_eq!(cmds[0], GlCommand::BindBuffer { target: BufferTarget::ElementArray, buffer: 3 });
    assert_eq!(
        cmds[1],
        GlCommand::BufferData { target: BufferTarget::ElementArray, data: vec![0, 1, 2], usage: Usage::StaticDraw }
    );
}

#[test]
fn release_deletes_each_handle_exactly_once() {
    let vbo = ArrayBuffer::new(11);
    let vao = VertexArray::new(12);
    let mut cmds = Vec::new();
    vao.bind(&mut cmds);
    vbo.bind(&mut cmds);
    vbo.bind(&mut cmds);
    vao.unbind(&mut cmds);
    let moved = vbo;
    moved.release(&mut cmds);
    vao.release(&mut cmds);
    let buffer_deletes = cmds.iter().filter(|c| **c == GlCommand::DeleteBuffer { buffer: 11 }).count();
    let array_deletes = cmds.iter().filter(|c| **c == GlCommand::DeleteVertexArray { array: 12 }).count();
    assert_eq!(buffer_deletes, 1);
    assert_eq!(array_deletes, 1);
    assert_eq!(cmds[0], GlCommand::BindVertexArray { array: 12 });
    assert_eq!(cmds[3], GlCommand::BindVertexArray { array: 0 });
}
