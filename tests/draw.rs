use render_gl::buffer::{ArrayBuffer, VertexArray};
use render_gl::command::{BufferTarget, GlCommand, Mat4, Usage};
use render_gl::data::{f32_, f32_f32_f32, f32_f32_f32_f32, u2_u10_u10_u10_rev_float};
use render_gl::draw::{LightSource, ModelTransform};
use render_gl::object_draw::{ObjectUniforms, ObjectsDraw};
use render_gl::shader::{Error, Program, UniformInfo};
use render_gl::spotlight_draw::{ColoredModel, SpotlightDraw, SpotlightUniforms};
use render_gl::triangle::TrianglesDraw;
use render_gl::vertex::{Triangle, VertexData, VERTEX_SIZE};

fn program(id: u32, names: &[(&str, i32)]) -> Program {
    Program::from_linked(
        id,
        names.iter().map(|(n, l)| UniformInfo { name: n.to_string(), location: *l }).collect(),
    )
}

fn lit_program() -> Program {
    program(
        1,
        &[
            ("model_scale", 0),
            ("model_translation", 1),
            ("model_rotation", 2),
            ("view_translation", 3),
            ("view_rotation", 4),
            ("projection", 5),
            ("lights_count", 6),
            ("light_positions[0]", 10),
            ("light_colors[0]", 100),
            ("light_radiuses[0]", 200),
        ],
    )
}

fn vertex(seed: u32) -> VertexData {
    VertexData {
        pos: f32_f32_f32::new(seed, seed, seed),
        clr: u2_u10_u10_u10_rev_float::from_levels(1023, 0, 0, 3),
        norm: f32_f32_f32::new(0, 0, 1.0f32.to_bits()),
    }
}

fn matrix(seed: u32) -> Mat4 {
    Mat4 { entries: [seed; 16] }
}

fn model(seed: u32) -> ModelTransform {
    ModelTransform { scale: f32_::new(seed), translation: matrix(seed + 1), rotation: matrix(seed + 2) }
}

fn objects(vertex_count: u32) -> (ObjectsDraw, Vec<GlCommand>) {
    let vertices: Vec<VertexData> = (0..vertex_count).map(vertex).collect();
    let mut cmds = Vec::new();
    let d = ObjectsDraw::new(&mut cmds, lit_program(), ArrayBuffer::new(20), VertexArray::new(30), &vertices)
        .unwrap();
    (d, cmds)
}

#[test]
fn objects_draw_sets_up_once() {
    let (_, cmds) = objects(3);
    assert_eq!(cmds[0], GlCommand::BindVertexArray { array: 30 });
    assert_eq!(cmds[1], GlCommand::BindBuffer { target: BufferTarget::Array, buffer: 20 });
    assert_eq!(cmds[8], GlCommand::BindBuffer { target: BufferTarget::Array, buffer: 0 });
    assert_eq!(cmds[9], GlCommand::BindVertexArray { array: 0 });
    assert_eq!(cmds[10], GlCommand::UseProgram { program: 1 });
    assert_eq!(cmds[11], GlCommand::BindBuffer { target: BufferTarget::Array, buffer: 20 });
    match &cmds[12] {
        GlCommand::BufferData { target: BufferTarget::Array, data, usage: Usage::StaticDraw } => {
            assert_eq!(data.len(), 3 * VERTEX_SIZE)
        }
        other => panic!("unexpected {:?}", other),
    }
    assert_eq!(cmds.len(), 13);
}

#[test]
fn object_uniforms_resolve_every_name() {
    let u = ObjectUniforms::new(&lit_program()).unwrap();
    assert_eq!(u.model_scale, 0);
    assert_eq!(u.view_translation, 3);
    assert_eq!(u.view_rotation, 4);
    assert_eq!(u.light_positions, 10);
    assert_eq!(u.light_colors, 100);
    assert_eq!(u.light_radiuses, 200);
}

#[test]
fn missing_uniform_releases_everything() {
    let p = program(2, &[("model_scale", 0), ("model_translation", 1)]);
    let mut cmds = Vec::new();
    let r = ObjectsDraw::new(&mut cmds, p, ArrayBuffer::new(5), VertexArray::new(6), &vec![vertex(1)]);
    match r {
        Err(Error::UniformNameError { name }) => assert_eq!(name, "model_rotation"),
        Err(e) => panic!("unexpected {:?}", e),
        Ok(_) => panic!("no error"),
    }
    let n = cmds.len();
    assert_eq!(
        cmds[n - 3..].to_vec(),
        vec![
            GlCommand::DeleteVertexArray { array: 6 },
            GlCommand::DeleteBuffer { buffer: 5 },
            GlCommand::DeleteProgram { program: 2 },
        ]
    );
}

#[test]
fn offset_draw_of_identical_objects() {
    let (d, _) = objects(3 * 36);
    let mut cmds = Vec::new();
    d.prepare_for_draws(&mut cmds);
    assert_eq!(
        cmds,
        vec![
            GlCommand::UseProgram { program: 1 },
            GlCommand::BindBuffer { target: BufferTarget::Array, buffer: 20 },
            GlCommand::BindVertexArray { array: 30 },
        ]
    );
    let mut cmds = Vec::new();
    d.draw_objects(&mut cmds, &vec![model(1), model(2), model(3)], 36);
    assert_eq!(cmds.len(), 12);
    for i in 0..3usize {
        assert_eq!(cmds[4 * i], GlCommand::Uniform1f { location: 0, value: f32_::new(i as u32 + 1) });
        assert_eq!(
            cmds[4 * i + 1],
            GlCommand::UniformMatrix4f { location: 1, value: matrix(i as u32 + 2) }
        );
        assert_eq!(
            cmds[4 * i + 2],
            GlCommand::UniformMatrix4f { location: 2, value: matrix(i as u32 + 3) }
        );
        assert_eq!(
            cmds[4 * i + 3],
            GlCommand::DrawTriangles { first: 36 * i as i32, count: 36 }
        );
    }
}

#[test]
fn single_draw_covers_the_given_range() {
    let (d, _) = objects(10);
    let mut cmds = Vec::new();
    d.draw(&mut cmds, f32_::new(1), matrix(2), matrix(3), 4, 6);
    assert_eq!(cmds[3], GlCommand::DrawTriangles { first: 6, count: 4 });
}

fn light(seed: u32) -> LightSource {
    LightSource {
        position: f32_f32_f32::new(seed, seed + 1, seed + 2),
        color: f32_f32_f32_f32::new(seed, seed, seed, 1.0f32.to_bits()),
        radius: f32_::new(15.0f32.to_bits() + seed),
    }
}

#[test]
fn light_array_of_three() {
    let (d, _) = objects(3);
    let mut cmds = Vec::new();
    d.set_spotlights(&mut cmds, &vec![light(0), light(10), light(20)]);
    assert_eq!(cmds.len(), 1 + 9 + 1);
    assert_eq!(cmds[0], GlCommand::UseProgram { program: 1 });
    for i in 0..3usize {
        let l = light(10 * i as u32);
        assert_eq!(cmds[1 + 3 * i], GlCommand::Uniform3f { location: 10 + i as i32, value: l.position });
        assert_eq!(cmds[2 + 3 * i], GlCommand::Uniform1f { location: 200 + i as i32, value: l.radius });
        assert_eq!(cmds[3 + 3 * i], GlCommand::Uniform4f { location: 100 + i as i32, value: l.color });
    }
    assert_eq!(cmds[10], GlCommand::Uniform1ui { location: 6, value: 3 });
    for c in &cmds {
        match c {
            GlCommand::Uniform3f { location, .. } => assert!(*location < 13),
            GlCommand::Uniform1f { location, .. } => assert!(*location < 203),
            GlCommand::Uniform4f { location, .. } => assert!(*location < 103),
            _ => {}
        }
    }
}

#[test]
fn no_lights_sets_a_zero_count() {
    let (d, _) = objects(3);
    let mut cmds = Vec::new();
    d.set_spotlights(&mut cmds, &vec![]);
    assert_eq!(
        cmds,
        vec![GlCommand::UseProgram { program: 1 }, GlCommand::Uniform1ui { location: 6, value: 0 }]
    );
}

#[test]
fn view_and_projection_activate_the_program() {
    let (d, _) = objects(3);
    let mut cmds = Vec::new();
    d.set_view(&mut cmds, matrix(7), matrix(8));
    d.set_projection(&mut cmds, matrix(9));
    assert_eq!(
        cmds,
        vec![
            GlCommand::UseProgram { program: 1 },
            GlCommand::UniformMatrix4f { location: 3, value: matrix(7) },
            GlCommand::UniformMatrix4f { location: 4, value: matrix(8) },
            GlCommand::UseProgram { program: 1 },
            GlCommand::UniformMatrix4f { location: 5, value: matrix(9) },
        ]
    );
}

fn solid_program() -> Program {
    program(
        4,
        &[
            ("model_scale", 0),
            ("model_translation", 1),
            ("model_rotation", 2),
            ("view_translation", 3),
            ("view_rotation", 4),
            ("projection", 5),
            ("solid_color", 6),
        ],
    )
}

#[test]
fn spotlight_draw_sets_a_solid_color() {
    let u = SpotlightUniforms::new(&solid_program()).unwrap();
    assert_eq!(u.solid_color, 6);
    let mut cmds = Vec::new();
    let d = SpotlightDraw::new(&mut cmds, solid_program(), ArrayBuffer::new(1), VertexArray::new(2), &vec![vertex(0); 36])
        .unwrap();
    assert_eq!(cmds.last().unwrap(), &GlCommand::BindVertexArray { array: 2 });
    let mut cmds = Vec::new();
    let red = f32_f32_f32_f32::new(1.0f32.to_bits(), 0, 0, 1.0f32.to_bits());
    d.set_solid_color(&mut cmds, red);
    d.draw(&mut cmds, f32_::new(5), matrix(1), matrix(2), 36, 0);
    assert_eq!(cmds[0], GlCommand::UseProgram { program: 4 });
    assert_eq!(cmds[1], GlCommand::Uniform4f { location: 6, value: red });
    assert_eq!(cmds[5], GlCommand::DrawTriangles { first: 0, count: 36 });
}

#[test]
fn spotlight_draw_without_solid_color_fails() {
    let p = program(4, &[("model_scale", 0), ("model_translation", 1), ("model_rotation", 2), ("view_rotation", 4), ("view_translation", 3), ("projection", 5)]);
    let mut cmds = Vec::new();
    match SpotlightDraw::new(&mut cmds, p, ArrayBuffer::new(1), VertexArray::new(2), &vec![]) {
        Err(Error::UniformNameError { name }) => assert_eq!(name, "solid_color"),
        Err(e) => panic!("unexpected {:?}", e),
        Ok(_) => panic!("no error"),
    }
}

fn unlit_program() -> Program {
    program(
        9,
        &[
            ("model_scale", 0),
            ("model_translation", 1),
            ("model_rotation", 2),
            ("view_translation", 3),
            ("view_rotation", 4),
            ("projection", 5),
        ],
    )
}

#[test]
fn batch_draw_uploads_three_vertices_per_triangle() {
    let mut cmds = Vec::new();
    let mut d = TrianglesDraw::new(&mut cmds, unlit_program(), ArrayBuffer::new(3), VertexArray::new(4), &vec![])
        .unwrap();
    let t = Triangle { a: vertex(1), b: vertex(2), c: vertex(3) };
    let mut cmds = Vec::new();
    d.draw_batch(&mut cmds, &vec![t, t]);
    assert_eq!(cmds.len(), 5);
    assert_eq!(cmds[0], GlCommand::UseProgram { program: 9 });
    assert_eq!(cmds[1], GlCommand::BindBuffer { target: BufferTarget::Array, buffer: 3 });
    match &cmds[2] {
        GlCommand::BufferData { target: BufferTarget::Array, data, usage: Usage::DynamicDraw } => {
            assert_eq!(data.len(), 6 * VERTEX_SIZE)
        }
        other => panic!("unexpected {:?}", other),
    }
    assert_eq!(cmds[3], GlCommand::BindVertexArray { array: 4 });
    assert_eq!(cmds[4], GlCommand::DrawTriangles { first: 0, count: 6 });
    let draws = cmds.iter().filter(|c| matches!(c, GlCommand::DrawTriangles { .. })).count();
    assert_eq!(draws, 1);
    let mut cmds = Vec::new();
    d.draw(&mut cmds, f32_::new(1), matrix(1), matrix(1), 3, 3);
    assert_eq!(cmds[3], GlCommand::DrawTriangles { first: 3, count: 3 });
}

#[test]
fn triangles_view_and_projection() {
    let mut cmds = Vec::new();
    let d = TrianglesDraw::new(&mut cmds, unlit_program(), ArrayBuffer::new(3), VertexArray::new(4), &vec![vertex(1)])
        .unwrap();
    let mut cmds = Vec::new();
    d.set_view(&mut cmds, matrix(1), matrix(2));
    d.set_projection(&mut cmds, matrix(3));
    assert_eq!(
        cmds,
        vec![
            GlCommand::UniformMatrix4f { location: 3, value: matrix(1) },
            GlCommand::UniformMatrix4f { location: 4, value: matrix(2) },
            GlCommand::UniformMatrix4f { location: 5, value: matrix(3) },
        ]
    );
}

#[test]
fn markers_are_drawn_each_in_its_color_at_its_offset() {
    let mut cmds = Vec::new();
    let d = SpotlightDraw::new(&mut cmds, solid_program(), ArrayBuffer::new(1), VertexArray::new(2), &vec![vertex(0); 2 * 36])
        .unwrap();
    let c0 = f32_f32_f32_f32::new(1, 2, 3, 4);
    let c1 = f32_f32_f32_f32::new(5, 6, 7, 8);
    let mut cmds = Vec::new();
    d.draw_markers(
        &mut cmds,
        &vec![ColoredModel { model: model(1), color: c0 }, ColoredModel { model: model(2), color: c1 }],
        36,
    );
    assert_eq!(cmds.len(), 12);
    assert_eq!(cmds[1], GlCommand::Uniform4f { location: 6, value: c0 });
    assert_eq!(cmds[5], GlCommand::DrawTriangles { first: 0, count: 36 });
    assert_eq!(cmds[6], GlCommand::UseProgram { program: 4 });
    assert_eq!(cmds[7], GlCommand::Uniform4f { location: 6, value: c1 });
    assert_eq!(cmds[8], GlCommand::Uniform1f { location: 0, value: f32_::new(2) });
    assert_eq!(cmds[11], GlCommand::DrawTriangles { first: 36, count: 36 });
}
