use render_gl::command::GlCommand;
use render_gl::resources;
use render_gl::shader::{
    resolve_all, Error, LoadEvent, LoadStep, Program, Shader, StageKind, UniformInfo,
};

fn uniform(name: &str, location: i32) -> UniformInfo {
    UniformInfo { name: name.to_string(), location }
}

#[test]
fn stage_kind_from_suffix() {
    assert!(matches!(Shader::kind_for_resource("shaders/a.vert"), Ok(StageKind::Vertex)));
    assert!(matches!(Shader::kind_for_resource("shaders/a.frag"), Ok(StageKind::Fragment)));
    match Shader::kind_for_resource("shaders/a.geom") {
        Err(Error::CannotDetermineShaderTypeForResource { name }) => assert_eq!(name, "shaders/a.geom"),
        other => panic!("unexpected {:?}", other),
    }
    assert!(Shader::kind_for_resource("vert").is_err());
}

#[test]
fn unknown_suffix_fails_before_the_text_is_looked_at() {
    let r = Shader::from_res("x.txt", Err(resources::Error::FileContainsNil));
    assert!(matches!(r, Err(Error::CannotDetermineShaderTypeForResource { .. })));
}

#[test]
fn shader_text_is_checked() {
    match Shader::from_res("a.frag", Ok(b"void main() {}".to_vec())) {
        Ok((kind, source)) => {
            assert_eq!(kind, StageKind::Fragment);
            assert_eq!(source, b"void main() {}".to_vec());
        }
        Err(e) => panic!("unexpected {:?}", e),
    }
    match Shader::from_res("a.vert", Ok(vec![b'x', 0])) {
        Err(Error::ResourceLoad { name, inner: resources::Error::FileContainsNil }) => assert_eq!(name, "a.vert"),
        other => panic!("unexpected {:?}", other),
    }
    let io = std::io::Error::new(std::io::ErrorKind::NotFound, "missing");
    match Shader::from_res("a.vert", Err(resources::Error::Io(io))) {
        Err(Error::ResourceLoad { name, inner: resources::Error::Io(e) }) => {
            assert_eq!(name, "a.vert");
            assert_eq!(e.kind(), std::io::ErrorKind::NotFound);
        }
        other => panic!("unexpected {:?}", other),
    }
}

#[test]
fn compile_failure_reports_the_full_log() {
    let (mut loader, first) = Program::from_res("shaders/triangle");
    assert!(matches!(first, LoadStep::ReadResource { ref resource } if resource == "shaders/triangle.vert"));
    let mut cmds = Vec::new();
    let step = loader.step(LoadEvent::ResourceRead(Ok(b"vertex source".to_vec())), &mut cmds);
    assert!(matches!(step, LoadStep::CompileShader { kind: StageKind::Vertex, .. }));
    let step = loader.step(LoadEvent::ShaderCompiled(Ok(21)), &mut cmds);
    assert!(matches!(step, LoadStep::ReadResource { ref resource } if resource == "shaders/triangle.frag"));
    let step = loader.step(LoadEvent::ResourceRead(Ok(b"void main() { oops }".to_vec())), &mut cmds);
    match step {
        LoadStep::CompileShader { resource, kind, source } => {
            assert_eq!(resource, "shaders/triangle.frag");
            assert_eq!(kind, StageKind::Fragment);
            assert_eq!(source, b"void main() { oops }".to_vec());
        }
        other => panic!("unexpected {:?}", other),
    }
    let log = "0:1(15): error: syntax error, unexpected IDENTIFIER".to_string();
    match loader.step(LoadEvent::ShaderCompiled(Err(log.clone())), &mut cmds) {
        LoadStep::Failed(Error::CompileError { name, message }) => {
            assert_eq!(name, "shaders/triangle.frag");
            assert_eq!(message, log);
            assert!(!message.is_empty());
            assert!(message.contains("error"));
        }
        other => panic!("unexpected {:?}", other),
    }
    assert_eq!(cmds, vec![GlCommand::DeleteShader { shader: 21 }]);
}

#[test]
fn program_loads_and_links() {
    let (mut loader, _) = Program::from_res("shaders/lit");
    let mut cmds = Vec::new();
    loader.step(LoadEvent::ResourceRead(Ok(b"v".to_vec())), &mut cmds);
    loader.step(LoadEvent::ShaderCompiled(Ok(4)), &mut cmds);
    loader.step(LoadEvent::ResourceRead(Ok(b"f".to_vec())), &mut cmds);
    let link = loader.step(LoadEvent::ShaderCompiled(Ok(5)), &mut cmds);
    match link {
        LoadStep::LinkProgram { shaders } => assert_eq!(shaders, vec![4, 5]),
        other => panic!("unexpected {:?}", other),
    }
    assert!(cmds.is_empty());
    assert!(!loader.is_accepted(&LoadEvent::ShaderCompiled(Ok(6))));
    let linked = LoadEvent::ProgramLinked(Ok((9, vec![uniform("projection", 2)])));
    assert!(loader.is_accepted(&linked));
    match loader.step(linked, &mut cmds) {
        LoadStep::Linked(p) => {
            assert_eq!(p.id(), 9);
            assert_eq!(p.get_uniform_loc("projection").unwrap(), 2);
        }
        other => panic!("unexpected {:?}", other),
    }
    assert_eq!(cmds, vec![GlCommand::DeleteShader { shader: 5 }, GlCommand::DeleteShader { shader: 4 }]);
}

#[test]
fn link_failure_names_the_program() {
    let (mut loader, _) = Program::from_res("p");
    let mut cmds = Vec::new();
    loader.step(LoadEvent::ResourceRead(Ok(b"v".to_vec())), &mut cmds);
    loader.step(LoadEvent::ShaderCompiled(Ok(1)), &mut cmds);
    loader.step(LoadEvent::ResourceRead(Ok(b"f".to_vec())), &mut cmds);
    loader.step(LoadEvent::ShaderCompiled(Ok(2)), &mut cmds);
    match loader.step(LoadEvent::ProgramLinked(Err("link log".to_string())), &mut cmds) {
        LoadStep::Failed(Error::LinkError { name, message }) => {
            assert_eq!(name, "p");
            assert_eq!(message, "link log");
        }
        other => panic!("unexpected {:?}", other),
    }
    assert_eq!(cmds.len(), 2);
}

#[test]
fn missing_stage_file_fails_the_load() {
    let (mut loader, _) = Program::from_res("p");
    let mut cmds = Vec::new();
    let io = std::io::Error::new(std::io::ErrorKind::NotFound, "no file");
    match loader.step(LoadEvent::ResourceRead(Err(resources::Error::Io(io))), &mut cmds) {
        LoadStep::Failed(Error::ResourceLoad { name, .. }) => assert_eq!(name, "p.vert"),
        other => panic!("unexpected {:?}", other),
    }
    assert!(cmds.is_empty());
}

#[test]
fn uniform_resolution_is_deterministic() {
    let p = Program::from_linked(3, vec![uniform("model_scale", 0), uniform("projection", 5)]);
    assert_eq!(p.get_uniform_loc("projection").unwrap(), 5);
    assert_eq!(p.get_uniform_loc("projection").unwrap(), 5);
    for _ in 0..2 {
        match p.get_uniform_loc("solid_color") {
            Err(Error::UniformNameError { name }) => assert_eq!(name, "solid_color"),
            other => panic!("unexpected {:?}", other),
        }
    }
}

#[test]
fn array_uniform_found_by_its_base_name() {
    let p = Program::from_linked(
        3,
        vec![uniform("light_positions[0]", 7), uniform("hidden", -1), uniform("light_radiuses", 40)],
    );
    assert_eq!(p.get_uniform_loc("light_positions").unwrap(), 7);
    assert_eq!(p.get_uniform_loc("light_positions[0]").unwrap(), 7);
    assert_eq!(p.get_uniform_loc("light_radiuses").unwrap(), 40);
    assert!(p.get_uniform_loc("hidden").is_err());
    assert!(p.get_uniform_loc("light").is_err());
}

#[test]
fn resolving_a_list_stops_at_the_first_missing_name() {
    let p = Program::from_linked(1, vec![uniform("a", 1), uniform("c", 3)]);
    assert_eq!(resolve_all(&p, &vec!["c", "a"]).unwrap(), vec![3, 1]);
    match resolve_all(&p, &vec!["a", "b", "d"]) {
        Err(Error::UniformNameError { name }) => assert_eq!(name, "b"),
        other => panic!("unexpected {:?}", other),
    }
}

#[test]
fn uniform_setters() {
    let p = Program::from_linked(8, vec![]);
    let mut cmds = Vec::new();
    p.set_used(&mut cmds);
    p.set_uint_uniform(&mut cmds, 4, 3);
    p.set_vec3_array_uniform(&mut cmds, 10, 2, render_gl::data::f32_f32_f32::new(1, 2, 3));
    p.set_float_array_uniform(&mut cmds, 20, 1, render_gl::data::f32_::new(9));
    p.release(&mut cmds);
    assert_eq!(cmds[0], GlCommand::UseProgram { program: 8 });
    assert_eq!(cmds[1], GlCommand::Uniform1ui { location: 4, value: 3 });
    assert_eq!(
        cmds[2],
        GlCommand::Uniform3f { location: 12, value: render_gl::data::f32_f32_f32::new(1, 2, 3) }
    );
    assert_eq!(cmds[3], GlCommand::Uniform1f { location: 21, value: render_gl::data::f32_::new(9) });
    assert_eq!(cmds[4], GlCommand::DeleteProgram { program: 8 });
}
