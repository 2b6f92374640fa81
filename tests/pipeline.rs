use graphic_backend::backend::{
    Buffer, ColorFormat, DrawType, InputBuffer, Program, Texture2D, Uniform, Uniforms, VertexBuffer,
};
use graphic_backend::opengl::{
    BuildError, DrawError, GLBuffer, GLFrame, GLProgram, GLTexture2D, GLVertexBuffer, GLVertexBufferBuilder,
    OpenGL, ProgramBuild, ProgramError, Reply, Request,
};
use graphic_backend::Action;

fn bits(v: &[f32]) -> Vec<u32> {
    v.iter().map(|x| x.to_bits()).collect()
}

fn triangle() -> InputBuffer {
    InputBuffer::Vec3(bits(&[-1.0, -1.0, 0.0, 0.0, 1.0, 0.0, 1.0, -1.0, 0.0]))
}

fn coords() -> InputBuffer {
    InputBuffer::Vec2(bits(&[-1.0, -1.0, 0.0, 1.0, 1.0, -1.0]))
}

/// Runs a build of `program` to its end, answering each compile from
/// `compiles` in turn and the link with `link`.
fn run_build(
    mut build: ProgramBuild,
    compiles: Vec<Result<u32, String>>,
    link: Result<(), String>,
) -> (Vec<Action>, Result<GLProgram, ProgramError>) {
    let mut actions = Vec::new();
    let mut compiles = compiles.into_iter();
    let mut link = Some(link);
    loop {
        let reply = match build.pending() {
            Request::Compile { .. } => Reply::Compiled(compiles.next().unwrap()),
            Request::Link { .. } => Reply::Linked(link.take().unwrap()),
            Request::Done => panic!("build already finished"),
        };
        let (mut a, done) = build.step(reply);
        actions.append(&mut a);
        if let Some(r) = done {
            return (actions, r);
        }
    }
}

fn linked_program(handle: u32) -> GLProgram {
    let facade = OpenGL::new();
    let build = facade.program(handle, "vs", "fs", None, "out_color");
    run_build(build, vec![Ok(1), Ok(2)], Ok(())).1.unwrap()
}

fn position_buffer(vao: u32) -> GLVertexBuffer {
    let mut b = GLVertexBufferBuilder::new();
    b.add_input("position", triangle(), 10);
    let (r, _) = b.build(&vec![0], vao);
    r.unwrap()
}

#[test]
fn scenario_a_single_position_input() {
    let facade = OpenGL::new();
    let mut builder = facade.vertex_buffer();
    let upload = builder.add_input("position", triangle(), 10);
    assert_eq!(
        upload,
        Action::UploadBuffer {
            buffer: 10,
            data: bits(&[-1.0, -1.0, 0.0, 0.0, 1.0, 0.0, 1.0, -1.0, 0.0])
        }
    );
    let (r, actions) = builder.build(&vec![0], 20);
    let vb = r.unwrap();
    assert_eq!(vb.len(), 3);
    assert_eq!(vb.get_names(), &vec!["position".to_string()]);
    assert_eq!(vb.get_buffers().len(), 1);
    assert_eq!(vb.get_buffers()[0].elem_len(), 3);
    assert_eq!(vb.get_buffers()[0].len(), 3);
    assert_eq!(vb.get_bind(), 20);
    assert_eq!(vb.get_binds(), vec![10]);
    assert_eq!(
        actions,
        vec![
            Action::BindVertexArray { array: 20 },
            Action::BindBuffer { buffer: 10 },
            Action::EnableAttribute { location: 0, size: 3 },
        ]
    );
}

#[test]
fn build_wires_inputs_in_insertion_order() {
    let mut builder = GLVertexBufferBuilder::new();
    builder.add_input("position", triangle(), 10);
    builder.add_input("coord", coords(), 11);
    assert_eq!(builder.get_names(), &vec!["position".to_string(), "coord".to_string()]);
    let (r, actions) = builder.build(&vec![1, 0], 20);
    let vb = r.unwrap();
    assert_eq!(vb.len(), 3);
    assert_eq!(
        actions,
        vec![
            Action::BindVertexArray { array: 20 },
            Action::BindBuffer { buffer: 10 },
            Action::EnableAttribute { location: 1, size: 3 },
            Action::BindBuffer { buffer: 11 },
            Action::EnableAttribute { location: 0, size: 2 },
        ]
    );
    assert_eq!(
        vb.release(),
        vec![
            Action::DeleteVertexArray { array: 20 },
            Action::DeleteBuffer { buffer: 10 },
            Action::DeleteBuffer { buffer: 11 },
        ]
    );
}

#[test]
fn build_with_mismatched_lengths_fails() {
    let mut builder = GLVertexBufferBuilder::new();
    builder.add_input("position", triangle(), 10);
    builder.add_input("coord", InputBuffer::Vec2(bits(&[0.0, 0.0, 1.0, 1.0])), 11);
    let (r, actions) = builder.build(&vec![0, 1], 20);
    assert_eq!(r.unwrap_err(), BuildError::LengthMismatch { index: 1 });
    assert_eq!(
        actions,
        vec![
            Action::DeleteVertexArray { array: 20 },
            Action::DeleteBuffer { buffer: 10 },
            Action::DeleteBuffer { buffer: 11 },
        ]
    );
}

#[test]
fn build_of_empty_builder_fails() {
    let (r, actions) = GLVertexBufferBuilder::new().build(&vec![], 20);
    assert_eq!(r.unwrap_err(), BuildError::Empty);
    assert_eq!(actions, vec![Action::DeleteVertexArray { array: 20 }]);
}

#[test]
fn build_with_duplicate_name_fails() {
    let mut builder = GLVertexBufferBuilder::new();
    builder.add_input("position", triangle(), 10);
    builder.add_input("coord", coords(), 11);
    builder.add_input("position", triangle(), 12);
    let (r, _) = builder.build(&vec![0, 1, 0], 20);
    assert_eq!(r.unwrap_err(), BuildError::DuplicateName { index: 2 });
}

#[test]
fn build_with_unknown_attribute_fails() {
    let mut builder = GLVertexBufferBuilder::new();
    builder.add_input("position", triangle(), 10);
    builder.add_input("normal", triangle(), 11);
    let (r, actions) = builder.build(&vec![0, -1], 20);
    assert_eq!(r.unwrap_err(), BuildError::UnknownAttribute { index: 1 });
    assert_eq!(actions.len(), 3);
}

#[test]
fn unbuilt_builder_releases_its_buffers() {
    let mut builder = GLVertexBufferBuilder::new();
    builder.add_input("position", triangle(), 10);
    builder.add_input("coord", coords(), 11);
    assert_eq!(
        builder.release(),
        vec![Action::DeleteBuffer { buffer: 10 }, Action::DeleteBuffer { buffer: 11 }]
    );
}

#[test]
fn buffer_uploads_once_and_releases() {
    let (b, upload) = GLBuffer::new(coords(), 5);
    assert_eq!(upload, Action::UploadBuffer { buffer: 5, data: bits(&[-1.0, -1.0, 0.0, 1.0, 1.0, -1.0]) });
    assert_eq!(b.get_bind(), 5);
    assert_eq!(b.len(), 3);
    assert_eq!(b.elem_len(), 2);
    assert_eq!(b.get_buffer(), &coords());
    assert_eq!(b.release(), Action::DeleteBuffer { buffer: 5 });
}

#[test]
fn program_build_compiles_stages_in_order() {
    let mut build = ProgramBuild::new(3, "vs", "fs", Some("gs"), "out_color");
    assert_eq!(build.pending(), Request::Compile { kind: 0x8B31, source: "vs".to_string() });
    let (a, done) = build.step(Reply::Compiled(Ok(7)));
    assert!(done.is_none());
    assert_eq!(a, vec![Action::AttachShader { program: 3, shader: 7 }, Action::DeleteShader { shader: 7 }]);
    assert_eq!(build.pending(), Request::Compile { kind: 0x8B30, source: "fs".to_string() });
    let (_, done) = build.step(Reply::Compiled(Ok(8)));
    assert!(done.is_none());
    assert_eq!(build.pending(), Request::Compile { kind: 0x8DD9, source: "gs".to_string() });
    let (a, done) = build.step(Reply::Compiled(Ok(9)));
    assert!(done.is_none());
    assert_eq!(
        a,
        vec![
            Action::AttachShader { program: 3, shader: 9 },
            Action::DeleteShader { shader: 9 },
            Action::BindFragDataLocation { program: 3, color: 0, name: "out_color".to_string() },
        ]
    );
    assert_eq!(build.pending(), Request::Link { program: 3 });
    let (a, done) = build.step(Reply::Linked(Ok(())));
    assert!(a.is_empty());
    assert_eq!(done.unwrap().unwrap().get_bind(), 3);
    assert_eq!(build.pending(), Request::Done);
}

#[test]
fn program_without_geometry_stage_links_after_fragment() {
    let mut build = ProgramBuild::new(3, "vs", "fs", None, "out_color");
    build.step(Reply::Compiled(Ok(7)));
    let (a, _) = build.step(Reply::Compiled(Ok(8)));
    assert_eq!(a.len(), 3);
    assert_eq!(build.pending(), Request::Link { program: 3 });
}

#[test]
fn scenario_b_vertex_shader_without_main() {
    let log = "0:1(1): error: no function with name 'main'".to_string();
    let facade = OpenGL::new();
    let build = facade.program(3, "#version 150\nvoid f() {}\n", "fs", None, "out_color");
    let (actions, r) = run_build(build, vec![Err(log.clone())], Ok(()));
    match r {
        Err(ProgramError::Compile(msg)) => {
            assert!(!msg.is_empty());
            assert_eq!(msg, log);
        }
        _ => panic!("expected a compile error"),
    }
    assert_eq!(actions, vec![Action::DeleteProgram { program: 3 }]);
}

#[test]
fn link_failure_carries_diagnostic() {
    let build = ProgramBuild::new(3, "vs", "fs", None, "out_color");
    let (actions, r) = run_build(build, vec![Ok(1), Ok(2)], Err("link failed".to_string()));
    assert_eq!(r.unwrap_err(), ProgramError::Link("link failed".to_string()));
    assert_eq!(actions.last(), Some(&Action::DeleteProgram { program: 3 }));
}

#[test]
fn program_draw_sets_uniforms_then_draws() {
    let program = linked_program(3);
    let vb = position_buffer(20);
    let mut u = Uniforms::new();
    u.add_uniform("offset", Uniform::Vec2(1, 2));
    let actions = program.draw(DrawType::TriangleStrip, &vb, &u, &vec![4]).unwrap();
    assert_eq!(
        actions,
        vec![
            Action::UseProgram { program: 3 },
            Action::BindVertexArray { array: 20 },
            Action::Uniform2 { location: 4, x: 1, y: 2 },
            Action::DrawArrays { mode: 0x0005, count: 3 },
        ]
    );
    assert_eq!(program.release(), Action::DeleteProgram { program: 3 });
}

#[test]
fn draw_with_unknown_uniform_fails() {
    let program = linked_program(3);
    let vb = position_buffer(20);
    let mut u = Uniforms::new();
    u.add_uniform("offset", Uniform::Vec2(1, 2));
    u.add_uniform("scale", Uniform::Vec2(1, 2));
    u.add_uniform("tint", Uniform::Vec3(1, 2, 3));
    let r = program.draw(DrawType::Triangles, &vb, &u, &vec![0, -1, -1]);
    assert_eq!(r.unwrap_err(), DrawError::UnknownUniform { index: 1 });
}

#[test]
fn repeated_draws_are_identical() {
    let program = linked_program(3);
    let vb = position_buffer(20);
    let mut u = Uniforms::new();
    u.add_uniform("tex", Uniform::Texture2D(30));
    u.add_uniform("offset", Uniform::Vec2(1, 2));
    let first = program.draw(DrawType::Triangles, &vb, &u, &vec![0, 1]).unwrap();
    let second = program.draw(DrawType::Triangles, &vb, &u, &vec![0, 1]).unwrap();
    assert_eq!(first, second);
    assert!(first.contains(&Action::ActiveTexture { unit: 0 }));
}

#[test]
fn scenario_c_two_draws_one_present() {
    let mut facade = OpenGL::new();
    let program = linked_program(3);
    let vb = position_buffer(20);
    let u: Uniforms<u32> = Uniforms::new();
    let mut frame = facade.frame().unwrap();
    let mut actions = Vec::new();
    actions.append(&mut frame.draw(&program, DrawType::Triangles, &vb, &u, &vec![]).unwrap());
    actions.append(&mut frame.draw(&program, DrawType::Triangles, &vb, &u, &vec![]).unwrap());
    actions.push(frame.finish(&mut facade));
    let clears = actions.iter().filter(|a| **a == Action::Clear).count();
    let draws = actions.iter().filter(|a| matches!(a, Action::DrawArrays { .. })).count();
    let presents = actions.iter().filter(|a| **a == Action::Present).count();
    assert_eq!((clears, draws, presents), (2, 2, 1));
    assert_eq!(actions[0], Action::Clear);
    assert_eq!(actions[4], Action::Clear);
    assert_eq!(actions.last(), Some(&Action::Present));
}

#[test]
fn scenario_d_textures_take_units_in_order() {
    let program = linked_program(3);
    let vb = position_buffer(20);
    let (t0, _) = GLTexture2D::new(ColorFormat::RGB, 1, 1, vec![1, 2, 3], 40);
    let (t1, _) = GLTexture2D::new(ColorFormat::RGB, 1, 1, vec![4, 5, 6], 41);
    let mut u = Uniforms::new();
    u.add_uniform("base", t0.as_uniform());
    u.add_uniform("detail", t1.as_uniform());
    let actions = program.draw(DrawType::Triangles, &vb, &u, &vec![5, 6]).unwrap();
    assert_eq!(
        actions[2..8].to_vec(),
        vec![
            Action::ActiveTexture { unit: 0 },
            Action::BindTexture { texture: 40 },
            Action::Uniform1i { location: 5, value: 0 },
            Action::ActiveTexture { unit: 1 },
            Action::BindTexture { texture: 41 },
            Action::Uniform1i { location: 6, value: 1 },
        ]
    );
}

#[test]
fn texture_uniform_is_its_handle() {
    let facade = OpenGL::new();
    let data = vec![0u8, 1, 2, 3, 4, 5, 6, 7];
    let (t, upload) = facade.texture2d(ColorFormat::RGBA, 2, 1, data.clone(), 40);
    assert_eq!(t.as_uniform(), Uniform::Texture2D(40));
    assert_eq!(t.as_uniform(), Uniform::Texture2D(t.get_bind()));
    assert_eq!(
        upload,
        Action::UploadTexture { texture: 40, format: 0x1908, width: 2, height: 1, data }
    );
    assert_eq!(t.release(), Action::DeleteTexture { texture: 40 });
}

#[test]
fn frame_new_respects_the_open_frame() {
    let mut facade = OpenGL::new();
    let frame = GLFrame::new(&mut facade).unwrap();
    assert!(GLFrame::new(&mut facade).is_none());
    assert!(facade.frame().is_none());
    frame.finish(&mut facade);
    assert!(GLFrame::new(&mut facade).is_some());
}

#[test]
fn only_one_frame_open_at_a_time() {
    let mut facade = OpenGL::new();
    let frame = facade.frame().unwrap();
    assert!(facade.frame().is_none());
    assert_eq!(frame.clear_color(1, 2, 3, 4), Action::ClearColor { r: 1, g: 2, b: 3, a: 4 });
    assert_eq!(frame.finish(&mut facade), Action::Present);
    assert!(facade.frame().is_some());
}
