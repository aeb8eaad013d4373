use webgl_globe::camera::Camera;
use webgl_globe::gl::BlendFactor;
use webgl_globe::gl::Capability;
use webgl_globe::gl::Command;
use webgl_globe::gl::Face;
use webgl_globe::gl::Gl;
use webgl_globe::gl::ProgramId;
use webgl_globe::gl::UniformId;
use webgl_globe::renderable::Renderable;
use webgl_globe::renderer::Renderer;
use webgl_globe::scalar::Scalar;
use webgl_globe::shader::LocationAnswer;
use webgl_globe::shader::LocationKind;
use webgl_globe::shader::LocationQuery;
use webgl_globe::shader::Programs;
use webgl_globe::shader::Shader;

fn scalar(value: f32) -> Scalar {
    Scalar::from_bits(value.to_bits())
}

fn camera() -> Camera {
    Camera::new(scalar(30.0), scalar(1.5), scalar(1.0), scalar(1000.0))
}

fn renderable(gl: &mut Gl, programs: &mut Programs, program: u32, resolved: bool) -> Renderable {
    let mut shader = Shader::from_program(ProgramId { number: program });
    if resolved {
        for name in ["u_projectionMatrix", "u_modelViewMatrix", "u_normalMatrix"] {
            shader.record_uniform_location(name, Some(UniformId { number: program }));
        }
    }
    let handle = programs.add(shader);
    Renderable::new(gl, handle)
}

fn opening(width: u32, height: u32) -> Vec<Command> {
    vec![
        Command::ClearColor { red: 0, green: 0, blue: 0, alpha: 255 },
        Command::Clear,
        Command::Viewport { width, height },
        Command::Enable { capability: Capability::Blend },
        Command::BlendFunc {
            source: BlendFactor::SourceAlpha,
            destination: BlendFactor::OneMinusSourceAlpha,
        },
        Command::Enable { capability: Capability::DepthTest },
        Command::Enable { capability: Capability::CullFace },
        Command::CullFace { face: Face::Back },
    ]
}

fn closing() -> Vec<Command> {
    vec![
        Command::Disable { capability: Capability::Blend },
        Command::Disable { capability: Capability::DepthTest },
        Command::Disable { capability: Capability::CullFace },
    ]
}

#[test]
fn an_empty_frame_opens_and_closes() {
    let mut gl = Gl::new();
    let mut programs = Programs::new();
    let renderer = Renderer::new(&gl);
    let nothing: Vec<Renderable> = Vec::new();
    assert_eq!(renderer.render(&mut gl, &programs, &camera(), &nothing, 640, 480), Ok(()));
    let mut expected = opening(640, 480);
    expected.extend(closing());
    assert_eq!(gl.take_commands(), expected);
}

#[test]
fn init_succeeds() {
    let gl = Gl::new();
    let mut renderer = Renderer::new(&gl);
    assert_eq!(renderer.init(&gl), Ok(()));
    assert!(gl.commands().is_empty());
}

#[test]
fn drawables_are_drawn_in_their_order() {
    let mut gl = Gl::new();
    let mut programs = Programs::new();
    let renderables = vec![
        renderable(&mut gl, &mut programs, 10, true),
        renderable(&mut gl, &mut programs, 11, true),
        renderable(&mut gl, &mut programs, 12, true),
    ];
    gl.take_commands();
    let renderer = Renderer::new(&gl);
    assert_eq!(renderer.render(&mut gl, &programs, &camera(), &renderables, 1024, 1024), Ok(()));
    let commands = gl.take_commands();
    assert_eq!(commands[..8].to_vec(), opening(1024, 1024));
    assert_eq!(commands[commands.len() - 3..].to_vec(), closing());
    let programs: Vec<u32> = commands
        .iter()
        .filter_map(|c| match c {
            Command::UseProgram { program: Some(program) } => Some(program.number),
            _ => None,
        })
        .collect();
    assert_eq!(programs, vec![10, 11, 12]);
    // Each draw is eight commands: two to bind, three matrices, the draw,
    // two to unbind.
    assert_eq!(commands.len(), 8 + 3 * 8 + 3);
}

#[test]
fn a_frame_leaves_every_switch_off() {
    let mut gl = Gl::new();
    let mut programs = Programs::new();
    let renderables = vec![renderable(&mut gl, &mut programs, 1, true)];
    gl.take_commands();
    let renderer = Renderer::new(&gl);
    assert_eq!(renderer.render(&mut gl, &programs, &camera(), &renderables, 1, 1), Ok(()));
    let mut on: Vec<Capability> = Vec::new();
    for command in gl.take_commands().iter() {
        match command {
            Command::Enable { capability } => on.push(*capability),
            Command::Disable { capability } => on.retain(|c| c != capability),
            _ => {}
        }
    }
    assert!(on.is_empty());
}

#[test]
fn a_frame_with_an_open_question_records_nothing() {
    let mut gl = Gl::new();
    let mut programs = Programs::new();
    let renderables = vec![
        renderable(&mut gl, &mut programs, 1, true),
        renderable(&mut gl, &mut programs, 2, false),
        renderable(&mut gl, &mut programs, 3, false),
    ];
    gl.take_commands();
    let renderer = Renderer::new(&gl);
    let camera = camera();
    let result = renderer.render(&mut gl, &programs, &camera, &renderables, 800, 600);
    assert_eq!(
        result,
        Err(LocationQuery {
            program: ProgramId { number: 2 },
            kind: LocationKind::Uniform,
            name: "u_projectionMatrix".to_string()
        })
    );
    assert!(gl.commands().is_empty());
    // Answering every question in turn lets the frame through.
    let mut questions = 0;
    loop {
        match renderer.render(&mut gl, &programs, &camera, &renderables, 800, 600) {
            Ok(()) => break,
            Err(query) => {
                questions += 1;
                programs.resolve(&query, LocationAnswer::Uniform { location: None });
            }
        }
    }
    assert_eq!(questions, 6);
    assert_eq!(gl.take_commands().len(), 8 + 3 * 8 + 3);
}
