use webgl_globe::gl::Command;
use webgl_globe::gl::Gl;
use webgl_globe::gl::ProgramId;
use webgl_globe::gl::ShaderId;
use webgl_globe::gl::StageKind;
use webgl_globe::gl::UniformId;
use webgl_globe::shader::compile_shader;
use webgl_globe::shader::link_outcome;
use webgl_globe::shader::link_program;
use webgl_globe::shader::stage_outcome;
use webgl_globe::shader::BuildRequest;
use webgl_globe::shader::CompileError;
use webgl_globe::shader::LinkStatus;
use webgl_globe::shader::LocationAnswer;
use webgl_globe::shader::LocationKind;
use webgl_globe::shader::LocationQuery;
use webgl_globe::shader::Programs;
use webgl_globe::shader::Shader;
use webgl_globe::shader::ShaderBuild;
use webgl_globe::shader::ShaderHandle;
use webgl_globe::shader::StageStatus;

fn compiled() -> StageStatus {
    StageStatus { compiled: true, info_log: None }
}

fn linked() -> LinkStatus {
    LinkStatus { linked: true, info_log: None }
}

#[test]
fn a_program_is_built_in_three_steps() {
    let mut gl = Gl::new();
    let build = Shader::new(&mut gl, "void main() {}", "void main() { discard; }");
    assert_eq!(build.request(), BuildRequest::StageStatus { shader: ShaderId { number: 0 } });
    assert_eq!(
        gl.take_commands(),
        vec![
            Command::CreateShader { shader: ShaderId { number: 0 }, kind: StageKind::Vertex },
            Command::ShaderSource {
                shader: ShaderId { number: 0 },
                source: "void main() {}".to_string()
            },
            Command::CompileShader { shader: ShaderId { number: 0 } },
        ]
    );
    let build = build.stage_compiled(&mut gl, compiled());
    assert_eq!(build.request(), BuildRequest::StageStatus { shader: ShaderId { number: 1 } });
    assert_eq!(
        gl.take_commands(),
        vec![
            Command::CreateShader { shader: ShaderId { number: 1 }, kind: StageKind::Fragment },
            Command::ShaderSource {
                shader: ShaderId { number: 1 },
                source: "void main() { discard; }".to_string()
            },
            Command::CompileShader { shader: ShaderId { number: 1 } },
        ]
    );
    let build = build.stage_compiled(&mut gl, compiled());
    assert_eq!(build.request(), BuildRequest::LinkStatus { program: ProgramId { number: 2 } });
    assert_eq!(
        gl.take_commands(),
        vec![
            Command::CreateProgram { program: ProgramId { number: 2 } },
            Command::AttachShader {
                program: ProgramId { number: 2 },
                shader: ShaderId { number: 0 }
            },
            Command::AttachShader {
                program: ProgramId { number: 2 },
                shader: ShaderId { number: 1 }
            },
            Command::LinkProgram { program: ProgramId { number: 2 } },
        ]
    );
    let build = build.program_linked(linked());
    assert_eq!(build.request(), BuildRequest::Nothing);
    assert!(gl.commands().is_empty());
    match build {
        ShaderBuild::Ready { shader } => {
            assert_eq!(shader.program(), ProgramId { number: 2 });
            assert_eq!(shader.get_attrib_location("a_position"), None);
            assert_eq!(shader.get_uniform_location("u_projectionMatrix"), None);
        }
        other => panic!("not ready: {:?}", other),
    }
}

#[test]
fn a_vertex_stage_that_fails_ends_the_build() {
    let mut gl = Gl::new();
    let build = Shader::new(&mut gl, "bad", "good");
    gl.take_commands();
    let build = build.stage_compiled(
        &mut gl,
        StageStatus { compiled: false, info_log: Some("0:1: syntax error".to_string()) },
    );
    assert!(gl.commands().is_empty());
    assert_eq!(build.request(), BuildRequest::Nothing);
    match build {
        ShaderBuild::Failed { error } => assert_eq!(
            error,
            CompileError::Stage {
                kind: StageKind::Vertex,
                info_log: "0:1: syntax error".to_string()
            }
        ),
        other => panic!("not failed: {:?}", other),
    }
}

#[test]
fn a_fragment_stage_that_fails_ends_the_build() {
    let mut gl = Gl::new();
    let build = Shader::new(&mut gl, "good", "bad");
    let build = build.stage_compiled(&mut gl, compiled());
    gl.take_commands();
    let build = build.stage_compiled(&mut gl, StageStatus { compiled: false, info_log: None });
    assert!(gl.commands().is_empty());
    match build {
        ShaderBuild::Failed { error } => assert_eq!(
            error,
            CompileError::Stage {
                kind: StageKind::Fragment,
                info_log: "Unknown error creating shader".to_string()
            }
        ),
        other => panic!("not failed: {:?}", other),
    }
}

#[test]
fn a_program_that_does_not_link_ends_the_build() {
    let mut gl = Gl::new();
    let build = Shader::new(&mut gl, "good", "good");
    let build = build.stage_compiled(&mut gl, compiled());
    let build = build.stage_compiled(&mut gl, compiled());
    let failed = build.program_linked(LinkStatus {
        linked: false,
        info_log: Some("varying mismatch".to_string()),
    });
    match failed {
        ShaderBuild::Failed { error } => {
            assert_eq!(error, CompileError::Link { info_log: "varying mismatch".to_string() })
        }
        other => panic!("not failed: {:?}", other),
    }
}

#[test]
fn a_link_failure_without_a_log_has_a_default_text() {
    assert_eq!(
        link_outcome(ProgramId { number: 4 }, LinkStatus { linked: false, info_log: None }),
        Err(CompileError::Link { info_log: "Unknown error creating program".to_string() })
    );
    assert_eq!(
        link_outcome(
            ProgramId { number: 4 },
            LinkStatus { linked: true, info_log: Some("warning".to_string()) }
        ),
        Ok(ProgramId { number: 4 })
    );
}

#[test]
fn a_stage_is_judged_by_its_compile_status() {
    assert_eq!(
        stage_outcome(StageKind::Vertex, ShaderId { number: 3 }, compiled()),
        Ok(ShaderId { number: 3 })
    );
    assert_eq!(
        stage_outcome(
            StageKind::Fragment,
            ShaderId { number: 3 },
            StageStatus { compiled: false, info_log: Some("oops".to_string()) }
        ),
        Err(CompileError::Stage { kind: StageKind::Fragment, info_log: "oops".to_string() })
    );
}

#[test]
fn reports_out_of_turn_change_nothing() {
    let mut gl = Gl::new();
    let build = Shader::new(&mut gl, "vs", "fs");
    gl.take_commands();
    // A link report while the vertex stage is compiling.
    let build = build.program_linked(linked());
    assert_eq!(build.request(), BuildRequest::StageStatus { shader: ShaderId { number: 0 } });
    let build = build.stage_compiled(&mut gl, compiled());
    let build = build.stage_compiled(&mut gl, compiled());
    gl.take_commands();
    // A stage report while the program is linking.
    let build = build.stage_compiled(&mut gl, compiled());
    assert!(gl.commands().is_empty());
    assert_eq!(build.request(), BuildRequest::LinkStatus { program: ProgramId { number: 2 } });
    let build = build.program_linked(linked());
    // Reports after the end.
    let build = build.stage_compiled(&mut gl, StageStatus { compiled: false, info_log: None });
    let build = build.program_linked(LinkStatus { linked: false, info_log: None });
    assert!(gl.commands().is_empty());
    assert!(matches!(build, ShaderBuild::Ready { .. }));
}

#[test]
fn compile_and_link_record_their_commands() {
    let mut gl = Gl::new();
    let vs = compile_shader(&mut gl, StageKind::Vertex, "a");
    let fs = compile_shader(&mut gl, StageKind::Fragment, "b");
    let program = link_program(&mut gl, vs, fs);
    assert_eq!(vs, ShaderId { number: 0 });
    assert_eq!(fs, ShaderId { number: 1 });
    assert_eq!(program, ProgramId { number: 2 });
    assert_eq!(gl.commands().len(), 10);
    assert_eq!(
        gl.commands()[4],
        Command::ShaderSource { shader: ShaderId { number: 1 }, source: "b".to_string() }
    );
    assert_eq!(gl.commands()[9], Command::LinkProgram { program });
}

#[test]
fn an_attribute_is_asked_for_once() {
    let mut shader = Shader::from_program(ProgramId { number: 1 });
    let mut driver_queries = 0;
    let mut results = Vec::new();
    for _ in 0..2 {
        let known = match shader.get_attrib_location("a_position") {
            Some(known) => known,
            None => {
                driver_queries += 1;
                shader.record_attrib_location("a_position", 3)
            }
        };
        results.push(known);
    }
    assert_eq!(driver_queries, 1);
    assert_eq!(results, vec![Some(3), Some(3)]);
}

#[test]
fn an_absent_attribute_is_asked_for_once() {
    let mut shader = Shader::from_program(ProgramId { number: 1 });
    let mut driver_queries = 0;
    let mut results = Vec::new();
    for _ in 0..3 {
        let known = match shader.get_attrib_location("a_missing") {
            Some(known) => known,
            None => {
                driver_queries += 1;
                shader.record_attrib_location("a_missing", -1)
            }
        };
        results.push(known);
    }
    assert_eq!(driver_queries, 1);
    assert_eq!(results, vec![None, None, None]);
}

#[test]
fn a_uniform_is_asked_for_once() {
    let mut shader = Shader::from_program(ProgramId { number: 1 });
    let mut driver_queries = 0;
    let mut results = Vec::new();
    for _ in 0..2 {
        let known = match shader.get_uniform_location("u_normalMatrix") {
            Some(known) => known,
            None => {
                driver_queries += 1;
                shader.record_uniform_location("u_normalMatrix", Some(UniformId { number: 8 }))
            }
        };
        results.push(known);
    }
    assert_eq!(driver_queries, 1);
    assert_eq!(results, vec![Some(UniformId { number: 8 }), Some(UniformId { number: 8 })]);
}

#[test]
fn an_absent_uniform_is_asked_for_once() {
    let mut shader = Shader::from_program(ProgramId { number: 1 });
    assert_eq!(shader.get_uniform_location("u_nothing"), None);
    assert_eq!(shader.record_uniform_location("u_nothing", None), None);
    assert_eq!(shader.get_uniform_location("u_nothing"), Some(None));
    assert_eq!(shader.uniform_or_none("u_nothing"), None);
}

#[test]
fn the_first_answer_stands() {
    let mut shader = Shader::from_program(ProgramId { number: 1 });
    assert_eq!(shader.record_attrib_location("a_normal", 2), Some(2));
    assert_eq!(shader.record_attrib_location("a_normal", 5), Some(2));
    assert_eq!(shader.record_attrib_location("a_normal", -1), Some(2));
    assert_eq!(shader.get_attrib_location("a_normal"), Some(Some(2)));
    assert_eq!(shader.record_uniform_location("u", None), None);
    assert_eq!(shader.record_uniform_location("u", Some(UniformId { number: 1 })), None);
    assert_eq!(shader.get_uniform_location("u"), Some(None));
}

#[test]
fn negative_slots_mean_no_attribute() {
    let mut shader = Shader::from_program(ProgramId { number: 1 });
    assert_eq!(shader.record_attrib_location("a", -1), None);
    assert_eq!(shader.record_attrib_location("b", i32::MIN), None);
    assert_eq!(shader.record_attrib_location("c", 0), Some(0));
    assert_eq!(shader.record_attrib_location("d", i32::MAX), Some(i32::MAX as u32));
}

#[test]
fn names_are_kept_apart() {
    let mut shader = Shader::from_program(ProgramId { number: 1 });
    shader.record_attrib_location("a_position", 0);
    shader.record_attrib_location("a_normal", 1);
    shader.record_uniform_location("a_position", Some(UniformId { number: 9 }));
    assert_eq!(shader.get_attrib_location("a_position"), Some(Some(0)));
    assert_eq!(shader.get_attrib_location("a_normal"), Some(Some(1)));
    assert_eq!(shader.get_attrib_location("a_uv"), None);
    assert_eq!(shader.get_uniform_location("a_position"), Some(Some(UniformId { number: 9 })));
    assert_eq!(shader.get_uniform_location("a_normal"), None);
    assert_eq!(shader.uniform_or_none("a_normal"), None);
}

#[test]
fn answers_go_to_the_program_they_are_about() {
    let mut shader = Shader::from_program(ProgramId { number: 1 });
    let other = LocationQuery {
        program: ProgramId { number: 2 },
        kind: LocationKind::Attribute,
        name: "a_position".to_string(),
    };
    shader.resolve(&other, LocationAnswer::Attribute { slot: 4 });
    assert_eq!(shader.get_attrib_location("a_position"), None);
    let own = LocationQuery {
        program: ProgramId { number: 1 },
        kind: LocationKind::Attribute,
        name: "a_position".to_string(),
    };
    // An answer of the wrong kind is dropped.
    shader.resolve(&own, LocationAnswer::Uniform { location: Some(UniformId { number: 1 }) });
    assert_eq!(shader.get_attrib_location("a_position"), None);
    assert_eq!(shader.get_uniform_location("a_position"), None);
    shader.resolve(&own, LocationAnswer::Attribute { slot: 4 });
    assert_eq!(shader.get_attrib_location("a_position"), Some(Some(4)));
    let uniform = LocationQuery {
        program: ProgramId { number: 1 },
        kind: LocationKind::Uniform,
        name: "u_modelViewMatrix".to_string(),
    };
    shader.resolve(&uniform, LocationAnswer::Uniform { location: Some(UniformId { number: 6 }) });
    assert_eq!(shader.get_uniform_location("u_modelViewMatrix"), Some(Some(UniformId { number: 6 })));
}

#[test]
fn a_table_hands_out_places_in_turn() {
    let mut programs = Programs::new();
    assert_eq!(programs.len(), 0);
    let first = programs.add(Shader::from_program(ProgramId { number: 5 }));
    let second = programs.add(Shader::from_program(ProgramId { number: 9 }));
    assert_eq!(first, ShaderHandle { index: 0 });
    assert_eq!(second, ShaderHandle { index: 1 });
    assert_eq!(programs.len(), 2);
    assert_eq!(programs.get(first).program(), ProgramId { number: 5 });
    assert_eq!(programs.get(second).program(), ProgramId { number: 9 });
}

#[test]
fn an_answer_reaches_the_program_it_is_about_and_no_other() {
    let mut programs = Programs::new();
    let first = programs.add(Shader::from_program(ProgramId { number: 5 }));
    let second = programs.add(Shader::from_program(ProgramId { number: 9 }));
    let query = LocationQuery {
        program: ProgramId { number: 9 },
        kind: LocationKind::Uniform,
        name: "u_normalMatrix".to_string(),
    };
    programs.resolve(&query, LocationAnswer::Uniform { location: Some(UniformId { number: 3 }) });
    assert_eq!(programs.get(first).get_uniform_location("u_normalMatrix"), None);
    assert_eq!(
        programs.get(second).get_uniform_location("u_normalMatrix"),
        Some(Some(UniformId { number: 3 }))
    );
    // A later answer changes nothing that is known.
    programs.resolve(&query, LocationAnswer::Uniform { location: None });
    assert_eq!(
        programs.get(second).get_uniform_location("u_normalMatrix"),
        Some(Some(UniformId { number: 3 }))
    );
    assert_eq!(programs.len(), 2);
    assert_eq!(programs.get(first).program(), ProgramId { number: 5 });
}
