use webxr_session::pipeline::{
    run_build, AttribKind, BuildAction, BuildError, BuildEvent, BuildPhase, CompiledProgram,
    LinkFailure, PipelineBuilder,
};
use webxr_session::shader::{Shader, ShaderKind};

fn complete_shaders() -> Shader {
    Shader {
        vertex_shader: Some(String::from("void main() { gl_Position = vec4(0.0); }")),
        fragment_shader: Some(String::from("void main() { color = vec4(1.0); }")),
    }
}

fn happy_events() -> Vec<BuildEvent> {
    vec![
        BuildEvent::StageCompiled { ok: true },
        BuildEvent::StageCompiled { ok: true },
        BuildEvent::ProgramLinked { ok: true },
        BuildEvent::BufferUploaded,
        BuildEvent::BufferUploaded,
        BuildEvent::AttributesResolved {
            position: 0,
            color: 1,
        },
        BuildEvent::DrawStateConfigured,
    ]
}

#[test]
fn build_happy_path_yields_program_with_resolved_locations() {
    let b = run_build(&complete_shaders(), &happy_events());
    let program = b
        .outcome()
        .expect("build finished")
        .expect("build succeeded");
    // The locations are u32: both necessarily non-negative.
    assert_eq!(
        program,
        CompiledProgram {
            position_location: 0,
            color_location: 1,
        }
    );
}

#[test]
fn build_requests_steps_in_order() {
    let shaders = complete_shaders();
    let mut b = PipelineBuilder::new(&shaders);
    let expected = [
        BuildAction::CompileStage(ShaderKind::Vertex),
        BuildAction::CompileStage(ShaderKind::Fragment),
        BuildAction::LinkProgram,
        BuildAction::UploadVertexBuffer,
        BuildAction::UploadIndexBuffer,
        BuildAction::ResolveAttributes,
        BuildAction::ConfigureDrawState,
    ];
    for (action, event) in expected.iter().zip(happy_events()) {
        assert_eq!(b.current_action(), Some(*action));
        assert_eq!(b.outcome(), None);
        b.step(event);
    }
    assert_eq!(b.current_action(), None);
}

#[test]
fn vertex_compile_failure_is_fatal_and_never_links() {
    let shaders = complete_shaders();
    let mut b = PipelineBuilder::new(&shaders);
    b.step(BuildEvent::StageCompiled { ok: false });
    assert_eq!(
        b.outcome(),
        Some(Err(BuildError::CompileError {
            stage: ShaderKind::Vertex,
        }))
    );
    // No further step is requested, the link in particular.
    assert_eq!(b.current_action(), None);
    // Later reports change nothing.
    b.step(BuildEvent::ProgramLinked { ok: true });
    b.step(BuildEvent::DrawStateConfigured);
    assert_eq!(b.current_action(), None);
    assert_eq!(
        b.outcome(),
        Some(Err(BuildError::CompileError {
            stage: ShaderKind::Vertex,
        }))
    );
}

#[test]
fn fragment_compile_failure_is_fatal() {
    let b = run_build(
        &complete_shaders(),
        &vec![
            BuildEvent::StageCompiled { ok: true },
            BuildEvent::StageCompiled { ok: false },
        ],
    );
    assert_eq!(
        b.outcome(),
        Some(Err(BuildError::CompileError {
            stage: ShaderKind::Fragment,
        }))
    );
}

#[test]
fn link_failure_is_fatal() {
    let b = run_build(
        &complete_shaders(),
        &vec![
            BuildEvent::StageCompiled { ok: true },
            BuildEvent::StageCompiled { ok: true },
            BuildEvent::ProgramLinked { ok: false },
        ],
    );
    assert_eq!(
        b.outcome(),
        Some(Err(BuildError::LinkError {
            reason: LinkFailure::ProgramLinkFailed,
        }))
    );
}

#[test]
fn missing_position_attribute_is_a_link_error() {
    let mut events = happy_events();
    events[5] = BuildEvent::AttributesResolved {
        position: -1,
        color: 1,
    };
    let b = run_build(&complete_shaders(), &events);
    assert_eq!(
        b.outcome(),
        Some(Err(BuildError::LinkError {
            reason: LinkFailure::AttributeNotFound(AttribKind::Position),
        }))
    );
}

#[test]
fn missing_color_attribute_is_a_link_error() {
    let mut events = happy_events();
    events[5] = BuildEvent::AttributesResolved {
        position: 2,
        color: -1,
    };
    let b = run_build(&complete_shaders(), &events);
    assert_eq!(
        b.outcome(),
        Some(Err(BuildError::LinkError {
            reason: LinkFailure::AttributeNotFound(AttribKind::Color),
        }))
    );
}

#[test]
fn rebuilding_with_identical_reports_is_idempotent() {
    let first = run_build(&complete_shaders(), &happy_events());
    let second = run_build(&complete_shaders(), &happy_events());
    assert_eq!(first.phase, second.phase);
    assert_eq!(first.outcome(), second.outcome());
    assert!(matches!(first.phase, BuildPhase::Complete { .. }));
}
