//! The shader compile/link pipeline: ordering, error recovery, handle
//! release.

use shader_viewer::shaders::{
    advance, default_fragment_source, default_vertex_source, CompileError, CompileStep,
    ShaderStage, StepOutcome,
};

fn read_ok(text: &str) -> StepOutcome {
    StepOutcome::ReadOk { text: text.to_string() }
}

#[test]
fn successful_compile_yields_program_and_releases_stages() {
    let step = CompileStep::ReadVertex;
    let (step, acts) = advance(step, read_ok("void main() {}"));
    assert!(acts.stages.is_empty() && acts.programs.is_empty());
    let (step, acts) = advance(step, read_ok("void main() {}"));
    assert!(acts.stages.is_empty() && acts.programs.is_empty());
    let (step, acts) = advance(step, StepOutcome::StageOk { handle: 11 });
    assert!(acts.stages.is_empty() && acts.programs.is_empty());
    let (step, acts) = advance(step, StepOutcome::StageOk { handle: 12 });
    assert!(acts.stages.is_empty() && acts.programs.is_empty());
    let (step, acts) = advance(step, StepOutcome::LinkOk { program: 30 });
    // After a successful link both stage handles are released; the program
    // retains the compiled code.
    assert_eq!(acts.stages, vec![11, 12]);
    assert!(acts.programs.is_empty());
    assert!(matches!(step, CompileStep::Done { program: 30 }));
    assert!(step.terminal());
}

#[test]
fn vertex_read_failure_identifies_vertex_stage() {
    let (step, acts) = advance(
        CompileStep::ReadVertex,
        StepOutcome::ReadErr { cause: "missing".to_string() },
    );
    assert!(acts.stages.is_empty() && acts.programs.is_empty());
    match step {
        CompileStep::Failed { error: CompileError::SourceUnreadable { stage, cause } } => {
            assert_eq!(stage, ShaderStage::Vertex);
            assert_eq!(cause, "missing");
        }
        _ => panic!("expected a source-unreadable failure"),
    }
}

#[test]
fn fragment_read_failure_identifies_fragment_stage() {
    let step = CompileStep::ReadFragment { vertex_source: "v".to_string() };
    let (step, acts) = advance(step, StepOutcome::ReadErr { cause: "denied".to_string() });
    assert!(acts.stages.is_empty() && acts.programs.is_empty());
    assert!(matches!(
        step,
        CompileStep::Failed {
            error: CompileError::SourceUnreadable { stage: ShaderStage::Fragment, .. }
        }
    ));
}

#[test]
fn vertex_compile_failure_skips_fragment_and_releases_nothing() {
    // No stage handle exists yet when the vertex stage fails, so nothing is
    // released, and the pipeline ends without ever compiling the fragment.
    let step = CompileStep::CompileVertex {
        vertex_source: "bad".to_string(),
        fragment_source: "f".to_string(),
    };
    let (step, acts) = advance(step, StepOutcome::StageErr { log: "syntax error".to_string() });
    assert!(acts.stages.is_empty() && acts.programs.is_empty());
    match step {
        CompileStep::Failed { error: CompileError::StageCompile { stage, log } } => {
            assert_eq!(stage, ShaderStage::Vertex);
            assert_eq!(log, "syntax error");
        }
        _ => panic!("expected a stage-compile failure"),
    }
}

#[test]
fn fragment_compile_failure_releases_vertex_stage() {
    let step = CompileStep::CompileFragment {
        fragment_source: "bad".to_string(),
        vertex_stage: 21,
    };
    let (step, acts) = advance(step, StepOutcome::StageErr { log: "bad token".to_string() });
    // The held vertex stage handle must not leak.
    assert_eq!(acts.stages, vec![21]);
    assert!(acts.programs.is_empty());
    assert!(matches!(
        step,
        CompileStep::Failed {
            error: CompileError::StageCompile { stage: ShaderStage::Fragment, .. }
        }
    ));
}

#[test]
fn link_failure_releases_both_stages_and_partial_program() {
    let step = CompileStep::Link { vertex_stage: 5, fragment_stage: 6 };
    let (step, acts) = advance(
        step,
        StepOutcome::LinkErr { program: 40, log: "interface mismatch".to_string() },
    );
    assert_eq!(acts.stages, vec![5, 6]);
    assert_eq!(acts.programs, vec![40]);
    match step {
        CompileStep::Failed { error: CompileError::Link { log } } => {
            assert_eq!(log, "interface mismatch");
        }
        _ => panic!("expected a link failure"),
    }
}

#[test]
fn default_sources_declare_the_uniform_protocol() {
    let vertex = default_vertex_source();
    let fragment = default_fragment_source();
    assert!(!vertex.is_empty());
    assert!(!fragment.is_empty());
    // The pass-through vertex stage forwards position and texture coordinate.
    assert!(vertex.contains("gl_Position"));
    assert!(vertex.contains("aTexCoord"));
    // The fragment stage declares all four uniforms the viewer sets.
    assert!(fragment.contains("uniform float u_time;"));
    assert!(fragment.contains("uniform float u_deltaTime;"));
    assert!(fragment.contains("uniform float u_epochTime;"));
    assert!(fragment.contains("uniform vec2 u_resolution;"));
}

#[test]
fn default_sources_drive_pipeline_to_a_program() {
    // Startup with the freshly written defaults: both reads succeed, both
    // stages compile, the link succeeds, and the attempt ends in a program.
    let step = CompileStep::ReadVertex;
    let (step, _) = advance(step, read_ok(default_vertex_source()));
    let (step, _) = advance(step, read_ok(default_fragment_source()));
    let (step, _) = advance(step, StepOutcome::StageOk { handle: 1 });
    let (step, _) = advance(step, StepOutcome::StageOk { handle: 2 });
    let (step, _) = advance(step, StepOutcome::LinkOk { program: 3 });
    assert!(matches!(step, CompileStep::Done { program: 3 }));
}
