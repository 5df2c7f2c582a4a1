//! The shader compile/link pipeline with error recovery.
//!
//! Turning two source files into a linked GPU program takes a fixed sequence
//! of outside calls: read the vertex source, read the fragment source,
//! compile each stage, link the two stages. The pipeline here is the decision
//! half of that work: a step-by-step state machine that says, after each
//! outside call reports its outcome, what the next step is, which GPU
//! handles must be released before taking it, and — on failure — which error
//! describes the attempt. The caller performs the outside calls and feeds
//! their outcomes back in.
//!
//! Stage handles never outlive program creation: on every path to a terminal
//! step, every stage handle the pipeline acquired has been listed for
//! release, whether the attempt succeeded or failed.

use vstd::prelude::*;

verus! {

/// One shader stage of the program.
#[derive(Clone, Copy, PartialEq, Eq, Structural, Debug)]
pub enum ShaderStage {
    Vertex,
    Fragment,
}

/// Why a compile attempt failed.
#[derive(Debug)]
pub enum CompileError {
    /// A source file could not be read; carries the failing stage and the
    /// reader's description of the cause.
    SourceUnreadable { stage: ShaderStage, cause: String },
    /// The driver rejected one stage's source; carries the stage and the
    /// driver's verbatim diagnostic log.
    StageCompile { stage: ShaderStage, log: String },
    /// Both stages compiled but failed to link; carries the driver's log.
    Link { log: String },
}

/// Where a compile attempt stands. The non-terminal steps name the next
/// outside call to make; `Done` and `Failed` end the attempt.
pub enum CompileStep {
    /// Read the vertex source file.
    ReadVertex,
    /// Read the fragment source file.
    ReadFragment { vertex_source: String },
    /// Compile the vertex stage from its source.
    CompileVertex { vertex_source: String, fragment_source: String },
    /// Compile the fragment stage; the vertex stage handle is held.
    CompileFragment { fragment_source: String, vertex_stage: u32 },
    /// Link the two compiled stages into a program.
    Link { vertex_stage: u32, fragment_stage: u32 },
    /// The attempt succeeded: a linked program handle.
    Done { program: u32 },
    /// The attempt failed; no handle is held.
    Failed { error: CompileError },
}

/// What one outside call reported.
pub enum StepOutcome {
    /// A source file was read in full.
    ReadOk { text: String },
    /// A source file could not be read.
    ReadErr { cause: String },
    /// A stage compiled; carries the new stage handle.
    StageOk { handle: u32 },
    /// A stage failed to compile; carries the driver's log.
    StageErr { log: String },
    /// Linking succeeded; carries the new program handle.
    LinkOk { program: u32 },
    /// Linking failed; carries the partially created program handle, which
    /// must be released, and the driver's log.
    LinkErr { program: u32, log: String },
}

/// Handles that must be released before the next step is taken.
pub struct ReleaseActions {
    /// Stage handles to delete.
    pub stages: Vec<u32>,
    /// Program handles to delete.
    pub programs: Vec<u32>,
}

/// Whether the outcome is of the kind the step's outside call reports:
/// reads report text or a cause, stage compiles a handle or a log, linking a
/// program or a program with a log. Terminal steps accept no outcome.
pub open spec fn step_accepts(step: CompileStep, outcome: StepOutcome) -> bool {
    match step {
        CompileStep::ReadVertex => outcome is ReadOk || outcome is ReadErr,
        CompileStep::ReadFragment { .. } => outcome is ReadOk || outcome is ReadErr,
        CompileStep::CompileVertex { .. } => outcome is StageOk || outcome is StageErr,
        CompileStep::CompileFragment { .. } => outcome is StageOk || outcome is StageErr,
        CompileStep::Link { .. } => outcome is LinkOk || outcome is LinkErr,
        CompileStep::Done { .. } => false,
        CompileStep::Failed { .. } => false,
    }
}

/// The step that follows `step` once its outside call reported `outcome`.
pub open spec fn next_step(step: CompileStep, outcome: StepOutcome) -> CompileStep {
    match (step, outcome) {
        (CompileStep::ReadVertex, StepOutcome::ReadOk { text }) => CompileStep::ReadFragment {
            vertex_source: text,
        },
        (CompileStep::ReadVertex, StepOutcome::ReadErr { cause }) => CompileStep::Failed {
            error: CompileError::SourceUnreadable { stage: ShaderStage::Vertex, cause },
        },
        (
            CompileStep::ReadFragment { vertex_source },
            StepOutcome::ReadOk { text },
        ) => CompileStep::CompileVertex { vertex_source, fragment_source: text },
        (CompileStep::ReadFragment { .. }, StepOutcome::ReadErr { cause }) => CompileStep::Failed {
            error: CompileError::SourceUnreadable { stage: ShaderStage::Fragment, cause },
        },
        (
            CompileStep::CompileVertex { fragment_source, .. },
            StepOutcome::StageOk { handle },
        ) => CompileStep::CompileFragment { fragment_source, vertex_stage: handle },
        (CompileStep::CompileVertex { .. }, StepOutcome::StageErr { log }) => CompileStep::Failed {
            error: CompileError::StageCompile { stage: ShaderStage::Vertex, log },
        },
        (
            CompileStep::CompileFragment { vertex_stage, .. },
            StepOutcome::StageOk { handle },
        ) => CompileStep::Link { vertex_stage, fragment_stage: handle },
        (
            CompileStep::CompileFragment { .. },
            StepOutcome::StageErr { log },
        ) => CompileStep::Failed {
            error: CompileError::StageCompile { stage: ShaderStage::Fragment, log },
        },
        (CompileStep::Link { .. }, StepOutcome::LinkOk { program }) => CompileStep::Done {
            program,
        },
        (CompileStep::Link { .. }, StepOutcome::LinkErr { log, .. }) => CompileStep::Failed {
            error: CompileError::Link { log },
        },
        (s, _) => s,
    }
}

/// Stage handles to release when `step` meets `outcome`: the held vertex
/// stage when the fragment stage fails to compile, and both stages after
/// linking, whether it succeeded (the program retains the compiled code) or
/// failed.
pub open spec fn released_stages(step: CompileStep, outcome: StepOutcome) -> Seq<u32> {
    match (step, outcome) {
        (
            CompileStep::CompileFragment { vertex_stage, .. },
            StepOutcome::StageErr { .. },
        ) => seq![vertex_stage],
        (
            CompileStep::Link { vertex_stage, fragment_stage },
            StepOutcome::LinkOk { .. },
        ) => seq![vertex_stage, fragment_stage],
        (
            CompileStep::Link { vertex_stage, fragment_stage },
            StepOutcome::LinkErr { .. },
        ) => seq![vertex_stage, fragment_stage],
        _ => seq![],
    }
}

/// Program handles to release when `step` meets `outcome`: only the
/// partially created program of a failed link.
pub open spec fn released_programs(step: CompileStep, outcome: StepOutcome) -> Seq<u32> {
    match (step, outcome) {
        (CompileStep::Link { .. }, StepOutcome::LinkErr { program, .. }) => seq![program],
        _ => seq![],
    }
}

/// Stage handles a step holds while the attempt is under way.
pub open spec fn held_stages(step: CompileStep) -> Seq<u32> {
    match step {
        CompileStep::CompileFragment { vertex_stage, .. } => seq![vertex_stage],
        CompileStep::Link { vertex_stage, fragment_stage } => seq![vertex_stage, fragment_stage],
        _ => seq![],
    }
}

/// Stage handles an outcome hands over.
pub open spec fn acquired_stages(outcome: StepOutcome) -> Seq<u32> {
    match outcome {
        StepOutcome::StageOk { handle } => seq![handle],
        _ => seq![],
    }
}

/// Whether the attempt has ended.
pub open spec fn is_terminal(step: CompileStep) -> bool {
    step is Done || step is Failed
}

impl CompileStep {
    /// Whether this step ends the attempt.
    pub fn terminal(&self) -> (r: bool)
        ensures
            r == is_terminal(*self),
    {
        match self {
            CompileStep::Done { .. } => true,
            CompileStep::Failed { .. } => true,
            _ => false,
        }
    }
}

/// Advances the pipeline one step: given where the attempt stands and what
/// the step's outside call reported, returns the next step and the handles
/// to release before taking it.
pub fn advance(step: CompileStep, outcome: StepOutcome) -> (r: (CompileStep, ReleaseActions))
    requires
        step_accepts(step, outcome),
    ensures
        r.0 == next_step(step, outcome),
        r.1.stages@ == released_stages(step, outcome),
        r.1.programs@ == released_programs(step, outcome),
{
    match (step, outcome) {
        (CompileStep::ReadVertex, StepOutcome::ReadOk { text }) => {
            (
                CompileStep::ReadFragment { vertex_source: text },
                ReleaseActions { stages: Vec::new(), programs: Vec::new() },
            )
        },
        (CompileStep::ReadVertex, StepOutcome::ReadErr { cause }) => {
            (
                CompileStep::Failed {
                    error: CompileError::SourceUnreadable { stage: ShaderStage::Vertex, cause },
                },
                ReleaseActions { stages: Vec::new(), programs: Vec::new() },
            )
        },
        (CompileStep::ReadFragment { vertex_source }, StepOutcome::ReadOk { text }) => {
            (
                CompileStep::CompileVertex { vertex_source, fragment_source: text },
                ReleaseActions { stages: Vec::new(), programs: Vec::new() },
            )
        },
        (CompileStep::ReadFragment { .. }, StepOutcome::ReadErr { cause }) => {
            (
                CompileStep::Failed {
                    error: CompileError::SourceUnreadable { stage: ShaderStage::Fragment, cause },
                },
                ReleaseActions { stages: Vec::new(), programs: Vec::new() },
            )
        },
        (CompileStep::CompileVertex { fragment_source, .. }, StepOutcome::StageOk { handle }) => {
            (
                CompileStep::CompileFragment { fragment_source, vertex_stage: handle },
                ReleaseActions { stages: Vec::new(), programs: Vec::new() },
            )
        },
        (CompileStep::CompileVertex { .. }, StepOutcome::StageErr { log }) => {
            (
                CompileStep::Failed {
                    error: CompileError::StageCompile { stage: ShaderStage::Vertex, log },
                },
                ReleaseActions { stages: Vec::new(), programs: Vec::new() },
            )
        },
        (CompileStep::CompileFragment { vertex_stage, .. }, StepOutcome::StageOk { handle }) => {
            (
                CompileStep::Link { vertex_stage, fragment_stage: handle },
                ReleaseActions { stages: Vec::new(), programs: Vec::new() },
            )
        },
        (CompileStep::CompileFragment { vertex_stage, .. }, StepOutcome::StageErr { log }) => {
            let mut stages: Vec<u32> = Vec::new();
            stages.push(vertex_stage);
            (
                CompileStep::Failed {
                    error: CompileError::StageCompile { stage: ShaderStage::Fragment, log },
                },
                ReleaseActions { stages, programs: Vec::new() },
            )
        },
        (CompileStep::Link { vertex_stage, fragment_stage }, StepOutcome::LinkOk { program }) => {
            let mut stages: Vec<u32> = Vec::new();
            stages.push(vertex_stage);
            stages.push(fragment_stage);
            (
                CompileStep::Done { program },
                ReleaseActions { stages, programs: Vec::new() },
            )
        },
        (
            CompileStep::Link { vertex_stage, fragment_stage },
            StepOutcome::LinkErr { program, log },
        ) => {
            let mut stages: Vec<u32> = Vec::new();
            stages.push(vertex_stage);
            stages.push(fragment_stage);
            let mut programs: Vec<u32> = Vec::new();
            programs.push(program);
            (
                CompileStep::Failed { error: CompileError::Link { log } },
                ReleaseActions { stages, programs },
            )
        },
        (s, _) => {
            (s, ReleaseActions { stages: Vec::new(), programs: Vec::new() })
        },
    }
}

/// The text of the default pass-through vertex shader.
pub open spec fn default_vertex_source_spec() -> Seq<char> {
    "#version 330 core
layout (location = 0) in vec3 aPos;
layout (location = 1) in vec2 aTexCoord;

out vec2 TexCoord;

void main() {
  gl_Position = vec4(aPos, 1.0);
  TexCoord = aTexCoord;
}
"@
}

/// The text of the default time-varying-color fragment shader.
pub open spec fn default_fragment_source_spec() -> Seq<char> {
    "#version 330 core
in vec2 TexCoord;
out vec4 FragColor;

uniform float u_time;       // Total elapsed time (seconds)
uniform float u_deltaTime;  // Time since last frame (seconds)
uniform float u_epochTime;  // System time (seconds since Unix epoch)
uniform vec2 u_resolution;  // Window size (pixels)

void main() {
  // Normalized coordinates (0 to 1)
  vec2 uv = TexCoord;

  // Time varying color
  vec3 col = 0.5 + 0.5 * cos(u_time + uv.xyx + vec3(0.0, 2.0, 4.0));

  // Output to screen
  FragColor = vec4(col, 1.0);
}
"@
}

/// The default pass-through vertex shader, written to the vertex path when
/// no file exists there yet, so the viewer always has something renderable.
pub fn default_vertex_source() -> (r: &'static str)
    ensures
        r@ == default_vertex_source_spec(),
{
    "#version 330 core
layout (location = 0) in vec3 aPos;
layout (location = 1) in vec2 aTexCoord;

out vec2 TexCoord;

void main() {
  gl_Position = vec4(aPos, 1.0);
  TexCoord = aTexCoord;
}
"
}

/// The default animated-color fragment shader, written to the fragment path
/// when no file exists there yet; it declares all four uniforms the viewer
/// sets.
pub fn default_fragment_source() -> (r: &'static str)
    ensures
        r@ == default_fragment_source_spec(),
{
    "#version 330 core
in vec2 TexCoord;
out vec4 FragColor;

uniform float u_time;       // Total elapsed time (seconds)
uniform float u_deltaTime;  // Time since last frame (seconds)
uniform float u_epochTime;  // System time (seconds since Unix epoch)
uniform vec2 u_resolution;  // Window size (pixels)

void main() {
  // Normalized coordinates (0 to 1)
  vec2 uv = TexCoord;

  // Time varying color
  vec3 col = 0.5 + 0.5 * cos(u_time + uv.xyx + vec3(0.0, 2.0, 4.0));

  // Output to screen
  FragColor = vec4(col, 1.0);
}
"
}

/// Law: the pipeline leaks no stage handle. At every step, the handles held
/// before plus the handle just acquired are exactly the handles held after
/// plus the handles listed for release.
pub proof fn lemma_no_stage_leak(step: CompileStep, outcome: StepOutcome)
    requires
        step_accepts(step, outcome),
    ensures
        held_stages(step) + acquired_stages(outcome) =~= held_stages(next_step(step, outcome))
            + released_stages(step, outcome),
{
}

/// Law: a terminal step holds no stage handle, so stage handles never
/// outlive the attempt that acquired them.
pub proof fn lemma_terminal_holds_no_stage(step: CompileStep)
    requires
        is_terminal(step),
    ensures
        held_stages(step) =~= Seq::<u32>::empty(),
{
}

/// The step the pipeline stands at after the outcomes were fed in, in order.
pub open spec fn run_steps(step: CompileStep, outcomes: Seq<StepOutcome>) -> CompileStep
    decreases outcomes.len(),
{
    if outcomes.len() == 0 {
        step
    } else {
        run_steps(next_step(step, outcomes.first()), outcomes.drop_first())
    }
}

/// Whether each outcome in turn is of the kind its step's outside call
/// reports.
pub open spec fn run_accepts(step: CompileStep, outcomes: Seq<StepOutcome>) -> bool
    decreases outcomes.len(),
{
    outcomes.len() == 0 || (step_accepts(step, outcomes.first()) && run_accepts(
        next_step(step, outcomes.first()),
        outcomes.drop_first(),
    ))
}

/// Every stage handle the outcomes hand over, in order.
pub open spec fn run_acquired_stages(outcomes: Seq<StepOutcome>) -> Seq<u32>
    decreases outcomes.len(),
{
    if outcomes.len() == 0 {
        Seq::empty()
    } else {
        acquired_stages(outcomes.first()) + run_acquired_stages(outcomes.drop_first())
    }
}

/// Every stage handle listed for release along the run, in order.
pub open spec fn run_released_stages(step: CompileStep, outcomes: Seq<StepOutcome>) -> Seq<u32>
    decreases outcomes.len(),
{
    if outcomes.len() == 0 {
        Seq::empty()
    } else {
        released_stages(step, outcomes.first()) + run_released_stages(
            next_step(step, outcomes.first()),
            outcomes.drop_first(),
        )
    }
}

/// Law: over a whole compile attempt — any run of accepted outcomes — the
/// stage handles held at the start together with every handle acquired along
/// the way are exactly the handles held at the end together with every
/// handle listed for release. Each acquired handle is released exactly once
/// unless the final step still holds it, and no handle is released that was
/// never acquired or held.
pub proof fn lemma_run_no_stage_leak(step: CompileStep, outcomes: Seq<StepOutcome>)
    requires
        run_accepts(step, outcomes),
    ensures
        (held_stages(step) + run_acquired_stages(outcomes)).to_multiset() =~= (held_stages(
            run_steps(step, outcomes),
        ) + run_released_stages(step, outcomes)).to_multiset(),
    decreases outcomes.len(),
{
    broadcast use vstd::seq_lib::lemma_multiset_commutative;

    if outcomes.len() == 0 {
        assert(held_stages(step) + run_acquired_stages(outcomes) =~= held_stages(step));
        assert(held_stages(run_steps(step, outcomes)) + run_released_stages(step, outcomes)
            =~= held_stages(step));
    } else {
        let first = outcomes.first();
        let rest = outcomes.drop_first();
        let mid = next_step(step, first);
        lemma_no_stage_leak(step, first);
        lemma_run_no_stage_leak(mid, rest);
        assert((held_stages(step) + acquired_stages(first)).to_multiset() =~= (held_stages(mid)
            + released_stages(step, first)).to_multiset());
    }
}

/// How many outside calls an attempt standing at `step` can still make.
pub open spec fn steps_remaining(step: CompileStep) -> nat {
    match step {
        CompileStep::ReadVertex => 5,
        CompileStep::ReadFragment { .. } => 4,
        CompileStep::CompileVertex { .. } => 3,
        CompileStep::CompileFragment { .. } => 2,
        CompileStep::Link { .. } => 1,
        CompileStep::Done { .. } => 0,
        CompileStep::Failed { .. } => 0,
    }
}

/// Law: the pipeline makes progress. Every accepted outcome brings the
/// attempt strictly nearer its end, so a compile attempt ends after at most
/// five outside calls.
pub proof fn lemma_pipeline_progress(step: CompileStep, outcome: StepOutcome)
    requires
        step_accepts(step, outcome),
    ensures
        steps_remaining(next_step(step, outcome)) < steps_remaining(step),
        steps_remaining(step) <= 5,
{
}

} // verus!
