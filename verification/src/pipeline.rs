//! Pipeline builder: compiles and links the two shader stages, uploads the
//! static mesh buffers, resolves the two vertex attributes, and configures
//! the session-wide draw state. The GPU context performs each step and
//! reports its outcome; this module decides which step comes next and
//! classifies every outcome, so that a failed stage compile or a failed link
//! is fatal and no further construction step is ever requested after it.

use vstd::prelude::*;
use crate::shader::Shader;
use crate::shader::ShaderKind;

verus! {

/// The two vertex attributes the pipeline needs, by their shader names.
#[derive(Clone, Copy, Debug, PartialEq, Eq, Structural)]
pub enum AttribKind {
    /// `vertex_position`, 3 components per vertex.
    Position,
    /// `color`, 4 components per vertex.
    Color,
}

/// Why linking the program failed.
#[derive(Clone, Copy, Debug, PartialEq, Eq, Structural)]
pub enum LinkFailure {
    /// The program itself did not link.
    ProgramLinkFailed,
    /// A required attribute is missing from the linked program.
    AttributeNotFound(AttribKind),
}

/// A fatal pipeline-construction error; none of these is retried.
#[derive(Clone, Copy, Debug, PartialEq, Eq, Structural)]
pub enum BuildError {
    /// A stage failed to compile; construction aborts before any link.
    CompileError { stage: ShaderKind },
    /// Linking failed or left the program without a required attribute.
    LinkError { reason: LinkFailure },
}

/// The verified outcome of a successful build: both attribute locations,
/// resolved by name and necessarily non-negative. The linked-program and
/// context handles themselves are opaque host values kept by the caller.
#[derive(Clone, Copy, Debug, PartialEq, Eq, Structural)]
pub struct CompiledProgram {
    pub position_location: u32,
    pub color_location: u32,
}

/// The next construction step the host context must perform.
#[derive(Clone, Copy, Debug, PartialEq, Eq, Structural)]
pub enum BuildAction {
    /// Compile the given stage from its source and report the compile status.
    CompileStage(ShaderKind),
    /// Link the program from the two compiled stages and report link status.
    LinkProgram,
    /// Upload the fixed interleaved vertex buffer as a static buffer.
    UploadVertexBuffer,
    /// Upload the fixed index buffer as a static buffer.
    UploadIndexBuffer,
    /// Look up the locations of `vertex_position` and `color` by name.
    ResolveAttributes,
    /// Bind the attribute layout, enable depth testing and back-face
    /// culling, and bind the program as current.
    ConfigureDrawState,
}

/// The host context's report after performing the requested step.
#[derive(Clone, Copy, Debug, PartialEq, Eq, Structural)]
pub enum BuildEvent {
    /// Compile status of the stage that was requested.
    StageCompiled { ok: bool },
    /// Link status of the program.
    ProgramLinked { ok: bool },
    /// The requested buffer upload finished.
    BufferUploaded,
    /// Reported locations of the position and color attributes; a negative
    /// location means the attribute was not found.
    AttributesResolved { position: i32, color: i32 },
    /// The draw state was configured and the program bound as current.
    DrawStateConfigured,
}

/// Progress of the builder. The two terminal phases carry the outcome.
#[derive(Clone, Copy, Debug, PartialEq, Eq, Structural)]
pub enum BuildPhase {
    CompilingVertex,
    CompilingFragment,
    Linking,
    UploadingVertexBuffer,
    UploadingIndexBuffer,
    ResolvingAttributes,
    ConfiguringDrawState { position_location: u32, color_location: u32 },
    Complete { program: CompiledProgram },
    Failed { error: BuildError },
}

/// One transition of the builder. Total: a terminal phase, or a report that
/// does not answer the requested step, changes nothing.
pub open spec fn spec_build_step(phase: BuildPhase, event: BuildEvent) -> BuildPhase {
    match (phase, event) {
        (BuildPhase::CompilingVertex, BuildEvent::StageCompiled { ok }) => if ok {
            BuildPhase::CompilingFragment
        } else {
            BuildPhase::Failed { error: BuildError::CompileError { stage: ShaderKind::Vertex } }
        },
        (BuildPhase::CompilingFragment, BuildEvent::StageCompiled { ok }) => if ok {
            BuildPhase::Linking
        } else {
            BuildPhase::Failed { error: BuildError::CompileError { stage: ShaderKind::Fragment } }
        },
        (BuildPhase::Linking, BuildEvent::ProgramLinked { ok }) => if ok {
            BuildPhase::UploadingVertexBuffer
        } else {
            BuildPhase::Failed {
                error: BuildError::LinkError { reason: LinkFailure::ProgramLinkFailed },
            }
        },
        (BuildPhase::UploadingVertexBuffer, BuildEvent::BufferUploaded) => BuildPhase::UploadingIndexBuffer,
        (BuildPhase::UploadingIndexBuffer, BuildEvent::BufferUploaded) => BuildPhase::ResolvingAttributes,
        (BuildPhase::ResolvingAttributes, BuildEvent::AttributesResolved { position, color }) => if position
            < 0 {
            BuildPhase::Failed {
                error: BuildError::LinkError {
                    reason: LinkFailure::AttributeNotFound(AttribKind::Position),
                },
            }
        } else if color < 0 {
            BuildPhase::Failed {
                error: BuildError::LinkError {
                    reason: LinkFailure::AttributeNotFound(AttribKind::Color),
                },
            }
        } else {
            BuildPhase::ConfiguringDrawState {
                position_location: position as u32,
                color_location: color as u32,
            }
        },
        (
            BuildPhase::ConfiguringDrawState { position_location, color_location },
            BuildEvent::DrawStateConfigured,
        ) => BuildPhase::Complete {
            program: CompiledProgram { position_location, color_location },
        },
        (other, _) => other,
    }
}

/// The step the host must perform in a phase; none in a terminal phase.
pub open spec fn spec_action_of(phase: BuildPhase) -> Option<BuildAction> {
    match phase {
        BuildPhase::CompilingVertex => Some(BuildAction::CompileStage(ShaderKind::Vertex)),
        BuildPhase::CompilingFragment => Some(BuildAction::CompileStage(ShaderKind::Fragment)),
        BuildPhase::Linking => Some(BuildAction::LinkProgram),
        BuildPhase::UploadingVertexBuffer => Some(BuildAction::UploadVertexBuffer),
        BuildPhase::UploadingIndexBuffer => Some(BuildAction::UploadIndexBuffer),
        BuildPhase::ResolvingAttributes => Some(BuildAction::ResolveAttributes),
        BuildPhase::ConfiguringDrawState { .. } => Some(BuildAction::ConfigureDrawState),
        BuildPhase::Complete { .. } => None,
        BuildPhase::Failed { .. } => None,
    }
}

/// The builder folded over the host's reports, in order.
pub open spec fn spec_build_run(phase: BuildPhase, events: Seq<BuildEvent>) -> BuildPhase
    decreases events.len(),
{
    if events.len() == 0 {
        phase
    } else {
        spec_build_run(spec_build_step(phase, events[0]), events.subrange(1, events.len() as int))
    }
}

/// The pipeline builder: the decision half of `build(vertex_text,
/// fragment_text, gpu_context)`. It is created only from a complete shader
/// set, so construction can never start before both payloads are present.
pub struct PipelineBuilder {
    pub phase: BuildPhase,
}

impl PipelineBuilder {
    /// Start a build. Requiring a complete shader set enforces that the
    /// builder never runs before the rendezvous has finished.
    pub fn new(shaders: &Shader) -> (b: PipelineBuilder)
        requires
            shaders.is_complete(),
        ensures
            b.phase == BuildPhase::CompilingVertex,
    {
        PipelineBuilder { phase: BuildPhase::CompilingVertex }
    }

    /// The next step the host must perform, or nothing once the build has
    /// reached its outcome.
    pub fn current_action(&self) -> (a: Option<BuildAction>)
        ensures
            a == spec_action_of(self.phase),
    {
        match self.phase {
            BuildPhase::CompilingVertex => Some(BuildAction::CompileStage(ShaderKind::Vertex)),
            BuildPhase::CompilingFragment => Some(BuildAction::CompileStage(ShaderKind::Fragment)),
            BuildPhase::Linking => Some(BuildAction::LinkProgram),
            BuildPhase::UploadingVertexBuffer => Some(BuildAction::UploadVertexBuffer),
            BuildPhase::UploadingIndexBuffer => Some(BuildAction::UploadIndexBuffer),
            BuildPhase::ResolvingAttributes => Some(BuildAction::ResolveAttributes),
            BuildPhase::ConfiguringDrawState { .. } => Some(BuildAction::ConfigureDrawState),
            BuildPhase::Complete { .. } => None,
            BuildPhase::Failed { .. } => None,
        }
    }

    /// Fold one host report into the builder.
    pub fn step(&mut self, event: BuildEvent)
        ensures
            final(self).phase == spec_build_step(old(self).phase, event),
    {
        self.phase = match (self.phase, event) {
            (BuildPhase::CompilingVertex, BuildEvent::StageCompiled { ok }) => if ok {
                BuildPhase::CompilingFragment
            } else {
                BuildPhase::Failed {
                    error: BuildError::CompileError { stage: ShaderKind::Vertex },
                }
            },
            (BuildPhase::CompilingFragment, BuildEvent::StageCompiled { ok }) => if ok {
                BuildPhase::Linking
            } else {
                BuildPhase::Failed {
                    error: BuildError::CompileError { stage: ShaderKind::Fragment },
                }
            },
            (BuildPhase::Linking, BuildEvent::ProgramLinked { ok }) => if ok {
                BuildPhase::UploadingVertexBuffer
            } else {
                BuildPhase::Failed {
                    error: BuildError::LinkError { reason: LinkFailure::ProgramLinkFailed },
                }
            },
            (BuildPhase::UploadingVertexBuffer, BuildEvent::BufferUploaded) => BuildPhase::UploadingIndexBuffer,
            (BuildPhase::UploadingIndexBuffer, BuildEvent::BufferUploaded) => BuildPhase::ResolvingAttributes,
            (
                BuildPhase::ResolvingAttributes,
                BuildEvent::AttributesResolved { position, color },
            ) => if position < 0 {
                BuildPhase::Failed {
                    error: BuildError::LinkError {
                        reason: LinkFailure::AttributeNotFound(AttribKind::Position),
                    },
                }
            } else if color < 0 {
                BuildPhase::Failed {
                    error: BuildError::LinkError {
                        reason: LinkFailure::AttributeNotFound(AttribKind::Color),
                    },
                }
            } else {
                BuildPhase::ConfiguringDrawState {
                    position_location: position as u32,
                    color_location: color as u32,
                }
            },
            (
                BuildPhase::ConfiguringDrawState { position_location, color_location },
                BuildEvent::DrawStateConfigured,
            ) => BuildPhase::Complete {
                program: CompiledProgram { position_location, color_location },
            },
            (other, _) => other,
        };
    }

    /// The outcome once the build has reached a terminal phase.
    pub fn outcome(&self) -> (r: Option<Result<CompiledProgram, BuildError>>)
        ensures
            self.phase matches BuildPhase::Complete { program } ==> r == Some(
                Ok::<CompiledProgram, BuildError>(program),
            ),
            self.phase matches BuildPhase::Failed { error } ==> r == Some(
                Err::<CompiledProgram, BuildError>(error),
            ),
            !(self.phase is Complete || self.phase is Failed) ==> r is None,
    {
        match self.phase {
            BuildPhase::Complete { program } => Some(Ok(program)),
            BuildPhase::Failed { error } => Some(Err(error)),
            _ => None,
        }
    }
}

/// Run a whole build over the host's reports, in order, starting from the
/// first stage compile.
pub fn run_build(shaders: &Shader, events: &Vec<BuildEvent>) -> (b: PipelineBuilder)
    requires
        shaders.is_complete(),
    ensures
        b.phase == spec_build_run(BuildPhase::CompilingVertex, events@),
{
    let mut builder = PipelineBuilder::new(shaders);
    let mut i: usize = 0;
    proof {
        assert(events@.subrange(0, events@.len() as int) =~= events@);
    }
    while i < events.len()
        invariant
            0 <= i <= events.len(),
            spec_build_run(BuildPhase::CompilingVertex, events@) == spec_build_run(
                builder.phase,
                events@.subrange(i as int, events@.len() as int),
            ),
        decreases events.len() - i,
    {
        let ghost rest = events@.subrange(i as int, events@.len() as int);
        builder.step(events[i]);
        i = i + 1;
        proof {
            assert(rest.subrange(1, rest.len() as int) =~= events@.subrange(
                i as int,
                events@.len() as int,
            ));
        }
    }
    proof {
        assert(events@.subrange(events@.len() as int, events@.len() as int)
            =~= Seq::<BuildEvent>::empty());
    }
    builder
}

/// Splitting a report sequence splits the run: folding `a + b` is folding
/// `a`, then `b`.
pub proof fn lemma_build_run_append(phase: BuildPhase, a: Seq<BuildEvent>, b: Seq<BuildEvent>)
    ensures
        spec_build_run(phase, a + b) == spec_build_run(spec_build_run(phase, a), b),
    decreases a.len(),
{
    if a.len() == 0 {
        assert(a + b =~= b);
    } else {
        assert((a + b).subrange(1, (a + b).len() as int) =~= a.subrange(1, a.len() as int) + b);
        lemma_build_run_append(spec_build_step(phase, a[0]), a.subrange(1, a.len() as int), b);
    }
}

/// A failed build stays failed: no later host report changes it, and no
/// further construction step is ever requested.
pub proof fn lemma_failed_is_absorbing(error: BuildError, events: Seq<BuildEvent>)
    ensures
        spec_build_run(BuildPhase::Failed { error }, events) == (BuildPhase::Failed { error }),
    decreases events.len(),
{
    if events.len() > 0 {
        lemma_failed_is_absorbing(error, events.subrange(1, events.len() as int));
    }
}

/// A stage-compile failure aborts construction: from that report on the
/// builder is failed with the matching `CompileError`, and in particular the
/// link step is never requested afterwards.
pub proof fn lemma_compile_failure_never_links(events: Seq<BuildEvent>, j: int)
    requires
        0 <= j < events.len(),
        spec_build_run(BuildPhase::CompilingVertex, events.subrange(0, j)) is CompilingVertex
            || spec_build_run(BuildPhase::CompilingVertex, events.subrange(0, j)) is CompilingFragment,
        events[j] == (BuildEvent::StageCompiled { ok: false }),
    ensures
        forall|k: int| j < k <= events.len() ==> spec_build_run(
            BuildPhase::CompilingVertex,
            #[trigger] events.subrange(0, k),
        ) is Failed,
        forall|k: int| j < k <= events.len() ==> spec_action_of(
            spec_build_run(BuildPhase::CompilingVertex, #[trigger] events.subrange(0, k)),
        ) != Some(BuildAction::LinkProgram),
        spec_build_run(BuildPhase::CompilingVertex, events) == (BuildPhase::Failed {
            error: BuildError::CompileError {
                stage: if spec_build_run(
                    BuildPhase::CompilingVertex,
                    events.subrange(0, j),
                ) is CompilingVertex {
                    ShaderKind::Vertex
                } else {
                    ShaderKind::Fragment
                },
            },
        }),
{
    let phase_j = spec_build_run(BuildPhase::CompilingVertex, events.subrange(0, j));
    let stage = if phase_j is CompilingVertex {
        ShaderKind::Vertex
    } else {
        ShaderKind::Fragment
    };
    let error = BuildError::CompileError { stage };
    let failed = BuildPhase::Failed { error };
    assert(spec_build_step(phase_j, events[j]) == failed);
    assert forall|k: int| j < k <= events.len() implies spec_build_run(
        BuildPhase::CompilingVertex,
        #[trigger] events.subrange(0, k),
    ) == failed by {
        assert(events.subrange(0, k) =~= events.subrange(0, j) + seq![events[j]] + events.subrange(
            j + 1,
            k,
        ));
        lemma_build_run_append(
            BuildPhase::CompilingVertex,
            events.subrange(0, j) + seq![events[j]],
            events.subrange(j + 1, k),
        );
        lemma_build_run_append(BuildPhase::CompilingVertex, events.subrange(0, j), seq![events[j]]);
        assert(spec_build_run(phase_j, seq![events[j]]) == spec_build_run(
            failed,
            seq![events[j]].subrange(1, 1),
        ));
        assert(seq![events[j]].subrange(1, 1) =~= Seq::<BuildEvent>::empty());
        assert(spec_build_run(failed, Seq::<BuildEvent>::empty()) == failed);
        lemma_failed_is_absorbing(error, events.subrange(j + 1, k));
    }
    assert(events.subrange(0, events.len() as int) =~= events);
    assert(spec_build_run(BuildPhase::CompilingVertex, events) == failed);
}

/// Re-running the builder with identical inputs on an equivalent context
/// (one whose step reports match the first run's, step for step) reaches the
/// same outcome, attribute locations included: the outcome is a function of
/// the context's reports alone.
pub proof fn lemma_build_deterministic(first: Seq<BuildEvent>, second: Seq<BuildEvent>)
    requires
        first == second,
    ensures
        spec_build_run(BuildPhase::CompilingVertex, first) == spec_build_run(
            BuildPhase::CompilingVertex,
            second,
        ),
{
}

} // verus!
