//! Session lifecycle controller: `Uninitialized -> AwaitingReferenceSpace ->
//! Looping -> Ended`. Each host event is folded into the controller, which
//! answers with the instructions the host must carry out (request the
//! reference frame, register or re-register the frame loop, render, notify a
//! fatal error, release the loop handle). The controller never blocks or
//! spins: suspension between ticks belongs entirely to the host scheduler.

use vstd::prelude::*;
use crate::pipeline::BuildError;
use crate::shader::ResourceFetchError;

verus! {

/// Outcome of the reference-frame negotiation, modelled as a tagged value
/// rather than an unchecked downcast of the platform's response.
#[derive(Clone, Copy, Debug, PartialEq, Eq, Structural)]
pub enum ReferenceSpaceOutcome {
    /// The platform returned a reference space of the expected type.
    Typed,
    /// The platform returned a value of an unexpected type.
    WrongType,
    /// The request itself failed.
    Error,
}

/// A fatal session error: each produces exactly one user-visible
/// notification and no further session activity; none is retried.
#[derive(Clone, Copy, Debug, PartialEq, Eq, Structural)]
pub enum FatalError {
    /// A resource fetch failed before the pipeline existed.
    ResourceFetch(ResourceFetchError),
    /// Pipeline construction failed (stage compile or link).
    Pipeline(BuildError),
    /// No usable spatial reference frame; the session cannot start.
    ReferenceSpace,
}

/// Lifecycle states of the controller.
#[derive(Clone, Copy, Debug, PartialEq, Eq, Structural)]
pub enum SessionPhase {
    Uninitialized,
    AwaitingReferenceSpace,
    Looping,
    Ended,
}

/// An event delivered to the controller by the startup stages or the host.
#[derive(Clone, Copy, Debug, PartialEq, Eq, Structural)]
pub enum SessionEvent {
    /// Resource rendezvous and pipeline construction succeeded.
    PipelineReady,
    /// A startup stage failed before the pipeline existed.
    StartupFailed(FatalError),
    /// The reference-frame request resolved with the tagged outcome.
    ReferenceSpaceResolved(ReferenceSpaceOutcome),
    /// One scheduler tick; `pose_present` reports whether tracking delivered
    /// a viewer pose for this tick.
    Tick { pose_present: bool },
    /// The platform fired the session-termination event.
    EndRequested,
}

/// An instruction to the host, emitted by a transition.
#[derive(Clone, Copy, Debug, PartialEq, Eq, Structural)]
pub enum SessionAction {
    /// Ask the platform for a spatial reference frame.
    RequestReferenceSpace,
    /// Register the frame loop with the host scheduler for its first tick.
    RegisterFrameLoop,
    /// Render this tick's frame: a pose is present.
    RenderFrame,
    /// Re-register the frame loop before the tick returns, so that the loop
    /// continues; omitting it would silently end the session.
    Reregister,
    /// Surface one fatal failure notification to the user.
    NotifyFatal(FatalError),
    /// Release the frame-loop handle: the session is over.
    ReleaseFrameLoop,
}

/// One transition: the next phase and the instructions the host must carry
/// out, in order. Total: an event that has no meaning in the current phase
/// (and every event after `Ended`) changes nothing and instructs nothing.
pub open spec fn spec_session_step(phase: SessionPhase, event: SessionEvent) -> (
    SessionPhase,
    Seq<SessionAction>,
) {
    match (phase, event) {
        (SessionPhase::Uninitialized, SessionEvent::PipelineReady) => (
            SessionPhase::AwaitingReferenceSpace,
            seq![SessionAction::RequestReferenceSpace],
        ),
        (SessionPhase::Uninitialized, SessionEvent::StartupFailed(error)) => (
            SessionPhase::Ended,
            seq![SessionAction::NotifyFatal(error)],
        ),
        (
            SessionPhase::AwaitingReferenceSpace,
            SessionEvent::ReferenceSpaceResolved(outcome),
        ) => match outcome {
            ReferenceSpaceOutcome::Typed => (
                SessionPhase::Looping,
                seq![SessionAction::RegisterFrameLoop],
            ),
            ReferenceSpaceOutcome::WrongType => (
                SessionPhase::Ended,
                seq![SessionAction::NotifyFatal(FatalError::ReferenceSpace)],
            ),
            ReferenceSpaceOutcome::Error => (
                SessionPhase::Ended,
                seq![SessionAction::NotifyFatal(FatalError::ReferenceSpace)],
            ),
        },
        (SessionPhase::Looping, SessionEvent::Tick { pose_present }) => (
            SessionPhase::Looping,
            if pose_present {
                seq![SessionAction::RenderFrame, SessionAction::Reregister]
            } else {
                seq![SessionAction::Reregister]
            },
        ),
        (SessionPhase::Looping, SessionEvent::EndRequested) => (
            SessionPhase::Ended,
            seq![SessionAction::ReleaseFrameLoop],
        ),
        (other, _) => (other, seq![]),
    }
}

/// The phase after folding an event sequence, in order.
pub open spec fn spec_session_run(phase: SessionPhase, events: Seq<SessionEvent>) -> SessionPhase
    decreases events.len(),
{
    if events.len() == 0 {
        phase
    } else {
        spec_session_run(
            spec_session_step(phase, events[0]).0,
            events.subrange(1, events.len() as int),
        )
    }
}

/// Every instruction a run emits, in order.
pub open spec fn spec_session_actions(phase: SessionPhase, events: Seq<SessionEvent>) -> Seq<
    SessionAction,
>
    decreases events.len(),
{
    if events.len() == 0 {
        Seq::empty()
    } else {
        spec_session_step(phase, events[0]).1 + spec_session_actions(
            spec_session_step(phase, events[0]).0,
            events.subrange(1, events.len() as int),
        )
    }
}

/// The session lifecycle controller. It owns no host handles itself: the
/// host keeps the scheduler registration and performs every emitted
/// instruction, then reports the next event.
pub struct SessionController {
    pub phase: SessionPhase,
}

impl SessionController {
    pub fn new() -> (c: SessionController)
        ensures
            c.phase == SessionPhase::Uninitialized,
    {
        SessionController { phase: SessionPhase::Uninitialized }
    }

    /// Fold one event into the controller and hand back the instructions the
    /// host must carry out, in order.
    pub fn step(&mut self, event: SessionEvent) -> (actions: Vec<SessionAction>)
        ensures
            final(self).phase == spec_session_step(old(self).phase, event).0,
            actions@ == spec_session_step(old(self).phase, event).1,
    {
        match (self.phase, event) {
            (SessionPhase::Uninitialized, SessionEvent::PipelineReady) => {
                self.phase = SessionPhase::AwaitingReferenceSpace;
                let actions = vec![SessionAction::RequestReferenceSpace];
                proof {
                    assert(actions@ =~= seq![SessionAction::RequestReferenceSpace]);
                }
                actions
            }
            (SessionPhase::Uninitialized, SessionEvent::StartupFailed(error)) => {
                self.phase = SessionPhase::Ended;
                let actions = vec![SessionAction::NotifyFatal(error)];
                proof {
                    assert(actions@ =~= seq![SessionAction::NotifyFatal(error)]);
                }
                actions
            }
            (
                SessionPhase::AwaitingReferenceSpace,
                SessionEvent::ReferenceSpaceResolved(outcome),
            ) => {
                match outcome {
                    ReferenceSpaceOutcome::Typed => {
                        self.phase = SessionPhase::Looping;
                        let actions = vec![SessionAction::RegisterFrameLoop];
                        proof {
                            assert(actions@ =~= seq![SessionAction::RegisterFrameLoop]);
                        }
                        actions
                    }
                    _ => {
                        self.phase = SessionPhase::Ended;
                        let actions = vec![
                            SessionAction::NotifyFatal(FatalError::ReferenceSpace),
                        ];
                        proof {
                            assert(actions@ =~= seq![
                                SessionAction::NotifyFatal(FatalError::ReferenceSpace),
                            ]);
                        }
                        actions
                    }
                }
            }
            (SessionPhase::Looping, SessionEvent::Tick { pose_present }) => {
                if pose_present {
                    let actions = vec![SessionAction::RenderFrame, SessionAction::Reregister];
                    proof {
                        assert(actions@ =~= seq![
                            SessionAction::RenderFrame,
                            SessionAction::Reregister,
                        ]);
                    }
                    actions
                } else {
                    let actions = vec![SessionAction::Reregister];
                    proof {
                        assert(actions@ =~= seq![SessionAction::Reregister]);
                    }
                    actions
                }
            }
            (SessionPhase::Looping, SessionEvent::EndRequested) => {
                self.phase = SessionPhase::Ended;
                let actions = vec![SessionAction::ReleaseFrameLoop];
                proof {
                    assert(actions@ =~= seq![SessionAction::ReleaseFrameLoop]);
                }
                actions
            }
            _ => {
                let actions: Vec<SessionAction> = Vec::new();
                proof {
                    assert(actions@ =~= Seq::<SessionAction>::empty());
                }
                actions
            }
        }
    }
}

/// Splitting an event sequence splits the run: the phase composes, and the
/// emitted instructions concatenate.
pub proof fn lemma_session_run_append(
    phase: SessionPhase,
    a: Seq<SessionEvent>,
    b: Seq<SessionEvent>,
)
    ensures
        spec_session_run(phase, a + b) == spec_session_run(spec_session_run(phase, a), b),
        spec_session_actions(phase, a + b) == spec_session_actions(phase, a)
            + spec_session_actions(spec_session_run(phase, a), b),
    decreases a.len(),
{
    if a.len() == 0 {
        assert(a + b =~= b);
        assert(spec_session_actions(phase, a) + spec_session_actions(phase, b)
            =~= spec_session_actions(phase, b));
    } else {
        assert((a + b).subrange(1, (a + b).len() as int) =~= a.subrange(1, a.len() as int) + b);
        lemma_session_run_append(
            spec_session_step(phase, a[0]).0,
            a.subrange(1, a.len() as int),
            b,
        );
        assert(spec_session_actions(phase, a + b) =~= spec_session_actions(phase, a)
            + spec_session_actions(spec_session_run(phase, a), b));
    }
}

/// An ended session is inert: no later event changes it, and no instruction
/// is ever emitted again — in particular the frame loop is never
/// re-registered after the session ends.
pub proof fn lemma_ended_is_absorbing(events: Seq<SessionEvent>)
    ensures
        spec_session_run(SessionPhase::Ended, events) == SessionPhase::Ended,
        spec_session_actions(SessionPhase::Ended, events) == Seq::<SessionAction>::empty(),
    decreases events.len(),
{
    if events.len() > 0 {
        lemma_ended_is_absorbing(events.subrange(1, events.len() as int));
        assert(spec_session_actions(SessionPhase::Ended, events) =~= Seq::<
            SessionAction,
        >::empty());
    }
}

/// A startup failure halts the session for good: whatever events follow, the
/// controller never reaches the reference-space or looping states, exactly
/// one fatal notification is surfaced, and the frame loop is never
/// registered (so no tick ever fires).
pub proof fn lemma_startup_failure_halts(error: FatalError, rest: Seq<SessionEvent>)
    ensures
        spec_session_run(
            SessionPhase::Uninitialized,
            seq![SessionEvent::StartupFailed(error)] + rest,
        ) == SessionPhase::Ended,
        spec_session_actions(
            SessionPhase::Uninitialized,
            seq![SessionEvent::StartupFailed(error)] + rest,
        ) == seq![SessionAction::NotifyFatal(error)],
        forall|k: int|
            0 <= k <= (seq![SessionEvent::StartupFailed(error)] + rest).len() ==> {
                !(#[trigger] spec_session_run(
                    SessionPhase::Uninitialized,
                    (seq![SessionEvent::StartupFailed(error)] + rest).subrange(0, k),
                ) is AwaitingReferenceSpace) && !(spec_session_run(
                    SessionPhase::Uninitialized,
                    (seq![SessionEvent::StartupFailed(error)] + rest).subrange(0, k),
                ) is Looping)
            },
{
    let first = seq![SessionEvent::StartupFailed(error)];
    let all = first + rest;
    assert(all[0] == SessionEvent::StartupFailed(error));
    assert(all.subrange(1, all.len() as int) =~= rest);
    lemma_ended_is_absorbing(rest);
    assert(spec_session_run(SessionPhase::Uninitialized, all) == SessionPhase::Ended);
    assert(spec_session_actions(SessionPhase::Uninitialized, all)
        =~= seq![SessionAction::NotifyFatal(error)]);
    assert forall|k: int| 0 <= k <= all.len() implies {
        !(#[trigger] spec_session_run(
            SessionPhase::Uninitialized,
            all.subrange(0, k),
        ) is AwaitingReferenceSpace) && !(spec_session_run(
            SessionPhase::Uninitialized,
            all.subrange(0, k),
        ) is Looping)
    } by {
        if k == 0 {
            assert(all.subrange(0, 0) =~= Seq::<SessionEvent>::empty());
        } else {
            assert(all.subrange(0, k) =~= first + rest.subrange(0, k - 1));
            assert((first + rest.subrange(0, k - 1)).subrange(
                1,
                (first + rest.subrange(0, k - 1)).len() as int,
            ) =~= rest.subrange(0, k - 1));
            lemma_ended_is_absorbing(rest.subrange(0, k - 1));
        }
    }
}

/// A failed reference-frame negotiation (a wrong-typed handle or a failed
/// request) is fatal like every startup failure: one notification, the
/// session ends, and the frame loop is never registered.
pub proof fn lemma_reference_space_failure_halts(
    outcome: ReferenceSpaceOutcome,
    rest: Seq<SessionEvent>,
)
    requires
        !(outcome is Typed),
    ensures
        spec_session_run(
            SessionPhase::AwaitingReferenceSpace,
            seq![SessionEvent::ReferenceSpaceResolved(outcome)] + rest,
        ) == SessionPhase::Ended,
        spec_session_actions(
            SessionPhase::AwaitingReferenceSpace,
            seq![SessionEvent::ReferenceSpaceResolved(outcome)] + rest,
        ) == seq![SessionAction::NotifyFatal(FatalError::ReferenceSpace)],
{
    let first = seq![SessionEvent::ReferenceSpaceResolved(outcome)];
    let all = first + rest;
    assert(all[0] == SessionEvent::ReferenceSpaceResolved(outcome));
    assert(all.subrange(1, all.len() as int) =~= rest);
    lemma_ended_is_absorbing(rest);
    assert(spec_session_actions(SessionPhase::AwaitingReferenceSpace, all)
        =~= seq![SessionAction::NotifyFatal(FatalError::ReferenceSpace)]);
}

/// While the session is looping, every scheduler tick keeps it looping and
/// re-registers the frame loop as its last instruction before returning;
/// the frame is rendered exactly when a pose is present (a missing pose
/// skips rendering for that tick only).
pub proof fn lemma_looping_tick_reregisters(pose_present: bool)
    ensures
        spec_session_step(SessionPhase::Looping, SessionEvent::Tick { pose_present }).0
            == SessionPhase::Looping,
        spec_session_step(SessionPhase::Looping, SessionEvent::Tick { pose_present }).1.last()
            == SessionAction::Reregister,
        spec_session_step(SessionPhase::Looping, SessionEvent::Tick { pose_present }).1.contains(
            SessionAction::RenderFrame,
        ) <==> pose_present,
{
    let actions = spec_session_step(SessionPhase::Looping, SessionEvent::Tick { pose_present }).1;
    if pose_present {
        assert(actions[0] == SessionAction::RenderFrame);
    } else {
        assert(forall|i: int| 0 <= i < actions.len() ==> #[trigger] actions[i]
            != SessionAction::RenderFrame);
    }
}

/// The termination signal is the only event that ends a looping session;
/// it releases the frame-loop handle, and afterwards nothing is rendered,
/// registered or re-registered, whatever events still arrive.
pub proof fn lemma_end_signal_stops_loop(rest: Seq<SessionEvent>)
    ensures
        spec_session_run(SessionPhase::Looping, seq![SessionEvent::EndRequested] + rest)
            == SessionPhase::Ended,
        spec_session_actions(SessionPhase::Looping, seq![SessionEvent::EndRequested] + rest)
            == seq![SessionAction::ReleaseFrameLoop],
        forall|event: SessionEvent| !(event is EndRequested)
            ==> #[trigger] spec_session_step(SessionPhase::Looping, event).0
            == SessionPhase::Looping,
{
    let first = seq![SessionEvent::EndRequested];
    let all = first + rest;
    assert(all[0] == SessionEvent::EndRequested);
    assert(all.subrange(1, all.len() as int) =~= rest);
    lemma_ended_is_absorbing(rest);
    assert(spec_session_actions(SessionPhase::Looping, all)
        =~= seq![SessionAction::ReleaseFrameLoop]);
}

} // verus!
