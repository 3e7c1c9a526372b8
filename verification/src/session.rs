//! The decision core of a single run: which OS call comes next, what each
//! call's outcome means, and how the handle pair is accounted for.
//!
//! A run is a fixed protocol: create the process, wait for it to finish,
//! read its exit status, then release whatever handles were acquired and
//! return the result.  The platform driver performs the OS calls; after
//! each one it reports a [`RunEvent`] with the call's outcome as plain
//! values, and the session decides the next [`RunAction`].  Every decision
//! is verified against the mathematical transition [`step`] on the
//! session's model.

use vstd::prelude::*;

use crate::error::Operation;
use crate::error::OperationError;
use crate::handles::HandleGuard;
use crate::outcome::Termination;
use crate::outcome::classification_of;
use crate::outcome::classify_exit_status;

verus! {

/// Where a run stands in its protocol.
#[derive(Clone, Copy, Debug, PartialEq, Eq, Structural)]
pub enum Phase {
    /// The process has not been created yet.
    Launching,
    /// The process exists; the driver must block until it completes.
    Waiting,
    /// The process has completed; its exit status must be read.
    Reading,
    /// The result is settled; only the release of handles remains.
    Done,
}

/// What the platform driver reports about the OS call it just made.  Error
/// codes must be captured from the platform's ambient error state
/// immediately after the failing call, before any further OS call.
#[derive(Clone, Copy, Debug, PartialEq, Eq, Structural)]
pub enum RunEvent {
    /// Process creation succeeded and populated this process/thread handle
    /// pair (a zero field means that handle was not allocated).
    LaunchSucceeded { process: usize, thread: usize },
    /// Process creation failed with this platform error code; the creation
    /// primitive allocates nothing on failure.
    LaunchFailed { code: u32 },
    /// The unbounded wait returned normally: the child has exited.
    WaitSucceeded,
    /// The wait call itself failed with this platform error code.
    WaitFailed { code: u32 },
    /// The child's raw exit status was read successfully.
    StatusRetrieved { status: u32 },
    /// The status-retrieval call failed with this platform error code.
    StatusFailed { code: u32 },
}

/// The next thing the platform driver must do.
#[derive(Clone, Copy, Debug, PartialEq, Eq, Structural)]
pub enum RunAction {
    /// Create the process from the prepared command buffer, with standard
    /// streams inherited from the caller and the child in its own process
    /// group.
    Launch,
    /// Block, without a deadline, until the process handle is signalled.
    Wait,
    /// Read the raw exit status from the process handle.
    ReadStatus,
    /// Call [`RunSession::finish`], close each handle it hands back, and
    /// return its result.
    Finish,
}

/// The mathematical state of a session: its phase, the handles it holds,
/// and the settled result, if any.
#[verifier::ext_equal]
pub struct SessionModel {
    /// Where the run stands.
    pub phase: Phase,
    /// The handles currently held, process first.
    pub handles: Seq<usize>,
    /// The settled result; `Some` exactly in the `Done` phase.
    pub outcome: Option<Result<Termination, OperationError>>,
}

/// The model of a freshly constructed session: nothing held, nothing
/// settled, the creation call still to be made.
pub open spec fn initial_model() -> SessionModel {
    SessionModel { phase: Phase::Launching, handles: Seq::empty(), outcome: None }
}

/// The handles a successful creation call hands over: the nonzero members
/// of the populated pair, process first.
pub open spec fn adopted_handles(process: usize, thread: usize) -> Seq<usize> {
    (if process != 0 {
        seq![process]
    } else {
        Seq::<usize>::empty()
    }) + (if thread != 0 {
        seq![thread]
    } else {
        Seq::<usize>::empty()
    })
}

/// Whether an event is the one the protocol is waiting for in this state.
pub open spec fn expects(m: SessionModel, e: RunEvent) -> bool {
    match e {
        RunEvent::LaunchSucceeded { .. } => m.phase is Launching,
        RunEvent::LaunchFailed { .. } => m.phase is Launching,
        RunEvent::WaitSucceeded => m.phase is Waiting,
        RunEvent::WaitFailed { .. } => m.phase is Waiting,
        RunEvent::StatusRetrieved { .. } => m.phase is Reading,
        RunEvent::StatusFailed { .. } => m.phase is Reading,
    }
}

/// The protocol's transition: what one reported event does to the model.
/// An event the state does not expect changes nothing.
pub open spec fn step(m: SessionModel, e: RunEvent) -> SessionModel {
    if !expects(m, e) {
        m
    } else {
        match e {
            RunEvent::LaunchSucceeded { process, thread } => (SessionModel {
                phase: Phase::Waiting,
                handles: adopted_handles(process, thread),
                ..m
            }),
            RunEvent::LaunchFailed { code } => (SessionModel {
                phase: Phase::Done,
                outcome: Some(
                    Err(OperationError { operation: Operation::ProcessCreate, code }),
                ),
                ..m
            }),
            RunEvent::WaitSucceeded => (SessionModel { phase: Phase::Reading, ..m }),
            RunEvent::WaitFailed { code } => (SessionModel {
                phase: Phase::Done,
                outcome: Some(Err(OperationError { operation: Operation::Wait, code })),
                ..m
            }),
            RunEvent::StatusRetrieved { status } => (SessionModel {
                phase: Phase::Done,
                outcome: Some(Ok(classification_of(status))),
                ..m
            }),
            RunEvent::StatusFailed { code } => (SessionModel {
                phase: Phase::Done,
                outcome: Some(Err(OperationError { operation: Operation::StatusRead, code })),
                ..m
            }),
        }
    }
}

/// The model's invariant: the result is settled exactly in the `Done`
/// phase, nothing is held before a launch succeeded, and no held handle is
/// null.
pub open spec fn model_inv(m: SessionModel) -> bool {
    &&& (m.phase is Done <==> m.outcome is Some)
    &&& (m.phase is Launching ==> m.handles.len() == 0)
    &&& (forall|i: int| 0 <= i < m.handles.len() ==> m.handles[i] != 0)
}

/// The next OS call for each phase.
pub open spec fn action_of(phase: Phase) -> RunAction {
    match phase {
        Phase::Launching => RunAction::Launch,
        Phase::Waiting => RunAction::Wait,
        Phase::Reading => RunAction::ReadStatus,
        Phase::Done => RunAction::Finish,
    }
}

/// One run of the protocol.  The platform driver alternates
/// [`RunSession::next_action`] with the OS call it names and reports each
/// outcome through [`RunSession::advance`]; when the action is
/// [`RunAction::Finish`] it calls [`RunSession::finish`], closes each
/// handle handed back, and returns the result.
pub struct RunSession {
    phase: Phase,
    guard: HandleGuard,
    result: Option<Result<Termination, OperationError>>,
}

impl View for RunSession {
    type V = SessionModel;

    closed spec fn view(&self) -> SessionModel {
        SessionModel {
            phase: self.phase,
            handles: self.guard.held_handles(),
            outcome: self.result,
        }
    }
}

impl RunSession {
    /// A session about to make the creation call, holding nothing.
    pub fn new() -> (s: RunSession)
        ensures
            s@ == initial_model(),
            model_inv(s@),
    {
        let s = RunSession { phase: Phase::Launching, guard: HandleGuard::new(), result: None };
        proof {
            assert(s@ =~= initial_model());
        }
        s
    }

    /// The next OS call the driver must make.
    pub fn next_action(&self) -> (a: RunAction)
        ensures
            a == action_of(self@.phase),
    {
        match self.phase {
            Phase::Launching => RunAction::Launch,
            Phase::Waiting => RunAction::Wait,
            Phase::Reading => RunAction::ReadStatus,
            Phase::Done => RunAction::Finish,
        }
    }

    /// Whether the result is settled and only the release remains.
    pub fn is_done(&self) -> (b: bool)
        ensures
            b == (self@.phase is Done),
    {
        match self.phase {
            Phase::Done => true,
            _ => false,
        }
    }

    /// Feeds in the outcome of the OS call the session asked for; the
    /// session moves exactly as the protocol's transition [`step`] says.
    pub fn advance(&mut self, e: RunEvent)
        requires
            model_inv(old(self)@),
            expects(old(self)@, e),
        ensures
            final(self)@ == step(old(self)@, e),
            model_inv(final(self)@),
    {
        match e {
            RunEvent::LaunchSucceeded { process, thread } => {
                self.guard.adopt(process, thread);
                self.phase = Phase::Waiting;
            },
            RunEvent::LaunchFailed { code } => {
                self.result = Some(Err(OperationError { operation: Operation::ProcessCreate, code }));
                self.phase = Phase::Done;
            },
            RunEvent::WaitSucceeded => {
                self.phase = Phase::Reading;
            },
            RunEvent::WaitFailed { code } => {
                self.result = Some(Err(OperationError { operation: Operation::Wait, code }));
                self.phase = Phase::Done;
            },
            RunEvent::StatusRetrieved { status } => {
                self.result = Some(Ok(classify_exit_status(status)));
                self.phase = Phase::Done;
            },
            RunEvent::StatusFailed { code } => {
                self.result = Some(Err(OperationError { operation: Operation::StatusRead, code }));
                self.phase = Phase::Done;
            },
        }
        proof {
            assert(self@ =~= step(old(self)@, e));
        }
    }

    /// Ends the run: hands back every handle held, exactly once each, for
    /// the driver to close, together with the settled result.  Afterwards
    /// the session holds nothing, whichever path settled the result.
    pub fn finish(&mut self) -> (r: (Vec<usize>, Result<Termination, OperationError>))
        requires
            old(self)@.phase is Done,
            model_inv(old(self)@),
        ensures
            r.0@ == old(self)@.handles,
            old(self)@.outcome == Some(r.1),
            final(self)@ == (SessionModel { handles: Seq::empty(), ..old(self)@ }),
            final(self)@.handles.len() == 0,
            model_inv(final(self)@),
    {
        let handles = self.guard.release_all();
        let result = self.result.unwrap();
        proof {
            assert(self@ =~= (SessionModel { handles: Seq::<usize>::empty(), ..old(self)@ }));
        }
        (handles, result)
    }
}

/// The model after the driver has reported a whole sequence of events,
/// first to last.
pub open spec fn run_model(m: SessionModel, events: Seq<RunEvent>) -> SessionModel
    decreases events.len(),
{
    if events.len() == 0 {
        m
    } else {
        run_model(step(m, events[0]), events.drop_first())
    }
}

/// Whether `e` is a successful launch that populated exactly the handles
/// `hs`.
pub open spec fn launch_adopted(e: RunEvent, hs: Seq<usize>) -> bool {
    match e {
        RunEvent::LaunchSucceeded { process, thread } => hs == adopted_handles(process, thread),
        _ => false,
    }
}

/// Exit-status law: a run whose process is created, completes, and reports
/// raw status `status` settles on `Ok` of that status's classification —
/// status 0 is `Success`, the control-break status is `Interrupted`, and
/// every other status is `Failure`.
pub proof fn lemma_completed_run_classifies_status(process: usize, thread: usize, status: u32)
    ensures
        ({
            let done = step(
                step(
                    step(initial_model(), RunEvent::LaunchSucceeded { process, thread }),
                    RunEvent::WaitSucceeded,
                ),
                RunEvent::StatusRetrieved { status },
            );
            &&& done.phase is Done
            &&& done.outcome == Some(Ok::<Termination, OperationError>(classification_of(status)))
            &&& (status == 0 ==> done.outcome == Some(
                Ok::<Termination, OperationError>(Termination::Success),
            ))
            &&& (status == crate::outcome::CONTROL_BREAK_STATUS ==> done.outcome == Some(
                Ok::<Termination, OperationError>(Termination::Interrupted),
            ))
            &&& (status != 0 && status != crate::outcome::CONTROL_BREAK_STATUS ==> done.outcome
                == Some(Ok::<Termination, OperationError>(Termination::Failure)))
        }),
{
}

/// Failed-launch law: if process creation fails with code `code`, the run
/// settles at once on an error naming the process-create operation and
/// carrying that code, and no handle was ever held.
pub proof fn lemma_failed_launch_names_creation(code: u32)
    ensures
        ({
            let done = step(initial_model(), RunEvent::LaunchFailed { code });
            &&& done.phase is Done
            &&& done.outcome == Some(
                Err::<Termination, OperationError>(
                    OperationError { operation: Operation::ProcessCreate, code },
                ),
            )
            &&& done.handles.len() == 0
        }),
{
}

/// Whatever one event does, the session afterwards holds either what it
/// already held or exactly the pair that the event's successful launch
/// populated.
proof fn lemma_step_keeps_or_adopts(m: SessionModel, e: RunEvent)
    ensures
        step(m, e).handles == m.handles || launch_adopted(e, step(m, e).handles),
{
}

/// As `lemma_no_handle_leak`, generalized to an arbitrary starting model so
/// the induction over the event sequence goes through.
proof fn lemma_run_keeps_or_adopts(m: SessionModel, events: Seq<RunEvent>)
    ensures
        run_model(m, events).handles == m.handles || exists|i: int|
            0 <= i < events.len() && #[trigger] launch_adopted(
                events[i],
                run_model(m, events).handles,
            ),
    decreases events.len(),
{
    if events.len() > 0 {
        let m1 = step(m, events[0]);
        let rest = events.drop_first();
        let r = run_model(m, events);
        assert(r == run_model(m1, rest));
        lemma_run_keeps_or_adopts(m1, rest);
        if r.handles == m1.handles {
            if m1.handles != m.handles {
                lemma_step_keeps_or_adopts(m, events[0]);
                assert(launch_adopted(events[0], r.handles));
            }
        } else {
            let j = choose|j: int|
                0 <= j < rest.len() && #[trigger] launch_adopted(rest[j], r.handles);
            assert(events[j + 1] == rest[j]);
            assert(launch_adopted(events[j + 1], r.handles));
        }
    }
}

/// Handle non-leak law: over any sequence of reported events, expected or
/// not, the session never accumulates handles — at any point it holds
/// either nothing or exactly the pair one reported successful launch
/// populated, so never more than two — and `finish` then hands back
/// everything held and leaves the open count at its baseline of zero.
pub proof fn lemma_no_handle_leak(events: Seq<RunEvent>)
    ensures
        run_model(initial_model(), events).handles.len() <= 2,
        run_model(initial_model(), events).handles.len() == 0 || exists|i: int|
            0 <= i < events.len() && #[trigger] launch_adopted(
                events[i],
                run_model(initial_model(), events).handles,
            ),
{
    let r = run_model(initial_model(), events);
    lemma_run_keeps_or_adopts(initial_model(), events);
    if r.handles != initial_model().handles {
        let i = choose|i: int| 0 <= i < events.len() && #[trigger] launch_adopted(events[i], r.handles);
        match events[i] {
            RunEvent::LaunchSucceeded { process, thread } => {
                assert(r.handles.len() <= 2);
            },
            _ => {
                assert(false);
            },
        }
    }
}

} // verus!
