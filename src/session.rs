//! The profiling toggle as a state machine. Given the current phase and the
//! event that the outside world reports, `step` decides the next phase and the
//! action to perform. The caller performs each action (building, starting and
//! stopping the profiling session, running the workload) and reports the event
//! that follows it.
use vstd::prelude::*;

verus! {

/// The address to which the profiling session pushes its samples.
pub const INGESTION_ENDPOINT: &'static str = "http://ingester:4040";

/// The application name under which the samples are filed.
pub const APPLICATION_NAME: &'static str = "fibonacci-rust-cpu-push";

/// How a run ends.
#[derive(Clone, Copy, Debug, PartialEq, Eq, Structural)]
pub enum Outcome {
    /// The workload ran to completion (inside a session, if one was asked for).
    Completed,
    /// The session could not be built; the workload was not run.
    BuildFailed,
}

/// Where a run stands.
#[derive(Clone, Copy, Debug, PartialEq, Eq, Structural)]
pub enum Phase {
    /// Nothing has been decided yet.
    Idle,
    /// The workload runs without a session.
    RunningDirect,
    /// The session is being built.
    Building,
    /// The session was built and is being started.
    Built,
    /// The session is started and the workload runs inside it.
    RunningProfiled,
    /// The workload returned and the session is being stopped.
    Stopping,
    /// The run is over.
    Finished(Outcome),
}

/// What the outside world reports.
#[derive(Clone, Copy, Debug, PartialEq, Eq, Structural)]
pub enum Event {
    /// The run begins; `profiling` tells whether a session was asked for.
    Begin { profiling: bool },
    /// The session was built.
    SessionBuilt,
    /// Building the session failed.
    BuildFailed,
    /// The session was started.
    SessionStarted,
    /// The workload returned.
    WorkloadReturned,
    /// The session was stopped.
    SessionStopped,
}

/// What the caller is to do next.
#[derive(Clone, Copy, Debug, PartialEq, Eq, Structural)]
pub enum Action {
    BuildSession,
    StartSession,
    RunWorkload,
    StopSession,
    /// End the run with this outcome.
    Exit(Outcome),
}

/// The phase a run moves to and the action that goes with it.
#[derive(Clone, Copy, Debug, PartialEq, Eq, Structural)]
pub struct Transition {
    pub next: Phase,
    pub action: Action,
}

/// The transition for `event` in `phase`, or `None` where the event does not
/// belong to the phase.
pub open spec fn step_spec(phase: Phase, event: Event) -> Option<Transition> {
    match (phase, event) {
        (Phase::Idle, Event::Begin { profiling }) => if profiling {
            Some(Transition { next: Phase::Building, action: Action::BuildSession })
        } else {
            Some(Transition { next: Phase::RunningDirect, action: Action::RunWorkload })
        },
        (Phase::RunningDirect, Event::WorkloadReturned) => Some(
            Transition {
                next: Phase::Finished(Outcome::Completed),
                action: Action::Exit(Outcome::Completed),
            },
        ),
        (Phase::Building, Event::SessionBuilt) => Some(
            Transition { next: Phase::Built, action: Action::StartSession },
        ),
        (Phase::Building, Event::BuildFailed) => Some(
            Transition {
                next: Phase::Finished(Outcome::BuildFailed),
                action: Action::Exit(Outcome::BuildFailed),
            },
        ),
        (Phase::Built, Event::SessionStarted) => Some(
            Transition { next: Phase::RunningProfiled, action: Action::RunWorkload },
        ),
        (Phase::RunningProfiled, Event::WorkloadReturned) => Some(
            Transition { next: Phase::Stopping, action: Action::StopSession },
        ),
        (Phase::Stopping, Event::SessionStopped) => Some(
            Transition {
                next: Phase::Finished(Outcome::Completed),
                action: Action::Exit(Outcome::Completed),
            },
        ),
        _ => None,
    }
}

/// Decides the next phase and action for `event` in `phase`.
pub fn step(phase: Phase, event: Event) -> (r: Option<Transition>)
    ensures
        r == step_spec(phase, event),
{
    match (phase, event) {
        (Phase::Idle, Event::Begin { profiling }) => if profiling {
            Some(Transition { next: Phase::Building, action: Action::BuildSession })
        } else {
            Some(Transition { next: Phase::RunningDirect, action: Action::RunWorkload })
        },
        (Phase::RunningDirect, Event::WorkloadReturned) => Some(
            Transition {
                next: Phase::Finished(Outcome::Completed),
                action: Action::Exit(Outcome::Completed),
            },
        ),
        (Phase::Building, Event::SessionBuilt) => Some(
            Transition { next: Phase::Built, action: Action::StartSession },
        ),
        (Phase::Building, Event::BuildFailed) => Some(
            Transition {
                next: Phase::Finished(Outcome::BuildFailed),
                action: Action::Exit(Outcome::BuildFailed),
            },
        ),
        (Phase::Built, Event::SessionStarted) => Some(
            Transition { next: Phase::RunningProfiled, action: Action::RunWorkload },
        ),
        (Phase::RunningProfiled, Event::WorkloadReturned) => Some(
            Transition { next: Phase::Stopping, action: Action::StopSession },
        ),
        (Phase::Stopping, Event::SessionStopped) => Some(
            Transition {
                next: Phase::Finished(Outcome::Completed),
                action: Action::Exit(Outcome::Completed),
            },
        ),
        _ => None,
    }
}

/// Whether a profiling session is asked for: the flag's presence decides, not
/// its value (an empty value asks for one too).
pub fn profiling_requested(flag: &Option<String>) -> (r: bool)
    ensures
        r == flag.is_some(),
{
    flag.is_some()
}

/// The event that an outside world reports after performing `action`, where
/// building the session succeeds exactly when `build_ok` holds.
pub open spec fn response(action: Action, build_ok: bool) -> Event {
    match action {
        Action::BuildSession => if build_ok {
            Event::SessionBuilt
        } else {
            Event::BuildFailed
        },
        Action::StartSession => Event::SessionStarted,
        Action::StopSession => Event::SessionStopped,
        _ => Event::WorkloadReturned,
    }
}

/// The actions that a run performs from `phase` on, given `event`, for at most
/// `fuel` steps; it ends after an `Exit` or at an event that does not belong.
pub open spec fn actions_from(phase: Phase, event: Event, build_ok: bool, fuel: nat) -> Seq<Action>
    decreases fuel,
{
    if fuel == 0 {
        Seq::empty()
    } else {
        match step_spec(phase, event) {
            None => Seq::empty(),
            Some(t) => if t.action is Exit {
                seq![t.action]
            } else {
                seq![t.action] + actions_from(
                    t.next,
                    response(t.action, build_ok),
                    build_ok,
                    (fuel - 1) as nat,
                )
            },
        }
    }
}

/// The whole sequence of actions of a run, from `Idle`.
pub open spec fn run_actions(profiling: bool, build_ok: bool) -> Seq<Action> {
    actions_from(Phase::Idle, Event::Begin { profiling }, build_ok, 8)
}

/// Without profiling, the run performs the workload and completes, and never
/// builds a session, whatever building would have done.
pub proof fn lemma_unprofiled_run(build_ok: bool)
    ensures
        run_actions(false, build_ok) == seq![Action::RunWorkload, Action::Exit(Outcome::Completed)],
        !run_actions(false, build_ok).contains(Action::BuildSession),
{
    reveal_with_fuel(actions_from, 3);
    let s = run_actions(false, build_ok);
    assert(s =~= seq![Action::RunWorkload, Action::Exit(Outcome::Completed)]);
    assert(s[0] != Action::BuildSession && s[1] != Action::BuildSession);
}

/// With profiling and a session that builds, the run builds, starts, runs the
/// workload, stops, and completes, in that order, each exactly once.
pub proof fn lemma_profiled_run()
    ensures
        run_actions(true, true) == seq![
            Action::BuildSession,
            Action::StartSession,
            Action::RunWorkload,
            Action::StopSession,
            Action::Exit(Outcome::Completed),
        ],
{
    reveal_with_fuel(actions_from, 6);
    assert(run_actions(true, true) =~= seq![
        Action::BuildSession,
        Action::StartSession,
        Action::RunWorkload,
        Action::StopSession,
        Action::Exit(Outcome::Completed),
    ]);
}

/// With profiling and a session that fails to build, the run ends with the
/// failure right after the one build attempt, and never runs the workload.
pub proof fn lemma_failed_build_run()
    ensures
        run_actions(true, false) == seq![
            Action::BuildSession,
            Action::Exit(Outcome::BuildFailed),
        ],
        !run_actions(true, false).contains(Action::RunWorkload),
{
    reveal_with_fuel(actions_from, 3);
    let s = run_actions(true, false);
    assert(s =~= seq![Action::BuildSession, Action::Exit(Outcome::BuildFailed)]);
    assert(s[0] != Action::RunWorkload && s[1] != Action::RunWorkload);
}

} // verus!
