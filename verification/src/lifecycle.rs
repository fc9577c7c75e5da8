//! The `up` lifecycle, phase by phase: install the termination hook, start
//! the stack, reset the log directory, list the running services, then
//! dispatch one log follower per service. The machine decides; the host
//! application performs each requested action and reports its outcome back
//! as an event. A failed start, reset or listing is fatal to the whole run; a
//! failed follower dispatch is fatal to that follower alone.
use vstd::prelude::*;

use crate::DockerCompose;
use crate::discovery::parse_services;
use crate::discovery::service_lines;
use crate::plan::FollowerSpec;
use crate::plan::plan_followers;
use crate::plan::plan_matches_services;

verus! {

/// One invocation of the external orchestration tool, as data: the host
/// application turns it into the real subprocess call.
pub enum OrchestratorCommand {
    /// Start every service of the manifest in background mode.
    Start { manifest: String },
    /// Query the running services; the reply is newline-delimited names.
    ListServices { manifest: String },
    /// Stream one service's logs, unprefixed, into the file at `log_path`
    /// until the service stops.
    FollowLogs { manifest: String, service: String, log_path: String },
    /// Stop and remove every service of the manifest.
    Stop { manifest: String },
}

/// The conditions fatal to an `up` run.
#[derive(Clone, Copy, PartialEq, Eq, Structural, Debug)]
pub enum UpError {
    /// The start command failed to run or returned non-zero.
    StartFailure,
    /// The service listing failed to run.
    DiscoveryFailure,
    /// The log directory could not be reset.
    DirectoryFailure,
}

/// Where an `up` run stands. Phases only ever advance; `Complete` and
/// `Failed` are terminal.
pub enum UpPhase {
    /// Install the crash-safe termination hook.
    InstallHook,
    /// Run the start command.
    StartStack,
    /// Delete and recreate the log directory.
    ResetLogDir,
    /// Run the service listing command.
    ListRunning,
    /// Dispatch follower `next_follower` of `plan`.
    SpawnFollowers { plan: Vec<FollowerSpec>, next_follower: usize },
    /// Every follower was dispatched; `dispatched` counts them.
    Complete { dispatched: usize },
    /// A fatal condition ended the run.
    Failed { error: UpError },
}

/// What the host application reports back after performing a phase's action.
pub enum UpEvent {
    HookInstalled,
    StartFinished { success: bool },
    DirectoryReset { success: bool },
    /// The listing's stdout on success, `None` if the command failed.
    ServicesListed { listing: Option<String> },
    /// Whether this follower's file was created and its command spawned.
    FollowerDispatched { success: bool },
}

/// What the host application must do in a phase. `None` for a terminal phase.
pub enum UpAction {
    /// Ensure this handle's crash-safe teardown is on the termination-hook
    /// registry; the registry installs it at most once per manifest, so a
    /// repeated run never adds a second teardown.
    InstallTeardownHook,
    /// Run this orchestrator command; for `FollowLogs`, create the file at
    /// its `log_path` (truncating) and redirect the command's output there.
    RunCommand(OrchestratorCommand),
    /// Delete the directory at `path` if it exists, then create it.
    ResetDirectory { path: String },
}

/// A phase the machine can still leave.
pub open spec fn is_terminal(phase: UpPhase) -> bool {
    phase is Complete || phase is Failed
}

/// A dispatching phase always has a follower left to dispatch.
pub open spec fn phase_wf(phase: UpPhase) -> bool {
    phase matches UpPhase::SpawnFollowers { plan, next_follower } ==> next_follower < plan@.len()
}

/// The event kind each phase waits for.
pub open spec fn phase_accepts(phase: UpPhase, event: UpEvent) -> bool {
    match phase {
        UpPhase::InstallHook => event is HookInstalled,
        UpPhase::StartStack => event is StartFinished,
        UpPhase::ResetLogDir => event is DirectoryReset,
        UpPhase::ListRunning => event is ServicesListed,
        UpPhase::SpawnFollowers { .. } => event is FollowerDispatched,
        UpPhase::Complete { .. } => false,
        UpPhase::Failed { .. } => false,
    }
}

/// How far a run has advanced; steps strictly decrease it (together with
/// the follower index), so no phase is ever revisited.
pub open spec fn phase_rank(phase: UpPhase) -> int {
    match phase {
        UpPhase::InstallHook => 5,
        UpPhase::StartStack => 4,
        UpPhase::ResetLogDir => 3,
        UpPhase::ListRunning => 2,
        UpPhase::SpawnFollowers { .. } => 1,
        UpPhase::Complete { .. } => 0,
        UpPhase::Failed { .. } => 0,
    }
}

/// One step either moves to a strictly later phase or stays dispatching
/// with a strictly larger follower index over the same plan.
pub open spec fn advances(before: UpPhase, after: UpPhase) -> bool {
    ||| phase_rank(after) < phase_rank(before)
    ||| {
        &&& before matches UpPhase::SpawnFollowers { plan: plan_b, next_follower: next_b }
        &&& after matches UpPhase::SpawnFollowers { plan: plan_a, next_follower: next_a }
        &&& plan_a@ == plan_b@
        &&& next_a > next_b
    }
}

/// The exact transition relation of the `up` machine.
pub open spec fn step_spec(
    handle: DockerCompose,
    phase: UpPhase,
    event: UpEvent,
    after: UpPhase,
) -> bool {
    match phase {
        UpPhase::InstallHook => after is StartStack,
        UpPhase::StartStack => event matches UpEvent::StartFinished { success } ==> if success {
            after is ResetLogDir
        } else {
            after matches UpPhase::Failed { error } && error == UpError::StartFailure
        },
        UpPhase::ResetLogDir => event matches UpEvent::DirectoryReset { success } ==> if success {
            after is ListRunning
        } else {
            after matches UpPhase::Failed { error } && error == UpError::DirectoryFailure
        },
        UpPhase::ListRunning => event matches UpEvent::ServicesListed { listing } ==> match listing {
            Option::None => after matches UpPhase::Failed { error } && error
                == UpError::DiscoveryFailure,
            Option::Some(text) => {
                let services = service_lines(text@);
                if services.len() == 0 {
                    after matches UpPhase::Complete { dispatched } && dispatched == 0
                } else {
                    &&& after matches UpPhase::SpawnFollowers { plan, next_follower }
                    &&& next_follower == 0
                    &&& plan_matches_services(plan@, handle.logs_dir@, services)
                }
            },
        },
        UpPhase::SpawnFollowers { plan, next_follower } => event matches
            UpEvent::FollowerDispatched { .. } ==> if next_follower + 1 < plan@.len() {
            &&& after matches UpPhase::SpawnFollowers { plan: plan_a, next_follower: next_a }
            &&& plan_a@ == plan@
            &&& next_a == next_follower + 1
        } else {
            after matches UpPhase::Complete { dispatched } && dispatched == plan@.len()
        },
        UpPhase::Complete { .. } => false,
        UpPhase::Failed { .. } => false,
    }
}

/// One recorded run of the machine: each entry holds a phase and the event
/// it was stepped on, each step's result is the next entry's phase, and the
/// last step's result is `outcome`.
pub open spec fn run_chain(
    handle: DockerCompose,
    steps: Seq<(UpPhase, UpEvent)>,
    outcome: UpPhase,
) -> bool {
    &&& forall|k: int| 0 <= k < steps.len() ==> phase_accepts(#[trigger] steps[k].0, steps[k].1)
    &&& forall|k: int|
        0 <= k < steps.len() - 1 ==> step_spec(handle, steps[k].0, steps[k].1, #[trigger] steps[
            k + 1
        ].0)
    &&& steps.len() > 0 ==> step_spec(handle, steps.last().0, steps.last().1, outcome)
}

/// Once the machine is dispatching a plan, it dispatches all of it: a chain
/// from a dispatching phase to `Complete` reports the whole plan's length.
proof fn lemma_dispatch_runs_whole_plan(
    handle: DockerCompose,
    steps: Seq<(UpPhase, UpEvent)>,
    outcome: UpPhase,
)
    requires
        run_chain(handle, steps, outcome),
        steps.len() > 0,
        steps[0].0 is SpawnFollowers,
        outcome is Complete,
    ensures
        outcome->dispatched == steps[0].0->plan@.len(),
    decreases steps.len(),
{
    assert(phase_accepts(steps[0].0, steps[0].1));
    if steps.len() == 1 {
        assert(step_spec(handle, steps[0].0, steps[0].1, outcome));
    } else {
        let k0: int = 0;
        assert(step_spec(handle, steps[k0].0, steps[k0].1, steps[k0 + 1].0));
        assert(phase_accepts(steps[1].0, steps[1].1));
        assert(steps[1].0 is SpawnFollowers);
        assert(steps[1].0->plan@ == steps[0].0->plan@);
        let rest = steps.subrange(1, steps.len() as int);
        assert forall|k: int| 0 <= k < rest.len() implies phase_accepts(
            #[trigger] rest[k].0,
            rest[k].1,
        ) by {
            assert(rest[k] == steps[k + 1]);
        }
        assert forall|k: int| 0 <= k < rest.len() - 1 implies step_spec(
            handle,
            rest[k].0,
            rest[k].1,
            #[trigger] rest[k + 1].0,
        ) by {
            assert(rest[k] == steps[k + 1]);
            assert(rest[k + 1] == steps[k + 2]);
            assert(step_spec(handle, steps[k + 1].0, steps[k + 1].1, steps[k + 2].0));
        }
        assert(rest.last() == steps.last());
        lemma_dispatch_runs_whole_plan(handle, rest, outcome);
    }
}

/// Discovery completeness, end to end: a run that hears the listing reply
/// and then steps to completion has dispatched exactly one follower per
/// service the listing names.
pub proof fn lemma_completed_run_covers_listing(
    handle: DockerCompose,
    text: String,
    steps: Seq<(UpPhase, UpEvent)>,
    outcome: UpPhase,
)
    requires
        run_chain(handle, steps, outcome),
        steps.len() > 0,
        steps[0].0 is ListRunning,
        steps[0].1 == (UpEvent::ServicesListed { listing: Option::Some(text) }),
        outcome is Complete,
    ensures
        outcome->dispatched == service_lines(text@).len(),
{
    let services = service_lines(text@);
    if steps.len() == 1 {
        assert(step_spec(handle, steps[0].0, steps[0].1, outcome));
    } else {
        let k0: int = 0;
        assert(step_spec(handle, steps[k0].0, steps[k0].1, steps[k0 + 1].0));
        assert(phase_accepts(steps[1].0, steps[1].1));
        assert(steps[1].0 is SpawnFollowers);
        assert(steps[1].0->plan@.len() == services.len());
        let rest = steps.subrange(1, steps.len() as int);
        assert forall|k: int| 0 <= k < rest.len() implies phase_accepts(
            #[trigger] rest[k].0,
            rest[k].1,
        ) by {
            assert(rest[k] == steps[k + 1]);
        }
        assert forall|k: int| 0 <= k < rest.len() - 1 implies step_spec(
            handle,
            rest[k].0,
            rest[k].1,
            #[trigger] rest[k + 1].0,
        ) by {
            assert(rest[k] == steps[k + 1]);
            assert(rest[k + 1] == steps[k + 2]);
            assert(step_spec(handle, steps[k + 1].0, steps[k + 1].1, steps[k + 2].0));
        }
        assert(rest.last() == steps.last());
        lemma_dispatch_runs_whole_plan(handle, rest, outcome);
    }
}

/// Along a chain of advancing phases, the rank never goes back up.
pub proof fn lemma_rank_monotone(trace: Seq<UpPhase>, i: int, j: int)
    requires
        forall|k: int| 0 <= k < trace.len() - 1 ==> advances(trace[k], #[trigger] trace[k + 1]),
        0 <= i <= j < trace.len(),
    ensures
        phase_rank(trace[j]) <= phase_rank(trace[i]),
    decreases j - i,
{
    if i < j {
        lemma_rank_monotone(trace, i, j - 1);
        let k = j - 1;
        assert(advances(trace[k], trace[k + 1]));
    }
}

/// A run never returns to a phase it has left: once past any phase other
/// than follower dispatch, every later phase has a strictly smaller rank.
pub proof fn lemma_no_phase_revisited(trace: Seq<UpPhase>, i: int, j: int)
    requires
        forall|k: int| 0 <= k < trace.len() - 1 ==> advances(trace[k], #[trigger] trace[k + 1]),
        0 <= i < j < trace.len(),
        !(trace[i] matches UpPhase::SpawnFollowers { .. }),
    ensures
        phase_rank(trace[j]) < phase_rank(trace[i]),
{
    assert(advances(trace[i], trace[i + 1]));
    lemma_rank_monotone(trace, i + 1, j);
}

/// In one `up` run — a chain of advancing phases — the start command's
/// phase occurs at most once, and so does the listing command's phase:
/// each of the two commands is issued at most once per run.
pub proof fn lemma_start_and_list_at_most_once(trace: Seq<UpPhase>, i: int, j: int)
    requires
        forall|k: int| 0 <= k < trace.len() - 1 ==> advances(trace[k], #[trigger] trace[k + 1]),
        0 <= i < j < trace.len(),
    ensures
        !(trace[i] is StartStack && trace[j] is StartStack),
        !(trace[i] is ListRunning && trace[j] is ListRunning),
{
    if trace[i] is StartStack || trace[i] is ListRunning {
        lemma_no_phase_revisited(trace, i, j);
    }
}

impl DockerCompose {
    /// The phase an `up` run begins in: the termination hook is installed
    /// before anything else, so teardown is guaranteed from the start.
    pub fn up_initial(&self) -> (r: UpPhase)
        ensures
            r is InstallHook,
            phase_wf(r),
    {
        UpPhase::InstallHook
    }

    /// The action the host application must perform in `phase`, or `None` once
    /// the run is over.
    pub fn up_action(&self, phase: &UpPhase) -> (r: Option<UpAction>)
        requires
            phase_wf(*phase),
        ensures
            is_terminal(*phase) <==> r is None,
            *phase is InstallHook ==> (r matches Some(a) && a is InstallTeardownHook),
            *phase is StartStack ==> (r matches Some(a) && a matches UpAction::RunCommand(c)
                && c matches OrchestratorCommand::Start { manifest } && manifest@ == self.file@),
            *phase is ResetLogDir ==> (r matches Some(a) && a matches UpAction::ResetDirectory {
                path,
            } && path@ == self.logs_dir@),
            *phase is ListRunning ==> (r matches Some(a) && a matches UpAction::RunCommand(c)
                && c matches OrchestratorCommand::ListServices { manifest } && manifest@
                == self.file@),
            *phase matches UpPhase::SpawnFollowers { plan, next_follower } ==> (r matches Some(a)
                && a matches UpAction::RunCommand(c) && c matches OrchestratorCommand::FollowLogs {
                manifest,
                service,
                log_path,
            } && manifest@ == self.file@ && service@ == plan@[next_follower as int].service@
                && log_path@ == plan@[next_follower as int].path@),
    {
        match phase {
            UpPhase::InstallHook => Some(UpAction::InstallTeardownHook),
            UpPhase::StartStack => Some(
                UpAction::RunCommand(OrchestratorCommand::Start { manifest: self.file.clone() }),
            ),
            UpPhase::ResetLogDir => Some(
                UpAction::ResetDirectory { path: self.logs_dir.clone() },
            ),
            UpPhase::ListRunning => Some(
                UpAction::RunCommand(
                    OrchestratorCommand::ListServices { manifest: self.file.clone() },
                ),
            ),
            UpPhase::SpawnFollowers { plan, next_follower } => {
                let entry = &plan[*next_follower];
                Some(
                    UpAction::RunCommand(
                        OrchestratorCommand::FollowLogs {
                            manifest: self.file.clone(),
                            service: entry.service.clone(),
                            log_path: entry.path.clone(),
                        },
                    ),
                )
            },
            UpPhase::Complete { .. } => None,
            UpPhase::Failed { .. } => None,
        }
    }

    /// Step the machine on the outcome the host application reports. A follower
    /// dispatch advances whether or not it succeeded — one follower's
    /// failure never fails the run or its siblings — while a failed start,
    /// reset or listing ends the run with its fatal condition.
    pub fn up_step(&self, phase: UpPhase, event: UpEvent) -> (r: UpPhase)
        requires
            phase_wf(phase),
            phase_accepts(phase, event),
        ensures
            phase_wf(r),
            advances(phase, r),
            step_spec(*self, phase, event, r),
    {
        match phase {
            UpPhase::InstallHook => UpPhase::StartStack,
            UpPhase::StartStack => {
                match event {
                    UpEvent::StartFinished { success } => {
                        if success {
                            UpPhase::ResetLogDir
                        } else {
                            UpPhase::Failed { error: UpError::StartFailure }
                        }
                    },
                    _ => UpPhase::Failed { error: UpError::StartFailure },
                }
            },
            UpPhase::ResetLogDir => {
                match event {
                    UpEvent::DirectoryReset { success } => {
                        if success {
                            UpPhase::ListRunning
                        } else {
                            UpPhase::Failed { error: UpError::DirectoryFailure }
                        }
                    },
                    _ => UpPhase::Failed { error: UpError::DirectoryFailure },
                }
            },
            UpPhase::ListRunning => {
                match event {
                    UpEvent::ServicesListed { listing } => {
                        match listing {
                            Option::None => UpPhase::Failed { error: UpError::DiscoveryFailure },
                            Option::Some(text) => {
                                let services = parse_services(text.as_str());
                                if services.len() == 0 {
                                    UpPhase::Complete { dispatched: 0 }
                                } else {
                                    let plan = plan_followers(self.logs_dir.as_str(), &services);
                                    UpPhase::SpawnFollowers { plan, next_follower: 0 }
                                }
                            },
                        }
                    },
                    _ => UpPhase::Failed { error: UpError::DiscoveryFailure },
                }
            },
            UpPhase::SpawnFollowers { plan, next_follower } => {
                let total: usize = plan.len();
                if next_follower + 1 < total {
                    UpPhase::SpawnFollowers { plan, next_follower: next_follower + 1 }
                } else {
                    UpPhase::Complete { dispatched: total }
                }
            },
            UpPhase::Complete { dispatched } => UpPhase::Complete { dispatched },
            UpPhase::Failed { error } => UpPhase::Failed { error },
        }
    }

    /// How the run ended: the dispatched-follower count on success, the
    /// fatal condition on failure, `None` while it is still going.
    pub fn up_outcome(&self, phase: &UpPhase) -> (r: Option<Result<usize, UpError>>)
        ensures
            *phase matches UpPhase::Complete { dispatched } ==> (r matches Some(o) && o matches
                Ok(d) && d == dispatched),
            *phase matches UpPhase::Failed { error } ==> (r matches Some(o) && o matches Err(e)
                && e == error),
            !is_terminal(*phase) <==> r is None,
    {
        match phase {
            UpPhase::Complete { dispatched } => Some(Ok(*dispatched)),
            UpPhase::Failed { error } => Some(Err(*error)),
            _ => None,
        }
    }
}

} // verus!
