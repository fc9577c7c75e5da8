//! Teardown: `down()` always issues the stop command, never inspects
//! whether the stack started or is already stopped, and is idempotent in
//! effect.
use vstd::prelude::*;

use crate::DockerCompose;
use crate::lifecycle::OrchestratorCommand;

verus! {

/// Whether the stack's services are up — the effect model for teardown.
#[derive(Clone, Copy, PartialEq, Eq, Structural, Debug)]
pub enum StackState {
    Running,
    Stopped,
}

/// The stop command leaves the stack stopped, whatever held before.
pub open spec fn after_stop(state: StackState) -> StackState {
    StackState::Stopped
}

impl DockerCompose {
    /// The teardown command for this handle's manifest. Built for every
    /// `down()` call, even when the stack was never started.
    pub fn down_command(&self) -> (r: OrchestratorCommand)
        ensures
            r matches OrchestratorCommand::Stop { manifest } && manifest@ == self.file@,
    {
        OrchestratorCommand::Stop { manifest: self.file.clone() }
    }

    /// One `down()` call against a stack in `state`: the stop command is
    /// issued unconditionally and the stack ends stopped. A stack that is
    /// already stopped is not an error — the call still returns the
    /// command to issue.
    pub fn down_transition(&self, state: StackState) -> (r: (OrchestratorCommand, StackState))
        ensures
            r.0 matches OrchestratorCommand::Stop { manifest } && manifest@ == self.file@,
            r.1 == after_stop(state),
    {
        (self.down_command(), StackState::Stopped)
    }
}

/// Idempotent teardown: a second `down()` still issues its stop command
/// (`down_transition` never withholds it, whatever the state) and leaves
/// the stack exactly as the first left it — stopped, with no services
/// running.
pub proof fn lemma_down_idempotent(state: StackState)
    ensures
        after_stop(after_stop(state)) == after_stop(state),
        after_stop(after_stop(state)) is Stopped,
{
}

} // verus!
