//! Lifecycle management for a container stack defined by a compose-style
//! manifest: starting the stack, discovering its running services, fanning
//! out one log follower per service, and guaranteeing teardown even when the
//! controlling process terminates abnormally.
//!
//! The library holds the decision logic, verified: parsing the service
//! listing, building the per-service log paths, the phase-by-phase `up`
//! state machine, the teardown model, and the chained termination-hook
//! registry. The host application performs the external commands and filesystem
//! work that each phase asks for and reports the outcome back as an event.
use vstd::prelude::*;

pub mod discovery;
pub mod hooks;
pub mod lifecycle;
pub mod logdir;
pub mod plan;
pub mod teardown;

verus! {

/// Handle to one compose manifest and the directory that receives one log
/// file per discovered service. Immutable after construction.
pub struct DockerCompose {
    /// Path or reference of the compose manifest.
    pub file: String,
    /// Directory that holds one `{service}.log` file per running service.
    pub logs_dir: String,
}

impl DockerCompose {
    pub fn new(file: &str, logs_dir: &str) -> (r: DockerCompose)
        ensures
            r.file@ == file@,
            r.logs_dir@ == logs_dir@,
    {
        DockerCompose { file: file.to_owned(), logs_dir: logs_dir.to_owned() }
    }
}

impl Clone for DockerCompose {
    /// A clone carries the same manifest reference and log directory, so a
    /// copy captured by a termination hook tears down the same stack.
    fn clone(&self) -> (r: Self)
        ensures
            r.file@ == self.file@,
            r.logs_dir@ == self.logs_dir@,
    {
        DockerCompose { file: self.file.clone(), logs_dir: self.logs_dir.clone() }
    }
}

} // verus!
