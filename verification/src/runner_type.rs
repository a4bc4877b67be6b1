//! The two ways to run a job, and the choice between them.

use vstd::prelude::*;

verus! {

/// Where a job runs.
#[derive(Clone, Copy, Debug, PartialEq, Eq, Structural)]
pub enum RunnerType {
    /// As a process of the host.
    Host,
    /// In a container.
    Docker,
}

/// What a probe for the container engine found.
#[derive(Clone, Copy, Debug, PartialEq, Eq, Structural)]
pub enum DockerStatus {
    NotInstalled,
    NotRunning,
    Running,
}

/// What a probe says of the container engine. Where the engine could not
/// be started, it is not installed; where it was started and answered with
/// success in time, it is running; else it is not.
pub open spec fn spec_docker_status(started: bool, answer: Option<bool>) -> DockerStatus {
    if !started {
        DockerStatus::NotInstalled
    } else if answer == Some(true) {
        DockerStatus::Running
    } else {
        DockerStatus::NotRunning
    }
}

/// The runner for a job: the forced one if there is one, else the
/// container where the engine is running, and the host where it is not.
pub open spec fn spec_select_runner(forced: Option<RunnerType>, docker: DockerStatus) -> RunnerType {
    match forced {
        Some(kind) => kind,
        None => if docker == DockerStatus::Running {
            RunnerType::Docker
        } else {
            RunnerType::Host
        },
    }
}

/// Whether the choice of a runner depends on the container engine at all.
pub open spec fn spec_needs_probe(forced: Option<RunnerType>) -> bool {
    forced is None
}

/// What a probe says of the container engine: `started` tells whether the
/// engine could be started, `answer` whether it ended with success, and is
/// `None` where it did not end in time.
pub fn docker_status(started: bool, answer: Option<bool>) -> (r: DockerStatus)
    ensures
        r == spec_docker_status(started, answer),
{
    if !started {
        DockerStatus::NotInstalled
    } else {
        match answer {
            Some(true) => DockerStatus::Running,
            _ => DockerStatus::NotRunning,
        }
    }
}

/// Whether the container engine has to be probed before a runner can be
/// chosen: only where none is forced.
pub fn needs_probe(forced: Option<RunnerType>) -> (r: bool)
    ensures
        r == spec_needs_probe(forced),
{
    forced.is_none()
}

/// Chooses the runner for a job.
pub fn select_runner(forced: Option<RunnerType>, docker: DockerStatus) -> (r: RunnerType)
    ensures
        r == spec_select_runner(forced, docker),
{
    match forced {
        Some(kind) => kind,
        None => match docker {
            DockerStatus::Running => RunnerType::Docker,
            _ => RunnerType::Host,
        },
    }
}

/// A forced runner is used whatever the probe finds.
pub proof fn lemma_forced_runner_wins(kind: RunnerType, first: DockerStatus, second: DockerStatus)
    ensures
        spec_select_runner(Some(kind), first) == kind,
        spec_select_runner(Some(kind), first) == spec_select_runner(Some(kind), second),
{
}

} // verus!
