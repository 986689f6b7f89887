//! Moving a service's data directory onto the data volume: stop the service,
//! move the directory, link the old path to the new one, start the service.
use vstd::prelude::*;
use crate::commands::{tool_call, ToolCall};
use crate::error::DiskError;

verus! {

/// One step of the relocation, in the order they run.
#[derive(PartialEq, Eq, Structural, Clone, Copy, Debug)]
pub enum RelocationStep {
    StopService,
    MoveData,
    LinkData,
    StartService,
}

/// Where the service and its data stand.
#[derive(PartialEq, Eq, Structural, Clone, Copy, Debug)]
pub enum ServiceState {
    /// Running from its original data directory.
    Running,
    /// Stopped; the data is still at its original path.
    Stopped,
    /// Stopped; the data is on the volume and nothing is at the original path.
    Moved,
    /// Stopped; the original path links to the data on the volume.
    Linked,
    /// Running from the data on the volume.
    Relocated,
}

/// What to do after a relocation step has run.
#[derive(Debug, PartialEq, Eq)]
pub enum RelocationNext {
    /// Run this step next.
    Run(RelocationStep),
    /// The service runs from the volume.
    Done,
    /// The step failed; nothing further is attempted.
    Failed(RelocationStep, DiskError),
}

/// The step that follows `step` when it succeeds.
pub open spec fn step_after(step: RelocationStep) -> Option<RelocationStep> {
    match step {
        RelocationStep::StopService => Some(RelocationStep::MoveData),
        RelocationStep::MoveData => Some(RelocationStep::LinkData),
        RelocationStep::LinkData => Some(RelocationStep::StartService),
        RelocationStep::StartService => None,
    }
}

/// The state that a failure of `step` leaves behind: the state reached by the
/// steps before it.
pub open spec fn state_before(step: RelocationStep) -> ServiceState {
    match step {
        RelocationStep::StopService => ServiceState::Running,
        RelocationStep::MoveData => ServiceState::Stopped,
        RelocationStep::LinkData => ServiceState::Moved,
        RelocationStep::StartService => ServiceState::Linked,
    }
}

/// The state in which a failure of `step` leaves the service and its data.
/// Every state but `Running` needs manual repair.
pub fn state_after_failure(step: RelocationStep) -> (r: ServiceState)
    ensures
        r == state_before(step),
{
    match step {
        RelocationStep::StopService => ServiceState::Running,
        RelocationStep::MoveData => ServiceState::Stopped,
        RelocationStep::LinkData => ServiceState::Moved,
        RelocationStep::StartService => ServiceState::Linked,
    }
}

/// The command that performs `step` for the container runtime's data
/// directory.
pub fn relocation_call(step: RelocationStep) -> (r: ToolCall)
    ensures
        r.view_parts() == match step {
            RelocationStep::StopService => ("systemctl"@, seq!["stop"@, "docker"@]),
            RelocationStep::MoveData => ("mv"@, seq!["/var/lib/docker"@, "/root/data/docker"@]),
            RelocationStep::LinkData => (
                "ln"@,
                seq!["-s"@, "/root/data/docker"@, "/var/lib/docker"@],
            ),
            RelocationStep::StartService => ("systemctl"@, seq!["start"@, "docker"@]),
        },
{
    match step {
        RelocationStep::StopService => {
            let r = tool_call("systemctl", &["stop", "docker"]);
            assert(r.view_parts().1 =~= seq!["stop"@, "docker"@]);
            r
        },
        RelocationStep::MoveData => {
            let r = tool_call("mv", &["/var/lib/docker", "/root/data/docker"]);
            assert(r.view_parts().1 =~= seq!["/var/lib/docker"@, "/root/data/docker"@]);
            r
        },
        RelocationStep::LinkData => {
            let r = tool_call("ln", &["-s", "/root/data/docker", "/var/lib/docker"]);
            assert(r.view_parts().1 =~= seq!["-s"@, "/root/data/docker"@, "/var/lib/docker"@]);
            r
        },
        RelocationStep::StartService => {
            let r = tool_call("systemctl", &["start", "docker"]);
            assert(r.view_parts().1 =~= seq!["start"@, "docker"@]);
            r
        },
    }
}

/// Decides what follows `step` given how its command ended: the next step on
/// success, completion after the restart, and on failure a stop that carries
/// the command's diagnostic text and attempts nothing more.
pub fn set_docker_disk(step: RelocationStep, outcome: Result<(), String>) -> (r: RelocationNext)
    ensures
        match outcome {
            Err(msg) => r == RelocationNext::Failed(step, DiskError::Command(msg)),
            Ok(_) => match step_after(step) {
                Some(next) => r == RelocationNext::Run(next),
                None => r == RelocationNext::Done,
            },
        },
{
    match outcome {
        Err(msg) => RelocationNext::Failed(step, DiskError::Command(msg)),
        Ok(_) => match step {
            RelocationStep::StopService => RelocationNext::Run(RelocationStep::MoveData),
            RelocationStep::MoveData => RelocationNext::Run(RelocationStep::LinkData),
            RelocationStep::LinkData => RelocationNext::Run(RelocationStep::StartService),
            RelocationStep::StartService => RelocationNext::Done,
        },
    }
}

} // verus!
