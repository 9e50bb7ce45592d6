//! Container snapshots and the project status derived from them.

use vstd::prelude::*;

use crate::strings::push_dec_u64;
use crate::strings::spec_dec;

verus! {

/// The state of one container, as the compose tool reports it.
#[derive(Clone, Copy, Debug, PartialEq, Eq, Structural)]
pub enum ContainerState {
    Created,
    Dead,
    Exited,
    Paused,
    Removing,
    Restarting,
    Running,
}

impl ContainerState {
    /// The lowercase token the compose tool prints for this state.
    pub open spec fn spec_label(self) -> Seq<char> {
        match self {
            ContainerState::Created => "created"@,
            ContainerState::Dead => "dead"@,
            ContainerState::Exited => "exited"@,
            ContainerState::Paused => "paused"@,
            ContainerState::Removing => "removing"@,
            ContainerState::Restarting => "restarting"@,
            ContainerState::Running => "running"@,
        }
    }

    pub fn to_string(&self) -> (r: &str)
        ensures
            r@ == self.spec_label(),
    {
        match self {
            ContainerState::Created => "created",
            ContainerState::Dead => "dead",
            ContainerState::Exited => "exited",
            ContainerState::Paused => "paused",
            ContainerState::Removing => "removing",
            ContainerState::Restarting => "restarting",
            ContainerState::Running => "running",
        }
    }
}

/// A snapshot of one compose service instance.
#[derive(Debug, Clone)]
pub struct Container {
    pub name: String,
    pub state: ContainerState,
}

impl PartialEq for Container {
    fn eq(&self, other: &Container) -> (r: bool) {
        self.name == other.name && self.state == other.state
    }
}

impl vstd::std_specs::cmp::PartialEqSpecImpl for Container {
    open spec fn obeys_eq_spec() -> bool {
        true
    }

    open spec fn eq_spec(&self, other: &Container) -> bool {
        self.name@ == other.name@ && self.state == other.state
    }
}

/// The operational status of a project, derived from a container snapshot.
#[derive(Debug, Clone)]
pub enum ProjectStatus {
    /// All containers are running.
    Running { active_containers: usize, total_containers: usize },
    /// No containers are running.
    Stopped,
    /// Some but not all containers are running.
    PartiallyRunning { active_containers: usize, total_containers: usize },
    /// Creation or deployment is still in progress.
    CreationInProgress,
    /// Deployment failed.
    DeploymentFailed { reason: String },
    /// The status cannot be determined.
    Unknown,
}

impl PartialEq for ProjectStatus {
    fn eq(&self, other: &ProjectStatus) -> (r: bool) {
        match (self, other) {
            (
                ProjectStatus::Running { active_containers: a1, total_containers: t1 },
                ProjectStatus::Running { active_containers: a2, total_containers: t2 },
            ) => *a1 == *a2 && *t1 == *t2,
            (ProjectStatus::Stopped, ProjectStatus::Stopped) => true,
            (
                ProjectStatus::PartiallyRunning { active_containers: a1, total_containers: t1 },
                ProjectStatus::PartiallyRunning { active_containers: a2, total_containers: t2 },
            ) => *a1 == *a2 && *t1 == *t2,
            (ProjectStatus::CreationInProgress, ProjectStatus::CreationInProgress) => true,
            (
                ProjectStatus::DeploymentFailed { reason: r1 },
                ProjectStatus::DeploymentFailed { reason: r2 },
            ) => crate::strings::str_eq(r1.as_str(), r2.as_str()),
            (ProjectStatus::Unknown, ProjectStatus::Unknown) => true,
            _ => false,
        }
    }
}

impl vstd::std_specs::cmp::PartialEqSpecImpl for ProjectStatus {
    open spec fn obeys_eq_spec() -> bool {
        true
    }

    open spec fn eq_spec(&self, other: &ProjectStatus) -> bool {
        match (self, other) {
            (
                ProjectStatus::Running { active_containers: a1, total_containers: t1 },
                ProjectStatus::Running { active_containers: a2, total_containers: t2 },
            ) => a1 == a2 && t1 == t2,
            (ProjectStatus::Stopped, ProjectStatus::Stopped) => true,
            (
                ProjectStatus::PartiallyRunning { active_containers: a1, total_containers: t1 },
                ProjectStatus::PartiallyRunning { active_containers: a2, total_containers: t2 },
            ) => a1 == a2 && t1 == t2,
            (ProjectStatus::CreationInProgress, ProjectStatus::CreationInProgress) => true,
            (
                ProjectStatus::DeploymentFailed { reason: r1 },
                ProjectStatus::DeploymentFailed { reason: r2 },
            ) => r1@ == r2@,
            (ProjectStatus::Unknown, ProjectStatus::Unknown) => true,
            _ => false,
        }
    }
}

/// The status that a pair of (running, total) container counts maps to.
pub open spec fn spec_status_from_counts(active: usize, total: usize) -> ProjectStatus {
    if active == 0 && total == 0 {
        ProjectStatus::Unknown
    } else if active == 0 {
        ProjectStatus::Stopped
    } else if active == total {
        ProjectStatus::Running { active_containers: active, total_containers: total }
    } else {
        ProjectStatus::PartiallyRunning { active_containers: active, total_containers: total }
    }
}

/// How many containers of the snapshot are running.
pub open spec fn count_running(cs: Seq<Container>) -> nat
    decreases cs.len(),
{
    if cs.len() == 0 {
        0
    } else {
        count_running(cs.drop_last()) + if cs.last().state == ContainerState::Running {
            1nat
        } else {
            0nat
        }
    }
}

/// The status a container snapshot maps to: `Unknown` when the snapshot is
/// empty, `Stopped` when nothing runs, `Running` when everything does, and
/// `PartiallyRunning` otherwise.
pub open spec fn spec_derive_status(cs: Seq<Container>) -> ProjectStatus {
    spec_status_from_counts(count_running(cs) as usize, cs.len() as usize)
}

impl ProjectStatus {
    /// Creates a status from (running, total) container counts.
    pub fn from_container_counts(active: usize, total: usize) -> (r: Self)
        ensures
            r == spec_status_from_counts(active, total),
    {
        if active == 0 && total == 0 {
            ProjectStatus::Unknown
        } else if active == 0 {
            ProjectStatus::Stopped
        } else if active == total {
            ProjectStatus::Running { active_containers: active, total_containers: total }
        } else {
            ProjectStatus::PartiallyRunning { active_containers: active, total_containers: total }
        }
    }

    /// The human-readable rendering of this status.
    pub open spec fn spec_display(self) -> Seq<char> {
        match self {
            ProjectStatus::Running { active_containers: a, total_containers: t } => "Running ("@
                + spec_dec(a as nat) + "/"@ + spec_dec(t as nat) + ")"@,
            ProjectStatus::Stopped => "Exited"@,
            ProjectStatus::PartiallyRunning { active_containers: a, total_containers: t } =>
                "Partially Running ("@ + spec_dec(a as nat) + "/"@ + spec_dec(t as nat) + ")"@,
            ProjectStatus::CreationInProgress => "Creating..."@,
            ProjectStatus::DeploymentFailed { reason } => "Failed: "@ + reason@,
            ProjectStatus::Unknown => "Unknown"@,
        }
    }

    /// Returns a human-readable status string for display.
    pub fn display_string(&self) -> (r: String)
        ensures
            r@ == self.spec_display(),
    {
        match self {
            ProjectStatus::Running { active_containers: a, total_containers: t } => {
                let mut out = "Running (".to_owned();
                push_dec_u64(&mut out, *a as u64);
                out.append("/");
                push_dec_u64(&mut out, *t as u64);
                out.append(")");
                proof {
                    assert(out@ =~= self.spec_display());
                }
                out
            },
            ProjectStatus::Stopped => "Exited".to_owned(),
            ProjectStatus::PartiallyRunning { active_containers: a, total_containers: t } => {
                let mut out = "Partially Running (".to_owned();
                push_dec_u64(&mut out, *a as u64);
                out.append("/");
                push_dec_u64(&mut out, *t as u64);
                out.append(")");
                proof {
                    assert(out@ =~= self.spec_display());
                }
                out
            },
            ProjectStatus::CreationInProgress => "Creating...".to_owned(),
            ProjectStatus::DeploymentFailed { reason } => {
                let mut out = "Failed: ".to_owned();
                out.append(reason.as_str());
                out
            },
            ProjectStatus::Unknown => "Unknown".to_owned(),
        }
    }
}

/// Reduces a container snapshot to the project status it denotes.
pub fn determine_project_status_from(containers: &Vec<Container>) -> (r: ProjectStatus)
    ensures
        r == spec_derive_status(containers@),
{
    let total = containers.len();
    let mut running: usize = 0;
    let mut i: usize = 0;
    proof {
        assert(containers@.take(0) =~= Seq::<Container>::empty());
    }
    while i < total
        invariant
            i <= total,
            total == containers@.len(),
            running == count_running(containers@.take(i as int)),
            running <= i,
        decreases total - i,
    {
        proof {
            assert(containers@.take(i + 1).drop_last() =~= containers@.take(i as int));
            assert(containers@.take(i + 1).last() == containers@[i as int]);
        }
        if matches!(containers[i].state, ContainerState::Running) {
            running += 1;
        }
        i += 1;
    }
    proof {
        assert(containers@.take(total as int) =~= containers@);
    }
    ProjectStatus::from_container_counts(running, total)
}

} // verus!
