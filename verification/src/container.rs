//! Models of the container runtime's own surface: creation responses,
//! container summaries, and the lifecycle events a watcher filters.

use vstd::prelude::*;

use crate::strings::str_eq;

verus! {

/// What creating a container returns.
#[derive(Debug, Clone)]
pub struct ContainerCreateResponse {
    pub id: String,
}

/// One container, as the runtime lists it.
#[derive(Debug, Clone)]
pub struct ContainerInfo {
    pub id: String,
    pub names: Vec<String>,
}

/// One lifecycle event of one container.
#[derive(Debug, Clone)]
pub struct ContainerEvent {
    pub container_id: String,
    pub container_name: String,
    pub action: ContainerEventAction,
}

/// The lifecycle actions the watcher cares about.
#[derive(Debug, Clone, Copy, PartialEq, Eq, Structural)]
pub enum ContainerEventAction {
    Create,
    Destroy,
    Die,
    HealthStatus,
    Kill,
    Oom,
    Pause,
    Restart,
    Start,
    Stop,
    Unpause,
    Update,
}

/// The action an event token denotes, when it is one the watcher follows;
/// both health outcomes map to one action.
pub open spec fn spec_action_of(s: Seq<char>) -> Option<ContainerEventAction> {
    if s == "create"@ {
        Some(ContainerEventAction::Create)
    } else if s == "start"@ {
        Some(ContainerEventAction::Start)
    } else if s == "stop"@ {
        Some(ContainerEventAction::Stop)
    } else if s == "restart"@ {
        Some(ContainerEventAction::Restart)
    } else if s == "pause"@ {
        Some(ContainerEventAction::Pause)
    } else if s == "unpause"@ {
        Some(ContainerEventAction::Unpause)
    } else if s == "die"@ {
        Some(ContainerEventAction::Die)
    } else if s == "destroy"@ {
        Some(ContainerEventAction::Destroy)
    } else if s == "kill"@ {
        Some(ContainerEventAction::Kill)
    } else if s == "oom"@ {
        Some(ContainerEventAction::Oom)
    } else if s == "health_status: healthy"@ || s == "health_status: unhealthy"@ {
        Some(ContainerEventAction::HealthStatus)
    } else {
        None
    }
}

/// Turns one raw runtime event into a typed one: the id, the name
/// attribute and a recognised action must all be present, and any other
/// event is dropped rather than mistyped.
pub fn parse_event(
    container_id: Option<String>,
    container_name: Option<String>,
    action: Option<String>,
) -> (r: Option<ContainerEvent>)
    ensures
        match r {
            Some(ev) => (container_id matches Some(id) && ev.container_id@ == id@) && (
            container_name matches Some(n) && ev.container_name@ == n@) && (action matches Some(a)
                && spec_action_of(a@) == Some(ev.action)),
            None => container_id is None || container_name is None || action is None
                || spec_action_of(action->0@) is None,
        },
{
    let container_id = match container_id {
        Some(id) => id,
        None => {
            return None;
        },
    };
    let container_name = match container_name {
        Some(n) => n,
        None => {
            return None;
        },
    };
    let action_str = match action {
        Some(a) => a,
        None => {
            return None;
        },
    };
    let a = action_str.as_str();
    let action = if str_eq(a, "create") {
        ContainerEventAction::Create
    } else if str_eq(a, "start") {
        ContainerEventAction::Start
    } else if str_eq(a, "stop") {
        ContainerEventAction::Stop
    } else if str_eq(a, "restart") {
        ContainerEventAction::Restart
    } else if str_eq(a, "pause") {
        ContainerEventAction::Pause
    } else if str_eq(a, "unpause") {
        ContainerEventAction::Unpause
    } else if str_eq(a, "die") {
        ContainerEventAction::Die
    } else if str_eq(a, "destroy") {
        ContainerEventAction::Destroy
    } else if str_eq(a, "kill") {
        ContainerEventAction::Kill
    } else if str_eq(a, "oom") {
        ContainerEventAction::Oom
    } else if str_eq(a, "health_status: healthy") || str_eq(a, "health_status: unhealthy") {
        ContainerEventAction::HealthStatus
    } else {
        return None;
    };
    Some(ContainerEvent { container_id, container_name, action })
}

/// One compose project as the overview lists it: its name, its path, and a
/// rendered status.
#[derive(Debug, Clone)]
pub struct ComposeProject {
    pub name: String,
    pub path: String,
    pub status: String,
}

} // verus!
