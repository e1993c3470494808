//! The workspaces that the catalog stores.
use vstd::prelude::*;

verus! {

/// A pinned reference to a workflow.
#[derive(Clone, Debug, PartialEq, Eq)]
pub struct WorkflowReference {
    pub id: String,
    pub version: String,
}

/// The state of a catalogued workspace.
#[derive(Clone, Copy, Debug, PartialEq, Eq, Structural)]
pub enum WorkspaceState {
    NotProvisioned,
    Ready,
    CleanupRequired,
    Invalid,
}

/// Where a RunPod workspace is placed.
#[derive(Clone, Debug, PartialEq, Eq)]
pub struct RunpodPlacementPlan {
    pub data_center_id: String,
    pub gpu_type_id: String,
    pub volume_size_gb: u32,
}

/// The RunPod resources a workspace owns.
#[derive(Clone, Debug, PartialEq, Eq)]
pub struct RunpodResources {
    pub network_volume_id: Option<String>,
    pub provisioner_pod_id: Option<String>,
    pub endpoint_id: Option<String>,
    pub template_id: Option<String>,
}

/// A workspace's runtime on RunPod.
#[derive(Clone, Debug, PartialEq, Eq)]
pub struct RunpodRuntime {
    pub placement: RunpodPlacementPlan,
    pub resources: RunpodResources,
}

/// The runtime that a workspace runs on.
#[derive(Clone, Debug, PartialEq, Eq)]
pub enum WorkspaceRuntime {
    Runpod(RunpodRuntime),
}

/// A catalogued workspace.
#[derive(Clone, Debug, PartialEq, Eq)]
pub struct Workspace {
    pub id: String,
    pub workflow: WorkflowReference,
    pub state: WorkspaceState,
    pub runtime: WorkspaceRuntime,
}

/// All catalogued workspaces, in the order in which they were created.
#[derive(Clone, Debug, PartialEq, Eq)]
pub struct WorkspaceCatalog {
    pub workspaces: Vec<Workspace>,
}

fn copy_opt(value: &Option<String>) -> (r: Option<String>)
    ensures
        r == *value,
{
    match value {
        Some(v) => Some(v.clone()),
        None => None,
    }
}

/// A copy of a workspace.
pub fn copy_workspace(workspace: &Workspace) -> (r: Workspace)
    ensures
        r == *workspace,
{
    let runtime = match &workspace.runtime {
        WorkspaceRuntime::Runpod(runtime) => WorkspaceRuntime::Runpod(RunpodRuntime {
            placement: RunpodPlacementPlan {
                data_center_id: runtime.placement.data_center_id.clone(),
                gpu_type_id: runtime.placement.gpu_type_id.clone(),
                volume_size_gb: runtime.placement.volume_size_gb,
            },
            resources: RunpodResources {
                network_volume_id: copy_opt(&runtime.resources.network_volume_id),
                provisioner_pod_id: copy_opt(&runtime.resources.provisioner_pod_id),
                endpoint_id: copy_opt(&runtime.resources.endpoint_id),
                template_id: copy_opt(&runtime.resources.template_id),
            },
        }),
    };
    Workspace {
        id: workspace.id.clone(),
        workflow: WorkflowReference { id: workspace.workflow.id.clone(), version: workspace.workflow.version.clone() },
        state: workspace.state,
        runtime,
    }
}

} // verus!
