//! When a provisioned workspace counts as ready.
use vstd::prelude::*;
use crate::domain::{ProviderResourceStatus, Workspace};
use super::snapshots::{
    endpoint_template_matches_workspace, runpod_template_snapshot,
    spec_endpoint_template_matches_workspace, spec_runpod_template_snapshot,
};

verus! {

/// A workspace is ready when its environment is prepared, its provisioning pod is gone, its
/// volume is ready and its endpoint is ready or running.
pub open spec fn spec_is_workspace_ready(workspace: Workspace) -> bool {
    &&& workspace.environment_prepared_at is Some
    &&& workspace.active_provisioning_pod_snapshot is None
    &&& workspace.persistent_storage_volume_snapshot matches Some(volume)
        && volume.provider_resource_status == ProviderResourceStatus::Ready
    &&& workspace.serverless_endpoint_snapshot matches Some(endpoint)
        && (endpoint.provider_resource_status == ProviderResourceStatus::Ready
            || endpoint.provider_resource_status == ProviderResourceStatus::Running)
}

/// Whether a workspace is ready.
pub fn is_workspace_ready(workspace: &Workspace) -> (r: bool)
    ensures
        r == spec_is_workspace_ready(*workspace),
{
    if workspace.environment_prepared_at.is_none() || workspace.active_provisioning_pod_snapshot.is_some() {
        return false;
    }
    let volume_ready = match &workspace.persistent_storage_volume_snapshot {
        Some(volume) => volume.provider_resource_status == ProviderResourceStatus::Ready,
        None => false,
    };
    if !volume_ready {
        return false;
    }
    match &workspace.serverless_endpoint_snapshot {
        Some(endpoint) => endpoint.provider_resource_status == ProviderResourceStatus::Ready
            || endpoint.provider_resource_status == ProviderResourceStatus::Running,
        None => false,
    }
}

/// A workspace tracks a template that serves it.
pub open spec fn spec_has_ready_matching_endpoint_template(workspace: Workspace) -> bool {
    spec_runpod_template_snapshot(workspace) matches Some(template)
        && spec_endpoint_template_matches_workspace(template, workspace)
}

/// Whether a workspace tracks a template that serves it.
pub fn has_ready_matching_endpoint_template(workspace: &Workspace) -> (r: bool)
    ensures
        r == spec_has_ready_matching_endpoint_template(*workspace),
{
    match runpod_template_snapshot(workspace) {
        Some(template) => endpoint_template_matches_workspace(&template, workspace),
        None => false,
    }
}

} // verus!
