//! The resource snapshots that a workspace keeps, made from what providers report.
use vstd::prelude::*;
use crate::domain::{
    PersistentStorageVolumeSnapshot, ProviderProvisioningSnapshot, ProviderResourceStatus,
    ProvisioningPodSnapshot, RunPodEndpointTemplateSnapshot, ServerlessEndpointSnapshot, Workspace,
};
use super::contracts::{
    EndpointTemplateObservation, NetworkVolumeObservation, ProvisioningPodObservation,
    ServerlessEndpointObservation,
};
use super::errors::WorkspaceProvisioningError;

verus! {

/// The volume snapshot recorded from a volume observation.
pub fn persistent_storage_volume_snapshot(workspace: &Workspace, observation: NetworkVolumeObservation) -> (r: PersistentStorageVolumeSnapshot)
    ensures
        r == (PersistentStorageVolumeSnapshot {
            gpu_cloud_provider_id: workspace.gpu_cloud_provider_id,
            provider_resource_id: observation.provider_resource_id,
            provider_resource_status: observation.provider_resource_status,
            mount_path: observation.mount_path,
        }),
{
    PersistentStorageVolumeSnapshot {
        gpu_cloud_provider_id: workspace.gpu_cloud_provider_id,
        provider_resource_id: observation.provider_resource_id,
        provider_resource_status: observation.provider_resource_status,
        mount_path: observation.mount_path,
    }
}

/// The pod snapshot recorded for a newly created pod, which must report its worker URL.
pub fn created_provisioning_pod_snapshot(workspace: &Workspace, observation: ProvisioningPodObservation) -> (r: Result<ProvisioningPodSnapshot, WorkspaceProvisioningError>)
    ensures
        match observation.provisioner_status_url {
            Some(url) => r == Ok::<ProvisioningPodSnapshot, WorkspaceProvisioningError>(ProvisioningPodSnapshot {
                gpu_cloud_provider_id: workspace.gpu_cloud_provider_id,
                provider_resource_id: observation.provider_resource_id,
                provider_resource_status: observation.provider_resource_status,
                provisioner_status_url: url,
            }),
            None => r == Err::<ProvisioningPodSnapshot, WorkspaceProvisioningError>(WorkspaceProvisioningError::ProviderResponseInvalid),
        },
{
    match observation.provisioner_status_url {
        Some(url) => Ok(ProvisioningPodSnapshot {
            gpu_cloud_provider_id: workspace.gpu_cloud_provider_id,
            provider_resource_id: observation.provider_resource_id,
            provider_resource_status: observation.provider_resource_status,
            provisioner_status_url: url,
        }),
        None => Err(WorkspaceProvisioningError::ProviderResponseInvalid),
    }
}

/// The pod snapshot recorded from an observation of a tracked pod; a pod that does not report
/// its worker URL keeps the URL it had.
pub fn observed_provisioning_pod_snapshot(workspace: &Workspace, previous: &ProvisioningPodSnapshot, observation: ProvisioningPodObservation) -> (r: ProvisioningPodSnapshot)
    ensures
        r == (ProvisioningPodSnapshot {
            gpu_cloud_provider_id: workspace.gpu_cloud_provider_id,
            provider_resource_id: observation.provider_resource_id,
            provider_resource_status: observation.provider_resource_status,
            provisioner_status_url: match observation.provisioner_status_url {
                Some(url) => url,
                None => previous.provisioner_status_url,
            },
        }),
{
    let provisioner_status_url = match observation.provisioner_status_url {
        Some(url) => url,
        None => previous.provisioner_status_url.clone(),
    };
    ProvisioningPodSnapshot {
        gpu_cloud_provider_id: workspace.gpu_cloud_provider_id,
        provider_resource_id: observation.provider_resource_id,
        provider_resource_status: observation.provider_resource_status,
        provisioner_status_url,
    }
}

/// The RunPod provisioning snapshot recorded from a template observation.
pub fn runpod_template_provisioning_snapshot(observation: EndpointTemplateObservation) -> (r: ProviderProvisioningSnapshot)
    ensures
        r == (ProviderProvisioningSnapshot::Runpod {
            endpoint_template_snapshot: Some(RunPodEndpointTemplateSnapshot {
                template_id: observation.template_id,
                endpoint_worker_image_ref: observation.endpoint_worker_image_ref,
                mount_path: observation.mount_path,
                provider_resource_status: observation.provider_resource_status,
            }),
        }),
{
    ProviderProvisioningSnapshot::Runpod {
        endpoint_template_snapshot: Some(RunPodEndpointTemplateSnapshot {
            template_id: observation.template_id,
            endpoint_worker_image_ref: observation.endpoint_worker_image_ref,
            mount_path: observation.mount_path,
            provider_resource_status: observation.provider_resource_status,
        }),
    }
}

/// The endpoint snapshot recorded from an endpoint observation.
pub fn serverless_endpoint_snapshot(workspace: &Workspace, observation: ServerlessEndpointObservation) -> (r: ServerlessEndpointSnapshot)
    ensures
        r == (ServerlessEndpointSnapshot {
            gpu_cloud_provider_id: workspace.gpu_cloud_provider_id,
            provider_resource_id: observation.provider_resource_id,
            provider_resource_status: observation.provider_resource_status,
            endpoint_invoke_url: observation.endpoint_invoke_url,
            provider_metadata: None,
        }),
{
    ServerlessEndpointSnapshot {
        gpu_cloud_provider_id: workspace.gpu_cloud_provider_id,
        provider_resource_id: observation.provider_resource_id,
        provider_resource_status: observation.provider_resource_status,
        endpoint_invoke_url: observation.endpoint_invoke_url,
        provider_metadata: None,
    }
}

/// The endpoint template that a workspace tracks, if any.
pub open spec fn spec_runpod_template_snapshot(workspace: Workspace) -> Option<RunPodEndpointTemplateSnapshot> {
    match workspace.provider_provisioning_snapshot {
        Some(ProviderProvisioningSnapshot::Runpod { endpoint_template_snapshot }) => endpoint_template_snapshot,
        None => None,
    }
}

/// A copy of a template snapshot.
pub fn copy_template_snapshot(template: &RunPodEndpointTemplateSnapshot) -> (r: RunPodEndpointTemplateSnapshot)
    ensures
        r == *template,
{
    RunPodEndpointTemplateSnapshot {
        template_id: template.template_id.clone(),
        endpoint_worker_image_ref: template.endpoint_worker_image_ref.clone(),
        mount_path: template.mount_path.clone(),
        provider_resource_status: template.provider_resource_status,
    }
}

/// The endpoint template that a workspace tracks, if any.
pub fn runpod_template_snapshot(workspace: &Workspace) -> (r: Option<RunPodEndpointTemplateSnapshot>)
    ensures
        r == spec_runpod_template_snapshot(*workspace),
{
    match &workspace.provider_provisioning_snapshot {
        Some(ProviderProvisioningSnapshot::Runpod { endpoint_template_snapshot }) => match endpoint_template_snapshot {
            Some(template) => Some(copy_template_snapshot(template)),
            None => None,
        },
        None => None,
    }
}

/// The mount path of the workspace's volume, or the empty path where it has none.
pub open spec fn volume_mount_path(workspace: Workspace) -> Seq<char> {
    match workspace.persistent_storage_volume_snapshot {
        Some(volume) => volume.mount_path@,
        None => Seq::empty(),
    }
}

/// A template serves a workspace when it is ready, runs the workspace's endpoint image and
/// mounts the workspace's volume path.
pub open spec fn spec_endpoint_template_matches_workspace(template: RunPodEndpointTemplateSnapshot, workspace: Workspace) -> bool {
    &&& template.provider_resource_status == ProviderResourceStatus::Ready
    &&& template.endpoint_worker_image_ref@ == workspace.resolved_runtime_image.endpoint_image_ref@
    &&& template.mount_path@ == volume_mount_path(workspace)
}

/// Whether a template serves a workspace.
pub fn endpoint_template_matches_workspace(template: &RunPodEndpointTemplateSnapshot, workspace: &Workspace) -> (r: bool)
    ensures
        r == spec_endpoint_template_matches_workspace(*template, *workspace),
{
    if template.provider_resource_status != ProviderResourceStatus::Ready {
        return false;
    }
    if template.endpoint_worker_image_ref != workspace.resolved_runtime_image.endpoint_image_ref {
        return false;
    }
    match &workspace.persistent_storage_volume_snapshot {
        Some(volume) => template.mount_path == volume.mount_path,
        None => {
            let empty = String::new();
            template.mount_path == empty
        },
    }
}

/// A workspace is ready when its environment is prepared, its provisioning pod is gone, its
/// volume is ready, it tracks a template that serves it, and its endpoint is ready.
pub open spec fn spec_is_workspace_ready_with_template(workspace: Workspace) -> bool {
    &&& workspace.environment_prepared_at is Some
    &&& workspace.active_provisioning_pod_snapshot is None
    &&& workspace.persistent_storage_volume_snapshot matches Some(volume)
        && volume.provider_resource_status == ProviderResourceStatus::Ready
    &&& spec_runpod_template_snapshot(workspace) matches Some(template)
        && spec_endpoint_template_matches_workspace(template, workspace)
    &&& workspace.serverless_endpoint_snapshot matches Some(endpoint)
        && endpoint.provider_resource_status == ProviderResourceStatus::Ready
}

/// Whether a workspace is ready, counting the endpoint template.
pub fn is_workspace_ready(workspace: &Workspace) -> (r: bool)
    ensures
        r == spec_is_workspace_ready_with_template(*workspace),
{
    if workspace.environment_prepared_at.is_none() || workspace.active_provisioning_pod_snapshot.is_some() {
        return false;
    }
    let volume_ready = match &workspace.persistent_storage_volume_snapshot {
        Some(volume) => volume.provider_resource_status == ProviderResourceStatus::Ready,
        None => false,
    };
    if !volume_ready {
        return false;
    }
    let template_matches = match runpod_template_snapshot(workspace) {
        Some(template) => endpoint_template_matches_workspace(&template, workspace),
        None => false,
    };
    if !template_matches {
        return false;
    }
    match &workspace.serverless_endpoint_snapshot {
        Some(endpoint) => endpoint.provider_resource_status == ProviderResourceStatus::Ready,
        None => false,
    }
}

/// A resource status from which the resource will not become ready.
pub open spec fn spec_is_terminal_provider_resource_status(status: ProviderResourceStatus) -> bool {
    status == ProviderResourceStatus::Failed || status == ProviderResourceStatus::Terminated
        || status == ProviderResourceStatus::Unknown
}

/// Whether a resource status is terminal.
pub fn is_terminal_provider_resource_status(status: &ProviderResourceStatus) -> (r: bool)
    ensures
        r == spec_is_terminal_provider_resource_status(*status),
{
    match status {
        ProviderResourceStatus::Failed | ProviderResourceStatus::Terminated | ProviderResourceStatus::Unknown => true,
        _ => false,
    }
}

} // verus!
