//! Provisioning steps that never duplicate a provider resource: before a resource is created,
//! the provider is asked for resources already tagged for the workspace; a single one found is
//! adopted in place of the creation, and several fail the workspace closed, since none of them
//! can be told to be the workspace's own. A creation whose outcome is not known is followed by
//! the same search, and never by a second creation.
//!
//! Each function decides one move of a step from the workspace and what the last provider
//! call answered; the caller makes the calls, writes a workspace that a step hands back to be
//! persisted, and reports it.
use vstd::prelude::*;
use crate::domain::{
    PlacementPlan, ProviderProvisioningSnapshot, ProviderResourceStatus, Workspace,
    WorkspaceLifecycleState, WorkspaceProvisioningFailureCode as Code,
    WorkspaceProvisioningFailureSource as Source, WorkspaceProvisioningPhase as Phase,
    WorkspaceProvisioningRecoveryAction as Action,
};
use super::contracts::{
    CreateEndpointTemplateInput, CreateNetworkVolumeInput, CreateServerlessEndpointInput,
    DiscoverEndpointTemplatesInput, DiscoverNetworkVolumesInput, DiscoverServerlessEndpointsInput,
    EndpointTemplateObservation, NetworkVolumeObservation, ServerlessEndpointObservation,
};
use super::errors::WorkspaceProvisioningError as E;
use super::failure::{
    fail_workspace, failed_workspace, failure_of, indeterminate_provider_operation,
    missing_provider_resource, readiness_validation_failed,
};
use super::runpod::{fail_if_terminal_resource, spec_fail_if_terminal_resource, spec_ready_workspace};
use super::snapshots::{
    endpoint_template_matches_workspace, is_workspace_ready, persistent_storage_volume_snapshot,
    runpod_template_provisioning_snapshot, runpod_template_snapshot, serverless_endpoint_snapshot,
    spec_endpoint_template_matches_workspace, spec_is_workspace_ready_with_template,
    spec_runpod_template_snapshot,
};

verus! {

/// How a step ends.
#[derive(Clone, Debug)]
pub enum StepOutcome {
    /// The step has nothing to do; the sync goes on with the workspace.
    Skip(Workspace),
    /// Write the workspace to the catalog; the sync ends with it.
    Persist(Workspace),
    /// The sync fails with the error.
    Fail(E),
}

/// The workspace failed in the phase with the failure of the given code, source and recovery.
pub open spec fn failed_with(workspace: Workspace, code: Code, phase: Phase, source: Source, action: Action) -> Workspace {
    failed_workspace(workspace, failure_of(code, phase, source, action))
}

/// The workspace failed because a creation's outcome could not be known.
pub open spec fn indeterminate(workspace: Workspace, phase: Phase) -> Workspace {
    failed_with(workspace, Code::ProviderOperationIndeterminate, phase, Source::Provider, Action::CleanupWorkspaceResources)
}

/// The workspace failed because a resource it tracks no longer exists.
pub open spec fn missing(workspace: Workspace, phase: Phase) -> Workspace {
    failed_with(workspace, Code::ProviderResourceMissing, phase, Source::ProviderResource, Action::CleanupWorkspaceResources)
}

fn fail_indeterminate(workspace: Workspace, phase: Phase) -> (r: Workspace)
    ensures
        r == indeterminate(workspace, phase),
{
    let mut workspace = workspace;
    fail_workspace(&mut workspace, indeterminate_provider_operation(phase));
    workspace
}

fn fail_missing(workspace: Workspace, phase: Phase) -> (r: Workspace)
    ensures
        r == missing(workspace, phase),
{
    let mut workspace = workspace;
    fail_workspace(&mut workspace, missing_provider_resource(phase));
    workspace
}

// ---------------------------------------------------------------------------------------------
// The network volume step.

/// The next move of the network volume step.
#[derive(Clone, Debug)]
pub enum NetworkVolumeStep {
    /// The step ended.
    Done(StepOutcome),
    /// Ask the provider for volumes tagged for the workspace; `before_create` says whether a
    /// creation is still to come, or whether one has just had an unknown outcome.
    Discover { workspace: Workspace, discovery: DiscoverNetworkVolumesInput, before_create: bool },
    /// Create the workspace's volume.
    Create { workspace: Workspace, creation: CreateNetworkVolumeInput },
    /// Read the tracked volume again.
    Observe { workspace: Workspace, volume_id: String },
}

/// The search for volumes tagged for a workspace: the workspace's provider, id, data center
/// and volume size.
pub open spec fn volume_discovery(workspace: Workspace) -> DiscoverNetworkVolumesInput {
    DiscoverNetworkVolumesInput {
        gpu_cloud_provider_id: workspace.gpu_cloud_provider_id,
        workspace_id: workspace.id,
        datacenter_id: workspace.placement_plan->Runpod_selected_datacenter_id,
        size_bytes: workspace.placement_plan->Runpod_persistent_storage_volume_size_bytes,
    }
}

/// The creation of a workspace's volume, with the same facts as its search.
pub open spec fn volume_creation(workspace: Workspace) -> CreateNetworkVolumeInput {
    CreateNetworkVolumeInput {
        gpu_cloud_provider_id: workspace.gpu_cloud_provider_id,
        workspace_id: workspace.id,
        datacenter_id: workspace.placement_plan->Runpod_selected_datacenter_id,
        size_bytes: workspace.placement_plan->Runpod_persistent_storage_volume_size_bytes,
    }
}

fn make_volume_discovery(workspace: &Workspace) -> (r: DiscoverNetworkVolumesInput)
    ensures
        r == volume_discovery(*workspace),
{
    let PlacementPlan::Runpod { selected_datacenter_id, persistent_storage_volume_size_bytes, .. } = &workspace.placement_plan;
    DiscoverNetworkVolumesInput {
        gpu_cloud_provider_id: workspace.gpu_cloud_provider_id,
        workspace_id: workspace.id.clone(),
        datacenter_id: selected_datacenter_id.clone(),
        size_bytes: *persistent_storage_volume_size_bytes,
    }
}

fn make_volume_creation(workspace: &Workspace) -> (r: CreateNetworkVolumeInput)
    ensures
        r == volume_creation(*workspace),
{
    let PlacementPlan::Runpod { selected_datacenter_id, persistent_storage_volume_size_bytes, .. } = &workspace.placement_plan;
    CreateNetworkVolumeInput {
        gpu_cloud_provider_id: workspace.gpu_cloud_provider_id,
        workspace_id: workspace.id.clone(),
        datacenter_id: selected_datacenter_id.clone(),
        size_bytes: *persistent_storage_volume_size_bytes,
    }
}

/// The first move of the network volume step: search before creating a volume the workspace
/// does not track; read a tracked volume that is not ready; otherwise nothing.
pub open spec fn spec_begin_network_volume_step(workspace: Workspace) -> NetworkVolumeStep {
    match workspace.persistent_storage_volume_snapshot {
        None => NetworkVolumeStep::Discover { workspace, discovery: volume_discovery(workspace), before_create: true },
        Some(volume) => if volume.provider_resource_status != ProviderResourceStatus::Ready {
            NetworkVolumeStep::Observe { workspace, volume_id: volume.provider_resource_id }
        } else {
            NetworkVolumeStep::Done(StepOutcome::Skip(workspace))
        },
    }
}

/// Decides the first move of the network volume step.
pub fn begin_network_volume_step(workspace: Workspace) -> (r: NetworkVolumeStep)
    ensures
        r == spec_begin_network_volume_step(workspace),
{
    let volume_id = match &workspace.persistent_storage_volume_snapshot {
        None => {
            let input = make_volume_discovery(&workspace);
            return NetworkVolumeStep::Discover { workspace, discovery: input, before_create: true };
        },
        Some(volume) => if volume.provider_resource_status != ProviderResourceStatus::Ready {
            volume.provider_resource_id.clone()
        } else {
            return NetworkVolumeStep::Done(StepOutcome::Skip(workspace));
        },
    };
    NetworkVolumeStep::Observe { workspace, volume_id }
}

/// The move after a search for volumes: a single volume found is adopted, the workspace tracks
/// it and is written; several fail the workspace as indeterminate; none found lets the
/// creation go ahead, or, after a creation with an unknown outcome, fails the workspace as
/// indeterminate; a failed search fails the sync.
pub open spec fn spec_network_volume_after_discovery(workspace: Workspace, before_create: bool, discovered: Result<Seq<NetworkVolumeObservation>, E>) -> NetworkVolumeStep {
    match discovered {
        Err(e) => NetworkVolumeStep::Done(StepOutcome::Fail(e)),
        Ok(found) => if found.len() == 1 {
            NetworkVolumeStep::Done(StepOutcome::Persist(with_observed_volume(workspace, found[0])))
        } else if found.len() > 1 {
            NetworkVolumeStep::Done(StepOutcome::Persist(indeterminate(workspace, Phase::CreatingVolume)))
        } else if before_create {
            NetworkVolumeStep::Create { workspace, creation: volume_creation(workspace) }
        } else {
            NetworkVolumeStep::Done(StepOutcome::Persist(indeterminate(workspace, Phase::CreatingVolume)))
        },
    }
}

/// The observations of a search, as a sequence.
pub open spec fn found<T>(discovered: Result<Vec<T>, E>) -> Result<Seq<T>, E> {
    match discovered {
        Ok(v) => Ok(v@),
        Err(e) => Err(e),
    }
}

/// Decides the move after a search for volumes.
pub fn network_volume_after_discovery(workspace: Workspace, before_create: bool, discovered: Result<Vec<NetworkVolumeObservation>, E>) -> (r: NetworkVolumeStep)
    ensures
        r == spec_network_volume_after_discovery(workspace, before_create, found(discovered)),
{
    match discovered {
        Err(e) => NetworkVolumeStep::Done(StepOutcome::Fail(e)),
        Ok(found) => if found.len() == 1 {
            let mut found = found;
            let observation = found.remove(0);
            NetworkVolumeStep::Done(StepOutcome::Persist(track_volume(workspace, observation)))
        } else if found.len() > 1 {
            NetworkVolumeStep::Done(StepOutcome::Persist(fail_indeterminate(workspace, Phase::CreatingVolume)))
        } else if before_create {
            let input = make_volume_creation(&workspace);
            NetworkVolumeStep::Create { workspace, creation: input }
        } else {
            NetworkVolumeStep::Done(StepOutcome::Persist(fail_indeterminate(workspace, Phase::CreatingVolume)))
        },
    }
}

/// The workspace once it tracks an observed volume, failed where the volume is terminal.
pub open spec fn with_observed_volume(workspace: Workspace, observation: NetworkVolumeObservation) -> Workspace {
    spec_fail_if_terminal_resource(
        Workspace {
            persistent_storage_volume_snapshot: Some(crate::domain::PersistentStorageVolumeSnapshot {
                gpu_cloud_provider_id: workspace.gpu_cloud_provider_id,
                provider_resource_id: observation.provider_resource_id,
                provider_resource_status: observation.provider_resource_status,
                mount_path: observation.mount_path,
            }),
            ..workspace
        },
        Some(observation.provider_resource_status),
        Phase::CreatingVolume,
    )
}

fn track_volume(workspace: Workspace, observation: NetworkVolumeObservation) -> (r: Workspace)
    ensures
        r == with_observed_volume(workspace, observation),
{
    let status = observation.provider_resource_status;
    let mut workspace = workspace;
    let snapshot = persistent_storage_volume_snapshot(&workspace, observation);
    workspace.persistent_storage_volume_snapshot = Some(snapshot);
    fail_if_terminal_resource(&mut workspace, Some(status), Phase::CreatingVolume);
    workspace
}

/// The move after the volume was created: the workspace tracks it and is written; an unknown
/// outcome is followed by a search; any other failure fails the sync.
pub open spec fn spec_network_volume_after_create(workspace: Workspace, created: Result<NetworkVolumeObservation, E>) -> NetworkVolumeStep {
    match created {
        Ok(observation) => NetworkVolumeStep::Done(StepOutcome::Persist(with_observed_volume(workspace, observation))),
        Err(E::ProviderOperationIndeterminate) => NetworkVolumeStep::Discover {
            workspace,
            discovery: volume_discovery(workspace),
            before_create: false,
        },
        Err(e) => NetworkVolumeStep::Done(StepOutcome::Fail(e)),
    }
}

/// Decides the move after the volume was created.
pub fn network_volume_after_create(workspace: Workspace, created: Result<NetworkVolumeObservation, E>) -> (r: NetworkVolumeStep)
    ensures
        r == spec_network_volume_after_create(workspace, created),
{
    match created {
        Ok(observation) => NetworkVolumeStep::Done(StepOutcome::Persist(track_volume(workspace, observation))),
        Err(E::ProviderOperationIndeterminate) => {
            let input = make_volume_discovery(&workspace);
            NetworkVolumeStep::Discover { workspace, discovery: input, before_create: false }
        },
        Err(e) => NetworkVolumeStep::Done(StepOutcome::Fail(e)),
    }
}

/// The move after the tracked volume was read: the workspace tracks what was read and is
/// written; a volume that no longer exists fails the workspace as missing; any other failure
/// fails the sync.
pub open spec fn spec_network_volume_after_observe(workspace: Workspace, observed: Result<NetworkVolumeObservation, E>) -> NetworkVolumeStep {
    match observed {
        Ok(observation) => NetworkVolumeStep::Done(StepOutcome::Persist(with_observed_volume(workspace, observation))),
        Err(E::ProviderResourceNotFound) => NetworkVolumeStep::Done(StepOutcome::Persist(missing(workspace, Phase::CreatingVolume))),
        Err(e) => NetworkVolumeStep::Done(StepOutcome::Fail(e)),
    }
}

/// Decides the move after the tracked volume was read.
pub fn network_volume_after_observe(workspace: Workspace, observed: Result<NetworkVolumeObservation, E>) -> (r: NetworkVolumeStep)
    ensures
        r == spec_network_volume_after_observe(workspace, observed),
{
    match observed {
        Ok(observation) => NetworkVolumeStep::Done(StepOutcome::Persist(track_volume(workspace, observation))),
        Err(E::ProviderResourceNotFound) => NetworkVolumeStep::Done(StepOutcome::Persist(fail_missing(workspace, Phase::CreatingVolume))),
        Err(e) => NetworkVolumeStep::Done(StepOutcome::Fail(e)),
    }
}

/// A volume is created only after a search that found none, and never after a creation whose
/// outcome was unknown; a search that found exactly one adopts it, and one that found several
/// fails the workspace closed in the volume phase.
pub proof fn volume_is_never_duplicated(workspace: Workspace, before_create: bool, discovered: Result<Seq<NetworkVolumeObservation>, E>)
    ensures
        spec_network_volume_after_discovery(workspace, before_create, discovered) is Create
            ==> (before_create && (discovered matches Ok(found) && found.len() == 0)),
        match discovered {
            Ok(found) => {
                &&& found.len() == 1 ==> spec_network_volume_after_discovery(workspace, before_create, discovered)
                    == NetworkVolumeStep::Done(StepOutcome::Persist(with_observed_volume(workspace, found[0])))
                &&& found.len() > 1 ==> spec_network_volume_after_discovery(workspace, before_create, discovered)
                    == NetworkVolumeStep::Done(StepOutcome::Persist(indeterminate(workspace, Phase::CreatingVolume)))
            },
            Err(_) => true,
        },
{
}

// ---------------------------------------------------------------------------------------------
// The endpoint template step.

/// What the endpoint template step needs besides the workspace: the port of the endpoint
/// worker and the path at which endpoints mount the workspace's volume.
#[derive(Clone, Debug)]
pub struct EndpointTemplateSettings {
    pub endpoint_worker_port: u16,
    pub mount_path: String,
}

/// The next move of the endpoint template step.
#[derive(Clone, Debug)]
pub enum EndpointTemplateStep {
    /// The step ended.
    Done(StepOutcome),
    /// Read the tracked template again; `refresh` says it was ready but did not serve the
    /// workspace.
    Observe { workspace: Workspace, template_id: String, refresh: bool },
    /// Delete the tracked endpoint, whose template does not serve the workspace.
    DeleteEndpoint { workspace: Workspace, endpoint_id: String },
    /// Delete the tracked template, which does not serve the workspace.
    DeleteTemplate { workspace: Workspace, template_id: String },
    /// Ask the provider for templates tagged for the workspace before, or after an unknown
    /// outcome of, the given creation.
    Discover {
        workspace: Workspace,
        discovery: DiscoverEndpointTemplatesInput,
        creation: CreateEndpointTemplateInput,
        before_create: bool,
    },
    /// Create the workspace's template.
    Create { workspace: Workspace, creation: CreateEndpointTemplateInput },
}

/// The creation of a workspace's template: its endpoint image, with the settings' port and
/// mount path.
pub open spec fn template_creation(workspace: Workspace, settings: EndpointTemplateSettings) -> CreateEndpointTemplateInput {
    CreateEndpointTemplateInput {
        gpu_cloud_provider_id: workspace.gpu_cloud_provider_id,
        workspace_id: workspace.id,
        endpoint_worker_image_ref: workspace.resolved_runtime_image.endpoint_image_ref,
        endpoint_worker_port: settings.endpoint_worker_port,
        mount_path: settings.mount_path,
    }
}

/// The search for templates that a creation would make.
pub open spec fn template_discovery(creation: CreateEndpointTemplateInput) -> DiscoverEndpointTemplatesInput {
    DiscoverEndpointTemplatesInput {
        gpu_cloud_provider_id: creation.gpu_cloud_provider_id,
        workspace_id: creation.workspace_id,
        endpoint_worker_image_ref: creation.endpoint_worker_image_ref,
        endpoint_worker_port: creation.endpoint_worker_port,
        mount_path: creation.mount_path,
    }
}

fn make_template_discovery(creation: &CreateEndpointTemplateInput) -> (r: DiscoverEndpointTemplatesInput)
    ensures
        r == template_discovery(*creation),
{
    DiscoverEndpointTemplatesInput {
        gpu_cloud_provider_id: creation.gpu_cloud_provider_id,
        workspace_id: creation.workspace_id.clone(),
        endpoint_worker_image_ref: creation.endpoint_worker_image_ref.clone(),
        endpoint_worker_port: creation.endpoint_worker_port,
        mount_path: creation.mount_path.clone(),
    }
}

/// The first move of the endpoint template step, once the environment is prepared and the
/// provisioning pod is gone: a ready template that serves the workspace needs nothing; a ready
/// one that does not is read again; an unready one is read; without one, templates are
/// searched before one is created.
pub open spec fn spec_begin_endpoint_template_step(workspace: Workspace, settings: EndpointTemplateSettings) -> EndpointTemplateStep {
    if workspace.environment_prepared_at is None || workspace.active_provisioning_pod_snapshot is Some {
        EndpointTemplateStep::Done(StepOutcome::Skip(workspace))
    } else {
        match spec_runpod_template_snapshot(workspace) {
            Some(t) => if t.provider_resource_status == ProviderResourceStatus::Ready {
                if spec_endpoint_template_matches_workspace(t, workspace) {
                    EndpointTemplateStep::Done(StepOutcome::Skip(workspace))
                } else {
                    EndpointTemplateStep::Observe { workspace, template_id: t.template_id, refresh: true }
                }
            } else {
                EndpointTemplateStep::Observe { workspace, template_id: t.template_id, refresh: false }
            },
            None => EndpointTemplateStep::Discover {
                workspace,
                discovery: template_discovery(template_creation(workspace, settings)),
                creation: template_creation(workspace, settings),
                before_create: true,
            },
        }
    }
}

/// Decides the first move of the endpoint template step.
pub fn begin_endpoint_template_step(workspace: Workspace, settings: EndpointTemplateSettings) -> (r: EndpointTemplateStep)
    ensures
        r == spec_begin_endpoint_template_step(workspace, settings),
{
    if workspace.environment_prepared_at.is_none() || workspace.active_provisioning_pod_snapshot.is_some() {
        return EndpointTemplateStep::Done(StepOutcome::Skip(workspace));
    }
    match runpod_template_snapshot(&workspace) {
        Some(t) => if t.provider_resource_status == ProviderResourceStatus::Ready {
            if endpoint_template_matches_workspace(&t, &workspace) {
                EndpointTemplateStep::Done(StepOutcome::Skip(workspace))
            } else {
                EndpointTemplateStep::Observe { workspace, template_id: t.template_id, refresh: true }
            }
        } else {
            EndpointTemplateStep::Observe { workspace, template_id: t.template_id, refresh: false }
        },
        None => {
            let creation = CreateEndpointTemplateInput {
                gpu_cloud_provider_id: workspace.gpu_cloud_provider_id,
                workspace_id: workspace.id.clone(),
                endpoint_worker_image_ref: workspace.resolved_runtime_image.endpoint_image_ref.clone(),
                endpoint_worker_port: settings.endpoint_worker_port,
                mount_path: settings.mount_path,
            };
            let discovery = make_template_discovery(&creation);
            EndpointTemplateStep::Discover { workspace, discovery, creation, before_create: true }
        },
    }
}

/// The workspace tracking the template of an observation.
pub open spec fn with_template(workspace: Workspace, observation: EndpointTemplateObservation) -> Workspace {
    Workspace {
        provider_provisioning_snapshot: Some(ProviderProvisioningSnapshot::Runpod {
            endpoint_template_snapshot: Some(crate::domain::RunPodEndpointTemplateSnapshot {
                template_id: observation.template_id,
                endpoint_worker_image_ref: observation.endpoint_worker_image_ref,
                mount_path: observation.mount_path,
                provider_resource_status: observation.provider_resource_status,
            }),
        }),
        ..workspace
    }
}

/// The workspace tracking an observed template, failed where the template is terminal.
pub open spec fn with_observed_template(workspace: Workspace, observation: EndpointTemplateObservation) -> Workspace {
    spec_fail_if_terminal_resource(
        with_template(workspace, observation),
        Some(observation.provider_resource_status),
        Phase::CreatingEndpointTemplate,
    )
}

/// The workspace without a tracked template.
pub open spec fn without_template(workspace: Workspace) -> Workspace {
    Workspace { provider_provisioning_snapshot: None, ..workspace }
}

/// The workspace without a tracked endpoint.
pub open spec fn without_endpoint(workspace: Workspace) -> Workspace {
    Workspace { serverless_endpoint_snapshot: None, ..workspace }
}

fn track_template(workspace: Workspace, observation: EndpointTemplateObservation) -> (r: Workspace)
    ensures
        r == with_template(workspace, observation),
{
    let mut workspace = workspace;
    workspace.provider_provisioning_snapshot = Some(runpod_template_provisioning_snapshot(observation));
    workspace
}

fn track_observed_template(workspace: Workspace, observation: EndpointTemplateObservation) -> (r: Workspace)
    ensures
        r == with_observed_template(workspace, observation),
{
    let status = observation.provider_resource_status;
    let mut workspace = track_template(workspace, observation);
    fail_if_terminal_resource(&mut workspace, Some(status), Phase::CreatingEndpointTemplate);
    workspace
}

/// The move that removes what a template that does not serve the workspace left behind: a
/// tracked endpoint is deleted first; otherwise, the template itself where it still exists.
pub open spec fn spec_remove_stale_template(workspace: Workspace, template_id: Option<String>) -> EndpointTemplateStep {
    match workspace.serverless_endpoint_snapshot {
        Some(endpoint) => EndpointTemplateStep::DeleteEndpoint { workspace, endpoint_id: endpoint.provider_resource_id },
        None => match template_id {
            Some(id) => EndpointTemplateStep::DeleteTemplate { workspace, template_id: id },
            None => EndpointTemplateStep::Done(StepOutcome::Persist(without_template(workspace))),
        },
    }
}

fn remove_stale_template(workspace: Workspace, template_id: Option<String>) -> (r: EndpointTemplateStep)
    ensures
        r == spec_remove_stale_template(workspace, template_id),
{
    let endpoint_id = match &workspace.serverless_endpoint_snapshot {
        Some(endpoint) => endpoint.provider_resource_id.clone(),
        None => {
            return match template_id {
                Some(id) => EndpointTemplateStep::DeleteTemplate { workspace, template_id: id },
                None => {
                    let mut workspace = workspace;
                    workspace.provider_provisioning_snapshot = None;
                    EndpointTemplateStep::Done(StepOutcome::Persist(workspace))
                },
            };
        },
    };
    EndpointTemplateStep::DeleteEndpoint { workspace, endpoint_id }
}

/// The move after the tracked template was read. A template that was ready but did not serve
/// the workspace is tracked as read: if it now serves the workspace it is written; otherwise
/// what it left behind is removed; where it no longer exists, what it left behind is removed
/// and it is no longer tracked. An unready template is tracked as read and written, failed
/// where it is terminal; where it no longer exists, the workspace fails as missing it. Any other
/// failure fails the sync.
pub open spec fn spec_endpoint_template_after_observe(workspace: Workspace, refresh: bool, observed: Result<EndpointTemplateObservation, E>) -> EndpointTemplateStep {
    if refresh {
        match observed {
            Ok(observation) => {
                let refreshed = with_template(workspace, observation);
                if spec_endpoint_template_matches_workspace(spec_runpod_template_snapshot(refreshed)->Some_0, refreshed) {
                    EndpointTemplateStep::Done(StepOutcome::Persist(refreshed))
                } else {
                    spec_remove_stale_template(refreshed, Some(observation.template_id))
                }
            },
            Err(E::ProviderResourceNotFound) => spec_remove_stale_template(workspace, None),
            Err(e) => EndpointTemplateStep::Done(StepOutcome::Fail(e)),
        }
    } else {
        match observed {
            Ok(observation) => EndpointTemplateStep::Done(StepOutcome::Persist(with_observed_template(workspace, observation))),
            Err(E::ProviderResourceNotFound) => EndpointTemplateStep::Done(StepOutcome::Persist(
                missing(workspace, Phase::CreatingEndpointTemplate),
            )),
            Err(e) => EndpointTemplateStep::Done(StepOutcome::Fail(e)),
        }
    }
}

/// Decides the move after the tracked template was read.
pub fn endpoint_template_after_observe(workspace: Workspace, refresh: bool, observed: Result<EndpointTemplateObservation, E>) -> (r: EndpointTemplateStep)
    ensures
        r == spec_endpoint_template_after_observe(workspace, refresh, observed),
{
    if refresh {
        match observed {
            Ok(observation) => {
                let template_id = observation.template_id.clone();
                let refreshed = track_template(workspace, observation);
                let matches = match runpod_template_snapshot(&refreshed) {
                    Some(t) => endpoint_template_matches_workspace(&t, &refreshed),
                    None => false,
                };
                if matches {
                    EndpointTemplateStep::Done(StepOutcome::Persist(refreshed))
                } else {
                    remove_stale_template(refreshed, Some(template_id))
                }
            },
            Err(E::ProviderResourceNotFound) => remove_stale_template(workspace, None),
            Err(e) => EndpointTemplateStep::Done(StepOutcome::Fail(e)),
        }
    } else {
        match observed {
            Ok(observation) => EndpointTemplateStep::Done(StepOutcome::Persist(track_observed_template(workspace, observation))),
            Err(E::ProviderResourceNotFound) => EndpointTemplateStep::Done(StepOutcome::Persist(
                fail_missing(workspace, Phase::CreatingEndpointTemplate),
            )),
            Err(e) => EndpointTemplateStep::Done(StepOutcome::Fail(e)),
        }
    }
}

/// The move after the tracked endpoint was deleted: whether it was deleted or was already
/// gone, the workspace no longer tracks it and is written; any other failure fails the sync.
pub open spec fn spec_endpoint_template_after_endpoint_delete(workspace: Workspace, deleted: Result<(), E>) -> EndpointTemplateStep {
    match deleted {
        Ok(()) | Err(E::ProviderResourceNotFound) => EndpointTemplateStep::Done(StepOutcome::Persist(without_endpoint(workspace))),
        Err(e) => EndpointTemplateStep::Done(StepOutcome::Fail(e)),
    }
}

/// Decides the move after the tracked endpoint was deleted.
pub fn endpoint_template_after_endpoint_delete(workspace: Workspace, deleted: Result<(), E>) -> (r: EndpointTemplateStep)
    ensures
        r == spec_endpoint_template_after_endpoint_delete(workspace, deleted),
{
    match deleted {
        Ok(()) | Err(E::ProviderResourceNotFound) => {
            let mut workspace = workspace;
            workspace.serverless_endpoint_snapshot = None;
            EndpointTemplateStep::Done(StepOutcome::Persist(workspace))
        },
        Err(e) => EndpointTemplateStep::Done(StepOutcome::Fail(e)),
    }
}

/// The move after the tracked template was deleted: whether it was deleted or was already
/// gone, the workspace no longer tracks it and is written; any other failure fails the sync.
pub open spec fn spec_endpoint_template_after_template_delete(workspace: Workspace, deleted: Result<(), E>) -> EndpointTemplateStep {
    match deleted {
        Ok(()) | Err(E::ProviderResourceNotFound) => EndpointTemplateStep::Done(StepOutcome::Persist(without_template(workspace))),
        Err(e) => EndpointTemplateStep::Done(StepOutcome::Fail(e)),
    }
}

/// Decides the move after the tracked template was deleted.
pub fn endpoint_template_after_template_delete(workspace: Workspace, deleted: Result<(), E>) -> (r: EndpointTemplateStep)
    ensures
        r == spec_endpoint_template_after_template_delete(workspace, deleted),
{
    match deleted {
        Ok(()) | Err(E::ProviderResourceNotFound) => {
            let mut workspace = workspace;
            workspace.provider_provisioning_snapshot = None;
            EndpointTemplateStep::Done(StepOutcome::Persist(workspace))
        },
        Err(e) => EndpointTemplateStep::Done(StepOutcome::Fail(e)),
    }
}

/// The move after a search for templates: a single template found is adopted, the workspace
/// tracks it and is written; several fail the workspace as indeterminate; none found lets the
/// creation go ahead, or, after a creation with an unknown outcome, fails the workspace as
/// indeterminate; a failed search fails the sync.
pub open spec fn spec_endpoint_template_after_discovery(workspace: Workspace, creation: CreateEndpointTemplateInput, before_create: bool, discovered: Result<Seq<EndpointTemplateObservation>, E>) -> EndpointTemplateStep {
    match discovered {
        Err(e) => EndpointTemplateStep::Done(StepOutcome::Fail(e)),
        Ok(found) => if found.len() == 1 {
            EndpointTemplateStep::Done(StepOutcome::Persist(with_observed_template(workspace, found[0])))
        } else if found.len() > 1 {
            EndpointTemplateStep::Done(StepOutcome::Persist(indeterminate(workspace, Phase::CreatingEndpointTemplate)))
        } else if before_create {
            EndpointTemplateStep::Create { workspace, creation }
        } else {
            EndpointTemplateStep::Done(StepOutcome::Persist(indeterminate(workspace, Phase::CreatingEndpointTemplate)))
        },
    }
}

/// Decides the move after a search for templates.
pub fn endpoint_template_after_discovery(workspace: Workspace, creation: CreateEndpointTemplateInput, before_create: bool, discovered: Result<Vec<EndpointTemplateObservation>, E>) -> (r: EndpointTemplateStep)
    ensures
        r == spec_endpoint_template_after_discovery(workspace, creation, before_create, found(discovered)),
{
    match discovered {
        Err(e) => EndpointTemplateStep::Done(StepOutcome::Fail(e)),
        Ok(found) => if found.len() == 1 {
            let mut found = found;
            let observation = found.remove(0);
            EndpointTemplateStep::Done(StepOutcome::Persist(track_observed_template(workspace, observation)))
        } else if found.len() > 1 {
            EndpointTemplateStep::Done(StepOutcome::Persist(fail_indeterminate(workspace, Phase::CreatingEndpointTemplate)))
        } else if before_create {
            EndpointTemplateStep::Create { workspace, creation }
        } else {
            EndpointTemplateStep::Done(StepOutcome::Persist(fail_indeterminate(workspace, Phase::CreatingEndpointTemplate)))
        },
    }
}

/// The move after the template was created: the workspace tracks it and is written, failed
/// where it is terminal; an unknown outcome is followed by a search; any other failure fails
/// the sync.
pub open spec fn spec_endpoint_template_after_create(workspace: Workspace, creation: CreateEndpointTemplateInput, created: Result<EndpointTemplateObservation, E>) -> EndpointTemplateStep {
    match created {
        Ok(observation) => EndpointTemplateStep::Done(StepOutcome::Persist(with_observed_template(workspace, observation))),
        Err(E::ProviderOperationIndeterminate) => EndpointTemplateStep::Discover {
            workspace,
            discovery: template_discovery(creation),
            creation,
            before_create: false,
        },
        Err(e) => EndpointTemplateStep::Done(StepOutcome::Fail(e)),
    }
}

/// Decides the move after the template was created.
pub fn endpoint_template_after_create(workspace: Workspace, creation: CreateEndpointTemplateInput, created: Result<EndpointTemplateObservation, E>) -> (r: EndpointTemplateStep)
    ensures
        r == spec_endpoint_template_after_create(workspace, creation, created),
{
    match created {
        Ok(observation) => EndpointTemplateStep::Done(StepOutcome::Persist(track_observed_template(workspace, observation))),
        Err(E::ProviderOperationIndeterminate) => {
            let discovery = make_template_discovery(&creation);
            EndpointTemplateStep::Discover { workspace, discovery, creation, before_create: false }
        },
        Err(e) => EndpointTemplateStep::Done(StepOutcome::Fail(e)),
    }
}

/// A template is created only after a search that found none, and never after a creation
/// whose outcome was unknown; a search that found exactly one adopts it, and one that found
/// several fails the workspace closed in the template phase.
pub proof fn template_is_never_duplicated(workspace: Workspace, creation: CreateEndpointTemplateInput, before_create: bool, discovered: Result<Seq<EndpointTemplateObservation>, E>)
    ensures
        spec_endpoint_template_after_discovery(workspace, creation, before_create, discovered) is Create
            ==> (before_create && (discovered matches Ok(found) && found.len() == 0)),
        match discovered {
            Ok(found) => {
                &&& found.len() == 1 ==> spec_endpoint_template_after_discovery(workspace, creation, before_create, discovered)
                    == EndpointTemplateStep::Done(StepOutcome::Persist(with_observed_template(workspace, found[0])))
                &&& found.len() > 1 ==> spec_endpoint_template_after_discovery(workspace, creation, before_create, discovered)
                    == EndpointTemplateStep::Done(StepOutcome::Persist(indeterminate(workspace, Phase::CreatingEndpointTemplate)))
            },
            Err(_) => true,
        },
{
}

// ---------------------------------------------------------------------------------------------
// The serverless endpoint step.

/// The next move of the serverless endpoint step.
#[derive(Clone, Debug)]
pub enum ServerlessEndpointStep {
    /// The step ended.
    Done(StepOutcome),
    /// Ask the provider for endpoints tagged for the workspace before, or after an unknown
    /// outcome of, the given creation.
    Discover {
        workspace: Workspace,
        discovery: DiscoverServerlessEndpointsInput,
        creation: CreateServerlessEndpointInput,
        before_create: bool,
    },
    /// Create the workspace's endpoint.
    Create { workspace: Workspace, creation: CreateServerlessEndpointInput },
    /// Read the tracked endpoint again.
    Observe { workspace: Workspace, endpoint_id: String },
}

/// The creation of a workspace's endpoint from its template and volume, in its placement.
pub open spec fn endpoint_creation(workspace: Workspace, template_id: String, network_volume_id: String) -> CreateServerlessEndpointInput {
    CreateServerlessEndpointInput {
        gpu_cloud_provider_id: workspace.gpu_cloud_provider_id,
        workspace_id: workspace.id,
        template_id,
        datacenter_id: workspace.placement_plan->Runpod_selected_datacenter_id,
        selected_gpu_id: workspace.placement_plan->Runpod_selected_gpu_id,
        network_volume_id,
        endpoint_keep_alive_seconds: workspace.placement_plan->Runpod_endpoint_keep_alive_seconds,
    }
}

/// The search for endpoints that a creation would make.
pub open spec fn endpoint_discovery(creation: CreateServerlessEndpointInput) -> DiscoverServerlessEndpointsInput {
    DiscoverServerlessEndpointsInput {
        gpu_cloud_provider_id: creation.gpu_cloud_provider_id,
        workspace_id: creation.workspace_id,
        template_id: creation.template_id,
        datacenter_id: creation.datacenter_id,
        selected_gpu_id: creation.selected_gpu_id,
        network_volume_id: creation.network_volume_id,
        endpoint_keep_alive_seconds: creation.endpoint_keep_alive_seconds,
    }
}

fn make_endpoint_discovery(creation: &CreateServerlessEndpointInput) -> (r: DiscoverServerlessEndpointsInput)
    ensures
        r == endpoint_discovery(*creation),
{
    DiscoverServerlessEndpointsInput {
        gpu_cloud_provider_id: creation.gpu_cloud_provider_id,
        workspace_id: creation.workspace_id.clone(),
        template_id: creation.template_id.clone(),
        datacenter_id: creation.datacenter_id.clone(),
        selected_gpu_id: creation.selected_gpu_id.clone(),
        network_volume_id: creation.network_volume_id.clone(),
        endpoint_keep_alive_seconds: creation.endpoint_keep_alive_seconds,
    }
}

/// The first move of the serverless endpoint step, once the environment is prepared and the
/// provisioning pod is gone. Without an endpoint: a workspace without a volume fails as missing
/// it, one without a template fails its readiness validation, and otherwise endpoints are
/// searched before one is created. An unready endpoint is read. A workspace that is ready is
/// marked ready and written; otherwise nothing.
pub open spec fn spec_begin_serverless_endpoint_step(workspace: Workspace) -> ServerlessEndpointStep {
    if workspace.environment_prepared_at is None || workspace.active_provisioning_pod_snapshot is Some {
        ServerlessEndpointStep::Done(StepOutcome::Skip(workspace))
    } else {
        match workspace.serverless_endpoint_snapshot {
            None => match workspace.persistent_storage_volume_snapshot {
                None => ServerlessEndpointStep::Done(StepOutcome::Persist(missing(workspace, Phase::CreatingEndpoint))),
                Some(volume) => match spec_runpod_template_snapshot(workspace) {
                    None => ServerlessEndpointStep::Done(StepOutcome::Persist(failed_with(
                        workspace,
                        Code::ReadinessValidationFailed,
                        Phase::CreatingEndpoint,
                        Source::Native,
                        Action::InspectWorkspaceProvisioning,
                    ))),
                    Some(template) => {
                        let creation = endpoint_creation(workspace, template.template_id, volume.provider_resource_id);
                        ServerlessEndpointStep::Discover {
                            workspace,
                            discovery: endpoint_discovery(creation),
                            creation,
                            before_create: true,
                        }
                    },
                },
            },
            Some(endpoint) => if endpoint.provider_resource_status != ProviderResourceStatus::Ready {
                ServerlessEndpointStep::Observe { workspace, endpoint_id: endpoint.provider_resource_id }
            } else if spec_is_workspace_ready_with_template(workspace) {
                ServerlessEndpointStep::Done(StepOutcome::Persist(spec_ready_workspace(workspace)))
            } else {
                ServerlessEndpointStep::Done(StepOutcome::Skip(workspace))
            },
        }
    }
}

/// Decides the first move of the serverless endpoint step.
pub fn begin_serverless_endpoint_step(workspace: Workspace) -> (r: ServerlessEndpointStep)
    ensures
        r == spec_begin_serverless_endpoint_step(workspace),
{
    if workspace.environment_prepared_at.is_none() || workspace.active_provisioning_pod_snapshot.is_some() {
        return ServerlessEndpointStep::Done(StepOutcome::Skip(workspace));
    }
    let (unready, endpoint_id) = match &workspace.serverless_endpoint_snapshot {
        Some(endpoint) => (
            endpoint.provider_resource_status != ProviderResourceStatus::Ready,
            endpoint.provider_resource_id.clone(),
        ),
        None => {
            let volume_id = match &workspace.persistent_storage_volume_snapshot {
                Some(volume) => volume.provider_resource_id.clone(),
                None => {
                    return ServerlessEndpointStep::Done(StepOutcome::Persist(fail_missing(workspace, Phase::CreatingEndpoint)));
                },
            };
            let template_id = match runpod_template_snapshot(&workspace) {
                Some(template) => template.template_id,
                None => {
                    let mut workspace = workspace;
                    fail_workspace(&mut workspace, readiness_validation_failed(Phase::CreatingEndpoint));
                    return ServerlessEndpointStep::Done(StepOutcome::Persist(workspace));
                },
            };
            let PlacementPlan::Runpod { selected_datacenter_id, selected_gpu_id, endpoint_keep_alive_seconds, .. } = &workspace.placement_plan;
            let creation = CreateServerlessEndpointInput {
                gpu_cloud_provider_id: workspace.gpu_cloud_provider_id,
                workspace_id: workspace.id.clone(),
                template_id,
                datacenter_id: selected_datacenter_id.clone(),
                selected_gpu_id: selected_gpu_id.clone(),
                network_volume_id: volume_id,
                endpoint_keep_alive_seconds: *endpoint_keep_alive_seconds,
            };
            let discovery = make_endpoint_discovery(&creation);
            return ServerlessEndpointStep::Discover { workspace, discovery, creation, before_create: true };
        },
    };
    if unready {
        return ServerlessEndpointStep::Observe { workspace, endpoint_id };
    }
    if is_workspace_ready(&workspace) {
        let mut workspace = workspace;
        workspace.lifecycle_state = WorkspaceLifecycleState::Ready;
        workspace.last_provisioning_failure = None;
        ServerlessEndpointStep::Done(StepOutcome::Persist(workspace))
    } else {
        ServerlessEndpointStep::Done(StepOutcome::Skip(workspace))
    }
}

/// The workspace tracking an observed endpoint, failed where the endpoint is terminal.
pub open spec fn with_observed_endpoint(workspace: Workspace, observation: ServerlessEndpointObservation) -> Workspace {
    spec_fail_if_terminal_resource(
        Workspace {
            serverless_endpoint_snapshot: Some(crate::domain::ServerlessEndpointSnapshot {
                gpu_cloud_provider_id: workspace.gpu_cloud_provider_id,
                provider_resource_id: observation.provider_resource_id,
                provider_resource_status: observation.provider_resource_status,
                endpoint_invoke_url: observation.endpoint_invoke_url,
                provider_metadata: None,
            }),
            ..workspace
        },
        Some(observation.provider_resource_status),
        Phase::CreatingEndpoint,
    )
}

fn track_endpoint(workspace: Workspace, observation: ServerlessEndpointObservation) -> (r: Workspace)
    ensures
        r == with_observed_endpoint(workspace, observation),
{
    let status = observation.provider_resource_status;
    let mut workspace = workspace;
    let snapshot = serverless_endpoint_snapshot(&workspace, observation);
    workspace.serverless_endpoint_snapshot = Some(snapshot);
    fail_if_terminal_resource(&mut workspace, Some(status), Phase::CreatingEndpoint);
    workspace
}

/// The move after a search for endpoints: a single endpoint found is adopted, the workspace
/// tracks it and is written; several fail the workspace as indeterminate; none found lets the
/// creation go ahead, or, after a creation with an unknown outcome, fails the workspace as
/// indeterminate; a failed search fails the sync.
pub open spec fn spec_serverless_endpoint_after_discovery(workspace: Workspace, creation: CreateServerlessEndpointInput, before_create: bool, discovered: Result<Seq<ServerlessEndpointObservation>, E>) -> ServerlessEndpointStep {
    match discovered {
        Err(e) => ServerlessEndpointStep::Done(StepOutcome::Fail(e)),
        Ok(found) => if found.len() == 1 {
            ServerlessEndpointStep::Done(StepOutcome::Persist(with_observed_endpoint(workspace, found[0])))
        } else if found.len() > 1 {
            ServerlessEndpointStep::Done(StepOutcome::Persist(indeterminate(workspace, Phase::CreatingEndpoint)))
        } else if before_create {
            ServerlessEndpointStep::Create { workspace, creation }
        } else {
            ServerlessEndpointStep::Done(StepOutcome::Persist(indeterminate(workspace, Phase::CreatingEndpoint)))
        },
    }
}

/// Decides the move after a search for endpoints.
pub fn serverless_endpoint_after_discovery(workspace: Workspace, creation: CreateServerlessEndpointInput, before_create: bool, discovered: Result<Vec<ServerlessEndpointObservation>, E>) -> (r: ServerlessEndpointStep)
    ensures
        r == spec_serverless_endpoint_after_discovery(workspace, creation, before_create, found(discovered)),
{
    match discovered {
        Err(e) => ServerlessEndpointStep::Done(StepOutcome::Fail(e)),
        Ok(found) => if found.len() == 1 {
            let mut found = found;
            let observation = found.remove(0);
            ServerlessEndpointStep::Done(StepOutcome::Persist(track_endpoint(workspace, observation)))
        } else if found.len() > 1 {
            ServerlessEndpointStep::Done(StepOutcome::Persist(fail_indeterminate(workspace, Phase::CreatingEndpoint)))
        } else if before_create {
            ServerlessEndpointStep::Create { workspace, creation }
        } else {
            ServerlessEndpointStep::Done(StepOutcome::Persist(fail_indeterminate(workspace, Phase::CreatingEndpoint)))
        },
    }
}

/// The move after the endpoint was created: the workspace tracks it and is written, failed
/// where it is terminal; an unknown outcome is followed by a search; any other failure fails
/// the sync.
pub open spec fn spec_serverless_endpoint_after_create(workspace: Workspace, creation: CreateServerlessEndpointInput, created: Result<ServerlessEndpointObservation, E>) -> ServerlessEndpointStep {
    match created {
        Ok(observation) => ServerlessEndpointStep::Done(StepOutcome::Persist(with_observed_endpoint(workspace, observation))),
        Err(E::ProviderOperationIndeterminate) => ServerlessEndpointStep::Discover {
            workspace,
            discovery: endpoint_discovery(creation),
            creation,
            before_create: false,
        },
        Err(e) => ServerlessEndpointStep::Done(StepOutcome::Fail(e)),
    }
}

/// Decides the move after the endpoint was created.
pub fn serverless_endpoint_after_create(workspace: Workspace, creation: CreateServerlessEndpointInput, created: Result<ServerlessEndpointObservation, E>) -> (r: ServerlessEndpointStep)
    ensures
        r == spec_serverless_endpoint_after_create(workspace, creation, created),
{
    match created {
        Ok(observation) => ServerlessEndpointStep::Done(StepOutcome::Persist(track_endpoint(workspace, observation))),
        Err(E::ProviderOperationIndeterminate) => {
            let discovery = make_endpoint_discovery(&creation);
            ServerlessEndpointStep::Discover { workspace, discovery, creation, before_create: false }
        },
        Err(e) => ServerlessEndpointStep::Done(StepOutcome::Fail(e)),
    }
}

/// The move after the tracked endpoint was read: the workspace tracks what was read and is
/// written, failed where it is terminal; an endpoint that no longer exists fails the workspace
/// as missing; any other failure fails the sync.
pub open spec fn spec_serverless_endpoint_after_observe(workspace: Workspace, observed: Result<ServerlessEndpointObservation, E>) -> ServerlessEndpointStep {
    match observed {
        Ok(observation) => ServerlessEndpointStep::Done(StepOutcome::Persist(with_observed_endpoint(workspace, observation))),
        Err(E::ProviderResourceNotFound) => ServerlessEndpointStep::Done(StepOutcome::Persist(missing(workspace, Phase::CreatingEndpoint))),
        Err(e) => ServerlessEndpointStep::Done(StepOutcome::Fail(e)),
    }
}

/// Decides the move after the tracked endpoint was read.
pub fn serverless_endpoint_after_observe(workspace: Workspace, observed: Result<ServerlessEndpointObservation, E>) -> (r: ServerlessEndpointStep)
    ensures
        r == spec_serverless_endpoint_after_observe(workspace, observed),
{
    match observed {
        Ok(observation) => ServerlessEndpointStep::Done(StepOutcome::Persist(track_endpoint(workspace, observation))),
        Err(E::ProviderResourceNotFound) => ServerlessEndpointStep::Done(StepOutcome::Persist(fail_missing(workspace, Phase::CreatingEndpoint))),
        Err(e) => ServerlessEndpointStep::Done(StepOutcome::Fail(e)),
    }
}

/// An endpoint is created only after a search that found none, and never after a creation
/// whose outcome was unknown; a search that found exactly one adopts it, and one that found
/// several fails the workspace closed in the endpoint phase.
pub proof fn endpoint_is_never_duplicated(workspace: Workspace, creation: CreateServerlessEndpointInput, before_create: bool, discovered: Result<Seq<ServerlessEndpointObservation>, E>)
    ensures
        spec_serverless_endpoint_after_discovery(workspace, creation, before_create, discovered) is Create
            ==> (before_create && (discovered matches Ok(found) && found.len() == 0)),
        match discovered {
            Ok(found) => {
                &&& found.len() == 1 ==> spec_serverless_endpoint_after_discovery(workspace, creation, before_create, discovered)
                    == ServerlessEndpointStep::Done(StepOutcome::Persist(with_observed_endpoint(workspace, found[0])))
                &&& found.len() > 1 ==> spec_serverless_endpoint_after_discovery(workspace, creation, before_create, discovered)
                    == ServerlessEndpointStep::Done(StepOutcome::Persist(indeterminate(workspace, Phase::CreatingEndpoint)))
            },
            Err(_) => true,
        },
{
}

/// The endpoint step marks a workspace ready only when it is ready, counting its template,
/// and clears its last failure when it does.
pub proof fn endpoint_step_marks_only_ready_workspaces(workspace: Workspace)
    ensures
        spec_begin_serverless_endpoint_step(workspace) matches ServerlessEndpointStep::Done(StepOutcome::Persist(w))
            ==> (w.lifecycle_state == WorkspaceLifecycleState::Ready
                ==> spec_is_workspace_ready_with_template(workspace) && w.last_provisioning_failure is None),
{
}

} // verus!
