//! The rows in which the catalog stores a workspace's details: its placement, its resource
//! snapshots, its endpoint template and its last provisioning failure. Each detail is laid out
//! as a row to write, and read back from a row; reading what was written gives the detail back.
use vstd::prelude::*;
use vstd::string::StringExecFns;
use crate::domain::{
    PersistentStorageVolumeSnapshot, PlacementPlan, ProviderProvisioningSnapshot, WorkflowPreset, ProvisioningPodSnapshot,
    ResolvedProvisionerImageSnapshot, ResolvedRuntimeImageSnapshot, RunPodEndpointTemplateSnapshot,
    ServerlessEndpointProviderMetadata, ServerlessEndpointSnapshot, Workspace, WorkspaceProvisioningFailure,
};
use crate::setup_error::WorkspaceSetupError;
use crate::text::str_equals;
use crate::workspace_provisioning::snapshots::spec_runpod_template_snapshot;
use crate::values::{
    gpu_cloud_provider_id_from_text, gpu_cloud_provider_id_round_trip, gpu_cloud_provider_id_text,
    gpu_cloud_provider_id_value, lifecycle_state_from_text, lifecycle_state_round_trip,
    lifecycle_state_text, parse_gpu_cloud_provider_id,
    parse_lifecycle_state, parse_provider_resource_status,
    parse_provisioning_failure_code, parse_provisioning_failure_source, parse_provisioning_phase,
    parse_provisioning_recovery_action, parsed, provider_resource_status_from_text,
    provider_resource_status_round_trip, provider_resource_status_text,
    provider_resource_status_value, provisioning_failure_code_from_text,
    provisioning_failure_code_round_trip, provisioning_failure_code_text,
    provisioning_failure_code_value, provisioning_failure_source_from_text,
    provisioning_failure_source_round_trip, provisioning_failure_source_text,
    provisioning_failure_source_value, provisioning_phase_from_text, provisioning_phase_round_trip,
    provisioning_phase_text, provisioning_phase_value, provisioning_recovery_action_from_text,
    provisioning_recovery_action_round_trip, provisioning_recovery_action_text,
    provisioning_recovery_action_value,
};

verus! {

/// The columns of a stored provisioning failure.
#[derive(Clone, Debug, PartialEq, Eq)]
pub struct ProvisioningFailureRow {
    pub code: String,
    pub phase: String,
    pub source: String,
    pub recovery_action: String,
}

/// The row is the one a failure is written as.
pub open spec fn is_failure_row(row: ProvisioningFailureRow, failure: WorkspaceProvisioningFailure) -> bool {
    &&& row.code@ == provisioning_failure_code_text(failure.code)
    &&& row.phase@ == provisioning_phase_text(failure.phase)
    &&& row.source@ == provisioning_failure_source_text(failure.source)
    &&& row.recovery_action@ == provisioning_recovery_action_text(failure.recovery_action)
}

/// Lays out a provisioning failure as a row.
pub fn provisioning_failure_row(failure: &WorkspaceProvisioningFailure) -> (r: ProvisioningFailureRow)
    ensures
        is_failure_row(r, *failure),
{
    ProvisioningFailureRow {
        code: String::from_str(provisioning_failure_code_value(&failure.code)),
        phase: String::from_str(provisioning_phase_value(&failure.phase)),
        source: String::from_str(provisioning_failure_source_value(&failure.source)),
        recovery_action: String::from_str(provisioning_recovery_action_value(&failure.recovery_action)),
    }
}

/// The failure stored in a row: its code, phase, source and recovery action are read in that
/// order, and the first that names no value is a schema mismatch.
pub open spec fn spec_provisioning_failure_from_row(row: ProvisioningFailureRow) -> Result<WorkspaceProvisioningFailure, WorkspaceSetupError> {
    match (
        provisioning_failure_code_from_text(row.code@),
        provisioning_phase_from_text(row.phase@),
        provisioning_failure_source_from_text(row.source@),
        provisioning_recovery_action_from_text(row.recovery_action@),
    ) {
        (Some(code), Some(phase), Some(source), Some(recovery_action)) => Ok(
            WorkspaceProvisioningFailure { code, phase, source, recovery_action },
        ),
        _ => Err(WorkspaceSetupError::WorkspaceCatalogSchemaMismatch),
    }
}

/// Reads a provisioning failure back from its row.
pub fn provisioning_failure_from_row(row: &ProvisioningFailureRow) -> (r: Result<WorkspaceProvisioningFailure, WorkspaceSetupError>)
    ensures
        r == spec_provisioning_failure_from_row(*row),
{
    let code = match parse_provisioning_failure_code(row.code.as_str()) {
        Ok(v) => v,
        Err(e) => return Err(e),
    };
    let phase = match parse_provisioning_phase(row.phase.as_str()) {
        Ok(v) => v,
        Err(e) => return Err(e),
    };
    let source = match parse_provisioning_failure_source(row.source.as_str()) {
        Ok(v) => v,
        Err(e) => return Err(e),
    };
    let recovery_action = match parse_provisioning_recovery_action(row.recovery_action.as_str()) {
        Ok(v) => v,
        Err(e) => return Err(e),
    };
    Ok(WorkspaceProvisioningFailure { code, phase, source, recovery_action })
}

/// A provisioning failure read back from the row it was written as is the failure itself.
pub proof fn provisioning_failure_round_trip(row: ProvisioningFailureRow, failure: WorkspaceProvisioningFailure)
    requires
        is_failure_row(row, failure),
    ensures
        spec_provisioning_failure_from_row(row) == Ok::<WorkspaceProvisioningFailure, WorkspaceSetupError>(failure),
{
    provisioning_failure_code_round_trip(failure.code, row.code@);
    provisioning_phase_round_trip(failure.phase, row.phase@);
    provisioning_failure_source_round_trip(failure.source, row.source@);
    provisioning_recovery_action_round_trip(failure.recovery_action, row.recovery_action@);
}

/// The columns of a stored resource snapshot; each kind of snapshot fills the optional
/// column that belongs to it.
#[derive(Clone, Debug, PartialEq, Eq)]
pub struct ResourceSnapshotRow {
    pub gpu_cloud_provider_id: String,
    pub provider_resource_id: String,
    pub provider_resource_status: String,
    pub mount_path: Option<String>,
    pub provisioner_status_url: Option<String>,
    pub endpoint_invoke_url: Option<String>,
}

/// A resource snapshot of a workspace, whatever its kind.
#[derive(Clone, Debug, PartialEq, Eq)]
pub enum StoredSnapshot {
    Volume(PersistentStorageVolumeSnapshot),
    Pod(ProvisioningPodSnapshot),
    Endpoint(ServerlessEndpointSnapshot),
}

/// The row is the one a snapshot is written as.
pub open spec fn is_snapshot_row(row: ResourceSnapshotRow, snapshot: StoredSnapshot) -> bool {
    match snapshot {
        StoredSnapshot::Volume(s) => {
            &&& row.gpu_cloud_provider_id@ == gpu_cloud_provider_id_text(s.gpu_cloud_provider_id)
            &&& row.provider_resource_id == s.provider_resource_id
            &&& row.provider_resource_status@ == provider_resource_status_text(s.provider_resource_status)
            &&& row.mount_path == Some(s.mount_path)
            &&& row.provisioner_status_url is None
            &&& row.endpoint_invoke_url is None
        },
        StoredSnapshot::Pod(s) => {
            &&& row.gpu_cloud_provider_id@ == gpu_cloud_provider_id_text(s.gpu_cloud_provider_id)
            &&& row.provider_resource_id == s.provider_resource_id
            &&& row.provider_resource_status@ == provider_resource_status_text(s.provider_resource_status)
            &&& row.mount_path is None
            &&& row.provisioner_status_url == Some(s.provisioner_status_url)
            &&& row.endpoint_invoke_url is None
        },
        StoredSnapshot::Endpoint(s) => {
            &&& row.gpu_cloud_provider_id@ == gpu_cloud_provider_id_text(s.gpu_cloud_provider_id)
            &&& row.provider_resource_id == s.provider_resource_id
            &&& row.provider_resource_status@ == provider_resource_status_text(s.provider_resource_status)
            &&& row.mount_path is None
            &&& row.provisioner_status_url is None
            &&& row.endpoint_invoke_url == Some(s.endpoint_invoke_url)
        },
    }
}

/// Lays out a resource snapshot as a row.
pub fn resource_snapshot_row(snapshot: &StoredSnapshot) -> (r: ResourceSnapshotRow)
    ensures
        is_snapshot_row(r, *snapshot),
{
    match snapshot {
        StoredSnapshot::Volume(s) => ResourceSnapshotRow {
            gpu_cloud_provider_id: String::from_str(gpu_cloud_provider_id_value(&s.gpu_cloud_provider_id)),
            provider_resource_id: s.provider_resource_id.clone(),
            provider_resource_status: String::from_str(provider_resource_status_value(&s.provider_resource_status)),
            mount_path: Some(s.mount_path.clone()),
            provisioner_status_url: None,
            endpoint_invoke_url: None,
        },
        StoredSnapshot::Pod(s) => ResourceSnapshotRow {
            gpu_cloud_provider_id: String::from_str(gpu_cloud_provider_id_value(&s.gpu_cloud_provider_id)),
            provider_resource_id: s.provider_resource_id.clone(),
            provider_resource_status: String::from_str(provider_resource_status_value(&s.provider_resource_status)),
            mount_path: None,
            provisioner_status_url: Some(s.provisioner_status_url.clone()),
            endpoint_invoke_url: None,
        },
        StoredSnapshot::Endpoint(s) => ResourceSnapshotRow {
            gpu_cloud_provider_id: String::from_str(gpu_cloud_provider_id_value(&s.gpu_cloud_provider_id)),
            provider_resource_id: s.provider_resource_id.clone(),
            provider_resource_status: String::from_str(provider_resource_status_value(&s.provider_resource_status)),
            mount_path: None,
            provisioner_status_url: None,
            endpoint_invoke_url: Some(s.endpoint_invoke_url.clone()),
        },
    }
}

/// A stored snapshot with the role under which it is stored.
#[derive(Clone, Debug, PartialEq, Eq)]
pub struct RoleSnapshot {
    pub role: &'static str,
    pub snapshot: StoredSnapshot,
}

/// The snapshots a workspace stores, with their roles, in the order in which they are written:
/// its volume, its active provisioning pod, its last provisioning pod, its endpoint, each where
/// it has one.
pub open spec fn stored_snapshots(workspace: Workspace) -> Seq<(Seq<char>, StoredSnapshot)> {
    let volume = match workspace.persistent_storage_volume_snapshot {
        Some(s) => seq![("persistent_storage_volume"@, StoredSnapshot::Volume(s))],
        None => Seq::empty(),
    };
    let active = match workspace.active_provisioning_pod_snapshot {
        Some(s) => seq![("active_provisioning_pod"@, StoredSnapshot::Pod(s))],
        None => Seq::empty(),
    };
    let last = match workspace.last_provisioning_pod_snapshot {
        Some(s) => seq![("last_provisioning_pod"@, StoredSnapshot::Pod(s))],
        None => Seq::empty(),
    };
    let endpoint = match workspace.serverless_endpoint_snapshot {
        Some(s) => seq![("serverless_endpoint"@, StoredSnapshot::Endpoint(s))],
        None => Seq::empty(),
    };
    volume + active + last + endpoint
}

fn copy_volume(s: &PersistentStorageVolumeSnapshot) -> (r: PersistentStorageVolumeSnapshot)
    ensures
        r == *s,
{
    PersistentStorageVolumeSnapshot {
        gpu_cloud_provider_id: s.gpu_cloud_provider_id,
        provider_resource_id: s.provider_resource_id.clone(),
        provider_resource_status: s.provider_resource_status,
        mount_path: s.mount_path.clone(),
    }
}

fn copy_pod(s: &ProvisioningPodSnapshot) -> (r: ProvisioningPodSnapshot)
    ensures
        r == *s,
{
    ProvisioningPodSnapshot {
        gpu_cloud_provider_id: s.gpu_cloud_provider_id,
        provider_resource_id: s.provider_resource_id.clone(),
        provider_resource_status: s.provider_resource_status,
        provisioner_status_url: s.provisioner_status_url.clone(),
    }
}

fn copy_endpoint(s: &ServerlessEndpointSnapshot) -> (r: ServerlessEndpointSnapshot)
    ensures
        r == *s,
{
    ServerlessEndpointSnapshot {
        gpu_cloud_provider_id: s.gpu_cloud_provider_id,
        provider_resource_id: s.provider_resource_id.clone(),
        provider_resource_status: s.provider_resource_status,
        endpoint_invoke_url: s.endpoint_invoke_url.clone(),
        provider_metadata: match &s.provider_metadata {
            Some(ServerlessEndpointProviderMetadata::Runpod { template_id }) => Some(
                ServerlessEndpointProviderMetadata::Runpod { template_id: template_id.clone() },
            ),
            None => None,
        },
    }
}

fn push_snapshot(snapshots: &mut Vec<RoleSnapshot>, role: &'static str, snapshot: StoredSnapshot, Ghost(expected): Ghost<Seq<(Seq<char>, StoredSnapshot)>>)
    requires
        old(snapshots)@.len() == expected.len(),
        forall|i: int| 0 <= i < expected.len() ==> (#[trigger] old(snapshots)@[i]).role@ == expected[i].0
            && old(snapshots)@[i].snapshot == expected[i].1,
    ensures
        final(snapshots)@.len() == expected.len() + 1,
        forall|i: int| 0 <= i < expected.len() + 1 ==> (#[trigger] final(snapshots)@[i]).role@
            == expected.push((role@, snapshot))[i].0 && final(snapshots)@[i].snapshot == expected.push((role@, snapshot))[i].1,
{
    snapshots.push(RoleSnapshot { role, snapshot });
}

/// The resource snapshots that a workspace stores, with their roles, in writing order.
pub fn stored_resource_snapshots(workspace: &Workspace) -> (r: Vec<RoleSnapshot>)
    ensures
        r@.len() == stored_snapshots(*workspace).len(),
        forall|i: int| 0 <= i < r@.len() ==> (#[trigger] r@[i]).role@ == stored_snapshots(*workspace)[i].0
            && r@[i].snapshot == stored_snapshots(*workspace)[i].1,
{
    let mut snapshots: Vec<RoleSnapshot> = Vec::new();
    let ghost mut expected: Seq<(Seq<char>, StoredSnapshot)> = Seq::empty();
    match &workspace.persistent_storage_volume_snapshot {
        Some(s) => {
            push_snapshot(&mut snapshots, "persistent_storage_volume", StoredSnapshot::Volume(copy_volume(s)), Ghost(expected));
            proof { expected = expected.push(("persistent_storage_volume"@, StoredSnapshot::Volume(*s))); }
        },
        None => {},
    }
    let ghost after_volume = expected;
    match &workspace.active_provisioning_pod_snapshot {
        Some(s) => {
            push_snapshot(&mut snapshots, "active_provisioning_pod", StoredSnapshot::Pod(copy_pod(s)), Ghost(expected));
            proof { expected = expected.push(("active_provisioning_pod"@, StoredSnapshot::Pod(*s))); }
        },
        None => {},
    }
    let ghost after_active = expected;
    match &workspace.last_provisioning_pod_snapshot {
        Some(s) => {
            push_snapshot(&mut snapshots, "last_provisioning_pod", StoredSnapshot::Pod(copy_pod(s)), Ghost(expected));
            proof { expected = expected.push(("last_provisioning_pod"@, StoredSnapshot::Pod(*s))); }
        },
        None => {},
    }
    let ghost after_last = expected;
    match &workspace.serverless_endpoint_snapshot {
        Some(s) => {
            push_snapshot(&mut snapshots, "serverless_endpoint", StoredSnapshot::Endpoint(copy_endpoint(s)), Ghost(expected));
            proof { expected = expected.push(("serverless_endpoint"@, StoredSnapshot::Endpoint(*s))); }
        },
        None => {},
    }
    proof {
        let w = *workspace;
        let volume = match w.persistent_storage_volume_snapshot {
            Some(s) => seq![("persistent_storage_volume"@, StoredSnapshot::Volume(s))],
            None => Seq::<(Seq<char>, StoredSnapshot)>::empty(),
        };
        let active = match w.active_provisioning_pod_snapshot {
            Some(s) => seq![("active_provisioning_pod"@, StoredSnapshot::Pod(s))],
            None => Seq::<(Seq<char>, StoredSnapshot)>::empty(),
        };
        let last = match w.last_provisioning_pod_snapshot {
            Some(s) => seq![("last_provisioning_pod"@, StoredSnapshot::Pod(s))],
            None => Seq::<(Seq<char>, StoredSnapshot)>::empty(),
        };
        let endpoint = match w.serverless_endpoint_snapshot {
            Some(s) => seq![("serverless_endpoint"@, StoredSnapshot::Endpoint(s))],
            None => Seq::<(Seq<char>, StoredSnapshot)>::empty(),
        };
        assert(after_volume =~= volume);
        assert(after_active =~= volume + active);
        assert(after_last =~= volume + active + last);
        assert(expected =~= volume + active + last + endpoint);
    }
    snapshots
}

/// The snapshot of the given kind stored in a row: the provider id and the resource status
/// must name values, and the column of the kind must be filled; otherwise the schema does not
/// match.
pub open spec fn spec_snapshot_parts(row: ResourceSnapshotRow) -> Option<(crate::domain::GpuCloudProviderId, crate::domain::ProviderResourceStatus)> {
    match (gpu_cloud_provider_id_from_text(row.gpu_cloud_provider_id@), provider_resource_status_from_text(row.provider_resource_status@)) {
        (Some(p), Some(s)) => Some((p, s)),
        _ => None,
    }
}

/// The volume snapshot stored in a row.
pub open spec fn spec_volume_snapshot_from_row(row: ResourceSnapshotRow) -> Result<PersistentStorageVolumeSnapshot, WorkspaceSetupError> {
    match (spec_snapshot_parts(row), row.mount_path) {
        (Some((p, s)), Some(m)) => Ok(PersistentStorageVolumeSnapshot {
            gpu_cloud_provider_id: p,
            provider_resource_id: row.provider_resource_id,
            provider_resource_status: s,
            mount_path: m,
        }),
        _ => Err(WorkspaceSetupError::WorkspaceCatalogSchemaMismatch),
    }
}

/// The provisioning pod snapshot stored in a row.
pub open spec fn spec_pod_snapshot_from_row(row: ResourceSnapshotRow) -> Result<ProvisioningPodSnapshot, WorkspaceSetupError> {
    match (spec_snapshot_parts(row), row.provisioner_status_url) {
        (Some((p, s)), Some(url)) => Ok(ProvisioningPodSnapshot {
            gpu_cloud_provider_id: p,
            provider_resource_id: row.provider_resource_id,
            provider_resource_status: s,
            provisioner_status_url: url,
        }),
        _ => Err(WorkspaceSetupError::WorkspaceCatalogSchemaMismatch),
    }
}

/// The endpoint snapshot stored in a row, with its provider metadata as decoded from the row's
/// metadata JSON (`None` where the row holds none, `Err` where it cannot be decoded, which
/// makes the catalog corrupt).
pub open spec fn spec_endpoint_snapshot_from_row(row: ResourceSnapshotRow, provider_metadata: Result<Option<ServerlessEndpointProviderMetadata>, ()>) -> Result<ServerlessEndpointSnapshot, WorkspaceSetupError> {
    match (spec_snapshot_parts(row), row.endpoint_invoke_url) {
        (Some((p, s)), Some(url)) => match provider_metadata {
            Ok(metadata) => Ok(ServerlessEndpointSnapshot {
                gpu_cloud_provider_id: p,
                provider_resource_id: row.provider_resource_id,
                provider_resource_status: s,
                endpoint_invoke_url: url,
                provider_metadata: metadata,
            }),
            Err(_) => Err(WorkspaceSetupError::WorkspaceCatalogCorrupt),
        },
        _ => Err(WorkspaceSetupError::WorkspaceCatalogSchemaMismatch),
    }
}

fn snapshot_parts(row: &ResourceSnapshotRow) -> (r: Result<(crate::domain::GpuCloudProviderId, crate::domain::ProviderResourceStatus), WorkspaceSetupError>)
    ensures
        match spec_snapshot_parts(*row) {
            Some(parts) => r == Ok::<_, WorkspaceSetupError>(parts),
            None => r == Err::<(crate::domain::GpuCloudProviderId, crate::domain::ProviderResourceStatus), _>(WorkspaceSetupError::WorkspaceCatalogSchemaMismatch),
        },
{
    let provider = match parse_gpu_cloud_provider_id(row.gpu_cloud_provider_id.as_str()) {
        Ok(p) => p,
        Err(e) => return Err(e),
    };
    let status = match parse_provider_resource_status(row.provider_resource_status.as_str()) {
        Ok(s) => s,
        Err(e) => return Err(e),
    };
    Ok((provider, status))
}

/// Reads a volume snapshot back from its row.
pub fn volume_snapshot_from_row(row: &ResourceSnapshotRow) -> (r: Result<PersistentStorageVolumeSnapshot, WorkspaceSetupError>)
    ensures
        r == spec_volume_snapshot_from_row(*row),
{
    let (provider, status) = match snapshot_parts(row) {
        Ok(parts) => parts,
        Err(e) => return Err(e),
    };
    match &row.mount_path {
        Some(mount_path) => Ok(PersistentStorageVolumeSnapshot {
            gpu_cloud_provider_id: provider,
            provider_resource_id: row.provider_resource_id.clone(),
            provider_resource_status: status,
            mount_path: mount_path.clone(),
        }),
        None => Err(WorkspaceSetupError::WorkspaceCatalogSchemaMismatch),
    }
}

/// Reads a provisioning pod snapshot back from its row.
pub fn pod_snapshot_from_row(row: &ResourceSnapshotRow) -> (r: Result<ProvisioningPodSnapshot, WorkspaceSetupError>)
    ensures
        r == spec_pod_snapshot_from_row(*row),
{
    let (provider, status) = match snapshot_parts(row) {
        Ok(parts) => parts,
        Err(e) => return Err(e),
    };
    match &row.provisioner_status_url {
        Some(url) => Ok(ProvisioningPodSnapshot {
            gpu_cloud_provider_id: provider,
            provider_resource_id: row.provider_resource_id.clone(),
            provider_resource_status: status,
            provisioner_status_url: url.clone(),
        }),
        None => Err(WorkspaceSetupError::WorkspaceCatalogSchemaMismatch),
    }
}

/// Reads an endpoint snapshot back from its row and its decoded provider metadata.
pub fn endpoint_snapshot_from_row(row: &ResourceSnapshotRow, provider_metadata: Result<Option<ServerlessEndpointProviderMetadata>, ()>) -> (r: Result<ServerlessEndpointSnapshot, WorkspaceSetupError>)
    ensures
        r == spec_endpoint_snapshot_from_row(*row, provider_metadata),
{
    let (provider, status) = match snapshot_parts(row) {
        Ok(parts) => parts,
        Err(e) => return Err(e),
    };
    let url = match &row.endpoint_invoke_url {
        Some(url) => url.clone(),
        None => return Err(WorkspaceSetupError::WorkspaceCatalogSchemaMismatch),
    };
    match provider_metadata {
        Ok(metadata) => Ok(ServerlessEndpointSnapshot {
            gpu_cloud_provider_id: provider,
            provider_resource_id: row.provider_resource_id.clone(),
            provider_resource_status: status,
            endpoint_invoke_url: url,
            provider_metadata: metadata,
        }),
        Err(_) => Err(WorkspaceSetupError::WorkspaceCatalogCorrupt),
    }
}

/// A resource snapshot read back from the row it was written as is the snapshot itself; an
/// endpoint gets back the provider metadata that its row's metadata JSON held.
pub proof fn resource_snapshot_round_trip(row: ResourceSnapshotRow, snapshot: StoredSnapshot)
    requires
        is_snapshot_row(row, snapshot),
    ensures
        snapshot matches StoredSnapshot::Volume(s) ==> spec_volume_snapshot_from_row(row) == Ok::<_, WorkspaceSetupError>(s),
        snapshot matches StoredSnapshot::Pod(s) ==> spec_pod_snapshot_from_row(row) == Ok::<_, WorkspaceSetupError>(s),
        snapshot matches StoredSnapshot::Endpoint(s) ==> spec_endpoint_snapshot_from_row(row, Ok(s.provider_metadata))
            == Ok::<_, WorkspaceSetupError>(s),
{
    match snapshot {
        StoredSnapshot::Volume(s) => {
            gpu_cloud_provider_id_round_trip(s.gpu_cloud_provider_id, row.gpu_cloud_provider_id@);
            provider_resource_status_round_trip(s.provider_resource_status, row.provider_resource_status@);
        },
        StoredSnapshot::Pod(s) => {
            gpu_cloud_provider_id_round_trip(s.gpu_cloud_provider_id, row.gpu_cloud_provider_id@);
            provider_resource_status_round_trip(s.provider_resource_status, row.provider_resource_status@);
        },
        StoredSnapshot::Endpoint(s) => {
            gpu_cloud_provider_id_round_trip(s.gpu_cloud_provider_id, row.gpu_cloud_provider_id@);
            provider_resource_status_round_trip(s.provider_resource_status, row.provider_resource_status@);
        },
    }
}

/// The columns of a stored RunPod endpoint template.
#[derive(Clone, Debug, PartialEq, Eq)]
pub struct EndpointTemplateRow {
    pub template_id: String,
    pub provider_resource_status: String,
    pub endpoint_worker_image_ref: String,
    pub mount_path: String,
}

/// The row is the one a template is written as.
pub open spec fn is_template_row(row: EndpointTemplateRow, template: RunPodEndpointTemplateSnapshot) -> bool {
    &&& row.template_id == template.template_id
    &&& row.provider_resource_status@ == provider_resource_status_text(template.provider_resource_status)
    &&& row.endpoint_worker_image_ref == template.endpoint_worker_image_ref
    &&& row.mount_path == template.mount_path
}

/// Lays out the endpoint template that a workspace tracks, where it tracks one.
pub fn endpoint_template_row(workspace: &Workspace) -> (r: Option<EndpointTemplateRow>)
    ensures
        match spec_runpod_template_snapshot(*workspace) {
            Some(t) => r matches Some(row) && is_template_row(row, t),
            None => r is None,
        },
{
    match &workspace.provider_provisioning_snapshot {
        Some(ProviderProvisioningSnapshot::Runpod { endpoint_template_snapshot: Some(t) }) => Some(EndpointTemplateRow {
            template_id: t.template_id.clone(),
            provider_resource_status: String::from_str(provider_resource_status_value(&t.provider_resource_status)),
            endpoint_worker_image_ref: t.endpoint_worker_image_ref.clone(),
            mount_path: t.mount_path.clone(),
        }),
        _ => None,
    }
}

/// The endpoint template stored in a row; a status that names no value is a schema mismatch.
pub open spec fn spec_endpoint_template_from_row(row: EndpointTemplateRow) -> Result<RunPodEndpointTemplateSnapshot, WorkspaceSetupError> {
    match provider_resource_status_from_text(row.provider_resource_status@) {
        Some(status) => Ok(RunPodEndpointTemplateSnapshot {
            template_id: row.template_id,
            endpoint_worker_image_ref: row.endpoint_worker_image_ref,
            mount_path: row.mount_path,
            provider_resource_status: status,
        }),
        None => Err(WorkspaceSetupError::WorkspaceCatalogSchemaMismatch),
    }
}

/// Reads an endpoint template back from its row.
pub fn endpoint_template_from_row(row: &EndpointTemplateRow) -> (r: Result<RunPodEndpointTemplateSnapshot, WorkspaceSetupError>)
    ensures
        r == spec_endpoint_template_from_row(*row),
{
    let status = match parse_provider_resource_status(row.provider_resource_status.as_str()) {
        Ok(s) => s,
        Err(e) => return Err(e),
    };
    Ok(RunPodEndpointTemplateSnapshot {
        template_id: row.template_id.clone(),
        endpoint_worker_image_ref: row.endpoint_worker_image_ref.clone(),
        mount_path: row.mount_path.clone(),
        provider_resource_status: status,
    })
}

/// An endpoint template read back from the row it was written as is the template itself.
pub proof fn endpoint_template_round_trip(row: EndpointTemplateRow, template: RunPodEndpointTemplateSnapshot)
    requires
        is_template_row(row, template),
    ensures
        spec_endpoint_template_from_row(row) == Ok::<_, WorkspaceSetupError>(template),
{
    provider_resource_status_round_trip(template.provider_resource_status, row.provider_resource_status@);
}

/// The columns of a stored RunPod placement; the selected workflow preset itself is stored as
/// JSON beside them.
#[derive(Clone, Debug, PartialEq, Eq)]
pub struct PlacementRow {
    pub selected_datacenter_id: String,
    pub selected_gpu_id: String,
    pub persistent_storage_volume_size_bytes: i64,
    pub endpoint_keep_alive_seconds: i64,
    pub selected_workflow_preset_id: String,
}

/// The row is the one a placement is written as.
pub open spec fn is_placement_row(row: PlacementRow, plan: PlacementPlan) -> bool {
    match plan {
        PlacementPlan::Runpod {
            selected_datacenter_id,
            selected_gpu_id,
            persistent_storage_volume_size_bytes,
            endpoint_keep_alive_seconds,
            selected_workflow_preset,
        } => {
            &&& row.selected_datacenter_id == selected_datacenter_id
            &&& row.selected_gpu_id == selected_gpu_id
            &&& row.persistent_storage_volume_size_bytes == persistent_storage_volume_size_bytes
            &&& row.endpoint_keep_alive_seconds == endpoint_keep_alive_seconds
            &&& row.selected_workflow_preset_id == selected_workflow_preset.id
        },
    }
}

/// Lays out a placement as a row; a volume size too large for the column makes the catalog
/// corrupt.
pub fn placement_row(plan: &PlacementPlan) -> (r: Result<PlacementRow, WorkspaceSetupError>)
    ensures
        plan->Runpod_persistent_storage_volume_size_bytes <= i64::MAX ==> (r matches Ok(row) && is_placement_row(row, *plan)),
        plan->Runpod_persistent_storage_volume_size_bytes > i64::MAX ==> r == Err::<PlacementRow, _>(WorkspaceSetupError::WorkspaceCatalogCorrupt),
{
    match plan {
        PlacementPlan::Runpod {
            selected_datacenter_id,
            selected_gpu_id,
            persistent_storage_volume_size_bytes,
            endpoint_keep_alive_seconds,
            selected_workflow_preset,
        } => {
            if *persistent_storage_volume_size_bytes > 9223372036854775807u64 {
                return Err(WorkspaceSetupError::WorkspaceCatalogCorrupt);
            }
            Ok(PlacementRow {
                selected_datacenter_id: selected_datacenter_id.clone(),
                selected_gpu_id: selected_gpu_id.clone(),
                persistent_storage_volume_size_bytes: *persistent_storage_volume_size_bytes as i64,
                endpoint_keep_alive_seconds: *endpoint_keep_alive_seconds as i64,
                selected_workflow_preset_id: selected_workflow_preset.id.clone(),
            })
        },
    }
}

/// The placement stored in a row, given the workflow preset decoded from its JSON (`None`
/// where it cannot be decoded, which makes the catalog corrupt): the preset must be the one the
/// row names, and the sizes must fit their types; otherwise the schema does not match.
pub open spec fn spec_placement_from_row(row: PlacementRow, preset: Option<WorkflowPreset>) -> Result<PlacementPlan, WorkspaceSetupError> {
    match preset {
        None => Err(WorkspaceSetupError::WorkspaceCatalogCorrupt),
        Some(preset) => if row.selected_workflow_preset_id@ != preset.id@
            || row.persistent_storage_volume_size_bytes < 0
            || row.endpoint_keep_alive_seconds < 0
            || row.endpoint_keep_alive_seconds > u32::MAX {
            Err(WorkspaceSetupError::WorkspaceCatalogSchemaMismatch)
        } else {
            Ok(PlacementPlan::Runpod {
                selected_datacenter_id: row.selected_datacenter_id,
                selected_gpu_id: row.selected_gpu_id,
                persistent_storage_volume_size_bytes: row.persistent_storage_volume_size_bytes as u64,
                endpoint_keep_alive_seconds: row.endpoint_keep_alive_seconds as u32,
                selected_workflow_preset: preset,
            })
        },
    }
}

/// Reads a placement back from its row and its decoded workflow preset.
pub fn placement_from_row(row: &PlacementRow, preset: Option<WorkflowPreset>) -> (r: Result<PlacementPlan, WorkspaceSetupError>)
    ensures
        r == spec_placement_from_row(*row, preset),
{
    let preset = match preset {
        Some(p) => p,
        None => return Err(WorkspaceSetupError::WorkspaceCatalogCorrupt),
    };
    if !str_equals(row.selected_workflow_preset_id.as_str(), preset.id.as_str()) {
        return Err(WorkspaceSetupError::WorkspaceCatalogSchemaMismatch);
    }
    if row.persistent_storage_volume_size_bytes < 0 || row.endpoint_keep_alive_seconds < 0
        || row.endpoint_keep_alive_seconds > 4294967295i64 {
        return Err(WorkspaceSetupError::WorkspaceCatalogSchemaMismatch);
    }
    Ok(PlacementPlan::Runpod {
        selected_datacenter_id: row.selected_datacenter_id.clone(),
        selected_gpu_id: row.selected_gpu_id.clone(),
        persistent_storage_volume_size_bytes: row.persistent_storage_volume_size_bytes as u64,
        endpoint_keep_alive_seconds: row.endpoint_keep_alive_seconds as u32,
        selected_workflow_preset: preset,
    })
}

/// A placement read back from the row it was written as, with its own workflow preset decoded
/// from the JSON beside it, is the placement itself.
pub proof fn placement_round_trip(row: PlacementRow, plan: PlacementPlan)
    requires
        is_placement_row(row, plan),
    ensures
        spec_placement_from_row(row, Some(plan->Runpod_selected_workflow_preset)) == Ok::<_, WorkspaceSetupError>(plan),
{
}

// ---------------------------------------------------------------------------------------------
// A whole workspace read back from its rows.

/// The columns of a workspace's own row.
#[derive(Clone, Debug, PartialEq, Eq)]
pub struct WorkspaceBaseRow {
    pub id: String,
    pub name: String,
    pub gpu_cloud_provider_id: String,
    pub lifecycle_state: String,
    pub environment_prepared_at: Option<String>,
}

/// The rows that hold a workspace and its details, as read back for its id: the workflow preset
/// of its placement as decoded from the JSON beside it (`None` where it cannot be decoded), and
/// the provider metadata of its endpoint as decoded from the endpoint row's JSON.
#[derive(Clone, Debug)]
pub struct WorkspaceDetailRows {
    pub base: WorkspaceBaseRow,
    pub placement: PlacementRow,
    pub preset: Option<WorkflowPreset>,
    pub runtime_image: ResolvedRuntimeImageSnapshot,
    pub provisioner_image: ResolvedProvisionerImageSnapshot,
    pub volume: Option<ResourceSnapshotRow>,
    pub active_pod: Option<ResourceSnapshotRow>,
    pub endpoint: Option<(ResourceSnapshotRow, Result<Option<ServerlessEndpointProviderMetadata>, ()>)>,
    pub last_pod: Option<ResourceSnapshotRow>,
    pub failure: Option<ProvisioningFailureRow>,
    pub template: Option<EndpointTemplateRow>,
}

/// A volume snapshot row, where there is one, read back.
pub open spec fn spec_optional_volume(row: Option<ResourceSnapshotRow>) -> Result<Option<PersistentStorageVolumeSnapshot>, WorkspaceSetupError> {
    match row {
        None => Ok(None),
        Some(row) => match spec_volume_snapshot_from_row(row) {
            Ok(v) => Ok(Some(v)),
            Err(e) => Err(e),
        },
    }
}

/// A provisioning pod snapshot row, where there is one, read back.
pub open spec fn spec_optional_pod(row: Option<ResourceSnapshotRow>) -> Result<Option<ProvisioningPodSnapshot>, WorkspaceSetupError> {
    match row {
        None => Ok(None),
        Some(row) => match spec_pod_snapshot_from_row(row) {
            Ok(v) => Ok(Some(v)),
            Err(e) => Err(e),
        },
    }
}

/// An endpoint snapshot row, where there is one, read back with its decoded metadata.
pub open spec fn spec_optional_endpoint(row: Option<(ResourceSnapshotRow, Result<Option<ServerlessEndpointProviderMetadata>, ()>)>) -> Result<Option<ServerlessEndpointSnapshot>, WorkspaceSetupError> {
    match row {
        None => Ok(None),
        Some((row, metadata)) => match spec_endpoint_snapshot_from_row(row, metadata) {
            Ok(v) => Ok(Some(v)),
            Err(e) => Err(e),
        },
    }
}

/// A failure row, where there is one, read back.
pub open spec fn spec_optional_failure(row: Option<ProvisioningFailureRow>) -> Result<Option<WorkspaceProvisioningFailure>, WorkspaceSetupError> {
    match row {
        None => Ok(None),
        Some(row) => match spec_provisioning_failure_from_row(row) {
            Ok(v) => Ok(Some(v)),
            Err(e) => Err(e),
        },
    }
}

/// The provider provisioning snapshot of a template row, where there is one, read back.
pub open spec fn spec_optional_template(row: Option<EndpointTemplateRow>) -> Result<Option<ProviderProvisioningSnapshot>, WorkspaceSetupError> {
    match row {
        None => Ok(None),
        Some(row) => match spec_endpoint_template_from_row(row) {
            Ok(t) => Ok(Some(ProviderProvisioningSnapshot::Runpod { endpoint_template_snapshot: Some(t) })),
            Err(e) => Err(e),
        },
    }
}

/// The workspace that its rows hold. Each part is its row read back; the first part that
/// cannot be read decides the error, in this order: the workspace's own row (a provider id or a
/// lifecycle state that names no value is a schema mismatch), the placement (a preset that
/// cannot be decoded makes the catalog corrupt, one that the row does not name is a schema
/// mismatch), the volume, the active pod, the endpoint, the last pod, the failure and the
/// endpoint template.
pub open spec fn spec_workspace_from_detail_rows(rows: WorkspaceDetailRows) -> Result<Workspace, WorkspaceSetupError> {
    match (gpu_cloud_provider_id_from_text(rows.base.gpu_cloud_provider_id@), lifecycle_state_from_text(rows.base.lifecycle_state@)) {
        (Some(provider), Some(lifecycle)) => match spec_placement_from_row(rows.placement, rows.preset) {
            Err(e) => Err(e),
            Ok(plan) => match spec_optional_volume(rows.volume) {
                Err(e) => Err(e),
                Ok(volume) => match spec_optional_pod(rows.active_pod) {
                    Err(e) => Err(e),
                    Ok(active_pod) => match spec_optional_endpoint(rows.endpoint) {
                        Err(e) => Err(e),
                        Ok(endpoint) => match spec_optional_pod(rows.last_pod) {
                            Err(e) => Err(e),
                            Ok(last_pod) => match spec_optional_failure(rows.failure) {
                                Err(e) => Err(e),
                                Ok(failure) => match spec_optional_template(rows.template) {
                                    Err(e) => Err(e),
                                    Ok(provisioning) => Ok(Workspace {
                                        id: rows.base.id,
                                        name: rows.base.name,
                                        gpu_cloud_provider_id: provider,
                                        lifecycle_state: lifecycle,
                                        placement_plan: plan,
                                        resolved_runtime_image: rows.runtime_image,
                                        resolved_provisioner_image: rows.provisioner_image,
                                        persistent_storage_volume_snapshot: volume,
                                        active_provisioning_pod_snapshot: active_pod,
                                        serverless_endpoint_snapshot: endpoint,
                                        last_provisioning_pod_snapshot: last_pod,
                                        provider_provisioning_snapshot: provisioning,
                                        environment_prepared_at: rows.base.environment_prepared_at,
                                        last_provisioning_failure: failure,
                                    }),
                                },
                            },
                        },
                    },
                },
            },
        },
        _ => Err(WorkspaceSetupError::WorkspaceCatalogSchemaMismatch),
    }
}

fn optional_volume(row: &Option<ResourceSnapshotRow>) -> (r: Result<Option<PersistentStorageVolumeSnapshot>, WorkspaceSetupError>)
    ensures
        r == spec_optional_volume(*row),
{
    match row {
        None => Ok(None),
        Some(row) => match volume_snapshot_from_row(row) {
            Ok(v) => Ok(Some(v)),
            Err(e) => Err(e),
        },
    }
}

fn optional_pod(row: &Option<ResourceSnapshotRow>) -> (r: Result<Option<ProvisioningPodSnapshot>, WorkspaceSetupError>)
    ensures
        r == spec_optional_pod(*row),
{
    match row {
        None => Ok(None),
        Some(row) => match pod_snapshot_from_row(row) {
            Ok(v) => Ok(Some(v)),
            Err(e) => Err(e),
        },
    }
}

fn optional_endpoint(row: Option<(ResourceSnapshotRow, Result<Option<ServerlessEndpointProviderMetadata>, ()>)>) -> (r: Result<Option<ServerlessEndpointSnapshot>, WorkspaceSetupError>)
    ensures
        r == spec_optional_endpoint(row),
{
    match row {
        None => Ok(None),
        Some((row, metadata)) => match endpoint_snapshot_from_row(&row, metadata) {
            Ok(v) => Ok(Some(v)),
            Err(e) => Err(e),
        },
    }
}

fn optional_failure(row: &Option<ProvisioningFailureRow>) -> (r: Result<Option<WorkspaceProvisioningFailure>, WorkspaceSetupError>)
    ensures
        r == spec_optional_failure(*row),
{
    match row {
        None => Ok(None),
        Some(row) => match provisioning_failure_from_row(row) {
            Ok(v) => Ok(Some(v)),
            Err(e) => Err(e),
        },
    }
}

fn optional_template(row: &Option<EndpointTemplateRow>) -> (r: Result<Option<ProviderProvisioningSnapshot>, WorkspaceSetupError>)
    ensures
        r == spec_optional_template(*row),
{
    match row {
        None => Ok(None),
        Some(row) => match endpoint_template_from_row(row) {
            Ok(t) => Ok(Some(ProviderProvisioningSnapshot::Runpod { endpoint_template_snapshot: Some(t) })),
            Err(e) => Err(e),
        },
    }
}

/// Reads a workspace back from the rows that hold it and its details.
pub fn workspace_from_detail_rows(rows: WorkspaceDetailRows) -> (r: Result<Workspace, WorkspaceSetupError>)
    ensures
        r == spec_workspace_from_detail_rows(rows),
{
    let provider = match parse_gpu_cloud_provider_id(rows.base.gpu_cloud_provider_id.as_str()) {
        Ok(p) => p,
        Err(e) => return Err(e),
    };
    let lifecycle = match parse_lifecycle_state(rows.base.lifecycle_state.as_str()) {
        Ok(l) => l,
        Err(e) => return Err(e),
    };
    let plan = match placement_from_row(&rows.placement, rows.preset) {
        Ok(p) => p,
        Err(e) => return Err(e),
    };
    let volume = match optional_volume(&rows.volume) {
        Ok(v) => v,
        Err(e) => return Err(e),
    };
    let active_pod = match optional_pod(&rows.active_pod) {
        Ok(v) => v,
        Err(e) => return Err(e),
    };
    let endpoint = match optional_endpoint(rows.endpoint) {
        Ok(v) => v,
        Err(e) => return Err(e),
    };
    let last_pod = match optional_pod(&rows.last_pod) {
        Ok(v) => v,
        Err(e) => return Err(e),
    };
    let failure = match optional_failure(&rows.failure) {
        Ok(v) => v,
        Err(e) => return Err(e),
    };
    let provisioning = match optional_template(&rows.template) {
        Ok(v) => v,
        Err(e) => return Err(e),
    };
    Ok(Workspace {
        id: rows.base.id,
        name: rows.base.name,
        gpu_cloud_provider_id: provider,
        lifecycle_state: lifecycle,
        placement_plan: plan,
        resolved_runtime_image: rows.runtime_image,
        resolved_provisioner_image: rows.provisioner_image,
        persistent_storage_volume_snapshot: volume,
        active_provisioning_pod_snapshot: active_pod,
        serverless_endpoint_snapshot: endpoint,
        last_provisioning_pod_snapshot: last_pod,
        provider_provisioning_snapshot: provisioning,
        environment_prepared_at: rows.base.environment_prepared_at,
        last_provisioning_failure: failure,
    })
}

/// The rows are the ones a workspace is written as: its own row, its placement with its own
/// preset, its images, a row for each snapshot it holds and none for one it lacks, its failure
/// and the endpoint template it tracks.
pub open spec fn are_workspace_rows(rows: WorkspaceDetailRows, workspace: Workspace) -> bool {
    &&& rows.base.id == workspace.id
    &&& rows.base.name == workspace.name
    &&& rows.base.gpu_cloud_provider_id@ == gpu_cloud_provider_id_text(workspace.gpu_cloud_provider_id)
    &&& rows.base.lifecycle_state@ == lifecycle_state_text(workspace.lifecycle_state)
    &&& rows.base.environment_prepared_at == workspace.environment_prepared_at
    &&& is_placement_row(rows.placement, workspace.placement_plan)
    &&& rows.preset == Some(workspace.placement_plan->Runpod_selected_workflow_preset)
    &&& rows.runtime_image == workspace.resolved_runtime_image
    &&& rows.provisioner_image == workspace.resolved_provisioner_image
    &&& match workspace.persistent_storage_volume_snapshot {
        Some(v) => rows.volume matches Some(row) && is_snapshot_row(row, StoredSnapshot::Volume(v)),
        None => rows.volume is None,
    }
    &&& match workspace.active_provisioning_pod_snapshot {
        Some(p) => rows.active_pod matches Some(row) && is_snapshot_row(row, StoredSnapshot::Pod(p)),
        None => rows.active_pod is None,
    }
    &&& match workspace.serverless_endpoint_snapshot {
        Some(e) => rows.endpoint matches Some((row, metadata)) && is_snapshot_row(row, StoredSnapshot::Endpoint(e))
            && metadata == Ok::<Option<ServerlessEndpointProviderMetadata>, ()>(e.provider_metadata),
        None => rows.endpoint is None,
    }
    &&& match workspace.last_provisioning_pod_snapshot {
        Some(p) => rows.last_pod matches Some(row) && is_snapshot_row(row, StoredSnapshot::Pod(p)),
        None => rows.last_pod is None,
    }
    &&& match workspace.last_provisioning_failure {
        Some(f) => rows.failure matches Some(row) && is_failure_row(row, f),
        None => rows.failure is None,
    }
    &&& match spec_runpod_template_snapshot(workspace) {
        Some(t) => rows.template matches Some(row) && is_template_row(row, t),
        None => rows.template is None,
    }
}

/// A workspace read back from the rows it is written as is the workspace itself, where it
/// either tracks an endpoint template or holds no provider provisioning snapshot at all (a
/// snapshot without a template is written as no row, and read back as none).
pub proof fn workspace_round_trip(rows: WorkspaceDetailRows, workspace: Workspace)
    requires
        are_workspace_rows(rows, workspace),
        workspace.provider_provisioning_snapshot is Some ==> spec_runpod_template_snapshot(workspace) is Some,
    ensures
        spec_workspace_from_detail_rows(rows) == Ok::<Workspace, WorkspaceSetupError>(workspace),
{
    gpu_cloud_provider_id_round_trip(workspace.gpu_cloud_provider_id, rows.base.gpu_cloud_provider_id@);
    lifecycle_state_round_trip(workspace.lifecycle_state, rows.base.lifecycle_state@);
    placement_round_trip(rows.placement, workspace.placement_plan);
    if let Some(v) = workspace.persistent_storage_volume_snapshot {
        resource_snapshot_round_trip(rows.volume->Some_0, StoredSnapshot::Volume(v));
    }
    if let Some(p) = workspace.active_provisioning_pod_snapshot {
        resource_snapshot_round_trip(rows.active_pod->Some_0, StoredSnapshot::Pod(p));
    }
    if let Some(e) = workspace.serverless_endpoint_snapshot {
        resource_snapshot_round_trip(rows.endpoint->Some_0.0, StoredSnapshot::Endpoint(e));
    }
    if let Some(p) = workspace.last_provisioning_pod_snapshot {
        resource_snapshot_round_trip(rows.last_pod->Some_0, StoredSnapshot::Pod(p));
    }
    if let Some(f) = workspace.last_provisioning_failure {
        provisioning_failure_round_trip(rows.failure->Some_0, f);
    }
    if let Some(t) = spec_runpod_template_snapshot(workspace) {
        endpoint_template_round_trip(rows.template->Some_0, t);
    }
}

} // verus!
