//! The workspace model that provisioning reads and writes.
use vstd::prelude::*;

verus! {

/// GPU cloud providers a workspace can be placed on.
#[derive(Clone, Copy, Debug, PartialEq, Eq, Structural)]
pub enum GpuCloudProviderId {
    Runpod,
}

/// Where a workspace stands in its lifetime.
#[derive(Clone, Copy, Debug, PartialEq, Eq, Structural)]
pub enum WorkspaceLifecycleState {
    Draft,
    Provisioning,
    Ready,
    Failed,
}

/// The status a provider reports for one of its resources.
#[derive(Clone, Copy, Debug, PartialEq, Eq, Structural)]
pub enum ProviderResourceStatus {
    Creating,
    Running,
    Ready,
    Terminated,
    Failed,
    Unknown,
}

/// Why provisioning of a workspace failed.
#[derive(Clone, Copy, Debug, PartialEq, Eq, Structural)]
pub enum WorkspaceProvisioningFailureCode {
    ProviderSetupIncomplete,
    ProviderApiKeyUnauthorized,
    ProviderApiUnavailable,
    ProviderRateLimited,
    ProviderRequestRejected,
    ProviderResponseInvalid,
    ProviderOperationConflict,
    SecureKeyringUnavailable,
    ProviderResourceFailed,
    ProviderResourceTerminated,
    ProviderResourceUnknown,
    ProviderResourceMissing,
    ProviderOrphanedResources,
    ProviderOperationIndeterminate,
    ProvisionerWorkerTokenMissing,
    ProvisionerWorkerTokenInvalid,
    ProvisionerWorkerUnauthorized,
    ProvisionerWorkerUnavailable,
    ProvisionerWorkerConflict,
    ProvisionerWorkerResponseInvalid,
    ProvisionerWorkerFailed,
    ProvisionerWorkerGitCheckoutFailed,
    ProvisionerWorkerDependencyInstallFailed,
    ProvisionerWorkerAssetDownloadFailed,
    ProvisionerWorkerAssetAuthRequired,
    ProvisionerWorkerPathValidationFailed,
    ProvisionerWorkerStepTimeout,
    ProvisionerWorkerUnexpectedError,
    ReadinessValidationFailed,
    CancellationCleanupFailed,
    LegacyFailure,
}

/// Which party a provisioning failure is attributed to.
#[derive(Clone, Copy, Debug, PartialEq, Eq, Structural)]
pub enum WorkspaceProvisioningFailureSource {
    Native,
    Provider,
    ProviderResource,
    ProvisionerWorker,
}

/// The steps of provisioning, in the order in which they run.
#[derive(Clone, Copy, Debug, PartialEq, Eq, Structural)]
pub enum WorkspaceProvisioningPhase {
    NotStarted,
    CreatingVolume,
    StartingProvisioningPod,
    PreparingEnvironment,
    CreatingEndpointTemplate,
    CreatingEndpoint,
    ValidatingReadiness,
    CleaningUp,
    Completed,
    Failed,
}

/// What the user is advised to do after a failure.
#[derive(Clone, Copy, Debug, PartialEq, Eq, Structural)]
pub enum WorkspaceProvisioningRecoveryAction {
    Retry,
    RecoverProviderSetup,
    ReselectPlacement,
    InspectWorkspaceProvisioning,
    CleanupWorkspaceResources,
}

/// The coarse status shown for provisioning.
#[derive(Clone, Copy, Debug, PartialEq, Eq, Structural)]
pub enum WorkspaceProvisioningStatus {
    Idle,
    Running,
    Cancelling,
    Completed,
    Failed,
}

/// A structured description of a provisioning failure.
#[derive(Clone, Copy, Debug, PartialEq, Eq, Structural)]
pub struct WorkspaceProvisioningFailure {
    pub code: WorkspaceProvisioningFailureCode,
    pub phase: WorkspaceProvisioningPhase,
    pub source: WorkspaceProvisioningFailureSource,
    pub recovery_action: WorkspaceProvisioningRecoveryAction,
}

/// The progress of provisioning as shown to the user.
#[derive(Clone, Copy, Debug, PartialEq, Eq, Structural)]
pub struct WorkspaceProvisioningProgress {
    pub status: WorkspaceProvisioningStatus,
    pub phase: WorkspaceProvisioningPhase,
    pub percent: Option<u8>,
    pub failure: Option<WorkspaceProvisioningFailure>,
}


/// The network volume that holds the prepared workspace.
#[derive(Clone, Debug, PartialEq, Eq)]
pub struct PersistentStorageVolumeSnapshot {
    pub gpu_cloud_provider_id: GpuCloudProviderId,
    pub provider_resource_id: String,
    pub provider_resource_status: ProviderResourceStatus,
    pub mount_path: String,
}

/// The short-lived pod that runs the provisioner worker.
#[derive(Clone, Debug, PartialEq, Eq)]
pub struct ProvisioningPodSnapshot {
    pub gpu_cloud_provider_id: GpuCloudProviderId,
    pub provider_resource_id: String,
    pub provider_resource_status: ProviderResourceStatus,
    pub provisioner_status_url: String,
}

/// Provider-specific facts about a serverless endpoint.
#[derive(Clone, Debug, PartialEq, Eq)]
pub enum ServerlessEndpointProviderMetadata {
    Runpod { template_id: String },
}

/// The serverless endpoint that serves the workspace.
#[derive(Clone, Debug, PartialEq, Eq)]
pub struct ServerlessEndpointSnapshot {
    pub gpu_cloud_provider_id: GpuCloudProviderId,
    pub provider_resource_id: String,
    pub provider_resource_status: ProviderResourceStatus,
    pub endpoint_invoke_url: String,
    pub provider_metadata: Option<ServerlessEndpointProviderMetadata>,
}

/// The RunPod template from which the serverless endpoint is made.
#[derive(Clone, Debug, PartialEq, Eq)]
pub struct RunPodEndpointTemplateSnapshot {
    pub template_id: String,
    pub endpoint_worker_image_ref: String,
    pub mount_path: String,
    pub provider_resource_status: ProviderResourceStatus,
}

/// Provider-specific provisioning state.
#[derive(Clone, Debug, PartialEq, Eq)]
pub enum ProviderProvisioningSnapshot {
    Runpod { endpoint_template_snapshot: Option<RunPodEndpointTemplateSnapshot> },
}

/// The endpoint runtime image that the workspace was resolved to.
#[derive(Clone, Debug, PartialEq, Eq)]
pub struct ResolvedRuntimeImageSnapshot {
    pub contract_id: String,
    pub contract_version: String,
    pub endpoint_image_ref: String,
}

/// The provisioner worker image that the workspace was resolved to.
#[derive(Clone, Debug, PartialEq, Eq)]
pub struct ResolvedProvisionerImageSnapshot {
    pub contract_id: String,
    pub contract_version: String,
    pub provisioner_worker_image_ref: String,
}

/// Where a model asset is downloaded from.
#[derive(Clone, Debug, PartialEq, Eq)]
pub enum ModelAssetSource {
    Huggingface { repository_id: String, file_path: String, revision: String },
}

/// A model file that a workflow needs installed.
#[derive(Clone, Debug, PartialEq, Eq)]
pub struct ModelAsset {
    pub id: String,
    pub name: String,
    pub download_source: ModelAssetSource,
    pub install_comfyui_relative_path: String,
}

/// The kind of generation a workflow performs.
#[derive(Clone, Copy, Debug, PartialEq, Eq, Structural)]
pub enum WorkflowExecutionType {
    T2i,
}

/// A pinned reference to a runtime contract.
#[derive(Clone, Debug, PartialEq, Eq)]
pub struct RuntimeContractReference {
    pub id: String,
    pub version: String,
}

/// A pinned reference to a provisioner contract.
#[derive(Clone, Debug, PartialEq, Eq)]
pub struct ProvisionerContractReference {
    pub id: String,
    pub version: String,
}

/// The workflow that a workspace is provisioned for.
#[derive(Clone, Debug, PartialEq, Eq)]
pub struct WorkflowPreset {
    pub id: String,
    pub version: String,
    pub name: String,
    pub workflow_execution_type: WorkflowExecutionType,
    pub required_base_volume_size_bytes: u64,
    pub requires_hugging_face_api_key: bool,
    pub runtime_contract: RuntimeContractReference,
    pub provisioner_contract: ProvisionerContractReference,
    pub required_model_assets: Vec<ModelAsset>,
}

/// Where and how a workspace is placed on its provider.
#[derive(Clone, Debug, PartialEq, Eq)]
pub enum PlacementPlan {
    Runpod {
        selected_datacenter_id: String,
        selected_gpu_id: String,
        persistent_storage_volume_size_bytes: u64,
        endpoint_keep_alive_seconds: u32,
        selected_workflow_preset: WorkflowPreset,
    },
}

impl PlacementPlan {
    /// The workflow preset selected for this placement.
    pub fn selected_workflow_preset(&self) -> (preset: &WorkflowPreset)
        ensures
            preset == self->Runpod_selected_workflow_preset,
    {
        match self {
            PlacementPlan::Runpod { selected_workflow_preset, .. } => selected_workflow_preset,
        }
    }
}

/// A remote GPU workspace and everything that is known of its provisioning.
#[derive(Clone, Debug, PartialEq, Eq)]
pub struct Workspace {
    pub id: String,
    pub name: String,
    pub gpu_cloud_provider_id: GpuCloudProviderId,
    pub lifecycle_state: WorkspaceLifecycleState,
    pub placement_plan: PlacementPlan,
    pub resolved_runtime_image: ResolvedRuntimeImageSnapshot,
    pub resolved_provisioner_image: ResolvedProvisionerImageSnapshot,
    pub persistent_storage_volume_snapshot: Option<PersistentStorageVolumeSnapshot>,
    pub active_provisioning_pod_snapshot: Option<ProvisioningPodSnapshot>,
    pub serverless_endpoint_snapshot: Option<ServerlessEndpointSnapshot>,
    pub last_provisioning_pod_snapshot: Option<ProvisioningPodSnapshot>,
    pub provider_provisioning_snapshot: Option<ProviderProvisioningSnapshot>,
    pub environment_prepared_at: Option<String>,
    pub last_provisioning_failure: Option<WorkspaceProvisioningFailure>,
}

/// All workspaces known to the catalog.
#[derive(Clone, Debug, PartialEq, Eq)]
pub struct WorkspaceCatalog {
    pub workspaces: Vec<Workspace>,
}

} // verus!
