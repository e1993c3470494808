//! The text values under which catalog columns store the workspace enums.
use vstd::prelude::*;
use crate::domain::{
    GpuCloudProviderId, ProviderResourceStatus, WorkflowExecutionType, WorkspaceLifecycleState,
    WorkspaceProvisioningFailureCode, WorkspaceProvisioningFailureSource,
    WorkspaceProvisioningPhase, WorkspaceProvisioningRecoveryAction,
};
use crate::setup_error::WorkspaceSetupError;
use crate::text::str_equals;

verus! {

/// A parsed column value, or the schema mismatch that an unknown text means.
pub open spec fn parsed<T>(value: Option<T>) -> Result<T, WorkspaceSetupError> {
    match value {
        Some(v) => Ok(v),
        None => Err(WorkspaceSetupError::WorkspaceCatalogSchemaMismatch),
    }
}

/// The column text of a GPU cloud provider id.
pub open spec fn gpu_cloud_provider_id_text(provider_id: GpuCloudProviderId) -> Seq<char> {
    match provider_id {
        GpuCloudProviderId::Runpod => "runpod"@,
    }
}

/// The value of a GPU cloud provider id stored under a column text, if the text names one.
pub open spec fn gpu_cloud_provider_id_from_text(value: Seq<char>) -> Option<GpuCloudProviderId> {
    if value == "runpod"@ {
        Some(GpuCloudProviderId::Runpod)
    } else {
        None
    }
}

/// The column text under which a GPU cloud provider id is stored.
pub fn gpu_cloud_provider_id_value(provider_id: &GpuCloudProviderId) -> (value: &'static str)
    ensures
        value@ == gpu_cloud_provider_id_text(*provider_id),
{
    match provider_id {
        GpuCloudProviderId::Runpod => "runpod",
    }
}

/// Reads a GPU cloud provider id back from its column text; an unknown text is a schema mismatch.
pub fn parse_gpu_cloud_provider_id(value: &str) -> (r: Result<GpuCloudProviderId, WorkspaceSetupError>)
    ensures
        r == parsed(gpu_cloud_provider_id_from_text(value@)),
{
    if str_equals(value, "runpod") {
        Ok(GpuCloudProviderId::Runpod)
    } else {
        Err(WorkspaceSetupError::WorkspaceCatalogSchemaMismatch)
    }
}

/// Every value of a GPU cloud provider id is read back from the text it is written as, and a text
/// that is read as a value is exactly the text that value is written as.
pub proof fn gpu_cloud_provider_id_round_trip(provider_id: GpuCloudProviderId, value: Seq<char>)
    ensures
        gpu_cloud_provider_id_from_text(gpu_cloud_provider_id_text(provider_id)) == Some(provider_id),
        gpu_cloud_provider_id_from_text(value) == Some(provider_id) ==> gpu_cloud_provider_id_text(provider_id) == value,
{
    reveal_strlit("runpod");
    assert("runpod"@.len() == 6);
}

/// The column text of a workspace lifecycle state.
pub open spec fn lifecycle_state_text(lifecycle_state: WorkspaceLifecycleState) -> Seq<char> {
    match lifecycle_state {
        WorkspaceLifecycleState::Draft => "draft"@,
        WorkspaceLifecycleState::Provisioning => "provisioning"@,
        WorkspaceLifecycleState::Ready => "ready"@,
        WorkspaceLifecycleState::Failed => "failed"@,
    }
}

/// The value of a workspace lifecycle state stored under a column text, if the text names one.
pub open spec fn lifecycle_state_from_text(value: Seq<char>) -> Option<WorkspaceLifecycleState> {
    if value == "draft"@ {
        Some(WorkspaceLifecycleState::Draft)
    } else if value == "provisioning"@ {
        Some(WorkspaceLifecycleState::Provisioning)
    } else if value == "ready"@ {
        Some(WorkspaceLifecycleState::Ready)
    } else if value == "failed"@ {
        Some(WorkspaceLifecycleState::Failed)
    } else {
        None
    }
}

/// The column text under which a workspace lifecycle state is stored.
pub fn lifecycle_state_value(lifecycle_state: &WorkspaceLifecycleState) -> (value: &'static str)
    ensures
        value@ == lifecycle_state_text(*lifecycle_state),
{
    match lifecycle_state {
        WorkspaceLifecycleState::Draft => "draft",
        WorkspaceLifecycleState::Provisioning => "provisioning",
        WorkspaceLifecycleState::Ready => "ready",
        WorkspaceLifecycleState::Failed => "failed",
    }
}

/// Reads a workspace lifecycle state back from its column text; an unknown text is a schema mismatch.
pub fn parse_lifecycle_state(value: &str) -> (r: Result<WorkspaceLifecycleState, WorkspaceSetupError>)
    ensures
        r == parsed(lifecycle_state_from_text(value@)),
{
    if str_equals(value, "draft") {
        Ok(WorkspaceLifecycleState::Draft)
    } else if str_equals(value, "provisioning") {
        Ok(WorkspaceLifecycleState::Provisioning)
    } else if str_equals(value, "ready") {
        Ok(WorkspaceLifecycleState::Ready)
    } else if str_equals(value, "failed") {
        Ok(WorkspaceLifecycleState::Failed)
    } else {
        Err(WorkspaceSetupError::WorkspaceCatalogSchemaMismatch)
    }
}

/// Every value of a workspace lifecycle state is read back from the text it is written as, and a text
/// that is read as a value is exactly the text that value is written as.
pub proof fn lifecycle_state_round_trip(lifecycle_state: WorkspaceLifecycleState, value: Seq<char>)
    ensures
        lifecycle_state_from_text(lifecycle_state_text(lifecycle_state)) == Some(lifecycle_state),
        lifecycle_state_from_text(value) == Some(lifecycle_state) ==> lifecycle_state_text(lifecycle_state) == value,
{
    reveal_strlit("draft");
    reveal_strlit("provisioning");
    reveal_strlit("ready");
    reveal_strlit("failed");
    assert("draft"@.len() == 5);
    assert("provisioning"@.len() == 12);
    assert("ready"@.len() == 5);
    assert("failed"@.len() == 6);
    assert("draft"@[0] == 'd');
    assert("ready"@[0] == 'r');
}

/// The column text of a provider resource status.
pub open spec fn provider_resource_status_text(status: ProviderResourceStatus) -> Seq<char> {
    match status {
        ProviderResourceStatus::Creating => "creating"@,
        ProviderResourceStatus::Running => "running"@,
        ProviderResourceStatus::Ready => "ready"@,
        ProviderResourceStatus::Terminated => "terminated"@,
        ProviderResourceStatus::Failed => "failed"@,
        ProviderResourceStatus::Unknown => "unknown"@,
    }
}

/// The value of a provider resource status stored under a column text, if the text names one.
pub open spec fn provider_resource_status_from_text(value: Seq<char>) -> Option<ProviderResourceStatus> {
    if value == "creating"@ {
        Some(ProviderResourceStatus::Creating)
    } else if value == "running"@ {
        Some(ProviderResourceStatus::Running)
    } else if value == "ready"@ {
        Some(ProviderResourceStatus::Ready)
    } else if value == "terminated"@ {
        Some(ProviderResourceStatus::Terminated)
    } else if value == "failed"@ {
        Some(ProviderResourceStatus::Failed)
    } else if value == "unknown"@ {
        Some(ProviderResourceStatus::Unknown)
    } else {
        None
    }
}

/// The column text under which a provider resource status is stored.
pub fn provider_resource_status_value(status: &ProviderResourceStatus) -> (value: &'static str)
    ensures
        value@ == provider_resource_status_text(*status),
{
    match status {
        ProviderResourceStatus::Creating => "creating",
        ProviderResourceStatus::Running => "running",
        ProviderResourceStatus::Ready => "ready",
        ProviderResourceStatus::Terminated => "terminated",
        ProviderResourceStatus::Failed => "failed",
        ProviderResourceStatus::Unknown => "unknown",
    }
}

/// Reads a provider resource status back from its column text; an unknown text is a schema mismatch.
pub fn parse_provider_resource_status(value: &str) -> (r: Result<ProviderResourceStatus, WorkspaceSetupError>)
    ensures
        r == parsed(provider_resource_status_from_text(value@)),
{
    if str_equals(value, "creating") {
        Ok(ProviderResourceStatus::Creating)
    } else if str_equals(value, "running") {
        Ok(ProviderResourceStatus::Running)
    } else if str_equals(value, "ready") {
        Ok(ProviderResourceStatus::Ready)
    } else if str_equals(value, "terminated") {
        Ok(ProviderResourceStatus::Terminated)
    } else if str_equals(value, "failed") {
        Ok(ProviderResourceStatus::Failed)
    } else if str_equals(value, "unknown") {
        Ok(ProviderResourceStatus::Unknown)
    } else {
        Err(WorkspaceSetupError::WorkspaceCatalogSchemaMismatch)
    }
}

/// Every value of a provider resource status is read back from the text it is written as, and a text
/// that is read as a value is exactly the text that value is written as.
pub proof fn provider_resource_status_round_trip(status: ProviderResourceStatus, value: Seq<char>)
    ensures
        provider_resource_status_from_text(provider_resource_status_text(status)) == Some(status),
        provider_resource_status_from_text(value) == Some(status) ==> provider_resource_status_text(status) == value,
{
    reveal_strlit("creating");
    reveal_strlit("running");
    reveal_strlit("ready");
    reveal_strlit("terminated");
    reveal_strlit("failed");
    reveal_strlit("unknown");
    assert("creating"@.len() == 8);
    assert("running"@.len() == 7);
    assert("ready"@.len() == 5);
    assert("terminated"@.len() == 10);
    assert("failed"@.len() == 6);
    assert("unknown"@.len() == 7);
    assert("running"@[0] == 'r');
    assert("unknown"@[0] == 'u');
}

/// The column text of a provisioning failure code.
pub open spec fn provisioning_failure_code_text(code: WorkspaceProvisioningFailureCode) -> Seq<char> {
    match code {
        WorkspaceProvisioningFailureCode::ProviderSetupIncomplete => "provider_setup_incomplete"@,
        WorkspaceProvisioningFailureCode::ProviderApiKeyUnauthorized => "provider_api_key_unauthorized"@,
        WorkspaceProvisioningFailureCode::ProviderApiUnavailable => "provider_api_unavailable"@,
        WorkspaceProvisioningFailureCode::ProviderRateLimited => "provider_rate_limited"@,
        WorkspaceProvisioningFailureCode::ProviderRequestRejected => "provider_request_rejected"@,
        WorkspaceProvisioningFailureCode::ProviderResponseInvalid => "provider_response_invalid"@,
        WorkspaceProvisioningFailureCode::ProviderOperationConflict => "provider_operation_conflict"@,
        WorkspaceProvisioningFailureCode::SecureKeyringUnavailable => "secure_keyring_unavailable"@,
        WorkspaceProvisioningFailureCode::ProviderResourceFailed => "provider_resource_failed"@,
        WorkspaceProvisioningFailureCode::ProviderResourceTerminated => "provider_resource_terminated"@,
        WorkspaceProvisioningFailureCode::ProviderResourceUnknown => "provider_resource_unknown"@,
        WorkspaceProvisioningFailureCode::ProviderResourceMissing => "provider_resource_missing"@,
        WorkspaceProvisioningFailureCode::ProviderOrphanedResources => "provider_orphaned_resources"@,
        WorkspaceProvisioningFailureCode::ProviderOperationIndeterminate => "provider_operation_indeterminate"@,
        WorkspaceProvisioningFailureCode::ProvisionerWorkerTokenMissing => "provisioner_worker_token_missing"@,
        WorkspaceProvisioningFailureCode::ProvisionerWorkerTokenInvalid => "provisioner_worker_token_invalid"@,
        WorkspaceProvisioningFailureCode::ProvisionerWorkerUnauthorized => "provisioner_worker_unauthorized"@,
        WorkspaceProvisioningFailureCode::ProvisionerWorkerUnavailable => "provisioner_worker_unavailable"@,
        WorkspaceProvisioningFailureCode::ProvisionerWorkerConflict => "provisioner_worker_conflict"@,
        WorkspaceProvisioningFailureCode::ProvisionerWorkerResponseInvalid => "provisioner_worker_response_invalid"@,
        WorkspaceProvisioningFailureCode::ProvisionerWorkerFailed => "provisioner_worker_failed"@,
        WorkspaceProvisioningFailureCode::ProvisionerWorkerGitCheckoutFailed => "provisioner_worker_git_checkout_failed"@,
        WorkspaceProvisioningFailureCode::ProvisionerWorkerDependencyInstallFailed => "provisioner_worker_dependency_install_failed"@,
        WorkspaceProvisioningFailureCode::ProvisionerWorkerAssetDownloadFailed => "provisioner_worker_asset_download_failed"@,
        WorkspaceProvisioningFailureCode::ProvisionerWorkerAssetAuthRequired => "provisioner_worker_asset_auth_required"@,
        WorkspaceProvisioningFailureCode::ProvisionerWorkerPathValidationFailed => "provisioner_worker_path_validation_failed"@,
        WorkspaceProvisioningFailureCode::ProvisionerWorkerStepTimeout => "provisioner_worker_step_timeout"@,
        WorkspaceProvisioningFailureCode::ProvisionerWorkerUnexpectedError => "provisioner_worker_unexpected_error"@,
        WorkspaceProvisioningFailureCode::ReadinessValidationFailed => "readiness_validation_failed"@,
        WorkspaceProvisioningFailureCode::CancellationCleanupFailed => "cancellation_cleanup_failed"@,
        WorkspaceProvisioningFailureCode::LegacyFailure => "legacy_failure"@,
    }
}

/// The value of a provisioning failure code stored under a column text, if the text names one.
pub open spec fn provisioning_failure_code_from_text(value: Seq<char>) -> Option<WorkspaceProvisioningFailureCode> {
    if value == "provider_setup_incomplete"@ {
        Some(WorkspaceProvisioningFailureCode::ProviderSetupIncomplete)
    } else if value == "provider_api_key_unauthorized"@ {
        Some(WorkspaceProvisioningFailureCode::ProviderApiKeyUnauthorized)
    } else if value == "provider_api_unavailable"@ {
        Some(WorkspaceProvisioningFailureCode::ProviderApiUnavailable)
    } else if value == "provider_rate_limited"@ {
        Some(WorkspaceProvisioningFailureCode::ProviderRateLimited)
    } else if value == "provider_request_rejected"@ {
        Some(WorkspaceProvisioningFailureCode::ProviderRequestRejected)
    } else if value == "provider_response_invalid"@ {
        Some(WorkspaceProvisioningFailureCode::ProviderResponseInvalid)
    } else if value == "provider_operation_conflict"@ {
        Some(WorkspaceProvisioningFailureCode::ProviderOperationConflict)
    } else if value == "secure_keyring_unavailable"@ {
        Some(WorkspaceProvisioningFailureCode::SecureKeyringUnavailable)
    } else if value == "provider_resource_failed"@ {
        Some(WorkspaceProvisioningFailureCode::ProviderResourceFailed)
    } else if value == "provider_resource_terminated"@ {
        Some(WorkspaceProvisioningFailureCode::ProviderResourceTerminated)
    } else if value == "provider_resource_unknown"@ {
        Some(WorkspaceProvisioningFailureCode::ProviderResourceUnknown)
    } else if value == "provider_resource_missing"@ {
        Some(WorkspaceProvisioningFailureCode::ProviderResourceMissing)
    } else if value == "provider_orphaned_resources"@ {
        Some(WorkspaceProvisioningFailureCode::ProviderOrphanedResources)
    } else if value == "provider_operation_indeterminate"@ {
        Some(WorkspaceProvisioningFailureCode::ProviderOperationIndeterminate)
    } else if value == "provisioner_worker_token_missing"@ {
        Some(WorkspaceProvisioningFailureCode::ProvisionerWorkerTokenMissing)
    } else if value == "provisioner_worker_token_invalid"@ {
        Some(WorkspaceProvisioningFailureCode::ProvisionerWorkerTokenInvalid)
    } else if value == "provisioner_worker_unauthorized"@ {
        Some(WorkspaceProvisioningFailureCode::ProvisionerWorkerUnauthorized)
    } else if value == "provisioner_worker_unavailable"@ {
        Some(WorkspaceProvisioningFailureCode::ProvisionerWorkerUnavailable)
    } else if value == "provisioner_worker_conflict"@ {
        Some(WorkspaceProvisioningFailureCode::ProvisionerWorkerConflict)
    } else if value == "provisioner_worker_response_invalid"@ {
        Some(WorkspaceProvisioningFailureCode::ProvisionerWorkerResponseInvalid)
    } else if value == "provisioner_worker_failed"@ {
        Some(WorkspaceProvisioningFailureCode::ProvisionerWorkerFailed)
    } else if value == "provisioner_worker_git_checkout_failed"@ {
        Some(WorkspaceProvisioningFailureCode::ProvisionerWorkerGitCheckoutFailed)
    } else if value == "provisioner_worker_dependency_install_failed"@ {
        Some(WorkspaceProvisioningFailureCode::ProvisionerWorkerDependencyInstallFailed)
    } else if value == "provisioner_worker_asset_download_failed"@ {
        Some(WorkspaceProvisioningFailureCode::ProvisionerWorkerAssetDownloadFailed)
    } else if value == "provisioner_worker_asset_auth_required"@ {
        Some(WorkspaceProvisioningFailureCode::ProvisionerWorkerAssetAuthRequired)
    } else if value == "provisioner_worker_path_validation_failed"@ {
        Some(WorkspaceProvisioningFailureCode::ProvisionerWorkerPathValidationFailed)
    } else if value == "provisioner_worker_step_timeout"@ {
        Some(WorkspaceProvisioningFailureCode::ProvisionerWorkerStepTimeout)
    } else if value == "provisioner_worker_unexpected_error"@ {
        Some(WorkspaceProvisioningFailureCode::ProvisionerWorkerUnexpectedError)
    } else if value == "readiness_validation_failed"@ {
        Some(WorkspaceProvisioningFailureCode::ReadinessValidationFailed)
    } else if value == "cancellation_cleanup_failed"@ {
        Some(WorkspaceProvisioningFailureCode::CancellationCleanupFailed)
    } else if value == "legacy_failure"@ {
        Some(WorkspaceProvisioningFailureCode::LegacyFailure)
    } else {
        None
    }
}

/// The column text under which a provisioning failure code is stored.
pub fn provisioning_failure_code_value(code: &WorkspaceProvisioningFailureCode) -> (value: &'static str)
    ensures
        value@ == provisioning_failure_code_text(*code),
{
    match code {
        WorkspaceProvisioningFailureCode::ProviderSetupIncomplete => "provider_setup_incomplete",
        WorkspaceProvisioningFailureCode::ProviderApiKeyUnauthorized => "provider_api_key_unauthorized",
        WorkspaceProvisioningFailureCode::ProviderApiUnavailable => "provider_api_unavailable",
        WorkspaceProvisioningFailureCode::ProviderRateLimited => "provider_rate_limited",
        WorkspaceProvisioningFailureCode::ProviderRequestRejected => "provider_request_rejected",
        WorkspaceProvisioningFailureCode::ProviderResponseInvalid => "provider_response_invalid",
        WorkspaceProvisioningFailureCode::ProviderOperationConflict => "provider_operation_conflict",
        WorkspaceProvisioningFailureCode::SecureKeyringUnavailable => "secure_keyring_unavailable",
        WorkspaceProvisioningFailureCode::ProviderResourceFailed => "provider_resource_failed",
        WorkspaceProvisioningFailureCode::ProviderResourceTerminated => "provider_resource_terminated",
        WorkspaceProvisioningFailureCode::ProviderResourceUnknown => "provider_resource_unknown",
        WorkspaceProvisioningFailureCode::ProviderResourceMissing => "provider_resource_missing",
        WorkspaceProvisioningFailureCode::ProviderOrphanedResources => "provider_orphaned_resources",
        WorkspaceProvisioningFailureCode::ProviderOperationIndeterminate => "provider_operation_indeterminate",
        WorkspaceProvisioningFailureCode::ProvisionerWorkerTokenMissing => "provisioner_worker_token_missing",
        WorkspaceProvisioningFailureCode::ProvisionerWorkerTokenInvalid => "provisioner_worker_token_invalid",
        WorkspaceProvisioningFailureCode::ProvisionerWorkerUnauthorized => "provisioner_worker_unauthorized",
        WorkspaceProvisioningFailureCode::ProvisionerWorkerUnavailable => "provisioner_worker_unavailable",
        WorkspaceProvisioningFailureCode::ProvisionerWorkerConflict => "provisioner_worker_conflict",
        WorkspaceProvisioningFailureCode::ProvisionerWorkerResponseInvalid => "provisioner_worker_response_invalid",
        WorkspaceProvisioningFailureCode::ProvisionerWorkerFailed => "provisioner_worker_failed",
        WorkspaceProvisioningFailureCode::ProvisionerWorkerGitCheckoutFailed => "provisioner_worker_git_checkout_failed",
        WorkspaceProvisioningFailureCode::ProvisionerWorkerDependencyInstallFailed => "provisioner_worker_dependency_install_failed",
        WorkspaceProvisioningFailureCode::ProvisionerWorkerAssetDownloadFailed => "provisioner_worker_asset_download_failed",
        WorkspaceProvisioningFailureCode::ProvisionerWorkerAssetAuthRequired => "provisioner_worker_asset_auth_required",
        WorkspaceProvisioningFailureCode::ProvisionerWorkerPathValidationFailed => "provisioner_worker_path_validation_failed",
        WorkspaceProvisioningFailureCode::ProvisionerWorkerStepTimeout => "provisioner_worker_step_timeout",
        WorkspaceProvisioningFailureCode::ProvisionerWorkerUnexpectedError => "provisioner_worker_unexpected_error",
        WorkspaceProvisioningFailureCode::ReadinessValidationFailed => "readiness_validation_failed",
        WorkspaceProvisioningFailureCode::CancellationCleanupFailed => "cancellation_cleanup_failed",
        WorkspaceProvisioningFailureCode::LegacyFailure => "legacy_failure",
    }
}

/// Reads a provisioning failure code back from its column text; an unknown text is a schema mismatch.
pub fn parse_provisioning_failure_code(value: &str) -> (r: Result<WorkspaceProvisioningFailureCode, WorkspaceSetupError>)
    ensures
        r == parsed(provisioning_failure_code_from_text(value@)),
{
    if str_equals(value, "provider_setup_incomplete") {
        Ok(WorkspaceProvisioningFailureCode::ProviderSetupIncomplete)
    } else if str_equals(value, "provider_api_key_unauthorized") {
        Ok(WorkspaceProvisioningFailureCode::ProviderApiKeyUnauthorized)
    } else if str_equals(value, "provider_api_unavailable") {
        Ok(WorkspaceProvisioningFailureCode::ProviderApiUnavailable)
    } else if str_equals(value, "provider_rate_limited") {
        Ok(WorkspaceProvisioningFailureCode::ProviderRateLimited)
    } else if str_equals(value, "provider_request_rejected") {
        Ok(WorkspaceProvisioningFailureCode::ProviderRequestRejected)
    } else if str_equals(value, "provider_response_invalid") {
        Ok(WorkspaceProvisioningFailureCode::ProviderResponseInvalid)
    } else if str_equals(value, "provider_operation_conflict") {
        Ok(WorkspaceProvisioningFailureCode::ProviderOperationConflict)
    } else if str_equals(value, "secure_keyring_unavailable") {
        Ok(WorkspaceProvisioningFailureCode::SecureKeyringUnavailable)
    } else if str_equals(value, "provider_resource_failed") {
        Ok(WorkspaceProvisioningFailureCode::ProviderResourceFailed)
    } else if str_equals(value, "provider_resource_terminated") {
        Ok(WorkspaceProvisioningFailureCode::ProviderResourceTerminated)
    } else if str_equals(value, "provider_resource_unknown") {
        Ok(WorkspaceProvisioningFailureCode::ProviderResourceUnknown)
    } else if str_equals(value, "provider_resource_missing") {
        Ok(WorkspaceProvisioningFailureCode::ProviderResourceMissing)
    } else if str_equals(value, "provider_orphaned_resources") {
        Ok(WorkspaceProvisioningFailureCode::ProviderOrphanedResources)
    } else if str_equals(value, "provider_operation_indeterminate") {
        Ok(WorkspaceProvisioningFailureCode::ProviderOperationIndeterminate)
    } else if str_equals(value, "provisioner_worker_token_missing") {
        Ok(WorkspaceProvisioningFailureCode::ProvisionerWorkerTokenMissing)
    } else if str_equals(value, "provisioner_worker_token_invalid") {
        Ok(WorkspaceProvisioningFailureCode::ProvisionerWorkerTokenInvalid)
    } else if str_equals(value, "provisioner_worker_unauthorized") {
        Ok(WorkspaceProvisioningFailureCode::ProvisionerWorkerUnauthorized)
    } else if str_equals(value, "provisioner_worker_unavailable") {
        Ok(WorkspaceProvisioningFailureCode::ProvisionerWorkerUnavailable)
    } else if str_equals(value, "provisioner_worker_conflict") {
        Ok(WorkspaceProvisioningFailureCode::ProvisionerWorkerConflict)
    } else if str_equals(value, "provisioner_worker_response_invalid") {
        Ok(WorkspaceProvisioningFailureCode::ProvisionerWorkerResponseInvalid)
    } else if str_equals(value, "provisioner_worker_failed") {
        Ok(WorkspaceProvisioningFailureCode::ProvisionerWorkerFailed)
    } else if str_equals(value, "provisioner_worker_git_checkout_failed") {
        Ok(WorkspaceProvisioningFailureCode::ProvisionerWorkerGitCheckoutFailed)
    } else if str_equals(value, "provisioner_worker_dependency_install_failed") {
        Ok(WorkspaceProvisioningFailureCode::ProvisionerWorkerDependencyInstallFailed)
    } else if str_equals(value, "provisioner_worker_asset_download_failed") {
        Ok(WorkspaceProvisioningFailureCode::ProvisionerWorkerAssetDownloadFailed)
    } else if str_equals(value, "provisioner_worker_asset_auth_required") {
        Ok(WorkspaceProvisioningFailureCode::ProvisionerWorkerAssetAuthRequired)
    } else if str_equals(value, "provisioner_worker_path_validation_failed") {
        Ok(WorkspaceProvisioningFailureCode::ProvisionerWorkerPathValidationFailed)
    } else if str_equals(value, "provisioner_worker_step_timeout") {
        Ok(WorkspaceProvisioningFailureCode::ProvisionerWorkerStepTimeout)
    } else if str_equals(value, "provisioner_worker_unexpected_error") {
        Ok(WorkspaceProvisioningFailureCode::ProvisionerWorkerUnexpectedError)
    } else if str_equals(value, "readiness_validation_failed") {
        Ok(WorkspaceProvisioningFailureCode::ReadinessValidationFailed)
    } else if str_equals(value, "cancellation_cleanup_failed") {
        Ok(WorkspaceProvisioningFailureCode::CancellationCleanupFailed)
    } else if str_equals(value, "legacy_failure") {
        Ok(WorkspaceProvisioningFailureCode::LegacyFailure)
    } else {
        Err(WorkspaceSetupError::WorkspaceCatalogSchemaMismatch)
    }
}

/// Every value of a provisioning failure code is read back from the text it is written as, and a text
/// that is read as a value is exactly the text that value is written as.
pub proof fn provisioning_failure_code_round_trip(code: WorkspaceProvisioningFailureCode, value: Seq<char>)
    ensures
        provisioning_failure_code_from_text(provisioning_failure_code_text(code)) == Some(code),
        provisioning_failure_code_from_text(value) == Some(code) ==> provisioning_failure_code_text(code) == value,
{
    reveal_strlit("provider_setup_incomplete");
    reveal_strlit("provider_api_key_unauthorized");
    reveal_strlit("provider_api_unavailable");
    reveal_strlit("provider_rate_limited");
    reveal_strlit("provider_request_rejected");
    reveal_strlit("provider_response_invalid");
    reveal_strlit("provider_operation_conflict");
    reveal_strlit("secure_keyring_unavailable");
    reveal_strlit("provider_resource_failed");
    reveal_strlit("provider_resource_terminated");
    reveal_strlit("provider_resource_unknown");
    reveal_strlit("provider_resource_missing");
    reveal_strlit("provider_orphaned_resources");
    reveal_strlit("provider_operation_indeterminate");
    reveal_strlit("provisioner_worker_token_missing");
    reveal_strlit("provisioner_worker_token_invalid");
    reveal_strlit("provisioner_worker_unauthorized");
    reveal_strlit("provisioner_worker_unavailable");
    reveal_strlit("provisioner_worker_conflict");
    reveal_strlit("provisioner_worker_response_invalid");
    reveal_strlit("provisioner_worker_failed");
    reveal_strlit("provisioner_worker_git_checkout_failed");
    reveal_strlit("provisioner_worker_dependency_install_failed");
    reveal_strlit("provisioner_worker_asset_download_failed");
    reveal_strlit("provisioner_worker_asset_auth_required");
    reveal_strlit("provisioner_worker_path_validation_failed");
    reveal_strlit("provisioner_worker_step_timeout");
    reveal_strlit("provisioner_worker_unexpected_error");
    reveal_strlit("readiness_validation_failed");
    reveal_strlit("cancellation_cleanup_failed");
    reveal_strlit("legacy_failure");
    assert("provider_setup_incomplete"@.len() == 25);
    assert("provider_api_key_unauthorized"@.len() == 29);
    assert("provider_api_unavailable"@.len() == 24);
    assert("provider_rate_limited"@.len() == 21);
    assert("provider_request_rejected"@.len() == 25);
    assert("provider_response_invalid"@.len() == 25);
    assert("provider_operation_conflict"@.len() == 27);
    assert("secure_keyring_unavailable"@.len() == 26);
    assert("provider_resource_failed"@.len() == 24);
    assert("provider_resource_terminated"@.len() == 28);
    assert("provider_resource_unknown"@.len() == 25);
    assert("provider_resource_missing"@.len() == 25);
    assert("provider_orphaned_resources"@.len() == 27);
    assert("provider_operation_indeterminate"@.len() == 32);
    assert("provisioner_worker_token_missing"@.len() == 32);
    assert("provisioner_worker_token_invalid"@.len() == 32);
    assert("provisioner_worker_unauthorized"@.len() == 31);
    assert("provisioner_worker_unavailable"@.len() == 30);
    assert("provisioner_worker_conflict"@.len() == 27);
    assert("provisioner_worker_response_invalid"@.len() == 35);
    assert("provisioner_worker_failed"@.len() == 25);
    assert("provisioner_worker_git_checkout_failed"@.len() == 38);
    assert("provisioner_worker_dependency_install_failed"@.len() == 44);
    assert("provisioner_worker_asset_download_failed"@.len() == 40);
    assert("provisioner_worker_asset_auth_required"@.len() == 38);
    assert("provisioner_worker_path_validation_failed"@.len() == 41);
    assert("provisioner_worker_step_timeout"@.len() == 31);
    assert("provisioner_worker_unexpected_error"@.len() == 35);
    assert("readiness_validation_failed"@.len() == 27);
    assert("cancellation_cleanup_failed"@.len() == 27);
    assert("legacy_failure"@.len() == 14);
    assert("provider_setup_incomplete"@[5] == 'd');
    assert("provisioner_worker_failed"@[5] == 's');
    assert("provider_api_unavailable"@[9] == 'a');
    assert("provider_resource_failed"@[9] == 'r');
    assert("provider_request_rejected"@[9] == 'r');
    assert("provider_setup_incomplete"@[9] == 's');
    assert("provider_request_rejected"@[11] == 'q');
    assert("provider_response_invalid"@[11] == 's');
    assert("provider_resource_unknown"@[11] == 's');
    assert("provider_resource_missing"@[11] == 's');
    assert("provider_request_rejected"@[5] == 'd');
    assert("provider_response_invalid"@[9] == 'r');
    assert("provider_response_invalid"@[5] == 'd');
    assert("provider_operation_conflict"@[10] == 'p');
    assert("provider_orphaned_resources"@[10] == 'r');
    assert("provider_operation_conflict"@[5] == 'd');
    assert("provisioner_worker_conflict"@[5] == 's');
    assert("provider_operation_conflict"@[0] == 'p');
    assert("readiness_validation_failed"@[0] == 'r');
    assert("provider_resource_unknown"@[9] == 'r');
    assert("provider_resource_unknown"@[12] == 'o');
    assert("provider_response_invalid"@[12] == 'p');
    assert("provider_resource_unknown"@[5] == 'd');
    assert("provider_resource_missing"@[9] == 'r');
    assert("provider_resource_missing"@[12] == 'o');
    assert("provider_resource_missing"@[18] == 'm');
    assert("provider_resource_unknown"@[18] == 'u');
    assert("provider_resource_missing"@[5] == 'd');
    assert("provider_orphaned_resources"@[5] == 'd');
    assert("provider_orphaned_resources"@[0] == 'p');
    assert("provider_operation_indeterminate"@[5] == 'd');
    assert("provisioner_worker_token_missing"@[5] == 's');
    assert("provisioner_worker_token_invalid"@[5] == 's');
    assert("provisioner_worker_token_invalid"@[25] == 'i');
    assert("provisioner_worker_token_missing"@[25] == 'm');
    assert("provisioner_worker_conflict"@[0] == 'p');
    assert("provisioner_worker_response_invalid"@[19] == 'r');
    assert("provisioner_worker_unexpected_error"@[19] == 'u');
    assert("provisioner_worker_asset_auth_required"@[19] == 'a');
    assert("provisioner_worker_git_checkout_failed"@[19] == 'g');
    assert("provisioner_worker_step_timeout"@[19] == 's');
    assert("provisioner_worker_unauthorized"@[19] == 'u');
    assert("cancellation_cleanup_failed"@[0] == 'c');
}

/// The column text of a provisioning failure source.
pub open spec fn provisioning_failure_source_text(source: WorkspaceProvisioningFailureSource) -> Seq<char> {
    match source {
        WorkspaceProvisioningFailureSource::Native => "native"@,
        WorkspaceProvisioningFailureSource::Provider => "provider"@,
        WorkspaceProvisioningFailureSource::ProviderResource => "provider_resource"@,
        WorkspaceProvisioningFailureSource::ProvisionerWorker => "provisioner_worker"@,
    }
}

/// The value of a provisioning failure source stored under a column text, if the text names one.
pub open spec fn provisioning_failure_source_from_text(value: Seq<char>) -> Option<WorkspaceProvisioningFailureSource> {
    if value == "native"@ {
        Some(WorkspaceProvisioningFailureSource::Native)
    } else if value == "provider"@ {
        Some(WorkspaceProvisioningFailureSource::Provider)
    } else if value == "provider_resource"@ {
        Some(WorkspaceProvisioningFailureSource::ProviderResource)
    } else if value == "provisioner_worker"@ {
        Some(WorkspaceProvisioningFailureSource::ProvisionerWorker)
    } else {
        None
    }
}

/// The column text under which a provisioning failure source is stored.
pub fn provisioning_failure_source_value(source: &WorkspaceProvisioningFailureSource) -> (value: &'static str)
    ensures
        value@ == provisioning_failure_source_text(*source),
{
    match source {
        WorkspaceProvisioningFailureSource::Native => "native",
        WorkspaceProvisioningFailureSource::Provider => "provider",
        WorkspaceProvisioningFailureSource::ProviderResource => "provider_resource",
        WorkspaceProvisioningFailureSource::ProvisionerWorker => "provisioner_worker",
    }
}

/// Reads a provisioning failure source back from its column text; an unknown text is a schema mismatch.
pub fn parse_provisioning_failure_source(value: &str) -> (r: Result<WorkspaceProvisioningFailureSource, WorkspaceSetupError>)
    ensures
        r == parsed(provisioning_failure_source_from_text(value@)),
{
    if str_equals(value, "native") {
        Ok(WorkspaceProvisioningFailureSource::Native)
    } else if str_equals(value, "provider") {
        Ok(WorkspaceProvisioningFailureSource::Provider)
    } else if str_equals(value, "provider_resource") {
        Ok(WorkspaceProvisioningFailureSource::ProviderResource)
    } else if str_equals(value, "provisioner_worker") {
        Ok(WorkspaceProvisioningFailureSource::ProvisionerWorker)
    } else {
        Err(WorkspaceSetupError::WorkspaceCatalogSchemaMismatch)
    }
}

/// Every value of a provisioning failure source is read back from the text it is written as, and a text
/// that is read as a value is exactly the text that value is written as.
pub proof fn provisioning_failure_source_round_trip(source: WorkspaceProvisioningFailureSource, value: Seq<char>)
    ensures
        provisioning_failure_source_from_text(provisioning_failure_source_text(source)) == Some(source),
        provisioning_failure_source_from_text(value) == Some(source) ==> provisioning_failure_source_text(source) == value,
{
    reveal_strlit("native");
    reveal_strlit("provider");
    reveal_strlit("provider_resource");
    reveal_strlit("provisioner_worker");
    assert("native"@.len() == 6);
    assert("provider"@.len() == 8);
    assert("provider_resource"@.len() == 17);
    assert("provisioner_worker"@.len() == 18);
}

/// The column text of a provisioning phase.
pub open spec fn provisioning_phase_text(phase: WorkspaceProvisioningPhase) -> Seq<char> {
    match phase {
        WorkspaceProvisioningPhase::NotStarted => "not_started"@,
        WorkspaceProvisioningPhase::CreatingVolume => "creating_volume"@,
        WorkspaceProvisioningPhase::StartingProvisioningPod => "starting_provisioning_pod"@,
        WorkspaceProvisioningPhase::PreparingEnvironment => "preparing_environment"@,
        WorkspaceProvisioningPhase::CreatingEndpointTemplate => "creating_endpoint_template"@,
        WorkspaceProvisioningPhase::CreatingEndpoint => "creating_endpoint"@,
        WorkspaceProvisioningPhase::ValidatingReadiness => "validating_readiness"@,
        WorkspaceProvisioningPhase::CleaningUp => "cleaning_up"@,
        WorkspaceProvisioningPhase::Completed => "completed"@,
        WorkspaceProvisioningPhase::Failed => "failed"@,
    }
}

/// The value of a provisioning phase stored under a column text, if the text names one.
pub open spec fn provisioning_phase_from_text(value: Seq<char>) -> Option<WorkspaceProvisioningPhase> {
    if value == "not_started"@ {
        Some(WorkspaceProvisioningPhase::NotStarted)
    } else if value == "creating_volume"@ {
        Some(WorkspaceProvisioningPhase::CreatingVolume)
    } else if value == "starting_provisioning_pod"@ {
        Some(WorkspaceProvisioningPhase::StartingProvisioningPod)
    } else if value == "preparing_environment"@ {
        Some(WorkspaceProvisioningPhase::PreparingEnvironment)
    } else if value == "creating_endpoint_template"@ {
        Some(WorkspaceProvisioningPhase::CreatingEndpointTemplate)
    } else if value == "creating_endpoint"@ {
        Some(WorkspaceProvisioningPhase::CreatingEndpoint)
    } else if value == "validating_readiness"@ {
        Some(WorkspaceProvisioningPhase::ValidatingReadiness)
    } else if value == "cleaning_up"@ {
        Some(WorkspaceProvisioningPhase::CleaningUp)
    } else if value == "completed"@ {
        Some(WorkspaceProvisioningPhase::Completed)
    } else if value == "failed"@ {
        Some(WorkspaceProvisioningPhase::Failed)
    } else {
        None
    }
}

/// The column text under which a provisioning phase is stored.
pub fn provisioning_phase_value(phase: &WorkspaceProvisioningPhase) -> (value: &'static str)
    ensures
        value@ == provisioning_phase_text(*phase),
{
    match phase {
        WorkspaceProvisioningPhase::NotStarted => "not_started",
        WorkspaceProvisioningPhase::CreatingVolume => "creating_volume",
        WorkspaceProvisioningPhase::StartingProvisioningPod => "starting_provisioning_pod",
        WorkspaceProvisioningPhase::PreparingEnvironment => "preparing_environment",
        WorkspaceProvisioningPhase::CreatingEndpointTemplate => "creating_endpoint_template",
        WorkspaceProvisioningPhase::CreatingEndpoint => "creating_endpoint",
        WorkspaceProvisioningPhase::ValidatingReadiness => "validating_readiness",
        WorkspaceProvisioningPhase::CleaningUp => "cleaning_up",
        WorkspaceProvisioningPhase::Completed => "completed",
        WorkspaceProvisioningPhase::Failed => "failed",
    }
}

/// Reads a provisioning phase back from its column text; an unknown text is a schema mismatch.
pub fn parse_provisioning_phase(value: &str) -> (r: Result<WorkspaceProvisioningPhase, WorkspaceSetupError>)
    ensures
        r == parsed(provisioning_phase_from_text(value@)),
{
    if str_equals(value, "not_started") {
        Ok(WorkspaceProvisioningPhase::NotStarted)
    } else if str_equals(value, "creating_volume") {
        Ok(WorkspaceProvisioningPhase::CreatingVolume)
    } else if str_equals(value, "starting_provisioning_pod") {
        Ok(WorkspaceProvisioningPhase::StartingProvisioningPod)
    } else if str_equals(value, "preparing_environment") {
        Ok(WorkspaceProvisioningPhase::PreparingEnvironment)
    } else if str_equals(value, "creating_endpoint_template") {
        Ok(WorkspaceProvisioningPhase::CreatingEndpointTemplate)
    } else if str_equals(value, "creating_endpoint") {
        Ok(WorkspaceProvisioningPhase::CreatingEndpoint)
    } else if str_equals(value, "validating_readiness") {
        Ok(WorkspaceProvisioningPhase::ValidatingReadiness)
    } else if str_equals(value, "cleaning_up") {
        Ok(WorkspaceProvisioningPhase::CleaningUp)
    } else if str_equals(value, "completed") {
        Ok(WorkspaceProvisioningPhase::Completed)
    } else if str_equals(value, "failed") {
        Ok(WorkspaceProvisioningPhase::Failed)
    } else {
        Err(WorkspaceSetupError::WorkspaceCatalogSchemaMismatch)
    }
}

/// Every value of a provisioning phase is read back from the text it is written as, and a text
/// that is read as a value is exactly the text that value is written as.
pub proof fn provisioning_phase_round_trip(phase: WorkspaceProvisioningPhase, value: Seq<char>)
    ensures
        provisioning_phase_from_text(provisioning_phase_text(phase)) == Some(phase),
        provisioning_phase_from_text(value) == Some(phase) ==> provisioning_phase_text(phase) == value,
{
    reveal_strlit("not_started");
    reveal_strlit("creating_volume");
    reveal_strlit("starting_provisioning_pod");
    reveal_strlit("preparing_environment");
    reveal_strlit("creating_endpoint_template");
    reveal_strlit("creating_endpoint");
    reveal_strlit("validating_readiness");
    reveal_strlit("cleaning_up");
    reveal_strlit("completed");
    reveal_strlit("failed");
    assert("not_started"@.len() == 11);
    assert("creating_volume"@.len() == 15);
    assert("starting_provisioning_pod"@.len() == 25);
    assert("preparing_environment"@.len() == 21);
    assert("creating_endpoint_template"@.len() == 26);
    assert("creating_endpoint"@.len() == 17);
    assert("validating_readiness"@.len() == 20);
    assert("cleaning_up"@.len() == 11);
    assert("completed"@.len() == 9);
    assert("failed"@.len() == 6);
    assert("cleaning_up"@[0] == 'c');
    assert("not_started"@[0] == 'n');
}

/// The column text of a provisioning recovery action.
pub open spec fn provisioning_recovery_action_text(action: WorkspaceProvisioningRecoveryAction) -> Seq<char> {
    match action {
        WorkspaceProvisioningRecoveryAction::Retry => "retry"@,
        WorkspaceProvisioningRecoveryAction::RecoverProviderSetup => "recover_provider_setup"@,
        WorkspaceProvisioningRecoveryAction::ReselectPlacement => "reselect_placement"@,
        WorkspaceProvisioningRecoveryAction::InspectWorkspaceProvisioning => "inspect_workspace_provisioning"@,
        WorkspaceProvisioningRecoveryAction::CleanupWorkspaceResources => "cleanup_workspace_resources"@,
    }
}

/// The value of a provisioning recovery action stored under a column text, if the text names one.
pub open spec fn provisioning_recovery_action_from_text(value: Seq<char>) -> Option<WorkspaceProvisioningRecoveryAction> {
    if value == "retry"@ {
        Some(WorkspaceProvisioningRecoveryAction::Retry)
    } else if value == "recover_provider_setup"@ {
        Some(WorkspaceProvisioningRecoveryAction::RecoverProviderSetup)
    } else if value == "reselect_placement"@ {
        Some(WorkspaceProvisioningRecoveryAction::ReselectPlacement)
    } else if value == "inspect_workspace_provisioning"@ {
        Some(WorkspaceProvisioningRecoveryAction::InspectWorkspaceProvisioning)
    } else if value == "cleanup_workspace_resources"@ {
        Some(WorkspaceProvisioningRecoveryAction::CleanupWorkspaceResources)
    } else {
        None
    }
}

/// The column text under which a provisioning recovery action is stored.
pub fn provisioning_recovery_action_value(action: &WorkspaceProvisioningRecoveryAction) -> (value: &'static str)
    ensures
        value@ == provisioning_recovery_action_text(*action),
{
    match action {
        WorkspaceProvisioningRecoveryAction::Retry => "retry",
        WorkspaceProvisioningRecoveryAction::RecoverProviderSetup => "recover_provider_setup",
        WorkspaceProvisioningRecoveryAction::ReselectPlacement => "reselect_placement",
        WorkspaceProvisioningRecoveryAction::InspectWorkspaceProvisioning => "inspect_workspace_provisioning",
        WorkspaceProvisioningRecoveryAction::CleanupWorkspaceResources => "cleanup_workspace_resources",
    }
}

/// Reads a provisioning recovery action back from its column text; an unknown text is a schema mismatch.
pub fn parse_provisioning_recovery_action(value: &str) -> (r: Result<WorkspaceProvisioningRecoveryAction, WorkspaceSetupError>)
    ensures
        r == parsed(provisioning_recovery_action_from_text(value@)),
{
    if str_equals(value, "retry") {
        Ok(WorkspaceProvisioningRecoveryAction::Retry)
    } else if str_equals(value, "recover_provider_setup") {
        Ok(WorkspaceProvisioningRecoveryAction::RecoverProviderSetup)
    } else if str_equals(value, "reselect_placement") {
        Ok(WorkspaceProvisioningRecoveryAction::ReselectPlacement)
    } else if str_equals(value, "inspect_workspace_provisioning") {
        Ok(WorkspaceProvisioningRecoveryAction::InspectWorkspaceProvisioning)
    } else if str_equals(value, "cleanup_workspace_resources") {
        Ok(WorkspaceProvisioningRecoveryAction::CleanupWorkspaceResources)
    } else {
        Err(WorkspaceSetupError::WorkspaceCatalogSchemaMismatch)
    }
}

/// Every value of a provisioning recovery action is read back from the text it is written as, and a text
/// that is read as a value is exactly the text that value is written as.
pub proof fn provisioning_recovery_action_round_trip(action: WorkspaceProvisioningRecoveryAction, value: Seq<char>)
    ensures
        provisioning_recovery_action_from_text(provisioning_recovery_action_text(action)) == Some(action),
        provisioning_recovery_action_from_text(value) == Some(action) ==> provisioning_recovery_action_text(action) == value,
{
    reveal_strlit("retry");
    reveal_strlit("recover_provider_setup");
    reveal_strlit("reselect_placement");
    reveal_strlit("inspect_workspace_provisioning");
    reveal_strlit("cleanup_workspace_resources");
    assert("retry"@.len() == 5);
    assert("recover_provider_setup"@.len() == 22);
    assert("reselect_placement"@.len() == 18);
    assert("inspect_workspace_provisioning"@.len() == 30);
    assert("cleanup_workspace_resources"@.len() == 27);
}

/// The text under which a stored workflow preset names its execution type.
pub open spec fn workflow_execution_type_text(execution_type: WorkflowExecutionType) -> Seq<char> {
    match execution_type {
        WorkflowExecutionType::T2i => "t2i"@,
    }
}

/// The execution type that a stored preset's text names, if it names one.
pub open spec fn workflow_execution_type_from_text(value: Seq<char>) -> Option<WorkflowExecutionType> {
    if value == "t2i"@ {
        Some(WorkflowExecutionType::T2i)
    } else {
        None
    }
}

/// The text under which a stored preset names an execution type.
pub fn workflow_execution_type_value(execution_type: &WorkflowExecutionType) -> (value: &'static str)
    ensures
        value@ == workflow_execution_type_text(*execution_type),
{
    match execution_type {
        WorkflowExecutionType::T2i => "t2i",
    }
}

/// Reads the execution type of a stored preset; a text that names none makes the stored preset,
/// and so the catalog, corrupt.
pub fn parse_workflow_execution_type(value: &str) -> (r: Result<WorkflowExecutionType, WorkspaceSetupError>)
    ensures
        match workflow_execution_type_from_text(value@) {
            Some(t) => r == Ok::<WorkflowExecutionType, WorkspaceSetupError>(t),
            None => r == Err::<WorkflowExecutionType, WorkspaceSetupError>(WorkspaceSetupError::WorkspaceCatalogCorrupt),
        },
{
    if str_equals(value, "t2i") {
        Ok(WorkflowExecutionType::T2i)
    } else {
        Err(WorkspaceSetupError::WorkspaceCatalogCorrupt)
    }
}

/// Every execution type is read back from the text it is written as, and a text that is read
/// as an execution type is exactly the text that type is written as.
pub proof fn workflow_execution_type_round_trip(execution_type: WorkflowExecutionType, value: Seq<char>)
    ensures
        workflow_execution_type_from_text(workflow_execution_type_text(execution_type)) == Some(execution_type),
        workflow_execution_type_from_text(value) == Some(execution_type) ==> workflow_execution_type_text(execution_type) == value,
{
}

} // verus!
