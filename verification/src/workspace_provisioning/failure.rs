//! The structured failures that provisioning records on a workspace.
use vstd::prelude::*;
use crate::domain::{
    ProviderResourceStatus, Workspace, WorkspaceLifecycleState, WorkspaceProvisioningFailure,
    WorkspaceProvisioningFailureCode as Code, WorkspaceProvisioningFailureSource as Source,
    WorkspaceProvisioningPhase, WorkspaceProvisioningRecoveryAction as Action,
};
use super::errors::WorkspaceProvisioningError as E;
use super::gateway::ProvisionerWorkerError;

verus! {

/// The failure made of its four parts.
pub open spec fn failure_of(code: Code, phase: WorkspaceProvisioningPhase, source: Source, action: Action) -> WorkspaceProvisioningFailure {
    WorkspaceProvisioningFailure { code, phase, source, recovery_action: action }
}

/// The workspace after a failure was recorded on it: it is failed, and the failure is its last
/// one; nothing else changes.
pub open spec fn failed_workspace(workspace: Workspace, failure: WorkspaceProvisioningFailure) -> Workspace {
    Workspace {
        lifecycle_state: WorkspaceLifecycleState::Failed,
        last_provisioning_failure: Some(failure),
        ..workspace
    }
}

/// Marks a workspace failed with the given failure.
pub fn fail_workspace(workspace: &mut Workspace, failure: WorkspaceProvisioningFailure)
    ensures
        *final(workspace) == failed_workspace(*old(workspace), failure),
{
    workspace.lifecycle_state = WorkspaceLifecycleState::Failed;
    workspace.last_provisioning_failure = Some(failure);
}

/// The failure shown for a failed workspace that recorded none.
pub fn legacy_failure() -> (r: WorkspaceProvisioningFailure)
    ensures
        r == failure_of(Code::LegacyFailure, WorkspaceProvisioningPhase::Failed, Source::Native, Action::InspectWorkspaceProvisioning),
{
    WorkspaceProvisioningFailure {
        code: Code::LegacyFailure,
        phase: WorkspaceProvisioningPhase::Failed,
        source: Source::Native,
        recovery_action: Action::InspectWorkspaceProvisioning,
    }
}

/// The failure code that a resource status stands for.
pub open spec fn resource_failure_code(status: ProviderResourceStatus) -> Code {
    match status {
        ProviderResourceStatus::Failed => Code::ProviderResourceFailed,
        ProviderResourceStatus::Terminated => Code::ProviderResourceTerminated,
        ProviderResourceStatus::Unknown => Code::ProviderResourceUnknown,
        _ => Code::ReadinessValidationFailed,
    }
}

/// The failure of a provider resource that reached the given status.
pub fn provider_resource_failure(phase: WorkspaceProvisioningPhase, status: &ProviderResourceStatus) -> (r: WorkspaceProvisioningFailure)
    ensures
        r == failure_of(resource_failure_code(*status), phase, Source::ProviderResource, Action::CleanupWorkspaceResources),
{
    WorkspaceProvisioningFailure {
        code: match status {
            ProviderResourceStatus::Failed => Code::ProviderResourceFailed,
            ProviderResourceStatus::Terminated => Code::ProviderResourceTerminated,
            ProviderResourceStatus::Unknown => Code::ProviderResourceUnknown,
            ProviderResourceStatus::Creating
            | ProviderResourceStatus::Running
            | ProviderResourceStatus::Ready => Code::ReadinessValidationFailed,
        },
        phase,
        source: Source::ProviderResource,
        recovery_action: Action::CleanupWorkspaceResources,
    }
}

/// The failure of a provider operation whose outcome is not known.
pub fn indeterminate_provider_operation(phase: WorkspaceProvisioningPhase) -> (r: WorkspaceProvisioningFailure)
    ensures
        r == failure_of(Code::ProviderOperationIndeterminate, phase, Source::Provider, Action::CleanupWorkspaceResources),
{
    WorkspaceProvisioningFailure {
        code: Code::ProviderOperationIndeterminate,
        phase,
        source: Source::Provider,
        recovery_action: Action::CleanupWorkspaceResources,
    }
}

/// The code, source and recovery action recorded for a provisioning error, where it is
/// recorded at all.
pub open spec fn provisioning_error_parts(error: E) -> Option<(Code, Source, Action)> {
    match error {
        E::ProviderSetupIncomplete => Some((Code::ProviderSetupIncomplete, Source::Native, Action::RecoverProviderSetup)),
        E::ProviderApiKeyUnauthorized => Some((Code::ProviderApiKeyUnauthorized, Source::Provider, Action::RecoverProviderSetup)),
        E::ProviderApiUnavailable => Some((Code::ProviderApiUnavailable, Source::Provider, Action::Retry)),
        E::ProviderRateLimited => Some((Code::ProviderRateLimited, Source::Provider, Action::Retry)),
        E::ProviderRequestRejected => Some((Code::ProviderRequestRejected, Source::Provider, Action::ReselectPlacement)),
        E::ProviderResponseInvalid => Some((Code::ProviderResponseInvalid, Source::Provider, Action::InspectWorkspaceProvisioning)),
        E::ProviderResourceNotFound => Some((Code::ProviderResourceMissing, Source::ProviderResource, Action::CleanupWorkspaceResources)),
        E::ProviderOperationConflict => Some((Code::ProviderOperationConflict, Source::Provider, Action::Retry)),
        E::ProviderOperationIndeterminate => Some((Code::ProviderOperationIndeterminate, Source::Provider, Action::CleanupWorkspaceResources)),
        E::ProvisionerWorkerTokenInvalid => Some((Code::ProvisionerWorkerTokenInvalid, Source::Native, Action::InspectWorkspaceProvisioning)),
        E::ProvisionerWorkerUnavailable => Some((Code::ProvisionerWorkerUnavailable, Source::ProvisionerWorker, Action::Retry)),
        _ => match worker_failure_code(error) {
            Some(code) => Some((code, Source::ProvisionerWorker, Action::InspectWorkspaceProvisioning)),
            None => None,
        },
    }
}

/// The failure that a provisioning error is recorded as in the given phase; catalog and
/// lifecycle errors, an unavailable secure keyring and a worker conflict are not recorded on
/// the workspace: they stay errors of the command.
pub open spec fn spec_provisioning_error(phase: WorkspaceProvisioningPhase, error: E) -> Option<WorkspaceProvisioningFailure> {
    match provisioning_error_parts(error) {
        Some((code, source, action)) => Some(failure_of(code, phase, source, action)),
        None => None,
    }
}

/// Records a provisioning error as a failure, where it is one that the workspace records.
pub fn provisioning_error(phase: WorkspaceProvisioningPhase, error: &E) -> (r: Option<WorkspaceProvisioningFailure>)
    ensures
        r == spec_provisioning_error(phase, *error),
{
    let (code, source, recovery_action) = match error {
        E::ProviderSetupIncomplete => (Code::ProviderSetupIncomplete, Source::Native, Action::RecoverProviderSetup),
        E::ProviderApiKeyUnauthorized => (Code::ProviderApiKeyUnauthorized, Source::Provider, Action::RecoverProviderSetup),
        E::ProviderApiUnavailable => (Code::ProviderApiUnavailable, Source::Provider, Action::Retry),
        E::ProviderRateLimited => (Code::ProviderRateLimited, Source::Provider, Action::Retry),
        E::ProviderRequestRejected => (Code::ProviderRequestRejected, Source::Provider, Action::ReselectPlacement),
        E::ProviderResponseInvalid => (Code::ProviderResponseInvalid, Source::Provider, Action::InspectWorkspaceProvisioning),
        E::ProviderResourceNotFound => (Code::ProviderResourceMissing, Source::ProviderResource, Action::CleanupWorkspaceResources),
        E::ProviderOperationConflict => (Code::ProviderOperationConflict, Source::Provider, Action::Retry),
        E::ProviderOperationIndeterminate => (Code::ProviderOperationIndeterminate, Source::Provider, Action::CleanupWorkspaceResources),
        E::ProvisionerWorkerTokenInvalid => (Code::ProvisionerWorkerTokenInvalid, Source::Native, Action::InspectWorkspaceProvisioning),
        E::ProvisionerWorkerUnavailable => (Code::ProvisionerWorkerUnavailable, Source::ProvisionerWorker, Action::Retry),
        E::SecureKeyringUnavailable
        | E::ProvisionerWorkerConflict
        | E::WorkspaceNotFound
        | E::InvalidWorkspaceLifecycle
        | E::WorkspaceCatalogUnavailable
        | E::WorkspaceCatalogStorageUnavailable
        | E::WorkspaceCatalogMigrationFailed
        | E::WorkspaceCatalogQueryFailed
        | E::WorkspaceCatalogCorrupt
        | E::WorkspaceCatalogSchemaMismatch => return None,
        _ => return worker_failure(phase, error),
    };
    Some(WorkspaceProvisioningFailure { code, phase, source, recovery_action })
}

/// The failure of a tracked provider resource that no longer exists.
pub fn missing_provider_resource(phase: WorkspaceProvisioningPhase) -> (r: WorkspaceProvisioningFailure)
    ensures
        r == failure_of(Code::ProviderResourceMissing, phase, Source::ProviderResource, Action::CleanupWorkspaceResources),
{
    WorkspaceProvisioningFailure {
        code: Code::ProviderResourceMissing,
        phase,
        source: Source::ProviderResource,
        recovery_action: Action::CleanupWorkspaceResources,
    }
}

/// The failure of provider resources found that the workspace does not track.
pub fn orphaned_provider_resources(phase: WorkspaceProvisioningPhase) -> (r: WorkspaceProvisioningFailure)
    ensures
        r == failure_of(Code::ProviderOrphanedResources, phase, Source::ProviderResource, Action::CleanupWorkspaceResources),
{
    WorkspaceProvisioningFailure {
        code: Code::ProviderOrphanedResources,
        phase,
        source: Source::ProviderResource,
        recovery_action: Action::CleanupWorkspaceResources,
    }
}

/// The failure code of a provisioning error that the provisioner worker is to blame for.
pub open spec fn worker_failure_code(error: E) -> Option<Code> {
    match error {
        E::ProvisionerWorkerUnauthorized => Some(Code::ProvisionerWorkerUnauthorized),
        E::ProvisionerWorkerResponseInvalid => Some(Code::ProvisionerWorkerResponseInvalid),
        E::ProvisionerWorkerFailed => Some(Code::ProvisionerWorkerFailed),
        E::ProvisionerWorkerGitCheckoutFailed => Some(Code::ProvisionerWorkerGitCheckoutFailed),
        E::ProvisionerWorkerDependencyInstallFailed => Some(Code::ProvisionerWorkerDependencyInstallFailed),
        E::ProvisionerWorkerAssetDownloadFailed => Some(Code::ProvisionerWorkerAssetDownloadFailed),
        E::ProvisionerWorkerAssetAuthRequired => Some(Code::ProvisionerWorkerAssetAuthRequired),
        E::ProvisionerWorkerPathValidationFailed => Some(Code::ProvisionerWorkerPathValidationFailed),
        E::ProvisionerWorkerStepTimeout => Some(Code::ProvisionerWorkerStepTimeout),
        E::ProvisionerWorkerUnexpectedError => Some(Code::ProvisionerWorkerUnexpectedError),
        _ => None,
    }
}

/// The failure recorded for a provisioning error that the worker is to blame for.
pub open spec fn spec_worker_failure(phase: WorkspaceProvisioningPhase, error: E) -> Option<WorkspaceProvisioningFailure> {
    match worker_failure_code(error) {
        Some(code) => Some(failure_of(code, phase, Source::ProvisionerWorker, Action::InspectWorkspaceProvisioning)),
        None => None,
    }
}

/// Records a provisioning error as a worker failure, where the worker is to blame for it.
pub fn worker_failure(phase: WorkspaceProvisioningPhase, error: &E) -> (r: Option<WorkspaceProvisioningFailure>)
    ensures
        r == spec_worker_failure(phase, *error),
{
    let code = match error {
        E::ProvisionerWorkerUnauthorized => Code::ProvisionerWorkerUnauthorized,
        E::ProvisionerWorkerResponseInvalid => Code::ProvisionerWorkerResponseInvalid,
        E::ProvisionerWorkerFailed => Code::ProvisionerWorkerFailed,
        E::ProvisionerWorkerGitCheckoutFailed => Code::ProvisionerWorkerGitCheckoutFailed,
        E::ProvisionerWorkerDependencyInstallFailed => Code::ProvisionerWorkerDependencyInstallFailed,
        E::ProvisionerWorkerAssetDownloadFailed => Code::ProvisionerWorkerAssetDownloadFailed,
        E::ProvisionerWorkerAssetAuthRequired => Code::ProvisionerWorkerAssetAuthRequired,
        E::ProvisionerWorkerPathValidationFailed => Code::ProvisionerWorkerPathValidationFailed,
        E::ProvisionerWorkerStepTimeout => Code::ProvisionerWorkerStepTimeout,
        E::ProvisionerWorkerUnexpectedError => Code::ProvisionerWorkerUnexpectedError,
        _ => return None,
    };
    Some(WorkspaceProvisioningFailure {
        code,
        phase,
        source: Source::ProvisionerWorker,
        recovery_action: Action::InspectWorkspaceProvisioning,
    })
}

/// The failure code of a provisioner worker error that the worker is to blame for.
pub open spec fn provisioner_worker_failure_code(error: ProvisionerWorkerError) -> Option<Code> {
    match error {
        ProvisionerWorkerError::Unauthorized => Some(Code::ProvisionerWorkerUnauthorized),
        ProvisionerWorkerError::InvalidPayload => Some(Code::ProvisionerWorkerResponseInvalid),
        ProvisionerWorkerError::Failed => Some(Code::ProvisionerWorkerFailed),
        ProvisionerWorkerError::AssetDownloadFailed => Some(Code::ProvisionerWorkerAssetDownloadFailed),
        ProvisionerWorkerError::AssetAuthRequired => Some(Code::ProvisionerWorkerAssetAuthRequired),
        ProvisionerWorkerError::PathValidationFailed => Some(Code::ProvisionerWorkerPathValidationFailed),
        ProvisionerWorkerError::StepTimeout => Some(Code::ProvisionerWorkerStepTimeout),
        ProvisionerWorkerError::UnexpectedError => Some(Code::ProvisionerWorkerUnexpectedError),
        ProvisionerWorkerError::Conflict | ProvisionerWorkerError::Unreachable => None,
    }
}

/// The failure recorded for a provisioner worker error, where the worker is to blame for it.
pub open spec fn spec_provisioner_worker_failure(phase: WorkspaceProvisioningPhase, error: ProvisionerWorkerError) -> Option<WorkspaceProvisioningFailure> {
    match provisioner_worker_failure_code(error) {
        Some(code) => Some(failure_of(code, phase, Source::ProvisionerWorker, Action::InspectWorkspaceProvisioning)),
        None => None,
    }
}

/// Records a provisioner worker error as a failure, keeping the worker's own failure code;
/// a conflict or an unreachable worker is no failure of the workspace.
pub fn provisioner_worker_failure(phase: WorkspaceProvisioningPhase, error: &ProvisionerWorkerError) -> (r: Option<WorkspaceProvisioningFailure>)
    ensures
        r == spec_provisioner_worker_failure(phase, *error),
{
    let code = match error {
        ProvisionerWorkerError::Unauthorized => Code::ProvisionerWorkerUnauthorized,
        ProvisionerWorkerError::InvalidPayload => Code::ProvisionerWorkerResponseInvalid,
        ProvisionerWorkerError::Failed => Code::ProvisionerWorkerFailed,
        ProvisionerWorkerError::AssetDownloadFailed => Code::ProvisionerWorkerAssetDownloadFailed,
        ProvisionerWorkerError::AssetAuthRequired => Code::ProvisionerWorkerAssetAuthRequired,
        ProvisionerWorkerError::PathValidationFailed => Code::ProvisionerWorkerPathValidationFailed,
        ProvisionerWorkerError::StepTimeout => Code::ProvisionerWorkerStepTimeout,
        ProvisionerWorkerError::UnexpectedError => Code::ProvisionerWorkerUnexpectedError,
        ProvisionerWorkerError::Conflict | ProvisionerWorkerError::Unreachable => return None,
    };
    Some(WorkspaceProvisioningFailure {
        code,
        phase,
        source: Source::ProvisionerWorker,
        recovery_action: Action::InspectWorkspaceProvisioning,
    })
}

/// The failure of a workspace whose worker token is missing.
pub fn worker_token_missing(phase: WorkspaceProvisioningPhase) -> (r: WorkspaceProvisioningFailure)
    ensures
        r == failure_of(Code::ProvisionerWorkerTokenMissing, phase, Source::Native, Action::InspectWorkspaceProvisioning),
{
    WorkspaceProvisioningFailure {
        code: Code::ProvisionerWorkerTokenMissing,
        phase,
        source: Source::Native,
        recovery_action: Action::InspectWorkspaceProvisioning,
    }
}

/// The failure of a workspace whose stored worker token is invalid.
pub fn worker_token_invalid(phase: WorkspaceProvisioningPhase) -> (r: WorkspaceProvisioningFailure)
    ensures
        r == failure_of(Code::ProvisionerWorkerTokenInvalid, phase, Source::Native, Action::InspectWorkspaceProvisioning),
{
    WorkspaceProvisioningFailure {
        code: Code::ProvisionerWorkerTokenInvalid,
        phase,
        source: Source::Native,
        recovery_action: Action::InspectWorkspaceProvisioning,
    }
}

/// The failure of a workspace that could not be shown ready.
pub fn readiness_validation_failed(phase: WorkspaceProvisioningPhase) -> (r: WorkspaceProvisioningFailure)
    ensures
        r == failure_of(Code::ReadinessValidationFailed, phase, Source::Native, Action::InspectWorkspaceProvisioning),
{
    WorkspaceProvisioningFailure {
        code: Code::ReadinessValidationFailed,
        phase,
        source: Source::Native,
        recovery_action: Action::InspectWorkspaceProvisioning,
    }
}

/// The failure of a cancellation whose resource cleanup failed.
pub fn cancellation_cleanup_failed() -> (r: WorkspaceProvisioningFailure)
    ensures
        r == failure_of(Code::CancellationCleanupFailed, WorkspaceProvisioningPhase::CleaningUp, Source::Native, Action::CleanupWorkspaceResources),
{
    WorkspaceProvisioningFailure {
        code: Code::CancellationCleanupFailed,
        phase: WorkspaceProvisioningPhase::CleaningUp,
        source: Source::Native,
        recovery_action: Action::CleanupWorkspaceResources,
    }
}


/// Each provisioning error that a workspace records keeps its own failure code, in the phase
/// the sync was in: a provider setup or key problem is recovered by redoing the provider setup,
/// an outage, rate limit or conflict by retrying, a rejected request by choosing another
/// placement, a missing or indeterminate resource by cleaning up the workspace's resources, and
/// a failure of the worker's own by inspecting the provisioning. Catalog and lifecycle errors,
/// an unavailable keyring and a worker conflict are not recorded.
pub proof fn recorded_errors_keep_their_own_codes(phase: WorkspaceProvisioningPhase)
    ensures
        spec_provisioning_error(phase, E::ProviderSetupIncomplete) == Some(failure_of(Code::ProviderSetupIncomplete, phase, Source::Native, Action::RecoverProviderSetup)),
        spec_provisioning_error(phase, E::ProviderApiKeyUnauthorized) == Some(failure_of(Code::ProviderApiKeyUnauthorized, phase, Source::Provider, Action::RecoverProviderSetup)),
        spec_provisioning_error(phase, E::ProviderApiUnavailable) == Some(failure_of(Code::ProviderApiUnavailable, phase, Source::Provider, Action::Retry)),
        spec_provisioning_error(phase, E::ProviderRateLimited) == Some(failure_of(Code::ProviderRateLimited, phase, Source::Provider, Action::Retry)),
        spec_provisioning_error(phase, E::ProviderRequestRejected) == Some(failure_of(Code::ProviderRequestRejected, phase, Source::Provider, Action::ReselectPlacement)),
        spec_provisioning_error(phase, E::ProviderResponseInvalid) == Some(failure_of(Code::ProviderResponseInvalid, phase, Source::Provider, Action::InspectWorkspaceProvisioning)),
        spec_provisioning_error(phase, E::ProviderResourceNotFound) == Some(failure_of(Code::ProviderResourceMissing, phase, Source::ProviderResource, Action::CleanupWorkspaceResources)),
        spec_provisioning_error(phase, E::ProviderOperationConflict) == Some(failure_of(Code::ProviderOperationConflict, phase, Source::Provider, Action::Retry)),
        spec_provisioning_error(phase, E::ProviderOperationIndeterminate) == Some(failure_of(Code::ProviderOperationIndeterminate, phase, Source::Provider, Action::CleanupWorkspaceResources)),
        spec_provisioning_error(phase, E::ProvisionerWorkerTokenInvalid) == Some(failure_of(Code::ProvisionerWorkerTokenInvalid, phase, Source::Native, Action::InspectWorkspaceProvisioning)),
        spec_provisioning_error(phase, E::ProvisionerWorkerUnavailable) == Some(failure_of(Code::ProvisionerWorkerUnavailable, phase, Source::ProvisionerWorker, Action::Retry)),
        spec_provisioning_error(phase, E::ProvisionerWorkerUnauthorized) == Some(failure_of(Code::ProvisionerWorkerUnauthorized, phase, Source::ProvisionerWorker, Action::InspectWorkspaceProvisioning)),
        spec_provisioning_error(phase, E::ProvisionerWorkerResponseInvalid) == Some(failure_of(Code::ProvisionerWorkerResponseInvalid, phase, Source::ProvisionerWorker, Action::InspectWorkspaceProvisioning)),
        spec_provisioning_error(phase, E::ProvisionerWorkerFailed) == Some(failure_of(Code::ProvisionerWorkerFailed, phase, Source::ProvisionerWorker, Action::InspectWorkspaceProvisioning)),
        spec_provisioning_error(phase, E::ProvisionerWorkerGitCheckoutFailed) == Some(failure_of(Code::ProvisionerWorkerGitCheckoutFailed, phase, Source::ProvisionerWorker, Action::InspectWorkspaceProvisioning)),
        spec_provisioning_error(phase, E::ProvisionerWorkerDependencyInstallFailed) == Some(failure_of(Code::ProvisionerWorkerDependencyInstallFailed, phase, Source::ProvisionerWorker, Action::InspectWorkspaceProvisioning)),
        spec_provisioning_error(phase, E::ProvisionerWorkerAssetDownloadFailed) == Some(failure_of(Code::ProvisionerWorkerAssetDownloadFailed, phase, Source::ProvisionerWorker, Action::InspectWorkspaceProvisioning)),
        spec_provisioning_error(phase, E::ProvisionerWorkerAssetAuthRequired) == Some(failure_of(Code::ProvisionerWorkerAssetAuthRequired, phase, Source::ProvisionerWorker, Action::InspectWorkspaceProvisioning)),
        spec_provisioning_error(phase, E::ProvisionerWorkerPathValidationFailed) == Some(failure_of(Code::ProvisionerWorkerPathValidationFailed, phase, Source::ProvisionerWorker, Action::InspectWorkspaceProvisioning)),
        spec_provisioning_error(phase, E::ProvisionerWorkerStepTimeout) == Some(failure_of(Code::ProvisionerWorkerStepTimeout, phase, Source::ProvisionerWorker, Action::InspectWorkspaceProvisioning)),
        spec_provisioning_error(phase, E::ProvisionerWorkerUnexpectedError) == Some(failure_of(Code::ProvisionerWorkerUnexpectedError, phase, Source::ProvisionerWorker, Action::InspectWorkspaceProvisioning)),
        spec_provisioning_error(phase, E::WorkspaceNotFound) is None,
        spec_provisioning_error(phase, E::InvalidWorkspaceLifecycle) is None,
        spec_provisioning_error(phase, E::WorkspaceCatalogUnavailable) is None,
        spec_provisioning_error(phase, E::WorkspaceCatalogStorageUnavailable) is None,
        spec_provisioning_error(phase, E::WorkspaceCatalogMigrationFailed) is None,
        spec_provisioning_error(phase, E::WorkspaceCatalogQueryFailed) is None,
        spec_provisioning_error(phase, E::WorkspaceCatalogCorrupt) is None,
        spec_provisioning_error(phase, E::WorkspaceCatalogSchemaMismatch) is None,
        spec_provisioning_error(phase, E::SecureKeyringUnavailable) is None,
        spec_provisioning_error(phase, E::ProvisionerWorkerConflict) is None,
{
}

/// A recorded error is recorded in the phase the sync was in, and always with a recovery.
pub proof fn recorded_error_is_in_the_sync_phase(phase: WorkspaceProvisioningPhase, error: E)
    ensures
        spec_provisioning_error(phase, error) matches Some(f) ==> f.phase == phase,
        spec_provisioning_error(phase, error) is Some <==> spec_provisioning_error(WorkspaceProvisioningPhase::Failed, error) is Some,
{
}

/// Each terminal failure that the worker names is recorded under the failure code of the same
/// name, with the worker as its source, to be inspected; an invalid payload is the worker's
/// invalid response; a conflict or an unreachable worker is no failure of the workspace.
pub proof fn worker_failures_keep_their_own_codes(phase: WorkspaceProvisioningPhase)
    ensures
        spec_provisioner_worker_failure(phase, ProvisionerWorkerError::Unauthorized) == Some(failure_of(Code::ProvisionerWorkerUnauthorized, phase, Source::ProvisionerWorker, Action::InspectWorkspaceProvisioning)),
        spec_provisioner_worker_failure(phase, ProvisionerWorkerError::InvalidPayload) == Some(failure_of(Code::ProvisionerWorkerResponseInvalid, phase, Source::ProvisionerWorker, Action::InspectWorkspaceProvisioning)),
        spec_provisioner_worker_failure(phase, ProvisionerWorkerError::Failed) == Some(failure_of(Code::ProvisionerWorkerFailed, phase, Source::ProvisionerWorker, Action::InspectWorkspaceProvisioning)),
        spec_provisioner_worker_failure(phase, ProvisionerWorkerError::AssetDownloadFailed) == Some(failure_of(Code::ProvisionerWorkerAssetDownloadFailed, phase, Source::ProvisionerWorker, Action::InspectWorkspaceProvisioning)),
        spec_provisioner_worker_failure(phase, ProvisionerWorkerError::AssetAuthRequired) == Some(failure_of(Code::ProvisionerWorkerAssetAuthRequired, phase, Source::ProvisionerWorker, Action::InspectWorkspaceProvisioning)),
        spec_provisioner_worker_failure(phase, ProvisionerWorkerError::PathValidationFailed) == Some(failure_of(Code::ProvisionerWorkerPathValidationFailed, phase, Source::ProvisionerWorker, Action::InspectWorkspaceProvisioning)),
        spec_provisioner_worker_failure(phase, ProvisionerWorkerError::StepTimeout) == Some(failure_of(Code::ProvisionerWorkerStepTimeout, phase, Source::ProvisionerWorker, Action::InspectWorkspaceProvisioning)),
        spec_provisioner_worker_failure(phase, ProvisionerWorkerError::UnexpectedError) == Some(failure_of(Code::ProvisionerWorkerUnexpectedError, phase, Source::ProvisionerWorker, Action::InspectWorkspaceProvisioning)),
        spec_provisioner_worker_failure(phase, ProvisionerWorkerError::Conflict) is None,
        spec_provisioner_worker_failure(phase, ProvisionerWorkerError::Unreachable) is None,
{
}

/// A provider resource that failed, was terminated or is in an unknown state fails the
/// workspace under that very code; a resource in any other state failed the readiness
/// validation; either way the resource is to blame and the workspace's resources are to be
/// cleaned up.
pub proof fn resource_failures_are_named_by_status(status: ProviderResourceStatus)
    ensures
        status == ProviderResourceStatus::Failed <==> resource_failure_code(status) == Code::ProviderResourceFailed,
        status == ProviderResourceStatus::Terminated <==> resource_failure_code(status) == Code::ProviderResourceTerminated,
        status == ProviderResourceStatus::Unknown <==> resource_failure_code(status) == Code::ProviderResourceUnknown,
        (status == ProviderResourceStatus::Creating || status == ProviderResourceStatus::Running
            || status == ProviderResourceStatus::Ready)
            <==> resource_failure_code(status) == Code::ReadinessValidationFailed,
{
}

} // verus!
