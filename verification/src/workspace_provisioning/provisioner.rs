//! Preparing the environment of a workspace through its provisioner worker.
//!
//! Each function here decides one step: given the workspace and what the last outside call
//! answered, it says which call to make next or how the environment sync ends. The caller makes
//! the calls (reading the worker token, asking the worker, reading the clock, writing the
//! catalog) and hands their answers back.
use vstd::prelude::*;
use crate::domain::{ProviderResourceStatus, Workspace, WorkspaceProvisioningFailure, WorkspaceProvisioningPhase};
use crate::setup_error::WorkspaceSetupError;
use super::contracts::{ProvisionerWorkerBearerToken, WorkspaceProvisioningResult};
use super::errors::{catalog_error, error_from_secret_store, error_from_worker, spec_catalog_error, SecretStoreError, WorkspaceProvisioningError};
use super::failure::{
    fail_workspace, failed_workspace, failure_of, provisioner_worker_failure, spec_provisioner_worker_failure,
    worker_token_invalid, worker_token_missing,
};
use super::gateway::{
    worker_asset_matches, ProvisionerWorkerError, ProvisionerWorkerJobStatus, ProvisionerWorkerStartRequest,
    ProvisionerWorkerStatus,
};
use super::progress::{
    progress_from_worker_status, result, result_with_progress, spec_progress_for_workspace,
    spec_progress_from_worker_status, spec_worker_readiness_progress, worker_readiness_progress,
};

verus! {

/// How the environment sync ended when it changed or reported on the workspace.
#[derive(Clone, Debug)]
pub enum WorkspaceProvisionerSyncOutcome {
    /// The workspace was changed and written to the catalog.
    WorkspaceUpdated(Workspace),
    /// The worker cannot be reached yet.
    WorkerReadinessLag { workspace: Workspace },
    /// The worker reported its status.
    WorkerStatus { workspace: Workspace, status: ProvisionerWorkerStatus },
}

/// The next step of an environment sync.
#[derive(Clone, Debug)]
pub enum EnvironmentSyncStep {
    /// The sync is over; `None` means there was nothing to do.
    Finished(Option<WorkspaceProvisionerSyncOutcome>),
    /// Read the worker token stored for the workspace.
    ReadWorkerToken { workspace: Workspace },
    /// Ask the worker at the URL for its status.
    QueryWorkerStatus { workspace: Workspace, provisioner_status_url: String, token: ProvisionerWorkerBearerToken },
    /// Ask the worker at the URL to start the job.
    StartWorker {
        workspace: Workspace,
        provisioner_status_url: String,
        token: ProvisionerWorkerBearerToken,
        request: ProvisionerWorkerStartRequest,
    },
    /// Read the clock, to record when the environment was prepared.
    RecordPreparedAt { workspace: Workspace },
    /// Write the workspace to the catalog.
    Persist { workspace: Workspace },
    /// The sync fails with the error.
    Failed(WorkspaceProvisioningError),
}

/// A workspace whose environment is to be prepared now: it is not prepared yet, and its
/// provisioning pod is running.
pub open spec fn needs_environment_sync(workspace: Workspace) -> bool {
    &&& workspace.environment_prepared_at is None
    &&& workspace.active_provisioning_pod_snapshot matches Some(pod)
        && pod.provider_resource_status == ProviderResourceStatus::Running
}

/// Whether the workspace's environment is to be prepared now.
pub fn environment_sync_needed(workspace: &Workspace) -> (r: bool)
    ensures
        r == needs_environment_sync(*workspace),
{
    if workspace.environment_prepared_at.is_some() {
        return false;
    }
    match &workspace.active_provisioning_pod_snapshot {
        Some(pod) => pod.provider_resource_status == ProviderResourceStatus::Running,
        None => false,
    }
}

/// The worker status URL of the workspace's provisioning pod.
pub open spec fn status_url(workspace: Workspace) -> Seq<char> {
    workspace.active_provisioning_pod_snapshot->Some_0.provisioner_status_url@
}

/// The first step of an environment sync: there is nothing to do unless the environment is to
/// be prepared now, in which case the worker token is read.
pub fn begin_environment_sync(workspace: Workspace) -> (r: EnvironmentSyncStep)
    ensures
        needs_environment_sync(workspace) ==> r == (EnvironmentSyncStep::ReadWorkerToken { workspace }),
        !needs_environment_sync(workspace) ==> r == EnvironmentSyncStep::Finished(None),
{
    if !environment_sync_needed(&workspace) {
        return EnvironmentSyncStep::Finished(None);
    }
    EnvironmentSyncStep::ReadWorkerToken { workspace }
}

fn pod_status_url(workspace: &Workspace) -> (r: String)
    requires
        workspace.active_provisioning_pod_snapshot is Some,
    ensures
        r@ == status_url(*workspace),
{
    match &workspace.active_provisioning_pod_snapshot {
        Some(pod) => pod.provisioner_status_url.clone(),
        None => String::new(),
    }
}

/// The step after the worker token was read: with a token the worker is asked for its status;
/// a missing or invalid token fails the workspace in environment preparation, and the failed
/// workspace is written; any other secret store failure fails the sync.
pub fn environment_sync_after_token(workspace: Workspace, token: Result<Option<ProvisionerWorkerBearerToken>, SecretStoreError>) -> (r: EnvironmentSyncStep)
    requires
        needs_environment_sync(workspace),
    ensures
        match token {
            Ok(Some(t)) => r matches EnvironmentSyncStep::QueryWorkerStatus { workspace: w, provisioner_status_url: url, token: t2 }
                && w == workspace && url@ == status_url(workspace) && t2 == t,
            Ok(None) => r == (EnvironmentSyncStep::Persist { workspace: failed_workspace(workspace,
                failure_of(crate::domain::WorkspaceProvisioningFailureCode::ProvisionerWorkerTokenMissing,
                    WorkspaceProvisioningPhase::PreparingEnvironment,
                    crate::domain::WorkspaceProvisioningFailureSource::Native,
                    crate::domain::WorkspaceProvisioningRecoveryAction::InspectWorkspaceProvisioning)) }),
            Err(SecretStoreError::InvalidStoredProvisionerWorkerToken) => r == (EnvironmentSyncStep::Persist { workspace: failed_workspace(workspace,
                failure_of(crate::domain::WorkspaceProvisioningFailureCode::ProvisionerWorkerTokenInvalid,
                    WorkspaceProvisioningPhase::PreparingEnvironment,
                    crate::domain::WorkspaceProvisioningFailureSource::Native,
                    crate::domain::WorkspaceProvisioningRecoveryAction::InspectWorkspaceProvisioning)) }),
            Err(e) => r == EnvironmentSyncStep::Failed(error_from_secret_store(e)),
        },
{
    let mut workspace = workspace;
    match token {
        Ok(Some(token)) => {
            let provisioner_status_url = pod_status_url(&workspace);
            EnvironmentSyncStep::QueryWorkerStatus { workspace, provisioner_status_url, token }
        },
        Ok(None) => {
            fail_workspace(&mut workspace, worker_token_missing(WorkspaceProvisioningPhase::PreparingEnvironment));
            EnvironmentSyncStep::Persist { workspace }
        },
        Err(SecretStoreError::InvalidStoredProvisionerWorkerToken) => {
            fail_workspace(&mut workspace, worker_token_invalid(WorkspaceProvisioningPhase::PreparingEnvironment));
            EnvironmentSyncStep::Persist { workspace }
        },
        Err(error) => EnvironmentSyncStep::Failed(WorkspaceProvisioningError::from(error)),
    }
}

/// The step after the worker failed to answer usefully: an unreachable worker is a readiness
/// lag; a failure the worker is to blame for fails the workspace in environment preparation,
/// and the failed workspace is written; anything else fails the sync.
pub open spec fn spec_worker_error_step(workspace: Workspace, error: ProvisionerWorkerError) -> EnvironmentSyncStep {
    if error == ProvisionerWorkerError::Unreachable {
        EnvironmentSyncStep::Finished(Some(WorkspaceProvisionerSyncOutcome::WorkerReadinessLag { workspace }))
    } else {
        match spec_provisioner_worker_failure(WorkspaceProvisioningPhase::PreparingEnvironment, error) {
            Some(failure) => EnvironmentSyncStep::Persist { workspace: failed_workspace(workspace, failure) },
            None => EnvironmentSyncStep::Failed(error_from_worker(error)),
        }
    }
}

/// Decides the step after a worker error.
pub fn handle_worker_error(workspace: Workspace, error: ProvisionerWorkerError) -> (r: EnvironmentSyncStep)
    ensures
        r == spec_worker_error_step(workspace, error),
{
    if error == ProvisionerWorkerError::Unreachable {
        return EnvironmentSyncStep::Finished(Some(WorkspaceProvisionerSyncOutcome::WorkerReadinessLag { workspace }));
    }
    let mut workspace = workspace;
    match provisioner_worker_failure(WorkspaceProvisioningPhase::PreparingEnvironment, &error) {
        Some(failure) => {
            fail_workspace(&mut workspace, failure);
            EnvironmentSyncStep::Persist { workspace }
        },
        None => EnvironmentSyncStep::Failed(WorkspaceProvisioningError::from(error)),
    }
}

/// The request that starts the workspace's job: the job is the workspace and installs the
/// model assets of its workflow preset.
pub open spec fn start_request_for(request: ProvisionerWorkerStartRequest, workspace: Workspace) -> bool {
    let assets = workspace.placement_plan->Runpod_selected_workflow_preset.required_model_assets@;
    &&& request.job_id == workspace.id
    &&& request.workflow_preset.required_model_assets@.len() == assets.len()
    &&& forall|i: int| 0 <= i < assets.len() ==> worker_asset_matches(
        #[trigger] request.workflow_preset.required_model_assets@[i], assets[i])
}

/// The step after the worker reported its status: an idle worker is asked to start the job; a
/// worker that succeeded has prepared the environment, and the time of that is recorded; any
/// other report ends the sync with it; an error is handled as a worker error.
pub fn environment_sync_after_status(workspace: Workspace, token: ProvisionerWorkerBearerToken, status: Result<ProvisionerWorkerStatus, ProvisionerWorkerError>) -> (r: EnvironmentSyncStep)
    requires
        needs_environment_sync(workspace),
    ensures
        match status {
            Ok(s) => if s.status == ProvisionerWorkerJobStatus::Idle {
                r matches EnvironmentSyncStep::StartWorker { workspace: w, provisioner_status_url: url, token: t, request }
                    && w == workspace && url@ == status_url(workspace) && t == token && start_request_for(request, workspace)
            } else if s.status == ProvisionerWorkerJobStatus::Succeeded {
                r == (EnvironmentSyncStep::RecordPreparedAt { workspace })
            } else {
                r == EnvironmentSyncStep::Finished(Some(WorkspaceProvisionerSyncOutcome::WorkerStatus { workspace, status: s }))
            },
            Err(e) => r == spec_worker_error_step(workspace, e),
        },
{
    match status {
        Ok(s) => {
            if s.status == ProvisionerWorkerJobStatus::Idle {
                let provisioner_status_url = pod_status_url(&workspace);
                let request = ProvisionerWorkerStartRequest::from_model_assets(
                    workspace.id.clone(),
                    workspace.placement_plan.selected_workflow_preset().required_model_assets.as_slice(),
                );
                EnvironmentSyncStep::StartWorker { workspace, provisioner_status_url, token, request }
            } else if s.status == ProvisionerWorkerJobStatus::Succeeded {
                EnvironmentSyncStep::RecordPreparedAt { workspace }
            } else {
                EnvironmentSyncStep::Finished(Some(WorkspaceProvisionerSyncOutcome::WorkerStatus { workspace, status: s }))
            }
        },
        Err(error) => handle_worker_error(workspace, error),
    }
}

/// The step after the worker was asked to start: its report ends the sync; an error is handled
/// as a worker error.
pub fn environment_sync_after_start(workspace: Workspace, started: Result<ProvisionerWorkerStatus, ProvisionerWorkerError>) -> (r: EnvironmentSyncStep)
    ensures
        match started {
            Ok(s) => r == EnvironmentSyncStep::Finished(Some(WorkspaceProvisionerSyncOutcome::WorkerStatus { workspace, status: s })),
            Err(e) => r == spec_worker_error_step(workspace, e),
        },
{
    match started {
        Ok(status) => EnvironmentSyncStep::Finished(Some(WorkspaceProvisionerSyncOutcome::WorkerStatus { workspace, status })),
        Err(error) => handle_worker_error(workspace, error),
    }
}

/// The step after the clock was read: the workspace records the time as the time its
/// environment was prepared and is written; a clock that cannot be formatted fails the sync.
pub fn environment_sync_after_clock(workspace: Workspace, now: Option<String>) -> (r: EnvironmentSyncStep)
    ensures
        match now {
            Some(t) => r == (EnvironmentSyncStep::Persist { workspace: Workspace { environment_prepared_at: Some(t), ..workspace } }),
            None => r == EnvironmentSyncStep::Failed(WorkspaceProvisioningError::ProviderResponseInvalid),
        },
{
    match now {
        Some(t) => {
            let mut workspace = workspace;
            workspace.environment_prepared_at = Some(t);
            EnvironmentSyncStep::Persist { workspace }
        },
        None => EnvironmentSyncStep::Failed(WorkspaceProvisioningError::ProviderResponseInvalid),
    }
}

/// The step after the workspace was written: the written workspace ends the sync as updated; a
/// catalog failure fails the sync with the provisioning error of its category.
pub fn environment_sync_after_persist(persisted: Result<Workspace, WorkspaceSetupError>) -> (r: EnvironmentSyncStep)
    ensures
        match persisted {
            Ok(w) => r == EnvironmentSyncStep::Finished(Some(WorkspaceProvisionerSyncOutcome::WorkspaceUpdated(w))),
            Err(e) => r == EnvironmentSyncStep::Failed(spec_catalog_error(e)),
        },
{
    match persisted {
        Ok(workspace) => EnvironmentSyncStep::Finished(Some(WorkspaceProvisionerSyncOutcome::WorkspaceUpdated(workspace))),
        Err(error) => EnvironmentSyncStep::Failed(catalog_error(error)),
    }
}

/// The result that an ended environment sync reports: an updated workspace with its own
/// progress, a readiness lag with the progress of starting the pod, a worker report with the
/// progress it stands for.
pub open spec fn spec_environment_sync_result(outcome: WorkspaceProvisionerSyncOutcome) -> WorkspaceProvisioningResult {
    match outcome {
        WorkspaceProvisionerSyncOutcome::WorkspaceUpdated(w) => WorkspaceProvisioningResult { workspace: w, progress: spec_progress_for_workspace(w) },
        WorkspaceProvisionerSyncOutcome::WorkerReadinessLag { workspace } => WorkspaceProvisioningResult { workspace, progress: spec_worker_readiness_progress() },
        WorkspaceProvisionerSyncOutcome::WorkerStatus { workspace, status } => WorkspaceProvisioningResult { workspace, progress: spec_progress_from_worker_status(status) },
    }
}

/// The result that an ended environment sync reports.
pub fn environment_sync_result(outcome: WorkspaceProvisionerSyncOutcome) -> (r: WorkspaceProvisioningResult)
    ensures
        r == spec_environment_sync_result(outcome),
{
    match outcome {
        WorkspaceProvisionerSyncOutcome::WorkspaceUpdated(workspace) => result(workspace),
        WorkspaceProvisionerSyncOutcome::WorkerReadinessLag { workspace } => result_with_progress(workspace, worker_readiness_progress()),
        WorkspaceProvisionerSyncOutcome::WorkerStatus { workspace, status } => {
            let progress = progress_from_worker_status(&status);
            result_with_progress(workspace, progress)
        },
    }
}

/// A worker error during the environment sync: a worker that cannot be reached yet is a
/// readiness lag that leaves the workspace as it is; a conflict fails the sync without touching
/// the workspace; every other error fails the workspace while preparing its environment, under
/// the failure code named like the worker's own failure, with the worker as its source.
pub proof fn worker_errors_fail_the_workspace_under_their_own_code(workspace: Workspace)
    ensures
        spec_worker_error_step(workspace, ProvisionerWorkerError::Unreachable)
            == EnvironmentSyncStep::Finished(Some(WorkspaceProvisionerSyncOutcome::WorkerReadinessLag { workspace })),
        spec_worker_error_step(workspace, ProvisionerWorkerError::Conflict)
            == EnvironmentSyncStep::Failed(WorkspaceProvisioningError::ProvisionerWorkerConflict),
        spec_worker_error_step(workspace, ProvisionerWorkerError::Unauthorized) == (EnvironmentSyncStep::Persist {
            workspace: failed_workspace(workspace, failure_of(crate::domain::WorkspaceProvisioningFailureCode::ProvisionerWorkerUnauthorized,
                WorkspaceProvisioningPhase::PreparingEnvironment, crate::domain::WorkspaceProvisioningFailureSource::ProvisionerWorker,
                crate::domain::WorkspaceProvisioningRecoveryAction::InspectWorkspaceProvisioning)),
        }),
        spec_worker_error_step(workspace, ProvisionerWorkerError::InvalidPayload) == (EnvironmentSyncStep::Persist {
            workspace: failed_workspace(workspace, failure_of(crate::domain::WorkspaceProvisioningFailureCode::ProvisionerWorkerResponseInvalid,
                WorkspaceProvisioningPhase::PreparingEnvironment, crate::domain::WorkspaceProvisioningFailureSource::ProvisionerWorker,
                crate::domain::WorkspaceProvisioningRecoveryAction::InspectWorkspaceProvisioning)),
        }),
        spec_worker_error_step(workspace, ProvisionerWorkerError::Failed) == (EnvironmentSyncStep::Persist {
            workspace: failed_workspace(workspace, failure_of(crate::domain::WorkspaceProvisioningFailureCode::ProvisionerWorkerFailed,
                WorkspaceProvisioningPhase::PreparingEnvironment, crate::domain::WorkspaceProvisioningFailureSource::ProvisionerWorker,
                crate::domain::WorkspaceProvisioningRecoveryAction::InspectWorkspaceProvisioning)),
        }),
        spec_worker_error_step(workspace, ProvisionerWorkerError::AssetDownloadFailed) == (EnvironmentSyncStep::Persist {
            workspace: failed_workspace(workspace, failure_of(crate::domain::WorkspaceProvisioningFailureCode::ProvisionerWorkerAssetDownloadFailed,
                WorkspaceProvisioningPhase::PreparingEnvironment, crate::domain::WorkspaceProvisioningFailureSource::ProvisionerWorker,
                crate::domain::WorkspaceProvisioningRecoveryAction::InspectWorkspaceProvisioning)),
        }),
        spec_worker_error_step(workspace, ProvisionerWorkerError::AssetAuthRequired) == (EnvironmentSyncStep::Persist {
            workspace: failed_workspace(workspace, failure_of(crate::domain::WorkspaceProvisioningFailureCode::ProvisionerWorkerAssetAuthRequired,
                WorkspaceProvisioningPhase::PreparingEnvironment, crate::domain::WorkspaceProvisioningFailureSource::ProvisionerWorker,
                crate::domain::WorkspaceProvisioningRecoveryAction::InspectWorkspaceProvisioning)),
        }),
        spec_worker_error_step(workspace, ProvisionerWorkerError::PathValidationFailed) == (EnvironmentSyncStep::Persist {
            workspace: failed_workspace(workspace, failure_of(crate::domain::WorkspaceProvisioningFailureCode::ProvisionerWorkerPathValidationFailed,
                WorkspaceProvisioningPhase::PreparingEnvironment, crate::domain::WorkspaceProvisioningFailureSource::ProvisionerWorker,
                crate::domain::WorkspaceProvisioningRecoveryAction::InspectWorkspaceProvisioning)),
        }),
        spec_worker_error_step(workspace, ProvisionerWorkerError::StepTimeout) == (EnvironmentSyncStep::Persist {
            workspace: failed_workspace(workspace, failure_of(crate::domain::WorkspaceProvisioningFailureCode::ProvisionerWorkerStepTimeout,
                WorkspaceProvisioningPhase::PreparingEnvironment, crate::domain::WorkspaceProvisioningFailureSource::ProvisionerWorker,
                crate::domain::WorkspaceProvisioningRecoveryAction::InspectWorkspaceProvisioning)),
        }),
        spec_worker_error_step(workspace, ProvisionerWorkerError::UnexpectedError) == (EnvironmentSyncStep::Persist {
            workspace: failed_workspace(workspace, failure_of(crate::domain::WorkspaceProvisioningFailureCode::ProvisionerWorkerUnexpectedError,
                WorkspaceProvisioningPhase::PreparingEnvironment, crate::domain::WorkspaceProvisioningFailureSource::ProvisionerWorker,
                crate::domain::WorkspaceProvisioningRecoveryAction::InspectWorkspaceProvisioning)),
        }),
{
}

} // verus!
