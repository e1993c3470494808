//! The provisioning progress shown for a workspace and for a provisioner worker report.
use vstd::prelude::*;
use crate::domain::{
    ProviderResourceStatus, Workspace, WorkspaceLifecycleState, WorkspaceProvisioningPhase as Phase,
    WorkspaceProvisioningFailure, WorkspaceProvisioningProgress, WorkspaceProvisioningStatus as Status,
};
use super::contracts::WorkspaceProvisioningResult;
use super::failure::{failed_workspace, failure_of, legacy_failure};
use super::snapshots::spec_is_workspace_ready_with_template;
use super::gateway::{ProvisionerWorkerJobStatus as Job, ProvisionerWorkerPhase as WorkerPhase, ProvisionerWorkerStatus};
use super::readiness::{has_ready_matching_endpoint_template, spec_has_ready_matching_endpoint_template};

verus! {

pub const PROGRESS_NOT_STARTED: u8 = 0;
pub const PROGRESS_CREATING_VOLUME: u8 = 0;
pub const PROGRESS_STARTING_PROVISIONING_POD: u8 = 10;
pub const PROGRESS_PREPARING_ENVIRONMENT_START: u8 = 40;
pub const PROGRESS_PREPARING_ENVIRONMENT_END: u8 = 90;
pub const PROGRESS_CREATING_ENDPOINT: u8 = 90;
pub const PROGRESS_VALIDATING_READINESS: u8 = 98;
pub const PROGRESS_COMPLETED: u8 = 100;

/// The phase a provisioning workspace is in, read from its snapshots: the volume comes first,
/// then the environment, then the endpoint and its template, then readiness validation.
pub open spec fn spec_progress_phase_for_provisioning_workspace(workspace: Workspace) -> Phase {
    if !(workspace.persistent_storage_volume_snapshot matches Some(volume)
        && volume.provider_resource_status == ProviderResourceStatus::Ready) {
        Phase::CreatingVolume
    } else if workspace.environment_prepared_at is None {
        Phase::StartingProvisioningPod
    } else if workspace.active_provisioning_pod_snapshot is Some
        || !spec_has_ready_matching_endpoint_template(workspace)
        || !(workspace.serverless_endpoint_snapshot matches Some(endpoint)
            && (endpoint.provider_resource_status == ProviderResourceStatus::Ready
                || endpoint.provider_resource_status == ProviderResourceStatus::Running)) {
        Phase::CreatingEndpoint
    } else {
        Phase::ValidatingReadiness
    }
}

/// The percent shown for a phase, where one is shown.
pub open spec fn spec_progress_percent_for_phase(phase: Phase) -> Option<u8> {
    match phase {
        Phase::NotStarted => Some(PROGRESS_NOT_STARTED),
        Phase::CreatingVolume => Some(PROGRESS_CREATING_VOLUME),
        Phase::StartingProvisioningPod => Some(PROGRESS_STARTING_PROVISIONING_POD),
        Phase::PreparingEnvironment => Some(PROGRESS_PREPARING_ENVIRONMENT_START),
        Phase::CreatingEndpointTemplate => Some(PROGRESS_CREATING_ENDPOINT),
        Phase::CreatingEndpoint => Some(PROGRESS_CREATING_ENDPOINT),
        Phase::ValidatingReadiness => Some(PROGRESS_VALIDATING_READINESS),
        Phase::Completed => Some(PROGRESS_COMPLETED),
        Phase::CleaningUp | Phase::Failed => None,
    }
}

/// The progress shown for a workspace.
pub open spec fn spec_progress_for_workspace(workspace: Workspace) -> WorkspaceProvisioningProgress {
    match workspace.lifecycle_state {
        WorkspaceLifecycleState::Draft => WorkspaceProvisioningProgress {
            status: Status::Idle,
            phase: Phase::NotStarted,
            percent: Some(PROGRESS_NOT_STARTED),
            failure: None,
        },
        WorkspaceLifecycleState::Provisioning => {
            let phase = spec_progress_phase_for_provisioning_workspace(workspace);
            WorkspaceProvisioningProgress {
                status: Status::Running,
                phase,
                percent: spec_progress_percent_for_phase(phase),
                failure: None,
            }
        },
        WorkspaceLifecycleState::Ready => WorkspaceProvisioningProgress {
            status: Status::Completed,
            phase: Phase::Completed,
            percent: Some(PROGRESS_COMPLETED),
            failure: None,
        },
        WorkspaceLifecycleState::Failed => WorkspaceProvisioningProgress {
            status: Status::Failed,
            phase: Phase::Failed,
            percent: None,
            failure: Some(match workspace.last_provisioning_failure {
                Some(failure) => failure,
                None => failure_of(
                    crate::domain::WorkspaceProvisioningFailureCode::LegacyFailure,
                    Phase::Failed,
                    crate::domain::WorkspaceProvisioningFailureSource::Native,
                    crate::domain::WorkspaceProvisioningRecoveryAction::InspectWorkspaceProvisioning,
                ),
            }),
        },
    }
}

/// A workspace with the progress computed from it.
pub fn result(workspace: Workspace) -> (r: WorkspaceProvisioningResult)
    ensures
        r.workspace == workspace,
        r.progress == spec_progress_for_workspace(workspace),
{
    let progress = progress_for_workspace(&workspace);
    WorkspaceProvisioningResult { workspace, progress }
}

/// A workspace with the given progress.
pub fn result_with_progress(workspace: Workspace, progress: WorkspaceProvisioningProgress) -> (r: WorkspaceProvisioningResult)
    ensures
        r.workspace == workspace,
        r.progress == progress,
{
    WorkspaceProvisioningResult { workspace, progress }
}

/// The progress shown for a workspace.
pub fn progress_for_workspace(workspace: &Workspace) -> (r: WorkspaceProvisioningProgress)
    ensures
        r == spec_progress_for_workspace(*workspace),
{
    match workspace.lifecycle_state {
        WorkspaceLifecycleState::Draft => WorkspaceProvisioningProgress {
            status: Status::Idle,
            phase: Phase::NotStarted,
            percent: Some(PROGRESS_NOT_STARTED),
            failure: None,
        },
        WorkspaceLifecycleState::Provisioning => {
            let phase = progress_phase_for_provisioning_workspace(workspace);
            WorkspaceProvisioningProgress {
                status: Status::Running,
                percent: progress_percent_for_phase(&phase),
                phase,
                failure: None,
            }
        },
        WorkspaceLifecycleState::Ready => WorkspaceProvisioningProgress {
            status: Status::Completed,
            phase: Phase::Completed,
            percent: Some(PROGRESS_COMPLETED),
            failure: None,
        },
        WorkspaceLifecycleState::Failed => WorkspaceProvisioningProgress {
            status: Status::Failed,
            phase: Phase::Failed,
            percent: None,
            failure: Some(match workspace.last_provisioning_failure {
                Some(failure) => failure,
                None => legacy_failure(),
            }),
        },
    }
}

/// The phase a provisioning workspace is in.
pub fn progress_phase_for_provisioning_workspace(workspace: &Workspace) -> (r: Phase)
    ensures
        r == spec_progress_phase_for_provisioning_workspace(*workspace),
{
    let volume_ready = match &workspace.persistent_storage_volume_snapshot {
        Some(volume) => volume.provider_resource_status == ProviderResourceStatus::Ready,
        None => false,
    };
    if !volume_ready {
        return Phase::CreatingVolume;
    }
    if workspace.environment_prepared_at.is_none() {
        return Phase::StartingProvisioningPod;
    }
    let endpoint_up = match &workspace.serverless_endpoint_snapshot {
        Some(endpoint) => endpoint.provider_resource_status == ProviderResourceStatus::Ready
            || endpoint.provider_resource_status == ProviderResourceStatus::Running,
        None => false,
    };
    if workspace.active_provisioning_pod_snapshot.is_some()
        || !has_ready_matching_endpoint_template(workspace) || !endpoint_up {
        Phase::CreatingEndpoint
    } else {
        Phase::ValidatingReadiness
    }
}

/// The percent shown for a phase.
pub fn progress_percent_for_phase(phase: &Phase) -> (r: Option<u8>)
    ensures
        r == spec_progress_percent_for_phase(*phase),
{
    match phase {
        Phase::NotStarted => Some(PROGRESS_NOT_STARTED),
        Phase::CreatingVolume => Some(PROGRESS_CREATING_VOLUME),
        Phase::StartingProvisioningPod => Some(PROGRESS_STARTING_PROVISIONING_POD),
        Phase::PreparingEnvironment => Some(PROGRESS_PREPARING_ENVIRONMENT_START),
        Phase::CreatingEndpointTemplate => Some(PROGRESS_CREATING_ENDPOINT),
        Phase::CreatingEndpoint => Some(PROGRESS_CREATING_ENDPOINT),
        Phase::ValidatingReadiness => Some(PROGRESS_VALIDATING_READINESS),
        Phase::Completed => Some(PROGRESS_COMPLETED),
        Phase::CleaningUp | Phase::Failed => None,
    }
}

/// The overall percent for a worker's preparation percent: the worker's range is scaled
/// linearly onto the span of the environment preparation phase, rounding down; a worker that
/// reports no percent counts as at its start.
pub open spec fn spec_scale_preparing_environment_progress(worker_percent: Option<u8>) -> int {
    let p: int = match worker_percent {
        Some(p) => p as int,
        None => 0,
    };
    PROGRESS_PREPARING_ENVIRONMENT_START + p * (PROGRESS_PREPARING_ENVIRONMENT_END - PROGRESS_PREPARING_ENVIRONMENT_START) / 100
}

/// Scales a worker's preparation percent onto the environment preparation phase.
pub fn scale_preparing_environment_progress(worker_percent: Option<u8>) -> (r: u8)
    ensures
        r == spec_scale_preparing_environment_progress(worker_percent),
{
    let p: u16 = match worker_percent {
        Some(p) => p as u16,
        None => 0,
    };
    let range: u16 = (PROGRESS_PREPARING_ENVIRONMENT_END - PROGRESS_PREPARING_ENVIRONMENT_START) as u16;
    let scaled: u16 = PROGRESS_PREPARING_ENVIRONMENT_START as u16 + (p * range / 100);
    scaled as u8
}

/// The progress shown while the provisioner worker cannot be reached yet.
pub open spec fn spec_worker_readiness_progress() -> WorkspaceProvisioningProgress {
    WorkspaceProvisioningProgress {
        status: Status::Running,
        phase: Phase::StartingProvisioningPod,
        percent: Some(PROGRESS_STARTING_PROVISIONING_POD),
        failure: None,
    }
}

/// The progress shown while the provisioner worker cannot be reached yet.
pub fn worker_readiness_progress() -> (r: WorkspaceProvisioningProgress)
    ensures
        r == spec_worker_readiness_progress(),
{
    let phase = Phase::StartingProvisioningPod;
    WorkspaceProvisioningProgress {
        status: Status::Running,
        percent: progress_percent_for_phase(&phase),
        phase,
        failure: None,
    }
}

/// The workspace status that a worker job status stands for.
pub open spec fn spec_workspace_status_from_worker_status(status: ProvisionerWorkerStatus) -> Status {
    match status.status {
        Job::Idle | Job::Running | Job::Succeeded => Status::Running,
        Job::Cancelling | Job::Cancelled => Status::Cancelling,
        Job::Failed => Status::Failed,
    }
}

/// The workspace phase that a worker phase stands for.
pub open spec fn spec_workspace_phase_from_worker_status(status: ProvisionerWorkerStatus) -> Phase {
    match status.phase {
        WorkerPhase::Idle | WorkerPhase::Starting | WorkerPhase::ResolvingWorkflow => Phase::StartingProvisioningPod,
        WorkerPhase::PreparingWorkspace | WorkerPhase::DownloadingAssets | WorkerPhase::ValidatingAssets => Phase::PreparingEnvironment,
        WorkerPhase::Completed => Phase::CreatingEndpoint,
        WorkerPhase::Cancelled => Phase::CleaningUp,
        WorkerPhase::Failed => Phase::Failed,
    }
}

/// The percent shown for a worker report in a phase: during preparation the worker's own
/// percent is scaled onto the phase's span, otherwise the phase's percent is shown.
pub open spec fn spec_progress_percent_from_worker_status(status: ProvisionerWorkerStatus, phase: Phase) -> Option<u8> {
    if phase == Phase::PreparingEnvironment {
        Some(spec_scale_preparing_environment_progress(status.progress_percent) as u8)
    } else {
        spec_progress_percent_for_phase(phase)
    }
}

/// The progress shown for a worker report.
pub open spec fn spec_progress_from_worker_status(status: ProvisionerWorkerStatus) -> WorkspaceProvisioningProgress {
    let phase = spec_workspace_phase_from_worker_status(status);
    WorkspaceProvisioningProgress {
        status: spec_workspace_status_from_worker_status(status),
        phase,
        percent: spec_progress_percent_from_worker_status(status, phase),
        failure: None,
    }
}

/// The progress shown for a worker report.
pub fn progress_from_worker_status(status: &ProvisionerWorkerStatus) -> (r: WorkspaceProvisioningProgress)
    ensures
        r == spec_progress_from_worker_status(*status),
{
    let phase = workspace_phase_from_worker_status(status);
    WorkspaceProvisioningProgress {
        status: workspace_status_from_worker_status(status),
        percent: progress_percent_from_worker_status(status, &phase),
        phase,
        failure: None,
    }
}

/// The workspace status that a worker job status stands for.
pub fn workspace_status_from_worker_status(status: &ProvisionerWorkerStatus) -> (r: Status)
    ensures
        r == spec_workspace_status_from_worker_status(*status),
{
    match status.status {
        Job::Idle | Job::Running => Status::Running,
        Job::Cancelling | Job::Cancelled => Status::Cancelling,
        Job::Succeeded => Status::Running,
        Job::Failed => Status::Failed,
    }
}

/// The workspace phase that a worker phase stands for.
pub fn workspace_phase_from_worker_status(status: &ProvisionerWorkerStatus) -> (r: Phase)
    ensures
        r == spec_workspace_phase_from_worker_status(*status),
{
    match status.phase {
        WorkerPhase::Idle | WorkerPhase::Starting | WorkerPhase::ResolvingWorkflow => Phase::StartingProvisioningPod,
        WorkerPhase::PreparingWorkspace | WorkerPhase::DownloadingAssets | WorkerPhase::ValidatingAssets => Phase::PreparingEnvironment,
        WorkerPhase::Completed => Phase::CreatingEndpoint,
        WorkerPhase::Cancelled => Phase::CleaningUp,
        WorkerPhase::Failed => Phase::Failed,
    }
}

/// The percent shown for a worker report in a phase.
pub fn progress_percent_from_worker_status(status: &ProvisionerWorkerStatus, phase: &Phase) -> (r: Option<u8>)
    ensures
        r == spec_progress_percent_from_worker_status(*status, *phase),
{
    match phase {
        Phase::PreparingEnvironment => Some(scale_preparing_environment_progress(status.progress_percent)),
        _ => progress_percent_for_phase(phase),
    }
}

/// The preparation percent of a worker that reports at most 100 percent stays within the span
/// of the environment preparation phase, and a larger worker percent never gives a smaller one.
pub proof fn scaled_preparation_progress_stays_in_phase(a: u8, b: u8)
    requires
        a <= b <= 100,
    ensures
        PROGRESS_PREPARING_ENVIRONMENT_START <= spec_scale_preparing_environment_progress(Some(a)),
        spec_scale_preparing_environment_progress(Some(a)) <= spec_scale_preparing_environment_progress(Some(b)),
        spec_scale_preparing_environment_progress(Some(b)) <= PROGRESS_PREPARING_ENVIRONMENT_END,
{
    assert(a * 50 <= b * 50) by (nonlinear_arith) requires a <= b;
    assert((a * 50) / 100 <= (b * 50) / 100) by (nonlinear_arith) requires a * 50 <= b * 50;
}

/// The rank of a phase in the order in which provisioning runs.
pub open spec fn phase_rank(phase: Phase) -> int {
    match phase {
        Phase::NotStarted => 0,
        Phase::CreatingVolume => 1,
        Phase::StartingProvisioningPod => 2,
        Phase::PreparingEnvironment => 3,
        Phase::CreatingEndpointTemplate => 4,
        Phase::CreatingEndpoint => 5,
        Phase::ValidatingReadiness => 6,
        Phase::CleaningUp => 7,
        Phase::Completed => 8,
        Phase::Failed => 9,
    }
}

/// The percent shown never falls as provisioning moves to a later phase.
pub proof fn phase_percent_is_monotonic(earlier: Phase, later: Phase)
    requires
        phase_rank(earlier) <= phase_rank(later),
        spec_progress_percent_for_phase(earlier) is Some,
        spec_progress_percent_for_phase(later) is Some,
    ensures
        spec_progress_percent_for_phase(earlier)->0 <= spec_progress_percent_for_phase(later)->0,
{
}

/// A workspace on which a failure was recorded shows that failure, in the failed phase, with
/// no percent.
pub proof fn failed_workspace_reports_its_failure(workspace: Workspace, failure: WorkspaceProvisioningFailure)
    ensures
        spec_progress_for_workspace(failed_workspace(workspace, failure)) == (WorkspaceProvisioningProgress {
            status: Status::Failed,
            phase: Phase::Failed,
            percent: None,
            failure: Some(failure),
        }),
{
}

/// A provisioning workspace always shows a percent, and it stays below completion.
pub proof fn provisioning_progress_stays_below_completion(workspace: Workspace)
    requires
        workspace.lifecycle_state == WorkspaceLifecycleState::Provisioning,
    ensures
        spec_progress_for_workspace(workspace).percent matches Some(p) && p < PROGRESS_COMPLETED,
        spec_progress_for_workspace(workspace).status == Status::Running,
{
}

/// A provisioning workspace that is ready, counting its endpoint template, is shown validating
/// its readiness.
pub proof fn ready_workspace_is_validating_readiness(workspace: Workspace)
    requires
        workspace.lifecycle_state == WorkspaceLifecycleState::Provisioning,
        spec_is_workspace_ready_with_template(workspace),
    ensures
        spec_progress_for_workspace(workspace).phase == Phase::ValidatingReadiness,
        spec_progress_for_workspace(workspace).percent == Some(PROGRESS_VALIDATING_READINESS),
{
}

/// A worker report is shown with the status of its job: a failed job as failed, a cancelling
/// or cancelled job as cancelling, and an idle, running or succeeded job as running; a report
/// never carries a failure of its own.
pub proof fn worker_job_status_is_shown(status: ProvisionerWorkerStatus)
    ensures
        status.status == Job::Failed <==> spec_progress_from_worker_status(status).status == Status::Failed,
        (status.status == Job::Cancelling || status.status == Job::Cancelled)
            <==> spec_progress_from_worker_status(status).status == Status::Cancelling,
        (status.status == Job::Idle || status.status == Job::Running || status.status == Job::Succeeded)
            <==> spec_progress_from_worker_status(status).status == Status::Running,
        spec_progress_from_worker_status(status).failure is None,
{
}

/// A worker report is shown in the workspace phase its own phase belongs to: starting and
/// resolving the workflow are still the provisioning pod's start (at 10%); preparing the
/// workspace, downloading and validating assets are the environment's preparation; a completed
/// job moves on to the endpoint (at 90%); a cancelled job is cleaning up and a failed one
/// failed, both without a percent.
pub proof fn worker_phase_is_shown(status: ProvisionerWorkerStatus)
    ensures
        (status.phase == WorkerPhase::Idle || status.phase == WorkerPhase::Starting
            || status.phase == WorkerPhase::ResolvingWorkflow)
            <==> spec_progress_from_worker_status(status).phase == Phase::StartingProvisioningPod,
        (status.phase == WorkerPhase::PreparingWorkspace || status.phase == WorkerPhase::DownloadingAssets
            || status.phase == WorkerPhase::ValidatingAssets)
            <==> spec_progress_from_worker_status(status).phase == Phase::PreparingEnvironment,
        status.phase == WorkerPhase::Completed <==> spec_progress_from_worker_status(status).phase == Phase::CreatingEndpoint,
        status.phase == WorkerPhase::Cancelled <==> spec_progress_from_worker_status(status).phase == Phase::CleaningUp,
        status.phase == WorkerPhase::Failed <==> spec_progress_from_worker_status(status).phase == Phase::Failed,
        spec_progress_from_worker_status(status).phase == Phase::StartingProvisioningPod
            ==> spec_progress_from_worker_status(status).percent == Some(10u8),
        spec_progress_from_worker_status(status).phase == Phase::CreatingEndpoint
            ==> spec_progress_from_worker_status(status).percent == Some(90u8),
        (spec_progress_from_worker_status(status).phase == Phase::CleaningUp
            || spec_progress_from_worker_status(status).phase == Phase::Failed)
            ==> spec_progress_from_worker_status(status).percent is None,
{
}

/// While the environment is prepared, the worker's own percent (0 to 100, none counting as 0)
/// is shown scaled onto 40% to 90%: its start at 40%, its end at 90%, and a worker further
/// along never shown behind one less far along.
pub proof fn preparation_percent_follows_the_worker(first: ProvisionerWorkerStatus, second: ProvisionerWorkerStatus)
    requires
        spec_progress_from_worker_status(first).phase == Phase::PreparingEnvironment,
        spec_progress_from_worker_status(second).phase == Phase::PreparingEnvironment,
        first.progress_percent matches Some(p) ==> p <= 100,
        second.progress_percent matches Some(p) ==> p <= 100,
    ensures
        spec_progress_from_worker_status(first).percent matches Some(p) && 40 <= p <= 90,
        first.progress_percent is None || first.progress_percent == Some(0u8)
            ==> spec_progress_from_worker_status(first).percent == Some(40u8),
        first.progress_percent == Some(100u8) ==> spec_progress_from_worker_status(first).percent == Some(90u8),
        (match (first.progress_percent, second.progress_percent) {
            (Some(a), Some(b)) => a <= b,
            (None, _) => true,
            (Some(a), None) => a == 0,
        }) ==> spec_progress_from_worker_status(first).percent->Some_0 <= spec_progress_from_worker_status(second).percent->Some_0,
{
    let a: int = match first.progress_percent { Some(p) => p as int, None => 0 };
    let b: int = match second.progress_percent { Some(p) => p as int, None => 0 };
    assert(0 <= a * 50 / 100 <= 50) by (nonlinear_arith)
        requires 0 <= a <= 100;
    assert(0 <= b * 50 / 100 <= 50) by (nonlinear_arith)
        requires 0 <= b <= 100;
    if a <= b {
        assert(a * 50 / 100 <= b * 50 / 100) by (nonlinear_arith)
            requires 0 <= a <= b;
    }
}

} // verus!
