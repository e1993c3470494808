//! How a RunPod workspace advances through provisioning, one step per sync.
//!
//! A sync looks at the steps in order (network volume, provisioning pod, environment, finishing
//! the pod, endpoint) and stops at the first that changes or reports on the workspace. For each
//! step, one function decides which resource command to run, and another decides what the
//! command's answer means. The caller runs the commands.
use vstd::prelude::*;
use crate::domain::{
    ProviderResourceStatus, Workspace, WorkspaceLifecycleState, WorkspaceProvisioningPhase,
};
use super::contracts::WorkspaceProvisioningResult;
use super::failure::{fail_workspace, failed_workspace, failure_of, provider_resource_failure, resource_failure_code};
use super::progress::{result, spec_progress_for_workspace};
use super::readiness::{is_workspace_ready, spec_is_workspace_ready};
use super::snapshots::{is_terminal_provider_resource_status, spec_is_terminal_provider_resource_status};

verus! {

/// A resource command of a RunPod sync.
#[derive(Clone, Copy, Debug, PartialEq, Eq, Structural)]
pub enum RunpodResourceCommand {
    CreateNetworkVolume,
    ObserveNetworkVolume,
    CreateProvisioningPod,
    ObserveProvisioningPod,
    DeleteProvisioningPod,
    CreateServerlessEndpoint,
    ObserveServerlessEndpoint,
}

/// What a step of a sync decided once its command (if any) answered.
#[derive(Clone, Debug)]
pub enum RunpodStepOutcome {
    /// The sync ends with this result.
    Report(WorkspaceProvisioningResult),
    /// The workspace is ready: write it to the catalog, and the sync ends with it.
    PersistReady(Workspace),
    /// The step did nothing; the sync goes on to the next step with the workspace.
    Continue(Workspace),
}

/// The workspace's volume is tracked and ready.
pub open spec fn volume_ready(workspace: Workspace) -> bool {
    workspace.persistent_storage_volume_snapshot matches Some(volume)
        && volume.provider_resource_status == ProviderResourceStatus::Ready
}

/// The command of the network volume step: create the volume where none is tracked, observe it
/// while it is not ready.
pub open spec fn spec_network_volume_command(workspace: Workspace) -> Option<RunpodResourceCommand> {
    match workspace.persistent_storage_volume_snapshot {
        None => Some(RunpodResourceCommand::CreateNetworkVolume),
        Some(volume) => if volume.provider_resource_status != ProviderResourceStatus::Ready {
            Some(RunpodResourceCommand::ObserveNetworkVolume)
        } else {
            None
        },
    }
}

/// Decides the command of the network volume step.
pub fn network_volume_command(workspace: &Workspace) -> (r: Option<RunpodResourceCommand>)
    ensures
        r == spec_network_volume_command(*workspace),
{
    match &workspace.persistent_storage_volume_snapshot {
        None => Some(RunpodResourceCommand::CreateNetworkVolume),
        Some(volume) => if volume.provider_resource_status != ProviderResourceStatus::Ready {
            Some(RunpodResourceCommand::ObserveNetworkVolume)
        } else {
            None
        },
    }
}

/// The workspace after a resource reached a status: a terminal status fails it in the step's
/// phase; any other status, or no resource, leaves it as it is.
pub open spec fn spec_fail_if_terminal_resource(workspace: Workspace, status: Option<ProviderResourceStatus>, phase: WorkspaceProvisioningPhase) -> Workspace {
    match status {
        Some(s) => if spec_is_terminal_provider_resource_status(s) {
            failed_workspace(workspace, failure_of(
                resource_failure_code(s),
                phase,
                crate::domain::WorkspaceProvisioningFailureSource::ProviderResource,
                crate::domain::WorkspaceProvisioningRecoveryAction::CleanupWorkspaceResources,
            ))
        } else {
            workspace
        },
        None => workspace,
    }
}

/// Fails the workspace where a resource reached a terminal status.
pub fn fail_if_terminal_resource(workspace: &mut Workspace, status: Option<ProviderResourceStatus>, phase: WorkspaceProvisioningPhase)
    ensures
        *final(workspace) == spec_fail_if_terminal_resource(*old(workspace), status, phase),
{
    match status {
        Some(s) => if is_terminal_provider_resource_status(&s) {
            let failure = provider_resource_failure(phase, &s);
            fail_workspace(workspace, failure);
        },
        None => {},
    }
}

/// The status of the workspace's volume, if it tracks one.
pub open spec fn volume_status(workspace: Workspace) -> Option<ProviderResourceStatus> {
    match workspace.persistent_storage_volume_snapshot {
        Some(v) => Some(v.provider_resource_status),
        None => None,
    }
}

/// The status of the workspace's provisioning pod, if it tracks one.
pub open spec fn pod_status(workspace: Workspace) -> Option<ProviderResourceStatus> {
    match workspace.active_provisioning_pod_snapshot {
        Some(p) => Some(p.provider_resource_status),
        None => None,
    }
}

/// The status of the workspace's endpoint, if it tracks one.
pub open spec fn endpoint_status(workspace: Workspace) -> Option<ProviderResourceStatus> {
    match workspace.serverless_endpoint_snapshot {
        Some(e) => Some(e.provider_resource_status),
        None => None,
    }
}

/// The result of a step whose command changed the workspace: the workspace, failed where the
/// step's resource reached a terminal status, with its progress.
pub open spec fn changed_result(changed: Workspace) -> WorkspaceProvisioningResult {
    WorkspaceProvisioningResult { workspace: changed, progress: spec_progress_for_workspace(changed) }
}

fn report_changed(changed: Workspace, status: Option<ProviderResourceStatus>, phase: WorkspaceProvisioningPhase) -> (r: RunpodStepOutcome)
    ensures
        r == RunpodStepOutcome::Report(changed_result(spec_fail_if_terminal_resource(changed, status, phase))),
{
    let mut changed = changed;
    fail_if_terminal_resource(&mut changed, status, phase);
    RunpodStepOutcome::Report(result(changed))
}

/// What the network volume step decides once its command answered: a changed workspace ends
/// the sync, failed where its volume is terminal; no change goes on.
pub fn network_volume_outcome(workspace: Workspace, changed: Option<Workspace>) -> (r: RunpodStepOutcome)
    ensures
        match changed {
            Some(c) => r == RunpodStepOutcome::Report(changed_result(
                spec_fail_if_terminal_resource(c, volume_status(c), WorkspaceProvisioningPhase::CreatingVolume))),
            None => r == RunpodStepOutcome::Continue(workspace),
        },
{
    match changed {
        Some(changed) => {
            let status = match &changed.persistent_storage_volume_snapshot {
                Some(volume) => Some(volume.provider_resource_status),
                None => None,
            };
            report_changed(changed, status, WorkspaceProvisioningPhase::CreatingVolume)
        },
        None => RunpodStepOutcome::Continue(workspace),
    }
}

/// The command of the provisioning pod step: none once the environment is prepared; observe a
/// tracked pod; create one where the volume is ready.
pub open spec fn spec_provisioning_pod_command(workspace: Workspace) -> Option<RunpodResourceCommand> {
    if workspace.environment_prepared_at is Some {
        None
    } else if workspace.active_provisioning_pod_snapshot is Some {
        Some(RunpodResourceCommand::ObserveProvisioningPod)
    } else if volume_ready(workspace) {
        Some(RunpodResourceCommand::CreateProvisioningPod)
    } else {
        None
    }
}

/// Decides the command of the provisioning pod step.
pub fn provisioning_pod_command(workspace: &Workspace) -> (r: Option<RunpodResourceCommand>)
    ensures
        r == spec_provisioning_pod_command(*workspace),
{
    if workspace.environment_prepared_at.is_some() {
        return None;
    }
    if workspace.active_provisioning_pod_snapshot.is_some() {
        return Some(RunpodResourceCommand::ObserveProvisioningPod);
    }
    let ready = match &workspace.persistent_storage_volume_snapshot {
        Some(volume) => volume.provider_resource_status == ProviderResourceStatus::Ready,
        None => false,
    };
    if ready {
        Some(RunpodResourceCommand::CreateProvisioningPod)
    } else {
        None
    }
}

/// The environment is not prepared yet and the tracked provisioning pod is not running yet.
pub open spec fn pod_waiting(workspace: Workspace) -> bool {
    &&& workspace.environment_prepared_at is None
    &&& workspace.active_provisioning_pod_snapshot matches Some(pod)
        && pod.provider_resource_status != ProviderResourceStatus::Running
}

/// What the provisioning pod step decides once its command answered: a changed workspace ends
/// the sync, failed where its pod is terminal; without a change, a tracked pod that is not
/// running yet ends the sync with the workspace as it is; otherwise the sync goes on.
pub fn provisioning_pod_outcome(workspace: Workspace, changed: Option<Workspace>) -> (r: RunpodStepOutcome)
    ensures
        match changed {
            Some(c) => r == RunpodStepOutcome::Report(changed_result(
                spec_fail_if_terminal_resource(c, pod_status(c), WorkspaceProvisioningPhase::StartingProvisioningPod))),
            None => if pod_waiting(workspace) {
                r == RunpodStepOutcome::Report(changed_result(workspace))
            } else {
                r == RunpodStepOutcome::Continue(workspace)
            },
        },
{
    match changed {
        Some(changed) => {
            let status = match &changed.active_provisioning_pod_snapshot {
                Some(pod) => Some(pod.provider_resource_status),
                None => None,
            };
            report_changed(changed, status, WorkspaceProvisioningPhase::StartingProvisioningPod)
        },
        None => {
            let waiting = workspace.environment_prepared_at.is_none() && match &workspace.active_provisioning_pod_snapshot {
                Some(pod) => pod.provider_resource_status != ProviderResourceStatus::Running,
                None => false,
            };
            if waiting {
                RunpodStepOutcome::Report(result(workspace))
            } else {
                RunpodStepOutcome::Continue(workspace)
            }
        },
    }
}

/// The command of the step that finishes the provisioning pod: delete the pod once the
/// environment is prepared.
pub open spec fn spec_finish_provisioning_pod_command(workspace: Workspace) -> Option<RunpodResourceCommand> {
    if workspace.environment_prepared_at is Some && workspace.active_provisioning_pod_snapshot is Some {
        Some(RunpodResourceCommand::DeleteProvisioningPod)
    } else {
        None
    }
}

/// Decides the command of the step that finishes the provisioning pod.
pub fn finish_provisioning_pod_command(workspace: &Workspace) -> (r: Option<RunpodResourceCommand>)
    ensures
        r == spec_finish_provisioning_pod_command(*workspace),
{
    if workspace.environment_prepared_at.is_some() && workspace.active_provisioning_pod_snapshot.is_some() {
        Some(RunpodResourceCommand::DeleteProvisioningPod)
    } else {
        None
    }
}

/// What the step that finishes the pod decides: a changed workspace ends the sync; no change
/// goes on.
pub fn finish_provisioning_pod_outcome(workspace: Workspace, changed: Option<Workspace>) -> (r: RunpodStepOutcome)
    ensures
        match changed {
            Some(c) => r == RunpodStepOutcome::Report(changed_result(c)),
            None => r == RunpodStepOutcome::Continue(workspace),
        },
{
    match changed {
        Some(changed) => RunpodStepOutcome::Report(result(changed)),
        None => RunpodStepOutcome::Continue(workspace),
    }
}

/// The command of the endpoint step: once the environment is prepared and the pod is gone,
/// create the endpoint where none is tracked and observe it while it is not ready.
pub open spec fn spec_endpoint_command(workspace: Workspace) -> Option<RunpodResourceCommand> {
    if workspace.environment_prepared_at is Some && workspace.active_provisioning_pod_snapshot is None {
        match workspace.serverless_endpoint_snapshot {
            None => Some(RunpodResourceCommand::CreateServerlessEndpoint),
            Some(endpoint) => if endpoint.provider_resource_status != ProviderResourceStatus::Ready {
                Some(RunpodResourceCommand::ObserveServerlessEndpoint)
            } else {
                None
            },
        }
    } else {
        None
    }
}

/// Decides the command of the endpoint step.
pub fn endpoint_command(workspace: &Workspace) -> (r: Option<RunpodResourceCommand>)
    ensures
        r == spec_endpoint_command(*workspace),
{
    if workspace.environment_prepared_at.is_some() && workspace.active_provisioning_pod_snapshot.is_none() {
        match &workspace.serverless_endpoint_snapshot {
            None => Some(RunpodResourceCommand::CreateServerlessEndpoint),
            Some(endpoint) => if endpoint.provider_resource_status != ProviderResourceStatus::Ready {
                Some(RunpodResourceCommand::ObserveServerlessEndpoint)
            } else {
                None
            },
        }
    } else {
        None
    }
}

/// A ready workspace as it is written: its lifecycle is ready and no failure is kept.
pub open spec fn spec_ready_workspace(workspace: Workspace) -> Workspace {
    Workspace { lifecycle_state: WorkspaceLifecycleState::Ready, last_provisioning_failure: None, ..workspace }
}

/// What the endpoint step decides once its command answered: a changed workspace ends the sync,
/// failed where its endpoint is terminal; without a change, a ready workspace is marked ready
/// and written; otherwise the sync goes on.
pub fn endpoint_outcome(workspace: Workspace, changed: Option<Workspace>) -> (r: RunpodStepOutcome)
    ensures
        match changed {
            Some(c) => r == RunpodStepOutcome::Report(changed_result(
                spec_fail_if_terminal_resource(c, endpoint_status(c), WorkspaceProvisioningPhase::CreatingEndpoint))),
            None => if spec_is_workspace_ready(workspace) {
                r == RunpodStepOutcome::PersistReady(spec_ready_workspace(workspace))
            } else {
                r == RunpodStepOutcome::Continue(workspace)
            },
        },
{
    match changed {
        Some(changed) => {
            let status = match &changed.serverless_endpoint_snapshot {
                Some(endpoint) => Some(endpoint.provider_resource_status),
                None => None,
            };
            report_changed(changed, status, WorkspaceProvisioningPhase::CreatingEndpoint)
        },
        None => {
            if is_workspace_ready(&workspace) {
                let mut workspace = workspace;
                workspace.lifecycle_state = WorkspaceLifecycleState::Ready;
                workspace.last_provisioning_failure = None;
                RunpodStepOutcome::PersistReady(workspace)
            } else {
                RunpodStepOutcome::Continue(workspace)
            }
        },
    }
}

/// The steps of a RunPod sync, in the order in which they run.
#[derive(Clone, Copy, Debug, PartialEq, Eq, Structural)]
pub enum RunpodSyncStage {
    NetworkVolume,
    ProvisioningPod,
    Environment,
    FinishProvisioningPod,
    Endpoint,
}

/// The position of a step in a sync.
pub open spec fn stage_rank(stage: RunpodSyncStage) -> int {
    match stage {
        RunpodSyncStage::NetworkVolume => 0,
        RunpodSyncStage::ProvisioningPod => 1,
        RunpodSyncStage::Environment => 2,
        RunpodSyncStage::FinishProvisioningPod => 3,
        RunpodSyncStage::Endpoint => 4,
    }
}

/// The step that follows a step in a sync, if any.
pub open spec fn spec_next_runpod_stage(stage: RunpodSyncStage) -> Option<RunpodSyncStage> {
    match stage {
        RunpodSyncStage::NetworkVolume => Some(RunpodSyncStage::ProvisioningPod),
        RunpodSyncStage::ProvisioningPod => Some(RunpodSyncStage::Environment),
        RunpodSyncStage::Environment => Some(RunpodSyncStage::FinishProvisioningPod),
        RunpodSyncStage::FinishProvisioningPod => Some(RunpodSyncStage::Endpoint),
        RunpodSyncStage::Endpoint => None,
    }
}

/// The first step of a sync.
pub fn first_runpod_stage() -> (r: RunpodSyncStage)
    ensures
        stage_rank(r) == 0,
{
    RunpodSyncStage::NetworkVolume
}

/// The step that a sync runs after a step that did nothing; `None` after the last step, when
/// the sync ends without a result.
pub fn next_runpod_stage(stage: RunpodSyncStage) -> (r: Option<RunpodSyncStage>)
    ensures
        r == spec_next_runpod_stage(stage),
{
    match stage {
        RunpodSyncStage::NetworkVolume => Some(RunpodSyncStage::ProvisioningPod),
        RunpodSyncStage::ProvisioningPod => Some(RunpodSyncStage::Environment),
        RunpodSyncStage::Environment => Some(RunpodSyncStage::FinishProvisioningPod),
        RunpodSyncStage::FinishProvisioningPod => Some(RunpodSyncStage::Endpoint),
        RunpodSyncStage::Endpoint => None,
    }
}

/// A sync runs its steps in order, each once: the next step is always the one ranked right
/// after it, and only the endpoint step has none.
pub proof fn runpod_stages_run_in_order(stage: RunpodSyncStage)
    ensures
        spec_next_runpod_stage(stage) matches Some(next) ==> stage_rank(next) == stage_rank(stage) + 1,
        spec_next_runpod_stage(stage) is None <==> stage == RunpodSyncStage::Endpoint,
        0 <= stage_rank(stage) <= 4,
{
}

} // verus!
