use luma_forge::domain::{
    GpuCloudProviderId, ModelAsset, ModelAssetSource, PersistentStorageVolumeSnapshot,
    PlacementPlan, ProviderResourceStatus, ProvisionerContractReference, ProvisioningPodSnapshot,
    ResolvedProvisionerImageSnapshot, ResolvedRuntimeImageSnapshot, RunPodEndpointTemplateSnapshot,
    RuntimeContractReference, ServerlessEndpointProviderMetadata, ServerlessEndpointSnapshot,
    WorkflowExecutionType, WorkflowPreset, Workspace, WorkspaceLifecycleState,
    WorkspaceProvisioningFailure, WorkspaceProvisioningFailureCode,
    WorkspaceProvisioningFailureSource, WorkspaceProvisioningPhase,
    WorkspaceProvisioningRecoveryAction, WorkspaceProvisioningStatus,
};
use luma_forge::setup_error::WorkspaceSetupError;
use luma_forge::workspace_provisioning::contracts::{
    ProviderApiKey, ProvisionerWorkerBearerToken, WorkspaceProvisioningResult,
};
use luma_forge::workspace_provisioning::coordinator::WorkspaceProvisioningCoordinator;
use luma_forge::workspace_provisioning::errors::{
    catalog_error, SecretStoreError, WorkspaceProvisioningError,
};
use luma_forge::workspace_provisioning::failure::{
    fail_workspace, legacy_failure, provider_resource_failure, provisioner_worker_failure,
    provisioning_error, worker_failure,
};
use luma_forge::workspace_provisioning::gateway::{
    ProvisionerWorkerError, ProvisionerWorkerJobStatus, ProvisionerWorkerPhase,
    ProvisionerWorkerStatus,
};
use luma_forge::workspace_provisioning::progress::progress_for_workspace;
use luma_forge::workspace_provisioning::provisioner::{
    begin_environment_sync, environment_sync_needed, environment_sync_after_clock, environment_sync_after_persist,
    environment_sync_after_start, environment_sync_after_status, environment_sync_after_token,
    environment_sync_result, handle_worker_error, EnvironmentSyncStep,
    WorkspaceProvisionerSyncOutcome,
};
use luma_forge::workspace_provisioning::runpod::{
    endpoint_command, endpoint_outcome, finish_provisioning_pod_command,
    finish_provisioning_pod_outcome, network_volume_command, network_volume_outcome,
    first_runpod_stage, next_runpod_stage, provisioning_pod_command, provisioning_pod_outcome,
    RunpodResourceCommand, RunpodStepOutcome, RunpodSyncStage,
};
use luma_forge::workspace_provisioning::service::{
    cancel_after_cleanup, cancel_entry, cancel_target, check_initiate, initiate_transition,
    persisted_result, sync_after_provider, sync_start, workspace_from_lookup, SyncDecision,
    SyncStart,
};

fn workspace() -> Workspace {
    let preset = WorkflowPreset {
        id: "preset-1".to_string(),
        version: "1.0.0".to_string(),
        name: "Preset".to_string(),
        workflow_execution_type: WorkflowExecutionType::T2i,
        required_base_volume_size_bytes: 1,
        requires_hugging_face_api_key: false,
        runtime_contract: RuntimeContractReference {
            id: "runtime".to_string(),
            version: "1.0.0".to_string(),
        },
        provisioner_contract: ProvisionerContractReference {
            id: "provisioner".to_string(),
            version: "1.0.0".to_string(),
        },
        required_model_assets: Vec::new(),
    };
    Workspace {
        id: "workspace-1".to_string(),
        name: "Workspace".to_string(),
        gpu_cloud_provider_id: GpuCloudProviderId::Runpod,
        lifecycle_state: WorkspaceLifecycleState::Draft,
        placement_plan: PlacementPlan::Runpod {
            selected_datacenter_id: "dc-1".to_string(),
            selected_gpu_id: "gpu-1".to_string(),
            persistent_storage_volume_size_bytes: 1,
            endpoint_keep_alive_seconds: 5,
            selected_workflow_preset: preset,
        },
        resolved_runtime_image: ResolvedRuntimeImageSnapshot {
            contract_id: "runtime".to_string(),
            contract_version: "1.0.0".to_string(),
            endpoint_image_ref: "endpoint:latest".to_string(),
        },
        resolved_provisioner_image: ResolvedProvisionerImageSnapshot {
            contract_id: "provisioner".to_string(),
            contract_version: "1.0.0".to_string(),
            provisioner_worker_image_ref: "provisioner:latest".to_string(),
        },
        persistent_storage_volume_snapshot: None,
        active_provisioning_pod_snapshot: None,
        serverless_endpoint_snapshot: None,
        last_provisioning_pod_snapshot: None,
        provider_provisioning_snapshot: None,
        environment_prepared_at: None,
        last_provisioning_failure: None,
    }
}

fn provisioning_workspace() -> Workspace {
    Workspace {
        lifecycle_state: WorkspaceLifecycleState::Provisioning,
        ..workspace()
    }
}

fn volume(status: ProviderResourceStatus) -> PersistentStorageVolumeSnapshot {
    PersistentStorageVolumeSnapshot {
        gpu_cloud_provider_id: GpuCloudProviderId::Runpod,
        provider_resource_id: "volume-1".to_string(),
        provider_resource_status: status,
        mount_path: "/workspace".to_string(),
    }
}

fn pod(status: ProviderResourceStatus) -> ProvisioningPodSnapshot {
    ProvisioningPodSnapshot {
        gpu_cloud_provider_id: GpuCloudProviderId::Runpod,
        provider_resource_id: "pod-1".to_string(),
        provider_resource_status: status,
        provisioner_status_url: "https://worker.example/status".to_string(),
    }
}

fn endpoint(status: ProviderResourceStatus) -> ServerlessEndpointSnapshot {
    ServerlessEndpointSnapshot {
        gpu_cloud_provider_id: GpuCloudProviderId::Runpod,
        provider_resource_id: "endpoint-1".to_string(),
        provider_resource_status: status,
        endpoint_invoke_url: "https://endpoint.example/run".to_string(),
        provider_metadata: Some(ServerlessEndpointProviderMetadata::Runpod {
            template_id: "template-1".to_string(),
        }),
    }
}

fn template(status: ProviderResourceStatus) -> RunPodEndpointTemplateSnapshot {
    RunPodEndpointTemplateSnapshot {
        template_id: "template-1".to_string(),
        endpoint_worker_image_ref: "endpoint:latest".to_string(),
        mount_path: "/workspace".to_string(),
        provider_resource_status: status,
    }
}

fn ready_provisioning_workspace() -> Workspace {
    let mut workspace = provisioning_workspace();
    workspace.persistent_storage_volume_snapshot = Some(volume(ProviderResourceStatus::Ready));
    workspace.serverless_endpoint_snapshot = Some(endpoint(ProviderResourceStatus::Ready));
    workspace.environment_prepared_at = Some("2026-05-18T00:00:00Z".to_string());
    workspace
}


fn running_pod_workspace() -> Workspace {
    let mut workspace = provisioning_workspace();
    workspace.persistent_storage_volume_snapshot = Some(volume(ProviderResourceStatus::Ready));
    workspace.active_provisioning_pod_snapshot = Some(pod(ProviderResourceStatus::Running));
    workspace
}

fn token() -> ProvisionerWorkerBearerToken {
    ProvisionerWorkerBearerToken {
        value: "worker-token".to_string(),
    }
}

fn worker(status: ProvisionerWorkerJobStatus, phase: ProvisionerWorkerPhase) -> ProvisionerWorkerStatus {
    ProvisionerWorkerStatus {
        status,
        phase,
        progress_percent: None,
    }
}

fn failure(code: WorkspaceProvisioningFailureCode) -> WorkspaceProvisioningFailure {
    WorkspaceProvisioningFailure {
        code,
        phase: WorkspaceProvisioningPhase::PreparingEnvironment,
        source: WorkspaceProvisioningFailureSource::Native,
        recovery_action: WorkspaceProvisioningRecoveryAction::InspectWorkspaceProvisioning,
    }
}

#[test]
fn environment_sync_starts_only_for_a_running_pod_of_an_unprepared_workspace() {
    assert!(matches!(
        begin_environment_sync(provisioning_workspace()),
        EnvironmentSyncStep::Finished(None)
    ));
    let mut creating = running_pod_workspace();
    creating.active_provisioning_pod_snapshot = Some(pod(ProviderResourceStatus::Creating));
    assert!(!environment_sync_needed(&creating));
    assert!(matches!(begin_environment_sync(creating), EnvironmentSyncStep::Finished(None)));
    assert!(!environment_sync_needed(&provisioning_workspace()));
    assert!(environment_sync_needed(&running_pod_workspace()));
    let mut prepared = running_pod_workspace();
    prepared.environment_prepared_at = Some("2026-05-18T00:00:00Z".to_string());
    assert!(!environment_sync_needed(&prepared));
    assert!(matches!(begin_environment_sync(prepared), EnvironmentSyncStep::Finished(None)));
    assert!(matches!(
        begin_environment_sync(running_pod_workspace()),
        EnvironmentSyncStep::ReadWorkerToken { .. }
    ));
}

#[test]
fn worker_token_answers_decide_the_next_environment_step() {
    match environment_sync_after_token(running_pod_workspace(), Ok(Some(token()))) {
        EnvironmentSyncStep::QueryWorkerStatus {
            provisioner_status_url,
            token: t,
            ..
        } => {
            assert_eq!(provisioner_status_url, "https://worker.example/status");
            assert_eq!(t, token());
        }
        other => panic!("unexpected step {other:?}"),
    }
    match environment_sync_after_token(running_pod_workspace(), Ok(None)) {
        EnvironmentSyncStep::Persist { workspace } => {
            assert_eq!(workspace.lifecycle_state, WorkspaceLifecycleState::Failed);
            assert_eq!(
                workspace.last_provisioning_failure,
                Some(failure(WorkspaceProvisioningFailureCode::ProvisionerWorkerTokenMissing))
            );
        }
        other => panic!("unexpected step {other:?}"),
    }
    match environment_sync_after_token(
        running_pod_workspace(),
        Err(SecretStoreError::InvalidStoredProvisionerWorkerToken),
    ) {
        EnvironmentSyncStep::Persist { workspace } => assert_eq!(
            workspace.last_provisioning_failure,
            Some(failure(WorkspaceProvisioningFailureCode::ProvisionerWorkerTokenInvalid))
        ),
        other => panic!("unexpected step {other:?}"),
    }
    assert!(matches!(
        environment_sync_after_token(
            running_pod_workspace(),
            Err(SecretStoreError::SecureKeyringUnavailable)
        ),
        EnvironmentSyncStep::Failed(WorkspaceProvisioningError::SecureKeyringUnavailable)
    ));
}

#[test]
fn worker_status_answers_decide_the_next_environment_step() {
    let mut workspace = running_pod_workspace();
    if let PlacementPlan::Runpod {
        selected_workflow_preset,
        ..
    } = &mut workspace.placement_plan
    {
        selected_workflow_preset.required_model_assets.push(ModelAsset {
            id: "asset-1".to_string(),
            name: "Asset".to_string(),
            download_source: ModelAssetSource::Huggingface {
                repository_id: "org/repo".to_string(),
                file_path: "model.safetensors".to_string(),
                revision: "main".to_string(),
            },
            install_comfyui_relative_path: "models/model.safetensors".to_string(),
        });
    }
    match environment_sync_after_status(
        workspace,
        token(),
        Ok(worker(ProvisionerWorkerJobStatus::Idle, ProvisionerWorkerPhase::Idle)),
    ) {
        EnvironmentSyncStep::StartWorker { request, provisioner_status_url, .. } => {
            assert_eq!(request.job_id, "workspace-1");
            assert_eq!(request.workflow_preset.required_model_assets.len(), 1);
            assert_eq!(request.workflow_preset.required_model_assets[0].id, "asset-1");
            assert_eq!(provisioner_status_url, "https://worker.example/status");
        }
        other => panic!("unexpected step {other:?}"),
    }
    assert!(matches!(
        environment_sync_after_status(
            running_pod_workspace(),
            token(),
            Ok(worker(ProvisionerWorkerJobStatus::Succeeded, ProvisionerWorkerPhase::Completed))
        ),
        EnvironmentSyncStep::RecordPreparedAt { .. }
    ));
    assert!(matches!(
        environment_sync_after_status(
            running_pod_workspace(),
            token(),
            Ok(worker(ProvisionerWorkerJobStatus::Running, ProvisionerWorkerPhase::DownloadingAssets))
        ),
        EnvironmentSyncStep::Finished(Some(WorkspaceProvisionerSyncOutcome::WorkerStatus { .. }))
    ));
    assert!(matches!(
        environment_sync_after_status(
            running_pod_workspace(),
            token(),
            Err(ProvisionerWorkerError::Unreachable)
        ),
        EnvironmentSyncStep::Finished(Some(WorkspaceProvisionerSyncOutcome::WorkerReadinessLag { .. }))
    ));
}

#[test]
fn worker_errors_fail_the_workspace_or_the_sync() {
    match handle_worker_error(running_pod_workspace(), ProvisionerWorkerError::AssetAuthRequired) {
        EnvironmentSyncStep::Persist { workspace } => {
            let recorded = workspace.last_provisioning_failure.expect("failure");
            assert_eq!(
                recorded.code,
                WorkspaceProvisioningFailureCode::ProvisionerWorkerAssetAuthRequired
            );
            assert_eq!(recorded.source, WorkspaceProvisioningFailureSource::ProvisionerWorker);
            assert_eq!(recorded.phase, WorkspaceProvisioningPhase::PreparingEnvironment);
        }
        other => panic!("unexpected step {other:?}"),
    }
    assert!(matches!(
        handle_worker_error(running_pod_workspace(), ProvisionerWorkerError::Conflict),
        EnvironmentSyncStep::Failed(WorkspaceProvisioningError::ProvisionerWorkerConflict)
    ));
    assert!(matches!(
        environment_sync_after_start(
            running_pod_workspace(),
            Ok(worker(ProvisionerWorkerJobStatus::Running, ProvisionerWorkerPhase::Starting))
        ),
        EnvironmentSyncStep::Finished(Some(WorkspaceProvisionerSyncOutcome::WorkerStatus { .. }))
    ));
}

#[test]
fn prepared_environment_is_recorded_and_written() {
    match environment_sync_after_clock(
        running_pod_workspace(),
        Some("2026-05-18T00:00:00Z".to_string()),
    ) {
        EnvironmentSyncStep::Persist { workspace } => assert_eq!(
            workspace.environment_prepared_at.as_deref(),
            Some("2026-05-18T00:00:00Z")
        ),
        other => panic!("unexpected step {other:?}"),
    }
    assert!(matches!(
        environment_sync_after_clock(running_pod_workspace(), None),
        EnvironmentSyncStep::Failed(WorkspaceProvisioningError::ProviderResponseInvalid)
    ));
    assert!(matches!(
        environment_sync_after_persist(Err(WorkspaceSetupError::WorkspaceCatalogCorrupt)),
        EnvironmentSyncStep::Failed(WorkspaceProvisioningError::WorkspaceCatalogCorrupt)
    ));
    assert!(matches!(
        environment_sync_after_persist(Ok(running_pod_workspace())),
        EnvironmentSyncStep::Finished(Some(WorkspaceProvisionerSyncOutcome::WorkspaceUpdated(_)))
    ));
}

#[test]
fn ended_environment_syncs_report_their_progress() {
    let lag = environment_sync_result(WorkspaceProvisionerSyncOutcome::WorkerReadinessLag {
        workspace: running_pod_workspace(),
    });
    assert_eq!(lag.progress.phase, WorkspaceProvisioningPhase::StartingProvisioningPod);
    assert_eq!(lag.progress.percent, Some(10));
    let status = environment_sync_result(WorkspaceProvisionerSyncOutcome::WorkerStatus {
        workspace: running_pod_workspace(),
        status: ProvisionerWorkerStatus {
            status: ProvisionerWorkerJobStatus::Running,
            phase: ProvisionerWorkerPhase::DownloadingAssets,
            progress_percent: Some(50),
        },
    });
    assert_eq!(status.progress.phase, WorkspaceProvisioningPhase::PreparingEnvironment);
    assert_eq!(status.progress.percent, Some(65));
}

#[test]
fn runpod_steps_choose_their_commands() {
    let fresh = provisioning_workspace();
    assert_eq!(
        network_volume_command(&fresh),
        Some(RunpodResourceCommand::CreateNetworkVolume)
    );
    let mut creating = provisioning_workspace();
    creating.persistent_storage_volume_snapshot = Some(volume(ProviderResourceStatus::Creating));
    assert_eq!(
        network_volume_command(&creating),
        Some(RunpodResourceCommand::ObserveNetworkVolume)
    );
    assert_eq!(provisioning_pod_command(&creating), None);

    let mut volume_ready = provisioning_workspace();
    volume_ready.persistent_storage_volume_snapshot = Some(volume(ProviderResourceStatus::Ready));
    assert_eq!(network_volume_command(&volume_ready), None);
    assert_eq!(
        provisioning_pod_command(&volume_ready),
        Some(RunpodResourceCommand::CreateProvisioningPod)
    );
    assert_eq!(
        provisioning_pod_command(&running_pod_workspace()),
        Some(RunpodResourceCommand::ObserveProvisioningPod)
    );

    let mut prepared = running_pod_workspace();
    prepared.environment_prepared_at = Some("2026-05-18T00:00:00Z".to_string());
    assert_eq!(provisioning_pod_command(&prepared), None);
    assert_eq!(
        finish_provisioning_pod_command(&prepared),
        Some(RunpodResourceCommand::DeleteProvisioningPod)
    );
    assert_eq!(endpoint_command(&prepared), None);
    prepared.active_provisioning_pod_snapshot = None;
    assert_eq!(finish_provisioning_pod_command(&prepared), None);
    assert_eq!(
        endpoint_command(&prepared),
        Some(RunpodResourceCommand::CreateServerlessEndpoint)
    );
    prepared.serverless_endpoint_snapshot = Some(endpoint(ProviderResourceStatus::Creating));
    assert_eq!(
        endpoint_command(&prepared),
        Some(RunpodResourceCommand::ObserveServerlessEndpoint)
    );
    prepared.serverless_endpoint_snapshot = Some(endpoint(ProviderResourceStatus::Ready));
    assert_eq!(endpoint_command(&prepared), None);
}

#[test]
fn terminal_resources_fail_the_workspace_in_their_phase() {
    let mut changed = provisioning_workspace();
    changed.persistent_storage_volume_snapshot = Some(volume(ProviderResourceStatus::Terminated));
    match network_volume_outcome(provisioning_workspace(), Some(changed)) {
        RunpodStepOutcome::Report(WorkspaceProvisioningResult { workspace, progress }) => {
            assert_eq!(workspace.lifecycle_state, WorkspaceLifecycleState::Failed);
            let recorded = workspace.last_provisioning_failure.expect("failure");
            assert_eq!(recorded.code, WorkspaceProvisioningFailureCode::ProviderResourceTerminated);
            assert_eq!(recorded.phase, WorkspaceProvisioningPhase::CreatingVolume);
            assert_eq!(progress.status, WorkspaceProvisioningStatus::Failed);
        }
        other => panic!("unexpected outcome {other:?}"),
    }
    let mut changed = running_pod_workspace();
    changed.active_provisioning_pod_snapshot = Some(pod(ProviderResourceStatus::Failed));
    match provisioning_pod_outcome(running_pod_workspace(), Some(changed)) {
        RunpodStepOutcome::Report(result) => assert_eq!(
            result.workspace.last_provisioning_failure.map(|f| (f.code, f.phase)),
            Some((
                WorkspaceProvisioningFailureCode::ProviderResourceFailed,
                WorkspaceProvisioningPhase::StartingProvisioningPod
            ))
        ),
        other => panic!("unexpected outcome {other:?}"),
    }
    let mut changed = ready_provisioning_workspace();
    changed.serverless_endpoint_snapshot = Some(endpoint(ProviderResourceStatus::Creating));
    match endpoint_outcome(ready_provisioning_workspace(), Some(changed)) {
        RunpodStepOutcome::Report(result) => {
            assert_eq!(result.workspace.lifecycle_state, WorkspaceLifecycleState::Provisioning);
            assert_eq!(result.progress.phase, WorkspaceProvisioningPhase::CreatingEndpoint);
        }
        other => panic!("unexpected outcome {other:?}"),
    }
}

#[test]
fn unchanged_steps_wait_continue_or_mark_ready() {
    let mut waiting = running_pod_workspace();
    waiting.active_provisioning_pod_snapshot = Some(pod(ProviderResourceStatus::Creating));
    assert!(matches!(
        provisioning_pod_outcome(waiting, None),
        RunpodStepOutcome::Report(_)
    ));
    assert!(matches!(
        provisioning_pod_outcome(running_pod_workspace(), None),
        RunpodStepOutcome::Continue(_)
    ));
    assert!(matches!(
        network_volume_outcome(provisioning_workspace(), None),
        RunpodStepOutcome::Continue(_)
    ));
    assert!(matches!(
        finish_provisioning_pod_outcome(running_pod_workspace(), None),
        RunpodStepOutcome::Continue(_)
    ));
    let mut with_failure = ready_provisioning_workspace();
    with_failure.last_provisioning_failure = Some(legacy_failure());
    match endpoint_outcome(with_failure, None) {
        RunpodStepOutcome::PersistReady(workspace) => {
            assert_eq!(workspace.lifecycle_state, WorkspaceLifecycleState::Ready);
            assert_eq!(workspace.last_provisioning_failure, None);
        }
        other => panic!("unexpected outcome {other:?}"),
    }
    assert!(matches!(
        endpoint_outcome(running_pod_workspace(), None),
        RunpodStepOutcome::Continue(_)
    ));
}

#[test]
fn only_draft_workspaces_start_provisioning() {
    assert_eq!(check_initiate(&workspace()), Ok(()));
    assert_eq!(
        check_initiate(&provisioning_workspace()),
        Err(WorkspaceProvisioningError::InvalidWorkspaceLifecycle)
    );
    let mut failed = workspace();
    fail_workspace(&mut failed, legacy_failure());
    let started = initiate_transition(
        failed,
        Ok(Some(ProviderApiKey {
            value: "provider-secret".to_string(),
        })),
    )
    .expect("started");
    assert_eq!(started.lifecycle_state, WorkspaceLifecycleState::Provisioning);
    assert_eq!(started.last_provisioning_failure, None);
    assert_eq!(
        initiate_transition(workspace(), Ok(None)).err(),
        Some(WorkspaceProvisioningError::ProviderSetupIncomplete)
    );
    assert_eq!(
        initiate_transition(workspace(), Err(SecretStoreError::InvalidStoredProviderApiKey)).err(),
        Some(WorkspaceProvisioningError::ProviderSetupIncomplete)
    );
}

#[test]
fn sync_decisions_follow_the_provider_answer() {
    assert!(matches!(
        sync_start(true, Ok(Some(provisioning_workspace()))),
        SyncStart::SyncWithProvider(w) if w == provisioning_workspace()
    ));
    match sync_start(true, Ok(Some(workspace()))) {
        SyncStart::Report(reported) => assert_eq!(reported.workspace, workspace()),
        other => panic!("unexpected start {other:?}"),
    }
    assert!(matches!(
        sync_start(true, Ok(None)),
        SyncStart::Fail(WorkspaceProvisioningError::WorkspaceNotFound)
    ));
    match sync_after_provider(provisioning_workspace(), Ok(None)) {
        SyncDecision::Report(result) => {
            assert_eq!(result.progress, progress_for_workspace(&provisioning_workspace()));
        }
        other => panic!("unexpected decision {other:?}"),
    }
    match sync_after_provider(
        provisioning_workspace(),
        Err(WorkspaceProvisioningError::ProviderRateLimited),
    ) {
        SyncDecision::PersistFailed(workspace) => {
            let recorded = workspace.last_provisioning_failure.expect("failure");
            assert_eq!(recorded.code, WorkspaceProvisioningFailureCode::ProviderRateLimited);
            assert_eq!(recorded.phase, WorkspaceProvisioningPhase::CreatingVolume);
            assert_eq!(recorded.recovery_action, WorkspaceProvisioningRecoveryAction::Retry);
        }
        other => panic!("unexpected decision {other:?}"),
    }
    assert!(matches!(
        sync_after_provider(
            provisioning_workspace(),
            Err(WorkspaceProvisioningError::WorkspaceCatalogQueryFailed)
        ),
        SyncDecision::Fail(WorkspaceProvisioningError::WorkspaceCatalogQueryFailed)
    ));
}

#[test]
fn a_sync_that_cannot_enter_the_workspace_only_reports_it() {
    let mut coordinator = WorkspaceProvisioningCoordinator::new();
    assert!(coordinator.try_enter("workspace-1"));
    let entered = coordinator.try_enter("workspace-1");
    assert!(!entered);
    match sync_start(entered, Ok(Some(provisioning_workspace()))) {
        SyncStart::Report(reported) => {
            assert_eq!(reported.workspace, provisioning_workspace());
            assert_eq!(reported.workspace.lifecycle_state, WorkspaceLifecycleState::Provisioning);
            assert_eq!(reported.progress, progress_for_workspace(&provisioning_workspace()));
        }
        other => panic!("a refused sync should only report, got {other:?}"),
    }
    assert_eq!(
        cancel_entry(coordinator.try_enter("workspace-1")),
        Err(WorkspaceProvisioningError::ProviderOperationConflict)
    );
}

#[test]
fn keyring_outages_and_worker_conflicts_stay_command_errors() {
    for error in [
        WorkspaceProvisioningError::SecureKeyringUnavailable,
        WorkspaceProvisioningError::ProvisionerWorkerConflict,
    ] {
        assert_eq!(
            provisioning_error(WorkspaceProvisioningPhase::CreatingVolume, &error),
            None
        );
        match sync_after_provider(provisioning_workspace(), Err(error)) {
            SyncDecision::Fail(returned) => assert_eq!(returned, error),
            other => panic!("{error:?} should remain a command-level error, got {other:?}"),
        }
    }
}

#[test]
fn cancellation_needs_the_workspace_and_cleans_up() {
    assert_eq!(
        cancel_entry(false),
        Err(WorkspaceProvisioningError::ProviderOperationConflict)
    );
    assert_eq!(cancel_entry(true), Ok(()));
    assert_eq!(
        cancel_target(Ok(Some(workspace()))),
        Err(WorkspaceProvisioningError::InvalidWorkspaceLifecycle)
    );
    assert_eq!(
        cancel_target(Ok(None)),
        Err(WorkspaceProvisioningError::WorkspaceNotFound)
    );
    assert_eq!(cancel_target(Ok(Some(provisioning_workspace()))), Ok(provisioning_workspace()));
    let cleaned = cancel_after_cleanup(provisioning_workspace(), Ok(provisioning_workspace()));
    assert_eq!(cleaned.lifecycle_state, WorkspaceLifecycleState::Draft);
    let failed = cancel_after_cleanup(
        provisioning_workspace(),
        Err(WorkspaceProvisioningError::ProviderApiUnavailable),
    );
    assert_eq!(failed.lifecycle_state, WorkspaceLifecycleState::Failed);
    assert_eq!(
        failed.last_provisioning_failure.map(|f| (f.code, f.phase)),
        Some((
            WorkspaceProvisioningFailureCode::CancellationCleanupFailed,
            WorkspaceProvisioningPhase::CleaningUp
        ))
    );
}

#[test]
fn catalog_answers_become_provisioning_answers() {
    assert_eq!(
        workspace_from_lookup(Ok(Some(workspace()))),
        Ok(workspace())
    );
    assert_eq!(
        workspace_from_lookup(Ok(None)),
        Err(WorkspaceProvisioningError::WorkspaceNotFound)
    );
    assert_eq!(
        workspace_from_lookup(Err(WorkspaceSetupError::WorkspaceCatalogUnavailable)),
        Err(WorkspaceProvisioningError::WorkspaceCatalogUnavailable)
    );
    assert_eq!(
        catalog_error(WorkspaceSetupError::WorkspaceCatalogMigrationFailed),
        WorkspaceProvisioningError::WorkspaceCatalogMigrationFailed
    );
    let reported = persisted_result(Ok(provisioning_workspace())).expect("reported");
    assert_eq!(reported.progress.phase, WorkspaceProvisioningPhase::CreatingVolume);
    assert!(persisted_result(Err(WorkspaceSetupError::WorkspaceCatalogQueryFailed)).is_err());
}

#[test]
fn coordinator_admits_one_operation_per_workspace() {
    let mut coordinator = WorkspaceProvisioningCoordinator::new();
    assert!(coordinator.try_enter("workspace-1"));
    assert!(coordinator.is_active("workspace-1"));
    assert!(!coordinator.try_enter("workspace-1"));
    assert!(coordinator.try_enter("workspace-2"));
    coordinator.leave("workspace-1");
    assert!(!coordinator.is_active("workspace-1"));
    assert!(coordinator.is_active("workspace-2"));
    assert!(coordinator.try_enter("workspace-1"));
}

#[test]
fn failures_record_code_source_and_recovery() {
    assert_eq!(
        provider_resource_failure(
            WorkspaceProvisioningPhase::CreatingEndpoint,
            &ProviderResourceStatus::Unknown
        )
        .code,
        WorkspaceProvisioningFailureCode::ProviderResourceUnknown
    );
    let recorded = provisioning_error(
        WorkspaceProvisioningPhase::CreatingVolume,
        &WorkspaceProvisioningError::ProviderResourceNotFound,
    )
    .expect("recorded");
    assert_eq!(recorded.code, WorkspaceProvisioningFailureCode::ProviderResourceMissing);
    assert_eq!(recorded.source, WorkspaceProvisioningFailureSource::ProviderResource);
    assert_eq!(
        recorded.recovery_action,
        WorkspaceProvisioningRecoveryAction::CleanupWorkspaceResources
    );
    assert_eq!(
        provisioning_error(
            WorkspaceProvisioningPhase::CreatingVolume,
            &WorkspaceProvisioningError::WorkspaceNotFound
        ),
        None
    );
    assert_eq!(
        worker_failure(
            WorkspaceProvisioningPhase::PreparingEnvironment,
            &WorkspaceProvisioningError::ProvisionerWorkerStepTimeout
        )
        .map(|f| f.code),
        Some(WorkspaceProvisioningFailureCode::ProvisionerWorkerStepTimeout)
    );
    assert_eq!(
        worker_failure(
            WorkspaceProvisioningPhase::PreparingEnvironment,
            &WorkspaceProvisioningError::ProviderApiUnavailable
        ),
        None
    );
    assert_eq!(
        provisioner_worker_failure(
            WorkspaceProvisioningPhase::PreparingEnvironment,
            &ProvisionerWorkerError::Unreachable
        ),
        None
    );
    let mut failed = workspace();
    fail_workspace(&mut failed, legacy_failure());
    let progress = progress_for_workspace(&failed);
    assert_eq!(progress.failure, Some(legacy_failure()));
    assert_eq!(progress.status, WorkspaceProvisioningStatus::Failed);
}

#[test]
fn runpod_sync_steps_run_in_order() {
    let mut stages = vec![first_runpod_stage()];
    while let Some(next) = next_runpod_stage(*stages.last().expect("stage")) {
        stages.push(next);
    }
    assert_eq!(
        stages,
        vec![
            RunpodSyncStage::NetworkVolume,
            RunpodSyncStage::ProvisioningPod,
            RunpodSyncStage::Environment,
            RunpodSyncStage::FinishProvisioningPod,
            RunpodSyncStage::Endpoint,
        ]
    );
}
