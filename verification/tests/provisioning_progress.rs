use luma_forge::domain::{
    GpuCloudProviderId, PersistentStorageVolumeSnapshot, PlacementPlan, ProviderProvisioningSnapshot,
    ProviderResourceStatus, ProvisionerContractReference, ProvisioningPodSnapshot,
    ResolvedProvisionerImageSnapshot, ResolvedRuntimeImageSnapshot, RunPodEndpointTemplateSnapshot,
    RuntimeContractReference, ServerlessEndpointProviderMetadata, ServerlessEndpointSnapshot,
    WorkflowExecutionType, WorkflowPreset, Workspace, WorkspaceLifecycleState,
    WorkspaceProvisioningFailureCode, WorkspaceProvisioningPhase, WorkspaceProvisioningProgress,
    WorkspaceProvisioningStatus,
};
use luma_forge::workspace_provisioning::errors::{
    SecretStoreError, WorkspaceProvisioningError, WorkspaceResourceError,
};
use luma_forge::workspace_provisioning::gateway::{
    ProvisionerWorkerHttpGatewayInitError, ProvisionerWorkerJobStatus, ProvisionerWorkerPhase,
    ProvisionerWorkerStatus,
};
use luma_forge::workspace_provisioning::progress::{
    progress_for_workspace, progress_from_worker_status, scale_preparing_environment_progress,
    worker_readiness_progress,
};
use luma_forge::workspace_provisioning::readiness::is_workspace_ready;

fn workspace() -> Workspace {
    let preset = WorkflowPreset {
        id: "preset-1".to_string(),
        version: "1.0.0".to_string(),
        name: "Preset".to_string(),
        workflow_execution_type: WorkflowExecutionType::T2i,
        required_base_volume_size_bytes: 1,
        requires_hugging_face_api_key: false,
        runtime_contract: RuntimeContractReference {
            id: "runtime".to_string(),
            version: "1.0.0".to_string(),
        },
        provisioner_contract: ProvisionerContractReference {
            id: "provisioner".to_string(),
            version: "1.0.0".to_string(),
        },
        required_model_assets: Vec::new(),
    };
    Workspace {
        id: "workspace-1".to_string(),
        name: "Workspace".to_string(),
        gpu_cloud_provider_id: GpuCloudProviderId::Runpod,
        lifecycle_state: WorkspaceLifecycleState::Draft,
        placement_plan: PlacementPlan::Runpod {
            selected_datacenter_id: "dc-1".to_string(),
            selected_gpu_id: "gpu-1".to_string(),
            persistent_storage_volume_size_bytes: 1,
            endpoint_keep_alive_seconds: 5,
            selected_workflow_preset: preset,
        },
        resolved_runtime_image: ResolvedRuntimeImageSnapshot {
            contract_id: "runtime".to_string(),
            contract_version: "1.0.0".to_string(),
            endpoint_image_ref: "endpoint:latest".to_string(),
        },
        resolved_provisioner_image: ResolvedProvisionerImageSnapshot {
            contract_id: "provisioner".to_string(),
            contract_version: "1.0.0".to_string(),
            provisioner_worker_image_ref: "provisioner:latest".to_string(),
        },
        persistent_storage_volume_snapshot: None,
        active_provisioning_pod_snapshot: None,
        serverless_endpoint_snapshot: None,
        last_provisioning_pod_snapshot: None,
        provider_provisioning_snapshot: None,
        environment_prepared_at: None,
        last_provisioning_failure: None,
    }
}

fn provisioning_workspace() -> Workspace {
    Workspace {
        lifecycle_state: WorkspaceLifecycleState::Provisioning,
        ..workspace()
    }
}

fn volume(status: ProviderResourceStatus) -> PersistentStorageVolumeSnapshot {
    PersistentStorageVolumeSnapshot {
        gpu_cloud_provider_id: GpuCloudProviderId::Runpod,
        provider_resource_id: "volume-1".to_string(),
        provider_resource_status: status,
        mount_path: "/workspace".to_string(),
    }
}

fn pod(status: ProviderResourceStatus) -> ProvisioningPodSnapshot {
    ProvisioningPodSnapshot {
        gpu_cloud_provider_id: GpuCloudProviderId::Runpod,
        provider_resource_id: "pod-1".to_string(),
        provider_resource_status: status,
        provisioner_status_url: "https://worker.example/status".to_string(),
    }
}

fn endpoint(status: ProviderResourceStatus) -> ServerlessEndpointSnapshot {
    ServerlessEndpointSnapshot {
        gpu_cloud_provider_id: GpuCloudProviderId::Runpod,
        provider_resource_id: "endpoint-1".to_string(),
        provider_resource_status: status,
        endpoint_invoke_url: "https://endpoint.example/run".to_string(),
        provider_metadata: Some(ServerlessEndpointProviderMetadata::Runpod {
            template_id: "template-1".to_string(),
        }),
    }
}

fn template(status: ProviderResourceStatus) -> RunPodEndpointTemplateSnapshot {
    RunPodEndpointTemplateSnapshot {
        template_id: "template-1".to_string(),
        endpoint_worker_image_ref: "endpoint:latest".to_string(),
        mount_path: "/workspace".to_string(),
        provider_resource_status: status,
    }
}

fn ready_provisioning_workspace() -> Workspace {
    let mut workspace = provisioning_workspace();
    workspace.persistent_storage_volume_snapshot = Some(volume(ProviderResourceStatus::Ready));
    workspace.serverless_endpoint_snapshot = Some(endpoint(ProviderResourceStatus::Ready));
    workspace.environment_prepared_at = Some("2026-05-18T00:00:00Z".to_string());
    workspace
}

fn failed_workspace() -> Workspace {
    Workspace {
        lifecycle_state: WorkspaceLifecycleState::Failed,
        ..workspace()
    }
}

fn worker_status(
    status: ProvisionerWorkerJobStatus,
    phase: ProvisionerWorkerPhase,
    progress_percent: Option<u8>,
) -> ProvisionerWorkerStatus {
    ProvisionerWorkerStatus {
        status,
        phase,
        progress_percent,
    }
}

#[test]
fn progress_for_workspace_maps_lifecycle_terminal_states() {
    let draft = workspace();
    assert_eq!(
        progress_for_workspace(&draft),
        WorkspaceProvisioningProgress {
            status: WorkspaceProvisioningStatus::Idle,
            phase: WorkspaceProvisioningPhase::NotStarted,
            percent: Some(0),
            failure: None,
        }
    );

    let ready = Workspace {
        lifecycle_state: WorkspaceLifecycleState::Ready,
        ..ready_provisioning_workspace()
    };
    assert_eq!(
        progress_for_workspace(&ready),
        WorkspaceProvisioningProgress {
            status: WorkspaceProvisioningStatus::Completed,
            phase: WorkspaceProvisioningPhase::Completed,
            percent: Some(100),
            failure: None,
        }
    );

    let failed_progress = progress_for_workspace(&failed_workspace());
    assert_eq!(failed_progress.status, WorkspaceProvisioningStatus::Failed);
    assert_eq!(failed_progress.phase, WorkspaceProvisioningPhase::Failed);
    assert_eq!(failed_progress.percent, None);
    assert_eq!(
        failed_progress.failure.expect("legacy failure").code,
        WorkspaceProvisioningFailureCode::LegacyFailure
    );
}

#[test]
fn progress_for_workspace_maps_provisioning_phases_from_snapshots() {
    let mut workspace = provisioning_workspace();
    let progress = progress_for_workspace(&workspace);
    assert_eq!(progress.phase, WorkspaceProvisioningPhase::CreatingVolume);
    assert_eq!(progress.percent, Some(0));

    workspace.persistent_storage_volume_snapshot = Some(volume(ProviderResourceStatus::Ready));
    let progress = progress_for_workspace(&workspace);
    assert_eq!(
        progress.phase,
        WorkspaceProvisioningPhase::StartingProvisioningPod
    );
    assert_eq!(progress.percent, Some(10));

    workspace.active_provisioning_pod_snapshot = Some(pod(ProviderResourceStatus::Running));
    let progress = progress_for_workspace(&workspace);
    assert_eq!(
        progress.phase,
        WorkspaceProvisioningPhase::StartingProvisioningPod
    );
    assert_eq!(progress.percent, Some(10));

    workspace.environment_prepared_at = Some("2026-05-18T00:00:00Z".to_string());
    workspace.active_provisioning_pod_snapshot = None;
    let progress = progress_for_workspace(&workspace);
    assert_eq!(progress.phase, WorkspaceProvisioningPhase::CreatingEndpoint);
    assert_eq!(progress.percent, Some(90));

    workspace.provider_provisioning_snapshot = Some(ProviderProvisioningSnapshot::Runpod {
        endpoint_template_snapshot: Some(template(ProviderResourceStatus::Ready)),
    });
    let progress = progress_for_workspace(&workspace);
    assert_eq!(progress.phase, WorkspaceProvisioningPhase::CreatingEndpoint);
    assert_eq!(progress.percent, Some(90));

    workspace.serverless_endpoint_snapshot = Some(endpoint(ProviderResourceStatus::Creating));
    let progress = progress_for_workspace(&workspace);
    assert_eq!(progress.phase, WorkspaceProvisioningPhase::CreatingEndpoint);
    assert_eq!(progress.percent, Some(90));

    workspace.serverless_endpoint_snapshot = Some(endpoint(ProviderResourceStatus::Ready));
    let progress = progress_for_workspace(&workspace);
    assert_eq!(
        progress.phase,
        WorkspaceProvisioningPhase::ValidatingReadiness
    );
    assert_eq!(progress.percent, Some(98));
}

#[test]
fn progress_for_workspace_does_not_advance_on_present_but_unready_resources() {
    let mut workspace = provisioning_workspace();
    workspace.persistent_storage_volume_snapshot = Some(volume(ProviderResourceStatus::Creating));
    let progress = progress_for_workspace(&workspace);
    assert_eq!(progress.phase, WorkspaceProvisioningPhase::CreatingVolume);
    assert_eq!(progress.percent, Some(0));

    workspace.persistent_storage_volume_snapshot = Some(volume(ProviderResourceStatus::Ready));
    workspace.active_provisioning_pod_snapshot = Some(pod(ProviderResourceStatus::Creating));
    let progress = progress_for_workspace(&workspace);
    assert_eq!(
        progress.phase,
        WorkspaceProvisioningPhase::StartingProvisioningPod
    );
    assert_eq!(progress.percent, Some(10));

    workspace.environment_prepared_at = Some("2026-05-18T00:00:00Z".to_string());
    workspace.active_provisioning_pod_snapshot = None;
    workspace.provider_provisioning_snapshot = Some(ProviderProvisioningSnapshot::Runpod {
        endpoint_template_snapshot: Some(template(ProviderResourceStatus::Ready)),
    });
    workspace.serverless_endpoint_snapshot = Some(endpoint(ProviderResourceStatus::Creating));
    let progress = progress_for_workspace(&workspace);
    assert_eq!(progress.phase, WorkspaceProvisioningPhase::CreatingEndpoint);
    assert_eq!(progress.percent, Some(90));
}

#[test]
fn progress_for_workspace_keeps_running_pod_startup_until_worker_reports_preparation() {
    let mut workspace = provisioning_workspace();
    workspace.persistent_storage_volume_snapshot = Some(volume(ProviderResourceStatus::Ready));
    workspace.active_provisioning_pod_snapshot = Some(pod(ProviderResourceStatus::Running));

    let progress = progress_for_workspace(&workspace);
    assert_eq!(
        progress.phase,
        WorkspaceProvisioningPhase::StartingProvisioningPod
    );
    assert_eq!(progress.percent, Some(10));
}

#[test]
fn progress_for_workspace_requires_ready_matching_endpoint_template_before_readiness() {
    let mut workspace = provisioning_workspace();
    workspace.persistent_storage_volume_snapshot = Some(volume(ProviderResourceStatus::Ready));
    workspace.environment_prepared_at = Some("2026-05-18T00:00:00Z".to_string());
    workspace.active_provisioning_pod_snapshot = None;
    workspace.serverless_endpoint_snapshot = Some(endpoint(ProviderResourceStatus::Ready));

    let progress = progress_for_workspace(&workspace);
    assert_eq!(progress.phase, WorkspaceProvisioningPhase::CreatingEndpoint);
    assert_eq!(progress.percent, Some(90));

    workspace.provider_provisioning_snapshot = Some(ProviderProvisioningSnapshot::Runpod {
        endpoint_template_snapshot: Some(template(ProviderResourceStatus::Creating)),
    });
    let progress = progress_for_workspace(&workspace);
    assert_eq!(progress.phase, WorkspaceProvisioningPhase::CreatingEndpoint);
    assert_eq!(progress.percent, Some(90));

    workspace.provider_provisioning_snapshot = Some(ProviderProvisioningSnapshot::Runpod {
        endpoint_template_snapshot: Some(RunPodEndpointTemplateSnapshot {
            endpoint_worker_image_ref: "ghcr.io/luma-forge/other@sha256:cccccccccccccccccccccccccccccccccccccccccccccccccccccccccccccccc".to_string(),
            ..template(ProviderResourceStatus::Ready)
        }),
    });
    let progress = progress_for_workspace(&workspace);
    assert_eq!(progress.phase, WorkspaceProvisioningPhase::CreatingEndpoint);
    assert_eq!(progress.percent, Some(90));
}

#[test]
fn progress_from_worker_status_maps_worker_facts_to_workspace_progress() {
    let running = progress_from_worker_status(&worker_status(
        ProvisionerWorkerJobStatus::Running,
        ProvisionerWorkerPhase::DownloadingAssets,
        Some(55),
    ));
    assert_eq!(running.status, WorkspaceProvisioningStatus::Running);
    assert_eq!(
        running.phase,
        WorkspaceProvisioningPhase::PreparingEnvironment
    );
    assert_eq!(running.percent, Some(67));
    assert_eq!(running.failure, None);

    let startup = progress_from_worker_status(&worker_status(
        ProvisionerWorkerJobStatus::Running,
        ProvisionerWorkerPhase::Starting,
        Some(0),
    ));
    assert_eq!(startup.status, WorkspaceProvisioningStatus::Running);
    assert_eq!(
        startup.phase,
        WorkspaceProvisioningPhase::StartingProvisioningPod
    );
    assert_eq!(startup.percent, Some(10));

    let missing_preparation_percent = progress_from_worker_status(&worker_status(
        ProvisionerWorkerJobStatus::Running,
        ProvisionerWorkerPhase::DownloadingAssets,
        None,
    ));
    assert_eq!(
        missing_preparation_percent.phase,
        WorkspaceProvisioningPhase::PreparingEnvironment
    );
    assert_eq!(missing_preparation_percent.percent, Some(40));

    for (worker_percent, expected_percent) in [(0, 40), (50, 65), (100, 90)] {
        let progress = progress_from_worker_status(&worker_status(
            ProvisionerWorkerJobStatus::Running,
            ProvisionerWorkerPhase::DownloadingAssets,
            Some(worker_percent),
        ));
        assert_eq!(progress.percent, Some(expected_percent));
    }

    let cancelling = progress_from_worker_status(&worker_status(
        ProvisionerWorkerJobStatus::Cancelling,
        ProvisionerWorkerPhase::Cancelled,
        None,
    ));
    assert_eq!(cancelling.status, WorkspaceProvisioningStatus::Cancelling);
    assert_eq!(cancelling.phase, WorkspaceProvisioningPhase::CleaningUp);
    assert_eq!(cancelling.percent, None);

    let completed = progress_from_worker_status(&worker_status(
        ProvisionerWorkerJobStatus::Succeeded,
        ProvisionerWorkerPhase::Completed,
        Some(100),
    ));
    assert_eq!(completed.status, WorkspaceProvisioningStatus::Running);
    assert_eq!(
        completed.phase,
        WorkspaceProvisioningPhase::CreatingEndpoint
    );
    assert_eq!(completed.percent, Some(90));
}

#[test]
fn worker_readiness_progress_is_starting_provisioning_pod_progress() {
    assert_eq!(
        worker_readiness_progress(),
        WorkspaceProvisioningProgress {
            status: WorkspaceProvisioningStatus::Running,
            phase: WorkspaceProvisioningPhase::StartingProvisioningPod,
            percent: Some(10),
            failure: None,
        }
    );
}

#[test]
fn resource_catalog_errors_preserve_provisioning_categories() {
    for (resource_error, expected) in [
        (
            WorkspaceResourceError::WorkspaceCatalogUnavailable,
            WorkspaceProvisioningError::WorkspaceCatalogUnavailable,
        ),
        (
            WorkspaceResourceError::WorkspaceCatalogStorageUnavailable,
            WorkspaceProvisioningError::WorkspaceCatalogStorageUnavailable,
        ),
        (
            WorkspaceResourceError::WorkspaceCatalogMigrationFailed,
            WorkspaceProvisioningError::WorkspaceCatalogMigrationFailed,
        ),
        (
            WorkspaceResourceError::WorkspaceCatalogQueryFailed,
            WorkspaceProvisioningError::WorkspaceCatalogQueryFailed,
        ),
        (
            WorkspaceResourceError::WorkspaceCatalogCorrupt,
            WorkspaceProvisioningError::WorkspaceCatalogCorrupt,
        ),
        (
            WorkspaceResourceError::WorkspaceCatalogSchemaMismatch,
            WorkspaceProvisioningError::WorkspaceCatalogSchemaMismatch,
        ),
    ] {
        assert_eq!(WorkspaceProvisioningError::from(resource_error), expected);
    }
}

#[test]
fn resource_command_errors_map_to_provisioning_categories() {
    for (resource_error, expected) in [
        (
            WorkspaceResourceError::ProviderSetupIncomplete,
            WorkspaceProvisioningError::ProviderSetupIncomplete,
        ),
        (
            WorkspaceResourceError::ProviderApiKeyUnauthorized,
            WorkspaceProvisioningError::ProviderApiKeyUnauthorized,
        ),
        (
            WorkspaceResourceError::ProviderApiUnavailable,
            WorkspaceProvisioningError::ProviderApiUnavailable,
        ),
        (
            WorkspaceResourceError::ProviderRateLimited,
            WorkspaceProvisioningError::ProviderRateLimited,
        ),
        (
            WorkspaceResourceError::ProviderRequestRejected,
            WorkspaceProvisioningError::ProviderRequestRejected,
        ),
        (
            WorkspaceResourceError::ProviderResponseInvalid,
            WorkspaceProvisioningError::ProviderResponseInvalid,
        ),
        (
            WorkspaceResourceError::ProviderResourceNotFound,
            WorkspaceProvisioningError::ProviderResourceNotFound,
        ),
        (
            WorkspaceResourceError::ProviderOperationConflict,
            WorkspaceProvisioningError::ProviderOperationConflict,
        ),
        (
            WorkspaceResourceError::ProviderOperationIndeterminate,
            WorkspaceProvisioningError::ProviderOperationIndeterminate,
        ),
        (
            WorkspaceResourceError::SecureKeyringUnavailable,
            WorkspaceProvisioningError::SecureKeyringUnavailable,
        ),
        (
            WorkspaceResourceError::ProvisionerWorkerTokenInvalid,
            WorkspaceProvisioningError::ProvisionerWorkerTokenInvalid,
        ),
    ] {
        assert_eq!(WorkspaceProvisioningError::from(resource_error), expected);
    }
}

#[test]
fn provisioner_worker_gateway_initialization_error_maps_to_worker_unavailable() {
    assert_eq!(
        WorkspaceProvisioningError::from(ProvisionerWorkerHttpGatewayInitError),
        WorkspaceProvisioningError::ProvisionerWorkerUnavailable
    );
}

#[test]
fn maps_provisioning_token_secret_failures_to_provisioning_errors() {
    assert_eq!(
        WorkspaceProvisioningError::from(SecretStoreError::InvalidStoredProvisionerWorkerToken),
        WorkspaceProvisioningError::ProvisionerWorkerTokenInvalid
    );
    assert_eq!(
        WorkspaceProvisioningError::from(SecretStoreError::SecureKeyringUnavailable),
        WorkspaceProvisioningError::SecureKeyringUnavailable
    );
}

#[test]
fn is_workspace_ready_accepts_ready_or_running_serverless_endpoint() {
    for status in [ProviderResourceStatus::Ready, ProviderResourceStatus::Running] {
        let mut workspace = ready_provisioning_workspace();
        workspace
            .serverless_endpoint_snapshot
            .as_mut()
            .expect("endpoint")
            .provider_resource_status = status;

        assert!(is_workspace_ready(&workspace));
    }
}

#[test]
fn workspace_is_not_ready_while_anything_is_missing() {
    let mut workspace = ready_provisioning_workspace();
    workspace.active_provisioning_pod_snapshot = Some(pod(ProviderResourceStatus::Running));
    assert!(!is_workspace_ready(&workspace));

    let mut workspace = ready_provisioning_workspace();
    workspace.environment_prepared_at = None;
    assert!(!is_workspace_ready(&workspace));

    let mut workspace = ready_provisioning_workspace();
    workspace.serverless_endpoint_snapshot = Some(endpoint(ProviderResourceStatus::Creating));
    assert!(!is_workspace_ready(&workspace));

    let mut workspace = ready_provisioning_workspace();
    workspace.persistent_storage_volume_snapshot = Some(volume(ProviderResourceStatus::Creating));
    assert!(!is_workspace_ready(&workspace));
}

#[test]
fn preparation_progress_scales_into_its_phase_band() {
    assert_eq!(scale_preparing_environment_progress(None), 40);
    assert_eq!(scale_preparing_environment_progress(Some(0)), 40);
    assert_eq!(scale_preparing_environment_progress(Some(50)), 65);
    assert_eq!(scale_preparing_environment_progress(Some(55)), 67);
    assert_eq!(scale_preparing_environment_progress(Some(100)), 90);
    assert_eq!(scale_preparing_environment_progress(Some(200)), 140);
}
