use luma_forge::domain::{
    GpuCloudProviderId, PersistentStorageVolumeSnapshot, PlacementPlan,
    ProviderProvisioningSnapshot, ProviderResourceStatus, ProvisionerContractReference,
    ProvisioningPodSnapshot, ResolvedProvisionerImageSnapshot, ResolvedRuntimeImageSnapshot,
    RunPodEndpointTemplateSnapshot, RuntimeContractReference, ServerlessEndpointProviderMetadata,
    ServerlessEndpointSnapshot, WorkflowExecutionType, WorkflowPreset, Workspace,
    WorkspaceLifecycleState, WorkspaceProvisioningFailure, WorkspaceProvisioningFailureCode,
    WorkspaceProvisioningFailureSource, WorkspaceProvisioningPhase,
    WorkspaceProvisioningRecoveryAction,
};
use luma_forge::setup_error::WorkspaceSetupError;
use luma_forge::workspace_catalog::persistence::{
    check_persistence_version, persistence_version_from_text, CURRENT_PERSISTENCE_VERSION,
};
use luma_forge::workspace_catalog::details::{
    endpoint_snapshot_from_row, endpoint_template_from_row, endpoint_template_row,
    placement_from_row, placement_row, pod_snapshot_from_row, provisioning_failure_from_row,
    provisioning_failure_row, resource_snapshot_row, stored_resource_snapshots,
    volume_snapshot_from_row, workspace_from_detail_rows, StoredSnapshot, WorkspaceBaseRow,
    WorkspaceDetailRows,
};
use luma_forge::values::{
    gpu_cloud_provider_id_value, lifecycle_state_value, parse_workflow_execution_type,
    workflow_execution_type_value,
};

fn workspace() -> Workspace {
    let preset = WorkflowPreset {
        id: "preset-1".to_string(),
        version: "1.0.0".to_string(),
        name: "Preset".to_string(),
        workflow_execution_type: WorkflowExecutionType::T2i,
        required_base_volume_size_bytes: 1,
        requires_hugging_face_api_key: false,
        runtime_contract: RuntimeContractReference {
            id: "runtime".to_string(),
            version: "1.0.0".to_string(),
        },
        provisioner_contract: ProvisionerContractReference {
            id: "provisioner".to_string(),
            version: "1.0.0".to_string(),
        },
        required_model_assets: Vec::new(),
    };
    Workspace {
        id: "workspace-1".to_string(),
        name: "Workspace".to_string(),
        gpu_cloud_provider_id: GpuCloudProviderId::Runpod,
        lifecycle_state: WorkspaceLifecycleState::Draft,
        placement_plan: PlacementPlan::Runpod {
            selected_datacenter_id: "dc-1".to_string(),
            selected_gpu_id: "gpu-1".to_string(),
            persistent_storage_volume_size_bytes: 1,
            endpoint_keep_alive_seconds: 5,
            selected_workflow_preset: preset,
        },
        resolved_runtime_image: ResolvedRuntimeImageSnapshot {
            contract_id: "runtime".to_string(),
            contract_version: "1.0.0".to_string(),
            endpoint_image_ref: "endpoint:latest".to_string(),
        },
        resolved_provisioner_image: ResolvedProvisionerImageSnapshot {
            contract_id: "provisioner".to_string(),
            contract_version: "1.0.0".to_string(),
            provisioner_worker_image_ref: "provisioner:latest".to_string(),
        },
        persistent_storage_volume_snapshot: None,
        active_provisioning_pod_snapshot: None,
        serverless_endpoint_snapshot: None,
        last_provisioning_pod_snapshot: None,
        provider_provisioning_snapshot: None,
        environment_prepared_at: None,
        last_provisioning_failure: None,
    }
}

fn provisioning_workspace() -> Workspace {
    Workspace {
        lifecycle_state: WorkspaceLifecycleState::Provisioning,
        ..workspace()
    }
}

fn volume(status: ProviderResourceStatus) -> PersistentStorageVolumeSnapshot {
    PersistentStorageVolumeSnapshot {
        gpu_cloud_provider_id: GpuCloudProviderId::Runpod,
        provider_resource_id: "volume-1".to_string(),
        provider_resource_status: status,
        mount_path: "/workspace".to_string(),
    }
}

fn pod(status: ProviderResourceStatus) -> ProvisioningPodSnapshot {
    ProvisioningPodSnapshot {
        gpu_cloud_provider_id: GpuCloudProviderId::Runpod,
        provider_resource_id: "pod-1".to_string(),
        provider_resource_status: status,
        provisioner_status_url: "https://worker.example/status".to_string(),
    }
}

fn endpoint(status: ProviderResourceStatus) -> ServerlessEndpointSnapshot {
    ServerlessEndpointSnapshot {
        gpu_cloud_provider_id: GpuCloudProviderId::Runpod,
        provider_resource_id: "endpoint-1".to_string(),
        provider_resource_status: status,
        endpoint_invoke_url: "https://endpoint.example/run".to_string(),
        provider_metadata: Some(ServerlessEndpointProviderMetadata::Runpod {
            template_id: "template-1".to_string(),
        }),
    }
}

fn template(status: ProviderResourceStatus) -> RunPodEndpointTemplateSnapshot {
    RunPodEndpointTemplateSnapshot {
        template_id: "template-1".to_string(),
        endpoint_worker_image_ref: "endpoint:latest".to_string(),
        mount_path: "/workspace".to_string(),
        provider_resource_status: status,
    }
}

fn ready_provisioning_workspace() -> Workspace {
    let mut workspace = provisioning_workspace();
    workspace.persistent_storage_volume_snapshot = Some(volume(ProviderResourceStatus::Ready));
    workspace.serverless_endpoint_snapshot = Some(endpoint(ProviderResourceStatus::Ready));
    workspace.environment_prepared_at = Some("2026-05-18T00:00:00Z".to_string());
    workspace
}


fn preset(workspace: &Workspace) -> WorkflowPreset {
    match &workspace.placement_plan {
        PlacementPlan::Runpod {
            selected_workflow_preset,
            ..
        } => selected_workflow_preset.clone(),
    }
}

#[test]
fn provisioning_failures_round_trip_through_their_rows() {
    let failure = WorkspaceProvisioningFailure {
        code: WorkspaceProvisioningFailureCode::ProvisionerWorkerStepTimeout,
        phase: WorkspaceProvisioningPhase::PreparingEnvironment,
        source: WorkspaceProvisioningFailureSource::ProvisionerWorker,
        recovery_action: WorkspaceProvisioningRecoveryAction::InspectWorkspaceProvisioning,
    };
    let row = provisioning_failure_row(&failure);
    assert_eq!(row.code, "provisioner_worker_step_timeout");
    assert_eq!(row.phase, "preparing_environment");
    assert_eq!(row.source, "provisioner_worker");
    assert_eq!(row.recovery_action, "inspect_workspace_provisioning");
    assert_eq!(provisioning_failure_from_row(&row), Ok(failure));

    let mut corrupt = row.clone();
    corrupt.phase = "sleeping".to_string();
    assert_eq!(
        provisioning_failure_from_row(&corrupt),
        Err(WorkspaceSetupError::WorkspaceCatalogSchemaMismatch)
    );
}

#[test]
fn resource_snapshots_are_stored_in_role_order() {
    let mut workspace = ready_provisioning_workspace();
    workspace.last_provisioning_pod_snapshot = Some(pod(ProviderResourceStatus::Terminated));
    let stored = stored_resource_snapshots(&workspace);
    let roles: Vec<&str> = stored.iter().map(|entry| entry.role).collect();
    assert_eq!(
        roles,
        vec!["persistent_storage_volume", "last_provisioning_pod", "serverless_endpoint"]
    );
    assert!(stored_resource_snapshots(&provisioning_workspace()).is_empty());
}

#[test]
fn resource_snapshots_round_trip_through_their_rows() {
    let volume_snapshot = volume(ProviderResourceStatus::Ready);
    let row = resource_snapshot_row(&StoredSnapshot::Volume(volume_snapshot.clone()));
    assert_eq!(row.gpu_cloud_provider_id, "runpod");
    assert_eq!(row.provider_resource_status, "ready");
    assert_eq!(row.mount_path.as_deref(), Some("/workspace"));
    assert_eq!(volume_snapshot_from_row(&row), Ok(volume_snapshot));

    let pod_snapshot = pod(ProviderResourceStatus::Running);
    let row = resource_snapshot_row(&StoredSnapshot::Pod(pod_snapshot.clone()));
    assert_eq!(pod_snapshot_from_row(&row), Ok(pod_snapshot));
    assert_eq!(
        volume_snapshot_from_row(&row),
        Err(WorkspaceSetupError::WorkspaceCatalogSchemaMismatch)
    );

    let endpoint_snapshot = endpoint(ProviderResourceStatus::Creating);
    let row = resource_snapshot_row(&StoredSnapshot::Endpoint(endpoint_snapshot.clone()));
    assert_eq!(
        endpoint_snapshot_from_row(&row, Ok(endpoint_snapshot.provider_metadata.clone())),
        Ok(endpoint_snapshot)
    );
    assert_eq!(
        endpoint_snapshot_from_row(&row, Err(())),
        Err(WorkspaceSetupError::WorkspaceCatalogCorrupt)
    );
    let mut unknown = row.clone();
    unknown.provider_resource_status = "gone".to_string();
    assert_eq!(
        endpoint_snapshot_from_row(&unknown, Ok(None)),
        Err(WorkspaceSetupError::WorkspaceCatalogSchemaMismatch)
    );
}

#[test]
fn endpoint_templates_round_trip_through_their_rows() {
    assert_eq!(endpoint_template_row(&provisioning_workspace()), None);
    let mut workspace = provisioning_workspace();
    workspace.provider_provisioning_snapshot = Some(ProviderProvisioningSnapshot::Runpod {
        endpoint_template_snapshot: Some(template(ProviderResourceStatus::Ready)),
    });
    let row = endpoint_template_row(&workspace).expect("row");
    assert_eq!(row.provider_resource_status, "ready");
    assert_eq!(
        endpoint_template_from_row(&row),
        Ok(template(ProviderResourceStatus::Ready))
    );
}

#[test]
fn placements_round_trip_through_their_rows() {
    let workspace = workspace();
    let row = placement_row(&workspace.placement_plan).expect("row");
    assert_eq!(row.selected_datacenter_id, "dc-1");
    assert_eq!(row.persistent_storage_volume_size_bytes, 1);
    assert_eq!(row.endpoint_keep_alive_seconds, 5);
    assert_eq!(row.selected_workflow_preset_id, "preset-1");
    assert_eq!(
        placement_from_row(&row, Some(preset(&workspace))),
        Ok(workspace.placement_plan.clone())
    );
    assert_eq!(
        placement_from_row(&row, None),
        Err(WorkspaceSetupError::WorkspaceCatalogCorrupt)
    );
    let mut other = preset(&workspace);
    other.id = "preset-2".to_string();
    assert_eq!(
        placement_from_row(&row, Some(other)),
        Err(WorkspaceSetupError::WorkspaceCatalogSchemaMismatch)
    );
    let mut negative = row.clone();
    negative.endpoint_keep_alive_seconds = -1;
    assert_eq!(
        placement_from_row(&negative, Some(preset(&workspace))),
        Err(WorkspaceSetupError::WorkspaceCatalogSchemaMismatch)
    );
}

#[test]
fn oversized_volumes_cannot_be_stored() {
    let mut workspace = workspace();
    if let PlacementPlan::Runpod {
        persistent_storage_volume_size_bytes,
        ..
    } = &mut workspace.placement_plan
    {
        *persistent_storage_volume_size_bytes = u64::MAX;
    }
    assert_eq!(
        placement_row(&workspace.placement_plan),
        Err(WorkspaceSetupError::WorkspaceCatalogCorrupt)
    );
}

#[test]
fn persistence_versions_are_read_and_checked() {
    assert_eq!(persistence_version_from_text(None), Ok(0));
    assert_eq!(persistence_version_from_text(Some("2")), Ok(2));
    assert_eq!(persistence_version_from_text(Some("+17")), Ok(17));
    assert_eq!(persistence_version_from_text(Some("-3")), Ok(-3));
    assert_eq!(
        persistence_version_from_text(Some("two")),
        Err(WorkspaceSetupError::WorkspaceCatalogMigrationFailed)
    );
    assert_eq!(
        persistence_version_from_text(Some("")),
        Err(WorkspaceSetupError::WorkspaceCatalogMigrationFailed)
    );
    assert_eq!(
        persistence_version_from_text(Some("99999999999999999999")),
        Err(WorkspaceSetupError::WorkspaceCatalogMigrationFailed)
    );
    assert_eq!(
        persistence_version_from_text(Some("-9223372036854775808")),
        Ok(i64::MIN)
    );
    assert_eq!(
        persistence_version_from_text(Some("9223372036854775807")),
        Ok(i64::MAX)
    );
    for refused in ["9223372036854775808", "-9223372036854775809", "-", "+", "1a", " 2", "2 ", "--2"] {
        assert_eq!(
            persistence_version_from_text(Some(refused)),
            Err(WorkspaceSetupError::WorkspaceCatalogMigrationFailed),
            "{refused:?} should be refused"
        );
    }
    assert_eq!(persistence_version_from_text(Some("007")), Ok(7));
    assert_eq!(check_persistence_version(CURRENT_PERSISTENCE_VERSION), Ok(()));
    assert_eq!(check_persistence_version(0), Ok(()));
    assert_eq!(
        check_persistence_version(3),
        Err(WorkspaceSetupError::WorkspaceCatalogMigrationFailed)
    );
}

fn rows_of(workspace: &Workspace) -> WorkspaceDetailRows {
    let mut rows = WorkspaceDetailRows {
        base: WorkspaceBaseRow {
            id: workspace.id.clone(),
            name: workspace.name.clone(),
            gpu_cloud_provider_id: gpu_cloud_provider_id_value(&workspace.gpu_cloud_provider_id).to_string(),
            lifecycle_state: lifecycle_state_value(&workspace.lifecycle_state).to_string(),
            environment_prepared_at: workspace.environment_prepared_at.clone(),
        },
        placement: placement_row(&workspace.placement_plan).expect("placement row"),
        preset: Some(preset(workspace)),
        runtime_image: workspace.resolved_runtime_image.clone(),
        provisioner_image: workspace.resolved_provisioner_image.clone(),
        volume: None,
        active_pod: None,
        endpoint: None,
        last_pod: None,
        failure: workspace.last_provisioning_failure.as_ref().map(provisioning_failure_row),
        template: endpoint_template_row(workspace),
    };
    for stored in stored_resource_snapshots(workspace) {
        let row = resource_snapshot_row(&stored.snapshot);
        match stored.role {
            "persistent_storage_volume" => rows.volume = Some(row),
            "active_provisioning_pod" => rows.active_pod = Some(row),
            "last_provisioning_pod" => rows.last_pod = Some(row),
            "serverless_endpoint" => {
                let metadata = workspace
                    .serverless_endpoint_snapshot
                    .as_ref()
                    .and_then(|endpoint| endpoint.provider_metadata.clone());
                rows.endpoint = Some((row, Ok(metadata)));
            }
            other => panic!("unexpected role {other}"),
        }
    }
    rows
}

fn fully_detailed_workspace() -> Workspace {
    let mut workspace = ready_provisioning_workspace();
    workspace.active_provisioning_pod_snapshot = Some(pod(ProviderResourceStatus::Running));
    workspace.last_provisioning_pod_snapshot = Some(pod(ProviderResourceStatus::Terminated));
    workspace.provider_provisioning_snapshot = Some(ProviderProvisioningSnapshot::Runpod {
        endpoint_template_snapshot: Some(template(ProviderResourceStatus::Ready)),
    });
    workspace.last_provisioning_failure = Some(WorkspaceProvisioningFailure {
        code: WorkspaceProvisioningFailureCode::ProviderRateLimited,
        phase: WorkspaceProvisioningPhase::CreatingEndpoint,
        source: WorkspaceProvisioningFailureSource::Provider,
        recovery_action: WorkspaceProvisioningRecoveryAction::Retry,
    });
    workspace
}

#[test]
fn workspaces_are_read_back_from_the_rows_they_are_written_as() {
    let detailed = fully_detailed_workspace();
    assert_eq!(workspace_from_detail_rows(rows_of(&detailed)), Ok(detailed));
    let bare = workspace();
    assert_eq!(workspace_from_detail_rows(rows_of(&bare)), Ok(bare));
}

#[test]
fn unreadable_workspace_rows_are_mismatched_or_corrupt() {
    let workspace = fully_detailed_workspace();
    let mut unknown_state = rows_of(&workspace);
    unknown_state.base.lifecycle_state = "archived".to_string();
    assert_eq!(
        workspace_from_detail_rows(unknown_state),
        Err(WorkspaceSetupError::WorkspaceCatalogSchemaMismatch)
    );
    let mut unknown_provider = rows_of(&workspace);
    unknown_provider.base.gpu_cloud_provider_id = "lambda".to_string();
    assert_eq!(
        workspace_from_detail_rows(unknown_provider),
        Err(WorkspaceSetupError::WorkspaceCatalogSchemaMismatch)
    );
    let mut undecodable_preset = rows_of(&workspace);
    undecodable_preset.preset = None;
    assert_eq!(
        workspace_from_detail_rows(undecodable_preset),
        Err(WorkspaceSetupError::WorkspaceCatalogCorrupt)
    );
    let mut other_preset = rows_of(&workspace);
    other_preset.placement.selected_workflow_preset_id = "preset-2".to_string();
    assert_eq!(
        workspace_from_detail_rows(other_preset),
        Err(WorkspaceSetupError::WorkspaceCatalogSchemaMismatch)
    );
    let mut undecodable_metadata = rows_of(&workspace);
    let (endpoint_row, _) = undecodable_metadata.endpoint.take().expect("endpoint row");
    undecodable_metadata.endpoint = Some((endpoint_row, Err(())));
    assert_eq!(
        workspace_from_detail_rows(undecodable_metadata),
        Err(WorkspaceSetupError::WorkspaceCatalogCorrupt)
    );
    let mut pod_without_url = rows_of(&workspace);
    pod_without_url.active_pod.as_mut().expect("pod row").provisioner_status_url = None;
    assert_eq!(
        workspace_from_detail_rows(pod_without_url),
        Err(WorkspaceSetupError::WorkspaceCatalogSchemaMismatch)
    );
}

#[test]
fn workflow_execution_types_are_stored_as_text() {
    assert_eq!(workflow_execution_type_value(&WorkflowExecutionType::T2i), "t2i");
    assert_eq!(parse_workflow_execution_type("t2i"), Ok(WorkflowExecutionType::T2i));
    assert_eq!(
        parse_workflow_execution_type("i2v"),
        Err(WorkspaceSetupError::WorkspaceCatalogCorrupt)
    );
}
