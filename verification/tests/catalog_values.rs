use luma_forge::domain::{
    GpuCloudProviderId, ProviderResourceStatus, WorkspaceLifecycleState,
    WorkspaceProvisioningFailureCode, WorkspaceProvisioningFailureSource,
    WorkspaceProvisioningPhase, WorkspaceProvisioningRecoveryAction,
};
use luma_forge::setup_error::WorkspaceSetupError;
use luma_forge::values::{
    gpu_cloud_provider_id_value, lifecycle_state_value, parse_gpu_cloud_provider_id,
    parse_lifecycle_state, parse_provider_resource_status, parse_provisioning_failure_code,
    parse_provisioning_failure_source, parse_provisioning_phase,
    parse_provisioning_recovery_action, provider_resource_status_value,
    provisioning_failure_code_value, provisioning_failure_source_value,
    provisioning_phase_value, provisioning_recovery_action_value,
};

#[test]
fn provider_and_lifecycle_values_round_trip() {
    assert_eq!(
        gpu_cloud_provider_id_value(&GpuCloudProviderId::Runpod),
        "runpod"
    );
    assert_eq!(
        parse_gpu_cloud_provider_id("runpod"),
        Ok(GpuCloudProviderId::Runpod)
    );
    assert_eq!(
        parse_gpu_cloud_provider_id("other"),
        Err(WorkspaceSetupError::WorkspaceCatalogSchemaMismatch)
    );

    for (state, value) in [
        (WorkspaceLifecycleState::Draft, "draft"),
        (WorkspaceLifecycleState::Provisioning, "provisioning"),
        (WorkspaceLifecycleState::Ready, "ready"),
        (WorkspaceLifecycleState::Failed, "failed"),
    ] {
        assert_eq!(lifecycle_state_value(&state), value);
        assert_eq!(parse_lifecycle_state(value), Ok(state));
    }
    assert_eq!(
        parse_lifecycle_state("unknown"),
        Err(WorkspaceSetupError::WorkspaceCatalogSchemaMismatch)
    );
}

#[test]
fn provider_resource_status_values_round_trip() {
    for (status, value) in [
        (ProviderResourceStatus::Creating, "creating"),
        (ProviderResourceStatus::Running, "running"),
        (ProviderResourceStatus::Ready, "ready"),
        (ProviderResourceStatus::Terminated, "terminated"),
        (ProviderResourceStatus::Failed, "failed"),
        (ProviderResourceStatus::Unknown, "unknown"),
    ] {
        assert_eq!(provider_resource_status_value(&status), value);
        assert_eq!(parse_provider_resource_status(value), Ok(status));
    }
    assert_eq!(
        parse_provider_resource_status("other"),
        Err(WorkspaceSetupError::WorkspaceCatalogSchemaMismatch)
    );
}

#[test]
fn provisioning_failure_code_values_round_trip() {
    for (code, value) in [
        (
            WorkspaceProvisioningFailureCode::ProviderResourceFailed,
            "provider_resource_failed",
        ),
        (
            WorkspaceProvisioningFailureCode::ProviderResourceTerminated,
            "provider_resource_terminated",
        ),
        (
            WorkspaceProvisioningFailureCode::ProviderResourceUnknown,
            "provider_resource_unknown",
        ),
        (
            WorkspaceProvisioningFailureCode::ProviderResourceMissing,
            "provider_resource_missing",
        ),
        (
            WorkspaceProvisioningFailureCode::ProviderOrphanedResources,
            "provider_orphaned_resources",
        ),
        (
            WorkspaceProvisioningFailureCode::ProviderOperationIndeterminate,
            "provider_operation_indeterminate",
        ),
        (
            WorkspaceProvisioningFailureCode::ProvisionerWorkerTokenMissing,
            "provisioner_worker_token_missing",
        ),
        (
            WorkspaceProvisioningFailureCode::ProvisionerWorkerTokenInvalid,
            "provisioner_worker_token_invalid",
        ),
        (
            WorkspaceProvisioningFailureCode::ProvisionerWorkerUnauthorized,
            "provisioner_worker_unauthorized",
        ),
        (
            WorkspaceProvisioningFailureCode::ProvisionerWorkerResponseInvalid,
            "provisioner_worker_response_invalid",
        ),
        (
            WorkspaceProvisioningFailureCode::ProvisionerWorkerFailed,
            "provisioner_worker_failed",
        ),
        (
            WorkspaceProvisioningFailureCode::ProvisionerWorkerGitCheckoutFailed,
            "provisioner_worker_git_checkout_failed",
        ),
        (
            WorkspaceProvisioningFailureCode::ProvisionerWorkerDependencyInstallFailed,
            "provisioner_worker_dependency_install_failed",
        ),
        (
            WorkspaceProvisioningFailureCode::ProvisionerWorkerAssetDownloadFailed,
            "provisioner_worker_asset_download_failed",
        ),
        (
            WorkspaceProvisioningFailureCode::ProvisionerWorkerAssetAuthRequired,
            "provisioner_worker_asset_auth_required",
        ),
        (
            WorkspaceProvisioningFailureCode::ProvisionerWorkerPathValidationFailed,
            "provisioner_worker_path_validation_failed",
        ),
        (
            WorkspaceProvisioningFailureCode::ProvisionerWorkerStepTimeout,
            "provisioner_worker_step_timeout",
        ),
        (
            WorkspaceProvisioningFailureCode::ProvisionerWorkerUnexpectedError,
            "provisioner_worker_unexpected_error",
        ),
        (
            WorkspaceProvisioningFailureCode::ReadinessValidationFailed,
            "readiness_validation_failed",
        ),
        (
            WorkspaceProvisioningFailureCode::CancellationCleanupFailed,
            "cancellation_cleanup_failed",
        ),
        (
            WorkspaceProvisioningFailureCode::LegacyFailure,
            "legacy_failure",
        ),
    ] {
        assert_eq!(provisioning_failure_code_value(&code), value);
        assert_eq!(parse_provisioning_failure_code(value), Ok(code));
    }
    assert_eq!(
        parse_provisioning_failure_code("other"),
        Err(WorkspaceSetupError::WorkspaceCatalogSchemaMismatch)
    );
}

#[test]
fn provisioning_failure_source_values_round_trip() {
    for (source, value) in [
        (WorkspaceProvisioningFailureSource::Native, "native"),
        (WorkspaceProvisioningFailureSource::Provider, "provider"),
        (
            WorkspaceProvisioningFailureSource::ProviderResource,
            "provider_resource",
        ),
        (
            WorkspaceProvisioningFailureSource::ProvisionerWorker,
            "provisioner_worker",
        ),
    ] {
        assert_eq!(provisioning_failure_source_value(&source), value);
        assert_eq!(parse_provisioning_failure_source(value), Ok(source));
    }
    assert_eq!(
        parse_provisioning_failure_source("other"),
        Err(WorkspaceSetupError::WorkspaceCatalogSchemaMismatch)
    );
}

#[test]
fn provisioning_phase_values_round_trip() {
    for (phase, value) in [
        (WorkspaceProvisioningPhase::NotStarted, "not_started"),
        (
            WorkspaceProvisioningPhase::CreatingVolume,
            "creating_volume",
        ),
        (
            WorkspaceProvisioningPhase::StartingProvisioningPod,
            "starting_provisioning_pod",
        ),
        (
            WorkspaceProvisioningPhase::PreparingEnvironment,
            "preparing_environment",
        ),
        (
            WorkspaceProvisioningPhase::CreatingEndpointTemplate,
            "creating_endpoint_template",
        ),
        (
            WorkspaceProvisioningPhase::CreatingEndpoint,
            "creating_endpoint",
        ),
        (
            WorkspaceProvisioningPhase::ValidatingReadiness,
            "validating_readiness",
        ),
        (WorkspaceProvisioningPhase::CleaningUp, "cleaning_up"),
        (WorkspaceProvisioningPhase::Completed, "completed"),
        (WorkspaceProvisioningPhase::Failed, "failed"),
    ] {
        assert_eq!(provisioning_phase_value(&phase), value);
        assert_eq!(parse_provisioning_phase(value), Ok(phase));
    }
    assert_eq!(
        parse_provisioning_phase("other"),
        Err(WorkspaceSetupError::WorkspaceCatalogSchemaMismatch)
    );
}

#[test]
fn provisioning_recovery_action_values_round_trip() {
    for (action, value) in [
        (WorkspaceProvisioningRecoveryAction::Retry, "retry"),
        (
            WorkspaceProvisioningRecoveryAction::RecoverProviderSetup,
            "recover_provider_setup",
        ),
        (
            WorkspaceProvisioningRecoveryAction::ReselectPlacement,
            "reselect_placement",
        ),
        (
            WorkspaceProvisioningRecoveryAction::InspectWorkspaceProvisioning,
            "inspect_workspace_provisioning",
        ),
        (
            WorkspaceProvisioningRecoveryAction::CleanupWorkspaceResources,
            "cleanup_workspace_resources",
        ),
    ] {
        assert_eq!(provisioning_recovery_action_value(&action), value);
        assert_eq!(parse_provisioning_recovery_action(value), Ok(action));
    }
    assert_eq!(
        parse_provisioning_recovery_action("other"),
        Err(WorkspaceSetupError::WorkspaceCatalogSchemaMismatch)
    );
}
