use luma_forge::domain::{ModelAsset, ModelAssetSource};
use luma_forge::workspace_provisioning::gateway::{
    has_json_content_type, parse_worker_response, provisioner_worker_failure_code,
    status_from_response, terminal_failure_from_worker_error, worker_error_from_status,
    worker_url, ProvisionerWorkerError, ProvisionerWorkerErrorResponse,
    ProvisionerWorkerJobStatus, ProvisionerWorkerPhase, ProvisionerWorkerStartRequest,
    ProvisionerWorkerStatus, ProvisionerWorkerStatusResponse,
};

fn response(
    status: Option<&str>,
    phase: Option<&str>,
    progress_percent: Option<u8>,
) -> ProvisionerWorkerStatusResponse {
    ProvisionerWorkerStatusResponse {
        status: status.map(str::to_string),
        job_id: Some("workspace-1".to_string()),
        phase: phase.map(str::to_string),
        progress_percent,
        error: None,
    }
}

#[test]
fn gateway_status_from_response_accepts_idle_and_succeeded_without_phase() {
    let idle = status_from_response(response(Some("idle"), None, None))
        .expect("idle with no phase should be valid");
    assert_eq!(idle.status, ProvisionerWorkerJobStatus::Idle);
    assert_eq!(idle.phase, ProvisionerWorkerPhase::Idle);

    let succeeded = status_from_response(response(Some("succeeded"), None, Some(100)))
        .expect("succeeded with no phase should be valid");
    assert_eq!(succeeded.status, ProvisionerWorkerJobStatus::Succeeded);
    assert_eq!(succeeded.phase, ProvisionerWorkerPhase::Completed);
    assert_eq!(succeeded.progress_percent, Some(100));
}

#[test]
fn gateway_status_from_response_rejects_running_without_phase() {
    let error = status_from_response(response(Some("running"), None, Some(10)))
        .expect_err("running without phase should be invalid");

    assert_eq!(error, ProvisionerWorkerError::InvalidPayload);
}

#[test]
fn gateway_status_from_response_rejects_unsafe_progress_percent() {
    let error = status_from_response(response(
        Some("running"),
        Some("downloading_assets"),
        Some(101),
    ))
    .expect_err("progress above 100 should be invalid");

    assert_eq!(error, ProvisionerWorkerError::InvalidPayload);
}

#[test]
fn status_from_response_maps_failed_payload_to_terminal_failure_code() {
    let mut payload = response(Some("failed"), Some("failed"), None);
    payload.error = Some(ProvisionerWorkerErrorResponse {
        code: Some("asset_download_failed".to_string()),
    });

    let error = status_from_response(payload)
        .expect_err("failed status should become terminal worker failure");

    assert_eq!(error, ProvisionerWorkerError::AssetDownloadFailed);
}

#[test]
fn worker_error_code_maps_to_terminal_failure_code() {
    let code = terminal_failure_from_worker_error(ProvisionerWorkerErrorResponse {
        code: Some("asset_download_failed".to_string()),
    });

    assert_eq!(code, ProvisionerWorkerError::AssetDownloadFailed);
}

#[test]
fn gateway_worker_error_from_status_classifies_http_failures() {
    assert_eq!(
        worker_error_from_status(401, true),
        ProvisionerWorkerError::Unauthorized
    );
    assert_eq!(
        worker_error_from_status(403, true),
        ProvisionerWorkerError::Unauthorized
    );
    assert_eq!(
        worker_error_from_status(409, true),
        ProvisionerWorkerError::Conflict
    );
    assert_eq!(
        worker_error_from_status(502, true),
        ProvisionerWorkerError::Unreachable
    );
    assert_eq!(
        worker_error_from_status(400, true),
        ProvisionerWorkerError::InvalidPayload
    );
    assert_eq!(
        worker_error_from_status(400, false),
        ProvisionerWorkerError::Unreachable
    );
}

#[test]
fn worker_failure_codes_name_specific_failures() {
    assert_eq!(
        provisioner_worker_failure_code(Some("asset_auth_required")),
        ProvisionerWorkerError::AssetAuthRequired
    );
    assert_eq!(
        provisioner_worker_failure_code(Some("path_validation_failed")),
        ProvisionerWorkerError::PathValidationFailed
    );
    assert_eq!(
        provisioner_worker_failure_code(Some("step_timeout")),
        ProvisionerWorkerError::StepTimeout
    );
    assert_eq!(
        provisioner_worker_failure_code(Some("unexpected_exception")),
        ProvisionerWorkerError::UnexpectedError
    );
    assert_eq!(
        provisioner_worker_failure_code(Some("something_else")),
        ProvisionerWorkerError::Failed
    );
    assert_eq!(provisioner_worker_failure_code(None), ProvisionerWorkerError::Failed);
    assert_eq!(
        terminal_failure_from_worker_error(ProvisionerWorkerErrorResponse { code: None }),
        ProvisionerWorkerError::Failed
    );
}

#[test]
fn failed_payload_without_error_is_a_plain_failure() {
    assert_eq!(
        status_from_response(response(Some("failed"), None, None)),
        Err(ProvisionerWorkerError::Failed)
    );
}

#[test]
fn json_content_type_is_recognised_with_parameters_and_case() {
    assert!(has_json_content_type(Some("application/json")));
    assert!(has_json_content_type(Some("Application/JSON; charset=utf-8")));
    assert!(!has_json_content_type(Some("text/html")));
    assert!(!has_json_content_type(None));
}

#[test]
fn parse_worker_response_reads_a_successful_report() {
    assert_eq!(
        parse_worker_response(
            200,
            true,
            Some(response(Some("running"), Some("downloading_assets"), Some(40)))
        ),
        Ok(ProvisionerWorkerStatus {
            status: ProvisionerWorkerJobStatus::Running,
            phase: ProvisionerWorkerPhase::DownloadingAssets,
            progress_percent: Some(40),
        })
    );
    assert_eq!(
        parse_worker_response(200, false, None),
        Err(ProvisionerWorkerError::Unreachable)
    );
    assert_eq!(
        parse_worker_response(200, true, None),
        Err(ProvisionerWorkerError::InvalidPayload)
    );
    assert_eq!(
        parse_worker_response(503, true, None),
        Err(ProvisionerWorkerError::Unreachable)
    );
}

#[test]
fn new_worker_url_replaces_the_status_segment() {
    assert_eq!(
        worker_url("https://pod-1.example/status", "cancel"),
        Ok("https://pod-1.example/cancel".to_string())
    );
    assert_eq!(
        worker_url("https://pod-1.example/", "cancel"),
        Err(ProvisionerWorkerError::InvalidPayload)
    );
}

#[test]
fn start_request_carries_the_model_assets_in_order() {
    let asset = |id: &str| ModelAsset {
        id: id.to_string(),
        name: format!("{id} name"),
        download_source: ModelAssetSource::Huggingface {
            repository_id: "org/repo".to_string(),
            file_path: format!("{id}.safetensors"),
            revision: "main".to_string(),
        },
        install_comfyui_relative_path: format!("models/{id}.safetensors"),
    };
    let assets = vec![asset("a"), asset("b")];
    let request = ProvisionerWorkerStartRequest::from_model_assets("workspace-1".to_string(), &assets);
    assert_eq!(request.job_id, "workspace-1");
    let ids: Vec<&str> = request
        .workflow_preset
        .required_model_assets
        .iter()
        .map(|asset| asset.id.as_str())
        .collect();
    assert_eq!(ids, vec!["a", "b"]);
    assert_eq!(
        request.workflow_preset.required_model_assets[1].install_comfyui_relative_path,
        "models/b.safetensors"
    );
}
