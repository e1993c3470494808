use luma_forge::domain::{WorkspaceProvisioningPhase, WorkspaceProvisioningStatus};
use luma_forge::workspace_provisioner::gateway::{
    parse_worker_response, progress_from_worker_status, sanitize_diagnostic, status_from_response,
    success_payload_error, worker_error_from_status, worker_url, ProvisionerWorkerError,
    ProvisionerWorkerErrorResponse, ProvisionerWorkerJobStatus, ProvisionerWorkerPhase,
    ProvisionerWorkerStatus, ProvisionerWorkerStatusResponse,
};

fn response(
    status: Option<&str>,
    phase: Option<&str>,
    progress_percent: Option<u8>,
) -> ProvisionerWorkerStatusResponse {
    ProvisionerWorkerStatusResponse {
        status: status.map(str::to_string),
        job_id: Some("workspace-1".to_string()),
        phase: phase.map(str::to_string),
        progress_percent,
        diagnostic: None,
        diagnostic_message: None,
        error: None,
    }
}

#[test]
fn status_from_response_accepts_idle_and_succeeded_without_phase() {
    let idle = status_from_response(response(Some("idle"), None, None))
        .expect("idle with no phase should be valid");
    assert_eq!(idle.status, ProvisionerWorkerJobStatus::Idle);
    assert_eq!(idle.phase, ProvisionerWorkerPhase::Idle);

    let succeeded = status_from_response(response(Some("succeeded"), None, Some(100)))
        .expect("succeeded with no phase should be valid");
    assert_eq!(succeeded.status, ProvisionerWorkerJobStatus::Succeeded);
    assert_eq!(succeeded.phase, ProvisionerWorkerPhase::Completed);
    assert_eq!(succeeded.progress_percent, Some(100));
}

#[test]
fn status_from_response_rejects_running_without_phase() {
    let error = status_from_response(response(Some("running"), None, Some(10)))
        .expect_err("running without phase should be invalid");

    assert_eq!(
        error,
        ProvisionerWorkerError::InvalidPayload { diagnostic: None }
    );
}

#[test]
fn status_from_response_rejects_unsafe_progress_percent() {
    let error = status_from_response(response(
        Some("running"),
        Some("installing_models"),
        Some(101),
    ))
    .expect_err("progress above 100 should be invalid");

    assert_eq!(
        error,
        ProvisionerWorkerError::InvalidPayload { diagnostic: None }
    );
}

#[test]
fn status_from_response_maps_failed_payload_to_terminal_failure_with_sanitized_diagnostic() {
    let mut payload = response(Some("failed"), Some("failed"), None);
    payload.diagnostic =
        Some("line1\u{0}\nline2\nline3\nline4\nline5\nline6\nline7\nline8\nline9".to_string());

    let error = status_from_response(payload)
        .expect_err("failed status should become terminal worker failure");

    assert_eq!(
        error,
        ProvisionerWorkerError::TerminalFailure {
            diagnostic: Some(
                "line1\nline2\nline3\nline4\nline5\nline6\nline7\nline8".to_string()
            ),
        }
    );
}

#[test]
fn status_from_response_normalizes_worker_phase_aliases() {
    let runtime = status_from_response(response(
        Some("running"),
        Some("installing_comfyui"),
        Some(20),
    ))
    .expect("runtime phase alias should be valid");
    assert_eq!(runtime.phase, ProvisionerWorkerPhase::ValidatingRuntime);

    let assets = status_from_response(response(
        Some("running"),
        Some("downloading_assets"),
        Some(60),
    ))
    .expect("asset phase alias should be valid");
    assert_eq!(assets.phase, ProvisionerWorkerPhase::InstallingModels);

    let manifest = status_from_response(response(
        Some("running"),
        Some("verifying_assets"),
        Some(90),
    ))
    .expect("manifest phase alias should be valid");
    assert_eq!(manifest.phase, ProvisionerWorkerPhase::WritingManifest);
}

#[test]
fn progress_from_worker_status_maps_worker_status_to_workspace_progress() {
    let running = progress_from_worker_status(&ProvisionerWorkerStatus {
        status: ProvisionerWorkerJobStatus::Running,
        phase: ProvisionerWorkerPhase::InstallingCustomNodes,
        progress_percent: Some(55),
        diagnostic: None,
    });
    assert_eq!(running.status, WorkspaceProvisioningStatus::Running);
    assert_eq!(
        running.phase,
        WorkspaceProvisioningPhase::PreparingEnvironment
    );
    assert_eq!(running.percent, Some(55));
    assert_eq!(running.failure, None);

    let cancelling = progress_from_worker_status(&ProvisionerWorkerStatus {
        status: ProvisionerWorkerJobStatus::Cancelling,
        phase: ProvisionerWorkerPhase::Cancelled,
        progress_percent: None,
        diagnostic: None,
    });
    assert_eq!(cancelling.status, WorkspaceProvisioningStatus::Cancelling);
    assert_eq!(cancelling.phase, WorkspaceProvisioningPhase::CleaningUp);

    let completed = progress_from_worker_status(&ProvisionerWorkerStatus {
        status: ProvisionerWorkerJobStatus::Succeeded,
        phase: ProvisionerWorkerPhase::Completed,
        progress_percent: Some(100),
        diagnostic: None,
    });
    assert_eq!(completed.status, WorkspaceProvisioningStatus::Running);
    assert_eq!(
        completed.phase,
        WorkspaceProvisioningPhase::CreatingEndpointTemplate
    );
}

#[test]
fn worker_error_from_status_classifies_http_failures() {
    assert_eq!(
        worker_error_from_status(401, None, true),
        ProvisionerWorkerError::Unauthorized
    );
    assert_eq!(
        worker_error_from_status(403, None, true),
        ProvisionerWorkerError::Unauthorized
    );
    assert_eq!(
        worker_error_from_status(409, None, true),
        ProvisionerWorkerError::Conflict
    );
    assert_eq!(
        worker_error_from_status(502, None, true),
        ProvisionerWorkerError::Unreachable
    );
    assert_eq!(
        worker_error_from_status(400, Some("bad".to_string()), true),
        ProvisionerWorkerError::InvalidPayload {
            diagnostic: Some("bad".to_string())
        }
    );
    assert_eq!(
        worker_error_from_status(400, None, false),
        ProvisionerWorkerError::Unreachable
    );
}

#[test]
fn sanitize_diagnostic_drops_control_characters_and_blank_results() {
    assert_eq!(sanitize_diagnostic("  ok\u{7}\tdone  ".to_string()), "  okdone  ");
    assert_eq!(sanitize_diagnostic("a\nb\n".to_string()), "a\nb");
    assert_eq!(sanitize_diagnostic("\u{1}\u{2}".to_string()), "");
}

#[test]
fn sanitize_diagnostic_keeps_at_most_eight_lines() {
    let text = "1\n2\n3\n4\n5\n6\n7\n8\n9\n10".to_string();
    assert_eq!(sanitize_diagnostic(text), "1\n2\n3\n4\n5\n6\n7\n8");
}

#[test]
fn status_from_response_requires_a_known_status() {
    assert_eq!(
        status_from_response(response(None, Some("starting"), None)),
        Err(ProvisionerWorkerError::InvalidPayload { diagnostic: None })
    );
    assert_eq!(
        status_from_response(response(Some("paused"), Some("starting"), None)),
        Err(ProvisionerWorkerError::InvalidPayload { diagnostic: None })
    );
}

#[test]
fn failed_payload_falls_back_to_diagnostic_message_then_error_parts() {
    let mut payload = response(Some("failed"), None, None);
    payload.diagnostic = Some("   ".to_string());
    payload.diagnostic_message = Some("message".to_string());
    assert_eq!(
        status_from_response(payload),
        Err(ProvisionerWorkerError::TerminalFailure {
            diagnostic: Some("message".to_string())
        })
    );

    let mut payload = response(Some("failed"), None, None);
    payload.error = Some(ProvisionerWorkerErrorResponse {
        code: Some("asset_download_failed".to_string()),
        reason_code: None,
        message: Some("no space".to_string()),
    });
    let error = status_from_response(payload).expect_err("failed");
    match error {
        ProvisionerWorkerError::TerminalFailure { diagnostic: Some(text) } => {
            assert!(text.contains("asset_download_failed"));
            assert!(text.contains("no space"));
        }
        other => panic!("unexpected error {other:?}"),
    }
}

#[test]
fn success_payload_error_depends_on_worker_json() {
    assert_eq!(
        success_payload_error(true),
        ProvisionerWorkerError::InvalidPayload { diagnostic: None }
    );
    assert_eq!(success_payload_error(false), ProvisionerWorkerError::Unreachable);
}

#[test]
fn worker_url_replaces_the_status_segment() {
    assert_eq!(
        worker_url("https://pod.example/status", "start"),
        Ok("https://pod.example/start".to_string())
    );
    assert_eq!(
        worker_url("https://pod.example/health", "start"),
        Err(ProvisionerWorkerError::InvalidPayload { diagnostic: None })
    );
}

#[test]
fn parse_worker_response_classifies_answers() {
    let ok = parse_worker_response(200, true, None, Some(response(Some("idle"), None, None)));
    assert_eq!(ok.map(|status| status.status), Ok(ProvisionerWorkerJobStatus::Idle));
    assert_eq!(
        parse_worker_response(200, true, None, None),
        Err(ProvisionerWorkerError::InvalidPayload { diagnostic: None })
    );
    assert_eq!(
        parse_worker_response(401, true, None, None),
        Err(ProvisionerWorkerError::Unauthorized)
    );
}
