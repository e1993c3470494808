//! What the provisioner worker reports, and how its HTTP answers are read.
use vstd::prelude::*;
use vstd::string::StringExecFns;
use crate::domain::{ModelAsset, ModelAssetSource};
use super::contracts::ProvisionerWorkerBearerToken;
use crate::text::{eq_ignore_ascii_case, spec_eq_ignore_ascii_case, spec_ends_with, spec_trim, str_equals, strip_suffix, trim};

verus! {

/// The job status a provisioner worker reports.
#[derive(Clone, Copy, Debug, PartialEq, Eq, Structural)]
pub enum ProvisionerWorkerJobStatus {
    Idle,
    Running,
    Cancelling,
    Cancelled,
    Succeeded,
    Failed,
}

/// The step a provisioner worker reports it is in.
#[derive(Clone, Copy, Debug, PartialEq, Eq, Structural)]
pub enum ProvisionerWorkerPhase {
    Idle,
    Starting,
    ResolvingWorkflow,
    PreparingWorkspace,
    DownloadingAssets,
    ValidatingAssets,
    Completed,
    Cancelled,
    Failed,
}

/// A validated status report of a provisioner worker.
#[derive(Clone, Copy, Debug, PartialEq, Eq, Structural)]
pub struct ProvisionerWorkerStatus {
    pub status: ProvisionerWorkerJobStatus,
    pub phase: ProvisionerWorkerPhase,
    pub progress_percent: Option<u8>,
}

/// Why a call to the provisioner worker did not give a usable status.
#[derive(Clone, Copy, Debug, PartialEq, Eq, Structural)]
pub enum ProvisionerWorkerError {
    Unauthorized,
    Conflict,
    Unreachable,
    InvalidPayload,
    Failed,
    AssetDownloadFailed,
    AssetAuthRequired,
    PathValidationFailed,
    StepTimeout,
    UnexpectedError,
}

/// The HTTP client of the provisioner worker could not be built.
#[derive(Clone, Copy, Debug, PartialEq, Eq, Structural)]
pub struct ProvisionerWorkerHttpGatewayInitError;


/// A status report of the provisioner worker as it arrives, before it is checked.
#[derive(Clone, Debug, PartialEq, Eq)]
pub struct ProvisionerWorkerStatusResponse {
    pub status: Option<String>,
    pub job_id: Option<String>,
    pub phase: Option<String>,
    pub progress_percent: Option<u8>,
    pub error: Option<ProvisionerWorkerErrorResponse>,
}

/// The error part of a worker status report.
#[derive(Clone, Debug, PartialEq, Eq)]
pub struct ProvisionerWorkerErrorResponse {
    pub code: Option<String>,
}

/// The characters of an optional text.
pub open spec fn opt_text(value: Option<String>) -> Option<Seq<char>> {
    match value {
        Some(s) => Some(s@),
        None => None,
    }
}

/// The job status a worker names with a text.
pub open spec fn spec_job_status_from_text(value: Seq<char>) -> Option<ProvisionerWorkerJobStatus> {
    if value == "idle"@ {
        Some(ProvisionerWorkerJobStatus::Idle)
    } else if value == "running"@ {
        Some(ProvisionerWorkerJobStatus::Running)
    } else if value == "cancelling"@ {
        Some(ProvisionerWorkerJobStatus::Cancelling)
    } else if value == "cancelled"@ {
        Some(ProvisionerWorkerJobStatus::Cancelled)
    } else if value == "succeeded"@ {
        Some(ProvisionerWorkerJobStatus::Succeeded)
    } else if value == "failed"@ {
        Some(ProvisionerWorkerJobStatus::Failed)
    } else {
        None
    }
}

fn job_status_from_text(value: &str) -> (r: Option<ProvisionerWorkerJobStatus>)
    ensures
        r == spec_job_status_from_text(value@),
{
    if str_equals(value, "idle") {
        Some(ProvisionerWorkerJobStatus::Idle)
    } else if str_equals(value, "running") {
        Some(ProvisionerWorkerJobStatus::Running)
    } else if str_equals(value, "cancelling") {
        Some(ProvisionerWorkerJobStatus::Cancelling)
    } else if str_equals(value, "cancelled") {
        Some(ProvisionerWorkerJobStatus::Cancelled)
    } else if str_equals(value, "succeeded") {
        Some(ProvisionerWorkerJobStatus::Succeeded)
    } else if str_equals(value, "failed") {
        Some(ProvisionerWorkerJobStatus::Failed)
    } else {
        None
    }
}

/// The worker phase a worker names with a text.
pub open spec fn spec_phase_from_text(value: Seq<char>) -> Option<ProvisionerWorkerPhase> {
    if value == "idle"@ {
        Some(ProvisionerWorkerPhase::Idle)
    } else if value == "starting"@ {
        Some(ProvisionerWorkerPhase::Starting)
    } else if value == "resolving_workflow"@ {
        Some(ProvisionerWorkerPhase::ResolvingWorkflow)
    } else if value == "preparing_workspace"@ {
        Some(ProvisionerWorkerPhase::PreparingWorkspace)
    } else if value == "downloading_assets"@ {
        Some(ProvisionerWorkerPhase::DownloadingAssets)
    } else if value == "validating_environment"@ {
        Some(ProvisionerWorkerPhase::ValidatingAssets)
    } else if value == "completed"@ {
        Some(ProvisionerWorkerPhase::Completed)
    } else if value == "cancelled"@ {
        Some(ProvisionerWorkerPhase::Cancelled)
    } else if value == "failed"@ {
        Some(ProvisionerWorkerPhase::Failed)
    } else {
        None
    }
}

/// The phase of a report: a named phase must be known; a report without a phase is read by
/// its job status, and a running or cancelling job must name its phase.
pub open spec fn spec_phase_from_response(phase: Option<Seq<char>>, status: ProvisionerWorkerJobStatus) -> Result<ProvisionerWorkerPhase, ProvisionerWorkerError> {
    match phase {
        Some(text) => match spec_phase_from_text(text) {
            Some(p) => Ok(p),
            None => Err(ProvisionerWorkerError::InvalidPayload),
        },
        None => match status {
            ProvisionerWorkerJobStatus::Idle => Ok(ProvisionerWorkerPhase::Idle),
            ProvisionerWorkerJobStatus::Succeeded => Ok(ProvisionerWorkerPhase::Completed),
            ProvisionerWorkerJobStatus::Cancelled => Ok(ProvisionerWorkerPhase::Cancelled),
            ProvisionerWorkerJobStatus::Failed => Ok(ProvisionerWorkerPhase::Failed),
            ProvisionerWorkerJobStatus::Running | ProvisionerWorkerJobStatus::Cancelling => Err(ProvisionerWorkerError::InvalidPayload),
        },
    }
}

/// Reads the phase of a report.
pub fn phase_from_response(phase: Option<&str>, status: &ProvisionerWorkerJobStatus) -> (r: Result<ProvisionerWorkerPhase, ProvisionerWorkerError>)
    ensures
        r == spec_phase_from_response(match phase { Some(p) => Some(p@), None => None }, *status),
{
    match phase {
        Some(value) => {
            if str_equals(value, "idle") {
                Ok(ProvisionerWorkerPhase::Idle)
            } else if str_equals(value, "starting") {
                Ok(ProvisionerWorkerPhase::Starting)
            } else if str_equals(value, "resolving_workflow") {
                Ok(ProvisionerWorkerPhase::ResolvingWorkflow)
            } else if str_equals(value, "preparing_workspace") {
                Ok(ProvisionerWorkerPhase::PreparingWorkspace)
            } else if str_equals(value, "downloading_assets") {
                Ok(ProvisionerWorkerPhase::DownloadingAssets)
            } else if str_equals(value, "validating_environment") {
                Ok(ProvisionerWorkerPhase::ValidatingAssets)
            } else if str_equals(value, "completed") {
                Ok(ProvisionerWorkerPhase::Completed)
            } else if str_equals(value, "cancelled") {
                Ok(ProvisionerWorkerPhase::Cancelled)
            } else if str_equals(value, "failed") {
                Ok(ProvisionerWorkerPhase::Failed)
            } else {
                Err(ProvisionerWorkerError::InvalidPayload)
            }
        },
        None => match status {
            ProvisionerWorkerJobStatus::Idle => Ok(ProvisionerWorkerPhase::Idle),
            ProvisionerWorkerJobStatus::Succeeded => Ok(ProvisionerWorkerPhase::Completed),
            ProvisionerWorkerJobStatus::Cancelled => Ok(ProvisionerWorkerPhase::Cancelled),
            ProvisionerWorkerJobStatus::Failed => Ok(ProvisionerWorkerPhase::Failed),
            ProvisionerWorkerJobStatus::Running | ProvisionerWorkerJobStatus::Cancelling => Err(ProvisionerWorkerError::InvalidPayload),
        },
    }
}

/// The specific failure that a worker error code names, where it names one.
pub open spec fn spec_known_failure_code(value: Seq<char>) -> Option<ProvisionerWorkerError> {
    if value == "asset_download_failed"@ {
        Some(ProvisionerWorkerError::AssetDownloadFailed)
    } else if value == "asset_auth_required"@ {
        Some(ProvisionerWorkerError::AssetAuthRequired)
    } else if value == "path_validation_failed"@ {
        Some(ProvisionerWorkerError::PathValidationFailed)
    } else if value == "step_timeout"@ {
        Some(ProvisionerWorkerError::StepTimeout)
    } else if value == "unexpected_exception"@ || value == "unexpected_error"@ {
        Some(ProvisionerWorkerError::UnexpectedError)
    } else {
        None
    }
}

/// Reads the specific failure that a worker error code names.
pub fn known_provisioner_worker_failure_code(value: &str) -> (r: Option<ProvisionerWorkerError>)
    ensures
        r == spec_known_failure_code(value@),
{
    if str_equals(value, "asset_download_failed") {
        Some(ProvisionerWorkerError::AssetDownloadFailed)
    } else if str_equals(value, "asset_auth_required") {
        Some(ProvisionerWorkerError::AssetAuthRequired)
    } else if str_equals(value, "path_validation_failed") {
        Some(ProvisionerWorkerError::PathValidationFailed)
    } else if str_equals(value, "step_timeout") {
        Some(ProvisionerWorkerError::StepTimeout)
    } else if str_equals(value, "unexpected_exception") || str_equals(value, "unexpected_error") {
        Some(ProvisionerWorkerError::UnexpectedError)
    } else {
        None
    }
}

/// The terminal failure named by an optional worker error code; an absent or unknown code is a
/// plain failure.
pub open spec fn spec_failure_from_code(code: Option<Seq<char>>) -> ProvisionerWorkerError {
    match code {
        Some(c) => match spec_known_failure_code(c) {
            Some(e) => e,
            None => ProvisionerWorkerError::Failed,
        },
        None => ProvisionerWorkerError::Failed,
    }
}

/// Reads the terminal failure named by an optional worker error code.
pub fn provisioner_worker_failure_code(code: Option<&str>) -> (r: ProvisionerWorkerError)
    ensures
        r == spec_failure_from_code(match code { Some(c) => Some(c@), None => None }),
{
    match code {
        Some(c) => match known_provisioner_worker_failure_code(c) {
            Some(e) => e,
            None => ProvisionerWorkerError::Failed,
        },
        None => ProvisionerWorkerError::Failed,
    }
}

/// Reads the terminal failure that the error part of a report names.
pub fn terminal_failure_from_worker_error(error: ProvisionerWorkerErrorResponse) -> (r: ProvisionerWorkerError)
    ensures
        r == spec_failure_from_code(opt_text(error.code)),
{
    match &error.code {
        Some(c) => provisioner_worker_failure_code(Some(c.as_str())),
        None => provisioner_worker_failure_code(None),
    }
}

/// The failure that a failed job reports, read from the error part of its report.
pub open spec fn spec_reported_failure(error: Option<ProvisionerWorkerErrorResponse>) -> ProvisionerWorkerError {
    match error {
        Some(e) => spec_failure_from_code(opt_text(e.code)),
        None => ProvisionerWorkerError::Failed,
    }
}

/// A report is checked in this order: its job status must be known, its phase must be known or
/// implied, its percent must be at most 100, and a failed job is reported as its failure.
pub open spec fn spec_status_from_response(response: ProvisionerWorkerStatusResponse) -> Result<ProvisionerWorkerStatus, ProvisionerWorkerError> {
    match opt_text(response.status) {
        None => Err(ProvisionerWorkerError::InvalidPayload),
        Some(text) => match spec_job_status_from_text(text) {
            None => Err(ProvisionerWorkerError::InvalidPayload),
            Some(status) => match spec_phase_from_response(opt_text(response.phase), status) {
                Err(e) => Err(e),
                Ok(phase) => if response.progress_percent matches Some(p) && p > 100 {
                    Err(ProvisionerWorkerError::InvalidPayload)
                } else if status == ProvisionerWorkerJobStatus::Failed {
                    Err(spec_reported_failure(response.error))
                } else {
                    Ok(ProvisionerWorkerStatus { status, phase, progress_percent: response.progress_percent })
                },
            },
        },
    }
}

/// An accepted worker report never reports a failed job, never more than 100 percent, and a
/// running or cancelling job in it always named its phase.
pub proof fn accepted_report_is_sound(response: ProvisionerWorkerStatusResponse)
    requires
        spec_status_from_response(response) is Ok,
    ensures
        spec_status_from_response(response)->Ok_0.status != ProvisionerWorkerJobStatus::Failed,
        spec_status_from_response(response)->Ok_0.progress_percent matches Some(p) ==> p <= 100,
        (spec_status_from_response(response)->Ok_0.status == ProvisionerWorkerJobStatus::Running
            || spec_status_from_response(response)->Ok_0.status == ProvisionerWorkerJobStatus::Cancelling)
            ==> response.phase is Some,
{
}

/// The text with which the worker protocol names a job status.
pub open spec fn worker_job_status_text(status: ProvisionerWorkerJobStatus) -> Seq<char> {
    match status {
        ProvisionerWorkerJobStatus::Idle => "idle"@,
        ProvisionerWorkerJobStatus::Running => "running"@,
        ProvisionerWorkerJobStatus::Cancelling => "cancelling"@,
        ProvisionerWorkerJobStatus::Cancelled => "cancelled"@,
        ProvisionerWorkerJobStatus::Succeeded => "succeeded"@,
        ProvisionerWorkerJobStatus::Failed => "failed"@,
    }
}

/// The text with which the worker protocol names a phase.
pub open spec fn worker_phase_text(phase: ProvisionerWorkerPhase) -> Seq<char> {
    match phase {
        ProvisionerWorkerPhase::Idle => "idle"@,
        ProvisionerWorkerPhase::Starting => "starting"@,
        ProvisionerWorkerPhase::ResolvingWorkflow => "resolving_workflow"@,
        ProvisionerWorkerPhase::PreparingWorkspace => "preparing_workspace"@,
        ProvisionerWorkerPhase::DownloadingAssets => "downloading_assets"@,
        ProvisionerWorkerPhase::ValidatingAssets => "validating_environment"@,
        ProvisionerWorkerPhase::Completed => "completed"@,
        ProvisionerWorkerPhase::Cancelled => "cancelled"@,
        ProvisionerWorkerPhase::Failed => "failed"@,
    }
}

/// Each job status is read back from the text the worker protocol names it with, and a text
/// read as a job status is exactly that status's name.
pub proof fn worker_job_status_text_round_trip(status: ProvisionerWorkerJobStatus, value: Seq<char>)
    ensures
        spec_job_status_from_text(worker_job_status_text(status)) == Some(status),
        spec_job_status_from_text(value) == Some(status) ==> value == worker_job_status_text(status),
{
    reveal_strlit("idle");
    reveal_strlit("running");
    reveal_strlit("cancelling");
    reveal_strlit("cancelled");
    reveal_strlit("succeeded");
    reveal_strlit("failed");
    assert("idle"@.len() == 4);
    assert("running"@.len() == 7);
    assert("cancelling"@.len() == 10);
    assert("cancelled"@.len() == 9);
    assert("succeeded"@.len() == 9);
    assert("failed"@.len() == 6);
    assert("cancelled"@[0] == 'c');
    assert("succeeded"@[0] == 's');
}

/// Each worker phase is read back from the text the worker protocol names it with, and a text
/// read as a phase is exactly that phase's name.
pub proof fn worker_phase_text_round_trip(phase: ProvisionerWorkerPhase, value: Seq<char>)
    ensures
        spec_phase_from_text(worker_phase_text(phase)) == Some(phase),
        spec_phase_from_text(value) == Some(phase) ==> value == worker_phase_text(phase),
{
    reveal_strlit("idle");
    reveal_strlit("starting");
    reveal_strlit("resolving_workflow");
    reveal_strlit("preparing_workspace");
    reveal_strlit("downloading_assets");
    reveal_strlit("validating_environment");
    reveal_strlit("completed");
    reveal_strlit("cancelled");
    reveal_strlit("failed");
    assert("idle"@.len() == 4);
    assert("starting"@.len() == 8);
    assert("resolving_workflow"@.len() == 18);
    assert("preparing_workspace"@.len() == 19);
    assert("downloading_assets"@.len() == 18);
    assert("validating_environment"@.len() == 22);
    assert("completed"@.len() == 9);
    assert("cancelled"@.len() == 9);
    assert("failed"@.len() == 6);
    assert("downloading_assets"@[0] == 'd');
    assert("resolving_workflow"@[0] == 'r');
    assert("cancelled"@[1] == 'a');
    assert("completed"@[1] == 'o');
}

/// A report that names a job status other than failed and a phase by their protocol texts,
/// with a percent of at most 100, is accepted with exactly that status, phase and percent; and
/// an accepted report that named its phase holds the phase it named.
pub proof fn named_report_is_read_as_named(
    response: ProvisionerWorkerStatusResponse,
    status: ProvisionerWorkerJobStatus,
    phase: ProvisionerWorkerPhase,
)
    ensures
        opt_text(response.status) == Some(worker_job_status_text(status))
            && opt_text(response.phase) == Some(worker_phase_text(phase))
            && status != ProvisionerWorkerJobStatus::Failed
            && (response.progress_percent matches Some(p) ==> p <= 100)
            ==> spec_status_from_response(response)
                == Ok::<ProvisionerWorkerStatus, ProvisionerWorkerError>(ProvisionerWorkerStatus {
                    status,
                    phase,
                    progress_percent: response.progress_percent,
                }),
        match spec_status_from_response(response) {
            Ok(report) => {
                &&& opt_text(response.status) == Some(worker_job_status_text(report.status))
                &&& opt_text(response.phase) is Some ==> opt_text(response.phase) == Some(worker_phase_text(report.phase))
            },
            Err(_) => true,
        },
{
    worker_job_status_text_round_trip(status, worker_job_status_text(status));
    worker_phase_text_round_trip(phase, worker_phase_text(phase));
    if let Ok(report) = spec_status_from_response(response) {
        worker_job_status_text_round_trip(report.status, opt_text(response.status)->Some_0);
        if opt_text(response.phase) is Some {
            worker_phase_text_round_trip(report.phase, opt_text(response.phase)->Some_0);
        }
    }
}

/// Each error code that the worker protocol names is read as the failure of the same name (an
/// unexpected exception and an unexpected error alike); any other code, and no code, is a plain
/// failure of the worker.
pub proof fn worker_failure_codes_are_read_by_name(code: Option<Seq<char>>)
    ensures
        spec_failure_from_code(Some("asset_download_failed"@)) == ProvisionerWorkerError::AssetDownloadFailed,
        spec_failure_from_code(Some("asset_auth_required"@)) == ProvisionerWorkerError::AssetAuthRequired,
        spec_failure_from_code(Some("path_validation_failed"@)) == ProvisionerWorkerError::PathValidationFailed,
        spec_failure_from_code(Some("step_timeout"@)) == ProvisionerWorkerError::StepTimeout,
        spec_failure_from_code(Some("unexpected_exception"@)) == ProvisionerWorkerError::UnexpectedError,
        spec_failure_from_code(Some("unexpected_error"@)) == ProvisionerWorkerError::UnexpectedError,
        spec_failure_from_code(None) == ProvisionerWorkerError::Failed,
        code matches Some(c) && !(c == "asset_download_failed"@ || c == "asset_auth_required"@ || c == "path_validation_failed"@ || c == "step_timeout"@ || c == "unexpected_exception"@ || c == "unexpected_error"@) ==> spec_failure_from_code(code) == ProvisionerWorkerError::Failed,
        spec_failure_from_code(code) == ProvisionerWorkerError::Failed || spec_failure_from_code(code) == ProvisionerWorkerError::AssetDownloadFailed
            || spec_failure_from_code(code) == ProvisionerWorkerError::AssetAuthRequired || spec_failure_from_code(code) == ProvisionerWorkerError::PathValidationFailed
            || spec_failure_from_code(code) == ProvisionerWorkerError::StepTimeout || spec_failure_from_code(code) == ProvisionerWorkerError::UnexpectedError,
{
    reveal_strlit("asset_download_failed");
    reveal_strlit("asset_auth_required");
    reveal_strlit("path_validation_failed");
    reveal_strlit("step_timeout");
    reveal_strlit("unexpected_exception");
    reveal_strlit("unexpected_error");
    assert("asset_download_failed"@.len() == 21);
    assert("asset_auth_required"@.len() == 19);
    assert("path_validation_failed"@.len() == 22);
    assert("step_timeout"@.len() == 12);
    assert("unexpected_exception"@.len() == 20);
    assert("unexpected_error"@.len() == 16);
}

/// An HTTP answer of the worker that did not succeed: an answer that is not the worker's JSON
/// is an unreachable worker whatever its status; otherwise 401 and 403 are unauthorized, 409 a
/// conflict, every server error an unreachable worker, and every other status an invalid
/// payload.
pub proof fn worker_http_errors_are_classified(status: u16, is_worker_json: bool)
    ensures
        !is_worker_json ==> spec_worker_error_from_status(status, is_worker_json) == ProvisionerWorkerError::Unreachable,
        is_worker_json ==> ((status == 401 || status == 403)
            <==> spec_worker_error_from_status(status, is_worker_json) == ProvisionerWorkerError::Unauthorized),
        is_worker_json ==> (status == 409
            <==> spec_worker_error_from_status(status, is_worker_json) == ProvisionerWorkerError::Conflict),
        is_worker_json ==> (500 <= status <= 599
            <==> spec_worker_error_from_status(status, is_worker_json) == ProvisionerWorkerError::Unreachable),
        is_worker_json && status != 401 && status != 403 && status != 409 && !(500 <= status <= 599)
            ==> spec_worker_error_from_status(status, is_worker_json) == ProvisionerWorkerError::InvalidPayload,
{
}

/// Checks a worker report.
pub fn status_from_response(response: ProvisionerWorkerStatusResponse) -> (r: Result<ProvisionerWorkerStatus, ProvisionerWorkerError>)
    ensures
        r == spec_status_from_response(response),
{
    let status = match &response.status {
        Some(text) => match job_status_from_text(text.as_str()) {
            Some(status) => status,
            None => return Err(ProvisionerWorkerError::InvalidPayload),
        },
        None => return Err(ProvisionerWorkerError::InvalidPayload),
    };
    let phase = match &response.phase {
        Some(text) => phase_from_response(Some(text.as_str()), &status),
        None => phase_from_response(None, &status),
    };
    let phase = match phase {
        Ok(phase) => phase,
        Err(e) => return Err(e),
    };
    match response.progress_percent {
        Some(p) => if p > 100 {
            return Err(ProvisionerWorkerError::InvalidPayload);
        },
        None => {},
    }
    let failure = match response.error {
        Some(error) => terminal_failure_from_worker_error(error),
        None => ProvisionerWorkerError::Failed,
    };
    if status == ProvisionerWorkerJobStatus::Failed {
        return Err(failure);
    }
    Ok(ProvisionerWorkerStatus { status, phase, progress_percent: response.progress_percent })
}

/// The error of an HTTP answer that did not succeed: an answer that is not the worker's JSON
/// means the worker is not reachable; 401 and 403 mean unauthorized, 409 a conflict, a server
/// error an unreachable worker, and anything else an invalid payload.
pub open spec fn spec_worker_error_from_status(status: u16, is_worker_json: bool) -> ProvisionerWorkerError {
    if !is_worker_json {
        ProvisionerWorkerError::Unreachable
    } else if status == 401 || status == 403 {
        ProvisionerWorkerError::Unauthorized
    } else if status == 409 {
        ProvisionerWorkerError::Conflict
    } else if 500 <= status <= 599 {
        ProvisionerWorkerError::Unreachable
    } else {
        ProvisionerWorkerError::InvalidPayload
    }
}

/// Classifies an HTTP answer of the worker that did not succeed.
pub fn worker_error_from_status(status: u16, is_worker_json: bool) -> (r: ProvisionerWorkerError)
    ensures
        r == spec_worker_error_from_status(status, is_worker_json),
{
    if !is_worker_json {
        ProvisionerWorkerError::Unreachable
    } else if status == 401 || status == 403 {
        ProvisionerWorkerError::Unauthorized
    } else if status == 409 {
        ProvisionerWorkerError::Conflict
    } else if 500 <= status && status <= 599 {
        ProvisionerWorkerError::Unreachable
    } else {
        ProvisionerWorkerError::InvalidPayload
    }
}

/// The error of a successful answer whose body cannot be read as a report.
pub fn success_payload_error(is_worker_json: bool) -> (r: ProvisionerWorkerError)
    ensures
        r == (if is_worker_json { ProvisionerWorkerError::InvalidPayload } else { ProvisionerWorkerError::Unreachable }),
{
    if is_worker_json {
        ProvisionerWorkerError::InvalidPayload
    } else {
        ProvisionerWorkerError::Unreachable
    }
}

/// How an HTTP answer of the worker is read: a failed status is classified, a successful answer
/// must be the worker's JSON with a readable report, and the report is then checked.
pub open spec fn spec_parse_worker_response(status: u16, is_worker_json: bool, payload: Option<ProvisionerWorkerStatusResponse>) -> Result<ProvisionerWorkerStatus, ProvisionerWorkerError> {
    if !(200 <= status <= 299) {
        Err(spec_worker_error_from_status(status, is_worker_json))
    } else if !is_worker_json {
        Err(ProvisionerWorkerError::Unreachable)
    } else {
        match payload {
            None => Err(ProvisionerWorkerError::InvalidPayload),
            Some(response) => spec_status_from_response(response),
        }
    }
}

/// Reads an HTTP answer of the worker, given its status code, whether it is JSON, and its body
/// read as a report (`None` where the body is no report).
pub fn parse_worker_response(status: u16, is_worker_json: bool, payload: Option<ProvisionerWorkerStatusResponse>) -> (r: Result<ProvisionerWorkerStatus, ProvisionerWorkerError>)
    ensures
        r == spec_parse_worker_response(status, is_worker_json, payload),
{
    if !(200 <= status && status <= 299) {
        return Err(worker_error_from_status(status, is_worker_json));
    }
    if !is_worker_json {
        return Err(success_payload_error(is_worker_json));
    }
    match payload {
        None => Err(success_payload_error(is_worker_json)),
        Some(response) => status_from_response(response),
    }
}

/// The media type of a content type header: the text before its first `;`.
pub open spec fn media_type(value: Seq<char>) -> Seq<char> {
    if exists|i: int| 0 <= i < value.len() && value[i] == ';' {
        value.take(choose|i: int| 0 <= i < value.len() && value[i] == ';' && forall|j: int| 0 <= j < i ==> value[j] != ';')
    } else {
        value
    }
}

/// Whether a content type header names JSON.
pub open spec fn spec_has_json_content_type(content_type: Option<Seq<char>>) -> bool {
    match content_type {
        Some(value) => spec_eq_ignore_ascii_case(spec_trim(media_type(value)), "application/json"@),
        None => false,
    }
}

/// Whether a content type header, read as text, names JSON.
pub fn has_json_content_type(content_type: Option<&str>) -> (r: bool)
    ensures
        r == spec_has_json_content_type(match content_type { Some(v) => Some(v@), None => None }),
{
    let value = match content_type {
        Some(value) => value,
        None => return false,
    };
    let n = value.unicode_len();
    let mut i: usize = 0;
    while i < n && value.get_char(i) != ';'
        invariant
            n == value@.len(),
            i <= n,
            forall|j: int| 0 <= j < i ==> value@[j] != ';',
        decreases n - i,
    {
        i = i + 1;
    }
    proof {
        if i < n {
            let k = choose|k: int| 0 <= k < value@.len() && value@[k] == ';' && forall|j: int| 0 <= j < k ==> value@[j] != ';';
            assert(value@[i as int] == ';');
            assert(k == i);
        } else {
            assert(value@.take(n as int) =~= value@);
        }
        assert(media_type(value@) =~= value@.subrange(0, i as int));
    }
    let media = value.substring_char(0, i);
    eq_ignore_ascii_case(trim(media), "application/json")
}

/// The URL of a worker endpoint beside the status endpoint.
pub open spec fn spec_worker_url(provisioner_status_url: Seq<char>, path: Seq<char>) -> Result<Seq<char>, ProvisionerWorkerError> {
    if spec_ends_with(provisioner_status_url, "/status"@) {
        Ok(provisioner_status_url.subrange(0, provisioner_status_url.len() - 7) + "/"@ + path)
    } else {
        Err(ProvisionerWorkerError::InvalidPayload)
    }
}

/// The URL of a worker endpoint beside the status endpoint; a status URL that does not end in
/// `/status` is invalid.
pub fn worker_url(provisioner_status_url: &str, path: &str) -> (r: Result<String, ProvisionerWorkerError>)
    ensures
        match r {
            Ok(url) => spec_worker_url(provisioner_status_url@, path@) == Ok::<Seq<char>, ProvisionerWorkerError>(url@),
            Err(e) => spec_worker_url(provisioner_status_url@, path@) == Err::<Seq<char>, ProvisionerWorkerError>(e),
        },
{
    proof {
        reveal_strlit("/status");
    }
    match strip_suffix(provisioner_status_url, "/status") {
        Some(base) => {
            let mut url = String::from_str(base);
            url.append("/");
            url.append(path);
            Ok(url)
        },
        None => Err(ProvisionerWorkerError::InvalidPayload),
    }
}

/// A model asset as the worker is asked to install it.
#[derive(Clone, Debug, PartialEq, Eq)]
pub struct ProvisionerWorkerModelAsset {
    pub id: String,
    pub name: String,
    pub download_source: ModelAssetSource,
    pub install_comfyui_relative_path: String,
}

/// The part of a workflow preset that the worker needs.
#[derive(Clone, Debug, PartialEq, Eq)]
pub struct ProvisionerWorkerWorkflowPreset {
    pub required_model_assets: Vec<ProvisionerWorkerModelAsset>,
}

/// The request that starts a provisioning job on the worker.
#[derive(Clone, Debug, PartialEq, Eq)]
pub struct ProvisionerWorkerStartRequest {
    pub job_id: String,
    pub workflow_preset: ProvisionerWorkerWorkflowPreset,
}

/// A worker asset is the model asset it was made from.
pub open spec fn worker_asset_matches(worker: ProvisionerWorkerModelAsset, asset: ModelAsset) -> bool {
    &&& worker.id == asset.id
    &&& worker.name == asset.name
    &&& worker.download_source == asset.download_source
    &&& worker.install_comfyui_relative_path == asset.install_comfyui_relative_path
}

fn copy_source(source: &ModelAssetSource) -> (r: ModelAssetSource)
    ensures
        r == *source,
{
    match source {
        ModelAssetSource::Huggingface { repository_id, file_path, revision } => ModelAssetSource::Huggingface {
            repository_id: repository_id.clone(),
            file_path: file_path.clone(),
            revision: revision.clone(),
        },
    }
}

/// The worker asset made from a model asset.
pub fn worker_model_asset(asset: &ModelAsset) -> (r: ProvisionerWorkerModelAsset)
    ensures
        worker_asset_matches(r, *asset),
{
    ProvisionerWorkerModelAsset {
        id: asset.id.clone(),
        name: asset.name.clone(),
        download_source: copy_source(&asset.download_source),
        install_comfyui_relative_path: asset.install_comfyui_relative_path.clone(),
    }
}

impl ProvisionerWorkerStartRequest {
    /// The start request of a job that installs the given assets, in their order.
    pub fn from_model_assets(job_id: String, assets: &[ModelAsset]) -> (r: Self)
        ensures
            r.job_id == job_id,
            r.workflow_preset.required_model_assets@.len() == assets@.len(),
            forall|i: int| 0 <= i < assets@.len() ==> worker_asset_matches(
                #[trigger] r.workflow_preset.required_model_assets@[i], assets@[i]),
    {
        let mut required_model_assets: Vec<ProvisionerWorkerModelAsset> = Vec::new();
        let mut i: usize = 0;
        while i < assets.len()
            invariant
                i <= assets@.len(),
                required_model_assets@.len() == i,
                forall|j: int| 0 <= j < i ==> worker_asset_matches(
                    #[trigger] required_model_assets@[j], assets@[j]),
            decreases assets@.len() - i,
        {
            required_model_assets.push(worker_model_asset(&assets[i]));
            i = i + 1;
        }
        ProvisionerWorkerStartRequest {
            job_id,
            workflow_preset: ProvisionerWorkerWorkflowPreset { required_model_assets },
        }
    }
}

/// The provisioner worker that runs inside the provisioning pod. What it answers is the worker's
/// own: this trait states nothing of it.
pub trait ProvisionerWorkerGateway {
    /// Asks the worker to start preparing the environment.
    fn start(
        &self,
        provisioner_status_url: &str,
        token: &ProvisionerWorkerBearerToken,
        request: &ProvisionerWorkerStartRequest,
    ) -> Result<ProvisionerWorkerStatus, ProvisionerWorkerError>;

    /// Asks the worker how far it has come.
    fn status(&self, provisioner_status_url: &str, token: &ProvisionerWorkerBearerToken) -> Result<
        ProvisionerWorkerStatus,
        ProvisionerWorkerError,
    >;
}

} // verus!
