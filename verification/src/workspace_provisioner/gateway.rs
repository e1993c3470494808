//! The provisioner worker protocol in which reports carry free-text diagnostics.
use vstd::prelude::*;
use vstd::string::StringExecFns;
use crate::domain::{
    ResolvedRuntimeImageSnapshot, WorkflowPreset, WorkspaceProvisioningPhase,
    WorkspaceProvisioningProgress, WorkspaceProvisioningStatus,
};
use crate::workspace_provisioning::contracts::ProvisionerWorkerBearerToken;
use crate::text::{is_control, spec_is_control, spec_trim, str_equals, string_from_chars, trim};

verus! {

/// The longest diagnostic kept, in characters.
pub const MAX_WORKER_DIAGNOSTIC_BYTES: usize = 512;

/// The most lines of a diagnostic kept.
pub const MAX_WORKER_DIAGNOSTIC_LINES: usize = 8;

/// The job status a provisioner worker reports.
#[derive(Clone, Copy, Debug, PartialEq, Eq, Structural)]
pub enum ProvisionerWorkerJobStatus {
    Idle,
    Running,
    Cancelling,
    Cancelled,
    Succeeded,
    Failed,
}

/// The step a provisioner worker reports it is in.
#[derive(Clone, Copy, Debug, PartialEq, Eq, Structural)]
pub enum ProvisionerWorkerPhase {
    Idle,
    Starting,
    ResolvingWorkflow,
    ValidatingRuntime,
    InstallingModels,
    InstallingCustomNodes,
    WritingManifest,
    Completed,
    Cancelled,
    Failed,
}

/// A validated status report of a provisioner worker with its diagnostic.
#[derive(Clone, Debug, PartialEq, Eq)]
pub struct ProvisionerWorkerStatus {
    pub status: ProvisionerWorkerJobStatus,
    pub phase: ProvisionerWorkerPhase,
    pub progress_percent: Option<u8>,
    pub diagnostic: Option<String>,
}

/// Why a call to the provisioner worker did not give a usable status.
#[derive(Clone, Debug, PartialEq, Eq)]
pub enum ProvisionerWorkerError {
    Unauthorized,
    Conflict,
    Unreachable,
    InvalidPayload { diagnostic: Option<String> },
    TerminalFailure { diagnostic: Option<String> },
}

/// The request that starts a provisioning job on the worker.
#[derive(Clone, Debug, PartialEq, Eq)]
pub struct ProvisionerWorkerStartRequest {
    pub job_id: String,
    pub workflow_preset: WorkflowPreset,
    pub resolved_runtime_image: ResolvedRuntimeImageSnapshot,
}

/// A status report of the worker as it arrives, before it is checked.
#[derive(Clone, Debug, PartialEq, Eq)]
pub struct ProvisionerWorkerStatusResponse {
    pub status: Option<String>,
    pub job_id: Option<String>,
    pub phase: Option<String>,
    pub progress_percent: Option<u8>,
    pub diagnostic: Option<String>,
    pub diagnostic_message: Option<String>,
    pub error: Option<ProvisionerWorkerErrorResponse>,
}

/// The error part of a worker report, or the body of a failed answer.
#[derive(Clone, Debug, PartialEq, Eq)]
pub struct ProvisionerWorkerErrorResponse {
    pub code: Option<String>,
    pub reason_code: Option<String>,
    pub message: Option<String>,
}

/// A character that a diagnostic keeps: anything but a control character, except the newline.
pub open spec fn keeps_char(c: char) -> bool {
    !spec_is_control(c) || c == '\n'
}

/// The first lines of a text: the text is cut before the newline that ends line `lines`, and a
/// final newline is dropped, as reading its lines and joining them with newlines would do.
pub open spec fn first_lines(t: Seq<char>, lines: nat) -> Seq<char>
    decreases t.len(),
{
    if t.len() == 0 {
        Seq::empty()
    } else if t[0] == '\n' {
        if lines <= 1 || t.len() == 1 {
            Seq::empty()
        } else {
            seq!['\n'] + first_lines(t.drop_first(), (lines - 1) as nat)
        }
    } else {
        seq![t[0]] + first_lines(t.drop_first(), lines)
    }
}

/// A diagnostic made safe to show: control characters but newlines removed, at most eight
/// lines, at most 512 characters.
pub open spec fn spec_sanitize_diagnostic(diagnostic: Seq<char>) -> Seq<char> {
    let lines = first_lines(diagnostic.filter(|c: char| keeps_char(c)), MAX_WORKER_DIAGNOSTIC_LINES as nat);
    if lines.len() > MAX_WORKER_DIAGNOSTIC_BYTES {
        lines.take(MAX_WORKER_DIAGNOSTIC_BYTES as int)
    } else {
        lines
    }
}

/// The number of newlines in a text.
pub open spec fn newline_count(s: Seq<char>) -> nat
    decreases s.len(),
{
    if s.len() == 0 {
        0
    } else {
        (if s[0] == '\n' { 1nat } else { 0nat }) + newline_count(s.drop_first())
    }
}

proof fn lemma_first_lines_keeps(t: Seq<char>, lines: nat)
    requires
        forall|i: int| 0 <= i < t.len() ==> keeps_char(#[trigger] t[i]),
    ensures
        forall|i: int| 0 <= i < first_lines(t, lines).len() ==> keeps_char(#[trigger] first_lines(t, lines)[i]),
        first_lines(t, lines).len() <= t.len(),
        lines >= 1 ==> newline_count(first_lines(t, lines)) < lines,
    decreases t.len(),
{
    if t.len() > 0 {
        let rest = t.drop_first();
        assert forall|i: int| 0 <= i < rest.len() implies keeps_char(#[trigger] rest[i]) by {
            assert(rest[i] == t[i + 1]);
        }
        if t[0] == '\n' {
            if !(lines <= 1 || t.len() == 1) {
                lemma_first_lines_keeps(rest, (lines - 1) as nat);
                let r = seq!['\n'] + first_lines(rest, (lines - 1) as nat);
                assert(r.drop_first() =~= first_lines(rest, (lines - 1) as nat));
                assert forall|i: int| 0 <= i < r.len() implies keeps_char(#[trigger] r[i]) by {
                    if i > 0 {
                        assert(r[i] == first_lines(rest, (lines - 1) as nat)[i - 1]);
                    }
                }
            } else {
                assert(newline_count(Seq::<char>::empty()) == 0);
            }
        } else {
            lemma_first_lines_keeps(rest, lines);
            let r = seq![t[0]] + first_lines(rest, lines);
            assert(r.drop_first() =~= first_lines(rest, lines));
            assert forall|i: int| 0 <= i < r.len() implies keeps_char(#[trigger] r[i]) by {
                if i > 0 {
                    assert(r[i] == first_lines(rest, lines)[i - 1]);
                }
            }
        }
    }
}

proof fn lemma_take_newlines(s: Seq<char>, k: int)
    requires
        0 <= k <= s.len(),
    ensures
        newline_count(s.take(k)) <= newline_count(s),
    decreases s.len(),
{
    if k > 0 {
        assert(s.take(k).drop_first() =~= s.drop_first().take(k - 1));
        lemma_take_newlines(s.drop_first(), k - 1);
    } else {
        assert(s.take(k) =~= Seq::<char>::empty());
    }
}

/// A sanitized diagnostic holds no control character but the newline, has at most eight lines
/// (fewer than eight newlines) and at most 512 characters.
pub proof fn sanitized_diagnostic_is_safe_to_show(diagnostic: Seq<char>)
    ensures
        forall|i: int| 0 <= i < spec_sanitize_diagnostic(diagnostic).len()
            ==> keeps_char(#[trigger] spec_sanitize_diagnostic(diagnostic)[i]),
        newline_count(spec_sanitize_diagnostic(diagnostic)) < MAX_WORKER_DIAGNOSTIC_LINES,
        spec_sanitize_diagnostic(diagnostic).len() <= MAX_WORKER_DIAGNOSTIC_BYTES,
{
    let kept = diagnostic.filter(|c: char| keeps_char(c));
    assert forall|i: int| 0 <= i < kept.len() implies keeps_char(#[trigger] kept[i]) by {
        diagnostic.lemma_filter_pred(|c: char| keeps_char(c), i);
    }
    let lines = first_lines(kept, MAX_WORKER_DIAGNOSTIC_LINES as nat);
    lemma_first_lines_keeps(kept, MAX_WORKER_DIAGNOSTIC_LINES as nat);
    if lines.len() > MAX_WORKER_DIAGNOSTIC_BYTES {
        lemma_take_newlines(lines, MAX_WORKER_DIAGNOSTIC_BYTES as int);
        let cut = lines.take(MAX_WORKER_DIAGNOSTIC_BYTES as int);
        assert forall|i: int| 0 <= i < cut.len() implies keeps_char(#[trigger] cut[i]) by {
            assert(cut[i] == lines[i]);
        }
    }
}

proof fn lemma_filter_push(s: Seq<char>, i: int)
    requires
        0 <= i < s.len(),
    ensures
        s.take(i + 1).filter(|c: char| keeps_char(c)) == if keeps_char(s[i]) {
            s.take(i).filter(|c: char| keeps_char(c)).push(s[i])
        } else {
            s.take(i).filter(|c: char| keeps_char(c))
        },
{
    assert(s.take(i + 1).drop_last() =~= s.take(i));
    reveal_with_fuel(Seq::filter, 1);
}

/// The characters of a text that a diagnostic keeps.
fn kept_chars(diagnostic: &str) -> (r: Vec<char>)
    ensures
        r@ == diagnostic@.filter(|c: char| keeps_char(c)),
{
    let n = diagnostic.unicode_len();
    let mut kept: Vec<char> = Vec::new();
    let mut i: usize = 0;
    while i < n
        invariant
            n == diagnostic@.len(),
            i <= n,
            kept@ == diagnostic@.take(i as int).filter(|c: char| keeps_char(c)),
        decreases n - i,
    {
        let c = diagnostic.get_char(i);
        proof {
            lemma_filter_push(diagnostic@, i as int);
        }
        if !is_control(c) || c == '\n' {
            kept.push(c);
        }
        i = i + 1;
    }
    assert(diagnostic@.take(n as int) =~= diagnostic@);
    kept
}

proof fn lemma_first_lines_step(t: Seq<char>, i: int, lines: nat)
    requires
        0 <= i < t.len(),
    ensures
        first_lines(t.subrange(i, t.len() as int), lines) == if t[i] == '\n' {
            if lines <= 1 || i == t.len() - 1 {
                Seq::<char>::empty()
            } else {
                seq!['\n'] + first_lines(t.subrange(i + 1, t.len() as int), (lines - 1) as nat)
            }
        } else {
            seq![t[i]] + first_lines(t.subrange(i + 1, t.len() as int), lines)
        },
{
    let u = t.subrange(i, t.len() as int);
    assert(u.drop_first() =~= t.subrange(i + 1, t.len() as int));
    assert(u[0] == t[i]);
}

/// The first lines of a text, as `first_lines` says.
fn cut_lines(t: &Vec<char>, max_lines: usize) -> (r: Vec<char>)
    requires
        max_lines >= 1,
    ensures
        r@ == first_lines(t@, max_lines as nat),
{
    let n = t.len();
    let mut out: Vec<char> = Vec::new();
    let mut lines: usize = max_lines;
    let mut i: usize = 0;
    assert(t@.subrange(0, n as int) =~= t@);
    while i < n
        invariant
            n == t@.len(),
            i <= n,
            lines >= 1,
            out@ + first_lines(t@.subrange(i as int, n as int), lines as nat) == first_lines(t@, max_lines as nat),
        decreases n - i,
    {
        proof {
            lemma_first_lines_step(t@, i as int, lines as nat);
        }
        let c = t[i];
        if c == '\n' {
            if lines <= 1 || i == n - 1 {
                assert(out@ + Seq::<char>::empty() =~= out@);
                return out;
            }
            let ghost before = out@;
            out.push(c);
            assert(before + (seq!['\n'] + first_lines(t@.subrange(i + 1, n as int), (lines - 1) as nat))
                =~= out@ + first_lines(t@.subrange(i + 1, n as int), (lines - 1) as nat));
            lines = lines - 1;
        } else {
            let ghost before = out@;
            out.push(c);
            assert(before + (seq![c] + first_lines(t@.subrange(i + 1, n as int), lines as nat))
                =~= out@ + first_lines(t@.subrange(i + 1, n as int), lines as nat));
        }
        i = i + 1;
    }
    assert(first_lines(t@.subrange(n as int, n as int), lines as nat) =~= Seq::<char>::empty());
    assert(out@ + Seq::<char>::empty() =~= out@);
    out
}

/// Makes a diagnostic safe to show.
pub fn sanitize_diagnostic(diagnostic: String) -> (r: String)
    ensures
        r@ == spec_sanitize_diagnostic(diagnostic@),
{
    let kept = kept_chars(diagnostic.as_str());
    let mut lines = cut_lines(&kept, MAX_WORKER_DIAGNOSTIC_LINES);
    if lines.len() > MAX_WORKER_DIAGNOSTIC_BYTES {
        lines.truncate(MAX_WORKER_DIAGNOSTIC_BYTES);
    }
    string_from_chars(&lines)
}


/// The trimmed text of an optional value, where something is left of it.
pub open spec fn spec_non_blank(value: Option<Seq<char>>) -> Option<Seq<char>> {
    match value {
        Some(v) => if spec_trim(v).len() > 0 { Some(spec_trim(v)) } else { None },
        None => None,
    }
}

/// The characters of an optional text.
pub open spec fn opt_text(value: Option<String>) -> Option<Seq<char>> {
    match value {
        Some(s) => Some(s@),
        None => None,
    }
}

/// Trims an optional value and drops it where nothing is left.
pub fn non_blank(value: Option<String>) -> (r: Option<String>)
    ensures
        opt_text(r) == spec_non_blank(opt_text(value)),
{
    match value {
        Some(v) => {
            let trimmed = trim(v.as_str());
            if trimmed.unicode_len() == 0 {
                None
            } else {
                Some(trimmed.to_string())
            }
        },
        None => None,
    }
}

/// Lines joined with newlines.
pub open spec fn join_lines(parts: Seq<Seq<char>>) -> Seq<char>
    decreases parts.len(),
{
    if parts.len() == 0 {
        Seq::empty()
    } else if parts.len() == 1 {
        parts[0]
    } else {
        join_lines(parts.drop_last()) + "\n"@ + parts.last()
    }
}

/// The labelled line for a value, where the value is not blank.
pub open spec fn labelled_part(parts: Seq<Seq<char>>, label: Seq<char>, value: Option<String>) -> Seq<Seq<char>> {
    match spec_non_blank(opt_text(value)) {
        Some(v) => parts.push(label + v),
        None => parts,
    }
}

/// The labelled lines of a worker error: its code, reason code and message, each where it is
/// not blank.
pub open spec fn error_parts(error: ProvisionerWorkerErrorResponse) -> Seq<Seq<char>> {
    labelled_part(
        labelled_part(labelled_part(Seq::empty(), "code: "@, error.code), "reason_code: "@, error.reason_code),
        "message: "@,
        error.message,
    )
}

/// The diagnostic of a worker error: its labelled lines, joined and made safe to show, where it
/// has any.
pub open spec fn spec_diagnostic_from_worker_error(error: ProvisionerWorkerErrorResponse) -> Option<Seq<char>> {
    let parts = error_parts(error);
    if parts.len() == 0 {
        None
    } else {
        Some(spec_sanitize_diagnostic(join_lines(parts)))
    }
}

fn append_part(joined: &mut String, count: &mut usize, label: &str, value: Option<String>, Ghost(parts): Ghost<Seq<Seq<char>>>) -> (new_parts: Ghost<Seq<Seq<char>>>)
    requires
        old(joined)@ == join_lines(parts),
        *old(count) == parts.len(),
        parts.len() < 3,
    ensures
        new_parts@ == labelled_part(parts, label@, value),
        final(joined)@ == join_lines(new_parts@),
        *final(count) == new_parts@.len(),
{
    match non_blank(value) {
        Some(v) => {
            let ghost new_parts = parts.push(label@ + v@);
            if *count > 0 {
                joined.append("\n");
            }
            joined.append(label);
            joined.append(v.as_str());
            *count = *count + 1;
            proof {
                assert(new_parts.drop_last() =~= parts);
                if parts.len() == 0 {
                    assert(joined@ =~= label@ + v@);
                } else {
                    assert(joined@ =~= join_lines(parts) + "\n"@ + (label@ + v@));
                }
            }
            Ghost(new_parts)
        },
        None => Ghost(parts),
    }
}

/// The diagnostic of a worker error, where it has any.
pub fn diagnostic_from_worker_error(error: ProvisionerWorkerErrorResponse) -> (r: Option<String>)
    ensures
        opt_text(r) == spec_diagnostic_from_worker_error(error),
{
    let mut joined = String::new();
    let mut count: usize = 0;
    let ghost g_error = error;
    let ProvisionerWorkerErrorResponse { code, reason_code, message } = error;
    let parts = append_part(&mut joined, &mut count, "code: ", code, Ghost(Seq::empty()));
    let parts = append_part(&mut joined, &mut count, "reason_code: ", reason_code, parts);
    let parts = append_part(&mut joined, &mut count, "message: ", message, parts);
    assert(parts@ == error_parts(g_error));
    if count == 0 {
        None
    } else {
        Some(sanitize_diagnostic(joined))
    }
}


/// The job status a worker names with a text.
pub open spec fn spec_job_status_from_text(value: Seq<char>) -> Option<ProvisionerWorkerJobStatus> {
    if value == "idle"@ {
        Some(ProvisionerWorkerJobStatus::Idle)
    } else if value == "running"@ {
        Some(ProvisionerWorkerJobStatus::Running)
    } else if value == "cancelling"@ {
        Some(ProvisionerWorkerJobStatus::Cancelling)
    } else if value == "cancelled"@ {
        Some(ProvisionerWorkerJobStatus::Cancelled)
    } else if value == "succeeded"@ {
        Some(ProvisionerWorkerJobStatus::Succeeded)
    } else if value == "failed"@ {
        Some(ProvisionerWorkerJobStatus::Failed)
    } else {
        None
    }
}

fn job_status_from_text(value: &str) -> (r: Option<ProvisionerWorkerJobStatus>)
    ensures
        r == spec_job_status_from_text(value@),
{
    if str_equals(value, "idle") {
        Some(ProvisionerWorkerJobStatus::Idle)
    } else if str_equals(value, "running") {
        Some(ProvisionerWorkerJobStatus::Running)
    } else if str_equals(value, "cancelling") {
        Some(ProvisionerWorkerJobStatus::Cancelling)
    } else if str_equals(value, "cancelled") {
        Some(ProvisionerWorkerJobStatus::Cancelled)
    } else if str_equals(value, "succeeded") {
        Some(ProvisionerWorkerJobStatus::Succeeded)
    } else if str_equals(value, "failed") {
        Some(ProvisionerWorkerJobStatus::Failed)
    } else {
        None
    }
}

/// The worker phase a worker names with a text; several names of older and newer workers stand
/// for the same phase.
pub open spec fn spec_phase_from_text(value: Seq<char>) -> Option<ProvisionerWorkerPhase> {
    if value == "idle"@ {
        Some(ProvisionerWorkerPhase::Idle)
    } else if value == "starting"@ {
        Some(ProvisionerWorkerPhase::Starting)
    } else if value == "resolving_workflow"@ {
        Some(ProvisionerWorkerPhase::ResolvingWorkflow)
    } else if value == "materializing_runtime"@ || value == "installing_runtime"@ || value == "installing_comfyui"@ {
        Some(ProvisionerWorkerPhase::ValidatingRuntime)
    } else if value == "installing_models"@ || value == "downloading_assets"@ {
        Some(ProvisionerWorkerPhase::InstallingModels)
    } else if value == "preparing_custom_nodes"@ || value == "installing_custom_nodes"@ {
        Some(ProvisionerWorkerPhase::InstallingCustomNodes)
    } else if value == "writing_manifest"@ || value == "validating_environment"@ || value == "verifying_assets"@ {
        Some(ProvisionerWorkerPhase::WritingManifest)
    } else if value == "completed"@ {
        Some(ProvisionerWorkerPhase::Completed)
    } else if value == "cancelled"@ {
        Some(ProvisionerWorkerPhase::Cancelled)
    } else if value == "failed"@ {
        Some(ProvisionerWorkerPhase::Failed)
    } else {
        None
    }
}

fn phase_from_text(value: &str) -> (r: Option<ProvisionerWorkerPhase>)
    ensures
        r == spec_phase_from_text(value@),
{
    if str_equals(value, "idle") {
        Some(ProvisionerWorkerPhase::Idle)
    } else if str_equals(value, "starting") {
        Some(ProvisionerWorkerPhase::Starting)
    } else if str_equals(value, "resolving_workflow") {
        Some(ProvisionerWorkerPhase::ResolvingWorkflow)
    } else if str_equals(value, "materializing_runtime") || str_equals(value, "installing_runtime") || str_equals(value, "installing_comfyui") {
        Some(ProvisionerWorkerPhase::ValidatingRuntime)
    } else if str_equals(value, "installing_models") || str_equals(value, "downloading_assets") {
        Some(ProvisionerWorkerPhase::InstallingModels)
    } else if str_equals(value, "preparing_custom_nodes") || str_equals(value, "installing_custom_nodes") {
        Some(ProvisionerWorkerPhase::InstallingCustomNodes)
    } else if str_equals(value, "writing_manifest") || str_equals(value, "validating_environment") || str_equals(value, "verifying_assets") {
        Some(ProvisionerWorkerPhase::WritingManifest)
    } else if str_equals(value, "completed") {
        Some(ProvisionerWorkerPhase::Completed)
    } else if str_equals(value, "cancelled") {
        Some(ProvisionerWorkerPhase::Cancelled)
    } else if str_equals(value, "failed") {
        Some(ProvisionerWorkerPhase::Failed)
    } else {
        None
    }
}

/// The error of an invalid report, which carries no diagnostic.
pub open spec fn invalid_payload() -> ProvisionerWorkerError {
    ProvisionerWorkerError::InvalidPayload { diagnostic: None }
}

/// The phase of a report: a named phase must be known; a report without a phase is read by
/// its job status, and a running or cancelling job must name its phase.
pub open spec fn spec_phase_from_response(phase: Option<Seq<char>>, status: ProvisionerWorkerJobStatus) -> Result<ProvisionerWorkerPhase, ProvisionerWorkerError> {
    match phase {
        Some(text) => match spec_phase_from_text(text) {
            Some(p) => Ok(p),
            None => Err(invalid_payload()),
        },
        None => match status {
            ProvisionerWorkerJobStatus::Idle => Ok(ProvisionerWorkerPhase::Idle),
            ProvisionerWorkerJobStatus::Succeeded => Ok(ProvisionerWorkerPhase::Completed),
            ProvisionerWorkerJobStatus::Cancelled => Ok(ProvisionerWorkerPhase::Cancelled),
            ProvisionerWorkerJobStatus::Failed => Ok(ProvisionerWorkerPhase::Failed),
            ProvisionerWorkerJobStatus::Running | ProvisionerWorkerJobStatus::Cancelling => Err(invalid_payload()),
        },
    }
}

/// Reads the phase of a report.
pub fn phase_from_response(phase: Option<&str>, status: &ProvisionerWorkerJobStatus) -> (r: Result<ProvisionerWorkerPhase, ProvisionerWorkerError>)
    ensures
        r == spec_phase_from_response(match phase { Some(p) => Some(p@), None => None }, *status),
{
    match phase {
        Some(value) => match phase_from_text(value) {
            Some(p) => Ok(p),
            None => Err(ProvisionerWorkerError::InvalidPayload { diagnostic: None }),
        },
        None => match status {
            ProvisionerWorkerJobStatus::Idle => Ok(ProvisionerWorkerPhase::Idle),
            ProvisionerWorkerJobStatus::Succeeded => Ok(ProvisionerWorkerPhase::Completed),
            ProvisionerWorkerJobStatus::Cancelled => Ok(ProvisionerWorkerPhase::Cancelled),
            ProvisionerWorkerJobStatus::Failed => Ok(ProvisionerWorkerPhase::Failed),
            ProvisionerWorkerJobStatus::Running | ProvisionerWorkerJobStatus::Cancelling => Err(ProvisionerWorkerError::InvalidPayload { diagnostic: None }),
        },
    }
}

/// The first of two optional texts that is present.
pub open spec fn or_text(first: Option<Seq<char>>, second: Option<Seq<char>>) -> Option<Seq<char>> {
    match first {
        Some(t) => Some(t),
        None => second,
    }
}

/// The diagnostic of a report: that of its error part, else its diagnostic message, else its
/// diagnostic, made safe to show.
pub open spec fn spec_report_diagnostic(response: ProvisionerWorkerStatusResponse) -> Option<Seq<char>> {
    let from_error = match response.error {
        Some(e) => spec_diagnostic_from_worker_error(e),
        None => None,
    };
    match or_text(or_text(from_error, opt_text(response.diagnostic_message)), opt_text(response.diagnostic)) {
        Some(t) => Some(spec_sanitize_diagnostic(t)),
        None => None,
    }
}

/// The view of a checked report.
pub open spec fn status_view(status: ProvisionerWorkerStatus) -> (ProvisionerWorkerJobStatus, ProvisionerWorkerPhase, Option<u8>, Option<Seq<char>>) {
    (status.status, status.phase, status.progress_percent, opt_text(status.diagnostic))
}

/// The view of a worker error.
pub open spec fn error_view(error: ProvisionerWorkerError) -> (int, Option<Seq<char>>) {
    match error {
        ProvisionerWorkerError::Unauthorized => (0, None),
        ProvisionerWorkerError::Conflict => (1, None),
        ProvisionerWorkerError::Unreachable => (2, None),
        ProvisionerWorkerError::InvalidPayload { diagnostic } => (3, opt_text(diagnostic)),
        ProvisionerWorkerError::TerminalFailure { diagnostic } => (4, opt_text(diagnostic)),
    }
}

/// A report is checked in this order: its job status must be known, its phase must be known or
/// implied, its percent must be at most 100; a failed job is reported as a terminal failure
/// with the report's diagnostic, and any other job as its status with that diagnostic.
pub open spec fn spec_status_from_response(response: ProvisionerWorkerStatusResponse) -> Result<(ProvisionerWorkerJobStatus, ProvisionerWorkerPhase, Option<u8>, Option<Seq<char>>), (int, Option<Seq<char>>)> {
    match opt_text(response.status) {
        None => Err(error_view(invalid_payload())),
        Some(text) => match spec_job_status_from_text(text) {
            None => Err(error_view(invalid_payload())),
            Some(status) => match spec_phase_from_response(opt_text(response.phase), status) {
                Err(e) => Err(error_view(e)),
                Ok(phase) => if response.progress_percent matches Some(p) && p > 100 {
                    Err(error_view(invalid_payload()))
                } else if status == ProvisionerWorkerJobStatus::Failed {
                    Err((4, spec_report_diagnostic(response)))
                } else {
                    Ok((status, phase, response.progress_percent, spec_report_diagnostic(response)))
                },
            },
        },
    }
}

/// The view of the outcome of reading a report.
pub open spec fn outcome_view(r: Result<ProvisionerWorkerStatus, ProvisionerWorkerError>) -> Result<(ProvisionerWorkerJobStatus, ProvisionerWorkerPhase, Option<u8>, Option<Seq<char>>), (int, Option<Seq<char>>)> {
    match r {
        Ok(s) => Ok(status_view(s)),
        Err(e) => Err(error_view(e)),
    }
}

fn report_diagnostic(error: Option<ProvisionerWorkerErrorResponse>, diagnostic_message: Option<String>, diagnostic: Option<String>) -> (r: Option<String>)
    ensures
        opt_text(r) == match or_text(or_text(
            match error { Some(e) => spec_diagnostic_from_worker_error(e), None => None },
            opt_text(diagnostic_message)), opt_text(diagnostic)) {
            Some(t) => Some(spec_sanitize_diagnostic(t)),
            None => None,
        },
{
    let from_error = match error {
        Some(e) => diagnostic_from_worker_error(e),
        None => None,
    };
    let chosen = match from_error {
        Some(t) => Some(t),
        None => match diagnostic_message {
            Some(t) => Some(t),
            None => diagnostic,
        },
    };
    match chosen {
        Some(t) => Some(sanitize_diagnostic(t)),
        None => None,
    }
}

/// Checks a worker report.
pub fn status_from_response(response: ProvisionerWorkerStatusResponse) -> (r: Result<ProvisionerWorkerStatus, ProvisionerWorkerError>)
    ensures
        outcome_view(r) == spec_status_from_response(response),
{
    let ghost g = response;
    let ProvisionerWorkerStatusResponse { status, job_id: _, phase, progress_percent, diagnostic, diagnostic_message, error } = response;
    let status = match &status {
        Some(text) => match job_status_from_text(text.as_str()) {
            Some(status) => status,
            None => return Err(ProvisionerWorkerError::InvalidPayload { diagnostic: None }),
        },
        None => return Err(ProvisionerWorkerError::InvalidPayload { diagnostic: None }),
    };
    let phase = match &phase {
        Some(text) => phase_from_response(Some(text.as_str()), &status),
        None => phase_from_response(None, &status),
    };
    let phase = match phase {
        Ok(phase) => phase,
        Err(e) => return Err(e),
    };
    match progress_percent {
        Some(p) => if p > 100 {
            return Err(ProvisionerWorkerError::InvalidPayload { diagnostic: None });
        },
        None => {},
    }
    let diagnostic = report_diagnostic(error, diagnostic_message, diagnostic);
    assert(opt_text(diagnostic) == spec_report_diagnostic(g));
    if status == ProvisionerWorkerJobStatus::Failed {
        return Err(ProvisionerWorkerError::TerminalFailure { diagnostic });
    }
    Ok(ProvisionerWorkerStatus { status, phase, progress_percent, diagnostic })
}

/// The progress shown for a worker report: every working phase is environment preparation and
/// the worker's own percent is shown as it is.
pub open spec fn spec_progress_from_worker_status(status: ProvisionerWorkerStatus) -> WorkspaceProvisioningProgress {
    WorkspaceProvisioningProgress {
        status: match status.status {
            ProvisionerWorkerJobStatus::Idle | ProvisionerWorkerJobStatus::Running | ProvisionerWorkerJobStatus::Succeeded => WorkspaceProvisioningStatus::Running,
            ProvisionerWorkerJobStatus::Cancelling | ProvisionerWorkerJobStatus::Cancelled => WorkspaceProvisioningStatus::Cancelling,
            ProvisionerWorkerJobStatus::Failed => WorkspaceProvisioningStatus::Failed,
        },
        phase: match status.phase {
            ProvisionerWorkerPhase::Completed => WorkspaceProvisioningPhase::CreatingEndpointTemplate,
            ProvisionerWorkerPhase::Cancelled => WorkspaceProvisioningPhase::CleaningUp,
            ProvisionerWorkerPhase::Failed => WorkspaceProvisioningPhase::Failed,
            _ => WorkspaceProvisioningPhase::PreparingEnvironment,
        },
        percent: status.progress_percent,
        failure: None,
    }
}

/// The progress shown for a worker report.
pub fn progress_from_worker_status(status: &ProvisionerWorkerStatus) -> (r: WorkspaceProvisioningProgress)
    ensures
        r == spec_progress_from_worker_status(*status),
{
    WorkspaceProvisioningProgress {
        status: match status.status {
            ProvisionerWorkerJobStatus::Idle | ProvisionerWorkerJobStatus::Running => WorkspaceProvisioningStatus::Running,
            ProvisionerWorkerJobStatus::Cancelling => WorkspaceProvisioningStatus::Cancelling,
            ProvisionerWorkerJobStatus::Cancelled => WorkspaceProvisioningStatus::Cancelling,
            ProvisionerWorkerJobStatus::Succeeded => WorkspaceProvisioningStatus::Running,
            ProvisionerWorkerJobStatus::Failed => WorkspaceProvisioningStatus::Failed,
        },
        phase: match status.phase {
            ProvisionerWorkerPhase::Idle
            | ProvisionerWorkerPhase::Starting
            | ProvisionerWorkerPhase::ResolvingWorkflow
            | ProvisionerWorkerPhase::ValidatingRuntime
            | ProvisionerWorkerPhase::InstallingModels
            | ProvisionerWorkerPhase::InstallingCustomNodes
            | ProvisionerWorkerPhase::WritingManifest => WorkspaceProvisioningPhase::PreparingEnvironment,
            ProvisionerWorkerPhase::Completed => WorkspaceProvisioningPhase::CreatingEndpointTemplate,
            ProvisionerWorkerPhase::Cancelled => WorkspaceProvisioningPhase::CleaningUp,
            ProvisionerWorkerPhase::Failed => WorkspaceProvisioningPhase::Failed,
        },
        percent: status.progress_percent,
        failure: None,
    }
}

/// The error of an HTTP answer that did not succeed: an answer that is not the worker's JSON
/// means the worker is not reachable; 401 and 403 mean unauthorized, 409 a conflict, a server
/// error an unreachable worker, and anything else an invalid payload with the answer's diagnostic.
pub open spec fn spec_worker_error_from_status(status: u16, diagnostic: Option<Seq<char>>, is_worker_json: bool) -> (int, Option<Seq<char>>) {
    if !is_worker_json {
        error_view(ProvisionerWorkerError::Unreachable)
    } else if status == 401 || status == 403 {
        error_view(ProvisionerWorkerError::Unauthorized)
    } else if status == 409 {
        error_view(ProvisionerWorkerError::Conflict)
    } else if 500 <= status <= 599 {
        error_view(ProvisionerWorkerError::Unreachable)
    } else {
        (3, diagnostic)
    }
}

/// Classifies an HTTP answer of the worker that did not succeed.
pub fn worker_error_from_status(status: u16, diagnostic: Option<String>, is_worker_json: bool) -> (r: ProvisionerWorkerError)
    ensures
        error_view(r) == spec_worker_error_from_status(status, opt_text(diagnostic), is_worker_json),
{
    if !is_worker_json {
        ProvisionerWorkerError::Unreachable
    } else if status == 401 || status == 403 {
        ProvisionerWorkerError::Unauthorized
    } else if status == 409 {
        ProvisionerWorkerError::Conflict
    } else if 500 <= status && status <= 599 {
        ProvisionerWorkerError::Unreachable
    } else {
        ProvisionerWorkerError::InvalidPayload { diagnostic }
    }
}

/// The error of a successful answer whose body cannot be read as a report.
pub fn success_payload_error(is_worker_json: bool) -> (r: ProvisionerWorkerError)
    ensures
        r == (if is_worker_json { invalid_payload() } else { ProvisionerWorkerError::Unreachable }),
{
    if is_worker_json {
        ProvisionerWorkerError::InvalidPayload { diagnostic: None }
    } else {
        ProvisionerWorkerError::Unreachable
    }
}

/// The URL of a worker endpoint beside the status endpoint; a status URL that does not end in
/// `/status` is an invalid payload.
pub fn worker_url(provisioner_status_url: &str, path: &str) -> (r: Result<String, ProvisionerWorkerError>)
    ensures
        match r {
            Ok(url) => crate::workspace_provisioning::gateway::spec_worker_url(provisioner_status_url@, path@) is Ok
                && url@ == crate::workspace_provisioning::gateway::spec_worker_url(provisioner_status_url@, path@)->Ok_0,
            Err(e) => crate::workspace_provisioning::gateway::spec_worker_url(provisioner_status_url@, path@) is Err
                && e == invalid_payload(),
        },
{
    match crate::workspace_provisioning::gateway::worker_url(provisioner_status_url, path) {
        Ok(url) => Ok(url),
        Err(_) => Err(ProvisionerWorkerError::InvalidPayload { diagnostic: None }),
    }
}

/// How an HTTP answer of the worker is read: a failed status is classified with the diagnostic
/// of its error body, a successful answer must be the worker's JSON with a readable report, and
/// the report is then checked.
pub open spec fn spec_parse_worker_response(status: u16, is_worker_json: bool, error_body: Option<ProvisionerWorkerErrorResponse>, payload: Option<ProvisionerWorkerStatusResponse>) -> Result<(ProvisionerWorkerJobStatus, ProvisionerWorkerPhase, Option<u8>, Option<Seq<char>>), (int, Option<Seq<char>>)> {
    if !(200 <= status <= 299) {
        let diagnostic = if is_worker_json {
            match error_body {
                Some(e) => spec_diagnostic_from_worker_error(e),
                None => None,
            }
        } else {
            None
        };
        Err(spec_worker_error_from_status(status, diagnostic, is_worker_json))
    } else if !is_worker_json {
        Err(error_view(ProvisionerWorkerError::Unreachable))
    } else {
        match payload {
            None => Err(error_view(invalid_payload())),
            Some(response) => spec_status_from_response(response),
        }
    }
}

/// Reads an HTTP answer of the worker, given its status code, whether it is JSON, its body read
/// as an error (for a failed answer) and its body read as a report (for a successful one).
pub fn parse_worker_response(status: u16, is_worker_json: bool, error_body: Option<ProvisionerWorkerErrorResponse>, payload: Option<ProvisionerWorkerStatusResponse>) -> (r: Result<ProvisionerWorkerStatus, ProvisionerWorkerError>)
    ensures
        outcome_view(r) == spec_parse_worker_response(status, is_worker_json, error_body, payload),
{
    if !(200 <= status && status <= 299) {
        let diagnostic = if is_worker_json {
            match error_body {
                Some(e) => diagnostic_from_worker_error(e),
                None => None,
            }
        } else {
            None
        };
        return Err(worker_error_from_status(status, diagnostic, is_worker_json));
    }
    if !is_worker_json {
        return Err(success_payload_error(is_worker_json));
    }
    match payload {
        None => Err(success_payload_error(is_worker_json)),
        Some(response) => status_from_response(response),
    }
}

/// The provisioner worker that runs inside the provisioning pod. What it answers is the worker's
/// own: this trait states nothing of it.
pub trait ProvisionerWorkerGateway {
    /// Asks the worker to start preparing the environment.
    fn start(
        &self,
        provisioner_status_url: &str,
        token: &ProvisionerWorkerBearerToken,
        request: &ProvisionerWorkerStartRequest,
    ) -> Result<ProvisionerWorkerStatus, ProvisionerWorkerError>;

    /// Asks the worker how far it has come.
    fn status(&self, provisioner_status_url: &str, token: &ProvisionerWorkerBearerToken) -> Result<
        ProvisionerWorkerStatus,
        ProvisionerWorkerError,
    >;
}


/// The text with which the worker protocol names a job status.
pub open spec fn worker_job_status_text(status: ProvisionerWorkerJobStatus) -> Seq<char> {
    match status {
        ProvisionerWorkerJobStatus::Idle => "idle"@,
        ProvisionerWorkerJobStatus::Running => "running"@,
        ProvisionerWorkerJobStatus::Cancelling => "cancelling"@,
        ProvisionerWorkerJobStatus::Cancelled => "cancelled"@,
        ProvisionerWorkerJobStatus::Succeeded => "succeeded"@,
        ProvisionerWorkerJobStatus::Failed => "failed"@,
    }
}

/// Each job status is read back from the text the worker protocol names it with, and a text
/// read as a job status is exactly that status's name.
pub proof fn worker_job_status_text_round_trip(status: ProvisionerWorkerJobStatus, value: Seq<char>)
    ensures
        spec_job_status_from_text(worker_job_status_text(status)) == Some(status),
        spec_job_status_from_text(value) == Some(status) ==> value == worker_job_status_text(status),
{
    reveal_strlit("idle");
    reveal_strlit("running");
    reveal_strlit("cancelling");
    reveal_strlit("cancelled");
    reveal_strlit("succeeded");
    reveal_strlit("failed");
    assert("idle"@.len() == 4);
    assert("running"@.len() == 7);
    assert("cancelling"@.len() == 10);
    assert("cancelled"@.len() == 9);
    assert("succeeded"@.len() == 9);
    assert("failed"@.len() == 6);
    assert("cancelled"@[0] == 'c');
    assert("succeeded"@[0] == 's');
}

/// Each name that older and newer workers give a phase is read as that phase, and no other
/// text is read as any phase.
pub proof fn worker_phase_names_are_read(value: Seq<char>)
    ensures
        spec_phase_from_text("idle"@) == Some(ProvisionerWorkerPhase::Idle),
        spec_phase_from_text("starting"@) == Some(ProvisionerWorkerPhase::Starting),
        spec_phase_from_text("resolving_workflow"@) == Some(ProvisionerWorkerPhase::ResolvingWorkflow),
        spec_phase_from_text("materializing_runtime"@) == Some(ProvisionerWorkerPhase::ValidatingRuntime),
        spec_phase_from_text("installing_runtime"@) == Some(ProvisionerWorkerPhase::ValidatingRuntime),
        spec_phase_from_text("installing_comfyui"@) == Some(ProvisionerWorkerPhase::ValidatingRuntime),
        spec_phase_from_text("installing_models"@) == Some(ProvisionerWorkerPhase::InstallingModels),
        spec_phase_from_text("downloading_assets"@) == Some(ProvisionerWorkerPhase::InstallingModels),
        spec_phase_from_text("preparing_custom_nodes"@) == Some(ProvisionerWorkerPhase::InstallingCustomNodes),
        spec_phase_from_text("installing_custom_nodes"@) == Some(ProvisionerWorkerPhase::InstallingCustomNodes),
        spec_phase_from_text("writing_manifest"@) == Some(ProvisionerWorkerPhase::WritingManifest),
        spec_phase_from_text("validating_environment"@) == Some(ProvisionerWorkerPhase::WritingManifest),
        spec_phase_from_text("verifying_assets"@) == Some(ProvisionerWorkerPhase::WritingManifest),
        spec_phase_from_text("completed"@) == Some(ProvisionerWorkerPhase::Completed),
        spec_phase_from_text("cancelled"@) == Some(ProvisionerWorkerPhase::Cancelled),
        spec_phase_from_text("failed"@) == Some(ProvisionerWorkerPhase::Failed),
        spec_phase_from_text(value) is Some ==> (value == "idle"@ || value == "starting"@ || value == "resolving_workflow"@ || value == "materializing_runtime"@ || value == "installing_runtime"@ || value == "installing_comfyui"@ || value == "installing_models"@ || value == "downloading_assets"@ || value == "preparing_custom_nodes"@ || value == "installing_custom_nodes"@ || value == "writing_manifest"@ || value == "validating_environment"@ || value == "verifying_assets"@ || value == "completed"@ || value == "cancelled"@ || value == "failed"@),
{
    reveal_strlit("idle");
    reveal_strlit("starting");
    reveal_strlit("resolving_workflow");
    reveal_strlit("materializing_runtime");
    reveal_strlit("installing_runtime");
    reveal_strlit("installing_comfyui");
    reveal_strlit("installing_models");
    reveal_strlit("downloading_assets");
    reveal_strlit("preparing_custom_nodes");
    reveal_strlit("installing_custom_nodes");
    reveal_strlit("writing_manifest");
    reveal_strlit("validating_environment");
    reveal_strlit("verifying_assets");
    reveal_strlit("completed");
    reveal_strlit("cancelled");
    reveal_strlit("failed");
    assert("idle"@.len() == 4);
    assert("starting"@.len() == 8);
    assert("resolving_workflow"@.len() == 18);
    assert("materializing_runtime"@.len() == 21);
    assert("installing_runtime"@.len() == 18);
    assert("installing_comfyui"@.len() == 18);
    assert("installing_models"@.len() == 17);
    assert("downloading_assets"@.len() == 18);
    assert("preparing_custom_nodes"@.len() == 22);
    assert("installing_custom_nodes"@.len() == 23);
    assert("writing_manifest"@.len() == 16);
    assert("validating_environment"@.len() == 22);
    assert("verifying_assets"@.len() == 16);
    assert("completed"@.len() == 9);
    assert("cancelled"@.len() == 9);
    assert("failed"@.len() == 6);
    assert("installing_runtime"@[0] == 'i');
    assert("resolving_workflow"@[0] == 'r');
    assert("installing_comfyui"@[0] == 'i');
    assert("installing_comfyui"@[11] == 'c');
    assert("installing_runtime"@[11] == 'r');
    assert("downloading_assets"@[0] == 'd');
    assert("preparing_custom_nodes"@[0] == 'p');
    assert("validating_environment"@[0] == 'v');
    assert("verifying_assets"@[0] == 'v');
    assert("writing_manifest"@[0] == 'w');
    assert("cancelled"@[1] == 'a');
    assert("completed"@[1] == 'o');
}

/// A worker report is shown with the status of its job: a failed job as failed, a cancelling
/// or cancelled job as cancelling, and an idle, running or succeeded job as running. Every
/// working phase is the environment's preparation, a completed job moves on to the endpoint
/// template, a cancelled one is cleaning up and a failed one failed; the worker's own percent is
/// shown as it is, and a report carries no failure of its own.
pub proof fn worker_report_is_shown(status: ProvisionerWorkerStatus)
    ensures
        status.status == ProvisionerWorkerJobStatus::Failed
            <==> spec_progress_from_worker_status(status).status == WorkspaceProvisioningStatus::Failed,
        (status.status == ProvisionerWorkerJobStatus::Cancelling || status.status == ProvisionerWorkerJobStatus::Cancelled)
            <==> spec_progress_from_worker_status(status).status == WorkspaceProvisioningStatus::Cancelling,
        (status.status == ProvisionerWorkerJobStatus::Idle || status.status == ProvisionerWorkerJobStatus::Running
            || status.status == ProvisionerWorkerJobStatus::Succeeded)
            <==> spec_progress_from_worker_status(status).status == WorkspaceProvisioningStatus::Running,
        status.phase == ProvisionerWorkerPhase::Completed
            <==> spec_progress_from_worker_status(status).phase == WorkspaceProvisioningPhase::CreatingEndpointTemplate,
        status.phase == ProvisionerWorkerPhase::Cancelled
            <==> spec_progress_from_worker_status(status).phase == WorkspaceProvisioningPhase::CleaningUp,
        status.phase == ProvisionerWorkerPhase::Failed
            <==> spec_progress_from_worker_status(status).phase == WorkspaceProvisioningPhase::Failed,
        (status.phase != ProvisionerWorkerPhase::Completed && status.phase != ProvisionerWorkerPhase::Cancelled
            && status.phase != ProvisionerWorkerPhase::Failed)
            <==> spec_progress_from_worker_status(status).phase == WorkspaceProvisioningPhase::PreparingEnvironment,
        spec_progress_from_worker_status(status).percent == status.progress_percent,
        spec_progress_from_worker_status(status).failure is None,
{
}

} // verus!
