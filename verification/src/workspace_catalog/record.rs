//! How a catalogued workspace is checked and laid out in a catalog row.
use vstd::prelude::*;
use vstd::string::StringExecFns;
use crate::text::{is_blank, spec_is_blank, str_equals};
use super::errors::{data_invalid_error, data_invalid_message, schema_invalid_error, storage_unavailable_error, WorkspaceCatalogError};
use super::model::{RunpodRuntime, WorkflowReference, Workspace, WorkspaceRuntime, WorkspaceState};

verus! {

/// The error of data that breaks the catalog's rules, with the given message.
pub open spec fn is_data_invalid(error: WorkspaceCatalogError, message: Seq<char>) -> bool {
    error matches WorkspaceCatalogError::DataInvalid { message: m } && m@ == message
}

/// Checks a workspace id: it must not be blank.
pub fn validate_id(id: &str) -> (r: Result<(), WorkspaceCatalogError>)
    ensures
        r is Ok <==> !spec_is_blank(id@),
        r matches Err(e) ==> is_data_invalid(e, "ID is empty"@),
{
    if is_blank(id) {
        Err(data_invalid_message(String::from_str("ID is empty")))
    } else {
        Ok(())
    }
}

/// Checks that a required text is not blank; the message says which text is missing.
pub fn validate_required_text(value: &str, message: &'static str) -> (r: Result<(), WorkspaceCatalogError>)
    ensures
        r is Ok <==> !spec_is_blank(value@),
        r matches Err(e) ==> is_data_invalid(e, message@),
{
    if is_blank(value) {
        Err(data_invalid_message(String::from_str(message)))
    } else {
        Ok(())
    }
}

/// A workflow reference names its workflow and its version.
pub open spec fn valid_workflow_reference(workflow: WorkflowReference) -> bool {
    !spec_is_blank(workflow.id@) && !spec_is_blank(workflow.version@)
}

/// Checks a workflow reference: its id is checked before its version.
pub fn validate_workflow_reference(workflow: &WorkflowReference) -> (r: Result<(), WorkspaceCatalogError>)
    ensures
        r is Ok <==> valid_workflow_reference(*workflow),
        r matches Err(e) ==> if spec_is_blank(workflow.id@) {
            is_data_invalid(e, "workflow ID is missing"@)
        } else {
            is_data_invalid(e, "workflow version is missing"@)
        },
{
    match validate_required_text(workflow.id.as_str(), "workflow ID is missing") {
        Ok(()) => {},
        Err(e) => return Err(e),
    }
    validate_required_text(workflow.version.as_str(), "workflow version is missing")
}

/// The column values of a workspace state.
pub struct WorkspaceStateColumns {
    pub state: &'static str,
}

/// The column text of a workspace state.
pub open spec fn workspace_state_text(state: WorkspaceState) -> Seq<char> {
    match state {
        WorkspaceState::NotProvisioned => "not_provisioned"@,
        WorkspaceState::Ready => "ready"@,
        WorkspaceState::CleanupRequired => "cleanup_required"@,
        WorkspaceState::Invalid => "invalid"@,
    }
}

/// The workspace state stored under a column text, if the text names one.
pub open spec fn workspace_state_from_text(value: Seq<char>) -> Option<WorkspaceState> {
    if value == "not_provisioned"@ {
        Some(WorkspaceState::NotProvisioned)
    } else if value == "ready"@ {
        Some(WorkspaceState::Ready)
    } else if value == "cleanup_required"@ {
        Some(WorkspaceState::CleanupRequired)
    } else if value == "invalid"@ {
        Some(WorkspaceState::Invalid)
    } else {
        None
    }
}

/// The column values under which a workspace state is stored.
pub fn workspace_state_columns(state: &WorkspaceState) -> (r: WorkspaceStateColumns)
    ensures
        r.state@ == workspace_state_text(*state),
{
    match state {
        WorkspaceState::NotProvisioned => WorkspaceStateColumns { state: "not_provisioned" },
        WorkspaceState::Ready => WorkspaceStateColumns { state: "ready" },
        WorkspaceState::CleanupRequired => WorkspaceStateColumns { state: "cleanup_required" },
        WorkspaceState::Invalid => WorkspaceStateColumns { state: "invalid" },
    }
}

/// Reads a workspace state back from its column; an unknown state is invalid data.
pub fn workspace_state_from_columns(state: &str) -> (r: Result<WorkspaceState, WorkspaceCatalogError>)
    ensures
        match workspace_state_from_text(state@) {
            Some(s) => r == Ok::<WorkspaceState, WorkspaceCatalogError>(s),
            None => r matches Err(e) && is_data_invalid(e, "unknown state: "@ + state@),
        },
{
    if str_equals(state, "not_provisioned") {
        Ok(WorkspaceState::NotProvisioned)
    } else if str_equals(state, "ready") {
        Ok(WorkspaceState::Ready)
    } else if str_equals(state, "cleanup_required") {
        Ok(WorkspaceState::CleanupRequired)
    } else if str_equals(state, "invalid") {
        Ok(WorkspaceState::Invalid)
    } else {
        let mut message = String::from_str("unknown state: ");
        message.append(state);
        Err(data_invalid_message(message))
    }
}

/// A workspace state survives a round trip through its column.
pub proof fn workspace_state_round_trip(state: WorkspaceState, value: Seq<char>)
    ensures
        workspace_state_from_text(workspace_state_text(state)) == Some(state),
        workspace_state_from_text(value) == Some(state) ==> workspace_state_text(state) == value,
{
    reveal_strlit("not_provisioned");
    reveal_strlit("ready");
    reveal_strlit("cleanup_required");
    reveal_strlit("invalid");
    assert("not_provisioned"@.len() == 15);
    assert("ready"@.len() == 5);
    assert("cleanup_required"@.len() == 16);
    assert("invalid"@.len() == 7);
}

/// The runtime type under which RunPod runtimes are stored.
pub open spec fn runpod_runtime_type() -> Seq<char> {
    "runpod"@
}

/// A workspace runtime as it is stored: its type and its JSON text.
#[derive(Clone, Debug, PartialEq, Eq)]
pub struct EncodedWorkspaceRuntime {
    pub runtime_type: String,
    pub runtime_json: String,
}

/// Lays out a runtime for storage, given the runtime serialized as JSON (or the text of the
/// serializer's error): a RunPod runtime is stored under its type; a serializer error is invalid
/// data.
pub fn encode_runtime(runtime: &WorkspaceRuntime, runtime_json: Result<String, String>) -> (r: Result<EncodedWorkspaceRuntime, WorkspaceCatalogError>)
    ensures
        match runtime_json {
            Ok(json) => r matches Ok(encoded) && encoded.runtime_type@ == runpod_runtime_type() && encoded.runtime_json == json,
            Err(message) => r == Err::<EncodedWorkspaceRuntime, WorkspaceCatalogError>(WorkspaceCatalogError::DataInvalid { message }),
        },
{
    match runtime {
        WorkspaceRuntime::Runpod(_) => match runtime_json {
            Ok(json) => Ok(EncodedWorkspaceRuntime { runtime_type: String::from_str("runpod"), runtime_json: json }),
            Err(message) => Err(data_invalid_error(message)),
        },
    }
}

/// Reads a stored runtime back, given its type and its JSON text read as a RunPod runtime (or
/// the text of the parser's error): an unknown type is invalid data, whatever its JSON holds.
pub fn decode_runtime(runtime_type: &str, runpod_runtime: Result<RunpodRuntime, String>) -> (r: Result<WorkspaceRuntime, WorkspaceCatalogError>)
    ensures
        runtime_type@ == runpod_runtime_type() ==> match runpod_runtime {
            Ok(runtime) => r == Ok::<WorkspaceRuntime, WorkspaceCatalogError>(WorkspaceRuntime::Runpod(runtime)),
            Err(message) => r == Err::<WorkspaceRuntime, WorkspaceCatalogError>(WorkspaceCatalogError::DataInvalid { message }),
        },
        runtime_type@ != runpod_runtime_type() ==> (r matches Err(e) && is_data_invalid(e, "unknown runtime type: "@ + runtime_type@)),
{
    if str_equals(runtime_type, "runpod") {
        match runpod_runtime {
            Ok(runtime) => Ok(WorkspaceRuntime::Runpod(runtime)),
            Err(message) => Err(data_invalid_error(message)),
        }
    } else {
        let mut message = String::from_str("unknown runtime type: ");
        message.append(runtime_type);
        Err(data_invalid_message(message))
    }
}

/// A workspace as it is written to the catalog.
pub struct PersistedWorkspace<'a> {
    pub workspace: &'a Workspace,
    pub runtime_type: String,
    pub runtime_json: String,
    pub state: &'static str,
}

/// A workspace can be written when its id is not blank and its workflow reference is valid.
pub open spec fn writable(workspace: Workspace) -> bool {
    !spec_is_blank(workspace.id@) && valid_workflow_reference(workspace.workflow)
}

impl<'a> PersistedWorkspace<'a> {
    /// Lays out a workspace for writing, given its runtime serialized as JSON: the id is checked,
    /// then the workflow reference, then the runtime is encoded.
    pub fn encode(workspace: &'a Workspace, runtime_json: Result<String, String>) -> (r: Result<Self, WorkspaceCatalogError>)
        ensures
            r is Ok <==> writable(*workspace) && runtime_json is Ok,
            r matches Ok(p) ==> p.workspace == workspace && p.runtime_type@ == runpod_runtime_type()
                && p.runtime_json == runtime_json->Ok_0 && p.state@ == workspace_state_text(workspace.state),
            r matches Err(e) ==> if spec_is_blank(workspace.id@) {
                is_data_invalid(e, "ID is empty"@)
            } else if !valid_workflow_reference(workspace.workflow) {
                if spec_is_blank(workspace.workflow.id@) {
                    is_data_invalid(e, "workflow ID is missing"@)
                } else {
                    is_data_invalid(e, "workflow version is missing"@)
                }
            } else {
                e == (WorkspaceCatalogError::DataInvalid { message: runtime_json->Err_0 })
            },
    {
        match validate_id(workspace.id.as_str()) {
            Ok(()) => {},
            Err(e) => return Err(e),
        }
        match validate_workflow_reference(&workspace.workflow) {
            Ok(()) => {},
            Err(e) => return Err(e),
        }
        let encoded = match encode_runtime(&workspace.runtime, runtime_json) {
            Ok(encoded) => encoded,
            Err(e) => return Err(e),
        };
        let state = workspace_state_columns(&workspace.state);
        Ok(PersistedWorkspace {
            workspace,
            runtime_type: encoded.runtime_type,
            runtime_json: encoded.runtime_json,
            state: state.state,
        })
    }
}

/// The columns of a catalog row as read from storage; each is the column's text or the text of
/// the storage error met reading it.
#[derive(Debug, PartialEq, Eq)]
pub struct WorkspaceRow {
    pub id: Result<String, String>,
    pub runtime_type: Result<String, String>,
    pub state: Result<String, String>,
    pub workflow_id: Result<String, String>,
    pub workflow_version: Result<String, String>,
    pub runtime_json: Result<String, String>,
}

/// The error of reading the first column that could not be read, in the order id, runtime
/// type, state, workflow id, workflow version, runtime JSON.
pub open spec fn first_column_error(row: WorkspaceRow) -> Option<String> {
    if row.id is Err {
        Some(row.id->Err_0)
    } else if row.runtime_type is Err {
        Some(row.runtime_type->Err_0)
    } else if row.state is Err {
        Some(row.state->Err_0)
    } else if row.workflow_id is Err {
        Some(row.workflow_id->Err_0)
    } else if row.workflow_version is Err {
        Some(row.workflow_version->Err_0)
    } else if row.runtime_json is Err {
        Some(row.runtime_json->Err_0)
    } else {
        None
    }
}

fn required_text(column: Result<String, String>) -> (r: Result<String, WorkspaceCatalogError>)
    ensures
        match column {
            Ok(t) => r == Ok::<String, WorkspaceCatalogError>(t),
            Err(m) => r == Err::<String, WorkspaceCatalogError>(WorkspaceCatalogError::SchemaInvalid { message: m }),
        },
{
    match column {
        Ok(text) => Ok(text),
        Err(message) => Err(schema_invalid_error(message)),
    }
}

/// Reads a workspace from a catalog row, given the row's runtime JSON read as a RunPod runtime:
/// a column that cannot be read makes the schema invalid; then the id, the workflow reference,
/// the state and the runtime are checked in that order.
pub fn workspace_from_row(row: WorkspaceRow, runpod_runtime: Result<RunpodRuntime, String>) -> (r: Result<Workspace, WorkspaceCatalogError>)
    ensures
        first_column_error(row) matches Some(m) ==> r == Err::<Workspace, WorkspaceCatalogError>(WorkspaceCatalogError::SchemaInvalid { message: m }),
        first_column_error(row) is None ==> {
            let id = row.id->Ok_0;
            let workflow = WorkflowReference { id: row.workflow_id->Ok_0, version: row.workflow_version->Ok_0 };
            let state = row.state->Ok_0;
            let runtime_type = row.runtime_type->Ok_0;
            if spec_is_blank(id@) {
                r matches Err(e) && is_data_invalid(e, "ID is empty"@)
            } else if spec_is_blank(workflow.id@) {
                r matches Err(e) && is_data_invalid(e, "workflow ID is missing"@)
            } else if spec_is_blank(workflow.version@) {
                r matches Err(e) && is_data_invalid(e, "workflow version is missing"@)
            } else if workspace_state_from_text(state@) is None {
                r matches Err(e) && is_data_invalid(e, "unknown state: "@ + state@)
            } else if runtime_type@ != runpod_runtime_type() {
                r matches Err(e) && is_data_invalid(e, "unknown runtime type: "@ + runtime_type@)
            } else {
                match runpod_runtime {
                    Ok(runtime) => r == Ok::<Workspace, WorkspaceCatalogError>(Workspace {
                        id,
                        workflow,
                        state: workspace_state_from_text(state@)->Some_0,
                        runtime: WorkspaceRuntime::Runpod(runtime),
                    }),
                    Err(message) => r == Err::<Workspace, WorkspaceCatalogError>(WorkspaceCatalogError::DataInvalid { message }),
                }
            }
        },
{
    let WorkspaceRow { id, runtime_type, state, workflow_id, workflow_version, runtime_json } = row;
    let id = match required_text(id) { Ok(t) => t, Err(e) => return Err(e) };
    let runtime_type = match required_text(runtime_type) { Ok(t) => t, Err(e) => return Err(e) };
    let state = match required_text(state) { Ok(t) => t, Err(e) => return Err(e) };
    let workflow_id = match required_text(workflow_id) { Ok(t) => t, Err(e) => return Err(e) };
    let workflow_version = match required_text(workflow_version) { Ok(t) => t, Err(e) => return Err(e) };
    match required_text(runtime_json) { Ok(_) => {}, Err(e) => return Err(e) };
    match validate_id(id.as_str()) {
        Ok(()) => {},
        Err(e) => return Err(e),
    }
    let workflow = WorkflowReference { id: workflow_id, version: workflow_version };
    match validate_workflow_reference(&workflow) {
        Ok(()) => {},
        Err(e) => return Err(e),
    }
    let state = match workspace_state_from_columns(state.as_str()) {
        Ok(s) => s,
        Err(e) => return Err(e),
    };
    let runtime = match decode_runtime(runtime_type.as_str(), runpod_runtime) {
        Ok(r) => r,
        Err(e) => return Err(e),
    };
    Ok(Workspace { id, workflow, state, runtime })
}

/// Whether a storage error code is that of a unique constraint violation.
pub fn is_unique_constraint(code: Option<&str>) -> (r: bool)
    ensures
        r == (code matches Some(c) && (c@ == "1555"@ || c@ == "2067"@)),
{
    match code {
        Some(c) => str_equals(c, "1555") || str_equals(c, "2067"),
        None => false,
    }
}

/// The error of an insert that storage refused: a unique constraint violation means the
/// workspace already exists; anything else is unavailable storage.
pub fn insert_error(unique_violation: bool, message: String) -> (r: WorkspaceCatalogError)
    ensures
        unique_violation ==> r == WorkspaceCatalogError::WorkspaceAlreadyExists,
        !unique_violation ==> r == (WorkspaceCatalogError::StorageUnavailable { message }),
{
    if unique_violation {
        WorkspaceCatalogError::WorkspaceAlreadyExists
    } else {
        storage_unavailable_error(message)
    }
}

/// An update or delete that touched no row did not find its workspace.
pub fn rows_affected_outcome(rows_affected: u64) -> (r: Result<(), WorkspaceCatalogError>)
    ensures
        rows_affected == 0 ==> r == Err::<(), WorkspaceCatalogError>(WorkspaceCatalogError::WorkspaceNotFound),
        rows_affected != 0 ==> r is Ok,
{
    if rows_affected == 0 {
        Err(WorkspaceCatalogError::WorkspaceNotFound)
    } else {
        Ok(())
    }
}

} // verus!
