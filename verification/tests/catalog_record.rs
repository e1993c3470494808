use luma_forge::workspace_catalog::errors::{
    data_invalid_error, data_invalid_message, schema_invalid_error, storage_unavailable_error,
    WorkspaceCatalogError,
};
use luma_forge::workspace_catalog::model::{
    copy_workspace, RunpodPlacementPlan, RunpodResources, RunpodRuntime, WorkflowReference,
    Workspace, WorkspaceRuntime, WorkspaceState,
};
use luma_forge::workspace_catalog::record::{
    decode_runtime, encode_runtime, insert_error, is_unique_constraint, rows_affected_outcome,
    validate_id, validate_workflow_reference, workspace_from_row, workspace_state_columns,
    workspace_state_from_columns, PersistedWorkspace, WorkspaceRow,
};

fn runtime() -> RunpodRuntime {
    RunpodRuntime {
        placement: RunpodPlacementPlan {
            data_center_id: "EU-RO-1".to_string(),
            gpu_type_id: "NVIDIA RTX 4090".to_string(),
            volume_size_gb: 50,
        },
        resources: RunpodResources {
            network_volume_id: Some("volume-1".to_string()),
            provisioner_pod_id: None,
            endpoint_id: None,
            template_id: None,
        },
    }
}

fn catalog_workspace(id: &str) -> Workspace {
    Workspace {
        id: id.to_string(),
        workflow: WorkflowReference {
            id: "flux".to_string(),
            version: "1.0.0".to_string(),
        },
        state: WorkspaceState::NotProvisioned,
        runtime: WorkspaceRuntime::Runpod(runtime()),
    }
}

fn row(id: &str, state: &str) -> WorkspaceRow {
    WorkspaceRow {
        id: Ok(id.to_string()),
        runtime_type: Ok("runpod".to_string()),
        state: Ok(state.to_string()),
        workflow_id: Ok("flux".to_string()),
        workflow_version: Ok("1.0.0".to_string()),
        runtime_json: Ok("{}".to_string()),
    }
}

#[test]
fn catalog_error_constructors_keep_their_messages() {
    assert_eq!(
        data_invalid_message("bad".to_string()),
        WorkspaceCatalogError::DataInvalid { message: "bad".to_string() }
    );
    assert_eq!(
        storage_unavailable_error("disk".to_string()),
        WorkspaceCatalogError::StorageUnavailable { message: "disk".to_string() }
    );
    assert_eq!(
        schema_invalid_error("column".to_string()),
        WorkspaceCatalogError::SchemaInvalid { message: "column".to_string() }
    );
    assert_eq!(
        data_invalid_error("json".to_string()),
        WorkspaceCatalogError::DataInvalid { message: "json".to_string() }
    );
}

#[test]
fn blank_ids_and_workflow_references_are_invalid_data() {
    assert_eq!(validate_id("workspace-1"), Ok(()));
    assert_eq!(
        validate_id("  \t"),
        Err(WorkspaceCatalogError::DataInvalid { message: "ID is empty".to_string() })
    );
    assert_eq!(
        validate_workflow_reference(&WorkflowReference {
            id: " ".to_string(),
            version: "".to_string()
        }),
        Err(WorkspaceCatalogError::DataInvalid {
            message: "workflow ID is missing".to_string()
        })
    );
    assert_eq!(
        validate_workflow_reference(&WorkflowReference {
            id: "flux".to_string(),
            version: " ".to_string()
        }),
        Err(WorkspaceCatalogError::DataInvalid {
            message: "workflow version is missing".to_string()
        })
    );
}

#[test]
fn workspace_states_round_trip_through_their_columns() {
    for (state, text) in [
        (WorkspaceState::NotProvisioned, "not_provisioned"),
        (WorkspaceState::Ready, "ready"),
        (WorkspaceState::CleanupRequired, "cleanup_required"),
        (WorkspaceState::Invalid, "invalid"),
    ] {
        assert_eq!(workspace_state_columns(&state).state, text);
        assert_eq!(workspace_state_from_columns(text), Ok(state));
    }
    assert_eq!(
        workspace_state_from_columns("archived"),
        Err(WorkspaceCatalogError::DataInvalid {
            message: "unknown state: archived".to_string()
        })
    );
}

#[test]
fn runtimes_are_encoded_under_their_type() {
    let encoded = encode_runtime(&WorkspaceRuntime::Runpod(runtime()), Ok("{\"a\":1}".to_string()))
        .expect("encoded");
    assert_eq!(encoded.runtime_type, "runpod");
    assert_eq!(encoded.runtime_json, "{\"a\":1}");
    assert_eq!(
        encode_runtime(&WorkspaceRuntime::Runpod(runtime()), Err("oops".to_string())),
        Err(WorkspaceCatalogError::DataInvalid { message: "oops".to_string() })
    );
    assert_eq!(
        decode_runtime("runpod", Ok(runtime())),
        Ok(WorkspaceRuntime::Runpod(runtime()))
    );
    assert_eq!(
        decode_runtime("aws", Ok(runtime())),
        Err(WorkspaceCatalogError::DataInvalid {
            message: "unknown runtime type: aws".to_string()
        })
    );
    assert_eq!(
        decode_runtime("runpod", Err("eof".to_string())),
        Err(WorkspaceCatalogError::DataInvalid { message: "eof".to_string() })
    );
}

#[test]
fn persisted_workspace_checks_before_encoding() {
    let workspace = catalog_workspace("workspace-1");
    let persisted = PersistedWorkspace::encode(&workspace, Ok("{}".to_string())).expect("encoded");
    assert_eq!(persisted.runtime_type, "runpod");
    assert_eq!(persisted.runtime_json, "{}");
    assert_eq!(persisted.state, "not_provisioned");

    let blank = catalog_workspace(" ");
    assert_eq!(
        PersistedWorkspace::encode(&blank, Ok("{}".to_string())).err(),
        Some(WorkspaceCatalogError::DataInvalid { message: "ID is empty".to_string() })
    );
}

#[test]
fn rows_read_back_into_workspaces() {
    let workspace = workspace_from_row(row("workspace-1", "ready"), Ok(runtime())).expect("row");
    assert_eq!(
        workspace,
        Workspace {
            state: WorkspaceState::Ready,
            ..catalog_workspace("workspace-1")
        }
    );
    assert_eq!(copy_workspace(&workspace), workspace);
}

#[test]
fn unreadable_and_corrupt_rows_are_refused_in_order() {
    let mut unreadable = row("workspace-1", "ready");
    unreadable.state = Err("no state column".to_string());
    unreadable.workflow_id = Err("no workflow column".to_string());
    assert_eq!(
        workspace_from_row(unreadable, Ok(runtime())),
        Err(WorkspaceCatalogError::SchemaInvalid {
            message: "no state column".to_string()
        })
    );
    assert_eq!(
        workspace_from_row(row("", "ready"), Ok(runtime())),
        Err(WorkspaceCatalogError::DataInvalid { message: "ID is empty".to_string() })
    );
    assert_eq!(
        workspace_from_row(row("workspace-1", "paused"), Ok(runtime())),
        Err(WorkspaceCatalogError::DataInvalid {
            message: "unknown state: paused".to_string()
        })
    );
    assert_eq!(
        workspace_from_row(row("workspace-1", "ready"), Err("bad json".to_string())),
        Err(WorkspaceCatalogError::DataInvalid { message: "bad json".to_string() })
    );
}

#[test]
fn storage_outcomes_map_to_catalog_errors() {
    assert!(is_unique_constraint(Some("2067")));
    assert!(is_unique_constraint(Some("1555")));
    assert!(!is_unique_constraint(Some("19")));
    assert!(!is_unique_constraint(None));
    assert_eq!(
        insert_error(true, "dup".to_string()),
        WorkspaceCatalogError::WorkspaceAlreadyExists
    );
    assert_eq!(
        insert_error(false, "io".to_string()),
        WorkspaceCatalogError::StorageUnavailable { message: "io".to_string() }
    );
    assert_eq!(rows_affected_outcome(0), Err(WorkspaceCatalogError::WorkspaceNotFound));
    assert_eq!(rows_affected_outcome(1), Ok(()));
}

#[test]
fn catalog_errors_read_as_what_failed_then_their_message() {
    assert_eq!(
        data_invalid_message("ID is empty".to_string()).message(),
        "workspace catalog data is invalid: ID is empty"
    );
    assert_eq!(
        storage_unavailable_error("disk I/O error".to_string()).message(),
        "workspace catalog storage unavailable: disk I/O error"
    );
    assert_eq!(
        schema_invalid_error("no such column: state".to_string()).message(),
        "workspace catalog schema is invalid: no such column: state"
    );
    assert_eq!(
        WorkspaceCatalogError::WorkspaceAlreadyExists.message(),
        "workspace already exists"
    );
    assert_eq!(WorkspaceCatalogError::WorkspaceNotFound.message(), "workspace was not found");
}
