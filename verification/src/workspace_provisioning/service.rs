//! The provisioning service: starting, syncing and cancelling the provisioning of a workspace.
//!
//! The service's operations wait on the catalog, the secret store and the provider; the
//! functions here make their decisions from what those answered.
use vstd::prelude::*;
use crate::domain::{Workspace, WorkspaceLifecycleState};
use crate::setup_error::WorkspaceSetupError;
use super::contracts::{ProviderApiKey, WorkspaceProvisioningResult};
use super::coordinator::{spec_try_enter, WorkspaceProvisioningCoordinator};
use super::errors::{catalog_error, error_from_secret_store, spec_catalog_error, SecretStoreError, WorkspaceProvisioningError};
use super::failure::{cancellation_cleanup_failed, fail_workspace, failed_workspace, failure_of, provisioning_error, spec_provisioning_error};
use super::progress::{progress_for_workspace, result, spec_progress_for_workspace};

verus! {

/// Settings of the provisioning service.
#[derive(Clone, Copy, Debug, Default, PartialEq, Eq)]
pub struct WorkspaceProvisioningConfig;

/// The provisioning service with its collaborators: the secret store, the resource commands,
/// the workspace catalog and the provisioner worker gateway.
pub struct WorkspaceProvisioningService<S, W, R, Q> {
    pub secrets: S,
    pub resources: Q,
    pub workspace_catalog: W,
    pub workers: R,
    pub coordinator: WorkspaceProvisioningCoordinator,
}

impl<S, W, R, Q> WorkspaceProvisioningService<S, W, R, Q> {
    /// A service over the given collaborators.
    pub fn new(
        secrets: S,
        resources: Q,
        workspace_catalog: W,
        workers: R,
        coordinator: WorkspaceProvisioningCoordinator,
        _config: WorkspaceProvisioningConfig,
    ) -> (r: Self)
        ensures
            r.secrets == secrets,
            r.resources == resources,
            r.workspace_catalog == workspace_catalog,
            r.workers == workers,
            r.coordinator == coordinator,
    {
        WorkspaceProvisioningService { secrets, resources, workspace_catalog, workers, coordinator }
    }
}

/// The workspace that a catalog lookup found: a missing workspace is not found, and a catalog
/// failure is the provisioning error of its category.
pub open spec fn spec_workspace_from_lookup(found: Result<Option<Workspace>, WorkspaceSetupError>) -> Result<Workspace, WorkspaceProvisioningError> {
    match found {
        Ok(Some(w)) => Ok(w),
        Ok(None) => Err(WorkspaceProvisioningError::WorkspaceNotFound),
        Err(e) => Err(spec_catalog_error(e)),
    }
}

/// Reads the answer of a catalog lookup.
pub fn workspace_from_lookup(found: Result<Option<Workspace>, WorkspaceSetupError>) -> (r: Result<Workspace, WorkspaceProvisioningError>)
    ensures
        r == spec_workspace_from_lookup(found),
{
    match found {
        Ok(Some(workspace)) => Ok(workspace),
        Ok(None) => Err(WorkspaceProvisioningError::WorkspaceNotFound),
        Err(error) => Err(catalog_error(error)),
    }
}

/// The result reported once a workspace was written: the written workspace with its progress;
/// a catalog failure is the provisioning error of its category.
pub fn persisted_result(persisted: Result<Workspace, WorkspaceSetupError>) -> (r: Result<WorkspaceProvisioningResult, WorkspaceProvisioningError>)
    ensures
        match persisted {
            Ok(w) => r matches Ok(res) && res.workspace == w && res.progress == spec_progress_for_workspace(w),
            Err(e) => r == Err::<WorkspaceProvisioningResult, WorkspaceProvisioningError>(spec_catalog_error(e)),
        },
{
    match persisted {
        Ok(workspace) => Ok(result(workspace)),
        Err(error) => Err(catalog_error(error)),
    }
}

/// Only a draft workspace can start provisioning.
pub fn check_initiate(workspace: &Workspace) -> (r: Result<(), WorkspaceProvisioningError>)
    ensures
        r is Ok <==> workspace.lifecycle_state == WorkspaceLifecycleState::Draft,
        r is Err ==> r == Err::<(), WorkspaceProvisioningError>(WorkspaceProvisioningError::InvalidWorkspaceLifecycle),
{
    if workspace.lifecycle_state != WorkspaceLifecycleState::Draft {
        return Err(WorkspaceProvisioningError::InvalidWorkspaceLifecycle);
    }
    Ok(())
}

/// A workspace that starts provisioning: its lifecycle is provisioning and its last failure is
/// cleared; nothing else changes, and no resource is touched.
pub open spec fn spec_provisioning_workspace(workspace: Workspace) -> Workspace {
    Workspace { lifecycle_state: WorkspaceLifecycleState::Provisioning, last_provisioning_failure: None, ..workspace }
}

/// Starts provisioning a draft workspace once the provider's API key was read: without a key
/// provider setup is incomplete, and a secret store failure is the provisioning error it stands
/// for.
pub fn initiate_transition(workspace: Workspace, api_key: Result<Option<ProviderApiKey>, SecretStoreError>) -> (r: Result<Workspace, WorkspaceProvisioningError>)
    ensures
        match api_key {
            Ok(Some(_)) => r == Ok::<Workspace, WorkspaceProvisioningError>(spec_provisioning_workspace(workspace)),
            Ok(None) => r == Err::<Workspace, WorkspaceProvisioningError>(WorkspaceProvisioningError::ProviderSetupIncomplete),
            Err(e) => r == Err::<Workspace, WorkspaceProvisioningError>(error_from_secret_store(e)),
        },
{
    match api_key {
        Ok(Some(_)) => {
            let mut workspace = workspace;
            workspace.lifecycle_state = WorkspaceLifecycleState::Provisioning;
            workspace.last_provisioning_failure = None;
            Ok(workspace)
        },
        Ok(None) => Err(WorkspaceProvisioningError::ProviderSetupIncomplete),
        Err(error) => Err(WorkspaceProvisioningError::from(error)),
    }
}

/// How a sync starts, once it tried to enter the workspace and looked it up.
#[derive(Clone, Debug)]
pub enum SyncStart {
    /// The sync ends with this result, having changed nothing.
    Report(WorkspaceProvisioningResult),
    /// Sync the workspace with its provider.
    SyncWithProvider(Workspace),
    /// The sync fails with the error.
    Fail(WorkspaceProvisioningError),
}

/// How a sync starts: a failed lookup fails it; a sync that could not enter the workspace,
/// because another operation holds it, reports the workspace as stored, and so does a sync of
/// a workspace that is not provisioning; only a provisioning workspace that the sync entered is
/// synced with its provider.
pub open spec fn spec_sync_start(entered: bool, found: Result<Option<Workspace>, WorkspaceSetupError>) -> SyncStart {
    match spec_workspace_from_lookup(found) {
        Err(e) => SyncStart::Fail(e),
        Ok(w) => if entered && w.lifecycle_state == WorkspaceLifecycleState::Provisioning {
            SyncStart::SyncWithProvider(w)
        } else {
            SyncStart::Report(WorkspaceProvisioningResult { workspace: w, progress: spec_progress_for_workspace(w) })
        },
    }
}

/// Decides how a sync starts.
pub fn sync_start(entered: bool, found: Result<Option<Workspace>, WorkspaceSetupError>) -> (r: SyncStart)
    ensures
        r == spec_sync_start(entered, found),
{
    match workspace_from_lookup(found) {
        Err(error) => SyncStart::Fail(error),
        Ok(workspace) => if entered && workspace.lifecycle_state == WorkspaceLifecycleState::Provisioning {
            SyncStart::SyncWithProvider(workspace)
        } else {
            SyncStart::Report(result(workspace))
        },
    }
}

/// What a sync does once the provider's sync answered.
#[derive(Clone, Debug)]
pub enum SyncDecision {
    /// The sync ends with this result.
    Report(WorkspaceProvisioningResult),
    /// Write the failed workspace; the sync ends with it.
    PersistFailed(Workspace),
    /// The sync fails with the error.
    Fail(WorkspaceProvisioningError),
}

/// What a sync does with the provider's answer: a result is reported; no result reports the
/// workspace as it is; an error that the workspace records fails the workspace in the phase it
/// was in, and the failed workspace is written; any other error fails the sync.
pub fn sync_after_provider(workspace: Workspace, outcome: Result<Option<WorkspaceProvisioningResult>, WorkspaceProvisioningError>) -> (r: SyncDecision)
    ensures
        match outcome {
            Ok(Some(res)) => r == SyncDecision::Report(res),
            Ok(None) => r == SyncDecision::Report(WorkspaceProvisioningResult { workspace, progress: spec_progress_for_workspace(workspace) }),
            Err(e) => match spec_provisioning_error(spec_progress_for_workspace(workspace).phase, e) {
                Some(f) => r == SyncDecision::PersistFailed(failed_workspace(workspace, f)),
                None => r == SyncDecision::Fail(e),
            },
        },
{
    match outcome {
        Ok(Some(res)) => SyncDecision::Report(res),
        Ok(None) => SyncDecision::Report(result(workspace)),
        Err(error) => {
            let phase = progress_for_workspace(&workspace).phase;
            match provisioning_error(phase, &error) {
                Some(failure) => {
                    let mut workspace = workspace;
                    fail_workspace(&mut workspace, failure);
                    SyncDecision::PersistFailed(workspace)
                },
                None => SyncDecision::Fail(error),
            }
        },
    }
}

/// Whether a cancellation may read the workspace: it needs the workspace to itself, so one
/// that could not enter it is refused as a conflict.
pub open spec fn spec_cancel_entry(entered: bool) -> Result<(), WorkspaceProvisioningError> {
    if entered { Ok(()) } else { Err(WorkspaceProvisioningError::ProviderOperationConflict) }
}

/// Decides whether a cancellation may read the workspace.
pub fn cancel_entry(entered: bool) -> (r: Result<(), WorkspaceProvisioningError>)
    ensures
        r == spec_cancel_entry(entered),
{
    if entered { Ok(()) } else { Err(WorkspaceProvisioningError::ProviderOperationConflict) }
}

/// The workspace whose resources a cancellation cleans up: a failed lookup fails the
/// cancellation, and only a provisioning workspace can be cancelled.
pub open spec fn spec_cancel_target(found: Result<Option<Workspace>, WorkspaceSetupError>) -> Result<Workspace, WorkspaceProvisioningError> {
    match spec_workspace_from_lookup(found) {
        Err(e) => Err(e),
        Ok(w) => if w.lifecycle_state == WorkspaceLifecycleState::Provisioning {
            Ok(w)
        } else {
            Err(WorkspaceProvisioningError::InvalidWorkspaceLifecycle)
        },
    }
}

/// Decides which workspace a cancellation cleans up.
pub fn cancel_target(found: Result<Option<Workspace>, WorkspaceSetupError>) -> (r: Result<Workspace, WorkspaceProvisioningError>)
    ensures
        r == spec_cancel_target(found),
{
    let workspace = workspace_from_lookup(found)?;
    if workspace.lifecycle_state != WorkspaceLifecycleState::Provisioning {
        return Err(WorkspaceProvisioningError::InvalidWorkspaceLifecycle);
    }
    Ok(workspace)
}

/// The workspace written after a cancellation: once its resources are cleaned up it returns to
/// draft without a failure; where the cleanup failed, it is failed with the cleanup failure.
pub fn cancel_after_cleanup(workspace: Workspace, cleaned: Result<Workspace, WorkspaceProvisioningError>) -> (r: Workspace)
    ensures
        match cleaned {
            Ok(c) => r == (Workspace { lifecycle_state: WorkspaceLifecycleState::Draft, last_provisioning_failure: None, ..c }),
            Err(_) => r == failed_workspace(workspace, failure_of(
                crate::domain::WorkspaceProvisioningFailureCode::CancellationCleanupFailed,
                crate::domain::WorkspaceProvisioningPhase::CleaningUp,
                crate::domain::WorkspaceProvisioningFailureSource::Native,
                crate::domain::WorkspaceProvisioningRecoveryAction::CleanupWorkspaceResources)),
        },
{
    match cleaned {
        Ok(cleaned) => {
            let mut workspace = cleaned;
            workspace.lifecycle_state = WorkspaceLifecycleState::Draft;
            workspace.last_provisioning_failure = None;
            workspace
        },
        Err(_) => {
            let mut workspace = workspace;
            fail_workspace(&mut workspace, cancellation_cleanup_failed());
            workspace
        },
    }
}

/// While an operation holds a workspace, a sync of it cannot enter it: it reports the
/// workspace as stored, with its progress, and makes no provider call and no catalog write; a
/// failed lookup fails it; the workspaces under way stay as they were.
pub proof fn concurrent_sync_is_read_only(active: Set<Seq<char>>, workspace_id: Seq<char>, found: Result<Option<Workspace>, WorkspaceSetupError>)
    requires
        active.contains(workspace_id),
    ensures
        !spec_try_enter(active, workspace_id).0,
        spec_try_enter(active, workspace_id).1 == active,
        match spec_workspace_from_lookup(found) {
            Ok(w) => spec_sync_start(spec_try_enter(active, workspace_id).0, found)
                == SyncStart::Report(WorkspaceProvisioningResult { workspace: w, progress: spec_progress_for_workspace(w) }),
            Err(e) => spec_sync_start(spec_try_enter(active, workspace_id).0, found) == SyncStart::Fail(e),
        },
{
    assert(active.insert(workspace_id) =~= active);
}

/// While an operation holds a workspace, a cancellation of it cannot enter it and is refused
/// as a conflict before the workspace is read or anything is cleaned up; the workspaces under
/// way stay as they were.
pub proof fn cancel_conflict_performs_no_cleanup(active: Set<Seq<char>>, workspace_id: Seq<char>)
    requires
        active.contains(workspace_id),
    ensures
        !spec_try_enter(active, workspace_id).0,
        spec_try_enter(active, workspace_id).1 == active,
        spec_cancel_entry(spec_try_enter(active, workspace_id).0)
            == Err::<(), WorkspaceProvisioningError>(WorkspaceProvisioningError::ProviderOperationConflict),
{
    assert(active.insert(workspace_id) =~= active);
}

} // verus!
