//! Errors of workspace provisioning and how the errors of its collaborators map onto them.
use vstd::prelude::*;
use crate::setup_error::WorkspaceSetupError;
use super::gateway::{ProvisionerWorkerError, ProvisionerWorkerHttpGatewayInitError};

verus! {

/// Failures of the secure secret store.
#[derive(Clone, Copy, Debug, PartialEq, Eq, Structural)]
pub enum SecretStoreError {
    SecureKeyringUnavailable,
    InvalidStoredProviderApiKey,
    InvalidStoredProvisionerWorkerToken,
}

/// Failures of the provider resource commands.
#[derive(Clone, Copy, Debug, PartialEq, Eq, Structural)]
pub enum WorkspaceResourceError {
    WorkspaceCatalogUnavailable,
    WorkspaceCatalogStorageUnavailable,
    WorkspaceCatalogMigrationFailed,
    WorkspaceCatalogQueryFailed,
    WorkspaceCatalogCorrupt,
    WorkspaceCatalogSchemaMismatch,
    ProviderSetupIncomplete,
    ProviderApiKeyUnauthorized,
    ProviderApiUnavailable,
    ProviderRateLimited,
    ProviderRequestRejected,
    ProviderResponseInvalid,
    ProviderResourceNotFound,
    ProviderOperationConflict,
    ProviderOperationIndeterminate,
    SecureKeyringUnavailable,
    ProvisionerWorkerTokenInvalid,
}

/// Failures of workspace provisioning.
#[derive(Clone, Copy, Debug, PartialEq, Eq, Structural)]
pub enum WorkspaceProvisioningError {
    WorkspaceNotFound,
    InvalidWorkspaceLifecycle,
    WorkspaceCatalogUnavailable,
    WorkspaceCatalogStorageUnavailable,
    WorkspaceCatalogMigrationFailed,
    WorkspaceCatalogQueryFailed,
    WorkspaceCatalogCorrupt,
    WorkspaceCatalogSchemaMismatch,
    ProviderSetupIncomplete,
    ProviderApiKeyUnauthorized,
    ProviderApiUnavailable,
    ProviderRateLimited,
    ProviderRequestRejected,
    ProviderResponseInvalid,
    ProviderResourceNotFound,
    ProviderOperationConflict,
    ProviderOperationIndeterminate,
    SecureKeyringUnavailable,
    ProvisionerWorkerTokenInvalid,
    ProvisionerWorkerUnauthorized,
    ProvisionerWorkerUnavailable,
    ProvisionerWorkerConflict,
    ProvisionerWorkerResponseInvalid,
    ProvisionerWorkerFailed,
    ProvisionerWorkerGitCheckoutFailed,
    ProvisionerWorkerDependencyInstallFailed,
    ProvisionerWorkerAssetDownloadFailed,
    ProvisionerWorkerAssetAuthRequired,
    ProvisionerWorkerPathValidationFailed,
    ProvisionerWorkerStepTimeout,
    ProvisionerWorkerUnexpectedError,
}

/// The provisioning error that a secret store failure stands for.
pub open spec fn error_from_secret_store(error: SecretStoreError) -> WorkspaceProvisioningError {
    match error {
        SecretStoreError::SecureKeyringUnavailable => WorkspaceProvisioningError::SecureKeyringUnavailable,
        SecretStoreError::InvalidStoredProviderApiKey => WorkspaceProvisioningError::ProviderSetupIncomplete,
        SecretStoreError::InvalidStoredProvisionerWorkerToken => WorkspaceProvisioningError::ProvisionerWorkerTokenInvalid,
    }
}

impl From<SecretStoreError> for WorkspaceProvisioningError {
    fn from(error: SecretStoreError) -> (r: Self) {
        match error {
            SecretStoreError::SecureKeyringUnavailable => Self::SecureKeyringUnavailable,
            SecretStoreError::InvalidStoredProviderApiKey => Self::ProviderSetupIncomplete,
            SecretStoreError::InvalidStoredProvisionerWorkerToken => Self::ProvisionerWorkerTokenInvalid,
        }
    }
}

impl vstd::std_specs::convert::FromSpecImpl<SecretStoreError> for WorkspaceProvisioningError {
    open spec fn obeys_from_spec() -> bool {
        true
    }

    open spec fn from_spec(v: SecretStoreError) -> Self {
        error_from_secret_store(v)
    }
}

/// The provisioning error that a resource command failure stands for.
pub open spec fn error_from_resource(error: WorkspaceResourceError) -> WorkspaceProvisioningError {
    match error {
        WorkspaceResourceError::WorkspaceCatalogUnavailable => WorkspaceProvisioningError::WorkspaceCatalogUnavailable,
        WorkspaceResourceError::WorkspaceCatalogStorageUnavailable => WorkspaceProvisioningError::WorkspaceCatalogStorageUnavailable,
        WorkspaceResourceError::WorkspaceCatalogMigrationFailed => WorkspaceProvisioningError::WorkspaceCatalogMigrationFailed,
        WorkspaceResourceError::WorkspaceCatalogQueryFailed => WorkspaceProvisioningError::WorkspaceCatalogQueryFailed,
        WorkspaceResourceError::WorkspaceCatalogCorrupt => WorkspaceProvisioningError::WorkspaceCatalogCorrupt,
        WorkspaceResourceError::WorkspaceCatalogSchemaMismatch => WorkspaceProvisioningError::WorkspaceCatalogSchemaMismatch,
        WorkspaceResourceError::ProviderSetupIncomplete => WorkspaceProvisioningError::ProviderSetupIncomplete,
        WorkspaceResourceError::ProviderApiKeyUnauthorized => WorkspaceProvisioningError::ProviderApiKeyUnauthorized,
        WorkspaceResourceError::ProviderApiUnavailable => WorkspaceProvisioningError::ProviderApiUnavailable,
        WorkspaceResourceError::ProviderRateLimited => WorkspaceProvisioningError::ProviderRateLimited,
        WorkspaceResourceError::ProviderRequestRejected => WorkspaceProvisioningError::ProviderRequestRejected,
        WorkspaceResourceError::ProviderResponseInvalid => WorkspaceProvisioningError::ProviderResponseInvalid,
        WorkspaceResourceError::ProviderResourceNotFound => WorkspaceProvisioningError::ProviderResourceNotFound,
        WorkspaceResourceError::ProviderOperationConflict => WorkspaceProvisioningError::ProviderOperationConflict,
        WorkspaceResourceError::ProviderOperationIndeterminate => WorkspaceProvisioningError::ProviderOperationIndeterminate,
        WorkspaceResourceError::SecureKeyringUnavailable => WorkspaceProvisioningError::SecureKeyringUnavailable,
        WorkspaceResourceError::ProvisionerWorkerTokenInvalid => WorkspaceProvisioningError::ProvisionerWorkerTokenInvalid,
    }
}

impl From<WorkspaceResourceError> for WorkspaceProvisioningError {
    fn from(error: WorkspaceResourceError) -> (r: Self) {
        match error {
            WorkspaceResourceError::WorkspaceCatalogUnavailable => Self::WorkspaceCatalogUnavailable,
            WorkspaceResourceError::WorkspaceCatalogStorageUnavailable => Self::WorkspaceCatalogStorageUnavailable,
            WorkspaceResourceError::WorkspaceCatalogMigrationFailed => Self::WorkspaceCatalogMigrationFailed,
            WorkspaceResourceError::WorkspaceCatalogQueryFailed => Self::WorkspaceCatalogQueryFailed,
            WorkspaceResourceError::WorkspaceCatalogCorrupt => Self::WorkspaceCatalogCorrupt,
            WorkspaceResourceError::WorkspaceCatalogSchemaMismatch => Self::WorkspaceCatalogSchemaMismatch,
            WorkspaceResourceError::ProviderSetupIncomplete => Self::ProviderSetupIncomplete,
            WorkspaceResourceError::ProviderApiKeyUnauthorized => Self::ProviderApiKeyUnauthorized,
            WorkspaceResourceError::ProviderApiUnavailable => Self::ProviderApiUnavailable,
            WorkspaceResourceError::ProviderRateLimited => Self::ProviderRateLimited,
            WorkspaceResourceError::ProviderRequestRejected => Self::ProviderRequestRejected,
            WorkspaceResourceError::ProviderResponseInvalid => Self::ProviderResponseInvalid,
            WorkspaceResourceError::ProviderResourceNotFound => Self::ProviderResourceNotFound,
            WorkspaceResourceError::ProviderOperationConflict => Self::ProviderOperationConflict,
            WorkspaceResourceError::ProviderOperationIndeterminate => Self::ProviderOperationIndeterminate,
            WorkspaceResourceError::SecureKeyringUnavailable => Self::SecureKeyringUnavailable,
            WorkspaceResourceError::ProvisionerWorkerTokenInvalid => Self::ProvisionerWorkerTokenInvalid,
        }
    }
}

impl vstd::std_specs::convert::FromSpecImpl<WorkspaceResourceError> for WorkspaceProvisioningError {
    open spec fn obeys_from_spec() -> bool {
        true
    }

    open spec fn from_spec(v: WorkspaceResourceError) -> Self {
        error_from_resource(v)
    }
}

/// The provisioning error that a provisioner worker failure stands for.
pub open spec fn error_from_worker(error: ProvisionerWorkerError) -> WorkspaceProvisioningError {
    match error {
        ProvisionerWorkerError::Unauthorized => WorkspaceProvisioningError::ProvisionerWorkerUnauthorized,
        ProvisionerWorkerError::Conflict => WorkspaceProvisioningError::ProvisionerWorkerConflict,
        ProvisionerWorkerError::Unreachable => WorkspaceProvisioningError::ProvisionerWorkerUnavailable,
        ProvisionerWorkerError::InvalidPayload => WorkspaceProvisioningError::ProvisionerWorkerResponseInvalid,
        _ => WorkspaceProvisioningError::ProvisionerWorkerFailed,
    }
}

impl From<ProvisionerWorkerError> for WorkspaceProvisioningError {
    fn from(error: ProvisionerWorkerError) -> (r: Self) {
        match error {
            ProvisionerWorkerError::Unauthorized => Self::ProvisionerWorkerUnauthorized,
            ProvisionerWorkerError::Conflict => Self::ProvisionerWorkerConflict,
            ProvisionerWorkerError::Unreachable => Self::ProvisionerWorkerUnavailable,
            ProvisionerWorkerError::InvalidPayload => Self::ProvisionerWorkerResponseInvalid,
            ProvisionerWorkerError::Failed
            | ProvisionerWorkerError::AssetDownloadFailed
            | ProvisionerWorkerError::AssetAuthRequired
            | ProvisionerWorkerError::PathValidationFailed
            | ProvisionerWorkerError::StepTimeout
            | ProvisionerWorkerError::UnexpectedError => Self::ProvisionerWorkerFailed,
        }
    }
}

impl vstd::std_specs::convert::FromSpecImpl<ProvisionerWorkerError> for WorkspaceProvisioningError {
    open spec fn obeys_from_spec() -> bool {
        true
    }

    open spec fn from_spec(v: ProvisionerWorkerError) -> Self {
        error_from_worker(v)
    }
}

impl From<ProvisionerWorkerHttpGatewayInitError> for WorkspaceProvisioningError {
    fn from(_error: ProvisionerWorkerHttpGatewayInitError) -> (r: Self) {
        Self::ProvisionerWorkerUnavailable
    }
}

impl vstd::std_specs::convert::FromSpecImpl<ProvisionerWorkerHttpGatewayInitError> for WorkspaceProvisioningError {
    open spec fn obeys_from_spec() -> bool {
        true
    }

    open spec fn from_spec(v: ProvisionerWorkerHttpGatewayInitError) -> Self {
        WorkspaceProvisioningError::ProvisionerWorkerUnavailable
    }
}

/// The provisioning error that a catalog failure stands for.
pub open spec fn spec_catalog_error(error: WorkspaceSetupError) -> WorkspaceProvisioningError {
    match error {
        WorkspaceSetupError::WorkspaceCatalogUnavailable => WorkspaceProvisioningError::WorkspaceCatalogUnavailable,
        WorkspaceSetupError::WorkspaceCatalogStorageUnavailable => WorkspaceProvisioningError::WorkspaceCatalogStorageUnavailable,
        WorkspaceSetupError::WorkspaceCatalogMigrationFailed => WorkspaceProvisioningError::WorkspaceCatalogMigrationFailed,
        WorkspaceSetupError::WorkspaceCatalogQueryFailed => WorkspaceProvisioningError::WorkspaceCatalogQueryFailed,
        WorkspaceSetupError::WorkspaceCatalogCorrupt => WorkspaceProvisioningError::WorkspaceCatalogCorrupt,
        WorkspaceSetupError::WorkspaceCatalogSchemaMismatch => WorkspaceProvisioningError::WorkspaceCatalogSchemaMismatch,
    }
}

/// Maps a catalog failure onto the provisioning error of the same category.
pub fn catalog_error(error: WorkspaceSetupError) -> (r: WorkspaceProvisioningError)
    ensures
        r == spec_catalog_error(error),
{
    match error {
        WorkspaceSetupError::WorkspaceCatalogUnavailable => WorkspaceProvisioningError::WorkspaceCatalogUnavailable,
        WorkspaceSetupError::WorkspaceCatalogStorageUnavailable => WorkspaceProvisioningError::WorkspaceCatalogStorageUnavailable,
        WorkspaceSetupError::WorkspaceCatalogMigrationFailed => WorkspaceProvisioningError::WorkspaceCatalogMigrationFailed,
        WorkspaceSetupError::WorkspaceCatalogQueryFailed => WorkspaceProvisioningError::WorkspaceCatalogQueryFailed,
        WorkspaceSetupError::WorkspaceCatalogCorrupt => WorkspaceProvisioningError::WorkspaceCatalogCorrupt,
        WorkspaceSetupError::WorkspaceCatalogSchemaMismatch => WorkspaceProvisioningError::WorkspaceCatalogSchemaMismatch,
    }
}

/// Resource command failures and catalog failures keep their identity as provisioning errors:
/// two different failures never become the same error, and each becomes the error of the same
/// name.
pub proof fn collaborator_errors_keep_their_identity(a: WorkspaceResourceError, b: WorkspaceResourceError, c: WorkspaceSetupError, d: WorkspaceSetupError)
    ensures
        a != b ==> error_from_resource(a) != error_from_resource(b),
        c != d ==> spec_catalog_error(c) != spec_catalog_error(d),
        error_from_resource(WorkspaceResourceError::ProviderApiKeyUnauthorized) == WorkspaceProvisioningError::ProviderApiKeyUnauthorized,
        error_from_resource(WorkspaceResourceError::ProviderOperationIndeterminate) == WorkspaceProvisioningError::ProviderOperationIndeterminate,
        error_from_resource(WorkspaceResourceError::SecureKeyringUnavailable) == WorkspaceProvisioningError::SecureKeyringUnavailable,
        spec_catalog_error(WorkspaceSetupError::WorkspaceCatalogCorrupt) == WorkspaceProvisioningError::WorkspaceCatalogCorrupt,
{
}

/// A worker error becomes the provisioning error of the worker's kind: unauthorized, a
/// conflict, unavailable when unreachable, an invalid response, and any terminal failure a
/// failed worker; a secret store failure becomes an unavailable keyring, an incomplete provider
/// setup for a bad stored API key, and an invalid worker token for a bad stored token.
pub proof fn worker_and_secret_errors_are_named(error: ProvisionerWorkerError)
    ensures
        error_from_worker(ProvisionerWorkerError::Unauthorized) == WorkspaceProvisioningError::ProvisionerWorkerUnauthorized,
        error_from_worker(ProvisionerWorkerError::Conflict) == WorkspaceProvisioningError::ProvisionerWorkerConflict,
        error_from_worker(ProvisionerWorkerError::Unreachable) == WorkspaceProvisioningError::ProvisionerWorkerUnavailable,
        error_from_worker(ProvisionerWorkerError::InvalidPayload) == WorkspaceProvisioningError::ProvisionerWorkerResponseInvalid,
        (error != ProvisionerWorkerError::Unauthorized && error != ProvisionerWorkerError::Conflict
            && error != ProvisionerWorkerError::Unreachable && error != ProvisionerWorkerError::InvalidPayload)
            ==> error_from_worker(error) == WorkspaceProvisioningError::ProvisionerWorkerFailed,
        error_from_secret_store(SecretStoreError::SecureKeyringUnavailable) == WorkspaceProvisioningError::SecureKeyringUnavailable,
        error_from_secret_store(SecretStoreError::InvalidStoredProviderApiKey) == WorkspaceProvisioningError::ProviderSetupIncomplete,
        error_from_secret_store(SecretStoreError::InvalidStoredProvisionerWorkerToken) == WorkspaceProvisioningError::ProvisionerWorkerTokenInvalid,
{
}

} // verus!
