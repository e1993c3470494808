//! Errors reported by the workspace catalog to the rest of the application.
use vstd::prelude::*;

verus! {

/// Failures of the workspace catalog as seen by workspace setup.
#[derive(Clone, Copy, Debug, PartialEq, Eq, Structural)]
pub enum WorkspaceSetupError {
    WorkspaceCatalogUnavailable,
    WorkspaceCatalogStorageUnavailable,
    WorkspaceCatalogMigrationFailed,
    WorkspaceCatalogQueryFailed,
    WorkspaceCatalogCorrupt,
    WorkspaceCatalogSchemaMismatch,
}

} // verus!
