//! Errors of the workspace catalog.
use vstd::prelude::*;

verus! {

/// Failures of the workspace catalog.
#[derive(Clone, Debug, PartialEq, Eq)]
pub enum WorkspaceCatalogError {
    StorageUnavailable { message: String },
    SchemaInvalid { message: String },
    DataInvalid { message: String },
    WorkspaceAlreadyExists,
    WorkspaceNotFound,
}

impl WorkspaceCatalogError {
    /// The text shown for the error: what failed, then the message that it carries.
    pub open spec fn spec_message(self) -> Seq<char> {
        match self {
            WorkspaceCatalogError::StorageUnavailable { message } => "workspace catalog storage unavailable: "@ + message@,
            WorkspaceCatalogError::SchemaInvalid { message } => "workspace catalog schema is invalid: "@ + message@,
            WorkspaceCatalogError::DataInvalid { message } => "workspace catalog data is invalid: "@ + message@,
            WorkspaceCatalogError::WorkspaceAlreadyExists => "workspace already exists"@,
            WorkspaceCatalogError::WorkspaceNotFound => "workspace was not found"@,
        }
    }

    /// The text shown for the error.
    pub fn message(&self) -> (r: String)
        ensures
            r@ == self.spec_message(),
    {
        match self {
            WorkspaceCatalogError::StorageUnavailable { message } => {
                String::from_str("workspace catalog storage unavailable: ").concat(message.as_str())
            },
            WorkspaceCatalogError::SchemaInvalid { message } => {
                String::from_str("workspace catalog schema is invalid: ").concat(message.as_str())
            },
            WorkspaceCatalogError::DataInvalid { message } => {
                String::from_str("workspace catalog data is invalid: ").concat(message.as_str())
            },
            WorkspaceCatalogError::WorkspaceAlreadyExists => String::from_str("workspace already exists"),
            WorkspaceCatalogError::WorkspaceNotFound => String::from_str("workspace was not found"),
        }
    }
}

/// The catalog holds data that breaks its rules, as the message says.
pub fn data_invalid_message(message: String) -> (r: WorkspaceCatalogError)
    ensures
        r == (WorkspaceCatalogError::DataInvalid { message }),
{
    WorkspaceCatalogError::DataInvalid { message }
}

/// The catalog's storage failed, with the text of the storage error.
pub fn storage_unavailable_error(error: String) -> (r: WorkspaceCatalogError)
    ensures
        r == (WorkspaceCatalogError::StorageUnavailable { message: error }),
{
    WorkspaceCatalogError::StorageUnavailable { message: error }
}

/// The catalog's schema does not hold what is read from it, with the text of the storage error.
pub fn schema_invalid_error(error: String) -> (r: WorkspaceCatalogError)
    ensures
        r == (WorkspaceCatalogError::SchemaInvalid { message: error }),
{
    WorkspaceCatalogError::SchemaInvalid { message: error }
}

/// The catalog's data could not be read or written, with the text of the codec error.
pub fn data_invalid_error(error: String) -> (r: WorkspaceCatalogError)
    ensures
        r == (WorkspaceCatalogError::DataInvalid { message: error }),
{
    WorkspaceCatalogError::DataInvalid { message: error }
}

} // verus!
