//! The catalog service: the application's entry to the workspace catalog.
use vstd::prelude::*;
use crate::text::spec_is_blank;
use super::errors::WorkspaceCatalogError;
use super::model::{Workspace, WorkspaceCatalog};
use super::record::writable;
use super::repository::{
    catalog_delete, catalog_insert, catalog_update, change_error_kind, insert_error_kind, read_error, spec_find,
    WorkspaceCatalogRepository,
};

verus! {

/// Reads and writes workspaces through a catalog repository, handing on its answers.
pub struct WorkspaceCatalogService<R> {
    repository: R,
}

impl<R: WorkspaceCatalogRepository> WorkspaceCatalogService<R> {
    /// The workspaces that the repository stores, in the order of their creation times.
    pub closed spec fn stored_workspaces(&self) -> Seq<Workspace> {
        self.repository.stored_workspaces()
    }

    /// A service over the repository.
    pub fn new(repository: R) -> (r: Self)
        ensures
            r.stored_workspaces() == repository.stored_workspaces(),
    {
        WorkspaceCatalogService { repository }
    }

    /// All stored workspaces, in the order of their creation times, oldest first.
    pub fn list_workspaces(&self) -> (r: Result<WorkspaceCatalog, WorkspaceCatalogError>)
        ensures
            r matches Ok(catalog) ==> catalog.workspaces@ == self.stored_workspaces(),
            r matches Err(e) ==> read_error(e),
    {
        self.repository.list_workspaces()
    }

    /// The workspace with the id, if one is stored; a blank id is invalid data.
    pub fn find_workspace_by_id(&self, id: &str) -> (r: Result<Option<Workspace>, WorkspaceCatalogError>)
        ensures
            spec_is_blank(id@) ==> r matches Err(WorkspaceCatalogError::DataInvalid { .. }),
            r matches Ok(found) ==> found == spec_find(self.stored_workspaces(), id@),
            r matches Err(e) ==> read_error(e),
    {
        self.repository.find_workspace_by_id(id)
    }

    /// Stores a new workspace; one whose id is already stored is refused.
    pub fn insert_workspace(&mut self, workspace: &Workspace) -> (r: Result<Workspace, WorkspaceCatalogError>)
        ensures
            !writable(*workspace) ==> r matches Err(WorkspaceCatalogError::DataInvalid { .. }),
            r matches Ok(w) ==> w == *workspace && spec_find(old(self).stored_workspaces(), workspace.id@) is None
                && catalog_insert(old(self).stored_workspaces(), final(self).stored_workspaces(), *workspace),
            r matches Err(WorkspaceCatalogError::WorkspaceAlreadyExists) ==> writable(*workspace) && spec_find(
                old(self).stored_workspaces(),
                workspace.id@,
            ) is Some,
            r matches Err(e) ==> insert_error_kind(e),
            r is Err ==> final(self).stored_workspaces() == old(self).stored_workspaces(),
    {
        self.repository.insert_workspace(workspace)
    }

    /// Replaces the stored workspace with the same id.
    pub fn update_workspace(&mut self, workspace: &Workspace) -> (r: Result<Workspace, WorkspaceCatalogError>)
        ensures
            !writable(*workspace) ==> r matches Err(WorkspaceCatalogError::DataInvalid { .. }),
            r matches Ok(w) ==> w == *workspace && spec_find(old(self).stored_workspaces(), workspace.id@) is Some
                && final(self).stored_workspaces() == catalog_update(old(self).stored_workspaces(), *workspace),
            r matches Err(WorkspaceCatalogError::WorkspaceNotFound) ==> writable(*workspace) && spec_find(
                old(self).stored_workspaces(),
                workspace.id@,
            ) is None,
            r matches Err(e) ==> change_error_kind(e),
            r is Err ==> final(self).stored_workspaces() == old(self).stored_workspaces(),
    {
        self.repository.update_workspace(workspace)
    }

    /// Removes the stored workspace with the id.
    pub fn delete_workspace(&mut self, id: &str) -> (r: Result<(), WorkspaceCatalogError>)
        ensures
            r matches Err(WorkspaceCatalogError::DataInvalid { .. }) <==> spec_is_blank(id@),
            r is Ok ==> spec_find(old(self).stored_workspaces(), id@) is Some
                && final(self).stored_workspaces() == catalog_delete(old(self).stored_workspaces(), id@),
            r matches Err(WorkspaceCatalogError::WorkspaceNotFound) ==> spec_find(
                old(self).stored_workspaces(),
                id@,
            ) is None,
            r matches Err(e) ==> change_error_kind(e),
            r is Err ==> final(self).stored_workspaces() == old(self).stored_workspaces(),
    {
        self.repository.delete_workspace(id)
    }
}

} // verus!
