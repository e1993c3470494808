//! The workspace catalog: where workspaces are written and read back.
use vstd::prelude::*;
use crate::text::spec_is_blank;
use super::errors::WorkspaceCatalogError;
use super::model::{Workspace, WorkspaceCatalog};
use super::record::writable;

verus! {

/// The position of the workspace with the id, if the catalog holds one.
pub open spec fn position_of(workspaces: Seq<Workspace>, id: Seq<char>) -> Option<int> {
    if exists|i: int| 0 <= i < workspaces.len() && workspaces[i].id@ == id {
        Some(choose|i: int| 0 <= i < workspaces.len() && workspaces[i].id@ == id)
    } else {
        None
    }
}

/// The workspace with the id, if the catalog holds one.
pub open spec fn spec_find(workspaces: Seq<Workspace>, id: Seq<char>) -> Option<Workspace> {
    match position_of(workspaces, id) {
        Some(i) => Some(workspaces[i]),
        None => None,
    }
}

/// No two workspaces of the catalog share an id.
pub open spec fn unique_ids(workspaces: Seq<Workspace>) -> bool {
    forall|i: int, j: int| 0 <= i < j < workspaces.len() ==> workspaces[i].id@ != workspaces[j].id@
}

/// Whether a catalog can follow an insertion: the workspace lands at the place that its
/// creation time gives it among the others, and they keep their order. That time is stamped
/// by the store when it writes the workspace, so the place is the store's to give: the newest
/// is normally last, but a clock set back or two workspaces created in the same instant put it
/// elsewhere.
pub open spec fn catalog_insert(workspaces: Seq<Workspace>, inserted: Seq<Workspace>, workspace: Workspace) -> bool {
    exists|i: int| 0 <= i <= workspaces.len() && inserted == workspaces.insert(i, workspace)
}

/// The catalog after a workspace was updated: it takes the place of the workspace with its id.
pub open spec fn catalog_update(workspaces: Seq<Workspace>, workspace: Workspace) -> Seq<Workspace> {
    match position_of(workspaces, workspace.id@) {
        Some(i) => workspaces.update(i, workspace),
        None => workspaces,
    }
}

/// The catalog after the workspace with the id was deleted.
pub open spec fn catalog_delete(workspaces: Seq<Workspace>, id: Seq<char>) -> Seq<Workspace> {
    match position_of(workspaces, id) {
        Some(i) => workspaces.remove(i),
        None => workspaces,
    }
}

/// The errors that reading the catalog can give: its storage failed, its schema does not
/// hold what is read, or it holds data that breaks its rules.
pub open spec fn read_error(e: WorkspaceCatalogError) -> bool {
    e is StorageUnavailable || e is SchemaInvalid || e is DataInvalid
}

/// The errors that storing a new workspace can give: the workspace breaks the catalog's
/// rules, one with its id is stored, or the storage failed.
pub open spec fn insert_error_kind(e: WorkspaceCatalogError) -> bool {
    e is DataInvalid || e is WorkspaceAlreadyExists || e is StorageUnavailable
}

/// The errors that changing or removing a stored workspace can give: the input breaks the
/// catalog's rules, no workspace with its id is stored, or the storage failed.
pub open spec fn change_error_kind(e: WorkspaceCatalogError) -> bool {
    e is DataInvalid || e is WorkspaceNotFound || e is StorageUnavailable
}

/// A store of workspaces, seen as the sequence of the workspaces it holds in the order of the
/// creation times it stamped on them, oldest first.
/// Its storage may fail at any call; what a call that succeeds did, and which errors each call
/// can give and on which inputs, is stated here.
pub trait WorkspaceCatalogRepository {
    /// The workspaces stored, in the order of their creation times, oldest first.
    spec fn stored_workspaces(&self) -> Seq<Workspace>;

    /// All stored workspaces, in the order of their creation times, oldest first.
    fn list_workspaces(&self) -> (r: Result<WorkspaceCatalog, WorkspaceCatalogError>)
        ensures
            r matches Ok(catalog) ==> catalog.workspaces@ == self.stored_workspaces(),
            r matches Err(e) ==> read_error(e);

    /// The workspace with the id, if one is stored; a blank id is invalid data.
    fn find_workspace_by_id(&self, id: &str) -> (r: Result<Option<Workspace>, WorkspaceCatalogError>)
        ensures
            spec_is_blank(id@) ==> r matches Err(WorkspaceCatalogError::DataInvalid { .. }),
            r matches Ok(found) ==> found == spec_find(self.stored_workspaces(), id@),
            r matches Err(e) ==> read_error(e);

    /// Stores a new workspace; one whose id is already stored is refused.
    fn insert_workspace(&mut self, workspace: &Workspace) -> (r: Result<Workspace, WorkspaceCatalogError>)
        ensures
            !writable(*workspace) ==> r matches Err(WorkspaceCatalogError::DataInvalid { .. }),
            r matches Ok(w) ==> w == *workspace && spec_find(old(self).stored_workspaces(), workspace.id@) is None
                && catalog_insert(old(self).stored_workspaces(), final(self).stored_workspaces(), *workspace),
            r matches Err(WorkspaceCatalogError::WorkspaceAlreadyExists) ==> writable(*workspace) && spec_find(
                old(self).stored_workspaces(),
                workspace.id@,
            ) is Some,
            r matches Err(e) ==> insert_error_kind(e),
            r is Err ==> final(self).stored_workspaces() == old(self).stored_workspaces();

    /// Replaces the stored workspace with the same id.
    fn update_workspace(&mut self, workspace: &Workspace) -> (r: Result<Workspace, WorkspaceCatalogError>)
        ensures
            !writable(*workspace) ==> r matches Err(WorkspaceCatalogError::DataInvalid { .. }),
            r matches Ok(w) ==> w == *workspace && spec_find(old(self).stored_workspaces(), workspace.id@) is Some
                && final(self).stored_workspaces() == catalog_update(old(self).stored_workspaces(), *workspace),
            r matches Err(WorkspaceCatalogError::WorkspaceNotFound) ==> writable(*workspace) && spec_find(
                old(self).stored_workspaces(),
                workspace.id@,
            ) is None,
            r matches Err(e) ==> change_error_kind(e),
            r is Err ==> final(self).stored_workspaces() == old(self).stored_workspaces();

    /// Removes the stored workspace with the id.
    fn delete_workspace(&mut self, id: &str) -> (r: Result<(), WorkspaceCatalogError>)
        ensures
            r matches Err(WorkspaceCatalogError::DataInvalid { .. }) <==> spec_is_blank(id@),
            r is Ok ==> spec_find(old(self).stored_workspaces(), id@) is Some
                && final(self).stored_workspaces() == catalog_delete(old(self).stored_workspaces(), id@),
            r matches Err(WorkspaceCatalogError::WorkspaceNotFound) ==> spec_find(
                old(self).stored_workspaces(),
                id@,
            ) is None,
            r matches Err(e) ==> change_error_kind(e),
            r is Err ==> final(self).stored_workspaces() == old(self).stored_workspaces();
}

/// A workspace that was inserted is found by its id, and every workspace that was stored
/// stays.
pub proof fn inserted_workspace_is_found(workspaces: Seq<Workspace>, inserted: Seq<Workspace>, workspace: Workspace)
    requires
        spec_find(workspaces, workspace.id@) is None,
        catalog_insert(workspaces, inserted, workspace),
    ensures
        spec_find(inserted, workspace.id@) == Some(workspace),
        inserted.len() == workspaces.len() + 1,
        forall|k: int| 0 <= k < workspaces.len() ==> inserted.contains(#[trigger] workspaces[k]),
{
    let p = choose|i: int| 0 <= i <= workspaces.len() && inserted == workspaces.insert(i, workspace);
    workspaces.insert_ensures(p, workspace);
    assert(inserted[p].id@ == workspace.id@);
    let k = choose|i: int| 0 <= i < inserted.len() && inserted[i].id@ == workspace.id@;
    if k != p {
        if k < p {
            assert(inserted[k] == workspaces[k]);
        } else {
            assert(inserted[k] == workspaces[k - 1]);
        }
        assert(false);
    }
    assert forall|k: int| 0 <= k < workspaces.len() implies inserted.contains(#[trigger] workspaces[k]) by {
        if k < p {
            assert(inserted[k] == workspaces[k]);
        } else {
            assert(inserted[k + 1] == workspaces[k]);
        }
    }
}

/// Inserting a workspace keeps the ids of a catalog apart.
pub proof fn insert_keeps_ids_unique(workspaces: Seq<Workspace>, inserted: Seq<Workspace>, workspace: Workspace)
    requires
        unique_ids(workspaces),
        spec_find(workspaces, workspace.id@) is None,
        catalog_insert(workspaces, inserted, workspace),
    ensures
        unique_ids(inserted),
{
    let p = choose|i: int| 0 <= i <= workspaces.len() && inserted == workspaces.insert(i, workspace);
    workspaces.insert_ensures(p, workspace);
    assert forall|i: int, j: int| 0 <= i < j < inserted.len() implies inserted[i].id@ != inserted[j].id@ by {
        if i == p {
            assert(inserted[j] == workspaces[j - 1]);
            if inserted[j].id@ == workspace.id@ {
                assert(exists|k: int| 0 <= k < workspaces.len() && workspaces[k].id@ == workspace.id@);
            }
        } else if j == p {
            assert(inserted[i] == workspaces[i]);
            if inserted[i].id@ == workspace.id@ {
                assert(exists|k: int| 0 <= k < workspaces.len() && workspaces[k].id@ == workspace.id@);
            }
        } else {
            let a = if i < p { i } else { i - 1 };
            let b = if j < p { j } else { j - 1 };
            assert(inserted[i] == workspaces[a]);
            assert(inserted[j] == workspaces[b]);
            assert(a < b);
        }
    }
}

/// In a catalog whose ids are apart, a workspace that was updated is found by its id as it
/// was written.
pub proof fn updated_workspace_is_found(workspaces: Seq<Workspace>, workspace: Workspace)
    requires
        unique_ids(workspaces),
        spec_find(workspaces, workspace.id@) is Some,
    ensures
        spec_find(catalog_update(workspaces, workspace), workspace.id@) == Some(workspace),
        catalog_update(workspaces, workspace).len() == workspaces.len(),
{
    let p = position_of(workspaces, workspace.id@)->Some_0;
    let s = catalog_update(workspaces, workspace);
    assert(s[p] == workspace);
    let k = choose|i: int| 0 <= i < s.len() && s[i].id@ == workspace.id@;
    assert(exists|i: int| 0 <= i < s.len() && s[i].id@ == workspace.id@);
    if k != p {
        assert(s[k] == workspaces[k]);
        assert(workspaces[p].id@ == workspace.id@);
        if k < p {
            assert(workspaces[k].id@ != workspaces[p].id@);
        } else {
            assert(workspaces[p].id@ != workspaces[k].id@);
        }
    }
}

/// In a catalog whose ids are apart, a workspace that was deleted is no longer found,
/// and every other workspace stays.
pub proof fn deleted_workspace_is_gone(workspaces: Seq<Workspace>, id: Seq<char>)
    requires
        unique_ids(workspaces),
        spec_find(workspaces, id) is Some,
    ensures
        spec_find(catalog_delete(workspaces, id), id) is None,
        catalog_delete(workspaces, id).len() + 1 == workspaces.len(),
        forall|i: int| 0 <= i < workspaces.len() && workspaces[i].id@ != id ==>
            catalog_delete(workspaces, id).contains(#[trigger] workspaces[i]),
{
    let p = position_of(workspaces, id)->Some_0;
    let s = catalog_delete(workspaces, id);
    assert(s == workspaces.remove(p));
    assert forall|i: int| 0 <= i < s.len() implies s[i].id@ != id by {
        if i < p {
            assert(s[i] == workspaces[i]);
        } else {
            assert(s[i] == workspaces[i + 1]);
        }
    }
    assert forall|i: int| 0 <= i < workspaces.len() && workspaces[i].id@ != id implies s.contains(
        #[trigger] workspaces[i],
    ) by {
        if i < p {
            assert(s[i] == workspaces[i]);
        } else {
            assert(i != p);
            assert(s[i - 1] == workspaces[i]);
        }
    }
}

} // verus!
