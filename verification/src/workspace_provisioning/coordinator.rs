//! Keeps two provisioning operations from working on one workspace at the same time.
use vstd::prelude::*;
use crate::text::str_equals;

verus! {

/// The workspaces on which a provisioning operation is under way. There is one such set for
/// all the operations it is to keep apart, so the type is not `Clone`: a copy would not see
/// the entries made through the other; callers share one coordinator, behind a lock.
#[derive(Debug, Default)]
pub struct WorkspaceProvisioningCoordinator {
    active_workspace_ids: Vec<String>,
}

/// Entering a workspace: whether the operation entered, and the workspaces under way after.
pub open spec fn spec_try_enter(active: Set<Seq<char>>, workspace_id: Seq<char>) -> (bool, Set<Seq<char>>) {
    (!active.contains(workspace_id), active.insert(workspace_id))
}

/// Leaving a workspace: the workspaces under way after.
pub open spec fn spec_leave(active: Set<Seq<char>>, workspace_id: Seq<char>) -> Set<Seq<char>> {
    active.remove(workspace_id)
}

impl View for WorkspaceProvisioningCoordinator {
    type V = Set<Seq<char>>;

    closed spec fn view(&self) -> Set<Seq<char>> {
        Set::new(|id: Seq<char>| exists|i: int| 0 <= i < self.active_workspace_ids@.len() && self.active_workspace_ids@[i]@ == id)
    }
}

impl WorkspaceProvisioningCoordinator {
    /// No workspace is entered twice.
    pub closed spec fn well_formed(&self) -> bool {
        forall|i: int, j: int| 0 <= i < j < self.active_workspace_ids@.len()
            ==> self.active_workspace_ids@[i]@ != self.active_workspace_ids@[j]@
    }

    /// A coordinator on which nothing is under way.
    pub fn new() -> (r: Self)
        ensures
            r.well_formed(),
            r@ == Set::<Seq<char>>::empty(),
    {
        let r = WorkspaceProvisioningCoordinator { active_workspace_ids: Vec::new() };
        assert(r@ =~= Set::<Seq<char>>::empty());
        r
    }

    fn position(&self, workspace_id: &str) -> (r: Option<usize>)
        ensures
            match r {
                Some(i) => i < self.active_workspace_ids@.len() && self.active_workspace_ids@[i as int]@ == workspace_id@,
                None => forall|i: int| 0 <= i < self.active_workspace_ids@.len() ==> self.active_workspace_ids@[i]@ != workspace_id@,
            },
    {
        let mut i: usize = 0;
        while i < self.active_workspace_ids.len()
            invariant
                i <= self.active_workspace_ids@.len(),
                forall|j: int| 0 <= j < i ==> self.active_workspace_ids@[j]@ != workspace_id@,
            decreases self.active_workspace_ids@.len() - i,
        {
            if str_equals(self.active_workspace_ids[i].as_str(), workspace_id) {
                return Some(i);
            }
            i = i + 1;
        }
        None
    }

    /// Whether an operation is under way on the workspace.
    pub fn is_active(&self, workspace_id: &str) -> (r: bool)
        ensures
            r == self@.contains(workspace_id@),
    {
        match self.position(workspace_id) {
            Some(i) => {
                assert(self@.contains(workspace_id@));
                true
            },
            None => false,
        }
    }

    /// Enters an operation on the workspace, where none is under way on it; says whether it
    /// entered.
    pub fn try_enter(&mut self, workspace_id: &str) -> (entered: bool)
        requires
            old(self).well_formed(),
        ensures
            final(self).well_formed(),
            (entered, final(self)@) == spec_try_enter(old(self)@, workspace_id@),
    {
        match self.position(workspace_id) {
            Some(i) => {
                assert(self@.contains(workspace_id@));
                assert(self@.insert(workspace_id@) =~= self@);
                false
            },
            None => {
                let ghost before = self.active_workspace_ids@;
                self.active_workspace_ids.push(workspace_id.to_string());
                proof {
                    assert forall|id: Seq<char>| self@.contains(id) == old(self)@.insert(workspace_id@).contains(id) by {
                        if exists|i: int| 0 <= i < self.active_workspace_ids@.len() && self.active_workspace_ids@[i]@ == id {
                            let i = choose|i: int| 0 <= i < self.active_workspace_ids@.len() && self.active_workspace_ids@[i]@ == id;
                            if i < before.len() {
                                assert(before[i]@ == id);
                            }
                        }
                        if old(self)@.contains(id) {
                            let i = choose|i: int| 0 <= i < before.len() && before[i]@ == id;
                            assert(self.active_workspace_ids@[i]@ == id);
                        }
                        if id == workspace_id@ {
                            assert(self.active_workspace_ids@[before.len() as int]@ == id);
                        }
                    }
                    assert(self@ =~= old(self)@.insert(workspace_id@));
                    assert(!old(self)@.contains(workspace_id@));
                }
                true
            },
        }
    }

    /// Leaves the operation on the workspace.
    pub fn leave(&mut self, workspace_id: &str)
        requires
            old(self).well_formed(),
        ensures
            final(self).well_formed(),
            final(self)@ == spec_leave(old(self)@, workspace_id@),
    {
        match self.position(workspace_id) {
            Some(i) => {
                let ghost before = self.active_workspace_ids@;
                self.active_workspace_ids.remove(i);
                proof {
                    let after = self.active_workspace_ids@;
                    assert forall|a: int, b: int| 0 <= a < b < after.len() implies after[a]@ != after[b]@ by {
                        let a0 = if a < i { a } else { a + 1 };
                        let b0 = if b < i { b } else { b + 1 };
                        assert(after[a] == before[a0]);
                        assert(after[b] == before[b0]);
                    }
                    assert forall|id: Seq<char>| self@.contains(id) == old(self)@.remove(workspace_id@).contains(id) by {
                        if exists|k: int| 0 <= k < after.len() && after[k]@ == id {
                            let k = choose|k: int| 0 <= k < after.len() && after[k]@ == id;
                            let k0 = if k < i { k } else { k + 1 };
                            assert(after[k] == before[k0]);
                            assert(k0 != i);
                        }
                        if old(self)@.contains(id) && id != workspace_id@ {
                            let k0 = choose|k: int| 0 <= k < before.len() && before[k]@ == id;
                            assert(k0 != i);
                            let k = if k0 < i { k0 } else { k0 - 1 };
                            assert(after[k] == before[k0]);
                        }
                    }
                    assert(self@ =~= old(self)@.remove(workspace_id@));
                }
            },
            None => {
                assert(self@ =~= self@.remove(workspace_id@));
            },
        }
    }
}

/// An operation that entered a workspace keeps every other operation out of it until it
/// leaves, and once it leaves the next operation can enter; other workspaces are not affected.
pub proof fn entered_workspace_is_exclusive(active: Set<Seq<char>>, workspace_id: Seq<char>, other_id: Seq<char>)
    requires
        spec_try_enter(active, workspace_id).0,
    ensures
        !spec_try_enter(spec_try_enter(active, workspace_id).1, workspace_id).0,
        spec_try_enter(spec_leave(spec_try_enter(active, workspace_id).1, workspace_id), workspace_id).0,
        other_id != workspace_id ==> (spec_try_enter(spec_try_enter(active, workspace_id).1, other_id).0
            == spec_try_enter(active, other_id).0),
{
}

} // verus!
