//! The indexing pass over the tracked branches.
//!
//! For each branch in configuration order the pass decides between a
//! first-time full build and a delta refresh, applies it to the store, and
//! finally reports `Ready`. A branch whose commit walk could not be
//! obtained — the graph source failed to resolve its tip — is skipped and
//! its slot left exactly as it was; the pass still completes and still
//! reports `Ready`.

use vstd::prelude::*;

use crate::state::IndexState;
use crate::store::{indexed_slot, BranchStore};

verus! {

/// How a branch is brought up to date.
#[derive(Clone, Copy, Debug, PartialEq, Eq, Structural)]
pub enum UpdateKind {
    /// First-time indexing: the live set is rebuilt in place.
    FullBuild,
    /// Subsequent refresh: the walk is staged and swapped in atomically.
    DeltaRefresh,
}

/// The per-branch decision: a branch with no latest-commit pointer gets a
/// full build while the readiness state reports `IndexingCommit`; an
/// already-indexed branch gets a delta refresh while the state reports
/// `Ready` — its previous index stays queryable throughout the refresh.
pub fn plan_branch_update(indexed: bool) -> (r: (UpdateKind, IndexState))
    ensures
        indexed ==> r == (UpdateKind::DeltaRefresh, IndexState::Ready),
        !indexed ==> r == (UpdateKind::FullBuild, IndexState::IndexingCommit),
{
    if indexed {
        (UpdateKind::DeltaRefresh, IndexState::Ready)
    } else {
        (UpdateKind::FullBuild, IndexState::IndexingCommit)
    }
}

/// A slot whose staging area is at rest: nothing staged, no staged
/// latest-commit pointer. Every completed store operation leaves a slot in
/// this state.
pub open spec fn staging_at_rest(store: BranchStore, j: int) -> bool {
    &&& store.slots@[j].staging@.len() == 0
    &&& store.slots@[j].staging_latest_view() is None
}

/// One indexing pass over the tracked branches, on the store: `walks[j]`
/// holds the commit identifiers reachable from branch `j`'s tip, newest
/// first, or nothing where the tip could not be fetched. A failed branch
/// is skipped with its slot untouched; every walked branch ends indexed
/// with exactly its walk as membership; and the pass always completes and
/// reports `Ready`.
pub fn run_index_pass(store: &mut BranchStore, walks: &Vec<Option<Vec<String>>>) -> (r:
    IndexState)
    requires
        walks@.len() == old(store).slots@.len(),
        forall|j: int| 0 <= j < old(store).slots@.len() ==> staging_at_rest(*old(store), j),
    ensures
        r == IndexState::Ready,
        final(store).slots@.len() == old(store).slots@.len(),
        forall|j: int|
            0 <= j < walks@.len() && walks@[j] is None ==> final(store).slots@[j] == old(
                store,
            ).slots@[j],
        forall|j: int|
            0 <= j < walks@.len() ==> ((#[trigger] walks@[j]) matches Some(w) ==> {
                &&& indexed_slot(final(store).slots@[j], w@)
                &&& final(store).slots@[j].name@ == old(store).slots@[j].name@
            }),
        forall|j: int| 0 <= j < walks@.len() ==> staging_at_rest(*final(store), j),
{
    let ghost orig = *store;
    let n = store.branch_count();
    let mut i: usize = 0;
    while i < n
        invariant
            n == walks@.len(),
            walks@.len() == orig.slots@.len(),
            store.slots@.len() == orig.slots@.len(),
            i <= n,
            forall|j: int| i <= j < orig.slots@.len() ==> store.slots@[j] == orig.slots@[j],
            forall|j: int|
                0 <= j < i && walks@[j] is None ==> store.slots@[j] == orig.slots@[j],
            forall|j: int|
                0 <= j < i ==> ((#[trigger] walks@[j]) matches Some(w) ==> {
                    &&& indexed_slot(store.slots@[j], w@)
                    &&& store.slots@[j].name@ == orig.slots@[j].name@
                }),
            forall|j: int| 0 <= j < orig.slots@.len() ==> staging_at_rest(orig, j),
            forall|j: int|
                0 <= j < i ==> (#[trigger] store.slots@[j]).staging@.len() == 0
                    && store.slots@[j].staging_latest_view() is None,
        decreases n - i,
    {
        proof {
            assert(store.slots@[i as int] == orig.slots@[i as int]);
            assert(staging_at_rest(orig, i as int));
            assert(staging_at_rest(*store, i as int));
        }
        match &walks[i] {
            None => {},
            Some(walk) => {
                let indexed = store.is_indexed(i);
                let (kind, _reported) = plan_branch_update(indexed);
                match kind {
                    UpdateKind::FullBuild => store.rebuild(i, walk),
                    UpdateKind::DeltaRefresh => store.delta_update(i, walk),
                }
            },
        }
        i = i + 1;
    }
    IndexState::Ready
}

} // verus!
