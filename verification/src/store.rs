//! The branch set store.
//!
//! One slot per tracked branch holds the live set of commit identifiers a
//! reader queries, the latest-commit pointer, and a staging area. A first
//! build ([`BranchStore::rebuild`]) replaces the live set directly; a
//! refresh ([`BranchStore::delta_update`]) writes the whole walk into the
//! staging area first — leaving every reader-visible value untouched — and
//! then swaps it over the live set in one step ([`BranchStore::commit_swap`]),
//! so a reader observes either the complete old set or the complete new
//! one, never a mix.

use vstd::prelude::*;
use vstd::pervasive::VecAdditionalExecFns;

verus! {

/// The set of commit identifiers a sequence of strings holds.
pub open spec fn commit_set(v: Seq<String>) -> Set<Seq<char>> {
    v.map_values(|s: String| s@).to_set()
}

/// Membership in [`commit_set`], spelled out over the sequence.
pub proof fn lemma_commit_set_contains(v: Seq<String>, x: Seq<char>)
    ensures
        commit_set(v).contains(x) <==> (exists|k: int| 0 <= k < v.len() && v[k]@ == x),
{
    if commit_set(v).contains(x) {
        let m = v.map_values(|s: String| s@);
        let k = choose|k: int| 0 <= k < m.len() && m[k] == x;
        assert(v[k]@ == x);
    }
    if exists|k: int| 0 <= k < v.len() && v[k]@ == x {
        let k = choose|k: int| 0 <= k < v.len() && v[k]@ == x;
        let m = v.map_values(|s: String| s@);
        assert(m[k] == x);
        assert(m.contains(x));
    }
}

/// One tracked branch's slot in the store.
pub struct BranchSlot {
    /// The branch's name as configured.
    pub name: String,
    /// The live set of commit identifiers reachable from the branch tip at
    /// the last completed index.
    pub live: Vec<String>,
    /// The most recently walked commit identifier (the branch tip) at the
    /// last completed index; absent until the branch is first indexed.
    pub latest: Option<String>,
    /// Commit identifiers staged by an in-progress delta update.
    pub staging: Vec<String>,
    /// The latest-commit pointer staged by an in-progress delta update.
    pub staging_latest: Option<String>,
}

impl BranchSlot {
    /// The live membership a reader observes.
    pub open spec fn members(self) -> Set<Seq<char>> {
        commit_set(self.live@)
    }

    /// The latest-commit pointer a reader observes.
    pub open spec fn latest_view(self) -> Option<Seq<char>> {
        match self.latest {
            Some(c) => Some(c@),
            None => None,
        }
    }

    /// The staged latest-commit pointer.
    pub open spec fn staging_latest_view(self) -> Option<Seq<char>> {
        match self.staging_latest {
            Some(c) => Some(c@),
            None => None,
        }
    }

    /// Everything a reader can observe of the slot: its name, its live
    /// membership and its latest-commit pointer — the staging area is
    /// invisible to readers.
    pub open spec fn reader_view(self) -> (Seq<char>, Set<Seq<char>>, Option<Seq<char>>) {
        (self.name@, self.members(), self.latest_view())
    }
}

/// What a completed build or refresh leaves in a slot: the walked set as
/// membership, and the first walked identifier (the branch tip) as the
/// latest-commit pointer.
pub open spec fn indexed_slot(slot: BranchSlot, walk: Seq<String>) -> bool {
    &&& slot.members() == commit_set(walk)
    &&& slot.latest_view() == (if walk.len() > 0 {
        Some(walk[0]@)
    } else {
        None::<Seq<char>>
    })
}

/// The per-branch store: one slot per tracked branch, in configuration
/// order.
pub struct BranchStore {
    pub slots: Vec<BranchSlot>,
}

impl BranchStore {
    /// Creates an empty store for the given tracked branch names.
    pub fn new(branches: &Vec<String>) -> (r: BranchStore)
        ensures
            r.slots@.len() == branches@.len(),
            forall|j: int| 0 <= j < branches@.len() ==> {
                &&& (#[trigger] r.slots@[j]).name@ == branches@[j]@
                &&& r.slots@[j].members() == Set::<Seq<char>>::empty()
                &&& r.slots@[j].latest_view() is None
                &&& r.slots@[j].staging@.len() == 0
                &&& r.slots@[j].staging_latest_view() is None
            },
    {
        let mut slots: Vec<BranchSlot> = Vec::new();
        let mut k: usize = 0;
        while k < branches.len()
            invariant
                k <= branches@.len(),
                slots@.len() == k,
                forall|j: int| 0 <= j < k ==> {
                    &&& (#[trigger] slots@[j]).name@ == branches@[j]@
                    &&& slots@[j].members() == Set::<Seq<char>>::empty()
                    &&& slots@[j].latest_view() is None
                    &&& slots@[j].staging@.len() == 0
                    &&& slots@[j].staging_latest_view() is None
                },
            decreases branches@.len() - k,
        {
            let slot = BranchSlot {
                name: branches[k].clone(),
                live: Vec::new(),
                latest: None,
                staging: Vec::new(),
                staging_latest: None,
            };
            proof {
                assert(slot.members() =~= Set::<Seq<char>>::empty()) by {
                    assert forall|x: Seq<char>| !slot.members().contains(x) by {
                        lemma_commit_set_contains(slot.live@, x);
                    }
                }
            }
            slots.push(slot);
            k = k + 1;
        }
        BranchStore { slots }
    }

    /// How many branches the store tracks.
    pub fn branch_count(&self) -> (r: usize)
        ensures
            r == self.slots@.len(),
    {
        self.slots.len()
    }

    /// Whether a latest-commit pointer already exists for the branch:
    /// distinguishes a first full build from a subsequent refresh.
    pub fn is_indexed(&self, i: usize) -> (r: bool)
        requires
            i < self.slots@.len(),
        ensures
            r == (self.slots@[i as int].latest_view() is Some),
    {
        self.slots[i].latest.is_some()
    }

    /// Set-membership test against the branch's live set: the only view of
    /// membership a reader ever has.
    pub fn contains(&self, i: usize, commit: &String) -> (r: bool)
        requires
            i < self.slots@.len(),
        ensures
            r == self.slots@[i as int].members().contains(commit@),
    {
        let live = &self.slots[i].live;
        let n = live.len();
        let mut k: usize = 0;
        while k < n
            invariant
                i < self.slots@.len(),
                live == &self.slots@[i as int].live,
                n == live@.len(),
                k <= n,
                forall|j: int| 0 <= j < k ==> live@[j]@ != commit@,
            decreases n - k,
        {
            if live[k].eq(commit) {
                proof {
                    lemma_commit_set_contains(live@, commit@);
                }
                return true;
            }
            k = k + 1;
        }
        proof {
            lemma_commit_set_contains(live@, commit@);
        }
        false
    }

    /// The stored latest-commit pointer of the branch.
    pub fn latest(&self, i: usize) -> (r: Option<String>)
        requires
            i < self.slots@.len(),
        ensures
            match r {
                Some(c) => self.slots@[i as int].latest_view() == Some(c@),
                None => self.slots@[i as int].latest_view() is None,
            },
    {
        match &self.slots[i].latest {
            Some(c) => Some(c.clone()),
            None => None,
        }
    }

    /// First-time build of a branch's set: drops whatever the live set
    /// held, inserts every identifier from the walk, and points the
    /// latest-commit pointer at the first identifier walked (the branch
    /// tip). Every other slot is untouched.
    pub fn rebuild(&mut self, i: usize, walk: &Vec<String>)
        requires
            i < old(self).slots@.len(),
        ensures
            final(self).slots@.len() == old(self).slots@.len(),
            forall|j: int|
                0 <= j < old(self).slots@.len() && j != i ==> final(self).slots@[j] == old(
                    self,
                ).slots@[j],
            final(self).slots@[i as int].name@ == old(self).slots@[i as int].name@,
            indexed_slot(final(self).slots@[i as int], walk@),
            final(self).slots@[i as int].staging@.len() == 0,
            final(self).slots@[i as int].staging_latest_view() is None,
    {
        let mut new_live: Vec<String> = Vec::new();
        let mut k: usize = 0;
        while k < walk.len()
            invariant
                k <= walk@.len(),
                new_live@ == walk@.subrange(0, k as int),
            decreases walk@.len() - k,
        {
            new_live.push(walk[k].clone());
            proof {
                assert(new_live@ =~= walk@.subrange(0, k + 1));
            }
            k = k + 1;
        }
        proof {
            assert(walk@.subrange(0, walk@.len() as int) =~= walk@);
        }
        let latest = if walk.len() > 0 {
            Some(walk[0].clone())
        } else {
            None
        };
        let slot = BranchSlot {
            name: self.slots[i].name.clone(),
            live: new_live,
            latest,
            staging: Vec::new(),
            staging_latest: None,
        };
        self.slots.set(i, slot);
    }

    /// One staged write of a delta update: appends a walked identifier to
    /// the branch's staging area. The reader-visible view of every slot —
    /// live membership and latest-commit pointer included — is unchanged,
    /// so a concurrent reader still observes the complete pre-update set.
    pub fn stage_commit(&mut self, i: usize, commit: &String)
        requires
            i < old(self).slots@.len(),
        ensures
            final(self).slots@.len() == old(self).slots@.len(),
            forall|j: int|
                0 <= j < old(self).slots@.len() && j != i ==> final(self).slots@[j] == old(
                    self,
                ).slots@[j],
            forall|j: int|
                0 <= j < old(self).slots@.len() ==> (#[trigger] final(self).slots@[j]).reader_view()
                    == old(self).slots@[j].reader_view(),
            final(self).slots@[i as int].staging@ == old(self).slots@[i as int].staging@.push(
                *commit,
            ),
            final(self).slots@[i as int].staging_latest == old(
                self,
            ).slots@[i as int].staging_latest,
    {
        let slot = &mut self.slots[i];
        slot.staging.push(commit.clone());
    }

    /// Stages the latest-commit pointer of a delta update. As with
    /// [`BranchStore::stage_commit`], no reader-visible value changes.
    pub fn stage_latest(&mut self, i: usize, commit: &String)
        requires
            i < old(self).slots@.len(),
        ensures
            final(self).slots@.len() == old(self).slots@.len(),
            forall|j: int|
                0 <= j < old(self).slots@.len() && j != i ==> final(self).slots@[j] == old(
                    self,
                ).slots@[j],
            forall|j: int|
                0 <= j < old(self).slots@.len() ==> (#[trigger] final(self).slots@[j]).reader_view()
                    == old(self).slots@[j].reader_view(),
            final(self).slots@[i as int].staging == old(self).slots@[i as int].staging,
            final(self).slots@[i as int].staging_latest_view() == Some(commit@),
    {
        let slot = &mut self.slots[i];
        slot.staging_latest = Some(commit.clone());
    }

    /// The single swap that commits a delta update: the staging set and the
    /// staged latest-commit pointer replace the live ones in one step, and
    /// the staging area empties. A reader that queried before this call
    /// saw the complete old set; one that queries after it sees the
    /// complete new set.
    pub fn commit_swap(&mut self, i: usize)
        requires
            i < old(self).slots@.len(),
        ensures
            final(self).slots@.len() == old(self).slots@.len(),
            forall|j: int|
                0 <= j < old(self).slots@.len() && j != i ==> final(self).slots@[j] == old(
                    self,
                ).slots@[j],
            final(self).slots@[i as int].name@ == old(self).slots@[i as int].name@,
            final(self).slots@[i as int].members() == commit_set(
                old(self).slots@[i as int].staging@,
            ),
            final(self).slots@[i as int].latest_view() == old(
                self,
            ).slots@[i as int].staging_latest_view(),
            final(self).slots@[i as int].staging@.len() == 0,
            final(self).slots@[i as int].staging_latest_view() is None,
    {
        let slot = &mut self.slots[i];
        core::mem::swap(&mut slot.live, &mut slot.staging);
        slot.staging.clear();
        slot.latest = slot.staging_latest.take();
    }

    /// A whole refresh of one branch: stages every identifier from the walk
    /// and the staged tip, then commits them with the single swap. The
    /// slot ends exactly as a [`BranchStore::rebuild`] with the same walk
    /// would leave it; every other slot is untouched.
    pub fn delta_update(&mut self, i: usize, walk: &Vec<String>)
        requires
            i < old(self).slots@.len(),
            old(self).slots@[i as int].staging@.len() == 0,
            old(self).slots@[i as int].staging_latest_view() is None,
        ensures
            final(self).slots@.len() == old(self).slots@.len(),
            forall|j: int|
                0 <= j < old(self).slots@.len() && j != i ==> final(self).slots@[j] == old(
                    self,
                ).slots@[j],
            final(self).slots@[i as int].name@ == old(self).slots@[i as int].name@,
            indexed_slot(final(self).slots@[i as int], walk@),
            final(self).slots@[i as int].staging@.len() == 0,
            final(self).slots@[i as int].staging_latest_view() is None,
    {
        let ghost orig = *self;
        let mut k: usize = 0;
        while k < walk.len()
            invariant
                i < self.slots@.len(),
                self.slots@.len() == orig.slots@.len(),
                k <= walk@.len(),
                forall|j: int|
                    0 <= j < orig.slots@.len() && j != i ==> self.slots@[j] == orig.slots@[j],
                forall|j: int|
                    0 <= j < orig.slots@.len() ==> (#[trigger] self.slots@[j]).reader_view()
                        == orig.slots@[j].reader_view(),
                self.slots@[i as int].staging@ == walk@.subrange(0, k as int),
                self.slots@[i as int].staging_latest == orig.slots@[i as int].staging_latest,
            decreases walk@.len() - k,
        {
            self.stage_commit(i, &walk[k]);
            proof {
                assert(self.slots@[i as int].staging@ =~= walk@.subrange(0, k + 1));
            }
            k = k + 1;
        }
        proof {
            assert(walk@.subrange(0, walk@.len() as int) =~= walk@);
        }
        if walk.len() > 0 {
            self.stage_latest(i, &walk[0]);
        }
        self.commit_swap(i);
    }
}

/// The slot invariant: once a branch is indexed from a non-empty walk, its
/// latest-commit pointer names a member of its set.
pub proof fn lemma_latest_is_a_member(slot: BranchSlot, walk: Seq<String>)
    requires
        indexed_slot(slot, walk),
        walk.len() > 0,
    ensures
        slot.latest_view() is Some,
        slot.members().contains(slot.latest_view()->0),
{
    assert(walk.map_values(|s: String| s@)[0] == walk[0]@);
    assert(walk.map_values(|s: String| s@).contains(walk[0]@));
}

/// Swap atomicity, from a reader's side: while a delta update only stages
/// (every slot's reader-visible view unchanged, as
/// [`BranchStore::stage_commit`] and [`BranchStore::stage_latest`] ensure),
/// every membership answer and every latest-commit answer equals the
/// pre-update one — the reader observes the complete old set. Only the
/// single swap changes them, to exactly the staged set.
pub proof fn lemma_reader_during_staging(
    pre: BranchStore,
    during: BranchStore,
    j: int,
    q: Seq<char>,
)
    requires
        0 <= j < pre.slots@.len(),
        j < during.slots@.len(),
        during.slots@[j].reader_view() == pre.slots@[j].reader_view(),
    ensures
        during.slots@[j].members().contains(q) == pre.slots@[j].members().contains(q),
        during.slots@[j].latest_view() == pre.slots@[j].latest_view(),
{
    assert(during.slots@[j].members() == pre.slots@[j].members());
}

/// Rebuilding a branch twice from an unchanged walk is idempotent: the
/// second build leaves the same membership and the same latest-commit
/// pointer as the first, because both are functions of the walk alone.
pub proof fn lemma_rebuild_idempotent(first: BranchSlot, second: BranchSlot, walk: Seq<String>)
    requires
        indexed_slot(first, walk),
        indexed_slot(second, walk),
    ensures
        second.members() == first.members(),
        second.latest_view() == first.latest_view(),
{
}

} // verus!
