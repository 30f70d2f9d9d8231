//! The inclusion query engine.
//!
//! Given the change's lifecycle as the provider reported it and the branch
//! set store, the engine answers "which tracked branches contain every one
//! of this change's commits?". A branch counts as including the change only
//! once all of its constituent commits are present there. Queries are
//! gated on readiness: while the index is not `Ready`, the engine answers
//! a structured failure without consulting the store or the provider.

use vstd::prelude::*;

use crate::keys::{to_upper, upper_seq};
use crate::state::IndexState;
use crate::store::BranchStore;

verus! {

/// A change's lifecycle, as resolved by the external change provider.
pub enum ChangeLookup {
    /// The change is still open: it has no meaningful containment yet.
    Open,
    /// The change is closed; its constituent commit identifiers, in order.
    Closed(Vec<String>),
    /// The provider call failed; the human-readable reason.
    ProviderError(String),
    /// The provider reported a lifecycle state that is neither open nor
    /// closed.
    UnexpectedState,
}

/// The answer to one containment query: per-branch inclusion of the change,
/// the primary branch's latest indexed commit, and a failure detail when
/// the query could not be answered.
pub struct QueryResult {
    /// Whether the query was answered.
    pub success: bool,
    /// A human-readable reason when `success` is false; empty otherwise.
    pub detail: String,
    /// The queried change's identifier.
    pub change: u64,
    /// The change's constituent commit identifiers, once known.
    pub commits: Vec<String>,
    /// The tracked branch names, uppercased, in configuration order.
    pub included_branches: Vec<String>,
    /// Per branch of `included_branches`, whether every commit of the
    /// change is present in that branch's set.
    pub included_in: Vec<bool>,
    /// The primary branch's latest indexed commit; empty when none is
    /// stored.
    pub latest_commit: String,
}

/// Full containment: every commit of the change is a member of the branch's
/// set.
pub open spec fn branch_contains_all(members: Set<Seq<char>>, commits: Seq<String>) -> bool {
    forall|k: int| 0 <= k < commits.len() ==> members.contains(#[trigger] commits[k]@)
}

/// Removing any single commit of the change from a branch's set flips that
/// branch's answer to not-included.
pub proof fn lemma_removing_commit_excludes(
    members: Set<Seq<char>>,
    commits: Seq<String>,
    k: int,
)
    requires
        0 <= k < commits.len(),
    ensures
        !branch_contains_all(members.remove(commits[k]@), commits),
{
    assert(!members.remove(commits[k]@).contains(commits[k]@));
}

/// Tests full containment of the change's commits in branch `i`'s set.
pub fn branch_included(store: &BranchStore, i: usize, commits: &Vec<String>) -> (r: bool)
    requires
        i < store.slots@.len(),
    ensures
        r == branch_contains_all(store.slots@[i as int].members(), commits@),
{
    let n = commits.len();
    let mut k: usize = 0;
    while k < n
        invariant
            i < store.slots@.len(),
            n == commits@.len(),
            k <= n,
            forall|j: int|
                0 <= j < k ==> store.slots@[i as int].members().contains(#[trigger] commits@[j]@),
        decreases n - k,
    {
        if !store.contains(i, &commits[k]) {
            return false;
        }
        k = k + 1;
    }
    true
}

/// Tests full containment against every tracked branch, in configuration
/// order.
pub fn containment_matrix(store: &BranchStore, commits: &Vec<String>) -> (r: Vec<bool>)
    ensures
        r@.len() == store.slots@.len(),
        forall|j: int|
            0 <= j < r@.len() ==> r@[j] == branch_contains_all(
                store.slots@[j].members(),
                commits@,
            ),
{
    let n = store.branch_count();
    let mut r: Vec<bool> = Vec::new();
    let mut j: usize = 0;
    while j < n
        invariant
            n == store.slots@.len(),
            j <= n,
            r@.len() == j,
            forall|m: int|
                0 <= m < j ==> r@[m] == branch_contains_all(store.slots@[m].members(), commits@),
        decreases n - j,
    {
        let included = branch_included(store, j, commits);
        r.push(included);
        j = j + 1;
    }
    r
}

/// The tracked branch names as a query answer reports them: uppercased, in
/// configuration order.
pub fn included_branch_names(store: &BranchStore) -> (r: Vec<String>)
    ensures
        r@.len() == store.slots@.len(),
        forall|j: int| 0 <= j < r@.len() ==> r@[j]@ == upper_seq(store.slots@[j].name@),
{
    let n = store.branch_count();
    let mut r: Vec<String> = Vec::new();
    let mut j: usize = 0;
    while j < n
        invariant
            n == store.slots@.len(),
            j <= n,
            r@.len() == j,
            forall|m: int| 0 <= m < j ==> r@[m]@ == upper_seq(store.slots@[m].name@),
        decreases n - j,
    {
        let name = to_upper(store.slots[j].name.as_str());
        r.push(name);
        j = j + 1;
    }
    r
}

/// Whether `p` occurs in `s` as a contiguous substring.
pub open spec fn contains_sub(s: Seq<char>, p: Seq<char>) -> bool {
    exists|o: int| 0 <= o <= s.len() - p.len() && #[trigger] s.subrange(o, o + p.len()) == p
}

/// Substring search.
pub fn contains_substr(s: &str, p: &str) -> (r: bool)
    ensures
        r == contains_sub(s@, p@),
{
    let s_len = s.unicode_len();
    let p_len = p.unicode_len();
    if p_len > s_len {
        return false;
    }
    if p_len == 0 {
        proof {
            assert(s@.subrange(0, 0 + p@.len() as int) =~= p@);
        }
        return true;
    }
    let mut o: usize = 0;
    while o <= s_len - p_len
        invariant
            s_len == s@.len(),
            p_len == p@.len(),
            1 <= p_len <= s_len,
            o <= s_len - p_len + 1,
            forall|q: int| 0 <= q < o ==> #[trigger] s@.subrange(q, q + p@.len()) != p@,
        decreases s_len - p_len - o + 1,
    {
        let mut j: usize = 0;
        let mut matched = true;
        while matched && j < p_len
            invariant
                s_len == s@.len(),
                p_len == p@.len(),
                o + p_len <= s_len,
                j <= p_len,
                matched ==> forall|m: int| 0 <= m < j ==> s@[o + m] == p@[m],
                !matched ==> s@.subrange(o as int, o + p@.len()) != p@,
            decreases p_len - j + (if matched { 1int } else { 0int }),
        {
            if s.get_char(o + j) != p.get_char(j) {
                proof {
                    assert(s@.subrange(o as int, o + p@.len())[j as int] != p@[j as int]);
                }
                matched = false;
            } else {
                j = j + 1;
            }
        }
        if matched {
            proof {
                assert(s@.subrange(o as int, o + p@.len()) =~= p@);
            }
            return true;
        }
        proof {
            assert(s@.subrange(o as int, o + p@.len()) != p@);
        }
        o = o + 1;
    }
    false
}

/// The failure reason reported for a provider error: a reason mentioning a
/// rate limit collapses to a fixed message, anything else is passed
/// through.
pub open spec fn spec_provider_detail(reason: Seq<char>) -> Seq<char> {
    if contains_sub(reason, "rate limit"@) {
        "API rate limit"@
    } else {
        reason
    }
}

/// Renders the failure reason for a provider error.
pub fn provider_error_detail(reason: &String) -> (r: String)
    ensures
        r@ == spec_provider_detail(reason@),
{
    if contains_substr(reason.as_str(), "rate limit") {
        String::from_str("API rate limit")
    } else {
        reason.clone()
    }
}

/// The detail of the answer given while the index is not ready.
pub open spec fn not_ready_detail() -> Seq<char> {
    "Server is not ready. Try again in few seconds"@
}

/// The detail of the answer given when the provider reports a lifecycle
/// state that is neither open nor closed.
pub open spec fn unexpected_state_detail() -> Seq<char> {
    "Unexpected change state, should be OPEN or CLOSED"@
}

/// A failure answer: unsuccessful, carrying only the given detail, with
/// every other field empty.
pub open spec fn spec_empty_failure(r: QueryResult, change: u64, detail: Seq<char>) -> bool {
    &&& r.success == false
    &&& r.detail@ == detail
    &&& r.change == change
    &&& r.commits@.len() == 0
    &&& r.included_branches@.len() == 0
    &&& r.included_in@.len() == 0
    &&& r.latest_commit@.len() == 0
}

fn empty_failure(change: u64, detail: String) -> (r: QueryResult)
    ensures
        spec_empty_failure(r, change, detail@),
{
    QueryResult {
        success: false,
        detail,
        change,
        commits: Vec::new(),
        included_branches: Vec::new(),
        included_in: Vec::new(),
        latest_commit: String::new(),
    }
}

/// The answer given to an open change: success, with no commits and no
/// containment report — an open change has no meaningful containment yet.
pub open spec fn spec_open_answer(r: QueryResult, change: u64) -> bool {
    &&& r.success == true
    &&& r.detail@.len() == 0
    &&& r.change == change
    &&& r.commits@.len() == 0
    &&& r.included_branches@.len() == 0
    &&& r.included_in@.len() == 0
    &&& r.latest_commit@.len() == 0
}

/// The answer given to a closed change: per-branch full containment of its
/// commits, the uppercased branch names, and the primary branch's latest
/// indexed commit (empty when none is stored).
pub open spec fn spec_closed_answer(
    r: QueryResult,
    change: u64,
    commits: Seq<String>,
    store: BranchStore,
) -> bool {
    &&& r.success == true
    &&& r.detail@.len() == 0
    &&& r.change == change
    &&& r.commits@ == commits
    &&& r.included_branches@.len() == store.slots@.len()
    &&& (forall|j: int|
        0 <= j < store.slots@.len() ==> r.included_branches@[j]@ == upper_seq(
            store.slots@[j].name@,
        ))
    &&& r.included_in@.len() == store.slots@.len()
    &&& (forall|j: int|
        0 <= j < store.slots@.len() ==> r.included_in@[j] == branch_contains_all(
            store.slots@[j].members(),
            commits,
        ))
    &&& r.latest_commit@ == (if store.slots@.len() > 0
        && store.slots@[0].latest_view() is Some {
        store.slots@[0].latest_view()->0
    } else {
        Seq::<char>::empty()
    })
}

/// The not-ready gate: while the readiness state is anything but `Ready`,
/// a query is answered at once with a structured failure. This function
/// takes no handle to the store or to the change provider, so a query
/// refused here touches neither.
pub fn gate_query(state: &IndexState, change: u64) -> (r: Option<QueryResult>)
    ensures
        r is Some <==> *state != IndexState::Ready,
        match r {
            Some(q) => spec_empty_failure(q, change, not_ready_detail()),
            None => true,
        },
{
    if *state == IndexState::Ready {
        None
    } else {
        Some(empty_failure(change, String::from_str("Server is not ready. Try again in few seconds")))
    }
}

fn clone_commits(v: &Vec<String>) -> (r: Vec<String>)
    ensures
        r@ == v@,
{
    let mut r: Vec<String> = Vec::new();
    let mut k: usize = 0;
    while k < v.len()
        invariant
            k <= v@.len(),
            r@ == v@.subrange(0, k as int),
        decreases v@.len() - k,
    {
        r.push(v[k].clone());
        proof {
            assert(r@ =~= v@.subrange(0, k + 1));
        }
        k = k + 1;
    }
    proof {
        assert(v@.subrange(0, v@.len() as int) =~= v@);
    }
    r
}

/// Answers a query once the index is ready: the change's lifecycle decides
/// the shape of the answer.
pub fn answer_ready_query(change: u64, lookup: &ChangeLookup, store: &BranchStore) -> (r:
    QueryResult)
    ensures
        match *lookup {
            ChangeLookup::Open => spec_open_answer(r, change),
            ChangeLookup::Closed(commits) => spec_closed_answer(r, change, commits@, *store),
            ChangeLookup::ProviderError(reason) => spec_empty_failure(
                r,
                change,
                spec_provider_detail(reason@),
            ),
            ChangeLookup::UnexpectedState => spec_empty_failure(
                r,
                change,
                unexpected_state_detail(),
            ),
        },
{
    match lookup {
        ChangeLookup::Open => QueryResult {
            success: true,
            detail: String::new(),
            change,
            commits: Vec::new(),
            included_branches: Vec::new(),
            included_in: Vec::new(),
            latest_commit: String::new(),
        },
        ChangeLookup::Closed(commits) => {
            let included_in = containment_matrix(store, commits);
            let included_branches = included_branch_names(store);
            let latest_commit = if store.branch_count() > 0 {
                match store.latest(0) {
                    Some(c) => c,
                    None => String::new(),
                }
            } else {
                String::new()
            };
            QueryResult {
                success: true,
                detail: String::new(),
                change,
                commits: clone_commits(commits),
                included_branches,
                included_in,
                latest_commit,
            }
        },
        ChangeLookup::ProviderError(reason) => empty_failure(
            change,
            provider_error_detail(reason),
        ),
        ChangeLookup::UnexpectedState => empty_failure(
            change,
            String::from_str("Unexpected change state, should be OPEN or CLOSED"),
        ),
    }
}

/// One whole query: the not-ready gate first, then the lifecycle dispatch.
/// While the index is not ready the answer is the fixed failure whatever
/// the lookup or the store hold.
pub fn answer_query(state: &IndexState, change: u64, lookup: &ChangeLookup, store: &BranchStore)
    -> (r: QueryResult)
    ensures
        *state != IndexState::Ready ==> spec_empty_failure(r, change, not_ready_detail()),
        *state == IndexState::Ready ==> match *lookup {
            ChangeLookup::Open => spec_open_answer(r, change),
            ChangeLookup::Closed(commits) => spec_closed_answer(r, change, commits@, *store),
            ChangeLookup::ProviderError(reason) => spec_empty_failure(
                r,
                change,
                spec_provider_detail(reason@),
            ),
            ChangeLookup::UnexpectedState => spec_empty_failure(
                r,
                change,
                unexpected_state_detail(),
            ),
        },
{
    match gate_query(state, change) {
        Some(r) => r,
        None => answer_ready_query(change, lookup, store),
    }
}

} // verus!
