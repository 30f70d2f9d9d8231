//! The index readiness state machine.
//!
//! A single process-wide value reports how far indexing has come. It is
//! written by the indexing pass and read by every query handler, which
//! refuses to answer until the state is `Ready`. The store holds it as one
//! of four fixed strings; encoding and parsing are inverse to each other
//! (see [`lemma_state_code_round_trip`]).

use vstd::prelude::*;

verus! {

/// Readiness of the index. Transitions are monotonic in the declared order
/// during bring-up; after `Ready` the state may transiently revisit
/// `IndexingCommit` while a branch is rebuilt from scratch.
#[derive(Clone, Copy, Debug, PartialEq, Eq, Structural)]
pub enum IndexState {
    Starting,
    CloningGitRepo,
    IndexingCommit,
    Ready,
}

/// Events that drive the readiness state machine.
#[derive(Clone, Copy, Debug, PartialEq, Eq, Structural)]
pub enum IndexEvent {
    /// No local copy of the commit graph was found at startup.
    LocalGraphAbsent,
    /// A local copy of the commit graph was found at startup.
    LocalGraphPresent,
    /// The clone of the commit graph finished.
    CloneCompleted,
    /// Every tracked branch has been processed at least once.
    AllBranchesProcessed,
    /// A refresh of a branch that has no previous index begins.
    RefreshBegins,
}

/// The transition table of the state machine. A combination outside the
/// table leaves the state unchanged.
pub open spec fn spec_next_state(s: IndexState, e: IndexEvent) -> IndexState {
    match (s, e) {
        (IndexState::Starting, IndexEvent::LocalGraphAbsent) => IndexState::CloningGitRepo,
        (IndexState::Starting, IndexEvent::LocalGraphPresent) => IndexState::IndexingCommit,
        (IndexState::CloningGitRepo, IndexEvent::CloneCompleted) => IndexState::IndexingCommit,
        (IndexState::IndexingCommit, IndexEvent::AllBranchesProcessed) => IndexState::Ready,
        (IndexState::Ready, IndexEvent::RefreshBegins) => IndexState::IndexingCommit,
        _ => s,
    }
}

/// Advances the readiness state by one event.
pub fn next_state(s: IndexState, e: IndexEvent) -> (r: IndexState)
    ensures
        r == spec_next_state(s, e),
{
    match (s, e) {
        (IndexState::Starting, IndexEvent::LocalGraphAbsent) => IndexState::CloningGitRepo,
        (IndexState::Starting, IndexEvent::LocalGraphPresent) => IndexState::IndexingCommit,
        (IndexState::CloningGitRepo, IndexEvent::CloneCompleted) => IndexState::IndexingCommit,
        (IndexState::IndexingCommit, IndexEvent::AllBranchesProcessed) => IndexState::Ready,
        (IndexState::Ready, IndexEvent::RefreshBegins) => IndexState::IndexingCommit,
        (s2, _) => s2,
    }
}

/// The string stored under the state key for each readiness value.
pub open spec fn state_code(s: IndexState) -> Seq<char> {
    match s {
        IndexState::Starting => "STARTING"@,
        IndexState::CloningGitRepo => "CLONING_GIT_REPO"@,
        IndexState::IndexingCommit => "INDEXING_COMMIT"@,
        IndexState::Ready => "READY"@,
    }
}

/// Encodes a readiness value as the string the store holds for it.
pub fn encode_state(s: &IndexState) -> (r: String)
    ensures
        r@ == state_code(*s),
{
    match s {
        IndexState::Starting => String::from_str("STARTING"),
        IndexState::CloningGitRepo => String::from_str("CLONING_GIT_REPO"),
        IndexState::IndexingCommit => String::from_str("INDEXING_COMMIT"),
        IndexState::Ready => String::from_str("READY"),
    }
}

/// What a stored state string decodes to: the readiness value whose code it
/// is, or nothing for a malformed string.
pub open spec fn spec_parse_state(s: Seq<char>) -> Option<IndexState> {
    if s == state_code(IndexState::Starting) {
        Some(IndexState::Starting)
    } else if s == state_code(IndexState::CloningGitRepo) {
        Some(IndexState::CloningGitRepo)
    } else if s == state_code(IndexState::IndexingCommit) {
        Some(IndexState::IndexingCommit)
    } else if s == state_code(IndexState::Ready) {
        Some(IndexState::Ready)
    } else {
        None
    }
}

/// Character-by-character string equality.
pub fn str_eq(a: &str, b: &str) -> (r: bool)
    ensures
        r == (a@ == b@),
{
    let a_len = a.unicode_len();
    let b_len = b.unicode_len();
    if a_len != b_len {
        return false;
    }
    let mut i: usize = 0;
    while i < a_len
        invariant
            a_len == a@.len(),
            b_len == b@.len(),
            a_len == b_len,
            i <= a_len,
            forall|j: int| 0 <= j < i ==> a@[j] == b@[j],
        decreases a_len - i,
    {
        if a.get_char(i) != b.get_char(i) {
            return false;
        }
        i = i + 1;
    }
    proof {
        assert(a@ =~= b@);
    }
    true
}

/// Decodes a stored state string.
pub fn parse_state(s: &str) -> (r: Option<IndexState>)
    ensures
        r == spec_parse_state(s@),
{
    if str_eq(s, "STARTING") {
        Some(IndexState::Starting)
    } else if str_eq(s, "CLONING_GIT_REPO") {
        Some(IndexState::CloningGitRepo)
    } else if str_eq(s, "INDEXING_COMMIT") {
        Some(IndexState::IndexingCommit)
    } else if str_eq(s, "READY") {
        Some(IndexState::Ready)
    } else {
        None
    }
}

/// The other direction of the round trip: a string that decodes to a
/// readiness value is that value's code.
pub proof fn lemma_parse_state_inverse(s: Seq<char>, st: IndexState)
    requires
        spec_parse_state(s) == Some(st),
    ensures
        state_code(st) == s,
{
}

/// The code of each readiness value decodes back to that value: encoding
/// and parsing are inverse to each other.
pub proof fn lemma_state_code_round_trip(s: IndexState)
    ensures
        spec_parse_state(state_code(s)) == Some(s),
{
    reveal_strlit("STARTING");
    reveal_strlit("CLONING_GIT_REPO");
    reveal_strlit("INDEXING_COMMIT");
    reveal_strlit("READY");
    assert(state_code(IndexState::Starting).len() == 8);
    assert(state_code(IndexState::CloningGitRepo).len() == 16);
    assert(state_code(IndexState::IndexingCommit).len() == 15);
    assert(state_code(IndexState::Ready).len() == 5);
}

} // verus!
