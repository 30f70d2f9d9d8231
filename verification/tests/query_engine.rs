use branch_index::query::{
    answer_query, answer_ready_query, branch_included, contains_substr, gate_query,
    provider_error_detail, ChangeLookup,
};
use branch_index::state::IndexState;
use branch_index::store::BranchStore;

fn s(x: &str) -> String {
    x.to_string()
}

/// The scenario store: `master` = {a, b, c} with latest `c`, `staging` =
/// {a, b} with latest `b`.
fn scenario_store() -> BranchStore {
    let mut store = BranchStore::new(&vec![s("master"), s("staging")]);
    store.rebuild(0, &vec![s("c"), s("b"), s("a")]);
    store.rebuild(1, &vec![s("b"), s("a")]);
    store
}

#[test]
fn a_branch_includes_a_change_only_with_every_commit_present() {
    let store = scenario_store();
    // all three commits of the change are in master
    assert!(branch_included(&store, 0, &vec![s("a"), s("b"), s("c")]));
    // staging lacks c: the conjunction fails
    assert!(!branch_included(&store, 1, &vec![s("a"), s("b"), s("c")]));
    // removing any single commit from the branch's set flips the answer:
    // staging holds {a, b}, so [a, b] is in but any superset is not
    assert!(branch_included(&store, 1, &vec![s("a"), s("b")]));
    assert!(!branch_included(&store, 1, &vec![s("a"), s("b"), s("d")]));
}

#[test]
fn an_empty_change_is_included_everywhere() {
    let store = scenario_store();
    assert!(branch_included(&store, 0, &vec![]));
    assert!(branch_included(&store, 1, &vec![]));
}

#[test]
fn queries_before_ready_fail_without_touching_anything() {
    for st in [
        IndexState::Starting,
        IndexState::CloningGitRepo,
        IndexState::IndexingCommit,
    ] {
        let gated = gate_query(&st, 42).expect("a query before readiness is refused");
        assert!(!gated.success);
        assert_eq!(gated.detail, "Server is not ready. Try again in few seconds");
        assert_eq!(gated.change, 42);
        assert!(gated.commits.is_empty());
        assert!(gated.included_branches.is_empty());
        assert!(gated.included_in.is_empty());
        assert_eq!(gated.latest_commit, "");
    }
    assert!(gate_query(&IndexState::Ready, 42).is_none());
}

#[test]
fn the_not_ready_answer_ignores_lookup_and_store() {
    let store = scenario_store();
    let r = answer_query(
        &IndexState::IndexingCommit,
        7,
        &ChangeLookup::Closed(vec![s("a")]),
        &store,
    );
    assert!(!r.success);
    assert_eq!(r.detail, "Server is not ready. Try again in few seconds");
    assert!(r.commits.is_empty());
    assert!(r.included_in.is_empty());
}

#[test]
fn an_open_change_succeeds_with_empty_report_and_no_store_reads() {
    let store = BranchStore::new(&vec![s("master")]);
    // the store was never indexed: an open change's answer cannot depend on it
    let r = answer_ready_query(9, &ChangeLookup::Open, &store);
    assert!(r.success);
    assert_eq!(r.detail, "");
    assert_eq!(r.change, 9);
    assert!(r.commits.is_empty());
    assert!(r.included_branches.is_empty());
    assert!(r.included_in.is_empty());
    assert_eq!(r.latest_commit, "");
}

#[test]
fn end_to_end_scenario_reports_the_containment_matrix() {
    let store = scenario_store();
    let r = answer_query(
        &IndexState::Ready,
        123,
        &ChangeLookup::Closed(vec![s("a"), s("b")]),
        &store,
    );
    assert!(r.success);
    assert_eq!(r.commits, vec![s("a"), s("b")]);
    assert_eq!(r.included_branches, vec![s("MASTER"), s("STAGING")]);
    assert_eq!(r.included_in, vec![true, true]);
    assert_eq!(r.latest_commit, "c");

    let r = answer_query(
        &IndexState::Ready,
        124,
        &ChangeLookup::Closed(vec![s("a"), s("b"), s("c")]),
        &store,
    );
    assert!(r.success);
    assert_eq!(r.included_in, vec![true, false]);
    assert_eq!(r.latest_commit, "c");
}

#[test]
fn a_closed_change_against_an_unindexed_primary_reports_no_latest() {
    let store = BranchStore::new(&vec![s("master")]);
    let r = answer_ready_query(5, &ChangeLookup::Closed(vec![]), &store);
    assert!(r.success);
    assert_eq!(r.included_branches, vec![s("MASTER")]);
    assert_eq!(r.included_in, vec![true]);
    assert_eq!(r.latest_commit, "");
}

#[test]
fn provider_errors_surface_as_structured_failures() {
    let store = scenario_store();
    let r = answer_ready_query(
        8,
        &ChangeLookup::ProviderError(s("Failed to fetch data from GitHub")),
        &store,
    );
    assert!(!r.success);
    assert_eq!(r.detail, "Failed to fetch data from GitHub");
    assert!(r.commits.is_empty());
    assert!(r.included_in.is_empty());
}

#[test]
fn rate_limited_provider_errors_collapse_to_a_fixed_detail() {
    assert_eq!(
        provider_error_detail(&s("GitHub: API rate limit exceeded for 1.2.3.4")),
        "API rate limit"
    );
    assert_eq!(
        provider_error_detail(&s("connection reset by peer")),
        "connection reset by peer"
    );
}

#[test]
fn an_unexpected_lifecycle_state_is_a_failure_not_a_crash() {
    let store = scenario_store();
    let r = answer_ready_query(8, &ChangeLookup::UnexpectedState, &store);
    assert!(!r.success);
    assert_eq!(r.detail, "Unexpected change state, should be OPEN or CLOSED");
}

#[test]
fn substring_search_finds_patterns_exactly() {
    assert!(contains_substr("API rate limit exceeded", "rate limit"));
    assert!(contains_substr("rate limit", "rate limit"));
    assert!(!contains_substr("rate-limit", "rate limit"));
    assert!(!contains_substr("rat", "rate limit"));
    assert!(contains_substr("anything", ""));
}
