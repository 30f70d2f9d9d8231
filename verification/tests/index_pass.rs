use branch_index::config::{parse_port, tracked_branches, DEFAULT_PORT};
use branch_index::keys::{branch_key, latest_key, staging_key, state_key, to_upper};
use branch_index::orchestrator::{plan_branch_update, run_index_pass, UpdateKind};
use branch_index::state::IndexState;
use branch_index::store::BranchStore;

fn s(x: &str) -> String {
    x.to_string()
}

#[test]
fn unindexed_branches_get_a_full_build_and_indexed_ones_a_refresh() {
    assert_eq!(
        plan_branch_update(false),
        (UpdateKind::FullBuild, IndexState::IndexingCommit)
    );
    assert_eq!(
        plan_branch_update(true),
        (UpdateKind::DeltaRefresh, IndexState::Ready)
    );
}

#[test]
fn a_pass_indexes_every_walked_branch_and_reports_ready() {
    let mut store = BranchStore::new(&vec![s("master"), s("staging")]);
    let walks = vec![
        Some(vec![s("c"), s("b"), s("a")]),
        Some(vec![s("b"), s("a")]),
    ];
    let state = run_index_pass(&mut store, &walks);
    assert_eq!(state, IndexState::Ready);
    assert!(store.contains(0, &s("c")));
    assert!(store.contains(1, &s("b")));
    assert!(!store.contains(1, &s("c")));
    assert_eq!(store.latest(0), Some(s("c")));
    assert_eq!(store.latest(1), Some(s("b")));
}

#[test]
fn a_failed_branch_fetch_is_isolated_and_readiness_still_advances() {
    let mut store = BranchStore::new(&vec![s("master"), s("staging")]);
    // the graph source fails for staging only: its walk is absent
    let walks = vec![Some(vec![s("c"), s("b"), s("a")]), None];
    let state = run_index_pass(&mut store, &walks);
    assert_eq!(state, IndexState::Ready);
    // master's index completed
    assert!(store.is_indexed(0));
    assert!(store.contains(0, &s("a")));
    assert_eq!(store.latest(0), Some(s("c")));
    // staging stayed at its previous (never-set) index
    assert!(!store.is_indexed(1));
    assert!(!store.contains(1, &s("a")));
}

#[test]
fn a_second_pass_refreshes_through_the_staging_swap() {
    let mut store = BranchStore::new(&vec![s("master")]);
    run_index_pass(&mut store, &vec![Some(vec![s("b"), s("a")])]);
    // the tip moved and history was rewritten: the next pass re-walks it
    let state = run_index_pass(&mut store, &vec![Some(vec![s("e"), s("a")])]);
    assert_eq!(state, IndexState::Ready);
    assert!(store.contains(0, &s("e")));
    assert!(store.contains(0, &s("a")));
    assert!(!store.contains(0, &s("b")));
    assert_eq!(store.latest(0), Some(s("e")));
}

#[test]
fn the_tracked_branch_list_is_the_fixed_configuration() {
    let branches = tracked_branches();
    assert_eq!(
        branches,
        vec![
            s("master"),
            s("staging"),
            s("staging-next"),
            s("nixpkgs-unstable"),
            s("nixos-unstable-small"),
            s("nixos-unstable"),
            s("nixos-24.05"),
        ]
    );
    assert_eq!(DEFAULT_PORT, 8080);
}

#[test]
fn store_keys_follow_the_documented_layout() {
    assert_eq!(branch_key("master"), "MASTER");
    assert_eq!(branch_key("nixos-24.05"), "NIXOS-24.05");
    assert_eq!(staging_key("master"), "MASTER_DELTA");
    assert_eq!(latest_key("master"), "LAST_MASTER_COMMIT");
    assert_eq!(latest_key("staging-next"), "LAST_STAGING-NEXT_COMMIT");
    assert_eq!(state_key(), "STATE");
}

#[test]
fn port_strings_parse_exactly_when_in_range() {
    assert_eq!(parse_port("8080"), Some(8080));
    assert_eq!(parse_port("0"), Some(0));
    assert_eq!(parse_port("080"), Some(80));
    assert_eq!(parse_port("65535"), Some(65535));
    assert_eq!(parse_port("65536"), None);
    assert_eq!(parse_port("99999"), None);
    assert_eq!(parse_port(""), None);
    assert_eq!(parse_port("80a"), None);
    assert_eq!(parse_port("-1"), None);
    assert_eq!(parse_port(" 80"), None);
}

#[test]
fn uppercasing_touches_only_ascii_lowercase_letters() {
    assert_eq!(to_upper("staging-next"), "STAGING-NEXT");
    assert_eq!(to_upper("ALREADY"), "ALREADY");
    assert_eq!(to_upper(""), "");
    assert_eq!(to_upper("mixed_Case.42"), "MIXED_CASE.42");
}
