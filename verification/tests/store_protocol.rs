use branch_index::store::BranchStore;

fn s(x: &str) -> String {
    x.to_string()
}

fn two_branch_store() -> BranchStore {
    BranchStore::new(&vec![s("master"), s("staging")])
}

#[test]
fn new_store_is_empty_and_unindexed() {
    let store = two_branch_store();
    assert_eq!(store.branch_count(), 2);
    assert!(!store.is_indexed(0));
    assert!(!store.is_indexed(1));
    assert!(!store.contains(0, &s("a")));
    assert_eq!(store.latest(0), None);
}

#[test]
fn rebuild_inserts_the_walk_and_points_latest_at_the_tip() {
    let mut store = two_branch_store();
    store.rebuild(0, &vec![s("c"), s("b"), s("a")]);
    assert!(store.is_indexed(0));
    assert!(store.contains(0, &s("a")));
    assert!(store.contains(0, &s("b")));
    assert!(store.contains(0, &s("c")));
    assert!(!store.contains(0, &s("d")));
    assert_eq!(store.latest(0), Some(s("c")));
    // the other branch is untouched
    assert!(!store.is_indexed(1));
    assert!(!store.contains(1, &s("a")));
}

#[test]
fn rebuild_twice_on_an_unchanged_tip_is_idempotent() {
    let mut store = two_branch_store();
    let walk = vec![s("c"), s("b"), s("a")];
    store.rebuild(0, &walk);
    let first_latest = store.latest(0);
    let first_members: Vec<bool> = ["a", "b", "c", "d"]
        .iter()
        .map(|id| store.contains(0, &s(id)))
        .collect();
    store.rebuild(0, &walk);
    let second_latest = store.latest(0);
    let second_members: Vec<bool> = ["a", "b", "c", "d"]
        .iter()
        .map(|id| store.contains(0, &s(id)))
        .collect();
    assert_eq!(first_latest, second_latest);
    assert_eq!(first_members, second_members);
}

#[test]
fn rebuild_of_an_empty_walk_leaves_no_latest() {
    let mut store = two_branch_store();
    store.rebuild(0, &vec![]);
    assert!(!store.is_indexed(0));
    assert_eq!(store.latest(0), None);
    assert!(!store.contains(0, &s("a")));
}

#[test]
fn staged_writes_never_show_a_partial_set() {
    let mut store = two_branch_store();
    store.rebuild(0, &vec![s("b"), s("a")]);
    // a refresh walks the new history {e, d, a} one identifier at a time;
    // between any two staged writes a reader still sees the complete old
    // set and the old tip
    for id in ["e", "d", "a"] {
        store.stage_commit(0, &s(id));
        assert!(store.contains(0, &s("a")));
        assert!(store.contains(0, &s("b")));
        assert!(!store.contains(0, &s("d")));
        assert!(!store.contains(0, &s("e")));
        assert_eq!(store.latest(0), Some(s("b")));
    }
    store.stage_latest(0, &s("e"));
    assert_eq!(store.latest(0), Some(s("b")));
    // the single swap replaces the whole set and the tip at once
    store.commit_swap(0);
    assert!(store.contains(0, &s("a")));
    assert!(!store.contains(0, &s("b")));
    assert!(store.contains(0, &s("d")));
    assert!(store.contains(0, &s("e")));
    assert_eq!(store.latest(0), Some(s("e")));
}

#[test]
fn delta_update_replaces_the_set_and_drops_rewritten_history() {
    let mut store = two_branch_store();
    store.rebuild(0, &vec![s("b"), s("a")]);
    store.delta_update(0, &vec![s("e"), s("d"), s("a")]);
    assert!(store.contains(0, &s("a")));
    assert!(!store.contains(0, &s("b")));
    assert!(store.contains(0, &s("d")));
    assert!(store.contains(0, &s("e")));
    assert_eq!(store.latest(0), Some(s("e")));
}

#[test]
fn delta_update_works_as_a_first_build_too() {
    let mut store = two_branch_store();
    store.delta_update(1, &vec![s("b"), s("a")]);
    assert!(store.is_indexed(1));
    assert!(store.contains(1, &s("a")));
    assert!(store.contains(1, &s("b")));
    assert_eq!(store.latest(1), Some(s("b")));
}

#[test]
fn duplicate_identifiers_in_a_walk_collapse_to_one_member() {
    let mut store = two_branch_store();
    store.rebuild(0, &vec![s("a"), s("a"), s("a")]);
    assert!(store.contains(0, &s("a")));
    assert_eq!(store.latest(0), Some(s("a")));
}
