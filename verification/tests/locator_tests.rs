use sddm_babysit::locator::{
    find_helper_instances, find_server_instances, ProcessInfo, Snapshot,
};

fn process(pid: u32, name: &str, parent: Option<u32>) -> ProcessInfo {
    ProcessInfo { pid, name: name.to_string(), parent }
}

#[test]
fn no_helper_in_snapshot_finds_nothing() {
    let snapshot = Snapshot::new(vec![
        process(1, "init", None),
        process(50, "sddm", Some(1)),
        process(200, "X", Some(50)),
    ]);
    assert_eq!(find_helper_instances(&snapshot), Vec::<u32>::new());
}

#[test]
fn empty_snapshot_finds_nothing() {
    let snapshot = Snapshot::new(Vec::new());
    assert_eq!(find_helper_instances(&snapshot), Vec::<u32>::new());
    assert_eq!(find_server_instances(&snapshot), Vec::<u32>::new());
}

#[test]
fn one_helper_is_found() {
    let snapshot = Snapshot::new(vec![
        process(50, "sddm", Some(1)),
        process(100, "sddm-helper", Some(50)),
    ]);
    assert_eq!(find_helper_instances(&snapshot), vec![100]);
}

#[test]
fn all_helpers_are_found_in_inventory_order() {
    let snapshot = Snapshot::new(vec![
        process(300, "sddm-helper", Some(50)),
        process(50, "sddm", Some(1)),
        process(100, "sddm-helper", Some(50)),
        process(7, "bash", None),
        process(250, "sddm-helper", None),
    ]);
    assert_eq!(find_helper_instances(&snapshot), vec![300, 100, 250]);
}

#[test]
fn helper_name_must_match_exactly() {
    let snapshot = Snapshot::new(vec![
        process(10, "sddm-helper-start", Some(1)),
        process(11, "sddm-helpe", Some(1)),
        process(12, "SDDM-HELPER", Some(1)),
        process(13, "sddm", Some(1)),
        process(14, "", Some(1)),
    ]);
    assert_eq!(find_helper_instances(&snapshot), Vec::<u32>::new());
}

#[test]
fn server_under_display_manager_is_included() {
    let snapshot = Snapshot::new(vec![
        process(50, "sddm", Some(1)),
        process(200, "X", Some(50)),
    ]);
    assert_eq!(find_server_instances(&snapshot), vec![200]);
}

#[test]
fn server_under_another_parent_is_excluded() {
    let snapshot = Snapshot::new(vec![
        process(50, "sddm", Some(1)),
        process(60, "xinit", Some(1)),
        process(200, "X", Some(60)),
    ]);
    assert_eq!(find_server_instances(&snapshot), Vec::<u32>::new());
}

#[test]
fn server_with_unresolved_parent_is_excluded() {
    let snapshot = Snapshot::new(vec![
        process(50, "sddm", Some(1)),
        process(200, "X", Some(51)),
        process(201, "X", None),
    ]);
    assert_eq!(find_server_instances(&snapshot), Vec::<u32>::new());
}

#[test]
fn only_server_named_children_are_servers() {
    let snapshot = Snapshot::new(vec![
        process(200, "X", Some(50)),
        process(100, "sddm-helper", Some(50)),
        process(50, "sddm", Some(1)),
        process(201, "Xorg", Some(50)),
        process(202, "X", Some(100)),
        process(203, "X", Some(50)),
    ]);
    assert_eq!(find_server_instances(&snapshot), vec![200, 203]);
    assert!(snapshot.has_display_manager(50));
    assert!(!snapshot.has_display_manager(100));
    assert!(!snapshot.has_display_manager(9));
}
