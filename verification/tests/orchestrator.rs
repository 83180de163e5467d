use sftpman_ui::model::Definition;
use sftpman_ui::model::InventoryItem;
use sftpman_ui::model::all_mounted;
use sftpman_ui::model::all_unmounted;
use sftpman_ui::orchestrator::Action;
use sftpman_ui::orchestrator::Orchestrator;
use sftpman_ui::orchestrator::eligible_items;
use sftpman_ui::search::filter_by_search;

fn raw_def(id: &str) -> libsftpman::FilesystemMountDefinition {
    let mut raw = libsftpman::FilesystemMountDefinition::default();
    raw.id = id.to_string();
    raw.host = "server.example.com".to_string();
    raw.user = "user".to_string();
    raw.remote_path = "/srv/data".to_string();
    raw
}

fn def(id: &str) -> Definition {
    Definition { id: id.to_string(), raw: raw_def(id) }
}

fn entry(id: &str, mounted: bool) -> InventoryItem {
    InventoryItem { definition: def(id), mounted }
}

fn mount_target(action: Action) -> Definition {
    match action {
        Action::DoMount(d) => d,
        _ => panic!("expected a mount to be issued"),
    }
}

fn unmount_target(action: Action) -> Definition {
    match action {
        Action::DoUnmount(d) => d,
        _ => panic!("expected an unmount to be issued"),
    }
}

fn queue_ids(queue: &Vec<Definition>) -> Vec<String> {
    queue.iter().map(|d| d.id.clone()).collect()
}

#[test]
fn mount_all_processes_batch_in_order() {
    // Inventory: a (unmounted), b (unmounted), c (mounted).
    let inv = vec![entry("a", false), entry("b", false), entry("c", true)];
    let mut orch = Orchestrator::new();

    let act = orch.request_mount_all(inv);
    let d1 = mount_target(act);
    assert_eq!(d1.id, "a");
    assert_eq!(orch.mounting_in_progress_id.as_deref(), Some("a"));
    assert_eq!(queue_ids(&orch.mounting_queue), vec!["b".to_string()]);

    let act = orch.mount_result(d1, None);
    let d2 = mount_target(act);
    assert_eq!(d2.id, "b");
    assert_eq!(orch.mounting_in_progress_id.as_deref(), Some("b"));
    assert!(orch.mounting_queue.is_empty());

    let act = orch.mount_result(d2, None);
    assert!(matches!(act, Action::Nothing));
    assert!(orch.mounting_in_progress_id.is_none());
    assert!(orch.mounting_queue.is_empty());
}

#[test]
fn mount_all_with_empty_eligible_set_is_a_no_op() {
    let inv = vec![entry("a", true), entry("b", true)];
    let mut orch = Orchestrator::new();
    let act = orch.request_mount_all(inv);
    assert!(matches!(act, Action::Nothing));
    assert!(orch.mounting_in_progress_id.is_none());
    assert!(orch.mounting_queue.is_empty());
    assert!(orch.unmounting_in_progress_id.is_none());
    assert!(orch.unmounting_queue.is_empty());
}

#[test]
fn mount_failure_halts_the_batch_and_requests_an_alert() {
    // Inventory: a, b, c all unmounted; the mount of a fails.
    let inv = vec![entry("a", false), entry("b", false), entry("c", false)];
    let mut orch = Orchestrator::new();

    let act = orch.request_mount_all(inv);
    let d1 = mount_target(act);
    assert_eq!(d1.id, "a");
    assert_eq!(
        queue_ids(&orch.mounting_queue),
        vec!["b".to_string(), "c".to_string()]
    );

    let error = Some((
        "mount failed for some reason".to_string(),
        "MountError { code: 1 }".to_string(),
    ));
    let act = orch.mount_result(d1, error);
    let alert = match act {
        Action::ShowAlert(alert) => alert,
        _ => panic!("expected an alert, not a further mount"),
    };
    assert_eq!(alert.title, "Failed to mount a");
    assert_eq!(alert.copy_error, "MountError { code: 1 }");
    assert!(alert.message.starts_with("Mount failed for some reason"));
    assert!(alert.message.contains("Error details:"));
    assert!(alert.message.contains("MountError { code: 1 }"));
    // The command of the alert is the one rendered into the message.
    let command = alert.copy_command.expect("a mount command line for a complete definition");
    assert!(command.contains("sshfs"));
    assert!(alert.message.contains(&command));
    // The batch is abandoned: the marker clears, the queue stays as it was.
    assert!(orch.mounting_in_progress_id.is_none());
    assert_eq!(
        queue_ids(&orch.mounting_queue),
        vec!["b".to_string(), "c".to_string()]
    );
}

#[test]
fn unmount_all_processes_batch_in_order() {
    let inv = vec![entry("a", true), entry("b", false), entry("c", true)];
    let mut orch = Orchestrator::new();

    let act = orch.request_unmount_all(inv);
    let d1 = unmount_target(act);
    assert_eq!(d1.id, "a");
    assert_eq!(orch.unmounting_in_progress_id.as_deref(), Some("a"));
    assert_eq!(queue_ids(&orch.unmounting_queue), vec!["c".to_string()]);

    let act = orch.unmount_result(d1, None);
    let d2 = unmount_target(act);
    assert_eq!(d2.id, "c");

    let act = orch.unmount_result(d2, None);
    assert!(matches!(act, Action::Nothing));
    assert!(orch.unmounting_in_progress_id.is_none());
    assert!(orch.unmounting_queue.is_empty());
}

#[test]
fn unmount_failure_halts_the_batch_and_requests_an_alert() {
    let inv = vec![entry("a", true), entry("b", true)];
    let mut orch = Orchestrator::new();

    let act = orch.request_unmount_all(inv);
    let d1 = unmount_target(act);
    let error = Some(("device is busy".to_string(), "Busy".to_string()));
    let act = orch.unmount_result(d1, error);
    let alert = match act {
        Action::ShowAlert(alert) => alert,
        _ => panic!("expected an alert, not a further unmount"),
    };
    assert_eq!(alert.title, "Failed to unmount a");
    assert!(alert.message.starts_with("Device is busy"));
    assert_eq!(alert.copy_error, "Busy");
    assert_eq!(queue_ids(&orch.unmounting_queue), vec!["b".to_string()]);
}

#[test]
fn single_mount_leaves_both_queues_alone() {
    let mut orch = Orchestrator::new();
    // Leave a stale unmounting batch in place.
    let act = orch.request_unmount_all(vec![entry("x", true), entry("y", true)]);
    let _ = unmount_target(act);
    assert_eq!(queue_ids(&orch.unmounting_queue), vec!["y".to_string()]);

    let act = orch.mount(def("a"));
    let d = mount_target(act);
    assert_eq!(d.id, "a");
    assert_eq!(orch.mounting_in_progress_id.as_deref(), Some("a"));
    assert!(orch.mounting_queue.is_empty());
    assert_eq!(queue_ids(&orch.unmounting_queue), vec!["y".to_string()]);
    assert_eq!(orch.unmounting_in_progress_id.as_deref(), Some("x"));

    let act = orch.mount_result(d, None);
    assert!(matches!(act, Action::Nothing));
    assert!(orch.mounting_in_progress_id.is_none());
}

#[test]
fn single_unmount_leaves_both_queues_alone() {
    let mut orch = Orchestrator::new();
    let act = orch.unmount(def("a"));
    let d = unmount_target(act);
    assert_eq!(d.id, "a");
    assert_eq!(orch.unmounting_in_progress_id.as_deref(), Some("a"));
    assert!(orch.unmounting_queue.is_empty());
    assert!(orch.mounting_queue.is_empty());
    assert!(orch.mounting_in_progress_id.is_none());
}

#[test]
fn new_mount_all_replaces_a_stale_queue() {
    // A failed batch leaves b queued; a fresh "mount all" overwrites it.
    let mut orch = Orchestrator::new();
    let act = orch.request_mount_all(vec![entry("a", false), entry("b", false)]);
    let d1 = mount_target(act);
    let act = orch.mount_result(d1, Some(("boom".to_string(), "Boom".to_string())));
    assert!(matches!(act, Action::ShowAlert(_)));
    assert_eq!(queue_ids(&orch.mounting_queue), vec!["b".to_string()]);

    let act = orch.request_mount_all(vec![entry("c", false), entry("d", false)]);
    let d1 = mount_target(act);
    assert_eq!(d1.id, "c");
    assert_eq!(queue_ids(&orch.mounting_queue), vec!["d".to_string()]);
}

#[test]
fn eligible_items_keeps_only_the_wanted_mounted_state() {
    let inv = vec![
        entry("a", false),
        entry("b", true),
        entry("c", false),
        entry("d", true),
    ];
    let unmounted = eligible_items(inv, false);
    assert_eq!(queue_ids(&unmounted), vec!["a".to_string(), "c".to_string()]);

    let inv = vec![
        entry("a", false),
        entry("b", true),
        entry("c", false),
        entry("d", true),
    ];
    let mounted = eligible_items(inv, true);
    assert_eq!(queue_ids(&mounted), vec!["b".to_string(), "d".to_string()]);
}

#[test]
fn search_filter_restricts_eligibility() {
    // With the search active, only matching definitions are eligible.
    let inv = vec![
        entry("alpha", false),
        entry("beta", false),
        entry("alpine", true),
        entry("gamma", false),
    ];
    let filtered = filter_by_search(inv, true, "al");
    let ids: Vec<String> = filtered.iter().map(|it| it.definition.id.clone()).collect();
    assert_eq!(ids, vec!["alpha".to_string(), "alpine".to_string()]);

    let targets = eligible_items(filtered, false);
    assert_eq!(queue_ids(&targets), vec!["alpha".to_string()]);
}

#[test]
fn search_filter_disabled_keeps_everything() {
    let inv = vec![entry("alpha", false), entry("beta", true)];
    let filtered = filter_by_search(inv, false, "zzz");
    assert_eq!(filtered.len(), 2);
}

#[test]
fn control_bar_gating_predicates() {
    let empty: Vec<InventoryItem> = vec![];
    assert!(all_mounted(&empty));
    assert!(all_unmounted(&empty));

    let mixed = vec![entry("a", false), entry("b", true)];
    assert!(!all_mounted(&mixed));
    assert!(!all_unmounted(&mixed));

    let mounted = vec![entry("a", true), entry("b", true)];
    assert!(all_mounted(&mounted));
    assert!(!all_unmounted(&mounted));

    let unmounted = vec![entry("a", false)];
    assert!(!all_mounted(&unmounted));
    assert!(all_unmounted(&unmounted));
}

#[test]
fn mount_all_with_empty_inventory_is_a_no_op() {
    let mut orch = Orchestrator::new();
    let act = orch.request_mount_all(vec![]);
    assert!(matches!(act, Action::Nothing));
    let act = orch.request_unmount_all(vec![]);
    assert!(matches!(act, Action::Nothing));
}

#[test]
fn search_filter_with_empty_text_keeps_everything() {
    let inv = vec![entry("alpha", false), entry("beta", true)];
    let filtered = filter_by_search(inv, true, "");
    assert_eq!(filtered.len(), 2);
}
