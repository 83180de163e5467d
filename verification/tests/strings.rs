use sftpman_ui::record::clone_record_id;
use sftpman_ui::record::needs_id_uniqueness_check;
use sftpman_ui::record::post_process_mount_options;
use sftpman_ui::record::trim_option_text;
use sftpman_ui::search::str_contains;
use sftpman_ui::strings;
use sftpman_ui::text::capitalize_first;
use sftpman_ui::text::join_with;

#[test]
fn catalog_labels_are_exact() {
    assert_eq!(strings::control_bar_mount_all_label(), "Mount all");
    assert_eq!(strings::control_bar_unmount_all_label(), "Unmount all");
    assert_eq!(strings::control_bar_new_label(), "New");
    assert_eq!(strings::record_save_label(), "Save");
    assert_eq!(strings::alert_close_button_label(), "Close");
    assert_eq!(strings::mount_unmount_failed_button_copy_command_label(), "Copy command");
    assert_eq!(strings::mount_unmount_failed_button_copy_error_label(), "Copy error");
    assert_eq!(strings::field_control_label_required_label(), "*");
}

#[test]
fn parameterized_messages_are_exact() {
    assert_eq!(strings::mount_failed_alert_title("data"), "Failed to mount data");
    assert_eq!(strings::unmount_failed_alert_title("data"), "Failed to unmount data");
    assert_eq!(strings::remove_failed_alert_title("data"), "Failed to remove data");
    assert_eq!(strings::open_failed_alert_title("data"), "Failed to open data");
    assert_eq!(
        strings::remove_confirmation_message("data"),
        "Are you sure you want to remove data?"
    );
    assert_eq!(
        strings::save_failed_id_uniqueness_check_failed_message("data"),
        "A filesystem definition with the ID data already exists."
    );
    assert_eq!(strings::about_donate_on_platform_button("Liberapay"), "Donate on Liberapay");
    assert_eq!(strings::operation_failed_alert_message("broken"), "broken");
    assert_eq!(
        strings::filesystem_definition_name_mounting_label("data"),
        "data (mounting...)"
    );
    assert_eq!(
        strings::filesystem_definition_name_unmounting_label("data"),
        "data (unmounting...)"
    );
}

#[test]
fn mount_dest_path_placeholder_handles_an_empty_id() {
    assert_eq!(strings::record_mount_dest_path_placeholder(""), "/mnt/sshfs/<ID>");
    assert_eq!(strings::record_mount_dest_path_placeholder("data"), "/mnt/sshfs/data");
}

#[test]
fn mount_failed_message_with_command_is_exact() {
    let command = Some("\"sshfs\" \"user@[host]:/srv\" \"/mnt/sshfs/data\"".to_string());
    let message = strings::mount_failed_alert_message(&command, "something broke", "Err { code: 1 }");
    assert_eq!(
        message,
        "Something broke\n\nMount command:\n    \"sshfs\" \"user@[host]:/srv\" \"/mnt/sshfs/data\"\n\nError details:\n    Err { code: 1 }"
    );
}

#[test]
fn mount_failed_message_without_command_omits_the_section() {
    let message = strings::mount_failed_alert_message(&None, "something broke", "Err");
    assert_eq!(message, "Something broke\n\nError details:\n    Err");
}

#[test]
fn unmount_failed_message_uses_its_own_label() {
    let command = Some("\"fusermount3\" \"-u\" \"/mnt/sshfs/data\"".to_string());
    let message = strings::unmount_failed_alert_message(&command, "busy", "Busy");
    assert_eq!(
        message,
        "Busy\n\nUnmount command:\n    \"fusermount3\" \"-u\" \"/mnt/sshfs/data\"\n\nError details:\n    Busy"
    );
}

#[test]
fn capitalize_first_handles_edge_cases() {
    assert_eq!(capitalize_first(""), "");
    assert_eq!(capitalize_first("a"), "A");
    assert_eq!(capitalize_first("zeta works"), "Zeta works");
    assert_eq!(capitalize_first("Already"), "Already");
    assert_eq!(capitalize_first("1abc"), "1abc");
}

#[test]
fn join_with_separates_parts() {
    let parts: Vec<String> = vec![];
    assert_eq!(join_with(&parts, " && "), "");
    let parts = vec!["one".to_string()];
    assert_eq!(join_with(&parts, " && "), "one");
    let parts = vec!["one".to_string(), "two".to_string(), "three".to_string()];
    assert_eq!(join_with(&parts, " && "), "one && two && three");
}

#[test]
fn str_contains_matches_substrings() {
    assert!(str_contains("alpha", ""));
    assert!(str_contains("alpha", "alpha"));
    assert!(str_contains("alpha", "lph"));
    assert!(str_contains("alpha", "a"));
    assert!(!str_contains("alpha", "beta"));
    assert!(!str_contains("", "a"));
    assert!(str_contains("", ""));
}

#[test]
fn trim_option_text_strips_spaces_and_commas() {
    assert_eq!(trim_option_text(" follow_symlinks, "), "follow_symlinks");
    assert_eq!(trim_option_text(",,  ,"), "");
    assert_eq!(trim_option_text("workaround=rename"), "workaround=rename");
    assert_eq!(trim_option_text("  a b  "), "a b");
}

#[test]
fn post_process_mount_options_drops_empty_entries() {
    let options = vec![
        " follow_symlinks, ".to_string(),
        "".to_string(),
        " , ".to_string(),
        "workaround=rename".to_string(),
    ];
    let cleaned = post_process_mount_options(options);
    assert_eq!(
        cleaned,
        vec!["follow_symlinks".to_string(), "workaround=rename".to_string()]
    );
}

#[test]
fn id_uniqueness_is_checked_for_new_and_renamed_definitions() {
    let a = "a".to_string();
    let b = "b".to_string();
    assert!(needs_id_uniqueness_check(false, &a, &a));
    assert!(needs_id_uniqueness_check(true, &a, &b));
    assert!(!needs_id_uniqueness_check(true, &a, &a));
}

#[test]
fn cloned_definitions_get_a_suffixed_id() {
    assert_eq!(clone_record_id("data"), "data-clone");
}
