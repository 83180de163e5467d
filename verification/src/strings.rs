//! The user-facing string catalog: every label, tooltip, placeholder and
//! message the front-end shows, with the failure-alert messages composed
//! from their parts. Each function's contract pins the exact text.

use vstd::prelude::*;
use vstd::string::StrSliceExecFns;
use vstd::string::StringExecFns;

use crate::text::capitalize_first;
use crate::text::capitalized;

verus! {

/// One indented detail block of a failure alert: a blank line, a label line,
/// and the value indented beneath it.
pub open spec fn detail_section_text(label: Seq<char>, value: Seq<char>) -> Seq<char> {
    "\n\n"@ + label + "\n    "@ + value
}

/// The body of a mount/unmount failure alert: the capitalized human-readable
/// error, the attempted command (when one could be obtained) under the given
/// label, and the debug rendering of the error under its own label.
pub open spec fn failure_message_text(
    command_label: Seq<char>,
    command: Option<Seq<char>>,
    error_human: Seq<char>,
    error_debug: Seq<char>,
) -> Seq<char> {
    capitalized(error_human) + (match command {
        Option::Some(c) => detail_section_text(command_label, c),
        Option::None => Seq::<char>::empty(),
    }) + detail_section_text("Error details:"@, error_debug)
}

/// The body of a mount failure alert.
pub open spec fn mount_failed_alert_message_text(
    command: Option<Seq<char>>,
    error_human: Seq<char>,
    error_debug: Seq<char>,
) -> Seq<char> {
    failure_message_text("Mount command:"@, command, error_human, error_debug)
}

/// The body of an unmount failure alert.
pub open spec fn unmount_failed_alert_message_text(
    command: Option<Seq<char>>,
    error_human: Seq<char>,
    error_debug: Seq<char>,
) -> Seq<char> {
    failure_message_text("Unmount command:"@, command, error_human, error_debug)
}

/// Appends one detail block (blank line, label line, indented value).
fn append_detail_section(out: &mut String, label: &str, value: &str)
    ensures
        final(out)@ == old(out)@ + detail_section_text(label@, value@),
{
    out.append("\n\n");
    out.append(label);
    out.append("\n    ");
    out.append(value);
    proof {
        assert(out@ =~= old(out)@ + detail_section_text(label@, value@));
    }
}

/// Builds a failure-alert body from its parts.
fn failure_message(
    command_label: &str,
    command: &Option<String>,
    error_human: &str,
    error_debug: &str,
) -> (r: String)
    ensures
        r@ == failure_message_text(
            command_label@,
            match *command {
                Option::Some(ref c) => Option::Some(c@),
                Option::None => Option::None,
            },
            error_human@,
            error_debug@,
        ),
{
    let mut r = capitalize_first(error_human);
    match command {
        Option::Some(c) => {
            append_detail_section(&mut r, command_label, c.as_str());
        },
        Option::None => {
        },
    }
    append_detail_section(&mut r, "Error details:", error_debug);
    proof {
        assert(r@ =~= failure_message_text(
            command_label@,
            match *command {
                Option::Some(ref c) => Option::Some(c@),
                Option::None => Option::None,
            },
            error_human@,
            error_debug@,
        ));
    }
    r
}

/// The body of the alert shown when mounting a filesystem failed.
pub fn mount_failed_alert_message(
    mount_command: &Option<String>,
    error_human: &str,
    error_debug: &str,
) -> (r: String)
    ensures
        r@ == mount_failed_alert_message_text(
            match *mount_command {
                Option::Some(ref c) => Option::Some(c@),
                Option::None => Option::None,
            },
            error_human@,
            error_debug@,
        ),
{
    failure_message("Mount command:", mount_command, error_human, error_debug)
}

/// The body of the alert shown when unmounting a filesystem failed.
pub fn unmount_failed_alert_message(
    unmount_command: &Option<String>,
    error_human: &str,
    error_debug: &str,
) -> (r: String)
    ensures
        r@ == unmount_failed_alert_message_text(
            match *unmount_command {
                Option::Some(ref c) => Option::Some(c@),
                Option::None => Option::None,
            },
            error_human@,
            error_debug@,
        ),
{
    failure_message("Unmount command:", unmount_command, error_human, error_debug)
}

/// The title of the alert shown when mounting `id` failed.
pub open spec fn mount_failed_alert_title_text(id: Seq<char>) -> Seq<char> {
    "Failed to mount "@ + id
}

/// The title of the alert shown when mounting `id` failed.
pub fn mount_failed_alert_title(id: &str) -> (r: String)
    ensures
        r@ == mount_failed_alert_title_text(id@),
{
    let mut r = String::from_str("Failed to mount ");
    r.append(id);
    r
}

/// The title of the alert shown when unmounting `id` failed.
pub open spec fn unmount_failed_alert_title_text(id: Seq<char>) -> Seq<char> {
    "Failed to unmount "@ + id
}

/// The title of the alert shown when unmounting `id` failed.
pub fn unmount_failed_alert_title(id: &str) -> (r: String)
    ensures
        r@ == unmount_failed_alert_title_text(id@),
{
    let mut r = String::from_str("Failed to unmount ");
    r.append(id);
    r
}

/// `"New"` — the control-bar button that creates a new definition.
pub fn control_bar_new_label() -> (r: String)
    ensures
        r@ == "New"@,
{
    String::from_str("New")
}

/// `"Create a new filesystem definition"` — the tooltip of the new button.
pub fn control_bar_new_tooltip() -> (r: String)
    ensures
        r@ == "Create a new filesystem definition"@,
{
    String::from_str("Create a new filesystem definition")
}

/// `"Mount all"` — the control-bar button that mounts every unmounted filesystem.
pub fn control_bar_mount_all_label() -> (r: String)
    ensures
        r@ == "Mount all"@,
{
    String::from_str("Mount all")
}

/// `"Mount all unmounted filesystems"` — the tooltip of the mount-all button.
pub fn control_bar_mount_all_tooltip() -> (r: String)
    ensures
        r@ == "Mount all unmounted filesystems"@,
{
    String::from_str("Mount all unmounted filesystems")
}

/// `"Unmount all"` — the control-bar button that unmounts every mounted filesystem.
pub fn control_bar_unmount_all_label() -> (r: String)
    ensures
        r@ == "Unmount all"@,
{
    String::from_str("Unmount all")
}

/// `"Unmount all mounted filesystems"` — the tooltip of the unmount-all button.
pub fn control_bar_unmount_all_tooltip() -> (r: String)
    ensures
        r@ == "Unmount all mounted filesystems"@,
{
    String::from_str("Unmount all mounted filesystems")
}

/// `"Search"` — the control-bar button that toggles the search bar.
pub fn control_bar_search_label() -> (r: String)
    ensures
        r@ == "Search"@,
{
    String::from_str("Search")
}

/// `"Filter the list of filesystems"` — the tooltip of the search button.
pub fn control_bar_search_tooltip() -> (r: String)
    ensures
        r@ == "Filter the list of filesystems"@,
{
    String::from_str("Filter the list of filesystems")
}

/// `"Filter by id"` — the placeholder of the search input.
pub fn search_input_placeholder() -> (r: String)
    ensures
        r@ == "Filter by id"@,
{
    String::from_str("Filter by id")
}

/// `"About"` — the control-bar button that opens the about dialog.
pub fn control_bar_about_label() -> (r: String)
    ensures
        r@ == "About"@,
{
    String::from_str("About")
}

/// `"Open"` — the per-row button that opens a mounted filesystem.
pub fn fs_list_open_label() -> (r: String)
    ensures
        r@ == "Open"@,
{
    String::from_str("Open")
}

/// `"Options"` — the per-row button that expands the options menu.
pub fn fs_list_options_label() -> (r: String)
    ensures
        r@ == "Options"@,
{
    String::from_str("Options")
}

/// `"No filesystem definitions found"` — shown in place of an empty list.
pub fn fs_list_empty_list_label() -> (r: String)
    ensures
        r@ == "No filesystem definitions found"@,
{
    String::from_str("No filesystem definitions found")
}

/// `"This filesystem is mounted. Saving will remount it."` — the warning on the record page for a mounted filesystem.
pub fn record_mounted_will_be_remounted_warning_label() -> (r: String)
    ensures
        r@ == "This filesystem is mounted. Saving will remount it."@,
{
    String::from_str("This filesystem is mounted. Saving will remount it.")
}

/// `"ID"` — the label of the identifier field.
pub fn record_id_label() -> (r: String)
    ensures
        r@ == "ID"@,
{
    String::from_str("ID")
}

/// `"my-server"` — the placeholder of the identifier field.
pub fn record_id_placeholder() -> (r: String)
    ensures
        r@ == "my-server"@,
{
    String::from_str("my-server")
}

/// `"Host"` — the label of the host field.
pub fn record_host_label() -> (r: String)
    ensures
        r@ == "Host"@,
{
    String::from_str("Host")
}

/// `"server.example.com"` — the placeholder of the host field.
pub fn record_host_placeholder() -> (r: String)
    ensures
        r@ == "server.example.com"@,
{
    String::from_str("server.example.com")
}

/// `"Port"` — the label of the port field.
pub fn record_port_label() -> (r: String)
    ensures
        r@ == "Port"@,
{
    String::from_str("Port")
}

/// `"User"` — the label of the user field.
pub fn record_username_label() -> (r: String)
    ensures
        r@ == "User"@,
{
    String::from_str("User")
}

/// `"user"` — the placeholder of the user field.
pub fn record_username_placeholder() -> (r: String)
    ensures
        r@ == "user"@,
{
    String::from_str("user")
}

/// `"SSH key"` — the label of the SSH key field.
pub fn record_ssh_key_label() -> (r: String)
    ensures
        r@ == "SSH key"@,
{
    String::from_str("SSH key")
}

/// `"e.g. /home/user/.ssh/id_ed25519"` — the placeholder of the SSH key field.
pub fn record_ssh_key_placeholder() -> (r: String)
    ensures
        r@ == "e.g. /home/user/.ssh/id_ed25519"@,
{
    String::from_str("e.g. /home/user/.ssh/id_ed25519")
}

/// `"Authentication type"` — the label of the authentication type field.
pub fn record_auth_type_label() -> (r: String)
    ensures
        r@ == "Authentication type"@,
{
    String::from_str("Authentication type")
}

/// `"Remote path"` — the label of the remote path field.
pub fn record_remote_path_label() -> (r: String)
    ensures
        r@ == "Remote path"@,
{
    String::from_str("Remote path")
}

/// `"e.g. /home/user/remote-dir"` — the placeholder of the remote path field.
pub fn record_remote_path_placeholder() -> (r: String)
    ensures
        r@ == "e.g. /home/user/remote-dir"@,
{
    String::from_str("e.g. /home/user/remote-dir")
}

/// `"Local mount path"` — the label of the local mount path field.
pub fn record_mount_dest_path_label() -> (r: String)
    ensures
        r@ == "Local mount path"@,
{
    String::from_str("Local mount path")
}

/// `"sshfs options"` — the label of the sshfs options field.
pub fn record_sshfs_options_label() -> (r: String)
    ensures
        r@ == "sshfs options"@,
{
    String::from_str("sshfs options")
}

/// `"e.g. follow_symlinks, workaround=rename"` — the placeholder of the sshfs options field.
pub fn record_sshfs_options_placeholder() -> (r: String)
    ensures
        r@ == "e.g. follow_symlinks, workaround=rename"@,
{
    String::from_str("e.g. follow_symlinks, workaround=rename")
}

/// `"See the sshfs options documentation"` — the help link under the sshfs options field.
pub fn record_sshfs_options_help_text() -> (r: String)
    ensures
        r@ == "See the sshfs options documentation"@,
{
    String::from_str("See the sshfs options documentation")
}

/// `"Command before mount"` — the label of the before-mount command field.
pub fn record_command_before_mount_label() -> (r: String)
    ensures
        r@ == "Command before mount"@,
{
    String::from_str("Command before mount")
}

/// `"e.g. /bin/true"` — the placeholder of the before-mount command field.
pub fn record_command_before_mount_placeholder() -> (r: String)
    ensures
        r@ == "e.g. /bin/true"@,
{
    String::from_str("e.g. /bin/true")
}

/// `"Save"` — the record page's save button.
pub fn record_save_label() -> (r: String)
    ensures
        r@ == "Save"@,
{
    String::from_str("Save")
}

/// `"Cancel"` — the record page's cancel button.
pub fn record_cancel_label() -> (r: String)
    ensures
        r@ == "Cancel"@,
{
    String::from_str("Cancel")
}

/// `"Browse"` — the button that opens a file picker.
pub fn browse_label() -> (r: String)
    ensures
        r@ == "Browse"@,
{
    String::from_str("Browse")
}

/// `"Validation failed"` — the title of the alert for a definition that failed validation.
pub fn save_failed_alert_validation_failed_title() -> (r: String)
    ensures
        r@ == "Validation failed"@,
{
    String::from_str("Validation failed")
}

/// `"Saving failed"` — the title of the alert for a definition that could not be persisted.
pub fn save_failed_alert_persistence_failed_title() -> (r: String)
    ensures
        r@ == "Saving failed"@,
{
    String::from_str("Saving failed")
}

/// `"ID check failed"` — the title of the alert for a rejected identifier.
pub fn save_failed_id_check_failed_title() -> (r: String)
    ensures
        r@ == "ID check failed"@,
{
    String::from_str("ID check failed")
}

/// `"Operation failed"` — the title of the alert for a failed auxiliary operation.
pub fn operation_failed_alert_title() -> (r: String)
    ensures
        r@ == "Operation failed"@,
{
    String::from_str("Operation failed")
}

/// `"Edit"` — the options-menu button that edits a definition.
pub fn edit_button_label() -> (r: String)
    ensures
        r@ == "Edit"@,
{
    String::from_str("Edit")
}

/// `"Clone"` — the options-menu button that clones a definition.
pub fn clone_button_label() -> (r: String)
    ensures
        r@ == "Clone"@,
{
    String::from_str("Clone")
}

/// `"Remove"` — the options-menu button that removes a definition.
pub fn remove_button_label() -> (r: String)
    ensures
        r@ == "Remove"@,
{
    String::from_str("Remove")
}

/// `"Remove filesystem definition?"` — the title of the removal confirmation dialog.
pub fn remove_confirmation_title() -> (r: String)
    ensures
        r@ == "Remove filesystem definition?"@,
{
    String::from_str("Remove filesystem definition?")
}

/// `"Remove"` — the confirming button of the removal dialog.
pub fn remove_confirmation_confirmation_button_label() -> (r: String)
    ensures
        r@ == "Remove"@,
{
    String::from_str("Remove")
}

/// `"Cancel"` — the cancelling button of the removal dialog.
pub fn remove_confirmation_cancellation_button_label() -> (r: String)
    ensures
        r@ == "Cancel"@,
{
    String::from_str("Cancel")
}

/// `"Copy command"` — the alert button that copies the attempted command.
pub fn mount_unmount_failed_button_copy_command_label() -> (r: String)
    ensures
        r@ == "Copy command"@,
{
    String::from_str("Copy command")
}

/// `"Copy error"` — the alert button that copies the debug error.
pub fn mount_unmount_failed_button_copy_error_label() -> (r: String)
    ensures
        r@ == "Copy error"@,
{
    String::from_str("Copy error")
}

/// `"Program"` — the about dialog's program row.
pub fn about_program_label() -> (r: String)
    ensures
        r@ == "Program"@,
{
    String::from_str("Program")
}

/// `"Powered by"` — the about dialog's library attribution row.
pub fn about_program_powered_by_label() -> (r: String)
    ensures
        r@ == "Powered by"@,
{
    String::from_str("Powered by")
}

/// `"Description"` — the about dialog's description row.
pub fn about_description_label() -> (r: String)
    ensures
        r@ == "Description"@,
{
    String::from_str("Description")
}

/// `"A graphical front-end for managing and mounting sshfs (SFTP) filesystems."` — the about dialog's description text.
pub fn about_description_message() -> (r: String)
    ensures
        r@ == "A graphical front-end for managing and mounting sshfs (SFTP) filesystems."@,
{
    String::from_str("A graphical front-end for managing and mounting sshfs (SFTP) filesystems.")
}

/// `"Author"` — the about dialog's author row.
pub fn about_author_label() -> (r: String)
    ensures
        r@ == "Author"@,
{
    String::from_str("Author")
}

/// `"If you find this program useful, consider supporting its development."` — the about dialog's donation text.
pub fn about_donate_message() -> (r: String)
    ensures
        r@ == "If you find this program useful, consider supporting its development."@,
{
    String::from_str("If you find this program useful, consider supporting its development.")
}

/// `"License"` — the about dialog's license row.
pub fn about_license_label() -> (r: String)
    ensures
        r@ == "License"@,
{
    String::from_str("License")
}

/// `"Close"` — the about dialog's close button.
pub fn about_button_close_label() -> (r: String)
    ensures
        r@ == "Close"@,
{
    String::from_str("Close")
}

/// `"Close"` — the default close button of an alert.
pub fn alert_close_button_label() -> (r: String)
    ensures
        r@ == "Close"@,
{
    String::from_str("Close")
}

/// `"OK"` — the default confirming button of a confirmation dialog.
pub fn confirmation_confirmation_button_label() -> (r: String)
    ensures
        r@ == "OK"@,
{
    String::from_str("OK")
}

/// `"Cancel"` — the default cancelling button of a confirmation dialog.
pub fn confirmation_cancellation_button_label() -> (r: String)
    ensures
        r@ == "Cancel"@,
{
    String::from_str("Cancel")
}

/// `"*"` — the marker beside a required field.
pub fn field_control_label_required_label() -> (r: String)
    ensures
        r@ == "*"@,
{
    String::from_str("*")
}

/// `"This field is required"` — the tooltip of the required-field marker.
pub fn field_control_label_required_tooltip() -> (r: String)
    ensures
        r@ == "This field is required"@,
{
    String::from_str("This field is required")
}

/// `"Retry"` — the button that retries a failed operation.
pub fn button_retry() -> (r: String)
    ensures
        r@ == "Retry"@,
{
    String::from_str("Retry")
}

/// The body of the alert for a definition that failed validation: the rendered list of validation errors.
pub fn save_failed_alert_validation_failed_message(errors: &str) -> (r: String)
    ensures
        r@ == errors@,
{
    String::from_str(errors)
}

/// The body of the alert for a definition that could not be persisted.
pub fn save_failed_alert_persistence_failed_message(error: &str) -> (r: String)
    ensures
        r@ == error@,
{
    String::from_str(error)
}

/// The body of the alert for a failed auxiliary operation.
pub fn operation_failed_alert_message(error: &str) -> (r: String)
    ensures
        r@ == error@,
{
    String::from_str(error)
}

/// The body of the alert for a failed removal.
pub fn remove_failed_alert_message(error: &str) -> (r: String)
    ensures
        r@ == error@,
{
    String::from_str(error)
}

/// The body of the alert for a failed open.
pub fn open_failed_alert_message(error: &str) -> (r: String)
    ensures
        r@ == error@,
{
    String::from_str(error)
}

/// The title of the alert for a failed removal of `id`.
pub fn remove_failed_alert_title(id: &str) -> (r: String)
    ensures
        r@ == "Failed to remove "@ + id@,
{
    let mut r = String::from_str("Failed to remove ");
    r.append(id);
    r
}

/// The title of the alert for a failed open of `id`.
pub fn open_failed_alert_title(id: &str) -> (r: String)
    ensures
        r@ == "Failed to open "@ + id@,
{
    let mut r = String::from_str("Failed to open ");
    r.append(id);
    r
}

/// The about dialog's donation button for one platform.
pub fn about_donate_on_platform_button(platform: &str) -> (r: String)
    ensures
        r@ == "Donate on "@ + platform@,
{
    let mut r = String::from_str("Donate on ");
    r.append(platform);
    r
}

/// The body of the removal confirmation dialog.
pub fn remove_confirmation_message(id: &str) -> (r: String)
    ensures
        r@ == "Are you sure you want to remove "@ + id@ + "?"@,
{
    let mut r = String::from_str("Are you sure you want to remove ");
    r.append(id);
    r.append("?");
    r
}

/// The body of the alert for a duplicate identifier.
pub fn save_failed_id_uniqueness_check_failed_message(id: &str) -> (r: String)
    ensures
        r@ == "A filesystem definition with the ID "@ + id@ + " already exists."@,
{
    let mut r = String::from_str("A filesystem definition with the ID ");
    r.append(id);
    r.append(" already exists.");
    r
}

/// A list row's name while its filesystem is being mounted.
pub fn filesystem_definition_name_mounting_label(name: &str) -> (r: String)
    ensures
        r@ == name@ + " (mounting...)"@,
{
    let mut r = String::from_str(name);
    r.append(" (mounting...)");
    r
}

/// A list row's name while its filesystem is being unmounted.
pub fn filesystem_definition_name_unmounting_label(name: &str) -> (r: String)
    ensures
        r@ == name@ + " (unmounting...)"@,
{
    let mut r = String::from_str(name);
    r.append(" (unmounting...)");
    r
}

/// The placeholder of the local mount path field: the default mount
/// location for the definition's identifier, or for a stand-in marker while
/// the identifier is still empty.
pub fn record_mount_dest_path_placeholder(id: &str) -> (r: String)
    ensures
        r@ == "/mnt/sshfs/"@ + (if id@.len() == 0 {
            "<ID>"@
        } else {
            id@
        }),
{
    let mut r = String::from_str("/mnt/sshfs/");
    if id.unicode_len() == 0 {
        r.append("<ID>");
    } else {
        r.append(id);
    }
    r
}

} // verus!
