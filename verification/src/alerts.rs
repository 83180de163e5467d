//! Failure alerts: the modal dialog request a failed mount or unmount
//! produces, with its title, its composed body, and the payloads of the two
//! auxiliary clipboard buttons ("copy command", "copy error").

use vstd::prelude::*;
use vstd::string::StringExecFns;

use crate::model::Definition;
use crate::model::mount_command_strings;
use crate::model::umount_command_strings;
use crate::strings::mount_failed_alert_message;
use crate::strings::mount_failed_alert_message_text;
use crate::strings::mount_failed_alert_title;
use crate::strings::mount_failed_alert_title_text;
use crate::strings::unmount_failed_alert_message;
use crate::strings::unmount_failed_alert_message_text;
use crate::strings::unmount_failed_alert_title;
use crate::strings::unmount_failed_alert_title_text;
use crate::text::join_with;
use crate::text::opt_text;

verus! {

/// A request to show a modal alert: a title, a body, and the payloads of
/// the auxiliary clipboard buttons. `copy_command` is the rendered command
/// line that was attempted, when it could be obtained; `copy_error` is the
/// debug rendering of the error.
pub struct AlertRequest {
    pub title: String,
    pub message: String,
    pub copy_command: Option<String>,
    pub copy_error: String,
}

/// `a` is exactly the alert for a failed mount of `id`: its title names the
/// operation and the identifier, its body is composed from the attempted
/// command (the one the alert itself offers to copy), the human-readable
/// error and the debug rendering, and the copy-error payload is the debug
/// rendering itself.
pub open spec fn is_mount_failure_alert(
    a: AlertRequest,
    id: Seq<char>,
    error_human: Seq<char>,
    error_debug: Seq<char>,
) -> bool {
    &&& a.title@ == mount_failed_alert_title_text(id)
    &&& a.message@ == mount_failed_alert_message_text(
        opt_text(a.copy_command),
        error_human,
        error_debug,
    )
    &&& a.copy_error@ == error_debug
}

/// `a` is exactly the alert for a failed unmount of `id`.
pub open spec fn is_unmount_failure_alert(
    a: AlertRequest,
    id: Seq<char>,
    error_human: Seq<char>,
    error_debug: Seq<char>,
) -> bool {
    &&& a.title@ == unmount_failed_alert_title_text(id)
    &&& a.message@ == unmount_failed_alert_message_text(
        opt_text(a.copy_command),
        error_human,
        error_debug,
    )
    &&& a.copy_error@ == error_debug
}

/// Renders the command line a mount of `d` runs, when it can be built:
/// the individual commands joined by `" && "`.
fn mount_command_line(d: &Definition) -> (r: Option<String>) {
    match mount_command_strings(&d.raw) {
        Option::Some(parts) => Option::Some(join_with(&parts, " && ")),
        Option::None => Option::None,
    }
}

/// Renders the command line an unmount of `d` runs, when it can be built.
fn umount_command_line(d: &Definition) -> (r: Option<String>) {
    match umount_command_strings(&d.raw) {
        Option::Some(parts) => Option::Some(join_with(&parts, " && ")),
        Option::None => Option::None,
    }
}

/// Builds the alert for a failed mount of `d`: the title names `d`'s
/// identifier; the body holds the capitalized human-readable error, the
/// attempted mount command line (when it could be obtained), and the debug
/// rendering of the error; the clipboard payloads carry the command line
/// and the debug rendering.
pub fn mount_failure_alert(d: &Definition, error_human: &str, error_debug: &str) -> (r:
    AlertRequest)
    ensures
        is_mount_failure_alert(r, d.id@, error_human@, error_debug@),
{
    let command = mount_command_line(d);
    let title = mount_failed_alert_title(d.id.as_str());
    let message = mount_failed_alert_message(&command, error_human, error_debug);
    let copy_error = String::from_str(error_debug);
    AlertRequest { title, message, copy_command: command, copy_error }
}

/// Builds the alert for a failed unmount of `d`, symmetric to the mount
/// failure alert.
pub fn unmount_failure_alert(d: &Definition, error_human: &str, error_debug: &str) -> (r:
    AlertRequest)
    ensures
        is_unmount_failure_alert(r, d.id@, error_human@, error_debug@),
{
    let command = umount_command_line(d);
    let title = unmount_failed_alert_title(d.id.as_str());
    let message = unmount_failed_alert_message(&command, error_human, error_debug);
    let copy_error = String::from_str(error_debug);
    AlertRequest { title, message, copy_command: command, copy_error }
}

} // verus!
