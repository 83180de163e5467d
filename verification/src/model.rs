//! The data the orchestrator works on: a mount definition (its identifier,
//! together with the manager library's own record of it) and one inventory
//! entry (a definition plus its current mounted state).

use vstd::prelude::*;

verus! {

#[verifier::external_type_specification]
#[verifier::external_body]
pub struct ExFilesystemMountDefinition(libsftpman::FilesystemMountDefinition);

/// One filesystem mount definition, as the orchestrator sees it: an opaque
/// record of the manager library, identified by its unique `id`. The
/// orchestrator itself only ever reads the identifier; the raw record is
/// carried along so that the manager library can act on it.
pub struct Definition {
    /// The unique identifier of the definition (`raw.id`).
    pub id: String,
    /// The manager library's record of the definition.
    pub raw: libsftpman::FilesystemMountDefinition,
}

/// One entry of the mount inventory: a definition and whether its
/// filesystem is currently mounted.
pub struct InventoryItem {
    pub definition: Definition,
    pub mounted: bool,
}

/// Whether every entry of the inventory is mounted (an empty inventory
/// counts as all mounted); gates the "mount all" control.
pub fn all_mounted(inventory: &Vec<InventoryItem>) -> (r: bool)
    ensures
        r == (forall|i: int| 0 <= i < inventory@.len() ==> inventory@[i].mounted),
{
    let mut i: usize = 0;
    while i < inventory.len()
        invariant
            0 <= i <= inventory@.len(),
            forall|j: int| 0 <= j < i ==> inventory@[j].mounted,
        decreases inventory@.len() - i,
    {
        if !inventory[i].mounted {
            return false;
        }
        i = i + 1;
    }
    true
}

/// Whether no entry of the inventory is mounted (an empty inventory counts
/// as all unmounted); gates the "unmount all" control.
pub fn all_unmounted(inventory: &Vec<InventoryItem>) -> (r: bool)
    ensures
        r == (forall|i: int| 0 <= i < inventory@.len() ==> !inventory@[i].mounted),
{
    let mut i: usize = 0;
    while i < inventory.len()
        invariant
            0 <= i <= inventory@.len(),
            forall|j: int| 0 <= j < i ==> !inventory@[j].mounted,
        decreases inventory@.len() - i,
    {
        if inventory[i].mounted {
            return false;
        }
        i = i + 1;
    }
    true
}

/// The commands that would be run to mount the definition, each rendered as
/// text, or `None` where the command list could not be built.
///
/// Relies on `FilesystemMountDefinition::mount_commands`: it returns the
/// list of commands that mounting would run, or an error for a malformed
/// before-mount command; each command is rendered here with its standard
/// debug formatting, as the failure alert shows it.
#[verifier::external_body]
pub(crate) fn mount_command_strings(d: &libsftpman::FilesystemMountDefinition) -> (r: Option<
    Vec<String>,
>) {
    match d.mount_commands() {
        Ok(commands) => Some(commands.iter().map(|cmd| format!("{:?}", cmd)).collect()),
        Err(_) => None,
    }
}

/// The commands that would be run to unmount the definition, each rendered
/// as text, or `None` where the command list could not be built.
///
/// Relies on `FilesystemMountDefinition::umount_commands`: it returns the
/// list of commands that unmounting would run (which one depends on the
/// fusermount flavour available on the machine); each command is rendered
/// here with its standard debug formatting, as the failure alert shows it.
#[verifier::external_body]
pub(crate) fn umount_command_strings(d: &libsftpman::FilesystemMountDefinition) -> (r: Option<
    Vec<String>,
>) {
    match d.umount_commands() {
        Ok(commands) => Some(commands.iter().map(|cmd| format!("{:?}", cmd)).collect()),
        Err(_) => None,
    }
}

} // verus!
