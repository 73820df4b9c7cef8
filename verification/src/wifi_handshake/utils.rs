//! Readings of what the service manager and the supplicant answer, and of
//! which files a provisioned device holds.

use crate::system::{Failure, Reply};
use crate::text::{chars_of, equals_str, trim, trimmed};
use vstd::prelude::*;

verus! {

/// Which of the files that provisioning writes are there.
#[derive(Debug, Clone, Copy, PartialEq, Eq, Structural)]
pub struct InstalledFiles {
    /// The settings of the daemon.
    pub config: bool,
    /// The unit that runs the daemon for the interface.
    pub autoap_service: bool,
    /// The unit that resets the daemon's state at boot.
    pub restore_service: bool,
    /// The configuration of the supplicant for the interface.
    pub supplicant_config: bool,
    /// The network descriptor of the access point.
    pub ap_network: bool,
    /// The client network descriptor at its active path.
    pub client_network: bool,
    /// The client network descriptor at its backup path.
    pub client_network_backup: bool,
}

impl InstalledFiles {
    /// The device is provisioned: the five fixed files are there, and the
    /// client descriptor is at one of its two paths.
    pub open spec fn complete(self) -> bool {
        &&& self.config
        &&& self.autoap_service
        &&& self.restore_service
        &&& self.supplicant_config
        &&& self.ap_network
        &&& (self.client_network || self.client_network_backup)
    }
}

/// A service manager's answer to "is it active" says yes: the command
/// reported success and wrote `active`.
pub open spec fn says_active(success: bool, stdout: Seq<char>) -> bool {
    success && trimmed(stdout) == "active"@
}

/// What a reply to the question whether a service is active says. A reply
/// that is not the end of a command is no answer.
pub open spec fn service_state(reply: Reply) -> Result<bool, Failure> {
    match reply {
        Reply::Exit { success, stdout } => Ok(says_active(success, stdout@)),
        _ => Err(Failure::ServiceQueryFailed),
    }
}

/// Whether a reply to the question for the attached stations names one: the
/// command succeeded and wrote more than blanks. A command that failed names
/// none.
pub open spec fn stations_attached(reply: Reply) -> bool {
    match reply {
        Reply::Exit { success, stdout } => success && trimmed(stdout@).len() > 0,
        _ => false,
    }
}

/// Whether the device has been provisioned.
pub fn is_autoap_installed(files: &InstalledFiles) -> (r: bool)
    ensures
        r == files.complete(),
{
    if !(files.config && files.autoap_service && files.restore_service && files.supplicant_config
        && files.ap_network) {
        return false;
    }
    if !files.client_network && !files.client_network_backup {
        return false;
    }
    true
}

/// Whether the answer of the service manager says that the service is active.
fn is_active(reply: &Reply) -> (r: Result<bool, Failure>)
    ensures
        r == service_state(*reply),
{
    match reply {
        Reply::Exit { success, stdout } => {
            let text = chars_of(stdout.as_str());
            Ok(*success && equals_str(trim(text.as_slice()), "active"))
        },
        _ => Err(Failure::ServiceQueryFailed),
    }
}

/// Whether the service that configures the network is active, by the reply to
/// that question.
pub fn is_systemd_networkd_active(reply: &Reply) -> (r: Result<bool, Failure>)
    ensures
        r == service_state(*reply),
{
    is_active(reply)
}

/// Whether the service that resolves names is active, by the reply to that
/// question.
pub fn is_systemd_resolved_active(reply: &Reply) -> (r: Result<bool, Failure>)
    ensures
        r == service_state(*reply),
{
    is_active(reply)
}

/// Whether any station is attached to the access point, by the reply to that
/// question.
pub fn has_connected_stations(reply: &Reply) -> (r: bool)
    ensures
        r == stations_attached(*reply),
{
    match reply {
        Reply::Exit { success, stdout } => {
            let text = chars_of(stdout.as_str());
            *success && trim(text.as_slice()).len() > 0
        },
        _ => false,
    }
}

/// A change to the files of the device.
#[derive(Debug, Clone, PartialEq, Eq)]
pub enum FileOperation {
    Remove(String),
    Rename { from: String, to: String },
    Copy { from: String, to: String },
}

/// A change to the files as plain values.
pub enum FileOperationView {
    Remove(Seq<char>),
    Rename { from: Seq<char>, to: Seq<char> },
    Copy { from: Seq<char>, to: Seq<char> },
}

impl View for FileOperation {
    type V = FileOperationView;

    open spec fn view(&self) -> FileOperationView {
        match self {
            FileOperation::Remove(path) => FileOperationView::Remove(path@),
            FileOperation::Rename { from, to } => FileOperationView::Rename { from: from@, to: to@ },
            FileOperation::Copy { from, to } => FileOperationView::Copy { from: from@, to: to@ },
        }
    }
}

/// What each operation of a list is.
pub open spec fn operations(list: Seq<FileOperation>) -> Seq<FileOperationView> {
    Seq::new(list.len(), |i: int| list[i]@)
}

/// How a copy of `original` is kept. A file that is not there needs none.
/// The copy gets the name with `.bak` after it; a copy that is there already
/// is renamed with `.old` after its name, in place of an older one.
pub open spec fn backup_steps(
    original: Seq<char>,
    exists: bool,
    backup_exists: bool,
    old_exists: bool,
) -> Seq<FileOperationView> {
    let copy = original + ".bak"@;
    let older = copy + ".old"@;
    if !exists {
        Seq::empty()
    } else {
        (if backup_exists && old_exists {
            seq![FileOperationView::Remove(older)]
        } else {
            Seq::empty()
        }) + (if backup_exists {
            seq![FileOperationView::Rename { from: copy, to: older }]
        } else {
            Seq::empty()
        }) + seq![FileOperationView::Copy { from: original, to: copy }]
    }
}

/// How a copy of `original` is kept, by which of the file, its copy and the
/// older copy are there.
pub fn backup_file(original: &str, exists: bool, backup_exists: bool, old_exists: bool) -> (r: Vec<
    FileOperation,
>)
    ensures
        operations(r@) == backup_steps(original@, exists, backup_exists, old_exists),
{
    let mut out: Vec<FileOperation> = Vec::new();
    if !exists {
        assert(operations(out@) =~= backup_steps(original@, exists, backup_exists, old_exists));
        return out;
    }
    let mut copy = original.to_owned();
    vstd::string::StringExecFns::append(&mut copy, ".bak");
    if backup_exists {
        let mut older = copy.clone();
        vstd::string::StringExecFns::append(&mut older, ".old");
        if old_exists {
            out.push(FileOperation::Remove(older.clone()));
        }
        out.push(FileOperation::Rename { from: copy.clone(), to: older });
    }
    out.push(FileOperation::Copy { from: original.to_owned(), to: copy });
    assert(operations(out@) =~= backup_steps(original@, exists, backup_exists, old_exists));
    out
}

/// The arguments with which the control client of the supplicant is run
/// for `interface`.
pub fn wpa_cli_command(interface: &str, args: &[&str]) -> (r: Vec<String>)
    ensures
        r@.len() == args@.len() + 2,
        r@[0]@ == "-i"@,
        r@[1]@ == interface@,
        forall|i: int| 0 <= i < args@.len() ==> (#[trigger] r@[i + 2])@ == args@[i]@,
{
    let mut out: Vec<String> = Vec::new();
    out.push("-i".to_owned());
    out.push(interface.to_owned());
    let mut i: usize = 0;
    while i < args.len()
        invariant
            i <= args.len(),
            out@.len() == i + 2,
            out@[0]@ == "-i"@,
            out@[1]@ == interface@,
            forall|j: int| 0 <= j < i ==> (#[trigger] out@[j + 2])@ == args@[j]@,
        decreases args.len() - i,
    {
        out.push(args[i].to_owned());
        i += 1;
    }
    out
}

} // verus!
