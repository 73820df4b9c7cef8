//! Fetching the helper programs: which release is the one for this machine,
//! how its archive is packed, and which of the unpacked files is the program.

use crate::text::{chars_of, ends_with, equal, push_str};
use std::path::PathBuf;
use vstd::prelude::*;

pub mod deps;
pub mod utils;

verus! {

/// A path of the file system, which this crate carries and never looks into.
#[verifier::external_type_specification]
#[verifier::external_body]
pub struct ExPathBuf(PathBuf);

/// `PathBuf::clone`: the copy is the same path.
pub assume_specification[ <PathBuf as Clone>::clone ](path: &PathBuf) -> (r: PathBuf)
    ensures
        r == *path,
;

/// Why a run of a helper program counts as failed.
#[derive(Debug, Clone, PartialEq, Eq)]
pub enum ExecutionError {
    /// The program could not be run; the reason as the system gave it.
    IoError(String),
    /// The program ended with this code, which is not zero.
    NonZeroExit(i32),
    /// A signal ended the program.
    TerminatedBySignal,
}

/// How a download is packed.
#[derive(Debug, Clone, Copy, PartialEq, Eq, Structural)]
pub enum ArchiveKind {
    Zip,
    TarXz,
    TarGz,
    /// Not packed at all: the download is the program.
    Plain,
}

/// A helper program on disk.
#[derive(Debug, Clone)]
pub struct Binary {
    path: PathBuf,
}

impl ArchiveKind {
    /// How the download at `url` is packed, by the ending of the address.
    pub open spec fn of(url: Seq<char>) -> ArchiveKind {
        if ".zip"@.is_suffix_of(url) {
            ArchiveKind::Zip
        } else if ".tar.xz"@.is_suffix_of(url) {
            ArchiveKind::TarXz
        } else if ".tar.gz"@.is_suffix_of(url) || ".tgz"@.is_suffix_of(url) {
            ArchiveKind::TarGz
        } else {
            ArchiveKind::Plain
        }
    }

    /// How the download at `url` is packed.
    pub fn of_url(url: &str) -> (r: ArchiveKind)
        ensures
            r == ArchiveKind::of(url@),
    {
        let text = chars_of(url);
        let zip = chars_of(".zip");
        let tar_xz = chars_of(".tar.xz");
        let tar_gz = chars_of(".tar.gz");
        let tgz = chars_of(".tgz");
        if ends_with(text.as_slice(), zip.as_slice()) {
            ArchiveKind::Zip
        } else if ends_with(text.as_slice(), tar_xz.as_slice()) {
            ArchiveKind::TarXz
        } else if ends_with(text.as_slice(), tar_gz.as_slice()) || ends_with(
            text.as_slice(),
            tgz.as_slice(),
        ) {
            ArchiveKind::TarGz
        } else {
            ArchiveKind::Plain
        }
    }
}

impl ExecutionError {
    /// What a run that ended says: a run that did not report success failed
    /// with its code, or by a signal if it has no code.
    pub open spec fn of_exit(success: bool, code: Option<i32>) -> Option<ExecutionError> {
        if success {
            None
        } else {
            match code {
                Some(code) => Some(ExecutionError::NonZeroExit(code)),
                None => Some(ExecutionError::TerminatedBySignal),
            }
        }
    }
}

impl Binary {
    /// Where the program lies.
    pub closed spec fn location(&self) -> PathBuf {
        self.path
    }

    /// The program at `path`.
    pub fn new(path: PathBuf) -> (r: Self)
        ensures
            r.location() == path,
    {
        Self { path }
    }

    /// Where the program lies.
    pub fn path(&self) -> (r: &PathBuf)
        ensures
            *r == self.location(),
    {
        &self.path
    }

    /// Judges a run of the program by how it ended.
    pub fn execute(&self, success: bool, code: Option<i32>) -> (r: Result<(), ExecutionError>)
        ensures
            r == match ExecutionError::of_exit(success, code) {
                Some(e) => Err::<(), ExecutionError>(e),
                None => Ok(()),
            },
    {
        if !success {
            match code {
                Some(code) => {
                    return Err(ExecutionError::NonZeroExit(code));
                },
                None => {
                    return Err(ExecutionError::TerminatedBySignal);
                },
            }
        }
        Ok(())
    }
}

/// A file called `file_name` is the program called `binary_name`: it has
/// that name, with or without the ending that programs have on Windows.
pub open spec fn is_binary(file_name: Seq<char>, binary_name: Seq<char>) -> bool {
    file_name == binary_name || file_name == binary_name + ".exe"@
}

/// The first of the unpacked files, in the order in which they were found,
/// that is the program called `binary_name`.
pub fn find_binary(file_names: &Vec<String>, binary_name: &str) -> (r: Option<usize>)
    ensures
        match r {
            Some(i) => i < file_names.len() && is_binary(file_names[i as int]@, binary_name@)
                && forall|j: int| 0 <= j < i ==> !is_binary(#[trigger] file_names[j]@, binary_name@),
            None => forall|j: int|
                0 <= j < file_names.len() ==> !is_binary(#[trigger] file_names[j]@, binary_name@),
        },
{
    let plain = chars_of(binary_name);
    let mut windows = chars_of(binary_name);
    push_str(&mut windows, ".exe");
    let mut i: usize = 0;
    while i < file_names.len()
        invariant
            i <= file_names.len(),
            plain@ == binary_name@,
            windows@ == binary_name@ + ".exe"@,
            forall|j: int| 0 <= j < i ==> !is_binary(#[trigger] file_names[j]@, binary_name@),
        decreases file_names.len() - i,
    {
        let name = chars_of(file_names[i].as_str());
        if equal(name.as_slice(), plain.as_slice()) || equal(name.as_slice(), windows.as_slice()) {
            return Some(i);
        }
        i += 1;
    }
    None
}

/// An entry of a zip archive with this name is a directory.
pub fn is_directory_entry(name: &str) -> (r: bool)
    ensures
        r == "/"@.is_suffix_of(name@),
{
    let text = chars_of(name);
    let slash = chars_of("/");
    ends_with(text.as_slice(), slash.as_slice())
}

} // verus!
