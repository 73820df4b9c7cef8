//! Where the helper programs lie.
//!
//! A program lies where it was registered, or else under its own name in the
//! directory of the configuration. The registered programs are a list in
//! which the first entry for a name counts: of a hash map whose keys are
//! strings Verus knows nothing, since no model of hashing a string is given.

use crate::text::{chars_of, equal, push_str, string_of};
use std::path::PathBuf;
use vstd::prelude::*;

verus! {

/// The directory of the configuration and the registered programs.
pub struct Globals {
    pub config_dir: Option<PathBuf>,
    pub binary_paths: Vec<(String, PathBuf)>,
}

/// Where a program lies.
pub enum BinaryPath {
    /// At the path that was registered for it.
    Registered(PathBuf),
    /// In the directory, as the file of this name.
    InConfigDir { directory: PathBuf, file: String },
}

/// The path that the first entry for `name` registers.
pub open spec fn registered(entries: Seq<(String, PathBuf)>, name: Seq<char>) -> Option<PathBuf>
    decreases entries.len(),
{
    if entries.len() == 0 {
        None
    } else if entries[0].0@ == name {
        Some(entries[0].1)
    } else {
        registered(entries.drop_first(), name)
    }
}

/// The name of the file of a program: its own, with the ending that programs
/// have on Windows there.
pub open spec fn file_name(name: Seq<char>, windows: bool) -> Seq<char> {
    if windows {
        name + ".exe"@
    } else {
        name
    }
}

impl Globals {
    /// Nothing is set and nothing is registered.
    pub fn new() -> (r: Self)
        ensures
            r.config_dir is None,
            r.binary_paths@.len() == 0,
    {
        Self { config_dir: None, binary_paths: Vec::new() }
    }
}

/// The registered programs.
pub fn get_binary_paths(globals: &Globals) -> (r: &Vec<(String, PathBuf)>)
    ensures
        r == globals.binary_paths,
{
    &globals.binary_paths
}

/// Sets the directory of the configuration, which is set once.
pub fn init_config_dir(globals: &mut Globals, path: PathBuf)
    requires
        old(globals).config_dir is None,
    ensures
        final(globals).config_dir == Some(path),
        final(globals).binary_paths == old(globals).binary_paths,
{
    globals.config_dir = Some(path);
}

/// The position of the first entry for `name`.
fn position_of(entries: &Vec<(String, PathBuf)>, name: &[char]) -> (r: Option<usize>)
    ensures
        match r {
            Some(i) => i < entries.len() && entries[i as int].0@ == name@ && registered(
                entries@,
                name@,
            ) == Some(entries[i as int].1) && forall|j: int|
                0 <= j < i ==> (#[trigger] entries[j]).0@ != name@,
            None => registered(entries@, name@) is None && forall|j: int|
                0 <= j < entries.len() ==> (#[trigger] entries[j]).0@ != name@,
        },
{
    let mut i: usize = 0;
    assert(entries@.skip(0) =~= entries@);
    while i < entries.len()
        invariant
            i <= entries.len(),
            registered(entries@, name@) == registered(entries@.skip(i as int), name@),
            forall|j: int| 0 <= j < i ==> (#[trigger] entries[j]).0@ != name@,
        decreases entries.len() - i,
    {
        let key = chars_of(entries[i].0.as_str());
        assert(entries@.skip(i as int)[0] == entries@[i as int]);
        if equal(key.as_slice(), name) {
            return Some(i);
        }
        assert(entries@.skip(i as int).drop_first() =~= entries@.skip(i as int + 1));
        i += 1;
    }
    None
}

/// Registers `path` for the program `binary_name`, in place of what was
/// registered for it before. No other program is touched.
pub fn set_binary_path(globals: &mut Globals, binary_name: &str, path: PathBuf)
    ensures
        final(globals).config_dir == old(globals).config_dir,
        registered(final(globals).binary_paths@, binary_name@) == Some(path),
        forall|other: Seq<char>|
            other != binary_name@ ==> registered(final(globals).binary_paths@, other)
                == registered(old(globals).binary_paths@, other),
{
    let name = chars_of(binary_name);
    let ghost before = globals.binary_paths@;
    match position_of(&globals.binary_paths, name.as_slice()) {
        Some(i) => {
            globals.binary_paths[i] = (binary_name.to_owned(), path);
            proof {
                let entry = globals.binary_paths@[i as int];
                assert(globals.binary_paths@ =~= before.update(i as int, entry));
                assert forall|other: Seq<char>|
                    registered(globals.binary_paths@, other) == if other == binary_name@ {
                        Some(path)
                    } else {
                        registered(before, other)
                    } by {
                    lemma_replaced(before, i as int, entry, other);
                }
            }
        },
        None => {
            globals.binary_paths.push((binary_name.to_owned(), path));
            proof {
                let entry = globals.binary_paths@[before.len() as int];
                assert(globals.binary_paths@ =~= before.push(entry));
                assert forall|other: Seq<char>|
                    registered(globals.binary_paths@, other) == if other == binary_name@ {
                        Some(path)
                    } else {
                        registered(before, other)
                    } by {
                    lemma_appended(before, entry, other);
                }
            }
        },
    }
}

/// Where the program `name` lies: where it was registered, or else in the
/// directory of the configuration, which must be set by then.
pub fn get_binary_path(globals: &Globals, name: &str, windows: bool) -> (r: BinaryPath)
    requires
        registered(globals.binary_paths@, name@) is Some || globals.config_dir is Some,
    ensures
        match registered(globals.binary_paths@, name@) {
            Some(path) => r == BinaryPath::Registered(path),
            None => r matches BinaryPath::InConfigDir { directory, file } && Some(directory)
                == globals.config_dir && file@ == file_name(name@, windows),
        },
{
    let key = chars_of(name);
    match position_of(&globals.binary_paths, key.as_slice()) {
        Some(i) => BinaryPath::Registered(globals.binary_paths[i].1.clone()),
        None => {
            let directory = match &globals.config_dir {
                Some(directory) => directory.clone(),
                None => vstd::pervasive::unreached(),
            };
            let mut file = chars_of(name);
            if windows {
                push_str(&mut file, ".exe");
            }
            BinaryPath::InConfigDir { directory, file: string_of(file.as_slice()) }
        },
    }
}

/// Replacing the first entry for a name by another for the same name
/// changes what is registered for that name and for no other.
proof fn lemma_replaced(
    entries: Seq<(String, PathBuf)>,
    at: int,
    entry: (String, PathBuf),
    other: Seq<char>,
)
    requires
        0 <= at < entries.len(),
        entries[at].0@ == entry.0@,
        forall|j: int| 0 <= j < at ==> (#[trigger] entries[j]).0@ != entry.0@,
    ensures
        registered(entries.update(at, entry), other) == if other == entry.0@ {
            Some(entry.1)
        } else {
            registered(entries, other)
        },
    decreases entries.len(),
{
    let updated = entries.update(at, entry);
    if at == 0 {
        assert(updated.drop_first() =~= entries.drop_first());
    } else {
        assert(updated.drop_first() =~= entries.drop_first().update(at - 1, entry));
        assert forall|j: int| 0 <= j < at - 1 implies (#[trigger] entries.drop_first()[j]).0@
            != entry.0@ by {
            assert(entries.drop_first()[j] == entries[j + 1]);
        }
        lemma_replaced(entries.drop_first(), at - 1, entry, other);
        assert(entries[0].0@ != entry.0@);
        assert(updated[0] == entries[0]);
    }
}

/// Adding an entry for a name that has none changes what is registered for
/// that name and for no other.
proof fn lemma_appended(entries: Seq<(String, PathBuf)>, entry: (String, PathBuf), other: Seq<char>)
    requires
        forall|j: int| 0 <= j < entries.len() ==> (#[trigger] entries[j]).0@ != entry.0@,
    ensures
        registered(entries.push(entry), other) == if other == entry.0@ {
            Some(entry.1)
        } else {
            registered(entries, other)
        },
    decreases entries.len(),
{
    let pushed = entries.push(entry);
    if entries.len() == 0 {
        assert(pushed.drop_first() =~= Seq::<(String, PathBuf)>::empty());
        assert(registered(pushed.drop_first(), other) is None);
        assert(registered(entries, other) is None);
    } else {
        assert(pushed.drop_first() =~= entries.drop_first().push(entry));
        assert forall|j: int| 0 <= j < entries.len() - 1 implies (#[trigger] entries.drop_first()[j]).0@
            != entry.0@ by {
            assert(entries.drop_first()[j] == entries[j + 1]);
        }
        lemma_appended(entries.drop_first(), entry, other);
        assert(entries[0].0@ != entry.0@);
        assert(pushed[0] == entries[0]);
    }
}

} // verus!
