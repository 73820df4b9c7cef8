//! The operating system.

use crate::text::{chars_of, equals_str, push_str, string_of};
use vstd::prelude::*;

verus! {

/// The operating system that the program runs on.
#[derive(Debug, Clone, PartialEq, Eq)]
pub enum Platform {
    Windows,
    Linux,
    Mac,
    /// A system that is none of the three, by the name it goes by.
    Unknown(String),
}

impl Platform {
    /// Whether this is the system that goes by the name `os`.
    pub open spec fn named(self, os: Seq<char>) -> bool {
        if os == "windows"@ {
            self == Platform::Windows
        } else if os == "linux"@ {
            self == Platform::Linux
        } else if os == "macos"@ {
            self == Platform::Mac
        } else {
            self matches Platform::Unknown(name) && name@ == os
        }
    }

    /// How this system is written.
    pub open spec fn label(self) -> Seq<char> {
        match self {
            Platform::Windows => "Windows"@,
            Platform::Linux => "Linux"@,
            Platform::Mac => "MacOS"@,
            Platform::Unknown(name) => "Unknown: "@ + name@,
        }
    }

    /// How this system is written in a report of an error.
    pub open spec fn debug_label(self) -> Seq<char> {
        match self {
            Platform::Windows => "Windows"@,
            Platform::Linux => "Linux"@,
            Platform::Mac => "Mac"@,
            Platform::Unknown(name) => "Unknown(\""@ + name@ + "\")"@,
        }
    }

    /// The system that goes by the name `os`, which is the name that the
    /// compiler knows the target system by.
    pub fn detect(os: &str) -> (r: Self)
        ensures
            r.named(os@),
    {
        let name = chars_of(os);
        if equals_str(name.as_slice(), "windows") {
            Platform::Windows
        } else if equals_str(name.as_slice(), "linux") {
            Platform::Linux
        } else if equals_str(name.as_slice(), "macos") {
            Platform::Mac
        } else {
            Platform::Unknown(os.to_owned())
        }
    }

    /// How this system is written.
    pub fn to_string(&self) -> (r: String)
        ensures
            r@ == self.label(),
    {
        match self {
            Platform::Windows => "Windows".to_owned(),
            Platform::Linux => "Linux".to_owned(),
            Platform::Mac => "MacOS".to_owned(),
            Platform::Unknown(name) => {
                let mut out: Vec<char> = Vec::new();
                push_str(&mut out, "Unknown: ");
                push_str(&mut out, name.as_str());
                string_of(out.as_slice())
            },
        }
    }

    /// Writes this system as a report of an error names it.
    pub fn push_debug(&self, out: &mut Vec<char>)
        ensures
            final(out)@ == old(out)@ + self.debug_label(),
    {
        match self {
            Platform::Windows => push_str(out, "Windows"),
            Platform::Linux => push_str(out, "Linux"),
            Platform::Mac => push_str(out, "Mac"),
            Platform::Unknown(name) => {
                push_str(out, "Unknown(\"");
                push_str(out, name.as_str());
                push_str(out, "\")");
                assert(final(out)@ =~= old(out)@ + ("Unknown(\""@ + name@ + "\")"@));
            },
        }
    }
}

} // verus!
