//! The processor.

use crate::text::{chars_of, equals_str, push_str, string_of};
use vstd::prelude::*;

verus! {

/// The kind of processor that the program runs on.
#[derive(Debug, Clone, PartialEq, Eq)]
pub enum Architecture {
    X64,
    X86,
    Armv7l,
    Aarch64,
    /// A processor that is none of the four, by the name it goes by.
    Unknown(String),
}

impl Architecture {
    /// Whether this is the processor that goes by the name `arch`.
    pub open spec fn named(self, arch: Seq<char>) -> bool {
        if arch == "x86_64"@ {
            self == Architecture::X64
        } else if arch == "x86"@ {
            self == Architecture::X86
        } else if arch == "armv7l"@ {
            self == Architecture::Armv7l
        } else if arch == "aarch64"@ {
            self == Architecture::Aarch64
        } else {
            self matches Architecture::Unknown(name) && name@ == arch
        }
    }

    /// How this processor is written.
    pub open spec fn label(self) -> Seq<char> {
        match self {
            Architecture::X64 => "x64"@,
            Architecture::X86 => "x86"@,
            Architecture::Armv7l => "armv7l"@,
            Architecture::Aarch64 => "aarch64"@,
            Architecture::Unknown(name) => "Unknown: "@ + name@,
        }
    }

    /// How this processor is written in a report of an error.
    pub open spec fn debug_label(self) -> Seq<char> {
        match self {
            Architecture::X64 => "X64"@,
            Architecture::X86 => "X86"@,
            Architecture::Armv7l => "Armv7l"@,
            Architecture::Aarch64 => "Aarch64"@,
            Architecture::Unknown(name) => "Unknown(\""@ + name@ + "\")"@,
        }
    }

    /// The processor that goes by the name `arch`, which is the name that
    /// the compiler knows the target processor by.
    pub fn detect(arch: &str) -> (r: Self)
        ensures
            r.named(arch@),
    {
        let name = chars_of(arch);
        if equals_str(name.as_slice(), "x86_64") {
            Architecture::X64
        } else if equals_str(name.as_slice(), "x86") {
            Architecture::X86
        } else if equals_str(name.as_slice(), "armv7l") {
            Architecture::Armv7l
        } else if equals_str(name.as_slice(), "aarch64") {
            Architecture::Aarch64
        } else {
            Architecture::Unknown(arch.to_owned())
        }
    }

    /// How this processor is written.
    pub fn to_string(&self) -> (r: String)
        ensures
            r@ == self.label(),
    {
        match self {
            Architecture::X64 => "x64".to_owned(),
            Architecture::X86 => "x86".to_owned(),
            Architecture::Armv7l => "armv7l".to_owned(),
            Architecture::Aarch64 => "aarch64".to_owned(),
            Architecture::Unknown(name) => {
                let mut out: Vec<char> = Vec::new();
                push_str(&mut out, "Unknown: ");
                push_str(&mut out, name.as_str());
                string_of(out.as_slice())
            },
        }
    }

    /// Writes this processor as a report of an error names it.
    pub fn push_debug(&self, out: &mut Vec<char>)
        ensures
            final(out)@ == old(out)@ + self.debug_label(),
    {
        match self {
            Architecture::X64 => push_str(out, "X64"),
            Architecture::X86 => push_str(out, "X86"),
            Architecture::Armv7l => push_str(out, "Armv7l"),
            Architecture::Aarch64 => push_str(out, "Aarch64"),
            Architecture::Unknown(name) => {
                push_str(out, "Unknown(\"");
                push_str(out, name.as_str());
                push_str(out, "\")");
                assert(final(out)@ =~= old(out)@ + ("Unknown(\""@ + name@ + "\")"@));
            },
        }
    }
}

} // verus!
