//! The operating system and processor the program runs on, as the rest of the
//! library sees them.

use vstd::prelude::*;
use crate::text::str_equal;

verus! {

/// Operating system families the tool distinguishes.
#[derive(Debug, Clone, Copy, PartialEq, Eq, Structural)]
pub enum TargetOs {
    Windows,
    MacOs,
    Linux,
    Other,
}

/// Processor architectures the tool distinguishes.
#[derive(Debug, Clone, Copy, PartialEq, Eq, Structural)]
pub enum TargetArch {
    X86_64,
    Aarch64,
    Other,
}

/// The family named by `std::env::consts::OS`.
pub open spec fn os_from_name(name: Seq<char>) -> TargetOs {
    if name == "windows"@ {
        TargetOs::Windows
    } else if name == "macos"@ {
        TargetOs::MacOs
    } else if name == "linux"@ {
        TargetOs::Linux
    } else {
        TargetOs::Other
    }
}

/// The architecture named by `std::env::consts::ARCH`.
pub open spec fn arch_from_name(name: Seq<char>) -> TargetArch {
    if name == "x86_64"@ {
        TargetArch::X86_64
    } else if name == "aarch64"@ {
        TargetArch::Aarch64
    } else {
        TargetArch::Other
    }
}

impl TargetOs {
    /// Reads an operating-system name as `std::env::consts::OS` spells it.
    pub fn from_name(name: &str) -> (r: TargetOs)
        ensures
            r == os_from_name(name@),
    {
        if str_equal(name, "windows") {
            TargetOs::Windows
        } else if str_equal(name, "macos") {
            TargetOs::MacOs
        } else if str_equal(name, "linux") {
            TargetOs::Linux
        } else {
            TargetOs::Other
        }
    }
}

impl TargetArch {
    /// Reads an architecture name as `std::env::consts::ARCH` spells it.
    pub fn from_name(name: &str) -> (r: TargetArch)
        ensures
            r == arch_from_name(name@),
    {
        if str_equal(name, "x86_64") {
            TargetArch::X86_64
        } else if str_equal(name, "aarch64") {
            TargetArch::Aarch64
        } else {
            TargetArch::Other
        }
    }
}

} // verus!
