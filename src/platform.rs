//! Mapping of the host's operating system and architecture names onto the
//! tokens of the release naming convention.
use vstd::prelude::*;
use crate::error::PluginError;
use crate::text::same_text;

verus! {

/// The operating systems for which a server bundle is published.
#[derive(Clone, Copy, Debug, PartialEq, Eq, Structural)]
pub enum TargetOs {
    MacOs,
    Linux,
    Windows,
}

/// The processor architectures for which a server bundle is published.
#[derive(Clone, Copy, Debug, PartialEq, Eq, Structural)]
pub enum TargetArch {
    X86_64,
    Aarch64,
}

/// A supported pair of operating system and architecture.
#[derive(Clone, Copy, Debug, PartialEq, Eq, Structural)]
pub struct Target {
    pub os: TargetOs,
    pub arch: TargetArch,
}

/// The host's name of each operating system.
pub open spec fn os_name(os: TargetOs) -> Seq<char> {
    match os {
        TargetOs::MacOs => "macos"@,
        TargetOs::Linux => "linux"@,
        TargetOs::Windows => "windows"@,
    }
}

/// The host's name of each architecture.
pub open spec fn arch_name(arch: TargetArch) -> Seq<char> {
    match arch {
        TargetArch::X86_64 => "x86_64"@,
        TargetArch::Aarch64 => "aarch64"@,
    }
}

/// The naming token of each operating system in release names.
pub open spec fn os_token_of(os: TargetOs) -> Seq<char> {
    match os {
        TargetOs::MacOs => "apple-darwin"@,
        TargetOs::Linux => "unknown-linux-gnu"@,
        TargetOs::Windows => "pc-windows-gnu"@,
    }
}

/// The naming token of each architecture in release names.
pub open spec fn arch_token_of(arch: TargetArch) -> Seq<char> {
    match arch {
        TargetArch::X86_64 => "x86_64"@,
        TargetArch::Aarch64 => "aarch64"@,
    }
}

/// The file name of the server executable on each operating system.
pub open spec fn executable_name_of(os: TargetOs) -> Seq<char> {
    match os {
        TargetOs::Windows => "TabNine.exe"@,
        _ => "TabNine"@,
    }
}

/// The operating system that the host calls `name`, if it is supported.
pub open spec fn os_named(name: Seq<char>) -> Option<TargetOs> {
    if name == "macos"@ {
        Some(TargetOs::MacOs)
    } else if name == "linux"@ {
        Some(TargetOs::Linux)
    } else if name == "windows"@ {
        Some(TargetOs::Windows)
    } else {
        None
    }
}

/// Whether `name` is the host's name of a supported operating system.
pub open spec fn is_supported_os(name: Seq<char>) -> bool {
    os_named(name) is Some
}

/// The architecture that the host calls `name`, if it is supported.
pub open spec fn arch_named(name: Seq<char>) -> Option<TargetArch> {
    if name == "x86_64"@ {
        Some(TargetArch::X86_64)
    } else if name == "aarch64"@ {
        Some(TargetArch::Aarch64)
    } else {
        None
    }
}

/// Whether `name` is the host's name of a supported architecture.
pub open spec fn is_supported_arch(name: Seq<char>) -> bool {
    arch_named(name) is Some
}

/// Maps the host's operating system name; any name outside the supported set
/// is refused, never replaced by a default.
pub fn resolve_os(name: &str) -> (r: Result<TargetOs, PluginError>)
    ensures
        match r {
            Ok(os) => os_named(name@) == Some(os) && os_name(os) == name@,
            Err(e) => !is_supported_os(name@) && e is UnsupportedPlatform && e->UnsupportedPlatform_0@ == name@,
        },
        r is Ok <==> is_supported_os(name@),
{
    if same_text(name, "macos") {
        assert(os_name(TargetOs::MacOs) == name@);
        Ok(TargetOs::MacOs)
    } else if same_text(name, "linux") {
        assert(os_name(TargetOs::Linux) == name@);
        Ok(TargetOs::Linux)
    } else if same_text(name, "windows") {
        assert(os_name(TargetOs::Windows) == name@);
        Ok(TargetOs::Windows)
    } else {
        Err(PluginError::UnsupportedPlatform(String::from_str(name)))
    }
}

/// Maps the host's architecture name; any name outside the supported set is
/// refused, never replaced by a default.
pub fn resolve_arch(name: &str) -> (r: Result<TargetArch, PluginError>)
    ensures
        match r {
            Ok(arch) => arch_named(name@) == Some(arch) && arch_name(arch) == name@,
            Err(e) => !is_supported_arch(name@) && e is UnsupportedArchitecture && e->UnsupportedArchitecture_0@ == name@,
        },
        r is Ok <==> is_supported_arch(name@),
{
    if same_text(name, "x86_64") {
        assert(arch_name(TargetArch::X86_64) == name@);
        Ok(TargetArch::X86_64)
    } else if same_text(name, "aarch64") {
        assert(arch_name(TargetArch::Aarch64) == name@);
        Ok(TargetArch::Aarch64)
    } else {
        Err(PluginError::UnsupportedArchitecture(String::from_str(name)))
    }
}

/// Maps the host's operating system and architecture names to a target; the
/// operating system is examined first.
pub fn resolve_target(os: &str, arch: &str) -> (r: Result<Target, PluginError>)
    ensures
        match r {
            Ok(t) => os_named(os@) == Some(t.os) && arch_named(arch@) == Some(t.arch),
            Err(e) => if !is_supported_os(os@) {
                e is UnsupportedPlatform && e->UnsupportedPlatform_0@ == os@
            } else {
                !is_supported_arch(arch@) && e is UnsupportedArchitecture
                    && e->UnsupportedArchitecture_0@ == arch@
            },
        },
        r is Ok <==> is_supported_os(os@) && is_supported_arch(arch@),
{
    let o = match resolve_os(os) {
        Ok(o) => o,
        Err(e) => return Err(e),
    };
    let a = match resolve_arch(arch) {
        Ok(a) => a,
        Err(e) => return Err(e),
    };
    Ok(Target { os: o, arch: a })
}

impl TargetOs {
    /// The naming token of this operating system in release names.
    pub fn token(&self) -> (r: &'static str)
        ensures
            r@ == os_token_of(*self),
    {
        match self {
            TargetOs::MacOs => "apple-darwin",
            TargetOs::Linux => "unknown-linux-gnu",
            TargetOs::Windows => "pc-windows-gnu",
        }
    }

    /// The file name of the server executable on this operating system:
    /// `.exe` is appended on Windows only.
    pub fn executable_name(&self) -> (r: &'static str)
        ensures
            r@ == executable_name_of(*self),
    {
        match self {
            TargetOs::Windows => "TabNine.exe",
            _ => "TabNine",
        }
    }
}

impl TargetArch {
    /// The naming token of this architecture in release names.
    pub fn token(&self) -> (r: &'static str)
        ensures
            r@ == arch_token_of(*self),
    {
        match self {
            TargetArch::X86_64 => "x86_64",
            TargetArch::Aarch64 => "aarch64",
        }
    }
}

/// Every supported pair of host names resolves to exactly one target, whose
/// naming tokens are the documented ones (`macos`, `x86_64` gives
/// `apple-darwin`, `x86_64`).
pub proof fn lemma_supported_pairs_map_exactly(os: TargetOs, arch: TargetArch)
    ensures
        os_named(os_name(os)) == Some(os),
        arch_named(arch_name(arch)) == Some(arch),
        os_token_of(os) == match os {
            TargetOs::MacOs => "apple-darwin"@,
            TargetOs::Linux => "unknown-linux-gnu"@,
            TargetOs::Windows => "pc-windows-gnu"@,
        },
        arch_token_of(arch) == arch_name(arch),
{
    reveal_strlit("macos");
    reveal_strlit("linux");
    reveal_strlit("windows");
    reveal_strlit("x86_64");
    reveal_strlit("aarch64");
    assert("macos"@[0] != "linux"@[0]);
    assert("macos"@.len() != "windows"@.len());
    assert("linux"@.len() != "windows"@.len());
    assert("x86_64"@.len() != "aarch64"@.len());
}

/// The executable name ends in `.exe` on Windows and on no other target.
pub proof fn lemma_executable_suffix(os: TargetOs)
    ensures
        ({
            let n = executable_name_of(os);
            let ends_exe = n.len() >= 4 && n.subrange(n.len() - 4, n.len() as int) == ".exe"@;
            ends_exe <==> os == TargetOs::Windows
        }),
{
    reveal_strlit("TabNine.exe");
    reveal_strlit("TabNine");
    reveal_strlit(".exe");
    let n = executable_name_of(os);
    if os == TargetOs::Windows {
        assert(n.subrange(n.len() - 4, n.len() as int) =~= ".exe"@);
    } else {
        assert(n.subrange(n.len() - 4, n.len() as int)[0] == 'N');
    }
}

} // verus!
