//! The host platform as the plugin sees it, and the platforms that prebuilt
//! PHP binaries exist for.
use vstd::prelude::*;

verus! {

/// Operating system of the host (the variants of proto's `HostOS`).
#[derive(Clone, Copy, Debug, PartialEq, Eq, Structural)]
pub enum HostOs {
    Android,
    Dragonfly,
    FreeBSD,
    IOS,
    Linux,
    MacOS,
    NetBSD,
    OpenBSD,
    Solaris,
    Windows,
}

/// Processor architecture of the host (the variants of proto's `HostArch`).
#[derive(Clone, Copy, Debug, PartialEq, Eq, Structural)]
pub enum HostArch {
    X86,
    X64,
    Arm,
    Arm64,
    LongArm64,
    M68k,
    Mips,
    Mips64,
    Powerpc,
    Powerpc64,
    Riscv64,
    S390x,
    Sparc64,
}

/// Why a platform has no prebuilt binary.
#[derive(Clone, Copy, Debug, PartialEq, Eq, Structural)]
pub enum PlatformError {
    /// No binary exists for any architecture of this operating system.
    UnsupportedOs { os: HostOs },
    /// Binaries exist for the operating system, but not for this architecture.
    UnsupportedTarget { os: HostOs, arch: HostArch },
}

/// The operating system as it appears in download file names.
pub open spec fn os_label(os: HostOs) -> Seq<char> {
    match os {
        HostOs::Linux => "linux"@,
        HostOs::MacOS => "macos"@,
        HostOs::Windows => "windows"@,
        _ => "unknown"@,
    }
}

/// The architecture as it appears in download file names.
pub open spec fn arch_label(arch: HostArch) -> Seq<char> {
    match arch {
        HostArch::X64 => "x86_64"@,
        HostArch::Arm64 => "aarch64"@,
        _ => "unknown"@,
    }
}

/// The architectures that prebuilt binaries exist for, per operating system;
/// `None` for an operating system that has none.
pub open spec fn supported_archs(os: HostOs) -> Option<Seq<HostArch>> {
    match os {
        HostOs::Linux => Some(seq![HostArch::X64, HostArch::Arm64]),
        HostOs::MacOS => Some(seq![HostArch::X64, HostArch::Arm64]),
        HostOs::Windows => Some(seq![HostArch::X64]),
        _ => None,
    }
}

/// The outcome of checking a host against the supported platforms.
pub open spec fn platform_check(os: HostOs, arch: HostArch) -> Result<(), PlatformError> {
    match supported_archs(os) {
        None => Err(PlatformError::UnsupportedOs { os }),
        Some(archs) => if archs.contains(arch) {
            Ok(())
        } else {
            Err(PlatformError::UnsupportedTarget { os, arch })
        },
    }
}

/// The operating system as it appears in download file names.
pub fn map_os(os: HostOs) -> (r: &'static str)
    ensures
        r@ == os_label(os),
{
    match os {
        HostOs::Linux => "linux",
        HostOs::MacOS => "macos",
        HostOs::Windows => "windows",
        _ => "unknown",
    }
}

/// The architecture as it appears in download file names.
pub fn map_arch(arch: HostArch) -> (r: &'static str)
    ensures
        r@ == arch_label(arch),
{
    match arch {
        HostArch::X64 => "x86_64",
        HostArch::Arm64 => "aarch64",
        _ => "unknown",
    }
}

/// Checks the host against the platforms that prebuilt binaries exist for:
/// Linux and macOS on x64 and arm64, Windows on x64.
pub fn check_supported_os_and_arch(os: HostOs, arch: HostArch) -> (r: Result<(), PlatformError>)
    ensures
        r == platform_check(os, arch),
{
    let supported = match os {
        HostOs::Linux | HostOs::MacOS => Some(arch == HostArch::X64 || arch == HostArch::Arm64),
        HostOs::Windows => Some(arch == HostArch::X64),
        _ => None,
    };
    proof {
        if let Some(archs) = supported_archs(os) {
            if archs.contains(arch) {
                let i = choose|i: int| 0 <= i < archs.len() && archs[i] == arch;
            } else {
                if os == HostOs::Windows {
                    assert(archs[0] == HostArch::X64);
                } else {
                    assert(archs[0] == HostArch::X64);
                    assert(archs[1] == HostArch::Arm64);
                }
            }
        }
    }
    match supported {
        None => Err(PlatformError::UnsupportedOs { os }),
        Some(true) => Ok(()),
        Some(false) => Err(PlatformError::UnsupportedTarget { os, arch }),
    }
}

} // verus!
