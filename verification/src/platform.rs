//! Host platform triples and their mapping into the vendor API's
//! architecture and operating-system vocabulary.

use vstd::prelude::*;

verus! {

/// Operating system of the host, as the plugin host reports it.
#[derive(Clone, Copy, PartialEq, Eq, Structural, Debug)]
pub enum HostOs {
    Linux,
    MacOs,
    Windows,
}

/// CPU architecture of the host.
#[derive(Clone, Copy, PartialEq, Eq, Structural, Debug)]
pub enum HostArch {
    X86,
    X64,
    Arm,
    Arm64,
    Riscv64,
    S390x,
    Powerpc64,
}

/// C library flavor of the host.
#[derive(Clone, Copy, PartialEq, Eq, Structural, Debug)]
pub enum HostLibc {
    Gnu,
    Musl,
}

/// The platform triple the host supplies once per invocation.
#[derive(Clone, Copy, PartialEq, Eq, Structural, Debug)]
pub struct HostEnvironment {
    pub os: HostOs,
    pub arch: HostArch,
    pub libc: HostLibc,
}

/// The vendor API's name for an architecture: `aarch64` for Arm64 and
/// `ppc64le` for Powerpc64; every other architecture passes through
/// under its canonical lowercase name.
pub open spec fn spec_arch_name(arch: HostArch) -> Seq<char> {
    match arch {
        HostArch::X86 => "x86"@,
        HostArch::X64 => "x64"@,
        HostArch::Arm => "arm"@,
        HostArch::Arm64 => "aarch64"@,
        HostArch::Riscv64 => "riscv64"@,
        HostArch::S390x => "s390x"@,
        HostArch::Powerpc64 => "ppc64le"@,
    }
}

/// The vendor API's name for an operating system: musl-based Linux is
/// `alpine-linux`, macOS is `mac` whatever the libc, and the rest pass
/// through under their lowercase names.
pub open spec fn spec_os_name(os: HostOs, libc: HostLibc) -> Seq<char> {
    match (os, libc) {
        (HostOs::Linux, HostLibc::Musl) => "alpine-linux"@,
        (HostOs::Linux, _) => "linux"@,
        (HostOs::MacOs, _) => "mac"@,
        (HostOs::Windows, _) => "windows"@,
    }
}

/// Maps a platform triple into the vendor API's `(architecture, os)`
/// query vocabulary. Total over every triple the host can report.
pub fn env_to_arch_and_os(env: &HostEnvironment) -> (r: (String, String))
    ensures
        r.0@ == spec_arch_name(env.arch),
        r.1@ == spec_os_name(env.os, env.libc),
{
    let architecture = match env.arch {
        HostArch::X86 => String::from_str("x86"),
        HostArch::X64 => String::from_str("x64"),
        HostArch::Arm => String::from_str("arm"),
        HostArch::Arm64 => String::from_str("aarch64"),
        HostArch::Riscv64 => String::from_str("riscv64"),
        HostArch::S390x => String::from_str("s390x"),
        HostArch::Powerpc64 => String::from_str("ppc64le"),
    };
    let os = match (env.os, env.libc) {
        (HostOs::Linux, HostLibc::Musl) => String::from_str("alpine-linux"),
        (HostOs::Linux, _) => String::from_str("linux"),
        (HostOs::MacOs, _) => String::from_str("mac"),
        (HostOs::Windows, _) => String::from_str("windows"),
    };
    (architecture, os)
}

/// Law: the platform mapping is a pure function of the triple alone.
/// `spec_arch_name` and `spec_os_name` are total over the closed enums,
/// and two identical triples always map to the identical pair, so
/// repeated mapping of the same triple can never disagree with itself.
pub proof fn lemma_platform_mapping_deterministic(a: HostEnvironment, b: HostEnvironment)
    requires
        a == b,
    ensures
        spec_arch_name(a.arch) == spec_arch_name(b.arch),
        spec_os_name(a.os, a.libc) == spec_os_name(b.os, b.libc),
{
}

/// The supported OS-by-architecture matrix: the vendor publishes Linux
/// builds for x64, arm, arm64, riscv64 and s390x, macOS builds for x64
/// and arm64, and Windows builds for x86, x64 and arm64.
pub open spec fn spec_platform_supported(os: HostOs, arch: HostArch) -> bool {
    match os {
        HostOs::Linux => matches!(
            arch,
            HostArch::X64 | HostArch::Arm64 | HostArch::Arm | HostArch::Riscv64 | HostArch::S390x
        ),
        HostOs::MacOs => matches!(arch, HostArch::X64 | HostArch::Arm64),
        HostOs::Windows => matches!(arch, HostArch::X86 | HostArch::X64 | HostArch::Arm64),
    }
}

/// Reports whether the triple lies in the supported OS-by-architecture
/// matrix; checked before any network call is made.
pub fn is_supported_os_and_arch(env: &HostEnvironment) -> (r: bool)
    ensures
        r == spec_platform_supported(env.os, env.arch),
{
    match env.os {
        HostOs::Linux => matches!(
            env.arch,
            HostArch::X64 | HostArch::Arm64 | HostArch::Arm | HostArch::Riscv64 | HostArch::S390x
        ),
        HostOs::MacOs => matches!(env.arch, HostArch::X64 | HostArch::Arm64),
        HostOs::Windows => matches!(env.arch, HostArch::X86 | HostArch::X64 | HostArch::Arm64),
    }
}

} // verus!
