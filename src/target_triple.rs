//! The target triples that a resolution can be made for, and what each of them
//! projects to: a platform descriptor and the platform marker values.

use vstd::prelude::*;

verus! {

/// An operating system, with the version parameters that platform tags carry.
#[derive(Debug, Clone, Copy, PartialEq, Eq, Structural)]
pub enum Os {
    Windows,
    Manylinux { major: u16, minor: u16 },
    Musllinux { major: u16, minor: u16 },
    Macos { major: u16, minor: u16 },
    Pyodide { major: u16, minor: u16 },
}

/// A processor architecture.
#[derive(Debug, Clone, Copy, PartialEq, Eq, Structural)]
pub enum Arch {
    X86_64,
    X86,
    Aarch64,
    Wasm32,
}

/// A platform: an operating system together with an architecture.
#[derive(Debug, Clone, Copy, PartialEq, Eq, Structural)]
pub struct Platform {
    pub os: Os,
    pub arch: Arch,
}

/// The macOS deployment target that is assumed when none is configured.
pub const DEFAULT_MACOS_MAJOR: u16 = 13;

/// The minor part of the default macOS deployment target.
pub const DEFAULT_MACOS_MINOR: u16 = 0;

/// The supported target triples. Each triple consists of an architecture, vendor, and operating
/// system.
#[derive(Debug, Clone, Copy, PartialEq, Eq, Structural)]
pub enum TargetTriple {
    /// An alias for `x86_64-pc-windows-msvc`, the default target for Windows.
    Windows,
    /// An alias for `x86_64-unknown-linux-gnu`, the default target for Linux.
    Linux,
    /// An alias for `aarch64-apple-darwin`, the default target for macOS.
    Macos,
    /// A 64-bit x86 Windows target.
    X8664PcWindowsMsvc,
    /// A 32-bit x86 Windows target.
    I686PcWindowsMsvc,
    /// An x86 Linux target. Equivalent to `x86_64-manylinux_2_28`.
    X8664UnknownLinuxGnu,
    /// An ARM-based macOS target, as seen on Apple Silicon devices.
    Aarch64AppleDarwin,
    /// An x86 macOS target.
    X8664AppleDarwin,
    /// An ARM64 Linux target. Equivalent to `aarch64-manylinux_2_28`.
    Aarch64UnknownLinuxGnu,
    /// An ARM64 Linux target with musl.
    Aarch64UnknownLinuxMusl,
    /// An `x86_64` Linux target with musl.
    X8664UnknownLinuxMusl,
    /// An `x86_64` target for the `manylinux2014` platform. Equivalent to `x86_64-manylinux_2_17`.
    X8664Manylinux2014,
    /// An `x86_64` target for the `manylinux_2_17` platform.
    X8664Manylinux217,
    /// An `x86_64` target for the `manylinux_2_28` platform.
    X8664Manylinux228,
    /// An `x86_64` target for the `manylinux_2_31` platform.
    X8664Manylinux231,
    /// An `x86_64` target for the `manylinux_2_32` platform.
    X8664Manylinux232,
    /// An `x86_64` target for the `manylinux_2_33` platform.
    X8664Manylinux233,
    /// An `x86_64` target for the `manylinux_2_34` platform.
    X8664Manylinux234,
    /// An `x86_64` target for the `manylinux_2_35` platform.
    X8664Manylinux235,
    /// An `x86_64` target for the `manylinux_2_36` platform.
    X8664Manylinux236,
    /// An `x86_64` target for the `manylinux_2_37` platform.
    X8664Manylinux237,
    /// An `x86_64` target for the `manylinux_2_38` platform.
    X8664Manylinux238,
    /// An `x86_64` target for the `manylinux_2_39` platform.
    X8664Manylinux239,
    /// An `x86_64` target for the `manylinux_2_40` platform.
    X8664Manylinux240,
    /// An `aarch64` target for the `manylinux2014` platform. Equivalent to `aarch64-manylinux_2_17`.
    Aarch64Manylinux2014,
    /// An `aarch64` target for the `manylinux_2_17` platform.
    Aarch64Manylinux217,
    /// An `aarch64` target for the `manylinux_2_28` platform.
    Aarch64Manylinux228,
    /// An `aarch64` target for the `manylinux_2_31` platform.
    Aarch64Manylinux231,
    /// An `aarch64` target for the `manylinux_2_32` platform.
    Aarch64Manylinux232,
    /// An `aarch64` target for the `manylinux_2_33` platform.
    Aarch64Manylinux233,
    /// An `aarch64` target for the `manylinux_2_34` platform.
    Aarch64Manylinux234,
    /// An `aarch64` target for the `manylinux_2_35` platform.
    Aarch64Manylinux235,
    /// An `aarch64` target for the `manylinux_2_36` platform.
    Aarch64Manylinux236,
    /// An `aarch64` target for the `manylinux_2_37` platform.
    Aarch64Manylinux237,
    /// An `aarch64` target for the `manylinux_2_38` platform.
    Aarch64Manylinux238,
    /// An `aarch64` target for the `manylinux_2_39` platform.
    Aarch64Manylinux239,
    /// An `aarch64` target for the `manylinux_2_40` platform.
    Aarch64Manylinux240,
    /// A wasm32 target using the Pyodide 2024 platform.
    Wasm32Pyodide2024,
}

/// The name that the `platform_machine` marker gives to a platform.
pub open spec fn machine_name(p: Platform) -> Seq<char> {
    match (p.os, p.arch) {
        (Os::Macos { .. }, Arch::Aarch64) => "arm64"@,
        (_, Arch::X86_64) => "x86_64"@,
        (_, Arch::X86) => "x86"@,
        (_, Arch::Aarch64) => "aarch64"@,
        (_, Arch::Wasm32) => "wasm32"@,
    }
}

/// The value of the `platform_system` marker on an operating system.
pub open spec fn system_name(os: Os) -> Seq<char> {
    match os {
        Os::Windows => "Windows"@,
        Os::Manylinux { .. } | Os::Musllinux { .. } => "Linux"@,
        Os::Macos { .. } => "Darwin"@,
        Os::Pyodide { .. } => "Emscripten"@,
    }
}

/// The value of the `sys_platform` marker on an operating system.
pub open spec fn sys_platform_name(os: Os) -> Seq<char> {
    match os {
        Os::Windows => "win32"@,
        Os::Manylinux { .. } | Os::Musllinux { .. } => "linux"@,
        Os::Macos { .. } => "darwin"@,
        Os::Pyodide { .. } => "emscripten"@,
    }
}

/// The value of the `os_name` marker on an operating system.
pub open spec fn os_name_of(os: Os) -> Seq<char> {
    match os {
        Os::Windows => "nt"@,
        _ => "posix"@,
    }
}

/// The value of the `platform_version` marker on an operating system: only the
/// Emscripten runtime reports one.
pub open spec fn platform_version_of(os: Os) -> Seq<char> {
    match os {
        Os::Pyodide { .. } => "#1"@,
        _ => ""@,
    }
}

/// The value of the `platform_release` marker on an operating system: the Emscripten
/// compiler version for Pyodide, nothing elsewhere.
pub open spec fn platform_release_of(os: Os) -> Seq<char> {
    match os {
        Os::Pyodide { .. } => "3.1.58"@,
        _ => ""@,
    }
}

/// Whether `manylinux` wheels can be installed on an operating system.
pub open spec fn is_linux(os: Os) -> bool {
    match os {
        Os::Manylinux { .. } | Os::Musllinux { .. } => true,
        _ => false,
    }
}

impl TargetTriple {
    /// The architecture of the triple.
    pub open spec fn spec_arch(self) -> Arch {
        match self {
            TargetTriple::Windows => Arch::X86_64,
            TargetTriple::Linux => Arch::X86_64,
            TargetTriple::Macos => Arch::Aarch64,
            TargetTriple::X8664PcWindowsMsvc => Arch::X86_64,
            TargetTriple::I686PcWindowsMsvc => Arch::X86,
            TargetTriple::X8664UnknownLinuxGnu => Arch::X86_64,
            TargetTriple::Aarch64AppleDarwin => Arch::Aarch64,
            TargetTriple::X8664AppleDarwin => Arch::X86_64,
            TargetTriple::Aarch64UnknownLinuxGnu => Arch::Aarch64,
            TargetTriple::Aarch64UnknownLinuxMusl => Arch::Aarch64,
            TargetTriple::X8664UnknownLinuxMusl => Arch::X86_64,
            TargetTriple::X8664Manylinux2014 => Arch::X86_64,
            TargetTriple::X8664Manylinux217 => Arch::X86_64,
            TargetTriple::X8664Manylinux228 => Arch::X86_64,
            TargetTriple::X8664Manylinux231 => Arch::X86_64,
            TargetTriple::X8664Manylinux232 => Arch::X86_64,
            TargetTriple::X8664Manylinux233 => Arch::X86_64,
            TargetTriple::X8664Manylinux234 => Arch::X86_64,
            TargetTriple::X8664Manylinux235 => Arch::X86_64,
            TargetTriple::X8664Manylinux236 => Arch::X86_64,
            TargetTriple::X8664Manylinux237 => Arch::X86_64,
            TargetTriple::X8664Manylinux238 => Arch::X86_64,
            TargetTriple::X8664Manylinux239 => Arch::X86_64,
            TargetTriple::X8664Manylinux240 => Arch::X86_64,
            TargetTriple::Aarch64Manylinux2014 => Arch::Aarch64,
            TargetTriple::Aarch64Manylinux217 => Arch::Aarch64,
            TargetTriple::Aarch64Manylinux228 => Arch::Aarch64,
            TargetTriple::Aarch64Manylinux231 => Arch::Aarch64,
            TargetTriple::Aarch64Manylinux232 => Arch::Aarch64,
            TargetTriple::Aarch64Manylinux233 => Arch::Aarch64,
            TargetTriple::Aarch64Manylinux234 => Arch::Aarch64,
            TargetTriple::Aarch64Manylinux235 => Arch::Aarch64,
            TargetTriple::Aarch64Manylinux236 => Arch::Aarch64,
            TargetTriple::Aarch64Manylinux237 => Arch::Aarch64,
            TargetTriple::Aarch64Manylinux238 => Arch::Aarch64,
            TargetTriple::Aarch64Manylinux239 => Arch::Aarch64,
            TargetTriple::Aarch64Manylinux240 => Arch::Aarch64,
            TargetTriple::Wasm32Pyodide2024 => Arch::Wasm32,
        }
    }

    /// The operating system of the triple, where `macos` is the deployment target that a
    /// macOS triple takes.
    pub open spec fn spec_os(self, macos: (u16, u16)) -> Os {
        match self {
            TargetTriple::Windows => Os::Windows,
            TargetTriple::Linux => Os::Manylinux { major: 2, minor: 28 },
            TargetTriple::Macos => Os::Macos { major: macos.0, minor: macos.1 },
            TargetTriple::X8664PcWindowsMsvc => Os::Windows,
            TargetTriple::I686PcWindowsMsvc => Os::Windows,
            TargetTriple::X8664UnknownLinuxGnu => Os::Manylinux { major: 2, minor: 28 },
            TargetTriple::Aarch64AppleDarwin => Os::Macos { major: macos.0, minor: macos.1 },
            TargetTriple::X8664AppleDarwin => Os::Macos { major: macos.0, minor: macos.1 },
            TargetTriple::Aarch64UnknownLinuxGnu => Os::Manylinux { major: 2, minor: 28 },
            TargetTriple::Aarch64UnknownLinuxMusl => Os::Musllinux { major: 1, minor: 2 },
            TargetTriple::X8664UnknownLinuxMusl => Os::Musllinux { major: 1, minor: 2 },
            TargetTriple::X8664Manylinux2014 => Os::Manylinux { major: 2, minor: 17 },
            TargetTriple::X8664Manylinux217 => Os::Manylinux { major: 2, minor: 17 },
            TargetTriple::X8664Manylinux228 => Os::Manylinux { major: 2, minor: 28 },
            TargetTriple::X8664Manylinux231 => Os::Manylinux { major: 2, minor: 31 },
            TargetTriple::X8664Manylinux232 => Os::Manylinux { major: 2, minor: 32 },
            TargetTriple::X8664Manylinux233 => Os::Manylinux { major: 2, minor: 33 },
            TargetTriple::X8664Manylinux234 => Os::Manylinux { major: 2, minor: 34 },
            TargetTriple::X8664Manylinux235 => Os::Manylinux { major: 2, minor: 35 },
            TargetTriple::X8664Manylinux236 => Os::Manylinux { major: 2, minor: 36 },
            TargetTriple::X8664Manylinux237 => Os::Manylinux { major: 2, minor: 37 },
            TargetTriple::X8664Manylinux238 => Os::Manylinux { major: 2, minor: 38 },
            TargetTriple::X8664Manylinux239 => Os::Manylinux { major: 2, minor: 39 },
            TargetTriple::X8664Manylinux240 => Os::Manylinux { major: 2, minor: 40 },
            TargetTriple::Aarch64Manylinux2014 => Os::Manylinux { major: 2, minor: 17 },
            TargetTriple::Aarch64Manylinux217 => Os::Manylinux { major: 2, minor: 17 },
            TargetTriple::Aarch64Manylinux228 => Os::Manylinux { major: 2, minor: 28 },
            TargetTriple::Aarch64Manylinux231 => Os::Manylinux { major: 2, minor: 31 },
            TargetTriple::Aarch64Manylinux232 => Os::Manylinux { major: 2, minor: 32 },
            TargetTriple::Aarch64Manylinux233 => Os::Manylinux { major: 2, minor: 33 },
            TargetTriple::Aarch64Manylinux234 => Os::Manylinux { major: 2, minor: 34 },
            TargetTriple::Aarch64Manylinux235 => Os::Manylinux { major: 2, minor: 35 },
            TargetTriple::Aarch64Manylinux236 => Os::Manylinux { major: 2, minor: 36 },
            TargetTriple::Aarch64Manylinux237 => Os::Manylinux { major: 2, minor: 37 },
            TargetTriple::Aarch64Manylinux238 => Os::Manylinux { major: 2, minor: 38 },
            TargetTriple::Aarch64Manylinux239 => Os::Manylinux { major: 2, minor: 39 },
            TargetTriple::Aarch64Manylinux240 => Os::Manylinux { major: 2, minor: 40 },
            TargetTriple::Wasm32Pyodide2024 => Os::Pyodide { major: 2024, minor: 0 },
        }
    }

    /// The platform of the triple, for a given macOS deployment target.
    pub open spec fn spec_platform(self, macos: (u16, u16)) -> Platform {
        Platform { os: self.spec_os(macos), arch: self.spec_arch() }
    }

    /// The platform of the triple under the default macOS deployment target. The marker
    /// values do not depend on the deployment target.
    pub open spec fn default_platform(self) -> Platform {
        self.spec_platform((DEFAULT_MACOS_MAJOR, DEFAULT_MACOS_MINOR))
    }

    /// Whether the triple is a macOS target, the only kind whose platform depends on the
    /// deployment target.
    pub open spec fn is_macos(self) -> bool {
        self.default_platform().os is Macos
    }

    /// Return the [`Platform`] for the target, where `deployment_target` is the configured macOS
    /// deployment target (the value of `MACOSX_DEPLOYMENT_TARGET`), if any. It is read for the
    /// macOS targets only; where it is absent or malformed, macOS 13.0 is assumed.
    pub fn platform(self, deployment_target: Option<&str>) -> (r: Platform)
        ensures
            r == self.spec_platform(macos_target_or_default(deployment_target)),
    {
        match self {
            Self::Windows => Platform { os: Os::Windows, arch: Arch::X86_64 },
            Self::Linux => Platform { os: Os::Manylinux { major: 2, minor: 28 }, arch: Arch::X86_64 },
            Self::Macos => {
                let (major, minor) = configured_macos_target(deployment_target);
                Platform { os: Os::Macos { major, minor }, arch: Arch::Aarch64 }
            },
            Self::X8664PcWindowsMsvc => Platform { os: Os::Windows, arch: Arch::X86_64 },
            Self::I686PcWindowsMsvc => Platform { os: Os::Windows, arch: Arch::X86 },
            Self::X8664UnknownLinuxGnu => Platform { os: Os::Manylinux { major: 2, minor: 28 }, arch: Arch::X86_64 },
            Self::Aarch64AppleDarwin => {
                let (major, minor) = configured_macos_target(deployment_target);
                Platform { os: Os::Macos { major, minor }, arch: Arch::Aarch64 }
            },
            Self::X8664AppleDarwin => {
                let (major, minor) = configured_macos_target(deployment_target);
                Platform { os: Os::Macos { major, minor }, arch: Arch::X86_64 }
            },
            Self::Aarch64UnknownLinuxGnu => Platform { os: Os::Manylinux { major: 2, minor: 28 }, arch: Arch::Aarch64 },
            Self::Aarch64UnknownLinuxMusl => Platform { os: Os::Musllinux { major: 1, minor: 2 }, arch: Arch::Aarch64 },
            Self::X8664UnknownLinuxMusl => Platform { os: Os::Musllinux { major: 1, minor: 2 }, arch: Arch::X86_64 },
            Self::X8664Manylinux2014 => Platform { os: Os::Manylinux { major: 2, minor: 17 }, arch: Arch::X86_64 },
            Self::X8664Manylinux217 => Platform { os: Os::Manylinux { major: 2, minor: 17 }, arch: Arch::X86_64 },
            Self::X8664Manylinux228 => Platform { os: Os::Manylinux { major: 2, minor: 28 }, arch: Arch::X86_64 },
            Self::X8664Manylinux231 => Platform { os: Os::Manylinux { major: 2, minor: 31 }, arch: Arch::X86_64 },
            Self::X8664Manylinux232 => Platform { os: Os::Manylinux { major: 2, minor: 32 }, arch: Arch::X86_64 },
            Self::X8664Manylinux233 => Platform { os: Os::Manylinux { major: 2, minor: 33 }, arch: Arch::X86_64 },
            Self::X8664Manylinux234 => Platform { os: Os::Manylinux { major: 2, minor: 34 }, arch: Arch::X86_64 },
            Self::X8664Manylinux235 => Platform { os: Os::Manylinux { major: 2, minor: 35 }, arch: Arch::X86_64 },
            Self::X8664Manylinux236 => Platform { os: Os::Manylinux { major: 2, minor: 36 }, arch: Arch::X86_64 },
            Self::X8664Manylinux237 => Platform { os: Os::Manylinux { major: 2, minor: 37 }, arch: Arch::X86_64 },
            Self::X8664Manylinux238 => Platform { os: Os::Manylinux { major: 2, minor: 38 }, arch: Arch::X86_64 },
            Self::X8664Manylinux239 => Platform { os: Os::Manylinux { major: 2, minor: 39 }, arch: Arch::X86_64 },
            Self::X8664Manylinux240 => Platform { os: Os::Manylinux { major: 2, minor: 40 }, arch: Arch::X86_64 },
            Self::Aarch64Manylinux2014 => Platform { os: Os::Manylinux { major: 2, minor: 17 }, arch: Arch::Aarch64 },
            Self::Aarch64Manylinux217 => Platform { os: Os::Manylinux { major: 2, minor: 17 }, arch: Arch::Aarch64 },
            Self::Aarch64Manylinux228 => Platform { os: Os::Manylinux { major: 2, minor: 28 }, arch: Arch::Aarch64 },
            Self::Aarch64Manylinux231 => Platform { os: Os::Manylinux { major: 2, minor: 31 }, arch: Arch::Aarch64 },
            Self::Aarch64Manylinux232 => Platform { os: Os::Manylinux { major: 2, minor: 32 }, arch: Arch::Aarch64 },
            Self::Aarch64Manylinux233 => Platform { os: Os::Manylinux { major: 2, minor: 33 }, arch: Arch::Aarch64 },
            Self::Aarch64Manylinux234 => Platform { os: Os::Manylinux { major: 2, minor: 34 }, arch: Arch::Aarch64 },
            Self::Aarch64Manylinux235 => Platform { os: Os::Manylinux { major: 2, minor: 35 }, arch: Arch::Aarch64 },
            Self::Aarch64Manylinux236 => Platform { os: Os::Manylinux { major: 2, minor: 36 }, arch: Arch::Aarch64 },
            Self::Aarch64Manylinux237 => Platform { os: Os::Manylinux { major: 2, minor: 37 }, arch: Arch::Aarch64 },
            Self::Aarch64Manylinux238 => Platform { os: Os::Manylinux { major: 2, minor: 38 }, arch: Arch::Aarch64 },
            Self::Aarch64Manylinux239 => Platform { os: Os::Manylinux { major: 2, minor: 39 }, arch: Arch::Aarch64 },
            Self::Aarch64Manylinux240 => Platform { os: Os::Manylinux { major: 2, minor: 40 }, arch: Arch::Aarch64 },
            Self::Wasm32Pyodide2024 => Platform { os: Os::Pyodide { major: 2024, minor: 0 }, arch: Arch::Wasm32 },
        }
    }

    /// Return the `platform_machine` value for the target.
    pub fn platform_machine(self) -> (r: &'static str)
        ensures
            r@ == machine_name(self.default_platform()),
    {
        match self {
            Self::Windows => "x86_64",
            Self::Linux => "x86_64",
            Self::Macos => "arm64",
            Self::X8664PcWindowsMsvc => "x86_64",
            Self::I686PcWindowsMsvc => "x86",
            Self::X8664UnknownLinuxGnu => "x86_64",
            Self::Aarch64AppleDarwin => "arm64",
            Self::X8664AppleDarwin => "x86_64",
            Self::Aarch64UnknownLinuxGnu => "aarch64",
            Self::Aarch64UnknownLinuxMusl => "aarch64",
            Self::X8664UnknownLinuxMusl => "x86_64",
            Self::X8664Manylinux2014 => "x86_64",
            Self::X8664Manylinux217 => "x86_64",
            Self::X8664Manylinux228 => "x86_64",
            Self::X8664Manylinux231 => "x86_64",
            Self::X8664Manylinux232 => "x86_64",
            Self::X8664Manylinux233 => "x86_64",
            Self::X8664Manylinux234 => "x86_64",
            Self::X8664Manylinux235 => "x86_64",
            Self::X8664Manylinux236 => "x86_64",
            Self::X8664Manylinux237 => "x86_64",
            Self::X8664Manylinux238 => "x86_64",
            Self::X8664Manylinux239 => "x86_64",
            Self::X8664Manylinux240 => "x86_64",
            Self::Aarch64Manylinux2014 => "aarch64",
            Self::Aarch64Manylinux217 => "aarch64",
            Self::Aarch64Manylinux228 => "aarch64",
            Self::Aarch64Manylinux231 => "aarch64",
            Self::Aarch64Manylinux232 => "aarch64",
            Self::Aarch64Manylinux233 => "aarch64",
            Self::Aarch64Manylinux234 => "aarch64",
            Self::Aarch64Manylinux235 => "aarch64",
            Self::Aarch64Manylinux236 => "aarch64",
            Self::Aarch64Manylinux237 => "aarch64",
            Self::Aarch64Manylinux238 => "aarch64",
            Self::Aarch64Manylinux239 => "aarch64",
            Self::Aarch64Manylinux240 => "aarch64",
            Self::Wasm32Pyodide2024 => "wasm32",
        }
    }

    /// Return the `platform_system` value for the target.
    pub fn platform_system(self) -> (r: &'static str)
        ensures
            r@ == system_name(self.default_platform().os),
    {
        match self {
            Self::Windows => "Windows",
            Self::Linux => "Linux",
            Self::Macos => "Darwin",
            Self::X8664PcWindowsMsvc => "Windows",
            Self::I686PcWindowsMsvc => "Windows",
            Self::X8664UnknownLinuxGnu => "Linux",
            Self::Aarch64AppleDarwin => "Darwin",
            Self::X8664AppleDarwin => "Darwin",
            Self::Aarch64UnknownLinuxGnu => "Linux",
            Self::Aarch64UnknownLinuxMusl => "Linux",
            Self::X8664UnknownLinuxMusl => "Linux",
            Self::X8664Manylinux2014 => "Linux",
            Self::X8664Manylinux217 => "Linux",
            Self::X8664Manylinux228 => "Linux",
            Self::X8664Manylinux231 => "Linux",
            Self::X8664Manylinux232 => "Linux",
            Self::X8664Manylinux233 => "Linux",
            Self::X8664Manylinux234 => "Linux",
            Self::X8664Manylinux235 => "Linux",
            Self::X8664Manylinux236 => "Linux",
            Self::X8664Manylinux237 => "Linux",
            Self::X8664Manylinux238 => "Linux",
            Self::X8664Manylinux239 => "Linux",
            Self::X8664Manylinux240 => "Linux",
            Self::Aarch64Manylinux2014 => "Linux",
            Self::Aarch64Manylinux217 => "Linux",
            Self::Aarch64Manylinux228 => "Linux",
            Self::Aarch64Manylinux231 => "Linux",
            Self::Aarch64Manylinux232 => "Linux",
            Self::Aarch64Manylinux233 => "Linux",
            Self::Aarch64Manylinux234 => "Linux",
            Self::Aarch64Manylinux235 => "Linux",
            Self::Aarch64Manylinux236 => "Linux",
            Self::Aarch64Manylinux237 => "Linux",
            Self::Aarch64Manylinux238 => "Linux",
            Self::Aarch64Manylinux239 => "Linux",
            Self::Aarch64Manylinux240 => "Linux",
            Self::Wasm32Pyodide2024 => "Emscripten",
        }
    }

    /// Return the `platform_version` value for the target.
    pub fn platform_version(self) -> (r: &'static str)
        ensures
            r@ == platform_version_of(self.default_platform().os),
    {
        match self {
            Self::Windows => "",
            Self::Linux => "",
            Self::Macos => "",
            Self::X8664PcWindowsMsvc => "",
            Self::I686PcWindowsMsvc => "",
            Self::X8664UnknownLinuxGnu => "",
            Self::Aarch64AppleDarwin => "",
            Self::X8664AppleDarwin => "",
            Self::Aarch64UnknownLinuxGnu => "",
            Self::Aarch64UnknownLinuxMusl => "",
            Self::X8664UnknownLinuxMusl => "",
            Self::X8664Manylinux2014 => "",
            Self::X8664Manylinux217 => "",
            Self::X8664Manylinux228 => "",
            Self::X8664Manylinux231 => "",
            Self::X8664Manylinux232 => "",
            Self::X8664Manylinux233 => "",
            Self::X8664Manylinux234 => "",
            Self::X8664Manylinux235 => "",
            Self::X8664Manylinux236 => "",
            Self::X8664Manylinux237 => "",
            Self::X8664Manylinux238 => "",
            Self::X8664Manylinux239 => "",
            Self::X8664Manylinux240 => "",
            Self::Aarch64Manylinux2014 => "",
            Self::Aarch64Manylinux217 => "",
            Self::Aarch64Manylinux228 => "",
            Self::Aarch64Manylinux231 => "",
            Self::Aarch64Manylinux232 => "",
            Self::Aarch64Manylinux233 => "",
            Self::Aarch64Manylinux234 => "",
            Self::Aarch64Manylinux235 => "",
            Self::Aarch64Manylinux236 => "",
            Self::Aarch64Manylinux237 => "",
            Self::Aarch64Manylinux238 => "",
            Self::Aarch64Manylinux239 => "",
            Self::Aarch64Manylinux240 => "",
            Self::Wasm32Pyodide2024 => "#1",
        }
    }

    /// Return the `platform_release` value for the target.
    pub fn platform_release(self) -> (r: &'static str)
        ensures
            r@ == platform_release_of(self.default_platform().os),
    {
        match self {
            Self::Windows => "",
            Self::Linux => "",
            Self::Macos => "",
            Self::X8664PcWindowsMsvc => "",
            Self::I686PcWindowsMsvc => "",
            Self::X8664UnknownLinuxGnu => "",
            Self::Aarch64AppleDarwin => "",
            Self::X8664AppleDarwin => "",
            Self::Aarch64UnknownLinuxGnu => "",
            Self::Aarch64UnknownLinuxMusl => "",
            Self::X8664UnknownLinuxMusl => "",
            Self::X8664Manylinux2014 => "",
            Self::X8664Manylinux217 => "",
            Self::X8664Manylinux228 => "",
            Self::X8664Manylinux231 => "",
            Self::X8664Manylinux232 => "",
            Self::X8664Manylinux233 => "",
            Self::X8664Manylinux234 => "",
            Self::X8664Manylinux235 => "",
            Self::X8664Manylinux236 => "",
            Self::X8664Manylinux237 => "",
            Self::X8664Manylinux238 => "",
            Self::X8664Manylinux239 => "",
            Self::X8664Manylinux240 => "",
            Self::Aarch64Manylinux2014 => "",
            Self::Aarch64Manylinux217 => "",
            Self::Aarch64Manylinux228 => "",
            Self::Aarch64Manylinux231 => "",
            Self::Aarch64Manylinux232 => "",
            Self::Aarch64Manylinux233 => "",
            Self::Aarch64Manylinux234 => "",
            Self::Aarch64Manylinux235 => "",
            Self::Aarch64Manylinux236 => "",
            Self::Aarch64Manylinux237 => "",
            Self::Aarch64Manylinux238 => "",
            Self::Aarch64Manylinux239 => "",
            Self::Aarch64Manylinux240 => "",
            Self::Wasm32Pyodide2024 => "3.1.58",
        }
    }

    /// Return the `os_name` value for the target.
    pub fn os_name(self) -> (r: &'static str)
        ensures
            r@ == os_name_of(self.default_platform().os),
    {
        match self {
            Self::Windows => "nt",
            Self::Linux => "posix",
            Self::Macos => "posix",
            Self::X8664PcWindowsMsvc => "nt",
            Self::I686PcWindowsMsvc => "nt",
            Self::X8664UnknownLinuxGnu => "posix",
            Self::Aarch64AppleDarwin => "posix",
            Self::X8664AppleDarwin => "posix",
            Self::Aarch64UnknownLinuxGnu => "posix",
            Self::Aarch64UnknownLinuxMusl => "posix",
            Self::X8664UnknownLinuxMusl => "posix",
            Self::X8664Manylinux2014 => "posix",
            Self::X8664Manylinux217 => "posix",
            Self::X8664Manylinux228 => "posix",
            Self::X8664Manylinux231 => "posix",
            Self::X8664Manylinux232 => "posix",
            Self::X8664Manylinux233 => "posix",
            Self::X8664Manylinux234 => "posix",
            Self::X8664Manylinux235 => "posix",
            Self::X8664Manylinux236 => "posix",
            Self::X8664Manylinux237 => "posix",
            Self::X8664Manylinux238 => "posix",
            Self::X8664Manylinux239 => "posix",
            Self::X8664Manylinux240 => "posix",
            Self::Aarch64Manylinux2014 => "posix",
            Self::Aarch64Manylinux217 => "posix",
            Self::Aarch64Manylinux228 => "posix",
            Self::Aarch64Manylinux231 => "posix",
            Self::Aarch64Manylinux232 => "posix",
            Self::Aarch64Manylinux233 => "posix",
            Self::Aarch64Manylinux234 => "posix",
            Self::Aarch64Manylinux235 => "posix",
            Self::Aarch64Manylinux236 => "posix",
            Self::Aarch64Manylinux237 => "posix",
            Self::Aarch64Manylinux238 => "posix",
            Self::Aarch64Manylinux239 => "posix",
            Self::Aarch64Manylinux240 => "posix",
            Self::Wasm32Pyodide2024 => "posix",
        }
    }

    /// Return the `sys_platform` value for the target.
    pub fn sys_platform(self) -> (r: &'static str)
        ensures
            r@ == sys_platform_name(self.default_platform().os),
    {
        match self {
            Self::Windows => "win32",
            Self::Linux => "linux",
            Self::Macos => "darwin",
            Self::X8664PcWindowsMsvc => "win32",
            Self::I686PcWindowsMsvc => "win32",
            Self::X8664UnknownLinuxGnu => "linux",
            Self::Aarch64AppleDarwin => "darwin",
            Self::X8664AppleDarwin => "darwin",
            Self::Aarch64UnknownLinuxGnu => "linux",
            Self::Aarch64UnknownLinuxMusl => "linux",
            Self::X8664UnknownLinuxMusl => "linux",
            Self::X8664Manylinux2014 => "linux",
            Self::X8664Manylinux217 => "linux",
            Self::X8664Manylinux228 => "linux",
            Self::X8664Manylinux231 => "linux",
            Self::X8664Manylinux232 => "linux",
            Self::X8664Manylinux233 => "linux",
            Self::X8664Manylinux234 => "linux",
            Self::X8664Manylinux235 => "linux",
            Self::X8664Manylinux236 => "linux",
            Self::X8664Manylinux237 => "linux",
            Self::X8664Manylinux238 => "linux",
            Self::X8664Manylinux239 => "linux",
            Self::X8664Manylinux240 => "linux",
            Self::Aarch64Manylinux2014 => "linux",
            Self::Aarch64Manylinux217 => "linux",
            Self::Aarch64Manylinux228 => "linux",
            Self::Aarch64Manylinux231 => "linux",
            Self::Aarch64Manylinux232 => "linux",
            Self::Aarch64Manylinux233 => "linux",
            Self::Aarch64Manylinux234 => "linux",
            Self::Aarch64Manylinux235 => "linux",
            Self::Aarch64Manylinux236 => "linux",
            Self::Aarch64Manylinux237 => "linux",
            Self::Aarch64Manylinux238 => "linux",
            Self::Aarch64Manylinux239 => "linux",
            Self::Aarch64Manylinux240 => "linux",
            Self::Wasm32Pyodide2024 => "emscripten",
        }
    }

    /// Return `true` if the platform is compatible with manylinux.
    pub fn manylinux_compatible(self) -> (r: bool)
        ensures
            r == is_linux(self.default_platform().os),
    {
        match self {
            Self::Windows => false,
            Self::Linux => true,
            Self::Macos => false,
            Self::X8664PcWindowsMsvc => false,
            Self::I686PcWindowsMsvc => false,
            Self::X8664UnknownLinuxGnu => true,
            Self::Aarch64AppleDarwin => false,
            Self::X8664AppleDarwin => false,
            Self::Aarch64UnknownLinuxGnu => true,
            Self::Aarch64UnknownLinuxMusl => true,
            Self::X8664UnknownLinuxMusl => true,
            Self::X8664Manylinux2014 => true,
            Self::X8664Manylinux217 => true,
            Self::X8664Manylinux228 => true,
            Self::X8664Manylinux231 => true,
            Self::X8664Manylinux232 => true,
            Self::X8664Manylinux233 => true,
            Self::X8664Manylinux234 => true,
            Self::X8664Manylinux235 => true,
            Self::X8664Manylinux236 => true,
            Self::X8664Manylinux237 => true,
            Self::X8664Manylinux238 => true,
            Self::X8664Manylinux239 => true,
            Self::X8664Manylinux240 => true,
            Self::Aarch64Manylinux2014 => true,
            Self::Aarch64Manylinux217 => true,
            Self::Aarch64Manylinux228 => true,
            Self::Aarch64Manylinux231 => true,
            Self::Aarch64Manylinux232 => true,
            Self::Aarch64Manylinux233 => true,
            Self::Aarch64Manylinux234 => true,
            Self::Aarch64Manylinux235 => true,
            Self::Aarch64Manylinux236 => true,
            Self::Aarch64Manylinux237 => true,
            Self::Aarch64Manylinux238 => true,
            Self::Aarch64Manylinux239 => true,
            Self::Aarch64Manylinux240 => true,
            Self::Wasm32Pyodide2024 => false,
        }
    }

}

/// The environment against which the `; marker` expression of a requirement is evaluated.
#[derive(Debug)]
pub struct MarkerEnvironment {
    pub implementation_name: String,
    pub implementation_version: String,
    pub os_name: String,
    pub platform_machine: String,
    pub platform_python_implementation: String,
    pub platform_release: String,
    pub platform_system: String,
    pub platform_version: String,
    pub python_full_version: String,
    pub python_version: String,
    pub sys_platform: String,
}

impl TargetTriple {
    /// Return the marker environment for the target: `base` with its six platform markers
    /// replaced by those of the target, and its interpreter markers kept.
    pub fn markers(self, base: &MarkerEnvironment) -> (r: MarkerEnvironment)
        ensures
            r.os_name@ == os_name_of(self.default_platform().os),
            r.platform_machine@ == machine_name(self.default_platform()),
            r.platform_system@ == system_name(self.default_platform().os),
            r.sys_platform@ == sys_platform_name(self.default_platform().os),
            r.platform_release@ == platform_release_of(self.default_platform().os),
            r.platform_version@ == platform_version_of(self.default_platform().os),
            r.implementation_name@ == base.implementation_name@,
            r.implementation_version@ == base.implementation_version@,
            r.platform_python_implementation@ == base.platform_python_implementation@,
            r.python_full_version@ == base.python_full_version@,
            r.python_version@ == base.python_version@,
    {
        MarkerEnvironment {
            implementation_name: base.implementation_name.clone(),
            implementation_version: base.implementation_version.clone(),
            os_name: String::from_str(self.os_name()),
            platform_machine: String::from_str(self.platform_machine()),
            platform_python_implementation: base.platform_python_implementation.clone(),
            platform_release: String::from_str(self.platform_release()),
            platform_system: String::from_str(self.platform_system()),
            platform_version: String::from_str(self.platform_version()),
            python_full_version: base.python_full_version.clone(),
            python_version: base.python_version.clone(),
            sys_platform: String::from_str(self.sys_platform()),
        }
    }
}

/// For every target triple, the `platform_system`, `platform_machine`, `sys_platform` and
/// `os_name` marker values are non-empty.
pub proof fn lemma_marker_values_nonempty(t: TargetTriple)
    ensures
        system_name(t.default_platform().os).len() > 0,
        machine_name(t.default_platform()).len() > 0,
        sys_platform_name(t.default_platform().os).len() > 0,
        os_name_of(t.default_platform().os).len() > 0,
{
    reveal_strlit("arm64");
    reveal_strlit("x86_64");
    reveal_strlit("x86");
    reveal_strlit("aarch64");
    reveal_strlit("wasm32");
    reveal_strlit("Windows");
    reveal_strlit("Linux");
    reveal_strlit("Darwin");
    reveal_strlit("Emscripten");
    reveal_strlit("win32");
    reveal_strlit("linux");
    reveal_strlit("darwin");
    reveal_strlit("emscripten");
    reveal_strlit("nt");
    reveal_strlit("posix");
}

/// Whether a character is an ASCII decimal digit.
pub open spec fn is_digit(c: char) -> bool {
    '0' <= c && c <= '9'
}

/// The value of a run of decimal digits.
pub open spec fn digits_value(s: Seq<char>) -> nat
    decreases s.len(),
{
    if s.len() == 0 {
        0
    } else {
        digits_value(s.drop_last()) * 10 + (s.last() as nat - '0' as nat) as nat
    }
}

/// Whether every character of `s` is a decimal digit.
pub open spec fn all_digits(s: Seq<char>) -> bool {
    forall|i: int| 0 <= i < s.len() ==> is_digit(#[trigger] s[i])
}

/// The digits of a decimal number with its optional leading `+` taken off.
pub open spec fn unsigned_part(s: Seq<char>) -> Seq<char> {
    if s.len() > 0 && s[0] == '+' {
        s.drop_first()
    } else {
        s
    }
}

/// What reading a `u16` from decimal text gives: an optional `+` sign, then one or more
/// digits whose value fits in 16 bits.
pub open spec fn parse_u16_spec(s: Seq<char>) -> Option<u16> {
    let digits = unsigned_part(s);
    if digits.len() > 0 && all_digits(digits) && digits_value(digits) <= u16::MAX {
        Some(digits_value(digits) as u16)
    } else {
        None
    }
}

/// The index of the first `.` in `s`, or its length where there is none.
pub open spec fn first_dot(s: Seq<char>) -> nat
    decreases s.len(),
{
    if s.len() == 0 {
        0
    } else if s[0] == '.' {
        0
    } else {
        1 + first_dot(s.drop_first())
    }
}

/// What a `MACOSX_DEPLOYMENT_TARGET` value gives: the major version is the text before the
/// first `.`, the minor version the text after it up to the next `.` (zero where there is
/// no `.`); both must read as a `u16`.
pub open spec fn deployment_target_spec(s: Seq<char>) -> Option<(u16, u16)> {
    let d = first_dot(s);
    let major = parse_u16_spec(s.subrange(0, d as int));
    let minor = if d == s.len() {
        Some(0u16)
    } else {
        let rest = s.subrange(d as int + 1, s.len() as int);
        parse_u16_spec(rest.subrange(0, first_dot(rest) as int))
    };
    match (major, minor) {
        (Some(a), Some(b)) => Some((a, b)),
        _ => None,
    }
}

/// The macOS deployment target in effect: the configured one where it is present and well
/// formed, macOS 13.0 otherwise.
pub open spec fn macos_target_or_default(deployment_target: Option<&str>) -> (u16, u16) {
    match deployment_target {
        Some(v) => match deployment_target_spec(v@) {
            Some(t) => t,
            None => (DEFAULT_MACOS_MAJOR, DEFAULT_MACOS_MINOR),
        },
        None => (DEFAULT_MACOS_MAJOR, DEFAULT_MACOS_MINOR),
    }
}

proof fn lemma_first_dot_bound(s: Seq<char>)
    ensures
        first_dot(s) <= s.len(),
        first_dot(s) < s.len() ==> s[first_dot(s) as int] == '.',
        forall|k: int| 0 <= k < first_dot(s) ==> s[k] != '.',
    decreases s.len(),
{
    if s.len() > 0 && s[0] != '.' {
        lemma_first_dot_bound(s.drop_first());
        assert forall|k: int| 0 <= k < first_dot(s) implies s[k] != '.' by {
            if k > 0 {
                assert(s[k] == s.drop_first()[k - 1]);
            }
        }
    }
}

proof fn lemma_digits_value_prefix(s: Seq<char>, k: int)
    requires
        0 <= k <= s.len(),
        all_digits(s),
    ensures
        digits_value(s.subrange(0, k)) <= digits_value(s),
    decreases s.len(),
{
    if k < s.len() {
        let t = s.drop_last();
        assert forall|i: int| 0 <= i < t.len() implies is_digit(#[trigger] t[i]) by {
            assert(t[i] == s[i]);
        }
        lemma_digits_value_prefix(t, k);
        assert(t.subrange(0, k) =~= s.subrange(0, k));
    } else {
        assert(s.subrange(0, k) =~= s);
    }
}

/// Return `start + first_dot(s[start..])`: the index of the first `.` at or after `start`.
fn find_dot(s: &str, start: usize) -> (r: usize)
    requires
        start <= s@.len(),
    ensures
        r == start + first_dot(s@.subrange(start as int, s@.len() as int)),
{
    let len = s.unicode_len();
    let mut i = start;
    while i < len
        invariant
            len == s@.len(),
            start <= i <= len,
            first_dot(s@.subrange(start as int, len as int)) == (i - start) + first_dot(
                s@.subrange(i as int, len as int),
            ),
        decreases len - i,
    {
        if s.get_char(i) == '.' {
            return i;
        }
        assert(s@.subrange(i as int, len as int).drop_first() =~= s@.subrange(
            i + 1,
            len as int,
        ));
        i = i + 1;
    }
    i
}

/// Read a `u16` from the characters `lo..hi` of `s`, as [`parse_u16_spec`] describes.
fn parse_u16(s: &str, lo: usize, hi: usize) -> (r: Option<u16>)
    requires
        lo <= hi <= s@.len(),
    ensures
        r == parse_u16_spec(s@.subrange(lo as int, hi as int)),
{
    let ghost text = s@.subrange(lo as int, hi as int);
    let mut start = lo;
    if lo < hi && s.get_char(lo) == '+' {
        start = lo + 1;
    }
    let ghost digits = s@.subrange(start as int, hi as int);
    assert(digits =~= unsigned_part(text));
    if start == hi {
        return None;
    }
    let mut acc: u32 = 0;
    let mut i = start;
    while i < hi
        invariant
            lo <= start < hi <= s@.len(),
            start <= i <= hi,
            digits == s@.subrange(start as int, hi as int),
            text == s@.subrange(lo as int, hi as int),
            digits == unsigned_part(text),
            forall|k: int| start <= k < i ==> is_digit(#[trigger] s@[k]),
            acc == digits_value(s@.subrange(start as int, i as int)),
            acc <= 65535,
        decreases hi - i,
    {
        let c = s.get_char(i);
        if !('0' <= c && c <= '9') {
            assert(!is_digit(digits[i - start]));
            assert(!all_digits(digits));
            return None;
        }
        let d = (c as u32) - ('0' as u32);
        assert(s@.subrange(start as int, i + 1).drop_last() =~= s@.subrange(start as int, i as int));
        let next = acc * 10 + d;
        assert(next == digits_value(s@.subrange(start as int, i + 1)));
        if next > 65535 {
            proof {
                if all_digits(digits) {
                    lemma_digits_value_prefix(digits, i + 1 - start);
                    assert(digits.subrange(0, i + 1 - start) =~= s@.subrange(start as int, i + 1));
                }
            }
            return None;
        }
        acc = next;
        i = i + 1;
    }
    assert forall|k: int| 0 <= k < digits.len() implies is_digit(#[trigger] digits[k]) by {
        assert(digits[k] == s@[start + k]);
    }
    assert(digits =~= s@.subrange(start as int, i as int));
    Some(acc as u16)
}

/// Parse a macOS deployment target such as `12.0` (or `12`, read as `12.0`) into its major
/// and minor versions.
pub fn macos_deployment_target(value: &str) -> (r: Option<(u16, u16)>)
    ensures
        r == deployment_target_spec(value@),
{
    let len = value.unicode_len();
    let d = find_dot(value, 0);
    proof {
        assert(value@.subrange(0, len as int) =~= value@);
        lemma_first_dot_bound(value@);
    }
    let major = parse_u16(value, 0, d);
    let minor = if d == len {
        Some(0u16)
    } else {
        let e = find_dot(value, d + 1);
        let ghost rest = value@.subrange(d + 1, len as int);
        proof {
            lemma_first_dot_bound(rest);
            assert(rest.subrange(0, first_dot(rest) as int) =~= value@.subrange(
                d + 1,
                e as int,
            ));
        }
        parse_u16(value, d + 1, e)
    };
    match (major, minor) {
        (Some(a), Some(b)) => Some((a, b)),
        _ => None,
    }
}

/// The deployment target in effect for a macOS triple, as [`macos_target_or_default`] says.
fn configured_macos_target(deployment_target: Option<&str>) -> (r: (u16, u16))
    ensures
        r == macos_target_or_default(deployment_target),
{
    match deployment_target {
        Some(v) => match macos_deployment_target(v) {
            Some(t) => t,
            None => (DEFAULT_MACOS_MAJOR, DEFAULT_MACOS_MINOR),
        },
        None => (DEFAULT_MACOS_MAJOR, DEFAULT_MACOS_MINOR),
    }
}

} // verus!
