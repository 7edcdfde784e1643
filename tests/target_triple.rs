use uv_pip::target_triple::{
    macos_deployment_target, Arch, MarkerEnvironment, Os, Platform, TargetTriple,
};

fn all_triples() -> Vec<TargetTriple> {
    vec![
        TargetTriple::Windows,
        TargetTriple::Linux,
        TargetTriple::Macos,
        TargetTriple::X8664PcWindowsMsvc,
        TargetTriple::I686PcWindowsMsvc,
        TargetTriple::X8664UnknownLinuxGnu,
        TargetTriple::Aarch64AppleDarwin,
        TargetTriple::X8664AppleDarwin,
        TargetTriple::Aarch64UnknownLinuxGnu,
        TargetTriple::Aarch64UnknownLinuxMusl,
        TargetTriple::X8664UnknownLinuxMusl,
        TargetTriple::X8664Manylinux2014,
        TargetTriple::X8664Manylinux217,
        TargetTriple::X8664Manylinux228,
        TargetTriple::X8664Manylinux231,
        TargetTriple::X8664Manylinux232,
        TargetTriple::X8664Manylinux233,
        TargetTriple::X8664Manylinux234,
        TargetTriple::X8664Manylinux235,
        TargetTriple::X8664Manylinux236,
        TargetTriple::X8664Manylinux237,
        TargetTriple::X8664Manylinux238,
        TargetTriple::X8664Manylinux239,
        TargetTriple::X8664Manylinux240,
        TargetTriple::Aarch64Manylinux2014,
        TargetTriple::Aarch64Manylinux217,
        TargetTriple::Aarch64Manylinux228,
        TargetTriple::Aarch64Manylinux231,
        TargetTriple::Aarch64Manylinux232,
        TargetTriple::Aarch64Manylinux233,
        TargetTriple::Aarch64Manylinux234,
        TargetTriple::Aarch64Manylinux235,
        TargetTriple::Aarch64Manylinux236,
        TargetTriple::Aarch64Manylinux237,
        TargetTriple::Aarch64Manylinux238,
        TargetTriple::Aarch64Manylinux239,
        TargetTriple::Aarch64Manylinux240,
        TargetTriple::Wasm32Pyodide2024,
    ]
}

#[test]
fn marker_values_are_non_empty() {
    for t in all_triples() {
        assert!(!t.platform_system().is_empty(), "{:?}", t);
        assert!(!t.platform_machine().is_empty(), "{:?}", t);
        assert!(!t.sys_platform().is_empty(), "{:?}", t);
        assert!(!t.os_name().is_empty(), "{:?}", t);
    }
}

#[test]
fn windows_target_markers() {
    let t = TargetTriple::X8664PcWindowsMsvc;
    assert_eq!(t.os_name(), "nt");
    assert_eq!(t.sys_platform(), "win32");
    assert_eq!(t.platform_machine(), "x86_64");
    assert_eq!(t.platform_system(), "Windows");
    assert_eq!(t.platform_version(), "");
    assert_eq!(t.platform_release(), "");
    assert!(!t.manylinux_compatible());
    assert_eq!(t.platform(None), Platform { os: Os::Windows, arch: Arch::X86_64 });
}

#[test]
fn aliases_match_their_canonical_targets() {
    let pairs = [
        (TargetTriple::Windows, TargetTriple::X8664PcWindowsMsvc),
        (TargetTriple::Linux, TargetTriple::X8664UnknownLinuxGnu),
        (TargetTriple::Macos, TargetTriple::Aarch64AppleDarwin),
    ];
    for (alias, canonical) in pairs {
        assert_eq!(alias.platform(None), canonical.platform(None));
        assert_eq!(alias.platform_machine(), canonical.platform_machine());
        assert_eq!(alias.platform_system(), canonical.platform_system());
        assert_eq!(alias.sys_platform(), canonical.sys_platform());
        assert_eq!(alias.os_name(), canonical.os_name());
    }
}

#[test]
fn linux_targets() {
    assert_eq!(
        TargetTriple::Linux.platform(None),
        Platform { os: Os::Manylinux { major: 2, minor: 28 }, arch: Arch::X86_64 }
    );
    assert_eq!(
        TargetTriple::Aarch64Manylinux2014.platform(None),
        Platform { os: Os::Manylinux { major: 2, minor: 17 }, arch: Arch::Aarch64 }
    );
    assert_eq!(
        TargetTriple::X8664Manylinux240.platform(None),
        Platform { os: Os::Manylinux { major: 2, minor: 40 }, arch: Arch::X86_64 }
    );
    assert_eq!(
        TargetTriple::Aarch64UnknownLinuxMusl.platform(None),
        Platform { os: Os::Musllinux { major: 1, minor: 2 }, arch: Arch::Aarch64 }
    );
    assert!(TargetTriple::X8664UnknownLinuxMusl.manylinux_compatible());
    assert!(TargetTriple::Aarch64Manylinux235.manylinux_compatible());
    assert_eq!(TargetTriple::Aarch64UnknownLinuxGnu.platform_machine(), "aarch64");
    assert_eq!(TargetTriple::X8664Manylinux231.sys_platform(), "linux");
    assert_eq!(TargetTriple::X8664Manylinux231.os_name(), "posix");
    assert_eq!(TargetTriple::I686PcWindowsMsvc.platform_machine(), "x86");
}

#[test]
fn macos_targets() {
    assert_eq!(TargetTriple::Macos.platform_machine(), "arm64");
    assert_eq!(TargetTriple::X8664AppleDarwin.platform_machine(), "x86_64");
    assert_eq!(TargetTriple::Macos.platform_system(), "Darwin");
    assert_eq!(TargetTriple::Macos.sys_platform(), "darwin");
    assert_eq!(
        TargetTriple::Macos.platform(None),
        Platform { os: Os::Macos { major: 13, minor: 0 }, arch: Arch::Aarch64 }
    );
    assert_eq!(
        TargetTriple::X8664AppleDarwin.platform(Some("12.3")),
        Platform { os: Os::Macos { major: 12, minor: 3 }, arch: Arch::X86_64 }
    );
    assert_eq!(
        TargetTriple::Aarch64AppleDarwin.platform(Some("not-a-version")),
        Platform { os: Os::Macos { major: 13, minor: 0 }, arch: Arch::Aarch64 }
    );
    // The deployment target only matters for macOS.
    assert_eq!(
        TargetTriple::Linux.platform(Some("12.3")),
        Platform { os: Os::Manylinux { major: 2, minor: 28 }, arch: Arch::X86_64 }
    );
}

#[test]
fn deployment_target_parsing() {
    assert_eq!(macos_deployment_target("12.0"), Some((12, 0)));
    assert_eq!(macos_deployment_target("14"), Some((14, 0)));
    assert_eq!(macos_deployment_target("10.15.7"), Some((10, 15)));
    assert_eq!(macos_deployment_target("+11.2"), Some((11, 2)));
    assert_eq!(macos_deployment_target("011.02"), Some((11, 2)));
    assert_eq!(macos_deployment_target("65535.65535"), Some((65535, 65535)));
    assert_eq!(macos_deployment_target("65536"), None);
    assert_eq!(macos_deployment_target("12.65536"), None);
    assert_eq!(macos_deployment_target(""), None);
    assert_eq!(macos_deployment_target("."), None);
    assert_eq!(macos_deployment_target("12."), None);
    assert_eq!(macos_deployment_target("-12"), None);
    assert_eq!(macos_deployment_target("+"), None);
    assert_eq!(macos_deployment_target("12.x"), None);
    assert_eq!(macos_deployment_target("1 2"), None);
}

#[test]
fn pyodide_target() {
    let t = TargetTriple::Wasm32Pyodide2024;
    assert_eq!(t.platform_machine(), "wasm32");
    assert_eq!(t.platform_system(), "Emscripten");
    assert_eq!(t.sys_platform(), "emscripten");
    assert_eq!(t.os_name(), "posix");
    assert_eq!(t.platform_version(), "#1");
    assert_eq!(t.platform_release(), "3.1.58");
    assert!(!t.manylinux_compatible());
    assert_eq!(
        t.platform(None),
        Platform { os: Os::Pyodide { major: 2024, minor: 0 }, arch: Arch::Wasm32 }
    );
}

fn linux_markers() -> MarkerEnvironment {
    MarkerEnvironment {
        implementation_name: "cpython".to_string(),
        implementation_version: "3.12.1".to_string(),
        os_name: "posix".to_string(),
        platform_machine: "x86_64".to_string(),
        platform_python_implementation: "CPython".to_string(),
        platform_release: "6.1.0".to_string(),
        platform_system: "Linux".to_string(),
        platform_version: "#1 SMP".to_string(),
        python_full_version: "3.12.1".to_string(),
        python_version: "3.12".to_string(),
        sys_platform: "linux".to_string(),
    }
}

#[test]
fn python_platform_overrides_platform_markers_only() {
    let base = linux_markers();
    let m = TargetTriple::X8664PcWindowsMsvc.markers(&base);
    assert_eq!(m.os_name, "nt");
    assert_eq!(m.sys_platform, "win32");
    assert_eq!(m.platform_machine, "x86_64");
    assert_eq!(m.platform_system, "Windows");
    assert_eq!(m.platform_release, "");
    assert_eq!(m.platform_version, "");
    assert_eq!(m.python_version, "3.12");
    assert_eq!(m.python_full_version, "3.12.1");
    assert_eq!(m.implementation_name, "cpython");
    assert_eq!(m.implementation_version, "3.12.1");
    assert_eq!(m.platform_python_implementation, "CPython");
}
