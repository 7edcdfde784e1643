use uv_pip::options::{
    flag, resolver_installer_options, resolver_options, BuildOptionsArgs, ConfigSetting,
    ExcludeNewerPackageEntry, FetchArgs, IndexArgs, IndexStrategy, InstallerArgs, LinkMode, Maybe,
    PipOptions, PrereleaseMode, Refresh, RefreshArgs, ResolutionMode, ResolverArgs,
    ResolverInstallerArgs,
};

fn s(v: &str) -> String {
    v.to_string()
}

fn no_index_args() -> IndexArgs {
    IndexArgs {
        default_index: None,
        index: None,
        index_url: None,
        extra_index_url: None,
        no_index: false,
        find_links: None,
    }
}

fn no_build_args() -> BuildOptionsArgs {
    BuildOptionsArgs {
        no_build: false,
        build: false,
        no_build_package: vec![],
        no_binary: false,
        binary: false,
        no_binary_package: vec![],
    }
}

fn resolver_args() -> ResolverArgs {
    ResolverArgs {
        index_args: no_index_args(),
        upgrade: false,
        no_upgrade: false,
        upgrade_package: vec![],
        index_strategy: None,
        keyring_provider: None,
        resolution: None,
        prerelease: None,
        pre: false,
        fork_strategy: None,
        config_setting: None,
        config_settings_package: None,
        no_build_isolation: false,
        no_build_isolation_package: vec![],
        build_isolation: false,
        exclude_newer: None,
        link_mode: None,
        no_sources: false,
        exclude_newer_package: None,
    }
}

fn resolver_installer_args() -> ResolverInstallerArgs {
    ResolverInstallerArgs {
        index_args: no_index_args(),
        upgrade: false,
        no_upgrade: false,
        upgrade_package: vec![],
        reinstall: false,
        no_reinstall: false,
        reinstall_package: vec![],
        index_strategy: None,
        keyring_provider: None,
        resolution: None,
        prerelease: None,
        pre: false,
        fork_strategy: None,
        config_setting: None,
        config_settings_package: None,
        no_build_isolation: false,
        no_build_isolation_package: vec![],
        build_isolation: false,
        exclude_newer: None,
        exclude_newer_package: None,
        link_mode: None,
        compile_bytecode: false,
        no_compile_bytecode: false,
        no_sources: false,
    }
}

#[test]
fn flag_truth_table() {
    assert_eq!(flag(true, false, "upgrade").unwrap(), Some(true));
    assert_eq!(flag(false, true, "upgrade").unwrap(), Some(false));
    assert_eq!(flag(false, false, "upgrade").unwrap(), None);
    assert!(flag(true, true, "upgrade").is_err());
}

#[test]
fn flag_conflict_is_a_usage_error() {
    let err = flag(true, true, "upgrade").unwrap_err();
    assert_eq!(err.name, "upgrade");
    assert_eq!(err.exit_code(), 2);
    let message = err.message();
    assert!(message.starts_with("`--upgrade` and `--no-upgrade` cannot be used together."));
    assert!(message.contains("Boolean flags on different levels are currently not supported"));
}

#[test]
fn upgrade_and_no_upgrade_together_fail() {
    let mut args = resolver_installer_args();
    args.upgrade = true;
    args.no_upgrade = true;
    let err = resolver_installer_options(args, no_build_args()).unwrap_err();
    assert_eq!(err.name, "upgrade");
    assert_eq!(err.exit_code(), 2);
    let message = err.message();
    assert!(message.contains("--upgrade"));
    assert!(message.contains("--no-upgrade"));
}

#[test]
fn first_conflict_is_reported() {
    let mut args = resolver_args();
    args.no_build_isolation = true;
    args.build_isolation = true;
    let mut build = no_build_args();
    build.binary = true;
    build.no_binary = true;
    let err = resolver_options(args, build).unwrap_err();
    assert_eq!(err.name, "build-isolation");

    let mut args = resolver_installer_args();
    args.compile_bytecode = true;
    args.no_compile_bytecode = true;
    let mut build = no_build_args();
    build.no_build = true;
    build.build = true;
    let err = resolver_installer_options(args, build).unwrap_err();
    assert_eq!(err.name, "compile-bytecode");

    let mut build = no_build_args();
    build.no_build = true;
    build.build = true;
    let err = resolver_options(resolver_args(), build).unwrap_err();
    assert_eq!(err.name, "build");
}

#[test]
fn default_index_takes_precedence_over_index_list() {
    let mut args = resolver_args();
    args.index_args.default_index = Some(Maybe::Value(s("https://default.example/simple")));
    args.index_args.index = Some(vec![vec![Maybe::Value(s("https://a.example/simple"))]]);
    let o = resolver_options(args, no_build_args()).unwrap();
    assert_eq!(o.index, Some(vec![s("https://default.example/simple")]));
}

#[test]
fn index_list_shows_through_and_drops_sentinels() {
    let mut args = resolver_args();
    args.index_args.default_index = Some(Maybe::Cleared);
    args.index_args.index = Some(vec![
        vec![Maybe::Value(s("https://a.example/simple")), Maybe::Cleared],
        vec![],
        vec![Maybe::Value(s("https://b.example/simple"))],
    ]);
    args.index_args.index_url = Some(Maybe::Cleared);
    args.index_args.extra_index_url = Some(vec![
        Maybe::Cleared,
        Maybe::Value(s("https://extra.example/simple")),
    ]);
    args.index_args.find_links = Some(vec![Maybe::Value(s("./wheels"))]);
    args.index_args.no_index = true;
    let o = resolver_options(args, no_build_args()).unwrap();
    assert_eq!(
        o.index,
        Some(vec![s("https://a.example/simple"), s("https://b.example/simple")])
    );
    assert_eq!(o.index_url, None);
    assert_eq!(o.extra_index_url, Some(vec![s("https://extra.example/simple")]));
    assert_eq!(o.find_links, Some(vec![s("./wheels")]));
    assert_eq!(o.no_index, Some(true));
}

#[test]
fn unset_options_stay_unset() {
    let o = resolver_options(resolver_args(), no_build_args()).unwrap();
    assert_eq!(o.index, None);
    assert_eq!(o.index_url, None);
    assert_eq!(o.extra_index_url, None);
    assert_eq!(o.no_index, None);
    assert_eq!(o.upgrade, None);
    assert_eq!(o.no_build_isolation, None);
    assert_eq!(o.no_build, None);
    assert_eq!(o.no_binary, None);
    assert_eq!(o.no_sources, None);
    assert_eq!(o.prerelease, None);
    assert_eq!(o.upgrade_package, None);
    assert_eq!(o.no_build_isolation_package, None);
    assert_eq!(o.no_build_package, None);
    assert_eq!(o.no_binary_package, None);
    assert_eq!(o.exclude_newer.global, None);
    assert!(o.exclude_newer.package.is_empty());
}

#[test]
fn pre_forces_allow() {
    let mut args = resolver_args();
    args.pre = true;
    args.prerelease = Some(PrereleaseMode::Disallow);
    let o = resolver_options(args, no_build_args()).unwrap();
    assert_eq!(o.prerelease, Some(PrereleaseMode::Allow));

    let mut args = resolver_args();
    args.prerelease = Some(PrereleaseMode::IfNecessary);
    let o = resolver_options(args, no_build_args()).unwrap();
    assert_eq!(o.prerelease, Some(PrereleaseMode::IfNecessary));
}

#[test]
fn resolver_options_carry_values_through() {
    let mut args = resolver_args();
    args.upgrade = true;
    args.upgrade_package = vec![s("requests")];
    args.resolution = Some(ResolutionMode::LowestDirect);
    args.link_mode = Some(LinkMode::Symlink);
    args.no_sources = true;
    args.exclude_newer = Some(s("2024-01-01T00:00:00Z"));
    args.exclude_newer_package = Some(vec![ExcludeNewerPackageEntry {
        package: s("numpy"),
        timestamp: s("2023-06-01T00:00:00Z"),
    }]);
    args.config_setting = Some(vec![ConfigSetting { key: s("editable_mode"), value: s("compat") }]);
    let mut build = no_build_args();
    build.build = true;
    build.no_binary = true;
    build.no_binary_package = vec![s("lxml")];
    let o = resolver_options(args, build).unwrap();
    assert_eq!(o.upgrade, Some(true));
    assert_eq!(o.upgrade_package, Some(vec![s("requests")]));
    assert_eq!(o.resolution, Some(ResolutionMode::LowestDirect));
    assert_eq!(o.link_mode, Some(LinkMode::Symlink));
    assert_eq!(o.no_sources, Some(true));
    assert_eq!(o.no_build, Some(false));
    assert_eq!(o.no_binary, Some(true));
    assert_eq!(o.no_binary_package, Some(vec![s("lxml")]));
    assert_eq!(o.exclude_newer.global, Some(s("2024-01-01T00:00:00Z")));
    assert_eq!(o.exclude_newer.package.len(), 1);
    assert_eq!(o.exclude_newer.package[0].package, "numpy");
    let settings = o.config_settings.unwrap();
    assert_eq!(settings.len(), 1);
    assert_eq!(settings[0].key, "editable_mode");
}

#[test]
fn empty_package_lists_leave_settings_unset() {
    let mut args = resolver_installer_args();
    args.reinstall_package = vec![s("flask")];
    args.no_reinstall = true;
    args.compile_bytecode = true;
    let o = resolver_installer_options(args, no_build_args()).unwrap();
    assert_eq!(o.upgrade_package, None);
    assert_eq!(o.reinstall_package, Some(vec![s("flask")]));
    assert_eq!(o.no_build_isolation_package, None);
    assert_eq!(o.no_build_package, None);
    assert_eq!(o.no_binary_package, None);
    assert_eq!(o.reinstall, Some(false));
    assert_eq!(o.compile_bytecode, Some(true));
}

fn installer_args() -> InstallerArgs {
    InstallerArgs {
        index_args: no_index_args(),
        reinstall: false,
        no_reinstall: false,
        reinstall_package: vec![],
        index_strategy: None,
        keyring_provider: None,
        config_setting: None,
        config_settings_package: None,
        no_build_isolation: false,
        build_isolation: false,
        exclude_newer: None,
        link_mode: None,
        compile_bytecode: false,
        no_compile_bytecode: false,
        no_sources: false,
        exclude_newer_package: None,
    }
}

#[test]
fn pip_options_from_index_args() {
    let mut index_args = no_index_args();
    index_args.index_url = Some(Maybe::Value(s("https://pypi.org/simple")));
    index_args.no_index = true;
    let o = PipOptions::from_index_args(index_args);
    assert_eq!(o.index_url, Some(s("https://pypi.org/simple")));
    assert_eq!(o.no_index, Some(true));
    assert_eq!(o.index, None);
    assert_eq!(o.upgrade, None);
    assert_eq!(o.compile_bytecode, None);
}

#[test]
fn pip_options_from_resolver_args() {
    let mut args = resolver_args();
    args.no_upgrade = true;
    args.pre = true;
    args.build_isolation = true;
    args.index_args.find_links = Some(vec![Maybe::Value(s("./dist"))]);
    let o = PipOptions::from_resolver_args(args).unwrap();
    assert_eq!(o.upgrade, Some(false));
    assert_eq!(o.upgrade_package, None);
    assert_eq!(o.prerelease, Some(PrereleaseMode::Allow));
    assert_eq!(o.no_build_isolation, Some(false));
    assert_eq!(o.find_links, Some(vec![s("./dist")]));
    assert_eq!(o.reinstall, None);
    assert_eq!(o.compile_bytecode, None);

    let mut args = resolver_args();
    args.upgrade = true;
    args.no_upgrade = true;
    assert_eq!(PipOptions::from_resolver_args(args).unwrap_err().name, "upgrade");
}

#[test]
fn pip_options_from_installer_args() {
    let mut args = installer_args();
    args.reinstall = true;
    args.reinstall_package = vec![s("numpy")];
    args.no_compile_bytecode = true;
    args.link_mode = Some(LinkMode::Copy);
    let o = PipOptions::from_installer_args(args).unwrap();
    assert_eq!(o.reinstall, Some(true));
    assert_eq!(o.reinstall_package, Some(vec![s("numpy")]));
    assert_eq!(o.compile_bytecode, Some(false));
    assert_eq!(o.link_mode, Some(LinkMode::Copy));
    assert_eq!(o.upgrade, None);
    assert_eq!(o.resolution, None);

    let mut args = installer_args();
    args.compile_bytecode = true;
    args.no_compile_bytecode = true;
    assert_eq!(PipOptions::from_installer_args(args).unwrap_err().name, "compile-bytecode");
}

#[test]
fn pip_options_from_resolver_installer_args() {
    let mut args = resolver_installer_args();
    args.upgrade = true;
    args.no_reinstall = true;
    args.no_sources = true;
    let o = PipOptions::from_resolver_installer_args(args).unwrap();
    assert_eq!(o.upgrade, Some(true));
    assert_eq!(o.reinstall, Some(false));
    assert_eq!(o.no_sources, Some(true));
    assert_eq!(o.upgrade_package, None);

    let mut args = resolver_installer_args();
    args.reinstall = true;
    args.no_reinstall = true;
    assert_eq!(PipOptions::from_resolver_installer_args(args).unwrap_err().name, "reinstall");
}

#[test]
fn pip_options_from_fetch_args() {
    let args = FetchArgs {
        index_args: no_index_args(),
        index_strategy: Some(IndexStrategy::UnsafeBestMatch),
        keyring_provider: None,
        exclude_newer: Some(s("2024-05-01")),
    };
    let o = PipOptions::from_fetch_args(args);
    assert_eq!(o.index_strategy, Some(IndexStrategy::UnsafeBestMatch));
    assert_eq!(o.exclude_newer, Some(s("2024-05-01")));
    assert_eq!(o.upgrade, None);
}

#[test]
fn refresh_policy() {
    let args = |refresh, no_refresh, packages: Vec<String>| RefreshArgs {
        refresh,
        no_refresh,
        refresh_package: packages,
    };
    assert!(matches!(Refresh::from_args(args(true, false, vec![]), 7), Ok(Refresh::All(7))));
    assert!(matches!(
        Refresh::from_args(args(false, true, vec![s("a")]), 7),
        Ok(Refresh::Nothing(7))
    ));
    assert!(matches!(
        Refresh::from_args(args(false, false, vec![]), 7),
        Ok(Refresh::Nothing(7))
    ));
    match Refresh::from_args(args(false, false, vec![s("flask")]), 9) {
        Ok(Refresh::Packages(packages, 9)) => assert_eq!(packages, vec![s("flask")]),
        _ => panic!("expected the listed packages to be refreshed"),
    }
    let err = Refresh::from_args(args(true, true, vec![]), 7).unwrap_err();
    assert_eq!(err.name, "refresh");
}
