//! Normalization of command-line option groups into settings records: boolean flag pairs
//! collapse to three-valued booleans, index lists merge by precedence, and per-package lists
//! that are empty leave the setting unset.

use vstd::prelude::*;

verus! {

/// The two flags of one boolean option were given together (for example `--upgrade` and
/// `--no-upgrade`). This is a usage error.
#[derive(Debug)]
pub struct FlagConflict {
    /// The option's name, without dashes.
    pub name: String,
}

/// The exit code of a usage error.
pub const USAGE_ERROR_EXIT_CODE: i32 = 2;

/// The text that reports a flag conflict on the option `name`.
pub open spec fn conflict_message(name: Seq<char>) -> Seq<char> {
    "`--"@ + name + "` and `--no-"@ + name
        + "` cannot be used together. Boolean flags on different levels are currently not supported (https://github.com/clap-rs/clap/issues/6049)"@
}

impl FlagConflict {
    /// The exit code with which the command stops on this error.
    pub fn exit_code(&self) -> (r: i32)
        ensures
            r == USAGE_ERROR_EXIT_CODE,
    {
        USAGE_ERROR_EXIT_CODE
    }

    /// The message that names both flags.
    pub fn message(&self) -> (r: String)
        ensures
            r@ == conflict_message(self.name@),
    {
        let r = String::from_str("`--");
        let r = r.concat(self.name.as_str());
        let r = r.concat("` and `--no-");
        let r = r.concat(self.name.as_str());
        r.concat(
            "` cannot be used together. Boolean flags on different levels are currently not supported (https://github.com/clap-rs/clap/issues/6049)",
        )
    }
}

/// The value of a flag pair that does not conflict: set, unset, or inherited.
pub open spec fn flag_value(yes: bool, no: bool) -> Option<bool> {
    if yes {
        Some(true)
    } else if no {
        Some(false)
    } else {
        None
    }
}

/// Given a boolean flag pair (like `--upgrade` and `--no-upgrade`), resolve the value of the flag.
/// Both flags at once are a usage error, returned as [`FlagConflict`] for the caller to report
/// and exit on.
pub fn flag(yes: bool, no: bool, name: &str) -> (r: Result<Option<bool>, FlagConflict>)
    ensures
        r is Err <==> yes && no,
        r is Err ==> r->Err_0.name@ == name@,
        !(yes && no) ==> r == Ok::<Option<bool>, FlagConflict>(flag_value(yes, no)),
        (yes && !no) ==> r == Ok::<Option<bool>, FlagConflict>(Some(true)),
        (!yes && no) ==> r == Ok::<Option<bool>, FlagConflict>(Some(false)),
        (!yes && !no) ==> r == Ok::<Option<bool>, FlagConflict>(None),
{
    match (yes, no) {
        (true, false) => Ok(Some(true)),
        (false, true) => Ok(Some(false)),
        (false, false) => Ok(None),
        (true, true) => Err(FlagConflict { name: String::from_str(name) }),
    }
}


/// A command-line value that may be the sentinel `none`, which clears the setting.
#[derive(Debug, Clone)]
pub enum Maybe<T> {
    Value(T),
    Cleared,
}

impl<T> Maybe<T> {
    /// The value, or nothing for the sentinel.
    pub open spec fn spec_into_option(self) -> Option<T> {
        match self {
            Maybe::Value(v) => Some(v),
            Maybe::Cleared => None,
        }
    }

    /// Return the value, or `None` for the sentinel.
    pub fn into_option(self) -> (r: Option<T>)
        ensures
            r == self.spec_into_option(),
    {
        match self {
            Maybe::Value(v) => Some(v),
            Maybe::Cleared => None,
        }
    }
}

/// The strategy for choosing among several indexes that offer a package.
#[derive(Debug, Clone, Copy, PartialEq, Eq, Structural)]
pub enum IndexStrategy {
    FirstIndex,
    UnsafeFirstMatch,
    UnsafeBestMatch,
}

/// Whether credentials are looked up with the `keyring` program.
#[derive(Debug, Clone, Copy, PartialEq, Eq, Structural)]
pub enum KeyringProviderType {
    Disabled,
    Subprocess,
}

/// Which versions the resolver prefers.
#[derive(Debug, Clone, Copy, PartialEq, Eq, Structural)]
pub enum ResolutionMode {
    Highest,
    Lowest,
    LowestDirect,
}

/// When pre-release versions may be selected.
#[derive(Debug, Clone, Copy, PartialEq, Eq, Structural)]
pub enum PrereleaseMode {
    Disallow,
    Allow,
    IfNecessary,
    Explicit,
    IfNecessaryOrExplicit,
}

/// How the resolver forks on divergent markers.
#[derive(Debug, Clone, Copy, PartialEq, Eq, Structural)]
pub enum ForkStrategy {
    Fewest,
    RequiresPython,
}

/// The file-system operation that materializes a distribution in `site-packages`.
#[derive(Debug, Clone, Copy, PartialEq, Eq, Structural)]
pub enum LinkMode {
    Clone,
    Copy,
    Hardlink,
    Symlink,
}

/// A `--config-setting KEY=VALUE` entry.
#[derive(Debug, Clone)]
pub struct ConfigSetting {
    pub key: String,
    pub value: String,
}

/// A `--config-settings-package PACKAGE:KEY=VALUE` entry.
#[derive(Debug, Clone)]
pub struct PackageConfigSetting {
    pub package: String,
    pub key: String,
    pub value: String,
}

/// A `--exclude-newer-package PACKAGE=DATE` entry.
#[derive(Debug, Clone)]
pub struct ExcludeNewerPackageEntry {
    pub package: String,
    pub timestamp: String,
}

/// The cut-off dates past which distributions are ignored: a global one and per-package ones.
#[derive(Debug, Clone)]
pub struct ExcludeNewer {
    pub global: Option<String>,
    pub package: Vec<ExcludeNewerPackageEntry>,
}

/// The index arguments of the command line.
#[derive(Debug)]
pub struct IndexArgs {
    pub default_index: Option<Maybe<String>>,
    pub index: Option<Vec<Vec<Maybe<String>>>>,
    pub index_url: Option<Maybe<String>>,
    pub extra_index_url: Option<Vec<Maybe<String>>>,
    pub no_index: bool,
    pub find_links: Option<Vec<Maybe<String>>>,
}

/// The `--no-build` and `--no-binary` arguments of the command line.
#[derive(Debug)]
pub struct BuildOptionsArgs {
    pub no_build: bool,
    pub build: bool,
    pub no_build_package: Vec<String>,
    pub no_binary: bool,
    pub binary: bool,
    pub no_binary_package: Vec<String>,
}

/// The resolver arguments of the command line.
#[derive(Debug)]
pub struct ResolverArgs {
    pub index_args: IndexArgs,
    pub upgrade: bool,
    pub no_upgrade: bool,
    pub upgrade_package: Vec<String>,
    pub index_strategy: Option<IndexStrategy>,
    pub keyring_provider: Option<KeyringProviderType>,
    pub resolution: Option<ResolutionMode>,
    pub prerelease: Option<PrereleaseMode>,
    pub pre: bool,
    pub fork_strategy: Option<ForkStrategy>,
    pub config_setting: Option<Vec<ConfigSetting>>,
    pub config_settings_package: Option<Vec<PackageConfigSetting>>,
    pub no_build_isolation: bool,
    pub no_build_isolation_package: Vec<String>,
    pub build_isolation: bool,
    pub exclude_newer: Option<String>,
    pub link_mode: Option<LinkMode>,
    pub no_sources: bool,
    pub exclude_newer_package: Option<Vec<ExcludeNewerPackageEntry>>,
}

/// The resolver and installer arguments of the command line.
#[derive(Debug)]
pub struct ResolverInstallerArgs {
    pub index_args: IndexArgs,
    pub upgrade: bool,
    pub no_upgrade: bool,
    pub upgrade_package: Vec<String>,
    pub reinstall: bool,
    pub no_reinstall: bool,
    pub reinstall_package: Vec<String>,
    pub index_strategy: Option<IndexStrategy>,
    pub keyring_provider: Option<KeyringProviderType>,
    pub resolution: Option<ResolutionMode>,
    pub prerelease: Option<PrereleaseMode>,
    pub pre: bool,
    pub fork_strategy: Option<ForkStrategy>,
    pub config_setting: Option<Vec<ConfigSetting>>,
    pub config_settings_package: Option<Vec<PackageConfigSetting>>,
    pub no_build_isolation: bool,
    pub no_build_isolation_package: Vec<String>,
    pub build_isolation: bool,
    pub exclude_newer: Option<String>,
    pub exclude_newer_package: Option<Vec<ExcludeNewerPackageEntry>>,
    pub link_mode: Option<LinkMode>,
    pub compile_bytecode: bool,
    pub no_compile_bytecode: bool,
    pub no_sources: bool,
}

/// The resolver settings that the command line gives.
#[derive(Debug)]
pub struct ResolverOptions {
    pub index: Option<Vec<String>>,
    pub index_url: Option<String>,
    pub extra_index_url: Option<Vec<String>>,
    pub no_index: Option<bool>,
    pub find_links: Option<Vec<String>>,
    pub upgrade: Option<bool>,
    pub upgrade_package: Option<Vec<String>>,
    pub index_strategy: Option<IndexStrategy>,
    pub keyring_provider: Option<KeyringProviderType>,
    pub resolution: Option<ResolutionMode>,
    pub prerelease: Option<PrereleaseMode>,
    pub fork_strategy: Option<ForkStrategy>,
    pub config_settings: Option<Vec<ConfigSetting>>,
    pub config_settings_package: Option<Vec<PackageConfigSetting>>,
    pub no_build_isolation: Option<bool>,
    pub no_build_isolation_package: Option<Vec<String>>,
    pub exclude_newer: ExcludeNewer,
    pub link_mode: Option<LinkMode>,
    pub no_build: Option<bool>,
    pub no_build_package: Option<Vec<String>>,
    pub no_binary: Option<bool>,
    pub no_binary_package: Option<Vec<String>>,
    pub no_sources: Option<bool>,
}

/// The resolver and installer settings that the command line gives.
#[derive(Debug)]
pub struct ResolverInstallerOptions {
    pub index: Option<Vec<String>>,
    pub index_url: Option<String>,
    pub extra_index_url: Option<Vec<String>>,
    pub no_index: Option<bool>,
    pub find_links: Option<Vec<String>>,
    pub upgrade: Option<bool>,
    pub upgrade_package: Option<Vec<String>>,
    pub reinstall: Option<bool>,
    pub reinstall_package: Option<Vec<String>>,
    pub index_strategy: Option<IndexStrategy>,
    pub keyring_provider: Option<KeyringProviderType>,
    pub resolution: Option<ResolutionMode>,
    pub prerelease: Option<PrereleaseMode>,
    pub fork_strategy: Option<ForkStrategy>,
    pub config_settings: Option<Vec<ConfigSetting>>,
    pub config_settings_package: Option<Vec<PackageConfigSetting>>,
    pub no_build_isolation: Option<bool>,
    pub no_build_isolation_package: Option<Vec<String>>,
    pub exclude_newer: Option<String>,
    pub exclude_newer_package: Option<Vec<ExcludeNewerPackageEntry>>,
    pub link_mode: Option<LinkMode>,
    pub compile_bytecode: Option<bool>,
    pub no_build: Option<bool>,
    pub no_build_package: Option<Vec<String>>,
    pub no_binary: Option<bool>,
    pub no_binary_package: Option<Vec<String>>,
    pub no_sources: Option<bool>,
}

/// The values of a list of command-line values, with the `none` sentinels left out.
pub open spec fn present(s: Seq<Maybe<String>>) -> Seq<String>
    decreases s.len(),
{
    if s.len() == 0 {
        seq![]
    } else {
        present(s.drop_last()) + match s.last() {
            Maybe::Value(v) => seq![v],
            Maybe::Cleared => seq![],
        }
    }
}

/// The values of a list of lists of command-line values, in order, without the sentinels.
pub open spec fn present_nested(s: Seq<Vec<Maybe<String>>>) -> Seq<String>
    decreases s.len(),
{
    if s.len() == 0 {
        seq![]
    } else {
        present_nested(s.drop_last()) + present(s.last()@)
    }
}

/// The contents of an optional list.
pub open spec fn opt_view(o: Option<Vec<String>>) -> Option<Seq<String>> {
    match o {
        Some(v) => Some(v@),
        None => None,
    }
}

/// An optional list of command-line values without its sentinels.
pub open spec fn present_opt(o: Option<Vec<Maybe<String>>>) -> Option<Seq<String>> {
    match o {
        Some(v) => Some(present(v@)),
        None => None,
    }
}

/// An optional command-line value, where the sentinel counts as absent.
pub open spec fn value_of(o: Option<Maybe<String>>) -> Option<String> {
    match o {
        Some(Maybe::Value(v)) => Some(v),
        _ => None,
    }
}

/// Two layers of a list setting in precedence order: a non-empty higher layer wins as a whole
/// list; otherwise the lower layer shows through.
pub open spec fn combine_spec(higher: Option<Seq<String>>, lower: Option<Seq<String>>) -> Option<
    Seq<String>,
> {
    match higher {
        Some(h) => if h.len() > 0 {
            Some(h)
        } else {
            lower
        },
        None => lower,
    }
}

/// The index list of the command line: the default index, if one is given, takes precedence
/// over the `--index` values.
pub open spec fn index_spec(a: IndexArgs) -> Option<Seq<String>> {
    combine_spec(
        match value_of(a.default_index) {
            Some(d) => Some(seq![d]),
            None => None,
        },
        match a.index {
            Some(v) => Some(present_nested(v@)),
            None => None,
        },
    )
}

/// `Some(true)` for a set flag, unset otherwise.
pub open spec fn true_or_none(b: bool) -> Option<bool> {
    if b {
        Some(true)
    } else {
        None
    }
}

/// The pre-release policy: `--pre` forces `Allow`, over any `--prerelease` value.
pub open spec fn prerelease_spec(pre: bool, prerelease: Option<PrereleaseMode>) -> Option<
    PrereleaseMode,
> {
    if pre {
        Some(PrereleaseMode::Allow)
    } else {
        prerelease
    }
}

/// A per-package list that leaves the setting unset when it is empty.
pub open spec fn package_list_spec(v: Vec<String>) -> Option<Vec<String>> {
    if v@.len() == 0 {
        None
    } else {
        Some(v)
    }
}

/// Append the values of `v`, without sentinels, to `out`.
fn push_present(v: &Vec<Maybe<String>>, out: &mut Vec<String>)
    ensures
        final(out)@ == old(out)@ + present(v@),
{
    let mut i: usize = 0;
    while i < v.len()
        invariant
            i <= v@.len(),
            out@ == old(out)@ + present(v@.subrange(0, i as int)),
        decreases v@.len() - i,
    {
        assert(v@.subrange(0, i + 1).drop_last() =~= v@.subrange(0, i as int));
        match &v[i] {
            Maybe::Value(x) => {
                out.push(x.clone());
            },
            Maybe::Cleared => {},
        }
        i = i + 1;
        assert(out@ =~= old(out)@ + present(v@.subrange(0, i as int)));
    }
    assert(v@.subrange(0, v@.len() as int) =~= v@);
}

/// The values of an optional list, without sentinels.
fn present_list(o: Option<Vec<Maybe<String>>>) -> (r: Option<Vec<String>>)
    ensures
        opt_view(r) == present_opt(o),
{
    match o {
        Some(v) => {
            let mut out: Vec<String> = Vec::new();
            push_present(&v, &mut out);
            assert(out@ =~= present(v@));
            Some(out)
        },
        None => None,
    }
}

/// The index list of the command line, as [`index_spec`] says.
fn index_list(default_index: Option<Maybe<String>>, index: Option<Vec<Vec<Maybe<String>>>>) -> (r:
    Option<Vec<String>>)
    ensures
        opt_view(r) == combine_spec(
            match value_of(default_index) {
                Some(d) => Some(seq![d]),
                None => None,
            },
            match index {
                Some(v) => Some(present_nested(v@)),
                None => None,
            },
        ),
{
    let default_index = match default_index {
        Some(d) => d.into_option(),
        None => None,
    };
    if let Some(d) = default_index {
        let mut v: Vec<String> = Vec::new();
        v.push(d);
        assert(v@ =~= seq![d]);
        return Some(v);
    }
    match index {
        Some(lists) => {
            let mut out: Vec<String> = Vec::new();
            let mut i: usize = 0;
            while i < lists.len()
                invariant
                    i <= lists@.len(),
                    out@ == present_nested(lists@.subrange(0, i as int)),
                decreases lists@.len() - i,
            {
                assert(lists@.subrange(0, i + 1).drop_last() =~= lists@.subrange(0, i as int));
                push_present(&lists[i], &mut out);
                i = i + 1;
            }
            assert(lists@.subrange(0, lists@.len() as int) =~= lists@);
            Some(out)
        },
        None => None,
    }
}

/// An optional command-line value, with the sentinel read as absent.
fn value_or_none(o: Option<Maybe<String>>) -> (r: Option<String>)
    ensures
        r == value_of(o),
{
    match o {
        Some(m) => m.into_option(),
        None => None,
    }
}

/// A per-package list, unset when empty.
fn package_list(v: Vec<String>) -> (r: Option<Vec<String>>)
    ensures
        r == package_list_spec(v),
{
    if v.len() == 0 {
        None
    } else {
        Some(v)
    }
}

/// The pre-release policy, as [`prerelease_spec`] says.
fn prerelease_choice(pre: bool, prerelease: Option<PrereleaseMode>) -> (r: Option<PrereleaseMode>)
    ensures
        r == prerelease_spec(pre, prerelease),
{
    if pre {
        Some(PrereleaseMode::Allow)
    } else {
        prerelease
    }
}

/// `Some(true)` for a set flag, `None` otherwise.
fn set_or_none(b: bool) -> (r: Option<bool>)
    ensures
        r == true_or_none(b),
{
    if b {
        Some(true)
    } else {
        None
    }
}

/// Which flag pair a usage error names, for the four flag pairs of [`resolver_options`] in the
/// order in which they are read.
pub open spec fn resolver_conflict(r: ResolverArgs, b: BuildOptionsArgs) -> Option<Seq<char>> {
    if r.upgrade && r.no_upgrade {
        Some("upgrade"@)
    } else if r.no_build_isolation && r.build_isolation {
        Some("build-isolation"@)
    } else if b.no_build && b.build {
        Some("build"@)
    } else if b.no_binary && b.binary {
        Some("binary"@)
    } else {
        None
    }
}

/// Construct the [`ResolverOptions`] from the [`ResolverArgs`] and [`BuildOptionsArgs`].
/// A flag pair given with both flags set is a usage error.
pub fn resolver_options(resolver_args: ResolverArgs, build_args: BuildOptionsArgs) -> (r: Result<
    ResolverOptions,
    FlagConflict,
>)
    ensures
        r is Err <==> resolver_conflict(resolver_args, build_args) is Some,
        r is Err ==> Some(r->Err_0.name@) == resolver_conflict(resolver_args, build_args),
        r matches Ok(o) ==> {
            let a = resolver_args;
            let b = build_args;
            &&& opt_view(o.index) == index_spec(a.index_args)
            &&& o.index_url == value_of(a.index_args.index_url)
            &&& opt_view(o.extra_index_url) == present_opt(a.index_args.extra_index_url)
            &&& o.no_index == true_or_none(a.index_args.no_index)
            &&& opt_view(o.find_links) == present_opt(a.index_args.find_links)
            &&& o.upgrade == flag_value(a.upgrade, a.no_upgrade)
            &&& o.upgrade_package == package_list_spec(a.upgrade_package)
            &&& o.index_strategy == a.index_strategy
            &&& o.keyring_provider == a.keyring_provider
            &&& o.resolution == a.resolution
            &&& o.prerelease == prerelease_spec(a.pre, a.prerelease)
            &&& o.fork_strategy == a.fork_strategy
            &&& o.config_settings == a.config_setting
            &&& o.config_settings_package == a.config_settings_package
            &&& o.no_build_isolation == flag_value(a.no_build_isolation, a.build_isolation)
            &&& o.no_build_isolation_package == package_list_spec(a.no_build_isolation_package)
            &&& o.exclude_newer.global == a.exclude_newer
            &&& o.exclude_newer.package@ == match a.exclude_newer_package {
                Some(p) => p@,
                None => Seq::<ExcludeNewerPackageEntry>::empty(),
            }
            &&& o.link_mode == a.link_mode
            &&& o.no_build == flag_value(b.no_build, b.build)
            &&& o.no_build_package == package_list_spec(b.no_build_package)
            &&& o.no_binary == flag_value(b.no_binary, b.binary)
            &&& o.no_binary_package == package_list_spec(b.no_binary_package)
            &&& o.no_sources == true_or_none(a.no_sources)
        },
{
    proof {
        reveal_strlit("upgrade");
        reveal_strlit("build-isolation");
        reveal_strlit("build");
        reveal_strlit("binary");
    }
    let ResolverArgs {
        index_args,
        upgrade,
        no_upgrade,
        upgrade_package,
        index_strategy,
        keyring_provider,
        resolution,
        prerelease,
        pre,
        fork_strategy,
        config_setting,
        config_settings_package,
        no_build_isolation,
        no_build_isolation_package,
        build_isolation,
        exclude_newer,
        link_mode,
        no_sources,
        exclude_newer_package,
    } = resolver_args;
    let BuildOptionsArgs { no_build, build, no_build_package, no_binary, binary, no_binary_package } =
        build_args;
    let upgrade = match flag(upgrade, no_upgrade, "upgrade") {
        Ok(v) => v,
        Err(e) => return Err(e),
    };
    let no_build_isolation = match flag(no_build_isolation, build_isolation, "build-isolation") {
        Ok(v) => v,
        Err(e) => return Err(e),
    };
    let no_build = match flag(no_build, build, "build") {
        Ok(v) => v,
        Err(e) => return Err(e),
    };
    let no_binary = match flag(no_binary, binary, "binary") {
        Ok(v) => v,
        Err(e) => return Err(e),
    };
    let IndexArgs { default_index, index, index_url, extra_index_url, no_index, find_links } =
        index_args;
    let exclude_newer_package = match exclude_newer_package {
        Some(p) => p,
        None => Vec::new(),
    };
    Ok(
        ResolverOptions {
            index: index_list(default_index, index),
            index_url: value_or_none(index_url),
            extra_index_url: present_list(extra_index_url),
            no_index: set_or_none(no_index),
            find_links: present_list(find_links),
            upgrade,
            upgrade_package: package_list(upgrade_package),
            index_strategy,
            keyring_provider,
            resolution,
            prerelease: prerelease_choice(pre, prerelease),
            fork_strategy,
            config_settings: config_setting,
            config_settings_package,
            no_build_isolation,
            no_build_isolation_package: package_list(no_build_isolation_package),
            exclude_newer: ExcludeNewer { global: exclude_newer, package: exclude_newer_package },
            link_mode,
            no_build,
            no_build_package: package_list(no_build_package),
            no_binary,
            no_binary_package: package_list(no_binary_package),
            no_sources: set_or_none(no_sources),
        },
    )
}

/// Which flag pair a usage error names, for the six flag pairs of
/// [`resolver_installer_options`] in the order in which they are read.
pub open spec fn resolver_installer_conflict(r: ResolverInstallerArgs, b: BuildOptionsArgs) -> Option<
    Seq<char>,
> {
    if r.upgrade && r.no_upgrade {
        Some("upgrade"@)
    } else if r.reinstall && r.no_reinstall {
        Some("reinstall"@)
    } else if r.no_build_isolation && r.build_isolation {
        Some("build-isolation"@)
    } else if r.compile_bytecode && r.no_compile_bytecode {
        Some("compile-bytecode"@)
    } else if b.no_build && b.build {
        Some("build"@)
    } else if b.no_binary && b.binary {
        Some("binary"@)
    } else {
        None
    }
}

/// Construct the [`ResolverInstallerOptions`] from the [`ResolverInstallerArgs`] and
/// [`BuildOptionsArgs`]. A flag pair given with both flags set is a usage error; an empty
/// per-package list leaves its setting unset.
pub fn resolver_installer_options(
    resolver_installer_args: ResolverInstallerArgs,
    build_args: BuildOptionsArgs,
) -> (r: Result<ResolverInstallerOptions, FlagConflict>)
    ensures
        r is Err <==> resolver_installer_conflict(resolver_installer_args, build_args) is Some,
        r is Err ==> Some(r->Err_0.name@) == resolver_installer_conflict(
            resolver_installer_args,
            build_args,
        ),
        r matches Ok(o) ==> {
            let a = resolver_installer_args;
            let b = build_args;
            &&& opt_view(o.index) == index_spec(a.index_args)
            &&& o.index_url == value_of(a.index_args.index_url)
            &&& opt_view(o.extra_index_url) == present_opt(a.index_args.extra_index_url)
            &&& o.no_index == true_or_none(a.index_args.no_index)
            &&& opt_view(o.find_links) == present_opt(a.index_args.find_links)
            &&& o.upgrade == flag_value(a.upgrade, a.no_upgrade)
            &&& o.upgrade_package == package_list_spec(a.upgrade_package)
            &&& o.reinstall == flag_value(a.reinstall, a.no_reinstall)
            &&& o.reinstall_package == package_list_spec(a.reinstall_package)
            &&& o.index_strategy == a.index_strategy
            &&& o.keyring_provider == a.keyring_provider
            &&& o.resolution == a.resolution
            &&& o.prerelease == prerelease_spec(a.pre, a.prerelease)
            &&& o.fork_strategy == a.fork_strategy
            &&& o.config_settings == a.config_setting
            &&& o.config_settings_package == a.config_settings_package
            &&& o.no_build_isolation == flag_value(a.no_build_isolation, a.build_isolation)
            &&& o.no_build_isolation_package == package_list_spec(a.no_build_isolation_package)
            &&& o.exclude_newer == a.exclude_newer
            &&& o.exclude_newer_package == a.exclude_newer_package
            &&& o.link_mode == a.link_mode
            &&& o.compile_bytecode == flag_value(a.compile_bytecode, a.no_compile_bytecode)
            &&& o.no_build == flag_value(b.no_build, b.build)
            &&& o.no_build_package == package_list_spec(b.no_build_package)
            &&& o.no_binary == flag_value(b.no_binary, b.binary)
            &&& o.no_binary_package == package_list_spec(b.no_binary_package)
            &&& o.no_sources == true_or_none(a.no_sources)
        },
{
    proof {
        reveal_strlit("upgrade");
        reveal_strlit("reinstall");
        reveal_strlit("build-isolation");
        reveal_strlit("compile-bytecode");
        reveal_strlit("build");
        reveal_strlit("binary");
    }
    let ResolverInstallerArgs {
        index_args,
        upgrade,
        no_upgrade,
        upgrade_package,
        reinstall,
        no_reinstall,
        reinstall_package,
        index_strategy,
        keyring_provider,
        resolution,
        prerelease,
        pre,
        fork_strategy,
        config_setting,
        config_settings_package,
        no_build_isolation,
        no_build_isolation_package,
        build_isolation,
        exclude_newer,
        exclude_newer_package,
        link_mode,
        compile_bytecode,
        no_compile_bytecode,
        no_sources,
    } = resolver_installer_args;
    let BuildOptionsArgs { no_build, build, no_build_package, no_binary, binary, no_binary_package } =
        build_args;
    let upgrade = match flag(upgrade, no_upgrade, "upgrade") {
        Ok(v) => v,
        Err(e) => return Err(e),
    };
    let reinstall = match flag(reinstall, no_reinstall, "reinstall") {
        Ok(v) => v,
        Err(e) => return Err(e),
    };
    let no_build_isolation = match flag(no_build_isolation, build_isolation, "build-isolation") {
        Ok(v) => v,
        Err(e) => return Err(e),
    };
    let compile_bytecode = match flag(compile_bytecode, no_compile_bytecode, "compile-bytecode") {
        Ok(v) => v,
        Err(e) => return Err(e),
    };
    let no_build = match flag(no_build, build, "build") {
        Ok(v) => v,
        Err(e) => return Err(e),
    };
    let no_binary = match flag(no_binary, binary, "binary") {
        Ok(v) => v,
        Err(e) => return Err(e),
    };
    let IndexArgs { default_index, index, index_url, extra_index_url, no_index, find_links } =
        index_args;
    Ok(
        ResolverInstallerOptions {
            index: index_list(default_index, index),
            index_url: value_or_none(index_url),
            extra_index_url: present_list(extra_index_url),
            no_index: set_or_none(no_index),
            find_links: present_list(find_links),
            upgrade,
            upgrade_package: package_list(upgrade_package),
            reinstall,
            reinstall_package: package_list(reinstall_package),
            index_strategy,
            keyring_provider,
            resolution,
            prerelease: prerelease_choice(pre, prerelease),
            fork_strategy,
            config_settings: config_setting,
            config_settings_package,
            no_build_isolation,
            no_build_isolation_package: package_list(no_build_isolation_package),
            exclude_newer,
            exclude_newer_package,
            link_mode,
            compile_bytecode,
            no_build,
            no_build_package: package_list(no_build_package),
            no_binary,
            no_binary_package: package_list(no_binary_package),
            no_sources: set_or_none(no_sources),
        },
    )
}

/// The installer arguments of the command line.
#[derive(Debug)]
pub struct InstallerArgs {
    pub index_args: IndexArgs,
    pub reinstall: bool,
    pub no_reinstall: bool,
    pub reinstall_package: Vec<String>,
    pub index_strategy: Option<IndexStrategy>,
    pub keyring_provider: Option<KeyringProviderType>,
    pub config_setting: Option<Vec<ConfigSetting>>,
    pub config_settings_package: Option<Vec<PackageConfigSetting>>,
    pub no_build_isolation: bool,
    pub build_isolation: bool,
    pub exclude_newer: Option<String>,
    pub link_mode: Option<LinkMode>,
    pub compile_bytecode: bool,
    pub no_compile_bytecode: bool,
    pub no_sources: bool,
    pub exclude_newer_package: Option<Vec<ExcludeNewerPackageEntry>>,
}

/// The fetch arguments of the command line.
#[derive(Debug)]
pub struct FetchArgs {
    pub index_args: IndexArgs,
    pub index_strategy: Option<IndexStrategy>,
    pub keyring_provider: Option<KeyringProviderType>,
    pub exclude_newer: Option<String>,
}

/// The settings of the `pip` interface that one group of command-line arguments gives; what
/// the group does not set stays unset.
#[derive(Debug)]
pub struct PipOptions {
    pub index: Option<Vec<String>>,
    pub index_url: Option<String>,
    pub extra_index_url: Option<Vec<String>>,
    pub no_index: Option<bool>,
    pub find_links: Option<Vec<String>>,
    pub upgrade: Option<bool>,
    pub upgrade_package: Option<Vec<String>>,
    pub reinstall: Option<bool>,
    pub reinstall_package: Option<Vec<String>>,
    pub index_strategy: Option<IndexStrategy>,
    pub keyring_provider: Option<KeyringProviderType>,
    pub resolution: Option<ResolutionMode>,
    pub prerelease: Option<PrereleaseMode>,
    pub fork_strategy: Option<ForkStrategy>,
    pub config_settings: Option<Vec<ConfigSetting>>,
    pub config_settings_package: Option<Vec<PackageConfigSetting>>,
    pub no_build_isolation: Option<bool>,
    pub no_build_isolation_package: Option<Vec<String>>,
    pub exclude_newer: Option<String>,
    pub exclude_newer_package: Option<Vec<ExcludeNewerPackageEntry>>,
    pub link_mode: Option<LinkMode>,
    pub compile_bytecode: Option<bool>,
    pub no_sources: Option<bool>,
}

/// Whether the index settings of `o` are those of the index arguments `a`.
pub open spec fn index_fields(o: PipOptions, a: IndexArgs) -> bool {
    &&& opt_view(o.index) == index_spec(a)
    &&& o.index_url == value_of(a.index_url)
    &&& opt_view(o.extra_index_url) == present_opt(a.extra_index_url)
    &&& o.no_index == true_or_none(a.no_index)
    &&& opt_view(o.find_links) == present_opt(a.find_links)
}

/// Which flag pair of the resolver arguments a usage error names.
pub open spec fn pip_resolver_conflict(a: ResolverArgs) -> Option<Seq<char>> {
    if a.upgrade && a.no_upgrade {
        Some("upgrade"@)
    } else if a.no_build_isolation && a.build_isolation {
        Some("build-isolation"@)
    } else {
        None
    }
}

/// Which flag pair of the installer arguments a usage error names.
pub open spec fn pip_installer_conflict(a: InstallerArgs) -> Option<Seq<char>> {
    if a.reinstall && a.no_reinstall {
        Some("reinstall"@)
    } else if a.no_build_isolation && a.build_isolation {
        Some("build-isolation"@)
    } else if a.compile_bytecode && a.no_compile_bytecode {
        Some("compile-bytecode"@)
    } else {
        None
    }
}

/// Which flag pair of the resolver and installer arguments a usage error names.
pub open spec fn pip_resolver_installer_conflict(a: ResolverInstallerArgs) -> Option<Seq<char>> {
    if a.upgrade && a.no_upgrade {
        Some("upgrade"@)
    } else if a.reinstall && a.no_reinstall {
        Some("reinstall"@)
    } else if a.no_build_isolation && a.build_isolation {
        Some("build-isolation"@)
    } else if a.compile_bytecode && a.no_compile_bytecode {
        Some("compile-bytecode"@)
    } else {
        None
    }
}

impl PipOptions {
    /// The settings that the index arguments give.
    pub fn from_index_args(args: IndexArgs) -> (r: Self)
        ensures
            index_fields(r, args),
            r.upgrade is None && r.upgrade_package is None && r.reinstall is None,
            r.reinstall_package is None && r.index_strategy is None && r.keyring_provider is None,
            r.resolution is None && r.prerelease is None && r.fork_strategy is None,
            r.config_settings is None && r.config_settings_package is None,
            r.no_build_isolation is None && r.no_build_isolation_package is None,
            r.exclude_newer is None && r.exclude_newer_package is None && r.link_mode is None,
            r.compile_bytecode is None && r.no_sources is None,
    {
        let IndexArgs { default_index, index, index_url, extra_index_url, no_index, find_links } =
            args;
        PipOptions {
            index: index_list(default_index, index),
            index_url: value_or_none(index_url),
            extra_index_url: present_list(extra_index_url),
            no_index: set_or_none(no_index),
            find_links: present_list(find_links),
            upgrade: None,
            upgrade_package: None,
            reinstall: None,
            reinstall_package: None,
            index_strategy: None,
            keyring_provider: None,
            resolution: None,
            prerelease: None,
            fork_strategy: None,
            config_settings: None,
            config_settings_package: None,
            no_build_isolation: None,
            no_build_isolation_package: None,
            exclude_newer: None,
            exclude_newer_package: None,
            link_mode: None,
            compile_bytecode: None,
            no_sources: None,
        }
    }

    /// The settings that the resolver arguments give. A flag pair given with both flags set is
    /// a usage error.
    pub fn from_resolver_args(args: ResolverArgs) -> (r: Result<Self, FlagConflict>)
        ensures
            r is Err <==> pip_resolver_conflict(args) is Some,
            r is Err ==> Some(r->Err_0.name@) == pip_resolver_conflict(args),
            r matches Ok(o) ==> {
                &&& index_fields(o, args.index_args)
                &&& o.upgrade == flag_value(args.upgrade, args.no_upgrade)
                &&& o.upgrade_package == package_list_spec(args.upgrade_package)
                &&& o.reinstall is None && o.reinstall_package is None
                &&& o.index_strategy == args.index_strategy
                &&& o.keyring_provider == args.keyring_provider
                &&& o.resolution == args.resolution
                &&& o.prerelease == prerelease_spec(args.pre, args.prerelease)
                &&& o.fork_strategy == args.fork_strategy
                &&& o.config_settings == args.config_setting
                &&& o.config_settings_package == args.config_settings_package
                &&& o.no_build_isolation == flag_value(args.no_build_isolation, args.build_isolation)
                &&& o.no_build_isolation_package == package_list_spec(args.no_build_isolation_package)
                &&& o.exclude_newer == args.exclude_newer
                &&& o.exclude_newer_package == args.exclude_newer_package
                &&& o.link_mode == args.link_mode
                &&& o.compile_bytecode is None
                &&& o.no_sources == true_or_none(args.no_sources)
            },
    {
        proof {
            reveal_strlit("upgrade");
            reveal_strlit("build-isolation");
        }
        let ResolverArgs {
            index_args,
            upgrade,
            no_upgrade,
            upgrade_package,
            index_strategy,
            keyring_provider,
            resolution,
            prerelease,
            pre,
            fork_strategy,
            config_setting,
            config_settings_package,
            no_build_isolation,
            no_build_isolation_package,
            build_isolation,
            exclude_newer,
            link_mode,
            no_sources,
            exclude_newer_package,
        } = args;
        let upgrade = match flag(upgrade, no_upgrade, "upgrade") {
            Ok(v) => v,
            Err(e) => return Err(e),
        };
        let no_build_isolation = match flag(no_build_isolation, build_isolation, "build-isolation") {
            Ok(v) => v,
            Err(e) => return Err(e),
        };
        let base = PipOptions::from_index_args(index_args);
        Ok(
            PipOptions {
                upgrade,
                upgrade_package: package_list(upgrade_package),
                index_strategy,
                keyring_provider,
                resolution,
                fork_strategy,
                prerelease: prerelease_choice(pre, prerelease),
                config_settings: config_setting,
                config_settings_package,
                no_build_isolation,
                no_build_isolation_package: package_list(no_build_isolation_package),
                exclude_newer,
                exclude_newer_package,
                link_mode,
                no_sources: set_or_none(no_sources),
                ..base
            },
        )
    }

    /// The settings that the installer arguments give. A flag pair given with both flags set is
    /// a usage error.
    pub fn from_installer_args(args: InstallerArgs) -> (r: Result<Self, FlagConflict>)
        ensures
            r is Err <==> pip_installer_conflict(args) is Some,
            r is Err ==> Some(r->Err_0.name@) == pip_installer_conflict(args),
            r matches Ok(o) ==> {
                &&& index_fields(o, args.index_args)
                &&& o.upgrade is None && o.upgrade_package is None
                &&& o.reinstall == flag_value(args.reinstall, args.no_reinstall)
                &&& o.reinstall_package == package_list_spec(args.reinstall_package)
                &&& o.index_strategy == args.index_strategy
                &&& o.keyring_provider == args.keyring_provider
                &&& o.resolution is None && o.prerelease is None && o.fork_strategy is None
                &&& o.config_settings == args.config_setting
                &&& o.config_settings_package == args.config_settings_package
                &&& o.no_build_isolation == flag_value(args.no_build_isolation, args.build_isolation)
                &&& o.no_build_isolation_package is None
                &&& o.exclude_newer == args.exclude_newer
                &&& o.exclude_newer_package == args.exclude_newer_package
                &&& o.link_mode == args.link_mode
                &&& o.compile_bytecode == flag_value(args.compile_bytecode, args.no_compile_bytecode)
                &&& o.no_sources == true_or_none(args.no_sources)
            },
    {
        proof {
            reveal_strlit("reinstall");
            reveal_strlit("build-isolation");
            reveal_strlit("compile-bytecode");
        }
        let InstallerArgs {
            index_args,
            reinstall,
            no_reinstall,
            reinstall_package,
            index_strategy,
            keyring_provider,
            config_setting,
            config_settings_package,
            no_build_isolation,
            build_isolation,
            exclude_newer,
            link_mode,
            compile_bytecode,
            no_compile_bytecode,
            no_sources,
            exclude_newer_package,
        } = args;
        let reinstall = match flag(reinstall, no_reinstall, "reinstall") {
            Ok(v) => v,
            Err(e) => return Err(e),
        };
        let no_build_isolation = match flag(no_build_isolation, build_isolation, "build-isolation") {
            Ok(v) => v,
            Err(e) => return Err(e),
        };
        let compile_bytecode = match flag(compile_bytecode, no_compile_bytecode, "compile-bytecode") {
            Ok(v) => v,
            Err(e) => return Err(e),
        };
        let base = PipOptions::from_index_args(index_args);
        Ok(
            PipOptions {
                reinstall,
                reinstall_package: package_list(reinstall_package),
                index_strategy,
                keyring_provider,
                config_settings: config_setting,
                config_settings_package,
                no_build_isolation,
                exclude_newer,
                exclude_newer_package,
                link_mode,
                compile_bytecode,
                no_sources: set_or_none(no_sources),
                ..base
            },
        )
    }

    /// The settings that the resolver and installer arguments give. A flag pair given with both
    /// flags set is a usage error.
    pub fn from_resolver_installer_args(args: ResolverInstallerArgs) -> (r: Result<Self, FlagConflict>)
        ensures
            r is Err <==> pip_resolver_installer_conflict(args) is Some,
            r is Err ==> Some(r->Err_0.name@) == pip_resolver_installer_conflict(args),
            r matches Ok(o) ==> {
                &&& index_fields(o, args.index_args)
                &&& o.upgrade == flag_value(args.upgrade, args.no_upgrade)
                &&& o.upgrade_package == package_list_spec(args.upgrade_package)
                &&& o.reinstall == flag_value(args.reinstall, args.no_reinstall)
                &&& o.reinstall_package == package_list_spec(args.reinstall_package)
                &&& o.index_strategy == args.index_strategy
                &&& o.keyring_provider == args.keyring_provider
                &&& o.resolution == args.resolution
                &&& o.prerelease == prerelease_spec(args.pre, args.prerelease)
                &&& o.fork_strategy == args.fork_strategy
                &&& o.config_settings == args.config_setting
                &&& o.config_settings_package == args.config_settings_package
                &&& o.no_build_isolation == flag_value(args.no_build_isolation, args.build_isolation)
                &&& o.no_build_isolation_package == package_list_spec(args.no_build_isolation_package)
                &&& o.exclude_newer == args.exclude_newer
                &&& o.exclude_newer_package == args.exclude_newer_package
                &&& o.link_mode == args.link_mode
                &&& o.compile_bytecode == flag_value(args.compile_bytecode, args.no_compile_bytecode)
                &&& o.no_sources == true_or_none(args.no_sources)
            },
    {
        proof {
            reveal_strlit("upgrade");
            reveal_strlit("reinstall");
            reveal_strlit("build-isolation");
            reveal_strlit("compile-bytecode");
        }
        let ResolverInstallerArgs {
            index_args,
            upgrade,
            no_upgrade,
            upgrade_package,
            reinstall,
            no_reinstall,
            reinstall_package,
            index_strategy,
            keyring_provider,
            resolution,
            prerelease,
            pre,
            fork_strategy,
            config_setting,
            config_settings_package,
            no_build_isolation,
            no_build_isolation_package,
            build_isolation,
            exclude_newer,
            exclude_newer_package,
            link_mode,
            compile_bytecode,
            no_compile_bytecode,
            no_sources,
        } = args;
        let upgrade = match flag(upgrade, no_upgrade, "upgrade") {
            Ok(v) => v,
            Err(e) => return Err(e),
        };
        let reinstall = match flag(reinstall, no_reinstall, "reinstall") {
            Ok(v) => v,
            Err(e) => return Err(e),
        };
        let no_build_isolation = match flag(no_build_isolation, build_isolation, "build-isolation") {
            Ok(v) => v,
            Err(e) => return Err(e),
        };
        let compile_bytecode = match flag(compile_bytecode, no_compile_bytecode, "compile-bytecode") {
            Ok(v) => v,
            Err(e) => return Err(e),
        };
        let base = PipOptions::from_index_args(index_args);
        Ok(
            PipOptions {
                upgrade,
                upgrade_package: package_list(upgrade_package),
                reinstall,
                reinstall_package: package_list(reinstall_package),
                index_strategy,
                keyring_provider,
                resolution,
                prerelease: prerelease_choice(pre, prerelease),
                fork_strategy,
                config_settings: config_setting,
                config_settings_package,
                no_build_isolation,
                no_build_isolation_package: package_list(no_build_isolation_package),
                exclude_newer,
                exclude_newer_package,
                link_mode,
                compile_bytecode,
                no_sources: set_or_none(no_sources),
                ..base
            },
        )
    }

    /// The settings that the fetch arguments give.
    pub fn from_fetch_args(args: FetchArgs) -> (r: Self)
        ensures
            index_fields(r, args.index_args),
            r.index_strategy == args.index_strategy,
            r.keyring_provider == args.keyring_provider,
            r.exclude_newer == args.exclude_newer,
            r.upgrade is None && r.reinstall is None && r.no_build_isolation is None,
            r.compile_bytecode is None && r.no_sources is None && r.prerelease is None,
    {
        let FetchArgs { index_args, index_strategy, keyring_provider, exclude_newer } = args;
        let base = PipOptions::from_index_args(index_args);
        PipOptions { index_strategy, keyring_provider, exclude_newer, ..base }
    }
}

/// The refresh arguments of the command line.
#[derive(Debug)]
pub struct RefreshArgs {
    pub refresh: bool,
    pub no_refresh: bool,
    pub refresh_package: Vec<String>,
}

/// Which cached data is treated as stale, as of a timestamp (seconds since the Unix epoch).
#[derive(Debug)]
pub enum Refresh {
    /// Nothing is stale.
    Nothing(u64),
    /// Everything is stale.
    All(u64),
    /// The data of the named packages is stale.
    Packages(Vec<String>, u64),
}

impl Refresh {
    /// The refresh policy of the command line at time `now`: `--refresh` marks everything stale,
    /// `--no-refresh` nothing, and otherwise the `--refresh-package` names, if any. Both
    /// `--refresh` and `--no-refresh` is a usage error.
    pub fn from_args(args: RefreshArgs, now: u64) -> (r: Result<Self, FlagConflict>)
        ensures
            r is Err <==> args.refresh && args.no_refresh,
            r is Err ==> r->Err_0.name@ == "refresh"@,
            r matches Ok(p) ==> match flag_value(args.refresh, args.no_refresh) {
                Some(true) => p == Refresh::All(now),
                Some(false) => p == Refresh::Nothing(now),
                None => if args.refresh_package@.len() == 0 {
                    p == Refresh::Nothing(now)
                } else {
                    p == Refresh::Packages(args.refresh_package, now)
                },
            },
    {
        let RefreshArgs { refresh, no_refresh, refresh_package } = args;
        match flag(refresh, no_refresh, "refresh") {
            Err(e) => Err(e),
            Ok(Some(true)) => Ok(Refresh::All(now)),
            Ok(Some(false)) => Ok(Refresh::Nothing(now)),
            Ok(None) => if refresh_package.len() == 0 {
                Ok(Refresh::Nothing(now))
            } else {
                Ok(Refresh::Packages(refresh_package, now))
            },
        }
    }
}

} // verus!
