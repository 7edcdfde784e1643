//! The decisions of the `install` command, as a state machine: each event that the driver
//! reports (a stage finished, or failed) gives the next state and the next action to perform.
//! The driver performs the actions; this module decides their order and their parameters.

use vstd::prelude::*;

use crate::environment::{
    check_externally_managed, choose_redirect, externally_managed_stops, install_discovery,
    install_discovery_spec, redirect_spec, Discovery, ExternallyManagedError, Redirect,
};
use crate::text::clone_opt;

verus! {

/// Whether an install may leave installed packages that the request does not name.
#[derive(Debug, Clone, Copy, PartialEq, Eq, Structural)]
pub enum Modifications {
    /// Add what is missing; leave the rest.
    Sufficient,
    /// Add what is missing and remove everything that the resolution does not hold.
    Sync,
}

/// How declared hashes are checked.
#[derive(Debug, Clone, Copy, PartialEq, Eq, Structural)]
pub enum HashCheckingMode {
    /// Every requirement must carry a hash, and the hashes must match.
    Require,
    /// Hashes that are given must match.
    Verify,
}

/// The hash policy of a resolution.
#[derive(Debug, Clone, Copy, PartialEq, Eq, Structural)]
pub enum HashStrategy {
    /// No hashes are checked.
    Unchecked,
    /// The hashes declared by the requirements and constraints are checked in the given mode.
    FromRequirements(HashCheckingMode),
}

/// Whether source builds run in a fresh environment or share the target's packages.
#[derive(Debug, Clone, Copy, PartialEq, Eq, Structural)]
pub enum BuildIsolation {
    /// Every build runs in its own environment.
    Isolated,
    /// Every build shares the target environment.
    Shared,
    /// The builds of the packages of `--no-build-isolation-package` share the target
    /// environment.
    SharedPackage,
}

/// The configuration of the resolver and builder stack.
#[derive(Debug, Clone, Copy, PartialEq, Eq, Structural)]
pub struct ResolverSetup {
    /// The hash policy of the requirements.
    pub hashes: HashStrategy,
    /// The hash policy of the build constraints: enforced, never required.
    pub build_hashes: HashStrategy,
    /// The build isolation.
    pub build_isolation: BuildIsolation,
}

/// The settings of one `install` invocation that its decisions depend on.
#[derive(Debug)]
pub struct InstallSettings {
    /// The `--target` directory.
    pub target: Option<String>,
    /// The `--prefix` directory.
    pub prefix: Option<String>,
    /// `--system`.
    pub system: bool,
    /// `--break-system-packages`.
    pub break_system_packages: bool,
    /// Whether any package is to be reinstalled.
    pub reinstall: bool,
    /// Whether any package is to be upgraded.
    pub upgrade: bool,
    /// The modifications policy.
    pub modifications: Modifications,
    /// `--require-hashes` or `--verify-hashes`.
    pub hash_checking: Option<HashCheckingMode>,
    /// `--no-build-isolation`.
    pub no_build_isolation: bool,
    /// `--no-build-isolation-package`.
    pub no_build_isolation_package: Vec<String>,
    /// `--strict`.
    pub strict: bool,
    /// `--dry-run`.
    pub dry_run: bool,
}

/// Whether the environment lock has been asked for, and how that went.
#[derive(Debug, Clone, Copy, PartialEq, Eq, Structural)]
pub enum LockStatus {
    NotAttempted,
    /// Asked for; the outcome is not known yet.
    Pending,
    Held,
    /// It could not be acquired; the command goes on without it.
    Unavailable,
}

/// The stage that the pipeline waits in.
#[derive(Debug, Clone, Copy, PartialEq, Eq, Structural)]
pub enum InstallStage {
    ReadingRequirements,
    FindingInterpreter,
    Redirecting,
    Locking,
    ReadingSitePackages,
    CheckingSatisfaction,
    PreparingResolver,
    ReadingLockFile,
    Resolving,
    Installing,
    DiagnosingResolution,
    DiagnosingEnvironment,
    Done,
}

/// The state of an install: its stage, the lock, and what the requirements hold.
#[derive(Debug, Clone, Copy, PartialEq, Eq, Structural)]
pub struct InstallState {
    pub stage: InstallStage,
    pub lock: LockStatus,
    pub has_source_trees: bool,
    pub has_groups: bool,
    pub has_pylock: bool,
}

/// What the driver reports.
#[derive(Debug)]
pub enum InstallEvent {
    /// The requirement sources were read.
    RequirementsRead { has_source_trees: bool, has_groups: bool, has_pylock: bool },
    /// An interpreter was found.
    InterpreterFound,
    /// The redirect was applied. `externally_managed` is what the interpreter reports: `None`
    /// where it is not externally managed, else the explanation it gives, if any.
    EnvironmentReady { externally_managed: Option<Option<String>>, root: String },
    /// The environment lock was asked for.
    LockAttempted { acquired: bool },
    /// The installed packages were read.
    SitePackagesRead,
    /// The environment was checked against the requirements.
    SatisfactionChecked { satisfied: bool },
    /// The client, tags, flat index and build dispatch are ready.
    ResolverReady,
    /// The `pylock.toml` file was read; `mismatch` is there where its Python requirement
    /// excludes the interpreter.
    LockFileRead { mismatch: Option<PythonMismatch> },
    /// The resolver succeeded.
    Resolved,
    /// The resolution was installed.
    Installed,
    /// The diagnostics of the last stage were reported.
    DiagnosticsReported,
    /// The resolver or the installer failed, and the failure went through the diagnostic
    /// reporter, which `reported` it in full or left it to be propagated.
    OperationFailed { reported: bool },
    /// The current stage failed otherwise.
    Failed,
}

/// The interpreter's Python version, and the `requires-python` of a lock file that excludes it.
#[derive(Debug, Clone, PartialEq, Eq)]
pub struct PythonMismatch {
    pub python_version: String,
    pub requires_python: String,
}

/// The text that reports a lock file whose Python requirement excludes the interpreter.
pub open spec fn mismatch_text(python_version: Seq<char>, requires_python: Seq<char>) -> Seq<char> {
    "The requested interpreter resolved to Python "@ + python_version
        + ", which is incompatible with the `pylock.toml`'s Python requirement: `"@ + requires_python
        + "`"@
}

impl PythonMismatch {
    /// The message that names the interpreter's version and the lock file's requirement.
    pub fn message(&self) -> (r: String)
        ensures
            r@ == mismatch_text(self.python_version@, self.requires_python@),
    {
        let r = String::from_str("The requested interpreter resolved to Python ");
        let r = r.concat(self.python_version.as_str());
        let r = r.concat(", which is incompatible with the `pylock.toml`'s Python requirement: `");
        let r = r.concat(self.requires_python.as_str());
        r.concat("`")
    }
}

/// Why an install stopped with an error.
#[derive(Debug, Clone)]
pub enum InstallError {
    ExternallyManaged(ExternallyManagedError),
    /// The interpreter's Python version is outside the `pylock.toml` requirement.
    IncompatibleLockFile(PythonMismatch),
    /// The failure of a stage, passed on as it is.
    Propagated,
    /// An event that the current stage does not expect.
    OutOfOrder,
}

/// How an install ends.
#[derive(Debug, Clone)]
pub enum InstallOutcome {
    /// Everything was installed.
    Success,
    /// The environment already satisfied the request; nothing was resolved or installed.
    AlreadySatisfied { dry_run: bool },
    /// An operation failed and its diagnostic was reported: exit with failure.
    Failure,
    Error(InstallError),
}

/// What the driver is to do next.
#[derive(Debug, Clone)]
pub enum InstallAction {
    ReadRequirements,
    FindInterpreter(Discovery),
    ApplyRedirect(Redirect),
    AcquireLock,
    /// Read the installed packages; `lock_held` tells whether the environment lock is held.
    ReadSitePackages { lock_held: bool },
    /// Check whether the environment already satisfies the requirements.
    CheckSatisfaction,
    /// Build the client, tags, flat index and build dispatch.
    PrepareResolver(ResolverSetup),
    ReadLockFile,
    Resolve,
    /// Install the resolution, with the lock file's hashes in verify mode where it came from
    /// one; under `dry_run`, only report the plan.
    Install { lock_file_hashes: bool, dry_run: bool },
    DiagnoseResolution,
    DiagnoseEnvironment,
    Finish(InstallOutcome),
}

/// Whether an action writes to the environment.
pub open spec fn writes_environment(a: InstallAction) -> bool {
    a is Install
}

/// Whether an action belongs after the environment lock: it reads the installed packages,
/// checks them, resolves, installs, or reports on the result.
pub open spec fn needs_lock_attempt(a: InstallAction) -> bool {
    a is ReadSitePackages || a is CheckSatisfaction || a is PrepareResolver || a is ReadLockFile
        || a is Resolve || a is Install || a is DiagnoseResolution || a is DiagnoseEnvironment
}

/// Whether an action reaches the package indexes over the network.
pub open spec fn uses_network(a: InstallAction) -> bool {
    a is PrepareResolver || a is Resolve || a is Install
}

/// The satisfaction fast path is taken only if nothing asks for a reinstall, an upgrade,
/// source trees, groups or a lock file, and leftover packages are tolerated.
pub open spec fn fast_path_allowed(settings: InstallSettings, s: InstallState) -> bool {
    &&& !settings.reinstall
    &&& !settings.upgrade
    &&& !s.has_source_trees
    &&& !s.has_groups
    &&& !s.has_pylock
    &&& settings.modifications == Modifications::Sufficient
}

/// The resolver configuration that the settings give.
pub open spec fn setup_spec(settings: InstallSettings) -> ResolverSetup {
    ResolverSetup {
        hashes: match settings.hash_checking {
            Some(m) => HashStrategy::FromRequirements(m),
            None => HashStrategy::Unchecked,
        },
        build_hashes: match settings.hash_checking {
            Some(_) => HashStrategy::FromRequirements(HashCheckingMode::Verify),
            None => HashStrategy::Unchecked,
        },
        build_isolation: if settings.no_build_isolation {
            BuildIsolation::Shared
        } else if settings.no_build_isolation_package@.len() == 0 {
            BuildIsolation::Isolated
        } else {
            BuildIsolation::SharedPackage
        },
    }
}

/// Whether the settings redirect installs to `--target` or `--prefix`.
pub open spec fn redirected(settings: InstallSettings) -> bool {
    settings.target is Some || settings.prefix is Some
}

/// The state in which an install starts, and its first action.
pub open spec fn initial_spec() -> (InstallState, InstallAction) {
    (
        InstallState {
            stage: InstallStage::ReadingRequirements,
            lock: LockStatus::NotAttempted,
            has_source_trees: false,
            has_groups: false,
            has_pylock: false,
        },
        InstallAction::ReadRequirements,
    )
}

/// `s` in stage `stage`.
pub open spec fn at(s: InstallState, stage: InstallStage) -> InstallState {
    InstallState { stage, ..s }
}

/// The end of an install on an event that its stage does not expect.
pub open spec fn out_of_order(s: InstallState) -> (InstallState, InstallAction) {
    (at(s, InstallStage::Done), InstallAction::Finish(InstallOutcome::Error(InstallError::OutOfOrder)))
}

/// The next state and action after event `e` in state `s`.
pub open spec fn step_spec(settings: InstallSettings, s: InstallState, e: InstallEvent) -> (
    InstallState,
    InstallAction,
) {
    match e {
        InstallEvent::RequirementsRead { has_source_trees, has_groups, has_pylock } => {
            if s.stage == InstallStage::ReadingRequirements {
                (
                    InstallState {
                        stage: InstallStage::FindingInterpreter,
                        has_source_trees,
                        has_groups,
                        has_pylock,
                        ..s
                    },
                    InstallAction::FindInterpreter(
                        install_discovery_spec(redirected(settings), settings.system),
                    ),
                )
            } else {
                out_of_order(s)
            }
        },
        InstallEvent::InterpreterFound => {
            if s.stage == InstallStage::FindingInterpreter {
                (
                    at(s, InstallStage::Redirecting),
                    InstallAction::ApplyRedirect(redirect_spec(settings.target, settings.prefix)),
                )
            } else {
                out_of_order(s)
            }
        },
        InstallEvent::EnvironmentReady { externally_managed, root } => {
            if s.stage != InstallStage::Redirecting {
                out_of_order(s)
            } else if externally_managed_stops(
                externally_managed,
                redirected(settings),
                settings.break_system_packages,
            ) {
                (
                    at(s, InstallStage::Done),
                    InstallAction::Finish(
                        InstallOutcome::Error(
                            InstallError::ExternallyManaged(
                                ExternallyManagedError {
                                    root,
                                    explanation: externally_managed->Some_0,
                                },
                            ),
                        ),
                    ),
                )
            } else {
                (
                    InstallState { stage: InstallStage::Locking, lock: LockStatus::Pending, ..s },
                    InstallAction::AcquireLock,
                )
            }
        },
        InstallEvent::LockAttempted { acquired } => {
            if s.stage == InstallStage::Locking {
                (
                    InstallState {
                        stage: InstallStage::ReadingSitePackages,
                        lock: if acquired {
                            LockStatus::Held
                        } else {
                            LockStatus::Unavailable
                        },
                        ..s
                    },
                    InstallAction::ReadSitePackages { lock_held: acquired },
                )
            } else {
                out_of_order(s)
            }
        },
        InstallEvent::SitePackagesRead => {
            if s.stage != InstallStage::ReadingSitePackages {
                out_of_order(s)
            } else if fast_path_allowed(settings, s) {
                (at(s, InstallStage::CheckingSatisfaction), InstallAction::CheckSatisfaction)
            } else {
                (
                    at(s, InstallStage::PreparingResolver),
                    InstallAction::PrepareResolver(setup_spec(settings)),
                )
            }
        },
        InstallEvent::SatisfactionChecked { satisfied } => {
            if s.stage != InstallStage::CheckingSatisfaction {
                out_of_order(s)
            } else if satisfied {
                (
                    at(s, InstallStage::Done),
                    InstallAction::Finish(InstallOutcome::AlreadySatisfied { dry_run: settings.dry_run }),
                )
            } else {
                (
                    at(s, InstallStage::PreparingResolver),
                    InstallAction::PrepareResolver(setup_spec(settings)),
                )
            }
        },
        InstallEvent::ResolverReady => {
            if s.stage != InstallStage::PreparingResolver {
                out_of_order(s)
            } else if s.has_pylock {
                (at(s, InstallStage::ReadingLockFile), InstallAction::ReadLockFile)
            } else {
                (at(s, InstallStage::Resolving), InstallAction::Resolve)
            }
        },
        InstallEvent::LockFileRead { mismatch } => {
            if s.stage != InstallStage::ReadingLockFile {
                out_of_order(s)
            } else {
                match mismatch {
                    None => (
                        at(s, InstallStage::Installing),
                        InstallAction::Install { lock_file_hashes: true, dry_run: settings.dry_run },
                    ),
                    Some(m) => (
                        at(s, InstallStage::Done),
                        InstallAction::Finish(
                            InstallOutcome::Error(InstallError::IncompatibleLockFile(m)),
                        ),
                    ),
                }
            }
        },
        InstallEvent::Resolved => {
            if s.stage == InstallStage::Resolving {
                (
                    at(s, InstallStage::Installing),
                    InstallAction::Install { lock_file_hashes: false, dry_run: settings.dry_run },
                )
            } else {
                out_of_order(s)
            }
        },
        InstallEvent::Installed => {
            if s.stage == InstallStage::Installing {
                (at(s, InstallStage::DiagnosingResolution), InstallAction::DiagnoseResolution)
            } else {
                out_of_order(s)
            }
        },
        InstallEvent::DiagnosticsReported => {
            if s.stage == InstallStage::DiagnosingResolution && settings.strict
                && !settings.dry_run {
                (at(s, InstallStage::DiagnosingEnvironment), InstallAction::DiagnoseEnvironment)
            } else if s.stage == InstallStage::DiagnosingResolution || s.stage
                == InstallStage::DiagnosingEnvironment {
                (at(s, InstallStage::Done), InstallAction::Finish(InstallOutcome::Success))
            } else {
                out_of_order(s)
            }
        },
        InstallEvent::OperationFailed { reported } => {
            if s.stage == InstallStage::Resolving || s.stage == InstallStage::Installing {
                (
                    at(s, InstallStage::Done),
                    InstallAction::Finish(
                        if reported {
                            InstallOutcome::Failure
                        } else {
                            InstallOutcome::Error(InstallError::Propagated)
                        },
                    ),
                )
            } else {
                out_of_order(s)
            }
        },
        InstallEvent::Failed => {
            if s.stage == InstallStage::Done {
                out_of_order(s)
            } else {
                (
                    at(s, InstallStage::Done),
                    InstallAction::Finish(InstallOutcome::Error(InstallError::Propagated)),
                )
            }
        },
    }
}

/// Begin an install: the initial state and the first action.
pub fn start() -> (r: (InstallState, InstallAction))
    ensures
        r == initial_spec(),
{
    (
        InstallState {
            stage: InstallStage::ReadingRequirements,
            lock: LockStatus::NotAttempted,
            has_source_trees: false,
            has_groups: false,
            has_pylock: false,
        },
        InstallAction::ReadRequirements,
    )
}

/// The resolver configuration that the settings give: the requirements' hashes are checked in
/// the requested mode, build constraints' hashes are verified whenever hashes are checked, and
/// build isolation is shared globally, for the listed packages, or not at all.
pub fn resolver_setup(settings: &InstallSettings) -> (r: ResolverSetup)
    ensures
        r == setup_spec(*settings),
{
    let hashes = match settings.hash_checking {
        Some(m) => HashStrategy::FromRequirements(m),
        None => HashStrategy::Unchecked,
    };
    let build_hashes = match settings.hash_checking {
        Some(_) => HashStrategy::FromRequirements(HashCheckingMode::Verify),
        None => HashStrategy::Unchecked,
    };
    let build_isolation = if settings.no_build_isolation {
        BuildIsolation::Shared
    } else if settings.no_build_isolation_package.len() == 0 {
        BuildIsolation::Isolated
    } else {
        BuildIsolation::SharedPackage
    };
    ResolverSetup { hashes, build_hashes, build_isolation }
}

/// Whether the satisfaction fast path may be taken, as [`fast_path_allowed`] says.
pub fn fast_path(settings: &InstallSettings, s: &InstallState) -> (r: bool)
    ensures
        r == fast_path_allowed(*settings, *s),
{
    !settings.reinstall && !settings.upgrade && !s.has_source_trees && !s.has_groups
        && !s.has_pylock && settings.modifications == Modifications::Sufficient
}

/// The end of an install on an unexpected event.
fn stop_out_of_order(s: InstallState) -> (r: (InstallState, InstallAction))
    ensures
        r == out_of_order(s),
{
    (
        InstallState { stage: InstallStage::Done, ..s },
        InstallAction::Finish(InstallOutcome::Error(InstallError::OutOfOrder)),
    )
}

/// Take one step: the next state and action after event `e` in state `s`.
pub fn step(settings: &InstallSettings, s: InstallState, e: InstallEvent) -> (r: (
    InstallState,
    InstallAction,
))
    ensures
        r == step_spec(*settings, s, e),
{
    let ghost e0 = e;
    match e {
        InstallEvent::RequirementsRead { has_source_trees, has_groups, has_pylock } => {
            if s.stage == InstallStage::ReadingRequirements {
                let redirected = settings.target.is_some() || settings.prefix.is_some();
                (
                    InstallState {
                        stage: InstallStage::FindingInterpreter,
                        has_source_trees,
                        has_groups,
                        has_pylock,
                        ..s
                    },
                    InstallAction::FindInterpreter(install_discovery(redirected, settings.system)),
                )
            } else {
                stop_out_of_order(s)
            }
        },
        InstallEvent::InterpreterFound => {
            if s.stage == InstallStage::FindingInterpreter {
                let target = clone_opt(&settings.target);
                let prefix = clone_opt(&settings.prefix);
                (
                    InstallState { stage: InstallStage::Redirecting, ..s },
                    InstallAction::ApplyRedirect(choose_redirect(target, prefix)),
                )
            } else {
                stop_out_of_order(s)
            }
        },
        InstallEvent::EnvironmentReady { externally_managed, root } => {
            if s.stage != InstallStage::Redirecting {
                return stop_out_of_order(s);
            }
            let redirected = settings.target.is_some() || settings.prefix.is_some();
            match check_externally_managed(
                externally_managed,
                redirected,
                settings.break_system_packages,
                root,
            ) {
                Err(err) => (
                    InstallState { stage: InstallStage::Done, ..s },
                    InstallAction::Finish(
                        InstallOutcome::Error(InstallError::ExternallyManaged(err)),
                    ),
                ),
                Ok(()) => (
                    InstallState { stage: InstallStage::Locking, lock: LockStatus::Pending, ..s },
                    InstallAction::AcquireLock,
                ),
            }
        },
        InstallEvent::LockAttempted { acquired } => {
            if s.stage == InstallStage::Locking {
                (
                    InstallState {
                        stage: InstallStage::ReadingSitePackages,
                        lock: if acquired {
                            LockStatus::Held
                        } else {
                            LockStatus::Unavailable
                        },
                        ..s
                    },
                    InstallAction::ReadSitePackages { lock_held: acquired },
                )
            } else {
                stop_out_of_order(s)
            }
        },
        InstallEvent::SitePackagesRead => {
            if s.stage != InstallStage::ReadingSitePackages {
                stop_out_of_order(s)
            } else if fast_path(settings, &s) {
                (
                    InstallState { stage: InstallStage::CheckingSatisfaction, ..s },
                    InstallAction::CheckSatisfaction,
                )
            } else {
                (
                    InstallState { stage: InstallStage::PreparingResolver, ..s },
                    InstallAction::PrepareResolver(resolver_setup(settings)),
                )
            }
        },
        InstallEvent::SatisfactionChecked { satisfied } => {
            if s.stage != InstallStage::CheckingSatisfaction {
                stop_out_of_order(s)
            } else if satisfied {
                (
                    InstallState { stage: InstallStage::Done, ..s },
                    InstallAction::Finish(
                        InstallOutcome::AlreadySatisfied { dry_run: settings.dry_run },
                    ),
                )
            } else {
                (
                    InstallState { stage: InstallStage::PreparingResolver, ..s },
                    InstallAction::PrepareResolver(resolver_setup(settings)),
                )
            }
        },
        InstallEvent::ResolverReady => {
            if s.stage != InstallStage::PreparingResolver {
                stop_out_of_order(s)
            } else if s.has_pylock {
                (InstallState { stage: InstallStage::ReadingLockFile, ..s }, InstallAction::ReadLockFile)
            } else {
                (InstallState { stage: InstallStage::Resolving, ..s }, InstallAction::Resolve)
            }
        },
        InstallEvent::LockFileRead { mismatch } => {
            if s.stage != InstallStage::ReadingLockFile {
                stop_out_of_order(s)
            } else {
                match mismatch {
                    None => (
                        InstallState { stage: InstallStage::Installing, ..s },
                        InstallAction::Install { lock_file_hashes: true, dry_run: settings.dry_run },
                    ),
                    Some(m) => (
                        InstallState { stage: InstallStage::Done, ..s },
                        InstallAction::Finish(
                            InstallOutcome::Error(InstallError::IncompatibleLockFile(m)),
                        ),
                    ),
                }
            }
        },
        InstallEvent::Resolved => {
            if s.stage == InstallStage::Resolving {
                (
                    InstallState { stage: InstallStage::Installing, ..s },
                    InstallAction::Install { lock_file_hashes: false, dry_run: settings.dry_run },
                )
            } else {
                stop_out_of_order(s)
            }
        },
        InstallEvent::Installed => {
            if s.stage == InstallStage::Installing {
                (
                    InstallState { stage: InstallStage::DiagnosingResolution, ..s },
                    InstallAction::DiagnoseResolution,
                )
            } else {
                stop_out_of_order(s)
            }
        },
        InstallEvent::DiagnosticsReported => {
            if s.stage == InstallStage::DiagnosingResolution && settings.strict
                && !settings.dry_run {
                (
                    InstallState { stage: InstallStage::DiagnosingEnvironment, ..s },
                    InstallAction::DiagnoseEnvironment,
                )
            } else if s.stage == InstallStage::DiagnosingResolution || s.stage
                == InstallStage::DiagnosingEnvironment {
                (
                    InstallState { stage: InstallStage::Done, ..s },
                    InstallAction::Finish(InstallOutcome::Success),
                )
            } else {
                stop_out_of_order(s)
            }
        },
        InstallEvent::OperationFailed { reported } => {
            if s.stage == InstallStage::Resolving || s.stage == InstallStage::Installing {
                (
                    InstallState { stage: InstallStage::Done, ..s },
                    InstallAction::Finish(
                        if reported {
                            InstallOutcome::Failure
                        } else {
                            InstallOutcome::Error(InstallError::Propagated)
                        },
                    ),
                )
            } else {
                stop_out_of_order(s)
            }
        },
        InstallEvent::Failed => {
            if s.stage == InstallStage::Done {
                stop_out_of_order(s)
            } else {
                (
                    InstallState { stage: InstallStage::Done, ..s },
                    InstallAction::Finish(InstallOutcome::Error(InstallError::Propagated)),
                )
            }
        },
    }
}

/// The role of an index location.
#[derive(Debug, Clone, Copy, PartialEq, Eq, Structural)]
pub enum IndexKind {
    /// The default index (`--index-url`).
    Default,
    /// An extra index (`--extra-index-url`).
    Extra,
    /// A flat index (`--find-links`).
    FlatIndex,
}

/// Where an index location was given.
#[derive(Debug, Clone, Copy, PartialEq, Eq, Structural)]
pub enum IndexOrigin {
    CommandLine,
    RequirementsFile,
}

/// An index location, with its role and origin.
#[derive(Debug, Clone)]
pub struct IndexEntry {
    pub url: String,
    pub kind: IndexKind,
    pub origin: IndexOrigin,
}

/// Whether `e` is the index `url` of role `kind`, found in a requirements file.
pub open spec fn from_requirements_file(e: IndexEntry, url: String, kind: IndexKind) -> bool {
    e.url == url && e.kind == kind && e.origin == IndexOrigin::RequirementsFile
}

/// The indexes that requirements files contribute: the extra indexes in the order given, then
/// the default index, if one was given, each marked as coming from a requirements file.
pub fn requirements_file_indexes(extra_index_urls: Vec<String>, index_url: Option<String>) -> (r:
    Vec<IndexEntry>)
    ensures
        r@.len() == extra_index_urls@.len() + if index_url is Some {
            1int
        } else {
            0int
        },
        forall|i: int|
            0 <= i < extra_index_urls@.len() ==> from_requirements_file(
                #[trigger] r@[i],
                extra_index_urls@[i],
                IndexKind::Extra,
            ),
        index_url matches Some(u) ==> from_requirements_file(
            r@[extra_index_urls@.len() as int],
            u,
            IndexKind::Default,
        ),
{
    let mut r = tagged_entries(extra_index_urls, IndexKind::Extra);
    let ghost n = r@.len();
    if let Some(url) = index_url {
        r.push(IndexEntry { url, kind: IndexKind::Default, origin: IndexOrigin::RequirementsFile });
        assert(r@[n as int].url == url);
    }
    r
}

/// The flat indexes that requirements files contribute, in the order given.
pub fn requirements_file_flat_indexes(find_links: Vec<String>) -> (r: Vec<IndexEntry>)
    ensures
        r@.len() == find_links@.len(),
        forall|i: int|
            0 <= i < find_links@.len() ==> from_requirements_file(
                #[trigger] r@[i],
                find_links@[i],
                IndexKind::FlatIndex,
            ),
{
    tagged_entries(find_links, IndexKind::FlatIndex)
}

/// Index entries of role `kind` for `urls`, in order, marked as coming from a requirements file.
fn tagged_entries(urls: Vec<String>, kind: IndexKind) -> (r: Vec<IndexEntry>)
    ensures
        r@.len() == urls@.len(),
        forall|i: int| 0 <= i < urls@.len() ==> from_requirements_file(#[trigger] r@[i], urls@[i], kind),
{
    let mut r: Vec<IndexEntry> = Vec::new();
    let mut i: usize = 0;
    while i < urls.len()
        invariant
            i <= urls@.len(),
            r@.len() == i,
            forall|j: int| 0 <= j < i ==> from_requirements_file(#[trigger] r@[j], urls@[j], kind),
        decreases urls@.len() - i,
    {
        r.push(IndexEntry { url: urls[i].clone(), kind, origin: IndexOrigin::RequirementsFile });
        i = i + 1;
    }
    r
}

/// The state of an install after the first `k` of `events`.
pub open spec fn state_after(settings: InstallSettings, events: Seq<InstallEvent>, k: nat) -> InstallState
    decreases k,
{
    if k == 0 {
        initial_spec().0
    } else {
        step_spec(settings, state_after(settings, events, (k - 1) as nat), events[k - 1]).0
    }
}

/// The action that an install takes after the first `k` of `events`: its first action for
/// `k == 0`.
pub open spec fn action_at(settings: InstallSettings, events: Seq<InstallEvent>, k: nat) -> InstallAction {
    if k == 0 {
        initial_spec().1
    } else {
        step_spec(settings, state_after(settings, events, (k - 1) as nat), events[k - 1]).1
    }
}

/// The lock is asked for when the stage of locking is entered, and not before.
pub open spec fn lock_follows_stage(s: InstallState) -> bool {
    match s.stage {
        InstallStage::ReadingRequirements | InstallStage::FindingInterpreter
        | InstallStage::Redirecting => s.lock == LockStatus::NotAttempted,
        InstallStage::Locking => s.lock == LockStatus::Pending,
        InstallStage::Done => true,
        _ => s.lock != LockStatus::NotAttempted,
    }
}

/// The stages up to the satisfaction check, none of which reaches the indexes.
pub open spec fn is_early(stage: InstallStage) -> bool {
    match stage {
        InstallStage::ReadingRequirements | InstallStage::FindingInterpreter
        | InstallStage::Redirecting | InstallStage::Locking | InstallStage::ReadingSitePackages
        | InstallStage::CheckingSatisfaction => true,
        _ => false,
    }
}

proof fn lemma_step_lock(settings: InstallSettings, s: InstallState, e: InstallEvent)
    requires
        lock_follows_stage(s),
    ensures
        lock_follows_stage(step_spec(settings, s, e).0),
        s.lock == LockStatus::NotAttempted ==> step_spec(settings, s, e).0.lock
            == LockStatus::NotAttempted || step_spec(settings, s, e).1 is AcquireLock,
        s.lock == LockStatus::Held ==> step_spec(settings, s, e).0.lock == LockStatus::Held,
        s.lock != LockStatus::NotAttempted ==> step_spec(settings, s, e).0.lock
            != LockStatus::NotAttempted,
        step_spec(settings, s, e).1 is AcquireLock ==> s.lock == LockStatus::NotAttempted,
        needs_lock_attempt(step_spec(settings, s, e).1) ==> s.lock != LockStatus::NotAttempted,
{
}

proof fn lemma_step_stages(settings: InstallSettings, s: InstallState, e: InstallEvent)
    ensures
        !is_early(s.stage) ==> !is_early(step_spec(settings, s, e).0.stage),
        s.stage == InstallStage::Done ==> step_spec(settings, s, e).0.stage == InstallStage::Done
            && step_spec(settings, s, e).1 is Finish,
        uses_network(step_spec(settings, s, e).1) || writes_environment(step_spec(settings, s, e).1)
            ==> !is_early(step_spec(settings, s, e).0.stage) && step_spec(settings, s, e).0.stage
            != InstallStage::Done,
        step_spec(settings, s, e).1 matches InstallAction::Finish(InstallOutcome::AlreadySatisfied { .. })
            ==> s.stage == InstallStage::CheckingSatisfaction && step_spec(settings, s, e).0.stage
            == InstallStage::Done,
{
}

proof fn lemma_trace_lock(settings: InstallSettings, events: Seq<InstallEvent>, k: nat)
    requires
        k <= events.len(),
    ensures
        lock_follows_stage(state_after(settings, events, k)),
        state_after(settings, events, k).lock != LockStatus::NotAttempted ==> exists|j: nat|
            j <= k && (#[trigger] action_at(settings, events, j)) is AcquireLock,
    decreases k,
{
    if k > 0 {
        let p = (k - 1) as nat;
        lemma_trace_lock(settings, events, p);
        lemma_step_lock(settings, state_after(settings, events, p), events[p as int]);
        if state_after(settings, events, k).lock != LockStatus::NotAttempted {
            if state_after(settings, events, p).lock != LockStatus::NotAttempted {
                let j = choose|j: nat| j <= p && (#[trigger] action_at(settings, events, j)) is AcquireLock;
                assert(j <= k && action_at(settings, events, j) is AcquireLock);
            } else {
                assert(action_at(settings, events, k) is AcquireLock);
            }
        }
    }
}

/// No step of an install reads the installed packages, checks them, resolves, or writes to the
/// environment before the environment lock has been asked for.
pub proof fn lemma_lock_before_writes(settings: InstallSettings, events: Seq<InstallEvent>, k: nat)
    requires
        k <= events.len(),
        needs_lock_attempt(action_at(settings, events, k)),
    ensures
        exists|j: nat| j < k && (#[trigger] action_at(settings, events, j)) is AcquireLock,
{
    let p = (k - 1) as nat;
    lemma_trace_lock(settings, events, p);
    lemma_step_lock(settings, state_after(settings, events, p), events[p as int]);
}

/// The environment lock is asked for only once the interpreter is bound and redirected and the
/// externally-managed check has let the install go on.
pub proof fn lemma_lock_after_binding(settings: InstallSettings, s: InstallState, e: InstallEvent)
    ensures
        step_spec(settings, s, e).1 is AcquireLock ==> {
            &&& s.stage == InstallStage::Redirecting
            &&& e matches InstallEvent::EnvironmentReady { externally_managed, .. }
            &&& !externally_managed_stops(
                externally_managed,
                redirected(settings),
                settings.break_system_packages,
            )
        },
{
}

proof fn lemma_lock_stays_asked(settings: InstallSettings, events: Seq<InstallEvent>, j: nat, k: nat)
    requires
        j <= k <= events.len(),
        state_after(settings, events, j).lock != LockStatus::NotAttempted,
    ensures
        state_after(settings, events, k).lock != LockStatus::NotAttempted,
    decreases k,
{
    if k > j {
        let p = (k - 1) as nat;
        lemma_lock_stays_asked(settings, events, j, p);
        lemma_trace_lock(settings, events, p);
        lemma_step_lock(settings, state_after(settings, events, p), events[p as int]);
    }
}

/// An install asks for the environment lock at most once.
pub proof fn lemma_lock_asked_once(settings: InstallSettings, events: Seq<InstallEvent>, j: nat, k: nat)
    requires
        j < k <= events.len(),
        action_at(settings, events, j) is AcquireLock,
    ensures
        !(action_at(settings, events, k) is AcquireLock),
{
    if j > 0 {
        let q = (j - 1) as nat;
        lemma_trace_lock(settings, events, q);
        lemma_step_lock(settings, state_after(settings, events, q), events[q as int]);
    }
    let p = (k - 1) as nat;
    lemma_lock_stays_asked(settings, events, j, p);
    lemma_trace_lock(settings, events, p);
    lemma_step_lock(settings, state_after(settings, events, p), events[p as int]);
}

/// Once the environment lock is held, it stays held until the install ends.
pub proof fn lemma_lock_kept(settings: InstallSettings, events: Seq<InstallEvent>, j: nat, k: nat)
    requires
        j <= k <= events.len(),
        state_after(settings, events, j).lock == LockStatus::Held,
    ensures
        state_after(settings, events, k).lock == LockStatus::Held,
    decreases k,
{
    if k > j {
        let p = (k - 1) as nat;
        lemma_lock_kept(settings, events, j, p);
        lemma_trace_lock(settings, events, p);
        lemma_step_lock(settings, state_after(settings, events, p), events[p as int]);
    }
}

/// The satisfaction check is entered exactly when the installed packages have been read and
/// all six conditions of [`fast_path_allowed`] hold.
pub proof fn lemma_fast_path_entry(settings: InstallSettings, s: InstallState, e: InstallEvent)
    ensures
        step_spec(settings, s, e).1 is CheckSatisfaction <==> s.stage
            == InstallStage::ReadingSitePackages && e is SitePackagesRead && fast_path_allowed(
            settings,
            s,
        ),
{
}

proof fn lemma_late_stays_late(settings: InstallSettings, events: Seq<InstallEvent>, j: nat, k: nat)
    requires
        j <= k <= events.len(),
        !is_early(state_after(settings, events, j).stage),
    ensures
        !is_early(state_after(settings, events, k).stage),
    decreases k,
{
    if k > j {
        let p = (k - 1) as nat;
        lemma_late_stays_late(settings, events, j, p);
        lemma_step_stages(settings, state_after(settings, events, p), events[p as int]);
    }
}

proof fn lemma_done_stays_done(settings: InstallSettings, events: Seq<InstallEvent>, j: nat, k: nat)
    requires
        j <= k <= events.len(),
        state_after(settings, events, j).stage == InstallStage::Done,
    ensures
        state_after(settings, events, k).stage == InstallStage::Done,
        k > j ==> action_at(settings, events, k) is Finish,
    decreases k,
{
    if k > j {
        let p = (k - 1) as nat;
        lemma_done_stays_done(settings, events, j, p);
        lemma_step_stages(settings, state_after(settings, events, p), events[p as int]);
    }
}

/// An install that ends on the satisfaction fast path never reaches the indexes over the
/// network and never writes to the environment.
pub proof fn lemma_fast_path_quiet(
    settings: InstallSettings,
    events: Seq<InstallEvent>,
    k: nat,
    j: nat,
)
    requires
        k <= events.len(),
        j <= events.len(),
        action_at(settings, events, k) matches InstallAction::Finish(
            InstallOutcome::AlreadySatisfied { .. },
        ),
    ensures
        !uses_network(action_at(settings, events, j)),
        !writes_environment(action_at(settings, events, j)),
{
    let p = (k - 1) as nat;
    lemma_step_stages(settings, state_after(settings, events, p), events[p as int]);
    if j > k {
        lemma_done_stays_done(settings, events, k, j);
    } else if j > 0 {
        let q = (j - 1) as nat;
        lemma_step_stages(settings, state_after(settings, events, q), events[q as int]);
        if uses_network(action_at(settings, events, j)) || writes_environment(
            action_at(settings, events, j),
        ) {
            if j < k {
                lemma_late_stays_late(settings, events, j, p);
            }
        }
    }
}

} // verus!
