use uv_pip::environment::{Discovery, EnvironmentPreference, Redirect};
use uv_pip::install::{
    requirements_file_flat_indexes, requirements_file_indexes, resolver_setup, start, step,
    BuildIsolation, HashCheckingMode, HashStrategy, IndexKind, IndexOrigin, InstallAction,
    InstallError, InstallEvent, InstallOutcome, InstallSettings, InstallStage, InstallState,
    LockStatus, Modifications, PythonMismatch,
};

fn settings() -> InstallSettings {
    InstallSettings {
        target: None,
        prefix: None,
        system: false,
        break_system_packages: false,
        reinstall: false,
        upgrade: false,
        modifications: Modifications::Sufficient,
        hash_checking: None,
        no_build_isolation: false,
        no_build_isolation_package: vec![],
        strict: false,
        dry_run: false,
    }
}

fn requirements_read() -> InstallEvent {
    InstallEvent::RequirementsRead { has_source_trees: false, has_groups: false, has_pylock: false }
}

fn ready(managed: Option<Option<&str>>) -> InstallEvent {
    InstallEvent::EnvironmentReady {
        externally_managed: managed.map(|m| m.map(|e| e.to_string())),
        root: "/usr".to_string(),
    }
}

/// Run the events in order, and return every action, the first one included, and the last state.
fn run(settings: &InstallSettings, events: Vec<InstallEvent>) -> (Vec<InstallAction>, InstallState) {
    let (mut state, first) = start();
    let mut actions = vec![first];
    for event in events {
        let (next, action) = step(settings, state, event);
        state = next;
        actions.push(action);
    }
    (actions, state)
}

fn bound_events() -> Vec<InstallEvent> {
    vec![
        requirements_read(),
        InstallEvent::InterpreterFound,
        ready(None),
        InstallEvent::LockAttempted { acquired: true },
        InstallEvent::SitePackagesRead,
    ]
}

#[test]
fn satisfied_environment_skips_the_resolver() {
    let mut events = bound_events();
    events.push(InstallEvent::SatisfactionChecked { satisfied: true });
    let (actions, state) = run(&settings(), events);
    assert!(matches!(actions[0], InstallAction::ReadRequirements));
    assert!(matches!(
        actions[1],
        InstallAction::FindInterpreter(Discovery::Environment(EnvironmentPreference::ExplicitSystem))
    ));
    assert!(matches!(actions[2], InstallAction::ApplyRedirect(Redirect::Unchanged)));
    assert!(matches!(actions[3], InstallAction::AcquireLock));
    assert!(matches!(actions[4], InstallAction::ReadSitePackages { lock_held: true }));
    assert!(matches!(actions[5], InstallAction::CheckSatisfaction));
    assert!(matches!(
        actions[6],
        InstallAction::Finish(InstallOutcome::AlreadySatisfied { dry_run: false })
    ));
    for a in &actions {
        assert!(!matches!(
            a,
            InstallAction::PrepareResolver(_) | InstallAction::Resolve | InstallAction::Install { .. }
        ));
    }
    assert_eq!(state.stage, InstallStage::Done);
    assert_eq!(state.lock, LockStatus::Held);
}

#[test]
fn fast_path_needs_all_six_conditions() {
    let check = |s: InstallSettings, read: InstallEvent| {
        let mut events = bound_events();
        events[0] = read;
        let (actions, _) = run(&s, events);
        matches!(actions[5], InstallAction::CheckSatisfaction)
    };
    assert!(check(settings(), requirements_read()));
    let mut s = settings();
    s.upgrade = true;
    assert!(!check(s, requirements_read()));
    let mut s = settings();
    s.reinstall = true;
    assert!(!check(s, requirements_read()));
    let mut s = settings();
    s.modifications = Modifications::Sync;
    assert!(!check(s, requirements_read()));
    for (trees, groups, pylock) in [(true, false, false), (false, true, false), (false, false, true)] {
        let read = InstallEvent::RequirementsRead {
            has_source_trees: trees,
            has_groups: groups,
            has_pylock: pylock,
        };
        assert!(!check(settings(), read));
    }
}

#[test]
fn unsatisfied_environment_resolves_and_installs() {
    let mut events = bound_events();
    events.push(InstallEvent::SatisfactionChecked { satisfied: false });
    events.push(InstallEvent::ResolverReady);
    events.push(InstallEvent::Resolved);
    events.push(InstallEvent::Installed);
    events.push(InstallEvent::DiagnosticsReported);
    let (actions, state) = run(&settings(), events);
    assert!(matches!(actions[6], InstallAction::PrepareResolver(_)));
    assert!(matches!(actions[7], InstallAction::Resolve));
    assert!(matches!(
        actions[8],
        InstallAction::Install { lock_file_hashes: false, dry_run: false }
    ));
    assert!(matches!(actions[9], InstallAction::DiagnoseResolution));
    assert!(matches!(actions[10], InstallAction::Finish(InstallOutcome::Success)));
    assert_eq!(state.stage, InstallStage::Done);
}

#[test]
fn strict_install_diagnoses_the_environment() {
    let mut s = settings();
    s.strict = true;
    s.upgrade = true;
    let mut events = bound_events();
    events.push(InstallEvent::ResolverReady);
    events.push(InstallEvent::Resolved);
    events.push(InstallEvent::Installed);
    events.push(InstallEvent::DiagnosticsReported);
    events.push(InstallEvent::DiagnosticsReported);
    let (actions, _) = run(&s, events);
    assert!(matches!(actions[5], InstallAction::PrepareResolver(_)));
    assert!(matches!(actions[9], InstallAction::DiagnoseEnvironment));
    assert!(matches!(actions[10], InstallAction::Finish(InstallOutcome::Success)));

    // Not under --dry-run.
    s.dry_run = true;
    let mut events = bound_events();
    events.push(InstallEvent::ResolverReady);
    events.push(InstallEvent::Resolved);
    events.push(InstallEvent::Installed);
    events.push(InstallEvent::DiagnosticsReported);
    let (actions, _) = run(&s, events);
    assert!(matches!(actions[7], InstallAction::Install { dry_run: true, .. }));
    assert!(matches!(actions[9], InstallAction::Finish(InstallOutcome::Success)));
}

#[test]
fn missing_lock_file_fails_without_installing() {
    let mut events = bound_events();
    events[0] = InstallEvent::RequirementsRead {
        has_source_trees: false,
        has_groups: false,
        has_pylock: true,
    };
    events.push(InstallEvent::ResolverReady);
    events.push(InstallEvent::Failed);
    let (actions, state) = run(&settings(), events);
    assert!(matches!(actions[5], InstallAction::PrepareResolver(_)));
    assert!(matches!(actions[6], InstallAction::ReadLockFile));
    assert!(matches!(
        actions[7],
        InstallAction::Finish(InstallOutcome::Error(InstallError::Propagated))
    ));
    assert!(actions.iter().all(|a| !matches!(a, InstallAction::Install { .. })));
    assert_eq!(state.stage, InstallStage::Done);
}

#[test]
fn lock_file_paths() {
    let pylock = || InstallEvent::RequirementsRead {
        has_source_trees: false,
        has_groups: false,
        has_pylock: true,
    };
    let mut events = bound_events();
    events[0] = pylock();
    events.push(InstallEvent::ResolverReady);
    events.push(InstallEvent::LockFileRead {
        mismatch: Some(PythonMismatch {
            python_version: "3.9.18".to_string(),
            requires_python: ">=3.10".to_string(),
        }),
    });
    let (actions, _) = run(&settings(), events);
    match &actions[7] {
        InstallAction::Finish(InstallOutcome::Error(InstallError::IncompatibleLockFile(m))) => {
            assert_eq!(
                m.message(),
                "The requested interpreter resolved to Python 3.9.18, which is incompatible with the `pylock.toml`'s Python requirement: `>=3.10`"
            );
        }
        _ => panic!("expected an incompatible lock file"),
    }
    assert!(actions.iter().all(|a| !matches!(a, InstallAction::Install { .. })));

    let mut events = bound_events();
    events[0] = pylock();
    events.push(InstallEvent::ResolverReady);
    events.push(InstallEvent::LockFileRead { mismatch: None });
    let (actions, _) = run(&settings(), events);
    assert!(matches!(actions[7], InstallAction::Install { lock_file_hashes: true, .. }));
}

#[test]
fn target_suppresses_externally_managed_check() {
    let mut s = settings();
    s.target = Some("./libs".to_string());
    s.prefix = Some("./prefix".to_string());
    let events = vec![
        requirements_read(),
        InstallEvent::InterpreterFound,
        ready(Some(Some("Use the system package manager."))),
    ];
    let (actions, state) = run(&s, events);
    assert!(matches!(
        actions[1],
        InstallAction::FindInterpreter(Discovery::Installation(EnvironmentPreference::Any))
    ));
    match &actions[2] {
        InstallAction::ApplyRedirect(Redirect::Target(t)) => assert_eq!(t, "./libs"),
        _ => panic!("expected a redirect to the target directory"),
    }
    assert!(matches!(actions[3], InstallAction::AcquireLock));
    assert_eq!(state.lock, LockStatus::Pending);
}

#[test]
fn externally_managed_interpreter_is_refused() {
    let events = vec![
        requirements_read(),
        InstallEvent::InterpreterFound,
        ready(Some(Some("Use apt.\nOr pipx."))),
    ];
    let (actions, state) = run(&settings(), events);
    assert_eq!(state.lock, LockStatus::NotAttempted);
    match &actions[3] {
        InstallAction::Finish(InstallOutcome::Error(InstallError::ExternallyManaged(e))) => {
            assert_eq!(e.root, "/usr");
            assert_eq!(
                e.message(),
                "The interpreter at /usr is externally managed, and indicates the following:\n\n  Use apt.\n  Or pipx.\n\nConsider creating a virtual environment with `uv venv`."
            );
        }
        _ => panic!("expected an externally-managed error"),
    }

    let events = vec![requirements_read(), InstallEvent::InterpreterFound, ready(Some(None))];
    let (actions, _) = run(&settings(), events);
    match &actions[3] {
        InstallAction::Finish(InstallOutcome::Error(InstallError::ExternallyManaged(e))) => {
            assert_eq!(
                e.message(),
                "The interpreter at /usr is externally managed. Instead, create a virtual environment with `uv venv`."
            );
        }
        _ => panic!("expected an externally-managed error"),
    }
}

#[test]
fn break_system_packages_overrides_the_marker() {
    let mut s = settings();
    s.break_system_packages = true;
    s.system = true;
    let events = vec![
        requirements_read(),
        InstallEvent::InterpreterFound,
        ready(Some(None)),
        InstallEvent::LockAttempted { acquired: false },
    ];
    let (actions, state) = run(&s, events);
    assert!(matches!(
        actions[1],
        InstallAction::FindInterpreter(Discovery::Environment(EnvironmentPreference::OnlySystem))
    ));
    assert!(matches!(actions[3], InstallAction::AcquireLock));
    assert!(matches!(actions[4], InstallAction::ReadSitePackages { lock_held: false }));
    assert_eq!(state.lock, LockStatus::Unavailable);
}

#[test]
fn failed_operations_go_through_the_diagnostic_reporter() {
    let mut s = settings();
    s.upgrade = true;
    let mut events = bound_events();
    events.push(InstallEvent::ResolverReady);
    events.push(InstallEvent::OperationFailed { reported: true });
    let (actions, _) = run(&s, events);
    assert!(matches!(actions[7], InstallAction::Finish(InstallOutcome::Failure)));

    let mut events = bound_events();
    events.push(InstallEvent::ResolverReady);
    events.push(InstallEvent::Resolved);
    events.push(InstallEvent::OperationFailed { reported: false });
    let (actions, _) = run(&s, events);
    assert!(matches!(
        actions[8],
        InstallAction::Finish(InstallOutcome::Error(InstallError::Propagated))
    ));
}

#[test]
fn events_out_of_order_stop_the_install() {
    let (actions, state) = run(&settings(), vec![InstallEvent::Installed]);
    assert!(matches!(
        actions[1],
        InstallAction::Finish(InstallOutcome::Error(InstallError::OutOfOrder))
    ));
    assert_eq!(state.stage, InstallStage::Done);
}

#[test]
fn resolver_setup_follows_hash_and_isolation_settings() {
    let setup = resolver_setup(&settings());
    assert_eq!(setup.hashes, HashStrategy::Unchecked);
    assert_eq!(setup.build_hashes, HashStrategy::Unchecked);
    assert_eq!(setup.build_isolation, BuildIsolation::Isolated);

    let mut s = settings();
    s.hash_checking = Some(HashCheckingMode::Require);
    s.no_build_isolation_package = vec!["setuptools-scm".to_string()];
    let setup = resolver_setup(&s);
    assert_eq!(setup.hashes, HashStrategy::FromRequirements(HashCheckingMode::Require));
    assert_eq!(setup.build_hashes, HashStrategy::FromRequirements(HashCheckingMode::Verify));
    assert_eq!(setup.build_isolation, BuildIsolation::SharedPackage);

    s.no_build_isolation = true;
    assert_eq!(resolver_setup(&s).build_isolation, BuildIsolation::Shared);
}

#[test]
fn requirements_file_indexes_keep_their_order() {
    let entries = requirements_file_indexes(
        vec!["https://b.example/simple".to_string(), "https://a.example/simple".to_string()],
        Some("https://main.example/simple".to_string()),
    );
    assert_eq!(entries.len(), 3);
    assert_eq!(entries[0].url, "https://b.example/simple");
    assert_eq!(entries[0].kind, IndexKind::Extra);
    assert_eq!(entries[1].url, "https://a.example/simple");
    assert_eq!(entries[2].url, "https://main.example/simple");
    assert_eq!(entries[2].kind, IndexKind::Default);
    assert!(entries.iter().all(|e| e.origin == IndexOrigin::RequirementsFile));
    assert!(requirements_file_indexes(vec![], None).is_empty());

    let flat = requirements_file_flat_indexes(vec!["./wheels".to_string()]);
    assert_eq!(flat.len(), 1);
    assert_eq!(flat[0].url, "./wheels");
    assert_eq!(flat[0].kind, IndexKind::FlatIndex);
    assert_eq!(flat[0].origin, IndexOrigin::RequirementsFile);
}
