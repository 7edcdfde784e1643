use uv_pip::environment::{Discovery, EnvironmentPreference, Redirect};
use uv_pip::uninstall::{
    package_noun, plan_uninstall, skipped_warnings, uninstall_start, uninstall_step,
    InstalledDist, SitePackages, UninstallAction, UninstallError, UninstallEvent,
    UninstallOutcome, UninstallRequirement, UninstallSettings, UninstallStage,
};

fn dist(name: &str, version: &str, url: Option<&str>, path: &str) -> InstalledDist {
    InstalledDist {
        name: name.to_string(),
        version: version.to_string(),
        url: url.map(|u| u.to_string()),
        install_path: path.to_string(),
    }
}

fn named(n: &str) -> UninstallRequirement {
    UninstallRequirement::Named(n.to_string())
}

fn unnamed(u: &str) -> UninstallRequirement {
    UninstallRequirement::Unnamed(u.to_string())
}

fn site() -> Vec<InstalledDist> {
    vec![
        dist("requests", "2.31.0", None, "/site/requests-2.31.0.dist-info"),
        dist("flask", "3.0.0", None, "/site/flask-3.0.0.dist-info"),
        dist(
            "mylib",
            "0.1.0",
            Some("file:///src/mylib"),
            "/site/mylib-0.1.0.dist-info",
        ),
        dist("click", "8.1.7", None, "/site/click-8.1.7.dist-info"),
    ]
}

fn settings(dry_run: bool) -> UninstallSettings {
    UninstallSettings {
        target: None,
        prefix: None,
        system: false,
        break_system_packages: false,
        dry_run,
    }
}

fn paths(d: &[InstalledDist]) -> Vec<String> {
    d.iter().map(|d| d.install_path.clone()).collect()
}

#[test]
fn missing_package_is_skipped() {
    let site = SitePackages::from_distributions(site());
    let plan = plan_uninstall(&site, vec![named("missing-pkg")]);
    assert_eq!(plan.skipped_names, vec!["missing-pkg".to_string()]);
    assert!(plan.skipped_urls.is_empty());
    assert!(plan.distributions.is_empty());
    assert_eq!(skipped_warnings(&plan, false), vec!["missing-pkg".to_string()]);
    assert!(skipped_warnings(&plan, true).is_empty());

    let s = settings(false);
    let (stage, _) = uninstall_start();
    let (stage, _) = uninstall_step(&s, stage, UninstallEvent::RequirementsRead);
    let (stage, _) = uninstall_step(&s, stage, UninstallEvent::InterpreterFound);
    let (stage, _) = uninstall_step(
        &s,
        stage,
        UninstallEvent::EnvironmentReady { externally_managed: None, root: "/venv".to_string() },
    );
    let (stage, _) = uninstall_step(&s, stage, UninstallEvent::LockAttempted { acquired: true });
    let (stage, action) = uninstall_step(
        &s,
        stage,
        UninstallEvent::Planned { removals: plan.distributions.len() },
    );
    assert_eq!(stage, UninstallStage::Done);
    assert!(matches!(
        action,
        UninstallAction::Finish(UninstallOutcome::NothingToUninstall { dry_run: false })
    ));
}

#[test]
fn names_and_urls_are_sorted_and_deduplicated() {
    let site = SitePackages::from_distributions(site());
    let plan = plan_uninstall(
        &site,
        vec![
            named("zzz"),
            named("requests"),
            named("aaa"),
            named("zzz"),
            unnamed("https://example.com/b.whl"),
            unnamed("https://example.com/a.whl"),
            unnamed("https://example.com/b.whl"),
        ],
    );
    assert_eq!(plan.skipped_names, vec!["aaa".to_string(), "zzz".to_string()]);
    assert_eq!(
        plan.skipped_urls,
        vec!["https://example.com/a.whl".to_string(), "https://example.com/b.whl".to_string()]
    );
    assert_eq!(paths(&plan.distributions), vec!["/site/requests-2.31.0.dist-info".to_string()]);
    assert_eq!(
        skipped_warnings(&plan, false),
        vec![
            "aaa".to_string(),
            "zzz".to_string(),
            "https://example.com/a.whl".to_string(),
            "https://example.com/b.whl".to_string(),
        ]
    );
}

#[test]
fn package_named_and_by_url_is_removed_once() {
    let site = SitePackages::from_distributions(site());
    let plan = plan_uninstall(
        &site,
        vec![unnamed("file:///src/mylib"), named("mylib"), named("flask")],
    );
    assert!(plan.skipped_names.is_empty());
    assert!(plan.skipped_urls.is_empty());
    assert_eq!(
        paths(&plan.distributions),
        vec![
            "/site/flask-3.0.0.dist-info".to_string(),
            "/site/mylib-0.1.0.dist-info".to_string(),
        ]
    );
    assert_eq!(plan.distributions[1].name, "mylib");
    assert_eq!(plan.distributions[1].version, "0.1.0");
}

#[test]
fn url_key_is_verbatim() {
    let site = SitePackages::from_distributions(site());
    let plan = plan_uninstall(&site, vec![unnamed("file:///src/mylib/")]);
    assert!(plan.distributions.is_empty());
    assert_eq!(plan.skipped_urls, vec!["file:///src/mylib/".to_string()]);
}

#[test]
fn uninstalling_twice_changes_nothing_the_second_time() {
    let requests = || vec![named("flask"), named("click"), named("absent")];
    let installed = SitePackages::from_distributions(site());
    let first = plan_uninstall(&installed, requests());
    assert_eq!(first.distributions.len(), 2);
    let removed = paths(&first.distributions);
    let after: Vec<InstalledDist> = site()
        .into_iter()
        .filter(|d| !removed.contains(&d.install_path))
        .collect();
    assert_eq!(after.len(), 2);
    let second = plan_uninstall(&SitePackages::from_distributions(after.clone()), requests());
    assert!(second.distributions.is_empty());
    assert_eq!(
        second.skipped_names,
        vec!["absent".to_string(), "click".to_string(), "flask".to_string()]
    );
}

#[test]
fn get_packages_and_get_urls() {
    let site = SitePackages::from_distributions(site());
    assert_eq!(site.get_packages("flask").len(), 1);
    assert!(site.get_packages("Flask").is_empty());
    assert_eq!(site.get_urls("file:///src/mylib").len(), 1);
    assert!(site.get_urls("file:///src/other").is_empty());
    assert_eq!(site.distributions().len(), 4);
}

#[test]
fn uninstall_pipeline_removes_and_reports() {
    let s = settings(false);
    let (stage, first) = uninstall_start();
    assert!(matches!(first, UninstallAction::ReadRequirements));
    let (stage, action) = uninstall_step(&s, stage, UninstallEvent::RequirementsRead);
    assert!(matches!(
        action,
        UninstallAction::FindInterpreter(Discovery::Environment(EnvironmentPreference::ExplicitSystem))
    ));
    let (stage, action) = uninstall_step(&s, stage, UninstallEvent::InterpreterFound);
    assert!(matches!(action, UninstallAction::ApplyRedirect(Redirect::Unchanged)));
    let (stage, action) = uninstall_step(
        &s,
        stage,
        UninstallEvent::EnvironmentReady { externally_managed: None, root: "/venv".to_string() },
    );
    assert!(matches!(action, UninstallAction::AcquireLock));
    let (stage, action) =
        uninstall_step(&s, stage, UninstallEvent::LockAttempted { acquired: false });
    assert!(matches!(action, UninstallAction::Plan { lock_held: false }));
    let (stage, action) = uninstall_step(&s, stage, UninstallEvent::Planned { removals: 2 });
    assert!(matches!(action, UninstallAction::Remove));
    let (stage, action) = uninstall_step(&s, stage, UninstallEvent::Removed);
    assert!(matches!(
        action,
        UninstallAction::Finish(UninstallOutcome::Uninstalled { dry_run: false })
    ));
    assert_eq!(stage, UninstallStage::Done);
}

#[test]
fn dry_run_uninstall_removes_nothing() {
    let s = settings(true);
    let (_, action) = uninstall_step(&s, UninstallStage::Planning, UninstallEvent::Planned { removals: 3 });
    assert!(matches!(
        action,
        UninstallAction::Finish(UninstallOutcome::Uninstalled { dry_run: true })
    ));
    let (_, action) = uninstall_step(&s, UninstallStage::Planning, UninstallEvent::Planned { removals: 0 });
    assert!(matches!(
        action,
        UninstallAction::Finish(UninstallOutcome::NothingToUninstall { dry_run: true })
    ));
}

#[test]
fn uninstall_refuses_externally_managed_interpreter() {
    let s = settings(false);
    let (stage, action) = uninstall_step(
        &s,
        UninstallStage::Redirecting,
        UninstallEvent::EnvironmentReady {
            externally_managed: Some(None),
            root: "/usr".to_string(),
        },
    );
    assert_eq!(stage, UninstallStage::Done);
    assert!(matches!(
        action,
        UninstallAction::Finish(UninstallOutcome::Error(UninstallError::ExternallyManaged(_)))
    ));
    let mut s = settings(false);
    s.prefix = Some("/tmp/prefix".to_string());
    let (_, action) = uninstall_step(&s, UninstallStage::FindingInterpreter, UninstallEvent::InterpreterFound);
    match action {
        UninstallAction::ApplyRedirect(Redirect::Prefix(p)) => assert_eq!(p, "/tmp/prefix"),
        _ => panic!("expected a redirect to the prefix"),
    }
    let (_, action) = uninstall_step(
        &s,
        UninstallStage::Redirecting,
        UninstallEvent::EnvironmentReady {
            externally_managed: Some(None),
            root: "/usr".to_string(),
        },
    );
    assert!(matches!(action, UninstallAction::AcquireLock));
}

#[test]
fn package_count_wording() {
    assert_eq!(package_noun(1), "package");
    assert_eq!(package_noun(0), "packages");
    assert_eq!(package_noun(2), "packages");
}

#[test]
fn lookups_keep_site_order() {
    let site = SitePackages::from_distributions(vec![
        dist("dup", "1.0", None, "/site/b"),
        dist("other", "1.0", Some("file:///x"), "/site/c"),
        dist("dup", "2.0", Some("file:///x"), "/site/a"),
    ]);
    assert_eq!(paths(&site.get_packages("dup")), vec!["/site/b".to_string(), "/site/a".to_string()]);
    assert_eq!(paths(&site.get_urls("file:///x")), vec!["/site/c".to_string(), "/site/a".to_string()]);
}
