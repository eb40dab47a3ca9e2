use node_launcher::errors::{AppError, LaunchHolochainError};
use node_launcher::install::{
    app_is_listed, AppInstaller, InstallAction, InstallEvent, InstallStage,
};

fn start(seed: Option<&str>) -> AppInstaller {
    let (installer, first) = AppInstaller::start("forum".to_string(), seed.map(String::from));
    assert_eq!(first, InstallAction::ListApps);
    assert_eq!(installer.stage, InstallStage::ListingApps);
    installer
}

#[test]
fn installed_app_is_left_alone() {
    let mut installer = start(None);
    let apps = vec!["other".to_string(), "forum".to_string()];
    assert_eq!(installer.on_event(InstallEvent::AppsListed(apps)), InstallAction::Finish);
    assert_eq!(installer.stage, InstallStage::Done);
    assert_eq!(installer.on_event(InstallEvent::Completed), InstallAction::Finish);
    assert_eq!(installer.on_event(InstallEvent::Failed("late".to_string())), InstallAction::Finish);
    assert_eq!(installer.on_event(InstallEvent::AppsListed(Vec::new())), InstallAction::Finish);
    assert_eq!(installer.stage, InstallStage::Done);
}

#[test]
fn missing_app_is_installed_and_enabled() {
    let mut installer = start(Some("seed-1"));
    assert_eq!(
        installer.on_event(InstallEvent::AppsListed(vec!["other".to_string()])),
        InstallAction::GenerateAgentKey
    );
    assert_eq!(installer.on_event(InstallEvent::Completed), InstallAction::DecodeBundle);
    assert_eq!(
        installer.on_event(InstallEvent::Completed),
        InstallAction::InstallApp {
            installed_app_id: "forum".to_string(),
            network_seed: Some("seed-1".to_string()),
        }
    );
    assert_eq!(
        installer.on_event(InstallEvent::Completed),
        InstallAction::EnableApp { installed_app_id: "forum".to_string() }
    );
    assert_eq!(installer.on_event(InstallEvent::Completed), InstallAction::Finish);
    assert_eq!(installer.stage, InstallStage::Done);
}

#[test]
fn install_without_seed_carries_none() {
    let mut installer = start(None);
    installer.on_event(InstallEvent::AppsListed(Vec::new()));
    installer.on_event(InstallEvent::Completed);
    assert_eq!(
        installer.on_event(InstallEvent::Completed),
        InstallAction::InstallApp { installed_app_id: "forum".to_string(), network_seed: None }
    );
}

#[test]
fn conductor_failures_abort() {
    for steps in 0..5 {
        if steps == 2 {
            continue;
        }
        let mut installer = start(None);
        if steps > 0 {
            installer.on_event(InstallEvent::AppsListed(Vec::new()));
        }
        for _ in 1..steps {
            installer.on_event(InstallEvent::Completed);
        }
        assert_eq!(
            installer.on_event(InstallEvent::Failed("boom".to_string())),
            InstallAction::Abort(AppError::ConductorApiError("boom".to_string()))
        );
        assert_eq!(installer.stage, InstallStage::Failed);
    }
}

#[test]
fn bundle_failure_aborts_with_a_bundle_error() {
    let mut installer = start(None);
    installer.on_event(InstallEvent::AppsListed(Vec::new()));
    assert_eq!(installer.on_event(InstallEvent::Completed), InstallAction::DecodeBundle);
    assert_eq!(
        installer.on_event(InstallEvent::Failed("bad bundle".to_string())),
        InstallAction::Abort(AppError::AppBundleError("bad bundle".to_string()))
    );
    assert_eq!(installer.stage, InstallStage::Failed);
}

#[test]
fn unexpected_answers_abort() {
    let impossible = |text: &str| {
        InstallAction::Abort(AppError::LaunchHolochainError(
            LaunchHolochainError::ImpossibleError(text.to_string()),
        ))
    };
    let mut installer = start(None);
    assert_eq!(
        installer.on_event(InstallEvent::Completed),
        impossible("Unexpected answer during the installation")
    );
    assert_eq!(installer.stage, InstallStage::Failed);
    assert_eq!(
        installer.on_event(InstallEvent::Completed),
        impossible("The installation has failed before")
    );
    let mut installer = start(None);
    installer.on_event(InstallEvent::AppsListed(Vec::new()));
    assert_eq!(
        installer.on_event(InstallEvent::AppsListed(Vec::new())),
        impossible("Unexpected answer during the installation")
    );
}

#[test]
fn listing_looks_for_the_exact_identifier() {
    let apps = vec!["forum2".to_string(), "Forum".to_string(), "foru".to_string()];
    assert!(!app_is_listed(&apps, "forum"));
    assert!(app_is_listed(&apps, "Forum"));
    assert!(!app_is_listed(&Vec::new(), "forum"));
    assert!(app_is_listed(&vec![String::new()], ""));
}
