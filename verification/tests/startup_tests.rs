use std::path::PathBuf;

use chikachika::ids::{parse_overlay_id, OverlayId};
use chikachika::server::{
    default_bind_address, overlay_url, shutdown_outcome, unreported_startup_error, Ipv4Address,
    ServerAddress, ServerError, DEFAULT_PORT,
};
use chikachika::settings::{Settings, SettingsError, SettingsState, Store as SettingsStore};
use chikachika::startup::{combine_lifecycle_results, BootstrapFailure, BootstrapOutcome, ServerPlan};
use chikachika::persistence::PersistenceError;
use chikachika::text::decimal_text;

#[test]
fn lifecycle_returns_success_only_after_gui_and_shutdown_succeed() {
    assert!(combine_lifecycle_results(Ok(()), Ok(())).is_ok());
    assert_eq!(
        combine_lifecycle_results(Err("GUI".to_owned()), Ok(()))
            .expect_err("GUI failure is returned")
            .to_string(),
        "GUI"
    );
    assert_eq!(
        combine_lifecycle_results(Ok(()), Err("shutdown".to_owned()))
            .expect_err("shutdown failure is returned")
            .to_string(),
        "shutdown"
    );
}

#[test]
fn lifecycle_keeps_both_failures_visible() {
    let error = combine_lifecycle_results(Err("GUI".to_owned()), Err("shutdown".to_owned()))
        .expect_err("both failures are returned");
    assert_eq!(error.to_string(), "GUI failed (GUI) and server shutdown failed (shutdown)");
}

#[test]
fn startup_does_not_invoke_server_for_blocked_persistence() {
    let settings =
        SettingsState::from_settings(SettingsStore::at(PathBuf::from("settings.json")), Settings::default());
    let outcome: BootstrapOutcome<NoHub> =
        BootstrapOutcome::Blocked(BootstrapFailure::without_store(PersistenceError::AppLocalDirectoryUnavailable));
    assert_eq!(chikachika::startup::plan_server_start(&outcome, &settings), ServerPlan::NotStarted);
    assert!(outcome.failure().unwrap().store().is_none());
}

#[test]
fn ready_startup_uses_the_configured_port_or_records_the_settings_error() {
    let coordinator = chikachika::coordinator::HeadlessCoordinator::empty(
        chikachika::persistence::Store::at(PathBuf::from("overlays.json")),
        NoHub,
    );
    let outcome = BootstrapOutcome::Ready(coordinator);
    let configured = SettingsState::from_settings(
        SettingsStore::at(PathBuf::from("settings.json")),
        Settings::new(42_424).unwrap(),
    );
    assert_eq!(chikachika::startup::plan_server_start(&outcome, &configured), ServerPlan::Start(42_424));
    let broken = SettingsState::from_load_result(
        SettingsStore::at(PathBuf::from("settings.json")),
        Err(SettingsError::Malformed { path: "settings.json".to_owned(), source: "eof".to_owned() }),
    );
    assert_eq!(
        chikachika::startup::plan_server_start(&outcome, &broken),
        ServerPlan::SettingsUnavailable
    );
}

#[test]
fn overlay_urls_name_the_loopback_address_and_parse_back() {
    let id = OverlayId::generate();
    let address = ServerAddress::loopback(DEFAULT_PORT);
    assert_eq!(default_bind_address(), Ipv4Address(127, 0, 0, 1));
    assert_eq!(address.to_text(), "127.0.0.1:51737");
    let url = overlay_url(address, id);
    assert_eq!(url, format!("http://127.0.0.1:51737/overlay/{}", uuid::Uuid::from_u128(id.as_u128())));
    let text = url.rsplit('/').next().unwrap();
    assert_eq!(parse_overlay_id(text), Some(id));
    assert_eq!(id.to_string().len(), 36);
    assert_eq!(parse_overlay_id("00000000-0000-0000-0000-000000000000"), None);
    assert_eq!(parse_overlay_id("550e8400-e29b-11d4-a716-446655440000"), None);
    assert!(parse_overlay_id("550e8400-e29b-41d4-a716-446655440000").is_some());
}

#[test]
fn decimal_text_matches_display() {
    for n in [0u64, 7, 10, 99, 51_737, 65_535, u64::MAX] {
        assert_eq!(decimal_text(n), n.to_string());
    }
}

/// A hub that hosts nothing; startup decisions never call it.
#[derive(Clone)]
struct NoHub;

impl chikachika::coordinator::HubOperations for NoHub {
    fn register_overlay(&self, _overlay: chikachika::model::Overlay) -> Result<(), chikachika::hub::HubError> {
        Ok(())
    }
    fn publish_overlay(
        &self,
        _overlay: &chikachika::model::Overlay,
    ) -> Result<chikachika::hub::PublishResult, chikachika::hub::HubError> {
        Ok(chikachika::hub::PublishResult::Unchanged)
    }
    fn remove_overlay(
        &self,
        _id: OverlayId,
    ) -> Result<Option<chikachika::model::Overlay>, chikachika::hub::HubError> {
        Ok(None)
    }
    fn snapshot_overlay(
        &self,
        _id: OverlayId,
    ) -> Result<Option<chikachika::model::Overlay>, chikachika::hub::HubError> {
        Ok(None)
    }
}

fn ready_with(overlays: Vec<chikachika::model::Overlay>) -> BootstrapOutcome<NoHub> {
    chikachika::startup::bootstrap_from_load(
        chikachika::persistence::Store::at(PathBuf::from("overlays.json")),
        Ok(overlays),
        NoHub,
    )
}

fn configured(port: u16) -> SettingsState {
    SettingsState::from_settings(
        SettingsStore::at(PathBuf::from("settings.json")),
        Settings::new(port).unwrap(),
    )
}

#[test]
fn startup_keeps_loaded_workspace_when_server_start_fails() {
    let overlay = chikachika::model::Overlay::with_dimensions("Saved", 320, 240).unwrap();
    let mut outcome = ready_with(vec![overlay.clone()]);
    let settings = configured(DEFAULT_PORT);
    assert_eq!(chikachika::startup::plan_server_start(&outcome, &settings), ServerPlan::Start(DEFAULT_PORT));
    let BootstrapOutcome::Ready(coordinator) = &mut outcome else {
        panic!("workspace should remain usable")
    };
    coordinator.record_server_start(Err(chikachika::server::ServerError::Bind("occupied".to_owned())));
    assert_eq!(coordinator.overlays(), std::slice::from_ref(&overlay));
    assert!(matches!(
        coordinator.last_error(),
        Some(chikachika::coordinator::CoordinatorError::Server(chikachika::server::ServerError::Bind(m))) if m.contains("occupied")
    ));
    assert!(coordinator.selected_url().is_none());
}

#[test]
fn startup_uses_the_configured_settings_port() {
    let outcome = ready_with(Vec::new());
    let settings = configured(42_424);
    assert_eq!(settings.configured_port(), Some(42_424));
    assert_eq!(chikachika::startup::plan_server_start(&outcome, &settings), ServerPlan::Start(42_424));
    assert_eq!(ServerAddress::loopback(42_424).port, 42_424);
}

#[test]
fn settings_failure_keeps_loaded_workspace_but_blocks_only_server_startup() {
    let overlay = chikachika::model::Overlay::with_dimensions("Saved", 320, 240).unwrap();
    let mut outcome = ready_with(vec![overlay.clone()]);
    let settings = SettingsState::from_load_result(
        SettingsStore::at(PathBuf::from("settings.json")),
        Err(SettingsError::Malformed { path: "settings.json".to_owned(), source: "expected value".to_owned() }),
    );
    assert!(settings.configured_port().is_none());
    assert!(matches!(settings.settings_error(), Some(SettingsError::Malformed { .. })));
    assert_eq!(
        chikachika::startup::plan_server_start(&outcome, &settings),
        ServerPlan::SettingsUnavailable
    );
    let BootstrapOutcome::Ready(coordinator) = &mut outcome else {
        panic!("valid overlay workspace should remain usable")
    };
    coordinator.record_settings_error(settings.settings_error().unwrap());
    assert_eq!(coordinator.overlays(), std::slice::from_ref(&overlay));
    assert!(coordinator.server_address().is_none());
    assert!(matches!(
        coordinator.last_error(),
        Some(chikachika::coordinator::CoordinatorError::Settings(SettingsError::Malformed { .. }))
    ));
}

#[test]
fn configured_port_conflict_does_not_fallback_to_another_port() {
    let mut outcome = ready_with(Vec::new());
    let settings = configured(42_424);
    let plan = chikachika::startup::plan_server_start(&outcome, &settings);
    assert_eq!(plan, ServerPlan::Start(42_424));
    let BootstrapOutcome::Ready(coordinator) = &mut outcome else {
        panic!("bind conflict must retain the loaded workspace")
    };
    coordinator.record_server_start(Err(chikachika::server::ServerError::Bind("occupied".to_owned())));
    assert!(coordinator.server_address().is_none());
    assert!(matches!(
        coordinator.last_error(),
        Some(chikachika::coordinator::CoordinatorError::Server(chikachika::server::ServerError::Bind(m))) if m.contains("occupied")
    ));
}

#[test]
fn app_local_path_is_absolute_and_named() {
    let store = chikachika::persistence::Store::app_local().unwrap();
    assert_eq!(store.path().file_name().unwrap(), chikachika::persistence::FILE_NAME);
    assert!(store.path().is_absolute());
    let settings = SettingsStore::app_local().unwrap();
    assert_eq!(settings.path().file_name().unwrap(), chikachika::settings::FILE_NAME);
    assert!(settings.path().is_absolute());
    let dirs = directories::ProjectDirs::from("", "", "Chikachika").unwrap();
    assert_eq!(store.path(), &dirs.data_local_dir().join("overlays.json"));
    assert_eq!(settings.path(), &dirs.config_local_dir().join("settings.json"));
}

#[test]
fn bootstrap_failure_message() {
    let failure = BootstrapFailure::without_store(PersistenceError::AppLocalDirectoryUnavailable);
    assert_eq!(
        failure.message("", ""),
        "application startup is blocked: the platform app-local data directory is unavailable"
    );
}

/// The blocked-startup screen as the window shows it, for label checks.
fn blocked_screen_shows(failure: &BootstrapFailure, label: &str) -> bool {
    let source_text = failure.store().map(|store| store.path().display().to_string()).unwrap_or_default();
    failure
        .blocked_lines("", "", &source_text)
        .iter()
        .any(|text| text == label || text.contains(label))
}

#[test]
fn blocked_startup_shows_backup_first_recovery_guidance() {
    let source_path = PathBuf::from("data").join("overlays.json");
    let malformed = PersistenceError::Malformed {
        path: source_path.display().to_string(),
        source: "expected value at line 1 column 1".to_owned(),
    };
    let outcome = chikachika::startup::bootstrap_from_load(
        chikachika::persistence::Store::at(source_path.clone()),
        Err(malformed),
        NoHub,
    );
    let BootstrapOutcome::Blocked(failure) = outcome else {
        panic!("malformed overlay source should block startup");
    };
    assert!(blocked_screen_shows(&failure, "Chikachika cannot open this workspace"));
    assert!(blocked_screen_shows(&failure, "The saved overlay source was not changed."));
    assert!(blocked_screen_shows(&failure, "First copy the exact source file to a separate backup location."));
    assert!(blocked_screen_shows(&failure, "Then repair it or move it aside yourself, and restart Chikachika."));
    assert!(!blocked_screen_shows(&failure, "remove the source"));
    assert!(blocked_screen_shows(&failure, &format!("Source: {}", source_path.display())));
    assert!(blocked_screen_shows(&failure, "expected value at line 1 column 1"));
}

#[test]
fn blocked_startup_without_a_path_explains_the_platform_problem() {
    let failure = BootstrapFailure::without_store(PersistenceError::AppLocalDirectoryUnavailable);
    assert_eq!(
        failure.blocked_lines("", "", ""),
        vec![
            "Chikachika cannot open this workspace",
            "Startup is blocked",
            "The saved overlay source was not changed.",
            "the platform app-local data directory is unavailable",
            "No persistence path could be resolved. Fix the platform app-data configuration yourself, then restart Chikachika.",
            "No replacement Save action is available because no source path exists.",
        ]
    );
}

#[test]
fn server_thread_endings_are_reported() {
    assert_eq!(shutdown_outcome(Some(Ok(()))), Ok(()));
    assert_eq!(
        shutdown_outcome(Some(Err(ServerError::Serve("reset".to_owned())))),
        Err(ServerError::Serve("reset".to_owned()))
    );
    assert_eq!(shutdown_outcome(None), Err(ServerError::ThreadPanicked));
    assert_eq!(unreported_startup_error(Some(Ok(()))), ServerError::StartupChannelClosed);
    assert_eq!(
        unreported_startup_error(Some(Err(ServerError::Runtime("no reactor".to_owned())))),
        ServerError::Runtime("no reactor".to_owned())
    );
    assert_eq!(unreported_startup_error(None), ServerError::ThreadPanicked);
}

#[test]
fn shutdown_error_is_preserved() {
    let result = combine_lifecycle_results(Ok(()), Err("shutdown".to_owned()));
    assert_eq!(result.expect_err("shutdown error is returned").to_string(), "shutdown");
}

#[test]
fn combined_gui_and_shutdown_errors_are_preserved() {
    let result = combine_lifecycle_results(Err("GUI".to_owned()), Err("shutdown".to_owned()));
    assert_eq!(
        result.expect_err("combined error is returned").to_string(),
        "GUI failed (GUI) and server shutdown failed (shutdown)"
    );
}
