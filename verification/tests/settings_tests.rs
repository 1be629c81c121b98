use std::path::PathBuf;

use chikachika::settings::{
    parse_port_input, validate_port, Settings, SettingsEnvelope, SettingsError, SettingsState, Store,
    DEFAULT_PORT, FORMAT_VERSION, MAX_PORT, MIN_PORT,
};

#[test]
fn invalid_port_is_rejected() {
    let too_large = SettingsEnvelope { format_version: 1, server_port: 65_536 };
    assert!(matches!(too_large.into_settings(), Err(SettingsError::InvalidPort { port: 65_536 })));
    let zero = SettingsEnvelope { format_version: 1, server_port: 0 };
    assert!(matches!(zero.into_settings(), Err(SettingsError::InvalidPort { port: 0 })));
    assert!(matches!(Settings::new(0), Err(SettingsError::InvalidPort { port: 0 })));
}

#[test]
fn unsupported_version_is_reported_before_the_port() {
    let envelope = SettingsEnvelope { format_version: 99, server_port: 42_424 };
    assert!(matches!(
        envelope.into_settings(),
        Err(SettingsError::UnsupportedVersion { found: 99, supported: FORMAT_VERSION })
    ));
}

#[test]
fn stored_settings_round_trip() {
    let settings = Settings::new(42_424).unwrap();
    let envelope = SettingsEnvelope::from_settings(settings);
    assert_eq!(envelope, SettingsEnvelope { format_version: 1, server_port: 42_424 });
    assert_eq!(envelope.into_settings(), Ok(settings));
    assert_eq!(Settings::default().server_port(), DEFAULT_PORT);
    assert_eq!(DEFAULT_PORT, 51_737);
    assert_eq!((MIN_PORT, MAX_PORT), (1, 65_535));
    assert!(validate_port(1).is_ok());
    assert!(validate_port(65_535).is_ok());
}

#[test]
fn state_save_updates_next_launch_only_after_success() {
    let path = PathBuf::from("settings.json");
    let mut state = SettingsState::from_settings(Store::at(path.clone()), Settings::default());

    let (store, envelope) = state.save_request(42_424).unwrap();
    assert_eq!(store.path(), &path);
    assert_eq!(envelope.server_port, 42_424);
    state.finish_save_port(42_424, Ok(())).unwrap();

    assert_eq!(state.configured_port(), Some(42_424));
    assert_eq!(state.display_port(), 42_424);
    assert!(state.is_valid());
}

#[test]
fn failed_settings_save_keeps_the_previous_port() {
    let mut state =
        SettingsState::from_settings(Store::at(PathBuf::from("settings.json")), Settings::default());
    let failure = SettingsError::Replace { path: "settings.json".to_owned(), source: "denied".to_owned() };
    assert_eq!(state.finish_save_port(42_424, Err(failure.clone())), Err(failure));
    assert_eq!(state.configured_port(), Some(DEFAULT_PORT));
    assert!(matches!(state.save_request(0), Err(SettingsError::InvalidPort { port: 0 })));
}

#[test]
fn unavailable_settings_block_startup_but_show_the_default() {
    let mut state = SettingsState::unavailable(SettingsError::AppLocalDirectoryUnavailable);
    assert_eq!(state.configured_port(), None);
    assert_eq!(state.display_port(), DEFAULT_PORT);
    assert!(!state.is_valid());
    assert!(state.settings_path().is_none());
    assert!(matches!(state.save_request(42_424), Err(SettingsError::AppLocalDirectoryUnavailable)));
    assert!(state.finish_save_port(42_424, Err(SettingsError::AppLocalDirectoryUnavailable)).is_err());
    assert_eq!(state.settings_error(), Some(&SettingsError::AppLocalDirectoryUnavailable));
}

#[test]
fn failed_load_keeps_the_store_and_the_error() {
    let error = SettingsError::Malformed { path: "settings.json".to_owned(), source: "eof".to_owned() };
    let state = SettingsState::from_load_result(Store::at(PathBuf::from("settings.json")), Err(error.clone()));
    assert_eq!(state.configured_port(), None);
    assert_eq!(state.settings_error(), Some(&error));
    assert_eq!(state.settings_path(), Some(&PathBuf::from("settings.json")));
    let loaded = SettingsState::from_load_result(Store::at(PathBuf::from("s.json")), Ok(Settings::new(8080).unwrap()));
    assert_eq!(loaded.configured_port(), Some(8080));
    assert!(loaded.is_valid());
}

#[test]
fn port_input_accepts_only_the_inclusive_valid_range() {
    assert_eq!(parse_port_input("1"), Ok(1));
    assert_eq!(parse_port_input("65535"), Ok(65535));
    assert!(parse_port_input("0").is_err());
    assert!(parse_port_input("65536").is_err());
    assert!(parse_port_input("not a port").is_err());
    assert!(parse_port_input(" ").is_err());
    assert_eq!(
        parse_port_input("0"),
        Err("Port must be a whole number from 1 to 65535.".to_owned())
    );
}

#[test]
fn port_input_trims_and_accepts_a_plus_sign() {
    assert_eq!(parse_port_input("  8080\n"), Ok(8080));
    assert_eq!(parse_port_input("+443"), Ok(443));
    assert!(parse_port_input("-1").is_err());
    assert!(parse_port_input("4294967296").is_err());
    assert_eq!(parse_port_input(&DEFAULT_PORT.to_string()), Ok(DEFAULT_PORT));
}

#[test]
fn settings_error_messages() {
    assert_eq!(
        SettingsError::InvalidPort { port: 0 }.message(),
        "settings specify invalid server port 0; valid ports are 1..=65535"
    );
    assert_eq!(
        SettingsError::UnsupportedVersion { found: 99, supported: FORMAT_VERSION }.message(),
        "settings use unsupported format version 99; supported version is 1"
    );
    assert_eq!(
        SettingsError::Malformed { path: "/tmp/settings.json".to_owned(), source: "EOF".to_owned() }
            .message(),
        "settings /tmp/settings.json are malformed: EOF"
    );
    assert_eq!(
        SettingsError::AppLocalDirectoryUnavailable.message(),
        "the platform app-local settings directory is unavailable"
    );
}
