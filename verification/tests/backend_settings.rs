use konsol::backend::actions::{Error, SettingsActions};
use konsol::backend::errors::SettingsError;
use konsol::backend::models::Settings;
use konsol::backend::services::SettingsService;
use konsol::backend::store::SettingsStep;

fn sample(id: &str, interval: i32) -> Settings {
    Settings { id: id.to_string(), dark_mode: true, slide_interval: interval }
}

#[test]
fn test_settings_builder_valid() {
    let settings = Settings::builder().dark_mode(true).slide_interval(2000).build().unwrap();

    assert!(settings.dark_mode);
    assert_eq!(settings.slide_interval, 2000);
}

#[test]
fn test_settings_validation_invalid_interval() {
    let result = Settings::builder().slide_interval(500).build();

    assert!(result.is_err());
    assert!(result.unwrap_err().contains("1000ms"));
}

#[test]
fn builder_defaults_and_random_id() {
    let s = Settings::builder().build().unwrap();
    assert!(!s.dark_mode);
    assert_eq!(s.slide_interval, 3000);
    assert_eq!(s.id.len(), 36);
    assert_eq!(s.id.chars().nth(14), Some('4'));
    assert_eq!(s.id.chars().nth(8), Some('-'));
    let other = Settings::builder().build().unwrap();
    assert_ne!(s.id, other.id);
}

#[test]
fn builder_accepts_exactly_one_second() {
    assert!(Settings::builder().slide_interval(1000).build().is_ok());
    assert_eq!(
        Settings::builder().slide_interval(999).build().unwrap_err(),
        "Slide interval must be >= 1000ms"
    );
}

#[test]
fn actions_read_after_write() {
    let mut store = SettingsActions::new();
    assert!(store.is_idle());
    match store.update_settings(sample("abc", 5000)) {
        SettingsStep::ReplaceRow(s) => assert_eq!(s.slide_interval, 5000),
        _ => panic!("expected a write"),
    }
    assert!(!store.is_idle());
    assert!(matches!(store.row_replaced(Ok(())), SettingsStep::Updated));
    assert!(store.is_idle());
    match store.get_settings() {
        SettingsStep::Found(s) => {
            assert_eq!(s.id, "abc");
            assert_eq!(s.slide_interval, 5000);
            assert!(s.dark_mode);
        }
        _ => panic!("expected the cached settings"),
    }
}

#[test]
fn actions_load_then_cache() {
    let mut store = SettingsActions::new();
    assert!(matches!(store.get_settings(), SettingsStep::LoadRow));
    match store.row_loaded(Ok(Some(sample("row", 2500)))) {
        SettingsStep::Found(s) => assert_eq!(s.id, "row"),
        _ => panic!("expected the loaded row"),
    }
    match store.get_settings() {
        SettingsStep::Found(s) => assert_eq!(s.slide_interval, 2500),
        _ => panic!("expected a cached read"),
    }
}

#[test]
fn actions_missing_row_inserts_defaults() {
    let mut store = SettingsActions::new();
    assert!(matches!(store.get_settings(), SettingsStep::LoadRow));
    let defaults = match store.row_loaded(Ok(None)) {
        SettingsStep::InsertDefaults(d) => d,
        _ => panic!("expected defaults to insert"),
    };
    assert!(!defaults.dark_mode);
    assert_eq!(defaults.slide_interval, 3000);
    assert_eq!(defaults.id.len(), 36);
    match store.defaults_inserted(Ok(())) {
        SettingsStep::Found(s) => assert_eq!(s.id, defaults.id),
        _ => panic!("expected the defaults"),
    }
    match store.get_settings() {
        SettingsStep::Found(s) => assert_eq!(s.id, defaults.id),
        _ => panic!("expected a cached read"),
    }
}

#[test]
fn actions_rejects_short_interval() {
    let mut store = SettingsActions::new();
    match store.update_settings(sample("abc", 999)) {
        SettingsStep::Failed(e) => {
            assert_eq!(e.message(), "Validation error: Slide interval must be >= 1000ms")
        }
        _ => panic!("expected a refusal"),
    }
    assert!(matches!(store.get_settings(), SettingsStep::LoadRow));
}

#[test]
fn actions_failed_write_keeps_cache() {
    let mut store = SettingsActions::new();
    store.get_settings();
    store.row_loaded(Ok(Some(sample("old", 4000))));
    store.update_settings(sample("new", 6000));
    match store.row_replaced(Err(Error::Database("disk full".to_string()))) {
        SettingsStep::Failed(e) => assert_eq!(e.message(), "Database error: disk full"),
        _ => panic!("expected the failure"),
    }
    match store.get_settings() {
        SettingsStep::Found(s) => assert_eq!(s.id, "old"),
        _ => panic!("expected the old settings"),
    }
}

#[test]
fn actions_error_messages() {
    assert_eq!(Error::Connection("timeout".to_string()).message(), "Connection error: timeout");
    assert_eq!(Error::NotFound.message(), "Settings not found");
}

#[test]
fn service_checks_interval_then_id() {
    let mut service = SettingsService::new();
    match service.update_settings(sample("", 10)) {
        SettingsStep::Failed(e) => {
            assert_eq!(e.message(), "Validation error: Slide interval must be >= 1000ms")
        }
        _ => panic!("expected a refusal"),
    }
    match service.update_settings(sample("", 1000)) {
        SettingsStep::Failed(e) => assert_eq!(e.message(), "Validation error: ID cannot be empty"),
        _ => panic!("expected a refusal"),
    }
}

#[test]
fn service_read_after_write() {
    let mut service = SettingsService::new();
    assert!(matches!(service.update_settings(sample("id-1", 1500)), SettingsStep::ReplaceRow(_)));
    assert!(matches!(service.settings_saved(Ok(())), SettingsStep::Updated));
    match service.get_settings() {
        SettingsStep::Found(s) => assert_eq!(s.slide_interval, 1500),
        _ => panic!("expected a cached read"),
    }
}

#[test]
fn service_repository_errors_end_the_read() {
    let mut service = SettingsService::new();
    service.get_settings();
    match service.ensure_settings_exist(Err(SettingsError::ConnectionError("refused".to_string()))) {
        SettingsStep::Failed(e) => assert_eq!(e.message(), "Connection error: refused"),
        _ => panic!("expected the failure"),
    }
    assert!(matches!(service.get_settings(), SettingsStep::LoadRow));
    assert_eq!(SettingsError::DatabaseError("x".to_string()).message(), "Database error: x");
}
