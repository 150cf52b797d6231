use jot::error::Error;
use jot::settings::{resolve_settings, Settings, Theme};

#[test]
fn defaults_derive_from_data_dir() {
    let settings = Settings::defaults("/home/user/.local/share/app");

    assert_eq!(settings.directory, "/home/user/.local/share/app/jot");
    assert_eq!(settings.font, "Arial");
    assert_eq!(settings.font_size, 12);
    assert_eq!(settings.theme, Theme::System);
}

#[test]
fn first_read_derives_and_persists_defaults() {
    let (settings, persist) = resolve_settings(None, "/data");

    assert!(persist);
    assert_eq!(settings.directory, "/data/jot");
    assert_eq!(settings.font, "Arial");
    assert_eq!(settings.font_size, 12);
    assert_eq!(settings.theme, Theme::System);

    let (again, persist_again) = resolve_settings(Some(settings.clone()), "/data");

    assert!(!persist_again);
    assert_eq!(again, settings);
}

#[test]
fn existing_settings_are_returned_unchanged() {
    let stored = Settings {
        directory: "/vault".to_string(),
        font: "Georgia".to_string(),
        font_size: 16,
        theme: Theme::Dark,
    };

    let (settings, persist) = resolve_settings(Some(stored.clone()), "/ignored");

    assert!(!persist);
    assert_eq!(settings, stored);
}

#[test]
fn resolve_path_error_message() {
    let error = Error::ResolvePath("app config dir".to_string());

    assert_eq!(error.message(), "Failed to resolve app config dir");
}

#[test]
fn io_and_serde_messages_pass_through() {
    assert_eq!(Error::Io("disk full".to_string()).message(), "disk full");
    assert_eq!(Error::Serde("expected value at line 1".to_string()).message(), "expected value at line 1");
}
