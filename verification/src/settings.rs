//! The persisted settings record.
//!
//! Settings supply the vault's root directory plus display preferences.
//! They are persisted as one JSON file by the surrounding application; this
//! module holds the record itself, the defaults derived from the host's
//! application data directory, and the decision a settings read makes when
//! no persisted record exists yet.

use vstd::prelude::*;

verus! {

/// The application theme, a closed enumeration.
#[derive(Clone, Copy, Debug, PartialEq, Eq, Structural)]
pub enum Theme {
    Dark,
    Light,
    System,
}

/// The persisted settings record.
#[derive(Clone, Debug, PartialEq, Eq)]
pub struct Settings {
    /// The directory where notes are persisted: the vault's root.
    pub directory: String,
    /// The font to use for displaying text.
    pub font: String,
    /// The font size in pixels.
    pub font_size: u32,
    /// The theme of the application.
    pub theme: Theme,
}

/// The mathematical value of a settings record.
pub ghost struct SettingsModel {
    pub directory: Seq<char>,
    pub font: Seq<char>,
    pub font_size: u32,
    pub theme: Theme,
}

impl View for Settings {
    type V = SettingsModel;

    open spec fn view(&self) -> SettingsModel {
        SettingsModel {
            directory: self.directory@,
            font: self.font@,
            font_size: self.font_size,
            theme: self.theme,
        }
    }
}

/// The defaults derived from the host's application data directory: notes
/// live in its `jot` subdirectory, displayed in Arial at 12 pixels under
/// the system theme.
pub open spec fn spec_default_settings(data_dir: Seq<char>) -> SettingsModel {
    SettingsModel { directory: data_dir + "/jot"@, font: "Arial"@, font_size: 12, theme: Theme::System }
}

impl Settings {
    /// The default settings for a host whose application data directory is
    /// `data_dir`.
    pub fn defaults(data_dir: &str) -> (s: Settings)
        ensures
            s@ == spec_default_settings(data_dir@),
    {
        Settings {
            directory: String::from_str(data_dir).concat("/jot"),
            font: String::from_str("Arial"),
            font_size: 12,
            theme: Theme::System,
        }
    }
}

/// Decides what a settings read returns.  An existing persisted record is
/// returned exactly as it is, with nothing re-derived; when none exists,
/// the defaults for `data_dir` are derived and the second component tells
/// the caller to persist them before returning.
pub fn resolve_settings(existing: Option<Settings>, data_dir: &str) -> (r: (Settings, bool))
    ensures
        match existing {
            Some(s) => r.0 == s && !r.1,
            None => r.0@ == spec_default_settings(data_dir@) && r.1,
        },
{
    match existing {
        Some(s) => (s, false),
        None => (Settings::defaults(data_dir), true),
    }
}

} // verus!
