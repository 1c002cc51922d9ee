//! What the user has chosen.

use crate::text::{optional_text, texts};
use vstd::prelude::*;

verus! {

/// How quarantined files are treated.
#[derive(Debug, Clone, PartialEq, Eq)]
pub struct QuarantineSettings {
    pub auto_delete_after_days: Option<u32>,
    pub backup_before_quarantine: bool,
    pub quarantine_location: Option<String>,
    pub notify_on_quarantine: bool,
}

impl Default for QuarantineSettings {
    /// Files are deleted after 30 days, backed up first and announced, in
    /// the standard location.
    fn default() -> (settings: QuarantineSettings)
        ensures
            settings.auto_delete_after_days == Some(30u32),
            settings.backup_before_quarantine,
            settings.quarantine_location is None,
            settings.notify_on_quarantine,
    {
        QuarantineSettings {
            auto_delete_after_days: Some(30),
            backup_before_quarantine: true,
            quarantine_location: None,
            notify_on_quarantine: true,
        }
    }
}

/// The settings of the application.
///
/// `auto_rescan_interval` counts hours between automatic rescans; without
/// it files are not rescanned in the background. `scan_history_limit` is
/// the number of scan records that are kept.
#[derive(Debug, Clone, PartialEq, Eq)]
pub struct Settings {
    pub api_key: String,
    pub welcome_completed: bool,
    pub auto_scan_downloads: bool,
    pub notify_on_scan_completion: bool,
    pub auto_quarantine_malicious: bool,
    pub auto_rescan_interval: Option<u64>,
    pub custom_scan_locations: Vec<String>,
    pub quarantine_settings: QuarantineSettings,
    pub scan_history_limit: u32,
    pub file_type_filters: Vec<String>,
    pub theme: String,
    pub startup_with_system: bool,
    pub minimize_to_tray: bool,
    pub export_path: Option<String>,
    pub background_scan_threads: u32,
}

/// The file types that are watched unless the user says otherwise.
pub open spec fn default_file_types() -> Seq<Seq<char>> {
    seq![
        "exe"@,
        "dll"@,
        "bat"@,
        "cmd"@,
        "ps1"@,
        "vbs"@,
        "js"@,
        "jar"@,
        "msi"@,
        "zip"@,
        "rar"@,
        "scr"@,
        "pdf"@,
        "doc"@,
        "docx"@,
    ]
}

/// Whether these are the settings of a fresh installation: no key,
/// downloads scanned and scans announced, daily rescans, a history of 1000
/// records, the default file types and quarantine.
pub open spec fn is_fresh(settings: Settings) -> bool {
    &&& settings.api_key@ == Seq::<char>::empty()
    &&& !settings.welcome_completed
    &&& settings.auto_scan_downloads
    &&& settings.notify_on_scan_completion
    &&& !settings.auto_quarantine_malicious
    &&& settings.auto_rescan_interval == Some(24u64)
    &&& settings.custom_scan_locations@.len() == 0
    &&& settings.quarantine_settings.auto_delete_after_days == Some(30u32)
    &&& settings.quarantine_settings.backup_before_quarantine
    &&& settings.quarantine_settings.quarantine_location is None
    &&& settings.quarantine_settings.notify_on_quarantine
    &&& settings.scan_history_limit == 1000
    &&& texts(settings.file_type_filters@) == default_file_types()
    &&& settings.theme@ == "system"@
    &&& !settings.startup_with_system
    &&& settings.minimize_to_tray
    &&& settings.export_path is None
    &&& settings.background_scan_threads == 2
}

impl Default for Settings {
    /// The settings of a fresh installation.
    fn default() -> (settings: Settings)
        ensures
            is_fresh(settings),
    {
        let mut file_type_filters: Vec<String> = Vec::new();
        file_type_filters.push("exe".to_owned());
        file_type_filters.push("dll".to_owned());
        file_type_filters.push("bat".to_owned());
        file_type_filters.push("cmd".to_owned());
        file_type_filters.push("ps1".to_owned());
        file_type_filters.push("vbs".to_owned());
        file_type_filters.push("js".to_owned());
        file_type_filters.push("jar".to_owned());
        file_type_filters.push("msi".to_owned());
        file_type_filters.push("zip".to_owned());
        file_type_filters.push("rar".to_owned());
        file_type_filters.push("scr".to_owned());
        file_type_filters.push("pdf".to_owned());
        file_type_filters.push("doc".to_owned());
        file_type_filters.push("docx".to_owned());
        assert(texts(file_type_filters@) =~= default_file_types());
        Settings {
            api_key: String::new(),
            welcome_completed: false,
            auto_scan_downloads: true,
            notify_on_scan_completion: true,
            auto_quarantine_malicious: false,
            auto_rescan_interval: Some(24),
            custom_scan_locations: Vec::new(),
            quarantine_settings: QuarantineSettings::default(),
            scan_history_limit: 1000,
            file_type_filters,
            theme: "system".to_owned(),
            startup_with_system: false,
            minimize_to_tray: true,
            export_path: None,
            background_scan_threads: 2,
        }
    }
}

impl Settings {
    /// These settings, as they are.
    pub fn unwrap_or_default(self) -> (settings: Settings)
        ensures
            settings == self,
    {
        self
    }

    /// The settings that were read, or those of a fresh installation where
    /// none could be read.
    pub fn or_default(loaded: Option<Settings>) -> (settings: Settings)
        ensures
            loaded is Some ==> settings == loaded->0,
            loaded is None ==> is_fresh(settings),
    {
        match loaded {
            Some(settings) => settings,
            None => Settings::default(),
        }
    }

    /// These settings with `quarantine` as their quarantine settings.
    pub fn with_quarantine(self, quarantine: QuarantineSettings) -> (settings: Settings)
        ensures
            settings == (Settings { quarantine_settings: quarantine, ..self }),
    {
        let mut settings = self;
        settings.quarantine_settings = quarantine;
        settings
    }
}

} // verus!
