use virus_scanner::file_monitor::{filters_contain, FileMonitor, MonitorError};
use virus_scanner::settings::Settings;

#[test]
fn new_monitor_takes_the_downloads_directory() {
    let monitor = FileMonitor::new(Settings::default(), Some("/home/u/Downloads".to_string()));
    assert_eq!(monitor.get_download_path(), "/home/u/Downloads");
    assert!(!monitor.is_monitoring());
    let fallback = FileMonitor::new(Settings::default(), None);
    assert_eq!(fallback.get_download_path(), ".");
    assert_eq!(FileMonitor::default().get_download_path(), ".");
}

#[test]
fn extension_is_compared_in_lower_case() {
    let settings = Settings::default();
    assert!(FileMonitor::should_monitor_file(Some("exe"), true, &settings));
    assert!(FileMonitor::should_monitor_file(Some("EXE"), true, &settings));
    assert!(FileMonitor::should_monitor_file(Some("DocX"), false, &settings));
    assert!(!FileMonitor::should_monitor_file(Some("txt"), true, &settings));
    assert!(filters_contain(&settings, "exe"));
    assert!(!filters_contain(&settings, "EXE"));
}

#[test]
fn entry_without_extension_is_watched_if_it_is_a_file() {
    let settings = Settings::default();
    assert!(FileMonitor::should_monitor_file(None, true, &settings));
    assert!(!FileMonitor::should_monitor_file(None, false, &settings));
}

#[test]
fn only_files_are_announced() {
    let settings = Settings::default();
    assert!(FileMonitor::announces(Some("zip"), true, &settings));
    assert!(!FileMonitor::announces(Some("zip"), false, &settings));
    assert!(!FileMonitor::announces(Some("png"), true, &settings));
    assert!(FileMonitor::announces(None, true, &settings));
}

#[test]
fn monitoring_starts_once() {
    let mut monitor = FileMonitor::default();
    assert!(monitor.start_monitoring());
    assert!(monitor.is_monitoring());
    assert!(!monitor.start_monitoring());
    monitor.stop_monitoring();
    assert!(!monitor.is_monitoring());
}

#[test]
fn download_path_changes() {
    let mut monitor = FileMonitor::default();
    monitor.set_download_path("/data".to_string());
    assert_eq!(monitor.get_download_path(), "/data");
    assert_eq!(
        monitor.change_download_path("/nowhere".to_string(), false),
        Err(MonitorError::InvalidDirectory)
    );
    assert_eq!(monitor.get_download_path(), "/data");
    assert_eq!(monitor.change_download_path("/srv".to_string(), true), Ok(()));
    assert_eq!(monitor.get_download_path(), "/srv");
    assert_eq!(MonitorError::InvalidDirectory.message(), "Invalid directory path");
}

#[test]
fn settings_are_replaced() {
    let mut monitor = FileMonitor::default();
    let mut settings = Settings::default();
    settings.file_type_filters = vec!["png".to_string()];
    monitor.update_settings(settings);
    assert!(FileMonitor::announces(Some("PNG"), true, monitor.settings()));
    assert!(!FileMonitor::announces(Some("exe"), true, monitor.settings()));
}
