//! The monitor of the downloads directory: what it watches and which new
//! files it announces.

use crate::settings::Settings;
use crate::text::{contains_text, lowercase, texts, to_lowercase};
use vstd::prelude::*;

verus! {

/// Why the monitor refused a change.
#[derive(Debug, Clone, Copy, PartialEq, Eq, Structural)]
pub enum MonitorError {
    /// The path does not name an existing directory.
    InvalidDirectory,
}

impl MonitorError {
    /// The message shown to the user.
    pub fn message(&self) -> (text: &'static str)
        ensures
            text@ == "Invalid directory path"@,
    {
        "Invalid directory path"
    }
}

/// The state of the file monitor.
#[derive(Debug)]
pub struct FileMonitor {
    is_monitoring: bool,
    download_path: String,
    settings: Settings,
}

/// What the contracts say of a `FileMonitor`.
pub struct FileMonitorView {
    pub is_monitoring: bool,
    pub download_path: Seq<char>,
    pub settings: Settings,
}

impl View for FileMonitor {
    type V = FileMonitorView;

    closed spec fn view(&self) -> FileMonitorView {
        FileMonitorView {
            is_monitoring: self.is_monitoring,
            download_path: self.download_path@,
            settings: self.settings,
        }
    }
}

/// Whether a new entry is to be watched: one with an extension exactly if
/// the lower-case form of the extension is among the file types of the
/// settings, one without exactly if it is a file.
pub open spec fn watches(extension: Option<Seq<char>>, is_file: bool, settings: Settings) -> bool {
    match extension {
        Some(text) => texts(settings.file_type_filters@).contains(lowercase(text)),
        None => is_file,
    }
}

/// Whether an extension in lower case `lowered` is watched under
/// `settings`.
pub fn filters_contain(settings: &Settings, lowered: &str) -> (found: bool)
    ensures
        found == texts(settings.file_type_filters@).contains(lowered@),
{
    contains_text(&settings.file_type_filters, lowered)
}

impl Default for FileMonitor {
    /// A monitor of the current directory with the settings of a fresh
    /// installation.
    fn default() -> (monitor: FileMonitor)
        ensures
            !monitor@.is_monitoring,
            monitor@.download_path == "."@,
            crate::settings::is_fresh(monitor@.settings),
    {
        FileMonitor::new(Settings::default(), None)
    }
}

impl FileMonitor {
    /// A monitor that does not watch yet. `download_dir` is the downloads
    /// directory of the user if the system names one; without it the
    /// monitor takes the current directory.
    pub fn new(settings: Settings, download_dir: Option<String>) -> (monitor: FileMonitor)
        ensures
            !monitor@.is_monitoring,
            monitor@.settings == settings,
            monitor@.download_path == match download_dir {
                Some(dir) => dir@,
                None => "."@,
            },
    {
        let download_path = match download_dir {
            Some(dir) => dir,
            None => ".".to_owned(),
        };
        FileMonitor { is_monitoring: false, download_path, settings }
    }

    /// Whether a new entry is to be watched. `extension` is the extension of
    /// its name where it has one that is valid text.
    pub fn should_monitor_file(extension: Option<&str>, is_file: bool, settings: &Settings) -> (watched:
        bool)
        ensures
            watched == watches(
                match extension {
                    Some(text) => Some(text@),
                    None => None,
                },
                is_file,
                *settings,
            ),
    {
        match extension {
            Some(text) => {
                let lowered = to_lowercase(text);
                filters_contain(settings, lowered.as_str())
            },
            None => is_file,
        }
    }

    /// Whether a newly created entry is announced: exactly if it is a file
    /// that is to be watched under `settings`.
    pub fn announces(extension: Option<&str>, is_file: bool, settings: &Settings) -> (announced:
        bool)
        ensures
            announced == (is_file && watches(
                match extension {
                    Some(text) => Some(text@),
                    None => None,
                },
                is_file,
                *settings,
            )),
    {
        is_file && Self::should_monitor_file(extension, is_file, settings)
    }

    /// The settings of this monitor.
    pub fn settings(&self) -> (settings: &Settings)
        ensures
            *settings == self@.settings,
    {
        &self.settings
    }

    /// Marks the monitor as watching, and says whether it was not watching
    /// before, so that a watcher has to be started.
    pub fn start_monitoring(&mut self) -> (started: bool)
        ensures
            started == !old(self)@.is_monitoring,
            final(self)@ == (FileMonitorView { is_monitoring: true, ..old(self)@ }),
    {
        let started = !self.is_monitoring;
        self.is_monitoring = true;
        started
    }

    /// Marks the monitor as not watching.
    pub fn stop_monitoring(&mut self)
        ensures
            final(self)@ == (FileMonitorView { is_monitoring: false, ..old(self)@ }),
    {
        self.is_monitoring = false;
    }

    /// Whether the monitor watches.
    pub fn is_monitoring(&self) -> (watching: bool)
        ensures
            watching == self@.is_monitoring,
    {
        self.is_monitoring
    }

    /// The directory that is watched.
    pub fn get_download_path(&self) -> (path: &str)
        ensures
            path@ == self@.download_path,
    {
        self.download_path.as_str()
    }

    /// Watches `path` from now on.
    pub fn set_download_path(&mut self, path: String)
        ensures
            final(self)@ == (FileMonitorView { download_path: path@, ..old(self)@ }),
    {
        self.download_path = path;
    }

    /// Watches `path` from now on if it is an existing directory, and
    /// refuses it otherwise.
    pub fn change_download_path(&mut self, path: String, is_directory: bool) -> (changed: Result<
        (),
        MonitorError,
    >)
        ensures
            changed is Ok == is_directory,
            is_directory ==> final(self)@ == (FileMonitorView {
                download_path: path@,
                ..old(self)@
            }),
            !is_directory ==> final(self)@ == old(self)@ && changed == Err::<(), MonitorError>(
                MonitorError::InvalidDirectory,
            ),
    {
        if is_directory {
            self.download_path = path;
            Ok(())
        } else {
            Err(MonitorError::InvalidDirectory)
        }
    }

    /// Replaces the settings.
    pub fn update_settings(&mut self, settings: Settings)
        ensures
            final(self)@ == (FileMonitorView { settings, ..old(self)@ }),
    {
        self.settings = settings;
    }
}

} // verus!
