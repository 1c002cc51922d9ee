//! What the application remembers between commands of the user interface:
//! the API key, the file monitor, the scan history and whether the setup
//! is done.

use crate::errors::{AuthFailure, ScanError, ScanErrorView};
use crate::file_monitor::{FileMonitor, FileMonitorView};
use crate::history::{newest, ScanHistory, ScanHistoryView};
use crate::settings::Settings;
use crate::text::{copy_optional, optional_text};
use crate::virus_total::{
    outcome_view, response_for, result_views, ScanResponse, ScanResult, ScanResultView,
};
use vstd::prelude::*;

verus! {

/// Why a command was refused before the setup.
#[derive(Debug, Clone, Copy, PartialEq, Eq, Structural)]
pub enum SetupError {
    /// The API key has not been accepted yet.
    SetupIncomplete,
}

impl SetupError {
    /// The message shown to the user.
    pub fn message(&self) -> (text: &'static str)
        ensures
            text@ == "Setup not complete"@,
    {
        "Setup not complete"
    }
}

/// A step of a scan as the user interface shows it.
#[derive(Debug, Clone, PartialEq, Eq)]
pub struct ProgressEvent {
    pub step: u8,
    pub message: String,
    pub progress: u8,
}

/// Settings and history as they are written to a file and read back.
#[derive(Debug, Clone, PartialEq, Eq)]
pub struct ExportData {
    pub settings: Settings,
    pub scan_history: Vec<ScanResult>,
    pub export_date: String,
}

/// The state of the application.
#[derive(Debug)]
pub struct AppState {
    api_key: Option<String>,
    file_monitor: FileMonitor,
    scan_history: ScanHistory,
    is_setup_complete: bool,
}

/// What the contracts say of an `AppState`.
pub struct AppStateView {
    pub api_key: Option<Seq<char>>,
    pub file_monitor: FileMonitorView,
    pub scan_history: ScanHistoryView,
    pub is_setup_complete: bool,
}

impl View for AppState {
    type V = AppStateView;

    closed spec fn view(&self) -> AppStateView {
        AppStateView {
            api_key: optional_text(self.api_key),
            file_monitor: self.file_monitor@,
            scan_history: self.scan_history@,
            is_setup_complete: self.is_setup_complete,
        }
    }
}

/// The event that opens a scan.
pub fn scan_started() -> (event: ProgressEvent)
    ensures
        event.step == 1,
        event.message@ == "Starting scan"@,
        event.progress == 10,
{
    ProgressEvent { step: 1, message: "Starting scan".to_owned(), progress: 10 }
}

/// The event that closes a scan.
pub fn scan_finished(success: bool) -> (event: ProgressEvent)
    ensures
        event.step == 3,
        event.message@ == if success {
            "Scan completed"@
        } else {
            "Scan failed"@
        },
        event.progress == 100,
{
    if success {
        ProgressEvent { step: 3, message: "Scan completed".to_owned(), progress: 100 }
    } else {
        ProgressEvent { step: 3, message: "Scan failed".to_owned(), progress: 100 }
    }
}

impl AppState {
    /// The state before the setup: no key, a monitor of the current
    /// directory that does not watch, and an empty history that keeps up to
    /// `history_limit` records.
    pub fn new(history_limit: usize) -> (state: AppState)
        ensures
            state@.api_key is None,
            !state@.is_setup_complete,
            !state@.file_monitor.is_monitoring,
            state@.file_monitor.download_path == "."@,
            crate::settings::is_fresh(state@.file_monitor.settings),
            state@.scan_history.entries == Seq::<ScanResultView>::empty(),
            state@.scan_history.limit == history_limit,
    {
        AppState {
            api_key: None,
            file_monitor: FileMonitor::default(),
            scan_history: ScanHistory::new(history_limit),
            is_setup_complete: false,
        }
    }

    /// Ends the setup with the outcome of the key check.
    ///
    /// A key that the service accepted is stored, the monitor is made anew
    /// for `download_dir` with the settings of a fresh installation, and
    /// the setup is complete. A rejected key changes nothing.
    pub fn initialize_api(
        &mut self,
        api_key: String,
        key_valid: bool,
        download_dir: Option<String>,
    ) -> (done: Result<bool, ScanError>)
        ensures
            key_valid ==> done == Ok::<bool, ScanError>(true) && final(self)@.api_key == Some(
                api_key@,
            ) && final(self)@.is_setup_complete && !final(self)@.file_monitor.is_monitoring
                && final(self)@.file_monitor.download_path == (match download_dir {
                Some(dir) => dir@,
                None => "."@,
            }) && crate::settings::is_fresh(final(self)@.file_monitor.settings)
                && final(self)@.scan_history == old(self)@.scan_history,
            !key_valid ==> done is Err && done->Err_0@ == ScanErrorView::AuthError(
                AuthFailure::KeyRejected,
            ) && final(self)@ == old(self)@,
    {
        if !key_valid {
            return Err(ScanError::AuthError(AuthFailure::KeyRejected));
        }
        self.api_key = Some(api_key);
        self.file_monitor = FileMonitor::new(Settings::default(), download_dir);
        self.is_setup_complete = true;
        Ok(true)
    }

    /// Whether the setup is complete.
    pub fn is_setup_complete(&self) -> (complete: bool)
        ensures
            complete == self@.is_setup_complete,
    {
        self.is_setup_complete
    }

    /// The API key for a scan, or the refusal of a scan without one.
    pub fn scan_key(&self) -> (key: Result<String, ScanError>)
        ensures
            match self@.api_key {
                Some(text) => key is Ok && key->Ok_0@ == text,
                None => key is Err && key->Err_0@ == ScanErrorView::AuthError(
                    AuthFailure::KeyMissing,
                ),
            },
    {
        match &self.api_key {
            Some(key) => Ok(key.clone()),
            None => Err(ScanError::AuthError(AuthFailure::KeyMissing)),
        }
    }

    /// Starts the monitor once the setup is complete, and says whether a
    /// watcher has to be started. Before that it refuses.
    pub fn start_monitoring(&mut self) -> (started: Result<bool, SetupError>)
        ensures
            !old(self)@.is_setup_complete ==> started == Err::<bool, SetupError>(
                SetupError::SetupIncomplete,
            ) && final(self)@ == old(self)@,
            old(self)@.is_setup_complete ==> started == Ok::<bool, SetupError>(
                !old(self)@.file_monitor.is_monitoring,
            ) && final(self)@ == (AppStateView {
                file_monitor: FileMonitorView {
                    is_monitoring: true,
                    ..old(self)@.file_monitor
                },
                ..old(self)@
            }),
    {
        if !self.is_setup_complete {
            return Err(SetupError::SetupIncomplete);
        }
        Ok(self.file_monitor.start_monitoring())
    }

    /// The file monitor.
    pub fn file_monitor(&self) -> (monitor: &FileMonitor)
        ensures
            monitor@ == self@.file_monitor,
    {
        &self.file_monitor
    }

    /// The directory that the monitor watches.
    pub fn get_download_path(&self) -> (path: &str)
        ensures
            path@ == self@.file_monitor.download_path,
    {
        self.file_monitor.get_download_path()
    }

    /// Makes the monitor watch `path` if it is an existing directory.
    pub fn set_download_path(&mut self, path: String, is_directory: bool) -> (changed: Result<
        (),
        crate::file_monitor::MonitorError,
    >)
        ensures
            changed is Ok == is_directory,
            is_directory ==> final(self)@ == (AppStateView {
                file_monitor: FileMonitorView {
                    download_path: path@,
                    ..old(self)@.file_monitor
                },
                ..old(self)@
            }),
            !is_directory ==> final(self)@ == old(self)@,
    {
        self.file_monitor.change_download_path(path, is_directory)
    }

    /// Closes a scan that the user asked for: a record goes into the
    /// history as its newest, and the response reports the outcome.
    pub fn finish_scan(&mut self, outcome: Result<ScanResult, ScanError>) -> (response:
        ScanResponse)
        ensures
            response@ == response_for(outcome_view(outcome)),
            final(self)@ == (AppStateView {
                scan_history: ScanHistoryView {
                    entries: match outcome {
                        Ok(result) => newest(
                            old(self)@.scan_history.entries.push(result@),
                            old(self)@.scan_history.limit,
                        ),
                        Err(_) => old(self)@.scan_history.entries,
                    },
                    ..old(self)@.scan_history
                },
                ..old(self)@
            }),
    {
        match &outcome {
            Ok(result) => {
                self.scan_history.push(result.duplicate());
            },
            Err(_) => {},
        }
        ScanResponse::from_outcome(outcome)
    }

    /// The scan history.
    pub fn history(&self) -> (history: &ScanHistory)
        ensures
            history@ == self@.scan_history,
    {
        &self.scan_history
    }

    /// Records how a background scan of the file at `path` ended, under the
    /// history limit `limit`: a record goes into the history as its newest,
    /// a failure is handed back as a notice.
    pub fn record_background(
        &mut self,
        limit: u32,
        path: &str,
        outcome: Result<ScanResult, ScanError>,
    ) -> (notice: Option<String>)
        ensures
            final(self)@ == (AppStateView {
                scan_history: ScanHistoryView {
                    limit: limit as nat,
                    entries: match outcome {
                        Ok(result) => newest(
                            old(self)@.scan_history.entries.push(result@),
                            limit as nat,
                        ),
                        Err(_) => newest(old(self)@.scan_history.entries, limit as nat),
                    },
                },
                ..old(self)@
            }),
            match outcome {
                Ok(_) => notice is None,
                Err(error) => notice is Some && notice->0@
                    == crate::background_scanner::failure_notice(path@, error@),
            },
    {
        crate::background_scanner::record_outcome(&mut self.scan_history, limit, path, outcome)
    }

    /// A copy of the scan history, oldest first.
    pub fn get_scan_history(&self) -> (records: Vec<ScanResult>)
        ensures
            result_views(records@) == self@.scan_history.entries,
    {
        self.scan_history.to_vec()
    }

    /// Drops the scan history.
    pub fn clear_scan_history(&mut self)
        ensures
            final(self)@ == (AppStateView {
                scan_history: ScanHistoryView {
                    entries: Seq::empty(),
                    ..old(self)@.scan_history
                },
                ..old(self)@
            }),
    {
        self.scan_history.clear();
    }

    /// Settings and history for an export dated `export_date`.
    pub fn export_data(&self, settings: Settings, export_date: String) -> (data: ExportData)
        ensures
            data.settings == settings,
            data.export_date == export_date,
            result_views(data.scan_history@) == self@.scan_history.entries,
    {
        ExportData { settings, scan_history: self.scan_history.to_vec(), export_date }
    }

    /// Takes the history of an import in place of the present one, as far
    /// as the limit allows, and hands back the settings to be saved.
    pub fn import_data(&mut self, data: ExportData) -> (settings: Settings)
        ensures
            settings == data.settings,
            final(self)@ == (AppStateView {
                scan_history: ScanHistoryView {
                    entries: newest(
                        result_views(data.scan_history@),
                        old(self)@.scan_history.limit,
                    ),
                    ..old(self)@.scan_history
                },
                ..old(self)@
            }),
    {
        self.scan_history.replace(data.scan_history);
        data.settings
    }
}

} // verus!
