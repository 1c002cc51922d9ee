//! Orchestration core of a desktop malware scanner: hashing, the upload and
//! poll protocol of the remote scanning service, verdict caching, rate
//! limiting, retry, bounded concurrency, scan history and the background
//! rescan schedule.
//!
//! Everything here is pure: time, file contents and HTTP replies are handed
//! in as plain values, and what has to be done next is handed back as data.

use vstd::prelude::*;

pub mod app_state;
pub mod background_scanner;
pub mod cache;
pub mod client;
pub mod config;
pub mod errors;
pub mod file_monitor;
pub mod hasher;
pub mod history;
pub mod json;
pub mod limiter;
pub mod rate_limiter;
pub mod report;
pub mod retry;
pub mod settings;
pub mod system_integration;
pub mod text;
pub mod tray;
pub mod virus_total;

verus! {

/// Broad origin of a failure that is shown to the user.
#[derive(Debug, Clone)]
pub enum ErrorCategory {
    ApiError,
    FileSystemError,
    NetworkError,
    ConfigurationError,
    UnknownError,
}

/// Remembers the most recent failure and its category.
#[derive(Debug, Clone)]
pub struct ErrorHandler {
    pub last_error: Option<String>,
    pub error_category: Option<ErrorCategory>,
}

impl ErrorHandler {
    /// A handler that has seen no failure.
    pub fn new() -> (handler: Self)
        ensures
            handler.last_error is None,
            handler.error_category is None,
    {
        ErrorHandler { last_error: None, error_category: None }
    }

    /// Records `error` under `category`, replacing what was recorded before.
    pub fn set_error(&mut self, error: String, category: ErrorCategory)
        ensures
            final(self).last_error == Some(error),
            final(self).error_category == Some(category),
    {
        self.last_error = Some(error);
        self.error_category = Some(category);
    }

    /// Forgets the recorded failure.
    pub fn clear_error(&mut self)
        ensures
            final(self).last_error is None,
            final(self).error_category is None,
    {
        self.last_error = None;
        self.error_category = None;
    }
}

} // verus!
