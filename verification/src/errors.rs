//! Why a scan can fail, and how each failure is worded for the user.

use crate::text::{decimal, decimal_string, join};
use vstd::prelude::*;

verus! {

/// How a request to the remote service went wrong.
#[derive(Debug, Clone, PartialEq, Eq)]
pub enum RemoteFailure {
    /// The request did not reach the service or its reply did not arrive;
    /// the text is the HTTP client's description.
    Transport(String),
    /// The service answered with this status code, outside 200..=299.
    Status(u16),
}

/// What the contracts say of a `RemoteFailure`.
pub enum RemoteFailureView {
    Transport(Seq<char>),
    Status(u16),
}

impl View for RemoteFailure {
    type V = RemoteFailureView;

    open spec fn view(&self) -> RemoteFailureView {
        match self {
            RemoteFailure::Transport(text) => RemoteFailureView::Transport(text@),
            RemoteFailure::Status(code) => RemoteFailureView::Status(*code),
        }
    }
}

/// What was wrong with a reply that did arrive with a success status, or
/// with the order of events.
#[derive(Debug, Clone, Copy, PartialEq, Eq, Structural)]
pub enum ProtocolFault {
    /// The upload reply is not JSON.
    MalformedUpload,
    /// The upload reply holds no string at `data.id`.
    MissingAnalysisId,
    /// The analysis reply is not JSON.
    MalformedAnalysis,
    /// The analysis reply holds no string at `data.attributes.status`.
    MissingStatus,
    /// The scan was handed an event it was not waiting for.
    UnexpectedEvent,
}

/// Why the API key cannot be used.
#[derive(Debug, Clone, Copy, PartialEq, Eq, Structural)]
pub enum AuthFailure {
    /// No key has been set.
    KeyMissing,
    /// The service rejected the key.
    KeyRejected,
}

/// Every way a scan can fail.
#[derive(Debug, PartialEq, Eq)]
pub enum ScanError {
    /// The file does not exist.
    NotFound,
    /// The file could not be read or hashed; the text says why.
    IoError(String),
    /// The API key is missing or was rejected.
    AuthError(AuthFailure),
    /// The upload failed.
    UploadError(RemoteFailure),
    /// A reply of the service could not be understood.
    ProtocolError(ProtocolFault),
    /// A poll of the analysis failed.
    AnalysisError(RemoteFailure),
    /// The analysis did not complete within the allowed number of polls.
    Timeout,
    /// Every permitted attempt failed; the last failure is inside.
    MaxRetriesExceeded(Box<ScanError>),
}

/// What the contracts say of a `ScanError`.
pub enum ScanErrorView {
    NotFound,
    IoError(Seq<char>),
    AuthError(AuthFailure),
    UploadError(RemoteFailureView),
    ProtocolError(ProtocolFault),
    AnalysisError(RemoteFailureView),
    Timeout,
    MaxRetriesExceeded(Box<ScanErrorView>),
}

impl View for ScanError {
    type V = ScanErrorView;

    open spec fn view(&self) -> ScanErrorView
        decreases self,
    {
        match self {
            ScanError::NotFound => ScanErrorView::NotFound,
            ScanError::IoError(text) => ScanErrorView::IoError(text@),
            ScanError::AuthError(why) => ScanErrorView::AuthError(*why),
            ScanError::UploadError(failure) => ScanErrorView::UploadError(failure@),
            ScanError::ProtocolError(fault) => ScanErrorView::ProtocolError(*fault),
            ScanError::AnalysisError(failure) => ScanErrorView::AnalysisError(failure@),
            ScanError::Timeout => ScanErrorView::Timeout,
            ScanError::MaxRetriesExceeded(last) => ScanErrorView::MaxRetriesExceeded(
                Box::new((**last)@),
            ),
        }
    }
}

/// Whether a further attempt may cure this failure: failures of the upload,
/// of the protocol and of the analysis, and a timeout. A missing or
/// unreadable file, a bad key and an exhausted retry budget are final.
pub open spec fn retryable(error: ScanErrorView) -> bool {
    match error {
        ScanErrorView::UploadError(_) => true,
        ScanErrorView::ProtocolError(_) => true,
        ScanErrorView::AnalysisError(_) => true,
        ScanErrorView::Timeout => true,
        _ => false,
    }
}

/// The wording of a protocol fault.
pub open spec fn fault_message(fault: ProtocolFault) -> Seq<char> {
    match fault {
        ProtocolFault::MalformedUpload => "Failed to parse upload response"@,
        ProtocolFault::MissingAnalysisId => "Missing analysis ID"@,
        ProtocolFault::MalformedAnalysis => "Failed to parse analysis"@,
        ProtocolFault::MissingStatus => "Missing status"@,
        ProtocolFault::UnexpectedEvent => "Unexpected event"@,
    }
}

/// The wording of a failed request: `transport_lead` before a transport
/// description, `status_lead` before a status code.
pub open spec fn remote_message(
    failure: RemoteFailureView,
    transport_lead: Seq<char>,
    status_lead: Seq<char>,
) -> Seq<char> {
    match failure {
        RemoteFailureView::Transport(text) => transport_lead + text,
        RemoteFailureView::Status(code) => status_lead + decimal(code as nat),
    }
}

/// The message shown to the user for each failure.
pub open spec fn error_message(error: ScanErrorView) -> Seq<char>
    decreases error,
{
    match error {
        ScanErrorView::NotFound => "File does not exist"@,
        ScanErrorView::IoError(text) => text,
        ScanErrorView::AuthError(AuthFailure::KeyMissing) => "API key not initialized"@,
        ScanErrorView::AuthError(AuthFailure::KeyRejected) => "Invalid API key"@,
        ScanErrorView::UploadError(failure) => remote_message(
            failure,
            "Failed to upload file: "@,
            "Upload failed: "@,
        ),
        ScanErrorView::ProtocolError(fault) => fault_message(fault),
        ScanErrorView::AnalysisError(failure) => remote_message(
            failure,
            "Analysis failed: "@,
            "Analysis failed: "@,
        ),
        ScanErrorView::Timeout => "Analysis timed out"@,
        ScanErrorView::MaxRetriesExceeded(last) => "Max retry attempts exceeded: "@
            + error_message(*last),
    }
}

impl RemoteFailure {
    /// A copy of this failure.
    pub fn duplicate(&self) -> (copy: RemoteFailure)
        ensures
            copy@ == self@,
    {
        match self {
            RemoteFailure::Transport(text) => RemoteFailure::Transport(text.clone()),
            RemoteFailure::Status(code) => RemoteFailure::Status(*code),
        }
    }

    fn message(&self, transport_lead: &str, status_lead: &str) -> (text: String)
        ensures
            text@ == remote_message(self@, transport_lead@, status_lead@),
    {
        match self {
            RemoteFailure::Transport(detail) => join(transport_lead, detail.as_str()),
            RemoteFailure::Status(code) => {
                let numeral = decimal_string(*code as u64);
                join(status_lead, numeral.as_str())
            },
        }
    }
}

impl ProtocolFault {
    /// The wording of this fault.
    pub fn message(&self) -> (text: &'static str)
        ensures
            text@ == fault_message(*self),
    {
        match self {
            ProtocolFault::MalformedUpload => "Failed to parse upload response",
            ProtocolFault::MissingAnalysisId => "Missing analysis ID",
            ProtocolFault::MalformedAnalysis => "Failed to parse analysis",
            ProtocolFault::MissingStatus => "Missing status",
            ProtocolFault::UnexpectedEvent => "Unexpected event",
        }
    }
}

impl ScanError {
    /// Whether a further attempt may cure this failure.
    pub fn is_retryable(&self) -> (yes: bool)
        ensures
            yes == retryable(self@),
    {
        match self {
            ScanError::UploadError(_) => true,
            ScanError::ProtocolError(_) => true,
            ScanError::AnalysisError(_) => true,
            ScanError::Timeout => true,
            _ => false,
        }
    }

    /// A copy of this error.
    pub fn duplicate(&self) -> (copy: ScanError)
        ensures
            copy@ == self@,
        decreases self,
    {
        match self {
            ScanError::NotFound => ScanError::NotFound,
            ScanError::IoError(text) => ScanError::IoError(text.clone()),
            ScanError::AuthError(why) => ScanError::AuthError(*why),
            ScanError::UploadError(failure) => ScanError::UploadError(failure.duplicate()),
            ScanError::ProtocolError(fault) => ScanError::ProtocolError(*fault),
            ScanError::AnalysisError(failure) => ScanError::AnalysisError(failure.duplicate()),
            ScanError::Timeout => ScanError::Timeout,
            ScanError::MaxRetriesExceeded(last) => {
                let inner = last.duplicate();
                ScanError::MaxRetriesExceeded(Box::new(inner))
            },
        }
    }

    /// The message shown to the user.
    pub fn message(&self) -> (text: String)
        ensures
            text@ == error_message(self@),
        decreases self,
    {
        match self {
            ScanError::NotFound => "File does not exist".to_owned(),
            ScanError::IoError(text) => text.clone(),
            ScanError::AuthError(AuthFailure::KeyMissing) => "API key not initialized".to_owned(),
            ScanError::AuthError(AuthFailure::KeyRejected) => "Invalid API key".to_owned(),
            ScanError::UploadError(failure) => failure.message(
                "Failed to upload file: ",
                "Upload failed: ",
            ),
            ScanError::ProtocolError(fault) => fault.message().to_owned(),
            ScanError::AnalysisError(failure) => failure.message(
                "Analysis failed: ",
                "Analysis failed: ",
            ),
            ScanError::Timeout => "Analysis timed out".to_owned(),
            ScanError::MaxRetriesExceeded(last) => {
                let inner = last.message();
                join("Max retry attempts exceeded: ", inner.as_str())
            },
        }
    }
}

impl Clone for ScanError {
    fn clone(&self) -> (copy: ScanError)
        ensures
            copy@ == self@,
    {
        self.duplicate()
    }
}

} // verus!
