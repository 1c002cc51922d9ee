//! Verdicts of the remote scanning service and the records kept of them.

use crate::errors::{error_message, ScanError, ScanErrorView};
use crate::text::{copy_optional, join, optional_text};
use vstd::prelude::*;

verus! {

/// State of a file with respect to the remote analysis.
///
/// `Pending` and `InProgress` are passing states of an analysis under way,
/// `Failed` is a terminal error, and a completed analysis is recorded as
/// exactly one of `Clean`, `Suspicious` and `Malicious`.
#[derive(Debug, Clone, Copy, PartialEq, Eq, Structural)]
pub enum ScanStatus {
    Pending,
    InProgress,
    Completed,
    Failed,
    Clean,
    Suspicious,
    Malicious,
}

/// What one engine of the service reported about a file.
#[derive(Debug, Clone, PartialEq, Eq)]
pub struct ScanEntry {
    pub detected: bool,
    pub version: Option<String>,
    pub result: Option<String>,
    pub engine_name: String,
    pub engine_version: Option<String>,
    pub engine_update: Option<String>,
}

/// What the contracts say of a `ScanEntry`.
pub struct ScanEntryView {
    pub detected: bool,
    pub version: Option<Seq<char>>,
    pub result: Option<Seq<char>>,
    pub engine_name: Seq<char>,
    pub engine_version: Option<Seq<char>>,
    pub engine_update: Option<Seq<char>>,
}

impl View for ScanEntry {
    type V = ScanEntryView;

    open spec fn view(&self) -> ScanEntryView {
        ScanEntryView {
            detected: self.detected,
            version: optional_text(self.version),
            result: optional_text(self.result),
            engine_name: self.engine_name@,
            engine_version: optional_text(self.engine_version),
            engine_update: optional_text(self.engine_update),
        }
    }
}

/// The views of a list of engine reports, in order.
pub open spec fn entry_views(entries: Seq<ScanEntry>) -> Seq<ScanEntryView> {
    Seq::new(entries.len(), |i: int| entries[i]@)
}

/// Whether no engine reports twice.
pub open spec fn engines_distinct(entries: Seq<ScanEntryView>) -> bool {
    forall|i: int, j: int|
        0 <= i < entries.len() && 0 <= j < entries.len() && i != j ==> (#[trigger] entries[i]).engine_name
            != (#[trigger] entries[j]).engine_name
}

/// The views of an optional list of engine reports.
pub open spec fn optional_entry_views(entries: Option<Vec<ScanEntry>>) -> Option<
    Seq<ScanEntryView>,
> {
    match entries {
        Some(list) => Some(entry_views(list@)),
        None => None,
    }
}

impl ScanEntry {
    /// A copy of this report.
    pub fn duplicate(&self) -> (copy: ScanEntry)
        ensures
            copy@ == self@,
    {
        ScanEntry {
            detected: self.detected,
            version: copy_optional(&self.version),
            result: copy_optional(&self.result),
            engine_name: self.engine_name.clone(),
            engine_version: copy_optional(&self.engine_version),
            engine_update: copy_optional(&self.engine_update),
        }
    }
}

/// A copy of a list of engine reports.
pub fn copy_entries(entries: &Vec<ScanEntry>) -> (copy: Vec<ScanEntry>)
    ensures
        entry_views(copy@) == entry_views(entries@),
{
    let mut copy: Vec<ScanEntry> = Vec::new();
    let mut i: usize = 0;
    while i < entries.len()
        invariant
            i <= entries.len(),
            copy.len() == i,
            forall|j: int| 0 <= j < i ==> (#[trigger] copy@[j])@ == entries@[j]@,
        decreases entries.len() - i,
    {
        copy.push(entries[i].duplicate());
        i = i + 1;
    }
    assert(entry_views(copy@) =~= entry_views(entries@));
    copy
}

/// The record of one completed scan.
///
/// `scan_date` counts milliseconds since the Unix epoch. `vendor_results`
/// holds one report per engine, in the order in which the service listed
/// them.
#[derive(Debug, Clone, PartialEq, Eq)]
pub struct ScanResult {
    pub file_path: String,
    pub file_name: String,
    pub file_size: u64,
    pub file_hash: String,
    pub scan_date: u64,
    pub status: ScanStatus,
    pub detection_count: Option<u32>,
    pub total_engines: Option<u32>,
    pub permalink: Option<String>,
    pub vendor_results: Option<Vec<ScanEntry>>,
}

/// What the contracts say of a `ScanResult`.
pub struct ScanResultView {
    pub file_path: Seq<char>,
    pub file_name: Seq<char>,
    pub file_size: u64,
    pub file_hash: Seq<char>,
    pub scan_date: u64,
    pub status: ScanStatus,
    pub detection_count: Option<u32>,
    pub total_engines: Option<u32>,
    pub permalink: Option<Seq<char>>,
    pub vendor_results: Option<Seq<ScanEntryView>>,
}

impl View for ScanResult {
    type V = ScanResultView;

    open spec fn view(&self) -> ScanResultView {
        ScanResultView {
            file_path: self.file_path@,
            file_name: self.file_name@,
            file_size: self.file_size,
            file_hash: self.file_hash@,
            scan_date: self.scan_date,
            status: self.status,
            detection_count: self.detection_count,
            total_engines: self.total_engines,
            permalink: optional_text(self.permalink),
            vendor_results: optional_entry_views(self.vendor_results),
        }
    }
}

impl ScanResult {
    /// A copy of this record.
    pub fn duplicate(&self) -> (copy: ScanResult)
        ensures
            copy@ == self@,
    {
        let vendor_results = match &self.vendor_results {
            Some(list) => Some(copy_entries(list)),
            None => None,
        };
        ScanResult {
            file_path: self.file_path.clone(),
            file_name: self.file_name.clone(),
            file_size: self.file_size,
            file_hash: self.file_hash.clone(),
            scan_date: self.scan_date,
            status: self.status,
            detection_count: self.detection_count,
            total_engines: self.total_engines,
            permalink: copy_optional(&self.permalink),
            vendor_results,
        }
    }
}

/// The views of a list of scan records, in order.
pub open spec fn result_views(results: Seq<ScanResult>) -> Seq<ScanResultView> {
    Seq::new(results.len(), |i: int| results[i]@)
}

/// The view of an optional scan record.
pub open spec fn optional_result_view(result: Option<ScanResult>) -> Option<ScanResultView> {
    match result {
        Some(r) => Some(r@),
        None => None,
    }
}

/// The view of what a scan ended with.
pub open spec fn outcome_view(outcome: Result<ScanResult, ScanError>) -> Result<
    ScanResultView,
    ScanErrorView,
> {
    match outcome {
        Ok(result) => Ok(result@),
        Err(error) => Err(error@),
    }
}

/// What the user interface is told when a requested scan has ended.
#[derive(Debug, Clone, PartialEq, Eq)]
pub struct ScanResponse {
    pub success: bool,
    pub message: String,
    pub result: Option<ScanResult>,
}

/// What the contracts say of a `ScanResponse`.
pub struct ScanResponseView {
    pub success: bool,
    pub message: Seq<char>,
    pub result: Option<ScanResultView>,
}

impl View for ScanResponse {
    type V = ScanResponseView;

    open spec fn view(&self) -> ScanResponseView {
        ScanResponseView {
            success: self.success,
            message: self.message@,
            result: optional_result_view(self.result),
        }
    }
}

/// The response for each way a scan can end: a success carries the record,
/// a failure carries the error's message behind `Scan failed: `.
pub open spec fn response_for(outcome: Result<ScanResultView, ScanErrorView>) -> ScanResponseView {
    match outcome {
        Ok(result) => ScanResponseView {
            success: true,
            message: "Scan completed successfully"@,
            result: Some(result),
        },
        Err(error) => ScanResponseView {
            success: false,
            message: "Scan failed: "@ + error_message(error),
            result: None,
        },
    }
}

impl ScanResponse {
    /// The response that reports `outcome`.
    pub fn from_outcome(outcome: Result<ScanResult, ScanError>) -> (response: ScanResponse)
        ensures
            response@ == response_for(outcome_view(outcome)),
    {
        match outcome {
            Ok(result) => ScanResponse {
                success: true,
                message: "Scan completed successfully".to_owned(),
                result: Some(result),
            },
            Err(error) => {
                let detail = error.message();
                ScanResponse {
                    success: false,
                    message: join("Scan failed: ", detail.as_str()),
                    result: None,
                }
            },
        }
    }
}

} // verus!
