//! Reading the replies of the remote service: the analysis identifier of an
//! upload, and status, counts and engine reports of an analysis.

use crate::json::{
    child, count_of, get_child, keys_distinct, lemma_child_keys_distinct, member, members_of,
    reference_view, text_of, Json,
};
use crate::text::{join, optional_text, same_text};
use crate::virus_total::{
    engines_distinct, entry_views, ScanEntry, ScanEntryView, ScanResult, ScanResultView,
    ScanStatus,
};
use vstd::prelude::*;

verus! {

/// What the caller found out about the file to scan.
#[derive(Debug, Clone, PartialEq, Eq)]
pub struct FileFacts {
    /// The path as the user gave it.
    pub path: String,
    /// The last component of the path, where it has one that is valid text.
    pub name: Option<String>,
    /// The size in bytes.
    pub size: u64,
    /// The digest of the contents, in lower-case hexadecimal.
    pub digest: String,
}

/// What the contracts say of a `FileFacts`.
pub struct FileFactsView {
    pub path: Seq<char>,
    pub name: Option<Seq<char>>,
    pub size: u64,
    pub digest: Seq<char>,
}

impl View for FileFacts {
    type V = FileFactsView;

    open spec fn view(&self) -> FileFactsView {
        FileFactsView {
            path: self.path@,
            name: optional_text(self.name),
            size: self.size,
            digest: self.digest@,
        }
    }
}

/// Whether an HTTP status code reports success: 200 to 299.
pub open spec fn success_status(status: u16) -> bool {
    200 <= status < 300
}

/// Whether an HTTP status code reports success.
pub fn is_success(status: u16) -> (ok: bool)
    ensures
        ok == success_status(status),
{
    200 <= status && status < 300
}

/// The analysis identifier of an upload reply: the string at `data.id`.
pub open spec fn analysis_id_of(reply: Json) -> Option<Seq<char>> {
    text_of(child(child(Some(reply), "data"@), "id"@))
}

/// The object at `data.attributes` of an analysis reply.
pub open spec fn attributes_of(reply: Json) -> Option<Json> {
    child(child(Some(reply), "data"@), "attributes"@)
}

/// The status of an analysis reply: the string at `data.attributes.status`.
pub open spec fn status_of(reply: Json) -> Option<Seq<char>> {
    text_of(child(attributes_of(reply), "status"@))
}

/// The count at `data.attributes.stats.<name>`; 0 where there is none.
pub open spec fn stat_of(reply: Json, name: Seq<char>) -> u64 {
    match count_of(child(child(attributes_of(reply), "stats"@), name)) {
        Some(n) => n,
        None => 0,
    }
}

/// The report of one engine: `detected` exactly if its category is the
/// string `malicious`.
pub open spec fn report_of(engine: Seq<char>, detail: Json) -> ScanEntryView {
    ScanEntryView {
        detected: text_of(member(detail, "category"@)) == Some("malicious"@),
        version: text_of(member(detail, "engine_version"@)),
        result: text_of(member(detail, "result"@)),
        engine_name: engine,
        engine_version: text_of(member(detail, "engine_version"@)),
        engine_update: text_of(member(detail, "engine_update"@)),
    }
}

/// The reports of all the members of an object, in its order.
pub open spec fn reports_from(members: Seq<(String, Json)>) -> Seq<ScanEntryView> {
    Seq::new(members.len(), |i: int| report_of(members[i].0@, members[i].1))
}

/// The engine reports of an analysis reply: one for each member of the
/// object at `data.attributes.results`, none where that is no object.
pub open spec fn reports_of(reply: Json) -> Seq<ScanEntryView> {
    match members_of(child(attributes_of(reply), "results"@)) {
        Some(members) => reports_from(members),
        None => Seq::empty(),
    }
}

/// The verdict for the counts of a completed analysis: malicious if any
/// engine calls the file malicious, else suspicious if any calls it
/// suspicious, else clean.
pub open spec fn verdict(malicious: u64, suspicious: u64) -> ScanStatus {
    if malicious > 0 {
        ScanStatus::Malicious
    } else if suspicious > 0 {
        ScanStatus::Suspicious
    } else {
        ScanStatus::Clean
    }
}

/// `n` as a count of 32 bits; the largest such count where `n` is larger.
pub open spec fn capped(n: int) -> u32 {
    if n > u32::MAX {
        u32::MAX
    } else if n < 0 {
        0
    } else {
        n as u32
    }
}

/// Where the service shows the report of the file with this digest.
pub open spec fn permalink_of(digest: Seq<char>) -> Seq<char> {
    "https://www.virustotal.com/gui/file/"@ + digest + "/detection"@
}

/// The name recorded for a file: its own, or `unknown file`.
pub open spec fn recorded_name(name: Option<Seq<char>>) -> Seq<char> {
    match name {
        Some(n) => n,
        None => "unknown file"@,
    }
}

/// The record of a scan of `file` that the completed analysis `reply`
/// ends at `now`.
pub open spec fn result_from(file: FileFactsView, reply: Json, now: u64) -> ScanResultView {
    ScanResultView {
        file_path: file.path,
        file_name: recorded_name(file.name),
        file_size: file.size,
        file_hash: file.digest,
        scan_date: now,
        status: verdict(stat_of(reply, "malicious"@), stat_of(reply, "suspicious"@)),
        detection_count: Some(
            capped(stat_of(reply, "malicious"@) + stat_of(reply, "suspicious"@)),
        ),
        total_engines: Some(capped(stat_of(reply, "total"@) as int)),
        permalink: Some(permalink_of(file.digest)),
        vendor_results: Some(reports_of(reply)),
    }
}

/// In the record of an analysis whose reply holds no key twice, no engine
/// reports twice.
pub proof fn lemma_engines_reported_once(reply: Json)
    requires
        keys_distinct(reply),
    ensures
        engines_distinct(reports_of(reply)),
{
    let data = child(Some(reply), "data"@);
    lemma_child_keys_distinct(Some(reply), "data"@);
    lemma_child_keys_distinct(data, "attributes"@);
    lemma_child_keys_distinct(attributes_of(reply), "results"@);
    match child(attributes_of(reply), "results"@) {
        Some(Json::Object(members)) => {
            let reports = reports_from(members@);
            assert forall|i: int, j: int|
                0 <= i < reports.len() && 0 <= j < reports.len() && i != j implies (#[trigger] reports[i]).engine_name
                != (#[trigger] reports[j]).engine_name by {
                assert(reports[i].engine_name == members@[i].0@);
                assert(reports[j].engine_name == members@[j].0@);
            }
        },
        _ => {},
    }
}

fn owned_text(value: Option<&Json>) -> (text: Option<String>)
    ensures
        optional_text(text) == text_of(reference_view(value)),
{
    match value {
        Some(v) => match v.as_str() {
            Some(t) => Some(t.to_owned()),
            None => None,
        },
        None => None,
    }
}

/// The analysis identifier of an upload reply.
pub fn analysis_id(reply: &Json) -> (id: Option<String>)
    ensures
        optional_text(id) == analysis_id_of(*reply),
{
    owned_text(get_child(reply.get("data"), "id"))
}

fn attributes<'a>(reply: &'a Json) -> (found: Option<&'a Json>)
    ensures
        reference_view(found) == attributes_of(*reply),
{
    get_child(reply.get("data"), "attributes")
}

/// The status of an analysis reply.
pub fn analysis_status(reply: &Json) -> (status: Option<String>)
    ensures
        optional_text(status) == status_of(*reply),
{
    owned_text(get_child(attributes(reply), "status"))
}

/// One of the counts of an analysis reply.
pub fn stat_count(reply: &Json, name: &str) -> (count: u64)
    ensures
        count == stat_of(*reply, name@),
{
    match get_child(get_child(attributes(reply), "stats"), name) {
        Some(value) => match value.as_u64() {
            Some(n) => n,
            None => 0,
        },
        None => 0,
    }
}

/// The report of one engine.
pub fn engine_report(engine: &str, detail: &Json) -> (entry: ScanEntry)
    ensures
        entry@ == report_of(engine@, *detail),
{
    let detected = match owned_text(detail.get("category")) {
        Some(category) => same_text(category.as_str(), "malicious"),
        None => false,
    };
    ScanEntry {
        detected,
        version: owned_text(detail.get("engine_version")),
        result: owned_text(detail.get("result")),
        engine_name: engine.to_owned(),
        engine_version: owned_text(detail.get("engine_version")),
        engine_update: owned_text(detail.get("engine_update")),
    }
}

/// The engine reports of an analysis reply.
pub fn engine_reports(reply: &Json) -> (entries: Vec<ScanEntry>)
    ensures
        entry_views(entries@) == reports_of(*reply),
        keys_distinct(*reply) ==> engines_distinct(entry_views(entries@)),
{
    proof {
        if keys_distinct(*reply) {
            lemma_engines_reported_once(*reply);
        }
    }
    let mut entries: Vec<ScanEntry> = Vec::new();
    let members = match get_child(attributes(reply), "results") {
        Some(value) => match value.as_object() {
            Some(members) => members,
            None => {
                assert(entry_views(entries@) =~= Seq::<ScanEntryView>::empty());
                return entries;
            },
        },
        None => {
            assert(entry_views(entries@) =~= Seq::<ScanEntryView>::empty());
            return entries;
        },
    };
    let mut i: usize = 0;
    while i < members.len()
        invariant
            i <= members.len(),
            entries.len() == i,
            forall|j: int|
                0 <= j < i ==> (#[trigger] entries@[j])@ == report_of(
                    members@[j].0@,
                    members@[j].1,
                ),
        decreases members.len() - i,
    {
        entries.push(engine_report(members[i].0.as_str(), &members[i].1));
        i = i + 1;
    }
    assert(entry_views(entries@) =~= reports_from(members@));
    entries
}

/// The verdict for the counts of a completed analysis.
pub fn classify(malicious: u64, suspicious: u64) -> (status: ScanStatus)
    ensures
        status == verdict(malicious, suspicious),
{
    if malicious > 0 {
        ScanStatus::Malicious
    } else if suspicious > 0 {
        ScanStatus::Suspicious
    } else {
        ScanStatus::Clean
    }
}

/// The number of engines that call the file malicious or suspicious, as
/// the record holds it.
pub fn detection_count(malicious: u64, suspicious: u64) -> (count: u32)
    ensures
        count == capped(malicious + suspicious),
{
    let limit: u64 = 0xffff_ffff;
    if malicious > limit || suspicious > limit - malicious {
        0xffff_ffff
    } else {
        (malicious + suspicious) as u32
    }
}

/// The number of engines that took part, as the record holds it.
pub fn engine_total(total: u64) -> (count: u32)
    ensures
        count == capped(total as int),
{
    if total > 0xffff_ffff {
        0xffff_ffff
    } else {
        total as u32
    }
}

/// Where the service shows the report of the file with this digest.
pub fn permalink(digest: &str) -> (link: String)
    ensures
        link@ == permalink_of(digest@),
{
    let mut link = join("https://www.virustotal.com/gui/file/", digest);
    link.append("/detection");
    link
}

/// The record of a scan of `file` that the completed analysis `reply`
/// ends at `now`.
pub fn build_result(file: &FileFacts, reply: &Json, now: u64) -> (result: ScanResult)
    ensures
        result@ == result_from(file@, *reply, now),
        keys_distinct(*reply) ==> engines_distinct(result@.vendor_results->0),
{
    let malicious = stat_count(reply, "malicious");
    let suspicious = stat_count(reply, "suspicious");
    let total = stat_count(reply, "total");
    let file_name = match &file.name {
        Some(name) => name.clone(),
        None => "unknown file".to_owned(),
    };
    ScanResult {
        file_path: file.path.clone(),
        file_name,
        file_size: file.size,
        file_hash: file.digest.clone(),
        scan_date: now,
        status: classify(malicious, suspicious),
        detection_count: Some(detection_count(malicious, suspicious)),
        total_engines: Some(engine_total(total)),
        permalink: Some(permalink(file.digest.as_str())),
        vendor_results: Some(engine_reports(reply)),
    }
}

} // verus!
