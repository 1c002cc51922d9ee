//! The configuration of the scanner and of the file monitor.

use crate::retry::{Backoff, RetryPolicy};
use crate::settings::Settings;
use crate::text::{eq_ignore_ascii_case, same_ignoring_ascii_case, same_text, texts};
use vstd::prelude::*;

verus! {

/// What governs the scanning pipeline.
///
/// A failed attempt is repeated after the fixed delay `retry_delay_seconds`,
/// up to `retry_attempts` times. Without `auto_rescan_interval_hours` files
/// are not rescanned in the background.
#[derive(Debug, Clone, PartialEq, Eq)]
pub struct ScannerConfig {
    pub monitored_extensions: Vec<String>,
    pub scan_batch_size: usize,
    pub max_concurrent_scans: usize,
    pub retry_attempts: u32,
    pub retry_delay_seconds: u64,
    pub auto_rescan_interval_hours: Option<u64>,
    pub scan_history_limit: u32,
}

/// The file types that the scanner takes by default.
pub open spec fn default_scanned_types() -> Seq<Seq<char>> {
    seq![
        "exe"@,
        "dll"@,
        "sys"@,
        "msi"@,
        "bat"@,
        "cmd"@,
        "ps1"@,
        "vbs"@,
        "js"@,
        "jar"@,
        "zip"@,
        "rar"@,
    ]
}

/// The retry policy of a configuration: its number of attempts, and its
/// delay in milliseconds before every retry.
pub open spec fn retry_policy_of(config: ScannerConfig) -> RetryPolicy {
    RetryPolicy {
        max_retries: config.retry_attempts,
        backoff: Backoff::Fixed(
            if config.retry_delay_seconds * 1000 > u64::MAX {
                u64::MAX
            } else {
                (config.retry_delay_seconds * 1000) as u64
            },
        ),
    }
}

/// A configuration with the rescan interval and the history limit of the
/// user's settings in place of its own.
pub open spec fn with_user_options(config: ScannerConfig, settings: Settings) -> ScannerConfig {
    ScannerConfig {
        auto_rescan_interval_hours: settings.auto_rescan_interval,
        scan_history_limit: settings.scan_history_limit,
        ..config
    }
}

impl Default for ScannerConfig {
    /// Batches of 5 files, 3 scans at a time, 3 retries a minute apart,
    /// daily rescans and a history of 1000 records.
    fn default() -> (config: ScannerConfig)
        ensures
            texts(config.monitored_extensions@) == default_scanned_types(),
            config.scan_batch_size == 5,
            config.max_concurrent_scans == 3,
            config.retry_attempts == 3,
            config.retry_delay_seconds == 60,
            config.auto_rescan_interval_hours == Some(24u64),
            config.scan_history_limit == 1000,
    {
        let mut monitored_extensions: Vec<String> = Vec::new();
        monitored_extensions.push("exe".to_owned());
        monitored_extensions.push("dll".to_owned());
        monitored_extensions.push("sys".to_owned());
        monitored_extensions.push("msi".to_owned());
        monitored_extensions.push("bat".to_owned());
        monitored_extensions.push("cmd".to_owned());
        monitored_extensions.push("ps1".to_owned());
        monitored_extensions.push("vbs".to_owned());
        monitored_extensions.push("js".to_owned());
        monitored_extensions.push("jar".to_owned());
        monitored_extensions.push("zip".to_owned());
        monitored_extensions.push("rar".to_owned());
        assert(texts(monitored_extensions@) =~= default_scanned_types());
        ScannerConfig {
            monitored_extensions,
            scan_batch_size: 5,
            max_concurrent_scans: 3,
            retry_attempts: 3,
            retry_delay_seconds: 60,
            auto_rescan_interval_hours: Some(24),
            scan_history_limit: 1000,
        }
    }
}

impl ScannerConfig {
    /// The retry policy of this configuration.
    pub fn retry_policy(&self) -> (policy: RetryPolicy)
        ensures
            policy == retry_policy_of(*self),
    {
        let delay = match self.retry_delay_seconds.checked_mul(1000) {
            Some(ms) => ms,
            None => u64::MAX,
        };
        RetryPolicy { max_retries: self.retry_attempts, backoff: Backoff::Fixed(delay) }
    }

    /// This configuration with the rescan interval and the history limit
    /// that the user has set.
    pub fn with_settings(self, settings: &Settings) -> (config: ScannerConfig)
        ensures
            config == with_user_options(self, *settings),
    {
        let mut config = self;
        config.auto_rescan_interval_hours = settings.auto_rescan_interval;
        config.scan_history_limit = settings.scan_history_limit;
        config
    }
}

/// A file that the monitor has come upon.
#[derive(Debug, Clone, PartialEq, Eq)]
pub struct FileCandidate {
    /// The components of its path, from the root down.
    pub components: Vec<String>,
    /// The extension of its name, without the dot, where it has one.
    pub extension: Option<String>,
    /// Its size in bytes, where it could be read.
    pub size: Option<u64>,
}

/// What the file monitor watches. A path is the list of its components.
#[derive(Debug, Clone, PartialEq, Eq)]
pub struct MonitorConfig {
    pub enabled: bool,
    pub monitored_paths: Vec<Vec<String>>,
    pub excluded_paths: Vec<Vec<String>>,
    pub file_extensions: Vec<String>,
    pub min_file_size: u64,
    pub max_file_size: u64,
    pub debounce_millis: u64,
    pub watch_timeout_seconds: u64,
    pub max_watch_recursion_depth: u32,
    pub ignored_patterns: Vec<String>,
}

/// The file types that are monitored by default.
pub open spec fn default_monitored_types() -> Seq<Seq<char>> {
    seq!["exe"@, "dll"@, "sys"@, "msi"@, "zip"@, "rar"@]
}

/// The patterns of the paths that are ignored by default.
pub open spec fn default_ignored_patterns() -> Seq<Seq<char>> {
    seq!["**/node_modules/**"@, "**/.git/**"@, "**/target/**"@, "**/*.tmp"@]
}

/// Whether the path `base` leads to `path`: each component of `base` is
/// the component of `path` at the same place.
pub open spec fn leads_to(base: Seq<Seq<char>>, path: Seq<Seq<char>>) -> bool {
    &&& base.len() <= path.len()
    &&& forall|i: int| 0 <= i < base.len() ==> #[trigger] base[i] == path[i]
}

/// Whether one of `bases` leads to `path`.
pub open spec fn under_any(bases: Seq<Vec<String>>, path: Seq<Seq<char>>) -> bool {
    exists|i: int| 0 <= i < bases.len() && leads_to(texts((#[trigger] bases[i])@), path)
}

/// Whether `extension` is one of `allowed`, whatever the case of its ASCII
/// letters.
pub open spec fn extension_allowed(allowed: Seq<String>, extension: Seq<char>) -> bool {
    exists|i: int|
        0 <= i < allowed.len() && same_ignoring_ascii_case((#[trigger] allowed[i])@, extension)
}

/// Whether `file` is to be monitored: monitoring is on, no excluded path
/// leads to the file, a monitored path does, its extension is allowed, and
/// its size, where known, lies within the bounds.
pub open spec fn monitors_file(config: MonitorConfig, file: FileCandidate) -> bool {
    &&& config.enabled
    &&& !under_any(config.excluded_paths@, texts(file.components@))
    &&& under_any(config.monitored_paths@, texts(file.components@))
    &&& file.extension is Some
    &&& extension_allowed(config.file_extensions@, file.extension->0@)
    &&& file.size is Some ==> config.min_file_size <= file.size->0 <= config.max_file_size
}

/// Whether no pattern matched: `hits` holds for each pattern whether it
/// did.
pub open spec fn none_hit(hits: Seq<bool>) -> bool {
    forall|i: int| 0 <= i < hits.len() ==> !#[trigger] hits[i]
}

fn path_leads_to(base: &Vec<String>, path: &Vec<String>) -> (leads: bool)
    ensures
        leads == leads_to(texts(base@), texts(path@)),
{
    if base.len() > path.len() {
        return false;
    }
    let mut i: usize = 0;
    while i < base.len()
        invariant
            i <= base.len(),
            base.len() <= path.len(),
            forall|j: int| 0 <= j < i ==> #[trigger] texts(base@)[j] == texts(path@)[j],
        decreases base.len() - i,
    {
        if !same_text(base[i].as_str(), path[i].as_str()) {
            assert(texts(base@)[i as int] != texts(path@)[i as int]);
            return false;
        }
        i = i + 1;
    }
    true
}

fn any_leads_to(bases: &Vec<Vec<String>>, path: &Vec<String>) -> (found: bool)
    ensures
        found == under_any(bases@, texts(path@)),
{
    let mut i: usize = 0;
    while i < bases.len()
        invariant
            i <= bases.len(),
            forall|j: int| 0 <= j < i ==> !leads_to(texts((#[trigger] bases@[j])@), texts(path@)),
        decreases bases.len() - i,
    {
        if path_leads_to(&bases[i], path) {
            return true;
        }
        i = i + 1;
    }
    false
}

fn allows_extension(allowed: &Vec<String>, extension: &str) -> (found: bool)
    ensures
        found == extension_allowed(allowed@, extension@),
{
    let mut i: usize = 0;
    while i < allowed.len()
        invariant
            i <= allowed.len(),
            forall|j: int|
                0 <= j < i ==> !same_ignoring_ascii_case((#[trigger] allowed@[j])@, extension@),
        decreases allowed.len() - i,
    {
        if eq_ignore_ascii_case(allowed[i].as_str(), extension) {
            return true;
        }
        i = i + 1;
    }
    false
}

/// Name of what `glob::Pattern::new` and `Pattern::matches` answer
/// together: whether `pattern` is a valid glob pattern that matches `path`
/// under the default match options.
pub uninterp spec fn glob_match(pattern: Seq<char>, path: Seq<char>) -> bool;

/// Whether `text` holds no backslash, the one character that separates
/// path components on some platforms and not on others.
pub open spec fn plain_separators(text: Seq<char>) -> bool {
    !text.contains('\\')
}

/// Whether each of `patterns` is free of backslashes.
pub open spec fn plain_patterns(patterns: Seq<String>) -> bool {
    forall|i: int| 0 <= i < patterns.len() ==> plain_separators((#[trigger] patterns[i])@)
}

/// Whether one of `patterns` is a valid glob pattern that matches `path`.
pub open spec fn ignored_by(patterns: Seq<String>, path: Seq<char>) -> bool {
    exists|i: int| 0 <= i < patterns.len() && glob_match((#[trigger] patterns[i])@, path)
}

/// `glob::Pattern::new`, then `Pattern::matches` on the pattern it made:
/// whether `pattern` is a valid glob pattern that matches `path`; an
/// invalid pattern matches nothing. The answer depends on the two texts
/// and on which characters the platform takes for path separators. Unix
/// and Windows differ in that over the backslash alone, so the contract
/// names the result where neither text holds one, and states nothing of it
/// elsewhere.
#[verifier::external_body]
fn glob_matches(pattern: &str, path: &str) -> (matched: bool)
    ensures
        plain_separators(pattern@) && plain_separators(path@) ==> matched == glob_match(
            pattern@,
            path@,
        ),
{
    glob::Pattern::new(pattern).map(|compiled| compiled.matches(path)).unwrap_or(false)
}

impl Default for MonitorConfig {
    /// Monitoring is on, no path is monitored yet, the common types of
    /// programs and archives between 1 KiB and 100 MiB are taken, and the
    /// directories of build tools and temporary files are ignored.
    fn default() -> (config: MonitorConfig)
        ensures
            config.enabled,
            config.monitored_paths@.len() == 0,
            config.excluded_paths@.len() == 0,
            texts(config.file_extensions@) == default_monitored_types(),
            config.min_file_size == 1024,
            config.max_file_size == 100 * 1024 * 1024,
            config.debounce_millis == 1000,
            config.watch_timeout_seconds == 30,
            config.max_watch_recursion_depth == 5,
            texts(config.ignored_patterns@) == default_ignored_patterns(),
    {
        let mut file_extensions: Vec<String> = Vec::new();
        file_extensions.push("exe".to_owned());
        file_extensions.push("dll".to_owned());
        file_extensions.push("sys".to_owned());
        file_extensions.push("msi".to_owned());
        file_extensions.push("zip".to_owned());
        file_extensions.push("rar".to_owned());
        assert(texts(file_extensions@) =~= default_monitored_types());
        let mut ignored_patterns: Vec<String> = Vec::new();
        ignored_patterns.push("**/node_modules/**".to_owned());
        ignored_patterns.push("**/.git/**".to_owned());
        ignored_patterns.push("**/target/**".to_owned());
        ignored_patterns.push("**/*.tmp".to_owned());
        assert(texts(ignored_patterns@) =~= default_ignored_patterns());
        MonitorConfig {
            enabled: true,
            monitored_paths: Vec::new(),
            excluded_paths: Vec::new(),
            file_extensions,
            min_file_size: 1024,
            max_file_size: 104_857_600,
            debounce_millis: 1000,
            watch_timeout_seconds: 30,
            max_watch_recursion_depth: 5,
            ignored_patterns,
        }
    }
}

impl MonitorConfig {
    /// Whether `file` is to be monitored.
    pub fn should_monitor_file(&self, file: &FileCandidate) -> (monitored: bool)
        ensures
            monitored == monitors_file(*self, *file),
    {
        if !self.enabled {
            return false;
        }
        if any_leads_to(&self.excluded_paths, &file.components) {
            return false;
        }
        if !any_leads_to(&self.monitored_paths, &file.components) {
            return false;
        }
        match &file.extension {
            Some(extension) => {
                if !allows_extension(&self.file_extensions, extension.as_str()) {
                    return false;
                }
            },
            None => {
                return false;
            },
        }
        match file.size {
            Some(size) => self.min_file_size <= size && size <= self.max_file_size,
            None => true,
        }
    }

    /// Whether a path is to be monitored when `hits` holds, for each of
    /// the ignored patterns, whether it matched the path: exactly if none
    /// did.
    pub fn decide_from_hits(hits: &Vec<bool>) -> (monitored: bool)
        ensures
            monitored == none_hit(hits@),
    {
        let mut i: usize = 0;
        while i < hits.len()
            invariant
                i <= hits.len(),
                forall|j: int| 0 <= j < i ==> !#[trigger] hits@[j],
            decreases hits.len() - i,
        {
            if hits[i] {
                return false;
            }
            i = i + 1;
        }
        true
    }

    /// Whether `path` is to be monitored: exactly if none of the ignored
    /// patterns is a valid glob pattern that matches it. In particular a
    /// configuration without ignored patterns monitors every path.
    ///
    /// The contract states this where neither the path nor a pattern holds
    /// a backslash, see `glob_matches`.
    pub fn should_monitor_path(&self, path: &str) -> (monitored: bool)
        ensures
            self.ignored_patterns@.len() == 0 ==> monitored,
            plain_separators(path@) && plain_patterns(self.ignored_patterns@) ==> monitored
                == !ignored_by(self.ignored_patterns@, path@),
    {
        let mut hits: Vec<bool> = Vec::new();
        let mut i: usize = 0;
        while i < self.ignored_patterns.len()
            invariant
                i <= self.ignored_patterns.len(),
                hits.len() == i,
                forall|j: int|
                    0 <= j < i && plain_separators(path@) && plain_separators(
                        (#[trigger] self.ignored_patterns@[j])@,
                    ) ==> hits@[j] == glob_match(self.ignored_patterns@[j]@, path@),
            decreases self.ignored_patterns.len() - i,
        {
            hits.push(glob_matches(self.ignored_patterns[i].as_str(), path));
            i = i + 1;
        }
        let monitored = Self::decide_from_hits(&hits);
        proof {
            if plain_separators(path@) && plain_patterns(self.ignored_patterns@) {
                if monitored {
                    assert forall|j: int| 0 <= j < self.ignored_patterns@.len() implies !glob_match(
                        (#[trigger] self.ignored_patterns@[j])@,
                        path@,
                    ) by {
                        assert(!hits@[j]);
                    }
                } else {
                    let j = choose|j: int| 0 <= j < hits@.len() && hits@[j];
                    assert(glob_match(self.ignored_patterns@[j]@, path@));
                }
            }
        }
        monitored
    }
}

} // verus!
