//! Periodic rescans: which files are due, in which batches they go, how one
//! file passes through permit, attempt and retry, and what is recorded.

use crate::cache::age;
use crate::config::{with_user_options, ScannerConfig};
use crate::errors::{error_message, ProtocolFault, ScanError, ScanErrorView};
use crate::history::{latest_scan, newest, ScanHistory, ScanHistoryView};
use crate::limiter::{
    after_permit_request, ConcurrencyLimiter, ConcurrencyLimiterView, PermitRequest,
};
use crate::retry::{
    decision_after, RetryDecision, RetryDecisionView, RetryPolicy, RetryState, RetryStateView,
};
use crate::settings::Settings;
use crate::text::{contains_text, join, texts};
use crate::virus_total::{outcome_view, ScanResult, ScanResultView};
use vstd::prelude::*;

verus! {

/// How long the scanner sleeps between two cycles, in seconds.
pub const CYCLE_INTERVAL_SECONDS: u64 = 3600;

/// How long the scanner sleeps before it tries again to read the settings,
/// in seconds.
pub const SETTINGS_RETRY_SECONDS: u64 = 60;

/// Whether a file is due for a rescan at `now`: it was never scanned, or
/// its latest scan lies more whole seconds back than the interval has.
pub open spec fn due(last_scan: Option<u64>, now: u64, interval_hours: u64) -> bool {
    match last_scan {
        None => true,
        Some(instant) => age(instant, now) / 1000 > interval_hours * 3600,
    }
}

/// Those of the files `watched` that are due at `now`, in their order.
pub open spec fn due_files(
    watched: Seq<Seq<char>>,
    history: Seq<ScanResultView>,
    now: u64,
    interval_hours: u64,
) -> Seq<Seq<char>>
    decreases watched.len(),
{
    if watched.len() == 0 {
        Seq::empty()
    } else {
        let earlier = due_files(watched.drop_last(), history, now, interval_hours);
        if due(latest_scan(history, watched.last()), now, interval_hours) {
            earlier.push(watched.last())
        } else {
            earlier
        }
    }
}

/// `files` cut into batches of `size` files; the last batch holds what is
/// left.
pub open spec fn batched(files: Seq<Seq<char>>, size: nat) -> Seq<Seq<Seq<char>>>
    decreases files.len(),
{
    if files.len() == 0 || size == 0 {
        Seq::empty()
    } else if files.len() <= size {
        seq![files]
    } else {
        seq![files.take(size as int)] + batched(files.skip(size as int), size)
    }
}

/// The paths of each batch of a list, in order.
pub open spec fn batch_views(batches: Seq<Vec<String>>) -> Seq<Seq<Seq<char>>> {
    Seq::new(batches.len(), |i: int| texts(batches[i]@))
}

/// What the scanner does in one cycle: it scans the batches one after the
/// other, each to its end, then sleeps.
#[derive(Debug, Clone, PartialEq, Eq)]
pub struct CyclePlan {
    pub batches: Vec<Vec<String>>,
    pub sleep_seconds: u64,
}

/// The batches of a cycle: the due files, where the settings could be read
/// and the configuration asks for rescans; none otherwise.
pub open spec fn planned_batches(
    settings_read: bool,
    config: ScannerConfig,
    watched: Seq<Seq<char>>,
    history: Seq<ScanResultView>,
    now: u64,
) -> Seq<Seq<Seq<char>>> {
    if !settings_read {
        Seq::empty()
    } else {
        match config.auto_rescan_interval_hours {
            Some(hours) => batched(
                due_files(watched, history, now, hours),
                config.scan_batch_size as nat,
            ),
            None => Seq::empty(),
        }
    }
}

/// The sleep that ends a cycle: short where the settings could not be
/// read, the interval between cycles otherwise.
pub open spec fn planned_sleep(settings_read: bool) -> u64 {
    if settings_read {
        CYCLE_INTERVAL_SECONDS
    } else {
        SETTINGS_RETRY_SECONDS
    }
}

/// Whether a file is due for a rescan at `now`.
pub fn needs_rescan(last_scan: Option<u64>, now: u64, interval_hours: u64) -> (yes: bool)
    ensures
        yes == due(last_scan, now, interval_hours),
{
    match last_scan {
        None => true,
        Some(instant) => {
            let age_ms: u64 = if now >= instant { now - instant } else { 0 };
            let age_seconds = age_ms / 1000;
            match interval_hours.checked_mul(3600) {
                Some(limit) => age_seconds > limit,
                None => false,
            }
        },
    }
}

/// Those of the files `watched` that are due at `now`, in their order.
pub fn select_candidates(
    watched: &Vec<String>,
    history: &ScanHistory,
    now: u64,
    interval_hours: u64,
) -> (candidates: Vec<String>)
    ensures
        texts(candidates@) == due_files(texts(watched@), history@.entries, now, interval_hours),
{
    let mut candidates: Vec<String> = Vec::new();
    let mut i: usize = 0;
    assert(texts(watched@).take(0) =~= Seq::<Seq<char>>::empty());
    assert(texts(candidates@) =~= Seq::<Seq<char>>::empty());
    while i < watched.len()
        invariant
            i <= watched.len(),
            texts(candidates@) == due_files(
                texts(watched@).take(i as int),
                history@.entries,
                now,
                interval_hours,
            ),
        decreases watched.len() - i,
    {
        let ghost paths = texts(watched@);
        proof {
            assert(paths.take(i + 1).drop_last() =~= paths.take(i as int));
            assert(paths.take(i + 1).last() == watched@[i as int]@);
        }
        let latest = history.last_scan_of(watched[i].as_str());
        if needs_rescan(latest, now, interval_hours) {
            let ghost before = texts(candidates@);
            candidates.push(watched[i].clone());
            assert(texts(candidates@) =~= before.push(watched@[i as int]@));
        }
        i = i + 1;
    }
    assert(texts(watched@).take(i as int) =~= texts(watched@));
    candidates
}

/// `files` cut into batches of `batch_size` files.
pub fn partition(files: &Vec<String>, batch_size: usize) -> (batches: Vec<Vec<String>>)
    requires
        batch_size > 0,
    ensures
        batch_views(batches@) == batched(texts(files@), batch_size as nat),
{
    let mut batches: Vec<Vec<String>> = Vec::new();
    let mut start: usize = 0;
    let ghost all = texts(files@);
    assert(all.skip(0) =~= all);
    assert(batch_views(batches@) =~= Seq::<Seq<Seq<char>>>::empty());
    while start < files.len()
        invariant
            batch_size > 0,
            start <= files.len(),
            all == texts(files@),
            batched(all, batch_size as nat) == batch_views(batches@) + batched(
                all.skip(start as int),
                batch_size as nat,
            ),
        decreases files.len() - start,
    {
        let left = files.len() - start;
        let count = if left < batch_size { left } else { batch_size };
        let mut batch: Vec<String> = Vec::new();
        let mut i: usize = 0;
        while i < count
            invariant
                i <= count,
                start + count <= files.len(),
                batch.len() == i,
                forall|j: int| 0 <= j < i ==> (#[trigger] batch@[j])@ == files@[start + j]@,
            decreases count - i,
        {
            batch.push(files[start + i].clone());
            i = i + 1;
        }
        proof {
            let rest = all.skip(start as int);
            assert(texts(batch@) =~= rest.take(count as int));
            if left <= batch_size {
                assert(rest.take(count as int) =~= rest);
                assert(all.skip(start + count) =~= Seq::<Seq<char>>::empty());
                assert(batched(rest, batch_size as nat) =~= seq![rest] + batched(
                    all.skip(start + count),
                    batch_size as nat,
                ));
            } else {
                assert(rest.skip(count as int) =~= all.skip(start + count));
            }
            let ghost before = batch_views(batches@);
            assert(batch_views(batches@.push(batch)) =~= before + seq![texts(batch@)]);
        }
        batches.push(batch);
        start = start + count;
    }
    proof {
        assert(all.skip(start as int) =~= Seq::<Seq<char>>::empty());
        assert(batch_views(batches@) + Seq::<Seq<Seq<char>>>::empty() =~= batch_views(batches@));
    }
    batches
}

/// Plans one cycle at `now`.
///
/// Where the settings could not be read, the cycle scans nothing and ends
/// in the short sleep. Where the configuration asks for no rescans, it
/// scans nothing and ends in the sleep between cycles. Otherwise it scans
/// the files that are due, in batches of the configured size.
pub fn plan_cycle(
    settings_read: bool,
    config: &ScannerConfig,
    watched: &Vec<String>,
    history: &ScanHistory,
    now: u64,
) -> (plan: CyclePlan)
    requires
        config.scan_batch_size > 0,
    ensures
        batch_views(plan.batches@) == planned_batches(
            settings_read,
            *config,
            texts(watched@),
            history@.entries,
            now,
        ),
        plan.sleep_seconds == planned_sleep(settings_read),
{
    let empty: Vec<Vec<String>> = Vec::new();
    assert(batch_views(empty@) =~= Seq::<Seq<Seq<char>>>::empty());
    if !settings_read {
        return CyclePlan { batches: empty, sleep_seconds: SETTINGS_RETRY_SECONDS };
    }
    match config.auto_rescan_interval_hours {
        None => CyclePlan { batches: empty, sleep_seconds: CYCLE_INTERVAL_SECONDS },
        Some(hours) => {
            let candidates = select_candidates(watched, history, now, hours);
            CyclePlan {
                batches: partition(&candidates, config.scan_batch_size),
                sleep_seconds: CYCLE_INTERVAL_SECONDS,
            }
        },
    }
}

/// What is reported of a scan that failed for good.
pub open spec fn failure_notice(path: Seq<char>, error: ScanErrorView) -> Seq<char> {
    "Failed to scan file "@ + path + ": "@ + error_message(error)
}

/// Records how the scan of the file at `path` ended, under the history
/// limit `limit`.
///
/// A record is added to the history as its newest. A failure leaves the
/// history as it is, but for the limit, and is handed back as a notice.
pub fn record_outcome(
    history: &mut ScanHistory,
    limit: u32,
    path: &str,
    outcome: Result<ScanResult, ScanError>,
) -> (notice: Option<String>)
    ensures
        final(history)@.limit == limit,
        match outcome {
            Ok(result) => notice is None && final(history)@.entries == newest(
                old(history)@.entries.push(result@),
                limit as nat,
            ),
            Err(error) => notice is Some && notice->0@ == failure_notice(path@, error@)
                && final(history)@.entries == newest(old(history)@.entries, limit as nat),
        },
{
    history.set_limit(limit as usize);
    match outcome {
        Ok(result) => {
            proof {
                let kept = newest(old(history)@.entries, limit as nat);
                assert(newest(kept.push(result@), limit as nat) =~= newest(
                    old(history)@.entries.push(result@),
                    limit as nat,
                ));
            }
            history.push(result);
            None
        },
        Err(error) => {
            let detail = error.message();
            let mut notice = join("Failed to scan file ", path);
            notice.append(": ");
            notice.append(detail.as_str());
            Some(notice)
        },
    }
}

/// Where the scan of one file stands between permit, attempt and retry.
#[derive(Debug, Clone, Copy, PartialEq, Eq, Structural)]
pub enum JobPhase {
    /// Waiting for a permit.
    NeedsPermit,
    /// An attempt is under way; the job holds a permit.
    Attempting,
    /// Waiting out the delay before the next attempt.
    Delayed,
    /// The job has ended.
    Finished,
}

/// What the caller reports to a job.
#[derive(Debug, PartialEq, Eq)]
pub enum JobEvent {
    /// The job may ask for a permit: at its start, and whenever a permit
    /// has come back.
    PermitPossible,
    /// The attempt has ended this way.
    AttemptEnded(Result<ScanResult, ScanError>),
    /// The delay is over.
    Woke,
}

/// What the caller has to do next for a job.
#[derive(Debug, PartialEq, Eq)]
pub enum JobCommand {
    /// Wait until a permit comes back, then report `PermitPossible`.
    AwaitPermit,
    /// Run one scan attempt, then report how it ended.
    Attempt,
    /// Sleep this many milliseconds, then report `Woke`.
    Sleep(u64),
    /// The job has ended.
    Done(Result<ScanResult, ScanError>),
}

/// What the contracts say of a `JobCommand`.
pub enum JobCommandView {
    AwaitPermit,
    Attempt,
    Sleep(u64),
    Done(Result<ScanResultView, ScanErrorView>),
}

impl View for JobCommand {
    type V = JobCommandView;

    open spec fn view(&self) -> JobCommandView {
        match self {
            JobCommand::AwaitPermit => JobCommandView::AwaitPermit,
            JobCommand::Attempt => JobCommandView::Attempt,
            JobCommand::Sleep(ms) => JobCommandView::Sleep(*ms),
            JobCommand::Done(outcome) => JobCommandView::Done(outcome_view(*outcome)),
        }
    }
}

/// The scan of one file through permit, attempt and retry.
#[derive(Debug)]
pub struct ScanJob {
    retry: RetryState,
    phase: JobPhase,
}

/// What the contracts say of a `ScanJob`.
pub struct ScanJobView {
    pub retry: RetryStateView,
    pub phase: JobPhase,
}

impl View for ScanJob {
    type V = ScanJobView;

    closed spec fn view(&self) -> ScanJobView {
        ScanJobView { retry: self.retry@, phase: self.phase }
    }
}

/// Job, limiter and command after a step.
pub struct JobStep {
    pub job: ScanJobView,
    pub limiter: ConcurrencyLimiterView,
    pub command: JobCommandView,
}

/// The job asks for a permit: with one it attempts, without one it waits
/// for one.
pub open spec fn ask_permit(job: ScanJobView, limiter: ConcurrencyLimiterView) -> JobStep {
    if limiter.held < limiter.permits {
        JobStep {
            job: ScanJobView { phase: JobPhase::Attempting, ..job },
            limiter: after_permit_request(limiter, PermitRequest::Acquire),
            command: JobCommandView::Attempt,
        }
    } else {
        JobStep {
            job: ScanJobView { phase: JobPhase::NeedsPermit, ..job },
            limiter,
            command: JobCommandView::AwaitPermit,
        }
    }
}

/// The step of a job that follows `event`.
///
/// An attempt needs a permit, and the permit goes back as soon as the
/// attempt has ended, before any delay: a retry asks for a permit again. A
/// success ends the job; a failure ends it or delays it as the retry
/// policy decides. An event that the job is not waiting for ends it as a
/// protocol error, and gives back the permit if it holds one.
pub open spec fn job_step(
    job: ScanJobView,
    limiter: ConcurrencyLimiterView,
    event: JobEvent,
) -> JobStep {
    match (job.phase, event) {
        (JobPhase::NeedsPermit, JobEvent::PermitPossible) => ask_permit(job, limiter),
        (JobPhase::Delayed, JobEvent::Woke) => ask_permit(job, limiter),
        (JobPhase::Attempting, JobEvent::AttemptEnded(Ok(result))) => JobStep {
            job: ScanJobView { phase: JobPhase::Finished, ..job },
            limiter: after_permit_request(limiter, PermitRequest::Release),
            command: JobCommandView::Done(Ok(result@)),
        },
        (JobPhase::Attempting, JobEvent::AttemptEnded(Err(error))) => match decision_after(
            job.retry.policy,
            job.retry.retries,
            error@,
        ) {
            RetryDecisionView::RetryAfter(ms) => JobStep {
                job: ScanJobView {
                    phase: JobPhase::Delayed,
                    retry: RetryStateView {
                        retries: (job.retry.retries + 1) as u32,
                        ..job.retry
                    },
                },
                limiter: after_permit_request(limiter, PermitRequest::Release),
                command: JobCommandView::Sleep(ms),
            },
            RetryDecisionView::GiveUp(last) => JobStep {
                job: ScanJobView { phase: JobPhase::Finished, ..job },
                limiter: after_permit_request(limiter, PermitRequest::Release),
                command: JobCommandView::Done(Err(last)),
            },
        },
        _ => JobStep {
            job: ScanJobView { phase: JobPhase::Finished, ..job },
            limiter: if job.phase == JobPhase::Attempting {
                after_permit_request(limiter, PermitRequest::Release)
            } else {
                limiter
            },
            command: JobCommandView::Done(
                Err(ScanErrorView::ProtocolError(ProtocolFault::UnexpectedEvent)),
            ),
        },
    }
}

/// A job holds a permit exactly while it attempts: over every step the
/// permits that are out change by what the job takes or gives back, a job
/// that is told to sleep or that has ended holds none, and never more
/// permits are out than the limiter has.
pub proof fn lemma_job_permit_accounting(
    job: ScanJobView,
    limiter: ConcurrencyLimiterView,
    event: JobEvent,
)
    requires
        limiter.held <= limiter.permits,
        job.phase == JobPhase::Attempting ==> limiter.held > 0,
    ensures
        ({
            let next = job_step(job, limiter, event);
            let held_before: int = if job.phase == JobPhase::Attempting { 1 } else { 0 };
            let held_after: int = if next.job.phase == JobPhase::Attempting { 1 } else { 0 };
            &&& next.limiter.permits == limiter.permits
            &&& next.limiter.held <= limiter.permits
            &&& next.limiter.held - held_after == limiter.held - held_before
            &&& (next.command is Sleep || next.command is Done) ==> next.job.phase
                != JobPhase::Attempting
            &&& next.command is Attempt <==> next.job.phase == JobPhase::Attempting
        }),
{
}

impl ScanJob {
    /// A job that has made no attempt yet and waits for a permit.
    pub fn new(policy: RetryPolicy) -> (job: ScanJob)
        ensures
            job@ == (ScanJobView {
                retry: RetryStateView { policy, retries: 0 },
                phase: JobPhase::NeedsPermit,
            }),
    {
        ScanJob { retry: RetryState::new(policy), phase: JobPhase::NeedsPermit }
    }

    /// Where the job stands.
    pub fn phase(&self) -> (phase: JobPhase)
        ensures
            phase == self@.phase,
    {
        self.phase
    }

    /// How many retries the job was granted so far.
    pub fn retries(&self) -> (count: u32)
        ensures
            count == self@.retry.retries,
    {
        self.retry.retries()
    }

    fn request_permit(&mut self, limiter: &mut ConcurrencyLimiter) -> (command: JobCommand)
        ensures
            final(self)@ == ask_permit(old(self)@, old(limiter)@).job,
            final(limiter)@ == ask_permit(old(self)@, old(limiter)@).limiter,
            command@ == ask_permit(old(self)@, old(limiter)@).command,
    {
        if limiter.try_acquire() {
            self.phase = JobPhase::Attempting;
            JobCommand::Attempt
        } else {
            self.phase = JobPhase::NeedsPermit;
            JobCommand::AwaitPermit
        }
    }

    fn abandon(&mut self, limiter: &mut ConcurrencyLimiter) -> (command: JobCommand)
        ensures
            final(self)@ == (ScanJobView { phase: JobPhase::Finished, ..old(self)@ }),
            final(limiter)@ == if old(self)@.phase == JobPhase::Attempting {
                after_permit_request(old(limiter)@, PermitRequest::Release)
            } else {
                old(limiter)@
            },
            command@ == JobCommandView::Done(
                Err(ScanErrorView::ProtocolError(ProtocolFault::UnexpectedEvent)),
            ),
    {
        if self.phase == JobPhase::Attempting {
            limiter.release();
        }
        self.phase = JobPhase::Finished;
        JobCommand::Done(Err(ScanError::ProtocolError(ProtocolFault::UnexpectedEvent)))
    }

    /// Goes on with the job after `event`, with `limiter` as the limiter
    /// that all jobs share.
    pub fn step(&mut self, limiter: &mut ConcurrencyLimiter, event: JobEvent) -> (command:
        JobCommand)
        ensures
            final(self)@ == job_step(old(self)@, old(limiter)@, event).job,
            final(limiter)@ == job_step(old(self)@, old(limiter)@, event).limiter,
            command@ == job_step(old(self)@, old(limiter)@, event).command,
    {
        let phase = self.phase;
        match event {
            JobEvent::PermitPossible => {
                if phase == JobPhase::NeedsPermit {
                    self.request_permit(limiter)
                } else {
                    self.abandon(limiter)
                }
            },
            JobEvent::Woke => {
                if phase == JobPhase::Delayed {
                    self.request_permit(limiter)
                } else {
                    self.abandon(limiter)
                }
            },
            JobEvent::AttemptEnded(outcome) => {
                if phase == JobPhase::Attempting {
                    limiter.release();
                    match outcome {
                        Ok(result) => {
                            self.phase = JobPhase::Finished;
                            JobCommand::Done(Ok(result))
                        },
                        Err(error) => match self.retry.on_failure(error) {
                            RetryDecision::RetryAfter(ms) => {
                                self.phase = JobPhase::Delayed;
                                JobCommand::Sleep(ms)
                            },
                            RetryDecision::GiveUp(last) => {
                                self.phase = JobPhase::Finished;
                                JobCommand::Done(Err(last))
                            },
                        },
                    }
                } else {
                    self.abandon(limiter)
                }
            },
        }
    }
}

/// The background scanner: its configuration, the permits of its scans,
/// whether it runs, and the files that wait to be scanned. No file waits
/// twice.
#[derive(Debug)]
pub struct BackgroundScanner {
    config: ScannerConfig,
    limiter: ConcurrencyLimiter,
    scanning: bool,
    scan_queue: Vec<String>,
}

/// What the contracts say of a `BackgroundScanner`.
pub struct BackgroundScannerView {
    pub config: ScannerConfig,
    pub limiter: ConcurrencyLimiterView,
    pub scanning: bool,
    pub scan_queue: Seq<Seq<char>>,
}

impl View for BackgroundScanner {
    type V = BackgroundScannerView;

    closed spec fn view(&self) -> BackgroundScannerView {
        BackgroundScannerView {
            config: self.config,
            limiter: self.limiter@,
            scanning: self.scanning,
            scan_queue: texts(self.scan_queue@),
        }
    }
}

/// Whether no path occurs twice.
pub open spec fn no_path_twice(paths: Seq<Seq<char>>) -> bool {
    forall|i: int, j: int| 0 <= i < j < paths.len() ==> paths[i] != paths[j]
}

impl BackgroundScanner {
    #[verifier::type_invariant]
    spec fn queue_distinct(self) -> bool {
        no_path_twice(texts(self.scan_queue@))
    }

    /// A scanner that does not run yet, with nothing to scan and with as
    /// many permits as `config` allows scans at a time.
    pub fn new(config: ScannerConfig) -> (scanner: BackgroundScanner)
        ensures
            scanner@.config == config,
            scanner@.limiter == (ConcurrencyLimiterView {
                permits: config.max_concurrent_scans as nat,
                held: 0,
            }),
            !scanner@.scanning,
            scanner@.scan_queue == Seq::<Seq<char>>::empty(),
    {
        let limiter = ConcurrencyLimiter::new(config.max_concurrent_scans);
        let scanner = BackgroundScanner {
            config,
            limiter,
            scanning: false,
            scan_queue: Vec::new(),
        };
        assert(texts(scanner.scan_queue@) =~= Seq::<Seq<char>>::empty());
        scanner
    }

    /// The configuration.
    pub fn config(&self) -> (config: &ScannerConfig)
        ensures
            *config == self@.config,
    {
        &self.config
    }

    /// Whether the scanner runs.
    pub fn is_scanning(&self) -> (scanning: bool)
        ensures
            scanning == self@.scanning,
    {
        self.scanning
    }

    /// How many files wait to be scanned.
    pub fn queued(&self) -> (count: usize)
        ensures
            count == self@.scan_queue.len(),
    {
        self.scan_queue.len()
    }

    /// Replaces the configuration. The permits stay as they are.
    pub fn set_config(&mut self, config: ScannerConfig)
        ensures
            final(self)@ == (BackgroundScannerView { config, ..old(self)@ }),
    {
        proof {
            use_type_invariant(&*self);
        }
        self.config = config;
    }

    /// Marks the scanner as running, and says whether it was not running
    /// before, so that its loop has to be started.
    pub fn start_scanning(&mut self) -> (started: bool)
        ensures
            started == !old(self)@.scanning,
            final(self)@ == (BackgroundScannerView { scanning: true, ..old(self)@ }),
    {
        proof {
            use_type_invariant(&*self);
        }
        let started = !self.scanning;
        self.scanning = true;
        started
    }

    /// Marks the scanner as stopped.
    pub fn stop_scanning(&mut self)
        ensures
            final(self)@ == (BackgroundScannerView { scanning: false, ..old(self)@ }),
    {
        proof {
            use_type_invariant(&*self);
        }
        self.scanning = false;
    }

    /// Adds `path` behind the files that wait, unless it waits already.
    pub fn add_to_queue(&mut self, path: String)
        ensures
            final(self)@ == (BackgroundScannerView {
                scan_queue: if old(self)@.scan_queue.contains(path@) {
                    old(self)@.scan_queue
                } else {
                    old(self)@.scan_queue.push(path@)
                },
                ..old(self)@
            }),
            no_path_twice(final(self)@.scan_queue),
    {
        proof {
            use_type_invariant(&*self);
        }
        if !contains_text(&self.scan_queue, path.as_str()) {
            let mut queue: Vec<String> = Vec::new();
            core::mem::swap(&mut self.scan_queue, &mut queue);
            let ghost before = texts(queue@);
            queue.push(path);
            proof {
                assert(texts(queue@) =~= before.push(path@));
                assert(texts(Seq::<String>::empty()) =~= Seq::<Seq<char>>::empty());
                assert forall|i: int, j: int| 0 <= i < j < texts(queue@).len() implies texts(
                    queue@,
                )[i] != texts(queue@)[j] by {
                    if j == before.len() {
                        assert(before[i] == texts(queue@)[i]);
                        assert(before.contains(before[i]));
                    } else {
                        assert(before[i] == texts(queue@)[i]);
                        assert(before[j] == texts(queue@)[j]);
                    }
                }
            }
            core::mem::swap(&mut self.scan_queue, &mut queue);
        }
    }

    /// Takes the next batch from the files that wait: the first of them, up
    /// to the configured batch size.
    pub fn next_batch(&mut self) -> (batch: Vec<String>)
        ensures
            texts(batch@) == old(self)@.scan_queue.take(
                if old(self)@.scan_queue.len() < old(self)@.config.scan_batch_size {
                    old(self)@.scan_queue.len() as int
                } else {
                    old(self)@.config.scan_batch_size as int
                },
            ),
            final(self)@ == (BackgroundScannerView {
                scan_queue: old(self)@.scan_queue.skip(texts(batch@).len() as int),
                ..old(self)@
            }),
    {
        proof {
            use_type_invariant(&*self);
        }
        let mut queue: Vec<String> = Vec::new();
        core::mem::swap(&mut self.scan_queue, &mut queue);
        assert(texts(self.scan_queue@) =~= Seq::<Seq<char>>::empty());
        let ghost before = texts(queue@);
        let count = if queue.len() < self.config.scan_batch_size {
            queue.len()
        } else {
            self.config.scan_batch_size
        };
        let mut batch: Vec<String> = Vec::new();
        let mut taken: usize = 0;
        assert(texts(batch@) =~= before.take(0));
        assert(texts(queue@) =~= before.skip(0));
        while taken < count
            invariant
                taken <= count,
                count <= before.len(),
                queue@.len() + taken == before.len(),
                batch@.len() == taken,
                texts(batch@) == before.take(taken as int),
                texts(queue@) == before.skip(taken as int),
            decreases count - taken,
        {
            let ghost batch_before = batch@;
            let ghost queue_before = queue@;
            let path = queue.remove(0);
            batch.push(path);
            proof {
                assert(texts(queue_before)[0] == path@);
                assert(before.skip(taken as int)[0] == before[taken as int]);
                assert forall|k: int| 0 <= k < batch@.len() implies #[trigger] texts(batch@)[k]
                    == before.take(taken + 1)[k] by {
                    if k < taken {
                        assert(batch@[k] == batch_before[k]);
                        assert(texts(batch_before)[k] == before.take(taken as int)[k]);
                    }
                }
                assert forall|k: int| 0 <= k < queue@.len() implies #[trigger] texts(queue@)[k]
                    == before.skip(taken + 1)[k] by {
                    assert(queue@[k] == queue_before[k + 1]);
                    assert(texts(queue_before)[k + 1] == before.skip(taken as int)[k + 1]);
                }
            }
            taken = taken + 1;
            assert(texts(batch@) =~= before.take(taken as int));
            assert(texts(queue@) =~= before.skip(taken as int));
        }
        proof {
            let rest = texts(queue@);
            assert forall|i: int, j: int| 0 <= i < j < rest.len() implies rest[i] != rest[j] by {
                assert(rest[i] == before[i + taken]);
                assert(rest[j] == before[j + taken]);
            }
        }
        core::mem::swap(&mut self.scan_queue, &mut queue);
        batch
    }

    /// Plans one cycle of rescans at `now`.
    ///
    /// `loaded` holds the settings of the user if they could be read: their
    /// rescan interval and history limit then take the place of those of
    /// the configuration, and the cycle is planned under it. Where they
    /// could not be read, nothing changes and the cycle scans nothing.
    pub fn start(
        &mut self,
        loaded: Option<&Settings>,
        watched: &Vec<String>,
        history: &ScanHistory,
        now: u64,
    ) -> (plan: CyclePlan)
        requires
            old(self)@.config.scan_batch_size > 0,
        ensures
            final(self)@ == (BackgroundScannerView {
                config: match loaded {
                    Some(settings) => with_user_options(old(self)@.config, *settings),
                    None => old(self)@.config,
                },
                ..old(self)@
            }),
            batch_views(plan.batches@) == planned_batches(
                loaded is Some,
                final(self)@.config,
                texts(watched@),
                history@.entries,
                now,
            ),
            plan.sleep_seconds == planned_sleep(loaded is Some),
    {
        proof {
            use_type_invariant(&*self);
        }
        match loaded {
            Some(settings) => {
                self.config.auto_rescan_interval_hours = settings.auto_rescan_interval;
                self.config.scan_history_limit = settings.scan_history_limit;
                plan_cycle(true, &self.config, watched, history, now)
            },
            None => plan_cycle(false, &self.config, watched, history, now),
        }
    }

    /// Goes on with `job` after `event`, with the permits of this scanner.
    pub fn step_job(&mut self, job: &mut ScanJob, event: JobEvent) -> (command: JobCommand)
        ensures
            final(job)@ == job_step(old(job)@, old(self)@.limiter, event).job,
            final(self)@ == (BackgroundScannerView {
                limiter: job_step(old(job)@, old(self)@.limiter, event).limiter,
                ..old(self)@
            }),
            command@ == job_step(old(job)@, old(self)@.limiter, event).command,
    {
        proof {
            use_type_invariant(&*self);
        }
        let mut limiter = ConcurrencyLimiter::new(0);
        core::mem::swap(&mut self.limiter, &mut limiter);
        let command = job.step(&mut limiter, event);
        core::mem::swap(&mut self.limiter, &mut limiter);
        command
    }

    /// A job for one file under the retry policy of the configuration.
    pub fn new_job(&self) -> (job: ScanJob)
        ensures
            job@ == (ScanJobView {
                retry: RetryStateView {
                    policy: crate::config::retry_policy_of(self@.config),
                    retries: 0,
                },
                phase: JobPhase::NeedsPermit,
            }),
    {
        ScanJob::new(self.config.retry_policy())
    }
}

} // verus!
