//! Backfill runs: their scope, their record, and the bookkeeping of each
//! batch of records.
use vstd::prelude::*;
use crate::db::models::{BackfillRun, BackfillStats};
use crate::text::{append_str, same_text, string_from_chars};

verus! {

/// What a backfill run upgrades.
#[derive(Debug, Clone, Copy, PartialEq, Eq, Structural)]
pub enum BackfillScope {
    /// The deterministic data-version upgrade of error records.
    ErrorRecords,
    /// Re-running the analysis pipeline on stored error images; only on request.
    ErrorRecordsAnalysis,
    /// Every scope that is safe to run unattended.
    All,
}

/// The name of a scope on the command line and in the run record.
pub open spec fn scope_name(s: BackfillScope) -> Seq<char> {
    match s {
        BackfillScope::ErrorRecords => "error-records"@,
        BackfillScope::ErrorRecordsAnalysis => "error-records-analysis"@,
        BackfillScope::All => "all"@,
    }
}

/// The scope a name denotes.
pub open spec fn scope_of_name(s: Seq<char>) -> Option<BackfillScope> {
    if s == "error-records"@ {
        Some(BackfillScope::ErrorRecords)
    } else if s == "error-records-analysis"@ {
        Some(BackfillScope::ErrorRecordsAnalysis)
    } else if s == "all"@ {
        Some(BackfillScope::All)
    } else {
        None
    }
}

impl BackfillScope {
    /// The scope's name.
    pub fn as_str(&self) -> (s: &'static str)
        ensures
            s@ == scope_name(*self),
    {
        match self {
            BackfillScope::ErrorRecords => "error-records",
            BackfillScope::ErrorRecordsAnalysis => "error-records-analysis",
            BackfillScope::All => "all",
        }
    }

    /// The scope a name denotes, if any.
    pub fn from_str(s: &str) -> (r: Option<BackfillScope>)
        ensures
            r == scope_of_name(s@),
    {
        if same_text(s, "error-records") {
            Some(BackfillScope::ErrorRecords)
        } else if same_text(s, "error-records-analysis") {
            Some(BackfillScope::ErrorRecordsAnalysis)
        } else if same_text(s, "all") {
            Some(BackfillScope::All)
        } else {
            None
        }
    }
}

/// A scope's name reads back as the same scope.
pub proof fn scope_name_round_trip(s: BackfillScope)
    ensures
        scope_of_name(scope_name(s)) == Some(s),
{
    reveal_strlit("error-records");
    reveal_strlit("error-records-analysis");
    reveal_strlit("all");
    assert("error-records"@.len() != "error-records-analysis"@.len());
    assert("error-records"@.len() != "all"@.len());
    assert("error-records-analysis"@.len() != "all"@.len());
}

/// The work a backfill run does.
#[derive(Debug, Clone, Copy, PartialEq, Eq, Structural)]
pub enum BackfillTask {
    /// The data-version upgrade of error records.
    UpgradeErrorRecords,
    /// The model-driven re-analysis of error records.
    ReanalyseErrorRecords,
}

/// The work a scope runs: `all` runs only the unattended-safe upgrade.
pub open spec fn task_of(s: BackfillScope) -> BackfillTask {
    match s {
        BackfillScope::ErrorRecordsAnalysis => BackfillTask::ReanalyseErrorRecords,
        _ => BackfillTask::UpgradeErrorRecords,
    }
}

impl BackfillScope {
    /// The work this scope runs.
    pub fn task(&self) -> (t: BackfillTask)
        ensures
            t == task_of(*self),
    {
        match self {
            BackfillScope::ErrorRecordsAnalysis => BackfillTask::ReanalyseErrorRecords,
            _ => BackfillTask::UpgradeErrorRecords,
        }
    }
}

/// The model-driven re-analysis runs only when its scope is named; `all`
/// never starts it.
pub proof fn reanalysis_only_on_request(s: BackfillScope)
    ensures
        task_of(s) == BackfillTask::ReanalyseErrorRecords <==> s
            == BackfillScope::ErrorRecordsAnalysis,
        task_of(BackfillScope::All) == BackfillTask::UpgradeErrorRecords,
{
}

/// How a backfill runs.
#[derive(Debug, Clone, Copy)]
pub struct BackfillOptions {
    pub scope: BackfillScope,
    pub dry_run: bool,
    pub limit: Option<u64>,
    pub fail_fast: bool,
}

/// The options of a backfill run, from the scope's name; an unknown scope
/// is an error that names the known ones.
pub fn backfill_options(scope: &str, dry_run: bool, limit: Option<u64>, fail_fast: bool) -> (r: Result<
    BackfillOptions,
    String,
>)
    ensures
        r matches Ok(o) ==> scope_of_name(scope@) == Some(o.scope) && o.dry_run == dry_run
            && o.limit == limit && o.fail_fast == fail_fast,
        r is Err <==> scope_of_name(scope@) is None,
        r matches Err(m) ==> m@ == "未知的 backfill scope: "@ + scope@
            + "（可选: error-records, error-records-analysis, all）"@,
{
    match BackfillScope::from_str(scope) {
        Some(s) => Ok(BackfillOptions { scope: s, dry_run, limit, fail_fast }),
        None => {
            let mut out: Vec<char> = Vec::new();
            append_str(&mut out, "未知的 backfill scope: ");
            append_str(&mut out, scope);
            append_str(&mut out, "（可选: error-records, error-records-analysis, all）");
            Err(string_from_chars(out.as_slice()))
        },
    }
}

/// What a finished backfill reports.
#[derive(Debug, Clone)]
pub struct BackfillResult {
    pub run_id: String,
    pub scope: String,
    pub stats: BackfillStats,
    pub dry_run: bool,
}

/// The record of a backfill run as it starts.
pub fn new_backfill_run(run_id: &str, opts: &BackfillOptions, now: i64) -> (r: BackfillRun)
    ensures
        r.id@ == run_id@,
        r.scope@ == scope_name(opts.scope),
        r.status@ == "running"@,
        r.dry_run == opts.dry_run,
        r.started_at == now,
        r.updated_at == now,
        r.completed_at is None,
        r.stats_json is None,
        r.error_message is None,
        r.last_table is None,
        r.last_row_id is None,
{
    BackfillRun {
        id: run_id.to_owned(),
        scope: opts.scope.as_str().to_owned(),
        status: "running".to_owned(),
        dry_run: opts.dry_run,
        started_at: now,
        updated_at: now,
        completed_at: None,
        stats_json: None,
        error_message: None,
        last_table: None,
        last_row_id: None,
    }
}

/// The report of a backfill run that succeeded.
pub fn backfill_result(run_id: String, opts: &BackfillOptions, stats: BackfillStats) -> (r:
    BackfillResult)
    ensures
        r.run_id == run_id,
        r.scope@ == scope_name(opts.scope),
        r.stats == stats,
        r.dry_run == opts.dry_run,
{
    BackfillResult { run_id, scope: opts.scope.as_str().to_owned(), stats, dry_run: opts.dry_run }
}

/// How one record of a batch came out.
#[derive(Debug, Clone, Copy, PartialEq, Eq, Structural)]
pub enum RecordOutcome {
    Upgraded,
    Skipped,
    Failed,
}

/// The counts after one more record with the given outcome.
pub open spec fn tallied(s: BackfillStats, o: RecordOutcome) -> BackfillStats {
    match o {
        RecordOutcome::Upgraded => BackfillStats {
            total_scanned: (s.total_scanned + 1) as u64,
            upgraded: (s.upgraded + 1) as u64,
            ..s
        },
        RecordOutcome::Skipped => BackfillStats {
            total_scanned: (s.total_scanned + 1) as u64,
            skipped: (s.skipped + 1) as u64,
            ..s
        },
        RecordOutcome::Failed => BackfillStats {
            total_scanned: (s.total_scanned + 1) as u64,
            failed: (s.failed + 1) as u64,
            ..s
        },
    }
}

/// Counts one more record.
pub fn tally(stats: &mut BackfillStats, outcome: RecordOutcome)
    requires
        old(stats).total_scanned < u64::MAX,
        old(stats).upgraded < u64::MAX,
        old(stats).skipped < u64::MAX,
        old(stats).failed < u64::MAX,
    ensures
        *final(stats) == tallied(*old(stats), outcome),
{
    stats.total_scanned = stats.total_scanned + 1;
    match outcome {
        RecordOutcome::Upgraded => stats.upgraded = stats.upgraded + 1,
        RecordOutcome::Skipped => stats.skipped = stats.skipped + 1,
        RecordOutcome::Failed => stats.failed = stats.failed + 1,
    }
}

/// How many records of the next batch may still be processed under the
/// limit, or `None` once the limit is reached.
pub open spec fn quota(limit: Option<u64>, scanned: u64, batch_len: usize) -> Option<usize> {
    match limit {
        Some(l) => if scanned >= l {
            None
        } else {
            Some((l - scanned) as usize)
        },
        None => Some(batch_len),
    }
}

/// The number of records of a fetched batch to process, or `None` when the
/// limit was reached and the run stops.
pub fn batch_quota(limit: Option<u64>, scanned: u64, batch_len: usize) -> (r: Option<usize>)
    ensures
        r == quota(limit, scanned, batch_len),
{
    match limit {
        Some(l) => {
            if scanned >= l {
                None
            } else {
                Some((l - scanned) as usize)
            }
        },
        None => Some(batch_len),
    }
}

/// Whether the run fetches another batch: the last one was full and the
/// limit is not reached.
pub open spec fn continues(batch_len: usize, batch_size: u32, limit: Option<u64>, scanned: u64) -> bool {
    batch_len >= batch_size && match limit {
        Some(l) => scanned < l,
        None => true,
    }
}

/// Decides whether to fetch another batch.
pub fn continue_after_batch(batch_len: usize, batch_size: u32, limit: Option<u64>, scanned: u64) -> (b:
    bool)
    ensures
        b == continues(batch_len, batch_size, limit, scanned),
{
    if batch_len < batch_size as usize {
        return false;
    }
    match limit {
        Some(l) => scanned < l,
        None => true,
    }
}

/// Whether the run stops after a record with this outcome: only a failure,
/// and only under fail-fast.
pub fn stops_after(outcome: RecordOutcome, fail_fast: bool) -> (b: bool)
    ensures
        b == (fail_fast && outcome == RecordOutcome::Failed),
{
    fail_fast && match outcome {
        RecordOutcome::Failed => true,
        _ => false,
    }
}

/// Processing what the quota admits of a batch never takes the scanned count
/// past the limit, and a run whose limit is reached processes nothing more.
pub proof fn quota_respects_limit(limit: u64, scanned: u64, batch_len: usize)
    requires
        scanned <= limit,
        limit - scanned <= usize::MAX,
    ensures
        quota(Some(limit), scanned, batch_len) matches Some(q) ==> scanned + (if q < batch_len {
            q as int
        } else {
            batch_len as int
        }) <= limit,
        quota(Some(limit), scanned, batch_len) is None <==> scanned == limit,
{
}

/// Counting a record raises the scanned count by one and exactly one of the
/// outcome counts by one.
pub proof fn tally_counts_every_record(s: BackfillStats, o: RecordOutcome)
    requires
        s.total_scanned < u64::MAX,
        s.upgraded < u64::MAX,
        s.skipped < u64::MAX,
        s.failed < u64::MAX,
    ensures
        tallied(s, o).total_scanned == s.total_scanned + 1,
        tallied(s, o).upgraded + tallied(s, o).skipped + tallied(s, o).failed == s.upgraded
            + s.skipped + s.failed + 1,
{
}

} // verus!
