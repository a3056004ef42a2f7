//! The job orchestrator: an ordered table of download jobs driven
//! under a bounded-concurrency policy.
//!
//! The table itself is pure state. The loop that actually spawns the
//! external tool lives outside the crate and drives the table through
//! the operations here: it admits a job with `try_begin_next`, reports
//! the outcome with `complete_job` or `fail_job`, and reads the run
//! off with `stats`. Every operation keeps the table well formed, so
//! at every instant at most `concurrent_limit` jobs are downloading.

use vstd::prelude::*;

use crate::config::Config;
use crate::error::YtdlError;
use crate::history::{History, HistoryEntry, spec_contains_url};
use crate::strutil::{spec_trim, trim_str};
use crate::utils::{spec_is_youtube_url, validate_youtube_url};

verus! {

/// The lifecycle of one job. Transitions run `Pending ->
/// Downloading -> {Complete | Failed}`; `Skipped` is set before
/// dispatch and is never executed.
#[derive(Debug, PartialEq, Eq)]
pub enum DownloadStatus {
    Pending,
    Downloading,
    Complete,
    Failed(String),
    Skipped,
}

impl Clone for DownloadStatus {
    /// A clone is the same status.
    fn clone(&self) -> (r: Self)
        ensures
            r == *self,
    {
        match self {
            DownloadStatus::Pending => DownloadStatus::Pending,
            DownloadStatus::Downloading => DownloadStatus::Downloading,
            DownloadStatus::Complete => DownloadStatus::Complete,
            DownloadStatus::Failed(m) => DownloadStatus::Failed(m.clone()),
            DownloadStatus::Skipped => DownloadStatus::Skipped,
        }
    }
}

/// One download job: a URL and what has become of it.
#[derive(Debug)]
pub struct BatchDownloadItem {
    pub url: String,
    pub status: DownloadStatus,
    pub title: Option<String>,
    pub output_path: Option<String>,
    /// Completion in hundredths of a percent: 10000 is done.
    pub progress_hundredths: u64,
    pub file_size: u64,
}

impl Clone for BatchDownloadItem {
    /// A clone is the same job, field for field.
    fn clone(&self) -> (r: Self)
        ensures
            r == *self,
    {
        BatchDownloadItem {
            url: self.url.clone(),
            status: self.status.clone(),
            title: match &self.title {
                Option::Some(t) => Some(t.clone()),
                Option::None => None,
            },
            output_path: match &self.output_path {
                Option::Some(p) => Some(p.clone()),
                Option::None => None,
            },
            progress_hundredths: self.progress_hundredths,
            file_size: self.file_size,
        }
    }
}

/// What a freshly loaded job looks like: pending, untouched.
pub open spec fn fresh_job(it: BatchDownloadItem, url: Seq<char>) -> bool {
    &&& it.url@ == url
    &&& it.status is Pending
    &&& it.title is None
    &&& it.output_path is None
    &&& it.progress_hundredths == 0
    &&& it.file_size == 0
}

impl BatchDownloadItem {
    /// A fresh pending job for `url`.
    pub fn new(url: String) -> (r: BatchDownloadItem)
        ensures
            fresh_job(r, url@),
            r.url == url,
    {
        BatchDownloadItem {
            url,
            status: DownloadStatus::Pending,
            title: None,
            output_path: None,
            progress_hundredths: 0,
            file_size: 0,
        }
    }
}

// ---------------------------------------------------------------------------
// Counting jobs by status
// ---------------------------------------------------------------------------
/// How many jobs of `items` satisfy `p`.
pub open spec fn count_pred(items: Seq<BatchDownloadItem>, p: spec_fn(BatchDownloadItem) -> bool) -> int
    decreases items.len(),
{
    if items.len() == 0 {
        0
    } else {
        count_pred(items.drop_last(), p) + if p(items.last()) {
            1int
        } else {
            0int
        }
    }
}

pub open spec fn is_downloading(it: BatchDownloadItem) -> bool {
    it.status is Downloading
}

pub open spec fn is_pending(it: BatchDownloadItem) -> bool {
    it.status is Pending
}

pub open spec fn is_complete(it: BatchDownloadItem) -> bool {
    it.status is Complete
}

pub open spec fn is_failed(it: BatchDownloadItem) -> bool {
    it.status is Failed
}

pub open spec fn is_skipped(it: BatchDownloadItem) -> bool {
    it.status is Skipped
}

/// The count is never negative and never exceeds the length.
pub proof fn lemma_count_pred_bounds(items: Seq<BatchDownloadItem>, p: spec_fn(BatchDownloadItem) -> bool)
    ensures
        0 <= count_pred(items, p) <= items.len(),
    decreases items.len(),
{
    if items.len() > 0 {
        lemma_count_pred_bounds(items.drop_last(), p);
    }
}

/// A count is zero exactly when no job satisfies the predicate.
pub proof fn lemma_count_pred_zero(items: Seq<BatchDownloadItem>, p: spec_fn(BatchDownloadItem) -> bool)
    ensures
        (count_pred(items, p) == 0) <==> (forall|k: int| 0 <= k < items.len() ==> !p(items[k])),
    decreases items.len(),
{
    lemma_count_pred_bounds(items, p);
    if items.len() > 0 {
        lemma_count_pred_zero(items.drop_last(), p);
        lemma_count_pred_bounds(items.drop_last(), p);
        assert(items.last() == items[items.len() - 1]);
        assert(forall|k: int| 0 <= k < items.len() - 1 ==> items.drop_last()[k] == items[k]);
    }
}

/// Updating one job changes each count by that job's contribution
/// alone.
pub proof fn lemma_count_pred_update(
    items: Seq<BatchDownloadItem>,
    p: spec_fn(BatchDownloadItem) -> bool,
    k: int,
    it: BatchDownloadItem,
)
    requires
        0 <= k < items.len(),
    ensures
        count_pred(items.update(k, it), p) == count_pred(items, p) + (if p(it) {
            1int
        } else {
            0int
        }) - (if p(items[k]) {
            1int
        } else {
            0int
        }),
    decreases items.len(),
{
    let upd = items.update(k, it);
    assert(upd.len() == items.len());
    if items.len() > 0 {
        if k == items.len() - 1 {
            assert(upd.drop_last() =~= items.drop_last());
            assert(upd.last() == it);
        } else {
            assert(upd.drop_last() =~= items.drop_last().update(k, it));
            assert(upd.last() == items.last());
            lemma_count_pred_update(items.drop_last(), p, k, it);
        }
    }
}

/// The statuses partition the table: the five counts sum to the
/// length.
pub proof fn lemma_status_partition(items: Seq<BatchDownloadItem>)
    ensures
        count_pred(items, |it: BatchDownloadItem| is_pending(it)) + count_pred(
            items,
            |it: BatchDownloadItem| is_downloading(it),
        ) + count_pred(items, |it: BatchDownloadItem| is_complete(it)) + count_pred(
            items,
            |it: BatchDownloadItem| is_failed(it),
        ) + count_pred(items, |it: BatchDownloadItem| is_skipped(it)) == items.len(),
    decreases items.len(),
{
    if items.len() > 0 {
        lemma_status_partition(items.drop_last());
    }
}

// ---------------------------------------------------------------------------
// Run statistics
// ---------------------------------------------------------------------------
/// The summary a finished run reports.
#[derive(Debug, Default, Clone, PartialEq, Eq)]
pub struct BatchDownloadStats {
    pub total: usize,
    pub successful: usize,
    pub failed: usize,
    pub skipped: usize,
}

/// A snapshot of how far the run has come.
#[derive(Debug, Clone, PartialEq, Eq)]
pub struct BatchProgress {
    pub total: usize,
    pub complete: usize,
    pub failed: usize,
    pub skipped: usize,
    pub downloading: usize,
    pub total_bytes: u64,
}

impl BatchProgress {
    /// How much of the run has resolved, in hundredths of a percent
    /// of the job count; 0 when the table is empty.
    pub fn percentage(&self) -> (r: u64)
        requires
            self.complete + self.failed + self.skipped <= self.total,
        ensures
            self.total == 0 ==> r == 0,
            self.total > 0 ==> r as int == (self.complete + self.failed + self.skipped) * 10000int
                / self.total as int,
    {
        if self.total == 0 {
            0
        } else {
            let done: u128 = self.complete as u128 + self.failed as u128 + self.skipped as u128;
            let num: u128 = done * 10000;
            let q = num / (self.total as u128);
            assert(q <= 10000) by (nonlinear_arith)
                requires
                    q == num / (self.total as u128),
                    num == done * 10000,
                    done <= self.total as u128,
                    self.total > 0,
            ;
            q as u64
        }
    }
}

// ---------------------------------------------------------------------------
// The orchestrator
// ---------------------------------------------------------------------------
/// The job table, its policy, and the history it deduplicates against.
#[derive(Debug)]
pub struct BatchDownloader {
    pub items: Vec<BatchDownloadItem>,
    pub config: Config,
    pub history: History,
    pub stop_on_error: bool,
    pub concurrent_limit: usize,
}

/// The concurrency ceiling a configuration asks for, clamped to
/// `[1, 10]`; 3 when it names none.
pub open spec fn spec_clamped_limit(requested: Option<usize>) -> int {
    let v: int = match requested {
        Option::Some(v) => v as int,
        Option::None => 3,
    };
    if v < 1 {
        1
    } else if v > 10 {
        10
    } else {
        v
    }
}

/// The candidate URLs of a batch input: each line trimmed, blank lines
/// and `#` comments dropped, and only well-formed URLs kept.
pub open spec fn spec_batch_urls(lines: Seq<Seq<char>>) -> Seq<Seq<char>>
    decreases lines.len(),
{
    if lines.len() == 0 {
        Seq::empty()
    } else {
        let t = spec_trim(lines.last());
        spec_batch_urls(lines.drop_last()) + if t.len() > 0 && t[0] != '#'
            && spec_is_youtube_url(t) {
            seq![t]
        } else {
            Seq::empty()
        }
    }
}

impl BatchDownloader {
    /// How many jobs are downloading right now.
    pub open spec fn downloading_count(&self) -> int {
        count_pred(self.items@, |it: BatchDownloadItem| is_downloading(it))
    }

    /// Well-formedness: the limit is in `[1, 10]` and the number of
    /// jobs downloading never exceeds it. Every operation preserves
    /// this.
    pub open spec fn wf(&self) -> bool {
        &&& 1 <= self.concurrent_limit <= 10
        &&& self.downloading_count() <= self.concurrent_limit
    }

    /// A fresh orchestrator with an empty table; the concurrency
    /// ceiling comes from the configuration, clamped to `[1, 10]`
    /// with a default of 3.
    pub fn new(config: Config, history: History, stop_on_error: bool) -> (r: BatchDownloader)
        ensures
            r.wf(),
            r.items@.len() == 0,
            r.concurrent_limit as int == spec_clamped_limit(config.concurrent_downloads),
            r.stop_on_error == stop_on_error,
            r.history == history,
            r.config == config,
    {
        let requested = match config.concurrent_downloads {
            Option::Some(v) => v,
            Option::None => 3,
        };
        let concurrent_limit = if requested < 1 {
            1
        } else if requested > 10 {
            10
        } else {
            requested
        };
        BatchDownloader { items: Vec::new(), config, history, stop_on_error, concurrent_limit }
    }

    /// Loads batch input, one candidate URL per line. Blank lines and
    /// `#` comments are skipped; lines that are not well-formed URLs
    /// are dropped. When nothing valid remains the whole load fails
    /// with a configuration error and the table is unchanged.
    pub fn load_from_lines(&mut self, lines: &Vec<String>) -> (r: Result<(), YtdlError>)
        requires
            old(self).wf(),
            old(self).items@.len() + lines@.len() <= usize::MAX,
        ensures
            final(self).wf(),
            final(self).concurrent_limit == old(self).concurrent_limit,
            final(self).stop_on_error == old(self).stop_on_error,
            final(self).history == old(self).history,
            final(self).config == old(self).config,
            match r {
                Result::Ok(()) => {
                    let urls = spec_batch_urls(lines@.map_values(|l: String| l@));
                    &&& urls.len() > 0
                    &&& final(self).items@.len() == old(self).items@.len() + urls.len()
                    &&& final(self).items@.subrange(0, old(self).items@.len() as int) == old(
                        self,
                    ).items@
                    &&& forall|k: int|
                        0 <= k < urls.len() ==> fresh_job(
                            #[trigger] final(self).items@[old(self).items@.len() + k],
                            urls[k],
                        )
                },
                Result::Err(e) => {
                    &&& *final(self) == *old(self)
                    &&& e matches YtdlError::Config(m) && m@
                        == "No valid URLs found in batch file"@
                    &&& spec_batch_urls(lines@.map_values(|l: String| l@)).len() == 0
                },
            },
    {
        let ghost lviews = lines@.map_values(|l: String| l@);
        let mut urls: Vec<String> = Vec::new();
        let n = lines.len();
        let mut k: usize = 0;
        while k < n
            invariant
                n == lines@.len(),
                k <= n,
                lviews == lines@.map_values(|l: String| l@),
                urls@.map_values(|u: String| u@) == spec_batch_urls(
                    lviews.subrange(0, k as int),
                ),
            decreases n - k,
        {
            proof {
                assert(lviews.subrange(0, k + 1).drop_last() =~= lviews.subrange(0, k as int));
                assert(lviews.subrange(0, k + 1).last() == lviews[k as int]);
                assert(lviews[k as int] == lines@[k as int]@);
            }
            let t = trim_str(lines[k].as_str());
            let tn = t.unicode_len();
            let keep = if tn == 0 {
                false
            } else if t.get_char(0) == '#' {
                false
            } else {
                match validate_youtube_url(t) {
                    Result::Ok(()) => true,
                    Result::Err(_) => false,
                }
            };
            if keep {
                let owned = t.to_owned();
                urls.push(owned);
                proof {
                    assert(urls@.map_values(|u: String| u@) =~= spec_batch_urls(
                        lviews.subrange(0, k + 1),
                    ));
                }
            } else {
                proof {
                    assert(urls@.map_values(|u: String| u@) =~= spec_batch_urls(
                        lviews.subrange(0, k + 1),
                    ));
                }
            }
            k = k + 1;
        }
        proof {
            assert(lviews.subrange(0, n as int) =~= lviews);
        }
        if urls.is_empty() {
            proof {
                assert(urls@.map_values(|u: String| u@).len() == urls@.len());
            }
            return Err(YtdlError::Config("No valid URLs found in batch file".to_owned()));
        }
        let ghost base = self.items@.len() as int;
        let ghost spec_urls = spec_batch_urls(lviews);
        let m = urls.len();
        let mut j: usize = 0;
        while j < m
            invariant
                m == urls@.len(),
                j <= m,
                urls@.map_values(|u: String| u@) == spec_urls,
                self.items@.len() == base + j,
                base == old(self).items@.len(),
                self.items@.subrange(0, base) == old(self).items@,
                self.concurrent_limit == old(self).concurrent_limit,
                self.stop_on_error == old(self).stop_on_error,
                self.history == old(self).history,
                self.config == old(self).config,
                old(self).wf(),
                forall|k2: int|
                    0 <= k2 < j ==> fresh_job(#[trigger] self.items@[base + k2], spec_urls[k2]),
                self.downloading_count() == old(self).downloading_count(),
            decreases m - j,
        {
            let ghost items_before = self.items@;
            let u = urls[j].clone();
            proof {
                assert(u@ == urls@.map_values(|x: String| x@)[j as int]);
            }
            self.items.push(BatchDownloadItem::new(u));
            proof {
                assert(self.items@.drop_last() =~= items_before);
                assert(self.items@.subrange(0, base) =~= items_before.subrange(0, base));
            }
            j = j + 1;
        }
        proof {
            lemma_count_pred_bounds(
                self.items@,
                |it: BatchDownloadItem| is_downloading(it),
            );
        }
        Ok(())
    }

    /// Adds the given URLs as pending jobs, validating each; on the
    /// first invalid URL the valid ones before it are kept and the
    /// rest is dropped, as when loading a batch file line by line
    /// fails midway.
    pub fn add_urls(&mut self, urls: Vec<String>) -> (r: Result<(), YtdlError>)
        requires
            old(self).wf(),
            old(self).items@.len() + urls@.len() <= usize::MAX,
        ensures
            final(self).wf(),
            final(self).concurrent_limit == old(self).concurrent_limit,
            final(self).stop_on_error == old(self).stop_on_error,
            final(self).history == old(self).history,
            r is Ok ==> {
                &&& final(self).items@.len() == old(self).items@.len() + urls@.len()
                &&& final(self).items@.subrange(0, old(self).items@.len() as int) == old(
                    self,
                ).items@
                &&& forall|k: int|
                    0 <= k < urls@.len() ==> fresh_job(
                        #[trigger] final(self).items@[old(self).items@.len() + k],
                        urls@[k]@,
                    )
                &&& forall|k: int| 0 <= k < urls@.len() ==> spec_is_youtube_url(#[trigger] urls@[k]@)
            },
            r matches Err(e) ==> {
                &&& e is InvalidUrl
                &&& exists|k: int| 0 <= k < urls@.len() && !spec_is_youtube_url(#[trigger] urls@[k]@)
            },
    {
        let ghost base = self.items@.len() as int;
        let m = urls.len();
        let mut j: usize = 0;
        while j < m
            invariant
                m == urls@.len(),
                j <= m,
                self.items@.len() == base + j,
                base == old(self).items@.len(),
                base + m <= usize::MAX,
                self.items@.subrange(0, base) == old(self).items@,
                self.concurrent_limit == old(self).concurrent_limit,
                self.stop_on_error == old(self).stop_on_error,
                self.history == old(self).history,
                self.config == old(self).config,
                old(self).wf(),
                forall|k2: int|
                    0 <= k2 < j ==> fresh_job(#[trigger] self.items@[base + k2], urls@[k2]@),
                forall|k2: int| 0 <= k2 < j ==> spec_is_youtube_url(#[trigger] urls@[k2]@),
                self.downloading_count() == old(self).downloading_count(),
            decreases m - j,
        {
            let ghost items_before = self.items@;
            match validate_youtube_url(urls[j].as_str()) {
                Result::Ok(()) => {},
                Result::Err(e) => {
                    proof {
                        lemma_count_pred_bounds(
                            self.items@,
                            |it: BatchDownloadItem| is_downloading(it),
                        );
                    }
                    return Err(e);
                },
            }
            let u = urls[j].clone();
            self.items.push(BatchDownloadItem::new(u));
            proof {
                assert(self.items@.drop_last() =~= items_before);
                assert(self.items@.subrange(0, base) =~= items_before.subrange(0, base));
            }
            j = j + 1;
        }
        proof {
            lemma_count_pred_bounds(self.items@, |it: BatchDownloadItem| is_downloading(it));
        }
        Ok(())
    }

    /// The URLs of the jobs that the history already records, in the
    /// table's order.
    pub open spec fn spec_duplicates(items: Seq<BatchDownloadItem>, history: Seq<HistoryEntry>) -> Seq<
        Seq<char>,
    >
        decreases items.len(),
    {
        if items.len() == 0 {
            Seq::empty()
        } else {
            Self::spec_duplicates(items.drop_last(), history) + if spec_contains_url(
                history,
                items.last().url@,
            ) {
                seq![items.last().url@]
            } else {
                Seq::empty()
            }
        }
    }

    /// The URLs of the table that the history already records.
    pub fn check_duplicates(&self) -> (r: Vec<String>)
        ensures
            r@.map_values(|u: String| u@) == Self::spec_duplicates(
                self.items@,
                self.history.entries@,
            ),
    {
        let n = self.items.len();
        let mut out: Vec<String> = Vec::new();
        let mut k: usize = 0;
        while k < n
            invariant
                n == self.items@.len(),
                k <= n,
                out@.map_values(|u: String| u@) == Self::spec_duplicates(
                    self.items@.subrange(0, k as int),
                    self.history.entries@,
                ),
            decreases n - k,
        {
            proof {
                assert(self.items@.subrange(0, k + 1).drop_last() =~= self.items@.subrange(
                    0,
                    k as int,
                ));
                assert(self.items@.subrange(0, k + 1).last() == self.items@[k as int]);
            }
            if self.history.contains_url(self.items[k].url.as_str()) {
                out.push(self.items[k].url.clone());
            }
            proof {
                assert(out@.map_values(|u: String| u@) =~= Self::spec_duplicates(
                    self.items@.subrange(0, k + 1),
                    self.history.entries@,
                ));
            }
            k = k + 1;
        }
        proof {
            assert(self.items@.subrange(0, n as int) =~= self.items@);
        }
        out
    }

    /// What one job looks like after the duplicate pass: skipped
    /// exactly when the history records its URL, and untouched
    /// otherwise.
    pub open spec fn spec_skip_one(it: BatchDownloadItem, history: Seq<HistoryEntry>) -> BatchDownloadItem {
        if spec_contains_url(history, it.url@) {
            BatchDownloadItem { status: DownloadStatus::Skipped, ..it }
        } else {
            it
        }
    }

    /// Marks every job whose URL the history records as `Skipped`.
    /// Idempotent: a second pass changes nothing (`lemma_skip_duplicates_idempotent`).
    pub fn skip_duplicates(&mut self)
        requires
            old(self).wf(),
        ensures
            final(self).wf(),
            final(self).items@.len() == old(self).items@.len(),
            forall|k: int|
                0 <= k < old(self).items@.len() ==> final(self).items@[k] == Self::spec_skip_one(
                    #[trigger] old(self).items@[k],
                    old(self).history.entries@,
                ),
            final(self).concurrent_limit == old(self).concurrent_limit,
            final(self).stop_on_error == old(self).stop_on_error,
            final(self).history == old(self).history,
            final(self).config == old(self).config,
    {
        let n = self.items.len();
        let mut k: usize = 0;
        while k < n
            invariant
                n == self.items@.len(),
                k <= n,
                self.concurrent_limit == old(self).concurrent_limit,
                self.stop_on_error == old(self).stop_on_error,
                self.history == old(self).history,
                self.config == old(self).config,
                old(self).wf(),
                self.downloading_count() <= old(self).downloading_count(),
                forall|k2: int|
                    0 <= k2 < k ==> self.items@[k2] == Self::spec_skip_one(
                        #[trigger] old(self).items@[k2],
                        old(self).history.entries@,
                    ),
                forall|k2: int| k <= k2 < n ==> self.items@[k2] == old(self).items@[k2],
            decreases n - k,
        {
            let ghost items_before = self.items@;
            if self.history.contains_url(self.items[k].url.as_str()) {
                self.items[k].status = DownloadStatus::Skipped;
                proof {
                    let p = |it: BatchDownloadItem| is_downloading(it);
                    lemma_count_pred_update(items_before, p, k as int, self.items@[k as int]);
                }
            }
            k = k + 1;
        }
    }

    /// How many jobs may still be admitted right now.
    pub fn can_dispatch(&self) -> (r: bool)
        requires
            self.wf(),
        ensures
            r == (self.downloading_count() < self.concurrent_limit),
    {
        let n = self.items.len();
        let mut count: usize = 0;
        let mut k: usize = 0;
        while k < n
            invariant
                n == self.items@.len(),
                k <= n,
                count as int == count_pred(
                    self.items@.subrange(0, k as int),
                    |it: BatchDownloadItem| is_downloading(it),
                ),
                count <= k,
            decreases n - k,
        {
            proof {
                let p = |it: BatchDownloadItem| is_downloading(it);
                assert(self.items@.subrange(0, k + 1).drop_last() =~= self.items@.subrange(
                    0,
                    k as int,
                ));
                assert(self.items@.subrange(0, k + 1).last() == self.items@[k as int]);
                lemma_count_pred_bounds(self.items@.subrange(0, k as int), p);
            }
            if matches!(self.items[k].status, DownloadStatus::Downloading) {
                count = count + 1;
            }
            k = k + 1;
        }
        proof {
            assert(self.items@.subrange(0, n as int) =~= self.items@);
        }
        count < self.concurrent_limit
    }

    /// Admits the first pending job when the concurrency ceiling
    /// allows one more, marking it `Downloading` and handing its index
    /// and URL out; a job that is `Skipped` (or in any other
    /// non-pending state) is never admitted.
    pub fn try_begin_next(&mut self) -> (r: Option<(usize, String)>)
        requires
            old(self).wf(),
        ensures
            final(self).wf(),
            final(self).concurrent_limit == old(self).concurrent_limit,
            final(self).stop_on_error == old(self).stop_on_error,
            final(self).history == old(self).history,
            final(self).config == old(self).config,
            match r {
                Option::Some((idx, url)) => {
                    &&& old(self).downloading_count() < old(self).concurrent_limit
                    &&& 0 <= idx < old(self).items@.len()
                    &&& old(self).items@[idx as int].status is Pending
                    &&& url@ == old(self).items@[idx as int].url@
                    &&& final(self).items@ == old(self).items@.update(
                        idx as int,
                        BatchDownloadItem {
                            status: DownloadStatus::Downloading,
                            ..old(self).items@[idx as int]
                        },
                    )
                    &&& final(self).downloading_count() == old(self).downloading_count() + 1
                    &&& forall|k: int|
                        0 <= k < idx ==> !(#[trigger] old(self).items@[k].status is Pending)
                },
                Option::None => {
                    &&& *final(self) == *old(self)
                    &&& (old(self).downloading_count() == old(self).concurrent_limit || forall|
                        k: int,
                    |
                        0 <= k < old(self).items@.len() ==> !(#[trigger] old(
                            self,
                        ).items@[k].status is Pending))
                },
            },
    {
        if !self.can_dispatch() {
            return None;
        }
        let n = self.items.len();
        let mut k: usize = 0;
        while k < n
            invariant
                n == self.items@.len(),
                k <= n,
                *self == *old(self),
                old(self).wf(),
                old(self).downloading_count() < old(self).concurrent_limit,
                forall|k2: int| 0 <= k2 < k ==> !(#[trigger] self.items@[k2].status is Pending),
            decreases n - k,
        {
            if matches!(self.items[k].status, DownloadStatus::Pending) {
                let ghost items_before = self.items@;
                let url = self.items[k].url.clone();
                self.items[k].status = DownloadStatus::Downloading;
                proof {
                    let p = |it: BatchDownloadItem| is_downloading(it);
                    assert(self.items@ =~= items_before.update(
                        k as int,
                        BatchDownloadItem { status: DownloadStatus::Downloading, ..items_before[k as int] },
                    ));
                    lemma_count_pred_update(items_before, p, k as int, self.items@[k as int]);
                }
                return Some((k, url));
            }
            k = k + 1;
        }
        None
    }

    /// Records a finished job: `Downloading` becomes `Complete`, with
    /// the artifact's path and size, the display title, and full
    /// progress.
    pub fn complete_job(&mut self, index: usize, output_path: String, file_size: u64, title: String)
        requires
            old(self).wf(),
            index < old(self).items@.len(),
            old(self).items@[index as int].status is Downloading,
        ensures
            final(self).wf(),
            final(self).items@ == old(self).items@.update(
                index as int,
                BatchDownloadItem {
                    status: DownloadStatus::Complete,
                    title: Some(title),
                    output_path: Some(output_path),
                    progress_hundredths: 10000,
                    file_size,
                    ..old(self).items@[index as int]
                },
            ),
            final(self).downloading_count() == old(self).downloading_count() - 1,
            final(self).concurrent_limit == old(self).concurrent_limit,
            final(self).stop_on_error == old(self).stop_on_error,
            final(self).history == old(self).history,
            final(self).config == old(self).config,
    {
        let ghost items_before = self.items@;
        self.items[index].status = DownloadStatus::Complete;
        self.items[index].title = Some(title);
        self.items[index].output_path = Some(output_path);
        self.items[index].progress_hundredths = 10000;
        self.items[index].file_size = file_size;
        proof {
            let p = |it: BatchDownloadItem| is_downloading(it);
            assert(self.items@ =~= items_before.update(
                index as int,
                self.items@[index as int],
            ));
            lemma_count_pred_update(items_before, p, index as int, self.items@[index as int]);
            lemma_count_pred_bounds(self.items@, p);
        }
    }

    /// Records a failed job: `Downloading` becomes `Failed` with the
    /// reason. Returns whether the run should stop admitting work.
    pub fn fail_job(&mut self, index: usize, reason: String) -> (stop: bool)
        requires
            old(self).wf(),
            index < old(self).items@.len(),
            old(self).items@[index as int].status is Downloading,
        ensures
            final(self).wf(),
            final(self).items@ == old(self).items@.update(
                index as int,
                BatchDownloadItem {
                    status: DownloadStatus::Failed(reason),
                    ..old(self).items@[index as int]
                },
            ),
            final(self).downloading_count() == old(self).downloading_count() - 1,
            stop == old(self).stop_on_error,
            final(self).concurrent_limit == old(self).concurrent_limit,
            final(self).stop_on_error == old(self).stop_on_error,
            final(self).history == old(self).history,
            final(self).config == old(self).config,
    {
        let ghost items_before = self.items@;
        self.items[index].status = DownloadStatus::Failed(reason);
        proof {
            let p = |it: BatchDownloadItem| is_downloading(it);
            assert(self.items@ =~= items_before.update(
                index as int,
                self.items@[index as int],
            ));
            lemma_count_pred_update(items_before, p, index as int, self.items@[index as int]);
            lemma_count_pred_bounds(self.items@, p);
        }
        self.stop_on_error
    }

    /// Updates a running job's progress, in hundredths of a percent.
    pub fn update_progress(&mut self, index: usize, progress_hundredths: u64)
        requires
            old(self).wf(),
            index < old(self).items@.len(),
        ensures
            final(self).wf(),
            final(self).items@ == old(self).items@.update(
                index as int,
                BatchDownloadItem {
                    progress_hundredths,
                    ..old(self).items@[index as int]
                },
            ),
            final(self).concurrent_limit == old(self).concurrent_limit,
            final(self).stop_on_error == old(self).stop_on_error,
            final(self).history == old(self).history,
            final(self).config == old(self).config,
    {
        let ghost items_before = self.items@;
        self.items[index].progress_hundredths = progress_hundredths;
        proof {
            let p = |it: BatchDownloadItem| is_downloading(it);
            assert(self.items@ =~= items_before.update(
                index as int,
                self.items@[index as int],
            ));
            lemma_count_pred_update(items_before, p, index as int, self.items@[index as int]);
        }
    }

    /// Records a successful download in the history.
    pub fn record_history(&mut self, entry: HistoryEntry)
        ensures
            final(self).history.entries@ == old(self).history.entries@ + seq![entry],
            final(self).items@ == old(self).items@,
            final(self).concurrent_limit == old(self).concurrent_limit,
            final(self).stop_on_error == old(self).stop_on_error,
            final(self).config == old(self).config,
    {
        self.history.add_entry(entry);
    }

    /// The run statistics: a pure fold over the current statuses.
    pub fn stats(&self) -> (s: BatchDownloadStats)
        ensures
            s.total == self.items@.len(),
            s.successful as int == count_pred(self.items@, |it: BatchDownloadItem| is_complete(it)),
            s.failed as int == count_pred(self.items@, |it: BatchDownloadItem| is_failed(it)),
            s.skipped as int == count_pred(self.items@, |it: BatchDownloadItem| is_skipped(it)),
            s.successful + s.failed + s.skipped <= s.total,
    {
        proof {
            lemma_status_partition(self.items@);
            lemma_count_pred_bounds(self.items@, |it: BatchDownloadItem| is_pending(it));
            lemma_count_pred_bounds(self.items@, |it: BatchDownloadItem| is_downloading(it));
        }
        let n = self.items.len();
        let mut successful: usize = 0;
        let mut failed: usize = 0;
        let mut skipped: usize = 0;
        let mut k: usize = 0;
        while k < n
            invariant
                n == self.items@.len(),
                k <= n,
                successful as int == count_pred(
                    self.items@.subrange(0, k as int),
                    |it: BatchDownloadItem| is_complete(it),
                ),
                failed as int == count_pred(
                    self.items@.subrange(0, k as int),
                    |it: BatchDownloadItem| is_failed(it),
                ),
                skipped as int == count_pred(
                    self.items@.subrange(0, k as int),
                    |it: BatchDownloadItem| is_skipped(it),
                ),
                successful <= k && failed <= k && skipped <= k,
            decreases n - k,
        {
            proof {
                assert(self.items@.subrange(0, k + 1).drop_last() =~= self.items@.subrange(
                    0,
                    k as int,
                ));
                assert(self.items@.subrange(0, k + 1).last() == self.items@[k as int]);
                lemma_count_pred_bounds(
                    self.items@.subrange(0, k as int),
                    |it: BatchDownloadItem| is_complete(it),
                );
                lemma_count_pred_bounds(
                    self.items@.subrange(0, k as int),
                    |it: BatchDownloadItem| is_failed(it),
                );
                lemma_count_pred_bounds(
                    self.items@.subrange(0, k as int),
                    |it: BatchDownloadItem| is_skipped(it),
                );
            }
            match self.items[k].status {
                DownloadStatus::Complete => {
                    successful = successful + 1;
                },
                DownloadStatus::Failed(_) => {
                    failed = failed + 1;
                },
                DownloadStatus::Skipped => {
                    skipped = skipped + 1;
                },
                _ => {},
            }
            k = k + 1;
        }
        proof {
            assert(self.items@.subrange(0, n as int) =~= self.items@);
        }
        BatchDownloadStats { total: n, successful, failed, skipped }
    }

    /// A snapshot of the run so far.
    pub fn get_progress(&self) -> (p: BatchProgress)
        ensures
            p.total == self.items@.len(),
            p.complete as int == count_pred(self.items@, |it: BatchDownloadItem| is_complete(it)),
            p.failed as int == count_pred(self.items@, |it: BatchDownloadItem| is_failed(it)),
            p.skipped as int == count_pred(self.items@, |it: BatchDownloadItem| is_skipped(it)),
            p.downloading as int == count_pred(
                self.items@,
                |it: BatchDownloadItem| is_downloading(it),
            ),
            p.complete + p.failed + p.skipped <= p.total,
    {
        let s = self.stats();
        let n = self.items.len();
        let mut downloading: usize = 0;
        let mut total_bytes: u64 = 0;
        let mut k: usize = 0;
        while k < n
            invariant
                n == self.items@.len(),
                k <= n,
                downloading as int == count_pred(
                    self.items@.subrange(0, k as int),
                    |it: BatchDownloadItem| is_downloading(it),
                ),
                downloading <= k,
            decreases n - k,
        {
            proof {
                assert(self.items@.subrange(0, k + 1).drop_last() =~= self.items@.subrange(
                    0,
                    k as int,
                ));
                assert(self.items@.subrange(0, k + 1).last() == self.items@[k as int]);
                lemma_count_pred_bounds(
                    self.items@.subrange(0, k as int),
                    |it: BatchDownloadItem| is_downloading(it),
                );
            }
            if matches!(self.items[k].status, DownloadStatus::Downloading) {
                downloading = downloading + 1;
            }
            let size = self.items[k].file_size;
            total_bytes = if total_bytes > u64::MAX - size {
                u64::MAX
            } else {
                total_bytes + size
            };
            k = k + 1;
        }
        proof {
            assert(self.items@.subrange(0, n as int) =~= self.items@);
        }
        BatchProgress {
            total: s.total,
            complete: s.successful,
            failed: s.failed,
            skipped: s.skipped,
            downloading,
            total_bytes,
        }
    }

    /// The items, copied out.
    pub fn get_items(&self) -> (r: Vec<BatchDownloadItem>)
        ensures
            r@ == self.items@,
    {
        let n = self.items.len();
        let mut out: Vec<BatchDownloadItem> = Vec::new();
        let mut k: usize = 0;
        while k < n
            invariant
                n == self.items@.len(),
                k <= n,
                out@ == self.items@.subrange(0, k as int),
            decreases n - k,
        {
            out.push(self.items[k].clone());
            proof {
                assert(out@ =~= self.items@.subrange(0, k + 1));
            }
            k = k + 1;
        }
        proof {
            assert(self.items@.subrange(0, n as int) =~= self.items@);
        }
        out
    }
}

// ---------------------------------------------------------------------------
// Laws of the orchestrator
// ---------------------------------------------------------------------------
/// Bounded concurrency: in a well-formed table — and every operation
/// of `BatchDownloader` both requires and re-establishes `wf()` — the
/// number of jobs in status `Downloading` never exceeds the ceiling,
/// which itself lies in `[1, 10]`.
pub proof fn lemma_downloading_bounded(b: BatchDownloader)
    requires
        b.wf(),
    ensures
        count_pred(b.items@, |it: BatchDownloadItem| is_downloading(it)) <= b.concurrent_limit,
        1 <= b.concurrent_limit <= 10,
{
}

/// Once every job has resolved — none pending, none downloading — the
/// statistics partition the total: successful + failed + skipped
/// jobs account for the whole table.
pub proof fn lemma_stats_partition(b: BatchDownloader)
    requires
        forall|k: int|
            0 <= k < b.items@.len() ==> !(#[trigger] b.items@[k].status is Pending)
                && !(b.items@[k].status is Downloading),
    ensures
        count_pred(b.items@, |it: BatchDownloadItem| is_complete(it)) + count_pred(
            b.items@,
            |it: BatchDownloadItem| is_failed(it),
        ) + count_pred(b.items@, |it: BatchDownloadItem| is_skipped(it)) == b.items@.len(),
{
    lemma_status_partition(b.items@);
    lemma_count_pred_zero(b.items@, |it: BatchDownloadItem| is_pending(it));
    lemma_count_pred_zero(b.items@, |it: BatchDownloadItem| is_downloading(it));
}

/// Marking duplicates is idempotent: a job skipped by the first pass
/// keeps its URL, so the second pass maps it to the same job, and the
/// set of `Skipped` jobs does not change.
pub proof fn lemma_skip_duplicates_idempotent(it: BatchDownloadItem, history: Seq<HistoryEntry>)
    ensures
        BatchDownloader::spec_skip_one(BatchDownloader::spec_skip_one(it, history), history)
            == BatchDownloader::spec_skip_one(it, history),
{
}

/// Batch input of nothing but blank lines and comments yields no
/// candidate URLs, so loading it fails with the configuration error.
pub proof fn lemma_blank_input_loads_nothing(lines: Seq<Seq<char>>)
    requires
        forall|k: int|
            0 <= k < lines.len() ==> (spec_trim(#[trigger] lines[k]).len() == 0 || spec_trim(
                lines[k],
            )[0] == '#'),
    ensures
        spec_batch_urls(lines).len() == 0,
    decreases lines.len(),
{
    if lines.len() > 0 {
        assert(forall|k: int|
            0 <= k < lines.len() - 1 ==> #[trigger] lines.drop_last()[k] == lines[k]);
        lemma_blank_input_loads_nothing(lines.drop_last());
        assert(lines.last() == lines[lines.len() - 1]);
    }
}

} // verus!
