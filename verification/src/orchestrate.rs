//! The run over a whole feed.
//!
//! The orchestrator hands every item of the parsed feed to its own
//! download, lets the downloads run independently, and collects one
//! outcome per item: a failure neither stops nor hides a sibling. The
//! planning of the downloads and the accounting of the outcomes live
//! here; the caller runs the downloads and gathers what they return.

use crate::config::AppConfig;
use crate::feed::FeedItem;
use crate::worker::plan_download;
use crate::worker::spec_plan;
use crate::worker::DownloadError;
use crate::worker::DownloadPlan;
use vstd::prelude::*;

verus! {

/// How one item's download ended.
#[derive(Debug)]
pub enum ItemOutcome {
    /// The payload was fetched and written in full.
    Downloaded { title: String, filename: String },
    /// The filter rejected the title; nothing was fetched or written.
    Skipped { title: String },
    /// The download failed; no other item is affected.
    Failed { title: Option<String>, url: Option<String>, error: DownloadError },
}

/// The aggregate of one run: how many items were downloaded, skipped, and
/// failed.
#[derive(Debug, PartialEq, Eq, Structural)]
pub struct RunResult {
    pub downloaded: usize,
    pub skipped: usize,
    pub failed: usize,
}

/// Plans the whole run: one download plan per feed item, in feed order,
/// each decided by the filter exactly as [`spec_plan`] says. No item is
/// dropped and none is added.
pub fn plan_all(items: &Vec<FeedItem>, config: &AppConfig) -> (plans: Vec<DownloadPlan>)
    ensures
        plans@.len() == items@.len(),
        forall|i: int|
            0 <= i < items@.len() ==> #[trigger] plans@[i]@ == spec_plan(
                items@[i]@,
                config.include_pattern(),
                config.exclude_pattern(),
            ),
{
    let mut plans: Vec<DownloadPlan> = Vec::new();
    let mut i: usize = 0;
    while i < items.len()
        invariant
            i <= items@.len(),
            plans@.len() == i,
            forall|j: int|
                0 <= j < i ==> #[trigger] plans@[j]@ == spec_plan(
                    items@[j]@,
                    config.include_pattern(),
                    config.exclude_pattern(),
                ),
        decreases items@.len() - i,
    {
        let plan = plan_download(&items[i], config);
        plans.push(plan);
        i = i + 1;
    }
    plans
}

/// How many of a run's outcomes are full downloads.
pub open spec fn count_downloaded(s: Seq<ItemOutcome>) -> nat
    decreases s.len(),
{
    if s.len() == 0 {
        0
    } else {
        count_downloaded(s.drop_last()) + (if s.last() is Downloaded {
            1nat
        } else {
            0nat
        })
    }
}

/// How many of a run's outcomes are filtered-out skips.
pub open spec fn count_skipped(s: Seq<ItemOutcome>) -> nat
    decreases s.len(),
{
    if s.len() == 0 {
        0
    } else {
        count_skipped(s.drop_last()) + (if s.last() is Skipped {
            1nat
        } else {
            0nat
        })
    }
}

/// How many of a run's outcomes are failures.
pub open spec fn count_failed(s: Seq<ItemOutcome>) -> nat
    decreases s.len(),
{
    if s.len() == 0 {
        0
    } else {
        count_failed(s.drop_last()) + (if s.last() is Failed {
            1nat
        } else {
            0nat
        })
    }
}

/// Law: a run's summary accounts for every outcome. Each outcome is a
/// download, a skip, or a failure, so the three counts cover the whole
/// run: however many items failed, all of them are reported.
pub proof fn lemma_counts_cover_all_outcomes(s: Seq<ItemOutcome>)
    ensures
        count_downloaded(s) + count_skipped(s) + count_failed(s) == s.len(),
    decreases s.len(),
{
    if s.len() > 0 {
        lemma_counts_cover_all_outcomes(s.drop_last());
    }
}

/// Sums a run's outcomes into its aggregate: the number of downloads,
/// skips, and failures, which together account for every outcome.
pub fn summarize(outcomes: &Vec<ItemOutcome>) -> (r: RunResult)
    ensures
        r.downloaded == count_downloaded(outcomes@),
        r.skipped == count_skipped(outcomes@),
        r.failed == count_failed(outcomes@),
        r.downloaded + r.skipped + r.failed == outcomes@.len(),
{
    let mut downloaded: usize = 0;
    let mut skipped: usize = 0;
    let mut failed: usize = 0;
    let mut i: usize = 0;
    while i < outcomes.len()
        invariant
            i <= outcomes@.len(),
            downloaded == count_downloaded(outcomes@.take(i as int)),
            skipped == count_skipped(outcomes@.take(i as int)),
            failed == count_failed(outcomes@.take(i as int)),
            downloaded + skipped + failed == i,
        decreases outcomes@.len() - i,
    {
        proof {
            lemma_counts_cover_all_outcomes(outcomes@.take(i as int));
            assert(outcomes@.take(i as int + 1).drop_last() =~= outcomes@.take(i as int));
            assert(outcomes@.take(i as int + 1).last() == outcomes@[i as int]);
        }
        match &outcomes[i] {
            ItemOutcome::Downloaded { .. } => {
                downloaded = downloaded + 1;
            },
            ItemOutcome::Skipped { .. } => {
                skipped = skipped + 1;
            },
            ItemOutcome::Failed { .. } => {
                failed = failed + 1;
            },
        }
        i = i + 1;
    }
    proof {
        assert(outcomes@.take(outcomes@.len() as int) =~= outcomes@);
    }
    RunResult { downloaded, skipped, failed }
}

} // verus!
