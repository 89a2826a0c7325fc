//! The per-item download decision.
//!
//! One download handles one feed item: an item without a title or without
//! an enclosure is malformed and gets no fetch; an item whose title the
//! filter rejects is skipped with no I/O; any other item is fetched, and
//! its payload is written under a filename derived from the title. The
//! decision lives here; the caller carries out the fetch and the writing.

use crate::config::spec_is_allowed;
use crate::config::AppConfig;
use crate::feed::FeedItem;
use crate::feed::FeedItemModel;
use crate::fetch::FetchError;
use crate::filename::filename_from_title;
use crate::filename::spec_filename;
use vstd::prelude::*;
use vstd::string::StringExecFns;

verus! {

/// Where one item's payload goes: the URL to fetch and the filename to
/// write under.
#[derive(Debug)]
pub struct DownloadTarget {
    pub url: String,
    pub filename: String,
}

/// The model of a download target.
pub struct DownloadTargetModel {
    pub url: Seq<char>,
    pub filename: Seq<char>,
}

impl View for DownloadTarget {
    type V = DownloadTargetModel;

    open spec fn view(&self) -> DownloadTargetModel {
        DownloadTargetModel { url: self.url@, filename: self.filename@ }
    }
}

/// What is to be done with one feed item.
#[derive(Debug)]
pub enum DownloadPlan {
    /// The item lacks a title or an enclosure: fail it without a fetch.
    Malformed,
    /// The filter rejects the title: a no-op success, with no I/O.
    Skip { title: String },
    /// Fetch the target's URL and write the payload under its filename.
    Fetch { title: String, target: DownloadTarget },
}

/// The model of a download plan.
pub enum DownloadPlanModel {
    Malformed,
    Skip { title: Seq<char> },
    Fetch { title: Seq<char>, target: DownloadTargetModel },
}

impl View for DownloadPlan {
    type V = DownloadPlanModel;

    open spec fn view(&self) -> DownloadPlanModel {
        match self {
            DownloadPlan::Malformed => DownloadPlanModel::Malformed,
            DownloadPlan::Skip { title } => DownloadPlanModel::Skip { title: title@ },
            DownloadPlan::Fetch { title, target } => (
            DownloadPlanModel::Fetch { title: title@, target: target@ }),
        }
    }
}

/// Why one item's download failed.
#[derive(Debug)]
pub enum DownloadError {
    /// The item lacked a title or an enclosure; no fetch was attempted.
    MalformedItem { title: Option<String>, url: Option<String> },
    /// The fetch failed before any payload arrived.
    Fetch(FetchError),
    /// The output directory could not be created.
    DirectoryCreateError { cause: String },
    /// The output file could not be opened.
    FileOpenError { cause: String },
    /// Reading the payload or writing the file failed mid-transfer; a
    /// partially written file is left in place.
    IoError { cause: String },
}

/// The plan for one item: malformed without both a title and an enclosure;
/// skipped when the filter rejects the title; otherwise fetched, at the
/// enclosure URL, under the filename derived from the title. A fetch is
/// planned only for an item that passed the filter — the filter is never
/// bypassed.
pub open spec fn spec_plan(
    item: FeedItemModel,
    include_pat: Option<Seq<char>>,
    exclude_pat: Option<Seq<char>>,
) -> DownloadPlanModel {
    match (item.title, item.enclosure_url) {
        (Some(title), Some(url)) => if spec_is_allowed(include_pat, exclude_pat, title) {
            DownloadPlanModel::Fetch {
                title,
                target: DownloadTargetModel { url, filename: spec_filename(title) },
            }
        } else {
            DownloadPlanModel::Skip { title }
        },
        _ => DownloadPlanModel::Malformed,
    }
}

/// Decides what to do with one feed item, exactly as [`spec_plan`] says,
/// against the configuration's filter patterns.
pub fn plan_download(item: &FeedItem, config: &AppConfig) -> (p: DownloadPlan)
    ensures
        p@ == spec_plan(item@, config.include_pattern(), config.exclude_pattern()),
{
    match (&item.title, &item.enclosure_url) {
        (Some(title), Some(url)) => {
            if config.is_pattern_valid(title.as_str()) {
                let filename = filename_from_title(title.as_str());
                DownloadPlan::Fetch {
                    title: title.clone(),
                    target: DownloadTarget { url: url.clone(), filename },
                }
            } else {
                DownloadPlan::Skip { title: title.clone() }
            }
        },
        _ => DownloadPlan::Malformed,
    }
}

/// Law: the filter is never bypassed, and no malformed item is fetched. A
/// plan fetches exactly when the item carries both a title and an
/// enclosure and the title passes the filter; what it fetches is the
/// item's own enclosure URL, under the filename derived from its title.
pub proof fn lemma_plan_fetches_only_allowed(
    item: FeedItemModel,
    include_pat: Option<Seq<char>>,
    exclude_pat: Option<Seq<char>>,
)
    ensures
        spec_plan(item, include_pat, exclude_pat) matches DownloadPlanModel::Fetch {
            title,
            target,
        } ==> {
            &&& item.title == Some(title)
            &&& item.enclosure_url == Some(target.url)
            &&& spec_is_allowed(include_pat, exclude_pat, title)
            &&& target.filename == spec_filename(title)
        },
        spec_plan(item, include_pat, exclude_pat) is Malformed <==> (item.title is None
            || item.enclosure_url is None),
        spec_plan(item, include_pat, exclude_pat) matches DownloadPlanModel::Skip { title } ==> {
            &&& item.title == Some(title)
            &&& !spec_is_allowed(include_pat, exclude_pat, title)
        },
{
}

/// The path a download is written to: the output directory, a separator,
/// and the derived filename.
pub fn sink_path(directory: &str, filename: &str) -> (r: String)
    ensures
        r@ == directory@ + "/"@ + filename@,
{
    let mut out = directory.to_owned();
    out.append("/");
    out.append(filename);
    out
}

} // verus!
