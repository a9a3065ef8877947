//! The orchestrator: which file a run hands to the wallpaper setter.
//!
//! A run is a short decision tree. The chosen cache entry is used at once
//! where it is preferred. Otherwise the chosen URL is resolved: its image is
//! used from the cache where it is there, downloaded where it is not, and
//! where the download fails the chosen cache entry serves as fallback. The
//! caller probes the disk, downloads and sets the wallpaper; the functions
//! here decide what comes next.

use vstd::prelude::*;
use crate::cache::{completed_entries, spec_is_download_marker, CachePath};
use crate::hash::{get_url_hash, spec_url_hash};
use crate::select::{picked_from, select, Selection, SelectionView};
use crate::urls::views;

verus! {

/// A URL on its way to becoming the wallpaper.
#[derive(Debug, PartialEq, Eq)]
pub struct Pending {
    /// The URL to download from.
    pub url: String,
    /// The cache file that holds, or will hold, the image of the URL.
    pub target: CachePath,
    /// The cache file to use where the download fails, if there is one.
    pub fallback: Option<CachePath>,
}

/// The contents of a `Pending`.
pub struct PendingView {
    pub url: Seq<char>,
    pub target: (Seq<char>, Seq<char>),
    pub fallback: Option<(Seq<char>, Seq<char>)>,
}

impl View for Pending {
    type V = PendingView;

    open spec fn view(&self) -> PendingView {
        PendingView {
            url: self.url@,
            target: self.target@,
            fallback: match self.fallback {
                Some(path) => Some(path@),
                None => None,
            },
        }
    }
}

/// What the caller has to do next.
#[derive(Debug, PartialEq, Eq)]
pub enum Step {
    /// Hand this file to the wallpaper setter. The run ends with it.
    Apply(CachePath),
    /// Find out whether the target exists on disk, then call `after_probe`.
    Probe(Pending),
    /// Download the URL to the target, then call `after_fetch`.
    Fetch(Pending),
    /// Nothing is left to do. The run ends without a wallpaper change.
    Done,
}

/// The contents of a `Step`.
pub enum StepView {
    Apply((Seq<char>, Seq<char>)),
    Probe(PendingView),
    Fetch(PendingView),
    Done,
}

impl View for Step {
    type V = StepView;

    open spec fn view(&self) -> StepView {
        match self {
            Step::Apply(path) => StepView::Apply(path@),
            Step::Probe(pending) => StepView::Probe(pending@),
            Step::Fetch(pending) => StepView::Fetch(pending@),
            Step::Done => StepView::Done,
        }
    }
}

/// The first step of a run. A preferred cache entry is set at once. Else
/// the chosen URL, where there is one, is to be probed under its cache key,
/// with the chosen cache entry as fallback. With neither, the run is over.
pub open spec fn spec_first_step(selection: SelectionView, cache_dir: Seq<char>) -> StepView {
    if selection.prefer_local && selection.local_choice is Some {
        StepView::Apply((cache_dir, selection.local_choice->Some_0))
    } else if selection.remote_choice is Some {
        StepView::Probe(
            PendingView {
                url: selection.remote_choice->Some_0,
                target: (cache_dir, spec_url_hash(selection.remote_choice->Some_0)),
                fallback: match selection.local_choice {
                    Some(name) => Some((cache_dir, name)),
                    None => None,
                },
            },
        )
    } else {
        StepView::Done
    }
}

/// The step after the probe: a target that exists is set without a
/// download, one that does not is downloaded.
pub open spec fn spec_after_probe(pending: PendingView, cached: bool) -> StepView {
    if cached {
        StepView::Apply(pending.target)
    } else {
        StepView::Fetch(pending)
    }
}

/// The step after the download: the target where it succeeded, else the
/// fallback, else nothing.
pub open spec fn spec_after_fetch(pending: PendingView, fetched: bool) -> StepView {
    if fetched {
        StepView::Apply(pending.target)
    } else {
        match pending.fallback {
            Some(path) => StepView::Apply(path),
            None => StepView::Done,
        }
    }
}

/// The file that a whole run hands to the wallpaper setter, if any, where
/// `cached` is what a probe of the target gives and `fetched` is whether a
/// download succeeds.
pub open spec fn spec_run(
    selection: SelectionView,
    cache_dir: Seq<char>,
    cached: bool,
    fetched: bool,
) -> Option<(Seq<char>, Seq<char>)> {
    match spec_first_step(selection, cache_dir) {
        StepView::Apply(path) => Some(path),
        StepView::Probe(pending) => match spec_after_probe(pending, cached) {
            StepView::Apply(path) => Some(path),
            StepView::Fetch(pending) => match spec_after_fetch(pending, fetched) {
                StepView::Apply(path) => Some(path),
                _ => None,
            },
            _ => None,
        },
        _ => None,
    }
}

/// Whether a run downloads anything.
pub open spec fn spec_run_fetches(
    selection: SelectionView,
    cache_dir: Seq<char>,
    cached: bool,
) -> bool {
    spec_first_step(selection, cache_dir) matches StepView::Probe(pending) && spec_after_probe(
        pending,
        cached,
    ) is Fetch
}

/// The first step of a run with the candidates of `selection` and the cache
/// in `cache_dir`.
pub fn first_step(selection: Selection, cache_dir: &str) -> (step: Step)
    ensures
        step@ == spec_first_step(selection@, cache_dir@),
{
    let Selection { local_choice, remote_choice, prefer_local } = selection;
    match (local_choice, remote_choice) {
        (Some(name), remote_choice) if prefer_local => Step::Apply(
            CachePath::new(cache_dir, name.as_str()),
        ),
        (local_choice, Some(url)) => {
            let key = get_url_hash(url.as_str());
            let target = CachePath::new(cache_dir, key.as_str());
            let fallback = match local_choice {
                Some(name) => Some(CachePath::new(cache_dir, name.as_str())),
                None => None,
            };
            Step::Probe(Pending { url, target, fallback })
        },
        _ => Step::Done,
    }
}

/// The candidates that a run may choose from: as cache entry any of
/// `cache_entries` that is no temporary download file, as URL any of `urls`.
pub open spec fn candidates_of(
    selection: SelectionView,
    cache_entries: Seq<String>,
    urls: Seq<String>,
) -> bool {
    &&& picked_from(
        selection.local_choice,
        views(cache_entries.filter(|name: String| !spec_is_download_marker(name@))),
    )
    &&& picked_from(selection.remote_choice, views(urls))
}

/// Starts a run: draws the candidates and gives the first step.
///
/// The cache entry is drawn from those of `cache_entries` that are no
/// temporary download files, the URL from `urls`. Which ones are drawn, and
/// whether the cache entry is preferred, is left to chance: the step is the
/// first step of some selection among these candidates.
pub fn begin_run(cache_entries: &Vec<String>, urls: &Vec<String>, cache_dir: &str) -> (step: Step)
    ensures
        exists|selection: SelectionView|
            candidates_of(selection, cache_entries@, urls@) && step@ == #[trigger] spec_first_step(
                selection,
                cache_dir@,
            ),
{
    let finished = completed_entries(cache_entries);
    let selection = select(&finished, urls);
    let ghost drawn = selection@;
    let step = first_step(selection, cache_dir);
    assert(candidates_of(drawn, cache_entries@, urls@) && step@ == spec_first_step(
        drawn,
        cache_dir@,
    ));
    step
}

/// The step that follows a probe of `pending.target`, where `cached` says
/// whether the file is on disk.
pub fn after_probe(pending: Pending, cached: bool) -> (step: Step)
    ensures
        step@ == spec_after_probe(pending@, cached),
{
    if cached {
        Step::Apply(pending.target)
    } else {
        Step::Fetch(pending)
    }
}

/// The step that follows a download to `pending.target`, where `fetched`
/// says whether it succeeded. A failed download is not an error of the run:
/// the fallback is used, and without one the run ends silently.
pub fn after_fetch(pending: Pending, fetched: bool) -> (step: Step)
    ensures
        step@ == spec_after_fetch(pending@, fetched),
{
    if fetched {
        Step::Apply(pending.target)
    } else {
        match pending.fallback {
            Some(path) => Step::Apply(path),
            None => Step::Done,
        }
    }
}

/// The decision table of a run. A preferred cache entry wins. Else the
/// image of the chosen URL is used where it is cached or was downloaded,
/// the chosen cache entry where the download failed, and nothing where
/// there is no such entry. Without a URL and without a preferred entry
/// nothing is set.
pub open spec fn spec_table(
    selection: SelectionView,
    cache_dir: Seq<char>,
    cached: bool,
    fetched: bool,
) -> Option<(Seq<char>, Seq<char>)> {
    if selection.prefer_local && selection.local_choice is Some {
        Some((cache_dir, selection.local_choice->Some_0))
    } else if selection.remote_choice is Some {
        if cached || fetched {
            Some((cache_dir, spec_url_hash(selection.remote_choice->Some_0)))
        } else if selection.local_choice is Some {
            Some((cache_dir, selection.local_choice->Some_0))
        } else {
            None
        }
    } else {
        None
    }
}

/// Running the steps one after the other gives what the decision table
/// says, and a download is attempted only for a chosen URL that is not
/// preferred against and whose image is not in the cache.
pub proof fn lemma_run_table(
    selection: SelectionView,
    cache_dir: Seq<char>,
    cached: bool,
    fetched: bool,
)
    ensures
        spec_run(selection, cache_dir, cached, fetched) == spec_table(
            selection,
            cache_dir,
            cached,
            fetched,
        ),
        spec_run_fetches(selection, cache_dir, cached) <==> !cached && selection.remote_choice
            is Some && !(selection.prefer_local && selection.local_choice is Some),
{
}

/// A URL whose image is already in the cache is never downloaded again,
/// however often it is resolved: the probe leads straight to the cached
/// file, whatever a download would have given.
pub proof fn lemma_cache_hit_never_fetches(
    pending: PendingView,
    selection: SelectionView,
    cache_dir: Seq<char>,
    fetched: bool,
)
    ensures
        spec_after_probe(pending, true) == StepView::Apply(pending.target),
        !spec_run_fetches(selection, cache_dir, true),
        spec_first_step(selection, cache_dir) is Probe ==> spec_run(
            selection,
            cache_dir,
            true,
            fetched,
        ) == Some((cache_dir, spec_url_hash(selection.remote_choice->Some_0))),
{
}

/// Whatever a run downloads, it downloads to the file of the cache
/// directory that is named by the cache key of the URL. So a download that
/// succeeds adds to the cache exactly the entry that later runs look for.
pub proof fn lemma_download_goes_to_the_key(
    selection: SelectionView,
    cache_dir: Seq<char>,
    cached: bool,
)
    ensures
        spec_first_step(selection, cache_dir) matches StepView::Probe(pending) ==> {
            &&& pending.target == (cache_dir, spec_url_hash(pending.url))
            &&& spec_after_probe(pending, cached) matches StepView::Fetch(download)
                ==> download == pending
        },
{
}

} // verus!
