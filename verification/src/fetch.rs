//! The fetcher: one attempt to download a URL into the cache.
//!
//! A download never writes to its destination. The bytes go to a temporary
//! file beside it, and only a transfer that ended well is followed by the
//! rename that makes the file appear under its final name. The caller
//! creates the file, runs the transfer and renames; the functions here say
//! which of these comes next and how the attempt ends.

use vstd::prelude::*;
use crate::cache::{has_download_extension, lemma_temp_name_differs, spec_temp_name, CachePath};
use crate::error::IoError;

verus! {

/// The files and the source of one download.
#[derive(Debug, PartialEq, Eq)]
pub struct Download {
    /// The URL to download from.
    pub url: String,
    /// The file that the download is to appear as.
    pub destination: CachePath,
    /// The file that receives the bytes while the transfer runs.
    pub temp: CachePath,
}

impl Download {
    /// The temporary file lies beside the destination and carries its name
    /// with the extension replaced by `download`.
    pub open spec fn wf(&self) -> bool {
        self.temp@ == (self.destination.dir@, spec_temp_name(self.destination.name@))
    }
}

/// What the caller has to do next for a download.
#[derive(Debug, PartialEq, Eq)]
pub enum FetchStep {
    /// Create the temporary file, empty.
    CreateTemp(Download),
    /// Request the URL and append every byte received to the temporary file.
    Transfer(Download),
    /// Rename the temporary file to the destination.
    Rename(Download),
    /// The attempt is over, with this result.
    Finished(Result<(), IoError>),
}

/// How the caller fared with a step.
#[derive(Debug, PartialEq, Eq)]
pub enum FetchEvent {
    /// The step was carried out.
    Succeeded,
    /// The step failed; the text says why.
    Failed(String),
    /// The transfer was given up because the temporary file did not take
    /// the bytes; the text says why.
    SinkFailed(String),
}

impl FetchStep {
    /// The file that carrying out this step creates or writes.
    pub open spec fn writes(self) -> Option<(Seq<char>, Seq<char>)> {
        match self {
            FetchStep::CreateTemp(download) => Some(download.temp@),
            FetchStep::Transfer(download) => Some(download.temp@),
            FetchStep::Rename(download) => Some(download.destination@),
            FetchStep::Finished(_) => None,
        }
    }
}

/// The step that follows `step` once the caller reports `event`. Success
/// leads from creating to transferring to renaming to the end. Any failure
/// ends the attempt at once, with the error of the step that failed; there
/// is no second try. A finished attempt stays finished.
pub open spec fn spec_advance(step: FetchStep, event: FetchEvent) -> FetchStep {
    match step {
        FetchStep::CreateTemp(download) => match event {
            FetchEvent::Succeeded => FetchStep::Transfer(download),
            FetchEvent::Failed(why) => FetchStep::Finished(Err(IoError::TempFile(why))),
            FetchEvent::SinkFailed(why) => FetchStep::Finished(Err(IoError::TempFile(why))),
        },
        FetchStep::Transfer(download) => match event {
            FetchEvent::Succeeded => FetchStep::Rename(download),
            FetchEvent::Failed(why) => FetchStep::Finished(Err(IoError::Transfer(why))),
            FetchEvent::SinkFailed(why) => FetchStep::Finished(Err(IoError::TempFile(why))),
        },
        FetchStep::Rename(download) => match event {
            FetchEvent::Succeeded => FetchStep::Finished(Ok(())),
            FetchEvent::Failed(why) => FetchStep::Finished(Err(IoError::Rename(why))),
            FetchEvent::SinkFailed(why) => FetchStep::Finished(Err(IoError::Rename(why))),
        },
        FetchStep::Finished(result) => FetchStep::Finished(result),
    }
}

/// The steps of an attempt that starts with `start` and meets `events` one
/// after the other: the start, then one step for each event.
pub open spec fn spec_trace(start: FetchStep, events: Seq<FetchEvent>) -> Seq<FetchStep>
    decreases events.len(),
{
    if events.len() == 0 {
        seq![start]
    } else {
        let before = spec_trace(start, events.drop_last());
        before.push(spec_advance(before.last(), events.last()))
    }
}

/// The first step of a download of `url` to `destination`: creating the
/// temporary file, which lies beside the destination and has its name with
/// the extension replaced by `download`.
pub fn begin_fetch(url: &str, destination: &CachePath) -> (start: FetchStep)
    ensures
        start matches FetchStep::CreateTemp(download) && download.url@ == url@
            && download.destination@ == destination@ && download.wf(),
{
    FetchStep::CreateTemp(
        Download {
            url: url.to_string(),
            destination: destination.duplicate(),
            temp: destination.temp(),
        },
    )
}

/// The step that follows `step` once the caller reports `event`.
pub fn advance_fetch(step: FetchStep, event: FetchEvent) -> (next: FetchStep)
    ensures
        next == spec_advance(step, event),
{
    match step {
        FetchStep::CreateTemp(download) => match event {
            FetchEvent::Succeeded => FetchStep::Transfer(download),
            FetchEvent::Failed(why) => FetchStep::Finished(Err(IoError::TempFile(why))),
            FetchEvent::SinkFailed(why) => FetchStep::Finished(Err(IoError::TempFile(why))),
        },
        FetchStep::Transfer(download) => match event {
            FetchEvent::Succeeded => FetchStep::Rename(download),
            FetchEvent::Failed(why) => FetchStep::Finished(Err(IoError::Transfer(why))),
            FetchEvent::SinkFailed(why) => FetchStep::Finished(Err(IoError::TempFile(why))),
        },
        FetchStep::Rename(download) => match event {
            FetchEvent::Succeeded => FetchStep::Finished(Ok(())),
            FetchEvent::Failed(why) => FetchStep::Finished(Err(IoError::Rename(why))),
            FetchEvent::SinkFailed(why) => FetchStep::Finished(Err(IoError::Rename(why))),
        },
        FetchStep::Finished(result) => FetchStep::Finished(result),
    }
}

/// The shape of every attempt: it creates, then transfers, then renames,
/// each at most once and each only after the step before it succeeded.
pub proof fn lemma_trace_shape(download: Download, events: Seq<FetchEvent>, i: int)
    requires
        0 <= i <= events.len(),
    ensures
        spec_trace(FetchStep::CreateTemp(download), events).len() == events.len() + 1,
        ({
            let step = spec_trace(FetchStep::CreateTemp(download), events)[i];
            &&& step is CreateTemp <==> i == 0
            &&& i == 0 ==> step == FetchStep::CreateTemp(download)
            &&& step is Transfer ==> i == 1 && step == FetchStep::Transfer(download)
                && events[0] is Succeeded
            &&& step is Rename ==> i == 2 && step == FetchStep::Rename(download)
                && events[0] is Succeeded && events[1] is Succeeded
            &&& i > 0 ==> step == spec_advance(
                spec_trace(FetchStep::CreateTemp(download), events)[i - 1],
                events[i - 1],
            )
        }),
    decreases events.len(),
{
    let start = FetchStep::CreateTemp(download);
    if events.len() > 0 {
        let shorter = events.drop_last();
        lemma_trace_shape(download, shorter, 0);
        if i < events.len() {
            lemma_trace_shape(download, shorter, i);
            if i > 0 {
                lemma_trace_shape(download, shorter, i - 1);
            }
        } else {
            lemma_trace_shape(download, shorter, i - 1);
        }
    }
}

/// No reader of the cache ever sees a partial file under the final name.
/// In every attempt to download to a destination whose extension is not
/// `download` itself, creating and transferring write to the temporary
/// file, which is another file than the destination; the one step that
/// touches the destination is the rename; and the rename comes only after
/// the transfer has ended well.
pub proof fn lemma_no_partial_file(download: Download, events: Seq<FetchEvent>, i: int)
    requires
        download.wf(),
        !has_download_extension(download.destination.name@),
        0 <= i <= events.len(),
    ensures
        ({
            let step = spec_trace(FetchStep::CreateTemp(download), events)[i];
            &&& download.temp@ != download.destination@
            &&& step is Transfer ==> step.writes() == Some(download.temp@)
            &&& step.writes() == Some(download.destination@) ==> step is Rename
            &&& step is Rename ==> i == 2 && events[1] is Succeeded && spec_trace(
                FetchStep::CreateTemp(download),
                events,
            )[1] is Transfer
        }),
{
    lemma_temp_name_differs(download.destination.name@);
    lemma_trace_shape(download, events, i);
    if i == 2 {
        lemma_trace_shape(download, events, 1);
    }
}

/// An attempt succeeds only by way of all three steps: it is finished
/// without an error exactly where creating, transferring and renaming all
/// succeeded.
pub proof fn lemma_success_needs_every_step(download: Download, events: Seq<FetchEvent>, i: int)
    requires
        0 <= i <= events.len(),
    ensures
        spec_trace(FetchStep::CreateTemp(download), events)[i] == FetchStep::Finished(Ok(()))
            <==> i >= 3 && events[0] is Succeeded && events[1] is Succeeded
            && events[2] is Succeeded,
    decreases i,
{
    lemma_trace_shape(download, events, i);
    if i > 0 {
        lemma_trace_shape(download, events, 0);
        lemma_trace_shape(download, events, 1);
        if i > 1 {
            lemma_trace_shape(download, events, 2);
        }
        lemma_trace_shape(download, events, i - 1);
        lemma_success_needs_every_step(download, events, i - 1);
    }
}

} // verus!
