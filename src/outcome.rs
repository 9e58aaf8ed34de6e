use vstd::prelude::*;

use crate::error::DownloadError;

verus! {

/// What to do with one task once it is known whether its file exists.
#[derive(Clone, Copy, Debug, PartialEq, Eq, Structural)]
pub enum SaveAction {
    /// The file is there already: treat it as done.
    Skip,
    /// Fetch the bytes and write the file.
    Fetch,
}

/// How one fetch-and-save operation ended.
#[derive(Clone, Debug)]
pub enum SaveOutcome {
    Saved,
    Skipped,
    Failed(DownloadError),
}

/// What a fan-out over many siblings reports: its result, and the positions
/// of the siblings whose failure is to be logged, in increasing order.
#[derive(Debug)]
pub struct Settlement {
    pub result: Result<(), DownloadError>,
    pub logged: Vec<usize>,
}

/// An existing file is never fetched again; any other is.
pub open spec fn action_of(exists: bool) -> SaveAction {
    if exists {
        SaveAction::Skip
    } else {
        SaveAction::Fetch
    }
}

/// How many of the tasks, given whether each file exists, go to the network.
pub open spec fn fetch_count(exists: Seq<bool>) -> nat
    decreases exists.len(),
{
    if exists.len() == 0 {
        0
    } else {
        fetch_count(exists.drop_last()) + if action_of(exists.last()) == SaveAction::Fetch {
            1nat
        } else {
            0nat
        }
    }
}

/// The positions of the failed outcomes, in increasing order.
pub open spec fn failed_pages(outcomes: Seq<SaveOutcome>) -> Seq<usize>
    decreases outcomes.len(),
{
    if outcomes.len() == 0 {
        Seq::empty()
    } else {
        failed_pages(outcomes.drop_last()) + if outcomes.last() is Failed {
            seq![(outcomes.len() - 1) as usize]
        } else {
            Seq::empty()
        }
    }
}

/// The positions of the errors among `results`, in increasing order.
pub open spec fn failed_results(results: Seq<Result<(), DownloadError>>) -> Seq<usize>
    decreases results.len(),
{
    if results.len() == 0 {
        Seq::empty()
    } else {
        failed_results(results.drop_last()) + if results.last() is Err {
            seq![(results.len() - 1) as usize]
        } else {
            Seq::empty()
        }
    }
}

/// The outcome as a result: saved and skipped both count as success.
pub open spec fn outcome_result(o: SaveOutcome) -> Result<(), DownloadError> {
    match o {
        SaveOutcome::Failed(e) => Err(e),
        _ => Ok(()),
    }
}

/// Decides whether a task's file is to be fetched, from whether it exists.
/// Existence alone decides: a partial file counts as done.
pub fn save_action(exists: bool) -> (r: SaveAction)
    ensures
        r == action_of(exists),
{
    if exists {
        SaveAction::Skip
    } else {
        SaveAction::Fetch
    }
}

/// The outcome of a task that was fetched, from how fetching and writing went.
pub fn transfer_outcome(transfer: Result<(), DownloadError>) -> (r: SaveOutcome)
    ensures
        match transfer {
            Ok(_) => r is Saved,
            Err(e) => r == SaveOutcome::Failed(e),
        },
{
    match transfer {
        Ok(_) => SaveOutcome::Saved,
        Err(e) => SaveOutcome::Failed(e),
    }
}

impl SaveOutcome {
    /// Saved and skipped are success; a failure keeps its error.
    pub fn into_result(self) -> (r: Result<(), DownloadError>)
        ensures
            r == outcome_result(self),
    {
        match self {
            SaveOutcome::Failed(e) => Err(e),
            _ => Ok(()),
        }
    }
}

/// Settles the pages of a multi-page artwork: every failed page is logged and
/// none of them fails the artwork.
pub fn settle_pages(outcomes: &Vec<SaveOutcome>) -> (r: Settlement)
    ensures
        r.result is Ok,
        r.logged@ == failed_pages(outcomes@),
{
    let mut logged: Vec<usize> = Vec::new();
    let mut i: usize = 0;
    while i < outcomes.len()
        invariant
            i <= outcomes@.len(),
            logged@ == failed_pages(outcomes@.subrange(0, i as int)),
        decreases outcomes@.len() - i,
    {
        assert(outcomes@.subrange(0, i + 1).drop_last() =~= outcomes@.subrange(0, i as int));
        if let SaveOutcome::Failed(_) = &outcomes[i] {
            logged.push(i);
        }
        i = i + 1;
    }
    assert(outcomes@.subrange(0, outcomes@.len() as int) =~= outcomes@);
    Settlement { result: Ok(()), logged }
}

/// Settles the artworks of an author: every failed artwork is logged and none
/// of them fails the author's download.
pub fn settle_artworks(results: &Vec<Result<(), DownloadError>>) -> (r: Settlement)
    ensures
        r.result is Ok,
        r.logged@ == failed_results(results@),
{
    let mut logged: Vec<usize> = Vec::new();
    let mut i: usize = 0;
    while i < results.len()
        invariant
            i <= results@.len(),
            logged@ == failed_results(results@.subrange(0, i as int)),
        decreases results@.len() - i,
    {
        assert(results@.subrange(0, i + 1).drop_last() =~= results@.subrange(0, i as int));
        if results[i].is_err() {
            logged.push(i);
        }
        i = i + 1;
    }
    assert(results@.subrange(0, results@.len() as int) =~= results@);
    Settlement { result: Ok(()), logged }
}

/// Settles an animated artwork: the still image's failure comes first, then
/// the archive's; either fails the artwork.
pub fn settle_animated(
    thumbnail: Result<(), DownloadError>,
    archive: Result<(), DownloadError>,
) -> (r: Result<(), DownloadError>)
    ensures
        thumbnail is Err ==> r == thumbnail,
        thumbnail is Ok ==> r == archive,
{
    match thumbnail {
        Err(e) => Err(e),
        Ok(_) => archive,
    }
}

} // verus!
