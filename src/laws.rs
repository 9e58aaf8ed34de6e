use vstd::prelude::*;

use crate::error::DownloadError;
use crate::outcome::{action_of, failed_pages, failed_results, fetch_count, SaveAction, SaveOutcome};

verus! {

proof fn lemma_no_fetch_when_all_exist(exists: Seq<bool>)
    requires
        forall|i: int| 0 <= i < exists.len() ==> exists[i],
    ensures
        fetch_count(exists) == 0,
    decreases exists.len(),
{
    if exists.len() > 0 {
        let t = exists.drop_last();
        assert forall|i: int| 0 <= i < t.len() implies t[i] by {
            assert(t[i] == exists[i]);
        }
        lemma_no_fetch_when_all_exist(t);
        assert(action_of(exists.last()) == SaveAction::Skip);
    }
}

proof fn lemma_no_failure_logged(outcomes: Seq<SaveOutcome>)
    requires
        forall|i: int| 0 <= i < outcomes.len() ==> !(outcomes[i] is Failed),
    ensures
        failed_pages(outcomes) == Seq::<usize>::empty(),
    decreases outcomes.len(),
{
    if outcomes.len() > 0 {
        let t = outcomes.drop_last();
        assert forall|i: int| 0 <= i < t.len() implies !(t[i] is Failed) by {
            assert(t[i] == outcomes[i]);
        }
        lemma_no_failure_logged(t);
        assert(failed_pages(outcomes) =~= Seq::<usize>::empty());
    }
}

/// Running an artwork again once every file exists fetches nothing: each task
/// is skipped, and the skipped pages leave nothing to log.
pub proof fn rerun_fetches_nothing(exists: Seq<bool>)
    requires
        forall|i: int| 0 <= i < exists.len() ==> exists[i],
    ensures
        fetch_count(exists) == 0,
        forall|i: int| 0 <= i < exists.len() ==> action_of(#[trigger] exists[i]) == SaveAction::Skip,
        failed_pages(Seq::new(exists.len(), |i: int| SaveOutcome::Skipped)).len() == 0,
{
    lemma_no_fetch_when_all_exist(exists);
    lemma_no_failure_logged(Seq::new(exists.len(), |i: int| SaveOutcome::Skipped));
}

/// When exactly one page fails, its position and no other is logged. (The
/// settled result of the pages is success whatever their outcomes.)
pub proof fn single_failed_page_logged_alone(outcomes: Seq<SaveOutcome>, k: int)
    requires
        0 <= k < outcomes.len(),
        outcomes[k] is Failed,
        forall|i: int| 0 <= i < outcomes.len() && i != k ==> !(outcomes[i] is Failed),
    ensures
        failed_pages(outcomes) == seq![k as usize],
    decreases outcomes.len(),
{
    let t = outcomes.drop_last();
    if k == outcomes.len() - 1 {
        assert forall|i: int| 0 <= i < t.len() implies !(t[i] is Failed) by {
            assert(t[i] == outcomes[i]);
        }
        lemma_no_failure_logged(t);
        assert(failed_pages(outcomes) =~= seq![k as usize]);
    } else {
        assert forall|i: int| 0 <= i < t.len() && i != k implies !(t[i] is Failed) by {
            assert(t[i] == outcomes[i]);
        }
        assert(t[k] == outcomes[k]);
        single_failed_page_logged_alone(t, k);
        assert(failed_pages(outcomes) =~= seq![k as usize]);
    }
}

/// In a fan-out over artworks, the logged positions are exactly those of the
/// failed artworks, each once and in increasing order, however many failed.
pub proof fn failed_artworks_logged_exactly(results: Seq<Result<(), DownloadError>>)
    requires
        results.len() <= usize::MAX,
    ensures
        forall|j: int|
            0 <= j < failed_results(results).len() ==> {
                let i = #[trigger] failed_results(results)[j] as int;
                0 <= i < results.len() && results[i] is Err
            },
        forall|j: int, l: int|
            0 <= j < l < failed_results(results).len() ==> failed_results(results)[j]
                < failed_results(results)[l],
        forall|i: int|
            0 <= i < results.len() && #[trigger] results[i] is Err ==> failed_results(
                results,
            ).contains(i as usize),
    decreases results.len(),
{
    if results.len() > 0 {
        let t = results.drop_last();
        failed_artworks_logged_exactly(t);
        let ft = failed_results(t);
        let f = failed_results(results);
        let n = results.len() - 1;
        assert forall|j: int| 0 <= j < ft.len() implies f[j] == ft[j] && ft[j] < n by {
            assert(t[ft[j] as int] is Err);
        }
        assert forall|i: int| 0 <= i < results.len() && #[trigger] results[i] is Err implies f.contains(
            i as usize,
        ) by {
            if i < n {
                assert(t[i] == results[i]);
                let j = choose|j: int| 0 <= j < ft.len() && ft[j] == i as usize;
                assert(f[j] == i as usize);
            } else {
                assert(f[f.len() - 1] == n as usize);
            }
        }
        assert forall|j: int| 0 <= j < f.len() implies {
            let i = #[trigger] f[j] as int;
            0 <= i < results.len() && results[i] is Err
        } by {
            if j < ft.len() {
                assert(t[ft[j] as int] == results[ft[j] as int]);
            } else {
                assert(results.last() is Err);
                assert(f[j] == n as usize);
            }
        }
    }
}

} // verus!
