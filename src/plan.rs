use vstd::prelude::*;

use crate::error::DownloadError;
use crate::naming::{
    archive_path, archive_path_of, page_path, page_path_of, page_url,
    page_url_of, thumbnail_path, thumbnail_path_of,
};
use crate::paths::{base_path_of, ext_of, get_base_path, get_ext};
use crate::types::{Illust, User};

verus! {

/// One fetch-and-save operation: the bytes at `url` go to the file `path`.
#[derive(Clone, Debug)]
pub struct DownloadTask {
    pub url: String,
    pub path: String,
}

/// What an artwork's download consists of once its type is known.
#[derive(Clone, Debug)]
pub enum Work {
    /// One task per page, all run side by side; a failed page is only logged.
    Pages(Vec<DownloadTask>),
    /// The still image, and, beside it, the archive whose URL comes from a
    /// second metadata request; a failure of either fails the artwork.
    Animated { thumbnail: DownloadTask, archive_path: String },
}

/// One artwork download within an author's download.
#[derive(Clone, Debug)]
pub struct ArtworkJob {
    pub illust_id: String,
    pub author: Option<String>,
}

/// Task `page` of a multi-page artwork whose first page is at `original`.
pub open spec fn page_task_ok(
    t: DownloadTask,
    original: Seq<char>,
    id: Seq<char>,
    dir: Seq<char>,
    page: nat,
) -> bool {
    &&& t.url@ == page_url_of(base_path_of(original), id, page, ext_of(original))
    &&& t.path@ == page_path_of(dir, page, ext_of(original))
}

/// The work of artwork `id`, saved under `dir`, as its metadata prescribes.
pub open spec fn work_ok(r: Result<Work, DownloadError>, illust: Illust, id: Seq<char>, dir: Seq<char>) -> bool {
    let original = illust.urls.original@;
    if illust.illust_type == 0 {
        &&& r matches Ok(Work::Pages(tasks))
        &&& tasks@.len() == illust.page_count
        &&& forall|i: int|
            0 <= i < tasks@.len() ==> #[trigger] page_task_ok(tasks@[i], original, id, dir, i as nat)
    } else if illust.illust_type == 2 {
        &&& r matches Ok(Work::Animated { thumbnail, archive_path })
        &&& thumbnail.url@ == original
        &&& thumbnail.path@ == thumbnail_path_of(dir, ext_of(original))
        &&& archive_path@ == archive_path_of(dir, id)
    } else {
        r matches Err(DownloadError::UnsupportedArtworkType(t)) && t == illust.illust_type
    }
}

/// Turns an artwork's metadata into its tasks. `dir` is the artwork's
/// directory; base URL and extension are taken once from the first page's URL.
pub fn plan_work(illust: &Illust, illust_id: &str, dir: &str) -> (r: Result<Work, DownloadError>)
    ensures
        work_ok(r, *illust, illust_id@, dir@),
{
    let original = &illust.urls.original;
    let ext = get_ext(original.clone());
    if illust.illust_type == 0 {
        let base = get_base_path(original.clone());
        let n = illust.page_count;
        let mut tasks: Vec<DownloadTask> = Vec::new();
        let mut p: u32 = 0;
        while p < n
            invariant
                p <= n,
                n == illust.page_count,
                base@ == base_path_of(original@),
                ext@ == ext_of(original@),
                tasks@.len() == p,
                forall|i: int|
                    0 <= i < tasks@.len() ==> #[trigger] page_task_ok(
                        tasks@[i],
                        original@,
                        illust_id@,
                        dir@,
                        i as nat,
                    ),
            decreases n - p,
        {
            let task = DownloadTask {
                url: page_url(base.as_str(), illust_id, p, ext.as_str()),
                path: page_path(dir, p, ext.as_str()),
            };
            assert(page_task_ok(task, original@, illust_id@, dir@, p as nat));
            tasks.push(task);
            p = p + 1;
        }
        Ok(Work::Pages(tasks))
    } else if illust.illust_type == 2 {
        let thumbnail = DownloadTask {
            url: original.clone(),
            path: thumbnail_path(dir, ext.as_str()),
        };
        Ok(Work::Animated { thumbnail, archive_path: archive_path(dir, illust_id) })
    } else {
        Err(DownloadError::UnsupportedArtworkType(illust.illust_type))
    }
}

/// One artwork download per id of the author's index, each filed under the author.
pub fn plan_author(user: &User, user_id: &str) -> (r: Vec<ArtworkJob>)
    ensures
        r@.len() == user.illusts@.len(),
        forall|i: int|
            0 <= i < r@.len() ==> {
                &&& (#[trigger] r@[i]).illust_id@ == user.illusts@[i]@
                &&& r@[i].author matches Some(a) && a@ == user_id@
            },
{
    let mut jobs: Vec<ArtworkJob> = Vec::new();
    let mut i: usize = 0;
    while i < user.illusts.len()
        invariant
            i <= user.illusts@.len(),
            jobs@.len() == i,
            forall|j: int|
                0 <= j < i ==> {
                    &&& (#[trigger] jobs@[j]).illust_id@ == user.illusts@[j]@
                    &&& jobs@[j].author matches Some(a) && a@ == user_id@
                },
        decreases user.illusts@.len() - i,
    {
        let job = ArtworkJob {
            illust_id: user.illusts[i].clone(),
            author: Some(String::from_str(user_id)),
        };
        jobs.push(job);
        i = i + 1;
    }
    jobs
}

} // verus!
