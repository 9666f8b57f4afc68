use vstd::prelude::*;

use crate::repo_id::RepoId;

verus! {

/// A repository with its counters, as last fetched.
#[derive(Debug, Clone)]
pub struct Repo {
    pub repo_id: RepoId,
    pub description: Option<String>,
    pub lang: String,
    pub watchers: i64,
    pub stargazers: i64,
    pub forks: i64,
    pub open_issues: i64,
    pub open_pull_requests: i64,
}

/// One release of a repository.
#[derive(Debug, Clone)]
pub struct Release {
    pub name: Option<String>,
    pub tag_name: String,
    pub assets: Vec<Asset>,
}

/// A file attached to a release and how often it was downloaded.
#[derive(Debug, Clone)]
pub struct Asset {
    pub name: String,
    pub downloads: i64,
}

/// Sum of the download counts of `assets`.
pub open spec fn downloads_sum(assets: Seq<Asset>) -> int
    decreases assets.len(),
{
    if assets.len() == 0 {
        0
    } else {
        downloads_sum(assets.drop_last()) + assets.last().downloads
    }
}

/// Every running total of `assets`, in order, fits in an `i64`.
pub open spec fn running_totals_fit(assets: Seq<Asset>) -> bool {
    forall|k: int|
        0 < k <= assets.len() ==> i64::MIN <= #[trigger] downloads_sum(assets.take(k)) <= i64::MAX
}

impl Release {
    /// Downloads of all assets together; `None` where a running total leaves
    /// the range of `i64`.
    pub fn total_downloads(&self) -> (r: Option<i64>)
        ensures
            r is Some <==> running_totals_fit(self.assets@),
            r matches Some(v) ==> v == downloads_sum(self.assets@),
    {
        let mut acc: i64 = 0;
        let mut i: usize = 0;
        assert(self.assets@.take(0) =~= Seq::<Asset>::empty());
        while i < self.assets.len()
            invariant
                i <= self.assets@.len(),
                acc == downloads_sum(self.assets@.take(i as int)),
                forall|k: int|
                    0 < k <= i ==> i64::MIN <= #[trigger] downloads_sum(self.assets@.take(k))
                        <= i64::MAX,
            decreases self.assets@.len() - i,
        {
            assert(self.assets@.take(i + 1).drop_last() =~= self.assets@.take(i as int));
            match acc.checked_add(self.assets[i].downloads) {
                Some(v) => acc = v,
                None => {
                    assert(!(i64::MIN <= downloads_sum(self.assets@.take(i + 1)) <= i64::MAX));
                    return None;
                },
            }
            i = i + 1;
        }
        assert(self.assets@.take(i as int) =~= self.assets@);
        Some(acc)
    }
}

} // verus!
