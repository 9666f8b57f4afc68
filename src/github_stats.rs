use vstd::prelude::*;

verus! {

/// A point in time in UTC: seconds since the Unix epoch and the
/// nanoseconds within that second.
#[derive(Debug, Clone, Copy, PartialEq, Eq)]
pub struct UtcTimestamp {
    pub secs: i64,
    pub nanos: u32,
}

impl UtcTimestamp {
    pub open spec fn wf(&self) -> bool {
        self.nanos < 1_000_000_000
    }

    /// The timestamp, if `nanos` is below one second.
    pub fn new(secs: i64, nanos: u32) -> (r: Option<Self>)
        ensures
            r is Some <==> nanos < 1_000_000_000,
            r matches Some(t) ==> t.wf() && t.secs == secs && t.nanos == nanos,
    {
        if nanos < 1_000_000_000 {
            Some(UtcTimestamp { secs, nanos })
        } else {
            None
        }
    }
}

/// The columns of one stored snapshot row.
#[derive(Debug, Clone)]
pub struct StatRow {
    pub name: String,
    pub lang: String,
    pub scrape_ts: UtcTimestamp,
    pub watchers: i32,
    pub watchers_diff: i32,
    pub stargazers: i32,
    pub stargazers_diff: i32,
    pub forks: i32,
    pub forks_diff: i32,
    pub open_issues: i32,
    pub open_issues_diff: i32,
    pub dl_count_acc: i32,
    pub dl_count_acc_diff: i32,
}

/// A stored snapshot of a repository's counters and their change since the
/// snapshot before.
#[derive(Debug, Clone)]
pub struct GitHubStat {
    pub name: String,
    pub lang: String,
    pub scrape_ts: UtcTimestamp,
    pub watchers: i32,
    pub watchers_diff: i32,
    pub stargazers: i32,
    pub stargazers_diff: i32,
    pub forks: i32,
    pub forks_diff: i32,
    pub open_issues: i32,
    pub open_issues_diff: i32,
    pub open_pull_requests: i32,
    pub open_pull_requests_diff: i32,
    pub downloads: i32,
    pub downloads_diff: i32,
}

impl GitHubStat {
    /// The snapshot that a row holds; the store keeps no pull request
    /// counts, so those are zero.
    pub fn from_row(row: &StatRow) -> (r: Self)
        ensures
            r.name == row.name,
            r.lang == row.lang,
            r.scrape_ts == row.scrape_ts,
            r.watchers == row.watchers,
            r.watchers_diff == row.watchers_diff,
            r.stargazers == row.stargazers,
            r.stargazers_diff == row.stargazers_diff,
            r.forks == row.forks,
            r.forks_diff == row.forks_diff,
            r.open_issues == row.open_issues,
            r.open_issues_diff == row.open_issues_diff,
            r.open_pull_requests == 0,
            r.open_pull_requests_diff == 0,
            r.downloads == row.dl_count_acc,
            r.downloads_diff == row.dl_count_acc_diff,
    {
        GitHubStat {
            name: row.name.clone(),
            lang: row.lang.clone(),
            scrape_ts: row.scrape_ts,
            watchers: row.watchers,
            watchers_diff: row.watchers_diff,
            stargazers: row.stargazers,
            stargazers_diff: row.stargazers_diff,
            forks: row.forks,
            forks_diff: row.forks_diff,
            open_issues: row.open_issues,
            open_issues_diff: row.open_issues_diff,
            open_pull_requests: 0,
            open_pull_requests_diff: 0,
            downloads: row.dl_count_acc,
            downloads_diff: row.dl_count_acc_diff,
        }
    }
}

} // verus!
