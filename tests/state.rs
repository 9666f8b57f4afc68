use drugra::controllers::{is_id_char, FocusOnLaunchCtrl};
use drugra::github_stats::{GitHubStat, StatRow, UtcTimestamp};
use drugra::repo::{Asset, Release, Repo};
use drugra::repo_id::RepoId;
use drugra::state::{newest_first, State};

fn rel(tag: &str) -> Release {
    Release { name: None, tag_name: tag.to_string(), assets: vec![] }
}

fn repo(s: &str) -> Repo {
    Repo {
        repo_id: RepoId::parse(s).unwrap(),
        description: None,
        lang: String::new(),
        watchers: 0,
        stargazers: 0,
        forks: 0,
        open_issues: 0,
        open_pull_requests: 0,
    }
}

#[test]
fn releases_shown_newest_first() {
    let mut st = State::new("t".to_string());
    st.show_releases(repo("a/b"), vec![rel("1"), rel("2"), rel("3")]);
    let tags: Vec<&str> = st.releases.iter().map(|r| r.tag_name.as_str()).collect();
    assert_eq!(tags, vec!["3", "2", "1"]);
    assert_eq!(st.selected_repo.unwrap().repo_id.to_string(), "a/b");
}

#[test]
fn newest_first_of_empty() {
    assert!(newest_first(vec![]).is_empty());
}

#[test]
fn add_repo_appends() {
    let mut st = State::new("t".to_string());
    st.add_repo(repo("a/b"));
    st.add_repo(repo("c/d"));
    assert_eq!(st.repos.len(), 2);
    assert_eq!(st.repos[1].repo_id.to_string(), "c/d");
    assert_eq!(st.token, "t");
}

#[test]
fn stat_from_row_zeroes_pull_requests() {
    let row = StatRow {
        name: "rust".to_string(),
        lang: "Rust".to_string(),
        scrape_ts: UtcTimestamp::new(1_600_000_000, 5).unwrap(),
        watchers: 1,
        watchers_diff: 2,
        stargazers: 3,
        stargazers_diff: 4,
        forks: 5,
        forks_diff: 6,
        open_issues: 7,
        open_issues_diff: 8,
        dl_count_acc: 9,
        dl_count_acc_diff: 10,
    };
    let s = GitHubStat::from_row(&row);
    assert_eq!(s.name, "rust");
    assert_eq!(s.scrape_ts.secs, 1_600_000_000);
    assert_eq!(s.open_issues_diff, 8);
    assert_eq!(s.open_pull_requests, 0);
    assert_eq!(s.open_pull_requests_diff, 0);
    assert_eq!(s.downloads, 9);
    assert_eq!(s.downloads_diff, 10);
}

#[test]
fn timestamp_rejects_overfull_nanos() {
    assert!(UtcTimestamp::new(0, 1_000_000_000).is_none());
    assert!(UtcTimestamp::new(0, 999_999_999).is_some());
}

#[test]
fn id_chars() {
    assert!(is_id_char('a') && is_id_char('Z') && is_id_char('7'));
    assert!(is_id_char('/') && is_id_char('-'));
    assert!(!is_id_char(' ') && !is_id_char('.'));
    assert_eq!(FocusOnLaunchCtrl::new(), FocusOnLaunchCtrl);
}

#[test]
fn total_downloads_sums_assets() {
    let mut r = rel("1");
    assert_eq!(r.total_downloads(), Some(0));
    r.assets = vec![
        Asset { name: "a".to_string(), downloads: 10 },
        Asset { name: "b".to_string(), downloads: 32 },
    ];
    assert_eq!(r.total_downloads(), Some(42));
}

#[test]
fn total_downloads_overflow() {
    let mut r = rel("1");
    r.assets = vec![
        Asset { name: "a".to_string(), downloads: i64::MAX },
        Asset { name: "b".to_string(), downloads: 1 },
    ];
    assert_eq!(r.total_downloads(), None);
}

#[test]
fn releases_title_follows_selection() {
    let mut st = State::new("t".to_string());
    assert_eq!(st.releases_title(), "No releases");
    st.show_releases(repo("rust-lang/rust"), vec![]);
    assert_eq!(st.releases_title(), "Releases for repo 'rust-lang/rust'");
}
