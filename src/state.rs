use vstd::prelude::*;
use vstd::string::*;

use crate::repo::{Release, Repo};
use crate::repo_id::text_of;

verus! {

/// What the viewer shows: the tracked repositories and the releases of the
/// selected one.
#[derive(Debug, Clone)]
pub struct State {
    pub token: String,
    pub repos: Vec<Repo>,
    pub selected_repo: Option<Repo>,
    pub releases: Vec<Release>,
    pub entry: String,
}

/// `rs` in reverse order.
pub fn newest_first(rs: Vec<Release>) -> (r: Vec<Release>)
    ensures
        r@ == rs@.reverse(),
{
    let ghost orig = rs@;
    let mut rest = rs;
    let mut out: Vec<Release> = Vec::new();
    while rest.len() > 0
        invariant
            rest@ == orig.take(rest@.len() as int),
            rest@.len() + out@.len() == orig.len(),
            out@ == orig.skip(rest@.len() as int).reverse(),
        decreases rest@.len(),
    {
        let ghost n = rest@.len();
        let x = rest.pop().unwrap();
        out.push(x);
        proof {
            assert(rest@ =~= orig.take(n - 1));
            assert(out@ =~= orig.skip(n - 1).reverse());
        }
    }
    assert(orig.skip(0) =~= orig);
    out
}

impl State {
    /// A state with nothing tracked yet.
    pub fn new(token: String) -> (r: Self)
        ensures
            r.token == token,
            r.repos@.len() == 0,
            r.selected_repo is None,
            r.releases@.len() == 0,
            r.entry@.len() == 0,
    {
        State {
            token,
            repos: Vec::new(),
            selected_repo: None,
            releases: Vec::new(),
            entry: String::new(),
        }
    }

    /// Tracks one more repository, after the others.
    pub fn add_repo(&mut self, repo: Repo)
        ensures
            final(self).repos@ == old(self).repos@.push(repo),
            final(self).token == old(self).token,
            final(self).selected_repo == old(self).selected_repo,
            final(self).releases == old(self).releases,
            final(self).entry == old(self).entry,
    {
        self.repos.push(repo);
    }

    /// Selects `repo` and shows `releases`, fetched in the answer's order,
    /// newest first.
    pub fn show_releases(&mut self, repo: Repo, releases: Vec<Release>)
        ensures
            final(self).selected_repo == Some(repo),
            final(self).releases@ == releases@.reverse(),
            final(self).repos == old(self).repos,
            final(self).token == old(self).token,
            final(self).entry == old(self).entry,
    {
        self.selected_repo = Some(repo);
        self.releases = newest_first(releases);
    }

    /// Heading of the releases pane.
    pub fn releases_title(&self) -> (r: String)
        ensures
            r@ == match self.selected_repo {
                Some(repo) => "Releases for repo '"@ + text_of(repo.repo_id@.0, repo.repo_id@.1)
                    + "'"@,
                None => "No releases"@,
            },
    {
        match &self.selected_repo {
            Some(repo) => {
                let mut r = String::from_str("Releases for repo '");
                let id = repo.repo_id.to_string();
                r.append(id.as_str());
                r.append("'");
                r
            },
            None => String::from_str("No releases"),
        }
    }
}

} // verus!
