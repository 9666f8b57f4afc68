use vstd::prelude::*;
use vstd::string::*;

use crate::repo::{Asset, Release, Repo};
use crate::repo_id::RepoId;

verus! {

/// Endpoint that every query is posted to.
pub const GRAPHQL_URL: &'static str = "https://api.github.com/graphql";

/// Why a fetch failed.
#[derive(Debug, Clone)]
pub enum FetchError {
    /// The request could not be posted or answered.
    Transport { cause: String },
    /// The answer was not the expected JSON.
    Decode { cause: String },
    DataMissing,
    RepositoryMissing,
    ReleaseNodesMissing,
    ReleaseNodeMissing,
    AssetNodesMissing,
    AssetNodeMissing,
}

/// The two variables of both queries.
#[derive(Debug, Clone)]
pub struct QueryVariables {
    pub owner: String,
    pub name: String,
}

/// The repository part of a summary answer.
#[derive(Debug, Clone)]
pub struct RepoNode {
    pub description: Option<String>,
    pub primary_language: Option<String>,
    pub watchers: i64,
    pub stargazers: i64,
    pub fork_count: i64,
    pub issues: i64,
    pub pull_requests: i64,
}

#[derive(Debug, Clone)]
pub struct RepoData {
    pub repository: Option<RepoNode>,
}

/// The envelope of a summary answer.
#[derive(Debug, Clone)]
pub struct RepoResponse {
    pub data: Option<RepoData>,
}

#[derive(Debug, Clone)]
pub struct AssetNode {
    pub name: String,
    pub download_count: i64,
}

#[derive(Debug, Clone)]
pub struct ReleaseNode {
    pub name: Option<String>,
    pub tag_name: String,
    pub asset_nodes: Option<Vec<Option<AssetNode>>>,
}

#[derive(Debug, Clone)]
pub struct ReleasesRepository {
    pub release_nodes: Option<Vec<Option<ReleaseNode>>>,
}

#[derive(Debug, Clone)]
pub struct ReleasesData {
    pub repository: Option<ReleasesRepository>,
}

/// The envelope of a releases answer.
#[derive(Debug, Clone)]
pub struct ReleasesResponse {
    pub data: Option<ReleasesData>,
}

/// Where a query goes and how it is authorised.
#[derive(Debug, Clone)]
pub struct Fetcher {
    url: String,
    bearer_auth: String,
}

/// A release node, its asset list and each asset are all present.
pub open spec fn release_node_complete(n: Option<ReleaseNode>) -> bool {
    &&& n is Some
    &&& n->0.asset_nodes is Some
    &&& forall|j: int|
        0 <= j < n->0.asset_nodes->0@.len() ==> (#[trigger] n->0.asset_nodes->0@[j]) is Some
}

/// The error that an incomplete release node gives.
pub open spec fn release_node_error(n: Option<ReleaseNode>) -> FetchError {
    if n is None {
        FetchError::ReleaseNodeMissing
    } else if n->0.asset_nodes is None {
        FetchError::AssetNodesMissing
    } else {
        FetchError::AssetNodeMissing
    }
}

/// `a` is the asset that node `n` describes.
pub open spec fn asset_of(a: Asset, n: AssetNode) -> bool {
    a.name == n.name && a.downloads == n.download_count
}

/// `r` is the release that the complete node `n` describes, assets in order.
pub open spec fn release_of(r: Release, n: ReleaseNode) -> bool {
    &&& r.name == n.name
    &&& r.tag_name == n.tag_name
    &&& r.assets@.len() == n.asset_nodes->0@.len()
    &&& forall|j: int|
        0 <= j < r.assets@.len() ==> asset_of(#[trigger] r.assets@[j], n.asset_nodes->0@[j]->0)
}

/// `rs` is the list that the complete nodes `ns` describe, in the same order.
pub open spec fn releases_of(rs: Seq<Release>, ns: Seq<Option<ReleaseNode>>) -> bool {
    &&& rs.len() == ns.len()
    &&& forall|i: int| 0 <= i < rs.len() ==> release_of(#[trigger] rs[i], ns[i]->0)
}

/// The release nodes of an answer, if both envelopes and the list are there.
pub open spec fn release_nodes_of(resp: ReleasesResponse) -> Option<Seq<Option<ReleaseNode>>> {
    if resp.data is Some && resp.data->0.repository is Some
        && resp.data->0.repository->0.release_nodes is Some {
        Some(resp.data->0.repository->0.release_nodes->0@)
    } else {
        None
    }
}

/// `e` is the error of the first incomplete node of `ns`, all before it complete.
pub open spec fn first_node_error(ns: Seq<Option<ReleaseNode>>, e: FetchError) -> bool {
    exists|k: int|
        0 <= k < ns.len() && !release_node_complete(#[trigger] ns[k]) && e == release_node_error(
            ns[k],
        ) && forall|j: int| 0 <= j < k ==> release_node_complete(#[trigger] ns[j])
}

fn clone_opt_string(s: &Option<String>) -> (r: Option<String>)
    ensures
        r == *s,
{
    match s {
        Some(x) => Some(x.clone()),
        None => None,
    }
}

impl Fetcher {
    /// A fetcher for the public endpoint that sends `Bearer <token>`.
    pub fn with_token(token: &str) -> (r: Self)
        ensures
            r.url()@ == GRAPHQL_URL@,
            r.bearer_auth()@ == "Bearer "@ + token@,
    {
        let mut bearer_auth = String::from_str("Bearer ");
        bearer_auth.append(token);
        Fetcher { url: String::from_str(GRAPHQL_URL), bearer_auth }
    }

    pub closed spec fn url(&self) -> String {
        self.url
    }

    pub closed spec fn bearer_auth(&self) -> String {
        self.bearer_auth
    }

    /// Endpoint that the queries are posted to.
    pub fn endpoint(&self) -> (r: &str)
        ensures
            r@ == self.url()@,
    {
        self.url.as_str()
    }

    /// Value of the `Authorization` header.
    pub fn authorization(&self) -> (r: &str)
        ensures
            r@ == self.bearer_auth()@,
    {
        self.bearer_auth.as_str()
    }

    /// Variables of the query for one repository.
    pub fn variables(repo_id: &RepoId) -> (r: QueryVariables)
        ensures
            r.owner@ == repo_id@.0,
            r.name@ == repo_id@.1,
    {
        QueryVariables { owner: repo_id.owner().to_string(), name: repo_id.name().to_string() }
    }

    /// Turns a summary answer into the repository record for `repo_id`.
    pub fn repo_from_response(repo_id: RepoId, resp: &RepoResponse) -> (r: Result<Repo, FetchError>)
        ensures
            resp.data is None ==> r == Err::<Repo, FetchError>(FetchError::DataMissing),
            resp.data is Some && resp.data->0.repository is None ==> r == Err::<Repo, FetchError>(
                FetchError::RepositoryMissing,
            ),
            resp.data is Some && resp.data->0.repository is Some ==> r is Ok,
            r matches Ok(repo) ==> {
                let n = resp.data->0.repository->0;
                &&& repo.repo_id == repo_id
                &&& repo.description == n.description
                &&& repo.lang@ == match n.primary_language {
                    Some(l) => l@,
                    None => Seq::<char>::empty(),
                }
                &&& repo.watchers == n.watchers
                &&& repo.stargazers == n.stargazers
                &&& repo.forks == n.fork_count
                &&& repo.open_issues == n.issues
                &&& repo.open_pull_requests == n.pull_requests
            },
    {
        let d = match &resp.data {
            Some(d) => d,
            None => return Err(FetchError::DataMissing),
        };
        let n = match &d.repository {
            Some(n) => n,
            None => return Err(FetchError::RepositoryMissing),
        };
        let lang = match &n.primary_language {
            Some(l) => l.clone(),
            None => String::new(),
        };
        Ok(Repo {
            repo_id,
            description: clone_opt_string(&n.description),
            lang,
            watchers: n.watchers,
            stargazers: n.stargazers,
            forks: n.fork_count,
            open_issues: n.issues,
            open_pull_requests: n.pull_requests,
        })
    }

    /// Turns one release node into a release, or says which level is absent.
    pub fn release_from_node(node: &Option<ReleaseNode>) -> (r: Result<Release, FetchError>)
        ensures
            r is Ok <==> release_node_complete(*node),
            r matches Ok(rel) ==> release_of(rel, node->0),
            r matches Err(e) ==> e == release_node_error(*node),
    {
        let n = match node {
            Some(n) => n,
            None => return Err(FetchError::ReleaseNodeMissing),
        };
        let nodes = match &n.asset_nodes {
            Some(a) => a,
            None => return Err(FetchError::AssetNodesMissing),
        };
        let mut assets: Vec<Asset> = Vec::new();
        let mut j: usize = 0;
        while j < nodes.len()
            invariant
                *node == Some(*n),
                n.asset_nodes == Some(*nodes),
                j <= nodes@.len(),
                assets@.len() == j,
                forall|i: int| 0 <= i < j ==> (#[trigger] nodes@[i]) is Some,
                forall|i: int| 0 <= i < j ==> asset_of(#[trigger] assets@[i], nodes@[i]->0),
            decreases nodes@.len() - j,
        {
            match &nodes[j] {
                Some(a) => {
                    assets.push(Asset { name: a.name.clone(), downloads: a.download_count });
                },
                None => {
                    assert(node->0.asset_nodes->0@[j as int] is None);
                    return Err(FetchError::AssetNodeMissing);
                },
            }
            j = j + 1;
        }
        Ok(Release { name: clone_opt_string(&n.name), tag_name: n.tag_name.clone(), assets })
    }

    /// Turns a releases answer into the releases, in the answer's order.
    pub fn releases_from_response(resp: &ReleasesResponse) -> (r: Result<Vec<Release>, FetchError>)
        ensures
            resp.data is None ==> r == Err::<Vec<Release>, FetchError>(FetchError::DataMissing),
            resp.data is Some && resp.data->0.repository is None ==> r == Err::<
                Vec<Release>,
                FetchError,
            >(FetchError::RepositoryMissing),
            resp.data is Some && resp.data->0.repository is Some
                && resp.data->0.repository->0.release_nodes is None ==> r == Err::<Vec<Release>, FetchError>(FetchError::ReleaseNodesMissing),
            release_nodes_of(*resp) is Some ==> (r is Ok <==> forall|i: int|
                0 <= i < release_nodes_of(*resp)->0.len() ==> release_node_complete(
                    #[trigger] release_nodes_of(*resp)->0[i],
                )),
            r matches Ok(rs) ==> release_nodes_of(*resp) is Some && releases_of(
                rs@,
                release_nodes_of(*resp)->0,
            ),
            release_nodes_of(*resp) is Some && r is Err ==> first_node_error(
                release_nodes_of(*resp)->0,
                r->Err_0,
            ),
    {
        let d = match &resp.data {
            Some(d) => d,
            None => return Err(FetchError::DataMissing),
        };
        let p = match &d.repository {
            Some(p) => p,
            None => return Err(FetchError::RepositoryMissing),
        };
        let nodes = match &p.release_nodes {
            Some(ns) => ns,
            None => return Err(FetchError::ReleaseNodesMissing),
        };
        let ghost ns = nodes@;
        let mut out: Vec<Release> = Vec::new();
        let mut i: usize = 0;
        while i < nodes.len()
            invariant
                release_nodes_of(*resp) == Some(ns),
                ns == nodes@,
                i <= ns.len(),
                out@.len() == i,
                forall|k: int| 0 <= k < i ==> release_node_complete(#[trigger] ns[k]),
                forall|k: int| 0 <= k < i ==> release_of(#[trigger] out@[k], ns[k]->0),
            decreases ns.len() - i,
        {
            match Self::release_from_node(&nodes[i]) {
                Ok(rel) => out.push(rel),
                Err(e) => {
                    assert(!release_node_complete(ns[i as int]));
                    assert(!release_node_complete(release_nodes_of(*resp)->0[i as int]));
                    assert(first_node_error(ns, e));
                    return Err(e);
                },
            }
            i = i + 1;
        }
        Ok(out)
    }
}

/// Collapses the outcomes of a batch, in input order, into one: the first
/// failure if there is one, else every repository in input order.
pub fn collect_repos(results: Vec<Result<Repo, FetchError>>) -> (r: Result<Vec<Repo>, FetchError>)
    ensures
        r is Ok <==> forall|i: int| 0 <= i < results@.len() ==> (#[trigger] results@[i]) is Ok,
        r matches Ok(v) ==> v@.len() == results@.len() && forall|i: int|
            0 <= i < v@.len() ==> #[trigger] v@[i] == results@[i]->Ok_0,
        r matches Err(e) ==> exists|k: int|
            0 <= k < results@.len() && #[trigger] results@[k] == Err::<Repo, FetchError>(e)
                && forall|j: int| 0 <= j < k ==> (#[trigger] results@[j]) is Ok,
{
    let ghost orig = results@;
    let mut rest = results;
    assert(rest@ == orig);
    let mut out: Vec<Repo> = Vec::new();
    let ghost mut i: int = 0;
    while rest.len() > 0
        invariant
            orig == results@,
            i <= orig.len(),
            rest@ == orig.skip(i),
            i + rest@.len() == orig.len(),
            out@.len() == i,
            forall|j: int| 0 <= j < i ==> (#[trigger] orig[j]) is Ok,
            forall|j: int| 0 <= j < i ==> #[trigger] out@[j] == orig[j]->Ok_0,
        decreases rest@.len(),
    {
        let x = rest.remove(0);
        assert(x == orig[i]);
        match x {
            Ok(repo) => out.push(repo),
            Err(e) => {
                assert(orig[i] == Err::<Repo, FetchError>(e));
                assert(!(orig[i] is Ok));
                return Err(e);
            },
        }
        assert(rest@ =~= orig.skip(i + 1));
        proof {
            i = i + 1;
        }
    }
    assert(i == orig.len());
    Ok(out)
}

} // verus!
