use vstd::prelude::*;
use vstd::string::*;

verus! {

/// Position `i` splits `s` into a non-empty owner and a non-empty name:
/// it holds the only `/` of `s`.
pub open spec fn is_split_point(s: Seq<char>, i: int) -> bool {
    &&& 0 < i < s.len() - 1
    &&& s[i] == '/'
    &&& forall|j: int| 0 <= j < s.len() && j != i ==> s[j] != '/'
}

/// `s` is a well-formed `owner/name` text.
pub open spec fn is_repo_id_text(s: Seq<char>) -> bool {
    exists|i: int| is_split_point(s, i)
}

/// Owner and name that `s` stands for, if it is well-formed.
pub open spec fn parse_spec(s: Seq<char>) -> Option<(Seq<char>, Seq<char>)> {
    if is_repo_id_text(s) {
        let i = choose|i: int| is_split_point(s, i);
        Some((s.take(i), s.skip(i + 1)))
    } else {
        None
    }
}

/// Canonical text of an owner and a name.
pub open spec fn text_of(owner: Seq<char>, name: Seq<char>) -> Seq<char> {
    owner + seq!['/'] + name
}

/// Number of `/` in `s`.
pub open spec fn slash_count(s: Seq<char>) -> nat
    decreases s.len(),
{
    if s.len() == 0 {
        0
    } else {
        slash_count(s.drop_last()) + if s.last() == '/' { 1nat } else { 0nat }
    }
}

/// Owner and name of a repository.
#[derive(Debug, Clone)]
pub struct RepoId {
    owner: String,
    name: String,
}

/// Why a text is not an `owner/name` identifier.
#[derive(Debug, Clone)]
pub enum RepoIdError {
    InvalidFormat { received: String },
}

impl View for RepoId {
    type V = (Seq<char>, Seq<char>);

    closed spec fn view(&self) -> (Seq<char>, Seq<char>) {
        (self.owner@, self.name@)
    }
}

impl RepoIdError {
    /// Human-readable cause.
    pub fn message(&self) -> (r: String)
        ensures
            r@ == "invalid format - expected: `owner/name`- received: '"@ + self->received@ + "'"@,
    {
        let mut r = String::from_str("invalid format - expected: `owner/name`- received: '");
        match self {
            RepoIdError::InvalidFormat { received } => r.append(received.as_str()),
        }
        r.append("'");
        r
    }
}

impl RepoId {
    pub fn new(owner: String, name: String) -> (r: Self)
        ensures
            r@ == (owner@, name@),
    {
        RepoId { owner, name }
    }

    pub fn owner(&self) -> (r: &str)
        ensures
            r@ == self@.0,
    {
        self.owner.as_str()
    }

    pub fn name(&self) -> (r: &str)
        ensures
            r@ == self@.1,
    {
        self.name.as_str()
    }

    /// Reads `owner/name`: exactly one `/` with text on both sides.
    pub fn parse(s: &str) -> (r: Result<Self, RepoIdError>)
        ensures
            r is Ok <==> parse_spec(s@) is Some,
            r matches Ok(id) ==> id@ == parse_spec(s@).unwrap(),
            r matches Err(e) ==> e->received@ == s@,
    {
        let n = s.unicode_len();
        let mut count: usize = 0;
        let mut pos: usize = 0;
        let mut i: usize = 0;
        while i < n
            invariant
                n == s@.len(),
                i <= n,
                count <= i,
                count == 0 ==> forall|j: int| 0 <= j < i ==> s@[j] != '/',
                count >= 1 ==> pos < i && s@[pos as int] == '/',
                count == 1 ==> forall|j: int| 0 <= j < i && j != pos ==> s@[j] != '/',
                count >= 2 ==> !is_repo_id_text(s@),
            decreases n - i,
        {
            let c = s.get_char(i);
            if c == '/' {
                if count == 1 {
                    proof {
                        assert forall|k: int| !is_split_point(s@, k) by {
                            if is_split_point(s@, k) {
                                if k != pos {
                                    assert(s@[pos as int] != '/');
                                } else {
                                    assert(s@[i as int] != '/');
                                }
                            }
                        }
                    }
                }
                if count == 0 {
                    pos = i;
                }
                if count < 2 {
                    count = count + 1;
                }
            }
            i = i + 1;
        }
        if count == 1 && 0 < pos && pos + 1 < n {
            assert(is_split_point(s@, pos as int));
            let owner = s.substring_char(0, pos);
            let name = s.substring_char(pos + 1, n);
            proof {
                let k = choose|k: int| is_split_point(s@, k);
                if k != pos {
                    assert(s@[pos as int] != '/');
                }
                assert(owner@ =~= s@.take(pos as int));
                assert(name@ =~= s@.skip(pos + 1));
            }
            Ok(RepoId { owner: owner.to_string(), name: name.to_string() })
        } else {
            proof {
                if is_repo_id_text(s@) {
                    let k = choose|k: int| is_split_point(s@, k);
                    if count == 0 {
                        assert(s@[k] != '/');
                    } else if count == 1 {
                        if k != pos {
                            assert(s@[pos as int] != '/');
                        }
                    }
                }
            }
            Err(RepoIdError::InvalidFormat { received: s.to_string() })
        }
    }

    /// Canonical `owner/name` text.
    pub fn to_string(&self) -> (r: String)
        ensures
            r@ == text_of(self@.0, self@.1),
    {
        let mut r = self.owner.clone();
        r.append("/");
        r.append(self.name.as_str());
        proof {
            reveal_strlit("/");
            assert(r@ =~= text_of(self@.0, self@.1));
        }
        r
    }
}

/// Reading a well-formed `owner/name` text and writing the identifier back
/// gives the same text.
pub proof fn lemma_parse_then_text(s: Seq<char>)
    requires
        is_repo_id_text(s),
    ensures
        parse_spec(s) is Some,
        text_of(parse_spec(s).unwrap().0, parse_spec(s).unwrap().1) == s,
{
    let i = choose|i: int| is_split_point(s, i);
    assert(text_of(s.take(i), s.skip(i + 1)) =~= s);
}

proof fn lemma_count_prefix(s: Seq<char>, i: int, k: int)
    requires
        is_split_point(s, i),
        0 <= k <= s.len(),
    ensures
        slash_count(s.take(k)) == if k > i { 1nat } else { 0nat },
    decreases k,
{
    if k > 0 {
        lemma_count_prefix(s, i, k - 1);
        assert(s.take(k).drop_last() =~= s.take(k - 1));
    }
}

/// A text whose number of `/` is not exactly one is refused.
pub proof fn lemma_parse_needs_one_slash(s: Seq<char>)
    requires
        slash_count(s) != 1,
    ensures
        parse_spec(s) is None,
{
    if is_repo_id_text(s) {
        let i = choose|i: int| is_split_point(s, i);
        lemma_count_prefix(s, i, s.len() as int);
        assert(s.take(s.len() as int) =~= s);
    }
}

} // verus!
