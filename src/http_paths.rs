//! Path handling for the smart-HTTP front: which repository a request path
//! names, where on disk that is, and which tenant a repository directory
//! belongs to.

use vstd::prelude::*;
use vstd::string::*;
use crate::paths::last_slash;
use crate::repo::RepoStore;

verus! {

/// The parts of a request path `/<login>/<repo>[.git][/<rest>]`.
pub struct RequestTarget {
    pub login: String,
    /// The repository name, without a `.git` suffix.
    pub repo_name: String,
    /// What follows the repository name, if anything.
    pub rest: Option<String>,
}

/// `s` without its leading `/` characters.
pub open spec fn trim_leading_slashes(s: Seq<char>) -> Seq<char>
    decreases s.len(),
{
    if s.len() > 0 && s[0] == '/' {
        trim_leading_slashes(s.drop_first())
    } else {
        s
    }
}

/// Index of the first `/` at or after `i`, or -1.
pub open spec fn first_slash_from(s: Seq<char>, i: int) -> int
    decreases s.len() - i,
{
    if i < 0 || i >= s.len() {
        -1
    } else if s[i] == '/' {
        i
    } else {
        first_slash_from(s, i + 1)
    }
}

pub open spec fn git_suffix() -> Seq<char> {
    ".git"@
}

/// `s` without one trailing `.git`, if it has one.
pub open spec fn strip_git_suffix(s: Seq<char>) -> Seq<char> {
    if s.len() >= 4 && s.subrange(s.len() - 4, s.len() as int) == git_suffix() {
        s.subrange(0, s.len() - 4)
    } else {
        s
    }
}

/// The login, the repository name (before `.git` is stripped) and the rest
/// of a request path: `None` when it has fewer than two `/`-separated
/// segments once leading slashes are dropped.
pub open spec fn request_parts(p: Seq<char>) -> Option<(Seq<char>, Seq<char>, Option<Seq<char>>)> {
    let t = trim_leading_slashes(p);
    let k = first_slash_from(t, 0);
    if k < 0 {
        None
    } else {
        let u = t.subrange(k + 1, t.len() as int);
        let j = first_slash_from(u, 0);
        if j < 0 {
            Some((t.subrange(0, k), u, None))
        } else {
            Some((t.subrange(0, k), u.subrange(0, j), Some(u.subrange(j + 1, u.len() as int))))
        }
    }
}

impl RequestTarget {
    pub open spec fn matches_parts(self, parts: (Seq<char>, Seq<char>, Option<Seq<char>>)) -> bool {
        &&& self.login@ == parts.0
        &&& self.repo_name@ == strip_git_suffix(parts.1)
        &&& match (self.rest, parts.2) {
            (Some(r), Some(q)) => r@ == q,
            (None, None) => true,
            _ => false,
        }
    }
}

proof fn lemma_first_slash_bounds(s: Seq<char>, i: int)
    requires
        0 <= i <= s.len(),
    ensures
        -1 <= first_slash_from(s, i) < s.len(),
        first_slash_from(s, i) >= 0 ==> i <= first_slash_from(s, i) && s[first_slash_from(s, i)]
            == '/',
    decreases s.len() - i,
{
    if i < s.len() && s[i] != '/' {
        lemma_first_slash_bounds(s, i + 1);
    }
}

fn find_slash(s: &str, from: usize) -> (r: Option<usize>)
    requires
        from <= s@.len(),
    ensures
        r is None ==> first_slash_from(s@, from as int) == -1,
        r matches Some(k) ==> first_slash_from(s@, from as int) == k,
{
    let n = s.unicode_len();
    let mut i: usize = from;
    while i < n
        invariant
            from <= i <= n == s@.len(),
            first_slash_from(s@, from as int) == first_slash_from(s@, i as int),
        decreases n - i,
    {
        if s.get_char(i) == '/' {
            return Some(i);
        }
        i = i + 1;
    }
    None
}

fn without_leading_slashes(s: &str) -> (r: &str)
    ensures
        r@ == trim_leading_slashes(s@),
{
    let n = s.unicode_len();
    let mut i: usize = 0;
    assert(s@.subrange(0, n as int) =~= s@);
    while i < n && s.get_char(i) == '/'
        invariant
            i <= n == s@.len(),
            trim_leading_slashes(s@) == trim_leading_slashes(s@.subrange(i as int, n as int)),
        decreases n - i,
    {
        assert(s@.subrange(i as int, n as int).drop_first() =~= s@.subrange(i + 1, n as int));
        i = i + 1;
    }
    s.substring_char(i, n)
}

/// Drops one trailing `.git`.
pub fn strip_git(s: &str) -> (r: String)
    ensures
        r@ == strip_git_suffix(s@),
{
    let n = s.unicode_len();
    if n >= 4 {
        let tail = s.substring_char(n - 4, n);
        let suffix = String::from_str(".git");
        if String::from_str(tail) == suffix {
            return String::from_str(s.substring_char(0, n - 4));
        }
    }
    String::from_str(s)
}

/// Splits a smart-HTTP request path into login, repository name and rest.
pub fn parse_request_path(original: &str) -> (r: Option<RequestTarget>)
    ensures
        r is None <==> request_parts(original@) is None,
        r matches Some(t) ==> t.matches_parts(request_parts(original@)->0),
{
    let t = without_leading_slashes(original);
    let k = match find_slash(t, 0) {
        Some(k) => k,
        None => return None,
    };
    proof {
        lemma_first_slash_bounds(t@, 0);
    }
    let n = t.unicode_len();
    let login = String::from_str(t.substring_char(0, k));
    let u = t.substring_char(k + 1, n);
    match find_slash(u, 0) {
        None => Some(RequestTarget { login, repo_name: strip_git(u), rest: None }),
        Some(j) => {
            proof {
                lemma_first_slash_bounds(u@, 0);
            }
            let m = u.unicode_len();
            let name = u.substring_char(0, j);
            let rest = String::from_str(u.substring_char(j + 1, m));
            Some(RequestTarget { login, repo_name: strip_git(name), rest: Some(rest) })
        },
    }
}

/// Where a request path leads on disk: the tenant's repository directory
/// (with the rest of the path joined on, a rest starting with `/` replacing
/// it) when the login and repository were found, else the path itself
/// under the store's root.
pub open spec fn resolved_text(
    root: Seq<char>,
    original: Seq<char>,
    repo_dir: Option<Seq<char>>,
    rest: Option<Seq<char>>,
) -> Seq<char> {
    match repo_dir {
        Some(d) => match rest {
            Some(r) => if r.len() > 0 && r[0] == '/' {
                r
            } else {
                d + seq!['/'] + r
            },
            None => d,
        },
        None => root + original,
    }
}

pub open spec fn str_pair_view(o: Option<(&str, &str)>) -> Option<(Seq<char>, Seq<char>)> {
    match o {
        Some(p) => Some((p.0@, p.1@)),
        None => None,
    }
}

/// Resolves a request path, given the tenant pair that its login and
/// repository name were found to have (if they were).
pub fn resolve_request_path(
    store: &RepoStore,
    original: &str,
    tenant: Option<(&str, &str)>,
    rest: Option<&str>,
) -> (r: String)
    ensures
        r@ == resolved_text(
            store.root@,
            original@,
            match str_pair_view(tenant) {
                Some(t) => Some(store.path_text(t.0, t.1)),
                None => None,
            },
            crate::paths::opt_view(rest),
        ),
{
    match tenant {
        Some((owner_id, repo_id)) => {
            let dir = store.path_for(owner_id, repo_id);
            match rest {
                Some(r) => {
                    if r.unicode_len() > 0 && r.get_char(0) == '/' {
                        String::from_str(r)
                    } else {
                        proof {
                            reveal_strlit("/");
                        }
                        let mut s = dir;
                        s.append("/");
                        s.append(r);
                        s
                    }
                },
                None => dir,
            }
        },
        None => {
            let mut s = store.root.clone();
            s.append(original);
            s
        },
    }
}

/// The normal components of the part of `p` before `end`: its
/// `/`-separated segments without empty ones and `.`.
pub open spec fn components_before(p: Seq<char>, end: int) -> Seq<Seq<char>>
    decreases end + 1,
{
    if end < 0 {
        Seq::empty()
    } else {
        let k = last_slash(p, end);
        let seg = p.subrange(k + 1, end);
        let pre = if k < 0 || k >= end {
            Seq::empty()
        } else {
            components_before(p, k)
        };
        if seg.len() == 0 || seg == seq!['.'] {
            pre
        } else {
            pre.push(seg)
        }
    }
}

pub open spec fn components_of(p: Seq<char>) -> Seq<Seq<char>> {
    components_before(p, p.len() as int)
}

proof fn lemma_last_slash_range(s: Seq<char>, end: int)
    requires
        0 <= end <= s.len(),
    ensures
        -1 <= last_slash(s, end) < end,
        last_slash(s, end) >= 0 ==> s[last_slash(s, end)] == '/',
        forall|j: int| last_slash(s, end) < j < end ==> s[j] != '/',
    decreases end,
{
    if end > 0 && s[end - 1] != '/' {
        lemma_last_slash_range(s, end - 1);
    }
}

fn components_upto(p: &str, end: usize) -> (r: Vec<String>)
    requires
        end <= p@.len(),
    ensures
        r@.map_values(|s: String| s@) == components_before(p@, end as int),
    decreases end,
{
    let mut k: usize = end;
    while k > 0 && p.get_char(k - 1) != '/'
        invariant
            k <= end <= p@.len(),
            last_slash(p@, end as int) == last_slash(p@, k as int),
        decreases k,
    {
        k = k - 1;
    }
    proof {
        lemma_last_slash_range(p@, end as int);
    }
    // Here the segment is p[k..end], and the slash before it (if any) is at k - 1.
    let mut pre: Vec<String> = if k == 0 {
        Vec::new()
    } else {
        components_upto(p, k - 1)
    };
    let seg = p.substring_char(k, end);
    let is_dot = end - k == 1 && p.get_char(k) == '.';
    assert(is_dot <==> seg@ == seq!['.']) by {
        if seg@ == seq!['.'] {
            assert(seg@.len() == 1);
            assert(seg@[0] == p@[k as int]);
        }
        if is_dot {
            assert(seg@ =~= seq!['.']);
        }
    }
    let ghost before = pre@;
    if !(end == k || is_dot) {
        pre.push(String::from_str(seg));
        assert(pre@.map_values(|s: String| s@) =~= before.map_values(|s: String| s@).push(seg@));
    }
    pre
}

/// The normal components of a `/`-separated path.
pub fn components(p: &str) -> (r: Vec<String>)
    ensures
        r@.map_values(|s: String| s@) == components_of(p@),
{
    let n = p.unicode_len();
    components_upto(p, n)
}

pub open spec fn repos_dir_name() -> Seq<char> {
    "repos"@
}

/// Index of the first component equal to `repos`, or -1.
pub open spec fn first_repos_from(c: Seq<Seq<char>>, i: int) -> int
    decreases c.len() - i,
{
    if i < 0 || i >= c.len() {
        -1
    } else if c[i] == repos_dir_name() {
        i
    } else {
        first_repos_from(c, i + 1)
    }
}

/// The tenant pair of a repository directory: the two components after the
/// first `repos` component.
pub open spec fn tenant_of(p: Seq<char>) -> Option<(Seq<char>, Seq<char>)> {
    let c = components_of(p);
    let idx = first_repos_from(c, 0);
    if idx >= 0 && idx + 2 < c.len() {
        Some((c[idx + 1], c[idx + 2]))
    } else {
        None
    }
}

pub open spec fn string_pair_view(o: Option<(String, String)>) -> Option<(Seq<char>, Seq<char>)> {
    match o {
        Some(p) => Some((p.0@, p.1@)),
        None => None,
    }
}

proof fn lemma_first_repos_bounds(c: Seq<Seq<char>>, i: int)
    requires
        0 <= i <= c.len(),
    ensures
        -1 <= first_repos_from(c, i) < c.len(),
        first_repos_from(c, i) >= 0 ==> i <= first_repos_from(c, i),
    decreases c.len() - i,
{
    if i < c.len() && c[i] != repos_dir_name() {
        lemma_first_repos_bounds(c, i + 1);
    }
}

/// Finds which tenant a repository directory belongs to, as the privacy
/// check needs: the owner and repository ids that follow `repos` in it.
pub fn tenant_from_repo_dir(p: &str) -> (r: Option<(String, String)>)
    ensures
        string_pair_view(r) == tenant_of(p@),
{
    let comps = components(p);
    let ghost c = comps@.map_values(|s: String| s@);
    assert(c == components_of(p@));
    let repos = String::from_str("repos");
    let mut i: usize = 0;
    while i < comps.len()
        invariant
            i <= comps.len() == c.len(),
            c == components_of(p@),
            c == comps@.map_values(|s: String| s@),
            repos@ == repos_dir_name(),
            first_repos_from(c, 0) == first_repos_from(c, i as int),
        decreases comps.len() - i,
    {
        if comps[i] == repos {
            assert(c[i as int] == repos_dir_name());
            assert(first_repos_from(c, 0) == i);
            if comps.len() - i > 2 {
                let owner = comps[i + 1].clone();
                let repo = comps[i + 2].clone();
                assert(owner@ == c[i + 1]);
                assert(repo@ == c[i + 2]);
                return Some((owner, repo));
            } else {
                return None;
            }
        }
        i = i + 1;
    }
    proof {
        lemma_first_repos_bounds(c, 0);
    }
    None
}

/// Whether a repository may be read without credentials: only one that was
/// found and is not private.
pub fn is_public(found_private: Option<bool>) -> (r: bool)
    ensures
        r == (found_private == Some(false)),
{
    match found_private {
        Some(p) => !p,
        None => false,
    }
}

} // verus!
