use vstd::prelude::*;
use vstd::string::*;
use crate::paths::opt_view;

verus! {

/// A revision specification, built once from the caller's revision, branch
/// override and path.
#[derive(Debug, Clone)]
pub enum RevisionSpec {
    /// A commit named by a ref, hash or `HEAD`.
    Ref(String),
    /// The tree or blob at a path as of a ref.
    RefAndPath(String, String),
    /// The root tree of a ref.
    RootTree(String),
}

/// The ref a query starts from: the branch override if there is one, else
/// the revision.
pub open spec fn base_of(rev: Seq<char>, branch: Option<Seq<char>>) -> Seq<char> {
    match branch {
        Some(b) => b,
        None => rev,
    }
}

pub open spec fn tree_suffix() -> Seq<char> {
    seq!['^', '{', 't', 'r', 'e', 'e', '}']
}

impl RevisionSpec {
    /// The text the object store parses: `base`, `base:path` or
    /// `base^{tree}`.
    pub open spec fn spec_text(self) -> Seq<char> {
        match self {
            RevisionSpec::Ref(b) => b@,
            RevisionSpec::RefAndPath(b, p) => b@ + seq![':'] + p@,
            RevisionSpec::RootTree(b) => b@ + tree_suffix(),
        }
    }

    /// The spec of the commit a history walk starts from.
    pub fn commit_root(rev: &str, branch: Option<&str>) -> (r: Self)
        ensures
            r is Ref,
            r.spec_text() == base_of(rev@, opt_view(branch)),
    {
        RevisionSpec::Ref(select_base(rev, branch))
    }

    /// The spec of the object at `path`.
    pub fn at_path(rev: &str, branch: Option<&str>, path: &str) -> (r: Self)
        ensures
            r is RefAndPath,
            r.spec_text() == base_of(rev@, opt_view(branch)) + seq![':'] + path@,
    {
        RevisionSpec::RefAndPath(select_base(rev, branch), String::from_str(path))
    }

    /// The spec of the object at `path`, or of the root tree when there is
    /// no path.
    pub fn tree_or_path(rev: &str, branch: Option<&str>, path: Option<&str>) -> (r: Self)
        ensures
            path is Some ==> r.spec_text() == base_of(rev@, opt_view(branch)) + seq![':']
                + path->0@,
            path is None ==> r.spec_text() == base_of(rev@, opt_view(branch)) + tree_suffix(),
    {
        match path {
            Some(p) => RevisionSpec::at_path(rev, branch, p),
            None => RevisionSpec::RootTree(select_base(rev, branch)),
        }
    }

    pub fn text(&self) -> (r: String)
        ensures
            r@ == self.spec_text(),
    {
        proof {
            reveal_strlit(":");
            reveal_strlit("^{tree}");
        }
        match self {
            RevisionSpec::Ref(b) => b.clone(),
            RevisionSpec::RefAndPath(b, p) => {
                let mut s = b.clone();
                s.append(":");
                s.append(p.as_str());
                assert(s@ =~= self.spec_text());
                s
            },
            RevisionSpec::RootTree(b) => {
                let mut s = b.clone();
                s.append("^{tree}");
                assert(s@ =~= self.spec_text());
                s
            },
        }
    }
}

/// The branch override if there is one, else the revision.
pub fn select_base(rev: &str, branch: Option<&str>) -> (r: String)
    ensures
        r@ == base_of(rev@, opt_view(branch)),
{
    match branch {
        Some(b) => String::from_str(b),
        None => String::from_str(rev),
    }
}

} // verus!
