use vstd::prelude::*;
use vstd::string::*;

verus! {

/// Failures of the repository operations.
#[derive(Debug)]
pub enum GitError {
    /// A filesystem failure.
    Io(String),
    /// The object store reported a failure.
    Git(String),
    /// The store produced output that could not be read.
    Parse(String),
    /// The repository or the branch does not exist.
    NotFound(String),
    /// A revision, branch or path did not resolve to an object.
    Revision(String),
    /// The named branch is the checked-out one and is kept.
    CannotDeleteHead(String),
    /// The path resolved to something other than a file.
    NotABlob(String),
    /// The path resolved to something other than a directory.
    NotATree(String),
}

/// Failures of the account layer.
#[derive(Debug)]
pub enum AuthError {
    MissingAuthHeader,
    InvalidAuthHeader,
    InvalidCredentials,
    Internal(String),
}

/// The HTTP status an error maps to: a missing repository or branch is 404,
/// a request that names something unusable is 400, anything else is 500.
pub open spec fn status_of(e: GitError) -> u16 {
    match e {
        GitError::NotFound(_) => 404,
        GitError::Revision(_) => 400,
        GitError::CannotDeleteHead(_) => 400,
        GitError::NotABlob(_) => 400,
        GitError::NotATree(_) => 400,
        _ => 500,
    }
}

pub open spec fn prefixed(prefix: Seq<char>, detail: Seq<char>) -> Seq<char> {
    prefix + detail
}

fn with_prefix(prefix: &str, detail: &String) -> (r: String)
    ensures
        r@ == prefix@ + detail@,
{
    let mut s = String::from_str(prefix);
    s.append(detail.as_str());
    s
}

impl GitError {
    pub fn status_code(&self) -> (r: u16)
        ensures
            r == status_of(*self),
    {
        match self {
            GitError::NotFound(_) => 404,
            GitError::Revision(_) => 400,
            GitError::CannotDeleteHead(_) => 400,
            GitError::NotABlob(_) => 400,
            GitError::NotATree(_) => 400,
            _ => 500,
        }
    }

    /// Human-readable text: a fixed prefix per kind followed by the detail.
    pub fn message(&self) -> (r: String)
        ensures
            r@ == self.prefix_text() + self.detail(),
    {
        match self {
            GitError::Io(d) => with_prefix("I/O error: ", d),
            GitError::Git(d) => with_prefix("git failed: ", d),
            GitError::Parse(d) => with_prefix("Invalid output: ", d),
            GitError::NotFound(d) => with_prefix("not found: ", d),
            GitError::Revision(d) => with_prefix("invalid revision: ", d),
            GitError::CannotDeleteHead(d) => with_prefix("cannot delete the current HEAD branch: ", d),
            GitError::NotABlob(d) => with_prefix("not a file: ", d),
            GitError::NotATree(d) => with_prefix("not a directory: ", d),
        }
    }

    pub open spec fn detail(self) -> Seq<char> {
        match self {
            GitError::Io(d) => d@,
            GitError::Git(d) => d@,
            GitError::Parse(d) => d@,
            GitError::NotFound(d) => d@,
            GitError::Revision(d) => d@,
            GitError::CannotDeleteHead(d) => d@,
            GitError::NotABlob(d) => d@,
            GitError::NotATree(d) => d@,
        }
    }

    pub open spec fn prefix_text(self) -> Seq<char> {
        match self {
            GitError::Io(_) => "I/O error: "@,
            GitError::Git(_) => "git failed: "@,
            GitError::Parse(_) => "Invalid output: "@,
            GitError::NotFound(_) => "not found: "@,
            GitError::Revision(_) => "invalid revision: "@,
            GitError::CannotDeleteHead(_) => "cannot delete the current HEAD branch: "@,
            GitError::NotABlob(_) => "not a file: "@,
            GitError::NotATree(_) => "not a directory: "@,
        }
    }
}

impl AuthError {
    pub open spec fn text(self) -> Seq<char> {
        match self {
            AuthError::MissingAuthHeader => "Missing Authorization header"@,
            AuthError::InvalidAuthHeader => "Invalid Authorization header"@,
            AuthError::InvalidCredentials => "Unauthorized"@,
            AuthError::Internal(d) => "Internal Server Error: "@ + d@,
        }
    }

    pub fn message(&self) -> (r: String)
        ensures
            r@ == self.text(),
    {
        match self {
            AuthError::MissingAuthHeader => String::from_str("Missing Authorization header"),
            AuthError::InvalidAuthHeader => String::from_str("Invalid Authorization header"),
            AuthError::InvalidCredentials => String::from_str("Unauthorized"),
            AuthError::Internal(d) => with_prefix("Internal Server Error: ", d),
        }
    }
}

} // verus!
