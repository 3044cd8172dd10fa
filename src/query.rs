//! Queries as the web layer receives them, and what it sends back: which
//! revision a query names, the file-or-directory fallback, and the
//! download bundle.

use vstd::prelude::*;
use vstd::string::*;
use crate::errors::GitError;
use crate::model::{Branch, CommitInfo, TreeEntry};
use crate::paths::{file_name, file_name_of, opt_view};
use crate::repo::{
    archive_of, file_content_result, files_view, text_or, tree_listing_result, ArchiveSource, RepoStore,
};
use crate::encoding::base64_text;
use crate::store;

verus! {

/// Which repository a branch listing is for.
pub struct BranchesQuery {
    pub id: String,
}

pub struct BranchesResponse {
    pub branches: Vec<Branch>,
}

/// A request for the content at a path: a commit wins over a branch, and
/// without either the query is against `HEAD`.
pub struct ContentQuery {
    pub id: String,
    pub path: Option<String>,
    pub branch: Option<String>,
    pub commit: Option<String>,
}

/// A directory listing or a file's bytes in base64.
pub enum ContentResponse {
    Tree { entries: Vec<TreeEntry> },
    Blob { content_base64: String },
}

/// A request for a branch's history, at most `limit` commits.
pub struct CommitsQuery {
    pub id: String,
    pub branch: Option<String>,
    pub limit: Option<usize>,
}

pub struct ErrorResponse {
    pub error: String,
}

pub open spec fn head_text() -> Seq<char> {
    "HEAD"@
}

pub open spec fn str_opt_view(o: Option<String>) -> Option<Seq<char>> {
    match o {
        Some(s) => Some(s@),
        None => None,
    }
}

/// The revision a content query resolves: its commit, else its branch,
/// else `HEAD`.
pub open spec fn content_rev(q: ContentQuery) -> Seq<char> {
    match q.commit {
        Some(c) => c@,
        None => text_or(str_opt_view(q.branch), head_text()),
    }
}

/// The branch override of a content query: its branch, unless a commit was
/// given.
pub open spec fn content_branch(q: ContentQuery) -> Option<Seq<char>> {
    match q.commit {
        Some(_) => None,
        None => str_opt_view(q.branch),
    }
}

fn clone_opt(o: &Option<String>) -> (r: Option<String>)
    ensures
        str_opt_view(r) == str_opt_view(*o),
{
    match o {
        Some(s) => Some(s.clone()),
        None => None,
    }
}

fn as_opt_str(o: &Option<String>) -> (r: Option<&str>)
    ensures
        opt_view(r) == str_opt_view(*o),
{
    match o {
        Some(s) => Some(s.as_str()),
        None => None,
    }
}

impl ContentQuery {
    /// The revision and the branch override this query names.
    pub fn target(&self) -> (r: (String, Option<String>))
        ensures
            r.0@ == content_rev(*self),
            str_opt_view(r.1) == content_branch(*self),
    {
        match &self.commit {
            Some(c) => (c.clone(), None),
            None => match &self.branch {
                Some(b) => (b.clone(), Some(b.clone())),
                None => (String::from_str("HEAD"), None),
            },
        }
    }
}

/// The number of commits a history query returns when it gives no limit.
pub const DEFAULT_COMMIT_LIMIT: usize = 50;

impl CommitsQuery {
    /// The branch (default `HEAD`) and the limit (default fifty) of this
    /// query.
    pub fn target(&self) -> (r: (String, usize))
        ensures
            r.0@ == text_or(str_opt_view(self.branch), head_text()),
            r.1 == match self.limit {
                Some(n) => n,
                None => DEFAULT_COMMIT_LIMIT,
            },
    {
        let branch = match &self.branch {
            Some(b) => b.clone(),
            None => String::from_str("HEAD"),
        };
        let limit = match self.limit {
            Some(n) => n,
            None => DEFAULT_COMMIT_LIMIT,
        };
        (branch, limit)
    }
}

impl ErrorResponse {
    pub fn from_git_error(e: &GitError) -> (r: ErrorResponse)
        ensures
            r.error@ == e.prefix_text() + e.detail(),
    {
        ErrorResponse { error: e.message() }
    }
}

/// A file's bytes as a response.
pub fn blob_response(bytes: &Vec<u8>) -> (r: ContentResponse)
    ensures
        r matches ContentResponse::Blob { content_base64 } && content_base64@ == base64_text(
            bytes@,
        ),
{
    ContentResponse::Blob { content_base64: store::encode_base64(bytes.as_slice()) }
}

/// What a file read gives a content query: its bytes as the answer, or,
/// when the read failed, no answer yet (the path is then listed as a
/// directory).
pub fn file_answer(file: Result<Vec<u8>, GitError>) -> (r: Option<ContentResponse>)
    ensures
        file matches Ok(b) ==> (r matches Some(ContentResponse::Blob { content_base64 })
            && content_base64@ == base64_text(b@)),
        file is Err ==> r is None,
{
    match file {
        Ok(bytes) => Some(blob_response(&bytes)),
        Err(_) => None,
    }
}

/// A listing as a content answer: its entries as a directory, or its error.
pub open spec fn listing_answers(
    listing: Result<Vec<TreeEntry>, GitError>,
    r: Result<ContentResponse, GitError>,
) -> bool {
    match listing {
        Ok(es) => r matches Ok(ContentResponse::Tree { entries }) && entries@ == es@,
        Err(e) => r == Err::<ContentResponse, GitError>(e),
    }
}

/// The answer to a content query with a path, from the file read: the
/// file's bytes in base64 when the read succeeded, else the answer of a
/// listing of the same path.
pub open spec fn content_answers(file: Result<Vec<u8>, GitError>, r: Result<ContentResponse, GitError>) -> bool {
    match file {
        Ok(b) => r matches Ok(ContentResponse::Blob { content_base64 }) && content_base64@ == base64_text(
            b@,
        ),
        Err(_) => exists|listing: Result<Vec<TreeEntry>, GitError>|
            tree_listing_result(listing) && #[trigger] listing_answers(listing, r),
    }
}

/// The content a query names. With a path, the path is first read as a
/// file; only if that fails is it listed as a directory. Without a path,
/// the root directory is listed.
pub fn fetch_content(repos: &RepoStore, owner_id: &str, repo_id: &str, q: &ContentQuery) -> (r: Result<
    ContentResponse,
    GitError,
>)
    ensures
        q.path is Some ==> exists|file: Result<Vec<u8>, GitError>|
            file_content_result(file) && #[trigger] content_answers(file, r),
        q.path is None ==> exists|listing: Result<Vec<TreeEntry>, GitError>|
            tree_listing_result(listing) && #[trigger] listing_answers(listing, r),
        r matches Err(e) ==> e is NotFound || e is Git || e is Revision || e is NotATree,
{
    let (rev, branch) = q.target();
    let branch_ref = as_opt_str(&branch);
    match &q.path {
        Some(p) => {
            let file = repos.get_file_content(owner_id, repo_id, rev.as_str(), branch_ref, p.as_str());
            let ghost read = file;
            match file_answer(file) {
                Some(answer) => {
                    let r = Ok(answer);
                    assert(content_answers(read, r));
                    r
                },
                None => {
                    let listing = repos.list_tree(owner_id, repo_id, rev.as_str(), branch_ref, Some(p.as_str()));
                    let ghost listed = listing;
                    let r = match listing {
                        Ok(entries) => Ok(ContentResponse::Tree { entries }),
                        Err(e) => Err(e),
                    };
                    assert(listing_answers(listed, r));
                    assert(content_answers(read, r));
                    r
                },
            }
        },
        None => {
            let listing = repos.list_tree(owner_id, repo_id, rev.as_str(), branch_ref, None);
            let ghost listed = listing;
            let r = match listing {
                Ok(entries) => Ok(ContentResponse::Tree { entries }),
                Err(e) => Err(e),
            };
            assert(listing_answers(listed, r));
            r
        },
    }
}

/// The history a query names: from its branch (default `HEAD`), at most its
/// limit (default fifty; zero for all).
pub fn fetch_commits(repos: &RepoStore, owner_id: &str, repo_id: &str, q: &CommitsQuery) -> (r: Result<
    Vec<CommitInfo>,
    GitError,
>)
    ensures
        r matches Ok(v) ==> (q.limit is Some && q.limit->0 > 0 ==> v.len() <= q.limit->0),
        r matches Ok(v) ==> (q.limit is None ==> v.len() <= DEFAULT_COMMIT_LIMIT),
        r matches Err(e) ==> e is NotFound || e is Git || e is Revision,
{
    let (branch, limit) = q.target();
    repos.list_commits(owner_id, repo_id, branch.as_str(), Some(branch.as_str()), limit)
}

/// Name of the archive a download is offered under: the last component of
/// the path and `.zip`; without one, the repository's name, the branch (or
/// `HEAD`) and `.zip`.
pub open spec fn archive_file_name_text(
    repo_name: Seq<char>,
    path: Option<Seq<char>>,
    branch: Option<Seq<char>>,
) -> Seq<char> {
    let fallback = repo_name + seq!['-'] + text_or(branch, head_text()) + ".zip"@;
    match path {
        Some(p) => match file_name_of(p) {
            Some(n) => n + ".zip"@,
            None => fallback,
        },
        None => fallback,
    }
}

pub fn archive_file_name(repo_name: &str, path: Option<&str>, branch: Option<&str>) -> (r: String)
    ensures
        r@ == archive_file_name_text(repo_name@, opt_view(path), opt_view(branch)),
{
    proof {
        reveal_strlit("-");
    }
    let name = match path {
        Some(p) => file_name(p),
        None => None,
    };
    match name {
        Some(n) => {
            let mut s = n;
            s.append(".zip");
            s
        },
        None => {
            let mut s = String::from_str(repo_name);
            s.append("-");
            match branch {
                Some(b) => s.append(b),
                None => s.append("HEAD"),
            }
            s.append(".zip");
            assert(s@ =~= archive_file_name_text(repo_name@, opt_view(path), opt_view(branch)));
            s
        },
    }
}

/// A download from its collected files: refused with a revision error when
/// nothing was collected, else the files under the archive name.
pub fn download_from(files: Vec<(String, Vec<u8>)>, name: String) -> (r: Result<
    (String, Vec<(String, Vec<u8>)>),
    GitError,
>)
    ensures
        files.len() == 0 ==> r matches Err(GitError::Revision(_)),
        files.len() > 0 ==> r == Ok::<(String, Vec<(String, Vec<u8>)>), GitError>((name, files)),
{
    if files.len() == 0 {
        Err(GitError::Revision(String::from_str("invalid branch or revspec")))
    } else {
        Ok((name, files))
    }
}

/// The files of a download and the archive name to offer them under. An
/// empty collection is taken as a revision that names nothing.
pub fn download_files(
    repos: &RepoStore,
    owner_id: &str,
    repo_id: &str,
    repo_name: &str,
    q: &ContentQuery,
) -> (r: Result<(String, Vec<(String, Vec<u8>)>), GitError>)
    ensures
        r matches Ok(d) ==> d.1.len() > 0 && d.0@ == archive_file_name_text(
            repo_name@,
            str_opt_view(q.path),
            str_opt_view(q.branch),
        ) && exists|src: ArchiveSource|
            files_view(d.1@) == #[trigger] archive_of(str_opt_view(q.path), src),
        r matches Err(e) ==> e is NotFound || e is Git || e is Revision,
{
    let (rev, branch) = q.target();
    let path = as_opt_str(&q.path);
    let files = match repos.collect_files_at_path(owner_id, repo_id, rev.as_str(), as_opt_str(&branch), path) {
        Ok(f) => f,
        Err(e) => return Err(e),
    };
    let name = archive_file_name(repo_name, path, as_opt_str(&q.branch));
    download_from(files, name)
}

} // verus!
