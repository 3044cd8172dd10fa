//! Trusted declarations of the outside object store (git2), of the base64
//! encoder and of the few std functions that vstd gives no contract.
//! Every function here is a thin call; what the store returns depends on
//! what is on disk, so most carry no postcondition.

use vstd::prelude::*;
use crate::model::{BranchScope, ObjKind, WalkOrder};
use crate::encoding::base64_text;
use crate::paths::{is_lower_hex_char, is_hex_char};
use base64::Engine;
use git2::Branch as GitBranch;
use git2::TreeEntry as GitTreeEntry;

verus! {

#[verifier::external_type_specification]
#[verifier::external_body]
pub struct ExRepository(git2::Repository);

#[verifier::external_type_specification]
#[verifier::external_body]
pub struct ExError(git2::Error);

#[verifier::external_type_specification]
#[verifier::external_body]
pub struct ExOid(git2::Oid);

#[verifier::external_type_specification]
#[verifier::external_body]
pub struct ExObject<'repo>(git2::Object<'repo>);

#[verifier::external_type_specification]
#[verifier::external_body]
pub struct ExTree<'repo>(git2::Tree<'repo>);

#[verifier::external_type_specification]
#[verifier::external_body]
pub struct ExTreeEntry<'tree>(GitTreeEntry<'tree>);

#[verifier::external_type_specification]
#[verifier::external_body]
pub struct ExBlob<'repo>(git2::Blob<'repo>);

#[verifier::external_type_specification]
#[verifier::external_body]
pub struct ExCommit<'repo>(git2::Commit<'repo>);

#[verifier::external_type_specification]
#[verifier::external_body]
pub struct ExBranch<'repo>(GitBranch<'repo>);

#[verifier::external_type_specification]
#[verifier::external_body]
pub struct ExReference<'repo>(git2::Reference<'repo>);

#[verifier::external_type_specification]
#[verifier::external_body]
pub struct ExSignature<'a>(git2::Signature<'a>);

#[verifier::external_type_specification]
#[verifier::external_body]
pub struct ExTime(git2::Time);

#[verifier::external_type_specification]
#[verifier::external_body]
pub struct ExRevwalk<'repo>(git2::Revwalk<'repo>);

#[verifier::external_type_specification]
#[verifier::external_body]
pub struct ExDiff<'repo>(git2::Diff<'repo>);

/// Relies on `String::push`: appends one character.
#[verifier::external_body]
pub(crate) fn push_char(s: &mut String, c: char)
    ensures
        final(s)@ == old(s)@.push(c),
{
    s.push(c)
}

/// What `String::from_utf8_lossy` makes of a byte string: a function of the
/// bytes alone.
pub uninterp spec fn utf8_lossy(b: Seq<u8>) -> Seq<char>;

/// Relies on `String::from_utf8_lossy`: decodes bytes, replacing invalid
/// sequences.
#[verifier::external_body]
pub(crate) fn lossy_text(b: &[u8]) -> (r: String)
    ensures
        r@ == utf8_lossy(b@),
{
    String::from_utf8_lossy(b).into_owned()
}

/// Relies on `base64::engine::general_purpose::STANDARD.encode`: standard
/// base64 with padding.
#[verifier::external_body]
pub(crate) fn encode_base64(b: &[u8]) -> (r: String)
    ensures
        r@ == base64_text(b@),
{
    base64::engine::general_purpose::STANDARD.encode(b)
}

/// Relies on `git2::Repository::init_opts` with the bare and no-reinit
/// options (and the default of creating the whole path): creates a bare
/// repository at the path and the directories above it, failing where a
/// repository already is.
#[verifier::external_body]
pub(crate) fn init_bare(path: &str) -> (r: Result<git2::Repository, git2::Error>) {
    git2::Repository::init_opts(path, git2::RepositoryInitOptions::new().bare(true).no_reinit(true))
}

/// Relies on `git2::Repository::open_bare`: opens the bare repository at a
/// path.
#[verifier::external_body]
pub(crate) fn open_bare(path: &str) -> (r: Result<git2::Repository, git2::Error>) {
    git2::Repository::open_bare(path)
}

/// Relies on `git2::Error::code`: whether the store reported a missing
/// object, ref or repository.
#[verifier::external_body]
pub(crate) fn is_not_found(e: &git2::Error) -> (r: bool) {
    e.code() == git2::ErrorCode::NotFound
}

/// Relies on `git2::Error::class`: whether the failure came from the
/// operating system (a file or directory that could not be made or read).
#[verifier::external_body]
pub(crate) fn is_os_error(e: &git2::Error) -> (r: bool) {
    e.class() == git2::ErrorClass::Os
}

/// Relies on the `Display` of `git2::Error`: its message, class and code.
#[verifier::external_body]
pub(crate) fn error_text(e: &git2::Error) -> (r: String) {
    e.to_string()
}

/// Relies on `git2::Repository::revparse_single`: resolves a revision
/// specification to one object.
#[verifier::external_body]
pub(crate) fn revparse_single<'r>(repo: &'r git2::Repository, spec: &str) -> (r: Result<
    git2::Object<'r>,
    git2::Error,
>) {
    repo.revparse_single(spec)
}

/// Relies on `git2::Object::id`.
#[verifier::external_body]
pub(crate) fn object_id(o: &git2::Object) -> (r: git2::Oid) {
    o.id()
}

/// Relies on `git2::Object::peel_to_tree`.
#[verifier::external_body]
pub(crate) fn peel_to_tree<'r>(o: &git2::Object<'r>) -> (r: Result<git2::Tree<'r>, git2::Error>) {
    o.peel_to_tree()
}

/// Relies on `git2::Object::peel_to_blob`.
#[verifier::external_body]
pub(crate) fn peel_to_blob<'r>(o: &git2::Object<'r>) -> (r: Result<git2::Blob<'r>, git2::Error>) {
    o.peel_to_blob()
}

/// Relies on the `Display` of `git2::Oid`: the id in lower-case hex, forty
/// digits as the store is built for SHA-1 ids.
#[verifier::external_body]
pub(crate) fn oid_hex(o: &git2::Oid) -> (r: String)
    ensures
        r@.len() == 40,
        forall|i: int| 0 <= i < r@.len() ==> is_lower_hex_char(#[trigger] r@[i]),
{
    o.to_string()
}

/// Relies on `git2::Oid::from_str`, documented to fail on an empty string,
/// one longer than forty hex digits, or one with a non-hex character.
#[verifier::external_body]
pub(crate) fn parse_oid(s: &str) -> (r: Result<git2::Oid, git2::Error>)
    ensures
        s@.len() == 0 ==> r is Err,
        s@.len() > 40 ==> r is Err,
        (exists|i: int| 0 <= i < s@.len() && !is_hex_char(#[trigger] s@[i])) ==> r is Err,
{
    git2::Oid::from_str(s)
}

/// Relies on `git2::Tree::len`: the number of entries.
#[verifier::external_body]
pub(crate) fn tree_len(t: &git2::Tree) -> (r: usize) {
    t.len()
}

/// Relies on `git2::Tree::get`: the entry at an index, if any.
#[verifier::external_body]
pub(crate) fn tree_get<'t>(t: &'t git2::Tree, i: usize) -> (r: Option<GitTreeEntry<'t>>) {
    t.get(i)
}

/// Relies on `git2::TreeEntry::filemode`: the entry's mode bits.
#[verifier::external_body]
pub(crate) fn entry_filemode(e: &GitTreeEntry) -> (r: i32) {
    e.filemode()
}

/// Relies on `git2::TreeEntry::kind`, one variant for each of the store's
/// object types.
#[verifier::external_body]
pub(crate) fn entry_kind(e: &GitTreeEntry) -> (r: Option<ObjKind>) {
    match e.kind() {
        Some(git2::ObjectType::Any) => Some(ObjKind::Any),
        Some(git2::ObjectType::Commit) => Some(ObjKind::Commit),
        Some(git2::ObjectType::Tree) => Some(ObjKind::Tree),
        Some(git2::ObjectType::Blob) => Some(ObjKind::Blob),
        Some(git2::ObjectType::Tag) => Some(ObjKind::Tag),
        None => None,
    }
}

/// Relies on `git2::TreeEntry::id`.
#[verifier::external_body]
pub(crate) fn entry_id(e: &GitTreeEntry) -> (r: git2::Oid) {
    e.id()
}

/// Relies on `git2::TreeEntry::name_bytes`: the entry's name as stored.
#[verifier::external_body]
pub(crate) fn entry_name_bytes(e: &GitTreeEntry) -> (r: Vec<u8>) {
    e.name_bytes().to_vec()
}

/// Relies on `git2::TreeEntry::name`: the entry's name when it is UTF-8.
#[verifier::external_body]
pub(crate) fn entry_name(e: &GitTreeEntry) -> (r: Option<String>) {
    e.name().ok().map(|s| s.to_string())
}

/// Relies on `git2::Tree::walk` in pre-order: each entry of the tree and of
/// its subtrees, with the path of the directory it sits in (empty at the
/// root, else ending in `/`).
#[verifier::external_body]
pub(crate) fn walk_preorder(t: &git2::Tree) -> (r: Result<
    Vec<(String, GitTreeEntry<'static>)>,
    git2::Error,
>) {
    let mut items = Vec::new();
    t.walk(
        git2::TreeWalkMode::PreOrder,
        |dir, entry| {
            items.push((dir.to_string(), entry.to_owned()));
            git2::TreeWalkResult::Ok
        },
    )?;
    Ok(items)
}

/// Relies on `git2::Repository::find_blob`.
#[verifier::external_body]
pub(crate) fn find_blob<'r>(repo: &'r git2::Repository, id: git2::Oid) -> (r: Result<
    git2::Blob<'r>,
    git2::Error,
>) {
    repo.find_blob(id)
}

/// Relies on `git2::Blob::content`: the blob's bytes.
#[verifier::external_body]
pub(crate) fn blob_content(b: &git2::Blob) -> (r: Vec<u8>) {
    b.content().to_vec()
}

/// Relies on `git2::Blob::size`: the blob's length in bytes.
#[verifier::external_body]
pub(crate) fn blob_size(b: &git2::Blob) -> (r: usize) {
    b.size()
}

/// Relies on `git2::Repository::branches`, one branch type for each scope,
/// and on the iteration of the `git2::Branches` it returns: the branches,
/// each read or failed on its own, collected because their number is known
/// only once the iteration ends.
#[verifier::external_body]
pub(crate) fn branches(repo: &git2::Repository, scope: BranchScope) -> (r: Result<
    Vec<Result<GitBranch<'_>, git2::Error>>,
    git2::Error,
>) {
    let ty = match scope {
        BranchScope::Local => git2::BranchType::Local,
        BranchScope::Remote => git2::BranchType::Remote,
    };
    let iter = repo.branches(Some(ty))?;
    Ok(iter.map(|b| b.map(|(branch, _)| branch)).collect())
}

/// Relies on `git2::Repository::find_branch`, one branch type for each
/// scope: the branch of exactly that name.
#[verifier::external_body]
pub(crate) fn find_branch<'r>(repo: &'r git2::Repository, name: &str, scope: BranchScope) -> (r:
    Result<GitBranch<'r>, git2::Error>) {
    let ty = match scope {
        BranchScope::Local => git2::BranchType::Local,
        BranchScope::Remote => git2::BranchType::Remote,
    };
    repo.find_branch(name, ty)
}

/// Relies on `git2::Branch::name_bytes`: the branch's short name.
#[verifier::external_body]
pub(crate) fn branch_name_bytes(b: &GitBranch) -> (r: Result<Vec<u8>, git2::Error>) {
    b.name_bytes().map(|s| s.to_vec())
}

/// Relies on `git2::Branch::get`: the reference behind the branch.
#[verifier::external_body]
pub(crate) fn branch_reference<'b, 'r>(b: &'b GitBranch<'r>) -> (r: &'b git2::Reference<'r>) {
    b.get()
}

/// Relies on `git2::Reference::target`: the object a direct reference
/// points at.
#[verifier::external_body]
pub(crate) fn reference_target(r: &git2::Reference) -> (res: Option<git2::Oid>) {
    r.target()
}

/// Relies on `git2::Branch::is_head`.
#[verifier::external_body]
pub(crate) fn branch_is_head(b: &GitBranch) -> (r: bool) {
    b.is_head()
}

/// Relies on `git2::Branch::upstream`: the tracking branch, if configured.
#[verifier::external_body]
pub(crate) fn branch_upstream<'r>(b: &GitBranch<'r>) -> (r: Result<
    GitBranch<'r>,
    git2::Error,
>) {
    b.upstream()
}

/// Relies on `git2::Branch::delete`: removes the branch's ref.
#[verifier::external_body]
pub(crate) fn branch_delete(b: &mut GitBranch) -> (r: Result<(), git2::Error>) {
    b.delete()
}

/// Relies on `git2::Repository::revwalk`.
#[verifier::external_body]
pub(crate) fn revwalk(repo: &git2::Repository) -> (r: Result<git2::Revwalk<'_>, git2::Error>) {
    repo.revwalk()
}

/// Relies on `git2::Revwalk::set_sorting`, one set of sort flags for each
/// order.
#[verifier::external_body]
pub(crate) fn set_sorting(w: &mut git2::Revwalk, order: WalkOrder) -> (r: Result<(), git2::Error>) {
    let flags = match order {
        WalkOrder::Time => git2::Sort::TIME,
        WalkOrder::Topological => git2::Sort::TOPOLOGICAL,
        WalkOrder::TimeTopological => git2::Sort::TIME | git2::Sort::TOPOLOGICAL,
    };
    w.set_sorting(flags)
}

/// Relies on `git2::Revwalk::push`: starts the walk at a commit.
#[verifier::external_body]
pub(crate) fn walk_push(w: &mut git2::Revwalk, id: git2::Oid) -> (r: Result<(), git2::Error>) {
    w.push(id)
}

/// Relies on `Iterator::next` of `git2::Revwalk`: the next commit id.
#[verifier::external_body]
pub(crate) fn walk_next(w: &mut git2::Revwalk) -> (r: Option<Result<git2::Oid, git2::Error>>) {
    w.next()
}

/// Relies on `git2::Repository::find_commit`.
#[verifier::external_body]
pub(crate) fn find_commit<'r>(repo: &'r git2::Repository, id: git2::Oid) -> (r: Result<
    git2::Commit<'r>,
    git2::Error,
>) {
    repo.find_commit(id)
}

/// Relies on `git2::Commit::id`.
#[verifier::external_body]
pub(crate) fn commit_id(c: &git2::Commit) -> (r: git2::Oid) {
    c.id()
}

/// Relies on `git2::Commit::author`.
#[verifier::external_body]
pub(crate) fn commit_author<'c>(c: &'c git2::Commit) -> (r: git2::Signature<'c>) {
    c.author()
}

/// Relies on `git2::Signature::name`: the name when it is UTF-8.
#[verifier::external_body]
pub(crate) fn signature_name(s: &git2::Signature) -> (r: Option<String>) {
    s.name().ok().map(|n| n.to_string())
}

/// Relies on `git2::Signature::email`: the email when it is UTF-8.
#[verifier::external_body]
pub(crate) fn signature_email(s: &git2::Signature) -> (r: Option<String>) {
    s.email().ok().map(|e| e.to_string())
}

/// Relies on `git2::Commit::time`: the committer time.
#[verifier::external_body]
pub(crate) fn commit_time(c: &git2::Commit) -> (r: git2::Time) {
    c.time()
}

/// Relies on `git2::Time::seconds`: seconds since the epoch.
#[verifier::external_body]
pub(crate) fn time_seconds(t: &git2::Time) -> (r: i64) {
    t.seconds()
}

/// Relies on `git2::Commit::summary`: the first paragraph of the message,
/// when there is one and it is UTF-8.
#[verifier::external_body]
pub(crate) fn commit_summary(c: &git2::Commit) -> (r: Option<String>) {
    c.summary().ok().flatten().map(|s| s.to_string())
}

/// Relies on `git2::Commit::tree`.
#[verifier::external_body]
pub(crate) fn commit_tree<'r>(c: &git2::Commit<'r>) -> (r: Result<git2::Tree<'r>, git2::Error>) {
    c.tree()
}

/// Relies on `git2::Commit::parent_count`.
#[verifier::external_body]
pub(crate) fn commit_parent_count(c: &git2::Commit) -> (r: usize) {
    c.parent_count()
}

/// Relies on `git2::Commit::parent`: the parent at an index.
#[verifier::external_body]
pub(crate) fn commit_parent<'r>(c: &git2::Commit<'r>, i: usize) -> (r: Result<
    git2::Commit<'r>,
    git2::Error,
>) {
    c.parent(i)
}

/// Relies on `git2::Repository::diff_tree_to_tree` with default options:
/// the changes from the old tree (nothing, when absent) to the new one.
#[verifier::external_body]
pub(crate) fn diff_trees<'r>(
    repo: &'r git2::Repository,
    old: Option<&git2::Tree>,
    new: &git2::Tree,
) -> (r: Result<git2::Diff<'r>, git2::Error>) {
    let mut opts = git2::DiffOptions::new();
    repo.diff_tree_to_tree(old, Some(new), Some(&mut opts))
}

/// Relies on `git2::Diff::print` in patch format: each line of the patch as
/// its origin marker and its text (empty where the text is not UTF-8).
#[verifier::external_body]
pub(crate) fn patch_lines(d: &git2::Diff) -> (r: Result<Vec<(char, String)>, git2::Error>) {
    let mut lines = Vec::new();
    d.print(
        git2::DiffFormat::Patch,
        |_delta, _hunk, line| {
            lines.push((line.origin(), std::str::from_utf8(line.content()).unwrap_or("").to_string()));
            true
        },
    )?;
    Ok(lines)
}

} // verus!
