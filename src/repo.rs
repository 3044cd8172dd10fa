//! The repository operations: each opens the tenant's bare repository,
//! answers one query against its refs and objects, and drops the handle.

use vstd::prelude::*;
use vstd::string::*;
use crate::errors::GitError;
use crate::model::{
    classify_entry, entry_kind_matches, format_mode, mode_text, Branch, BranchScope, CommitInfo,
    ObjKind, TreeEntry, WalkOrder,
};
use crate::paths::{file_name, file_name_of, is_full_hex_id, is_hex_char, opt_view};
use crate::revspec::RevisionSpec;
use crate::store;
use vstd::slice::slice_to_vec;

verus! {

/// Directory under which every tenant's repositories live by default.
pub open spec fn repos_root() -> Seq<char> {
    seq!['.', '/', 'r', 'e', 'p', 'o', 's']
}

/// `./repos/<owner_id>/<repo_id>`.
pub open spec fn repo_path_text(owner_id: Seq<char>, repo_id: Seq<char>) -> Seq<char> {
    repos_root() + seq!['/'] + owner_id + seq!['/'] + repo_id
}

pub open spec fn invalid_utf8_text() -> Seq<char> {
    "<invalid-utf8>"@
}

/// `Some(s)` gives `s`, `None` the default text.
pub open spec fn text_or(o: Option<Seq<char>>, default: Seq<char>) -> Seq<char> {
    match o {
        Some(s) => s,
        None => default,
    }
}

pub open spec fn string_opt_view(o: Option<String>) -> Option<Seq<char>> {
    match o {
        Some(s) => Some(s@),
        None => None,
    }
}

fn string_or(o: Option<String>, default: &str) -> (r: String)
    ensures
        r@ == text_or(string_opt_view(o), default@),
{
    match o {
        Some(s) => s,
        None => String::from_str(default),
    }
}

fn store_error(e: &git2::Error) -> (r: GitError)
    ensures
        r is Git,
{
    GitError::Git(store::error_text(e))
}

fn revision_error(e: &git2::Error) -> (r: GitError)
    ensures
        r is Revision,
{
    GitError::Revision(store::error_text(e))
}

/// The branch name shown for a branch's raw name: its lossy UTF-8 decoding,
/// or a placeholder when the name could not be read.
pub open spec fn branch_name_text(raw: Option<Seq<u8>>) -> Seq<char> {
    match raw {
        Some(b) => store::utf8_lossy(b),
        None => invalid_utf8_text(),
    }
}

pub open spec fn bytes_opt_view(o: Option<Vec<u8>>) -> Option<Seq<u8>> {
    match o {
        Some(b) => Some(b@),
        None => None,
    }
}

/// Builds a branch record from what the store gave for it.
pub fn branch_record(
    raw_name: Option<Vec<u8>>,
    target_hex: Option<String>,
    is_head: bool,
    upstream_raw: Option<Vec<u8>>,
) -> (r: Branch)
    ensures
        r.name@ == branch_name_text(bytes_opt_view(raw_name)),
        r.oid@ == text_or(string_opt_view(target_hex), Seq::empty()),
        r.is_head == is_head,
        upstream_raw is None ==> r.upstream is None,
        upstream_raw matches Some(b) ==> (r.upstream matches Some(u) && u@
            == store::utf8_lossy(b@)),
{
    let name = match raw_name {
        Some(b) => store::lossy_text(b.as_slice()),
        None => String::from_str("<invalid-utf8>"),
    };
    let oid = match target_hex {
        Some(h) => h,
        None => String::new(),
    };
    let upstream = match upstream_raw {
        Some(b) => Some(store::lossy_text(b.as_slice())),
        None => None,
    };
    Branch { name, oid, is_head, upstream }
}

/// What was read of one branch.
pub struct BranchReading {
    pub raw_name: Option<Vec<u8>>,
    pub target_hex: Option<String>,
    pub is_head: bool,
    pub upstream_raw: Option<Vec<u8>>,
}

/// The record shown for a branch read as `rd`.
pub open spec fn branch_from(rd: BranchReading, b: Branch) -> bool {
    &&& b.name@ == branch_name_text(bytes_opt_view(rd.raw_name))
    &&& b.oid@ == text_or(string_opt_view(rd.target_hex), Seq::empty())
    &&& b.is_head == rd.is_head
    &&& (rd.upstream_raw is None ==> b.upstream is None)
    &&& (rd.upstream_raw matches Some(u) ==> (b.upstream matches Some(t) && t@ == store::utf8_lossy(
        u@,
    )))
}

/// One record per branch read, in the same order.
pub open spec fn branches_from(rs: Seq<BranchReading>, bs: Seq<Branch>) -> bool {
    &&& rs.len() == bs.len()
    &&& forall|i: int| 0 <= i < bs.len() ==> branch_from(rs[i], #[trigger] bs[i])
}

fn copy_bytes(o: &Option<Vec<u8>>) -> (r: Option<Vec<u8>>)
    ensures
        bytes_opt_view(r) == bytes_opt_view(*o),
{
    match o {
        Some(b) => Some(slice_to_vec(b.as_slice())),
        None => None,
    }
}

/// The records of the branches from what was read of them.
pub fn branch_records(readings: &Vec<BranchReading>) -> (r: Vec<Branch>)
    ensures
        branches_from(readings@, r@),
{
    let mut out: Vec<Branch> = Vec::new();
    let mut i: usize = 0;
    while i < readings.len()
        invariant
            i <= readings.len(),
            out.len() == i,
            forall|j: int| 0 <= j < i ==> branch_from(readings@[j], #[trigger] out@[j]),
        decreases readings.len() - i,
    {
        let rd = &readings[i];
        let target = match &rd.target_hex {
            Some(h) => Some(h.clone()),
            None => None,
        };
        out.push(branch_record(copy_bytes(&rd.raw_name), target, rd.is_head, copy_bytes(&rd.upstream_raw)));
        i = i + 1;
    }
    out
}

/// The guard before deleting a branch: the checked-out branch is kept.
pub fn check_deletable(name: &str, is_head: bool) -> (r: Result<(), GitError>)
    ensures
        is_head ==> (r matches Err(GitError::CannotDeleteHead(d)) && d@ == name@),
        !is_head ==> r is Ok,
{
    if is_head {
        Err(GitError::CannotDeleteHead(String::from_str(name)))
    } else {
        Ok(())
    }
}

/// Builds a commit record; a field the store could not read as UTF-8 is
/// empty.
pub fn commit_record(
    hash: String,
    name: Option<String>,
    email: Option<String>,
    timestamp_secs: i64,
    subject: Option<String>,
) -> (r: CommitInfo)
    ensures
        r.hash@ == hash@,
        r.name@ == text_or(string_opt_view(name), Seq::empty()),
        r.email@ == text_or(string_opt_view(email), Seq::empty()),
        r.timestamp_secs == timestamp_secs,
        r.subject@ == text_or(string_opt_view(subject), Seq::empty()),
{
    proof {
        reveal_strlit("");
    }
    CommitInfo {
        hash,
        name: string_or(name, ""),
        email: string_or(email, ""),
        timestamp_secs,
        subject: string_or(subject, ""),
    }
}

/// How many commits a walk may take: all of them for a limit of zero.
pub open spec fn walk_bound(limit: usize) -> usize {
    if limit == 0 {
        usize::MAX
    } else {
        limit
    }
}

/// Builds the record of one tree entry from what the store gave for it.
pub fn tree_entry_record(
    mode: i32,
    kind: Option<ObjKind>,
    oid: String,
    blob_size: Option<usize>,
    name: Option<String>,
) -> (r: TreeEntry)
    ensures
        r.mode@ == mode_text(mode as u32 as nat),
        entry_kind_matches(kind, r.kind),
        r.oid@ == oid@,
        r.size is Some <==> (kind == Some(ObjKind::Blob) && blob_size is Some),
        r.size matches Some(n) ==> n == blob_size->0,
        r.path@ == text_or(string_opt_view(name), invalid_utf8_text()),
{
    let k = classify_entry(kind);
    let size = if k.is_blob() {
        match blob_size {
            Some(n) => Some(n as u64),
            None => None,
        }
    } else {
        None
    };
    TreeEntry {
        mode: format_mode(mode as u32),
        kind: k,
        oid,
        size,
        path: string_or(name, "<invalid-utf8>"),
    }
}

/// What a patch line is prefixed with: its origin marker for context,
/// added and removed lines; nothing for headers and other lines.
pub open spec fn origin_prefix(origin: char) -> Seq<char> {
    if origin == ' ' || origin == '+' || origin == '-' {
        seq![origin]
    } else {
        Seq::empty()
    }
}

pub open spec fn patch_line_views(lines: Seq<(char, String)>) -> Seq<(char, Seq<char>)> {
    lines.map_values(|l: (char, String)| (l.0, l.1@))
}

/// The text of a patch: each line's prefix and text, in order.
pub open spec fn patch_text(lines: Seq<(char, Seq<char>)>) -> Seq<char>
    decreases lines.len(),
{
    if lines.len() == 0 {
        Seq::empty()
    } else {
        patch_text(lines.drop_last()) + origin_prefix(lines.last().0) + lines.last().1
    }
}

/// Joins the lines of a patch into one text.
pub fn render_patch(lines: &Vec<(char, String)>) -> (r: String)
    ensures
        r@ == patch_text(patch_line_views(lines@)),
{
    let mut out = String::new();
    let mut i: usize = 0;
    while i < lines.len()
        invariant
            i <= lines.len(),
            out@ == patch_text(patch_line_views(lines@.subrange(0, i as int))),
        decreases lines.len() - i,
    {
        let origin = lines[i].0;
        if origin == ' ' || origin == '+' || origin == '-' {
            store::push_char(&mut out, origin);
        }
        out.append(lines[i].1.as_str());
        proof {
            let pre = lines@.subrange(0, i as int);
            let next = lines@.subrange(0, i + 1);
            assert(next.drop_last() =~= pre);
            assert(patch_line_views(next).drop_last() =~= patch_line_views(pre));
        }
        i = i + 1;
        proof {
            if origin == ' ' || origin == '+' || origin == '-' {
                assert(seq![origin] + lines@[i - 1].1@ =~= seq![origin].add(lines@[i - 1].1@));
            }
        }
        assert(out@ =~= patch_text(patch_line_views(lines@.subrange(0, i as int))));
    }
    assert(lines@.subrange(0, lines.len() as int) =~= lines@);
    out
}

/// The directory every archived path starts with: the last component of
/// `path` (or `root` when it has none) and a `/`; nothing without a path.
pub open spec fn archive_prefix_text(path: Option<Seq<char>>) -> Seq<char> {
    match path {
        Some(p) => text_or(file_name_of(p), "root"@) + seq!['/'],
        None => Seq::empty(),
    }
}

pub fn archive_prefix(path: Option<&str>) -> (r: String)
    ensures
        r@ == archive_prefix_text(opt_view(path)),
{
    match path {
        Some(p) => {
            let mut s = string_or(file_name(p), "root");
            proof {
                reveal_strlit("/");
            }
            s.append("/");
            assert(s@ =~= archive_prefix_text(opt_view(path)));
            s
        },
        None => String::new(),
    }
}

/// Path of a file in an archive: the prefix, the directory the walk found
/// it in, and its name.
pub fn archive_entry_path(prefix: &str, dir: &str, name: &str) -> (r: String)
    ensures
        r@ == prefix@ + dir@ + name@,
{
    let mut s = String::from_str(prefix);
    s.append(dir);
    s.append(name);
    s
}

pub open spec fn bin_suffix() -> Seq<char> {
    ".bin"@
}

/// Name of the one file of an archive made of a single blob: the last
/// component of `path` (or `file`), or the object id and `.bin` without a
/// path.
pub open spec fn blob_archive_name_text(path: Option<Seq<char>>, oid_hex: Seq<char>) -> Seq<char> {
    match path {
        Some(p) => text_or(file_name_of(p), "file"@),
        None => oid_hex + bin_suffix(),
    }
}

pub fn blob_archive_name(path: Option<&str>, oid_hex: &str) -> (r: String)
    ensures
        r@ == blob_archive_name_text(opt_view(path), oid_hex@),
{
    match path {
        Some(p) => string_or(file_name(p), "file"),
        None => {
            let mut s = String::from_str(oid_hex);
            s.append(".bin");
            s
        },
    }
}

pub open spec fn starts_with(s: Seq<char>, prefix: Seq<char>) -> bool {
    prefix.len() <= s.len() && s.subrange(0, prefix.len() as int) == prefix
}

/// One entry met by a pre-order walk of a tree, with what was read of it:
/// the directory it sits in (empty at the root, else ending in `/`), its
/// kind, its name, and for a blob its bytes.
pub struct WalkItem {
    pub dir: String,
    pub kind: Option<ObjKind>,
    pub name: String,
    pub content: Option<Vec<u8>>,
}

/// What an archive is made from: the single blob a path resolved to, or the
/// walk of the tree it resolved to.
pub enum ArchiveSource {
    Blob { oid_hex: String, content: Vec<u8> },
    Tree { items: Vec<WalkItem> },
}

pub open spec fn file_view(f: (String, Vec<u8>)) -> (Seq<char>, Seq<u8>) {
    (f.0@, f.1@)
}

pub open spec fn files_view(fs: Seq<(String, Vec<u8>)>) -> Seq<(Seq<char>, Seq<u8>)> {
    fs.map_values(|f: (String, Vec<u8>)| file_view(f))
}

/// The files of a tree walk: one per blob that was read, at the prefix, its
/// directory and its name, in walk order.
pub open spec fn files_of(prefix: Seq<char>, items: Seq<WalkItem>) -> Seq<(Seq<char>, Seq<u8>)>
    decreases items.len(),
{
    if items.len() == 0 {
        Seq::empty()
    } else {
        let pre = files_of(prefix, items.drop_last());
        let it = items.last();
        if it.kind == Some(ObjKind::Blob) && it.content is Some {
            pre.push((prefix + it.dir@ + it.name@, it.content->0@))
        } else {
            pre
        }
    }
}

/// The archive of a path: a blob gives exactly one file, named after the
/// path; a tree gives the files of its walk under the archive prefix.
pub open spec fn archive_of(path: Option<Seq<char>>, src: ArchiveSource) -> Seq<(Seq<char>, Seq<u8>)> {
    match src {
        ArchiveSource::Blob { oid_hex, content } => seq![
            (blob_archive_name_text(path, oid_hex@), content@),
        ],
        ArchiveSource::Tree { items } => files_of(archive_prefix_text(path), items@),
    }
}

/// Builds the files of an archive from what its source holds.
pub fn archive_files(path: Option<&str>, src: &ArchiveSource) -> (r: Vec<(String, Vec<u8>)>)
    ensures
        files_view(r@) == archive_of(opt_view(path), *src),
{
    let mut out: Vec<(String, Vec<u8>)> = Vec::new();
    match src {
        ArchiveSource::Blob { oid_hex, content } => {
            let name = blob_archive_name(path, oid_hex.as_str());
            out.push((name, slice_to_vec(content.as_slice())));
            assert(files_view(out@) =~= archive_of(opt_view(path), *src));
        },
        ArchiveSource::Tree { items } => {
            let prefix = archive_prefix(path);
            let mut i: usize = 0;
            assert(items@.subrange(0, 0) =~= Seq::<WalkItem>::empty());
            assert(files_view(out@) =~= Seq::empty());
            while i < items.len()
                invariant
                    i <= items.len(),
                    prefix@ == archive_prefix_text(opt_view(path)),
                    files_view(out@) == files_of(prefix@, items@.subrange(0, i as int)),
                decreases items.len() - i,
            {
                let it = &items[i];
                proof {
                    assert(items@.subrange(0, i + 1).drop_last() =~= items@.subrange(0, i as int));
                    assert(items@.subrange(0, i + 1).last() == items@[i as int]);
                }
                if it.kind == Some(ObjKind::Blob) {
                    match &it.content {
                        Some(c) => {
                            let p = archive_entry_path(prefix.as_str(), it.dir.as_str(), it.name.as_str());
                            let ghost before = out@;
                            out.push((p, slice_to_vec(c.as_slice())));
                            assert(files_view(out@) =~= files_view(before).push(
                                (prefix@ + it.dir@ + it.name@, c@),
                            ));
                        },
                        None => {},
                    }
                }
                i = i + 1;
            }
            assert(items@.subrange(0, items.len() as int) =~= items@);
        },
    }
    out
}

proof fn lemma_files_of_prefixed(prefix: Seq<char>, items: Seq<WalkItem>)
    ensures
        forall|i: int|
            0 <= i < files_of(prefix, items).len() ==> starts_with(
                (#[trigger] files_of(prefix, items)[i]).0,
                prefix,
            ),
    decreases items.len(),
{
    if items.len() > 0 {
        let pre = files_of(prefix, items.drop_last());
        lemma_files_of_prefixed(prefix, items.drop_last());
        let it = items.last();
        if it.kind == Some(ObjKind::Blob) && it.content is Some {
            let p = prefix + it.dir@ + it.name@;
            assert(p.subrange(0, prefix.len() as int) =~= prefix);
            let all = pre.push((p, it.content->0@));
            assert(files_of(prefix, items) == all);
            assert forall|i: int| 0 <= i < all.len() implies starts_with(
                (#[trigger] all[i]).0,
                prefix,
            ) by {
                if i < pre.len() {
                    assert(all[i] == pre[i]);
                }
            }
        }
    }
}

/// Every file of the archive of a tree reached by a path lies under a
/// directory named after the path's last component: archiving `dir` gives
/// paths starting with `dir/`, archiving `x/y/dir` too.
pub proof fn lemma_tree_archive_under_directory(
    path: Seq<char>,
    name: Seq<char>,
    items: Seq<WalkItem>,
)
    requires
        file_name_of(path) == Some(name),
    ensures
        forall|i: int|
            0 <= i < files_of(archive_prefix_text(Some(path)), items).len() ==> starts_with(
                (#[trigger] files_of(archive_prefix_text(Some(path)), items)[i]).0,
                name + seq!['/'],
            ),
{
    assert(archive_prefix_text(Some(path)) == name + seq!['/']);
    lemma_files_of_prefixed(archive_prefix_text(Some(path)), items);
}

/// The commits of a history walk that loaded, one entry per id the walk
/// yielded (`None` where the commit could not be loaded), in walk order.
pub open spec fn loaded(steps: Seq<Option<CommitInfo>>) -> Seq<CommitInfo>
    decreases steps.len(),
{
    if steps.len() == 0 {
        Seq::empty()
    } else {
        let pre = loaded(steps.drop_last());
        match steps.last() {
            Some(c) => pre.push(c),
            None => pre,
        }
    }
}

/// The history a walk gives: its loaded commits in walk order, the first
/// `limit` of them, or all of them for a limit of zero.
pub open spec fn kept(steps: Seq<Option<CommitInfo>>, limit: usize) -> Seq<CommitInfo> {
    let l = loaded(steps);
    if limit == 0 || l.len() <= limit {
        l
    } else {
        l.subrange(0, limit as int)
    }
}

proof fn lemma_loaded_prefix(s: Seq<Option<CommitInfo>>, k: int)
    requires
        0 <= k <= s.len(),
    ensures
        loaded(s.subrange(0, k)).len() <= loaded(s).len(),
        loaded(s).subrange(0, loaded(s.subrange(0, k)).len() as int) == loaded(s.subrange(0, k)),
    decreases s.len(),
{
    if k < s.len() {
        lemma_loaded_prefix(s.drop_last(), k);
        assert(s.drop_last().subrange(0, k) =~= s.subrange(0, k));
        let pre = loaded(s.drop_last());
        let n = loaded(s.subrange(0, k)).len() as int;
        match s.last() {
            Some(c) => {
                assert(pre.push(c).subrange(0, n) =~= pre.subrange(0, n));
            },
            None => {},
        }
    } else {
        assert(s.subrange(0, k) =~= s);
        assert(loaded(s).subrange(0, loaded(s).len() as int) =~= loaded(s));
    }
}

/// A limited history is the start of the unlimited one: the first `limit`
/// commits of the same walk, or all of them when there are fewer.
pub proof fn lemma_limited_history_is_prefix(steps: Seq<Option<CommitInfo>>, limit: usize)
    requires
        limit > 0,
    ensures
        kept(steps, limit) == kept(steps, 0).subrange(
            0,
            if kept(steps, 0).len() < limit {
                kept(steps, 0).len() as int
            } else {
                limit as int
            },
        ),
{
    assert(loaded(steps).subrange(0, loaded(steps).len() as int) =~= loaded(steps));
}

/// Stopping a walk once `limit` commits have loaded gives the history that
/// walking further would give: the limited histories of the first `k`
/// steps and of all steps agree.
pub proof fn lemma_early_stop_keeps_history(steps: Seq<Option<CommitInfo>>, k: int, limit: usize)
    requires
        0 <= k <= steps.len(),
        limit > 0,
        loaded(steps.subrange(0, k)).len() >= limit,
    ensures
        kept(steps.subrange(0, k), limit) == kept(steps, limit),
{
    lemma_loaded_prefix(steps, k);
    let l1 = loaded(steps.subrange(0, k));
    let l2 = loaded(steps);
    assert(l1.subrange(0, limit as int) =~= l2.subrange(0, limit as int));
    if l1.len() == limit {
        assert(l1 =~= l1.subrange(0, limit as int));
    }
    if l2.len() == limit {
        assert(l2 =~= l2.subrange(0, limit as int));
    }
}

/// Keeps the loaded commits of a walk's steps, up to the limit.
pub fn kept_commits(steps: &Vec<Option<CommitInfo>>, limit: usize) -> (r: Vec<CommitInfo>)
    ensures
        r@ == kept(steps@, limit),
{
    let mut out: Vec<CommitInfo> = Vec::new();
    let mut i: usize = 0;
    assert(steps@.subrange(0, 0) =~= Seq::<Option<CommitInfo>>::empty());
    assert(out@ =~= kept(steps@.subrange(0, 0), limit));
    while i < steps.len()
        invariant
            i <= steps.len(),
            out@ == kept(steps@.subrange(0, i as int), limit),
        decreases steps.len() - i,
    {
        let ghost pre = steps@.subrange(0, i as int);
        let ghost next = steps@.subrange(0, i + 1);
        proof {
            assert(next.drop_last() =~= pre);
            assert(next.last() == steps@[i as int]);
        }
        match &steps[i] {
            Some(c) => {
                if limit == 0 || out.len() < limit {
                    out.push(c.duplicate());
                    proof {
                        assert(loaded(next) == loaded(pre).push(*c));
                        assert(out@ =~= kept(next, limit));
                    }
                } else {
                    proof {
                        let l = loaded(pre);
                        assert(loaded(next) == l.push(*c));
                        assert(l.push(*c).subrange(0, limit as int) =~= l.subrange(0, limit as int));
                        if l.len() == limit {
                            assert(l.subrange(0, limit as int) =~= l);
                        }
                    }
                }
            },
            None => {},
        }
        i = i + 1;
    }
    assert(steps@.subrange(0, steps.len() as int) =~= steps@);
    out
}

/// Which parent a commit is compared with: the first, when it has any.
pub fn diff_base(parent_count: usize) -> (r: Option<usize>)
    ensures
        r == (if parent_count > 0 {
            Some(0usize)
        } else {
            None::<usize>
        }),
{
    if parent_count > 0 {
        Some(0)
    } else {
        None
    }
}

/// What was read of one entry of a tree.
pub struct EntryReading {
    pub mode: i32,
    pub kind: Option<ObjKind>,
    pub oid: String,
    pub blob_size: Option<usize>,
    pub name: Option<String>,
}

/// The record shown for an entry read as `rd`.
pub open spec fn entry_from(rd: EntryReading, e: TreeEntry) -> bool {
    &&& e.mode@ == mode_text(rd.mode as u32 as nat)
    &&& entry_kind_matches(rd.kind, e.kind)
    &&& e.oid@ == rd.oid@
    &&& (e.size is Some <==> (rd.kind == Some(ObjKind::Blob) && rd.blob_size is Some))
    &&& (e.size matches Some(n) ==> n == rd.blob_size->0)
    &&& e.path@ == text_or(string_opt_view(rd.name), invalid_utf8_text())
}

/// One record per entry read, in the same order.
pub open spec fn entries_from(rs: Seq<EntryReading>, es: Seq<TreeEntry>) -> bool {
    &&& rs.len() == es.len()
    &&& forall|i: int| 0 <= i < es.len() ==> entry_from(rs[i], #[trigger] es[i])
}

fn clone_name(o: &Option<String>) -> (r: Option<String>)
    ensures
        string_opt_view(r) == string_opt_view(*o),
{
    match o {
        Some(s) => Some(s.clone()),
        None => None,
    }
}

/// The records of a tree's entries from what was read of them.
pub fn tree_entries(readings: &Vec<EntryReading>) -> (r: Vec<TreeEntry>)
    ensures
        entries_from(readings@, r@),
{
    let mut out: Vec<TreeEntry> = Vec::new();
    let mut i: usize = 0;
    while i < readings.len()
        invariant
            i <= readings.len(),
            out.len() == i,
            forall|j: int| 0 <= j < i ==> entry_from(readings@[j], #[trigger] out@[j]),
        decreases readings.len() - i,
    {
        let rd = &readings[i];
        let e = tree_entry_record(rd.mode, rd.kind, rd.oid.clone(), rd.blob_size, clone_name(&rd.name));
        out.push(e);
        i = i + 1;
    }
    out
}

/// The ref answered for a branch listing: `default_ref_text` of the
/// branches, or `HEAD` when they could not be listed.
pub open spec fn default_ref_answer(listing: Result<Vec<Branch>, GitError>) -> Seq<char> {
    match listing {
        Ok(b) => default_ref_text(b@),
        Err(_) => "HEAD"@,
    }
}

/// Index of the first branch flagged as HEAD, or -1.
pub open spec fn first_head_from(b: Seq<Branch>, i: int) -> int
    decreases b.len() - i,
{
    if i < 0 || i >= b.len() {
        -1
    } else if b[i].is_head {
        i
    } else {
        first_head_from(b, i + 1)
    }
}

/// The ref a repository page opens on: the HEAD branch, else the first
/// branch listed, else `HEAD` itself.
pub open spec fn default_ref_text(b: Seq<Branch>) -> Seq<char> {
    let h = first_head_from(b, 0);
    if h >= 0 {
        b[h].name@
    } else if b.len() > 0 {
        b[0].name@
    } else {
        "HEAD"@
    }
}

proof fn lemma_first_head_bounds(b: Seq<Branch>, i: int)
    requires
        0 <= i <= b.len(),
    ensures
        -1 <= first_head_from(b, i) < b.len(),
        first_head_from(b, i) >= 0 ==> i <= first_head_from(b, i),
    decreases b.len() - i,
{
    if i < b.len() && !b[i].is_head {
        lemma_first_head_bounds(b, i + 1);
    }
}

pub fn default_ref_of(branches: &Vec<Branch>) -> (r: String)
    ensures
        r@ == default_ref_text(branches@),
{
    let mut i: usize = 0;
    while i < branches.len()
        invariant
            i <= branches.len(),
            first_head_from(branches@, 0) == first_head_from(branches@, i as int),
        decreases branches.len() - i,
    {
        if branches[i].is_head {
            return branches[i].name.clone();
        }
        i = i + 1;
    }
    proof {
        lemma_first_head_bounds(branches@, 0);
    }
    if branches.len() > 0 {
        branches[0].name.clone()
    } else {
        String::from_str("HEAD")
    }
}

pub fn default_ref_from(listing: &Result<Vec<Branch>, GitError>) -> (r: String)
    ensures
        r@ == default_ref_answer(*listing),
{
    match listing {
        Ok(list) => default_ref_of(list),
        Err(_) => String::from_str("HEAD"),
    }
}

/// The answer of a file read, from what the store gave: the specification
/// did not resolve (`Err`), it resolved to something other than a blob
/// (`Ok(Err)`), or to a blob with these bytes (`Ok(Ok)`); each failure
/// carries the store's message.
pub open spec fn file_answers(
    found: Result<Result<Vec<u8>, String>, String>,
    r: Result<Vec<u8>, GitError>,
) -> bool {
    match found {
        Err(m) => r matches Err(GitError::Revision(t)) && t@ == m@,
        Ok(Err(m)) => r matches Err(GitError::NotABlob(t)) && t@ == m@,
        Ok(Ok(b)) => r matches Ok(c) && c@ == b@,
    }
}

pub fn file_outcome(found: Result<Result<Vec<u8>, String>, String>) -> (r: Result<Vec<u8>, GitError>)
    ensures
        file_answers(found, r),
{
    match found {
        Err(m) => Err(GitError::Revision(m)),
        Ok(Err(m)) => Err(GitError::NotABlob(m)),
        Ok(Ok(b)) => Ok(b),
    }
}

/// The answer of a tree listing, from what the store gave: an unresolved
/// specification, something other than a tree, or the readings of the
/// tree's entries.
pub open spec fn tree_answers(
    found: Result<Result<Vec<EntryReading>, String>, String>,
    r: Result<Vec<TreeEntry>, GitError>,
) -> bool {
    match found {
        Err(m) => r matches Err(GitError::Revision(t)) && t@ == m@,
        Ok(Err(m)) => r matches Err(GitError::NotATree(t)) && t@ == m@,
        Ok(Ok(rs)) => r matches Ok(v) && entries_from(rs@, v@),
    }
}

pub fn tree_outcome(found: Result<Result<Vec<EntryReading>, String>, String>) -> (r: Result<
    Vec<TreeEntry>,
    GitError,
>)
    ensures
        tree_answers(found, r),
{
    match found {
        Err(m) => Err(GitError::Revision(m)),
        Ok(Err(m)) => Err(GitError::NotATree(m)),
        Ok(Ok(rs)) => Ok(tree_entries(&rs)),
    }
}

/// The answer of a history query, from what the store gave: an unresolved
/// revision, or the steps of the walk from it.
pub open spec fn history_answers(
    found: Result<Vec<Option<CommitInfo>>, String>,
    limit: usize,
    r: Result<Vec<CommitInfo>, GitError>,
) -> bool {
    match found {
        Err(m) => r matches Err(GitError::Revision(t)) && t@ == m@,
        Ok(steps) => r matches Ok(v) && v@ == kept(steps@, limit),
    }
}

pub fn history_outcome(found: Result<Vec<Option<CommitInfo>>, String>, limit: usize) -> (r: Result<
    Vec<CommitInfo>,
    GitError,
>)
    ensures
        history_answers(found, limit, r),
{
    match found {
        Err(m) => Err(GitError::Revision(m)),
        Ok(steps) => Ok(kept_commits(&steps, limit)),
    }
}

/// The answer of an archive query, from what the store gave: an unresolved
/// specification, or the blob or tree walk it resolved to.
pub open spec fn archive_answers(
    path: Option<Seq<char>>,
    found: Result<ArchiveSource, String>,
    r: Result<Vec<(String, Vec<u8>)>, GitError>,
) -> bool {
    match found {
        Err(m) => r matches Err(GitError::Revision(t)) && t@ == m@,
        Ok(src) => r matches Ok(files) && files_view(files@) == archive_of(path, src),
    }
}

pub fn archive_outcome(path: Option<&str>, found: Result<ArchiveSource, String>) -> (r: Result<
    Vec<(String, Vec<u8>)>,
    GitError,
>)
    ensures
        archive_answers(opt_view(path), found, r),
{
    match found {
        Err(m) => Err(GitError::Revision(m)),
        Ok(src) => Ok(archive_files(path, &src)),
    }
}

/// The answer of a diff, from what the store gave: no commit under that id,
/// or the lines of the patch against its first parent.
pub open spec fn diff_answers(found: Result<Vec<(char, String)>, String>, r: Result<String, GitError>) -> bool {
    match found {
        Err(m) => r matches Err(GitError::Revision(t)) && t@ == m@,
        Ok(lines) => r matches Ok(t) && t@ == patch_text(patch_line_views(lines@)),
    }
}

pub fn diff_outcome(found: Result<Vec<(char, String)>, String>) -> (r: Result<String, GitError>)
    ensures
        diff_answers(found, r),
{
    match found {
        Err(m) => Err(GitError::Revision(m)),
        Ok(lines) => Ok(render_patch(&lines)),
    }
}

/// The guard of a branch deletion, from the store's lookup of the branch:
/// reported missing (`Err(None)`), failed otherwise (`Err(Some)`), or found
/// with its HEAD flag (`Ok`). Only a found branch that is not HEAD may go.
pub open spec fn gate_answers(
    name: Seq<char>,
    lookup: Result<bool, Option<String>>,
    r: Result<(), GitError>,
) -> bool {
    match lookup {
        Err(None) => r matches Err(GitError::NotFound(t)) && t@ == name,
        Err(Some(m)) => r matches Err(GitError::Git(t)) && t@ == m@,
        Ok(true) => r matches Err(GitError::CannotDeleteHead(t)) && t@ == name,
        Ok(false) => r is Ok,
    }
}

pub fn branch_gate(name: &str, lookup: Result<bool, Option<String>>) -> (r: Result<(), GitError>)
    ensures
        gate_answers(name@, lookup, r),
{
    match lookup {
        Err(None) => Err(GitError::NotFound(String::from_str(name))),
        Err(Some(m)) => Err(GitError::Git(m)),
        Ok(is_head) => check_deletable(name, is_head),
    }
}

/// The answer of a deletion: the guard's refusal, or, past the guard, the
/// deletion's success or the store's failure.
pub open spec fn delete_answers(
    name: Seq<char>,
    lookup: Result<bool, Option<String>>,
    r: Result<(), GitError>,
) -> bool {
    ||| (lookup != Ok::<bool, Option<String>>(false) && gate_answers(name, lookup, r))
    ||| (lookup == Ok::<bool, Option<String>>(false) && (r is Ok || r matches Err(GitError::Git(_))))
}

/// Whether a repository exists, from whether the store could open it: any
/// failure reads as absence.
pub fn exists_answer(opened: Result<(), String>) -> (r: bool)
    ensures
        r == opened is Ok,
{
    match opened {
        Ok(()) => true,
        Err(_) => false,
    }
}

/// A failure to open the repository, or another failure of the store.
pub open spec fn store_failed<T>(r: Result<T, GitError>) -> bool {
    r matches Err(e) && (e is NotFound || e is Git)
}

pub open spec fn opened_answer(opened: Result<(), String>) -> bool {
    opened is Ok
}

/// What `get_file_content` may answer.
pub open spec fn file_content_result(r: Result<Vec<u8>, GitError>) -> bool {
    ||| store_failed(r)
    ||| exists|found: Result<Result<Vec<u8>, String>, String>| #[trigger] file_answers(found, r)
}

/// What `list_tree` may answer.
pub open spec fn tree_listing_result(r: Result<Vec<TreeEntry>, GitError>) -> bool {
    &&& (store_failed(r) || exists|found: Result<Result<Vec<EntryReading>, String>, String>|
        #[trigger] tree_answers(found, r))
    &&& (r matches Ok(v) ==> forall|i: int|
        0 <= i < v.len() ==> ((#[trigger] v[i]).size is Some <==> v[i].kind is Blob))
    &&& (r matches Ok(v) ==> forall|i: int|
        0 <= i < v.len() ==> is_full_hex_id((#[trigger] v[i]).oid@))
}

/// What `list_commits` may answer.
pub open spec fn history_result(limit: usize, r: Result<Vec<CommitInfo>, GitError>) -> bool {
    &&& (store_failed(r) || exists|found: Result<Vec<Option<CommitInfo>>, String>|
        #[trigger] history_answers(found, limit, r))
    &&& (r matches Ok(v) ==> v.len() <= walk_bound(limit))
}

/// What `collect_files_at_path` may answer.
pub open spec fn archive_result(path: Option<Seq<char>>, r: Result<Vec<(String, Vec<u8>)>, GitError>) -> bool {
    ||| store_failed(r)
    ||| exists|found: Result<ArchiveSource, String>| #[trigger] archive_answers(path, found, r)
}

/// What `commit_diff` may answer: a hash that cannot be an object id is a
/// revision error before the store is asked.
pub open spec fn diff_result(commit_hash: Seq<char>, r: Result<String, GitError>) -> bool {
    &&& ((commit_hash.len() == 0 || commit_hash.len() > 40 || exists|i: int|
        0 <= i < commit_hash.len() && !is_hex_char(#[trigger] commit_hash[i])) ==> r matches Err(
        GitError::Revision(_),
    ))
    &&& (r matches Err(GitError::Revision(_)) || store_failed(r) || exists|
        found: Result<Vec<(char, String)>, String>,
    | #[trigger] diff_answers(found, r))
}

/// What `delete_branch` may answer.
pub open spec fn delete_result(name: Seq<char>, r: Result<(), GitError>) -> bool {
    ||| store_failed(r)
    ||| exists|lookup: Result<bool, Option<String>>| #[trigger] delete_answers(name, lookup, r)
}

/// The store of bare repositories under one root directory, one per
/// (owner, repository) pair.
pub struct RepoStore {
    pub root: String,
}

impl RepoStore {
    /// `<root>/<owner_id>/<repo_id>`.
    pub open spec fn path_text(&self, owner_id: Seq<char>, repo_id: Seq<char>) -> Seq<char> {
        self.root@ + seq!['/'] + owner_id + seq!['/'] + repo_id
    }

    pub fn new(root: &str) -> (r: RepoStore)
        ensures
            r.root@ == root@,
    {
        RepoStore { root: String::from_str(root) }
    }

    /// The store under `./repos`.
    pub fn standard() -> (r: RepoStore)
        ensures
            r.root@ == repos_root(),
    {
        proof {
            reveal_strlit("./repos");
        }
        let r = RepoStore { root: String::from_str("./repos") };
        assert(r.root@ =~= repos_root());
        r
    }

    /// The directory of the bare repository of a tenant pair. Pure: nothing
    /// on disk is touched.
    pub fn path_for(&self, owner_id: &str, repo_id: &str) -> (r: String)
        ensures
            r@ == self.path_text(owner_id@, repo_id@),
    {
        proof {
            reveal_strlit("/");
        }
        let mut p = self.root.clone();
        p.append("/");
        p.append(owner_id);
        p.append("/");
        p.append(repo_id);
        assert(p@ =~= self.path_text(owner_id@, repo_id@));
        p
    }

    fn open_repo(&self, owner_id: &str, repo_id: &str) -> (r: Result<git2::Repository, GitError>)
        ensures
            r matches Err(e) ==> e is NotFound || e is Git,
    {
        let path = self.path_for(owner_id, repo_id);
        match store::open_bare(path.as_str()) {
            Ok(repo) => Ok(repo),
            Err(e) => if store::is_not_found(&e) {
                Err(GitError::NotFound(store::error_text(&e)))
            } else {
                Err(store_error(&e))
            },
        }
    }

    /// Creates the bare repository of a tenant pair, with the directories above
    /// it, and returns its path.
    pub fn init(&self, owner_id: &str, repo_id: &str) -> (r: Result<String, GitError>)
        ensures
            r matches Ok(p) ==> p@ == self.path_text(owner_id@, repo_id@),
            r matches Err(e) ==> e is Io || e is Git,
    {
        let path = self.path_for(owner_id, repo_id);
        match store::init_bare(path.as_str()) {
            Ok(_) => Ok(path),
            Err(e) => if store::is_os_error(&e) {
                Err(GitError::Io(store::error_text(&e)))
            } else {
                Err(store_error(&e))
            },
        }
    }

    /// Whether a bare repository can be opened for the tenant pair; any failure
    /// reads as absence.
    pub fn repo_exists(&self, owner_id: &str, repo_id: &str) -> (r: bool)
        ensures
            exists|opened: Result<(), String>| r == #[trigger] opened_answer(opened),
    {
        let path = self.path_for(owner_id, repo_id);
        let opened: Result<(), String> = match store::open_bare(path.as_str()) {
            Ok(_) => Ok(()),
            Err(e) => Err(store::error_text(&e)),
        };
        let ghost o = opened;
        let r = exists_answer(opened);
        assert(r == opened_answer(o));
        r
    }

    /// The local branches, each with its target, HEAD flag and upstream; a
    /// branch without an upstream has `None` there.
    pub fn list_branches(&self, owner_id: &str, repo_id: &str) -> (r: Result<Vec<Branch>, GitError>)
        ensures
            r matches Ok(v) ==> exists|rs: Seq<BranchReading>| #[trigger] branches_from(rs, v@),
            r matches Ok(v) ==> forall|i: int|
                0 <= i < v.len() ==> ((#[trigger] v[i]).oid@.len() == 0 || is_full_hex_id(v[i].oid@)),
            r matches Err(e) ==> e is NotFound || e is Git,
    {
        let repo = match self.open_repo(owner_id, repo_id) {
            Ok(repo) => repo,
            Err(e) => return Err(e),
        };
        let items = match store::branches(&repo, BranchScope::Local) {
            Ok(items) => items,
            Err(e) => return Err(store_error(&e)),
        };
        let mut readings: Vec<BranchReading> = Vec::new();
        let mut i: usize = 0;
        while i < items.len()
            invariant
                i <= items.len(),
                forall|j: int|
                    0 <= j < readings.len() ==> ((#[trigger] readings@[j]).target_hex matches Some(h)
                        ==> is_full_hex_id(h@)),
            decreases items.len() - i,
        {
            let branch = match &items[i] {
                Ok(b) => b,
                Err(e) => return Err(store_error(e)),
            };
            let raw_name = match store::branch_name_bytes(branch) {
                Ok(b) => Some(b),
                Err(_) => None,
            };
            let target_hex = match store::reference_target(store::branch_reference(branch)) {
                Some(id) => Some(store::oid_hex(&id)),
                None => None,
            };
            let upstream_raw = match store::branch_upstream(branch) {
                Ok(up) => match store::branch_name_bytes(&up) {
                    Ok(b) => Some(b),
                    Err(_) => None,
                },
                Err(_) => None,
            };
            readings.push(
                BranchReading {
                    raw_name,
                    target_hex,
                    is_head: store::branch_is_head(branch),
                    upstream_raw,
                },
            );
            i = i + 1;
        }
        let out = branch_records(&readings);
        let ghost listed = out@;
        assert(branches_from(readings@, listed));
        let res: Result<Vec<Branch>, GitError> = Ok(out);
        assert(res->Ok_0@ == listed);
        assert forall|i: int| 0 <= i < listed.len() implies ((#[trigger] listed[i]).oid@.len() == 0
            || is_full_hex_id(listed[i].oid@)) by {
            assert(branch_from(readings@[i], listed[i]));
        }
        res
    }

    /// Deletes the local branch of exactly that name, unless it is the HEAD
    /// branch. A name the store does not find is `NotFound`. Objects stay
    /// where they are.
    pub fn delete_branch(&self, owner_id: &str, repo_id: &str, branch_name: &String) -> (r: Result<
        (),
        GitError,
    >)
        ensures
            delete_result(branch_name@, r),
            r matches Err(GitError::CannotDeleteHead(d)) ==> d@ == branch_name@,
            r matches Err(e) ==> e is NotFound || e is Git || e is CannotDeleteHead,
    {
        let repo = match self.open_repo(owner_id, repo_id) {
            Ok(repo) => repo,
            Err(e) => return Err(e),
        };
        let mut branch = match store::find_branch(&repo, branch_name.as_str(), BranchScope::Local) {
            Ok(b) => b,
            Err(e) => {
                let lookup: Result<bool, Option<String>> = if store::is_not_found(&e) {
                    Err(None)
                } else {
                    Err(Some(store::error_text(&e)))
                };
                let ghost l = lookup;
                let r = branch_gate(branch_name.as_str(), lookup);
                assert(delete_answers(branch_name@, l, r));
                return r;
            },
        };
        let is_head = store::branch_is_head(&branch);
        let gate = branch_gate(branch_name.as_str(), Ok(is_head));
        assert(delete_answers(branch_name@, Ok(is_head), gate));
        match gate {
            Ok(()) => {},
            Err(e) => return Err(e),
        }
        let r = match store::branch_delete(&mut branch) {
            Ok(()) => Ok(()),
            Err(e) => Err(store_error(&e)),
        };
        assert(delete_answers(branch_name@, Ok(false), r));
        r
    }

    /// The history from a revision (or the branch override), most recent
    /// first, in time order combined with topological order: the commits of
    /// the walk that load, the first `limit` of them (all for zero). Ids the
    /// store cannot load as commits are skipped and do not count.
    pub fn list_commits(
        &self,
        owner_id: &str,
        repo_id: &str,
        reference: &str,
        branch: Option<&str>,
        limit: usize,
    ) -> (r: Result<Vec<CommitInfo>, GitError>)
        ensures
            history_result(limit, r),
            r matches Ok(v) ==> exists|steps: Seq<Option<CommitInfo>>|
                v@ == #[trigger] kept(steps, limit),
            r matches Err(e) ==> e is NotFound || e is Git || e is Revision,
    {
        let repo = match self.open_repo(owner_id, repo_id) {
            Ok(repo) => repo,
            Err(e) => return Err(e),
        };
        let spec = RevisionSpec::commit_root(reference, branch).text();
        let obj = match store::revparse_single(&repo, spec.as_str()) {
            Ok(o) => o,
            Err(e) => {
                let found: Result<Vec<Option<CommitInfo>>, String> = Err(store::error_text(&e));
                let ghost g = found;
                let r = history_outcome(found, limit);
                assert(history_answers(g, limit, r));
                return r;
            },
        };
        let start = store::object_id(&obj);
        let mut walk = match store::revwalk(&repo) {
            Ok(w) => w,
            Err(e) => return Err(store_error(&e)),
        };
        match store::set_sorting(&mut walk, WalkOrder::TimeTopological) {
            Ok(()) => {},
            Err(e) => return Err(store_error(&e)),
        }
        match store::walk_push(&mut walk, start) {
            Ok(()) => {},
            Err(e) => return Err(store_error(&e)),
        }
        let mut steps: Vec<Option<CommitInfo>> = Vec::new();
        let mut loaded_count: usize = 0;
        let mut walked: usize = 0;
        while walked < usize::MAX && (limit == 0 || loaded_count < limit)
            invariant
                loaded_count <= walked,
            decreases usize::MAX - walked,
        {
            let id = match store::walk_next(&mut walk) {
                None => break,
                Some(Err(e)) => return Err(store_error(&e)),
                Some(Ok(id)) => id,
            };
            walked = walked + 1;
            match store::find_commit(&repo, id) {
                Ok(c) => {
                    let hash = store::oid_hex(&store::commit_id(&c));
                    let author = store::commit_author(&c);
                    steps.push(
                        Some(
                            commit_record(
                                hash,
                                store::signature_name(&author),
                                store::signature_email(&author),
                                store::time_seconds(&store::commit_time(&c)),
                                store::commit_summary(&c),
                            ),
                        ),
                    );
                    loaded_count = loaded_count + 1;
                },
                Err(_) => steps.push(None),
            }
        }
        let ghost g: Result<Vec<Option<CommitInfo>>, String> = Ok(steps);
        let r = history_outcome(Ok(steps), limit);
        assert(history_answers(g, limit, r));
        assert(r matches Ok(v) ==> v@ == kept(g->Ok_0@, limit));
        r
    }

    /// The immediate children of the root tree of a revision (or the branch
    /// override), or of the tree at `path`: one record per entry, in the
    /// store's order, with a size exactly for blobs. A path naming a file
    /// fails with `NotATree`. A blob whose size cannot be read fails the
    /// listing (an absent size would also meet the data model; a listing
    /// that holds a size for every blob was chosen).
    pub fn list_tree(
        &self,
        owner_id: &str,
        repo_id: &str,
        rev: &str,
        branch: Option<&str>,
        path: Option<&str>,
    ) -> (r: Result<Vec<TreeEntry>, GitError>)
        ensures
            tree_listing_result(r),
            r matches Ok(v) ==> exists|rs: Seq<EntryReading>| #[trigger] entries_from(rs, v@),
            r matches Err(e) ==> e is NotFound || e is Git || e is Revision || e is NotATree,
    {
        let repo = match self.open_repo(owner_id, repo_id) {
            Ok(repo) => repo,
            Err(e) => return Err(e),
        };
        let spec = RevisionSpec::tree_or_path(rev, branch, path).text();
        let obj = match store::revparse_single(&repo, spec.as_str()) {
            Ok(o) => o,
            Err(e) => {
                let found: Result<Result<Vec<EntryReading>, String>, String> = Err(store::error_text(&e));
                let ghost g = found;
                let r = tree_outcome(found);
                assert(tree_answers(g, r));
                return r;
            },
        };
        let tree = match store::peel_to_tree(&obj) {
            Ok(t) => t,
            Err(e) => {
                let found: Result<Result<Vec<EntryReading>, String>, String> = Ok(Err(store::error_text(&e)));
                let ghost g = found;
                let r = tree_outcome(found);
                assert(tree_answers(g, r));
                return r;
            },
        };
        let n = store::tree_len(&tree);
        let mut readings: Vec<EntryReading> = Vec::new();
        let mut i: usize = 0;
        while i < n
            invariant
                i <= n,
                forall|j: int|
                    0 <= j < readings.len() ==> (((#[trigger] readings@[j]).kind == Some(
                        ObjKind::Blob,
                    )) <==> readings@[j].blob_size is Some),
                forall|j: int| 0 <= j < readings.len() ==> is_full_hex_id((#[trigger] readings@[j]).oid@),
            decreases n - i,
        {
            match store::tree_get(&tree, i) {
                Some(entry) => {
                    let kind = store::entry_kind(&entry);
                    let id = store::entry_id(&entry);
                    let blob_size = if kind == Some(ObjKind::Blob) {
                        match store::find_blob(&repo, id) {
                            Ok(b) => Some(store::blob_size(&b)),
                            Err(e) => return Err(store_error(&e)),
                        }
                    } else {
                        None
                    };
                    readings.push(
                        EntryReading {
                            mode: store::entry_filemode(&entry),
                            kind,
                            oid: store::oid_hex(&id),
                            blob_size,
                            name: store::entry_name(&entry),
                        },
                    );
                },
                None => {},
            }
            i = i + 1;
        }
        let ghost rs = readings@;
        let ghost g: Result<Result<Vec<EntryReading>, String>, String> = Ok(Ok(readings));
        let r = tree_outcome(Ok(Ok(readings)));
        assert(tree_answers(g, r));
        proof {
            if r is Ok {
                let v = r->Ok_0;
                assert(entries_from(rs, v@));
                assert forall|i: int| 0 <= i < v.len() implies ((#[trigger] v[i]).size is Some
                    <==> v[i].kind is Blob) by {
                    assert(entry_from(rs[i], v@[i]));
                }
                assert forall|i: int| 0 <= i < v.len() implies is_full_hex_id(
                    (#[trigger] v[i]).oid@,
                ) by {
                    assert(entry_from(rs[i], v@[i]));
                }
            }
        }
        r
    }

    /// The bytes of the file at `path` as of a revision (or the branch
    /// override), verbatim. A path naming a directory fails with `NotABlob`.
    pub fn get_file_content(
        &self,
        owner_id: &str,
        repo_id: &str,
        rev: &str,
        branch: Option<&str>,
        path: &str,
    ) -> (r: Result<Vec<u8>, GitError>)
        ensures
            file_content_result(r),
            r matches Err(e) ==> e is NotFound || e is Git || e is Revision || e is NotABlob,
    {
        let repo = match self.open_repo(owner_id, repo_id) {
            Ok(repo) => repo,
            Err(e) => return Err(e),
        };
        let spec = RevisionSpec::at_path(rev, branch, path).text();
        let found: Result<Result<Vec<u8>, String>, String> = match store::revparse_single(
            &repo,
            spec.as_str(),
        ) {
            Ok(obj) => {
                let peeled = match store::peel_to_blob(&obj) {
                    Ok(b) => Ok(store::blob_content(&b)),
                    Err(e) => Err(store::error_text(&e)),
                };
                Ok(peeled)
            },
            Err(e) => Err(store::error_text(&e)),
        };
        let ghost g = found;
        let r = file_outcome(found);
        assert(file_answers(g, r));
        r
    }

    /// The patch from a commit's first parent (or from nothing, for a root
    /// commit) to the commit, as text. A hash that cannot be an object id
    /// fails with `Revision`.
    pub fn commit_diff(&self, owner_id: &str, repo_id: &str, commit_hash: &str) -> (r: Result<
        String,
        GitError,
    >)
        ensures
            diff_result(commit_hash@, r),
            r matches Err(e) ==> e is NotFound || e is Git || e is Revision,
    {
        let id = match store::parse_oid(commit_hash) {
            Ok(id) => id,
            Err(e) => return Err(revision_error(&e)),
        };
        let repo = match self.open_repo(owner_id, repo_id) {
            Ok(repo) => repo,
            Err(e) => return Err(e),
        };
        let commit = match store::find_commit(&repo, id) {
            Ok(c) => c,
            Err(e) => {
                let found: Result<Vec<(char, String)>, String> = Err(store::error_text(&e));
                let ghost g = found;
                let r = diff_outcome(found);
                assert(diff_answers(g, r));
                return r;
            },
        };
        let tree = match store::commit_tree(&commit) {
            Ok(t) => t,
            Err(e) => return Err(store_error(&e)),
        };
        let diff = match diff_base(store::commit_parent_count(&commit)) {
            Some(i) => {
                let parent = match store::commit_parent(&commit, i) {
                    Ok(p) => p,
                    Err(e) => return Err(store_error(&e)),
                };
                let parent_tree = match store::commit_tree(&parent) {
                    Ok(t) => t,
                    Err(e) => return Err(store_error(&e)),
                };
                store::diff_trees(&repo, Some(&parent_tree), &tree)
            },
            None => store::diff_trees(&repo, None, &tree),
        };
        let diff = match diff {
            Ok(d) => d,
            Err(e) => return Err(store_error(&e)),
        };
        let text = match store::patch_lines(&diff) {
            Ok(lines) => {
                let ghost g: Result<Vec<(char, String)>, String> = Ok(lines);
                let r = diff_outcome(Ok(lines));
                assert(diff_answers(g, r));
                r
            },
            Err(e) => Err(store_error(&e)),
        };
        text
    }

    /// Every file under a revision (or the branch override) and an optional
    /// path, as archive-relative paths and bytes. A blob gives that single
    /// file; a tree gives each blob below it, in pre-order, under a
    /// directory named after the last component of `path` (or directly at
    /// the top without a path). A blob that cannot be read fails the whole
    /// collection.
    pub fn collect_files_at_path(
        &self,
        owner_id: &str,
        repo_id: &str,
        rev: &str,
        branch: Option<&str>,
        path: Option<&str>,
    ) -> (r: Result<Vec<(String, Vec<u8>)>, GitError>)
        ensures
            archive_result(opt_view(path), r),
            r matches Ok(files) ==> exists|src: ArchiveSource|
                files_view(files@) == #[trigger] archive_of(opt_view(path), src),
            r matches Err(e) ==> e is NotFound || e is Git || e is Revision,
    {
        let repo = match self.open_repo(owner_id, repo_id) {
            Ok(repo) => repo,
            Err(e) => return Err(e),
        };
        let spec = RevisionSpec::tree_or_path(rev, branch, path).text();
        let obj = match store::revparse_single(&repo, spec.as_str()) {
            Ok(o) => o,
            Err(e) => {
                let found: Result<ArchiveSource, String> = Err(store::error_text(&e));
                let ghost g = found;
                let r = archive_outcome(path, found);
                assert(archive_answers(opt_view(path), g, r));
                return r;
            },
        };
        let src = match store::peel_to_blob(&obj) {
            Ok(blob) => ArchiveSource::Blob {
                oid_hex: store::oid_hex(&store::object_id(&obj)),
                content: store::blob_content(&blob),
            },
            Err(_) => {
                let tree = match store::peel_to_tree(&obj) {
                    Ok(t) => t,
                    Err(e) => return Err(store_error(&e)),
                };
                let walked = match store::walk_preorder(&tree) {
                    Ok(w) => w,
                    Err(e) => return Err(store_error(&e)),
                };
                let mut items: Vec<WalkItem> = Vec::new();
                let mut i: usize = 0;
                while i < walked.len()
                    invariant
                        i <= walked.len(),
                    decreases walked.len() - i,
                {
                    let entry = &walked[i].1;
                    let kind = store::entry_kind(entry);
                    let content = if kind == Some(ObjKind::Blob) {
                        match store::find_blob(&repo, store::entry_id(entry)) {
                            Ok(b) => Some(store::blob_content(&b)),
                            Err(e) => return Err(store_error(&e)),
                        }
                    } else {
                        None
                    };
                    let name_bytes = store::entry_name_bytes(entry);
                    items.push(
                        WalkItem {
                            dir: walked[i].0.clone(),
                            kind,
                            name: store::lossy_text(name_bytes.as_slice()),
                            content,
                        },
                    );
                    i = i + 1;
                }
                ArchiveSource::Tree { items }
            },
        };
        let ghost g: Result<ArchiveSource, String> = Ok(src);
        let r = archive_outcome(path, Ok(src));
        assert(archive_answers(opt_view(path), g, r));
        assert(r matches Ok(files) ==> files_view(files@) == archive_of(opt_view(path), g->Ok_0));
        r
    }

    /// The ref a repository page opens on; `HEAD` when the branches cannot
    /// be listed.
    pub fn default_ref(&self, owner_id: &str, repo_id: &str) -> (r: String)
        ensures
            exists|listing: Result<Vec<Branch>, GitError>| r@ == #[trigger] default_ref_answer(
                listing,
            ),
    {
        let listing = self.list_branches(owner_id, repo_id);
        let r = default_ref_from(&listing);
        assert(r@ == default_ref_answer(listing));
        r
    }

}

/// Tenants do not share directories: for pairs whose owner ids have one
/// width and whose repository ids have one width (fixed-width ids), distinct
/// pairs get directories that differ and lie neither inside the other.
pub proof fn lemma_tenant_dirs_disjoint(
    store: RepoStore,
    o1: Seq<char>,
    r1: Seq<char>,
    o2: Seq<char>,
    r2: Seq<char>,
)
    requires
        o1.len() == o2.len(),
        r1.len() == r2.len(),
        o1 != o2 || r1 != r2,
    ensures
        store.path_text(o1, r1) != store.path_text(o2, r2),
        !starts_with(store.path_text(o2, r2), store.path_text(o1, r1) + seq!['/']),
        !starts_with(store.path_text(o1, r1), store.path_text(o2, r2) + seq!['/']),
{
    let p1 = store.path_text(o1, r1);
    let p2 = store.path_text(o2, r2);
    let k = store.root@.len() + 1;
    let w = o1.len();
    assert(p1.subrange(k as int, (k + w) as int) =~= o1);
    assert(p2.subrange(k as int, (k + w) as int) =~= o2);
    assert(p1.subrange((k + w + 1) as int, p1.len() as int) =~= r1);
    assert(p2.subrange((k + w + 1) as int, p2.len() as int) =~= r2);
}

/// The directory of a tenant pair's repository under `./repos`.
pub fn repo_path(owner_id: &str, repo_id: &str) -> (r: String)
    ensures
        r@ == repo_path_text(owner_id@, repo_id@),
{
    RepoStore::standard().path_for(owner_id, repo_id)
}

/// `RepoStore::init` under `./repos`.
pub fn init(owner_id: &str, repo_id: &str) -> (r: Result<String, GitError>)
    ensures
        r matches Ok(p) ==> p@ == repo_path_text(owner_id@, repo_id@),
        r matches Err(e) ==> e is Io || e is Git,
{
    RepoStore::standard().init(owner_id, repo_id)
}

/// `RepoStore::repo_exists` under `./repos`.
pub fn repo_exists(owner_id: &str, repo_id: &str) -> (r: bool)
    ensures
        exists|opened: Result<(), String>| r == #[trigger] opened_answer(opened),
{
    RepoStore::standard().repo_exists(owner_id, repo_id)
}

/// `RepoStore::list_branches` under `./repos`.
pub fn list_branches(owner_id: &str, repo_id: &str) -> (r: Result<Vec<Branch>, GitError>)
    ensures
        r matches Ok(v) ==> exists|rs: Seq<BranchReading>| #[trigger] branches_from(rs, v@),
        r matches Ok(v) ==> forall|i: int|
            0 <= i < v.len() ==> ((#[trigger] v[i]).oid@.len() == 0 || is_full_hex_id(v[i].oid@)),
        r matches Err(e) ==> e is NotFound || e is Git,
{
    RepoStore::standard().list_branches(owner_id, repo_id)
}

/// `RepoStore::delete_branch` under `./repos`.
pub fn delete_branch(owner_id: &str, repo_id: &str, branch_name: &String) -> (r: Result<
    (),
    GitError,
>)
    ensures
        delete_result(branch_name@, r),
        r matches Err(GitError::CannotDeleteHead(d)) ==> d@ == branch_name@,
        r matches Err(e) ==> e is NotFound || e is Git || e is CannotDeleteHead,
{
    RepoStore::standard().delete_branch(owner_id, repo_id, branch_name)
}

/// `RepoStore::list_commits` under `./repos`.
pub fn list_commits(
    owner_id: &str,
    repo_id: &str,
    reference: &str,
    branch: Option<&str>,
    limit: usize,
) -> (r: Result<Vec<CommitInfo>, GitError>)
    ensures
        history_result(limit, r),
        r matches Ok(v) ==> exists|steps: Seq<Option<CommitInfo>>|
            v@ == #[trigger] kept(steps, limit),
        r matches Err(e) ==> e is NotFound || e is Git || e is Revision,
{
    RepoStore::standard().list_commits(owner_id, repo_id, reference, branch, limit)
}

/// `RepoStore::list_tree` under `./repos`.
pub fn list_tree(
    owner_id: &str,
    repo_id: &str,
    rev: &str,
    branch: Option<&str>,
    path: Option<&str>,
) -> (r: Result<Vec<TreeEntry>, GitError>)
    ensures
        tree_listing_result(r),
        r matches Ok(v) ==> exists|rs: Seq<EntryReading>| #[trigger] entries_from(rs, v@),
        r matches Err(e) ==> e is NotFound || e is Git || e is Revision || e is NotATree,
{
    RepoStore::standard().list_tree(owner_id, repo_id, rev, branch, path)
}

/// `RepoStore::get_file_content` under `./repos`.
pub fn get_file_content(
    owner_id: &str,
    repo_id: &str,
    rev: &str,
    branch: Option<&str>,
    path: &str,
) -> (r: Result<Vec<u8>, GitError>)
    ensures
        file_content_result(r),
        r matches Err(e) ==> e is NotFound || e is Git || e is Revision || e is NotABlob,
{
    RepoStore::standard().get_file_content(owner_id, repo_id, rev, branch, path)
}

/// `RepoStore::commit_diff` under `./repos`.
pub fn commit_diff(owner_id: &str, repo_id: &str, commit_hash: &str) -> (r: Result<
    String,
    GitError,
>)
    ensures
        diff_result(commit_hash@, r),
        r matches Err(e) ==> e is NotFound || e is Git || e is Revision,
{
    RepoStore::standard().commit_diff(owner_id, repo_id, commit_hash)
}

/// `RepoStore::collect_files_at_path` under `./repos`.
pub fn collect_files_at_path(
    owner_id: &str,
    repo_id: &str,
    rev: &str,
    branch: Option<&str>,
    path: Option<&str>,
) -> (r: Result<Vec<(String, Vec<u8>)>, GitError>)
    ensures
        archive_result(opt_view(path), r),
        r matches Ok(files) ==> exists|src: ArchiveSource|
            files_view(files@) == #[trigger] archive_of(opt_view(path), src),
        r matches Err(e) ==> e is NotFound || e is Git || e is Revision,
{
    RepoStore::standard().collect_files_at_path(owner_id, repo_id, rev, branch, path)
}

} // verus!
