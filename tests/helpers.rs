use gitstore::alert::AlertKind;
use gitstore::auth::bearer_token;
use gitstore::errors::{AuthError, GitError};
use gitstore::http_paths::{
    components, is_public, parse_request_path, resolve_request_path, strip_git, tenant_from_repo_dir,
};
use gitstore::model::{classify_entry, format_mode, EntryKind, ObjKind};
use gitstore::paths::{file_name, is_hex_hash, join_rel_path, parent_path, revision_and_branch};
use gitstore::query::{archive_file_name, blob_response, download_from, file_answer, CommitsQuery, ContentQuery, ContentResponse, ErrorResponse};
use gitstore::repo::{
    archive_outcome, branch_gate, diff_outcome, exists_answer, file_outcome, history_outcome,
    tree_outcome, archive_files, branch_records, default_ref_from, diff_base, kept_commits, tree_entries,
    ArchiveSource, BranchReading, EntryReading, WalkItem, default_ref_of, repo_path, RepoStore, archive_entry_path, archive_prefix, blob_archive_name, branch_record, check_deletable,
    commit_record, render_patch, tree_entry_record,
};
use gitstore::revspec::{select_base, RevisionSpec};

#[test]
fn repo_path_joins_root_and_ids() {
    assert_eq!(repo_path("aa11", "bb22"), "./repos/aa11/bb22");
    assert_eq!(RepoStore::standard().path_for("o", "r"), "./repos/o/r");
    assert_eq!(RepoStore::new("/srv/git").path_for("o", "r"), "/srv/git/o/r");
}

#[test]
fn revision_spec_texts() {
    assert_eq!(RevisionSpec::commit_root("HEAD", None).text(), "HEAD");
    assert_eq!(RevisionSpec::commit_root("HEAD", Some("dev")).text(), "dev");
    assert_eq!(RevisionSpec::at_path("main", None, "src/lib.rs").text(), "main:src/lib.rs");
    assert_eq!(RevisionSpec::tree_or_path("main", None, None).text(), "main^{tree}");
    assert_eq!(RevisionSpec::tree_or_path("main", Some("x"), Some("d")).text(), "x:d");
    assert_eq!(select_base("abc", Some("b")), "b");
    assert_eq!(select_base("abc", None), "abc");
}

#[test]
fn mode_is_six_octal_digits() {
    assert_eq!(format_mode(0o100644), "100644");
    assert_eq!(format_mode(0o040000), "040000");
    assert_eq!(format_mode(0o160000), "160000");
    assert_eq!(format_mode(0), "000000");
    assert_eq!(format_mode(0o1234567), "1234567");
}

#[test]
fn entry_kinds() {
    assert!(matches!(classify_entry(Some(ObjKind::Blob)), EntryKind::Blob));
    assert!(matches!(classify_entry(Some(ObjKind::Tree)), EntryKind::Tree));
    assert!(matches!(classify_entry(Some(ObjKind::Commit)), EntryKind::Commit));
    assert!(matches!(classify_entry(Some(ObjKind::Tag)), EntryKind::Other(ref s) if s == "Tag"));
    assert!(matches!(classify_entry(None), EntryKind::Other(ref s) if s == "unknown"));
}

#[test]
fn file_names_of_paths() {
    assert_eq!(file_name("dir"), Some("dir".to_string()));
    assert_eq!(file_name("a/b/c.txt"), Some("c.txt".to_string()));
    assert_eq!(file_name("a/b/"), Some("b".to_string()));
    assert_eq!(file_name("a/./"), Some("a".to_string()));
    assert_eq!(file_name("a/.."), None);
    assert_eq!(file_name(""), None);
    assert_eq!(file_name("/"), None);
    assert_eq!(file_name("."), None);
}

#[test]
fn relative_path_helpers() {
    assert_eq!(join_rel_path(Some("src/"), "lib.rs"), "src/lib.rs");
    assert_eq!(join_rel_path(Some("src//"), "lib.rs"), "src/lib.rs");
    assert_eq!(join_rel_path(Some(""), "lib.rs"), "lib.rs");
    assert_eq!(join_rel_path(None, "lib.rs"), "lib.rs");
    assert_eq!(parent_path("a/b/c"), Some("a/b".to_string()));
    assert_eq!(parent_path("a"), None);
    assert_eq!(parent_path("/a"), Some(String::new()));
}

#[test]
fn hex_hashes() {
    assert!(is_hex_hash("abcdef0"));
    assert!(is_hex_hash("ABCDEF0123456789abcdef0123456789abcdef01"));
    assert!(!is_hex_hash("abcdef"));
    assert!(!is_hex_hash("abcdefg"));
    assert!(!is_hex_hash(&"a".repeat(65)));
    assert!(is_hex_hash(&"a".repeat(64)));
}

#[test]
fn archive_paths() {
    assert_eq!(archive_prefix(None), "");
    assert_eq!(archive_prefix(Some("dir")), "dir/");
    assert_eq!(archive_prefix(Some("a/b/")), "b/");
    assert_eq!(archive_prefix(Some("..")), "root/");
    assert_eq!(archive_entry_path("dir/", "sub/", "x.txt"), "dir/sub/x.txt");
    assert_eq!(archive_entry_path("", "", "x.txt"), "x.txt");
    assert_eq!(blob_archive_name(Some("dir/b.txt"), "ff"), "b.txt");
    assert_eq!(blob_archive_name(Some(".."), "ff"), "file");
    assert_eq!(blob_archive_name(None, "ff00"), "ff00.bin");
}

#[test]
fn archive_names() {
    assert_eq!(archive_file_name("proj", Some("src/dir"), None), "dir.zip");
    assert_eq!(archive_file_name("proj", None, None), "proj-HEAD.zip");
    assert_eq!(archive_file_name("proj", None, Some("dev")), "proj-dev.zip");
    assert_eq!(archive_file_name("proj", Some(".."), Some("dev")), "proj-dev.zip");
}

#[test]
fn patch_rendering() {
    let lines = vec![
        ('F', "diff --git a/x b/x\n".to_string()),
        ('H', "@@ -1 +1 @@\n".to_string()),
        ('-', "old\n".to_string()),
        ('+', "new\n".to_string()),
        (' ', "same\n".to_string()),
    ];
    assert_eq!(render_patch(&lines), "diff --git a/x b/x\n@@ -1 +1 @@\n-old\n+new\n same\n");
    assert_eq!(render_patch(&Vec::new()), "");
}

#[test]
fn deletion_guard() {
    assert!(check_deletable("dev", false).is_ok());
    assert!(matches!(check_deletable("main", true), Err(GitError::CannotDeleteHead(ref n)) if n == "main"));
}

#[test]
fn error_statuses_and_messages() {
    assert_eq!(GitError::NotFound("x".into()).status_code(), 404);
    assert_eq!(GitError::Revision("x".into()).status_code(), 400);
    assert_eq!(GitError::CannotDeleteHead("x".into()).status_code(), 400);
    assert_eq!(GitError::NotABlob("x".into()).status_code(), 400);
    assert_eq!(GitError::NotATree("x".into()).status_code(), 400);
    assert_eq!(GitError::Git("x".into()).status_code(), 500);
    assert_eq!(GitError::Io("x".into()).status_code(), 500);
    assert_eq!(GitError::Parse("x".into()).status_code(), 500);
    assert_eq!(GitError::Git("boom".into()).message(), "git failed: boom");
    assert_eq!(GitError::Io("disk".into()).message(), "I/O error: disk");
    assert_eq!(ErrorResponse::from_git_error(&GitError::Parse("p".into())).error, "Invalid output: p");
    assert_eq!(AuthError::InvalidCredentials.message(), "Unauthorized");
    assert_eq!(AuthError::MissingAuthHeader.message(), "Missing Authorization header");
    assert_eq!(AuthError::InvalidAuthHeader.message(), "Invalid Authorization header");
    assert_eq!(AuthError::Internal("db".into()).message(), "Internal Server Error: db");
}

#[test]
fn records_from_store_values() {
    let b = branch_record(Some(b"main".to_vec()), Some("ab".into()), true, Some(b"origin/main".to_vec()));
    assert_eq!(b.name, "main");
    assert_eq!(b.oid, "ab");
    assert!(b.is_head);
    assert_eq!(b.upstream, Some("origin/main".to_string()));
    let b = branch_record(None, None, false, None);
    assert_eq!(b.name, "<invalid-utf8>");
    assert_eq!(b.oid, "");
    assert_eq!(b.upstream, None);
    let b = branch_record(Some(vec![0x66, 0xff]), None, false, None);
    assert_eq!(b.name, "f\u{fffd}");

    let c = commit_record("h".into(), Some("n".into()), None, -5, Some("s".into()));
    assert_eq!((c.hash.as_str(), c.name.as_str(), c.email.as_str(), c.timestamp_secs, c.subject.as_str()), ("h", "n", "", -5, "s"));

    let t = tree_entry_record(0o100755, Some(ObjKind::Blob), "id".into(), Some(12), Some("run.sh".into()));
    assert_eq!(t.mode, "100755");
    assert!(matches!(t.kind, EntryKind::Blob));
    assert_eq!(t.size, Some(12));
    assert_eq!(t.path, "run.sh");
    let t = tree_entry_record(0o040000, Some(ObjKind::Tree), "id".into(), Some(12), None);
    assert_eq!(t.size, None);
    assert_eq!(t.path, "<invalid-utf8>");
}

#[test]
fn queries_name_their_target() {
    let q = ContentQuery { id: "1".into(), path: None, branch: Some("dev".into()), commit: None };
    assert_eq!(q.target(), ("dev".to_string(), Some("dev".to_string())));
    let q = ContentQuery { id: "1".into(), path: None, branch: Some("dev".into()), commit: Some("abc".into()) };
    assert_eq!(q.target(), ("abc".to_string(), None));
    let q = ContentQuery { id: "1".into(), path: None, branch: None, commit: None };
    assert_eq!(q.target(), ("HEAD".to_string(), None));
    let q = CommitsQuery { id: "1".into(), branch: None, limit: None };
    assert_eq!(q.target(), ("HEAD".to_string(), 50));
    let q = CommitsQuery { id: "1".into(), branch: Some("x".into()), limit: Some(0) };
    assert_eq!(q.target(), ("x".to_string(), 0));
}

#[test]
fn blob_response_is_base64() {
    match blob_response(&b"hello".to_vec()) {
        ContentResponse::Blob { content_base64 } => assert_eq!(content_base64, "aGVsbG8="),
        ContentResponse::Tree { .. } => panic!("expected a file"),
    }
    match blob_response(&Vec::new()) {
        ContentResponse::Blob { content_base64 } => assert_eq!(content_base64, ""),
        ContentResponse::Tree { .. } => panic!("expected a file"),
    }
}

#[test]
fn alert_classes() {
    assert_eq!(AlertKind::Info.class(), "alert-info");
    assert_eq!(AlertKind::Warning.class(), "alert-warning");
    assert_eq!(AlertKind::Error.class(), "alert-error");
    assert_eq!(AlertKind::Success.class(), "alert-success");
}

#[test]
fn request_paths_split() {
    let t = parse_request_path("/alice/proj.git/info/refs").unwrap();
    assert_eq!((t.login.as_str(), t.repo_name.as_str(), t.rest.as_deref()), ("alice", "proj", Some("info/refs")));
    let t = parse_request_path("/alice/proj").unwrap();
    assert_eq!((t.login.as_str(), t.repo_name.as_str(), t.rest.as_deref()), ("alice", "proj", None));
    let t = parse_request_path("///bob/x.git").unwrap();
    assert_eq!((t.login.as_str(), t.repo_name.as_str(), t.rest.as_deref()), ("bob", "x", None));
    let t = parse_request_path("/a/").unwrap();
    assert_eq!((t.login.as_str(), t.repo_name.as_str(), t.rest.as_deref()), ("a", "", None));
    assert!(parse_request_path("/alice").is_none());
    assert!(parse_request_path("").is_none());
    assert_eq!(strip_git("x.git.git"), "x.git");
    assert_eq!(strip_git(".git"), "");
    assert_eq!(strip_git("git"), "git");
}

#[test]
fn request_paths_resolve() {
    let st = RepoStore::standard();
    assert_eq!(
        resolve_request_path(&st, "/alice/proj.git/info/refs", Some(("u1", "r1")), Some("info/refs")),
        "./repos/u1/r1/info/refs"
    );
    assert_eq!(resolve_request_path(&st, "/alice/proj.git", Some(("u1", "r1")), None), "./repos/u1/r1");
    assert_eq!(resolve_request_path(&st, "/alice/proj.git//x", Some(("u1", "r1")), Some("/x")), "/x");
    assert_eq!(resolve_request_path(&st, "/nobody/none.git", None, None), "./repos/nobody/none.git");
}

#[test]
fn repository_dirs_name_tenants() {
    assert_eq!(components("/a//./b/"), vec!["a".to_string(), "b".to_string()]);
    assert_eq!(components(""), Vec::<String>::new());
    assert_eq!(
        tenant_from_repo_dir("/srv/./repos/u1/r1/objects"),
        Some(("u1".to_string(), "r1".to_string()))
    );
    assert_eq!(tenant_from_repo_dir("repos//a/b"), Some(("a".to_string(), "b".to_string())));
    assert_eq!(tenant_from_repo_dir("a/repos/x/repos/y"), Some(("x".to_string(), "repos".to_string())));
    assert_eq!(tenant_from_repo_dir("./repos/u1"), None);
    assert_eq!(tenant_from_repo_dir("/srv/git/u1/r1"), None);
    assert!(is_public(Some(false)));
    assert!(!is_public(Some(true)));
    assert!(!is_public(None));
}

#[test]
fn default_ref_prefers_head() {
    let b = |name: &str, head: bool| branch_record(Some(name.as_bytes().to_vec()), None, head, None);
    assert_eq!(default_ref_of(&vec![b("dev", false), b("main", true)]), "main");
    assert_eq!(default_ref_of(&vec![b("dev", false), b("x", false)]), "dev");
    assert_eq!(default_ref_of(&Vec::new()), "HEAD");
}

#[test]
fn bearer_tokens() {
    assert_eq!(bearer_token(Some("Bearer abc")).unwrap(), "abc");
    assert_eq!(bearer_token(Some("Bearer ")).unwrap(), "");
    assert!(matches!(bearer_token(Some("Basic abc")), Err(AuthError::InvalidAuthHeader)));
    assert!(matches!(bearer_token(Some("Bear")), Err(AuthError::InvalidAuthHeader)));
    assert!(matches!(bearer_token(None), Err(AuthError::MissingAuthHeader)));
}

#[test]
fn page_revisions() {
    assert_eq!(revision_and_branch("main"), ("main".to_string(), Some("main".to_string())));
    assert_eq!(revision_and_branch("abc1234"), ("abc1234".to_string(), None));
    assert_eq!(revision_and_branch("abc123"), ("abc123".to_string(), Some("abc123".to_string())));
}

fn commit(h: &str) -> gitstore::model::CommitInfo {
    commit_record(h.into(), Some("n".into()), Some("e".into()), 1, Some("s".into()))
}

fn hashes(v: &[gitstore::model::CommitInfo]) -> Vec<&str> {
    v.iter().map(|c| c.hash.as_str()).collect()
}

#[test]
fn walk_keeps_loaded_commits_up_to_limit() {
    let steps = vec![Some(commit("c3")), None, Some(commit("c2")), Some(commit("c1"))];
    assert_eq!(hashes(&kept_commits(&steps, 0)), vec!["c3", "c2", "c1"]);
    assert_eq!(hashes(&kept_commits(&steps, 2)), vec!["c3", "c2"]);
    assert_eq!(hashes(&kept_commits(&steps, 1)), vec!["c3"]);
    assert_eq!(hashes(&kept_commits(&steps, 9)), vec!["c3", "c2", "c1"]);
    assert!(kept_commits(&vec![None, None], 0).is_empty());
}

#[test]
fn diff_compares_first_parent() {
    assert_eq!(diff_base(0), None);
    assert_eq!(diff_base(1), Some(0));
    assert_eq!(diff_base(3), Some(0));
}

fn item(dir: &str, kind: Option<ObjKind>, name: &str, content: Option<&[u8]>) -> WalkItem {
    WalkItem { dir: dir.into(), kind, name: name.into(), content: content.map(|c| c.to_vec()) }
}

#[test]
fn archives_from_sources() {
    let blob = ArchiveSource::Blob { oid_hex: "ab".into(), content: b"x".to_vec() };
    assert_eq!(archive_files(Some("d/f.txt"), &blob), vec![("f.txt".to_string(), b"x".to_vec())]);
    assert_eq!(archive_files(None, &blob), vec![("ab.bin".to_string(), b"x".to_vec())]);
    let tree = ArchiveSource::Tree {
        items: vec![
            item("", Some(ObjKind::Blob), "a.txt", Some(b"A")),
            item("", Some(ObjKind::Tree), "dir", None),
            item("dir/", Some(ObjKind::Blob), "b.txt", Some(b"B")),
            item("", Some(ObjKind::Commit), "sub", None),
        ],
    };
    assert_eq!(
        archive_files(None, &tree),
        vec![("a.txt".to_string(), b"A".to_vec()), ("dir/b.txt".to_string(), b"B".to_vec())]
    );
    assert_eq!(
        archive_files(Some("x/top"), &tree),
        vec![("top/a.txt".to_string(), b"A".to_vec()), ("top/dir/b.txt".to_string(), b"B".to_vec())]
    );
    assert!(archive_files(None, &ArchiveSource::Tree { items: Vec::new() }).is_empty());
}

#[test]
fn tree_records_from_readings() {
    let rs = vec![
        EntryReading { mode: 0o100644, kind: Some(ObjKind::Blob), oid: "a".into(), blob_size: Some(3), name: Some("f".into()) },
        EntryReading { mode: 0o040000, kind: Some(ObjKind::Tree), oid: "b".into(), blob_size: None, name: None },
    ];
    let es = tree_entries(&rs);
    assert_eq!(es.len(), 2);
    assert_eq!((es[0].mode.as_str(), es[0].size, es[0].path.as_str(), es[0].oid.as_str()), ("100644", Some(3), "f", "a"));
    assert!(matches!(es[1].kind, EntryKind::Tree));
    assert_eq!((es[1].size, es[1].path.as_str()), (None, "<invalid-utf8>"));
}

#[test]
fn branch_records_from_readings() {
    let rs = vec![
        BranchReading { raw_name: Some(b"main".to_vec()), target_hex: Some("aa".into()), is_head: true, upstream_raw: None },
        BranchReading { raw_name: None, target_hex: None, is_head: false, upstream_raw: Some(b"o/x".to_vec()) },
    ];
    let bs = branch_records(&rs);
    assert_eq!((bs[0].name.as_str(), bs[0].oid.as_str(), bs[0].is_head), ("main", "aa", true));
    assert_eq!((bs[1].name.as_str(), bs[1].upstream.as_deref()), ("<invalid-utf8>", Some("o/x")));
}

#[test]
fn file_read_answers_or_falls_back() {
    match file_answer(Ok(b"hi".to_vec())) {
        Some(ContentResponse::Blob { content_base64 }) => assert_eq!(content_base64, "aGk="),
        _ => panic!("expected a file answer"),
    }
    assert!(file_answer(Err(GitError::NotABlob("dir".into()))).is_none());
}

#[test]
fn downloads_need_files() {
    assert!(matches!(download_from(Vec::new(), "a.zip".into()), Err(GitError::Revision(_))));
    let files = vec![("a".to_string(), b"1".to_vec())];
    assert_eq!(download_from(files.clone(), "a.zip".into()).unwrap(), ("a.zip".to_string(), files));
}

#[test]
fn default_ref_of_listing() {
    let b = branch_record(Some(b"dev".to_vec()), None, false, None);
    assert_eq!(default_ref_from(&Ok(vec![b])), "dev");
    assert_eq!(default_ref_from(&Err(GitError::NotFound("r".into()))), "HEAD");
}

#[test]
fn file_reads_map_store_outcomes() {
    assert!(matches!(file_outcome(Err("bad rev".into())), Err(GitError::Revision(ref m)) if m == "bad rev"));
    assert!(matches!(file_outcome(Ok(Err("a tree".into()))), Err(GitError::NotABlob(ref m)) if m == "a tree"));
    assert_eq!(file_outcome(Ok(Ok(b"bytes".to_vec()))).unwrap(), b"bytes".to_vec());
}

#[test]
fn tree_listings_map_store_outcomes() {
    assert!(matches!(tree_outcome(Err("m".into())), Err(GitError::Revision(_))));
    assert!(matches!(tree_outcome(Ok(Err("a blob".into()))), Err(GitError::NotATree(ref m)) if m == "a blob"));
    let rs = vec![EntryReading { mode: 0o100644, kind: Some(ObjKind::Blob), oid: "a".into(), blob_size: Some(1), name: Some("f".into()) }];
    let es = tree_outcome(Ok(Ok(rs))).unwrap();
    assert_eq!((es.len(), es[0].path.as_str()), (1, "f"));
}

#[test]
fn histories_map_store_outcomes() {
    assert!(matches!(history_outcome(Err("m".into()), 0), Err(GitError::Revision(_))));
    let v = history_outcome(Ok(vec![None, Some(commit("c1")), Some(commit("c0"))]), 1).unwrap();
    assert_eq!(hashes(&v), vec!["c1"]);
}

#[test]
fn archives_map_store_outcomes() {
    assert!(matches!(archive_outcome(None, Err("m".into())), Err(GitError::Revision(_))));
    let src = ArchiveSource::Blob { oid_hex: "ab".into(), content: b"x".to_vec() };
    assert_eq!(archive_outcome(Some("p/q"), Ok(src)).unwrap(), vec![("q".to_string(), b"x".to_vec())]);
}

#[test]
fn diffs_map_store_outcomes() {
    assert!(matches!(diff_outcome(Err("no commit".into())), Err(GitError::Revision(_))));
    assert_eq!(diff_outcome(Ok(vec![('+', "a\n".to_string())])).unwrap(), "+a\n");
}

#[test]
fn deletion_gate() {
    assert!(matches!(branch_gate("x", Err(None)), Err(GitError::NotFound(ref n)) if n == "x"));
    assert!(matches!(branch_gate("x", Err(Some("io".into()))), Err(GitError::Git(ref m)) if m == "io"));
    assert!(matches!(branch_gate("x", Ok(true)), Err(GitError::CannotDeleteHead(ref n)) if n == "x"));
    assert!(branch_gate("x", Ok(false)).is_ok());
}

#[test]
fn existence_answers() {
    assert!(exists_answer(Ok(())));
    assert!(!exists_answer(Err("missing".into())));
}
