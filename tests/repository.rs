use git2::{Oid, Repository, Signature, Time};
use gitstore::errors::GitError;
use gitstore::model::EntryKind;
use gitstore::query::{download_files, fetch_commits, fetch_content, CommitsQuery, ContentQuery, ContentResponse};
use gitstore::repo::RepoStore;

const ROOT: &str = "/tmp/gitstore-tests";

struct Fixture {
    st: RepoStore,
    owner: String,
    repo: String,
    first: Oid,
    second: Oid,
}

fn unique(tag: &str) -> String {
    let nanos = std::time::SystemTime::now()
        .duration_since(std::time::UNIX_EPOCH)
        .unwrap()
        .as_nanos();
    format!("{}{:x}", tag, nanos)
}

fn tree_of(repo: &Repository, files: &[(&str, &[u8])], dirs: &[(&str, Oid)]) -> Oid {
    let mut tb = repo.treebuilder(None).unwrap();
    for (name, bytes) in files {
        let id = repo.blob(bytes).unwrap();
        tb.insert(*name, id, 0o100644).unwrap();
    }
    for (name, id) in dirs {
        tb.insert(*name, *id, 0o040000).unwrap();
    }
    tb.write().unwrap()
}

/// A repository whose `main` (HEAD) holds `a.txt` and `dir/b.txt` in a first
/// commit and adds `c.txt` in a second; `feature` points at the first.
fn fixture(tag: &str) -> Fixture {
    let owner = unique(tag);
    let repo_id = "r0".to_string();
    let st = RepoStore::new(ROOT);
    let path = st.init(&owner, &repo_id).unwrap();
    let repo = Repository::open_bare(&path).unwrap();
    let sig1 = Signature::new("Ann", "ann@example.org", &Time::new(1_000_000, 0)).unwrap();
    let sig2 = Signature::new("Bob", "bob@example.org", &Time::new(1_000_100, 0)).unwrap();

    let sub = tree_of(&repo, &[("b.txt", b"bee\n")], &[]);
    let t1 = tree_of(&repo, &[("a.txt", b"hello\n")], &[("dir", sub)]);
    let t1 = repo.find_tree(t1).unwrap();
    let first = repo
        .commit(Some("refs/heads/main"), &sig1, &sig1, "first commit\n\nbody", &t1, &[])
        .unwrap();
    let c1 = repo.find_commit(first).unwrap();

    let t2 = tree_of(&repo, &[("a.txt", b"hello\n"), ("c.txt", b"sea\n")], &[("dir", sub)]);
    let t2 = repo.find_tree(t2).unwrap();
    let second = repo
        .commit(Some("refs/heads/main"), &sig2, &sig2, "second commit", &t2, &[&c1])
        .unwrap();
    repo.set_head("refs/heads/main").unwrap();
    repo.branch("feature", &c1, false).unwrap();
    Fixture { st, owner, repo: repo_id, first, second }
}

#[test]
fn init_then_exists() {
    let st = RepoStore::new(ROOT);
    let owner = unique("init");
    assert!(!st.repo_exists(&owner, "r1"));
    let path = st.init(&owner, "r1").unwrap();
    assert_eq!(path, format!("{}/{}/r1", ROOT, owner));
    assert!(st.repo_exists(&owner, "r1"));
    assert!(!st.repo_exists(&owner, "r2"));
    assert!(st.init(&owner, "r1").is_err());
}

#[test]
fn init_where_nothing_can_be_made() {
    let st = RepoStore::new("/proc/gitstore-none");
    assert!(matches!(st.init("o", "r"), Err(GitError::Io(_))));
}

#[test]
fn branches_have_one_head() {
    let f = fixture("br");
    let branches = f.st.list_branches(&f.owner, &f.repo).unwrap();
    assert_eq!(branches.len(), 2);
    assert_eq!(branches.iter().filter(|b| b.is_head).count(), 1);
    let main = branches.iter().find(|b| b.name == "main").unwrap();
    assert!(main.is_head);
    assert_eq!(main.oid, f.second.to_string());
    assert!(main.upstream.is_none());
    assert_eq!(f.st.default_ref(&f.owner, &f.repo), "main");
    let feature = branches.iter().find(|b| b.name == "feature").unwrap();
    assert!(!feature.is_head);
    assert_eq!(feature.oid, f.first.to_string());
}

#[test]
fn branches_of_missing_repository() {
    let st = RepoStore::new(ROOT);
    let owner = unique("none");
    assert!(matches!(st.list_branches(&owner, "r"), Err(GitError::NotFound(_))));
}

#[test]
fn delete_head_branch_refused() {
    let f = fixture("delhead");
    let before = f.st.list_branches(&f.owner, &f.repo).unwrap();
    let r = f.st.delete_branch(&f.owner, &f.repo, &"main".to_string());
    assert!(matches!(r, Err(GitError::CannotDeleteHead(ref n)) if n == "main"));
    assert_eq!(r.unwrap_err().status_code(), 400);
    let after = f.st.list_branches(&f.owner, &f.repo).unwrap();
    let names = |v: &Vec<gitstore::model::Branch>| {
        let mut n: Vec<String> = v.iter().map(|b| b.name.clone()).collect();
        n.sort();
        n
    };
    assert_eq!(names(&before), names(&after));
}

#[test]
fn delete_other_branch() {
    let f = fixture("delother");
    f.st.delete_branch(&f.owner, &f.repo, &"feature".to_string()).unwrap();
    let after = f.st.list_branches(&f.owner, &f.repo).unwrap();
    assert_eq!(after.len(), 1);
    assert_eq!(after[0].name, "main");
    let never = f.st.delete_branch(&f.owner, &f.repo, &"no-such".to_string());
    assert!(matches!(never, Err(GitError::NotFound(ref n)) if n == "no-such"));
    let again = f.st.delete_branch(&f.owner, &f.repo, &"feature".to_string());
    assert!(matches!(again, Err(GitError::NotFound(_))));
}

#[test]
fn commits_respect_limit() {
    let f = fixture("log");
    let all = f.st.list_commits(&f.owner, &f.repo, "HEAD", None, 0).unwrap();
    assert_eq!(all.len(), 2);
    assert_eq!(all[0].hash, f.second.to_string());
    assert_eq!(all[0].name, "Bob");
    assert_eq!(all[0].email, "bob@example.org");
    assert_eq!(all[0].timestamp_secs, 1_000_100);
    assert_eq!(all[0].subject, "second commit");
    assert_eq!(all[1].hash, f.first.to_string());
    assert_eq!(all[1].subject, "first commit");
    let one = f.st.list_commits(&f.owner, &f.repo, "HEAD", None, 1).unwrap();
    assert_eq!(one.len(), 1);
    assert_eq!(one[0].hash, f.second.to_string());
    let feature = f.st.list_commits(&f.owner, &f.repo, "HEAD", Some("feature"), 5).unwrap();
    assert_eq!(feature.len(), 1);
    assert_eq!(feature[0].hash, f.first.to_string());
}

#[test]
fn commits_of_bad_revision() {
    let f = fixture("badrev");
    let r = f.st.list_commits(&f.owner, &f.repo, "no-such-branch", None, 0);
    assert!(matches!(r, Err(GitError::Revision(_))));
}

#[test]
fn commits_query_defaults() {
    let f = fixture("cq");
    let q = CommitsQuery { id: String::new(), branch: None, limit: None };
    let v = fetch_commits(&f.st, &f.owner, &f.repo, &q).unwrap();
    assert_eq!(v.len(), 2);
    let q = CommitsQuery { id: String::new(), branch: Some("feature".to_string()), limit: Some(1) };
    let v = fetch_commits(&f.st, &f.owner, &f.repo, &q).unwrap();
    assert_eq!(v.len(), 1);
    assert_eq!(v[0].hash, f.first.to_string());
}

#[test]
fn tree_root_lists_children_only() {
    let f = fixture("tree");
    let entries = f.st.list_tree(&f.owner, &f.repo, &f.first.to_string(), None, None).unwrap();
    assert_eq!(entries.len(), 2);
    let a = entries.iter().find(|e| e.path == "a.txt").unwrap();
    assert!(matches!(a.kind, EntryKind::Blob));
    assert_eq!(a.size, Some(6));
    assert_eq!(a.mode, "100644");
    let d = entries.iter().find(|e| e.path == "dir").unwrap();
    assert!(matches!(d.kind, EntryKind::Tree));
    assert_eq!(d.size, None);
    assert_eq!(d.mode, "040000");
    assert!(entries.iter().all(|e| e.path != "b.txt"));
}

#[test]
fn tree_at_path_and_branch_override() {
    let f = fixture("treepath");
    let entries = f.st.list_tree(&f.owner, &f.repo, "HEAD", None, Some("dir")).unwrap();
    assert_eq!(entries.len(), 1);
    assert_eq!(entries[0].path, "b.txt");
    let root = f.st.list_tree(&f.owner, &f.repo, "HEAD", None, None).unwrap();
    assert_eq!(root.len(), 3);
    let old = f.st.list_tree(&f.owner, &f.repo, "HEAD", Some("feature"), None).unwrap();
    assert_eq!(old.len(), 2);
    let file = f.st.list_tree(&f.owner, &f.repo, "HEAD", None, Some("a.txt"));
    assert!(matches!(file, Err(GitError::NotATree(_))));
}

#[test]
fn file_content_and_fallback() {
    let f = fixture("blob");
    let bytes = f.st.get_file_content(&f.owner, &f.repo, "HEAD", None, "a.txt").unwrap();
    assert_eq!(bytes, b"hello\n".to_vec());
    let nested = f.st.get_file_content(&f.owner, &f.repo, "HEAD", None, "dir/b.txt").unwrap();
    assert_eq!(nested, b"bee\n".to_vec());
    let dir = f.st.get_file_content(&f.owner, &f.repo, "HEAD", None, "dir");
    assert!(matches!(dir, Err(GitError::NotABlob(_))));
    let listing = f.st.list_tree(&f.owner, &f.repo, "HEAD", None, Some("dir")).unwrap();
    assert_eq!(listing.len(), 1);
    let missing = f.st.get_file_content(&f.owner, &f.repo, "HEAD", None, "nope.txt");
    assert!(matches!(missing, Err(GitError::Revision(_))));
}

#[test]
fn content_query_picks_file_or_directory() {
    let f = fixture("content");
    let q = ContentQuery { id: String::new(), path: Some("a.txt".to_string()), branch: None, commit: None };
    match fetch_content(&f.st, &f.owner, &f.repo, &q).unwrap() {
        ContentResponse::Blob { content_base64 } => assert_eq!(content_base64, "aGVsbG8K"),
        ContentResponse::Tree { .. } => panic!("expected a file"),
    }
    let q = ContentQuery { id: String::new(), path: Some("dir".to_string()), branch: None, commit: None };
    match fetch_content(&f.st, &f.owner, &f.repo, &q).unwrap() {
        ContentResponse::Tree { entries } => assert_eq!(entries[0].path, "b.txt"),
        ContentResponse::Blob { .. } => panic!("expected a directory"),
    }
    let q = ContentQuery {
        id: String::new(),
        path: None,
        branch: Some("main".to_string()),
        commit: Some(f.first.to_string()),
    };
    match fetch_content(&f.st, &f.owner, &f.repo, &q).unwrap() {
        ContentResponse::Tree { entries } => assert_eq!(entries.len(), 2),
        ContentResponse::Blob { .. } => panic!("expected a directory"),
    }
}

#[test]
fn archive_of_root_and_directory() {
    let f = fixture("zip");
    let mut root = f.st.collect_files_at_path(&f.owner, &f.repo, &f.first.to_string(), None, None).unwrap();
    root.sort();
    let names: Vec<&str> = root.iter().map(|(p, _)| p.as_str()).collect();
    assert_eq!(names, vec!["a.txt", "dir/b.txt"]);
    let dir = f.st.collect_files_at_path(&f.owner, &f.repo, "HEAD", None, Some("dir")).unwrap();
    assert_eq!(dir.len(), 1);
    assert!(dir.iter().all(|(p, _)| p.starts_with("dir/")));
    assert_eq!(dir[0], ("dir/b.txt".to_string(), b"bee\n".to_vec()));
    let single = f.st.collect_files_at_path(&f.owner, &f.repo, "HEAD", None, Some("dir/b.txt")).unwrap();
    assert_eq!(single, vec![("b.txt".to_string(), b"bee\n".to_vec())]);
    let bad = f.st.collect_files_at_path(&f.owner, &f.repo, "nope", None, None);
    assert!(matches!(bad, Err(GitError::Revision(_))));
}

#[test]
fn archive_round_trip() {
    let f = fixture("trip");
    let files = f.st.collect_files_at_path(&f.owner, &f.repo, "HEAD", None, None).unwrap();
    assert_eq!(files.len(), 3);
    let mut rebuilt = std::collections::BTreeMap::new();
    for (p, b) in &files {
        rebuilt.insert(p.clone(), b.clone());
    }
    for (p, b) in &rebuilt {
        let direct = f.st.get_file_content(&f.owner, &f.repo, "HEAD", None, p).unwrap();
        assert_eq!(&direct, b);
    }
}

#[test]
fn download_names_archive() {
    let f = fixture("dl");
    let q = ContentQuery { id: String::new(), path: Some("dir".to_string()), branch: None, commit: None };
    let (name, files) = download_files(&f.st, &f.owner, &f.repo, "proj", &q).unwrap();
    assert_eq!(name, "dir.zip");
    assert_eq!(files.len(), 1);
    let q = ContentQuery { id: String::new(), path: None, branch: Some("feature".to_string()), commit: None };
    let (name, files) = download_files(&f.st, &f.owner, &f.repo, "proj", &q).unwrap();
    assert_eq!(name, "proj-feature.zip");
    assert_eq!(files.len(), 2);
}

#[test]
fn diff_of_root_commit_adds_everything() {
    let f = fixture("diff");
    let patch = f.st.commit_diff(&f.owner, &f.repo, &f.first.to_string()).unwrap();
    assert!(patch.contains("new file mode 100644"));
    assert!(patch.contains("+++ b/a.txt"));
    assert!(patch.contains("+++ b/dir/b.txt"));
    assert!(patch.contains("+hello\n"));
    assert!(patch.contains("+bee\n"));
    assert!(!patch.contains("deleted file"));
}

#[test]
fn diff_against_first_parent() {
    let f = fixture("diff2");
    let patch = f.st.commit_diff(&f.owner, &f.repo, &f.second.to_string()).unwrap();
    assert!(patch.contains("+++ b/c.txt"));
    assert!(patch.contains("+sea\n"));
    assert!(!patch.contains("a.txt"));
    let bad = f.st.commit_diff(&f.owner, &f.repo, "zz");
    assert!(matches!(bad, Err(GitError::Revision(_))));
}
