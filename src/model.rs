use vstd::prelude::*;

verus! {

/// Kind of an object as the object store reports it.
#[derive(Debug, Clone, Copy, PartialEq, Eq, Structural)]
pub enum ObjKind {
    Any,
    Commit,
    Tree,
    Blob,
    Tag,
}

/// Which branches a lookup ranges over.
#[derive(Debug, Clone, Copy, PartialEq, Eq, Structural)]
pub enum BranchScope {
    Local,
    Remote,
}

/// The order in which a history walk yields commits.
#[derive(Debug, Clone, Copy, PartialEq, Eq, Structural)]
pub enum WalkOrder {
    /// Most recent commit time first.
    Time,
    /// Every commit before its parents.
    Topological,
    /// Commit time, with parents never before their children.
    TimeTopological,
}

/// Kind of an entry of a tree, as shown to callers.
#[derive(Debug, Clone)]
pub enum EntryKind {
    Blob,
    Tree,
    Commit,
    Other(String),
}

/// One immediate child of a tree.
#[derive(Debug, Clone)]
pub struct TreeEntry {
    /// Permission bits as six (or more) octal digits.
    pub mode: String,
    pub kind: EntryKind,
    /// Hex object id of the child.
    pub oid: String,
    /// Byte size, present only for blobs.
    pub size: Option<u64>,
    /// The child's own name, a single path segment.
    pub path: String,
}

/// One commit of a history walk.
#[derive(Debug, Clone)]
pub struct CommitInfo {
    pub hash: String,
    pub name: String,
    pub email: String,
    pub timestamp_secs: i64,
    /// First line of the commit message.
    pub subject: String,
}

/// One local branch.
#[derive(Debug, Clone)]
pub struct Branch {
    pub name: String,
    /// Hex id of the commit the branch points at.
    pub oid: String,
    pub is_head: bool,
    pub upstream: Option<String>,
}

pub open spec fn kind_label(k: ObjKind) -> Seq<char> {
    match k {
        ObjKind::Any => seq!['A', 'n', 'y'],
        ObjKind::Commit => seq!['C', 'o', 'm', 'm', 'i', 't'],
        ObjKind::Tree => seq!['T', 'r', 'e', 'e'],
        ObjKind::Blob => seq!['B', 'l', 'o', 'b'],
        ObjKind::Tag => seq!['T', 'a', 'g'],
    }
}

pub open spec fn unknown_label() -> Seq<char> {
    seq!['u', 'n', 'k', 'n', 'o', 'w', 'n']
}

/// What an entry of the given store kind is shown as: blobs, trees and
/// submodule commits get their own variant, any other kind is named.
pub open spec fn entry_kind_matches(k: Option<ObjKind>, e: EntryKind) -> bool {
    match k {
        Some(ObjKind::Blob) => e is Blob,
        Some(ObjKind::Tree) => e is Tree,
        Some(ObjKind::Commit) => e is Commit,
        Some(other) => e is Other && e->Other_0@ == kind_label(other),
        None => e is Other && e->Other_0@ == unknown_label(),
    }
}

fn label_text(k: ObjKind) -> (r: String)
    ensures
        r@ == kind_label(k),
{
    proof {
        reveal_strlit("Any");
        reveal_strlit("Commit");
        reveal_strlit("Tree");
        reveal_strlit("Blob");
        reveal_strlit("Tag");
    }
    match k {
        ObjKind::Any => String::from_str("Any"),
        ObjKind::Commit => String::from_str("Commit"),
        ObjKind::Tree => String::from_str("Tree"),
        ObjKind::Blob => String::from_str("Blob"),
        ObjKind::Tag => String::from_str("Tag"),
    }
}

/// Classifies a tree entry by the kind the store gives for it.
pub fn classify_entry(k: Option<ObjKind>) -> (r: EntryKind)
    ensures
        entry_kind_matches(k, r),
{
    match k {
        Some(ObjKind::Blob) => EntryKind::Blob,
        Some(ObjKind::Tree) => EntryKind::Tree,
        Some(ObjKind::Commit) => EntryKind::Commit,
        Some(other) => EntryKind::Other(label_text(other)),
        None => {
            proof {
                reveal_strlit("unknown");
            }
            let e = EntryKind::Other(String::from_str("unknown"));
            assert(e->Other_0@ =~= unknown_label());
            e
        },
    }
}

impl CommitInfo {
    /// A field-by-field copy.
    pub fn duplicate(&self) -> (r: CommitInfo)
        ensures
            r == *self,
    {
        CommitInfo {
            hash: self.hash.clone(),
            name: self.name.clone(),
            email: self.email.clone(),
            timestamp_secs: self.timestamp_secs,
            subject: self.subject.clone(),
        }
    }
}

impl EntryKind {
    pub fn is_blob(&self) -> (r: bool)
        ensures
            r == (*self is Blob),
    {
        match self {
            EntryKind::Blob => true,
            _ => false,
        }
    }

    pub fn is_tree(&self) -> (r: bool)
        ensures
            r == (*self is Tree),
    {
        match self {
            EntryKind::Tree => true,
            _ => false,
        }
    }
}

/// The octal digit for a value below eight.
pub open spec fn octal_digit(d: nat) -> char {
    if d == 0 { '0' }
    else if d == 1 { '1' }
    else if d == 2 { '2' }
    else if d == 3 { '3' }
    else if d == 4 { '4' }
    else if d == 5 { '5' }
    else if d == 6 { '6' }
    else { '7' }
}

/// The octal digits of `n`, most significant first, without leading zeros
/// (zero itself is the single digit `0`).
pub open spec fn octal(n: nat) -> Seq<char>
    decreases n,
{
    if n < 8 {
        seq![octal_digit(n)]
    } else {
        octal(n / 8).push(octal_digit(n % 8))
    }
}

/// `octal(n)`, left-padded with `0` to at least six digits.
pub open spec fn mode_text(n: nat) -> Seq<char> {
    let d = octal(n);
    if d.len() < 6 {
        Seq::new((6 - d.len()) as nat, |i: int| '0') + d
    } else {
        d
    }
}

fn digit_char(d: u32) -> (c: char)
    requires
        d < 8,
    ensures
        c == octal_digit(d as nat),
{
    if d == 0 { '0' }
    else if d == 1 { '1' }
    else if d == 2 { '2' }
    else if d == 3 { '3' }
    else if d == 4 { '4' }
    else if d == 5 { '5' }
    else if d == 6 { '6' }
    else { '7' }
}

fn octal_len(n: u32) -> (r: usize)
    ensures
        r as nat == octal(n as nat).len(),
        r as int <= n as int + 1,
    decreases n,
{
    if n < 8 {
        1
    } else {
        let k = octal_len(n / 8);
        proof {
            assert(octal(n as nat) == octal((n / 8) as nat).push(octal_digit((n % 8) as nat)));
        }
        k + 1
    }
}

fn push_octal(n: u32, out: &mut String)
    ensures
        final(out)@ == old(out)@ + octal(n as nat),
    decreases n,
{
    if n < 8 {
        crate::store::push_char(out, digit_char(n));
    } else {
        push_octal(n / 8, out);
        crate::store::push_char(out, digit_char(n % 8));
        proof {
            assert(octal(n as nat) == octal((n / 8) as nat).push(octal_digit((n % 8) as nat)));
        }
        assert(final(out)@ =~= old(out)@ + octal(n as nat));
    }
}

/// Formats permission bits as zero-padded octal, at least six digits wide.
pub fn format_mode(mode: u32) -> (r: String)
    ensures
        r@ == mode_text(mode as nat),
{
    let len = octal_len(mode);
    let mut out = String::new();
    let mut k: usize = 0;
    let pad: usize = if len < 6 { 6 - len } else { 0 };
    while k < pad
        invariant
            k <= pad,
            out@ == Seq::new(k as nat, |i: int| '0'),
        decreases pad - k,
    {
        crate::store::push_char(&mut out, '0');
        k = k + 1;
        assert(out@ =~= Seq::new(k as nat, |i: int| '0'));
    }
    push_octal(mode, &mut out);
    assert(out@ =~= mode_text(mode as nat));
    out
}

} // verus!
