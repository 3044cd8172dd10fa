use vstd::prelude::*;
use vstd::string::*;

verus! {

/// Start of the `/`-separated segment that ends at position `end` of `p`.
pub open spec fn seg_start(p: Seq<char>, end: int) -> int
    decreases end,
{
    if end <= 0 {
        0
    } else if p[end - 1] == '/' {
        end
    } else {
        seg_start(p, end - 1)
    }
}

/// The last component of the part of `p` before `end`, read as a path:
/// empty and `.` segments are skipped, and a path that ends in `..` (or
/// has no component at all) has no file name.
pub open spec fn file_name_before(p: Seq<char>, end: int) -> Option<Seq<char>>
    decreases end,
{
    if end <= 0 {
        None
    } else {
        let s = seg_start(p, end);
        let seg = p.subrange(s, end);
        if seg.len() == 0 || seg == seq!['.'] {
            if s <= 0 || s > end {
                None
            } else {
                file_name_before(p, s - 1)
            }
        } else if seg == seq!['.', '.'] {
            None
        } else {
            Some(seg)
        }
    }
}

pub open spec fn file_name_of(p: Seq<char>) -> Option<Seq<char>> {
    file_name_before(p, p.len() as int)
}

proof fn lemma_seg_start_bounds(p: Seq<char>, end: int)
    requires
        0 <= end <= p.len(),
    ensures
        0 <= seg_start(p, end) <= end,
        forall|j: int| seg_start(p, end) <= j < end ==> p[j] != '/',
        seg_start(p, end) > 0 ==> p[seg_start(p, end) - 1] == '/',
    decreases end,
{
    if end > 0 && p[end - 1] != '/' {
        lemma_seg_start_bounds(p, end - 1);
    }
}

fn file_name_upto(p: &str, end: usize) -> (r: Option<String>)
    requires
        end <= p@.len(),
    ensures
        r matches Some(s) ==> file_name_before(p@, end as int) == Some(s@),
        r is None ==> file_name_before(p@, end as int) is None,
    decreases end,
{
    if end == 0 {
        return None;
    }
    let mut i: usize = end;
    while i > 0 && p.get_char(i - 1) != '/'
        invariant
            i <= end <= p@.len(),
            seg_start(p@, end as int) == seg_start(p@, i as int),
        decreases i,
    {
        i = i - 1;
    }
    proof {
        lemma_seg_start_bounds(p@, end as int);
    }
    assert(seg_start(p@, i as int) == i);
    let seg = p.substring_char(i, end);
    let is_dot = end - i == 1 && p.get_char(i) == '.';
    let is_dotdot = end - i == 2 && p.get_char(i) == '.' && p.get_char(i + 1) == '.';
    assert(is_dot <==> seg@ == seq!['.']) by {
        if seg@ == seq!['.'] {
            assert(seg@.len() == 1);
            assert(seg@[0] == p@[i as int]);
        }
        if is_dot {
            assert(seg@ =~= seq!['.']);
        }
    }
    assert(is_dotdot <==> seg@ == seq!['.', '.']) by {
        if seg@ == seq!['.', '.'] {
            assert(seg@.len() == 2);
            assert(seg@[0] == p@[i as int]);
            assert(seg@[1] == p@[i + 1]);
        }
        if is_dotdot {
            assert(seg@ =~= seq!['.', '.']);
        }
    }
    if end == i || is_dot {
        if i == 0 {
            None
        } else {
            file_name_upto(p, i - 1)
        }
    } else if is_dotdot {
        None
    } else {
        Some(String::from_str(seg))
    }
}

/// The file name of a `/`-separated path: its last normal component.
pub fn file_name(p: &str) -> (r: Option<String>)
    ensures
        r matches Some(s) ==> file_name_of(p@) == Some(s@),
        r is None ==> file_name_of(p@) is None,
{
    let n = p.unicode_len();
    file_name_upto(p, n)
}

/// `s` without its trailing `/` characters.
pub open spec fn trim_slashes(s: Seq<char>) -> Seq<char>
    decreases s.len(),
{
    if s.len() > 0 && s.last() == '/' {
        trim_slashes(s.drop_last())
    } else {
        s
    }
}

pub open spec fn join_rel_text(base: Option<Seq<char>>, name: Seq<char>) -> Seq<char> {
    match base {
        Some(b) => if b.len() > 0 {
            trim_slashes(b) + seq!['/'] + name
        } else {
            name
        },
        None => name,
    }
}

pub open spec fn opt_view(o: Option<&str>) -> Option<Seq<char>> {
    match o {
        Some(s) => Some(s@),
        None => None,
    }
}

/// Joins a child name onto an optional directory path.
pub fn join_rel_path(base: Option<&str>, name: &str) -> (r: String)
    ensures
        r@ == join_rel_text(opt_view(base), name@),
{
    proof {
        reveal_strlit("/");
    }
    match base {
        Some(b) => {
            let n = b.unicode_len();
            if n == 0 {
                return String::from_str(name);
            }
            let mut k: usize = n;
            assert(b@.subrange(0, k as int) =~= b@);
            while k > 0 && b.get_char(k - 1) == '/'
                invariant
                    k <= n == b@.len(),
                    trim_slashes(b@) == trim_slashes(b@.subrange(0, k as int)),
                decreases k,
            {
                assert(b@.subrange(0, k as int).drop_last() =~= b@.subrange(0, k - 1));
                k = k - 1;
            }
            assert(trim_slashes(b@.subrange(0, k as int)) == b@.subrange(0, k as int));
            let mut out = String::from_str(b.substring_char(0, k));
            out.append("/");
            out.append(name);
            assert(out@ =~= join_rel_text(opt_view(base), name@));
            out
        },
        None => String::from_str(name),
    }
}

/// Index of the last `/` before position `end`, or -1.
pub open spec fn last_slash(s: Seq<char>, end: int) -> int
    decreases end,
{
    if end <= 0 {
        -1
    } else if s[end - 1] == '/' {
        end - 1
    } else {
        last_slash(s, end - 1)
    }
}

pub open spec fn parent_text(p: Seq<char>) -> Option<Seq<char>> {
    let k = last_slash(p, p.len() as int);
    if k < 0 {
        None
    } else {
        Some(p.subrange(0, k))
    }
}

proof fn lemma_last_slash_bounds(s: Seq<char>, end: int)
    requires
        0 <= end <= s.len(),
    ensures
        -1 <= last_slash(s, end) < end,
    decreases end,
{
    if end > 0 && s[end - 1] != '/' {
        lemma_last_slash_bounds(s, end - 1);
    }
}

/// The path without its last `/`-separated segment; `None` for a path of a
/// single segment.
pub fn parent_path(p: &str) -> (r: Option<String>)
    ensures
        r matches Some(s) ==> parent_text(p@) == Some(s@),
        r is None ==> parent_text(p@) is None,
{
    let n = p.unicode_len();
    let mut k: usize = n;
    while k > 0 && p.get_char(k - 1) != '/'
        invariant
            k <= n == p@.len(),
            last_slash(p@, n as int) == last_slash(p@, k as int),
        decreases k,
    {
        k = k - 1;
    }
    if k == 0 {
        None
    } else {
        Some(String::from_str(p.substring_char(0, k - 1)))
    }
}

pub open spec fn is_hex_char(c: char) -> bool {
    ('0' <= c && c <= '9') || ('a' <= c && c <= 'f') || ('A' <= c && c <= 'F')
}

pub open spec fn is_lower_hex_char(c: char) -> bool {
    ('0' <= c && c <= '9') || ('a' <= c && c <= 'f')
}

/// Forty lower-case hex digits: a full object id as the store prints it.
pub open spec fn is_full_hex_id(s: Seq<char>) -> bool {
    s.len() == 40 && forall|i: int| 0 <= i < s.len() ==> is_lower_hex_char(#[trigger] s[i])
}

/// Whether `s` looks like an abbreviated or full object id: 7 to 64 hex
/// digits.
pub open spec fn hex_hash_text(s: Seq<char>) -> bool {
    7 <= s.len() <= 64 && forall|i: int| 0 <= i < s.len() ==> is_hex_char(#[trigger] s[i])
}

pub fn is_hex_hash(s: &str) -> (r: bool)
    ensures
        r == hex_hash_text(s@),
{
    let n = s.unicode_len();
    if n < 7 || n > 64 {
        return false;
    }
    let mut i: usize = 0;
    while i < n
        invariant
            i <= n == s@.len(),
            forall|j: int| 0 <= j < i ==> is_hex_char(#[trigger] s@[j]),
        decreases n - i,
    {
        let c = s.get_char(i);
        if !(('0' <= c && c <= '9') || ('a' <= c && c <= 'f') || ('A' <= c && c <= 'F')) {
            return false;
        }
        i = i + 1;
    }
    true
}

/// How a page reads the revision in its URL: an object id is looked up as
/// a revision alone, anything else also as the branch override.
pub fn revision_and_branch(rev_in: &str) -> (r: (String, Option<String>))
    ensures
        r.0@ == rev_in@,
        hex_hash_text(rev_in@) ==> r.1 is None,
        !hex_hash_text(rev_in@) ==> (r.1 matches Some(b) && b@ == rev_in@),
{
    if is_hex_hash(rev_in) {
        (String::from_str(rev_in), None)
    } else {
        (String::from_str(rev_in), Some(String::from_str(rev_in)))
    }
}

} // verus!
