//! Migration roots, the `rsync` passes that copy between them, and the
//! confirmations the operator gives.

use vstd::prelude::*;
use vstd::string::StringExecFns;
use crate::text::{
    chars_equal, chars_of, contains_seq, contains_str, lines, lower_seq, split_lines,
    to_ascii_lower, views,
};
use super::MigrationError;

verus! {

broadcast use vstd::string::group_string_axioms;

// ---------------------------------------------------------------------------
// Unix paths
// ---------------------------------------------------------------------------

/// A Unix path is absolute when it starts at the root.
pub open spec fn is_absolute(p: Seq<char>) -> bool {
    p.len() > 0 && p[0] == '/'
}

/// A piece between separators becomes a component unless it is empty or `.`.
pub open spec fn keep_segment(cur: Seq<char>) -> Seq<Seq<char>> {
    if cur.len() == 0 || cur == seq!['.'] {
        Seq::empty()
    } else {
        seq![cur]
    }
}

pub open spec fn segments_after(s: Seq<char>, cur: Seq<char>) -> Seq<Seq<char>>
    decreases s.len(),
{
    if s.len() == 0 {
        keep_segment(cur)
    } else if s[0] == '/' {
        keep_segment(cur) + segments_after(s.drop_first(), Seq::empty())
    } else {
        segments_after(s.drop_first(), cur.push(s[0]))
    }
}

/// The components of an absolute path after its root, as `Path::components`
/// yields them: repeated separators and `.` pieces vanish, `..` stays.
pub open spec fn path_segments(p: Seq<char>) -> Seq<Seq<char>> {
    segments_after(p, Seq::empty())
}

pub open spec fn is_prefix_of<T>(a: Seq<T>, b: Seq<T>) -> bool {
    a.len() <= b.len() && b.take(a.len() as int) == a
}

/// An absolute path other than `/`, with no `..` component.
pub open spec fn valid_root(p: Seq<char>) -> bool {
    &&& is_absolute(p)
    &&& path_segments(p).len() > 0
    &&& forall|k: int| 0 <= k < path_segments(p).len() ==> path_segments(p)[k] != seq!['.', '.']
}

/// Two roots that are valid, distinct and not nested in each other.
pub open spec fn valid_roots(origin: Seq<char>, target: Seq<char>) -> bool {
    &&& valid_root(origin)
    &&& valid_root(target)
    &&& path_segments(origin) != path_segments(target)
    &&& !is_prefix_of(path_segments(target), path_segments(origin))
    &&& !is_prefix_of(path_segments(origin), path_segments(target))
}

fn keep_segment_exec(cur: Vec<char>, out: &mut Vec<Vec<char>>)
    ensures
        views(final(out)@) == views(old(out)@) + keep_segment(cur@),
{
    if cur.len() == 0 || (cur.len() == 1 && cur[0] == '.') {
        if cur.len() == 1 {
            assert(cur@ =~= seq!['.']);
        }
        assert(views(out@) + keep_segment(cur@) =~= views(out@));
    } else {
        let ghost c = cur@;
        out.push(cur);
        assert(views(out@) =~= views(old(out)@) + seq![c]);
    }
}

pub fn split_segments(p: &Vec<char>) -> (r: Vec<Vec<char>>)
    ensures
        views(r@) == path_segments(p@),
{
    let mut r: Vec<Vec<char>> = Vec::new();
    let mut cur: Vec<char> = Vec::new();
    let mut i: usize = 0;
    assert(p@.skip(0) =~= p@);
    assert(views(r@) + path_segments(p@) =~= path_segments(p@));
    while i < p.len()
        invariant
            i <= p.len(),
            views(r@) + segments_after(p@.skip(i as int), cur@) == path_segments(p@),
        decreases p.len() - i,
    {
        assert(p@.skip(i as int).drop_first() =~= p@.skip(i + 1));
        if p[i] == '/' {
            let ghost before = views(r@);
            let ghost c = cur@;
            keep_segment_exec(cur, &mut r);
            cur = Vec::new();
            assert(cur@ =~= Seq::<char>::empty());
            assert(before + (keep_segment(c) + segments_after(p@.skip(i + 1), Seq::empty()))
                =~= views(r@) + segments_after(p@.skip(i + 1), cur@));
        } else {
            cur.push(p[i]);
        }
        i = i + 1;
    }
    assert(p@.skip(i as int) =~= Seq::<char>::empty());
    keep_segment_exec(cur, &mut r);
    assert(views(r@) =~= path_segments(p@));
    r
}

fn segments_prefix(a: &Vec<Vec<char>>, b: &Vec<Vec<char>>) -> (r: bool)
    ensures
        r == is_prefix_of(views(a@), views(b@)),
{
    if a.len() > b.len() {
        return false;
    }
    for k in 0..a.len()
        invariant
            a.len() <= b.len(),
            forall|m: int| 0 <= m < k ==> a@[m]@ == b@[m]@,
    {
        if !chars_equal(&a[k], &b[k]) {
            assert(views(b@).take(a.len() as int)[k as int] != views(a@)[k as int]);
            return false;
        }
    }
    assert(views(b@).take(a.len() as int) =~= views(a@));
    true
}

fn segments_equal(a: &Vec<Vec<char>>, b: &Vec<Vec<char>>) -> (r: bool)
    ensures
        r == (views(a@) == views(b@)),
{
    if a.len() != b.len() {
        return false;
    }
    let r = segments_prefix(a, b);
    assert(views(b@).take(a.len() as int) =~= views(b@));
    r
}

fn valid_root_exec(p: &Vec<char>, segs: &Vec<Vec<char>>) -> (r: bool)
    requires
        views(segs@) == path_segments(p@),
    ensures
        r == valid_root(p@),
{
    if p.len() == 0 || p[0] != '/' || segs.len() == 0 {
        return false;
    }
    for k in 0..segs.len()
        invariant
            views(segs@) == path_segments(p@),
            forall|m: int| 0 <= m < k ==> path_segments(p@)[m] != seq!['.', '.'],
    {
        let s = &segs[k];
        assert(path_segments(p@)[k as int] == s@);
        if s.len() == 2 && s[0] == '.' && s[1] == '.' {
            assert(s@ =~= seq!['.', '.']);
            return false;
        }
    }
    true
}

/// The mounted origin and the empty target of a migration.
#[derive(Debug, Clone, PartialEq, Eq)]
pub struct MigrationPaths {
    pub origin: String,
    pub target: String,
}

impl MigrationPaths {
    /// Accepts two absolute roots other than `/`, free of `..`, that differ
    /// and do not contain each other.
    pub fn new(origin: String, target: String) -> (r: Result<Self, MigrationError>)
        ensures
            valid_roots(origin@, target@) ==> r == Ok::<Self, MigrationError>(
                MigrationPaths { origin, target },
            ),
            !valid_roots(origin@, target@) ==> r == Err::<Self, MigrationError>(
                MigrationError::InvalidInput("migration roots"),
            ),
    {
        let o = chars_of(origin.as_str());
        let t = chars_of(target.as_str());
        let os = split_segments(&o);
        let ts = split_segments(&t);
        if !valid_root_exec(&o, &os) || !valid_root_exec(&t, &ts) || segments_equal(&os, &ts)
            || segments_prefix(&ts, &os) || segments_prefix(&os, &ts) {
            return Err(MigrationError::InvalidInput("migration roots"));
        }
        Ok(Self { origin, target })
    }
}

// ---------------------------------------------------------------------------
// rsync
// ---------------------------------------------------------------------------

/// The two copies of a migration: one while the origin is live, one after
/// it was quiesced.
#[derive(Debug, Clone, Copy, PartialEq, Eq, Structural)]
pub enum SyncPass {
    Initial,
    Final,
}

/// An `rsync` run that copies the contents of the origin into the target,
/// keeping extended attributes, hard links and executability.
#[derive(Debug, Clone, PartialEq, Eq)]
pub struct RsyncInvocation {
    pub executable: String,
    pub arguments: Vec<String>,
    pub pass: SyncPass,
}

impl RsyncInvocation {
    pub fn new(executable: String, paths: &MigrationPaths, pass: SyncPass) -> (r: Self)
        ensures
            r.executable == executable,
            r.pass == pass,
            r.arguments@.len() == 4,
            r.arguments@[0]@ == "-avXHE"@,
            r.arguments@[1]@ == "--"@,
            r.arguments@[2]@ == paths.origin@ + "/"@,
            r.arguments@[3]@ == paths.target@,
    {
        let mut source = paths.origin.clone();
        source.append("/");
        let mut arguments: Vec<String> = Vec::new();
        arguments.push(String::from_str("-avXHE"));
        arguments.push(String::from_str("--"));
        arguments.push(source);
        arguments.push(paths.target.clone());
        Self { executable, arguments, pass }
    }
}

/// The first line whose lower-cased text holds `usage: rsync [`, if any.
pub open spec fn usage_line(ls: Seq<Seq<char>>) -> Seq<char>
    decreases ls.len(),
{
    if ls.len() == 0 {
        Seq::empty()
    } else if contains_seq(lower_seq(ls[0]), "usage: rsync ["@) {
        ls[0]
    } else {
        usage_line(ls.drop_first())
    }
}

/// `rsync --help` shows `-X`, `-H` and `-E`: in the short-option summary of
/// the usage line, or as the three long-option entries.
pub open spec fn rsync_flags_supported(help: Seq<char>) -> bool {
    let short = usage_line(lines(help));
    let long = contains_seq(help, "-X, --xattrs"@) && contains_seq(help, "-H, --hard-links"@)
        && contains_seq(help, "-E, --executability"@);
    (contains_seq(short, "X"@) && contains_seq(short, "H"@) && contains_seq(short, "E"@)) || long
}

fn find_usage_line(ls: &Vec<Vec<char>>) -> (r: Vec<char>)
    ensures
        r@ == usage_line(views(ls@)),
{
    let ghost all = views(ls@);
    let mut i: usize = 0;
    assert(all.skip(0) =~= all);
    while i < ls.len()
        invariant
            all == views(ls@),
            i <= ls.len(),
            usage_line(all) == usage_line(all.skip(i as int)),
        decreases ls.len() - i,
    {
        assert(all.skip(i as int).drop_first() =~= all.skip(i + 1));
        assert(all.skip(i as int)[0] == ls@[i as int]@);
        let lower = to_ascii_lower(&ls[i]);
        if contains_str(&lower, "usage: rsync [") {
            return ls[i].clone();
        }
        i = i + 1;
    }
    assert(all.skip(i as int).len() == 0);
    Vec::new()
}

pub fn supports_required_rsync_flags(help: &str) -> (r: bool)
    ensures
        r == rsync_flags_supported(help@),
{
    let text = chars_of(help);
    let ls = split_lines(&text);
    let short = find_usage_line(&ls);
    let long = contains_str(&text, "-X, --xattrs") && contains_str(&text, "-H, --hard-links")
        && contains_str(&text, "-E, --executability");
    (contains_str(&short, "X") && contains_str(&short, "H") && contains_str(&short, "E")) || long
}

// ---------------------------------------------------------------------------
// Operator confirmations and the AI_ROOT pointer
// ---------------------------------------------------------------------------

/// Removes every trailing `\r` and `\n`.
pub open spec fn strip_line_endings(s: Seq<char>) -> Seq<char>
    decreases s.len(),
{
    if s.len() > 0 && (s.last() == '\r' || s.last() == '\n') {
        strip_line_endings(s.drop_last())
    } else {
        s
    }
}

/// The operator confirms that the origin is quiesced by typing `QUIESCED`.
pub fn confirm_quiescence(input: &str) -> (r: Result<(), MigrationError>)
    ensures
        strip_line_endings(input@) == "QUIESCED"@ ==> r == Ok::<(), MigrationError>(()),
        strip_line_endings(input@) != "QUIESCED"@ ==> r == Err::<(), MigrationError>(
            MigrationError::InvalidInput("quiescence confirmation"),
        ),
{
    let s = chars_of(input);
    let mut n = s.len();
    assert(s@.take(n as int) =~= s@);
    while n > 0 && (s[n - 1] == '\r' || s[n - 1] == '\n')
        invariant
            n <= s.len(),
            strip_line_endings(s@) == strip_line_endings(s@.take(n as int)),
        decreases n,
    {
        assert(s@.take(n as int).drop_last() =~= s@.take(n - 1));
        n = n - 1;
    }
    let stripped = crate::text::slice_range(&s, 0, n);
    assert(stripped@ =~= s@.take(n as int));
    if crate::text::equals_str(&stripped, "QUIESCED") {
        Ok(())
    } else {
        Err(MigrationError::InvalidInput("quiescence confirmation"))
    }
}

/// The line written to the AI_ROOT pointer file: the root and a newline.
/// The root must be absolute and fit on that line.
pub fn ai_root_line(root: &str) -> (r: Result<Vec<u8>, MigrationError>)
    ensures
        (is_absolute(root@) && !root@.contains('\n')) ==> (r matches Ok(bytes) && bytes@
            == vstd::utf8::encode_utf8(root@) + seq![10u8]),
        !(is_absolute(root@) && !root@.contains('\n')) ==> r == Err::<Vec<u8>, MigrationError>(
            MigrationError::InvalidInput("AI_ROOT path"),
        ),
{
    let chars = chars_of(root);
    if chars.len() == 0 || chars[0] != '/' {
        return Err(MigrationError::InvalidInput("AI_ROOT path"));
    }
    for k in 0..chars.len()
        invariant
            chars@ == root@,
            forall|m: int| 0 <= m < k ==> chars@[m] != '\n',
    {
        if chars[k] == '\n' {
            return Err(MigrationError::InvalidInput("AI_ROOT path"));
        }
    }
    let bytes = root.as_bytes();
    let mut line: Vec<u8> = Vec::new();
    for k in 0..bytes.len()
        invariant
            bytes@ == vstd::utf8::encode_utf8(root@),
            line@ == bytes@.take(k as int),
    {
        line.push(bytes[k]);
        assert(bytes@.take(k + 1) =~= bytes@.take(k as int).push(bytes@[k as int]));
    }
    assert(bytes@.take(bytes@.len() as int) =~= bytes@);
    line.push(10u8);
    Ok(line)
}

} // verus!
