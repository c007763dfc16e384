//! Content manifests of the two migration roots and their comparison.

use vstd::prelude::*;
use crate::text::{chars_equal, chars_of, string_from_chars, views};
use super::MigrationError;
use super::paths::{path_segments, split_segments};

verus! {

broadcast use vstd::string::group_string_axioms;

/// The SHA-256 digest of some bytes, as the `sha2` crate computes it.
pub uninterp spec fn sha256(data: Seq<u8>) -> Seq<u8>;

/// `sha2::Sha256::digest` over a byte slice.
/// Claims only that the digest is the one `sha256` names for these bytes.
#[verifier::external_body]
fn sha256_of(data: &[u8]) -> (r: [u8; 32])
    ensures
        r@ == sha256(data@),
{
    <sha2::Sha256 as sha2::Digest>::digest(data).into()
}

#[verifier::external_type_specification]
#[verifier::external_body]
pub struct ExSha256(sha2::Sha256);

/// The bytes a SHA-256 hasher has been fed so far, in order.
pub uninterp spec fn sha256_input(hasher: sha2::Sha256) -> Seq<u8>;

/// `sha2::Sha256::new` (through `Digest`): a hasher that has been fed
/// nothing.
#[verifier::external_body]
fn sha256_new() -> (r: sha2::Sha256)
    ensures
        sha256_input(r) == Seq::<u8>::empty(),
{
    <sha2::Sha256 as sha2::Digest>::new()
}

/// `Digest::update`: the hasher has then been fed `data` after what it
/// was fed before.
#[verifier::external_body]
fn sha256_update(hasher: &mut sha2::Sha256, data: &[u8])
    ensures
        sha256_input(*final(hasher)) == sha256_input(*old(hasher)) + data@,
{
    sha2::Digest::update(hasher, data)
}

/// `Digest::finalize`: the digest of everything the hasher was fed, the
/// one `sha256` names for those bytes.
#[verifier::external_body]
fn sha256_finalize(hasher: sha2::Sha256) -> (r: [u8; 32])
    ensures
        r@ == sha256(sha256_input(hasher)),
{
    sha2::Digest::finalize(hasher).into()
}

/// A SHA-256 digest of file contents.
#[derive(Debug, Clone, Copy, PartialEq, Eq, PartialOrd, Ord)]
pub struct Sha256Digest(pub [u8; 32]);

/// Digest of the given bytes.
pub fn digest_bytes(data: &[u8]) -> (r: Sha256Digest)
    ensures
        r.0@ == sha256(data@),
{
    Sha256Digest(sha256_of(data))
}

/// Lower-case hexadecimal digit of a value below 16.
pub open spec fn hex_digit(v: int) -> char {
    if v < 10 {
        (('0' as int) + v) as char
    } else {
        (('a' as int) + v - 10) as char
    }
}

/// Two lower-case hexadecimal digits per byte, high nibble first.
pub open spec fn hex_of(bytes: Seq<u8>) -> Seq<char>
    decreases bytes.len(),
{
    if bytes.len() == 0 {
        Seq::empty()
    } else {
        hex_of(bytes.drop_last()) + seq![
            hex_digit(bytes.last() as int / 16),
            hex_digit(bytes.last() as int % 16),
        ]
    }
}

fn hex_digit_exec(v: u8) -> (c: char)
    requires
        v < 16,
    ensures
        c == hex_digit(v as int),
{
    if v < 10 {
        let b: u8 = 48 + v;
        b as char
    } else {
        let b: u8 = 87 + v;
        b as char
    }
}

impl Sha256Digest {
    pub fn to_hex(self) -> (r: String)
        ensures
            r@ == hex_of(self.0@),
            r@.len() == 64,
    {
        let mut chars: Vec<char> = Vec::new();
        let mut i: usize = 0;
        while i < 32
            invariant
                i <= 32,
                self.0@.len() == 32,
                chars@ == hex_of(self.0@.take(i as int)),
                chars@.len() == 2 * i,
            decreases 32 - i,
        {
            let byte = self.0[i];
            let high = byte >> 4;
            let low = byte & 0x0f;
            assert(high == byte / 16 && low == byte % 16) by (bit_vector)
                requires
                    high == byte >> 4,
                    low == byte & 0x0f,
            ;
            chars.push(hex_digit_exec(high));
            chars.push(hex_digit_exec(low));
            assert(self.0@.take(i + 1).drop_last() =~= self.0@.take(i as int));
            i = i + 1;
        }
        assert(self.0@.take(32) =~= self.0@);
        string_from_chars(&chars)
    }
}

/// A digest computed over data that arrives in pieces, such as a file
/// read block by block.
pub struct StreamDigest {
    hasher: sha2::Sha256,
}

impl StreamDigest {
    /// The bytes fed so far.
    pub closed spec fn input(&self) -> Seq<u8> {
        sha256_input(self.hasher)
    }

    pub fn new() -> (r: Self)
        ensures
            r.input() == Seq::<u8>::empty(),
    {
        StreamDigest { hasher: sha256_new() }
    }

    pub fn update(&mut self, data: &[u8])
        ensures
            final(self).input() == old(self).input() + data@,
    {
        sha256_update(&mut self.hasher, data);
    }

    /// The digest of all the bytes fed, in order.
    pub fn finalize(self) -> (r: Sha256Digest)
        ensures
            r.0@ == sha256(self.input()),
    {
        Sha256Digest(sha256_finalize(self.hasher))
    }
}

/// The pieces, one after the other.
pub open spec fn concat_pieces(pieces: Seq<Seq<u8>>) -> Seq<u8>
    decreases pieces.len(),
{
    if pieces.len() == 0 {
        Seq::empty()
    } else {
        concat_pieces(pieces.drop_last()) + pieces.last()
    }
}

/// Feeding pieces one by one: after the first `k` pieces the stream has
/// been fed their concatenation, and feeding piece `k` extends it to the
/// first `k + 1`; once all are fed, the digest is that of the whole.
pub proof fn lemma_pieces_digest(pieces: Seq<Seq<u8>>, k: int)
    requires
        0 <= k < pieces.len(),
    ensures
        concat_pieces(pieces.take(k)) + pieces[k] == concat_pieces(pieces.take(k + 1)),
        sha256(concat_pieces(pieces.take(pieces.len() as int))) == sha256(concat_pieces(pieces)),
{
    assert(pieces.take(k + 1).drop_last() =~= pieces.take(k));
    assert(pieces.take(pieces.len() as int) =~= pieces);
}

/// What a manifest records of one path below a root.
#[derive(Debug, Clone, PartialEq, Eq)]
pub enum ManifestEntry {
    Directory,
    File { bytes: u64, digest: Sha256Digest },
    Symlink(String),
}

/// Two entries describe the same thing: the same kind, and for files the same
/// size and digest, for links the same target.
pub open spec fn same_entry(a: ManifestEntry, b: ManifestEntry) -> bool {
    match (a, b) {
        (ManifestEntry::Directory, ManifestEntry::Directory) => true,
        (
            ManifestEntry::File { bytes: b1, digest: d1 },
            ManifestEntry::File { bytes: b2, digest: d2 },
        ) => b1 == b2 && d1.0@ == d2.0@,
        (ManifestEntry::Symlink(t1), ManifestEntry::Symlink(t2)) => t1@ == t2@,
        _ => false,
    }
}

/// Entries count as the same only when they record the same thing: a
/// directory only a directory, a file only a file of the same size and
/// digest, a link only a link to the same target; and every entry is the
/// same as itself.
pub proof fn lemma_same_entry_records_alike(a: ManifestEntry, b: ManifestEntry)
    ensures
        same_entry(a, a),
        same_entry(a, b) ==> (a is Directory <==> b is Directory),
        same_entry(a, b) ==> (a matches ManifestEntry::Symlink(t) ==> (b matches ManifestEntry::Symlink(
            u,
        ) && u@ == t@)),
        same_entry(a, b) ==> (a matches ManifestEntry::File { bytes, digest } ==> (b matches ManifestEntry::File {
            bytes: b2,
            digest: d2,
        } && b2 == bytes && d2.0@ == digest.0@)),
{
}

fn digests_equal(a: &Sha256Digest, b: &Sha256Digest) -> (r: bool)
    ensures
        r == (a.0@ == b.0@),
{
    for k in 0..32
        invariant
            a.0@.len() == 32,
            b.0@.len() == 32,
            forall|m: int| 0 <= m < k ==> a.0@[m] == b.0@[m],
    {
        if a.0[k] != b.0[k] {
            return false;
        }
    }
    assert(a.0@ =~= b.0@);
    true
}

pub fn entries_equal(a: &ManifestEntry, b: &ManifestEntry) -> (r: bool)
    ensures
        r == same_entry(*a, *b),
{
    match (a, b) {
        (ManifestEntry::Directory, ManifestEntry::Directory) => true,
        (
            ManifestEntry::File { bytes: b1, digest: d1 },
            ManifestEntry::File { bytes: b2, digest: d2 },
        ) => *b1 == *b2 && digests_equal(d1, d2),
        (ManifestEntry::Symlink(t1), ManifestEntry::Symlink(t2)) => {
            let c1 = chars_of(t1.as_str());
            let c2 = chars_of(t2.as_str());
            chars_equal(&c1, &c2)
        },
        _ => false,
    }
}

/// Every entry below a root, keyed by its path relative to the root, in the
/// order of the paths: no path occurs twice.
#[derive(Debug, PartialEq, Eq)]
pub struct MigrationManifest {
    entries: Vec<(String, ManifestEntry)>,
}

impl View for MigrationManifest {
    type V = Seq<(String, ManifestEntry)>;

    closed spec fn view(&self) -> Seq<(String, ManifestEntry)> {
        self.entries@
    }
}

/// A manifest records `path`.
pub open spec fn has_path(es: Seq<(String, ManifestEntry)>, path: Seq<char>) -> bool {
    exists|i: int| 0 <= i < es.len() && es[i].0@ == path
}

/// `i` is where `path` is first recorded.
pub open spec fn first_at(es: Seq<(String, ManifestEntry)>, path: Seq<char>, i: int) -> bool {
    &&& 0 <= i < es.len()
    &&& es[i].0@ == path
    &&& forall|k: int| 0 <= k < i ==> es[k].0@ != path
}

/// The target records the path of `e` with the same entry.
pub open spec fn carried_over(e: (String, ManifestEntry), target: Seq<(String, ManifestEntry)>) -> bool {
    exists|j: int| first_at(target, e.0@, j) && same_entry(target[j].1, e.1)
}

/// How a target manifest first differs from its source.
#[derive(Debug, Clone, PartialEq, Eq)]
pub enum ManifestDifference {
    Missing(String),
    Extra(String),
    Changed(String),
}

/// Source entries up to `n` are carried over.
pub open spec fn carried_upto(source: Seq<(String, ManifestEntry)>, target: Seq<(String, ManifestEntry)>, n: int) -> bool {
    forall|k: int| 0 <= k < n ==> carried_over(#[trigger] source[k], target)
}

/// Target paths up to `n` are known to the source.
pub open spec fn known_upto(source: Seq<(String, ManifestEntry)>, target: Seq<(String, ManifestEntry)>, n: int) -> bool {
    forall|k: int| 0 <= k < n ==> has_path(source, (#[trigger] target[k]).0@)
}

/// `a` comes before `b` character by character, a proper prefix first.
pub open spec fn chars_less(a: Seq<char>, b: Seq<char>) -> bool
    decreases a.len(),
{
    if a.len() == 0 {
        b.len() > 0
    } else if b.len() == 0 {
        false
    } else if a[0] != b[0] {
        (a[0] as int) < (b[0] as int)
    } else {
        chars_less(a.drop_first(), b.drop_first())
    }
}

/// `a` comes before `b` component by component, a proper prefix first.
pub open spec fn segments_less(a: Seq<Seq<char>>, b: Seq<Seq<char>>) -> bool
    decreases a.len(),
{
    if a.len() == 0 {
        b.len() > 0
    } else if b.len() == 0 {
        false
    } else if a[0] != b[0] {
        chars_less(a[0], b[0])
    } else {
        segments_less(a.drop_first(), b.drop_first())
    }
}

/// The order of relative paths that a manifest scanned from disk keeps:
/// by their components, as paths compare.
pub open spec fn path_less(a: Seq<char>, b: Seq<char>) -> bool {
    segments_less(path_segments(a), path_segments(b))
}

/// The paths of a manifest ascend strictly, as in one scanned from disk.
pub open spec fn sorted_paths(es: Seq<(String, ManifestEntry)>) -> bool {
    forall|i: int, j: int| 0 <= i < j < es.len() ==> path_less(es[i].0@, es[j].0@)
}

/// Every source entry whose path comes before `p` is carried over.
pub open spec fn carried_before(source: Seq<(String, ManifestEntry)>, target: Seq<(String, ManifestEntry)>, p: Seq<char>) -> bool {
    forall|k: int|
        0 <= k < source.len() && path_less(source[k].0@, p) ==> carried_over(#[trigger] source[k], target)
}

/// Every target path that comes before `p` is known to the source.
pub open spec fn known_before(source: Seq<(String, ManifestEntry)>, target: Seq<(String, ManifestEntry)>, p: Seq<char>) -> bool {
    forall|k: int|
        0 <= k < target.len() && path_less(target[k].0@, p) ==> has_path(source, (#[trigger] target[k]).0@)
}

proof fn lemma_chars_less_asymmetric(a: Seq<char>, b: Seq<char>)
    ensures
        !(chars_less(a, b) && chars_less(b, a)),
    decreases a.len(),
{
    if a.len() > 0 && b.len() > 0 && a[0] == b[0] {
        lemma_chars_less_asymmetric(a.drop_first(), b.drop_first());
    }
}

proof fn lemma_segments_less_asymmetric(a: Seq<Seq<char>>, b: Seq<Seq<char>>)
    ensures
        !(segments_less(a, b) && segments_less(b, a)),
    decreases a.len(),
{
    if a.len() > 0 && b.len() > 0 {
        if a[0] == b[0] {
            lemma_segments_less_asymmetric(a.drop_first(), b.drop_first());
        } else {
            lemma_chars_less_asymmetric(a[0], b[0]);
        }
    }
}

/// In a manifest whose paths ascend, the entry at `i` is the least one
/// among `i` and those after it.
proof fn lemma_sorted_least(es: Seq<(String, ManifestEntry)>, i: int)
    requires
        sorted_paths(es),
        0 <= i < es.len(),
    ensures
        forall|k: int| 0 <= k < es.len() && path_less(es[k].0@, es[i].0@) ==> k < i,
{
    assert forall|k: int| 0 <= k < es.len() && path_less(es[k].0@, es[i].0@) implies k < i by {
        lemma_segments_less_asymmetric(path_segments(es[k].0@), path_segments(es[i].0@));
        if k > i {
            assert(path_less(es[i].0@, es[k].0@));
        }
    }
}

/// In a manifest whose paths ascend, a path is recorded at one place only.
proof fn lemma_sorted_same_path_same_place(es: Seq<(String, ManifestEntry)>, i: int, j: int)
    requires
        sorted_paths(es),
        0 <= i < es.len(),
        0 <= j < es.len(),
        es[i].0@ == es[j].0@,
    ensures
        i == j,
{
    lemma_segments_less_asymmetric(path_segments(es[i].0@), path_segments(es[i].0@));
    if i < j {
        assert(path_less(es[i].0@, es[j].0@));
    } else if j < i {
        assert(path_less(es[j].0@, es[i].0@));
    }
}

/// The two manifests record the same paths at the same places, with the
/// same entries.
pub open spec fn same_manifest(source: Seq<(String, ManifestEntry)>, target: Seq<(String, ManifestEntry)>) -> bool {
    &&& source.len() == target.len()
    &&& forall|i: int|
        0 <= i < source.len() ==> (#[trigger] source[i]).0@ == target[i].0@ && same_entry(
            target[i].1,
            source[i].1,
        )
}

proof fn lemma_chars_less_transitive(a: Seq<char>, b: Seq<char>, c: Seq<char>)
    requires
        chars_less(a, b),
        chars_less(b, c),
    ensures
        chars_less(a, c),
    decreases a.len(),
{
    if a.len() > 0 && a[0] == b[0] && b[0] == c[0] {
        lemma_chars_less_transitive(a.drop_first(), b.drop_first(), c.drop_first());
    }
}

proof fn lemma_segments_less_transitive(a: Seq<Seq<char>>, b: Seq<Seq<char>>, c: Seq<Seq<char>>)
    requires
        segments_less(a, b),
        segments_less(b, c),
    ensures
        segments_less(a, c),
    decreases a.len(),
{
    if a.len() > 0 {
        if a[0] == b[0] && b[0] == c[0] {
            lemma_segments_less_transitive(a.drop_first(), b.drop_first(), c.drop_first());
        } else if a[0] != b[0] && b[0] != c[0] {
            lemma_chars_less_transitive(a[0], b[0], c[0]);
            lemma_chars_less_asymmetric(a[0], a[0]);
        }
    }
}

/// Each path comes before the next.
pub open spec fn adjacent_sorted(es: Seq<(String, ManifestEntry)>) -> bool {
    forall|i: int| 0 < i < es.len() ==> path_less(es[i - 1].0@, (#[trigger] es[i]).0@)
}

proof fn lemma_adjacent_sorted(es: Seq<(String, ManifestEntry)>)
    requires
        adjacent_sorted(es),
    ensures
        sorted_paths(es),
    decreases es.len(),
{
    if es.len() > 1 {
        let front = es.drop_last();
        assert forall|i: int| 0 < i < front.len() implies path_less(front[i - 1].0@, (#[trigger] front[i]).0@) by {
            assert(path_less(es[i - 1].0@, es[i].0@));
        }
        lemma_adjacent_sorted(front);
        let n = es.len() - 1;
        assert forall|i: int, j: int| 0 <= i < j < es.len() implies path_less(es[i].0@, es[j].0@) by {
            if j < n {
                assert(front[i] == es[i] && front[j] == es[j]);
            } else if i < n - 1 {
                assert(front[i] == es[i] && front[n - 1] == es[n - 1]);
                assert(path_less(es[i].0@, es[n - 1].0@));
                assert(path_less(es[n - 1].0@, es[n].0@));
                lemma_segments_less_transitive(
                    path_segments(es[i].0@),
                    path_segments(es[n - 1].0@),
                    path_segments(es[n].0@),
                );
            } else {
                assert(path_less(es[n - 1].0@, es[n].0@));
            }
        }
    }
}

fn chars_less_exec(a: &Vec<char>, b: &Vec<char>) -> (r: bool)
    ensures
        r == chars_less(a@, b@),
{
    let mut i: usize = 0;
    assert(a@.skip(0) =~= a@ && b@.skip(0) =~= b@);
    while i < a.len() && i < b.len() && a[i] == b[i]
        invariant
            i <= a.len(),
            i <= b.len(),
            chars_less(a@, b@) == chars_less(a@.skip(i as int), b@.skip(i as int)),
        decreases a.len() - i,
    {
        assert(a@.skip(i as int).drop_first() =~= a@.skip(i + 1));
        assert(b@.skip(i as int).drop_first() =~= b@.skip(i + 1));
        i = i + 1;
    }
    if i == a.len() {
        i < b.len()
    } else if i == b.len() {
        false
    } else {
        assert(a@.skip(i as int)[0] == a@[i as int] && b@.skip(i as int)[0] == b@[i as int]);
        a[i] < b[i]
    }
}

fn segments_less_exec(a: &Vec<Vec<char>>, b: &Vec<Vec<char>>) -> (r: bool)
    ensures
        r == segments_less(views(a@), views(b@)),
{
    let ghost va = views(a@);
    let ghost vb = views(b@);
    let mut i: usize = 0;
    assert(va.skip(0) =~= va && vb.skip(0) =~= vb);
    while i < a.len() && i < b.len() && chars_equal(&a[i], &b[i])
        invariant
            va == views(a@),
            vb == views(b@),
            i <= a.len(),
            i <= b.len(),
            segments_less(va, vb) == segments_less(va.skip(i as int), vb.skip(i as int)),
        decreases a.len() - i,
    {
        assert(va.skip(i as int).drop_first() =~= va.skip(i + 1));
        assert(vb.skip(i as int).drop_first() =~= vb.skip(i + 1));
        assert(va.skip(i as int)[0] == a@[i as int]@ && vb.skip(i as int)[0] == b@[i as int]@);
        i = i + 1;
    }
    if i == a.len() {
        i < b.len()
    } else if i == b.len() {
        false
    } else {
        assert(va.skip(i as int)[0] == a@[i as int]@ && vb.skip(i as int)[0] == b@[i as int]@);
        chars_less_exec(&a[i], &b[i])
    }
}

impl MigrationManifest {
    #[verifier::type_invariant]
    closed spec fn ordered(self) -> bool {
        sorted_paths(self.entries@)
    }

    /// A manifest of these entries, refused unless their paths ascend
    /// strictly, as a scan of a directory tree lists them.
    pub fn new(entries: Vec<(String, ManifestEntry)>) -> (r: Result<Self, MigrationError>)
        ensures
            sorted_paths(entries@) ==> (r matches Ok(m) && m@ == entries@),
            !sorted_paths(entries@) ==> r == Err::<Self, MigrationError>(
                MigrationError::InvalidInput("manifest order"),
            ),
    {
        if entries.len() > 0 {
            let mut previous = split_segments(&chars_of(entries[0].0.as_str()));
            let mut i: usize = 1;
            while i < entries.len()
                invariant
                    1 <= i <= entries.len(),
                    views(previous@) == path_segments(entries@[i - 1].0@),
                    forall|k: int| 0 < k < i ==> path_less(entries@[k - 1].0@, (#[trigger] entries@[k]).0@),
                decreases entries.len() - i,
            {
                let current = split_segments(&chars_of(entries[i].0.as_str()));
                if !segments_less_exec(&previous, &current) {
                    proof {
                        lemma_segments_less_asymmetric(path_segments(entries@[i as int].0@), path_segments(entries@[i as int].0@));
                        if sorted_paths(entries@) {
                            assert(path_less(entries@[i - 1].0@, entries@[i as int].0@));
                        }
                    }
                    return Err(MigrationError::InvalidInput("manifest order"));
                }
                previous = current;
                i = i + 1;
            }
        }
        proof {
            lemma_adjacent_sorted(entries@);
        }
        Ok(MigrationManifest { entries })
    }

    /// A copy with the same paths and entries.
    pub fn duplicate(&self) -> (r: Self)
        ensures
            r@.len() == self@.len(),
            forall|i: int| 0 <= i < r@.len() ==> (#[trigger] r@[i]).0@ == self@[i].0@,
    {
        proof {
            use_type_invariant(self);
        }
        let mut entries: Vec<(String, ManifestEntry)> = Vec::new();
        for i in 0..self.entries.len()
            invariant
                sorted_paths(self.entries@),
                entries@.len() == i,
                forall|k: int| 0 <= k < i ==> (#[trigger] entries@[k]).0@ == self.entries@[k].0@,
        {
            entries.push((self.entries[i].0.clone(), self.entries[i].1.clone()));
        }
        assert(sorted_paths(entries@)) by {
            assert forall|a: int, b: int| 0 <= a < b < entries@.len() implies path_less(
                entries@[a].0@,
                entries@[b].0@,
            ) by {
                assert(path_less(self.entries@[a].0@, self.entries@[b].0@));
            }
        }
        MigrationManifest { entries }
    }

    /// The entries, in the order of their paths.
    pub fn entries(&self) -> (r: &Vec<(String, ManifestEntry)>)
        ensures
            r@ == self@,
            sorted_paths(r@),
    {
        proof {
            use_type_invariant(self);
        }
        &self.entries
    }
}

fn find_path(es: &Vec<(String, ManifestEntry)>, path: &Vec<char>) -> (r: Option<usize>)
    ensures
        r matches Some(i) ==> first_at(es@, path@, i as int),
        r is None ==> !has_path(es@, path@),
{
    for i in 0..es.len()
        invariant
            forall|k: int| 0 <= k < i ==> es@[k].0@ != path@,
    {
        let key = chars_of(es[i].0.as_str());
        if chars_equal(&key, path) {
            return Some(i);
        }
    }
    None
}

/// Walks the source in order and reports its first entry that the target
/// lacks or records differently; then walks the target in order and reports
/// its first path that the source lacks.
pub fn compare_manifests(source: &MigrationManifest, target: &MigrationManifest) -> (r: Result<(), ManifestDifference>)
    ensures
        r is Ok <==> carried_upto(source@, target@, source@.len() as int)
            && known_upto(source@, target@, target@.len() as int),
        r matches Err(ManifestDifference::Missing(p)) ==> exists|i: int|
            0 <= i < source@.len() && carried_upto(source@, target@, i)
                && !has_path(target@, source@[i].0@) && p@
                == source@[i].0@,
        r matches Err(ManifestDifference::Changed(p)) ==> exists|i: int|
            0 <= i < source@.len() && carried_upto(source@, target@, i)
                && has_path(target@, source@[i].0@) && !carried_over(
                source@[i],
                target@,
            ) && p@ == source@[i].0@,
        r matches Err(ManifestDifference::Missing(p)) ==> carried_before(source@, target@, p@),
        r matches Err(ManifestDifference::Changed(p)) ==> carried_before(source@, target@, p@),
        r matches Err(ManifestDifference::Extra(p)) ==> known_before(source@, target@, p@),
        r is Ok ==> same_manifest(source@, target@),
        r is Ok ==> forall|i: int, j: int|
            0 <= i < source@.len() && 0 <= j < target@.len() && (#[trigger] source@[i]).0@
                == (#[trigger] target@[j]).0@ ==> {
                &&& (source@[i].1 is Directory <==> target@[j].1 is Directory)
                &&& (source@[i].1 matches ManifestEntry::Symlink(t) ==> (target@[j].1 matches ManifestEntry::Symlink(
                    u,
                ) && u@ == t@))
                &&& (source@[i].1 matches ManifestEntry::File { bytes, digest } ==> (target@[j].1 matches ManifestEntry::File {
                    bytes: b2,
                    digest: d2,
                } && b2 == bytes && d2.0@ == digest.0@))
            },
        r matches Err(ManifestDifference::Extra(p)) ==> carried_upto(
            source@,
            target@,
            source@.len() as int,
        ) && exists|j: int|
            0 <= j < target@.len() && known_upto(source@, target@, j)
                && !has_path(source@, target@[j].0@) && p@
                == target@[j].0@,
{
    proof {
        use_type_invariant(source);
        use_type_invariant(target);
    }
    let src = &source.entries;
    let tgt = &target.entries;
    for i in 0..src.len()
        invariant
            src == &source.entries,
            tgt == &target.entries,
            sorted_paths(src@),
            sorted_paths(tgt@),
            carried_upto(src@, tgt@, i as int),
    {
        let path = chars_of(src[i].0.as_str());
        match find_path(tgt, &path) {
            None => {
                proof {
                    lemma_sorted_least(src@, i as int);
                }
                let p = src[i].0.clone();
                assert(0 <= i < source@.len() && carried_upto(source@, target@, i as int)
                    && !has_path(target@, source@[i as int].0@) && p@ == source@[i as int].0@);
                return Err(ManifestDifference::Missing(p));
            },
            Some(j) => {
                if !entries_equal(&tgt[j].1, &src[i].1) {
                    proof {
                        if carried_over(src@[i as int], tgt@) {
                            let j2 = choose|j2: int|
                                first_at(tgt@, src@[i as int].0@, j2) && same_entry(
                                    tgt@[j2].1,
                                    src@[i as int].1,
                                );
                            assert(j2 == j);
                        }
                    }
                    proof {
                        if sorted_paths(src@) {
                            lemma_sorted_least(src@, i as int);
                        }
                    }
                    let p = src[i].0.clone();
                    assert(0 <= i < source@.len() && carried_upto(source@, target@, i as int)
                        && has_path(target@, source@[i as int].0@) && !carried_over(
                        source@[i as int],
                        target@,
                    ) && p@ == source@[i as int].0@);
                    return Err(ManifestDifference::Changed(p));
                }
                assert(carried_over(src@[i as int], tgt@));
            },
        }
        assert(carried_upto(src@, tgt@, i + 1));
    }
    for j in 0..tgt.len()
        invariant
            src == &source.entries,
            tgt == &target.entries,
            sorted_paths(src@),
            sorted_paths(tgt@),
            carried_upto(src@, tgt@, src@.len() as int),
            known_upto(src@, tgt@, j as int),
    {
        let path = chars_of(tgt[j].0.as_str());
        if find_path(src, &path).is_none() {
            proof {
                if sorted_paths(tgt@) {
                    lemma_sorted_least(tgt@, j as int);
                }
            }
            return Err(ManifestDifference::Extra(tgt[j].0.clone()));
        }
        assert(known_upto(src@, tgt@, j + 1));
    }
    proof {
        lemma_sorted_match_is_equal(src@, tgt@);
        assert forall|i: int, j: int|
            0 <= i < src@.len() && 0 <= j < tgt@.len() && (#[trigger] src@[i]).0@
                == (#[trigger] tgt@[j]).0@ implies {
            &&& (src@[i].1 is Directory <==> tgt@[j].1 is Directory)
            &&& (src@[i].1 matches ManifestEntry::Symlink(t) ==> (tgt@[j].1 matches ManifestEntry::Symlink(
                u,
            ) && u@ == t@))
            &&& (src@[i].1 matches ManifestEntry::File { bytes, digest } ==> (tgt@[j].1 matches ManifestEntry::File {
                bytes: b2,
                digest: d2,
            } && b2 == bytes && d2.0@ == digest.0@))
        } by {
            lemma_sorted_same_path_same_place(tgt@, i, j);
            lemma_same_entry_records_alike(src@[i].1, tgt@[i].1);
            lemma_same_entry_records_alike(tgt@[i].1, src@[i].1);
        }
    }
    Ok(())
}

/// No path is recorded twice, as in a manifest scanned from disk.
pub open spec fn distinct_paths(es: Seq<(String, ManifestEntry)>) -> bool {
    forall|i: int, j: int| 0 <= i < j < es.len() ==> es[i].0@ != es[j].0@
}

proof fn lemma_first_at_distinct(es: Seq<(String, ManifestEntry)>, k: int)
    requires
        distinct_paths(es),
        0 <= k < es.len(),
    ensures
        first_at(es, es[k].0@, k),
{
    assert forall|m: int| 0 <= m < k implies es[m].0@ != es[k].0@ by {}
}

/// A faithful copy verifies: a manifest without repeated paths compares
/// equal to itself.
pub proof fn lemma_manifest_matches_itself(es: Seq<(String, ManifestEntry)>)
    requires
        distinct_paths(es),
    ensures
        carried_upto(es, es, es.len() as int),
        known_upto(es, es, es.len() as int),
{
    assert forall|k: int| 0 <= k < es.len() implies carried_over(#[trigger] es[k], es) by {
        lemma_first_at_distinct(es, k);
        assert(first_at(es, es[k].0@, k) && same_entry(es[k].1, es[k].1));
    }
    assert forall|k: int| 0 <= k < es.len() implies has_path(es, (#[trigger] es[k]).0@) by {
        assert(es[k].0@ == es[k].0@);
    }
}

/// Verification does not depend on which root is called the source: for
/// manifests without repeated paths, a target that matches its source is
/// matched by it.
pub proof fn lemma_manifest_match_symmetric(source: Seq<(String, ManifestEntry)>, target: Seq<(String, ManifestEntry)>)
    requires
        distinct_paths(source),
        distinct_paths(target),
        carried_upto(source, target, source.len() as int),
        known_upto(source, target, target.len() as int),
    ensures
        carried_upto(target, source, target.len() as int),
        known_upto(target, source, source.len() as int),
{
    assert forall|k: int| 0 <= k < target.len() implies carried_over(#[trigger] target[k], source) by {
        assert(has_path(source, target[k].0@));
        let i = choose|i: int| 0 <= i < source.len() && source[i].0@ == target[k].0@;
        assert(carried_over(source[i], target));
        let j = choose|j: int| first_at(target, source[i].0@, j) && same_entry(target[j].1, source[i].1);
        if j != k {
            assert(target[j].0@ == target[k].0@);
        }
        lemma_first_at_distinct(source, i);
        assert(first_at(source, target[k].0@, i));
        assert(same_entry(source[i].1, target[k].1));
    }
    assert forall|k: int| 0 <= k < source.len() implies has_path(target, (#[trigger] source[k]).0@) by {
        assert(carried_over(source[k], target));
        let j = choose|j: int| first_at(target, source[k].0@, j) && same_entry(target[j].1, source[k].1);
        assert(target[j].0@ == source[k].0@);
    }
}

proof fn lemma_increasing_lower_bound(f: spec_fn(int) -> int, n: int, m: int)
    requires
        0 <= n,
        0 <= m,
        forall|i: int, j: int| 0 <= i < j < n ==> #[trigger] f(i) < #[trigger] f(j),
        forall|i: int| 0 <= i < n ==> 0 <= #[trigger] f(i) < m,
    ensures
        n <= m,
        forall|i: int| 0 <= i < n ==> #[trigger] f(i) >= i,
    decreases n,
{
    if n > 0 {
        lemma_increasing_lower_bound(f, n - 1, m);
        if n > 1 {
            assert(f(n - 2) < f(n - 1));
        }
        assert(f(n - 1) >= n - 1);
    }
}

/// A strictly increasing map of `0..n` into `0..n` is the identity.
proof fn lemma_increasing_identity(f: spec_fn(int) -> int, n: int)
    requires
        0 <= n,
        forall|i: int, j: int| 0 <= i < j < n ==> #[trigger] f(i) < #[trigger] f(j),
        forall|i: int| 0 <= i < n ==> 0 <= #[trigger] f(i) < n,
    ensures
        forall|i: int| 0 <= i < n ==> #[trigger] f(i) == i,
{
    lemma_increasing_lower_bound(f, n, n);
    let g = |i: int| (n - 1) - f((n - 1) - i);
    assert forall|i: int, j: int| 0 <= i < j < n implies #[trigger] g(i) < #[trigger] g(j) by {
        assert(f((n - 1) - j) < f((n - 1) - i));
    }
    assert forall|i: int| 0 <= i < n implies 0 <= #[trigger] g(i) < n by {
        assert(0 <= f((n - 1) - i) < n);
    }
    lemma_increasing_lower_bound(g, n, n);
    assert forall|i: int| 0 <= i < n implies #[trigger] f(i) == i by {
        assert(g((n - 1) - i) >= (n - 1) - i);
        assert(f(i) >= i);
    }
}

/// For manifests whose paths ascend, as those scanned from disk, a target
/// that matches its source is the same manifest: the same paths at the
/// same places, with the same entries.
pub proof fn lemma_sorted_match_is_equal(source: Seq<(String, ManifestEntry)>, target: Seq<(String, ManifestEntry)>)
    requires
        sorted_paths(source),
        sorted_paths(target),
        carried_upto(source, target, source.len() as int),
        known_upto(source, target, target.len() as int),
    ensures
        source.len() == target.len(),
        forall|i: int|
            0 <= i < source.len() ==> (#[trigger] source[i]).0@ == target[i].0@ && same_entry(
                target[i].1,
                source[i].1,
            ),
{
    let n = source.len() as int;
    let m = target.len() as int;
    let f = |i: int|
        choose|j: int| first_at(target, source[i].0@, j) && same_entry(target[j].1, source[i].1);
    let g = |k: int| choose|i: int| 0 <= i < n && source[i].0@ == target[k].0@;
    assert forall|i: int| 0 <= i < n implies first_at(target, source[i].0@, #[trigger] f(i))
        && same_entry(target[f(i)].1, source[i].1) by {
        assert(carried_over(source[i], target));
    }
    assert forall|k: int| 0 <= k < m implies 0 <= #[trigger] g(k) < n && source[g(k)].0@
        == target[k].0@ by {
        assert(has_path(source, target[k].0@));
    }
    assert forall|i: int, j: int| 0 <= i < j < n implies #[trigger] f(i) < #[trigger] f(j) by {
        assert(path_less(source[i].0@, source[j].0@));
        assert(first_at(target, source[i].0@, f(i)));
        assert(first_at(target, source[j].0@, f(j)));
        lemma_sorted_least(target, f(j));
    }
    assert forall|i: int, j: int| 0 <= i < j < m implies #[trigger] g(i) < #[trigger] g(j) by {
        assert(path_less(target[i].0@, target[j].0@));
        assert(0 <= g(i) < n && source[g(i)].0@ == target[i].0@);
        assert(0 <= g(j) < n && source[g(j)].0@ == target[j].0@);
        lemma_sorted_least(source, g(j));
    }
    assert forall|i: int| 0 <= i < n implies 0 <= #[trigger] f(i) < m by {
        assert(first_at(target, source[i].0@, f(i)));
    }
    lemma_increasing_lower_bound(f, n, m);
    lemma_increasing_lower_bound(g, m, n);
    lemma_increasing_identity(f, n);
    assert forall|i: int| 0 <= i < n implies (#[trigger] source[i]).0@ == target[i].0@
        && same_entry(target[i].1, source[i].1) by {
        assert(f(i) == i);
        assert(first_at(target, source[i].0@, f(i)) && same_entry(target[f(i)].1, source[i].1));
    }
}

/// The refusal that a manifest difference turns into.
pub open spec fn difference_error(d: ManifestDifference) -> MigrationError {
    match d {
        ManifestDifference::Missing(_) => MigrationError::InvalidInput("missing target entry"),
        ManifestDifference::Extra(_) => MigrationError::InvalidInput("unexpected target entry"),
        ManifestDifference::Changed(_) => MigrationError::InvalidInput("changed target entry"),
    }
}

/// The target is an exact copy of the source, or the first difference is refused.
pub fn verify_manifests(source: &MigrationManifest, target: &MigrationManifest) -> (r: Result<(), MigrationError>)
    ensures
        r is Ok <==> carried_upto(source@, target@, source@.len() as int)
            && known_upto(source@, target@, target@.len() as int),
        r matches Err(e) ==> exists|d: ManifestDifference|
            compare_manifests_result(source, target, d) && e == difference_error(d),
{
    match compare_manifests(source, target) {
        Ok(()) => Ok(()),
        Err(d) => {
            let e = match d {
                ManifestDifference::Missing(_) => MigrationError::InvalidInput("missing target entry"),
                ManifestDifference::Extra(_) => MigrationError::InvalidInput("unexpected target entry"),
                ManifestDifference::Changed(_) => MigrationError::InvalidInput("changed target entry"),
            };
            assert(compare_manifests_result(source, target, d));
            assert(e == difference_error(d));
            assert(exists|d2: ManifestDifference|
                compare_manifests_result(source, target, d2) && e == difference_error(d2));
            Err(e)
        },
    }
}

/// `d` is a difference that `compare_manifests` may report for these manifests.
pub open spec fn compare_manifests_result(source: &MigrationManifest, target: &MigrationManifest, d: ManifestDifference) -> bool {
    let s = source@;
    let t = target@;
    match d {
        ManifestDifference::Missing(p) => exists|i: int|
            0 <= i < s.len() && carried_upto(s, t, i) && !has_path(t, s[i].0@) && p@ == s[i].0@,
        ManifestDifference::Changed(p) => exists|i: int|
            0 <= i < s.len() && carried_upto(s, t, i) && has_path(t, s[i].0@) && !carried_over(
                s[i],
                t,
            ) && p@ == s[i].0@,
        ManifestDifference::Extra(p) => carried_upto(s, t, s.len() as int) && exists|j: int|
            0 <= j < t.len() && known_upto(s, t, j) && !has_path(s, t[j].0@) && p@ == t[j].0@,
    }
}

impl Clone for MigrationManifest {
    fn clone(&self) -> (r: Self)
        ensures
            r@.len() == self@.len(),
            forall|i: int| 0 <= i < r@.len() ==> (#[trigger] r@[i]).0@ == self@[i].0@,
    {
        self.duplicate()
    }
}

} // verus!
