//! APFS TRIM evidence from the kernel log.

use vstd::prelude::*;
use crate::text::{
    ascii_lower, chars_of, contains_seq, contains_str, is_ascii_alphanumeric, lines, lower_seq,
    split_lines, to_ascii_lower, views, char_to_ascii_lower, join_lines,
};

verus! {

broadcast use vstd::string::group_string_axioms;

/// What the kernel log says of TRIM on the target volume.
#[derive(Debug, Clone, Copy, PartialEq, Eq, Structural)]
pub enum TrimStatus {
    Observed,
    Absent,
    Unsupported,
}

/// A line about TRIM from the APFS space manager.
pub open spec fn trim_relevant(line: Seq<char>) -> bool {
    contains_seq(lower_seq(line), "spaceman"@) && contains_seq(lower_seq(line), "trim"@)
}

pub open spec fn trim_refused(line: Seq<char>) -> bool {
    contains_seq(lower_seq(line), "unsupported"@) || contains_seq(lower_seq(line), "disabled"@)
}

pub open spec fn trim_done(line: Seq<char>) -> bool {
    ||| contains_seq(lower_seq(line), "completed"@)
    ||| contains_seq(lower_seq(line), "issued"@)
    ||| contains_seq(lower_seq(line), "enabled"@)
}

/// A relevant line that refuses TRIM wins over any that reports it done.
pub open spec fn trim_status_of(ls: Seq<Seq<char>>) -> TrimStatus {
    if exists|i: int| 0 <= i < ls.len() && trim_relevant(ls[i]) && trim_refused(ls[i]) {
        TrimStatus::Unsupported
    } else if exists|i: int| 0 <= i < ls.len() && trim_relevant(ls[i]) && trim_done(ls[i]) {
        TrimStatus::Observed
    } else {
        TrimStatus::Absent
    }
}

/// The kernel log read word by word, case aside: a space-manager line on
/// TRIM that says "unsupported" or "disabled" makes TRIM unsupported,
/// whatever else the log says; failing that, one that says "completed",
/// "issued" or "enabled" makes it observed; otherwise it is absent.
pub proof fn lemma_trim_status_by_words(ls: Seq<Seq<char>>)
    ensures
        (exists|i: int|
            0 <= i < ls.len() && contains_seq(lower_seq(ls[i]), "spaceman"@) && contains_seq(
                lower_seq(ls[i]),
                "trim"@,
            ) && (contains_seq(lower_seq(ls[i]), "unsupported"@) || contains_seq(
                lower_seq(ls[i]),
                "disabled"@,
            ))) ==> trim_status_of(ls) == TrimStatus::Unsupported,
        (forall|i: int|
            0 <= i < ls.len() && contains_seq(lower_seq(ls[i]), "spaceman"@) && contains_seq(
                lower_seq(ls[i]),
                "trim"@,
            ) ==> !contains_seq(lower_seq(ls[i]), "unsupported"@) && !contains_seq(
                lower_seq(ls[i]),
                "disabled"@,
            )) ==> ((exists|i: int|
            0 <= i < ls.len() && contains_seq(lower_seq(ls[i]), "spaceman"@) && contains_seq(
                lower_seq(ls[i]),
                "trim"@,
            ) && (contains_seq(lower_seq(ls[i]), "completed"@) || contains_seq(
                lower_seq(ls[i]),
                "issued"@,
            ) || contains_seq(lower_seq(ls[i]), "enabled"@))) <==> trim_status_of(ls)
            == TrimStatus::Observed),
        (forall|i: int|
            0 <= i < ls.len() && contains_seq(lower_seq(ls[i]), "spaceman"@) && contains_seq(
                lower_seq(ls[i]),
                "trim"@,
            ) ==> !contains_seq(lower_seq(ls[i]), "unsupported"@) && !contains_seq(
                lower_seq(ls[i]),
                "disabled"@,
            ) && !contains_seq(lower_seq(ls[i]), "completed"@) && !contains_seq(
                lower_seq(ls[i]),
                "issued"@,
            ) && !contains_seq(lower_seq(ls[i]), "enabled"@)) ==> trim_status_of(ls)
            == TrimStatus::Absent,
{
}

fn status_of_lines(ls: &Vec<Vec<char>>) -> (r: TrimStatus)
    ensures
        r == trim_status_of(views(ls@)),
{
    let ghost all = views(ls@);
    let mut observed = false;
    for i in 0..ls.len()
        invariant
            all == views(ls@),
            forall|k: int| 0 <= k < i ==> !(trim_relevant(all[k]) && trim_refused(all[k])),
            observed == exists|k: int| 0 <= k < i && trim_relevant(all[k]) && trim_done(all[k]),
    {
        let lower = to_ascii_lower(&ls[i]);
        assert(all[i as int] == ls@[i as int]@);
        if contains_str(&lower, "spaceman") && contains_str(&lower, "trim") {
            if contains_str(&lower, "unsupported") || contains_str(&lower, "disabled") {
                return TrimStatus::Unsupported;
            }
            if contains_str(&lower, "completed") || contains_str(&lower, "issued")
                || contains_str(&lower, "enabled") {
                observed = true;
            }
        }
    }
    if observed {
        TrimStatus::Observed
    } else {
        TrimStatus::Absent
    }
}

/// Reads the TRIM status from `log show` output.
pub fn parse_trim_log(log: &str) -> (r: TrimStatus)
    ensures
        r == trim_status_of(lines(log@)),
{
    let chars = chars_of(log);
    let ls = split_lines(&chars);
    status_of_lines(&ls)
}

/// Volume-identifier tokens are separated by anything but ASCII letters,
/// digits and `-`.
pub open spec fn is_separator(c: char) -> bool {
    !(is_ascii_alphanumeric(c) || c == '-')
}

/// `line[i..j]` is one of the pieces that splitting `line` at separators gives.
pub open spec fn token_at(line: Seq<char>, i: int, j: int) -> bool {
    &&& 0 <= i <= j <= line.len()
    &&& i == 0 || is_separator(line[i - 1])
    &&& j == line.len() || is_separator(line[j])
    &&& forall|k: int| i <= k < j ==> !is_separator(line[k])
}

/// `str::eq_ignore_ascii_case`.
pub open spec fn eq_ignore_ascii_case(a: Seq<char>, b: Seq<char>) -> bool {
    a.len() == b.len() && forall|k: int| 0 <= k < a.len() ==> ascii_lower(a[k]) == ascii_lower(b[k])
}

/// Some token of `line` equals `id`, ignoring ASCII case.
pub open spec fn mentions(line: Seq<char>, id: Seq<char>) -> bool {
    exists|i: int, j: int| token_at(line, i, j) && eq_ignore_ascii_case(line.subrange(i, j), id)
}

fn is_separator_exec(c: char) -> (r: bool)
    ensures
        r == is_separator(c),
{
    !(('0' <= c && c <= '9') || ('a' <= c && c <= 'z') || ('A' <= c && c <= 'Z') || c == '-')
}

fn eq_ignore_case_at(line: &Vec<char>, i: usize, j: usize, id: &Vec<char>) -> (r: bool)
    requires
        i <= j <= line.len(),
    ensures
        r == eq_ignore_ascii_case(line@.subrange(i as int, j as int), id@),
{
    if j - i != id.len() {
        return false;
    }
    let mut k: usize = 0;
    while k < id.len()
        invariant
            j - i == id.len(),
            i <= j <= line.len(),
            k <= id.len(),
            forall|m: int| 0 <= m < k ==> ascii_lower(line@[i + m]) == ascii_lower(id@[m]),
        decreases id.len() - k,
    {
        if char_to_ascii_lower(line[i + k]) != char_to_ascii_lower(id[k]) {
            assert(line@.subrange(i as int, j as int)[k as int] == line@[i + k]);
            return false;
        }
        k = k + 1;
    }
    true
}

pub fn mentions_exec(line: &Vec<char>, id: &Vec<char>) -> (r: bool)
    ensures
        r == mentions(line@, id@),
{
    let n = line.len();
    let mut i: usize = 0;
    loop
        invariant
            n == line.len(),
            i <= n,
            forall|a: int, b: int|
                0 <= a < i && token_at(line@, a, b) ==> !eq_ignore_ascii_case(
                    line@.subrange(a, b),
                    id@,
                ),
        decreases n - i,
    {
        if i == 0 || is_separator_exec(line[i - 1]) {
            let mut j = i;
            while j < n && !is_separator_exec(line[j])
                invariant
                    i <= j <= n,
                    n == line.len(),
                    forall|k: int| i <= k < j ==> !is_separator(line@[k]),
                decreases n - j,
            {
                j = j + 1;
            }
            assert(token_at(line@, i as int, j as int));
            assert forall|b: int| token_at(line@, i as int, b) implies b == j by {
                if b < j {
                    assert(!is_separator(line@[b]));
                } else if b > j {
                    assert(!is_separator(line@[j as int]));
                }
            }
            if eq_ignore_case_at(line, i, j, id) {
                return true;
            }
        }
        if i == n {
            return false;
        }
        i = i + 1;
    }
}

/// Identity of the APFS volume that receives the migration.
#[derive(Debug, Clone, PartialEq, Eq)]
pub struct TargetVolumeIdentity {
    pub volume_uuid: String,
    pub device_identifier: String,
}

pub open spec fn mentions_volume(line: Seq<char>, uuid: Seq<char>, device: Seq<char>) -> bool {
    mentions(line, uuid) || mentions(line, device)
}

/// The lines that mention the volume, in order.
pub open spec fn volume_lines(ls: Seq<Seq<char>>, uuid: Seq<char>, device: Seq<char>) -> Seq<Seq<char>>
    decreases ls.len(),
{
    if ls.len() == 0 {
        Seq::empty()
    } else {
        let rest = volume_lines(ls.drop_last(), uuid, device);
        if mentions_volume(ls.last(), uuid, device) {
            rest.push(ls.last())
        } else {
            rest
        }
    }
}

/// Reads the TRIM status from the log lines that name the target volume by
/// its UUID or device identifier.
pub fn parse_trim_log_for_volume(log: &str, identity: &TargetVolumeIdentity) -> (r: TrimStatus)
    ensures
        r == trim_status_of(
            lines(
                join_lines(
                    volume_lines(
                        lines(log@),
                        identity.volume_uuid@,
                        identity.device_identifier@,
                    ),
                ),
            ),
        ),
{
    let chars = chars_of(log);
    let ls = split_lines(&chars);
    let uuid = chars_of(identity.volume_uuid.as_str());
    let device = chars_of(identity.device_identifier.as_str());
    let ghost all = views(ls@);
    let mut joined: Vec<char> = Vec::new();
    let mut count: usize = 0;
    let mut i: usize = 0;
    while i < ls.len()
        invariant
            all == views(ls@),
            all == lines(log@),
            i <= ls.len(),
            uuid@ == identity.volume_uuid@,
            device@ == identity.device_identifier@,
            count == volume_lines(all.take(i as int), uuid@, device@).len(),
            count <= i,
            joined@ == join_lines(volume_lines(all.take(i as int), uuid@, device@)),
        decreases ls.len() - i,
    {
        assert(all.take(i + 1).drop_last() =~= all.take(i as int));
        assert(all.take(i + 1).last() == ls@[i as int]@);
        let line = &ls[i];
        let ghost old = volume_lines(all.take(i as int), uuid@, device@);
        if mentions_exec(line, &uuid) || mentions_exec(line, &device) {
            assert(volume_lines(all.take(i + 1), uuid@, device@) == old.push(line@));
            assert(old.push(line@).drop_last() =~= old);
            if count > 0 {
                joined.push('\n');
            }
            let ghost before = joined@;
            let mut k: usize = 0;
            while k < line.len()
                invariant
                    k <= line.len(),
                    joined@ == before + line@.take(k as int),
                decreases line.len() - k,
            {
                joined.push(line[k]);
                assert(line@.take(k + 1) =~= line@.take(k as int).push(line@[k as int]));
                k = k + 1;
            }
            assert(line@.take(line.len() as int) =~= line@);
            proof {
                if old.len() == 0 {
                    assert(joined@ =~= line@);
                } else {
                    assert(joined@ =~= join_lines(old) + seq!['\n'] + line@);
                }
            }
            count = count + 1;
        }
        i = i + 1;
    }
    assert(all.take(ls.len() as int) =~= all);
    let jl = split_lines(&joined);
    status_of_lines(&jl)
}

/// TRIM evidence and when it was read, in nanoseconds since the Unix epoch.
#[derive(Debug, Clone, Copy, PartialEq, Eq, Structural)]
pub struct TrimEvidence {
    pub status: TrimStatus,
    pub observed_at: u128,
}

/// Evidence stays fresh for one hour.
pub const TRIM_EVIDENCE_TTL_NANOS: u128 = 3_600_000_000_000;

impl TrimEvidence {
    /// Fresh when read no later than `now` and at most an hour before it.
    pub fn is_fresh(self, now: u128) -> (r: bool)
        ensures
            r == (self.observed_at <= now && now - self.observed_at <= TRIM_EVIDENCE_TTL_NANOS),
    {
        self.observed_at <= now && now - self.observed_at <= TRIM_EVIDENCE_TTL_NANOS
    }
}

/// Arguments of `log show` that read the last hour of kernel messages,
/// followed by [`TRIM_LOG_PREDICATE`].
pub fn trim_log_arguments() -> (r: [&'static str; 6])
    ensures
        r@ == seq!["show", "--last", "1h", "--style", "compact", "--predicate"],
{
    ["show", "--last", "1h", "--style", "compact", "--predicate"]
}

pub const TRIM_LOG_PREDICATE: &'static str = "process == \"kernel\" AND eventMessage CONTAINS[c] \"spaceman\"";

} // verus!
