//! Host probe used by installation and doctor commands: which models a
//! host runs comfortably, and how much memory it has.

use vstd::prelude::*;
use vstd::string::StringExecFns;
use crate::text::{
    chars_of, char_is_whitespace, is_whitespace, lines, parse_bounded, parse_decimal,
    split_lines, equals_str, starts_with_seq, starts_with_str, trim, trim_chars, views,
};
use crate::registry::sat_mul;

verus! {

broadcast use vstd::string::group_string_axioms;

/// What a host can run: a profile name and two lists of models.
#[derive(Debug, Clone, PartialEq, Eq)]
pub struct Recommendation {
    pub recommendation: &'static str,
    pub comfortable_models: Vec<&'static str>,
    pub robust_but_delayed_models: Vec<&'static str>,
}

/// The host facts a doctor report shows.
#[derive(Debug, Clone, PartialEq, Eq)]
pub struct HardwareReport {
    pub platform: String,
    pub logical_cpus: usize,
    pub memory_bytes: Option<u64>,
    pub storage_probe_ms: u128,
    pub recommendation: &'static str,
    pub comfortable_models: Vec<&'static str>,
    pub robust_but_delayed_models: Vec<&'static str>,
}

pub const GIB: u64 = 1024 * 1024 * 1024;

/// The tier of a host by its memory: 64 GiB and more, 32 GiB and more,
/// 16 GiB and more, less, or unknown.
pub open spec fn recommendation_for(memory_bytes: Option<u64>) -> (&'static str, Seq<&'static str>, Seq<&'static str>) {
    match memory_bytes {
        Some(bytes) => if bytes >= 64 * GIB {
            (
                "quality-and-long-context",
                seq!["Qwen3.5 4B", "Qwen3.5 9B", "Qwen3.8 27B"],
                seq!["verified 1M-context runtime"],
            )
        } else if bytes >= 32 * GIB {
            (
                "quality-and-mid-size-models",
                seq!["Qwen3.5 4B", "Qwen3.5 9B"],
                seq!["Qwen3.8 27B", "long-context profiles"],
            )
        } else if bytes >= 16 * GIB {
            ("small-and-mid-size-models", seq!["Qwen3.5 4B"], seq!["Qwen3.5 9B", "Qwen3.8 27B"])
        } else {
            ("small-models-only", seq!["Qwen3.5 4B"], seq![])
        },
        None => ("run-backend-benchmark", seq![], seq![]),
    }
}

/// Each model has its own memory threshold and is run comfortably on every
/// host from that threshold up: the 4B model on any host of known memory,
/// the 9B model from 32 GiB, the 27B model from 64 GiB. Between 16 GiB and
/// its threshold a model is robust but delayed.
pub proof fn lemma_model_thresholds(m: u64)
    ensures
        recommendation_for(Some(m)).1.contains("Qwen3.5 4B"),
        recommendation_for(Some(m)).1.contains("Qwen3.5 9B") <==> m >= 32 * GIB,
        recommendation_for(Some(m)).1.contains("Qwen3.8 27B") <==> m >= 64 * GIB,
        recommendation_for(Some(m)).2.contains("Qwen3.5 9B") <==> 16 * GIB <= m < 32 * GIB,
        recommendation_for(Some(m)).2.contains("Qwen3.8 27B") <==> 16 * GIB <= m < 64 * GIB,
        !recommendation_for(Some(m)).2.contains("Qwen3.5 4B"),
{
    reveal_strlit("Qwen3.5 4B");
    reveal_strlit("Qwen3.5 9B");
    reveal_strlit("Qwen3.8 27B");
    reveal_strlit("verified 1M-context runtime");
    reveal_strlit("long-context profiles");
    let c = recommendation_for(Some(m)).1;
    let d = recommendation_for(Some(m)).2;
    assert(c[0] == "Qwen3.5 4B");
    if m >= 32 * GIB {
        assert(c[1] == "Qwen3.5 9B");
    }
    if m >= 64 * GIB {
        assert(c[2] == "Qwen3.8 27B");
    }
    if 16 * GIB <= m < 32 * GIB {
        assert(d[0] == "Qwen3.5 9B");
        assert(d[1] == "Qwen3.8 27B");
    }
    if 32 * GIB <= m < 64 * GIB {
        assert(d[0] == "Qwen3.8 27B");
    }
}

/// A host with more memory runs comfortably every model that a host with
/// less memory runs comfortably.
pub proof fn lemma_comfort_grows_with_memory(m1: u64, m2: u64, model: &'static str)
    requires
        m1 <= m2,
        recommendation_for(Some(m1)).1.contains(model),
    ensures
        recommendation_for(Some(m2)).1.contains(model),
{
    lemma_model_thresholds(m1);
    lemma_model_thresholds(m2);
    let c1 = recommendation_for(Some(m1)).1;
    let c2 = recommendation_for(Some(m2)).1;
    let k = choose|k: int| 0 <= k < c1.len() && c1[k] == model;
    if m2 >= 64 * GIB {
        assert(c2[k] == c1[k]);
    } else if m2 >= 32 * GIB {
        assert(c2[k] == c1[k]);
    } else if m2 >= 16 * GIB {
        assert(c2[k] == c1[k]);
    } else {
        assert(c2[k] == c1[k]);
    }
}

pub fn recommend(memory_bytes: Option<u64>) -> (r: Recommendation)
    ensures
        (r.recommendation, r.comfortable_models@, r.robust_but_delayed_models@)
            == recommendation_for(memory_bytes),
{
    let mut comfortable: Vec<&'static str> = Vec::new();
    let mut delayed: Vec<&'static str> = Vec::new();
    let recommendation = match memory_bytes {
        Some(bytes) => if bytes >= 64 * GIB {
            comfortable.push("Qwen3.5 4B");
            comfortable.push("Qwen3.5 9B");
            comfortable.push("Qwen3.8 27B");
            delayed.push("verified 1M-context runtime");
            "quality-and-long-context"
        } else if bytes >= 32 * GIB {
            comfortable.push("Qwen3.5 4B");
            comfortable.push("Qwen3.5 9B");
            delayed.push("Qwen3.8 27B");
            delayed.push("long-context profiles");
            "quality-and-mid-size-models"
        } else if bytes >= 16 * GIB {
            comfortable.push("Qwen3.5 4B");
            delayed.push("Qwen3.5 9B");
            delayed.push("Qwen3.8 27B");
            "small-and-mid-size-models"
        } else {
            comfortable.push("Qwen3.5 4B");
            "small-models-only"
        },
        None => "run-backend-benchmark",
    };
    assert(comfortable@ =~= recommendation_for(memory_bytes).1);
    assert(delayed@ =~= recommendation_for(memory_bytes).2);
    Recommendation { recommendation, comfortable_models: comfortable, robust_but_delayed_models: delayed }
}

/// The whitespace-separated words of `s` after the partial word `cur`.
pub open spec fn words_after(s: Seq<char>, cur: Seq<char>) -> Seq<Seq<char>>
    decreases s.len(),
{
    let done = if cur.len() == 0 { Seq::<Seq<char>>::empty() } else { seq![cur] };
    if s.len() == 0 {
        done
    } else if is_whitespace(s[0]) {
        done + words_after(s.drop_first(), Seq::empty())
    } else {
        words_after(s.drop_first(), cur.push(s[0]))
    }
}

/// `str::split_whitespace`.
pub open spec fn words(s: Seq<char>) -> Seq<Seq<char>> {
    words_after(s, Seq::empty())
}

pub fn split_words(s: &Vec<char>) -> (r: Vec<Vec<char>>)
    ensures
        views(r@) == words(s@),
{
    let mut r: Vec<Vec<char>> = Vec::new();
    let mut cur: Vec<char> = Vec::new();
    let mut i: usize = 0;
    assert(s@.skip(0) =~= s@);
    assert(views(r@) + words(s@) =~= words(s@));
    while i < s.len()
        invariant
            i <= s.len(),
            views(r@) + words_after(s@.skip(i as int), cur@) == words(s@),
        decreases s.len() - i,
    {
        assert(s@.skip(i as int).drop_first() =~= s@.skip(i + 1));
        if char_is_whitespace(s[i]) {
            if cur.len() > 0 {
                let ghost c = cur@;
                let ghost before = views(r@);
                r.push(cur);
                assert(views(r@) =~= before.push(c));
                assert(before + (seq![c] + words_after(s@.skip(i + 1), Seq::empty()))
                    =~= views(r@) + words_after(s@.skip(i + 1), Seq::empty()));
            } else {
                assert(Seq::<Seq<char>>::empty() + words_after(s@.skip(i + 1), Seq::empty())
                    =~= words_after(s@.skip(i + 1), Seq::empty()));
            }
            cur = Vec::new();
            assert(cur@ =~= Seq::<char>::empty());
        } else {
            cur.push(s[i]);
        }
        i = i + 1;
    }
    assert(s@.skip(i as int) =~= Seq::<char>::empty());
    if cur.len() > 0 {
        let ghost c = cur@;
        let ghost before = views(r@);
        r.push(cur);
        assert(views(r@) =~= before.push(c));
    } else {
        assert(views(r@) + Seq::<Seq<char>>::empty() =~= views(r@));
    }
    assert(views(r@) =~= words(s@));
    r
}

/// The first line that starts with `prefix`.
pub open spec fn first_line_with(ls: Seq<Seq<char>>, prefix: Seq<char>) -> Option<Seq<char>>
    decreases ls.len(),
{
    if ls.len() == 0 {
        None
    } else if starts_with_seq(ls[0], prefix) {
        Some(ls[0])
    } else {
        first_line_with(ls.drop_first(), prefix)
    }
}

/// Total memory from `/proc/meminfo`: the second word of the `MemTotal:`
/// line, in KiB, converted to bytes (saturating).
pub open spec fn meminfo_total(text: Seq<char>) -> Option<u64> {
    match first_line_with(lines(text), "MemTotal:"@) {
        None => None,
        Some(line) => if words(line).len() < 2 {
            None
        } else {
            match parse_bounded(words(line)[1], u64::MAX as nat) {
                Some(kib) => Some(sat_mul(kib as u64, 1024)),
                None => None,
            }
        },
    }
}

pub fn parse_meminfo_total(text: &str) -> (r: Option<u64>)
    ensures
        r == meminfo_total(text@),
{
    let chars = chars_of(text);
    let ls = split_lines(&chars);
    let ghost all = views(ls@);
    let mut i: usize = 0;
    assert(all.skip(0) =~= all);
    while i < ls.len()
        invariant
            all == views(ls@),
            all == lines(text@),
            i <= ls.len(),
            first_line_with(all, "MemTotal:"@) == first_line_with(all.skip(i as int), "MemTotal:"@),
        decreases ls.len() - i,
    {
        assert(all.skip(i as int).drop_first() =~= all.skip(i + 1));
        assert(all.skip(i as int)[0] == ls@[i as int]@);
        if starts_with_str(&ls[i], "MemTotal:") {
            let ws = split_words(&ls[i]);
            if ws.len() < 2 {
                return None;
            }
            assert(views(ws@)[1] == ws@[1]@);
            return match parse_decimal(&ws[1], u64::MAX) {
                Some(kib) => Some(match kib.checked_mul(1024) {
                    Some(b) => b,
                    None => u64::MAX,
                }),
                None => None,
            };
        }
        i = i + 1;
    }
    assert(all.skip(i as int).len() == 0);
    None
}


/// The host facts of a doctor report, with the recommendation its memory
/// earns.
pub fn hardware_report(platform: String, logical_cpus: usize, memory_bytes: Option<u64>, storage_probe_ms: u128) -> (r: HardwareReport)
    ensures
        r.platform == platform,
        r.logical_cpus == logical_cpus,
        r.memory_bytes == memory_bytes,
        r.storage_probe_ms == storage_probe_ms,
        (r.recommendation, r.comfortable_models@, r.robust_but_delayed_models@)
            == recommendation_for(memory_bytes),
{
    let rec = recommend(memory_bytes);
    HardwareReport {
        platform,
        logical_cpus,
        memory_bytes,
        storage_probe_ms,
        recommendation: rec.recommendation,
        comfortable_models: rec.comfortable_models,
        robust_but_delayed_models: rec.robust_but_delayed_models,
    }
}

/// The memory size that `sysctl -n hw.memsize` prints: a decimal byte
/// count, surrounding whitespace ignored.
pub fn parse_memsize(text: &str) -> (r: Option<u64>)
    ensures
        r matches Some(v) ==> parse_bounded(trim(text@), u64::MAX as nat) == Some(v as nat),
        r is None ==> parse_bounded(trim(text@), u64::MAX as nat) is None,
{
    let chars = chars_of(text);
    let trimmed = trim_chars(&chars);
    parse_decimal(&trimmed, u64::MAX)
}

/// What the doctor learns about the inference backend. The generation
/// rate, a floating-point value, is derived from `generation_ms` and
/// `output_tokens` by the front end.
#[derive(Debug, Clone, PartialEq, Eq)]
pub struct BackendReport {
    pub upstream: String,
    pub reachable: bool,
    pub model: String,
    pub model_available: bool,
    pub generation_ms: Option<u128>,
    pub output_tokens: Option<u64>,
    pub error: Option<String>,
}

pub open spec fn text_view(s: Option<String>) -> Option<Seq<char>> {
    match s {
        Some(t) => Some(t@),
        None => None,
    }
}

/// `r` reports these facts about `upstream` and `model`.
pub open spec fn reports(
    r: BackendReport,
    upstream: Seq<char>,
    model: Seq<char>,
    reachable: bool,
    model_available: bool,
    generation_ms: Option<u128>,
    output_tokens: Option<u64>,
    error: Option<Seq<char>>,
) -> bool {
    &&& r.upstream@ == upstream
    &&& r.model@ == model
    &&& r.reachable == reachable
    &&& r.model_available == model_available
    &&& r.generation_ms == generation_ms
    &&& r.output_tokens == output_tokens
    &&& text_view(r.error) == error
}

/// The next request of a backend probe, or its finished report.
#[derive(Debug, Clone, PartialEq, Eq)]
pub enum BackendProbe {
    /// Ask the backend which models it has.
    ListModels,
    /// Time one short generation.
    Generate,
    Finished(BackendReport),
}

fn report(
    upstream: &str,
    model: &str,
    reachable: bool,
    model_available: bool,
    generation_ms: Option<u128>,
    output_tokens: Option<u64>,
    error: Option<String>,
) -> (r: BackendReport)
    ensures
        reports(r, upstream@, model@, reachable, model_available, generation_ms, output_tokens, text_view(error)),
{
    BackendReport {
        upstream: upstream.to_string(),
        reachable,
        model: model.to_string(),
        model_available,
        generation_ms,
        output_tokens,
        error,
    }
}

/// After the version request: an unreachable backend ends the probe with
/// the request's error; a reachable one is asked for its models.
pub fn after_version(upstream: &str, model: &str, version: Result<(), String>) -> (r: BackendProbe)
    ensures
        version is Ok ==> r == BackendProbe::ListModels,
        version matches Err(e) ==> (r matches BackendProbe::Finished(rep) && reports(
            rep,
            upstream@,
            model@,
            false,
            false,
            None,
            None,
            Some(e@),
        )),
{
    match version {
        Ok(()) => BackendProbe::ListModels,
        Err(e) => BackendProbe::Finished(report(upstream, model, false, false, None, None, Some(e))),
    }
}

/// Whether entry `i` of a model list is named `model`.
pub open spec fn entry_names(ns: Seq<Option<String>>, i: int, model: Seq<char>) -> bool {
    ns[i] matches Some(n) && n@ == model
}

/// Whether a model list names `model`; `None` when the list could not be
/// read. Entries without a name name nothing.
pub open spec fn lists_model(names: Option<Seq<Option<String>>>, model: Seq<char>) -> bool {
    match names {
        Some(ns) => exists|i: int| 0 <= i < ns.len() && #[trigger] entry_names(ns, i, model),
        None => false,
    }
}

proof fn lemma_listed_entry(ns: Seq<Option<String>>, i: int, model: Seq<char>)
    requires
        0 <= i < ns.len(),
        entry_names(ns, i, model),
    ensures
        lists_model(Some(ns), model),
{
    assert(exists|j: int| 0 <= j < ns.len() && #[trigger] entry_names(ns, j, model));
    let o = Some(ns);
    assert(o matches Some(x) && x == ns);
}

fn listed_in(ns: &Vec<Option<String>>, model: &str) -> (r: bool)
    ensures
        r == lists_model(Some(ns@), model@),
{
    let mut i: usize = 0;
    while i < ns.len()
        invariant
            i <= ns.len(),
            forall|k: int| 0 <= k < i ==> !#[trigger] entry_names(ns@, k, model@),
        decreases ns.len() - i,
    {
        if let Some(n) = &ns[i] {
            if equals_str(&chars_of(n.as_str()), model) {
                proof { lemma_listed_entry(ns@, i as int, model@); }
                return true;
            }
        }
        i = i + 1;
    }
    false
}

pub fn model_listed(names: &Option<Vec<Option<String>>>, model: &str) -> (r: bool)
    ensures
        r == lists_model(
            match names {
                Some(ns) => Some(ns@),
                None => None,
            },
            model@,
        ),
{
    match names {
        None => false,
        Some(ns) => listed_in(ns, model),
    }
}

pub const MODEL_NOT_PRESENT: &'static str = "configured model is not present in the backend";

/// After the model list: a missing model ends the probe with an error;
/// a present one ends it unless a generation is asked for.
pub fn after_model_list(upstream: &str, model: &str, listed: bool, run_generation: bool) -> (r: BackendProbe)
    ensures
        !listed ==> (r matches BackendProbe::Finished(rep) && reports(
            rep,
            upstream@,
            model@,
            true,
            false,
            None,
            None,
            Some(MODEL_NOT_PRESENT@),
        )),
        listed && !run_generation ==> (r matches BackendProbe::Finished(rep) && reports(
            rep,
            upstream@,
            model@,
            true,
            true,
            None,
            None,
            None,
        )),
        listed && run_generation ==> r == BackendProbe::Generate,
{
    if !listed {
        return BackendProbe::Finished(
            report(upstream, model, true, false, None, None, Some(MODEL_NOT_PRESENT.to_string())),
        );
    }
    if !run_generation {
        return BackendProbe::Finished(report(upstream, model, true, true, None, None, None));
    }
    BackendProbe::Generate
}

/// What a timed generation gave: its wall time in milliseconds and the
/// token count the backend reported, or the request's error.
pub fn after_generation(upstream: &str, model: &str, outcome: Result<(u128, Option<u64>), String>) -> (r: BackendReport)
    ensures
        outcome matches Ok(g) ==> reports(r, upstream@, model@, true, true, Some(g.0), g.1, None),
        outcome matches Err(e) ==> reports(r, upstream@, model@, true, true, None, None, Some(e@)),
{
    match outcome {
        Ok((ms, tokens)) => report(upstream, model, true, true, Some(ms), tokens, None),
        Err(e) => report(upstream, model, true, true, None, None, Some(e)),
    }
}

} // verus!
