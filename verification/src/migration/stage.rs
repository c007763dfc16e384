//! The cutover record of a migration: its stage machine, the rollback
//! window, and the decisions of rollback and monitoring.

use vstd::prelude::*;
use crate::text::{chars_of, contains_seq, contains_str, lines, lower_seq, split_lines, to_ascii_lower, views};
use super::MigrationError;
use super::link::{BusInspection, parse_bus};
use super::paths::{MigrationPaths, ai_root_line, is_absolute};

verus! {

broadcast use vstd::string::group_string_axioms;

/// Stages of a migration, in the order they are reached.
#[derive(Debug, Clone, Copy, PartialEq, Eq, Structural)]
pub enum MigrationStage {
    Prepared,
    InitialSynced,
    Verified,
    Activated,
    RolledBack,
    Completed,
}

/// The stage machine: each stage has one successor, except that an
/// activated migration is either rolled back or completed.
pub open spec fn valid_transition(from: MigrationStage, to: MigrationStage) -> bool {
    match (from, to) {
        (MigrationStage::Prepared, MigrationStage::InitialSynced) => true,
        (MigrationStage::InitialSynced, MigrationStage::Verified) => true,
        (MigrationStage::Verified, MigrationStage::Activated) => true,
        (MigrationStage::Activated, MigrationStage::RolledBack) => true,
        (MigrationStage::Activated, MigrationStage::Completed) => true,
        _ => false,
    }
}

/// Position of a stage in the migration; both ends share the last one.
pub open spec fn stage_rank(s: MigrationStage) -> nat {
    match s {
        MigrationStage::Prepared => 0,
        MigrationStage::InitialSynced => 1,
        MigrationStage::Verified => 2,
        MigrationStage::Activated => 3,
        MigrationStage::RolledBack => 4,
        MigrationStage::Completed => 4,
    }
}

pub open spec fn is_terminal(s: MigrationStage) -> bool {
    s == MigrationStage::RolledBack || s == MigrationStage::Completed
}

impl MigrationStage {
    /// Moves to `next` when the stage machine allows it; otherwise the stage
    /// stays as it was.
    pub fn transition(&mut self, next: Self) -> (r: Result<(), MigrationError>)
        ensures
            valid_transition(*old(self), next) ==> (r == Ok::<(), MigrationError>(())
                && *final(self) == next),
            !valid_transition(*old(self), next) ==> (r == Err::<(), MigrationError>(
                MigrationError::InvalidInput("migration stage"),
            ) && *final(self) == *old(self)),
    {
        let valid = match (*self, next) {
            (Self::Prepared, Self::InitialSynced) => true,
            (Self::InitialSynced, Self::Verified) => true,
            (Self::Verified, Self::Activated) => true,
            (Self::Activated, Self::RolledBack) => true,
            (Self::Activated, Self::Completed) => true,
            _ => false,
        };
        if !valid {
            return Err(MigrationError::InvalidInput("migration stage"));
        }
        *self = next;
        Ok(())
    }
}

/// Every allowed transition moves strictly forward.
pub proof fn lemma_transition_advances(from: MigrationStage, to: MigrationStage)
    requires
        valid_transition(from, to),
    ensures
        stage_rank(from) < stage_rank(to),
{
}

/// A rolled-back or completed migration admits no further transition.
pub proof fn lemma_terminal_is_final(from: MigrationStage, to: MigrationStage)
    requires
        is_terminal(from),
    ensures
        !valid_transition(from, to),
{
}

/// A run of allowed transitions.
pub open spec fn valid_run(run: Seq<MigrationStage>) -> bool {
    forall|i: int| 1 <= i < run.len() ==> valid_transition(run[i - 1], #[trigger] run[i])
}

/// A run that starts prepared and ends activated went through the
/// initial copy and the verification, in that order.
pub proof fn lemma_activation_requires_verification(run: Seq<MigrationStage>)
    requires
        run.len() > 0,
        run[0] == MigrationStage::Prepared,
        run.last() == MigrationStage::Activated,
        valid_run(run),
    ensures
        exists|i: int, j: int|
            0 <= i < j < run.len() && run[i] == MigrationStage::InitialSynced && run[j]
                == MigrationStage::Verified,
{
    lemma_run_ranks(run);
    let n = run.len() - 1;
    assert(stage_rank(run[n]) == n);
    assert(stage_rank(run[1]) == 1);
    assert(stage_rank(run[2]) == 2);
}

/// Along a run from `Prepared`, the stage at each index has that rank.
pub proof fn lemma_run_ranks(run: Seq<MigrationStage>)
    requires
        run.len() > 0,
        run[0] == MigrationStage::Prepared,
        valid_run(run),
    ensures
        forall|i: int| 0 <= i < run.len() ==> stage_rank(#[trigger] run[i]) == i,
    decreases run.len(),
{
    if run.len() > 1 {
        let prefix = run.drop_last();
        assert forall|i: int| 1 <= i < prefix.len() implies valid_transition(
            prefix[i - 1],
            #[trigger] prefix[i],
        ) by {
            assert(valid_transition(run[i - 1], run[i]));
        }
        lemma_run_ranks(prefix);
        assert forall|i: int| 0 <= i < run.len() implies stage_rank(#[trigger] run[i]) == i by {
            if i < run.len() - 1 {
                assert(run[i] == prefix[i]);
            } else {
                assert(prefix[i - 1] == run[i - 1]);
                assert(valid_transition(run[i - 1], run[i]));
            }
        }
    }
}

/// Rollback stays possible for 72 hours after activation.
pub const ROLLBACK_WINDOW_SECONDS: u64 = 259_200;

/// The durable record of a cutover, kept beside the AI_ROOT pointer.
#[derive(Debug, Clone, PartialEq, Eq)]
pub struct CutoverRecord {
    pub paths: MigrationPaths,
    pub stage: MigrationStage,
    pub activated_at: u64,
}

/// The end of the rollback window, in seconds since the Unix epoch.
pub open spec fn deadline_of(activated_at: u64) -> Option<u64> {
    if activated_at + ROLLBACK_WINDOW_SECONDS <= u64::MAX {
        Some((activated_at + ROLLBACK_WINDOW_SECONDS) as u64)
    } else {
        None
    }
}

pub open spec fn window_open(record: CutoverRecord, now: u64) -> bool {
    &&& record.stage == MigrationStage::Activated
    &&& deadline_of(record.activated_at) matches Some(deadline)
    &&& record.activated_at <= now <= deadline
}

impl CutoverRecord {
    pub fn rollback_deadline(&self) -> (r: Result<u64, MigrationError>)
        ensures
            deadline_of(self.activated_at) matches Some(d) ==> r == Ok::<u64, MigrationError>(d),
            deadline_of(self.activated_at) is None ==> r == Err::<u64, MigrationError>(
                MigrationError::InvalidInput("rollback deadline"),
            ),
    {
        match self.activated_at.checked_add(ROLLBACK_WINDOW_SECONDS) {
            Some(d) => Ok(d),
            None => Err(MigrationError::InvalidInput("rollback deadline")),
        }
    }

    /// An activated migration can be rolled back from activation up to the deadline.
    pub fn rollback_active(&self, now: u64) -> (r: bool)
        ensures
            r == window_open(*self, now),
    {
        if self.stage != MigrationStage::Activated {
            return false;
        }
        match self.rollback_deadline() {
            Ok(deadline) => now <= deadline && now >= self.activated_at,
            Err(_) => false,
        }
    }
}

/// What a rollback writes: the new AI_ROOT pointer line and the record.
#[derive(Debug, Clone, PartialEq, Eq)]
pub struct RollbackPlan {
    pub pointer_line: Vec<u8>,
    pub record: CutoverRecord,
}

/// Decides a rollback of an activated migration whose origin is still
/// mounted: AI_ROOT points back at the origin and the record becomes
/// `RolledBack`.
pub fn plan_rollback(record: CutoverRecord, origin_is_dir: bool) -> (r: Result<RollbackPlan, MigrationError>)
    ensures
        record.stage != MigrationStage::Activated ==> r == Err::<RollbackPlan, MigrationError>(
            MigrationError::InvalidInput("rollback stage"),
        ),
        record.stage == MigrationStage::Activated && !origin_is_dir ==> r == Err::<
            RollbackPlan,
            MigrationError,
        >(MigrationError::InvalidInput("origin unavailable")),
        record.stage == MigrationStage::Activated && origin_is_dir && !(is_absolute(
            record.paths.origin@,
        ) && !record.paths.origin@.contains('\n')) ==> r == Err::<RollbackPlan, MigrationError>(
            MigrationError::InvalidInput("AI_ROOT path"),
        ),
        r matches Ok(plan) ==> {
            &&& plan.pointer_line@ == vstd::utf8::encode_utf8(record.paths.origin@) + seq![10u8]
            &&& plan.record == (CutoverRecord { stage: MigrationStage::RolledBack, ..record })
        },
        record.stage == MigrationStage::Activated && origin_is_dir && is_absolute(
            record.paths.origin@,
        ) && !record.paths.origin@.contains('\n') ==> r is Ok,
{
    if record.stage != MigrationStage::Activated {
        return Err(MigrationError::InvalidInput("rollback stage"));
    }
    if !origin_is_dir {
        return Err(MigrationError::InvalidInput("origin unavailable"));
    }
    let line = ai_root_line(record.paths.origin.as_str())?;
    let mut record = record;
    let r = record.stage.transition(MigrationStage::RolledBack);
    assert(r is Ok);
    Ok(RollbackPlan { pointer_line: line, record })
}

/// Why the migrated volume is abandoned.
#[derive(Debug, Clone, Copy, PartialEq, Eq, Structural)]
pub enum FailoverCause {
    LinkDropped,
    KernelPanic,
    TargetUnavailable,
}

pub open spec fn reports_kernel_panic(panic_log: Seq<char>) -> bool {
    exists|i: int|
        0 <= i < lines(panic_log).len() && contains_seq(lower_seq(lines(panic_log)[i]), "kernel"@)
            && contains_seq(lower_seq(lines(panic_log)[i]), "panic"@)
}

pub open spec fn link_lost(report: Seq<char>) -> bool {
    match parse_bus(report) {
        Ok(link) => !(link.width@ == 4),
        Err(_) => true,
    }
}

/// The first failure that forces a rollback, checked in this order: the
/// target is gone, the x4 link is gone, the kernel panicked.
pub open spec fn failover_cause(report: Seq<char>, panic_log: Seq<char>, target_available: bool) -> Option<FailoverCause> {
    if !target_available {
        Some(FailoverCause::TargetUnavailable)
    } else if link_lost(report) {
        Some(FailoverCause::LinkDropped)
    } else if reports_kernel_panic(panic_log) {
        Some(FailoverCause::KernelPanic)
    } else {
        None
    }
}

/// Once the target is there and the link still runs at x4, the kernel log
/// decides: a line that holds, case aside, the word "kernel" and, anywhere
/// in it, the word "panic" forces a rollback for a kernel panic; a log
/// without such a line forces none.
pub proof fn lemma_kernel_panic_by_words(report: Seq<char>, panic_log: Seq<char>)
    requires
        parse_bus(report) matches Ok(link) && link.width@ == 4,
    ensures
        (exists|i: int|
            0 <= i < lines(panic_log).len() && contains_seq(
                lower_seq(lines(panic_log)[i]),
                "kernel"@,
            ) && contains_seq(lower_seq(lines(panic_log)[i]), "panic"@)) ==> failover_cause(
            report,
            panic_log,
            true,
        ) == Some(FailoverCause::KernelPanic),
        (forall|i: int|
            0 <= i < lines(panic_log).len() && contains_seq(
                lower_seq(lines(panic_log)[i]),
                "kernel"@,
            ) ==> !contains_seq(lower_seq(lines(panic_log)[i]), "panic"@)) ==> failover_cause(
            report,
            panic_log,
            true,
        ) is None,
{
}

fn has_kernel_panic(panic_log: &str) -> (r: bool)
    ensures
        r == reports_kernel_panic(panic_log@),
{
    let chars = chars_of(panic_log);
    let ls = split_lines(&chars);
    let ghost all = views(ls@);
    for i in 0..ls.len()
        invariant
            all == views(ls@),
            all == lines(panic_log@),
            forall|k: int|
                0 <= k < i ==> !(contains_seq(lower_seq(all[k]), "kernel"@) && contains_seq(
                    lower_seq(all[k]),
                    "panic"@,
                )),
    {
        assert(all[i as int] == ls@[i as int]@);
        let lower = to_ascii_lower(&ls[i]);
        if contains_str(&lower, "kernel") && contains_str(&lower, "panic") {
            return true;
        }
    }
    false
}

pub fn assess_failover(report: &str, panic_log: &str, target_available: bool) -> (r: Option<FailoverCause>)
    ensures
        r == failover_cause(report@, panic_log@, target_available),
{
    if !target_available {
        return Some(FailoverCause::TargetUnavailable);
    }
    let lost = match BusInspection::parse(report) {
        Ok(link) => !link.qualifies(),
        Err(_) => true,
    };
    if lost {
        return Some(FailoverCause::LinkDropped);
    }
    if has_kernel_panic(panic_log) {
        return Some(FailoverCause::KernelPanic);
    }
    None
}

/// What one pass of the failover monitor does with the record it loaded.
#[derive(Debug, Clone, PartialEq, Eq)]
pub enum MonitorDecision {
    /// The migration is not active: nothing to watch.
    Idle,
    /// The rollback window has closed: store this completed record.
    Complete(CutoverRecord),
    /// Inside the window: probe the link, the kernel log and the target.
    Probe,
}

pub fn monitor_decision(record: &CutoverRecord, now: u64) -> (r: MonitorDecision)
    ensures
        record.stage != MigrationStage::Activated ==> r == MonitorDecision::Idle,
        record.stage == MigrationStage::Activated && !window_open(*record, now) ==> r
            == MonitorDecision::Complete(
            CutoverRecord { stage: MigrationStage::Completed, ..*record },
        ),
        window_open(*record, now) ==> r == MonitorDecision::Probe,
{
    if record.stage != MigrationStage::Activated {
        return MonitorDecision::Idle;
    }
    if !record.rollback_active(now) {
        let mut completed = CutoverRecord {
            paths: MigrationPaths {
                origin: record.paths.origin.clone(),
                target: record.paths.target.clone(),
            },
            stage: record.stage,
            activated_at: record.activated_at,
        };
        let t = completed.stage.transition(MigrationStage::Completed);
        assert(t is Ok);
        return MonitorDecision::Complete(completed);
    }
    MonitorDecision::Probe
}

/// Arguments of `log show` that read the last five minutes of kernel
/// messages about a panic.
pub fn panic_log_arguments() -> (r: [&'static str; 7])
    ensures
        r@ == seq![
            "show",
            "--last",
            "5m",
            "--style",
            "compact",
            "--predicate",
            "process == \"kernel\" AND eventMessage CONTAINS[c] \"panic\"",
        ],
{
    [
        "show",
        "--last",
        "5m",
        "--style",
        "compact",
        "--predicate",
        "process == \"kernel\" AND eventMessage CONTAINS[c] \"panic\"",
    ]
}

} // verus!
