//! The course of a migration, step by step: the checks before it starts,
//! the two copies, verification, activation and the hand-over to the
//! failover monitor. Each step names the outside work to do next; the
//! caller does it and reports back with an event.

use vstd::prelude::*;
use super::MigrationError;
use super::link::BusInspection;
use super::paths::{MigrationPaths, SyncPass, ai_root_line, is_absolute};
use super::stage::{CutoverRecord, MigrationStage, valid_transition};
use super::trim::{TrimEvidence, TrimStatus, TRIM_EVIDENCE_TTL_NANOS};

verus! {

broadcast use vstd::string::group_string_axioms;

/// The outside work a migration waits for.
#[derive(Debug, Clone, PartialEq, Eq)]
pub enum CutoverPhase {
    /// Are origin and target mounted directories?
    CheckRoots,
    /// Is the target empty?
    ListTarget,
    /// Read the Thunderbolt link.
    InspectLink,
    /// Read the target volume's TRIM evidence and the time.
    InspectTrim,
    /// Store the cutover record as it stands.
    SaveRecord,
    /// Copy the origin into the target.
    Sync(SyncPass),
    /// Compare the manifests of origin and target.
    VerifyRoots,
    /// Read the time of activation, in seconds since the Unix epoch.
    ReadClock,
    /// Write this line to the AI_ROOT pointer file.
    PointAt(Vec<u8>),
    /// Start the failover monitor.
    SpawnMonitor,
    /// The monitor did not start: roll back, then fail with this message.
    RollBack(String),
    /// The migration is active and watched.
    Done,
}

/// What the outside work found.
#[derive(Debug, PartialEq, Eq)]
pub enum CutoverEvent {
    RootsChecked { origin_is_dir: bool, target_is_dir: bool },
    TargetListed { empty: bool },
    LinkInspected(BusInspection),
    TrimInspected { evidence: TrimEvidence, now: u128 },
    Saved,
    Synced,
    RootsVerified,
    Clock(u64),
    Pointed,
    MonitorSpawned(Result<(), String>),
    RolledBack,
}

/// A migration under way: its record and the work it waits for.
#[derive(Debug, Clone, PartialEq, Eq)]
pub struct Cutover {
    pub record: CutoverRecord,
    pub phase: CutoverPhase,
}

/// The event that answers the work of `phase`.
pub open spec fn answers(phase: CutoverPhase, event: CutoverEvent) -> bool {
    match phase {
        CutoverPhase::CheckRoots => event is RootsChecked,
        CutoverPhase::ListTarget => event is TargetListed,
        CutoverPhase::InspectLink => event is LinkInspected,
        CutoverPhase::InspectTrim => event is TrimInspected,
        CutoverPhase::SaveRecord => event is Saved,
        CutoverPhase::Sync(_) => event is Synced,
        CutoverPhase::VerifyRoots => event is RootsVerified,
        CutoverPhase::ReadClock => event is Clock,
        CutoverPhase::PointAt(_) => event is Pointed,
        CutoverPhase::SpawnMonitor => event is MonitorSpawned,
        CutoverPhase::RollBack(_) => event is RolledBack,
        CutoverPhase::Done => false,
    }
}

/// The stage the record has while the migration waits in `phase`.
pub open spec fn phase_stage_ok(phase: CutoverPhase, stage: MigrationStage) -> bool {
    match phase {
        CutoverPhase::CheckRoots | CutoverPhase::ListTarget | CutoverPhase::InspectLink
        | CutoverPhase::InspectTrim => stage == MigrationStage::Prepared,
        CutoverPhase::SaveRecord => stage == MigrationStage::Prepared || stage
            == MigrationStage::InitialSynced || stage == MigrationStage::Verified || stage
            == MigrationStage::Activated,
        CutoverPhase::Sync(SyncPass::Initial) => stage == MigrationStage::Prepared,
        CutoverPhase::Sync(SyncPass::Final) | CutoverPhase::VerifyRoots => stage
            == MigrationStage::InitialSynced,
        CutoverPhase::ReadClock => stage == MigrationStage::Verified,
        CutoverPhase::PointAt(_) | CutoverPhase::SpawnMonitor | CutoverPhase::RollBack(_)
        | CutoverPhase::Done => stage == MigrationStage::Activated,
    }
}

/// TRIM was seen on the target within the hour before `now`.
pub open spec fn trim_ok(evidence: TrimEvidence, now: u128) -> bool {
    &&& evidence.status == TrimStatus::Observed
    &&& evidence.observed_at <= now
    &&& now - evidence.observed_at <= TRIM_EVIDENCE_TTL_NANOS
}

/// `c` is `from` with its record's stage set to `stage` and its phase set
/// to `phase`.
pub open spec fn moved(c: Cutover, from: Cutover, stage: MigrationStage, phase: CutoverPhase) -> bool {
    c == (Cutover { record: CutoverRecord { stage, ..from.record }, phase })
}

/// One step of the migration: advancing `c` with `e` gives `n`.
pub open spec fn step_ok(c: Cutover, e: CutoverEvent, n: Cutover) -> bool {
    match c.phase {
        CutoverPhase::CheckRoots => e == (CutoverEvent::RootsChecked {
            origin_is_dir: true,
            target_is_dir: true,
        }) && n == (Cutover { phase: CutoverPhase::ListTarget, ..c }),
        CutoverPhase::ListTarget => e == (CutoverEvent::TargetListed { empty: true }) && n == (
        Cutover { phase: CutoverPhase::InspectLink, ..c }),
        CutoverPhase::InspectLink => (e matches CutoverEvent::LinkInspected(link) && link.width@
            == 4) && n == (Cutover { phase: CutoverPhase::InspectTrim, ..c }),
        CutoverPhase::InspectTrim => (e matches CutoverEvent::TrimInspected { evidence, now }
            && trim_ok(evidence, now)) && n == (Cutover { phase: CutoverPhase::SaveRecord, ..c }),
        CutoverPhase::SaveRecord => e == CutoverEvent::Saved && match c.record.stage {
            MigrationStage::Prepared => n == (Cutover {
                phase: CutoverPhase::Sync(SyncPass::Initial),
                ..c
            }),
            MigrationStage::InitialSynced => n == (Cutover {
                phase: CutoverPhase::Sync(SyncPass::Final),
                ..c
            }),
            MigrationStage::Verified => n == (Cutover { phase: CutoverPhase::ReadClock, ..c }),
            MigrationStage::Activated => n.record == c.record && n.phase is PointAt,
            _ => false,
        },
        CutoverPhase::Sync(SyncPass::Initial) => e == CutoverEvent::Synced && moved(
            n,
            c,
            MigrationStage::InitialSynced,
            CutoverPhase::SaveRecord,
        ),
        CutoverPhase::Sync(SyncPass::Final) => e == CutoverEvent::Synced && n == (Cutover {
            phase: CutoverPhase::VerifyRoots,
            ..c
        }),
        CutoverPhase::VerifyRoots => e == CutoverEvent::RootsVerified && moved(
            n,
            c,
            MigrationStage::Verified,
            CutoverPhase::SaveRecord,
        ),
        CutoverPhase::ReadClock => e matches CutoverEvent::Clock(now) && n == (Cutover {
            record: CutoverRecord {
                stage: MigrationStage::Activated,
                activated_at: now,
                ..c.record
            },
            phase: CutoverPhase::SaveRecord,
        }),
        CutoverPhase::PointAt(_) => e == CutoverEvent::Pointed && n == (Cutover {
            phase: CutoverPhase::SpawnMonitor,
            ..c
        }),
        CutoverPhase::SpawnMonitor => match e {
            CutoverEvent::MonitorSpawned(Ok(())) => n == (Cutover { phase: CutoverPhase::Done, ..c }),
            CutoverEvent::MonitorSpawned(Err(m)) => n == (Cutover {
                phase: CutoverPhase::RollBack(m),
                ..c
            }),
            _ => false,
        },
        CutoverPhase::RollBack(_) | CutoverPhase::Done => false,
    }
}

/// How far a migration has come: the number of steps from its start.
pub open spec fn progress(c: Cutover) -> int {
    match c.phase {
        CutoverPhase::CheckRoots => 0,
        CutoverPhase::ListTarget => 1,
        CutoverPhase::InspectLink => 2,
        CutoverPhase::InspectTrim => 3,
        CutoverPhase::SaveRecord => match c.record.stage {
            MigrationStage::Prepared => 4,
            MigrationStage::InitialSynced => 6,
            MigrationStage::Verified => 9,
            _ => 11,
        },
        CutoverPhase::Sync(SyncPass::Initial) => 5,
        CutoverPhase::Sync(SyncPass::Final) => 7,
        CutoverPhase::VerifyRoots => 8,
        CutoverPhase::ReadClock => 10,
        CutoverPhase::PointAt(_) => 12,
        CutoverPhase::SpawnMonitor => 13,
        CutoverPhase::RollBack(_) | CutoverPhase::Done => 14,
    }
}

/// A run of a migration: cutover `i + 1` is what advancing cutover `i`
/// with event `i` gave.
pub open spec fn cutover_run(cs: Seq<Cutover>, es: Seq<CutoverEvent>) -> bool {
    &&& cs.len() == es.len() + 1
    &&& forall|i: int| 0 <= i < es.len() ==> #[trigger] step_ok(cs[i], es[i], cs[i + 1])
}

proof fn lemma_step_progress(c: Cutover, e: CutoverEvent, n: Cutover)
    requires
        c.well_formed(),
        step_ok(c, e, n),
    ensures
        n.well_formed(),
        progress(n) == progress(c) + 1,
{
}

/// Along a run from the start, the cutover after `i` steps has made
/// exactly `i` steps of progress.
pub proof fn lemma_run_progress(cs: Seq<Cutover>, es: Seq<CutoverEvent>)
    requires
        cutover_run(cs, es),
        cs[0].phase == CutoverPhase::CheckRoots,
        cs[0].record.stage == MigrationStage::Prepared,
    ensures
        forall|i: int| 0 <= i < cs.len() ==> (#[trigger] cs[i]).well_formed() && progress(cs[i]) == i,
    decreases es.len(),
{
    if es.len() > 0 {
        let n = es.len() - 1;
        let cs2 = cs.drop_last();
        let es2 = es.drop_last();
        assert forall|i: int| 0 <= i < es2.len() implies #[trigger] step_ok(cs2[i], es2[i], cs2[i + 1]) by {
            assert(step_ok(cs[i], es[i], cs[i + 1]));
        }
        lemma_run_progress(cs2, es2);
        assert forall|i: int| 0 <= i < cs.len() implies (#[trigger] cs[i]).well_formed() && progress(cs[i]) == i by {
            if i < cs.len() - 1 {
                assert(cs[i] == cs2[i]);
            } else {
                assert(cs2[n] == cs[n]);
                assert(step_ok(cs[n], es[n], cs[n + 1]));
                lemma_step_progress(cs[n], es[n], cs[n + 1]);
            }
        }
    }
}

/// AI_ROOT is switched to the target only as the thirteenth step of a
/// migration, after exactly these: both roots mounted, the target empty,
/// an x4 link, fresh TRIM evidence, the prepared record stored, the first
/// copy, its record stored, the final copy, the manifests verified, that
/// record stored, the activation time read and the activated record
/// stored.
pub proof fn lemma_pointer_switch_follows_checks(cs: Seq<Cutover>, es: Seq<CutoverEvent>, k: int)
    requires
        cutover_run(cs, es),
        cs[0].phase == CutoverPhase::CheckRoots,
        cs[0].record.stage == MigrationStage::Prepared,
        0 <= k < cs.len(),
        cs[k].phase is PointAt,
    ensures
        k == 12,
        es[0] == (CutoverEvent::RootsChecked { origin_is_dir: true, target_is_dir: true }),
        es[1] == (CutoverEvent::TargetListed { empty: true }),
        es[2] matches CutoverEvent::LinkInspected(link) && link.width@ == 4,
        es[3] matches CutoverEvent::TrimInspected { evidence, now } && trim_ok(evidence, now),
        es[4] == CutoverEvent::Saved && cs[4].record.stage == MigrationStage::Prepared,
        es[5] == CutoverEvent::Synced && cs[5].phase == CutoverPhase::Sync(SyncPass::Initial),
        es[6] == CutoverEvent::Saved && cs[6].record.stage == MigrationStage::InitialSynced,
        es[7] == CutoverEvent::Synced && cs[7].phase == CutoverPhase::Sync(SyncPass::Final),
        es[8] == CutoverEvent::RootsVerified,
        es[9] == CutoverEvent::Saved && cs[9].record.stage == MigrationStage::Verified,
        es[10] is Clock,
        es[11] == CutoverEvent::Saved && cs[11].record.stage == MigrationStage::Activated,
{
    lemma_run_progress(cs, es);
    assert(progress(cs[k]) == k);
    assert forall|i: int| 0 <= i < 12 implies step_ok(#[trigger] cs[i], es[i], cs[i + 1]) by {}
    assert(progress(cs[0]) == 0 && progress(cs[1]) == 1 && progress(cs[2]) == 2);
    assert(progress(cs[3]) == 3 && progress(cs[4]) == 4 && progress(cs[5]) == 5);
    assert(progress(cs[6]) == 6 && progress(cs[7]) == 7 && progress(cs[8]) == 8);
    assert(progress(cs[9]) == 9 && progress(cs[10]) == 10 && progress(cs[11]) == 11);
    assert(cs[4].well_formed() && cs[6].well_formed() && cs[9].well_formed() && cs[11].well_formed());
}

impl Cutover {
    pub open spec fn well_formed(self) -> bool {
        phase_stage_ok(self.phase, self.record.stage)
    }

    /// A migration of `paths` starts with a prepared record, activated at
    /// time zero, and first checks its roots.
    pub fn start(paths: MigrationPaths) -> (r: Self)
        ensures
            r.record == (CutoverRecord { paths, stage: MigrationStage::Prepared, activated_at: 0 }),
            r.phase == CutoverPhase::CheckRoots,
            r.well_formed(),
    {
        Cutover {
            record: CutoverRecord { paths, stage: MigrationStage::Prepared, activated_at: 0 },
            phase: CutoverPhase::CheckRoots,
        }
    }

    /// Takes the answer to the current work and returns the migration
    /// waiting for its next work, or the error that ends it.
    pub fn advance(self, event: CutoverEvent) -> (r: Result<Self, MigrationError>)
        requires
            self.well_formed(),
            answers(self.phase, event),
        ensures
            r matches Ok(c) ==> c.well_formed(),
            r matches Ok(c) ==> step_ok(self, event, c),
            // The record keeps its roots and moves only along the stage machine.
            r matches Ok(c) ==> c.record.paths == self.record.paths,
            r matches Ok(c) ==> (c.record.stage == self.record.stage || valid_transition(
                self.record.stage,
                c.record.stage,
            )),
            // AI_ROOT is pointed at the target only once the activated record
            // has been stored.
            r matches Ok(c) && c.phase is PointAt ==> (self.phase == CutoverPhase::SaveRecord
                && self.record.stage == MigrationStage::Activated),
            // The checks before the migration, in order.
            event matches CutoverEvent::RootsChecked { origin_is_dir, target_is_dir } ==> {
                if origin_is_dir && target_is_dir {
                    r == Ok::<Self, MigrationError>(
                        (Cutover { phase: CutoverPhase::ListTarget, ..self }),
                    )
                } else {
                    r == Err::<Self, MigrationError>(
                        MigrationError::InvalidInput("mounted migration roots"),
                    )
                }
            },
            event matches CutoverEvent::TargetListed { empty } ==> {
                if empty {
                    r == Ok::<Self, MigrationError>(
                        (Cutover { phase: CutoverPhase::InspectLink, ..self }),
                    )
                } else {
                    r == Err::<Self, MigrationError>(
                        MigrationError::InvalidInput("target must be empty"),
                    )
                }
            },
            event matches CutoverEvent::LinkInspected(link) ==> {
                if link.width@ == 4 {
                    r == Ok::<Self, MigrationError>(
                        (Cutover { phase: CutoverPhase::InspectTrim, ..self }),
                    )
                } else {
                    r == Err::<Self, MigrationError>(
                        MigrationError::InvalidInput("x4 Thunderbolt link"),
                    )
                }
            },
            event matches CutoverEvent::TrimInspected { evidence, now } ==> {
                if trim_ok(evidence, now) {
                    r == Ok::<Self, MigrationError>(
                        (Cutover { phase: CutoverPhase::SaveRecord, ..self }),
                    )
                } else {
                    r == Err::<Self, MigrationError>(
                        MigrationError::InvalidInput("fresh APFS TRIM evidence"),
                    )
                }
            },
            // Once a record is stored, the stage it was stored with decides
            // what follows.
            event is Saved && self.record.stage == MigrationStage::Prepared ==> r == Ok::<
                Self,
                MigrationError,
            >((Cutover { phase: CutoverPhase::Sync(SyncPass::Initial), ..self })),
            event is Saved && self.record.stage == MigrationStage::InitialSynced ==> r == Ok::<
                Self,
                MigrationError,
            >((Cutover { phase: CutoverPhase::Sync(SyncPass::Final), ..self })),
            event is Saved && self.record.stage == MigrationStage::Verified ==> r == Ok::<
                Self,
                MigrationError,
            >((Cutover { phase: CutoverPhase::ReadClock, ..self })),
            event is Saved && self.record.stage == MigrationStage::Activated ==> {
                let target = self.record.paths.target@;
                if is_absolute(target) && !target.contains('\n') {
                    &&& r matches Ok(c)
                    &&& c.record == self.record
                    &&& c.phase matches CutoverPhase::PointAt(line)
                    &&& line@ == vstd::utf8::encode_utf8(target) + seq![10u8]
                } else {
                    r == Err::<Self, MigrationError>(MigrationError::InvalidInput("AI_ROOT path"))
                }
            },
            // The copies, the verification and the activation.
            event is Synced && self.phase == CutoverPhase::Sync(SyncPass::Initial) ==> (r matches Ok(
                c,
            ) && moved(c, self, MigrationStage::InitialSynced, CutoverPhase::SaveRecord)),
            event is Synced && self.phase == CutoverPhase::Sync(SyncPass::Final) ==> r == Ok::<
                Self,
                MigrationError,
            >((Cutover { phase: CutoverPhase::VerifyRoots, ..self })),
            event is RootsVerified ==> (r matches Ok(c) && moved(
                c,
                self,
                MigrationStage::Verified,
                CutoverPhase::SaveRecord,
            )),
            event matches CutoverEvent::Clock(now) ==> (r matches Ok(c) && c == (Cutover {
                record: CutoverRecord {
                    stage: MigrationStage::Activated,
                    activated_at: now,
                    ..self.record
                },
                phase: CutoverPhase::SaveRecord,
            })),
            // The hand-over to the monitor, undone when the monitor fails.
            event is Pointed ==> r == Ok::<Self, MigrationError>(
                (Cutover { phase: CutoverPhase::SpawnMonitor, ..self }),
            ),
            event matches CutoverEvent::MonitorSpawned(spawned) ==> (match spawned {
                Ok(()) => r == Ok::<Self, MigrationError>(
                    (Cutover { phase: CutoverPhase::Done, ..self }),
                ),
                Err(e) => r == Ok::<Self, MigrationError>(
                    (Cutover { phase: CutoverPhase::RollBack(e), ..self }),
                ),
            }),
            event is RolledBack ==> (self.phase matches CutoverPhase::RollBack(e) && r == Err::<
                Self,
                MigrationError,
            >(MigrationError::Io(e))),
    {
        let Cutover { record, phase } = self;
        match event {
            CutoverEvent::RootsChecked { origin_is_dir, target_is_dir } => {
                if !origin_is_dir || !target_is_dir {
                    return Err(MigrationError::InvalidInput("mounted migration roots"));
                }
                Ok(Cutover { record, phase: CutoverPhase::ListTarget })
            },
            CutoverEvent::TargetListed { empty } => {
                if !empty {
                    return Err(MigrationError::InvalidInput("target must be empty"));
                }
                Ok(Cutover { record, phase: CutoverPhase::InspectLink })
            },
            CutoverEvent::LinkInspected(link) => {
                if !link.qualifies() {
                    return Err(MigrationError::InvalidInput("x4 Thunderbolt link"));
                }
                Ok(Cutover { record, phase: CutoverPhase::InspectTrim })
            },
            CutoverEvent::TrimInspected { evidence, now } => {
                if evidence.status != TrimStatus::Observed || !evidence.is_fresh(now) {
                    return Err(MigrationError::InvalidInput("fresh APFS TRIM evidence"));
                }
                Ok(Cutover { record, phase: CutoverPhase::SaveRecord })
            },
            CutoverEvent::Saved => {
                match record.stage {
                    MigrationStage::Prepared => Ok(
                        Cutover { record, phase: CutoverPhase::Sync(SyncPass::Initial) },
                    ),
                    MigrationStage::InitialSynced => Ok(
                        Cutover { record, phase: CutoverPhase::Sync(SyncPass::Final) },
                    ),
                    MigrationStage::Verified => Ok(Cutover { record, phase: CutoverPhase::ReadClock }),
                    _ => {
                        let line = ai_root_line(record.paths.target.as_str())?;
                        Ok(Cutover { record, phase: CutoverPhase::PointAt(line) })
                    },
                }
            },
            CutoverEvent::Synced => {
                match phase {
                    CutoverPhase::Sync(SyncPass::Initial) => {
                        let mut record = record;
                        let t = record.stage.transition(MigrationStage::InitialSynced);
                        assert(t is Ok);
                        Ok(Cutover { record, phase: CutoverPhase::SaveRecord })
                    },
                    _ => Ok(Cutover { record, phase: CutoverPhase::VerifyRoots }),
                }
            },
            CutoverEvent::RootsVerified => {
                let mut record = record;
                let t = record.stage.transition(MigrationStage::Verified);
                assert(t is Ok);
                Ok(Cutover { record, phase: CutoverPhase::SaveRecord })
            },
            CutoverEvent::Clock(now) => {
                let mut record = record;
                record.activated_at = now;
                let t = record.stage.transition(MigrationStage::Activated);
                assert(t is Ok);
                Ok(Cutover { record, phase: CutoverPhase::SaveRecord })
            },
            CutoverEvent::Pointed => Ok(Cutover { record, phase: CutoverPhase::SpawnMonitor }),
            CutoverEvent::MonitorSpawned(spawned) => {
                match spawned {
                    Ok(()) => Ok(Cutover { record, phase: CutoverPhase::Done }),
                    Err(e) => Ok(Cutover { record, phase: CutoverPhase::RollBack(e) }),
                }
            },
            CutoverEvent::RolledBack => {
                match phase {
                    CutoverPhase::RollBack(e) => Err(MigrationError::Io(e)),
                    _ => Err(MigrationError::InvalidInput("cutover phase")),
                }
            },
        }
    }
}

} // verus!
