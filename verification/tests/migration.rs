use sanctum::api::{stream_line_events, stream_step, ReplyFormat, StreamEvent};
use sanctum::migration::cutover::{Cutover, CutoverEvent, CutoverPhase};
use sanctum::migration::link::{BusInspection, LinkSpeed, LinkWidth, PortStatus};
use sanctum::migration::manifest::{
    compare_manifests, digest_bytes, verify_manifests, ManifestDifference, ManifestEntry,
    MigrationManifest, Sha256Digest, StreamDigest,
};
use sanctum::migration::paths::{
    ai_root_line, confirm_quiescence, supports_required_rsync_flags, MigrationPaths,
    RsyncInvocation, SyncPass,
};
use sanctum::migration::stage::{
    assess_failover, monitor_decision, plan_rollback, CutoverRecord, FailoverCause,
    MigrationStage, MonitorDecision, ROLLBACK_WINDOW_SECONDS,
};
use sanctum::migration::trim::{
    parse_trim_log, parse_trim_log_for_volume, trim_log_arguments, TargetVolumeIdentity,
    TrimEvidence, TrimStatus,
};
use sanctum::migration::MigrationError;

const X4_REPORT: &str = "Thunderbolt/USB4:\n\n    Thunderbolt/USB4 Bus 0:\n\n      Port:\n        Status: Device connected\n        Link Width: x4\n        Link Speed: 16.0 GT/s\n";

const X2_REPORT: &str = "Thunderbolt/USB4:\n      Port:\n        Status: Device connected\n        Link Width: x2\n        Link Speed: 8.0 GT/s\n";

fn paths() -> MigrationPaths {
    MigrationPaths::new("/Users/ai".to_owned(), "/Volumes/Sanctum".to_owned()).unwrap()
}

fn activated(at: u64) -> CutoverRecord {
    CutoverRecord { paths: paths(), stage: MigrationStage::Activated, activated_at: at }
}

#[test]
fn parses_link_width_and_speed() {
    assert_eq!(LinkWidth::parse(" x4 ").unwrap().lanes(), 4);
    assert_eq!(LinkWidth::parse("16").unwrap().lanes(), 16);
    assert_eq!(LinkWidth::parse("x0"), Err(MigrationError::InvalidInput("link width")));
    assert_eq!(LinkWidth::parse("x17"), Err(MigrationError::InvalidInput("link width")));
    assert_eq!(LinkWidth::parse("wide"), Err(MigrationError::InvalidInput("link width")));
    assert_eq!(LinkWidth::new(0), Err(MigrationError::InvalidInput("link width")));
    assert_eq!(LinkSpeed::parse(" 16.0 GT/s ").unwrap(), LinkSpeed::Gt16);
    assert_eq!(LinkSpeed::parse("8.0 GT/s").unwrap().gt_per_second(), 8);
    assert_eq!(LinkSpeed::parse("5.0 GT/s"), Err(MigrationError::InvalidInput("link speed")));
}

#[test]
fn reads_port_status() {
    assert_eq!(PortStatus::parse("Device connected"), PortStatus::Connected);
    assert_eq!(PortStatus::parse("No device connected"), PortStatus::Disconnected);
    assert_eq!(PortStatus::parse("idle"), PortStatus::Disconnected);
}

#[test]
fn finds_connected_x4_link() {
    let link = BusInspection::parse(X4_REPORT).unwrap();
    assert_eq!(link.width.lanes(), 4);
    assert_eq!(link.speed, LinkSpeed::Gt16);
    assert!(link.qualifies());
    let narrow = BusInspection::parse(X2_REPORT).unwrap();
    assert!(!narrow.qualifies());
    assert_eq!(
        BusInspection::parse("Thunderbolt/USB4:\n      Port:\n        Status: No device connected\n"),
        Err(MigrationError::InvalidInput("connected Thunderbolt link with PCIe width and speed"))
    );
    assert!(BusInspection::parse("").is_err());
}

#[test]
fn skips_incomplete_port_blocks() {
    let report = "      Port:\n        Status: Device connected\n        Link Width: x4\n      Port:\n        Status: Device connected\n        Link Width: x2\n        Link Speed: 8.0 GT/s\n";
    let link = BusInspection::parse(report).unwrap();
    assert_eq!(link.width.lanes(), 2);
}

#[test]
fn classifies_trim_logs() {
    assert_eq!(parse_trim_log("kernel: spaceman: TRIM completed 4096 blocks"), TrimStatus::Observed);
    assert_eq!(
        parse_trim_log("spaceman: trim issued\nspaceman: TRIM unsupported by device"),
        TrimStatus::Unsupported
    );
    assert_eq!(parse_trim_log("spaceman: mounted\ntrim completed"), TrimStatus::Absent);
    assert_eq!(parse_trim_log(""), TrimStatus::Absent);
    assert_eq!(
        trim_log_arguments(),
        ["show", "--last", "1h", "--style", "compact", "--predicate"]
    );
}

#[test]
fn filters_trim_log_by_volume() {
    let identity = TargetVolumeIdentity {
        volume_uuid: "0A1B2C3D-0000-1111-2222-333344445555".to_owned(),
        device_identifier: "disk5s1".to_owned(),
    };
    let log = "spaceman: disk4s1 trim completed\nspaceman: disk5s1 trim disabled";
    assert_eq!(parse_trim_log_for_volume(log, &identity), TrimStatus::Unsupported);
    let log = "spaceman: disk4s1 trim disabled\nspaceman: 0a1b2c3d-0000-1111-2222-333344445555 trim completed";
    assert_eq!(parse_trim_log_for_volume(log, &identity), TrimStatus::Observed);
    let log = "spaceman: disk5s10 trim completed";
    assert_eq!(parse_trim_log_for_volume(log, &identity), TrimStatus::Absent);
}

#[test]
fn trim_evidence_stays_fresh_for_an_hour() {
    let evidence = TrimEvidence { status: TrimStatus::Observed, observed_at: 1_000 };
    assert!(evidence.is_fresh(1_000));
    assert!(evidence.is_fresh(1_000 + 3_600_000_000_000));
    assert!(!evidence.is_fresh(1_001 + 3_600_000_000_000));
    assert!(!evidence.is_fresh(999));
}

#[test]
fn validates_migration_roots() {
    assert!(MigrationPaths::new("/Users/ai".to_owned(), "/Volumes/Sanctum".to_owned()).is_ok());
    let refused = Err(MigrationError::InvalidInput("migration roots"));
    assert_eq!(MigrationPaths::new("/".to_owned(), "/Volumes/Sanctum".to_owned()), refused);
    assert_eq!(MigrationPaths::new("Users/ai".to_owned(), "/Volumes/Sanctum".to_owned()), refused);
    assert_eq!(MigrationPaths::new("/Users/ai".to_owned(), "/Users/ai".to_owned()), refused);
    assert_eq!(MigrationPaths::new("/Users/ai".to_owned(), "/Users/ai/copy".to_owned()), refused);
    assert_eq!(MigrationPaths::new("/Volumes/a/b".to_owned(), "/Volumes/a".to_owned()), refused);
    assert_eq!(MigrationPaths::new("/Users/ai/../x".to_owned(), "/Volumes/b".to_owned()), refused);
    assert!(MigrationPaths::new("/Users/ai".to_owned(), "/Users/ai2".to_owned()).is_ok());
}

#[test]
fn builds_rsync_invocation() {
    let run = RsyncInvocation::new("/usr/bin/rsync".to_owned(), &paths(), SyncPass::Final);
    assert_eq!(run.executable, "/usr/bin/rsync");
    assert_eq!(run.pass, SyncPass::Final);
    assert_eq!(run.arguments, vec!["-avXHE", "--", "/Users/ai/", "/Volumes/Sanctum"]);
}

#[test]
fn detects_rsync_flag_support() {
    assert!(supports_required_rsync_flags("rsync  version 3.2.7\nUsage: rsync [-avXHE] src dest\n"));
    assert!(supports_required_rsync_flags(
        " -X, --xattrs   preserve extended attributes\n -H, --hard-links\n -E, --executability\n"
    ));
    assert!(!supports_required_rsync_flags("Usage: rsync [-av] src dest\n -X, --xattrs\n"));
    assert!(!supports_required_rsync_flags(""));
}

#[test]
fn confirms_quiescence() {
    assert_eq!(confirm_quiescence("QUIESCED\r\n"), Ok(()));
    assert_eq!(confirm_quiescence("QUIESCED"), Ok(()));
    assert_eq!(
        confirm_quiescence("quiesced\n"),
        Err(MigrationError::InvalidInput("quiescence confirmation"))
    );
    assert!(confirm_quiescence(" QUIESCED").is_err());
}

#[test]
fn formats_ai_root_line() {
    assert_eq!(ai_root_line("/Volumes/Sanctum").unwrap(), b"/Volumes/Sanctum\n".to_vec());
    assert_eq!(ai_root_line("Volumes"), Err(MigrationError::InvalidInput("AI_ROOT path")));
    assert_eq!(ai_root_line("/a\nb"), Err(MigrationError::InvalidInput("AI_ROOT path")));
}

#[test]
fn follows_stage_machine() {
    let mut stage = MigrationStage::Prepared;
    assert_eq!(stage.transition(MigrationStage::InitialSynced), Ok(()));
    assert_eq!(stage.transition(MigrationStage::Verified), Ok(()));
    assert_eq!(
        stage.transition(MigrationStage::Completed),
        Err(MigrationError::InvalidInput("migration stage"))
    );
    assert_eq!(stage, MigrationStage::Verified);
    assert_eq!(stage.transition(MigrationStage::Activated), Ok(()));
    assert_eq!(stage.transition(MigrationStage::RolledBack), Ok(()));
    assert!(stage.transition(MigrationStage::Completed).is_err());
    assert_eq!(stage, MigrationStage::RolledBack);
    let mut skipped = MigrationStage::Prepared;
    assert!(skipped.transition(MigrationStage::Activated).is_err());
}

#[test]
fn keeps_rollback_window() {
    assert_eq!(ROLLBACK_WINDOW_SECONDS, 72 * 60 * 60);
    let record = activated(1_000);
    assert_eq!(record.rollback_deadline(), Ok(1_000 + 259_200));
    assert!(record.rollback_active(1_000));
    assert!(record.rollback_active(1_000 + 259_200));
    assert!(!record.rollback_active(1_001 + 259_200));
    assert!(!record.rollback_active(999));
    let late = activated(u64::MAX - 10);
    assert_eq!(late.rollback_deadline(), Err(MigrationError::InvalidInput("rollback deadline")));
    assert!(!late.rollback_active(u64::MAX));
    let done = CutoverRecord { stage: MigrationStage::Completed, ..activated(1_000) };
    assert!(!done.rollback_active(1_000));
}

#[test]
fn plans_rollback_to_origin() {
    let plan = plan_rollback(activated(5), true).unwrap();
    assert_eq!(plan.pointer_line, b"/Users/ai\n".to_vec());
    assert_eq!(plan.record.stage, MigrationStage::RolledBack);
    assert_eq!(plan.record.activated_at, 5);
    assert_eq!(
        plan_rollback(activated(5), false),
        Err(MigrationError::InvalidInput("origin unavailable"))
    );
    let verified = CutoverRecord { stage: MigrationStage::Verified, ..activated(5) };
    assert_eq!(plan_rollback(verified, true), Err(MigrationError::InvalidInput("rollback stage")));
}

#[test]
fn assesses_failover_in_order() {
    assert_eq!(assess_failover(X4_REPORT, "", false), Some(FailoverCause::TargetUnavailable));
    assert_eq!(assess_failover(X2_REPORT, "", true), Some(FailoverCause::LinkDropped));
    assert_eq!(assess_failover("", "", true), Some(FailoverCause::LinkDropped));
    assert_eq!(
        assess_failover(X4_REPORT, "boot\nKERNEL PANIC at 12:00", true),
        Some(FailoverCause::KernelPanic)
    );
    assert_eq!(assess_failover(X4_REPORT, "kernel: ok\npanic elsewhere", true), None);
}

#[test]
fn decides_monitor_pass() {
    let prepared = CutoverRecord { stage: MigrationStage::Prepared, ..activated(0) };
    assert_eq!(monitor_decision(&prepared, 10), MonitorDecision::Idle);
    assert_eq!(monitor_decision(&activated(10), 20), MonitorDecision::Probe);
    match monitor_decision(&activated(10), 10 + 259_201) {
        MonitorDecision::Complete(record) => {
            assert_eq!(record.stage, MigrationStage::Completed);
            assert_eq!(record.activated_at, 10);
            assert_eq!(record.paths, paths());
        }
        other => panic!("unexpected decision {other:?}"),
    }
}

#[test]
fn hashes_with_sha256() {
    assert_eq!(
        digest_bytes(b"abc").to_hex(),
        "ba7816bf8f01cfea414140de5dae2223b00361a396177a9cb410ff61f20015ad"
    );
    assert_eq!(
        digest_bytes(b"").to_hex(),
        "e3b0c44298fc1c149afbf4c8996fb92427ae41e4649b934ca495991b7852b855"
    );
    assert_eq!(Sha256Digest([0xab; 32]).to_hex(), "ab".repeat(32));
}

fn manifest(entries: Vec<(&str, ManifestEntry)>) -> MigrationManifest {
    MigrationManifest::new(entries.into_iter().map(|(p, e)| (p.to_owned(), e)).collect()).unwrap()
}

fn file(data: &[u8]) -> ManifestEntry {
    ManifestEntry::File { bytes: data.len() as u64, digest: digest_bytes(data) }
}

#[test]
fn compares_manifests() {
    let source = manifest(vec![
        ("current", ManifestEntry::Symlink("models/a.gguf".to_owned())),
        ("models", ManifestEntry::Directory),
        ("models/a.gguf", file(b"weights")),
    ]);
    assert_eq!(compare_manifests(&source, &source.clone()), Ok(()));
    assert_eq!(verify_manifests(&source, &source.clone()), Ok(()));

    let missing = manifest(vec![
        ("current", ManifestEntry::Symlink("models/a.gguf".to_owned())),
        ("models", ManifestEntry::Directory),
    ]);
    assert_eq!(
        compare_manifests(&source, &missing),
        Err(ManifestDifference::Missing("models/a.gguf".to_owned()))
    );
    assert_eq!(
        verify_manifests(&source, &missing),
        Err(MigrationError::InvalidInput("missing target entry"))
    );

    let changed = manifest(vec![
        ("current", ManifestEntry::Symlink("models/a.gguf".to_owned())),
        ("models", ManifestEntry::Directory),
        ("models/a.gguf", file(b"weightz")),
    ]);
    assert_eq!(
        compare_manifests(&source, &changed),
        Err(ManifestDifference::Changed("models/a.gguf".to_owned()))
    );
    assert_eq!(
        verify_manifests(&source, &changed),
        Err(MigrationError::InvalidInput("changed target entry"))
    );

    let mut extended = source.entries().clone();
    extended.push(("stray".to_owned(), ManifestEntry::Directory));
    let extra = MigrationManifest::new(extended).unwrap();
    assert_eq!(
        compare_manifests(&source, &extra),
        Err(ManifestDifference::Extra("stray".to_owned()))
    );
    assert_eq!(
        verify_manifests(&source, &extra),
        Err(MigrationError::InvalidInput("unexpected target entry"))
    );
}

#[test]
fn reads_volume_identity_from_plist() {
    let plist = br#"<?xml version="1.0" encoding="UTF-8"?>
<!DOCTYPE plist PUBLIC "-//Apple//DTD PLIST 1.0//EN" "http://www.apple.com/DTDs/PropertyList-1.0.dtd">
<plist version="1.0">
<dict>
    <key>DeviceIdentifier</key>
    <string>disk5s1</string>
    <key>FilesystemType</key>
    <string>apfs</string>
    <key>VolumeUUID</key>
    <string>0a1b2c3d-0000-1111-2222-333344445555</string>
</dict>
</plist>"#;
    let identity = TargetVolumeIdentity::parse_plist(plist).unwrap();
    assert_eq!(identity.volume_uuid, "0A1B2C3D-0000-1111-2222-333344445555");
    assert_eq!(identity.device_identifier, "disk5s1");

    let hfs = String::from_utf8_lossy(plist).replace("apfs", "hfs");
    assert_eq!(
        TargetVolumeIdentity::parse_plist(hfs.as_bytes()),
        Err(MigrationError::InvalidInput("destination APFS filesystem"))
    );
    let array = br#"<?xml version="1.0" encoding="UTF-8"?><plist version="1.0"><array/></plist>"#;
    assert_eq!(
        TargetVolumeIdentity::parse_plist(array),
        Err(MigrationError::InvalidInput("diskutil dictionary"))
    );
    assert!(matches!(TargetVolumeIdentity::parse_plist(b"not a plist"), Err(MigrationError::Io(_))));
}

#[test]
fn validates_volume_identity_fields() {
    let ok = TargetVolumeIdentity::from_fields(
        Some("apfs".to_owned()),
        Some("abcdef01-2345-6789-abcd-ef0123456789".to_owned()),
        Some("disk3s2".to_owned()),
    )
    .unwrap();
    assert_eq!(ok.volume_uuid, "ABCDEF01-2345-6789-ABCD-EF0123456789");
    let refused = Err(MigrationError::InvalidInput("diskutil volume identity"));
    assert_eq!(
        TargetVolumeIdentity::from_fields(Some("apfs".to_owned()), Some("short".to_owned()), Some("disk3".to_owned())),
        refused
    );
    assert_eq!(
        TargetVolumeIdentity::from_fields(
            Some("apfs".to_owned()),
            Some("abcdef01-2345-6789-abcd-ef0123456789".to_owned()),
            Some("sda1".to_owned())
        ),
        refused
    );
    assert_eq!(TargetVolumeIdentity::from_fields(None, None, None), refused);
}

#[test]
fn runs_cutover_in_order() {
    let mut cutover = Cutover::start(paths());
    assert_eq!(cutover.phase, CutoverPhase::CheckRoots);
    let link = BusInspection::parse(X4_REPORT).unwrap();
    let evidence = TrimEvidence { status: TrimStatus::Observed, observed_at: 100 };
    let events = vec![
        CutoverEvent::RootsChecked { origin_is_dir: true, target_is_dir: true },
        CutoverEvent::TargetListed { empty: true },
        CutoverEvent::LinkInspected(link),
        CutoverEvent::TrimInspected { evidence, now: 200 },
    ];
    for event in events {
        cutover = cutover.advance(event).unwrap();
    }
    assert_eq!(cutover.phase, CutoverPhase::SaveRecord);
    assert_eq!(cutover.record.stage, MigrationStage::Prepared);
    cutover = cutover.advance(CutoverEvent::Saved).unwrap();
    assert_eq!(cutover.phase, CutoverPhase::Sync(SyncPass::Initial));
    cutover = cutover.advance(CutoverEvent::Synced).unwrap();
    assert_eq!(cutover.record.stage, MigrationStage::InitialSynced);
    assert_eq!(cutover.phase, CutoverPhase::SaveRecord);
    cutover = cutover.advance(CutoverEvent::Saved).unwrap();
    assert_eq!(cutover.phase, CutoverPhase::Sync(SyncPass::Final));
    cutover = cutover.advance(CutoverEvent::Synced).unwrap();
    assert_eq!(cutover.phase, CutoverPhase::VerifyRoots);
    cutover = cutover.advance(CutoverEvent::RootsVerified).unwrap();
    assert_eq!(cutover.record.stage, MigrationStage::Verified);
    cutover = cutover.advance(CutoverEvent::Saved).unwrap();
    assert_eq!(cutover.phase, CutoverPhase::ReadClock);
    cutover = cutover.advance(CutoverEvent::Clock(1_700_000_000)).unwrap();
    assert_eq!(cutover.record.stage, MigrationStage::Activated);
    assert_eq!(cutover.record.activated_at, 1_700_000_000);
    cutover = cutover.advance(CutoverEvent::Saved).unwrap();
    assert_eq!(cutover.phase, CutoverPhase::PointAt(b"/Volumes/Sanctum\n".to_vec()));
    cutover = cutover.advance(CutoverEvent::Pointed).unwrap();
    assert_eq!(cutover.phase, CutoverPhase::SpawnMonitor);
    let spawned = cutover.clone().advance(CutoverEvent::MonitorSpawned(Ok(()))).unwrap();
    assert_eq!(spawned.phase, CutoverPhase::Done);
    let failed = cutover.advance(CutoverEvent::MonitorSpawned(Err("no such file".to_owned()))).unwrap();
    assert_eq!(failed.phase, CutoverPhase::RollBack("no such file".to_owned()));
    assert_eq!(
        failed.advance(CutoverEvent::RolledBack),
        Err(MigrationError::Io("no such file".to_owned()))
    );
}

#[test]
fn refuses_cutover_preconditions() {
    let start = Cutover::start(paths());
    assert_eq!(
        start.clone().advance(CutoverEvent::RootsChecked { origin_is_dir: true, target_is_dir: false }),
        Err(MigrationError::InvalidInput("mounted migration roots"))
    );
    let listed = start
        .advance(CutoverEvent::RootsChecked { origin_is_dir: true, target_is_dir: true })
        .unwrap();
    assert_eq!(
        listed.clone().advance(CutoverEvent::TargetListed { empty: false }),
        Err(MigrationError::InvalidInput("target must be empty"))
    );
    let linked = listed.advance(CutoverEvent::TargetListed { empty: true }).unwrap();
    let narrow = BusInspection::parse(X2_REPORT).unwrap();
    assert_eq!(
        linked.clone().advance(CutoverEvent::LinkInspected(narrow)),
        Err(MigrationError::InvalidInput("x4 Thunderbolt link"))
    );
    let trimmed = linked
        .advance(CutoverEvent::LinkInspected(BusInspection::parse(X4_REPORT).unwrap()))
        .unwrap();
    let stale = TrimEvidence { status: TrimStatus::Observed, observed_at: 0 };
    assert_eq!(
        trimmed.clone().advance(CutoverEvent::TrimInspected { evidence: stale, now: 3_600_000_000_001 }),
        Err(MigrationError::InvalidInput("fresh APFS TRIM evidence"))
    );
    let absent = TrimEvidence { status: TrimStatus::Absent, observed_at: 0 };
    assert_eq!(
        trimmed.advance(CutoverEvent::TrimInspected { evidence: absent, now: 0 }),
        Err(MigrationError::InvalidInput("fresh APFS TRIM evidence"))
    );
}

#[test]
fn streamed_digest_matches_whole() {
    let mut stream = StreamDigest::new();
    stream.update(b"a");
    stream.update(b"");
    stream.update(b"bc");
    assert_eq!(stream.finalize(), digest_bytes(b"abc"));
    assert_eq!(StreamDigest::new().finalize(), digest_bytes(b""));
}

#[test]
fn reports_least_differing_path() {
    let source = manifest(vec![
        ("a", ManifestEntry::Directory),
        ("a/x", file(b"1")),
        ("b", file(b"2")),
    ]);
    let target = manifest(vec![("a", ManifestEntry::Directory), ("b", file(b"3"))]);
    assert_eq!(
        compare_manifests(&source, &target),
        Err(ManifestDifference::Missing("a/x".to_owned()))
    );
    let wider = manifest(vec![
        ("a", ManifestEntry::Directory),
        ("a/x", file(b"1")),
        ("a/y", ManifestEntry::Directory),
        ("b", file(b"2")),
        ("c", ManifestEntry::Directory),
    ]);
    assert_eq!(compare_manifests(&source, &wider), Err(ManifestDifference::Extra("a/y".to_owned())));
}

#[test]
fn manifests_keep_path_order() {
    let ordered = vec![
        ("a".to_owned(), ManifestEntry::Directory),
        ("a/b".to_owned(), ManifestEntry::Directory),
        ("a-c".to_owned(), ManifestEntry::Directory),
        ("b".to_owned(), ManifestEntry::Directory),
    ];
    let manifest = MigrationManifest::new(ordered.clone()).unwrap();
    assert_eq!(manifest.entries(), &ordered);
    assert_eq!(manifest.clone(), manifest);
    let swapped = vec![
        ("b".to_owned(), ManifestEntry::Directory),
        ("a".to_owned(), ManifestEntry::Directory),
    ];
    assert_eq!(MigrationManifest::new(swapped), Err(MigrationError::InvalidInput("manifest order")));
    let repeated = vec![
        ("a".to_owned(), ManifestEntry::Directory),
        ("a".to_owned(), ManifestEntry::Directory),
    ];
    assert_eq!(MigrationManifest::new(repeated), Err(MigrationError::InvalidInput("manifest order")));
}

#[test]
fn reads_stream_lines() {
    let mut buffer = b"{\"message\"".to_vec();
    let events = stream_step(
        &mut buffer,
        b":{\"content\":\"Hel\"},\"done\":false}\r\n\nnot json\n{\"message\":{\"content\":\"lo\"},\"done\":true}\npart",
        ReplyFormat::ChatCompletion,
    );
    assert_eq!(
        events,
        vec![
            StreamEvent::Chunk { content: "Hel".to_owned(), finished: false },
            StreamEvent::Chunk { content: "lo".to_owned(), finished: true },
            StreamEvent::Done
        ]
    );
    assert_eq!(buffer, b"part".to_vec());
    assert_eq!(
        stream_line_events(b"{\"done\":true}", ReplyFormat::Message),
        vec![StreamEvent::MessageDelta, StreamEvent::MessageStop]
    );
    assert_eq!(
        stream_line_events(b"{\"message\":{\"content\":\"x\"}}", ReplyFormat::Message),
        vec![StreamEvent::TextDelta("x".to_owned())]
    );
    assert!(stream_line_events(b"", ReplyFormat::ChatCompletion).is_empty());
}
