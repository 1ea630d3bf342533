use deep_freeze::download::{
    plan_download, requested_range, DownloadError, DownloadPlan, DownloadProgress, LocalState,
};
use deep_freeze::orchestrator::{
    get_unmigrated_rows, next_pass, path_le_exec, Action, Event, MigrationSession, PassDecision, Phase,
};
use deep_freeze::record::{FileRecord, MigrationStatus};
use deep_freeze::reconcile::{apply_verdict, check_migration_status, DestinationProbe, Verdict};

fn record(id: &str, path: &str, size: u64) -> FileRecord {
    FileRecord::new(id.to_string(), path.to_string(), size, "hash".to_string())
}

#[test]
fn status_codes_round_trip() {
    for s in [MigrationStatus::Unverified, MigrationStatus::NeedsTransfer, MigrationStatus::Migrated] {
        assert_eq!(MigrationStatus::from_code(s.code()), Some(s));
    }
    assert_eq!(MigrationStatus::Unverified.code(), -1);
    assert_eq!(MigrationStatus::from_code(2), None);
}

#[test]
fn verifier_classifies_destination_state() {
    let r = record("id:42", "/a/b.txt", 10_000_000);
    assert_eq!(check_migration_status(&r, DestinationProbe::Missing), Verdict::NeedsTransfer);
    assert_eq!(check_migration_status(&r, DestinationProbe::Present(10_000_000)), Verdict::Migrated);
    assert_eq!(check_migration_status(&r, DestinationProbe::Present(7)), Verdict::SizeMismatch(7));
    assert_eq!(check_migration_status(&r, DestinationProbe::Fault), Verdict::Fault);
}

#[test]
fn mismatch_deletes_object_then_reupload_migrates() {
    let mut r = record("id:42", "/a/b.txt", 100);
    r.status = MigrationStatus::Migrated;
    let v = check_migration_status(&r, DestinationProbe::Present(60));
    assert!(v.deletes_destination());
    apply_verdict(&mut r, v);
    assert_eq!(r.status, MigrationStatus::NeedsTransfer);
    let v = check_migration_status(&r, DestinationProbe::Present(100));
    assert!(!v.deletes_destination());
    assert!(v.discards_staging());
    apply_verdict(&mut r, v);
    assert_eq!(r.status, MigrationStatus::Migrated);
    assert_eq!(r.destination_size, Some(100));
}

#[test]
fn fault_marks_record_skipped() {
    let mut r = record("id:1", "/x", 5);
    apply_verdict(&mut r, Verdict::Fault);
    assert!(r.skip);
    assert_eq!(r.status, MigrationStatus::Unverified);
}

#[test]
fn complete_staging_file_is_not_fetched() {
    let plan = plan_download(LocalState::File(22), 22);
    assert_eq!(plan, DownloadPlan::AlreadyComplete);
    assert_eq!(requested_range(plan, 22), None);
}

#[test]
fn partial_staging_file_is_resumed() {
    let plan = plan_download(LocalState::File(1000), 4096);
    assert_eq!(plan, DownloadPlan::Resume { offset: 1000 });
    assert_eq!(requested_range(plan, 4096), Some((1000, 4096)));
    let mut p = DownloadProgress::start(plan, 4096);
    assert_eq!(p.kept, 1000);
    assert!(p.record_chunk(2048).is_ok());
    assert_eq!(p.finish(), Err(DownloadError::SizeMismatch));
    assert!(p.record_chunk(1048).is_ok());
    assert_eq!(p.written, 3096);
    assert_eq!(p.finish(), Ok(()));
}

#[test]
fn other_staging_states_start_fresh() {
    assert_eq!(plan_download(LocalState::Absent, 10), DownloadPlan::Fresh { remove_directory: false });
    assert_eq!(plan_download(LocalState::Directory, 10), DownloadPlan::Fresh { remove_directory: true });
    assert_eq!(plan_download(LocalState::File(11), 10), DownloadPlan::Fresh { remove_directory: false });
    assert_eq!(requested_range(plan_download(LocalState::Absent, 10), 10), Some((0, 10)));
}

#[test]
fn overlong_stream_is_refused() {
    let mut p = DownloadProgress::start(DownloadPlan::Fresh { remove_directory: false }, 10);
    assert_eq!(p.record_chunk(11), Err(DownloadError::Overrun));
    assert_eq!(p.written, 0);
}

#[test]
fn missing_object_goes_through_full_transfer() {
    let mut s = MigrationSession::new(record("id:42", "/a/b.txt", 10_000_000), false);
    assert_eq!(s.pending_action(), Action::ProbeDestination);
    let e = s.advance(Event::Probed(DestinationProbe::Missing));
    assert!(!e.delete_destination);
    assert_eq!(s.record.status, MigrationStatus::NeedsTransfer);
    assert_eq!(s.pending_action(), Action::Download);
    s.advance(Event::Downloaded(true));
    assert_eq!(s.pending_action(), Action::Upload);
    s.advance(Event::Uploaded(true));
    assert_eq!(s.pending_action(), Action::ProbeDestination);
    let e = s.advance(Event::Probed(DestinationProbe::Present(10_000_000)));
    assert!(e.delete_staging);
    assert_eq!(s.phase, Phase::Done);
    assert_eq!(s.record.status, MigrationStatus::Migrated);
    assert!(!s.record.skip);
}

#[test]
fn confirmed_record_needs_no_transfer() {
    let mut s = MigrationSession::new(record("id:7", "/a", 50), false);
    let e = s.advance(Event::Probed(DestinationProbe::Present(50)));
    assert!(e.delete_staging);
    assert_eq!(s.phase, Phase::Done);
    assert_eq!(s.pending_action(), Action::Finished);
}

#[test]
fn failed_upload_skips_record() {
    let mut s = MigrationSession::new(record("id:7", "/a", 50), false);
    s.advance(Event::Probed(DestinationProbe::Missing));
    s.advance(Event::Downloaded(true));
    s.advance(Event::Uploaded(false));
    assert_eq!(s.phase, Phase::Done);
    assert!(s.record.skip);
    assert_eq!(s.record.status, MigrationStatus::NeedsTransfer);
}

#[test]
fn mismatch_after_upload_cleans_up_and_skips() {
    let mut s = MigrationSession::new(record("id:7", "/a", 50), false);
    let e = s.advance(Event::Probed(DestinationProbe::Present(10)));
    assert!(e.delete_destination);
    s.advance(Event::Downloaded(true));
    s.advance(Event::Uploaded(true));
    let e = s.advance(Event::Probed(DestinationProbe::Present(49)));
    assert!(e.delete_destination && e.delete_staging);
    assert!(s.record.skip);
    assert_eq!(s.record.status, MigrationStatus::NeedsTransfer);
}

#[test]
fn check_only_never_transfers() {
    let mut s = MigrationSession::new(record("id:7", "/a", 50), true);
    s.advance(Event::Probed(DestinationProbe::Missing));
    assert_eq!(s.phase, Phase::Done);
    assert_eq!(s.record.status, MigrationStatus::NeedsTransfer);
}

#[test]
fn unexpected_event_changes_nothing() {
    let mut s = MigrationSession::new(record("id:7", "/a", 50), false);
    let e = s.advance(Event::Uploaded(true));
    assert_eq!(s.phase, Phase::Verifying);
    assert!(!e.delete_destination && !e.delete_staging);
}

#[test]
fn migrated_set_selects_nothing_twice() {
    let mut records = vec![record("id:1", "/a", 1), record("id:2", "/b", 2)];
    for r in records.iter_mut() {
        r.set_migrated();
    }
    assert!(get_unmigrated_rows(&records, &vec![]).is_empty());
    assert!(get_unmigrated_rows(&records, &vec![]).is_empty());
}

#[test]
fn selection_skips_migrated_skipped_and_listed() {
    let mut records = vec![
        record("id:1", "/a", 1),
        record("id:2", "/b", 2),
        record("id:3", "/c", 3),
        record("id:4", "/d", 4),
    ];
    records[0].set_migrated();
    records[1].set_skip();
    let rows = get_unmigrated_rows(&records, &vec!["id:3".to_string()]);
    assert_eq!(rows.len(), 1);
    assert_eq!(rows[0].source_id, "id:4");
}

#[test]
fn pass_decisions() {
    assert_eq!(next_pass(0, 3, 0, 1, 5), PassDecision::AllMigrated);
    assert_eq!(next_pass(2, 3, 0, 1, 5), PassDecision::OnlySkippedRemain);
    assert_eq!(next_pass(2, 3, 3, 1, 5), PassDecision::NoProgress);
    assert_eq!(next_pass(2, 3, 1, 5, 5), PassDecision::PassLimitReached);
    assert_eq!(next_pass(2, 3, 1, 1, 5), PassDecision::Repeat);
}

#[test]
fn pass_visits_files_in_path_order() {
    let records = vec![
        record("id:1", "/b/z.txt", 1),
        record("id:2", "/a/y.txt", 2),
        record("id:3", "/b", 3),
        record("id:4", "/B/x.txt", 4),
        record("id:5", "/a/y.txt.old", 5),
    ];
    let rows = get_unmigrated_rows(&records, &vec![]);
    let paths: Vec<&str> = rows.iter().map(|r| r.source_path.as_str()).collect();
    assert_eq!(paths, vec!["/B/x.txt", "/a/y.txt", "/a/y.txt.old", "/b", "/b/z.txt"]);
}

#[test]
fn path_order_is_by_code_point() {
    let s = |x: &str| x.to_string();
    assert!(path_le_exec(&s("/a"), &s("/a")));
    assert!(path_le_exec(&s("/a"), &s("/a/b")));
    assert!(!path_le_exec(&s("/a/b"), &s("/a")));
    assert!(path_le_exec(&s("/Z"), &s("/a")));
    assert!(path_le_exec(&s("/caf\u{e9}"), &s("/caf\u{e9}s")));
    assert!(!path_le_exec(&s("/\u{2022}"), &s("/z")));
}
