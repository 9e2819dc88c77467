use stats_recorder::estimator::UNCERTAINTY_ONE;
use stats_recorder::{
    LoadError, LogRow, Notice, NpsRecorder, Plan, Stats, StatsOpt, StatsRecorder, StoreOutcome,
    Writes,
};
use std::path::PathBuf;

// Stand-ins for the open file and the connection: the recorder only carries them.
type Recorder = StatsRecorder<&'static str, u8>;

fn stats(total_batches: u64, total_positions: u64, total_nodes: u64) -> Stats {
    Stats { total_batches, total_positions, total_nodes }
}

fn opened(loaded: Result<Option<Stats>, LoadError>) -> StoreOutcome<&'static str> {
    StoreOutcome::Opened { path: PathBuf::from("/tmp/stats"), handle: "file", loaded }
}

#[test]
fn plan_without_persistence_touches_nothing() {
    let opt = StatsOpt { no_stats_file: true, stats_file: None };
    assert!(matches!(opt.plan(), Plan::InMemory));
}

#[test]
fn plan_without_persistence_passes_over_the_path() {
    let opt = StatsOpt { no_stats_file: true, stats_file: Some(PathBuf::from("/tmp/stats")) };
    assert!(matches!(opt.plan(), Plan::InMemory));
}

#[test]
fn plan_takes_the_path_that_was_asked_for() {
    let opt = StatsOpt { no_stats_file: false, stats_file: Some(PathBuf::from("/tmp/stats")) };
    match opt.plan() {
        Plan::Open(path) => assert_eq!(path, PathBuf::from("/tmp/stats")),
        other => panic!("unexpected {:?}", other),
    }
}

#[test]
fn plan_falls_back_to_the_default_file() {
    let opt = StatsOpt { no_stats_file: false, stats_file: None };
    match opt.plan() {
        Plan::Open(path) => assert_eq!(path.file_name().unwrap(), ".fishnet-stats"),
        Plan::Unresolved => {}
        Plan::InMemory => panic!("persistence was asked for"),
    }
}

#[test]
fn in_memory_recorder_is_empty() {
    let r = Recorder::in_memory(4);
    assert_eq!(r.stats, stats(0, 0, 0));
    assert_eq!(r.nnue_nps, NpsRecorder { nps: 400_000, uncertainty: UNCERTAINTY_ONE });
    assert!(r.store.is_none());
    assert!(r.db_conn.is_none());
    assert_eq!(r.cores, 4);
}

#[test]
fn new_resumes_from_a_snapshot() {
    let (r, told) = Recorder::new(opened(Ok(Some(stats(7, 70, 700)))), Ok(1), 2);
    assert_eq!(r.stats, stats(7, 70, 700));
    assert_eq!(r.nnue_nps, NpsRecorder::new());
    assert_eq!(r.store, Some((PathBuf::from("/tmp/stats"), "file")));
    assert_eq!(r.db_conn, Some(1));
    assert_eq!(r.cores, 2);
    assert!(matches!(told.as_slice(), [Notice::Resuming]));
}

#[test]
fn new_starts_a_new_file_at_zero() {
    let (r, told) = Recorder::new(opened(Ok(None)), Ok(1), 1);
    assert_eq!(r.stats, stats(0, 0, 0));
    assert!(r.store.is_some());
    assert!(matches!(told.as_slice(), [Notice::NewStatsFile]));
}

#[test]
fn new_resets_on_a_malformed_snapshot_and_keeps_the_store() {
    let loaded = Stats::load_from(b"\x01\x02garbage", Err("expected value".to_string()));
    let (r, told) = Recorder::new(opened(loaded), Ok(1), 1);
    assert_eq!(r.stats, stats(0, 0, 0));
    assert_eq!(r.store, Some((PathBuf::from("/tmp/stats"), "file")));
    assert_eq!(r.db_conn, Some(1));
    match told.as_slice() {
        [Notice::ResumeFailed(text)] => assert_eq!(text, "expected value"),
        other => panic!("unexpected {:?}", other),
    }
}

#[test]
fn new_resets_on_an_unreadable_snapshot_and_keeps_the_store() {
    let loaded = Err(LoadError::Unreadable("input/output error".to_string()));
    let (r, told) = Recorder::new(opened(loaded), Ok(1), 1);
    assert_eq!(r.stats, stats(0, 0, 0));
    assert!(r.store.is_some());
    match told.as_slice() {
        [Notice::ResumeFailed(text)] => assert_eq!(text, "input/output error"),
        other => panic!("unexpected {:?}", other),
    }
}

#[test]
fn new_goes_on_in_memory_when_the_store_does_not_open() {
    let (r, told) =
        Recorder::new(StoreOutcome::OpenFailed("permission denied".to_string()), Ok(1), 1);
    assert_eq!(r.stats, stats(0, 0, 0));
    assert!(r.store.is_none());
    assert_eq!(r.db_conn, Some(1));
    match told.as_slice() {
        [Notice::OpenFailed(text)] => assert_eq!(text, "permission denied"),
        other => panic!("unexpected {:?}", other),
    }
}

#[test]
fn new_goes_on_in_memory_without_a_path() {
    let (r, told) = Recorder::new(StoreOutcome::Unresolved, Ok(1), 1);
    assert_eq!(r.stats, stats(0, 0, 0));
    assert!(r.store.is_none());
    assert_eq!(r.db_conn, Some(1));
    assert!(matches!(told.as_slice(), [Notice::Unresolved]));
}

#[test]
fn new_reports_store_first_and_log_second() {
    let (r, told) = Recorder::new(
        StoreOutcome::OpenFailed("no such directory".to_string()),
        Err("unable to open database file".to_string()),
        1,
    );
    assert!(r.store.is_none());
    assert!(r.db_conn.is_none());
    match told.as_slice() {
        [Notice::OpenFailed(first), Notice::DatabaseFailed(second)] => {
            assert_eq!(first, "no such directory");
            assert_eq!(second, "unable to open database file");
        }
        other => panic!("unexpected {:?}", other),
    }
}

#[test]
fn record_batch_counts_and_feeds_the_estimator() {
    let mut r = Recorder::in_memory(1);
    let due = r.record_batch(60, 1_500_000, Some(300_000));
    assert_eq!(r.stats, stats(1, 60, 1_500_000));
    assert_eq!(r.nnue_nps, NpsRecorder { nps: 390_000, uncertainty: 900_000_000_000_000_000 });
    assert_eq!(due, Writes { snapshot: None, row: false });
}

#[test]
fn record_batch_without_sample_leaves_the_estimator() {
    let mut r = Recorder::in_memory(1);
    r.record_batch(60, 1_500_000, None);
    assert_eq!(r.stats, stats(1, 60, 1_500_000));
    assert_eq!(r.nnue_nps, NpsRecorder::new());
}

#[test]
fn record_batch_sums_over_many_calls() {
    let mut r = Recorder::in_memory(8);
    let batches: [(u64, u64, Option<u32>); 4] =
        [(1, 10, None), (2, 20, Some(1)), (0, 0, None), (40, 4_000_000_000_000, Some(2))];
    for (positions, nodes, sample) in batches {
        r.record_batch(positions, nodes, sample);
    }
    assert_eq!(r.stats, stats(4, 43, 4_000_000_000_030));
    assert_eq!(r.cores, 8);
}

#[test]
fn record_batch_goes_on_from_a_snapshot() {
    let (mut r, _) = Recorder::new(opened(Ok(Some(stats(7, 70, 700)))), Ok(1), 2);
    let due = r.record_batch(3, 30, None);
    assert_eq!(r.stats, stats(8, 73, 730));
    assert_eq!(due, Writes { snapshot: Some(stats(8, 73, 730)), row: true });
    assert_eq!(r.store, Some((PathBuf::from("/tmp/stats"), "file")));
    assert_eq!(r.db_conn, Some(1));
}

#[test]
fn store_is_served_when_the_log_failed() {
    let (mut r, _) = Recorder::new(opened(Ok(None)), Err("read-only".to_string()), 1);
    let first = r.record_batch(5, 50, Some(350_000));
    let second = r.record_batch(6, 60, None);
    assert_eq!(first, Writes { snapshot: Some(stats(1, 5, 50)), row: false });
    assert_eq!(second, Writes { snapshot: Some(stats(2, 11, 110)), row: false });
    assert_eq!(r.stats, stats(2, 11, 110));
}

#[test]
fn log_is_served_when_the_store_failed() {
    let (mut r, _) = Recorder::new(StoreOutcome::OpenFailed("denied".to_string()), Ok(9), 1);
    let first = r.record_batch(5, 50, Some(350_000));
    let second = r.record_batch(6, 60, None);
    assert_eq!(first, Writes { snapshot: None, row: true });
    assert_eq!(second, Writes { snapshot: None, row: true });
    assert_eq!(r.stats, stats(2, 11, 110));
    assert_eq!(r.save_to_database(1_700_000_000, None).total_batches, 2);
}

#[test]
fn save_to_database_takes_the_counters_as_they_stand() {
    let mut r = Recorder::in_memory(1);
    r.record_batch(60, 1_500_000, Some(300_000));
    r.record_batch(40, 500_000, Some(310_000));
    let row = r.save_to_database(1_700_000_000, Some(310_000));
    assert_eq!(
        row,
        LogRow {
            timestamp: 1_700_000_000,
            total_batches: 2,
            total_positions: 100,
            total_nodes: 2_000_000,
            throughput_sample: 310_000,
        }
    );
}

#[test]
fn save_to_database_writes_zero_for_a_missing_sample() {
    let r = Recorder::in_memory(1);
    let row = r.save_to_database(0, None);
    assert_eq!(
        row,
        LogRow {
            timestamp: 0,
            total_batches: 0,
            total_positions: 0,
            total_nodes: 0,
            throughput_sample: 0,
        }
    );
}

#[test]
fn save_to_database_reads_large_counters_as_signed() {
    let mut r = Recorder::in_memory(1);
    r.stats = stats(u64::MAX, i64::MAX as u64, i64::MAX as u64 + 1);
    let row = r.save_to_database(u64::MAX - 1, Some(u32::MAX));
    assert_eq!(
        row,
        LogRow {
            timestamp: -2,
            total_batches: -1,
            total_positions: i64::MAX,
            total_nodes: i64::MIN,
            throughput_sample: 4_294_967_295,
        }
    );
}

#[test]
fn plan_with_takes_the_default_when_no_path_was_asked_for() {
    let opt = StatsOpt { no_stats_file: false, stats_file: None };
    match opt.plan_with(Some(PathBuf::from("/home/user/.fishnet-stats"))) {
        Plan::Open(path) => assert_eq!(path, PathBuf::from("/home/user/.fishnet-stats")),
        other => panic!("unexpected {:?}", other),
    }
}

#[test]
fn plan_with_prefers_the_path_that_was_asked_for() {
    let opt = StatsOpt { no_stats_file: false, stats_file: Some(PathBuf::from("/tmp/stats")) };
    match opt.plan_with(Some(PathBuf::from("/home/user/.fishnet-stats"))) {
        Plan::Open(path) => assert_eq!(path, PathBuf::from("/tmp/stats")),
        other => panic!("unexpected {:?}", other),
    }
}

#[test]
fn plan_with_is_unresolved_without_path_and_default() {
    let opt = StatsOpt { no_stats_file: false, stats_file: None };
    assert!(matches!(opt.plan_with(None), Plan::Unresolved));
}

#[test]
fn plan_with_stays_in_memory_whatever_the_default() {
    let opt = StatsOpt { no_stats_file: true, stats_file: None };
    assert!(matches!(opt.plan_with(Some(PathBuf::from("/home/user/.fishnet-stats"))), Plan::InMemory));
}

#[test]
fn unresolved_start_has_no_store_and_keeps_the_log() {
    let opt = StatsOpt { no_stats_file: false, stats_file: None };
    assert!(matches!(opt.plan_with(None), Plan::Unresolved));
    let (r, told) = Recorder::new(StoreOutcome::Unresolved, Ok(7), 1);
    assert_eq!(r.stats, stats(0, 0, 0));
    assert!(r.store.is_none());
    assert_eq!(r.db_conn, Some(7));
    assert!(matches!(told.as_slice(), [Notice::Unresolved]));
}

#[test]
fn try_record_batch_counts_what_fits() {
    let (mut r, _) = Recorder::new(opened(Ok(Some(stats(7, 70, 700)))), Ok(1), 2);
    let due = r.try_record_batch(3, 30, Some(300_000));
    assert_eq!(due, Some(Writes { snapshot: Some(stats(8, 73, 730)), row: true }));
    assert_eq!(r.stats, stats(8, 73, 730));
    assert_eq!(r.nnue_nps.nps, 390_000);
}

#[test]
fn try_record_batch_reaches_the_top_of_the_range() {
    let mut r = Recorder::in_memory(1);
    r.stats = stats(u64::MAX - 1, u64::MAX - 5, 0);
    let due = r.try_record_batch(5, u64::MAX, None);
    assert_eq!(due, Some(Writes { snapshot: None, row: false }));
    assert_eq!(r.stats, stats(u64::MAX, u64::MAX, u64::MAX));
}

#[test]
fn try_record_batch_leaves_full_counters_alone() {
    let full: [(Stats, u64, u64); 3] = [
        (stats(u64::MAX, 0, 0), 0, 0),
        (stats(0, u64::MAX, 0), 1, 0),
        (stats(0, 5, u64::MAX - 1), 0, 2),
    ];
    for (start, positions, nodes) in full {
        let (mut r, _) = Recorder::new(opened(Ok(Some(start))), Ok(1), 1);
        let due = r.try_record_batch(positions, nodes, Some(1));
        assert_eq!(due, None);
        assert_eq!(r.stats, start);
        assert_eq!(r.nnue_nps, NpsRecorder::new());
        assert!(r.store.is_some());
        assert_eq!(r.db_conn, Some(1));
    }
}
