//! What holds of a recorder over its whole life, stated over the functions
//! that the contracts of the recorder are written in.

use std::path::PathBuf;
use vstd::prelude::*;
use crate::counters::{LoadError, Stats};
use crate::paths::{default_file_in, joined, DEFAULT_STATS_FILE};
use crate::recorder::{notices, Notice, Plan, StatsOpt, StatsRecorder, StoreOutcome, Writes};

verus! {

/// The positions of all `batches` together.
pub open spec fn positions_in(batches: Seq<(u64, u64, Option<u32>)>) -> nat
    decreases batches.len(),
{
    if batches.len() == 0 {
        0
    } else {
        positions_in(batches.drop_last()) + batches.last().0 as nat
    }
}

/// The nodes of all `batches` together.
pub open spec fn nodes_in(batches: Seq<(u64, u64, Option<u32>)>) -> nat
    decreases batches.len(),
{
    if batches.len() == 0 {
        0
    } else {
        nodes_in(batches.drop_last()) + batches.last().1 as nat
    }
}

/// The counters are sums. After any sequence of reported batches the
/// recorder has counted each of them once, and holds the sum of their
/// positions and the sum of their nodes on top of what it started with: a
/// recorder that started at zero holds exactly the number of batches and the
/// two sums. As long as the sums fit the counters, every one of the reports
/// is in order.
pub proof fn lemma_counters_are_sums<S, D>(
    start: StatsRecorder<S, D>,
    batches: Seq<(u64, u64, Option<u32>)>,
)
    requires
        start.stats.total_batches + batches.len() <= u64::MAX,
        start.stats.total_positions + positions_in(batches) <= u64::MAX,
        start.stats.total_nodes + nodes_in(batches) <= u64::MAX,
    ensures
        start.after_batches(batches).stats.total_batches == start.stats.total_batches
            + batches.len(),
        start.after_batches(batches).stats.total_positions == start.stats.total_positions
            + positions_in(batches),
        start.after_batches(batches).stats.total_nodes == start.stats.total_nodes + nodes_in(
            batches,
        ),
        start.stats == Stats::zero() ==> start.after_batches(batches).stats == (Stats {
            total_batches: batches.len() as u64,
            total_positions: positions_in(batches) as u64,
            total_nodes: nodes_in(batches) as u64,
        }),
        forall|i: int|
            0 <= i < batches.len() ==> #[trigger] start.after_batches(batches.take(i)).stats.fits(
                batches[i].0,
                batches[i].1,
            ),
    decreases batches.len(),
{
    if batches.len() > 0 {
        let front = batches.drop_last();
        lemma_counters_are_sums(start, front);
        assert forall|i: int| 0 <= i < batches.len() implies #[trigger] start.after_batches(
            batches.take(i),
        ).stats.fits(batches[i].0, batches[i].1) by {
            if i < front.len() {
                assert(batches.take(i) =~= front.take(i));
                assert(batches[i] == front[i]);
            } else {
                assert(batches.take(i) =~= front);
            }
        }
    }
}

/// A recorder resumes where the snapshot left off. Where the store held a
/// snapshot that decodes to `stats`, the recorder starts with exactly those
/// counters, keeps the store, and says that it resumes, whatever became of
/// the event log.
pub proof fn lemma_resumes_from_snapshot<S, D>(
    path: PathBuf,
    handle: S,
    buf: Seq<u8>,
    stats: Stats,
    log: Result<D, String>,
    cores: usize,
)
    requires
        buf.len() > 0,
    ensures
        ({
            let loaded = Stats::loaded(buf, Ok(stats));
            let store = StoreOutcome::Opened { path, handle, loaded };
            let recorder = StatsRecorder::started(store, log, cores);
            &&& loaded == Ok::<Option<Stats>, LoadError>(Some(stats))
            &&& recorder.stats == stats
            &&& recorder.store == Some((path, handle))
            &&& notices(store, log)[0] == Notice::Resuming
        }),
{
}

/// A snapshot that does not decode costs the counters and nothing else.
/// Where the store held bytes that are no record, the recorder starts at
/// zero, keeps the store for the snapshots to come, and reports the
/// decoder's text, whatever became of the event log.
pub proof fn lemma_malformed_snapshot_resets<S, D>(
    path: PathBuf,
    handle: S,
    buf: Seq<u8>,
    text: String,
    log: Result<D, String>,
    cores: usize,
)
    requires
        buf.len() > 0,
    ensures
        ({
            let loaded = Stats::loaded(buf, Err(text));
            let store = StoreOutcome::Opened { path, handle, loaded };
            let recorder = StatsRecorder::started(store, log, cores);
            &&& loaded == Err::<Option<Stats>, LoadError>(LoadError::Malformed(text))
            &&& recorder.stats == Stats::zero()
            &&& recorder.store == Some((path, handle))
            &&& notices(store, log)[0] == Notice::ResumeFailed(text)
        }),
{
}

/// An empty store is a new one. Where the store held no bytes, the recorder
/// starts at zero and keeps the store, whatever decoding nothing would give.
pub proof fn lemma_empty_store_starts_at_zero<S, D>(
    path: PathBuf,
    handle: S,
    decoded: Result<Stats, String>,
    log: Result<D, String>,
    cores: usize,
)
    ensures
        ({
            let loaded = Stats::loaded(Seq::<u8>::empty(), decoded);
            let store = StoreOutcome::Opened { path, handle, loaded };
            let recorder = StatsRecorder::started(store, log, cores);
            &&& loaded == Ok::<Option<Stats>, LoadError>(None)
            &&& recorder.stats == Stats::zero()
            &&& recorder.store == Some((path, handle))
            &&& notices(store, log)[0] == Notice::NewStatsFile
        }),
{
}

/// The store does not need the event log. Where the store was opened and
/// the event log could not be set up, every batch is still counted, and its
/// counters are still due to the store; only the row is not.
pub proof fn lemma_store_works_without_log<S, D>(
    path: PathBuf,
    handle: S,
    loaded: Result<Option<Stats>, LoadError>,
    text: String,
    cores: usize,
    batches: Seq<(u64, u64, Option<u32>)>,
)
    ensures
        ({
            let store = StoreOutcome::Opened { path, handle, loaded };
            let start = StatsRecorder::<S, D>::started(store, Err(text), cores);
            let end = start.after_batches(batches);
            &&& start.store == Some((path, handle))
            &&& start.db_conn.is_none()
            &&& end.writes() == (Writes { snapshot: Some(end.stats), row: false })
        }),
{
    let store = StoreOutcome::Opened { path, handle, loaded };
    let start = StatsRecorder::<S, D>::started(store, Err(text), cores);
    lemma_slots_stay(start, batches);
}

/// The event log does not need the store. Where the store could not be
/// opened and the event log was set up, the counters start at zero, every
/// batch is still counted, and its row is still due to the event log; only
/// the snapshot is not.
pub proof fn lemma_log_works_without_store<S, D>(
    text: String,
    conn: D,
    cores: usize,
    batches: Seq<(u64, u64, Option<u32>)>,
)
    ensures
        ({
            let start = StatsRecorder::<S, D>::started(
                StoreOutcome::OpenFailed(text),
                Ok(conn),
                cores,
            );
            let end = start.after_batches(batches);
            &&& start.stats == Stats::zero()
            &&& start.store.is_none()
            &&& start.db_conn == Some(conn)
            &&& end.writes() == (Writes { snapshot: None, row: true })
        }),
{
    let start = StatsRecorder::<S, D>::started(StoreOutcome::OpenFailed(text), Ok(conn), cores);
    lemma_slots_stay(start, batches);
}

/// The default file is the fixed name in the home directory. Where
/// persistence is asked for without a path, a home directory that resolves
/// has its default file opened, and one that does not leaves the snapshot
/// unresolved: the recorder then starts at zero without a store, and the
/// event log is kept exactly where it was set up.
pub proof fn lemma_default_file_is_planned<S, D>(
    opt: StatsOpt,
    home: Option<PathBuf>,
    log: Result<D, String>,
    cores: usize,
)
    requires
        !opt.no_stats_file,
        opt.stats_file.is_none(),
    ensures
        home.is_some() ==> opt.planned(default_file_in(home)) == Plan::Open(
            joined(home.unwrap(), DEFAULT_STATS_FILE@),
        ),
        home.is_none() ==> opt.planned(default_file_in(home)) == Plan::Unresolved,
        ({
            let recorder = StatsRecorder::<S, D>::started(StoreOutcome::Unresolved, log, cores);
            &&& recorder.stats == Stats::zero()
            &&& recorder.store.is_none()
            &&& recorder.db_conn.is_some() == log.is_ok()
            &&& notices(StoreOutcome::<S>::Unresolved, log)[0] == Notice::Unresolved
        }),
{
}

/// Reporting batches never opens, closes or swaps the store or the event
/// log.
pub proof fn lemma_slots_stay<S, D>(
    start: StatsRecorder<S, D>,
    batches: Seq<(u64, u64, Option<u32>)>,
)
    ensures
        start.after_batches(batches).store == start.store,
        start.after_batches(batches).db_conn == start.db_conn,
        start.after_batches(batches).cores == start.cores,
    decreases batches.len(),
{
    if batches.len() > 0 {
        lemma_slots_stay(start, batches.drop_last());
    }
}

} // verus!
