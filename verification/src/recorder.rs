//! The recorder: the counters, the estimator, and the two places where what
//! they hold is written down.
//!
//! The recorder owns the handle of the snapshot store and the connection of
//! the event log without ever looking into them. Its caller opens both,
//! tells [`StatsRecorder::new`] how that went, and after each batch writes
//! what the recorder holds through the handles that are there.

use std::path::PathBuf;
use vstd::prelude::*;
use crate::counters::{LoadError, Stats};
use crate::estimator::NpsRecorder;
use crate::event_log::{to_signed, LogRow};
use crate::paths::{default_file_in, default_stats_file};

verus! {

/// What the caller asks for.
#[derive(Debug)]
pub struct StatsOpt {
    /// Keep the counters in memory only.
    pub no_stats_file: bool,
    /// Where to keep the snapshot, in place of the default.
    pub stats_file: Option<PathBuf>,
}

/// What is to be opened when a recorder starts.
#[derive(Debug)]
pub enum Plan {
    /// Nothing: neither the file system nor the event log is touched.
    InMemory,
    /// The event log alone: there is no path for the snapshot.
    Unresolved,
    /// The snapshot at this path, and the event log.
    Open(PathBuf),
}

impl StatsOpt {
    /// What is to be opened, where `default_file` is the default snapshot
    /// file of the current user. Nothing, if the counters are to stay in
    /// memory. Else the path that was asked for; without one the default
    /// file; without either the event log alone.
    pub open spec fn planned(self, default_file: Option<PathBuf>) -> Plan {
        if self.no_stats_file {
            Plan::InMemory
        } else {
            match self.stats_file {
                Some(path) => Plan::Open(path),
                None => match default_file {
                    Some(path) => Plan::Open(path),
                    None => Plan::Unresolved,
                },
            }
        }
    }

    /// Decides what is to be opened, given the default snapshot file of the
    /// current user.
    pub fn plan_with(self, default_file: Option<PathBuf>) -> (plan: Plan)
        ensures
            plan == self.planned(default_file),
    {
        if self.no_stats_file {
            Plan::InMemory
        } else {
            match self.stats_file {
                Some(path) => Plan::Open(path),
                None => match default_file {
                    Some(path) => Plan::Open(path),
                    None => Plan::Unresolved,
                },
            }
        }
    }

    /// Decides what is to be opened. A path that was asked for is taken as
    /// it is. Without one the default of the current user is looked up, and
    /// only then: the plan is the one that [`StatsOpt::planned`] gives for
    /// the default file in whatever the home directory turns out to be.
    pub fn plan(self) -> (plan: Plan)
        ensures
            self.no_stats_file ==> plan == Plan::InMemory,
            !self.no_stats_file && self.stats_file.is_some() ==> plan == Plan::Open(
                self.stats_file.unwrap(),
            ),
            !self.no_stats_file && self.stats_file.is_none() ==> plan != Plan::InMemory,
            exists|home: Option<PathBuf>| plan == self.planned(default_file_in(home)),
    {
        if self.no_stats_file || self.stats_file.is_some() {
            let plan = self.plan_with(None);
            assert(plan == self.planned(default_file_in(None)));
            plan
        } else {
            let default_file = default_stats_file();
            let ghost home = choose|home: Option<PathBuf>| default_file == default_file_in(home);
            let plan = self.plan_with(default_file);
            assert(plan == self.planned(default_file_in(home)));
            plan
        }
    }
}

/// How opening the snapshot store went.
#[derive(Debug)]
pub enum StoreOutcome<S> {
    /// There was no path to open.
    Unresolved,
    /// The path could not be opened. The text says why.
    OpenFailed(String),
    /// The store is open.
    Opened {
        /// The path that was opened.
        path: PathBuf,
        /// The open store.
        handle: S,
        /// What reading the snapshot out of it gave.
        loaded: Result<Option<Stats>, LoadError>,
    },
}

/// What a starting recorder has to tell.
#[derive(Debug)]
pub enum Notice {
    /// The counters go on from a snapshot.
    Resuming,
    /// The store was empty: the counters start at zero.
    NewStatsFile,
    /// The snapshot could not be used: the counters start at zero.
    ResumeFailed(String),
    /// The store could not be opened: the counters are kept in memory.
    OpenFailed(String),
    /// There was no path for the store: the counters are kept in memory.
    Unresolved,
    /// The event log could not be set up: no rows are written.
    DatabaseFailed(String),
}

/// The notice that tells how the store was found.
pub open spec fn store_notice<S>(store: StoreOutcome<S>) -> Notice {
    match store {
        StoreOutcome::Unresolved => Notice::Unresolved,
        StoreOutcome::OpenFailed(text) => Notice::OpenFailed(text),
        StoreOutcome::Opened { loaded: Ok(Some(_)), .. } => Notice::Resuming,
        StoreOutcome::Opened { loaded: Ok(None), .. } => Notice::NewStatsFile,
        StoreOutcome::Opened { loaded: Err(err), .. } => Notice::ResumeFailed(err.text()),
    }
}

/// The notices of a start, in their order: the one on the store, then one on
/// the event log if it failed.
pub open spec fn notices<S, D>(store: StoreOutcome<S>, log: Result<D, String>) -> Seq<Notice> {
    match log {
        Ok(_) => seq![store_notice(store)],
        Err(text) => seq![store_notice(store), Notice::DatabaseFailed(text)],
    }
}

/// The counters that a recorder starts with: those of the snapshot where one
/// was read, and zero in every other case.
pub open spec fn restored<S>(store: StoreOutcome<S>) -> Stats {
    match store {
        StoreOutcome::Opened { loaded: Ok(Some(stats)), .. } => stats,
        _ => Stats::zero(),
    }
}

/// The store that a recorder keeps: the one that was opened, whatever was
/// read out of it.
pub open spec fn kept<S>(store: StoreOutcome<S>) -> Option<(PathBuf, S)> {
    match store {
        StoreOutcome::Opened { path, handle, .. } => Some((path, handle)),
        _ => None,
    }
}

/// The connection that a recorder keeps: the one that was set up.
pub open spec fn connected<D>(log: Result<D, String>) -> Option<D> {
    match log {
        Ok(conn) => Some(conn),
        Err(_) => None,
    }
}

/// Counters and estimator, with the store `S` they are saved to and the
/// connection `D` of the event log, each of which may be missing.
pub struct StatsRecorder<S, D> {
    pub stats: Stats,
    pub nnue_nps: NpsRecorder,
    /// The open snapshot store and its path.
    pub store: Option<(PathBuf, S)>,
    /// The number of cores that the recorder was made for.
    pub cores: usize,
    /// The connection of the event log.
    pub db_conn: Option<D>,
}

/// What is to be written once a batch has been counted.
#[derive(Clone, Copy, Debug, PartialEq, Eq, Structural)]
pub struct Writes {
    /// The counters that are to replace what the snapshot store holds, if
    /// there is a store.
    pub snapshot: Option<Stats>,
    /// Whether the event log gets a row.
    pub row: bool,
}

impl<S, D> StatsRecorder<S, D> {
    /// The recorder serves at least one core, and its estimator is in order.
    pub open spec fn wf(self) -> bool {
        &&& self.cores > 0
        &&& self.nnue_nps.wf()
    }

    /// The recorder of a start that went as `store` and `log` tell.
    pub open spec fn started(store: StoreOutcome<S>, log: Result<D, String>, cores: usize) -> Self {
        StatsRecorder {
            stats: restored(store),
            nnue_nps: NpsRecorder::fresh(),
            store: kept(store),
            cores,
            db_conn: connected(log),
        }
    }

    /// The recorder once a batch has been reported to it.
    pub open spec fn after_batch(self, positions: u64, nodes: u64, nnue_nps: Option<u32>) -> Self {
        StatsRecorder {
            stats: self.stats.after_batch(positions, nodes),
            nnue_nps: match nnue_nps {
                Some(sample) => self.nnue_nps.after_sample(sample),
                None => self.nnue_nps,
            },
            store: self.store,
            cores: self.cores,
            db_conn: self.db_conn,
        }
    }

    /// The recorder once every batch of `batches` has been reported to it,
    /// first to last. A batch is its positions, its nodes and its sample.
    pub open spec fn after_batches(self, batches: Seq<(u64, u64, Option<u32>)>) -> Self
        decreases batches.len(),
    {
        if batches.len() == 0 {
            self
        } else {
            self.after_batches(batches.drop_last()).after_batch(
                batches.last().0,
                batches.last().1,
                batches.last().2,
            )
        }
    }

    /// What is to be written for the recorder as it stands: all of its
    /// counters to the store, if it has one, and a row to the event log, if
    /// it has one.
    pub open spec fn writes(self) -> Writes {
        Writes {
            snapshot: if self.store.is_some() {
                Some(self.stats)
            } else {
                None
            },
            row: self.db_conn.is_some(),
        }
    }

    /// A recorder that keeps everything in memory: zero counters, a fresh
    /// estimator, no store and no event log.
    pub fn in_memory(cores: usize) -> (recorder: Self)
        requires
            cores > 0,
        ensures
            recorder.stats == Stats::zero(),
            recorder.nnue_nps == NpsRecorder::fresh(),
            recorder.store.is_none(),
            recorder.db_conn.is_none(),
            recorder.cores == cores,
            recorder.wf(),
    {
        StatsRecorder {
            stats: Stats::default(),
            nnue_nps: NpsRecorder::new(),
            store: None,
            cores,
            db_conn: None,
        }
    }

    /// A recorder for a start that went as `store` and `log` tell, and what
    /// it has to tell about that start.
    ///
    /// The counters are those of the snapshot where one was read, and zero
    /// otherwise. A store that was opened is kept, whatever was read out of
    /// it. The event log is kept where it was set up. Neither depends on the
    /// other, and no outcome keeps the recorder from starting.
    pub fn new(store: StoreOutcome<S>, log: Result<D, String>, cores: usize) -> (started: (
        Self,
        Vec<Notice>,
    ))
        requires
            cores > 0,
        ensures
            started.0 == Self::started(store, log, cores),
            started.0.wf(),
            started.1@ == notices(store, log),
    {
        let mut told: Vec<Notice> = Vec::new();
        let (stats, kept_store) = match store {
            StoreOutcome::Unresolved => {
                told.push(Notice::Unresolved);
                (Stats::default(), None)
            },
            StoreOutcome::OpenFailed(text) => {
                told.push(Notice::OpenFailed(text));
                (Stats::default(), None)
            },
            StoreOutcome::Opened { path, handle, loaded } => {
                let stats = match loaded {
                    Ok(Some(stats)) => {
                        told.push(Notice::Resuming);
                        stats
                    },
                    Ok(None) => {
                        told.push(Notice::NewStatsFile);
                        Stats::default()
                    },
                    Err(err) => {
                        told.push(Notice::ResumeFailed(err.into_text()));
                        Stats::default()
                    },
                };
                (stats, Some((path, handle)))
            },
        };
        let db_conn = match log {
            Ok(conn) => Some(conn),
            Err(text) => {
                told.push(Notice::DatabaseFailed(text));
                None
            },
        };
        assert(told@ =~= notices(store, log));
        (StatsRecorder { stats, nnue_nps: NpsRecorder::new(), store: kept_store, cores, db_conn }, told)
    }

    /// Counts one batch, feeds the estimator the sample that came with it,
    /// if one did, and says what is to be written. The store and the event
    /// log stay as they are, and whether either is there changes nothing
    /// about the counters.
    pub fn record_batch(&mut self, positions: u64, nodes: u64, nnue_nps: Option<u32>) -> (due:
        Writes)
        requires
            old(self).stats.fits(positions, nodes),
        ensures
            *final(self) == old(self).after_batch(positions, nodes, nnue_nps),
            due == final(self).writes(),
            old(self).wf() ==> final(self).wf(),
    {
        self.stats.add_batch(positions, nodes);
        if let Some(sample) = nnue_nps {
            self.nnue_nps.record(sample);
        }
        Writes {
            snapshot: if self.store.is_some() {
                Some(self.stats)
            } else {
                None
            },
            row: self.db_conn.is_some(),
        }
    }

    /// Counts one batch if it still fits the counters, as
    /// [`StatsRecorder::record_batch`] does, and says what is to be written.
    /// A batch that would carry a counter past the largest value it can hold
    /// is not counted: the recorder stays as it is and nothing is due.
    pub fn try_record_batch(&mut self, positions: u64, nodes: u64, nnue_nps: Option<u32>) -> (due:
        Option<Writes>)
        ensures
            old(self).stats.fits(positions, nodes) ==> *final(self) == old(self).after_batch(
                positions,
                nodes,
                nnue_nps,
            ) && due == Some(final(self).writes()),
            !old(self).stats.fits(positions, nodes) ==> *final(self) == *old(self)
                && due.is_none(),
            old(self).wf() ==> final(self).wf(),
    {
        if self.stats.total_batches < u64::MAX && positions <= u64::MAX - self.stats.total_positions
            && nodes <= u64::MAX - self.stats.total_nodes {
            Some(self.record_batch(positions, nodes, nnue_nps))
        } else {
            None
        }
    }

    /// The row that the event log gets for the counters as they stand, at
    /// time `now` in seconds since the epoch, for a batch that came with
    /// `nnue_nps`.
    pub fn save_to_database(&self, now: u64, nnue_nps: Option<u32>) -> (row: LogRow)
        ensures
            row == LogRow::at(now, self.stats, nnue_nps),
    {
        LogRow {
            timestamp: to_signed(now),
            total_batches: to_signed(self.stats.total_batches),
            total_positions: to_signed(self.stats.total_positions),
            total_nodes: to_signed(self.stats.total_nodes),
            throughput_sample: match nnue_nps {
                Some(nps) => nps as i64,
                None => 0,
            },
        }
    }
}

} // verus!
