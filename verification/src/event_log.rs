//! The event log: one row for each reported batch, in a table that is only
//! ever appended to.

use vstd::prelude::*;
use crate::counters::Stats;

verus! {

/// The file that holds the event log, in the working directory.
pub const DATABASE_FILE: &'static str = "stats.db";

/// The statement that sets the table up. It does nothing where the table is
/// there already.
pub const CREATE_TABLE: &'static str =
    "CREATE TABLE IF NOT EXISTS stats (\
    id INTEGER PRIMARY KEY AUTOINCREMENT, \
    timestamp INTEGER NOT NULL, \
    total_batches INTEGER NOT NULL, \
    total_positions INTEGER NOT NULL, \
    total_nodes INTEGER NOT NULL, \
    throughput_sample INTEGER NOT NULL)";

/// The statement that appends one row. Its five parameters are the fields of
/// a [`LogRow`], in their order.
pub const INSERT_ROW: &'static str =
    "INSERT INTO stats \
    (timestamp, total_batches, total_positions, total_nodes, throughput_sample) \
    VALUES (?1, ?2, ?3, ?4, ?5)";

/// One row of the event log, but for the identifier, which the table counts
/// up by itself. The table holds signed 64-bit integers.
#[derive(Clone, Copy, Debug, PartialEq, Eq, Structural)]
pub struct LogRow {
    /// Seconds since the epoch at which the row was made.
    pub timestamp: i64,
    pub total_batches: i64,
    pub total_positions: i64,
    pub total_nodes: i64,
    /// The throughput sample that came with the batch, or zero.
    pub throughput_sample: i64,
}

/// An unsigned 64-bit value read as a signed one, bit for bit: the upper half
/// of the range comes out negative.
pub open spec fn signed(x: u64) -> i64 {
    if x <= i64::MAX {
        x as i64
    } else {
        (x - 0x1_0000_0000_0000_0000) as i64
    }
}

/// Reads an unsigned 64-bit value as a signed one, bit for bit.
pub fn to_signed(x: u64) -> (y: i64)
    ensures
        y == signed(x),
        x <= i64::MAX ==> y == x,
        x > i64::MAX ==> y == x - 0x1_0000_0000_0000_0000,
{
    if x <= 0x7fff_ffff_ffff_ffff {
        x as i64
    } else {
        let low: u64 = x - 0x8000_0000_0000_0000;
        (low as i64) + i64::MIN
    }
}

impl LogRow {
    /// The row for counters `stats` at time `now`, for a batch that came with
    /// `sample`.
    pub open spec fn at(now: u64, stats: Stats, sample: Option<u32>) -> LogRow {
        LogRow {
            timestamp: signed(now),
            total_batches: signed(stats.total_batches),
            total_positions: signed(stats.total_positions),
            total_nodes: signed(stats.total_nodes),
            throughput_sample: match sample {
                Some(nps) => nps as i64,
                None => 0,
            },
        }
    }

    /// The five parameters of [`INSERT_ROW`], in their order.
    pub fn params(&self) -> (values: [i64; 5])
        ensures
            values@ == seq![
                self.timestamp,
                self.total_batches,
                self.total_positions,
                self.total_nodes,
                self.throughput_sample,
            ],
    {
        let values: [i64; 5] = [
            self.timestamp,
            self.total_batches,
            self.total_positions,
            self.total_nodes,
            self.throughput_sample,
        ];
        assert(values@ =~= seq![
            self.timestamp,
            self.total_batches,
            self.total_positions,
            self.total_nodes,
            self.throughput_sample,
        ]);
        values
    }
}

} // verus!
