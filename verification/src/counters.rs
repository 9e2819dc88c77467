//! The cumulative counters and how a reported batch moves them.

use vstd::prelude::*;

verus! {

/// Work done so far, summed over every batch ever reported.
#[derive(Clone, Copy, Debug, PartialEq, Eq, Structural)]
pub struct Stats {
    pub total_batches: u64,
    pub total_positions: u64,
    pub total_nodes: u64,
}

impl Stats {
    /// The counters of a recorder that has seen no batch.
    pub open spec fn zero() -> Stats {
        Stats { total_batches: 0, total_positions: 0, total_nodes: 0 }
    }

    /// Whether one more batch of this size still fits the counters.
    pub open spec fn fits(self, positions: u64, nodes: u64) -> bool {
        &&& self.total_batches + 1 <= u64::MAX
        &&& self.total_positions + positions <= u64::MAX
        &&& self.total_nodes + nodes <= u64::MAX
    }

    /// The counters once a batch of this size has been added.
    pub open spec fn after_batch(self, positions: u64, nodes: u64) -> Stats {
        Stats {
            total_batches: (self.total_batches + 1) as u64,
            total_positions: (self.total_positions + positions) as u64,
            total_nodes: (self.total_nodes + nodes) as u64,
        }
    }

    /// Counts one batch with its positions and nodes.
    pub fn add_batch(&mut self, positions: u64, nodes: u64)
        requires
            old(self).fits(positions, nodes),
        ensures
            *final(self) == old(self).after_batch(positions, nodes),
            final(self).total_batches == old(self).total_batches + 1,
            final(self).total_positions == old(self).total_positions + positions,
            final(self).total_nodes == old(self).total_nodes + nodes,
    {
        self.total_batches += 1;
        self.total_positions += positions;
        self.total_nodes += nodes;
    }
}

/// Why no counters could be had from a snapshot.
#[derive(Debug)]
pub enum LoadError {
    /// The snapshot could not be read. The text is the reader's own.
    Unreadable(String),
    /// The snapshot was read and is no record of counters. The text is the
    /// decoder's own.
    Malformed(String),
}

impl LoadError {
    /// The text that came with the failure.
    pub open spec fn text(self) -> String {
        match self {
            LoadError::Unreadable(text) => text,
            LoadError::Malformed(text) => text,
        }
    }

    /// Hands out the text that came with the failure.
    pub fn into_text(self) -> (text: String)
        ensures
            text == self.text(),
    {
        match self {
            LoadError::Unreadable(text) => text,
            LoadError::Malformed(text) => text,
        }
    }
}

impl Stats {
    /// What a snapshot of `buf` bytes amounts to, where decoding those bytes
    /// gave `decoded`. No bytes at all are no snapshot, which is no failure.
    /// Any bytes are the counters they decode to, or malformed.
    pub open spec fn loaded(buf: Seq<u8>, decoded: Result<Stats, String>) -> Result<
        Option<Stats>,
        LoadError,
    > {
        if buf.len() == 0 {
            Ok(None)
        } else {
            match decoded {
                Ok(stats) => Ok(Some(stats)),
                Err(text) => Err(LoadError::Malformed(text)),
            }
        }
    }

    /// Takes the counters out of a snapshot. `buf` is all that the store
    /// held, and `decoded` is what decoding `buf` as a record gave. An empty
    /// store never held a snapshot: `decoded` is then passed over.
    pub fn load_from(buf: &[u8], decoded: Result<Stats, String>) -> (loaded: Result<
        Option<Stats>,
        LoadError,
    >)
        ensures
            loaded == Stats::loaded(buf@, decoded),
    {
        if buf.len() == 0 {
            Ok(None)
        } else {
            match decoded {
                Ok(stats) => Ok(Some(stats)),
                Err(text) => Err(LoadError::Malformed(text)),
            }
        }
    }
}

impl Default for Stats {
    fn default() -> (stats: Stats)
        ensures
            stats == Stats::zero(),
    {
        Stats { total_batches: 0, total_positions: 0, total_nodes: 0 }
    }
}

} // verus!
