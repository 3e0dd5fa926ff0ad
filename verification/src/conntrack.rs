//! Tracked-session count from the connection-tracking table source.
//!
//! The table has no header: every line is one tracked flow, so the sample
//! is simply the line count.  The count is a point-in-time scalar, so no
//! old/new snapshot pair is kept and no rate applies.

use crate::parse::{count_lines, spec_count_lines};
use crate::{src_view, Error};
use vstd::prelude::*;

verus! {

/// The most recent tracked-session count, absent before any successful
/// sampling.
#[derive(Clone, Copy, Debug, PartialEq, Eq, Structural)]
pub struct ConntrackStatus {
    pub count: Option<usize>,
}

impl Default for ConntrackStatus {
    /// The state before any sampling: no data yet.
    fn default() -> (r: Self)
        ensures
            r.count is None,
    {
        ConntrackStatus { count: None }
    }
}

impl ConntrackStatus {
    /// What one resample does: the count is cleared, then replaced by the
    /// line count when the source can be read.
    pub open spec fn spec_update(self, src: Option<Seq<u8>>) -> (
        ConntrackStatus,
        Result<(), Error>,
    ) {
        match src {
            None => (ConntrackStatus { count: None }, Err(Error::SourceUnavailable)),
            Some(text) => (
                ConntrackStatus { count: Some(spec_count_lines(text, 0) as usize) },
                Ok(()),
            ),
        }
    }

    /// Clears the count, then counts the tracked flows in `src`; `None`
    /// stands for an unreadable source.
    pub fn update(&mut self, src: Option<&[u8]>) -> (r: Result<(), Error>)
        ensures
            (*final(self), r) == old(self).spec_update(src_view(src)),
    {
        self.count = None;
        match src {
            None => Err(Error::SourceUnavailable),
            Some(text) => {
                self.count = Some(count_lines(text));
                Ok(())
            },
        }
    }

    /// The number of tracked sessions as of the last successful sampling.
    pub fn sessions(&self) -> (r: Option<usize>)
        ensures
            r == self.count,
    {
        self.count
    }
}

} // verus!
