//! TCP connection count from the TCP connection-table source.
//!
//! Every line holding a colon is one connection record; header lines have
//! no colon.  The count is a point-in-time scalar, so no old/new snapshot
//! pair is kept and no rate applies.

use crate::parse::{count_colon_lines, spec_count_colon_lines};
use crate::{src_view, Error};
use vstd::prelude::*;

verus! {

/// The most recent TCP connection count, absent before any successful
/// sampling.
#[derive(Clone, Copy, Debug, PartialEq, Eq, Structural)]
pub struct TcpStatus {
    pub count: Option<usize>,
}

impl Default for TcpStatus {
    /// The state before any sampling: no data yet.
    fn default() -> (r: Self)
        ensures
            r.count is None,
    {
        TcpStatus { count: None }
    }
}

impl TcpStatus {
    /// What one resample does: the count is cleared, then replaced by the
    /// number of connection lines when the source can be read.
    pub open spec fn spec_update(self, src: Option<Seq<u8>>) -> (TcpStatus, Result<(), Error>) {
        match src {
            None => (TcpStatus { count: None }, Err(Error::SourceUnavailable)),
            Some(text) => (
                TcpStatus { count: Some(spec_count_colon_lines(text, 0) as usize) },
                Ok(()),
            ),
        }
    }

    /// Clears the count, then counts the connection records in `src`;
    /// `None` stands for an unreadable source.
    pub fn update(&mut self, src: Option<&[u8]>) -> (r: Result<(), Error>)
        ensures
            (*final(self), r) == old(self).spec_update(src_view(src)),
    {
        self.count = None;
        match src {
            None => Err(Error::SourceUnavailable),
            Some(text) => {
                self.count = Some(count_colon_lines(text));
                Ok(())
            },
        }
    }

    /// The number of TCP connections as of the last successful sampling.
    pub fn connections(&self) -> (r: Option<usize>)
        ensures
            r == self.count,
    {
        self.count
    }
}

} // verus!
