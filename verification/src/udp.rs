//! UDP socket count from the UDP socket-table source.
//!
//! Every line holding a colon is one socket record; header lines have no
//! colon.  The count is a point-in-time scalar, so no old/new snapshot
//! pair is kept and no rate applies.

use crate::parse::{count_colon_lines, spec_count_colon_lines};
use crate::{src_view, Error};
use vstd::prelude::*;

verus! {

/// The most recent UDP socket count, absent before any successful sampling.
#[derive(Clone, Copy, Debug, PartialEq, Eq, Structural)]
pub struct UdpStatus {
    pub count: Option<usize>,
}

impl Default for UdpStatus {
    /// The state before any sampling: no data yet.
    fn default() -> (r: Self)
        ensures
            r.count is None,
    {
        UdpStatus { count: None }
    }
}

impl UdpStatus {
    /// What one resample does: the count is cleared, then replaced by the
    /// number of socket lines when the source can be read.
    pub open spec fn spec_update(self, src: Option<Seq<u8>>) -> (UdpStatus, Result<(), Error>) {
        match src {
            None => (UdpStatus { count: None }, Err(Error::SourceUnavailable)),
            Some(text) => (
                UdpStatus { count: Some(spec_count_colon_lines(text, 0) as usize) },
                Ok(()),
            ),
        }
    }

    /// Clears the count, then counts the socket records in `src`; `None`
    /// stands for an unreadable source.
    pub fn update(&mut self, src: Option<&[u8]>) -> (r: Result<(), Error>)
        ensures
            (*final(self), r) == old(self).spec_update(src_view(src)),
    {
        self.count = None;
        match src {
            None => Err(Error::SourceUnavailable),
            Some(text) => {
                self.count = Some(count_colon_lines(text));
                Ok(())
            },
        }
    }

    /// The number of UDP sockets as of the last successful sampling.
    pub fn sockets(&self) -> (r: Option<usize>)
        ensures
            r == self.count,
    {
        self.count
    }
}

} // verus!
