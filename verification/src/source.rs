//! The capability every backend offers, and the closed set of backends.

use crate::batch::{Frame, LayoutContract};
use crate::outcome::FetchOutcome;
use crate::source::csv::{CSVSource, ReadRequest, SourceState};
use vstd::prelude::*;

pub mod csv;

verus! {

/// What a backend has to offer: a stable name, a batch size, the window it
/// wants read next, and the completion of a fetch with what was read.
pub trait Source {
    /// What the source is, as far as its behaviour goes.
    spec fn state(&self) -> SourceState;

    fn name(&self) -> (r: &'static str)
        ensures
            r == self.state().name,
    ;

    /// The source's own batch size, if it has one.
    fn batch_size(&self) -> (r: Option<usize>)
        ensures
            r == self.state().batch_size,
    ;

    /// The window that the next fetch reads.
    fn request(&self, default_batch_size: usize) -> (r: ReadRequest)
        ensures
            r == self.state().request(default_batch_size),
    ;

    /// Completes one fetch with what was read for the window of `request`.
    /// Once the end of the stream was seen, every further fetch ends in it
    /// again and changes nothing. A batch is delivered only if it can be
    /// described in the exchange format whose layout contract is `exchange`,
    /// and a fetch that fails leaves the source as it was.
    fn fetch<P>(
        &mut self,
        default_batch_size: usize,
        exchange: LayoutContract,
        read: Result<Frame<P>, String>,
    ) -> (r: FetchOutcome<P>)
        ensures
            r == old(self).state().outcome(default_batch_size, exchange, read),
            final(self).state() == old(self).state().after(default_batch_size, exchange, read),
    ;
}

/// The backends there are. A new backend is a new variant, and an arm in
/// each method below.
#[derive(Debug)]
pub enum DataSource {
    CSV(CSVSource),
}

impl DataSource {
    /// Another handle on the same source, with a cursor of its own.
    pub fn duplicate(&self) -> (r: DataSource)
        ensures
            r.state() == self.state(),
    {
        match self {
            DataSource::CSV(c) => DataSource::CSV(c.duplicate()),
        }
    }
}

impl Source for DataSource {
    open spec fn state(&self) -> SourceState {
        match self {
            DataSource::CSV(c) => c@,
        }
    }

    fn name(&self) -> (r: &'static str) {
        match self {
            DataSource::CSV(c) => c.name(),
        }
    }

    fn batch_size(&self) -> (r: Option<usize>) {
        match self {
            DataSource::CSV(c) => c.batch_size(),
        }
    }

    fn request(&self, default_batch_size: usize) -> (r: ReadRequest) {
        match self {
            DataSource::CSV(c) => c.request(default_batch_size),
        }
    }

    fn fetch<P>(
        &mut self,
        default_batch_size: usize,
        exchange: LayoutContract,
        read: Result<Frame<P>, String>,
    ) -> (r: FetchOutcome<P>) {
        match self {
            DataSource::CSV(c) => c.read_next(default_batch_size, exchange, read),
        }
    }
}

} // verus!
