//! The per-source generator: one source, pulled fetch by fetch until it ends
//! or fails.

use crate::batch::{Batch, Frame, LayoutContract};
use crate::outcome::{Failure, FetchOutcome};
use crate::source::csv::{ReadRequest, SourceState};
use crate::source::{DataSource, Source};
use vstd::prelude::*;

verus! {

/// Where a generator stands.
#[derive(Clone, Copy, Debug, PartialEq, Eq, Structural)]
pub enum Phase {
    /// Ready for the next fetch.
    Idle,
    /// A fetch is in flight.
    Fetching,
    /// Cancelled while a fetch was in flight: that fetch is awaited and
    /// completed, cursor included; only its result is dropped.
    Draining,
    /// The terminal item was emitted, or the generator was cancelled.
    Finished,
}

/// What a generator emits when a fetch completes.
#[derive(Debug, PartialEq, Eq)]
pub enum Emission<P> {
    Batch(Batch<P>),
    /// The terminal item of a source that failed.
    Failure(Failure),
    /// Nothing: the source is at its end, or the fetch was cancelled in
    /// flight and its result is dropped.
    End,
}

/// What a generator is: its source, the batch size for sources without one
/// of their own, the layout contract of the exchange format that its
/// source's batches have to fit, and its phase.
pub struct GeneratorState {
    pub source: SourceState,
    pub default_batch_size: usize,
    pub exchange: LayoutContract,
    pub phase: Phase,
}

/// What a generator emits for the outcome of a fetch: the batch or the
/// failure as they are, nothing at the end.
pub open spec fn emitted_for<P>(outcome: FetchOutcome<P>) -> Emission<P> {
    match outcome {
        FetchOutcome::Batch(b) => Emission::Batch(b),
        FetchOutcome::Failure(f) => Emission::Failure(f),
        FetchOutcome::EndOfStream => Emission::End,
    }
}

impl GeneratorState {
    pub open spec fn fresh(
        source: SourceState,
        default_batch_size: usize,
        exchange: LayoutContract,
    ) -> GeneratorState {
        GeneratorState { source, default_batch_size, exchange, phase: Phase::Idle }
    }

    /// A fetch is in flight, wanted or not.
    pub open spec fn in_flight(self) -> bool {
        self.phase == Phase::Fetching || self.phase == Phase::Draining
    }

    /// The window to read, where a fetch may start; none while one is in
    /// flight and none after the terminal item.
    pub open spec fn next_request(self) -> Option<ReadRequest> {
        if self.phase == Phase::Idle {
            Some(self.source.request(self.default_batch_size))
        } else {
            None
        }
    }

    pub open spec fn start(self) -> GeneratorState {
        if self.phase == Phase::Idle {
            GeneratorState { phase: Phase::Fetching, ..self }
        } else {
            self
        }
    }

    /// The outcome of the source's fetch that `read` completes.
    pub open spec fn outcome<P>(self, read: Result<Frame<P>, String>) -> FetchOutcome<P> {
        self.source.outcome(self.default_batch_size, self.exchange, read)
    }

    /// What the completion of the fetch in flight emits; `None` where no
    /// fetch is in flight. The result of a fetch that was cancelled in
    /// flight is dropped.
    pub open spec fn emission<P>(self, read: Result<Frame<P>, String>) -> Option<Emission<P>> {
        match self.phase {
            Phase::Fetching => Some(emitted_for(self.outcome(read))),
            Phase::Draining => Some(Emission::End),
            _ => None,
        }
    }

    /// The generator after that completion. The source's fetch is completed
    /// in either case, cancelled or not: the source is as that fetch leaves
    /// it. The generator is ready again after a batch, and finished after
    /// the end, a failure or a cancelled fetch.
    pub open spec fn complete<P>(self, read: Result<Frame<P>, String>) -> GeneratorState {
        match self.phase {
            Phase::Fetching => GeneratorState {
                source: self.source.after(self.default_batch_size, self.exchange, read),
                phase: if self.outcome(read) is Batch {
                    Phase::Idle
                } else {
                    Phase::Finished
                },
                ..self
            },
            Phase::Draining => GeneratorState {
                source: self.source.after(self.default_batch_size, self.exchange, read),
                phase: Phase::Finished,
                ..self
            },
            _ => self,
        }
    }

    /// The generator after cancellation: a fetch in flight is let to
    /// complete, nothing new starts.
    pub open spec fn cancel(self) -> GeneratorState {
        match self.phase {
            Phase::Idle => GeneratorState { phase: Phase::Finished, ..self },
            Phase::Fetching => GeneratorState { phase: Phase::Draining, ..self },
            _ => self,
        }
    }
}

#[derive(Debug)]
pub struct Generator {
    source: DataSource,
    default_batch_size: usize,
    exchange: LayoutContract,
    phase: Phase,
}

/// Wraps `source` into its generator, ready for the first fetch.
/// `default_batch_size` is for a source without a batch size of its own;
/// `exchange` is the layout contract of the exchange format.
pub fn handle_batch(source: DataSource, default_batch_size: usize, exchange: LayoutContract) -> (r:
    Generator)
    ensures
        r@ == GeneratorState::fresh(source.state(), default_batch_size, exchange),
{
    Generator { source, default_batch_size, exchange, phase: Phase::Idle }
}

impl Generator {
    pub closed spec fn view(&self) -> GeneratorState {
        GeneratorState {
            source: self.source.state(),
            default_batch_size: self.default_batch_size,
            exchange: self.exchange,
            phase: self.phase,
        }
    }

    pub fn phase(&self) -> (r: Phase)
        ensures
            r == self@.phase,
    {
        self.phase
    }

    pub fn source(&self) -> (r: &DataSource)
        ensures
            r.state() == self@.source,
    {
        &self.source
    }

    /// Starts the next fetch and says which window to read. Starts nothing
    /// while a fetch is in flight, nor after the terminal item.
    pub fn start(&mut self) -> (r: Option<ReadRequest>)
        ensures
            r == old(self)@.next_request(),
            final(self)@ == old(self)@.start(),
    {
        match self.phase {
            Phase::Idle => {
                self.phase = Phase::Fetching;
                Some(self.source.request(self.default_batch_size))
            },
            _ => None,
        }
    }

    /// Completes the fetch in flight with what was read and says what to
    /// emit. A fetch that was cancelled in flight is completed like any
    /// other, and its result is dropped. `None`, and no change, where no
    /// fetch is in flight.
    pub fn complete<P>(&mut self, read: Result<Frame<P>, String>) -> (r: Option<Emission<P>>)
        ensures
            r == old(self)@.emission(read),
            final(self)@ == old(self)@.complete(read),
    {
        match self.phase {
            Phase::Fetching => {
                match self.source.fetch(self.default_batch_size, self.exchange, read) {
                    FetchOutcome::Batch(b) => {
                        self.phase = Phase::Idle;
                        Some(Emission::Batch(b))
                    },
                    FetchOutcome::Failure(f) => {
                        self.phase = Phase::Finished;
                        Some(Emission::Failure(f))
                    },
                    FetchOutcome::EndOfStream => {
                        self.phase = Phase::Finished;
                        Some(Emission::End)
                    },
                }
            },
            Phase::Draining => {
                let _ = self.source.fetch(self.default_batch_size, self.exchange, read);
                self.phase = Phase::Finished;
                Some(Emission::End)
            },
            _ => None,
        }
    }

    /// Cancels: nothing new starts; a fetch in flight is still to be
    /// completed.
    pub fn cancel(&mut self)
        ensures
            final(self)@ == old(self)@.cancel(),
    {
        match self.phase {
            Phase::Idle => {
                self.phase = Phase::Finished;
            },
            Phase::Fetching => {
                self.phase = Phase::Draining;
            },
            _ => {},
        }
    }
}

} // verus!
