//! Federated streaming of tabular batches: many sources are read side by
//! side, their batches are merged into one bounded channel in the order in
//! which they become ready, and a single consumer pulls them out in the
//! exchange format.
//!
//! The library decides and keeps the books; it performs no reading and no
//! waiting itself. The code that drives it asks `next_action` what to do,
//! does it, and reports back with `on_fetched`; the consumer calls `pull`.

use crate::batch::{Frame, LayoutContract};
use crate::channel::{Channel, ChannelState, RecvOutcome};
use crate::exchange::{conversion_error, describes, shares_storage, to_exchange, ExchangeBatch};
use crate::generator::{handle_batch, Generator, GeneratorState};
use crate::multiplexer::{Action, Multiplexer, MuxState};
use crate::outcome::{
    ConfigurationError, Failure, FailureCause, Payload, ProtocolViolation, StreamItem,
};
use crate::source::{DataSource, Source};
use vstd::prelude::*;

pub mod batch;
pub mod channel;
pub mod exchange;
pub mod generator;
pub mod laws;
pub mod multiplexer;
pub mod outcome;
pub mod source;

verus! {

/// Capacity of the channel where none is configured.
pub const DEFAULT_CAPACITY: usize = 100;

/// What one pull hands to the consumer.
#[derive(Debug, PartialEq, Eq)]
pub enum Pulled<P> {
    /// A batch of the source at index `origin`, named `source` and reading
    /// `location`: its description in the exchange format, and the owner of
    /// its buffers.
    Batch { origin: usize, source: &'static str, location: String, batch: ExchangeBatch, owner: P },
    /// The failure of the source at index `origin`. Other sources go on.
    Failure { origin: usize, failure: Failure },
    /// Nothing yet: wait until the producer has sent, then pull again.
    Pending,
    /// The end marker: every source has ended and nothing is buffered, or the
    /// consumer has let go.
    End,
    /// The streamer was halted by a breach of its rules.
    Halted(ProtocolViolation),
}

/// What a streamer is: multiplexer, channel, the layout contract of the
/// exchange format, and the breach that halted it, if one did.
pub struct StreamState<P> {
    pub mux: MuxState<P>,
    pub channel: ChannelState<P>,
    pub exchange: LayoutContract,
    pub halted: Option<ProtocolViolation>,
}

/// The capacity in force: the configured one, else the default.
pub open spec fn capacity_or_default(capacity: Option<usize>) -> usize {
    match capacity {
        Some(c) => c,
        None => DEFAULT_CAPACITY,
    }
}

/// `pulled` is what the consumer gets for `item`: a failure as it is; a batch
/// described in the exchange format over its own buffers, or, where it cannot
/// be described, a failure that names the batch's source and location.
pub open spec fn hands_out<P>(item: StreamItem<P>, exchange: LayoutContract, pulled: Pulled<P>) -> bool {
    match item.payload {
        Payload::Failure(f) => pulled == (Pulled::<P>::Failure { origin: item.origin, failure: f }),
        Payload::Batch(b) => match conversion_error(b, exchange) {
            Some(e) => pulled == (Pulled::<P>::Failure {
                origin: item.origin,
                failure: Failure {
                    source: b.source,
                    location: b.location,
                    cause: FailureCause::Conversion(e),
                },
            }),
            None => {
                &&& pulled matches Pulled::Batch { origin, source, location, batch, owner }
                &&& origin == item.origin
                &&& source == b.source
                &&& location == b.location
                &&& owner == b.owner
                &&& describes(batch, b)
                &&& shares_storage(batch, b)
            },
        },
    }
}

impl<P> StreamState<P> {
    /// The channel is well-formed, and there are no more sources than an
    /// index can name.
    pub open spec fn wf(self) -> bool {
        &&& self.channel.wf()
        &&& self.mux.generators.len() <= usize::MAX
    }

    /// The streamer right after construction: every generator ready, nothing
    /// waiting, the channel open and empty.
    pub open spec fn initial(
        sources: Seq<DataSource>,
        batch_size: usize,
        capacity: nat,
        exchange: LayoutContract,
    ) -> StreamState<P> {
        StreamState {
            mux: MuxState {
                generators: Seq::new(
                    sources.len(),
                    |i: int| GeneratorState::fresh(sources[i].state(), batch_size, exchange),
                ),
                pending: None,
            },
            channel: ChannelState::fresh(capacity),
            exchange,
            halted: None,
        }
    }

    /// The action that the next step asks for. A halted streamer asks for
    /// nothing but to stop.
    pub open spec fn action(self) -> Action {
        if self.halted is Some {
            Action::Stop
        } else {
            self.mux.poll(self.channel).action
        }
    }

    /// The streamer after that step.
    pub open spec fn step(self) -> StreamState<P> {
        if self.halted is Some {
            self
        } else {
            StreamState {
                mux: self.mux.poll(self.channel).mux,
                channel: self.mux.poll(self.channel).channel,
                ..self
            }
        }
    }

    /// Everything cancelled, the channel closed and emptied.
    pub open spec fn close(self) -> StreamState<P> {
        StreamState { mux: self.mux.cancel(), channel: self.channel.close(), ..self }
    }

    /// The breach that a completion for `source` commits, if any. On a
    /// halted streamer every completion repeats the breach that halted it.
    pub open spec fn breach(self, source: usize) -> Option<ProtocolViolation> {
        if self.halted is Some {
            self.halted
        } else {
            self.mux.violation(source)
        }
    }

    /// The streamer after the fetch of `source` completed with `read`. A
    /// breach halts it: everything is cancelled and the channel is closed.
    pub open spec fn fetched(self, source: usize, read: Result<Frame<P>, String>) -> StreamState<P> {
        if self.halted is Some {
            self
        } else if self.mux.violation(source) is Some {
            StreamState { halted: self.mux.violation(source), ..self.close() }
        } else {
            StreamState {
                mux: self.mux.deliver(self.channel, source, read).0,
                channel: self.mux.deliver(self.channel, source, read).1,
                ..self
            }
        }
    }

    /// The item that the next pull takes out of the channel, if it takes one.
    pub open spec fn head(self) -> Option<StreamItem<P>> {
        if self.halted is None && self.channel.queue.len() > 0 {
            Some(self.channel.queue[0])
        } else {
            None
        }
    }

    /// The streamer after a pull.
    pub open spec fn pulled(self) -> StreamState<P> {
        if self.halted is Some {
            self
        } else {
            StreamState { channel: self.channel.recv(), ..self }
        }
    }

    /// The next pull returns the end marker.
    pub open spec fn at_end(self) -> bool {
        self.halted is None && self.channel.is_drained()
    }
}

/// The streamer: the background work's bookkeeping and the consumer's
/// handle in one.
#[derive(Debug)]
pub struct FederatedStreamer<P> {
    mux: Multiplexer<P>,
    channel: Channel<P>,
    exchange: LayoutContract,
    halted: Option<ProtocolViolation>,
}

impl<P> FederatedStreamer<P> {
    pub closed spec fn view(&self) -> StreamState<P> {
        StreamState {
            mux: self.mux@,
            channel: self.channel@,
            exchange: self.exchange,
            halted: self.halted,
        }
    }

    pub open spec fn wf(&self) -> bool {
        self@.wf()
    }

    /// Makes a streamer over `sources`. `batch_size` is for the sources that
    /// have none of their own; `capacity` is that of the channel, 100 where
    /// none is given; `exchange` is the layout contract of the exchange
    /// format. Fails on a capacity of 0, and on nothing else.
    pub fn new(
        sources: Vec<DataSource>,
        batch_size: usize,
        capacity: Option<usize>,
        exchange: LayoutContract,
    ) -> (r: Result<FederatedStreamer<P>, ConfigurationError>)
        ensures
            match r {
                Ok(streamer) => {
                    &&& capacity != Some(0usize)
                    &&& streamer.wf()
                    &&& streamer@ == StreamState::<P>::initial(
                        sources@,
                        batch_size,
                        capacity_or_default(capacity) as nat,
                        exchange,
                    )
                },
                Err(e) => capacity == Some(0usize) && e == ConfigurationError::ZeroCapacity,
            },
    {
        let channel = match Channel::new(
            match capacity {
                Some(c) => c,
                None => DEFAULT_CAPACITY,
            },
        ) {
            Ok(channel) => channel,
            Err(e) => {
                return Err(e);
            },
        };
        let ghost initial = sources@;
        let mut generators: Vec<Generator> = Vec::new();
        for source in it: sources
            invariant
                it.seq() == initial,
                generators@.len() == it.index(),
                forall|j: int|
                    0 <= j < generators@.len() ==> (#[trigger] generators@[j])@
                        == GeneratorState::fresh(initial[j].state(), batch_size, exchange),
        {
            generators.push(handle_batch(source, batch_size, exchange));
        }
        let mux = Multiplexer::new(generators);
        let streamer = FederatedStreamer { mux, channel, exchange, halted: None };
        proof {
            streamer.mux.lemma_indexable();
        }
        assert(streamer@.mux.generators =~= StreamState::<P>::initial(
            initial,
            batch_size,
            capacity_or_default(capacity) as nat,
            exchange,
        ).mux.generators);
        Ok(streamer)
    }

    /// Number of sources.
    pub fn source_count(&self) -> (r: usize)
        ensures
            r == self@.mux.generators.len(),
    {
        self.mux.len()
    }

    /// Number of items buffered in the channel.
    pub fn buffered(&self) -> (r: usize)
        ensures
            r == self@.channel.queue.len(),
    {
        self.channel.len()
    }

    pub fn capacity(&self) -> (r: usize)
        ensures
            r == self@.channel.capacity,
    {
        self.channel.capacity()
    }

    pub fn halted(&self) -> (r: Option<ProtocolViolation>)
        ensures
            r == self@.halted,
    {
        self.halted
    }

    /// One step of the background work: says what to do next.
    pub fn next_action(&mut self) -> (action: Action)
        requires
            old(self).wf(),
        ensures
            final(self).wf(),
            action == old(self)@.action(),
            final(self)@ == old(self)@.step(),
    {
        if self.halted.is_some() {
            return Action::Stop;
        }
        let action = self.mux.poll(&mut self.channel);
        proof {
            self.mux.lemma_indexable();
        }
        action
    }

    /// Reports that the fetch of `source` has completed with `read`. A
    /// report that breaks a rule halts the streamer for good and is answered
    /// with the breach, as is every report after it.
    pub fn on_fetched(&mut self, source: usize, read: Result<Frame<P>, String>) -> (r: Result<
        (),
        ProtocolViolation,
    >)
        requires
            old(self).wf(),
        ensures
            final(self).wf(),
            final(self)@ == old(self)@.fetched(source, read),
            match r {
                Ok(_) => old(self)@.breach(source) is None,
                Err(v) => old(self)@.breach(source) == Some(v),
            },
    {
        match self.halted {
            Some(v) => {
                return Err(v);
            },
            None => {},
        }
        let delivered = self.mux.deliver(&mut self.channel, source, read);
        match delivered {
            Ok(_) => {},
            Err(v) => {
                self.mux.cancel();
                self.channel.close();
                self.halted = Some(v);
            },
        }
        proof {
            self.mux.lemma_indexable();
        }
        delivered
    }

    /// Pulls the next item. After the end marker every further pull returns
    /// the end marker again.
    pub fn pull(&mut self) -> (r: Pulled<P>)
        requires
            old(self).wf(),
        ensures
            final(self).wf(),
            final(self)@ == old(self)@.pulled(),
            match old(self)@.halted {
                Some(v) => r == Pulled::<P>::Halted(v),
                None => match old(self)@.head() {
                    Some(item) => hands_out(item, old(self)@.exchange, r),
                    None => r == if old(self)@.at_end() {
                        Pulled::<P>::End
                    } else {
                        Pulled::<P>::Pending
                    },
                },
            },
    {
        match self.halted {
            Some(v) => {
                return Pulled::Halted(v);
            },
            None => {},
        }
        match self.channel.try_recv() {
            RecvOutcome::Ended => Pulled::End,
            RecvOutcome::Empty => Pulled::Pending,
            RecvOutcome::Item(item) => {
                let origin = item.origin;
                match item.payload {
                    Payload::Failure(failure) => Pulled::Failure { origin, failure },
                    Payload::Batch(b) => match to_exchange(&b, &self.exchange) {
                        Ok(batch) => Pulled::Batch {
                            origin,
                            source: b.source,
                            location: b.location,
                            batch,
                            owner: b.owner,
                        },
                        Err(e) => Pulled::Failure {
                            origin,
                            failure: Failure {
                                source: b.source,
                                location: b.location,
                                cause: FailureCause::Conversion(e),
                            },
                        },
                    },
                }
            },
        }
    }

    /// The consumer lets go: the channel is closed and emptied, nothing new
    /// is started, and the fetches already in flight are still awaited and
    /// completed.
    pub fn close(&mut self)
        requires
            old(self).wf(),
        ensures
            final(self).wf(),
            final(self)@ == old(self)@.close(),
    {
        self.mux.cancel();
        self.channel.close();
        proof {
            self.mux.lemma_indexable();
        }
    }
}

} // verus!
