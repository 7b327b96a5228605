//! The multiplexer: merges the generators of all sources into the channel,
//! in the order in which their fetches complete.

use crate::batch::Frame;
use crate::channel::{Channel, ChannelState, SendOutcome};
use crate::generator::{Emission, Generator, GeneratorState, Phase};
use crate::outcome::{Payload, ProtocolViolation, StreamItem};
use crate::source::csv::ReadRequest;
use vstd::prelude::*;

verus! {

/// What the multiplexer asks of the code that drives it.
#[derive(Clone, Copy, Debug, PartialEq, Eq, Structural)]
pub enum Action {
    /// Read this window for the source at this index, off the cooperative
    /// scheduler, and report the result when it is there.
    Fetch { source: usize, request: ReadRequest },
    /// Wait until one of the fetches in flight completes.
    AwaitFetch,
    /// The channel is full: wait until the consumer pulls or lets go.
    AwaitSpace,
    /// All work is done.
    Stop,
}

/// What a multiplexer is: its generators, by source index, and the item
/// that waits for room in the channel, if one does.
pub struct MuxState<P> {
    pub generators: Seq<GeneratorState>,
    pub pending: Option<StreamItem<P>>,
}

/// Index of the first generator from `from` on that is ready to fetch.
pub open spec fn first_idle(generators: Seq<GeneratorState>, from: int) -> Option<int>
    decreases generators.len() - from,
{
    if from < 0 || from >= generators.len() {
        None
    } else if generators[from].phase == Phase::Idle {
        Some(from)
    } else {
        first_idle(generators, from + 1)
    }
}

/// Some generator has a fetch in flight.
pub open spec fn any_in_flight(generators: Seq<GeneratorState>) -> bool {
    exists|i: int| 0 <= i < generators.len() && (#[trigger] generators[i]).in_flight()
}

/// A multiplexer and a channel after a step, and what the step asks for.
pub struct Polled<P> {
    pub mux: MuxState<P>,
    pub channel: ChannelState<P>,
    pub action: Action,
}

impl<P> MuxState<P> {
    /// Every generator cancelled, and the waiting item dropped.
    pub open spec fn cancel(self) -> MuxState<P> {
        MuxState {
            generators: Seq::new(self.generators.len(), |i: int| self.generators[i].cancel()),
            pending: None,
        }
    }

    /// Offers the waiting item to the channel: it stays waiting while the
    /// channel is full, moves in where there is room, and is dropped where
    /// the channel takes no more.
    pub open spec fn flush(self, channel: ChannelState<P>) -> (MuxState<P>, ChannelState<P>) {
        match self.pending {
            None => (self, channel),
            Some(item) => if channel.is_shut() {
                (MuxState { pending: None, ..self }, channel)
            } else if channel.is_full() {
                (self, channel)
            } else {
                (MuxState { pending: None, ..self }, channel.send(item))
            },
        }
    }

    /// One step of the multiplexer. With the consumer gone, everything is
    /// cancelled and only fetches in flight are awaited. Else the waiting
    /// item goes first; then the first idle generator starts a fetch; then
    /// fetches in flight are awaited; and when every generator has finished,
    /// the producer completes.
    pub open spec fn poll(self, channel: ChannelState<P>) -> Polled<P> {
        if channel.closed {
            let mux = self.cancel();
            Polled {
                mux,
                channel,
                action: if any_in_flight(mux.generators) {
                    Action::AwaitFetch
                } else {
                    Action::Stop
                },
            }
        } else {
            let (mux, ch) = self.flush(channel);
            if mux.pending is Some {
                Polled { mux, channel: ch, action: Action::AwaitSpace }
            } else {
                match first_idle(mux.generators, 0) {
                    Some(i) => Polled {
                        mux: MuxState {
                            generators: mux.generators.update(i, mux.generators[i].start()),
                            ..mux
                        },
                        channel: ch,
                        action: Action::Fetch {
                            source: i as usize,
                            request: mux.generators[i].next_request().unwrap(),
                        },
                    },
                    None => if any_in_flight(mux.generators) {
                        Polled { mux, channel: ch, action: Action::AwaitFetch }
                    } else {
                        Polled { mux, channel: ch.finish(), action: Action::Stop }
                    },
                }
            }
        }
    }

    /// The rule that completing a fetch for `source` would break, if any.
    pub open spec fn violation(self, source: usize) -> Option<ProtocolViolation> {
        if source >= self.generators.len() {
            Some(ProtocolViolation::UnknownSource { source })
        } else if !self.generators[source as int].in_flight() {
            Some(ProtocolViolation::NotFetching { source })
        } else if self.pending is Some {
            Some(ProtocolViolation::SendInProgress)
        } else {
            None
        }
    }

    /// The item that the completion of the fetch of `source` forwards, if it
    /// forwards one.
    pub open spec fn forwarded(self, source: usize, read: Result<Frame<P>, String>) -> Option<
        StreamItem<P>,
    > {
        if self.violation(source) is Some {
            None
        } else {
            match self.generators[source as int].emission(read).unwrap() {
                Emission::Batch(b) => Some(StreamItem { origin: source, payload: Payload::Batch(b) }),
                Emission::Failure(f) => Some(
                    StreamItem { origin: source, payload: Payload::Failure(f) },
                ),
                Emission::End => None,
            }
        }
    }

    /// Multiplexer and channel after the fetch of `source` completed with
    /// `read`: the generator moves on, and what it emitted is offered to the
    /// channel. A completion that breaks a rule changes nothing.
    pub open spec fn deliver(
        self,
        channel: ChannelState<P>,
        source: usize,
        read: Result<Frame<P>, String>,
    ) -> (MuxState<P>, ChannelState<P>) {
        if self.violation(source) is Some {
            (self, channel)
        } else {
            MuxState {
                generators: self.generators.update(
                    source as int,
                    self.generators[source as int].complete(read),
                ),
                pending: self.forwarded(source, read),
            }.flush(channel)
        }
    }
}

#[derive(Debug)]
pub struct Multiplexer<P> {
    generators: Vec<Generator>,
    pending: Option<StreamItem<P>>,
}

impl<P> Multiplexer<P> {
    pub closed spec fn view(&self) -> MuxState<P> {
        MuxState {
            generators: Seq::new(self.generators@.len(), |i: int| self.generators@[i]@),
            pending: self.pending,
        }
    }

    /// There are no more generators than an index can name.
    pub proof fn lemma_indexable(&self)
        ensures
            self@.generators.len() <= usize::MAX,
    {
        assert(self@.generators.len() == self.generators.len());
    }

    /// A multiplexer over these generators, with nothing waiting.
    pub fn new(generators: Vec<Generator>) -> (r: Multiplexer<P>)
        ensures
            r@.pending is None,
            r@.generators == Seq::new(generators@.len(), |i: int| generators@[i]@),
    {
        Multiplexer { generators, pending: None }
    }

    /// Number of sources.
    pub fn len(&self) -> (r: usize)
        ensures
            r == self@.generators.len(),
    {
        self.generators.len()
    }

    pub fn has_pending(&self) -> (r: bool)
        ensures
            r == self@.pending is Some,
    {
        self.pending.is_some()
    }

    /// Phase of the generator of `source`.
    pub fn phase(&self, source: usize) -> (r: Option<Phase>)
        ensures
            r == if source < self@.generators.len() {
                Some(self@.generators[source as int].phase)
            } else {
                None
            },
    {
        if source < self.generators.len() {
            Some(self.generators[source].phase())
        } else {
            None
        }
    }

    fn find_idle(&self) -> (r: Option<usize>)
        ensures
            match r {
                Some(i) => {
                    &&& first_idle(self@.generators, 0) == Some(i as int)
                    &&& i < self@.generators.len()
                    &&& self@.generators[i as int].phase == Phase::Idle
                },
                None => first_idle(self@.generators, 0) is None,
            },
    {
        let mut i: usize = 0;
        while i < self.generators.len()
            invariant
                i <= self.generators.len(),
                first_idle(self@.generators, 0) == first_idle(self@.generators, i as int),
            decreases self.generators.len() - i,
        {
            if self.generators[i].phase() == Phase::Idle {
                return Some(i);
            }
            i += 1;
        }
        None
    }

    fn has_in_flight(&self) -> (r: bool)
        ensures
            r == any_in_flight(self@.generators),
    {
        let mut i: usize = 0;
        while i < self.generators.len()
            invariant
                i <= self.generators.len(),
                forall|j: int| 0 <= j < i ==> !(#[trigger] self@.generators[j]).in_flight(),
            decreases self.generators.len() - i,
        {
            let phase = self.generators[i].phase();
            if phase == Phase::Fetching || phase == Phase::Draining {
                assert(self@.generators[i as int].in_flight());
                return true;
            }
            i += 1;
        }
        false
    }

    /// Cancels every generator and drops the waiting item.
    pub fn cancel(&mut self)
        ensures
            final(self)@ == old(self)@.cancel(),
    {
        self.pending = None;
        let mut i: usize = 0;
        while i < self.generators.len()
            invariant
                i <= self.generators.len(),
                self.generators@.len() == old(self).generators@.len(),
                self.pending is None,
                forall|j: int| 0 <= j < i ==> (#[trigger] self.generators@[j])@ == old(
                    self,
                ).generators@[j]@.cancel(),
                forall|j: int|
                    i <= j < self.generators@.len() ==> (#[trigger] self.generators@[j])
                        == old(self).generators@[j],
            decreases self.generators.len() - i,
        {
            self.generators[i].cancel();
            i += 1;
        }
        assert(self@.generators =~= old(self)@.cancel().generators);
    }

    fn flush(&mut self, channel: &mut Channel<P>)
        requires
            old(channel).wf(),
        ensures
            final(channel).wf(),
            (final(self)@, final(channel)@) == old(self)@.flush(old(channel)@),
    {
        match self.pending.take() {
            None => {},
            Some(item) => {
                match channel.try_send(item) {
                    SendOutcome::Sent => {},
                    SendOutcome::Full(item) => {
                        self.pending = Some(item);
                    },
                    SendOutcome::Shut(_) => {},
                }
            },
        }
    }

    /// One step: says what to do next. See `MuxState::poll`.
    pub fn poll(&mut self, channel: &mut Channel<P>) -> (action: Action)
        requires
            old(channel).wf(),
        ensures
            final(channel).wf(),
            (Polled { mux: final(self)@, channel: final(channel)@, action }) == old(self)@.poll(
                old(channel)@,
            ),
    {
        if channel.is_closed() {
            self.cancel();
            return if self.has_in_flight() {
                Action::AwaitFetch
            } else {
                Action::Stop
            };
        }
        self.flush(channel);
        if self.pending.is_some() {
            return Action::AwaitSpace;
        }
        match self.find_idle() {
            Some(i) => {
                let ghost before = self@;
                let started = self.generators[i].start();
                assert(self@.generators =~= before.generators.update(
                    i as int,
                    before.generators[i as int].start(),
                ));
                match started {
                    Some(request) => Action::Fetch { source: i, request },
                    None => Action::AwaitFetch,
                }
            },
            None => {
                if self.has_in_flight() {
                    Action::AwaitFetch
                } else {
                    channel.finish();
                    Action::Stop
                }
            },
        }
    }

    /// Takes the completion of the fetch of `source`. What the generator
    /// emits goes to the channel, or waits for room there. Refuses, and
    /// changes nothing, where `source` has no fetch in flight or an earlier
    /// item still waits.
    pub fn deliver(
        &mut self,
        channel: &mut Channel<P>,
        source: usize,
        read: Result<Frame<P>, String>,
    ) -> (r: Result<(), ProtocolViolation>)
        requires
            old(channel).wf(),
        ensures
            final(channel).wf(),
            (final(self)@, final(channel)@) == old(self)@.deliver(old(channel)@, source, read),
            match r {
                Ok(_) => old(self)@.violation(source) is None,
                Err(v) => old(self)@.violation(source) == Some(v),
            },
    {
        if source >= self.generators.len() {
            return Err(ProtocolViolation::UnknownSource { source });
        }
        let phase = self.generators[source].phase();
        if phase != Phase::Fetching && phase != Phase::Draining {
            return Err(ProtocolViolation::NotFetching { source });
        }
        if self.pending.is_some() {
            return Err(ProtocolViolation::SendInProgress);
        }
        let ghost before = self@;
        let emitted = self.generators[source].complete(read);
        assert(self@.generators =~= before.generators.update(
            source as int,
            before.generators[source as int].complete(read),
        ));
        match emitted {
            Some(Emission::Batch(b)) => {
                self.pending = Some(StreamItem { origin: source, payload: Payload::Batch(b) });
            },
            Some(Emission::Failure(f)) => {
                self.pending = Some(StreamItem { origin: source, payload: Payload::Failure(f) });
            },
            _ => {},
        }
        self.flush(channel);
        Ok(())
    }
}

} // verus!
