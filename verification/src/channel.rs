//! The bounded first-in-first-out channel between the multiplexer and the
//! consumer.

use crate::outcome::{ConfigurationError, StreamItem};
use std::collections::VecDeque;
use vstd::prelude::*;

verus! {

/// What a channel is: its items in order of arrival, its capacity, whether
/// the producer has completed and whether the consumer has let go.
pub struct ChannelState<P> {
    pub queue: Seq<StreamItem<P>>,
    pub capacity: nat,
    /// The producer has completed: nothing more will be sent.
    pub finished: bool,
    /// The consumer has closed its side: nothing more will be received.
    pub closed: bool,
}

impl<P> ChannelState<P> {
    /// Never more items than the capacity, which is at least 1; a channel
    /// that the consumer closed holds none.
    pub open spec fn wf(self) -> bool {
        &&& self.capacity >= 1
        &&& self.queue.len() <= self.capacity
        &&& self.closed ==> self.queue.len() == 0
    }

    pub open spec fn fresh(capacity: nat) -> ChannelState<P> {
        ChannelState { queue: Seq::empty(), capacity, finished: false, closed: false }
    }

    pub open spec fn is_full(self) -> bool {
        self.queue.len() >= self.capacity
    }

    /// The channel takes no more items: either side is done with it.
    pub open spec fn is_shut(self) -> bool {
        self.closed || self.finished
    }

    /// The consumer has nothing more to expect.
    pub open spec fn is_drained(self) -> bool {
        self.queue.len() == 0 && self.is_shut()
    }

    /// The channel after an attempt to send: the item is appended where the
    /// channel is open and has room, else nothing changes.
    pub open spec fn send(self, item: StreamItem<P>) -> ChannelState<P> {
        if self.is_shut() || self.is_full() {
            self
        } else {
            ChannelState { queue: self.queue.push(item), ..self }
        }
    }

    /// The channel after an attempt to receive: the oldest item is gone, if
    /// there was one.
    pub open spec fn recv(self) -> ChannelState<P> {
        if self.queue.len() > 0 {
            ChannelState { queue: self.queue.drop_first(), ..self }
        } else {
            self
        }
    }

    pub open spec fn finish(self) -> ChannelState<P> {
        ChannelState { finished: true, ..self }
    }

    /// The channel after the consumer let go: closed, and what was buffered
    /// is released.
    pub open spec fn close(self) -> ChannelState<P> {
        ChannelState { queue: Seq::empty(), closed: true, ..self }
    }
}

/// How an attempt to send ended. The item comes back where it was not taken.
#[derive(Debug, PartialEq, Eq)]
pub enum SendOutcome<P> {
    Sent,
    /// No room: the producer has to wait and try again.
    Full(StreamItem<P>),
    /// The channel takes no more items.
    Shut(StreamItem<P>),
}

/// How an attempt to receive ended.
#[derive(Debug, PartialEq, Eq)]
pub enum RecvOutcome<P> {
    Item(StreamItem<P>),
    /// Nothing yet: the consumer has to wait and try again.
    Empty,
    /// Nothing is buffered and nothing will come.
    Ended,
}

#[derive(Debug)]
pub struct Channel<P> {
    queue: VecDeque<StreamItem<P>>,
    capacity: usize,
    finished: bool,
    closed: bool,
}

impl<P> Channel<P> {
    pub closed spec fn view(&self) -> ChannelState<P> {
        ChannelState {
            queue: self.queue@,
            capacity: self.capacity as nat,
            finished: self.finished,
            closed: self.closed,
        }
    }

    pub open spec fn wf(&self) -> bool {
        self@.wf()
    }

    /// An open, empty channel of the given capacity; none of capacity 0.
    pub fn new(capacity: usize) -> (r: Result<Channel<P>, ConfigurationError>)
        ensures
            match r {
                Ok(channel) => capacity >= 1 && channel.wf() && channel@ == ChannelState::<P>::fresh(
                    capacity as nat,
                ),
                Err(e) => capacity == 0 && e == ConfigurationError::ZeroCapacity,
            },
    {
        if capacity == 0 {
            Err(ConfigurationError::ZeroCapacity)
        } else {
            Ok(Channel { queue: VecDeque::new(), capacity, finished: false, closed: false })
        }
    }

    pub fn capacity(&self) -> (r: usize)
        ensures
            r == self@.capacity,
    {
        self.capacity
    }

    /// Number of items buffered.
    pub fn len(&self) -> (r: usize)
        ensures
            r == self@.queue.len(),
    {
        self.queue.len()
    }

    pub fn is_full(&self) -> (r: bool)
        ensures
            r == self@.is_full(),
    {
        self.queue.len() >= self.capacity
    }

    pub fn is_finished(&self) -> (r: bool)
        ensures
            r == self@.finished,
    {
        self.finished
    }

    pub fn is_closed(&self) -> (r: bool)
        ensures
            r == self@.closed,
    {
        self.closed
    }

    /// Appends `item` if the channel is open and has room. A full channel
    /// drops nothing: the item comes back and the channel is as it was.
    pub fn try_send(&mut self, item: StreamItem<P>) -> (r: SendOutcome<P>)
        requires
            old(self).wf(),
        ensures
            final(self).wf(),
            final(self)@ == old(self)@.send(item),
            r == if old(self)@.is_shut() {
                SendOutcome::Shut(item)
            } else if old(self)@.is_full() {
                SendOutcome::Full(item)
            } else {
                SendOutcome::Sent
            },
    {
        if self.closed || self.finished {
            SendOutcome::Shut(item)
        } else if self.queue.len() >= self.capacity {
            SendOutcome::Full(item)
        } else {
            self.queue.push_back(item);
            SendOutcome::Sent
        }
    }

    /// Takes the oldest item out. What was sent before the producer completed
    /// is still handed out after it; the end is reported only on an empty
    /// channel.
    pub fn try_recv(&mut self) -> (r: RecvOutcome<P>)
        requires
            old(self).wf(),
        ensures
            final(self).wf(),
            final(self)@ == old(self)@.recv(),
            r == if old(self)@.queue.len() > 0 {
                RecvOutcome::Item(old(self)@.queue[0])
            } else if old(self)@.is_shut() {
                RecvOutcome::Ended
            } else {
                RecvOutcome::Empty
            },
    {
        match self.queue.pop_front() {
            Some(item) => RecvOutcome::Item(item),
            None => {
                if self.closed || self.finished {
                    RecvOutcome::Ended
                } else {
                    RecvOutcome::Empty
                }
            },
        }
    }

    /// The producer completes: what is buffered stays to be received.
    pub fn finish(&mut self)
        requires
            old(self).wf(),
        ensures
            final(self).wf(),
            final(self)@ == old(self)@.finish(),
    {
        self.finished = true;
    }

    /// The consumer lets go of its side. Doing so again changes nothing.
    pub fn close(&mut self)
        requires
            old(self).wf(),
        ensures
            final(self).wf(),
            final(self)@ == old(self)@.close(),
    {
        self.queue.clear();
        self.closed = true;
    }
}

} // verus!
