//! What holds of every run of a streamer, whatever the sources deliver and
//! in whatever order their fetches complete.

use crate::batch::{Frame, LayoutContract};
use crate::batch::row_count;
use crate::exchange::{columns_error, conversion_error};
use crate::generator::{Emission, GeneratorState, Phase};
use crate::multiplexer::{any_in_flight, first_idle, Action};
use crate::outcome::{FetchOutcome, Payload, StreamItem};
use crate::source::csv::{limit_of, schema_of, SourceState};
use crate::source::DataSource;
use crate::{hands_out, Pulled, StreamState};
use vstd::prelude::*;

verus! {

/// The end of a stream is final: an exhausted source answers every fetch
/// with the end again, whatever was read, and stays as it is; and a fetch
/// that ends the stream leaves the source exhausted.
pub proof fn law_end_of_stream_is_final<P>(
    s: SourceState,
    default_batch_size: usize,
    exchange: LayoutContract,
    read: Result<Frame<P>, String>,
)
    ensures
        s.exhausted ==> s.outcome(default_batch_size, exchange, read) == FetchOutcome::<P>::EndOfStream && s.after(default_batch_size, exchange, read) == s,
        s.outcome(default_batch_size, exchange, read) is EndOfStream ==> s.after(default_batch_size, exchange, read).exhausted,
{
}

/// The cursor only advances after a successful fetch: it moves with a batch,
/// by the batch's rows, and with nothing else. A fetch that fails, for a
/// read error as for a batch that cannot be described in the exchange
/// format, leaves the whole source as it was. A batch is never empty, never
/// larger than asked for, has columns of one length, can be described in
/// the exchange format, and carries its source's name and location. Name,
/// location and batch size never change.
pub proof fn law_cursor_follows_batches<P>(
    s: SourceState,
    default_batch_size: usize,
    exchange: LayoutContract,
    read: Result<Frame<P>, String>,
)
    ensures
        match s.outcome(default_batch_size, exchange, read) {
            FetchOutcome::Batch(b) => {
                &&& s.after(default_batch_size, exchange, read).offset == s.offset + b.rows
                &&& 0 < b.rows <= limit_of(s.batch_size_or(default_batch_size))
                &&& b.is_rectangular()
                &&& conversion_error(b, exchange) is None
                &&& b.source == s.name
                &&& b.location == s.path
            },
            FetchOutcome::Failure(f) => {
                &&& s.after(default_batch_size, exchange, read) == s
                &&& f.source == s.name
                &&& f.location == s.path
            },
            FetchOutcome::EndOfStream => s.after(default_batch_size, exchange, read).offset == s.offset,
        },
        s.after(default_batch_size, exchange, read).name == s.name,
        s.after(default_batch_size, exchange, read).path == s.path,
        s.after(default_batch_size, exchange, read).batch_size == s.batch_size,
{
}

/// All batches of a source share one schema: the first batch fixes names
/// and types, every later batch has them, and nothing changes them.
pub proof fn law_schema_is_shared<P>(
    s: SourceState,
    default_batch_size: usize,
    exchange: LayoutContract,
    read: Result<Frame<P>, String>,
)
    ensures
        match s.outcome(default_batch_size, exchange, read) {
            FetchOutcome::Batch(b) => {
                &&& s.after(default_batch_size, exchange, read).schema == Some(schema_of(b.columns@))
                &&& s.schema is Some ==> s.schema == Some(schema_of(b.columns@))
            },
            _ => s.after(default_batch_size, exchange, read).schema == s.schema,
        },
{
}

/// A batch that cannot be described in the exchange format fails its fetch:
/// whatever was read under another layout contract, or holds a column that
/// has no description or does not fit it, is never delivered, and the
/// source stays as it was, cursor included.
pub proof fn law_conversion_failure_fails_the_fetch<P>(
    s: SourceState,
    default_batch_size: usize,
    exchange: LayoutContract,
    frame: Frame<P>,
)
    requires
        columns_error(frame.layout, frame.columns@, row_count(frame.columns@), exchange) is Some,
    ensures
        !(s.outcome(default_batch_size, exchange, Ok(frame)) is Batch),
        s.outcome(default_batch_size, exchange, Ok(frame)) is Failure ==> s.after(
            default_batch_size,
            exchange,
            Ok(frame),
        ) == s,
        s.after(default_batch_size, exchange, Ok(frame)).offset == s.offset,
{
}

/// A failure leaves its source untouched: whenever the completion of a
/// fetch emits a failure, the generator's source is afterwards what it was
/// before, cursor, schema and all.
pub proof fn law_failure_leaves_source_untouched<P>(g: GeneratorState, read: Result<Frame<P>, String>)
    requires
        g.emission(read) matches Some(Emission::Failure(_)),
    ensures
        g.complete(read).source == g.source,
        g.complete(read).phase == Phase::Finished,
{
}

/// A fetch in flight at cancellation runs to completion before its
/// generator is done: the source is judged what was read and its cursor is
/// moved exactly as if nothing had been cancelled; only the result is
/// dropped.
pub proof fn law_cancelled_fetch_is_completed<P>(g: GeneratorState, read: Result<Frame<P>, String>)
    requires
        g.phase == Phase::Fetching,
    ensures
        g.cancel().phase == Phase::Draining,
        g.cancel().complete(read).source == g.complete(read).source,
        g.cancel().complete(read).source == g.source.after(g.default_batch_size, g.exchange, read),
        g.cancel().complete(read).phase == Phase::Finished,
        g.cancel().emission(read) == Some(Emission::<P>::End),
{
}

/// A generator emits one terminal item and then never fetches again: after
/// the end or a failure it is finished, has no window to read and starts
/// nothing.
pub proof fn law_generator_stops_after_terminal_item<P>(g: GeneratorState, read: Result<Frame<P>, String>)
    requires
        g.in_flight(),
        !(g.emission(read) matches Some(Emission::Batch(_))),
    ensures
        g.complete(read).phase == Phase::Finished,
        g.complete(read).next_request() is None,
        g.complete(read).start() == g.complete(read),
        g.complete(read).emission(read) is None,
{
}

/// A batch leaves its generator ready for the next fetch, with the source's
/// cursor past the batch.
pub proof fn law_generator_goes_on_after_batch<P>(g: GeneratorState, read: Result<Frame<P>, String>)
    requires
        g.emission(read) matches Some(Emission::Batch(_)),
    ensures
        g.complete(read).phase == Phase::Idle,
        g.complete(read).source == g.source.after(g.default_batch_size, g.exchange, read),
        g.complete(read).next_request() == Some(
            g.source.after(g.default_batch_size, g.exchange, read).request(g.default_batch_size),
        ),
{
}

/// What happens to one source leaves the others as they are: the
/// completion of a fetch, failed or not, changes no other generator.
pub proof fn law_sources_are_isolated<P>(
    s: StreamState<P>,
    source: usize,
    read: Result<Frame<P>, String>,
    other: int,
)
    requires
        s.breach(source) is None,
        0 <= other < s.mux.generators.len(),
        other != source,
    ensures
        s.fetched(source, read).mux.generators.len() == s.mux.generators.len(),
        s.fetched(source, read).mux.generators[other] == s.mux.generators[other],
{
}

/// What can happen to a streamer.
pub enum Event<P> {
    /// The background work takes a step (`next_action`).
    Step,
    /// The fetch of a source completes (`on_fetched`).
    Fetched { source: usize, read: Result<Frame<P>, String> },
    /// The consumer pulls (`pull`).
    Pull,
    /// The consumer lets go (`close`).
    Close,
}

/// The streamer after one event.
pub open spec fn apply<P>(s: StreamState<P>, e: Event<P>) -> StreamState<P> {
    match e {
        Event::Step => s.step(),
        Event::Fetched { source, read } => s.fetched(source, read),
        Event::Pull => s.pulled(),
        Event::Close => s.close(),
    }
}

/// The streamer after a sequence of events.
pub open spec fn run<P>(s: StreamState<P>, trace: Seq<Event<P>>) -> StreamState<P>
    decreases trace.len(),
{
    if trace.len() == 0 {
        s
    } else {
        apply(run(s, trace.drop_last()), trace.last())
    }
}

/// No event takes a streamer out of its well-formed states, and none changes
/// the capacity of its channel.
pub proof fn lemma_apply_keeps_wf<P>(s: StreamState<P>, e: Event<P>)
    requires
        s.wf(),
    ensures
        apply(s, e).wf(),
        apply(s, e).channel.capacity == s.channel.capacity,
        apply(s, e).mux.generators.len() == s.mux.generators.len(),
{
    if e is Step && s.halted is None && !s.channel.closed {
        let (mux, ch) = s.mux.flush(s.channel);
        if mux.pending is None && first_idle(mux.generators, 0) is Some {
            lemma_first_idle_some(mux.generators, 0);
        }
    }
}

/// Backpressure: whatever happens, and whether or not the consumer ever
/// pulls, the channel never buffers more items than its capacity.
pub proof fn law_buffer_never_exceeds_capacity<P>(s: StreamState<P>, trace: Seq<Event<P>>)
    requires
        s.wf(),
    ensures
        run(s, trace).wf(),
        run(s, trace).channel.capacity == s.channel.capacity,
        run(s, trace).channel.queue.len() <= s.channel.capacity,
    decreases trace.len(),
{
    if trace.len() > 0 {
        law_buffer_never_exceeds_capacity(s, trace.drop_last());
        lemma_apply_keeps_wf(run(s, trace.drop_last()), trace.last());
    }
}

/// A channel that the consumer closed is never full: an item can never be
/// sent into a channel that is both.
pub proof fn law_closed_channel_is_not_full<P>(s: StreamState<P>)
    requires
        s.wf(),
        s.channel.closed,
    ensures
        !s.channel.is_full(),
{
}

/// The producer suspends on a full channel: while an item waits for room,
/// a step starts no fetch, moves nothing and asks to wait for room.
pub proof fn law_full_channel_suspends_producer<P>(s: StreamState<P>)
    requires
        s.wf(),
        s.halted is None,
        s.mux.pending is Some,
        s.channel.is_full(),
        !s.channel.is_shut(),
    ensures
        s.action() == Action::AwaitSpace,
        s.step() == s,
{
}

/// Whatever a step asks for can come about. A fetch that is to be read has
/// been started for a generator that was ready, with the window of its
/// source; a wait for a fetch finds one in flight; a wait for room finds
/// the channel open and full, so that a pull makes room; and a stop finds no
/// fetch in flight and nothing waiting.
pub proof fn law_every_wait_has_a_waker<P>(s: StreamState<P>)
    requires
        s.wf(),
        s.halted is None,
    ensures
        match s.action() {
            Action::Fetch { source, request } => {
                &&& source < s.mux.generators.len()
                &&& s.mux.generators[source as int].phase == Phase::Idle
                &&& s.step().mux.generators[source as int].phase == Phase::Fetching
                &&& Some(request) == s.mux.generators[source as int].next_request()
            },
            Action::AwaitFetch => any_in_flight(s.step().mux.generators),
            Action::AwaitSpace => {
                &&& s.step().mux.pending is Some
                &&& s.step().channel.is_full()
                &&& !s.step().channel.is_shut()
            },
            Action::Stop => {
                &&& s.step().mux.pending is None
                &&& !any_in_flight(s.step().mux.generators)
                &&& s.step().channel.is_shut()
            },
        },
{
    if !s.channel.closed {
        let (mux, ch) = s.mux.flush(s.channel);
        if mux.pending is None && first_idle(mux.generators, 0) is Some {
            lemma_first_idle_some(mux.generators, 0);
        }
    }
}

/// The producer completes exactly when its work is done: a step of a
/// streamer whose consumer is there closes the output if and only if every
/// generator has emitted its terminal item and nothing waits for room, and
/// only then does it ask to stop.
pub proof fn law_producer_completes_exactly_when_done<P>(s: StreamState<P>)
    requires
        s.wf(),
        s.halted is None,
        !s.channel.closed,
        !s.channel.finished,
    ensures
        s.step().channel.finished <==> all_finished(s.mux.generators) && s.mux.flush(
            s.channel,
        ).0.pending is None,
        s.action() == Action::Stop <==> s.step().channel.finished,
{
    let (mux, ch) = s.mux.flush(s.channel);
    if mux.pending is None {
        if first_idle(mux.generators, 0) is Some {
            lemma_first_idle_some(mux.generators, 0);
            let i = first_idle(mux.generators, 0).unwrap();
            assert(mux.generators[i].phase != Phase::Finished);
        } else {
            lemma_first_idle_none(mux.generators, 0);
            if any_in_flight(mux.generators) {
                let i = choose|i: int| 0 <= i < mux.generators.len() && (#[trigger] mux.generators[i]).in_flight();
                assert(mux.generators[i].phase != Phase::Finished);
            } else {
                assert forall|i: int| 0 <= i < mux.generators.len() implies (
                #[trigger] mux.generators[i]).phase == Phase::Finished by {
                    assert(!mux.generators[i].in_flight());
                }
            }
        }
    }
}

/// The end marker is final for the consumer: at the end a pull changes
/// nothing, so the next pull is at the end again.
pub proof fn law_end_marker_repeats<P>(s: StreamState<P>)
    requires
        s.wf(),
        s.at_end(),
    ensures
        s.head() is None,
        s.pulled() == s,
        s.pulled().at_end(),
{
}

/// Nothing brings a streamer back from its end: after any event that does
/// not halt it, the next pull returns the end marker still.
pub proof fn law_end_is_stable<P>(s: StreamState<P>, e: Event<P>)
    requires
        s.wf(),
        s.at_end(),
        apply(s, e).halted is None,
    ensures
        apply(s, e).at_end(),
{
}

/// Number of generators with a fetch in flight.
pub open spec fn in_flight_count(generators: Seq<GeneratorState>) -> nat
    decreases generators.len(),
{
    if generators.len() == 0 {
        0
    } else {
        in_flight_count(generators.drop_last()) + if generators.last().in_flight() {
            1nat
        } else {
            0nat
        }
    }
}

/// Number of completed fetches in a sequence of events.
pub open spec fn completions<P>(trace: Seq<Event<P>>) -> nat
    decreases trace.len(),
{
    if trace.len() == 0 {
        0
    } else {
        completions(trace.drop_last()) + if trace.last() is Fetched {
            1nat
        } else {
            0nat
        }
    }
}

/// The state of a streamer whose consumer is gone: the channel closed,
/// nothing waiting, no generator ready to fetch or fetching for the stream.
pub open spec fn cancelled<P>(s: StreamState<P>) -> bool {
    &&& s.channel.closed
    &&& s.mux.pending is None
    &&& forall|i: int|
        0 <= i < s.mux.generators.len() ==> {
            ||| (#[trigger] s.mux.generators[i]).phase == Phase::Draining
            ||| s.mux.generators[i].phase == Phase::Finished
        }
}

/// Every generator has finished: no source is held for reading any more.
pub open spec fn all_finished(generators: Seq<GeneratorState>) -> bool {
    forall|i: int| 0 <= i < generators.len() ==> (#[trigger] generators[i]).phase == Phase::Finished
}

proof fn lemma_in_flight_count(generators: Seq<GeneratorState>)
    ensures
        in_flight_count(generators) <= generators.len(),
        in_flight_count(generators) > 0 <==> any_in_flight(generators),
    decreases generators.len(),
{
    if generators.len() > 0 {
        let front = generators.drop_last();
        lemma_in_flight_count(front);
        if any_in_flight(front) {
            let i = choose|i: int| 0 <= i < front.len() && (#[trigger] front[i]).in_flight();
            assert(generators[i].in_flight());
        }
        if any_in_flight(generators) {
            let i = choose|i: int| 0 <= i < generators.len() && (#[trigger] generators[i]).in_flight();
            if i < front.len() {
                assert(front[i].in_flight());
            }
        }
    }
}

proof fn lemma_in_flight_count_update(generators: Seq<GeneratorState>, i: int, g: GeneratorState)
    requires
        0 <= i < generators.len(),
    ensures
        in_flight_count(generators.update(i, g)) + (if generators[i].in_flight() {
            1nat
        } else {
            0nat
        }) == in_flight_count(generators) + (if g.in_flight() {
            1nat
        } else {
            0nat
        }),
    decreases generators.len(),
{
    let updated = generators.update(i, g);
    if i == generators.len() - 1 {
        assert(updated.drop_last() =~= generators.drop_last());
    } else {
        assert(updated.drop_last() =~= generators.drop_last().update(i, g));
        lemma_in_flight_count_update(generators.drop_last(), i, g);
    }
}

proof fn lemma_cancel_of_cancelled<P>(s: StreamState<P>)
    requires
        cancelled(s),
    ensures
        s.mux.cancel() == s.mux,
{
    assert(s.mux.cancel().generators =~= s.mux.generators);
}

/// Closing is idempotent: letting go a second time changes nothing.
pub proof fn law_close_is_idempotent<P>(s: StreamState<P>)
    ensures
        s.close().close() == s.close(),
{
    assert(s.close().mux.cancel().generators =~= s.close().mux.generators);
}

/// Letting go cancels: afterwards the channel is closed and empty, nothing
/// waits, and every generator is finished or only awaits the completion of
/// the fetch it has in flight.
pub proof fn law_close_cancels<P>(s: StreamState<P>)
    requires
        s.wf(),
    ensures
        s.close().wf(),
        cancelled(s.close()),
        s.close().channel.queue.len() == 0,
        in_flight_count(s.close().mux.generators) <= s.mux.generators.len(),
{
    lemma_in_flight_count(s.close().mux.generators);
}

/// After cancellation a step starts nothing and changes nothing: it asks to
/// await a fetch while one is in flight, and to stop once none is.
pub proof fn law_cancelled_step<P>(s: StreamState<P>)
    requires
        s.wf(),
        cancelled(s),
        s.halted is None,
    ensures
        s.step() == s,
        s.action() == if in_flight_count(s.mux.generators) == 0 {
            Action::Stop
        } else {
            Action::AwaitFetch
        },
{
    lemma_cancel_of_cancelled(s);
    lemma_in_flight_count(s.mux.generators);
}

/// After cancellation the completion of a fetch in flight completes the
/// source's fetch, cursor included, finishes its generator and sends
/// nothing: one fetch fewer is in flight.
pub proof fn law_cancelled_completion<P>(s: StreamState<P>, source: usize, read: Result<Frame<P>, String>)
    requires
        s.wf(),
        cancelled(s),
        s.halted is None,
        s.breach(source) is None,
    ensures
        cancelled(s.fetched(source, read)),
        s.fetched(source, read).halted is None,
        s.fetched(source, read).channel == s.channel,
        in_flight_count(s.fetched(source, read).mux.generators) + 1 == in_flight_count(
            s.mux.generators,
        ),
        s.fetched(source, read).mux.generators[source as int].source
            == s.mux.generators[source as int].source.after(
            s.mux.generators[source as int].default_batch_size,
            s.mux.generators[source as int].exchange,
            read,
        ),
{
    let g = s.mux.generators[source as int];
    assert(g.phase == Phase::Draining);
    lemma_in_flight_count_update(s.mux.generators, source as int, g.complete(read));
}

/// Once no fetch is in flight after cancellation, every generator has
/// finished.
pub proof fn law_cancelled_idle_is_finished<P>(s: StreamState<P>)
    requires
        cancelled(s),
        in_flight_count(s.mux.generators) == 0,
    ensures
        all_finished(s.mux.generators),
{
    lemma_in_flight_count(s.mux.generators);
    assert forall|i: int| 0 <= i < s.mux.generators.len() implies (
    #[trigger] s.mux.generators[i]).phase == Phase::Finished by {
        if s.mux.generators[i].phase != Phase::Finished {
            assert(s.mux.generators[i].in_flight());
        }
    }
}

/// A breach of the rules halts the whole pipeline at once: the report is
/// answered with the breach, everything is cancelled, the channel is closed
/// and emptied, the next step asks to stop, and nothing is handed to the
/// consumer any more.
pub proof fn law_breach_halts_the_pipeline<P>(
    s: StreamState<P>,
    source: usize,
    read: Result<Frame<P>, String>,
)
    requires
        s.wf(),
        s.halted is None,
        s.breach(source) is Some,
    ensures
        s.fetched(source, read).halted == s.breach(source),
        cancelled(s.fetched(source, read)),
        s.fetched(source, read).channel.queue.len() == 0,
        s.fetched(source, read).action() == Action::Stop,
        s.fetched(source, read).step() == s.fetched(source, read),
        s.fetched(source, read).head() is None,
        !s.fetched(source, read).at_end(),
{
}

/// A halt never lifts.
pub proof fn lemma_halt_is_final<P>(s: StreamState<P>, e: Event<P>)
    requires
        s.halted is Some,
    ensures
        apply(s, e).halted == s.halted,
{
}

/// Cancellation winds down in bounded time. After the consumer let go, in
/// every run that does not halt, each completed fetch takes one from the
/// fetches in flight and nothing adds to them: at most as many fetches
/// complete as were in flight, which is at most the number of sources.
pub proof fn law_cancellation_is_bounded<P>(s: StreamState<P>, trace: Seq<Event<P>>)
    requires
        s.wf(),
        cancelled(s),
        run(s, trace).halted is None,
    ensures
        run(s, trace).wf(),
        cancelled(run(s, trace)),
        in_flight_count(run(s, trace).mux.generators) + completions(trace) == in_flight_count(
            s.mux.generators,
        ),
        completions(trace) <= s.mux.generators.len(),
    decreases trace.len(),
{
    lemma_in_flight_count(s.mux.generators);
    if trace.len() > 0 {
        let before = run(s, trace.drop_last());
        if before.halted is Some {
            lemma_halt_is_final(before, trace.last());
        }
        law_cancellation_is_bounded(s, trace.drop_last());
        lemma_apply_keeps_wf(before, trace.last());
        match trace.last() {
            Event::Step => {
                law_cancelled_step(before);
            },
            Event::Fetched { source, read } => {
                law_cancelled_completion(before, source, read);
            },
            Event::Pull => {},
            Event::Close => {
                lemma_cancel_of_cancelled(before);
                assert(before.channel.queue =~= Seq::empty());
            },
        }
    }
}

/// The item that an event makes a generator forward towards the consumer,
/// if it does.
pub open spec fn forwarded_by<P>(s: StreamState<P>, e: Event<P>) -> Option<StreamItem<P>> {
    match e {
        Event::Fetched { source, read } => if s.halted is None {
            s.mux.forwarded(source, read)
        } else {
            None
        },
        _ => None,
    }
}

/// The item that an event hands to the consumer, if it does.
pub open spec fn received_by<P>(s: StreamState<P>, e: Event<P>) -> Option<StreamItem<P>> {
    match e {
        Event::Pull => s.head(),
        _ => None,
    }
}

/// `items`, with `item` appended if there is one.
pub open spec fn with<P>(items: Seq<StreamItem<P>>, item: Option<StreamItem<P>>) -> Seq<StreamItem<P>> {
    match item {
        Some(x) => items.push(x),
        None => items,
    }
}

/// All items that the generators forwarded during a run, in the order in
/// which their fetches completed.
pub open spec fn forwarded<P>(s: StreamState<P>, trace: Seq<Event<P>>) -> Seq<StreamItem<P>>
    decreases trace.len(),
{
    if trace.len() == 0 {
        Seq::empty()
    } else {
        with(
            forwarded(s, trace.drop_last()),
            forwarded_by(run(s, trace.drop_last()), trace.last()),
        )
    }
}

/// All items that the consumer received during a run, in the order of its
/// pulls.
pub open spec fn received<P>(s: StreamState<P>, trace: Seq<Event<P>>) -> Seq<StreamItem<P>>
    decreases trace.len(),
{
    if trace.len() == 0 {
        Seq::empty()
    } else {
        with(
            received(s, trace.drop_last()),
            received_by(run(s, trace.drop_last()), trace.last()),
        )
    }
}

/// The items on their way: those in the channel, then the one that waits
/// for room.
pub open spec fn in_transit<P>(s: StreamState<P>) -> Seq<StreamItem<P>> {
    with(s.channel.queue, s.mux.pending)
}

/// The consumer holds on to its handle throughout.
pub open spec fn never_closes<P>(trace: Seq<Event<P>>) -> bool {
    forall|i: int| 0 <= i < trace.len() ==> !((#[trigger] trace[i]) is Close)
}

/// A streamer at work: the consumer is there, and the producer has
/// completed only if every generator has finished and nothing waits.
pub open spec fn orderly<P>(s: StreamState<P>) -> bool {
    &&& s.wf()
    &&& !s.channel.closed
    &&& s.channel.finished ==> s.mux.pending is None && all_finished(s.mux.generators)
}

/// The items of one source among `items`, in their order.
pub open spec fn of_source<P>(items: Seq<StreamItem<P>>, source: int) -> Seq<StreamItem<P>>
    decreases items.len(),
{
    if items.len() == 0 {
        Seq::empty()
    } else if items.last().origin == source {
        of_source(items.drop_last(), source).push(items.last())
    } else {
        of_source(items.drop_last(), source)
    }
}

/// The number of items that the first `sources` sources have among `items`,
/// summed source by source.
pub open spec fn total_by_source<P>(items: Seq<StreamItem<P>>, sources: nat) -> nat
    decreases sources,
{
    if sources == 0 {
        0
    } else {
        total_by_source(items, (sources - 1) as nat) + of_source(items, sources - 1).len()
    }
}

proof fn lemma_first_idle_none(generators: Seq<GeneratorState>, from: int)
    requires
        0 <= from,
        first_idle(generators, from) is None,
    ensures
        forall|i: int| from <= i < generators.len() ==> (#[trigger] generators[i]).phase != Phase::Idle,
    decreases generators.len() - from,
{
    if from < generators.len() {
        lemma_first_idle_none(generators, from + 1);
    }
}

proof fn lemma_first_idle_some(generators: Seq<GeneratorState>, from: int)
    requires
        0 <= from,
        first_idle(generators, from) is Some,
    ensures
        from <= first_idle(generators, from).unwrap() < generators.len(),
        generators[first_idle(generators, from).unwrap()].phase == Phase::Idle,
    decreases generators.len() - from,
{
    if from < generators.len() && generators[from].phase != Phase::Idle {
        lemma_first_idle_some(generators, from + 1);
    }
}

/// One event of an orderly run loses nothing and keeps the order: what was
/// received, then what is on its way afterwards, is what was on its way
/// before, then what was forwarded.
proof fn lemma_event_keeps_order<P>(s: StreamState<P>, e: Event<P>)
    requires
        orderly(s),
        !(e is Close),
        apply(s, e).halted is None,
    ensures
        orderly(apply(s, e)),
        apply(s, e).mux.generators.len() == s.mux.generators.len(),
        forwarded_by(s, e) matches Some(item) ==> item.origin < s.mux.generators.len(),
        with(Seq::empty(), received_by(s, e)) + in_transit(apply(s, e)) =~= with(
            in_transit(s),
            forwarded_by(s, e),
        ),
{
    if s.halted is Some {
        lemma_halt_is_final(s, e);
    }
    match e {
        Event::Step => {
            let (mux, ch) = s.mux.flush(s.channel);
            if mux.pending is None {
                if first_idle(mux.generators, 0) is Some {
                    lemma_first_idle_some(mux.generators, 0);
                    let i = first_idle(mux.generators, 0).unwrap();
                    assert(mux.generators[i].phase == Phase::Idle);
                } else {
                    lemma_first_idle_none(mux.generators, 0);
                    if !any_in_flight(mux.generators) {
                        assert forall|i: int| 0 <= i < mux.generators.len() implies (
                        #[trigger] mux.generators[i]).phase == Phase::Finished by {
                            assert(!mux.generators[i].in_flight());
                        }
                    }
                }
            }
        },
        Event::Fetched { source, read } => {
            assert(s.mux.violation(source) is None);
            let g = s.mux.generators[source as int];
            assert(g.in_flight());
            assert(!s.channel.finished);
        },
        Event::Pull => {},
        Event::Close => {},
    }
}

/// In every run in which the consumer holds on and nothing halts, the
/// channel is a queue: what the consumer has received, followed by what is
/// still on its way, is exactly what was on its way at the start followed
/// by what the generators have forwarded, in the order in which their
/// fetches completed. Nothing is lost, doubled or overtaken.
pub proof fn law_order_is_kept<P>(s: StreamState<P>, trace: Seq<Event<P>>)
    requires
        orderly(s),
        never_closes(trace),
        run(s, trace).halted is None,
    ensures
        orderly(run(s, trace)),
        run(s, trace).mux.generators.len() == s.mux.generators.len(),
        received(s, trace) + in_transit(run(s, trace)) == in_transit(s) + forwarded(s, trace),
        forall|k: int|
            0 <= k < forwarded(s, trace).len() ==> (#[trigger] forwarded(s, trace)[k]).origin
                < s.mux.generators.len(),
    decreases trace.len(),
{
    if trace.len() == 0 {
        assert(received(s, trace) + in_transit(s) =~= in_transit(s) + forwarded(s, trace));
    } else {
        let front = trace.drop_last();
        let before = run(s, front);
        if before.halted is Some {
            lemma_halt_is_final(before, trace.last());
        }
        assert(never_closes(front)) by {
            assert forall|i: int| 0 <= i < front.len() implies !((#[trigger] front[i]) is Close) by {
                assert(front[i] == trace[i]);
            }
        }
        assert(!(trace.last() is Close)) by {
            assert(trace[trace.len() - 1] == trace.last());
        }
        law_order_is_kept(s, front);
        lemma_event_keeps_order(before, trace.last());
        let r = with(Seq::empty(), received_by(before, trace.last()));
        assert(received(s, trace) =~= received(s, front) + r);
        assert(received(s, trace) + in_transit(run(s, trace)) =~= received(s, front) + (r
            + in_transit(run(s, trace))));
        assert(in_transit(s) + forwarded(s, trace) =~= with(
            in_transit(s) + forwarded(s, front),
            forwarded_by(before, trace.last()),
        ));
        assert(with(received(s, front) + in_transit(before), forwarded_by(before, trace.last()))
            =~= received(s, front) + with(in_transit(before), forwarded_by(before, trace.last())));
    }
}

/// An item that the consumer can be handed as it is: a failure, or a batch
/// that can be described in the exchange format.
pub open spec fn deliverable<P>(item: StreamItem<P>, exchange: LayoutContract) -> bool {
    item.payload matches Payload::Batch(b) ==> conversion_error(b, exchange) is None
}

/// Every generator holds its batches to the streamer's exchange format, and
/// every item on its way can be handed to the consumer as it is.
pub open spec fn checked<P>(s: StreamState<P>) -> bool {
    &&& forall|i: int|
        0 <= i < s.mux.generators.len() ==> (#[trigger] s.mux.generators[i]).exchange == s.exchange
    &&& forall|k: int|
        0 <= k < s.channel.queue.len() ==> deliverable(#[trigger] s.channel.queue[k], s.exchange)
    &&& s.mux.pending matches Some(item) ==> deliverable(item, s.exchange)
}

proof fn lemma_event_keeps_checked<P>(s: StreamState<P>, e: Event<P>)
    requires
        checked(s),
    ensures
        checked(apply(s, e)),
        apply(s, e).exchange == s.exchange,
{
    let after = apply(s, e);
    match e {
        Event::Step => {
            if s.halted is None && !s.channel.closed {
                let (mux, ch) = s.mux.flush(s.channel);
                if mux.pending is None && first_idle(mux.generators, 0) is Some {
                    lemma_first_idle_some(mux.generators, 0);
                }
            }
        },
        Event::Fetched { source, read } => {
            if s.halted is None && s.mux.violation(source) is None {
                let g = s.mux.generators[source as int];
                assert(g.exchange == s.exchange);
            }
        },
        Event::Pull => {},
        Event::Close => {},
    }
}

/// Conversion failures are caught where batches are made. In every run of a
/// streamer whose items on their way could all be handed out at the start,
/// every item that a pull takes out of the channel can be handed out too: a
/// batch that reached the channel is always handed to the consumer as a
/// batch, never as a failure.
pub proof fn law_batches_arrive_as_batches<P>(s: StreamState<P>, trace: Seq<Event<P>>)
    requires
        checked(s),
    ensures
        checked(run(s, trace)),
        run(s, trace).exchange == s.exchange,
        run(s, trace).head() matches Some(item) ==> {
            &&& deliverable(item, s.exchange)
            &&& forall|pulled: Pulled<P>|
                item.payload is Batch && #[trigger] hands_out(item, s.exchange, pulled) ==> pulled is Batch
        },
    decreases trace.len(),
{
    if trace.len() > 0 {
        law_batches_arrive_as_batches(s, trace.drop_last());
        lemma_event_keeps_checked(run(s, trace.drop_last()), trace.last());
    }
}

/// A fresh streamer is well-formed and at work, has nothing on its way and
/// one generator for each source, ready to fetch.
pub proof fn law_fresh_streamer_is_orderly<P>(
    sources: Seq<DataSource>,
    batch_size: usize,
    capacity: nat,
    exchange: LayoutContract,
)
    requires
        capacity >= 1,
        sources.len() <= usize::MAX,
    ensures
        orderly(StreamState::<P>::initial(sources, batch_size, capacity, exchange)),
        checked(StreamState::<P>::initial(sources, batch_size, capacity, exchange)),
        in_transit(StreamState::<P>::initial(sources, batch_size, capacity, exchange)).len() == 0,
        StreamState::<P>::initial(sources, batch_size, capacity, exchange).halted is None,
        StreamState::<P>::initial(sources, batch_size, capacity, exchange).mux.generators.len()
            == sources.len(),
        forall|i: int|
            0 <= i < sources.len() ==> (#[trigger] StreamState::<P>::initial(
                sources,
                batch_size,
                capacity,
                exchange,
            ).mux.generators[i]).phase == Phase::Idle,
{
}

proof fn lemma_of_source_push<P>(items: Seq<StreamItem<P>>, item: StreamItem<P>, source: int)
    ensures
        of_source(items.push(item), source) == if item.origin == source {
            of_source(items, source).push(item)
        } else {
            of_source(items, source)
        },
{
    assert(items.push(item).drop_last() =~= items);
}

proof fn lemma_total_push<P>(items: Seq<StreamItem<P>>, item: StreamItem<P>, sources: nat)
    ensures
        total_by_source(items.push(item), sources) == total_by_source(items, sources) + if item.origin
            < sources {
            1nat
        } else {
            0nat
        },
    decreases sources,
{
    if sources > 0 {
        lemma_total_push(items, item, (sources - 1) as nat);
        lemma_of_source_push(items, item, sources - 1);
    }
}

/// Where every item comes from one of the first `sources` sources, the
/// items number as many as the sources have among them, summed.
pub proof fn lemma_total_by_source<P>(items: Seq<StreamItem<P>>, sources: nat)
    requires
        forall|k: int| 0 <= k < items.len() ==> (#[trigger] items[k]).origin < sources,
    ensures
        total_by_source(items, sources) == items.len(),
    decreases items.len(),
{
    if items.len() == 0 {
        assert(items =~= Seq::empty());
        lemma_total_empty::<P>(sources);
    } else {
        let front = items.drop_last();
        assert forall|k: int| 0 <= k < front.len() implies (#[trigger] front[k]).origin < sources by {
            assert(front[k] == items[k]);
        }
        assert(items[items.len() - 1].origin < sources);
        assert(front.push(items.last()) =~= items);
        lemma_total_by_source(front, sources);
        lemma_total_push(front, items.last(), sources);
    }
}

proof fn lemma_total_empty<P>(sources: nat)
    ensures
        total_by_source(Seq::<StreamItem<P>>::empty(), sources) == 0,
    decreases sources,
{
    if sources > 0 {
        lemma_total_empty::<P>((sources - 1) as nat);
    }
}

/// Fan-in delivers everything, source by source in order. Take a streamer
/// with nothing on its way, any number of sources, and any run in which the
/// consumer holds on until it is handed the end marker. Then the consumer
/// has received exactly what the generators forwarded; what it received of
/// each source is what that source's generator forwarded, in that order;
/// and the items received number as many as the sources produced, summed
/// over the sources.
pub proof fn law_every_item_arrives_in_source_order<P>(s: StreamState<P>, trace: Seq<Event<P>>)
    requires
        orderly(s),
        in_transit(s).len() == 0,
        never_closes(trace),
        run(s, trace).at_end(),
    ensures
        received(s, trace) == forwarded(s, trace),
        forall|source: int| #[trigger]
            of_source(received(s, trace), source) == of_source(forwarded(s, trace), source),
        received(s, trace).len() == total_by_source(forwarded(s, trace), s.mux.generators.len()),
{
    law_order_is_kept(s, trace);
    let end = run(s, trace);
    assert(in_transit(end) =~= Seq::<StreamItem<P>>::empty());
    assert(in_transit(s) =~= Seq::<StreamItem<P>>::empty());
    assert(received(s, trace) + in_transit(end) =~= received(s, trace));
    assert(in_transit(s) + forwarded(s, trace) =~= forwarded(s, trace));
    lemma_total_by_source(forwarded(s, trace), s.mux.generators.len());
}

} // verus!
