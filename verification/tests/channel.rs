use federated_stream::batch::{Batch, Frame, LayoutContract};
use federated_stream::channel::{Channel, RecvOutcome, SendOutcome};
use federated_stream::exchange::ConversionError;
use federated_stream::generator::{handle_batch, Emission, Phase};
use federated_stream::multiplexer::{Action, Multiplexer};
use federated_stream::outcome::{
    ConfigurationError, Failure, FailureCause, Payload, ProtocolViolation, StreamItem,
};
use federated_stream::source::csv::{CSVSource, ReadRequest};
use federated_stream::source::{DataSource, Source};
use federated_stream::{FederatedStreamer, Pulled};

fn contract() -> LayoutContract {
    LayoutContract { version: 1, array_size: 80, array_align: 8, schema_size: 72, schema_align: 8 }
}

fn item(origin: usize, tag: &str) -> StreamItem<()> {
    StreamItem {
        origin,
        payload: Payload::Failure(Failure { source: "CSV", location: tag.to_string(), cause: FailureCause::SchemaChanged }),
    }
}

fn rows(n: usize) -> Result<Frame<()>, String> {
    let columns = vec![federated_stream::batch::Column {
        name: "a".to_string(),
        dtype: federated_stream::batch::LogicalType::Int64,
        len: n,
        null_count: 0,
        validity: None,
        values: vec![federated_stream::batch::Buffer { id: 8, len: 8 * n }],
    }];
    Ok(Frame { layout: contract(), columns, owner: () })
}

fn source(path: &str, batch_size: Option<usize>) -> DataSource {
    DataSource::CSV(CSVSource::new(path, vec!["a".to_string()], batch_size, Ok(vec!["a".to_string()])).unwrap())
}

#[test]
fn channel_is_first_in_first_out() {
    let mut ch = Channel::new(3).unwrap();
    assert_eq!(ch.capacity(), 3);
    assert_eq!(ch.len(), 0);
    assert_eq!(ch.try_recv(), RecvOutcome::Empty);
    assert_eq!(ch.try_send(item(0, "x")), SendOutcome::Sent);
    assert_eq!(ch.try_send(item(1, "y")), SendOutcome::Sent);
    assert_eq!(ch.try_send(item(0, "z")), SendOutcome::Sent);
    assert!(ch.is_full());
    assert_eq!(ch.try_recv(), RecvOutcome::Item(item(0, "x")));
    assert_eq!(ch.try_recv(), RecvOutcome::Item(item(1, "y")));
    assert_eq!(ch.try_recv(), RecvOutcome::Item(item(0, "z")));
    assert_eq!(ch.try_recv(), RecvOutcome::Empty);
    assert!(!ch.is_full());
}

#[test]
fn full_channel_hands_the_item_back() {
    let mut ch = Channel::new(1).unwrap();
    assert_eq!(ch.try_send(item(0, "x")), SendOutcome::Sent);
    assert_eq!(ch.try_send(item(0, "y")), SendOutcome::Full(item(0, "y")));
    assert_eq!(ch.len(), 1);
    assert_eq!(ch.try_recv(), RecvOutcome::Item(item(0, "x")));
    assert_eq!(ch.try_send(item(0, "y")), SendOutcome::Sent);
    assert_eq!(ch.len(), 1);
}

#[test]
fn channel_without_capacity_is_refused() {
    assert_eq!(Channel::<()>::new(0).err(), Some(ConfigurationError::ZeroCapacity));
}

#[test]
fn finished_channel_is_drained_before_it_ends() {
    let mut ch = Channel::new(2).unwrap();
    assert_eq!(ch.try_send(item(0, "x")), SendOutcome::Sent);
    ch.finish();
    assert!(ch.is_finished());
    assert!(!ch.is_closed());
    assert_eq!(ch.try_send(item(0, "y")), SendOutcome::Shut(item(0, "y")));
    assert_eq!(ch.try_recv(), RecvOutcome::Item(item(0, "x")));
    assert_eq!(ch.try_recv(), RecvOutcome::Ended);
    assert_eq!(ch.try_recv(), RecvOutcome::Ended);
    ch.finish();
    assert_eq!(ch.try_recv(), RecvOutcome::Ended);
}

#[test]
fn closed_channel_is_empty_and_takes_nothing() {
    let mut ch = Channel::new(2).unwrap();
    assert_eq!(ch.try_send(item(0, "x")), SendOutcome::Sent);
    assert_eq!(ch.try_send(item(0, "y")), SendOutcome::Sent);
    ch.close();
    assert!(ch.is_closed());
    assert_eq!(ch.len(), 0);
    assert!(!ch.is_full());
    assert_eq!(ch.try_send(item(0, "z")), SendOutcome::Shut(item(0, "z")));
    assert_eq!(ch.try_recv(), RecvOutcome::Ended);
    ch.close();
    assert!(ch.is_closed());
    assert_eq!(ch.len(), 0);
}

#[test]
fn generator_fetches_until_the_end() {
    let mut g = handle_batch(source("a.csv", Some(2)), 9, contract());
    assert_eq!(g.phase(), Phase::Idle);
    assert_eq!(g.start(), Some(ReadRequest { offset: 0, limit: 2 }));
    assert_eq!(g.phase(), Phase::Fetching);
    // One fetch at a time.
    assert_eq!(g.start(), None);
    assert!(matches!(g.complete(rows(2)), Some(Emission::Batch(_))));
    assert_eq!(g.phase(), Phase::Idle);
    assert_eq!(g.start(), Some(ReadRequest { offset: 2, limit: 2 }));
    assert_eq!(g.complete(rows(0)), Some(Emission::End));
    assert_eq!(g.phase(), Phase::Finished);
    assert_eq!(g.start(), None);
    assert_eq!(g.complete(rows(2)), None);
    assert_eq!(g.phase(), Phase::Finished);
}

#[test]
fn generator_uses_the_default_batch_size() {
    let mut g = handle_batch(source("a.csv", None), 9, contract());
    assert_eq!(g.start(), Some(ReadRequest { offset: 0, limit: 9 }));
    assert_eq!(g.source().batch_size(), None);
}

#[test]
fn generator_does_not_retry_after_a_failure() {
    let mut g = handle_batch(source("a.csv", Some(2)), 9, contract());
    assert_eq!(g.complete(rows(2)), None);
    assert!(g.start().is_some());
    let emitted = g.complete::<()>(Err("boom".to_string()));
    assert_eq!(
        emitted,
        Some(Emission::Failure(Failure {
            source: "CSV",
            location: "a.csv".to_string(),
            cause: FailureCause::Read("boom".to_string())
        }))
    );
    assert_eq!(g.phase(), Phase::Finished);
    assert_eq!(g.start(), None);
}

#[test]
fn cancelled_generator_awaits_its_fetch_and_drops_the_result() {
    let mut idle = handle_batch(source("a.csv", Some(2)), 9, contract());
    idle.cancel();
    assert_eq!(idle.phase(), Phase::Finished);
    assert_eq!(idle.start(), None);

    let mut busy = handle_batch(source("b.csv", Some(2)), 9, contract());
    assert!(busy.start().is_some());
    busy.cancel();
    assert_eq!(busy.phase(), Phase::Draining);
    assert_eq!(busy.start(), None);
    busy.cancel();
    assert_eq!(busy.phase(), Phase::Draining);
    assert_eq!(busy.source().request(9), ReadRequest { offset: 0, limit: 2 });
    // The fetch in flight is completed, cursor included; its batch is dropped.
    assert_eq!(busy.complete(rows(2)), Some(Emission::End));
    assert_eq!(busy.phase(), Phase::Finished);
    assert_eq!(busy.source().request(9), ReadRequest { offset: 2, limit: 2 });
    busy.cancel();
    assert_eq!(busy.phase(), Phase::Finished);
}

#[test]
fn multiplexer_forwards_in_order_of_completion() {
    let mut ch = Channel::new(8).unwrap();
    let mut mux = Multiplexer::new(vec![
        handle_batch(source("a.csv", Some(1)), 1, contract()),
        handle_batch(source("b.csv", Some(1)), 1, contract()),
        handle_batch(source("c.csv", Some(1)), 1, contract()),
    ]);
    assert_eq!(mux.len(), 3);
    assert_eq!(mux.phase(3), None);
    for i in 0..3 {
        assert_eq!(mux.phase(i), Some(Phase::Idle));
        assert_eq!(mux.poll(&mut ch), Action::Fetch { source: i, request: ReadRequest { offset: 0, limit: 1 } });
        assert_eq!(mux.phase(i), Some(Phase::Fetching));
    }
    assert_eq!(mux.poll(&mut ch), Action::AwaitFetch);
    // The fetches complete out of order: c, a, b.
    for i in [2usize, 0, 1] {
        assert_eq!(mux.deliver(&mut ch, i, rows(1)), Ok(()));
        assert_eq!(mux.phase(i), Some(Phase::Idle));
    }
    assert!(!mux.has_pending());
    let mut origins = Vec::new();
    loop {
        match ch.try_recv() {
            RecvOutcome::Item(it) => origins.push(it.origin),
            _ => break,
        }
    }
    assert_eq!(origins, vec![2, 0, 1]);
}

#[test]
fn multiplexer_completes_when_all_have_finished() {
    let mut ch = Channel::new(8).unwrap();
    let mut mux = Multiplexer::new(vec![handle_batch(source("a.csv", Some(1)), 1, contract()), handle_batch(source("b.csv", Some(1)), 1, contract())]);
    assert!(matches!(mux.poll(&mut ch), Action::Fetch { source: 0, .. }));
    assert!(matches!(mux.poll(&mut ch), Action::Fetch { source: 1, .. }));
    assert_eq!(mux.deliver(&mut ch, 0, rows(0)), Ok(()));
    assert_eq!(mux.phase(0), Some(Phase::Finished));
    // One source is still at work: the producer has not completed.
    assert_eq!(mux.poll(&mut ch), Action::AwaitFetch);
    assert!(!ch.is_finished());
    assert_eq!(mux.deliver(&mut ch, 1, Err("boom".to_string())), Ok(()));
    assert_eq!(mux.phase(1), Some(Phase::Finished));
    assert_eq!(ch.len(), 1);
    assert_eq!(mux.poll(&mut ch), Action::Stop);
    assert!(ch.is_finished());
    assert!(matches!(ch.try_recv(), RecvOutcome::Item(StreamItem { origin: 1, payload: Payload::Failure(_) })));
    assert_eq!(ch.try_recv(), RecvOutcome::Ended);
}

#[test]
fn multiplexer_refuses_what_breaks_the_rules() {
    let mut ch = Channel::new(1).unwrap();
    let mut mux = Multiplexer::new(vec![handle_batch(source("a.csv", Some(1)), 1, contract()), handle_batch(source("b.csv", Some(1)), 1, contract())]);
    assert_eq!(mux.deliver(&mut ch, 2, rows(1)), Err(ProtocolViolation::UnknownSource { source: 2 }));
    assert_eq!(mux.deliver(&mut ch, 0, rows(1)), Err(ProtocolViolation::NotFetching { source: 0 }));
    assert!(matches!(mux.poll(&mut ch), Action::Fetch { source: 0, .. }));
    assert!(matches!(mux.poll(&mut ch), Action::Fetch { source: 1, .. }));
    assert_eq!(mux.deliver(&mut ch, 0, rows(1)), Ok(()));
    assert_eq!(mux.deliver(&mut ch, 1, rows(1)), Ok(()));
    assert!(mux.has_pending());
    assert!(matches!(mux.poll(&mut ch), Action::AwaitSpace));
    assert_eq!(mux.phase(0), Some(Phase::Idle));
    assert_eq!(mux.deliver(&mut ch, 0, rows(1)), Err(ProtocolViolation::NotFetching { source: 0 }));
    assert_eq!(ch.len(), 1);
    assert!(mux.has_pending());
    assert_eq!(ProtocolViolation::UnknownSource { source: 2 }.message(), "fetch completed for a source that does not exist");
    assert_eq!(ProtocolViolation::NotFetching { source: 0 }.message(), "fetch completed for a source that has none in flight");
    assert_eq!(ProtocolViolation::SendInProgress.message(), "fetch completed while an item waits for the channel");
}

#[test]
fn multiplexer_cancels_when_the_consumer_is_gone() {
    let mut ch = Channel::new(1).unwrap();
    let mut mux = Multiplexer::new(vec![handle_batch(source("a.csv", Some(1)), 1, contract()), handle_batch(source("b.csv", Some(1)), 1, contract())]);
    assert!(matches!(mux.poll(&mut ch), Action::Fetch { source: 0, .. }));
    ch.close();
    assert_eq!(mux.poll(&mut ch), Action::AwaitFetch);
    assert_eq!(mux.phase(0), Some(Phase::Draining));
    assert_eq!(mux.phase(1), Some(Phase::Finished));
    assert_eq!(mux.deliver(&mut ch, 0, rows(1)), Ok(()));
    assert_eq!(ch.len(), 0);
    assert!(!mux.has_pending());
    assert_eq!(mux.poll(&mut ch), Action::Stop);
}

#[test]
fn batch_that_cannot_be_converted_fails_its_source() {
    let mut other = contract();
    other.version = 7;
    let mut streamer =
        FederatedStreamer::new(vec![source("a.csv", Some(2)), source("b.csv", Some(2))], 2, None, other).unwrap();
    for i in 0..2 {
        match streamer.next_action() {
            Action::Fetch { source, .. } => assert_eq!(source, i),
            x => panic!("unexpected {:?}", x),
        }
    }
    streamer.on_fetched(1, rows(2)).unwrap();
    streamer.on_fetched(0, Err("boom".to_string())).unwrap();
    // Both sources have emitted their terminal item: nothing is fetched again.
    assert_eq!(streamer.next_action(), Action::Stop);
    let expected = Failure {
        source: "CSV",
        location: "b.csv".to_string(),
        cause: FailureCause::Conversion(ConversionError::LayoutMismatch),
    };
    assert_eq!(expected.reason(), "FFI Import Error while converting to arrow data for file b.csv: layout contract mismatch");
    assert_eq!(streamer.pull(), Pulled::Failure { origin: 1, failure: expected });
    assert!(matches!(streamer.pull(), Pulled::Failure { origin: 0, .. }));
    assert_eq!(streamer.pull(), Pulled::End);
    let unsupported = Failure { source: "CSV", location: "x".to_string(), cause: FailureCause::Conversion(ConversionError::UnsupportedType { column: 0 }) };
    assert_eq!(unsupported.reason(), "FFI Import Error while converting to arrow data for file x: unsupported type");
    let malformed = Failure { source: "CSV", location: "x".to_string(), cause: FailureCause::Conversion(ConversionError::MalformedColumn { column: 0 }) };
    assert_eq!(malformed.reason(), "FFI Import Error while converting to arrow data for file x: malformed column");
}

#[test]
fn generator_holds_batches_to_the_exchange_format() {
    let text = |rows: usize| {
        let columns = vec![federated_stream::batch::Column {
            name: "a".to_string(),
            dtype: federated_stream::batch::LogicalType::Other,
            len: rows,
            null_count: 0,
            validity: None,
            values: Vec::new(),
        }];
        Ok(Frame { layout: contract(), columns, owner: () })
    };
    let mut g = handle_batch(source("a.csv", Some(2)), 9, contract());
    assert!(g.start().is_some());
    assert_eq!(
        g.complete(text(2)),
        Some(Emission::Failure(Failure {
            source: "CSV",
            location: "a.csv".to_string(),
            cause: FailureCause::Conversion(ConversionError::UnsupportedType { column: 0 })
        }))
    );
    assert_eq!(g.phase(), Phase::Finished);
    assert_eq!(g.start(), None);
    // The failed fetch has not moved the cursor.
    assert_eq!(g.source().request(9), ReadRequest { offset: 0, limit: 2 });
    // A batch that fits goes through as it is.
    let mut g = handle_batch(source("a.csv", Some(2)), 9, contract());
    assert!(g.start().is_some());
    match g.complete(rows(2)) {
        Some(Emission::Batch(b)) => {
            assert_eq!(b, Batch { source: "CSV", location: "a.csv".to_string(), layout: contract(), columns: rows(2).unwrap().columns, rows: 2, owner: () });
        }
        other => panic!("unexpected {:?}", other),
    }
    assert_eq!(g.phase(), Phase::Idle);
}

#[test]
fn multiplexer_cancel_drops_the_waiting_item() {
    let mut ch = Channel::new(1).unwrap();
    let mut mux = Multiplexer::new(vec![
        handle_batch(source("a.csv", Some(1)), 1, contract()),
        handle_batch(source("b.csv", Some(1)), 1, contract()),
        handle_batch(source("c.csv", Some(1)), 1, contract()),
    ]);
    assert!(matches!(mux.poll(&mut ch), Action::Fetch { source: 0, .. }));
    assert!(matches!(mux.poll(&mut ch), Action::Fetch { source: 1, .. }));
    assert_eq!(mux.deliver(&mut ch, 0, rows(1)), Ok(()));
    assert_eq!(mux.deliver(&mut ch, 1, rows(0)), Ok(()));
    assert!(matches!(mux.poll(&mut ch), Action::Fetch { source: 0, .. }));
    assert_eq!(mux.deliver(&mut ch, 0, rows(1)), Ok(()));
    assert!(mux.has_pending());
    assert_eq!(mux.poll(&mut ch), Action::AwaitSpace);
    mux.cancel();
    assert!(!mux.has_pending());
    assert_eq!(mux.phase(0), Some(Phase::Finished));
    assert_eq!(mux.phase(1), Some(Phase::Finished));
    assert_eq!(mux.phase(2), Some(Phase::Finished));
    // What was sent before stays in the channel until the consumer lets go.
    assert_eq!(ch.len(), 1);
    mux.cancel();
    assert_eq!(mux.phase(0), Some(Phase::Finished));
}

#[test]
fn cancelled_fetch_that_fails_or_ends_is_completed_too() {
    let mut failing = handle_batch(source("a.csv", Some(2)), 9, contract());
    assert!(failing.start().is_some());
    failing.cancel();
    assert_eq!(failing.complete::<()>(Err("boom".to_string())), Some(Emission::End));
    assert_eq!(failing.phase(), Phase::Finished);
    assert_eq!(failing.source().request(9), ReadRequest { offset: 0, limit: 2 });

    let mut ending = handle_batch(source("b.csv", Some(2)), 9, contract());
    assert!(ending.start().is_some());
    assert!(matches!(ending.complete(rows(2)), Some(Emission::Batch(_))));
    assert!(ending.start().is_some());
    ending.cancel();
    assert_eq!(ending.complete(rows(0)), Some(Emission::End));
    assert_eq!(ending.source().request(9), ReadRequest { offset: 2, limit: 2 });
    use_exhausted(&ending);
}

fn use_exhausted(g: &federated_stream::generator::Generator) {
    match g.source() {
        DataSource::CSV(c) => assert!(c.is_exhausted()),
    }
}
