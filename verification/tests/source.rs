use federated_stream::batch::{Buffer, Column, Frame, LayoutContract, LogicalType};
use federated_stream::exchange::ConversionError;
use federated_stream::outcome::{ConfigurationError, Failure, FailureCause, FetchOutcome};
use federated_stream::source::csv::{CSVSource, ReadRequest};
use federated_stream::source::{DataSource, Source};

fn contract() -> LayoutContract {
    LayoutContract { version: 1, array_size: 80, array_align: 8, schema_size: 72, schema_align: 8 }
}

fn col(name: &str, dtype: LogicalType, rows: usize) -> Column {
    Column { name: name.to_string(), dtype, len: rows, null_count: 0, validity: None, values: vec![Buffer { id: 64, len: rows }] }
}

fn frame(rows: usize) -> Result<Frame<u8>, String> {
    framed(vec![col("a", LogicalType::Int64, rows), col("b", LogicalType::Boolean, rows)])
}

fn framed(columns: Vec<Column>) -> Result<Frame<u8>, String> {
    Ok(Frame { layout: contract(), columns, owner: 7 })
}

/// The columns of the file that the sources of these tests read.
fn header() -> Vec<String> {
    vec!["id".to_string(), "a".to_string(), "b".to_string(), "c".to_string()]
}

fn csv(batch_size: Option<usize>) -> CSVSource {
    CSVSource::new("data.csv", vec!["a".to_string(), "b".to_string()], batch_size, Ok(header())).unwrap()
}

#[test]
fn new_source_starts_at_zero() {
    let s = csv(Some(3));
    assert_eq!(s.name(), "CSV");
    assert_eq!(s.path(), "data.csv");
    assert_eq!(s.fields(), &vec!["a".to_string(), "b".to_string()]);
    assert_eq!(s.offset(), 0);
    assert_eq!(s.batch_size(), Some(3));
    assert!(!s.is_exhausted());
    assert_eq!(s.named("left").name(), "left");
}

#[test]
fn unreadable_location_is_a_configuration_error() {
    let r = CSVSource::new("nowhere.csv", Vec::new(), None, Err("No such file".to_string()));
    let e = r.err().unwrap();
    assert_eq!(e, ConfigurationError::Unreadable { path: "nowhere.csv".to_string(), reason: "No such file".to_string() });
    assert_eq!(e.message(), "Unable to read from path nowhere.csv: No such file");
    assert_eq!(ConfigurationError::ZeroCapacity.message(), "channel capacity must be at least 1");
}

#[test]
fn request_follows_cursor_and_batch_size() {
    let mut s = csv(Some(3));
    assert_eq!(s.request(7), ReadRequest { offset: 0, limit: 3 });
    assert!(matches!(s.read_next(7, contract(), frame(3)), FetchOutcome::Batch(_)));
    assert_eq!(s.request(7), ReadRequest { offset: 3, limit: 3 });
    // Without a batch size of its own the source takes the default.
    let s = csv(None);
    assert_eq!(s.request(7), ReadRequest { offset: 0, limit: 7 });
    assert_eq!(s.request(0), ReadRequest { offset: 0, limit: 0 });
}

#[test]
fn request_is_clamped_to_what_a_window_can_say() {
    let mut s = csv(Some(usize::MAX));
    assert_eq!(s.request(1).limit, u32::MAX);
    s.override_offset(usize::MAX);
    assert_eq!(s.request(1).offset, i64::MAX);
    s.override_offset(i64::MAX as usize);
    assert_eq!(s.request(1).offset, i64::MAX);
    s.override_offset(i64::MAX as usize - 1);
    assert_eq!(s.request(1).offset, i64::MAX - 1);
    let s = csv(Some(u32::MAX as usize));
    assert_eq!(s.request(1).limit, u32::MAX);
    let s = csv(Some(u32::MAX as usize - 1));
    assert_eq!(s.request(1).limit, u32::MAX - 1);
}

#[test]
fn batch_carries_what_was_read() {
    let mut s = csv(Some(3)).named("left");
    let columns = vec![col("a", LogicalType::Int64, 2), col("b", LogicalType::Boolean, 2)];
    let outcome = s.read_next(9, contract(), framed(columns));
    match outcome {
        FetchOutcome::Batch(b) => {
            assert_eq!(b.source, "left");
            assert_eq!(b.location, "data.csv");
            assert_eq!(b.layout, contract());
            assert_eq!(b.rows, 2);
            assert_eq!(b.owner, 7);
            assert_eq!(b.columns, vec![col("a", LogicalType::Int64, 2), col("b", LogicalType::Boolean, 2)]);
        }
        other => panic!("unexpected {:?}", other),
    }
    assert_eq!(s.offset(), 2);
}

#[test]
fn cursor_counts_rows_delivered() {
    let mut s = csv(Some(3));
    for (rows, expected) in [(3usize, 3usize), (3, 6), (3, 9), (1, 10)] {
        assert!(matches!(s.read_next(3, contract(), frame(rows)), FetchOutcome::Batch(_)));
        assert_eq!(s.offset(), expected);
    }
    assert_eq!(s.read_next(3, contract(), frame(0)), FetchOutcome::EndOfStream);
    assert_eq!(s.offset(), 10);
    assert!(s.is_exhausted());
}

#[test]
fn end_of_stream_is_kept() {
    let mut s = csv(Some(3));
    assert_eq!(s.read_next(3, contract(), frame(0)), FetchOutcome::EndOfStream);
    // Neither rows nor errors bring an exhausted source back.
    assert_eq!(s.read_next(3, contract(), frame(3)), FetchOutcome::EndOfStream);
    assert_eq!(s.read_next::<u8>(3, contract(), Err("late".to_string())), FetchOutcome::EndOfStream);
    assert_eq!(s.offset(), 0);
    assert!(s.is_exhausted());
}

#[test]
fn no_columns_is_the_end() {
    let mut s = csv(Some(3));
    assert_eq!(s.read_next(3, contract(), framed(Vec::new())), FetchOutcome::EndOfStream);
    assert!(s.is_exhausted());
}

#[test]
fn reset_reads_again() {
    let mut s = csv(Some(3));
    assert!(matches!(s.read_next(3, contract(), frame(3)), FetchOutcome::Batch(_)));
    assert_eq!(s.read_next(3, contract(), frame(0)), FetchOutcome::EndOfStream);
    s.override_offset(1);
    assert_eq!(s.offset(), 1);
    assert!(!s.is_exhausted());
    assert_eq!(s.request(3), ReadRequest { offset: 1, limit: 3 });
    assert!(matches!(s.read_next(3, contract(), frame(2)), FetchOutcome::Batch(_)));
    assert_eq!(s.offset(), 3);
}

fn failure(cause: FailureCause) -> FetchOutcome<u8> {
    FetchOutcome::Failure(Failure { source: "CSV", location: "data.csv".to_string(), cause })
}

#[test]
fn read_error_fails_the_fetch_and_keeps_the_cursor() {
    let mut s = csv(Some(3));
    assert!(matches!(s.read_next(3, contract(), frame(3)), FetchOutcome::Batch(_)));
    assert_eq!(s.read_next(3, contract(), Err("boom".to_string())), failure(FailureCause::Read("boom".to_string())));
    assert_eq!(s.offset(), 3);
    assert!(!s.is_exhausted());
}

#[test]
fn ragged_columns_fail_the_fetch() {
    let mut s = csv(Some(3));
    let columns = vec![col("a", LogicalType::Int64, 2), col("b", LogicalType::Boolean, 2), col("c", LogicalType::Int64, 3)];
    assert_eq!(s.read_next(3, contract(), framed(columns)), failure(FailureCause::Ragged { column: 2 }));
    // A first column without rows does not hide the others.
    let columns = vec![col("a", LogicalType::Int64, 0), col("b", LogicalType::Boolean, 2)];
    assert_eq!(s.read_next(3, contract(), framed(columns)), failure(FailureCause::Ragged { column: 1 }));
    assert_eq!(s.offset(), 0);
    assert!(!s.is_exhausted());
}

#[test]
fn more_rows_than_asked_for_fail_the_fetch() {
    let mut s = csv(Some(3));
    assert_eq!(s.read_next(100, contract(), frame(4)), failure(FailureCause::Oversized { rows: 4, limit: 3 }));
    assert_eq!(s.offset(), 0);
    let mut s = csv(None);
    assert_eq!(s.read_next(2, contract(), frame(3)), failure(FailureCause::Oversized { rows: 3, limit: 2 }));
    assert!(matches!(s.read_next(3, contract(), frame(3)), FetchOutcome::Batch(_)));
}

#[test]
fn changed_schema_fails_the_fetch() {
    let mut s = csv(Some(3));
    assert!(matches!(s.read_next(3, contract(), frame(3)), FetchOutcome::Batch(_)));
    // Another type.
    let columns = vec![col("a", LogicalType::Int32, 2), col("b", LogicalType::Boolean, 2)];
    assert_eq!(s.read_next(3, contract(), framed(columns)), failure(FailureCause::SchemaChanged));
    // Another name.
    let columns = vec![col("a", LogicalType::Int64, 2), col("c", LogicalType::Boolean, 2)];
    assert_eq!(s.read_next(3, contract(), framed(columns)), failure(FailureCause::SchemaChanged));
    // Another number of columns.
    let columns = vec![col("a", LogicalType::Int64, 2)];
    assert_eq!(s.read_next(3, contract(), framed(columns)), failure(FailureCause::SchemaChanged));
    // Another order.
    let columns = vec![col("b", LogicalType::Boolean, 2), col("a", LogicalType::Int64, 2)];
    assert_eq!(s.read_next(3, contract(), framed(columns)), failure(FailureCause::SchemaChanged));
    assert_eq!(s.offset(), 3);
    // The schema of the first batch still goes through, also after a reset.
    s.override_offset(0);
    assert!(matches!(s.read_next(3, contract(), frame(1)), FetchOutcome::Batch(_)));
    assert_eq!(s.offset(), 1);
}

#[test]
fn cursor_that_cannot_advance_fails_the_fetch() {
    let mut s = csv(Some(3));
    s.override_offset(usize::MAX - 1);
    assert_eq!(s.read_next(3, contract(), frame(2)), failure(FailureCause::CursorOverflow));
    assert_eq!(s.offset(), usize::MAX - 1);
    assert!(matches!(s.read_next(3, contract(), frame(1)), FetchOutcome::Batch(_)));
    assert_eq!(s.offset(), usize::MAX);
}

#[test]
fn failures_say_what_happened() {
    let text = |cause: FailureCause| Failure { source: "CSV", location: "data.csv".to_string(), cause }.reason();
    assert_eq!(text(FailureCause::Read("boom".to_string())), "Error reading from data.csv: boom");
    assert_eq!(
        text(FailureCause::Ragged { column: 1 }),
        "Error creating record batch; cannot convert dataframe to an Arrow record batch for file data.csv: columns differ in length"
    );
    assert_eq!(text(FailureCause::Oversized { rows: 4, limit: 3 }), "Error reading from data.csv: more rows than requested");
    assert_eq!(text(FailureCause::SchemaChanged), "Error reading from data.csv: schema differs from earlier batches");
    assert_eq!(text(FailureCause::CursorOverflow), "Error reading from data.csv: cursor overflow");
}

#[test]
fn data_source_forwards_to_its_backend() {
    let mut source = DataSource::CSV(csv(Some(2)).named("left"));
    assert_eq!(source.name(), "left");
    assert_eq!(source.batch_size(), Some(2));
    assert_eq!(source.request(5), ReadRequest { offset: 0, limit: 2 });
    assert!(matches!(source.fetch(5, contract(), frame(2)), FetchOutcome::Batch(_)));
    assert_eq!(source.request(5), ReadRequest { offset: 2, limit: 2 });
    assert_eq!(source.fetch(5, contract(), frame(0)), FetchOutcome::EndOfStream);
    assert_eq!(source.fetch(5, contract(), frame(2)), FetchOutcome::EndOfStream);
}

#[test]
fn copy_of_a_source_has_its_own_cursor() {
    let mut first = DataSource::CSV(csv(Some(2)));
    assert!(matches!(first.fetch(5, contract(), frame(2)), FetchOutcome::Batch(_)));
    let mut copy = first.duplicate();
    assert_eq!(copy.request(5), ReadRequest { offset: 2, limit: 2 });
    assert!(matches!(copy.fetch(5, contract(), frame(2)), FetchOutcome::Batch(_)));
    assert_eq!(copy.request(5), ReadRequest { offset: 4, limit: 2 });
    assert_eq!(first.request(5), ReadRequest { offset: 2, limit: 2 });
}

#[test]
fn copy_keeps_the_schema_that_was_fixed() {
    let mut first = csv(Some(2)).named("left");
    assert!(matches!(first.read_next(5, contract(), frame(2)), FetchOutcome::Batch(_)));
    let mut copy = first.duplicate();
    assert_eq!(copy.name(), "left");
    assert_eq!(copy.path(), "data.csv");
    assert_eq!(copy.fields(), first.fields());
    assert_eq!(copy.offset(), 2);
    assert_eq!(copy.batch_size(), Some(2));
    assert!(!copy.is_exhausted());
    let columns = vec![col("a", LogicalType::Int32, 2), col("b", LogicalType::Boolean, 2)];
    assert_eq!(copy.read_next(5, contract(), framed(columns)), FetchOutcome::Failure(Failure {
        source: "left",
        location: "data.csv".to_string(),
        cause: FailureCause::SchemaChanged
    }));
    assert!(matches!(copy.read_next(5, contract(), frame(2)), FetchOutcome::Batch(_)));
    assert_eq!(copy.offset(), 4);
    assert_eq!(first.offset(), 2);
    // An exhausted source is copied exhausted.
    assert_eq!(first.read_next(5, contract(), frame(0)), FetchOutcome::EndOfStream);
    assert!(first.duplicate().is_exhausted());
}

#[test]
fn unknown_field_is_refused_at_construction() {
    let fields = vec!["a".to_string(), "x".to_string(), "b".to_string(), "y".to_string()];
    let e = CSVSource::new("data.csv", fields, Some(3), Ok(header())).err().unwrap();
    assert_eq!(e, ConfigurationError::UnknownField { path: "data.csv".to_string(), field: "x".to_string() });
    assert_eq!(e.message(), "Unable to read from path data.csv: no column named x");
    // A file without columns has none of the fields.
    let e = CSVSource::new("data.csv", vec!["a".to_string()], None, Ok(Vec::new())).err().unwrap();
    assert_eq!(e, ConfigurationError::UnknownField { path: "data.csv".to_string(), field: "a".to_string() });
    // Names are compared exactly.
    let e = CSVSource::new("data.csv", vec!["A".to_string()], None, Ok(header())).err().unwrap();
    assert_eq!(e, ConfigurationError::UnknownField { path: "data.csv".to_string(), field: "A".to_string() });
    // No field, every column, a column twice: all fine.
    assert!(CSVSource::new("data.csv", Vec::new(), None, Ok(Vec::new())).is_ok());
    assert!(CSVSource::new("data.csv", header(), None, Ok(header())).is_ok());
    assert!(CSVSource::new("data.csv", vec!["c".to_string(), "c".to_string()], None, Ok(header())).is_ok());
    // An unreadable location is reported as such, whatever the fields.
    let e = CSVSource::new("data.csv", vec!["x".to_string()], None, Err("denied".to_string())).err().unwrap();
    assert_eq!(e, ConfigurationError::Unreadable { path: "data.csv".to_string(), reason: "denied".to_string() });
}

#[test]
fn batch_that_cannot_be_converted_fails_the_fetch_and_keeps_the_cursor() {
    let mut s = csv(Some(3));
    assert!(matches!(s.read_next(3, contract(), frame(3)), FetchOutcome::Batch(_)));
    // Read under another layout contract.
    let mut other = contract();
    other.version = 2;
    let columns = vec![col("a", LogicalType::Int64, 2), col("b", LogicalType::Boolean, 2)];
    assert_eq!(
        s.read_next(3, contract(), Ok(Frame { layout: other, columns, owner: 7u8 })),
        failure(FailureCause::Conversion(ConversionError::LayoutMismatch))
    );
    assert_eq!(s.offset(), 3);
    assert!(!s.is_exhausted());
    // A column whose buffers do not fit its type.
    let mut bad = col("b", LogicalType::Boolean, 2);
    bad.values.clear();
    assert_eq!(
        s.read_next(3, contract(), framed(vec![col("a", LogicalType::Int64, 2), bad])),
        failure(FailureCause::Conversion(ConversionError::MalformedColumn { column: 1 }))
    );
    assert_eq!(s.offset(), 3);
    assert_eq!(s.request(3), ReadRequest { offset: 3, limit: 3 });
    // The next batch that fits is delivered from where the cursor stood.
    assert!(matches!(s.read_next(3, contract(), frame(2)), FetchOutcome::Batch(_)));
    assert_eq!(s.offset(), 5);
}

#[test]
fn batch_without_description_does_not_fix_the_schema() {
    let mut s = csv(Some(3));
    let columns = vec![col("a", LogicalType::Other, 2), col("b", LogicalType::Boolean, 2)];
    assert_eq!(
        s.read_next(3, contract(), framed(columns)),
        failure(FailureCause::Conversion(ConversionError::UnsupportedType { column: 0 }))
    );
    assert_eq!(s.offset(), 0);
    // The failed fetch left no schema behind: these columns are the first.
    assert!(matches!(s.read_next(3, contract(), frame(3)), FetchOutcome::Batch(_)));
    assert_eq!(s.offset(), 3);
    // A changed schema is found before the exchange format is asked.
    let columns = vec![col("a", LogicalType::Other, 2), col("b", LogicalType::Boolean, 2)];
    assert_eq!(s.read_next(3, contract(), framed(columns)), failure(FailureCause::SchemaChanged));
}
