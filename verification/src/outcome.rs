//! What a fetch can end in, and the errors of the library.

use crate::batch::Batch;
use crate::exchange::ConversionError;
use vstd::prelude::*;
use vstd::string::StringExecFns;

verus! {

/// Why one fetch of one source failed.
#[derive(Debug, PartialEq, Eq)]
pub enum FailureCause {
    /// The backend could not read or decode; the text is its own account.
    Read(String),
    /// The column at this index differs in length from the first column.
    Ragged { column: usize },
    /// The backend delivered more rows than it was asked for.
    Oversized { rows: usize, limit: u32 },
    /// Column names or types differ from those of the source's earlier batches.
    SchemaChanged,
    /// The cursor cannot be advanced past the rows delivered.
    CursorOverflow,
    /// The batch could not be described in the exchange format.
    Conversion(ConversionError),
}

/// A failure of one source, tagged with the source's name and location.
#[derive(Debug, PartialEq, Eq)]
pub struct Failure {
    pub source: &'static str,
    pub location: String,
    pub cause: FailureCause,
}

/// The result of one fetch.
#[derive(Debug, PartialEq, Eq)]
pub enum FetchOutcome<P> {
    Batch(Batch<P>),
    EndOfStream,
    Failure(Failure),
}

/// What travels to the consumer: a batch or the failure of a source.
#[derive(Debug, PartialEq, Eq)]
pub enum Payload<P> {
    Batch(Batch<P>),
    Failure(Failure),
}

/// One item in transit, with the index of the source it came from.
#[derive(Debug, PartialEq, Eq)]
pub struct StreamItem<P> {
    pub origin: usize,
    pub payload: Payload<P>,
}

/// A breach of the rules by the code that drives the streamer. It is never
/// recovered from: the streamer halts.
#[derive(Clone, Copy, Debug, PartialEq, Eq, Structural)]
pub enum ProtocolViolation {
    /// A fetch was completed for a source that does not exist.
    UnknownSource { source: usize },
    /// A fetch was completed for a source that has none in flight: a second
    /// writer of its cursor.
    NotFetching { source: usize },
    /// A fetch was completed while an earlier item still waits for room in
    /// the channel.
    SendInProgress,
}

/// Raised at construction, before anything streams.
#[derive(Debug, PartialEq, Eq)]
pub enum ConfigurationError {
    /// The location could not be opened or its schema could not be read.
    Unreadable { path: String, reason: String },
    /// A projected field is not the name of any column of the location.
    UnknownField { path: String, field: String },
    /// A channel needs room for at least one item.
    ZeroCapacity,
}

/// How the account of a failure begins, before the location.
pub open spec fn headline(cause: FailureCause) -> Seq<char> {
    match cause {
        FailureCause::Ragged { .. } =>
            "Error creating record batch; cannot convert dataframe to an Arrow record batch for file "@,
        FailureCause::Conversion(_) => "FFI Import Error while converting to arrow data for file "@,
        _ => "Error reading from "@,
    }
}

/// What the account of a failure says after the location.
pub open spec fn detail(cause: FailureCause) -> Seq<char> {
    match cause {
        FailureCause::Read(text) => text@,
        FailureCause::Ragged { .. } => "columns differ in length"@,
        FailureCause::Oversized { .. } => "more rows than requested"@,
        FailureCause::SchemaChanged => "schema differs from earlier batches"@,
        FailureCause::CursorOverflow => "cursor overflow"@,
        FailureCause::Conversion(ConversionError::LayoutMismatch) => "layout contract mismatch"@,
        FailureCause::Conversion(ConversionError::UnsupportedType { .. }) => "unsupported type"@,
        FailureCause::Conversion(ConversionError::MalformedColumn { .. }) => "malformed column"@,
    }
}

fn headline_of(cause: &FailureCause) -> (r: &'static str)
    ensures
        r@ == headline(*cause),
{
    match cause {
        FailureCause::Ragged { .. } =>
            "Error creating record batch; cannot convert dataframe to an Arrow record batch for file ",
        FailureCause::Conversion(_) => "FFI Import Error while converting to arrow data for file ",
        _ => "Error reading from ",
    }
}

fn detail_of<'a>(cause: &'a FailureCause) -> (r: &'a str)
    ensures
        r@ == detail(*cause),
{
    match cause {
        FailureCause::Read(text) => text.as_str(),
        FailureCause::Ragged { .. } => "columns differ in length",
        FailureCause::Oversized { .. } => "more rows than requested",
        FailureCause::SchemaChanged => "schema differs from earlier batches",
        FailureCause::CursorOverflow => "cursor overflow",
        FailureCause::Conversion(ConversionError::LayoutMismatch) => "layout contract mismatch",
        FailureCause::Conversion(ConversionError::UnsupportedType { .. }) => "unsupported type",
        FailureCause::Conversion(ConversionError::MalformedColumn { .. }) => "malformed column",
    }
}

impl Failure {
    /// The cause in words: a headline, the location, a colon and the detail.
    pub open spec fn reason_text(&self) -> Seq<char> {
        headline(self.cause) + self.location@ + ": "@ + detail(self.cause)
    }

    /// The text of the underlying cause.
    pub fn reason(&self) -> (r: String)
        ensures
            r@ == self.reason_text(),
    {
        let mut text = String::from_str(headline_of(&self.cause));
        text.append(self.location.as_str());
        text.append(": ");
        text.append(detail_of(&self.cause));
        text
    }
}

impl ConfigurationError {
    pub open spec fn message_text(&self) -> Seq<char> {
        match self {
            ConfigurationError::Unreadable { path, reason } => "Unable to read from path "@ + path@
                + ": "@ + reason@,
            ConfigurationError::UnknownField { path, field } => "Unable to read from path "@ + path@
                + ": no column named "@ + field@,
            ConfigurationError::ZeroCapacity => "channel capacity must be at least 1"@,
        }
    }

    /// The error in words.
    pub fn message(&self) -> (r: String)
        ensures
            r@ == self.message_text(),
    {
        match self {
            ConfigurationError::Unreadable { path, reason } => {
                let mut text = String::from_str("Unable to read from path ");
                text.append(path.as_str());
                text.append(": ");
                text.append(reason.as_str());
                text
            },
            ConfigurationError::UnknownField { path, field } => {
                let mut text = String::from_str("Unable to read from path ");
                text.append(path.as_str());
                text.append(": no column named ");
                text.append(field.as_str());
                text
            },
            ConfigurationError::ZeroCapacity => String::from_str("channel capacity must be at least 1"),
        }
    }
}

impl ProtocolViolation {
    pub open spec fn message_text(&self) -> Seq<char> {
        match self {
            ProtocolViolation::UnknownSource { .. } => "fetch completed for a source that does not exist"@,
            ProtocolViolation::NotFetching { .. } =>
                "fetch completed for a source that has none in flight"@,
            ProtocolViolation::SendInProgress => "fetch completed while an item waits for the channel"@,
        }
    }

    /// The breach in words.
    pub fn message(&self) -> (r: &'static str)
        ensures
            r@ == self.message_text(),
    {
        match self {
            ProtocolViolation::UnknownSource { .. } => "fetch completed for a source that does not exist",
            ProtocolViolation::NotFetching { .. } => "fetch completed for a source that has none in flight",
            ProtocolViolation::SendInProgress => "fetch completed while an item waits for the channel",
        }
    }
}

} // verus!
