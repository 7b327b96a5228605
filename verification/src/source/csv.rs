//! The file-backed source: a location, a projection, a batch size and a
//! cursor that counts the rows delivered so far.

use crate::batch::{
    find_ragged, rectangular, row_count, Batch, Column, Frame, LayoutContract, LogicalType,
};
use crate::exchange::{check_columns, columns_error};
use crate::outcome::{ConfigurationError, Failure, FailureCause, FetchOutcome};
use vstd::prelude::*;
use vstd::string::StringExecFns;

verus! {

/// The window of rows that the backend is asked to read.
#[derive(Clone, Copy, Debug, PartialEq, Eq, Structural)]
pub struct ReadRequest {
    /// Index of the first row.
    pub offset: i64,
    /// Largest number of rows wanted.
    pub limit: u32,
}

/// Name and type of one column of a source's schema.
#[derive(Debug, PartialEq, Eq)]
pub struct FieldType {
    pub name: String,
    pub dtype: LogicalType,
}

/// Names and types of a list of columns, in order.
pub open spec fn schema_of(columns: Seq<Column>) -> Seq<(Seq<char>, LogicalType)> {
    Seq::new(columns.len(), |i: int| (columns[i].name@, columns[i].dtype))
}

/// Names and types of a remembered schema, in order.
pub open spec fn schema_view(fields: Seq<FieldType>) -> Seq<(Seq<char>, LogicalType)> {
    Seq::new(fields.len(), |i: int| (fields[i].name@, fields[i].dtype))
}

/// The largest window length that a batch size asks for.
pub open spec fn limit_of(batch_size: usize) -> u32 {
    if batch_size > u32::MAX {
        u32::MAX
    } else {
        batch_size as u32
    }
}

/// The window offset for a cursor: the cursor itself, or the largest offset
/// there is where the cursor lies beyond it.
pub open spec fn offset_of(cursor: usize) -> i64 {
    if cursor > i64::MAX {
        i64::MAX
    } else {
        cursor as i64
    }
}

/// What a source is, as far as its behaviour goes.
pub struct SourceState {
    pub name: &'static str,
    pub path: String,
    pub fields: Seq<String>,
    /// The cursor: rows delivered since construction or the last reset.
    pub offset: usize,
    pub batch_size: Option<usize>,
    /// Set once the end of the stream was seen.
    pub exhausted: bool,
    /// Names and types of the first batch delivered, once there was one.
    pub schema: Option<Seq<(Seq<char>, LogicalType)>>,
}

/// How a fetch is judged, before the outcome is built.
pub enum Verdict {
    End,
    Fail(FailureCause),
    Deliver,
}

impl SourceState {
    /// The batch size in force: the source's own, else the given default.
    pub open spec fn batch_size_or(self, default_batch_size: usize) -> usize {
        match self.batch_size {
            Some(n) => n,
            None => default_batch_size,
        }
    }

    /// The window to read next.
    pub open spec fn request(self, default_batch_size: usize) -> ReadRequest {
        ReadRequest {
            offset: offset_of(self.offset),
            limit: limit_of(self.batch_size_or(default_batch_size)),
        }
    }

    /// Judges what was read. An exhausted source stays at its end whatever was
    /// read. A read error fails the fetch. Columns are then checked in this
    /// order: equal lengths, no rows (the end), no more rows than asked for,
    /// the schema of earlier batches, a description in the exchange format
    /// whose layout contract is `exchange`, room for the cursor.
    pub open spec fn verdict<P>(
        self,
        default_batch_size: usize,
        exchange: LayoutContract,
        read: Result<Frame<P>, String>,
    ) -> Verdict {
        if self.exhausted {
            Verdict::End
        } else {
            match read {
                Err(text) => Verdict::Fail(FailureCause::Read(text)),
                Ok(frame) => {
                    let columns = frame.columns@;
                    let rows = row_count(columns);
                    let limit = limit_of(self.batch_size_or(default_batch_size));
                    if !rectangular(columns, rows) {
                        Verdict::Fail(
                            FailureCause::Ragged {
                                column: crate::batch::first_ragged(columns, rows, 0).unwrap() as usize,
                            },
                        )
                    } else if rows == 0 {
                        Verdict::End
                    } else if rows > limit {
                        Verdict::Fail(FailureCause::Oversized { rows, limit })
                    } else if self.schema is Some && self.schema.unwrap() != schema_of(columns) {
                        Verdict::Fail(FailureCause::SchemaChanged)
                    } else if columns_error(frame.layout, columns, rows, exchange) is Some {
                        Verdict::Fail(
                            FailureCause::Conversion(
                                columns_error(frame.layout, columns, rows, exchange).unwrap(),
                            ),
                        )
                    } else if self.offset + rows > usize::MAX {
                        Verdict::Fail(FailureCause::CursorOverflow)
                    } else {
                        Verdict::Deliver
                    }
                },
            }
        }
    }

    /// The outcome of the fetch that `read` completes.
    pub open spec fn outcome<P>(
        self,
        default_batch_size: usize,
        exchange: LayoutContract,
        read: Result<Frame<P>, String>,
    ) -> FetchOutcome<P> {
        match self.verdict(default_batch_size, exchange, read) {
            Verdict::End => FetchOutcome::EndOfStream,
            Verdict::Fail(cause) => FetchOutcome::Failure(
                Failure { source: self.name, location: self.path, cause },
            ),
            Verdict::Deliver => FetchOutcome::Batch(
                Batch {
                    source: self.name,
                    location: self.path,
                    layout: read.unwrap().layout,
                    columns: read.unwrap().columns,
                    rows: row_count(read.unwrap().columns@),
                    owner: read.unwrap().owner,
                },
            ),
        }
    }

    /// The source after that fetch: the cursor moves by the rows delivered and
    /// only then; the end, once seen, is remembered; the first batch fixes the
    /// schema; a failed fetch changes nothing.
    pub open spec fn after<P>(
        self,
        default_batch_size: usize,
        exchange: LayoutContract,
        read: Result<Frame<P>, String>,
    ) -> SourceState {
        match self.verdict(default_batch_size, exchange, read) {
            Verdict::End => SourceState { exhausted: true, ..self },
            Verdict::Fail(_) => self,
            Verdict::Deliver => SourceState {
                offset: (self.offset + row_count(read.unwrap().columns@)) as usize,
                schema: Some(schema_of(read.unwrap().columns@)),
                ..self
            },
        }
    }
}

/// `name` is the name of one of `columns`.
pub open spec fn has_column(columns: Seq<String>, name: Seq<char>) -> bool {
    exists|j: int| 0 <= j < columns.len() && (#[trigger] columns[j])@ == name
}

/// Index of the first projected field from `from` on that is not the name of
/// any of `columns`, if there is one.
pub open spec fn first_unknown(fields: Seq<String>, columns: Seq<String>, from: int) -> Option<int>
    decreases fields.len() - from,
{
    if from < 0 || from >= fields.len() {
        None
    } else if !has_column(columns, fields[from]@) {
        Some(from)
    } else {
        first_unknown(fields, columns, from + 1)
    }
}

fn is_column(columns: &Vec<String>, name: &String) -> (r: bool)
    ensures
        r == has_column(columns@, name@),
{
    let mut j: usize = 0;
    while j < columns.len()
        invariant
            j <= columns.len(),
            forall|k: int| 0 <= k < j ==> (#[trigger] columns@[k])@ != name@,
        decreases columns.len() - j,
    {
        if columns[j] == *name {
            return true;
        }
        j += 1;
    }
    false
}

fn find_unknown(fields: &Vec<String>, columns: &Vec<String>) -> (r: Option<usize>)
    ensures
        match r {
            Some(k) => k < fields@.len() && first_unknown(fields@, columns@, 0) == Some(k as int),
            None => first_unknown(fields@, columns@, 0) is None,
        },
{
    let mut i: usize = 0;
    while i < fields.len()
        invariant
            i <= fields.len(),
            first_unknown(fields@, columns@, 0) == first_unknown(fields@, columns@, i as int),
        decreases fields.len() - i,
    {
        if !is_column(columns, &fields[i]) {
            return Some(i);
        }
        i += 1;
    }
    None
}

/// A source that reads a delimited text file window by window.
#[derive(Debug)]
pub struct CSVSource {
    name: &'static str,
    path: String,
    fields: Vec<String>,
    offset: usize,
    batch_size: Option<usize>,
    exhausted: bool,
    schema: Option<Vec<FieldType>>,
}

fn remember(columns: &Vec<Column>) -> (r: Vec<FieldType>)
    ensures
        schema_view(r@) == schema_of(columns@),
{
    let mut out: Vec<FieldType> = Vec::new();
    let mut i: usize = 0;
    while i < columns.len()
        invariant
            i <= columns.len(),
            out@.len() == i,
            forall|j: int|
                0 <= j < i ==> (#[trigger] out@[j]).name@ == columns@[j].name@ && out@[j].dtype
                    == columns@[j].dtype,
        decreases columns.len() - i,
    {
        out.push(FieldType { name: columns[i].name.clone(), dtype: columns[i].dtype });
        i += 1;
    }
    assert(schema_view(out@) =~= schema_of(columns@));
    out
}

fn same_schema(schema: &Vec<FieldType>, columns: &Vec<Column>) -> (r: bool)
    ensures
        r == (schema_view(schema@) == schema_of(columns@)),
{
    if schema.len() != columns.len() {
        assert(schema_view(schema@).len() != schema_of(columns@).len());
        return false;
    }
    let mut i: usize = 0;
    while i < columns.len()
        invariant
            i <= columns.len(),
            schema.len() == columns.len(),
            forall|j: int|
                0 <= j < i ==> (#[trigger] schema@[j]).name@ == columns@[j].name@ && schema@[j].dtype
                    == columns@[j].dtype,
        decreases columns.len() - i,
    {
        if schema[i].name != columns[i].name || schema[i].dtype != columns[i].dtype {
            assert(schema_view(schema@)[i as int] != schema_of(columns@)[i as int]);
            return false;
        }
        i += 1;
    }
    assert(schema_view(schema@) =~= schema_of(columns@));
    true
}

impl CSVSource {
    pub closed spec fn view(&self) -> SourceState {
        SourceState {
            name: self.name,
            path: self.path,
            fields: self.fields@,
            offset: self.offset,
            batch_size: self.batch_size,
            exhausted: self.exhausted,
            schema: match self.schema {
                Some(fields) => Some(schema_view(fields@)),
                None => None,
            },
        }
    }

    /// Makes the source for `path` from what opening it gave: the names of
    /// the location's columns on success, the reason where the location or
    /// its schema could not be read. Every projected field has to be the
    /// name of a column: the first that is not is refused here, so that it
    /// never comes up as a failed fetch. The cursor starts at 0.
    pub fn new(
        path: &str,
        fields: Vec<String>,
        batch_size: Option<usize>,
        opened: Result<Vec<String>, String>,
    ) -> (r: Result<CSVSource, ConfigurationError>)
        ensures
            match r {
                Ok(source) => {
                    &&& opened matches Ok(columns)
                    &&& first_unknown(fields@, columns@, 0) is None
                    &&& source@.name == "CSV"
                    &&& source@.path@ == path@
                    &&& source@.fields == fields@
                    &&& source@.offset == 0
                    &&& source@.batch_size == batch_size
                    &&& !source@.exhausted
                    &&& source@.schema is None
                },
                Err(e) => match opened {
                    Err(reason) => {
                        &&& e matches ConfigurationError::Unreadable { path: p, reason: given }
                        &&& p@ == path@
                        &&& given == reason
                    },
                    Ok(columns) => {
                        &&& first_unknown(fields@, columns@, 0) matches Some(k)
                        &&& e matches ConfigurationError::UnknownField { path: p, field }
                        &&& p@ == path@
                        &&& field == fields@[k]
                    },
                },
            },
    {
        let columns = match opened {
            Err(reason) => {
                return Err(ConfigurationError::Unreadable { path: String::from_str(path), reason });
            },
            Ok(columns) => columns,
        };
        match find_unknown(&fields, &columns) {
            Some(k) => Err(
                ConfigurationError::UnknownField {
                    path: String::from_str(path),
                    field: fields[k].clone(),
                },
            ),
            None => Ok(
                CSVSource {
                    name: "CSV",
                    path: String::from_str(path),
                    fields,
                    offset: 0,
                    batch_size,
                    exhausted: false,
                    schema: None,
                },
            ),
        }
    }

    /// The same source under another name.
    pub fn named(self, name: &'static str) -> (r: CSVSource)
        ensures
            r@ == (SourceState { name, ..self@ }),
    {
        CSVSource { name, ..self }
    }

    pub fn name(&self) -> (r: &'static str)
        ensures
            r == self@.name,
    {
        self.name
    }

    pub fn path(&self) -> (r: &String)
        ensures
            *r == self@.path,
    {
        &self.path
    }

    pub fn fields(&self) -> (r: &Vec<String>)
        ensures
            r@ == self@.fields,
    {
        &self.fields
    }

    pub fn offset(&self) -> (r: usize)
        ensures
            r == self@.offset,
    {
        self.offset
    }

    pub fn batch_size(&self) -> (r: Option<usize>)
        ensures
            r == self@.batch_size,
    {
        self.batch_size
    }

    pub fn is_exhausted(&self) -> (r: bool)
        ensures
            r == self@.exhausted,
    {
        self.exhausted
    }

    /// Another handle on the same location, with the same configuration and
    /// a cursor of its own that starts where this one stands. Only the
    /// description is copied; whatever reads the location is shared by the
    /// caller.
    pub fn duplicate(&self) -> (r: CSVSource)
        ensures
            r@ == self@,
    {
        let mut fields: Vec<String> = Vec::new();
        let mut i: usize = 0;
        while i < self.fields.len()
            invariant
                i <= self.fields.len(),
                fields@ == self.fields@.take(i as int),
            decreases self.fields.len() - i,
        {
            fields.push(self.fields[i].clone());
            assert(self.fields@.take(i + 1) == self.fields@.take(i as int).push(self.fields@[i as int]));
            i += 1;
        }
        assert(self.fields@.take(self.fields.len() as int) == self.fields@);
        let schema = match &self.schema {
            Some(known) => {
                let mut copy: Vec<FieldType> = Vec::new();
                let mut j: usize = 0;
                while j < known.len()
                    invariant
                        j <= known.len(),
                        copy@ == known@.take(j as int),
                    decreases known.len() - j,
                {
                    copy.push(FieldType { name: known[j].name.clone(), dtype: known[j].dtype });
                    assert(known@.take(j + 1) == known@.take(j as int).push(known@[j as int]));
                    j += 1;
                }
                assert(known@.take(known.len() as int) == known@);
                Some(copy)
            },
            None => None,
        };
        CSVSource {
            name: self.name,
            path: self.path.clone(),
            fields,
            offset: self.offset,
            batch_size: self.batch_size,
            exhausted: self.exhausted,
            schema,
        }
    }

    /// The explicit reset: puts the cursor at `new_offset` and lets the source
    /// be read again from there.
    pub fn override_offset(&mut self, new_offset: usize)
        ensures
            final(self)@ == (SourceState { offset: new_offset, exhausted: false, ..old(self)@ }),
    {
        self.offset = new_offset;
        self.exhausted = false;
    }

    /// The window that the next fetch reads.
    pub fn request(&self, default_batch_size: usize) -> (r: ReadRequest)
        ensures
            r == self@.request(default_batch_size),
    {
        let size: usize = match self.batch_size {
            Some(n) => n,
            None => default_batch_size,
        };
        let limit: u32 = if size > u32::MAX as usize {
            u32::MAX
        } else {
            size as u32
        };
        let offset: i64 = if self.offset as u64 > i64::MAX as u64 {
            i64::MAX
        } else {
            self.offset as i64
        };
        ReadRequest { offset, limit }
    }

    /// Completes one fetch with what the backend read for the window of
    /// `request`: judges it, moves the cursor past the rows delivered and
    /// hands the outcome out. Only a batch that can be described in the
    /// exchange format whose layout contract is `exchange` is delivered; a
    /// fetch that fails for whatever reason leaves the source as it was.
    pub fn read_next<P>(
        &mut self,
        default_batch_size: usize,
        exchange: LayoutContract,
        read: Result<Frame<P>, String>,
    ) -> (r: FetchOutcome<P>)
        ensures
            r == old(self)@.outcome(default_batch_size, exchange, read),
            final(self)@ == old(self)@.after(default_batch_size, exchange, read),
    {
        if self.exhausted {
            return FetchOutcome::EndOfStream;
        }
        let frame = match read {
            Err(text) => {
                return FetchOutcome::Failure(self.failure(FailureCause::Read(text)));
            },
            Ok(frame) => frame,
        };
        let rows: usize = if frame.columns.len() == 0 {
            0
        } else {
            frame.columns[0].len
        };
        match find_ragged(&frame.columns) {
            Some(column) => {
                return FetchOutcome::Failure(self.failure(FailureCause::Ragged { column }));
            },
            None => {},
        }
        if rows == 0 {
            self.exhausted = true;
            return FetchOutcome::EndOfStream;
        }
        let request = self.request(default_batch_size);
        if rows > request.limit as usize {
            return FetchOutcome::Failure(
                self.failure(FailureCause::Oversized { rows, limit: request.limit }),
            );
        }
        let known: bool = match &self.schema {
            Some(schema) => same_schema(schema, &frame.columns),
            None => true,
        };
        if !known {
            return FetchOutcome::Failure(self.failure(FailureCause::SchemaChanged));
        }
        match check_columns(&frame.layout, &frame.columns, rows, &exchange) {
            Some(e) => {
                return FetchOutcome::Failure(self.failure(FailureCause::Conversion(e)));
            },
            None => {},
        }
        let next: usize = match self.offset.checked_add(rows) {
            Some(next) => next,
            None => {
                return FetchOutcome::Failure(self.failure(FailureCause::CursorOverflow));
            },
        };
        if self.schema.is_none() {
            self.schema = Some(remember(&frame.columns));
        }
        self.offset = next;
        FetchOutcome::Batch(
            Batch {
                source: self.name,
                location: self.path.clone(),
                layout: frame.layout,
                columns: frame.columns,
                rows,
                owner: frame.owner,
            },
        )
    }

    fn failure(&self, cause: FailureCause) -> (r: Failure)
        ensures
            r == (Failure { source: self@.name, location: self@.path, cause }),
    {
        Failure { source: self.name, location: self.path.clone(), cause }
    }
}

} // verus!
