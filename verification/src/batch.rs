//! The internal columnar batch: named, typed columns of equal length whose
//! values live in buffers owned elsewhere and known here by identity.

use vstd::prelude::*;

verus! {

/// Logical type tag of a column.
#[derive(Clone, Copy, Debug, PartialEq, Eq, Structural)]
pub enum LogicalType {
    Boolean,
    Int32,
    Int64,
    UInt32,
    UInt64,
    Float32,
    Float64,
    Date32,
    LargeUtf8,
    Utf8View,
    /// Any type the exchange format of this library has no description for.
    Other,
}

/// A contiguous region of storage, identified by where it lives and how many
/// bytes it spans. Two buffers with the same `id` are the same storage.
#[derive(Clone, Copy, Debug, PartialEq, Eq, Structural)]
pub struct Buffer {
    /// Identity of the storage: its address.
    pub id: usize,
    /// Size in bytes.
    pub len: usize,
}

/// The versioned description of the binary records through which arrays and
/// their schemas are handed over. Records made under one contract may only
/// be read under an equal one.
#[derive(Clone, Copy, Debug, PartialEq, Eq, Structural)]
pub struct LayoutContract {
    /// Version tag of the layout.
    pub version: u32,
    /// Size and alignment of the record that describes an array, in bytes.
    pub array_size: usize,
    pub array_align: usize,
    /// Size and alignment of the record that describes a schema, in bytes.
    pub schema_size: usize,
    pub schema_align: usize,
}

/// One column: a validity mask, its value buffers and a type tag.
#[derive(Debug, PartialEq, Eq)]
pub struct Column {
    pub name: String,
    pub dtype: LogicalType,
    /// Number of rows.
    pub len: usize,
    pub null_count: usize,
    /// The null mask; may be absent where no value is null.
    pub validity: Option<Buffer>,
    /// The value buffers, in the order of the type's layout: one for a
    /// fixed-width type, offsets and bytes for text, views and data for text
    /// views.
    pub values: Vec<Buffer>,
}

/// What a backend hands over after reading one window of rows: the
/// description of the columns, and the owner that keeps their buffers alive.
#[derive(Debug, PartialEq, Eq)]
pub struct Frame<P> {
    pub layout: LayoutContract,
    pub columns: Vec<Column>,
    pub owner: P,
}

/// A batch in transit: the columns of one successful fetch and the owner of
/// their buffers, tagged with the source that produced them. A batch is
/// handed on whole and never copied.
#[derive(Debug, PartialEq, Eq)]
pub struct Batch<P> {
    pub source: &'static str,
    pub location: String,
    pub layout: LayoutContract,
    pub columns: Vec<Column>,
    pub rows: usize,
    pub owner: P,
}

/// Row count of a list of columns: the length of the first, 0 if there is none.
pub open spec fn row_count(columns: Seq<Column>) -> usize {
    if columns.len() == 0 {
        0
    } else {
        columns[0].len
    }
}

/// Index of the first column from `from` on whose length is not `rows`, if any.
pub open spec fn first_ragged(columns: Seq<Column>, rows: usize, from: int) -> Option<int>
    decreases columns.len() - from,
{
    if from < 0 || from >= columns.len() {
        None
    } else if columns[from].len != rows {
        Some(from)
    } else {
        first_ragged(columns, rows, from + 1)
    }
}

/// All columns have `rows` rows.
pub open spec fn rectangular(columns: Seq<Column>, rows: usize) -> bool {
    forall|i: int| 0 <= i < columns.len() ==> (#[trigger] columns[i]).len == rows
}

impl<P> Batch<P> {
    /// Every column has exactly `rows` rows.
    pub open spec fn is_rectangular(&self) -> bool {
        rectangular(self.columns@, self.rows)
    }
}

/// Finds the first column whose length differs from that of the first one.
pub fn find_ragged(columns: &Vec<Column>) -> (r: Option<usize>)
    ensures
        match r {
            Some(k) => first_ragged(columns@, row_count(columns@), 0) == Some(k as int),
            None => first_ragged(columns@, row_count(columns@), 0) is None,
        },
        r is None <==> rectangular(columns@, row_count(columns@)),
{
    if columns.len() == 0 {
        return None;
    }
    let rows: usize = columns[0].len;
    let mut i: usize = 0;
    while i < columns.len()
        invariant
            i <= columns.len(),
            columns.len() > 0,
            rows == row_count(columns@),
            first_ragged(columns@, rows, 0) == first_ragged(columns@, rows, i as int),
            forall|j: int| 0 <= j < i ==> (#[trigger] columns@[j]).len == rows,
        decreases columns.len() - i,
    {
        if columns[i].len != rows {
            return Some(i);
        }
        i += 1;
    }
    None
}

} // verus!
