//! Zero-copy conversion of a batch into the exchange format: the buffers are
//! described again, never duplicated.

use crate::batch::{Batch, Buffer, Column, LayoutContract, LogicalType};
use arrow::datatypes::DataType;
use arrow::ffi::FFI_ArrowSchema;
use vstd::prelude::*;
use vstd::string::StringExecFns;

verus! {

/// Description of one column's type in the exchange schema.
#[derive(Debug, PartialEq, Eq)]
pub struct ExchangeField {
    pub name: String,
    pub dtype: LogicalType,
    /// Type description string of the Arrow C data interface.
    pub format: String,
}

/// Description of one column's data in the exchange format. The buffers are
/// those of the column it was made from.
#[derive(Debug, PartialEq, Eq)]
pub struct ExchangeArray {
    pub length: usize,
    pub null_count: usize,
    pub validity: Option<Buffer>,
    pub values: Vec<Buffer>,
}

/// A batch in the exchange format.
#[derive(Debug, PartialEq, Eq)]
pub struct ExchangeBatch {
    pub fields: Vec<ExchangeField>,
    pub arrays: Vec<ExchangeArray>,
    pub rows: usize,
}

/// Why a batch could not be described in the exchange format.
#[derive(Clone, Copy, Debug, PartialEq, Eq, Structural)]
pub enum ConversionError {
    /// The batch was produced under another layout contract than the
    /// exchange format's.
    LayoutMismatch,
    /// The column at this index has a type without an exchange description.
    UnsupportedType { column: usize },
    /// The buffers of the column at this index do not fit its type.
    MalformedColumn { column: usize },
}

/// The type description string of each supported logical type.
pub open spec fn format_of(dtype: LogicalType) -> Seq<char> {
    match dtype {
        LogicalType::Boolean => "b"@,
        LogicalType::Int32 => "i"@,
        LogicalType::Int64 => "l"@,
        LogicalType::UInt32 => "I"@,
        LogicalType::UInt64 => "L"@,
        LogicalType::Float32 => "f"@,
        LogicalType::Float64 => "g"@,
        LogicalType::Date32 => "tdD"@,
        LogicalType::LargeUtf8 => "U"@,
        LogicalType::Utf8View => "vu"@,
        LogicalType::Other => Seq::empty(),
    }
}

/// Asks `arrow::ffi::FFI_ArrowSchema::try_from(&DataType)` for the schema of
/// the arrow type that corresponds to `dtype` and returns its `format()`.
/// Taken from arrow's source and not proved here: for each of the ten
/// supported types the call succeeds, and the format is the string that
/// `format_of` lists for it.
#[verifier::external_body]
fn arrow_format(dtype: LogicalType) -> (format: Option<String>)
    requires
        dtype != LogicalType::Other,
    ensures
        format is Some,
        format.unwrap()@ == format_of(dtype),
{
    let data_type = match dtype {
        LogicalType::Boolean => DataType::Boolean,
        LogicalType::Int32 => DataType::Int32,
        LogicalType::Int64 => DataType::Int64,
        LogicalType::UInt32 => DataType::UInt32,
        LogicalType::UInt64 => DataType::UInt64,
        LogicalType::Float32 => DataType::Float32,
        LogicalType::Float64 => DataType::Float64,
        LogicalType::Date32 => DataType::Date32,
        LogicalType::LargeUtf8 => DataType::LargeUtf8,
        LogicalType::Utf8View => DataType::Utf8View,
        LogicalType::Other => DataType::Null,
    };
    FFI_ArrowSchema::try_from(&data_type).ok().map(|schema| schema.format().to_string())
}

/// How many value buffers a column of this type may have.
pub open spec fn accepts_buffers(dtype: LogicalType, count: nat) -> bool {
    match dtype {
        LogicalType::LargeUtf8 => count == 2,
        LogicalType::Utf8View => count >= 1,
        LogicalType::Other => false,
        _ => count == 1,
    }
}

/// The column's counts and buffers fit its type and the batch's row count.
pub open spec fn well_laid_out(c: Column, rows: usize) -> bool {
    &&& c.len == rows
    &&& c.null_count <= c.len
    &&& c.null_count > 0 ==> c.validity is Some
    &&& accepts_buffers(c.dtype, c.values@.len())
}

/// What, if anything, keeps the column at `index` out of the exchange format.
pub open spec fn column_defect(c: Column, rows: usize, index: usize) -> Option<ConversionError> {
    if c.dtype == LogicalType::Other {
        Some(ConversionError::UnsupportedType { column: index })
    } else if !well_laid_out(c, rows) {
        Some(ConversionError::MalformedColumn { column: index })
    } else {
        None
    }
}

/// The defect of the first defective column from `from` on, if any.
pub open spec fn first_defect(columns: Seq<Column>, rows: usize, from: int) -> Option<ConversionError>
    decreases columns.len() - from,
{
    if from < 0 || from >= columns.len() {
        None
    } else if column_defect(columns[from], rows, from as usize) is Some {
        column_defect(columns[from], rows, from as usize)
    } else {
        first_defect(columns, rows, from + 1)
    }
}

/// What keeps columns of `rows` rows, produced under `layout`, out of the
/// exchange format whose layout contract is `exchange`; `None` if nothing
/// does. A layout contract that differs from the exchange format's is found
/// before any column is looked at.
pub open spec fn columns_error(
    layout: LayoutContract,
    columns: Seq<Column>,
    rows: usize,
    exchange: LayoutContract,
) -> Option<ConversionError> {
    if layout != exchange {
        Some(ConversionError::LayoutMismatch)
    } else {
        first_defect(columns, rows, 0)
    }
}

/// The error with which the conversion of `batch` fails, `None` if it
/// succeeds.
pub open spec fn conversion_error<P>(batch: Batch<P>, exchange: LayoutContract) -> Option<
    ConversionError,
> {
    columns_error(batch.layout, batch.columns@, batch.rows, exchange)
}

/// `field` and `array` describe column `c` over the very same buffers.
pub open spec fn describes_column(field: ExchangeField, array: ExchangeArray, c: Column) -> bool {
    &&& field.name == c.name
    &&& field.dtype == c.dtype
    &&& field.format@ == format_of(c.dtype)
    &&& array.length == c.len
    &&& array.null_count == c.null_count
    &&& array.validity == c.validity
    &&& array.values@ == c.values@
}

/// `xb` describes `batch` column by column, in order.
pub open spec fn describes<P>(xb: ExchangeBatch, batch: Batch<P>) -> bool {
    &&& xb.rows == batch.rows
    &&& xb.fields@.len() == batch.columns@.len()
    &&& xb.arrays@.len() == batch.columns@.len()
    &&& forall|i: int|
        0 <= i < batch.columns@.len() ==> describes_column(
            #[trigger] xb.fields@[i],
            xb.arrays@[i],
            batch.columns@[i],
        )
}

/// Every buffer that `xb` refers to is the buffer at the same place in
/// `batch`: same identity, same size.
pub open spec fn shares_storage<P>(xb: ExchangeBatch, batch: Batch<P>) -> bool {
    &&& xb.arrays@.len() == batch.columns@.len()
    &&& forall|i: int|
        0 <= i < batch.columns@.len() ==> {
            &&& (#[trigger] xb.arrays@[i]).validity == batch.columns@[i].validity
            &&& xb.arrays@[i].values@ == batch.columns@[i].values@
        }
}

impl ExchangeArray {
    /// The identities of the value buffers, in order.
    pub open spec fn storage(&self) -> Seq<usize> {
        Seq::new(self.values@.len(), |i: int| self.values@[i].id)
    }

    /// Whether `buffers` are, one by one and in order, the identities of
    /// this array's value buffers: whether an array made elsewhere stands on
    /// the storage that this one describes.
    pub fn is_backed_by(&self, buffers: &Vec<usize>) -> (r: bool)
        ensures
            r == (buffers@ == self.storage()),
    {
        if buffers.len() != self.values.len() {
            return false;
        }
        let mut i: usize = 0;
        while i < buffers.len()
            invariant
                i <= buffers.len(),
                buffers.len() == self.values.len(),
                forall|j: int| 0 <= j < i ==> buffers@[j] == self.values@[j].id,
            decreases buffers.len() - i,
        {
            if buffers[i] != self.values[i].id {
                assert(buffers@[i as int] != self.storage()[i as int]);
                return false;
            }
            i += 1;
        }
        assert(buffers@ =~= self.storage());
        true
    }
}

impl ExchangeBatch {
    /// Whether an array made elsewhere may stand for column `index` of this
    /// batch: there is such a column, `format` is its type description, and
    /// `buffers` are, one by one and in order, the identities of its value
    /// buffers.
    pub fn admits_column(&self, index: usize, format: &str, buffers: &Vec<usize>) -> (r: bool)
        ensures
            r == (index < self.fields@.len() && index < self.arrays@.len() && format@
                == self.fields@[index as int].format@ && buffers@
                == self.arrays@[index as int].storage()),
    {
        if index >= self.fields.len() || index >= self.arrays.len() {
            return false;
        }
        let given = String::from_str(format);
        given == self.fields[index].format && self.arrays[index].is_backed_by(buffers)
    }
}

/// Conversion keeps storage: what describes a batch shares its buffers.
pub proof fn lemma_describes_shares_storage<P>(xb: ExchangeBatch, batch: Batch<P>)
    requires
        describes(xb, batch),
    ensures
        shares_storage(xb, batch),
{
    assert forall|i: int| 0 <= i < batch.columns@.len() implies {
        &&& (#[trigger] xb.arrays@[i]).validity == batch.columns@[i].validity
        &&& xb.arrays@[i].values@ == batch.columns@[i].values@
    } by {
        assert(describes_column(xb.fields@[i], xb.arrays@[i], batch.columns@[i]));
    }
}

fn accepts(dtype: LogicalType, count: usize) -> (r: bool)
    ensures
        r == accepts_buffers(dtype, count as nat),
{
    match dtype {
        LogicalType::LargeUtf8 => count == 2,
        LogicalType::Utf8View => count >= 1,
        LogicalType::Other => false,
        _ => count == 1,
    }
}

/// Checks one column against its type's layout.
pub fn check_column(c: &Column, rows: usize, index: usize) -> (r: Option<ConversionError>)
    ensures
        r == column_defect(*c, rows, index),
{
    if c.dtype == LogicalType::Other {
        Some(ConversionError::UnsupportedType { column: index })
    } else if c.len != rows || c.null_count > c.len || (c.null_count > 0 && c.validity.is_none())
        || !accepts(c.dtype, c.values.len()) {
        Some(ConversionError::MalformedColumn { column: index })
    } else {
        None
    }
}

fn copy_buffers(values: &Vec<Buffer>) -> (r: Vec<Buffer>)
    ensures
        r@ == values@,
{
    let mut out: Vec<Buffer> = Vec::new();
    let mut i: usize = 0;
    while i < values.len()
        invariant
            i <= values.len(),
            out@ == values@.take(i as int),
        decreases values.len() - i,
    {
        out.push(values[i]);
        assert(values@.take(i + 1) == values@.take(i as int).push(values@[i as int]));
        i += 1;
    }
    assert(values@.take(values.len() as int) == values@);
    out
}

/// Says whether, and why not, columns of `rows` rows that were produced
/// under `layout` can be described in the exchange format whose layout
/// contract is `exchange`.
pub fn check_columns(
    layout: &LayoutContract,
    columns: &Vec<Column>,
    rows: usize,
    exchange: &LayoutContract,
) -> (r: Option<ConversionError>)
    ensures
        r == columns_error(*layout, columns@, rows, *exchange),
{
    if *layout != *exchange {
        return Some(ConversionError::LayoutMismatch);
    }
    let mut i: usize = 0;
    while i < columns.len()
        invariant
            i <= columns.len(),
            *layout == *exchange,
            first_defect(columns@, rows, 0) == first_defect(columns@, rows, i as int),
        decreases columns.len() - i,
    {
        let defect = check_column(&columns[i], rows, i);
        if defect.is_some() {
            return defect;
        }
        i += 1;
    }
    None
}

/// Says whether, and why not, `batch` can be described in the exchange
/// format whose layout contract is `exchange`.
pub fn check_batch<P>(batch: &Batch<P>, exchange: &LayoutContract) -> (r: Option<ConversionError>)
    ensures
        r == conversion_error(*batch, *exchange),
{
    check_columns(&batch.layout, &batch.columns, batch.rows, exchange)
}

/// Describes `batch` in the exchange format whose layout contract is
/// `exchange`. The result refers to the buffers of `batch`; only descriptions
/// are made anew. Fails with the first reason found: a differing layout
/// contract, else the first column that has no description or does not fit it.
pub fn to_exchange<P>(batch: &Batch<P>, exchange: &LayoutContract) -> (r: Result<
    ExchangeBatch,
    ConversionError,
>)
    ensures
        match r {
            Ok(xb) => conversion_error(*batch, *exchange) is None && describes(xb, *batch)
                && shares_storage(xb, *batch),
            Err(e) => conversion_error(*batch, *exchange) == Some(e),
        },
{
    if batch.layout != *exchange {
        return Err(ConversionError::LayoutMismatch);
    }
    let mut fields: Vec<ExchangeField> = Vec::new();
    let mut arrays: Vec<ExchangeArray> = Vec::new();
    let mut i: usize = 0;
    while i < batch.columns.len()
        invariant
            i <= batch.columns.len(),
            batch.layout == *exchange,
            fields@.len() == i,
            arrays@.len() == i,
            first_defect(batch.columns@, batch.rows, 0) == first_defect(
                batch.columns@,
                batch.rows,
                i as int,
            ),
            forall|j: int|
                0 <= j < i ==> describes_column(
                    #[trigger] fields@[j],
                    arrays@[j],
                    batch.columns@[j],
                ),
        decreases batch.columns.len() - i,
    {
        let c = &batch.columns[i];
        match check_column(c, batch.rows, i) {
            Some(e) => {
                return Err(e);
            },
            None => {},
        }
        let format = match arrow_format(c.dtype) {
            Some(s) => s,
            None => {
                return Err(ConversionError::UnsupportedType { column: i });
            },
        };
        fields.push(ExchangeField { name: c.name.clone(), dtype: c.dtype, format });
        arrays.push(
            ExchangeArray {
                length: c.len,
                null_count: c.null_count,
                validity: c.validity,
                values: copy_buffers(&c.values),
            },
        );
        i += 1;
    }
    let xb = ExchangeBatch { fields, arrays, rows: batch.rows };
    proof {
        lemma_describes_shares_storage(xb, *batch);
    }
    Ok(xb)
}

} // verus!
