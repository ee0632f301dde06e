//! The conversion matrix between the host's types and values and the columnar ones.
//!
//! The set of supported host types is closed: every other type identifier is an
//! error, never a guess. A value and the cell made of it hold the same information,
//! so that a cell converts back to the value it came from.

use crate::datetime_util::{
    spec_epoch_day, spec_epoch_time, spec_midnight, Date, EpochForTime, EpochTimeZone, Time,
    Timestamp,
};
use vstd::prelude::*;

verus! {

pub const BOOLOID: u32 = 16;

pub const INT8OID: u32 = 20;

pub const INT2OID: u32 = 21;

pub const INT4OID: u32 = 23;

pub const TEXTOID: u32 = 25;

pub const TIDOID: u32 = 27;

pub const FLOAT4OID: u32 = 700;

pub const FLOAT8OID: u32 = 701;

pub const DATEOID: u32 = 1082;

pub const TIMEOID: u32 = 1083;

pub const TIMESTAMPOID: u32 = 1114;

/// The column ordinal that stands for the row identity.
pub const SELF_ITEM_POINTER_ATTRIBUTE_NUMBER: i16 = -1;

/// The type of a column in a columnar file.
#[derive(Clone, Copy, Debug, PartialEq, Eq, Structural)]
pub enum ColumnarType {
    Boolean,
    Int16,
    Int32,
    Int64,
    Float32,
    Float64,
    Date32,
    Time32Second,
    TimestampSecond,
    Utf8,
}

/// Why a conversion or a storage step failed.
#[derive(Clone, Copy, Debug, PartialEq, Eq, Structural)]
pub enum StorageError {
    /// The host type is outside the supported set.
    UnsupportedType(u32),
    /// The value or cell is not of the kind that the host type asks for.
    TypeMismatch(u32),
    /// The date or time lies outside what the calendar or the column can hold.
    OutOfRange(u32),
    /// The row or batch has too few columns or rows for the schema.
    ShapeMismatch,
    /// No schema was set before a row was written.
    SchemaMissing,
}

/// The host's locator of a row: a block number in two halves and a position.
#[derive(Clone, Copy, Debug, PartialEq, Eq, Structural)]
pub struct ItemPointer {
    pub block_hi: u16,
    pub block_lo: u16,
    pub position: u16,
}

/// A value of the host, by kind. Floating-point numbers are held as their bits.
#[derive(Debug, PartialEq, Eq)]
pub enum Datum {
    Bool(bool),
    Int16(i16),
    Int32(i32),
    Int64(i64),
    Float32(u32),
    Float64(u64),
    Date(Date),
    Time(Time),
    Timestamp(Timestamp),
    Text(String),
    RowId(ItemPointer),
}

/// What a `Datum` holds.
pub enum DatumView {
    Bool(bool),
    Int16(i16),
    Int32(i32),
    Int64(i64),
    Float32(u32),
    Float64(u64),
    Date(Date),
    Time(Time),
    Timestamp(Timestamp),
    Text(Seq<char>),
    RowId(ItemPointer),
}

impl View for Datum {
    type V = DatumView;

    open spec fn view(&self) -> DatumView {
        match *self {
            Datum::Bool(b) => DatumView::Bool(b),
            Datum::Int16(n) => DatumView::Int16(n),
            Datum::Int32(n) => DatumView::Int32(n),
            Datum::Int64(n) => DatumView::Int64(n),
            Datum::Float32(bits) => DatumView::Float32(bits),
            Datum::Float64(bits) => DatumView::Float64(bits),
            Datum::Date(d) => DatumView::Date(d),
            Datum::Time(t) => DatumView::Time(t),
            Datum::Timestamp(t) => DatumView::Timestamp(t),
            Datum::Text(s) => DatumView::Text(s@),
            Datum::RowId(p) => DatumView::RowId(p),
        }
    }
}

/// One cell of a columnar array. Floating-point numbers are held as their bits,
/// dates as days and times as seconds from their epoch.
#[derive(Debug, PartialEq, Eq)]
pub enum Cell {
    Null,
    Boolean(bool),
    Int16(i16),
    Int32(i32),
    Int64(i64),
    Float32(u32),
    Float64(u64),
    Date32(i32),
    Time32Second(i32),
    TimestampSecond(i64),
    Utf8(String),
}

/// What a `Cell` holds.
pub enum CellView {
    Null,
    Boolean(bool),
    Int16(i16),
    Int32(i32),
    Int64(i64),
    Float32(u32),
    Float64(u64),
    Date32(i32),
    Time32Second(i32),
    TimestampSecond(i64),
    Utf8(Seq<char>),
}

impl View for Cell {
    type V = CellView;

    open spec fn view(&self) -> CellView {
        match *self {
            Cell::Null => CellView::Null,
            Cell::Boolean(b) => CellView::Boolean(b),
            Cell::Int16(n) => CellView::Int16(n),
            Cell::Int32(n) => CellView::Int32(n),
            Cell::Int64(n) => CellView::Int64(n),
            Cell::Float32(bits) => CellView::Float32(bits),
            Cell::Float64(bits) => CellView::Float64(bits),
            Cell::Date32(n) => CellView::Date32(n),
            Cell::Time32Second(n) => CellView::Time32Second(n),
            Cell::TimestampSecond(n) => CellView::TimestampSecond(n),
            Cell::Utf8(s) => CellView::Utf8(s@),
        }
    }
}

/// A value of the host that may be absent. Where `is_null` holds, `raw` carries no
/// information.
#[derive(Debug, PartialEq, Eq)]
pub struct Value {
    pub raw: Datum,
    pub is_null: bool,
}

/// What a `Value` holds.
pub struct ValueView {
    pub raw: DatumView,
    pub is_null: bool,
}

impl View for Value {
    type V = ValueView;

    open spec fn view(&self) -> ValueView {
        ValueView { raw: self.raw@, is_null: self.is_null }
    }
}

/// The columnar type that stores a host type; `None` outside the supported set.
/// The row identity is stored as a 64-bit integer.
pub open spec fn columnar_type_of(data_type_oid: u32) -> Option<ColumnarType> {
    if data_type_oid == BOOLOID {
        Some(ColumnarType::Boolean)
    } else if data_type_oid == INT2OID {
        Some(ColumnarType::Int16)
    } else if data_type_oid == INT4OID {
        Some(ColumnarType::Int32)
    } else if data_type_oid == INT8OID {
        Some(ColumnarType::Int64)
    } else if data_type_oid == FLOAT4OID {
        Some(ColumnarType::Float32)
    } else if data_type_oid == FLOAT8OID {
        Some(ColumnarType::Float64)
    } else if data_type_oid == DATEOID {
        Some(ColumnarType::Date32)
    } else if data_type_oid == TIMEOID {
        Some(ColumnarType::Time32Second)
    } else if data_type_oid == TIMESTAMPOID {
        Some(ColumnarType::TimestampSecond)
    } else if data_type_oid == TEXTOID {
        Some(ColumnarType::Utf8)
    } else if data_type_oid == TIDOID {
        Some(ColumnarType::Int64)
    } else {
        None
    }
}

/// The columnar type that stores a host type, or the error for a type outside the
/// supported set.
pub fn convert_datatype_pg_to_arrow(data_type_oid: u32) -> (r: Result<ColumnarType, StorageError>)
    ensures
        r == match columnar_type_of(data_type_oid) {
            Some(t) => Ok::<ColumnarType, StorageError>(t),
            None => Err(StorageError::UnsupportedType(data_type_oid)),
        },
{
    if data_type_oid == BOOLOID {
        Ok(ColumnarType::Boolean)
    } else if data_type_oid == INT2OID {
        Ok(ColumnarType::Int16)
    } else if data_type_oid == INT4OID {
        Ok(ColumnarType::Int32)
    } else if data_type_oid == INT8OID {
        Ok(ColumnarType::Int64)
    } else if data_type_oid == FLOAT4OID {
        Ok(ColumnarType::Float32)
    } else if data_type_oid == FLOAT8OID {
        Ok(ColumnarType::Float64)
    } else if data_type_oid == DATEOID {
        Ok(ColumnarType::Date32)
    } else if data_type_oid == TIMEOID {
        Ok(ColumnarType::Time32Second)
    } else if data_type_oid == TIMESTAMPOID {
        Ok(ColumnarType::TimestampSecond)
    } else if data_type_oid == TEXTOID {
        Ok(ColumnarType::Utf8)
    } else if data_type_oid == TIDOID {
        Ok(ColumnarType::Int64)
    } else {
        Err(StorageError::UnsupportedType(data_type_oid))
    }
}

/// The cell that stores a host value of the given type.
///
/// An absent value of a supported type is the null cell, whatever `raw` holds. A
/// present one must be of the kind that the type asks for. A date is stored as its
/// days from the epoch day, a time as its seconds from midnight, a timestamp as its
/// seconds from the epoch second, a row identity as its position.
pub open spec fn cell_of_value(data_type_oid: u32, raw: DatumView, is_null: bool) -> Result<
    CellView,
    StorageError,
> {
    if columnar_type_of(data_type_oid) is None {
        Err(StorageError::UnsupportedType(data_type_oid))
    } else if is_null {
        Ok(CellView::Null)
    } else {
        match raw {
            DatumView::Bool(b) if data_type_oid == BOOLOID => Ok(CellView::Boolean(b)),
            DatumView::Int16(n) if data_type_oid == INT2OID => Ok(CellView::Int16(n)),
            DatumView::Int32(n) if data_type_oid == INT4OID => Ok(CellView::Int32(n)),
            DatumView::Int64(n) if data_type_oid == INT8OID => Ok(CellView::Int64(n)),
            DatumView::Float32(bits) if data_type_oid == FLOAT4OID => Ok(CellView::Float32(bits)),
            DatumView::Float64(bits) if data_type_oid == FLOAT8OID => Ok(CellView::Float64(bits)),
            DatumView::Date(d) if data_type_oid == DATEOID => match d.epoch_day_of() {
                Some(n) if i32::MIN <= n <= i32::MAX => Ok(CellView::Date32(n as i32)),
                _ => Err(StorageError::OutOfRange(data_type_oid)),
            },
            DatumView::Time(t) if data_type_oid == TIMEOID => match t.epoch_time_of() {
                Some(n) => Ok(CellView::Time32Second(n as i32)),
                None => Err(StorageError::OutOfRange(data_type_oid)),
            },
            DatumView::Timestamp(t) if data_type_oid == TIMESTAMPOID => match t.epoch_time_of() {
                Some(n) => Ok(CellView::TimestampSecond(n as i64)),
                None => Err(StorageError::OutOfRange(data_type_oid)),
            },
            DatumView::Text(s) if data_type_oid == TEXTOID => Ok(CellView::Utf8(s)),
            DatumView::RowId(p) if data_type_oid == TIDOID => Ok(
                CellView::Int64(p.position as i64),
            ),
            _ => Err(StorageError::TypeMismatch(data_type_oid)),
        }
    }
}

/// The value that stands for an absent one of a columnar type.
pub open spec fn blank_datum(t: ColumnarType) -> DatumView {
    match t {
        ColumnarType::Boolean => DatumView::Bool(false),
        ColumnarType::Int16 => DatumView::Int16(0),
        ColumnarType::Int32 => DatumView::Int32(0),
        ColumnarType::Int64 => DatumView::Int64(0),
        ColumnarType::Float32 => DatumView::Float32(0),
        ColumnarType::Float64 => DatumView::Float64(0),
        ColumnarType::Date32 => DatumView::Date(spec_epoch_day()),
        ColumnarType::Time32Second => DatumView::Time(spec_midnight()),
        ColumnarType::TimestampSecond => DatumView::Timestamp(spec_epoch_time()),
        ColumnarType::Utf8 => DatumView::Text(Seq::empty()),
    }
}

/// The low sixteen bits of a row number.
pub open spec fn low_bits(n: i64) -> u16 {
    (n & 0xffff) as u16
}

/// The host value that a cell stands for under the given host type.
///
/// A row identity is never absent: it is the locator with the low sixteen bits of
/// the row number as position and a zero block, and that of row 0 for a null cell.
/// For every other type a null cell is the absent value, and a cell of the type's
/// kind is the value it was made of.
pub open spec fn value_of_cell(cell: CellView, data_type_oid: u32) -> Result<
    ValueView,
    StorageError,
> {
    match columnar_type_of(data_type_oid) {
        None => Err(StorageError::UnsupportedType(data_type_oid)),
        Some(t) => if data_type_oid == TIDOID {
            match cell {
                CellView::Null => Ok(
                    ValueView {
                        raw: DatumView::RowId(
                            ItemPointer { block_hi: 0, block_lo: 0, position: 0 },
                        ),
                        is_null: false,
                    },
                ),
                CellView::Int64(n) => Ok(
                    ValueView {
                        raw: DatumView::RowId(
                            ItemPointer { block_hi: 0, block_lo: 0, position: low_bits(n) },
                        ),
                        is_null: false,
                    },
                ),
                _ => Err(StorageError::TypeMismatch(data_type_oid)),
            }
        } else {
            match cell {
                CellView::Null => Ok(ValueView { raw: blank_datum(t), is_null: true }),
                CellView::Boolean(b) if t == ColumnarType::Boolean => Ok(
                    ValueView { raw: DatumView::Bool(b), is_null: false },
                ),
                CellView::Int16(n) if t == ColumnarType::Int16 => Ok(
                    ValueView { raw: DatumView::Int16(n), is_null: false },
                ),
                CellView::Int32(n) if t == ColumnarType::Int32 => Ok(
                    ValueView { raw: DatumView::Int32(n), is_null: false },
                ),
                CellView::Int64(n) if t == ColumnarType::Int64 => Ok(
                    ValueView { raw: DatumView::Int64(n), is_null: false },
                ),
                CellView::Float32(bits) if t == ColumnarType::Float32 => Ok(
                    ValueView { raw: DatumView::Float32(bits), is_null: false },
                ),
                CellView::Float64(bits) if t == ColumnarType::Float64 => Ok(
                    ValueView { raw: DatumView::Float64(bits), is_null: false },
                ),
                CellView::Date32(n) if t == ColumnarType::Date32 => match Date::at_epoch_day(
                    n as int,
                ) {
                    Some(d) => Ok(ValueView { raw: DatumView::Date(d), is_null: false }),
                    None => Err(StorageError::OutOfRange(data_type_oid)),
                },
                CellView::Time32Second(n) if t == ColumnarType::Time32Second => match Time::at_epoch_time(
                n as int) {
                    Some(v) => Ok(ValueView { raw: DatumView::Time(v), is_null: false }),
                    None => Err(StorageError::OutOfRange(data_type_oid)),
                },
                CellView::TimestampSecond(n) if t == ColumnarType::TimestampSecond => match Timestamp::at_epoch_time(
                n as int) {
                    Some(v) => Ok(ValueView { raw: DatumView::Timestamp(v), is_null: false }),
                    None => Err(StorageError::OutOfRange(data_type_oid)),
                },
                CellView::Utf8(s) if t == ColumnarType::Utf8 => Ok(
                    ValueView { raw: DatumView::Text(s), is_null: false },
                ),
                _ => Err(StorageError::TypeMismatch(data_type_oid)),
            }
        },
    }
}

/// A present value comes back from its cell as it went in; an absent one comes
/// back absent. The row identity is left out where it is absent or its block is
/// not zero: a cell holds the position only.
pub open spec fn survives_storage(data_type_oid: u32, raw: DatumView, is_null: bool) -> bool {
    data_type_oid == TIDOID ==> !is_null && (raw matches DatumView::RowId(p) ==> p.block_hi == 0
        && p.block_lo == 0)
}

/// Converts a host value of the given type to the cell that stores it.
///
/// The cell returned converts back: to the value that was given where it is
/// present, to an absent value where it is absent.
pub fn convert_datum_pg_to_arrow(data_type_oid: u32, datum: &Datum, is_null: bool) -> (r: Result<
    Cell,
    StorageError,
>)
    ensures
        match r {
            Ok(cell) => cell_of_value(data_type_oid, datum@, is_null) == Ok::<
                CellView,
                StorageError,
            >(cell@),
            Err(e) => cell_of_value(data_type_oid, datum@, is_null) == Err::<
                CellView,
                StorageError,
            >(e),
        },
        r is Ok && survives_storage(data_type_oid, datum@, is_null) ==> {
            &&& value_of_cell(r->Ok_0@, data_type_oid) is Ok
            &&& value_of_cell(r->Ok_0@, data_type_oid)->Ok_0.is_null == is_null
            &&& !is_null ==> value_of_cell(r->Ok_0@, data_type_oid)->Ok_0.raw == datum@
        },
{
    if convert_datatype_pg_to_arrow(data_type_oid).is_err() {
        return Err(StorageError::UnsupportedType(data_type_oid));
    }
    if is_null {
        return Ok(Cell::Null);
    }
    match datum {
        Datum::Bool(b) if data_type_oid == BOOLOID => Ok(Cell::Boolean(*b)),
        Datum::Int16(n) if data_type_oid == INT2OID => Ok(Cell::Int16(*n)),
        Datum::Int32(n) if data_type_oid == INT4OID => Ok(Cell::Int32(*n)),
        Datum::Int64(n) if data_type_oid == INT8OID => Ok(Cell::Int64(*n)),
        Datum::Float32(bits) if data_type_oid == FLOAT4OID => Ok(Cell::Float32(*bits)),
        Datum::Float64(bits) if data_type_oid == FLOAT8OID => Ok(Cell::Float64(*bits)),
        Datum::Date(d) if data_type_oid == DATEOID => match d.to_epoch_day() {
            Some(n) => Ok(Cell::Date32(n)),
            None => Err(StorageError::OutOfRange(data_type_oid)),
        },
        Datum::Time(t) if data_type_oid == TIMEOID => match t.to_epoch_time() {
            Some(n) => {
                proof {
                    crate::datetime_util::lemma_time_of_seconds(*t);
                }
                Ok(Cell::Time32Second(n as i32))
            },
            None => Err(StorageError::OutOfRange(data_type_oid)),
        },
        Datum::Timestamp(t) if data_type_oid == TIMESTAMPOID => match t.to_epoch_time() {
            Some(n) => Ok(Cell::TimestampSecond(n)),
            None => Err(StorageError::OutOfRange(data_type_oid)),
        },
        Datum::Text(s) if data_type_oid == TEXTOID => Ok(Cell::Utf8(s.clone())),
        Datum::RowId(p) if data_type_oid == TIDOID => {
            let position: u16 = p.position;
            assert(((position as i64) & 0xffff) as u16 == position) by (bit_vector);
            Ok(Cell::Int64(position as i64))
        },
        _ => Err(StorageError::TypeMismatch(data_type_oid)),
    }
}

/// Converts a cell to the host value that it stands for under the given host type.
pub fn convert_cell_to_value(cell: &Cell, data_type_oid: u32) -> (r: Result<Value, StorageError>)
    ensures
        match r {
            Ok(v) => value_of_cell(cell@, data_type_oid) == Ok::<ValueView, StorageError>(v@),
            Err(e) => value_of_cell(cell@, data_type_oid) == Err::<ValueView, StorageError>(e),
        },
{
    let t = match convert_datatype_pg_to_arrow(data_type_oid) {
        Ok(t) => t,
        Err(e) => {
            return Err(e);
        },
    };
    if data_type_oid == TIDOID {
        return match cell {
            Cell::Null => Ok(
                Value {
                    raw: Datum::RowId(ItemPointer { block_hi: 0, block_lo: 0, position: 0 }),
                    is_null: false,
                },
            ),
            Cell::Int64(n) => {
                let n: i64 = *n;
                let low: i64 = n & 0xffff;
                assert(0 <= low <= 0xffff) by (bit_vector)
                    requires
                        low == n & 0xffff,
                ;
                Ok(
                    Value {
                        raw: Datum::RowId(
                            ItemPointer { block_hi: 0, block_lo: 0, position: low as u16 },
                        ),
                        is_null: false,
                    },
                )
            },
            _ => Err(StorageError::TypeMismatch(data_type_oid)),
        };
    }
    match cell {
        Cell::Null => Ok(Value { raw: blank_of(t), is_null: true }),
        Cell::Boolean(b) if matches!(t, ColumnarType::Boolean) => Ok(
            Value { raw: Datum::Bool(*b), is_null: false },
        ),
        Cell::Int16(n) if matches!(t, ColumnarType::Int16) => Ok(
            Value { raw: Datum::Int16(*n), is_null: false },
        ),
        Cell::Int32(n) if matches!(t, ColumnarType::Int32) => Ok(
            Value { raw: Datum::Int32(*n), is_null: false },
        ),
        Cell::Int64(n) if matches!(t, ColumnarType::Int64) => Ok(
            Value { raw: Datum::Int64(*n), is_null: false },
        ),
        Cell::Float32(bits) if matches!(t, ColumnarType::Float32) => Ok(
            Value { raw: Datum::Float32(*bits), is_null: false },
        ),
        Cell::Float64(bits) if matches!(t, ColumnarType::Float64) => Ok(
            Value { raw: Datum::Float64(*bits), is_null: false },
        ),
        Cell::Date32(n) if matches!(t, ColumnarType::Date32) => match Date::from_epoch_day(*n) {
            Some(d) => Ok(Value { raw: Datum::Date(d), is_null: false }),
            None => Err(StorageError::OutOfRange(data_type_oid)),
        },
        Cell::Time32Second(n) if matches!(t, ColumnarType::Time32Second) => match Time::from_epoch_time(
        *n as i64) {
            Some(v) => Ok(Value { raw: Datum::Time(v), is_null: false }),
            None => Err(StorageError::OutOfRange(data_type_oid)),
        },
        Cell::TimestampSecond(n) if matches!(t, ColumnarType::TimestampSecond) => match Timestamp::from_epoch_time(
        *n) {
            Some(v) => Ok(Value { raw: Datum::Timestamp(v), is_null: false }),
            None => Err(StorageError::OutOfRange(data_type_oid)),
        },
        Cell::Utf8(s) if matches!(t, ColumnarType::Utf8) => Ok(
            Value { raw: Datum::Text(s.clone()), is_null: false },
        ),
        _ => Err(StorageError::TypeMismatch(data_type_oid)),
    }
}

/// The value that stands for an absent one of a columnar type.
pub fn blank_of(t: ColumnarType) -> (r: Datum)
    ensures
        r@ == blank_datum(t),
{
    match t {
        ColumnarType::Boolean => Datum::Bool(false),
        ColumnarType::Int16 => Datum::Int16(0),
        ColumnarType::Int32 => Datum::Int32(0),
        ColumnarType::Int64 => Datum::Int64(0),
        ColumnarType::Float32 => Datum::Float32(0),
        ColumnarType::Float64 => Datum::Float64(0),
        ColumnarType::Date32 => Datum::Date(crate::datetime_util::epoch_day()),
        ColumnarType::Time32Second => Datum::Time(crate::datetime_util::midnight()),
        ColumnarType::TimestampSecond => Datum::Timestamp(crate::datetime_util::epoch_time()),
        ColumnarType::Utf8 => Datum::Text(String::new()),
    }
}

} // verus!
