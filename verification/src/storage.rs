//! The tables of the store: their schema, their write state and their read state.
//!
//! Nothing here touches a file or the engine. A table answers each call with what
//! has to be done outside (a file to create, a record to append, a query to open, a
//! batch to fetch, a handle to close) and is told what came of it.

use crate::conversion::{
    cell_of_value, columnar_type_of, convert_cell_to_value, convert_datatype_pg_to_arrow,
    convert_datum_pg_to_arrow, value_of_cell, Cell, CellView, ColumnarType, Datum, DatumView,
    StorageError, ValueView,
};
use crate::extract_clauses::{
    column_name, decimal_text, extract_var, integer_to_string, join_strings, joined, texts,
};
use vstd::prelude::*;
use vstd::string::StringExecFns;

verus! {

/// One column of a relation: its ordinal and its host type.
#[derive(Clone, Copy, Debug, PartialEq, Eq, Structural)]
pub struct Attribute {
    pub column_id: i16,
    pub data_type: u32,
}

/// The columns of a scan or of a relation, in the order in which their values
/// stand in a row, with the filter and the sampling clause of a scan as query text.
#[derive(Debug, PartialEq, Eq)]
pub struct Schema {
    pub fields: Vec<Attribute>,
    pub where_clause: Option<String>,
    pub sample_clause: Option<String>,
}

/// What a `Schema` holds.
pub struct SchemaView {
    pub fields: Seq<Attribute>,
    pub where_clause: Option<Seq<char>>,
    pub sample_clause: Option<Seq<char>>,
}

/// What an optional text holds.
pub open spec fn text_of(text: Option<String>) -> Option<Seq<char>> {
    match text {
        Some(s) => Some(s@),
        None => None,
    }
}

impl View for Schema {
    type V = SchemaView;

    open spec fn view(&self) -> SchemaView {
        SchemaView {
            fields: self.fields@,
            where_clause: text_of(self.where_clause),
            sample_clause: text_of(self.sample_clause),
        }
    }
}

/// The row buffer of the host: a value and a null flag for each column.
#[derive(Debug, PartialEq, Eq)]
pub struct TupleSlot {
    pub natts: usize,
    pub datum: Vec<Datum>,
    pub nulls: Vec<bool>,
}

/// What a `TupleSlot` holds.
pub struct TupleSlotView {
    pub natts: nat,
    pub datum: Seq<DatumView>,
    pub nulls: Seq<bool>,
}

/// What each value of a vector holds.
pub open spec fn datum_views(datum: Seq<Datum>) -> Seq<DatumView> {
    Seq::new(datum.len(), |i: int| datum[i]@)
}

/// What each cell of a vector holds.
pub open spec fn cell_views(cells: Seq<Cell>) -> Seq<CellView> {
    Seq::new(cells.len(), |i: int| cells[i]@)
}

impl View for TupleSlot {
    type V = TupleSlotView;

    open spec fn view(&self) -> TupleSlotView {
        TupleSlotView {
            natts: self.natts as nat,
            datum: datum_views(self.datum@),
            nulls: self.nulls@,
        }
    }
}

impl TupleSlotView {
    /// The buffer with the value of one column replaced.
    pub open spec fn with_value(self, column_index: int, value: ValueView) -> TupleSlotView {
        TupleSlotView {
            natts: self.natts,
            datum: self.datum.update(column_index, value.raw),
            nulls: self.nulls.update(column_index, value.is_null),
        }
    }

    /// The buffer has room for `n` columns.
    pub open spec fn holds(self, n: int) -> bool {
        n <= self.datum.len() && n <= self.nulls.len()
    }
}

/// A batch of rows as the engine hands them over: one array of cells for each
/// column, all of `num_rows` cells.
#[derive(Debug, PartialEq, Eq)]
pub struct RecordBatch {
    pub columns: Vec<Vec<Cell>>,
    pub num_rows: usize,
}

/// What a `RecordBatch` holds.
pub struct RecordBatchView {
    pub columns: Seq<Seq<CellView>>,
    pub num_rows: nat,
}

impl View for RecordBatch {
    type V = RecordBatchView;

    open spec fn view(&self) -> RecordBatchView {
        RecordBatchView {
            columns: Seq::new(self.columns@.len(), |i: int| cell_views(self.columns@[i]@)),
            num_rows: self.num_rows as nat,
        }
    }
}

impl RecordBatchView {
    /// The batch has `n` columns, each of `num_rows` cells.
    pub open spec fn fits(self, n: int) -> bool {
        self.columns.len() == n && forall|i: int|
            0 <= i < self.columns.len() ==> (#[trigger] self.columns[i]).len() == self.num_rows
    }
}

impl RecordBatch {
    /// Whether the batch has `n` columns, each of `num_rows` cells.
    pub fn fits(&self, n: usize) -> (r: bool)
        ensures
            r == self@.fits(n as int),
    {
        if self.columns.len() != n {
            return false;
        }
        let mut i: usize = 0;
        while i < self.columns.len()
            invariant
                i <= self.columns.len(),
                self.columns@.len() == n,
                forall|j: int| 0 <= j < i ==> (#[trigger] self@.columns[j]).len() == self@.num_rows,
            decreases self.columns.len() - i,
        {
            if self.columns[i].len() != self.num_rows {
                assert(self@.columns[i as int].len() != self@.num_rows);
                return false;
            }
            i += 1;
        }
        true
    }
}

/// Puts the value that a cell of a column stands for into one position of the row
/// buffer.
///
/// Fails, and leaves the buffer as it is, where the column has no such row, the
/// buffer no such position, or the cell no value under the host type.
pub fn convert_datum_arrow_to_pg(
    field: &Vec<Cell>,
    column_index: usize,
    pg_type: u32,
    current_row: usize,
    row: &mut TupleSlot,
) -> (r: Result<(), StorageError>)
    ensures
        final(row).natts == old(row).natts,
        final(row).datum@.len() == old(row).datum@.len(),
        final(row).nulls@.len() == old(row).nulls@.len(),
        match r {
            Ok(_) => {
                &&& current_row < field@.len()
                &&& old(row)@.holds(column_index + 1)
                &&& value_of_cell(field@[current_row as int]@, pg_type) is Ok
                &&& final(row)@ == old(row)@.with_value(
                    column_index as int,
                    value_of_cell(field@[current_row as int]@, pg_type)->Ok_0,
                )
            },
            Err(e) => {
                &&& final(row)@ == old(row)@
                &&& if current_row < field@.len() && old(row)@.holds(column_index + 1) {
                    value_of_cell(field@[current_row as int]@, pg_type) == Err::<
                        ValueView,
                        StorageError,
                    >(e)
                } else {
                    e == StorageError::ShapeMismatch
                }
            },
        },
{
    if current_row >= field.len() || column_index >= row.datum.len() || column_index
        >= row.nulls.len() {
        return Err(StorageError::ShapeMismatch);
    }
    let value = match convert_cell_to_value(&field[current_row], pg_type) {
        Ok(value) => value,
        Err(e) => {
            return Err(e);
        },
    };
    row.datum[column_index] = value.raw;
    row.nulls[column_index] = value.is_null;
    assert(row@.datum =~= old(row)@.with_value(column_index as int, value@).datum);
    Ok(())
}

/// What a call of `read` asks for or delivers.
#[derive(Debug, PartialEq, Eq)]
pub enum ReadStep {
    /// The row buffer holds the next row.
    Row,
    /// The stream is exhausted: there is no further row.
    Exhausted,
    /// The engine has to open a stream for this query and supply its first batch.
    Open(String),
    /// The next batch of the open stream has to be supplied.
    Fetch,
}

/// What a `ReadStep` holds.
pub enum ReadStepView {
    Row,
    Exhausted,
    Open(Seq<char>),
    Fetch,
}

impl View for ReadStep {
    type V = ReadStepView;

    open spec fn view(&self) -> ReadStepView {
        match *self {
            ReadStep::Row => ReadStepView::Row,
            ReadStep::Exhausted => ReadStepView::Exhausted,
            ReadStep::Open(sql) => ReadStepView::Open(sql@),
            ReadStep::Fetch => ReadStepView::Fetch,
        }
    }
}

/// What the outcome of a read holds.
pub open spec fn outcome_view(r: Result<ReadStep, StorageError>) -> Result<
    ReadStepView,
    StorageError,
> {
    match r {
        Ok(step) => Ok(step@),
        Err(e) => Err(e),
    }
}

/// The row buffer after the cells of row `current_row` of the first `n` columns
/// were put into it, column by column, up to the first cell that has no value under
/// its host type; with the error of that cell, if there is one.
pub open spec fn fill_progress(
    row: TupleSlotView,
    columns: Seq<Seq<CellView>>,
    pg_types: Seq<u32>,
    current_row: int,
    n: nat,
) -> (TupleSlotView, Option<StorageError>)
    decreases n,
{
    if n == 0 {
        (row, None)
    } else {
        let before = fill_progress(row, columns, pg_types, current_row, (n - 1) as nat);
        if before.1 is Some {
            before
        } else {
            match value_of_cell(columns[n - 1][current_row], pg_types[n - 1]) {
                Ok(value) => (before.0.with_value(n - 1, value), None),
                Err(e) => (before.0, Some(e)),
            }
        }
    }
}

/// Once a cell has failed, the columns after it change nothing.
pub proof fn lemma_fill_stops(
    row: TupleSlotView,
    columns: Seq<Seq<CellView>>,
    pg_types: Seq<u32>,
    current_row: int,
    k: nat,
    n: nat,
)
    requires
        k <= n,
        fill_progress(row, columns, pg_types, current_row, k).1 is Some,
    ensures
        fill_progress(row, columns, pg_types, current_row, n) == fill_progress(
            row,
            columns,
            pg_types,
            current_row,
            k,
        ),
    decreases n,
{
    if k < n {
        lemma_fill_stops(row, columns, pg_types, current_row, k, (n - 1) as nat);
    }
}

/// The cursor over the result of one query: the batch at hand and the next row in it.
#[derive(Debug)]
pub struct DuckdbReader {
    sql: String,
    pg_types: Vec<u32>,
    record_batch: Option<RecordBatch>,
    current_row: usize,
    opened: bool,
    exhausted: bool,
}

/// What a `DuckdbReader` holds.
pub struct ReaderView {
    /// The text of the query.
    pub sql: Seq<char>,
    /// The host type of each column of the result.
    pub pg_types: Seq<u32>,
    /// The batch at hand.
    pub record_batch: Option<RecordBatchView>,
    /// The next row of the batch at hand.
    pub current_row: nat,
    /// The engine was asked to open the stream.
    pub opened: bool,
    /// The stream has ended.
    pub exhausted: bool,
}

impl ReaderView {
    /// The batch at hand has a column for each host type, and the next row lies in
    /// it or at its end.
    pub open spec fn wf(self) -> bool {
        match self.record_batch {
            Some(batch) => batch.fits(self.pg_types.len() as int) && self.current_row
                <= batch.num_rows,
            None => true,
        }
    }

    /// A fresh cursor for a query.
    pub open spec fn new(sql: Seq<char>, pg_types: Seq<u32>) -> ReaderView {
        ReaderView {
            sql,
            pg_types,
            record_batch: None,
            current_row: 0,
            opened: false,
            exhausted: false,
        }
    }

    /// There is no batch at hand, or no row left in it.
    pub open spec fn needs_batch(self) -> bool {
        match self.record_batch {
            Some(batch) => self.current_row >= batch.num_rows,
            None => true,
        }
    }

    /// One step of reading: the cursor and the row buffer after it, and its outcome.
    ///
    /// An exhausted cursor stays exhausted. A cursor without a row at hand asks for
    /// the stream to be opened, the first time, and for the next batch after that.
    /// Otherwise the next row of the batch goes into the buffer and the cursor moves
    /// on; where the buffer is too short or a cell has no value, the cursor stays.
    pub open spec fn read(self, row: TupleSlotView) -> (
        ReaderView,
        TupleSlotView,
        Result<ReadStepView, StorageError>,
    ) {
        if self.exhausted {
            (self, row, Ok(ReadStepView::Exhausted))
        } else if self.needs_batch() {
            if self.opened {
                (self, row, Ok(ReadStepView::Fetch))
            } else {
                (ReaderView { opened: true, ..self }, row, Ok(ReadStepView::Open(self.sql)))
            }
        } else if !row.holds(self.pg_types.len() as int) {
            (self, row, Err(StorageError::ShapeMismatch))
        } else {
            let filled = fill_progress(
                row,
                self.record_batch->Some_0.columns,
                self.pg_types,
                self.current_row as int,
                self.pg_types.len(),
            );
            match filled.1 {
                Some(e) => (self, filled.0, Err(e)),
                None => (
                    ReaderView { current_row: self.current_row + 1, ..self },
                    filled.0,
                    Ok(ReadStepView::Row),
                ),
            }
        }
    }

    /// The cursor after the engine's answer to a request: a batch, or the end of the
    /// stream. An exhausted cursor takes nothing; a batch of another shape than
    /// the query's columns is refused.
    pub open spec fn supply(self, batch: Option<RecordBatchView>) -> (
        ReaderView,
        Result<(), StorageError>,
    ) {
        if self.exhausted {
            (self, Ok(()))
        } else {
            match batch {
                None => (
                    ReaderView { record_batch: None, current_row: 0, exhausted: true, ..self },
                    Ok(()),
                ),
                Some(b) => if b.fits(self.pg_types.len() as int) {
                    (ReaderView { record_batch: Some(b), current_row: 0, ..self }, Ok(()))
                } else {
                    (self, Err(StorageError::ShapeMismatch))
                },
            }
        }
    }
}

/// What an optional batch holds.
pub open spec fn batch_of(batch: Option<RecordBatch>) -> Option<RecordBatchView> {
    match batch {
        Some(b) => Some(b@),
        None => None,
    }
}

impl View for DuckdbReader {
    type V = ReaderView;

    closed spec fn view(&self) -> ReaderView {
        ReaderView {
            sql: self.sql@,
            pg_types: self.pg_types@,
            record_batch: batch_of(self.record_batch),
            current_row: self.current_row as nat,
            opened: self.opened,
            exhausted: self.exhausted,
        }
    }
}

impl DuckdbReader {
    /// The value is well formed, at all times.
    #[verifier::type_invariant]
    pub open spec fn well_formed(self) -> bool {
        self@.wf()
    }

    /// A cursor for a query whose result has a column for each of the host types.
    pub fn new(sql: String, pg_types: Vec<u32>) -> (r: Self)
        ensures
            r@ == ReaderView::new(sql@, pg_types@),
            r@.wf(),
    {
        Self { sql, pg_types, record_batch: None, current_row: 0, opened: false, exhausted: false }
    }

    /// One step of reading into the row buffer.
    pub fn read(&mut self, row: &mut TupleSlot) -> (r: Result<ReadStep, StorageError>)
        ensures
            final(self)@.wf(),
            (final(self)@, final(row)@, outcome_view(r)) == old(self)@.read(old(row)@),
    {
        proof {
            use_type_invariant(&*self);
        }
        if self.exhausted {
            return Ok(ReadStep::Exhausted);
        }
        let needs_batch = match &self.record_batch {
            Some(batch) => self.current_row >= batch.num_rows,
            None => true,
        };
        if needs_batch {
            if self.opened {
                return Ok(ReadStep::Fetch);
            }
            self.opened = true;
            return Ok(ReadStep::Open(self.sql.clone()));
        }
        let n = self.pg_types.len();
        if row.datum.len() < n || row.nulls.len() < n {
            return Err(StorageError::ShapeMismatch);
        }
        match &self.record_batch {
            Some(batch) => {
                let mut column_index: usize = 0;
                while column_index < n
                    invariant
                        column_index <= n,
                        n == self.pg_types@.len(),
                        self@ == old(self)@,
                        self@.wf(),
                        !self@.exhausted,
                        self@.record_batch == Some(batch@),
                        batch@.fits(n as int),
                        self.current_row < batch@.num_rows,
                        row@.holds(n as int),
                        old(row)@.holds(n as int),
                        (row@, None::<StorageError>) == fill_progress(
                            old(row)@,
                            batch@.columns,
                            self.pg_types@,
                            self.current_row as int,
                            column_index as nat,
                        ),
                    decreases n - column_index,
                {
                    let ghost before = row@;
                    assert(batch@.columns[column_index as int].len() == batch@.num_rows);
                    match convert_datum_arrow_to_pg(
                        &batch.columns[column_index],
                        column_index,
                        self.pg_types[column_index],
                        self.current_row,
                        row,
                    ) {
                        Ok(_) => {
                            assert(batch@.columns[column_index as int][self.current_row as int]
                                == batch.columns@[column_index as int]@[self.current_row as int]@);
                        },
                        Err(e) => {
                            proof {
                                assert(batch@.columns[column_index as int][self.current_row as int]
                                    == batch.columns@[column_index as int]@[self.current_row as int]@);
                                assert(before.holds(column_index + 1));
                                assert(fill_progress(
                                    old(row)@,
                                    batch@.columns,
                                    self.pg_types@,
                                    self.current_row as int,
                                    (column_index + 1) as nat,
                                ) == (row@, Some(e)));
                                lemma_fill_stops(
                                    old(row)@,
                                    batch@.columns,
                                    self.pg_types@,
                                    self.current_row as int,
                                    (column_index + 1) as nat,
                                    n as nat,
                                );
                            }
                            return Err(e);
                        },
                    }
                    column_index += 1;
                }
            },
            None => {},
        }
        self.current_row += 1;
        Ok(ReadStep::Row)
    }

    /// Takes the engine's answer to a request: a batch, or the end of the stream.
    pub fn supply(&mut self, batch: Option<RecordBatch>) -> (r: Result<(), StorageError>)
        ensures
            final(self)@.wf(),
            (final(self)@, r) == old(self)@.supply(batch_of(batch)),
    {
        proof {
            use_type_invariant(&*self);
        }
        if self.exhausted {
            return Ok(());
        }
        match batch {
            None => {
                self.current_row = 0;
                self.record_batch = None;
                self.exhausted = true;
                Ok(())
            },
            Some(b) => {
                if b.fits(self.pg_types.len()) {
                    self.current_row = 0;
                    self.record_batch = Some(b);
                    Ok(())
                } else {
                    Err(StorageError::ShapeMismatch)
                }
            },
        }
    }

    /// Ends the cursor. Says whether the engine holds a stream that has to be
    /// released.
    pub fn close(&mut self) -> (release: bool)
        ensures
            release == old(self)@.opened,
            final(self)@ == (ReaderView {
                record_batch: None,
                current_row: 0,
                opened: false,
                exhausted: true,
                ..old(self)@
            }),
            final(self)@.wf(),
    {
        proof {
            use_type_invariant(&*self);
        }
        let release = self.opened;
        self.current_row = 0;
        self.record_batch = None;
        self.opened = false;
        self.exhausted = true;
        release
    }
}

/// One column of a columnar file: its name in queries and its type.
#[derive(Debug, PartialEq, Eq)]
pub struct Field {
    pub name: String,
    pub data_type: ColumnarType,
}

/// What a `Field` holds.
pub struct FieldView {
    pub name: Seq<char>,
    pub data_type: ColumnarType,
}

impl View for Field {
    type V = FieldView;

    open spec fn view(&self) -> FieldView {
        FieldView { name: self.name@, data_type: self.data_type }
    }
}

/// What each field of a vector holds.
pub open spec fn field_views(fields: Seq<Field>) -> Seq<FieldView> {
    Seq::new(fields.len(), |i: int| fields[i]@)
}

/// The columnar column of an attribute of a supported type.
pub open spec fn field_of(attribute: Attribute) -> FieldView {
    FieldView {
        name: column_name(attribute.column_id),
        data_type: columnar_type_of(attribute.data_type)->Some_0,
    }
}

/// The columnar columns of the attributes, in their order.
pub open spec fn layout_of(fields: Seq<Attribute>) -> Seq<FieldView> {
    Seq::new(fields.len(), |i: int| field_of(fields[i]))
}

/// The host types of the attributes, in their order.
pub open spec fn types_of(fields: Seq<Attribute>) -> Seq<u32> {
    Seq::new(fields.len(), |i: int| fields[i].data_type)
}

/// The names of the columns, in their order.
pub open spec fn names_of(fields: Seq<FieldView>) -> Seq<Seq<char>> {
    Seq::new(fields.len(), |i: int| fields[i].name)
}

/// The first of the first `n` attributes whose host type is not supported.
pub open spec fn first_unsupported(fields: Seq<Attribute>, n: nat) -> Option<int>
    decreases n,
{
    if n == 0 {
        None
    } else {
        match first_unsupported(fields, (n - 1) as nat) {
            Some(i) => Some(i),
            None => if columnar_type_of(fields[n - 1].data_type) is None {
                Some(n - 1)
            } else {
                None
            },
        }
    }
}

/// The cells that store the first `n` values of a row, or the error of the first
/// value that has no cell.
pub open spec fn record_of(
    pg_types: Seq<u32>,
    datum: Seq<DatumView>,
    nulls: Seq<bool>,
    n: nat,
) -> Result<Seq<CellView>, StorageError>
    decreases n,
{
    if n == 0 {
        Ok(Seq::empty())
    } else {
        match record_of(pg_types, datum, nulls, (n - 1) as nat) {
            Err(e) => Err(e),
            Ok(cells) => match cell_of_value(pg_types[n - 1], datum[n - 1], nulls[n - 1]) {
                Ok(cell) => Ok(cells.push(cell)),
                Err(e) => Err(e),
            },
        }
    }
}

/// The text that std's `PathBuf::push` makes of a directory and a file name, on the
/// platform that the crate is built for.
pub uninterp spec fn path_joined(dir: Seq<char>, name: Seq<char>) -> Seq<char>;

/// The name of the file of a relation.
pub open spec fn file_name(table_id: u32) -> Seq<char> {
    "table_"@ + decimal_text(table_id as int) + ".parquet"@
}

/// The path of the file of a relation under a root directory.
pub open spec fn file_path(dir: Seq<char>, table_id: u32) -> Seq<char> {
    path_joined(dir, file_name(table_id))
}

/// The text of the query that reads the named columns from the file at `path`, with
/// the row number of the file as a column, filtered and sampled where a clause is
/// given.
pub open spec fn query_text(
    columns: Seq<char>,
    path: Seq<char>,
    where_clause: Option<Seq<char>>,
    sample_clause: Option<Seq<char>>,
) -> Seq<char> {
    "SELECT "@ + columns + " FROM parquet_scan('"@ + path + "', file_row_number = true)"@ + (
    match where_clause {
        Some(w) => " WHERE "@ + w,
        None => Seq::empty(),
    }) + (match sample_clause {
        Some(s) => " "@ + s,
        None => Seq::empty(),
    })
}

/// Appends a file name to a directory with std's `PathBuf::push`, which puts the
/// platform's separator between them where the directory does not end in one. The
/// contract names the result; it claims nothing else of it.
#[verifier::external_body]
pub(crate) fn join_path(dir: &str, name: &str) -> (r: String)
    ensures
        r@ == path_joined(dir@, name@),
{
    let mut path = std::path::PathBuf::from(dir);
    path.push(name);
    path.to_string_lossy().into_owned()
}

/// What has to be done outside for one row that was written.
#[derive(Debug, PartialEq, Eq)]
pub struct WriteRequest {
    /// The path of the file to create, empty, before the record is appended: given
    /// where no writer is open yet.
    pub create: Option<String>,
    /// The record to append: one cell for each column.
    pub record: Vec<Cell>,
}

/// What a `WriteRequest` holds.
pub struct WriteRequestView {
    pub create: Option<Seq<char>>,
    pub record: Seq<CellView>,
}

impl View for WriteRequest {
    type V = WriteRequestView;

    open spec fn view(&self) -> WriteRequestView {
        WriteRequestView { create: text_of(self.create), record: cell_views(self.record@) }
    }
}

/// What the outcome of a write holds.
pub open spec fn written_view(r: Result<WriteRequest, StorageError>) -> Result<
    WriteRequestView,
    StorageError,
> {
    match r {
        Ok(request) => Ok(request@),
        Err(e) => Err(e),
    }
}

/// The handles that have to be closed outside.
#[derive(Clone, Copy, Debug, PartialEq, Eq, Structural)]
pub struct CloseRequest {
    /// The writer has to flush and finish its file.
    pub writer: bool,
    /// The stream and the statement of the reader have to be released.
    pub reader: bool,
}

/// The state of one relation.
#[derive(Debug)]
pub struct Table {
    table_id: u32,
    pg_types: Option<Vec<u32>>,
    schema: Option<Vec<Field>>,
    writer: bool,
    reader: Option<DuckdbReader>,
    where_clause: Option<String>,
    sample_clause: Option<String>,
}

/// What a `Table` holds.
pub struct TableView {
    pub table_id: u32,
    /// The host type of each column, once a schema was set.
    pub pg_types: Option<Seq<u32>>,
    /// The columnar columns, once a schema was set.
    pub schema: Option<Seq<FieldView>>,
    /// A writer is open outside.
    pub writer_open: bool,
    /// The cursor of the scan under way.
    pub reader: Option<ReaderView>,
    pub where_clause: Option<Seq<char>>,
    pub sample_clause: Option<Seq<char>>,
}

impl TableView {
    /// The columns and the host types belong together, and a cursor reads the
    /// columns of the schema.
    pub open spec fn wf(self) -> bool {
        &&& match (self.pg_types, self.schema) {
            (Some(types), Some(fields)) => types.len() == fields.len(),
            (None, None) => true,
            _ => false,
        }
        &&& match self.reader {
            Some(reader) => reader.wf() && self.pg_types == Some(reader.pg_types),
            None => true,
        }
    }

    /// The state of a relation that nothing was done to.
    pub open spec fn new(table_id: u32) -> TableView {
        TableView {
            table_id,
            pg_types: None,
            schema: None,
            writer_open: false,
            reader: None,
            where_clause: None,
            sample_clause: None,
        }
    }

    /// There is a cursor whose stream the engine was asked to open.
    pub open spec fn stream_open(self) -> bool {
        self.reader matches Some(reader) && reader.opened
    }

    /// Setting a schema: the table after it, and whether a stream has to be
    /// released outside.
    ///
    /// With an attribute of an unsupported type nothing changes. Otherwise the
    /// columns, types and clauses are those of the schema, whatever they were, and
    /// the cursor of an earlier scan is gone. The writer stays as it is.
    pub open spec fn set_schema(self, schema: SchemaView) -> (TableView, Result<bool, StorageError>) {
        match first_unsupported(schema.fields, schema.fields.len()) {
            Some(i) => (self, Err(StorageError::UnsupportedType(schema.fields[i].data_type))),
            None => (
                TableView {
                    pg_types: Some(types_of(schema.fields)),
                    schema: Some(layout_of(schema.fields)),
                    reader: None,
                    where_clause: schema.where_clause,
                    sample_clause: schema.sample_clause,
                    ..self
                },
                Ok(self.stream_open()),
            ),
        }
    }

    /// The columns that a query selects: the names of the schema's columns between
    /// commas, and `1` where no schema was set.
    pub open spec fn columns_clause(self) -> Seq<char> {
        match self.schema {
            Some(fields) => joined(names_of(fields), ", "@, fields.len()),
            None => "1"@,
        }
    }

    /// The filter of a query: the clause of the schema unless it is empty.
    pub open spec fn effective_where(self) -> Option<Seq<char>> {
        match self.where_clause {
            Some(w) => if w.len() > 0 {
                Some(w)
            } else {
                None
            },
            None => None,
        }
    }

    /// The query that a scan of the file at `path` runs.
    pub open spec fn query(self, path: Seq<char>) -> Seq<char> {
        query_text(self.columns_clause(), path, self.effective_where(), self.sample_clause)
    }

    /// Writing a row: the table after it and what has to be done outside.
    ///
    /// The row must have a value for each column of the schema, and each value a
    /// cell; otherwise nothing changes. The first row after the writer was closed,
    /// or the first ever, asks for the file at `path` to be created.
    pub open spec fn write(self, path: Seq<char>, row: TupleSlotView) -> (
        TableView,
        Result<WriteRequestView, StorageError>,
    ) {
        match self.pg_types {
            None => (self, Err(StorageError::SchemaMissing)),
            Some(types) => if row.natts != types.len() || !row.holds(row.natts as int) {
                (self, Err(StorageError::ShapeMismatch))
            } else {
                match record_of(types, row.datum, row.nulls, row.natts) {
                    Err(e) => (self, Err(e)),
                    Ok(cells) => (
                        TableView { writer_open: true, ..self },
                        Ok(
                            WriteRequestView {
                                create: if self.writer_open {
                                    None
                                } else {
                                    Some(path)
                                },
                                record: cells,
                            },
                        ),
                    ),
                }
            },
        }
    }

    /// One step of a scan of the file at `path`: the table and the row buffer after
    /// it, and its outcome.
    ///
    /// A table without a schema has no rows. Without a cursor, one is made for the
    /// query of the schema at hand; then the cursor takes its step.
    pub open spec fn read(self, path: Seq<char>, row: TupleSlotView) -> (
        TableView,
        TupleSlotView,
        Result<ReadStepView, StorageError>,
    ) {
        match self.pg_types {
            None => (self, row, Ok(ReadStepView::Exhausted)),
            Some(types) => {
                let reader = match self.reader {
                    Some(reader) => reader,
                    None => ReaderView::new(self.query(path), types),
                };
                let step = reader.read(row);
                (TableView { reader: Some(step.0), ..self }, step.1, step.2)
            },
        }
    }

    /// The engine's answer to a request of the cursor. Without a cursor the answer
    /// belongs to a scan that is over, and is dropped.
    pub open spec fn supply(self, batch: Option<RecordBatchView>) -> (
        TableView,
        Result<(), StorageError>,
    ) {
        match self.reader {
            None => (self, Ok(())),
            Some(reader) => {
                let step = reader.supply(batch);
                (TableView { reader: Some(step.0), ..self }, step.1)
            },
        }
    }

    /// Closing: the table without writer and cursor, and what has to be closed
    /// outside.
    pub open spec fn close(self) -> (TableView, CloseRequest) {
        (
            TableView { writer_open: false, reader: None, ..self },
            CloseRequest { writer: self.writer_open, reader: self.stream_open() },
        )
    }
}

/// What an optional cursor holds.
pub open spec fn reader_of(reader: Option<DuckdbReader>) -> Option<ReaderView> {
    match reader {
        Some(r) => Some(r@),
        None => None,
    }
}

/// What an optional vector of host types holds.
pub open spec fn types_view(pg_types: Option<Vec<u32>>) -> Option<Seq<u32>> {
    match pg_types {
        Some(types) => Some(types@),
        None => None,
    }
}

/// What an optional vector of columns holds.
pub open spec fn layout_view(schema: Option<Vec<Field>>) -> Option<Seq<FieldView>> {
    match schema {
        Some(fields) => Some(field_views(fields@)),
        None => None,
    }
}

impl View for Table {
    type V = TableView;

    closed spec fn view(&self) -> TableView {
        TableView {
            table_id: self.table_id,
            pg_types: types_view(self.pg_types),
            schema: layout_view(self.schema),
            writer_open: self.writer,
            reader: reader_of(self.reader),
            where_clause: text_of(self.where_clause),
            sample_clause: text_of(self.sample_clause),
        }
    }
}

impl Table {
    /// The value is well formed, at all times.
    #[verifier::type_invariant]
    pub open spec fn well_formed(self) -> bool {
        self@.wf()
    }

    /// Takes the cursor out of the table.
    fn take_reader(&mut self) -> (r: Option<DuckdbReader>)
        ensures
            reader_of(r) == old(self)@.reader,
            final(self)@ == (TableView { reader: None, ..old(self)@ }),
            old(self)@.wf(),
            r matches Some(reader) ==> reader@.wf(),
    {
        proof {
            use_type_invariant(&*self);
        }
        let mut reader: Option<DuckdbReader> = None;
        core::mem::swap(&mut self.reader, &mut reader);
        reader
    }

    /// The state of a relation that nothing was done to.
    pub fn new(table_id: u32) -> (r: Self)
        ensures
            r@ == TableView::new(table_id),
            r@.wf(),
    {
        Self {
            table_id,
            pg_types: None,
            schema: None,
            writer: false,
            reader: None,
            where_clause: None,
            sample_clause: None,
        }
    }

    /// The relation that this is the state of.
    pub fn table_id(&self) -> (r: u32)
        ensures
            r == self@.table_id,
    {
        self.table_id
    }

    /// The columns of the columnar file, once a schema was set.
    pub fn get_schema(&self) -> (r: Option<Vec<Field>>)
        ensures
            layout_view(r) == self@.schema,
    {
        match &self.schema {
            Some(fields) => {
                let mut copy: Vec<Field> = Vec::new();
                let mut i: usize = 0;
                while i < fields.len()
                    invariant
                        i <= fields.len(),
                        copy@.len() == i,
                        forall|j: int| 0 <= j < i ==> (#[trigger] copy@[j])@ == fields@[j]@,
                    decreases fields.len() - i,
                {
                    copy.push(Field { name: fields[i].name.clone(), data_type: fields[i].data_type });
                    i += 1;
                }
                assert(field_views(copy@) =~= field_views(fields@));
                Some(copy)
            },
            None => None,
        }
    }

    /// The path of the file of a relation under the root directory `dir`.
    pub fn get_path(&self, dir: &str, table_id: u32) -> (r: String)
        ensures
            r@ == file_path(dir@, table_id),
    {
        let mut name = String::from_str("table_");
        let number = integer_to_string(table_id as i64);
        name.append(number.as_str());
        name.append(".parquet");
        join_path(dir, name.as_str())
    }

    /// Sets the columns and the clauses of the scans and writes to come.
    pub fn set_schema(&mut self, schema: Schema) -> (r: Result<bool, StorageError>)
        ensures
            final(self)@.wf(),
            (final(self)@, r) == old(self)@.set_schema(schema@),
    {
        proof {
            use_type_invariant(&*self);
        }
        let mut fields: Vec<Field> = Vec::new();
        let mut pg_types: Vec<u32> = Vec::new();
        let mut i: usize = 0;
        while i < schema.fields.len()
            invariant
                i <= schema.fields.len(),
                self@ == old(self)@,
                self@.wf(),
                fields@.len() == i,
                pg_types@.len() == i,
                first_unsupported(schema.fields@, i as nat) is None,
                forall|j: int| 0 <= j < i ==> (#[trigger] fields@[j])@ == field_of(schema.fields@[j]),
                forall|j: int| 0 <= j < i ==> #[trigger] pg_types@[j] == schema.fields@[j].data_type,
            decreases schema.fields.len() - i,
        {
            let attribute = schema.fields[i];
            let data_type = match convert_datatype_pg_to_arrow(attribute.data_type) {
                Ok(data_type) => data_type,
                Err(e) => {
                    proof {
                        lemma_first_unsupported_stays(
                            schema.fields@,
                            (i + 1) as nat,
                            schema.fields@.len(),
                        );
                    }
                    return Err(e);
                },
            };
            fields.push(Field { name: extract_var(attribute.column_id), data_type });
            pg_types.push(attribute.data_type);
            i += 1;
        }
        let release = match &self.reader {
            Some(reader) => reader.opened,
            None => false,
        };
        assert(field_views(fields@) =~= layout_of(schema.fields@));
        assert(pg_types@ =~= types_of(schema.fields@));
        *self = Table {
            table_id: self.table_id,
            pg_types: Some(pg_types),
            schema: Some(fields),
            writer: self.writer,
            reader: None,
            where_clause: schema.where_clause,
            sample_clause: schema.sample_clause,
        };
        Ok(release)
    }

    /// Takes one row for the file of the relation under the root directory `dir`.
    pub fn write(&mut self, dir: &str, row: TupleSlot) -> (r: Result<WriteRequest, StorageError>)
        ensures
            final(self)@.wf(),
            (final(self)@, written_view(r)) == old(self)@.write(
                file_path(dir@, old(self)@.table_id),
                row@,
            ),
    {
        proof {
            use_type_invariant(&*self);
        }
        let mut record: Vec<Cell> = Vec::new();
        match &self.pg_types {
            None => {
                return Err(StorageError::SchemaMissing);
            },
            Some(pg_types) => {
                if row.natts != pg_types.len() || row.datum.len() < row.natts || row.nulls.len()
                    < row.natts {
                    return Err(StorageError::ShapeMismatch);
                }
                let mut i: usize = 0;
                assert(cell_views(record@) =~= Seq::empty());
                while i < row.natts
                    invariant
                        i <= row.natts,
                        self@ == old(self)@,
                        self@.wf(),
                        self@.pg_types == Some(pg_types@),
                        row.natts == pg_types@.len(),
                        row@.holds(row.natts as int),
                        record@.len() == i,
                        record_of(pg_types@, row@.datum, row@.nulls, i as nat) == Ok::<
                            Seq<CellView>,
                            StorageError,
                        >(cell_views(record@)),
                    decreases row.natts - i,
                {
                    let cell = match convert_datum_pg_to_arrow(
                        pg_types[i],
                        &row.datum[i],
                        row.nulls[i],
                    ) {
                        Ok(cell) => cell,
                        Err(e) => {
                            proof {
                                lemma_record_fails(
                                    pg_types@,
                                    row@.datum,
                                    row@.nulls,
                                    (i + 1) as nat,
                                    row.natts as nat,
                                );
                            }
                            return Err(e);
                        },
                    };
                    let ghost before = record@;
                    record.push(cell);
                    assert(cell_views(record@) =~= cell_views(before).push(cell@));
                    i += 1;
                }
            },
        }
        let create = if self.writer {
            None
        } else {
            Some(self.get_path(dir, self.table_id))
        };
        self.writer = true;
        Ok(WriteRequest { create, record })
    }

    /// The columns that a query selects.
    pub fn get_columns_clause(&self) -> (r: String)
        ensures
            r@ == self@.columns_clause(),
    {
        match &self.schema {
            Some(fields) => {
                let mut names: Vec<String> = Vec::new();
                let mut i: usize = 0;
                while i < fields.len()
                    invariant
                        i <= fields.len(),
                        names@.len() == i,
                        forall|j: int| 0 <= j < i ==> (#[trigger] names@[j])@ == fields@[j].name@,
                    decreases fields.len() - i,
                {
                    names.push(fields[i].name.clone());
                    i += 1;
                }
                assert(texts(names@) =~= names_of(field_views(fields@)));
                join_strings(&names, ", ")
            },
            None => String::from_str("1"),
        }
    }

    /// The filter of a query, if there is one.
    pub fn get_where_clause(&self) -> (r: Option<String>)
        ensures
            text_of(r) == self@.effective_where(),
    {
        match &self.where_clause {
            Some(where_clause) => {
                if where_clause.as_str().unicode_len() > 0 {
                    Some(where_clause.clone())
                } else {
                    None
                }
            },
            None => None,
        }
    }

    /// The query that a scan of the file at `path` runs.
    fn build_query(&self, path: &String) -> (r: String)
        ensures
            r@ == self@.query(path@),
    {
        let mut sql = String::from_str("SELECT ");
        let columns_clause = self.get_columns_clause();
        sql.append(columns_clause.as_str());
        sql.append(" FROM parquet_scan('");
        sql.append(path.as_str());
        sql.append("', file_row_number = true)");
        match self.get_where_clause() {
            Some(where_clause) => {
                sql.append(" WHERE ");
                sql.append(where_clause.as_str());
            },
            None => {},
        }
        match &self.sample_clause {
            Some(sample_clause) => {
                sql.append(" ");
                sql.append(sample_clause.as_str());
            },
            None => {},
        }
        assert(sql@ =~= self@.query(path@));
        sql
    }

    /// One step of the scan of the file of the relation under the root directory
    /// `dir`, into the row buffer.
    pub fn read(&mut self, dir: &str, row: &mut TupleSlot) -> (r: Result<ReadStep, StorageError>)
        ensures
            final(self)@.wf(),
            (final(self)@, final(row)@, outcome_view(r)) == old(self)@.read(
                file_path(dir@, old(self)@.table_id),
                old(row)@,
            ),
    {
        proof {
            use_type_invariant(&*self);
        }
        let pg_types = match &self.pg_types {
            Some(pg_types) => pg_types.clone(),
            None => {
                return Ok(ReadStep::Exhausted);
            },
        };
        let mut reader = match self.take_reader() {
            Some(reader) => reader,
            None => {
                let path = self.get_path(dir, self.table_id);
                DuckdbReader::new(self.build_query(&path), pg_types)
            },
        };
        let step = reader.read(row);
        self.reader = Some(reader);
        step
    }

    /// Takes the engine's answer to a request of the scan under way.
    pub fn supply(&mut self, batch: Option<RecordBatch>) -> (r: Result<(), StorageError>)
        ensures
            final(self)@.wf(),
            (final(self)@, r) == old(self)@.supply(batch_of(batch)),
    {
        match self.take_reader() {
            Some(reader) => {
                let mut reader = reader;
                let r = reader.supply(batch);
                self.reader = Some(reader);
                r
            },
            None => Ok(()),
        }
    }

    /// Ends the writing and the scan under way. Says what has to be closed outside.
    pub fn close(&mut self) -> (r: CloseRequest)
        ensures
            final(self)@.wf(),
            (final(self)@, r) == old(self)@.close(),
    {
        let writer = self.writer;
        let reader = match self.take_reader() {
            Some(reader) => {
                let mut reader = reader;
                reader.close()
            },
            None => false,
        };
        self.writer = false;
        self.reader = None;
        CloseRequest { writer, reader }
    }

    /// The path of the file to remove when the relation is dropped.
    pub fn drop(&mut self, dir: &str) -> (r: String)
        ensures
            r@ == file_path(dir@, old(self)@.table_id),
            final(self)@ == old(self)@,
    {
        self.get_path(dir, self.table_id)
    }
}

/// With an unsupported attribute among the first `k`, the first one among the
/// first `n` is the same.
pub proof fn lemma_first_unsupported_stays(fields: Seq<Attribute>, k: nat, n: nat)
    requires
        k <= n,
        first_unsupported(fields, k) is Some,
    ensures
        first_unsupported(fields, n) == first_unsupported(fields, k),
    decreases n,
{
    if k < n {
        lemma_first_unsupported_stays(fields, k, (n - 1) as nat);
    }
}

/// Once a value has no cell, the record of a longer row fails with the same error.
pub proof fn lemma_record_fails(
    pg_types: Seq<u32>,
    datum: Seq<DatumView>,
    nulls: Seq<bool>,
    k: nat,
    n: nat,
)
    requires
        k <= n,
        record_of(pg_types, datum, nulls, k) is Err,
    ensures
        record_of(pg_types, datum, nulls, n) == record_of(pg_types, datum, nulls, k),
    decreases n,
{
    if k < n {
        lemma_record_fails(pg_types, datum, nulls, k, (n - 1) as nat);
    }
}

/// Setting a schema ends the scan under way: the cursor is gone with its batch, an
/// answer of the engine that still arrives for it is dropped, and the next read
/// delivers no row but asks for the query of the new schema, with its filter and
/// its sampling clause, to be opened.
pub proof fn schema_reset_discards_reader(
    table: TableView,
    schema: SchemaView,
    path: Seq<char>,
    row: TupleSlotView,
    late: Option<RecordBatchView>,
)
    requires
        table.wf(),
        table.set_schema(schema).1 is Ok,
    ensures
        ({
            let reset = table.set_schema(schema).0;
            let asked = query_text(
                joined(names_of(layout_of(schema.fields)), ", "@, schema.fields.len()),
                path,
                match schema.where_clause {
                    Some(w) => if w.len() > 0 {
                        Some(w)
                    } else {
                        None
                    },
                    None => None,
                },
                schema.sample_clause,
            );
            &&& reset.wf()
            &&& reset.reader is None
            &&& reset.supply(late) == (reset, Ok::<(), StorageError>(()))
            &&& reset.read(path, row).1 == row
            &&& reset.read(path, row).2 == Ok::<ReadStepView, StorageError>(
                ReadStepView::Open(asked),
            )
            &&& reset.read(path, row).0.reader == Some(
                ReaderView { opened: true, ..ReaderView::new(asked, types_of(schema.fields)) },
            )
        }),
{
}

/// Setting a schema is idempotent, and what it leaves does not depend on the schema
/// and the clauses that the table had: set twice it is as set once, and after it two
/// tables of a relation differ by their writer alone.
pub proof fn set_schema_is_idempotent(table: TableView, other: TableView, schema: SchemaView)
    requires
        table.set_schema(schema).1 is Ok,
        other.table_id == table.table_id,
        other.writer_open == table.writer_open,
    ensures
        table.set_schema(schema).0.set_schema(schema) == (
            table.set_schema(schema).0,
            Ok::<bool, StorageError>(false),
        ),
        other.set_schema(schema).0 == table.set_schema(schema).0,
        table.set_schema(schema).0.writer_open == table.writer_open,
{
}

/// The end of a stream is final: an exhausted cursor answers every read with the
/// end, leaves the row buffer alone, and takes no further batch.
pub proof fn exhausted_is_terminal(
    reader: ReaderView,
    row: TupleSlotView,
    batch: Option<RecordBatchView>,
)
    requires
        reader.exhausted,
    ensures
        reader.read(row) == (reader, row, Ok::<ReadStepView, StorageError>(ReadStepView::Exhausted)),
        reader.supply(batch) == (reader, Ok::<(), StorageError>(())),
{
}

/// The end of the stream is reached by the engine's word alone: a cursor that is not
/// exhausted never answers a read with the end, and becomes exhausted exactly when
/// the engine supplies no batch.
pub proof fn end_comes_from_the_engine(
    reader: ReaderView,
    row: TupleSlotView,
    batch: Option<RecordBatchView>,
)
    requires
        !reader.exhausted,
    ensures
        reader.read(row).2 != Ok::<ReadStepView, StorageError>(ReadStepView::Exhausted),
        !reader.read(row).0.exhausted,
        reader.supply(batch).0.exhausted <==> batch is None,
{
}

/// Closing twice is closing once: a closed table has nothing left to close, and a
/// read after closing opens the query again.
pub proof fn close_is_idempotent(table: TableView, path: Seq<char>, row: TupleSlotView)
    requires
        table.wf(),
    ensures
        table.close().0.wf(),
        table.close().0.close() == (table.close().0, CloseRequest { writer: false, reader: false }),
        table.pg_types is Some ==> table.close().0.read(path, row).2 == Ok::<
            ReadStepView,
            StorageError,
        >(ReadStepView::Open(table.query(path))),
{
}

/// A table holds at most one writer: only the first row written after a close, or
/// the first ever, asks for the file to be created.
pub proof fn one_writer_at_a_time(
    table: TableView,
    path: Seq<char>,
    first: TupleSlotView,
    second: TupleSlotView,
)
    requires
        table.wf(),
        table.write(path, first).1 is Ok,
        table.write(path, first).0.write(path, second).1 is Ok,
    ensures
        (table.write(path, first).1->Ok_0.create is Some) == !table.writer_open,
        table.write(path, first).0.write(path, second).1->Ok_0.create is None,
{
}

/// The cursor and the row buffer after `n` reads, one after the other.
pub open spec fn after_reads(reader: ReaderView, row: TupleSlotView, n: nat) -> (
    ReaderView,
    TupleSlotView,
)
    decreases n,
{
    if n == 0 {
        (reader, row)
    } else {
        let before = after_reads(reader, row, (n - 1) as nat);
        let step = before.0.read(before.1);
        (step.0, step.1)
    }
}

/// Every cell of the batch has a value under the host type of its column.
pub open spec fn is_readable(batch: RecordBatchView, pg_types: Seq<u32>) -> bool {
    forall|c: int, r: int|
        0 <= c < batch.columns.len() && 0 <= r < batch.num_rows ==> (#[trigger] value_of_cell(
            batch.columns[c][r],
            pg_types[c],
        )) is Ok
}

/// Filling a row from readable cells succeeds: the first `n` positions hold the
/// values of the cells, the others what they held, and the buffer keeps its size.
pub proof fn lemma_fill_succeeds(
    row: TupleSlotView,
    batch: RecordBatchView,
    pg_types: Seq<u32>,
    r: int,
    n: nat,
)
    requires
        batch.fits(pg_types.len() as int),
        is_readable(batch, pg_types),
        0 <= r < batch.num_rows,
        n <= pg_types.len(),
        row.holds(pg_types.len() as int),
    ensures
        ({
            let filled = fill_progress(row, batch.columns, pg_types, r, n);
            &&& filled.1 is None
            &&& filled.0.natts == row.natts
            &&& filled.0.datum.len() == row.datum.len()
            &&& filled.0.nulls.len() == row.nulls.len()
            &&& forall|c: int|
                0 <= c < n ==> filled.0.datum[c] == (#[trigger] value_of_cell(
                    batch.columns[c][r],
                    pg_types[c],
                ))->Ok_0.raw && filled.0.nulls[c] == value_of_cell(
                    batch.columns[c][r],
                    pg_types[c],
                )->Ok_0.is_null
            &&& forall|c: int|
                n <= c < row.datum.len() ==> #[trigger] filled.0.datum[c] == row.datum[c]
            &&& forall|c: int|
                n <= c < row.nulls.len() ==> #[trigger] filled.0.nulls[c] == row.nulls[c]
        }),
    decreases n,
{
    if n > 0 {
        lemma_fill_succeeds(row, batch, pg_types, r, (n - 1) as nat);
        assert(value_of_cell(batch.columns[n - 1][r], pg_types[n - 1]) is Ok);
    }
}

/// The rows of a batch are delivered in their stored order: after a batch of
/// readable cells was supplied, the read that follows `k` others delivers row `k`
/// of the batch, cell by cell, and leaves the rest of the buffer alone.
pub proof fn rows_come_in_stored_order(
    reader: ReaderView,
    batch: RecordBatchView,
    row: TupleSlotView,
    k: nat,
)
    requires
        reader.wf(),
        !reader.exhausted,
        batch.fits(reader.pg_types.len() as int),
        is_readable(batch, reader.pg_types),
        row.holds(reader.pg_types.len() as int),
        k < batch.num_rows,
    ensures
        ({
            let fresh = reader.supply(Some(batch)).0;
            let before = after_reads(fresh, row, k);
            let step = before.0.read(before.1);
            &&& step.2 == Ok::<ReadStepView, StorageError>(ReadStepView::Row)
            &&& step.0 == (ReaderView { current_row: k + 1, ..fresh })
            &&& step.1.natts == row.natts
            &&& step.1.datum.len() == row.datum.len()
            &&& step.1.nulls.len() == row.nulls.len()
            &&& forall|c: int|
                0 <= c < reader.pg_types.len() ==> step.1.datum[c] == (#[trigger] value_of_cell(
                    batch.columns[c][k as int],
                    reader.pg_types[c],
                ))->Ok_0.raw && step.1.nulls[c] == value_of_cell(
                    batch.columns[c][k as int],
                    reader.pg_types[c],
                )->Ok_0.is_null
            &&& forall|c: int|
                reader.pg_types.len() <= c < row.datum.len() ==> #[trigger] step.1.datum[c]
                    == row.datum[c]
            &&& forall|c: int|
                reader.pg_types.len() <= c < row.nulls.len() ==> #[trigger] step.1.nulls[c]
                    == row.nulls[c]
        }),
    decreases k,
{
    let fresh = reader.supply(Some(batch)).0;
    if k > 0 {
        rows_come_in_stored_order(reader, batch, row, (k - 1) as nat);
    }
    let before = after_reads(fresh, row, k);
    assert(before.0 == (ReaderView { current_row: k, ..fresh }));
    assert(before.1.holds(reader.pg_types.len() as int));
    lemma_fill_succeeds(before.1, batch, reader.pg_types, k as int, reader.pg_types.len());
}

} // verus!
