use pg_elephantduck::conversion::{
    Cell, Datum, ItemPointer, StorageError, INT4OID, INT8OID, TEXTOID, TIDOID,
};
use pg_elephantduck::storage::{
    convert_datum_arrow_to_pg, Attribute, CloseRequest, DuckdbReader, ReadStep, RecordBatch,
    Schema, Table, TupleSlot, WriteRequest,
};

const DIR: &str = "/data/elephantduck";

fn one_int_column() -> Schema {
    Schema {
        fields: vec![Attribute { column_id: 1, data_type: INT4OID }],
        where_clause: None,
        sample_clause: None,
    }
}

fn int_row(n: i32) -> TupleSlot {
    TupleSlot { natts: 1, datum: vec![Datum::Int32(n)], nulls: vec![false] }
}

fn int_batch(values: &[i32]) -> RecordBatch {
    RecordBatch {
        columns: vec![values.iter().map(|n| Cell::Int32(*n)).collect()],
        num_rows: values.len(),
    }
}

/// Plays the engine: answers each request of the table with the next batch.
fn scan_ints(table: &mut Table, batches: Vec<RecordBatch>) -> (Vec<String>, Vec<i32>) {
    let mut batches = batches.into_iter();
    let mut queries = Vec::new();
    let mut values = Vec::new();
    let mut row = int_row(0);
    loop {
        match table.read(DIR, &mut row).unwrap() {
            ReadStep::Row => match &row.datum[0] {
                Datum::Int32(n) => values.push(*n),
                other => panic!("not an integer: {:?}", other),
            },
            ReadStep::Exhausted => return (queries, values),
            ReadStep::Open(sql) => {
                queries.push(sql);
                table.supply(batches.next()).unwrap();
            }
            ReadStep::Fetch => table.supply(batches.next()).unwrap(),
        }
    }
}

#[test]
fn the_file_of_a_relation_is_named_by_its_identifier() {
    let table = Table::new(16384);
    assert_eq!(table.table_id(), 16384);
    assert_eq!(table.get_path(DIR, 16384), "/data/elephantduck/table_16384.parquet");
    assert_eq!(table.get_path("/data/", 7), "/data/table_7.parquet");
    assert_eq!(table.get_path("", 0), "table_0.parquet");
    assert_eq!(table.get_path(DIR, u32::MAX), "/data/elephantduck/table_4294967295.parquet");
}

#[test]
fn the_first_row_creates_the_file_and_later_rows_append() {
    let mut table = Table::new(1);
    assert_eq!(table.set_schema(one_int_column()), Ok(false));
    assert_eq!(
        table.write(DIR, int_row(1)),
        Ok(WriteRequest {
            create: Some("/data/elephantduck/table_1.parquet".to_string()),
            record: vec![Cell::Int32(1)],
        })
    );
    assert_eq!(
        table.write(DIR, int_row(2)),
        Ok(WriteRequest { create: None, record: vec![Cell::Int32(2)] })
    );
    assert_eq!(table.close(), CloseRequest { writer: true, reader: false });
    assert_eq!(
        table.write(DIR, int_row(3)),
        Ok(WriteRequest {
            create: Some("/data/elephantduck/table_1.parquet".to_string()),
            record: vec![Cell::Int32(3)],
        })
    );
}

#[test]
fn test_insert_two() {
    let mut table = Table::new(1);
    table.set_schema(one_int_column()).unwrap();
    let mut file: Vec<Vec<Cell>> = Vec::new();
    for n in [1, 2] {
        file.push(table.write(DIR, int_row(n)).unwrap().record);
    }
    assert_eq!(table.close(), CloseRequest { writer: true, reader: false });
    let stored: Vec<Cell> = file.into_iter().flatten().collect();
    let batch = RecordBatch { num_rows: stored.len(), columns: vec![stored] };
    let (queries, values) = scan_ints(&mut table, vec![batch]);
    assert_eq!(
        queries,
        vec!["SELECT column_1 FROM parquet_scan('/data/elephantduck/table_1.parquet', file_row_number = true)"]
    );
    assert_eq!(values, vec![1, 2]);
}

#[test]
fn test_insert_one() {
    let mut table = Table::new(1);
    table.set_schema(one_int_column()).unwrap();
    let record = table.write(DIR, int_row(3)).unwrap().record;
    table.close();
    let (_, values) = scan_ints(&mut table, vec![RecordBatch { columns: vec![record], num_rows: 1 }]);
    assert_eq!(values, vec![3]);
}

#[test]
fn test_create_table_as() {
    let mut table = Table::new(1);
    table.set_schema(one_int_column()).unwrap();
    let all: Vec<i32> = (1..=10).collect();
    // the engine hands the rows over in batches of any size, empty ones among them
    let batches = vec![int_batch(&all[..3]), int_batch(&[]), int_batch(&all[3..]), int_batch(&[])];
    let (queries, values) = scan_ints(&mut table, batches);
    assert_eq!(queries.len(), 1);
    assert_eq!(values, all);
}

#[test]
fn a_row_must_match_the_schema() {
    let mut table = Table::new(1);
    assert_eq!(table.write(DIR, int_row(1)), Err(StorageError::SchemaMissing));
    table.set_schema(one_int_column()).unwrap();
    let wide = TupleSlot {
        natts: 2,
        datum: vec![Datum::Int32(1), Datum::Int32(2)],
        nulls: vec![false, false],
    };
    assert_eq!(table.write(DIR, wide), Err(StorageError::ShapeMismatch));
    let short = TupleSlot { natts: 1, datum: vec![], nulls: vec![false] };
    assert_eq!(table.write(DIR, short), Err(StorageError::ShapeMismatch));
    let empty = TupleSlot { natts: 0, datum: vec![], nulls: vec![] };
    assert_eq!(table.write(DIR, empty), Err(StorageError::ShapeMismatch));
    let text = TupleSlot { natts: 1, datum: vec![Datum::Text("1".to_string())], nulls: vec![false] };
    assert_eq!(table.write(DIR, text), Err(StorageError::TypeMismatch(INT4OID)));
    // a row that failed opens no writer
    assert_eq!(table.close(), CloseRequest { writer: false, reader: false });
}

#[test]
fn an_absent_value_is_written_as_a_null_cell() {
    let mut table = Table::new(1);
    table
        .set_schema(Schema {
            fields: vec![
                Attribute { column_id: 1, data_type: INT4OID },
                Attribute { column_id: 2, data_type: TEXTOID },
            ],
            where_clause: None,
            sample_clause: None,
        })
        .unwrap();
    let row = TupleSlot {
        natts: 2,
        datum: vec![Datum::Int32(0), Datum::Text("b".to_string())],
        nulls: vec![true, false],
    };
    assert_eq!(
        table.write(DIR, row).unwrap().record,
        vec![Cell::Null, Cell::Utf8("b".to_string())]
    );
}

#[test]
fn a_schema_with_an_unsupported_type_is_refused() {
    let mut table = Table::new(1);
    table.set_schema(one_int_column()).unwrap();
    let bad = Schema {
        fields: vec![
            Attribute { column_id: 1, data_type: INT4OID },
            Attribute { column_id: 2, data_type: 1700 },
            Attribute { column_id: 3, data_type: 2950 },
        ],
        where_clause: Some("x".to_string()),
        sample_clause: None,
    };
    assert_eq!(table.set_schema(bad), Err(StorageError::UnsupportedType(1700)));
    // the table is what it was
    assert_eq!(table.get_columns_clause(), "column_1");
    assert_eq!(table.get_where_clause(), None);
}

#[test]
fn the_columns_clause_names_the_columns_of_the_schema() {
    let mut table = Table::new(1);
    assert_eq!(table.get_columns_clause(), "1");
    table
        .set_schema(Schema {
            fields: vec![
                Attribute { column_id: 2, data_type: INT8OID },
                Attribute { column_id: -1, data_type: TIDOID },
                Attribute { column_id: 1, data_type: TEXTOID },
            ],
            where_clause: None,
            sample_clause: None,
        })
        .unwrap();
    assert_eq!(table.get_columns_clause(), "column_2, file_row_number, column_1");
    table
        .set_schema(Schema { fields: vec![], where_clause: None, sample_clause: None })
        .unwrap();
    assert_eq!(table.get_columns_clause(), "");
}

#[test]
fn an_empty_filter_is_no_filter() {
    let mut table = Table::new(1);
    let mut schema = one_int_column();
    schema.where_clause = Some(String::new());
    table.set_schema(schema).unwrap();
    assert_eq!(table.get_where_clause(), None);
    let (queries, _) = scan_ints(&mut table, vec![]);
    assert_eq!(
        queries,
        vec!["SELECT column_1 FROM parquet_scan('/data/elephantduck/table_1.parquet', file_row_number = true)"]
    );
}

#[test]
fn test_push_down_where_clause() {
    let mut table = Table::new(1);
    let mut schema = one_int_column();
    schema.where_clause = Some("(column_1) < (5)".to_string());
    table.set_schema(schema).unwrap();
    assert_eq!(table.get_where_clause(), Some("(column_1) < (5)".to_string()));
    // the engine filters: it hands over the four rows that match
    let (queries, values) = scan_ints(&mut table, vec![int_batch(&[1, 2, 3, 4])]);
    assert_eq!(
        queries,
        vec!["SELECT column_1 FROM parquet_scan('/data/elephantduck/table_1.parquet', file_row_number = true) WHERE (column_1) < (5)"]
    );
    assert_eq!(values.len(), 4);
}

#[test]
fn test_tablesample_clause() {
    let mut table = Table::new(1);
    let mut schema = one_int_column();
    schema.sample_clause = Some("USING SAMPLE 10 PERCENT (bernoulli, 0)".to_string());
    table.set_schema(schema).unwrap();
    let (first, _) = scan_ints(&mut table, vec![]);
    assert_eq!(
        first,
        vec!["SELECT column_1 FROM parquet_scan('/data/elephantduck/table_1.parquet', file_row_number = true) USING SAMPLE 10 PERCENT (bernoulli, 0)"]
    );
    // a second run asks the engine the same
    table.close();
    let (second, _) = scan_ints(&mut table, vec![]);
    assert_eq!(second, first);
}

#[test]
fn filter_and_sampling_stand_in_this_order() {
    let mut table = Table::new(9);
    let mut schema = one_int_column();
    schema.where_clause = Some("column_1 IS NOT NULL".to_string());
    schema.sample_clause = Some("USING SAMPLE 5 PERCENT (bernoulli)".to_string());
    table.set_schema(schema).unwrap();
    let (queries, _) = scan_ints(&mut table, vec![]);
    assert_eq!(
        queries,
        vec!["SELECT column_1 FROM parquet_scan('/data/elephantduck/table_9.parquet', file_row_number = true) WHERE column_1 IS NOT NULL USING SAMPLE 5 PERCENT (bernoulli)"]
    );
}

#[test]
fn test_where_clause() {
    // one row (a = 1, b = 2); column a is read where b is not null
    let mut table = Table::new(1);
    table
        .set_schema(Schema {
            fields: vec![Attribute { column_id: 1, data_type: INT4OID }],
            where_clause: Some("column_2 IS NOT NULL".to_string()),
            sample_clause: None,
        })
        .unwrap();
    let (queries, values) = scan_ints(&mut table, vec![int_batch(&[1])]);
    assert_eq!(
        queries,
        vec!["SELECT column_1 FROM parquet_scan('/data/elephantduck/table_1.parquet', file_row_number = true) WHERE column_2 IS NOT NULL"]
    );
    assert_eq!(values, vec![1]);
}

#[test]
fn test_ctid() {
    let mut table = Table::new(1);
    table
        .set_schema(Schema {
            fields: vec![Attribute { column_id: -1, data_type: TIDOID }],
            where_clause: None,
            sample_clause: None,
        })
        .unwrap();
    let mut row = TupleSlot { natts: 1, datum: vec![Datum::Int32(0)], nulls: vec![true] };
    assert_eq!(
        table.read(DIR, &mut row),
        Ok(ReadStep::Open(
            "SELECT file_row_number FROM parquet_scan('/data/elephantduck/table_1.parquet', file_row_number = true)"
                .to_string()
        ))
    );
    let numbers: Vec<Cell> = (0..10).map(Cell::Int64).collect();
    table.supply(Some(RecordBatch { columns: vec![numbers], num_rows: 10 })).unwrap();
    for position in 0..10 {
        assert_eq!(table.read(DIR, &mut row), Ok(ReadStep::Row));
        assert_eq!(
            row.datum[0],
            Datum::RowId(ItemPointer { block_hi: 0, block_lo: 0, position })
        );
        assert_eq!(row.nulls[0], false);
    }
    assert_eq!(table.read(DIR, &mut row), Ok(ReadStep::Fetch));
    table.supply(None).unwrap();
    assert_eq!(table.read(DIR, &mut row), Ok(ReadStep::Exhausted));
}

#[test]
fn a_table_without_schema_has_no_rows() {
    let mut table = Table::new(1);
    let mut row = int_row(7);
    assert_eq!(table.read(DIR, &mut row), Ok(ReadStep::Exhausted));
    assert_eq!(row, int_row(7));
    assert_eq!(table.close(), CloseRequest { writer: false, reader: false });
}

#[test]
fn the_end_of_the_stream_is_final() {
    let mut table = Table::new(1);
    table.set_schema(one_int_column()).unwrap();
    let (_, values) = scan_ints(&mut table, vec![int_batch(&[1])]);
    assert_eq!(values, vec![1]);
    let mut row = int_row(0);
    assert_eq!(table.read(DIR, &mut row), Ok(ReadStep::Exhausted));
    // a batch that comes after the end is not read
    table.supply(Some(int_batch(&[9]))).unwrap();
    assert_eq!(table.read(DIR, &mut row), Ok(ReadStep::Exhausted));
    assert_eq!(row, int_row(0));
}

#[test]
fn setting_a_schema_discards_the_reader() {
    let mut table = Table::new(1);
    let mut old = one_int_column();
    old.where_clause = Some("(column_1) < (5)".to_string());
    table.set_schema(old).unwrap();
    let mut row = int_row(0);
    assert!(matches!(table.read(DIR, &mut row), Ok(ReadStep::Open(_))));
    table.supply(Some(int_batch(&[1, 2, 3, 4]))).unwrap();
    assert_eq!(table.read(DIR, &mut row), Ok(ReadStep::Row));
    assert_eq!(row, int_row(1));

    // mid-stream, the predicate changes
    let mut new = one_int_column();
    new.where_clause = Some("(column_1) > (8)".to_string());
    assert_eq!(table.set_schema(new), Ok(true));
    // what the old stream still delivers is dropped
    table.supply(Some(int_batch(&[2, 3, 4]))).unwrap();
    assert_eq!(
        table.read(DIR, &mut row),
        Ok(ReadStep::Open(
            "SELECT column_1 FROM parquet_scan('/data/elephantduck/table_1.parquet', file_row_number = true) WHERE (column_1) > (8)"
                .to_string()
        ))
    );
    table.supply(Some(int_batch(&[9, 10]))).unwrap();
    assert_eq!(table.read(DIR, &mut row), Ok(ReadStep::Row));
    assert_eq!(row, int_row(9));
    assert_eq!(table.read(DIR, &mut row), Ok(ReadStep::Row));
    assert_eq!(row, int_row(10));
    assert_eq!(table.read(DIR, &mut row), Ok(ReadStep::Fetch));
}

#[test]
fn setting_a_schema_keeps_the_writer() {
    let mut table = Table::new(1);
    table.set_schema(one_int_column()).unwrap();
    assert!(table.write(DIR, int_row(1)).unwrap().create.is_some());
    assert_eq!(table.set_schema(one_int_column()), Ok(false));
    assert_eq!(table.write(DIR, int_row(2)).unwrap().create, None);
}

#[test]
fn closing_is_idempotent_and_a_read_after_it_opens_again() {
    let mut table = Table::new(1);
    table.set_schema(one_int_column()).unwrap();
    table.write(DIR, int_row(1)).unwrap();
    let mut row = int_row(0);
    assert!(matches!(table.read(DIR, &mut row), Ok(ReadStep::Open(_))));
    assert_eq!(table.close(), CloseRequest { writer: true, reader: true });
    assert_eq!(table.close(), CloseRequest { writer: false, reader: false });
    assert!(matches!(table.read(DIR, &mut row), Ok(ReadStep::Open(_))));
    assert_eq!(table.read(DIR, &mut row), Ok(ReadStep::Fetch));
}

#[test]
fn a_batch_of_another_shape_is_refused() {
    let mut table = Table::new(1);
    table.set_schema(one_int_column()).unwrap();
    let mut row = int_row(0);
    assert!(matches!(table.read(DIR, &mut row), Ok(ReadStep::Open(_))));
    let two_columns = RecordBatch { columns: vec![vec![Cell::Int32(1)], vec![Cell::Int32(2)]], num_rows: 1 };
    assert_eq!(table.supply(Some(two_columns)), Err(StorageError::ShapeMismatch));
    let ragged = RecordBatch { columns: vec![vec![Cell::Int32(1)]], num_rows: 2 };
    assert_eq!(table.supply(Some(ragged)), Err(StorageError::ShapeMismatch));
    assert!(!ragged_fits());
    // the cursor still waits for its batch
    assert_eq!(table.read(DIR, &mut row), Ok(ReadStep::Fetch));
}

fn ragged_fits() -> bool {
    RecordBatch { columns: vec![vec![Cell::Int32(1)]], num_rows: 2 }.fits(1)
}

#[test]
fn a_batch_fits_when_every_column_has_its_rows() {
    assert!(int_batch(&[1, 2]).fits(1));
    assert!(!int_batch(&[1, 2]).fits(2));
    assert!(RecordBatch { columns: vec![], num_rows: 3 }.fits(0));
}

#[test]
fn a_cell_of_another_kind_stops_the_row() {
    let mut reader = DuckdbReader::new("q".to_string(), vec![INT4OID, INT4OID, INT4OID]);
    let mut row = TupleSlot {
        natts: 3,
        datum: vec![Datum::Int32(0), Datum::Int32(0), Datum::Int32(0)],
        nulls: vec![false, false, false],
    };
    assert_eq!(reader.read(&mut row), Ok(ReadStep::Open("q".to_string())));
    let batch = RecordBatch {
        columns: vec![vec![Cell::Int32(1)], vec![Cell::Int64(2)], vec![Cell::Int32(3)]],
        num_rows: 1,
    };
    reader.supply(Some(batch)).unwrap();
    assert_eq!(reader.read(&mut row), Err(StorageError::TypeMismatch(INT4OID)));
    // the columns before the cell were filled, those from it on were not
    assert_eq!(row.datum, vec![Datum::Int32(1), Datum::Int32(0), Datum::Int32(0)]);
    // and the cursor stays on the row
    assert_eq!(reader.read(&mut row), Err(StorageError::TypeMismatch(INT4OID)));
}

#[test]
fn a_short_row_buffer_is_refused() {
    let mut reader = DuckdbReader::new("q".to_string(), vec![INT4OID, INT4OID]);
    let mut row = int_row(0);
    assert_eq!(reader.read(&mut row), Ok(ReadStep::Open("q".to_string())));
    let batch = RecordBatch { columns: vec![vec![Cell::Int32(1)], vec![Cell::Int32(2)]], num_rows: 1 };
    reader.supply(Some(batch)).unwrap();
    assert_eq!(reader.read(&mut row), Err(StorageError::ShapeMismatch));
    assert_eq!(row, int_row(0));
}

#[test]
fn a_longer_row_buffer_keeps_its_tail() {
    let mut reader = DuckdbReader::new("q".to_string(), vec![INT4OID]);
    let mut row = TupleSlot {
        natts: 2,
        datum: vec![Datum::Int32(0), Datum::Text("kept".to_string())],
        nulls: vec![true, true],
    };
    assert_eq!(reader.read(&mut row), Ok(ReadStep::Open("q".to_string())));
    reader.supply(Some(int_batch(&[5]))).unwrap();
    assert_eq!(reader.read(&mut row), Ok(ReadStep::Row));
    assert_eq!(row.datum, vec![Datum::Int32(5), Datum::Text("kept".to_string())]);
    assert_eq!(row.nulls, vec![false, true]);
    assert_eq!(reader.close(), true);
    assert_eq!(reader.close(), false);
    assert_eq!(reader.read(&mut row), Ok(ReadStep::Exhausted));
}

#[test]
fn a_null_cell_is_read_as_an_absent_value() {
    let mut reader = DuckdbReader::new("q".to_string(), vec![INT4OID]);
    let mut row = int_row(9);
    assert_eq!(reader.read(&mut row), Ok(ReadStep::Open("q".to_string())));
    reader.supply(Some(RecordBatch { columns: vec![vec![Cell::Null]], num_rows: 1 })).unwrap();
    assert_eq!(reader.read(&mut row), Ok(ReadStep::Row));
    assert_eq!(row.nulls, vec![true]);
}

#[test]
fn one_cell_goes_into_one_position() {
    let column = vec![Cell::Int32(1), Cell::Int32(2)];
    let mut row = TupleSlot {
        natts: 2,
        datum: vec![Datum::Bool(false), Datum::Bool(false)],
        nulls: vec![true, true],
    };
    assert_eq!(convert_datum_arrow_to_pg(&column, 1, INT4OID, 1, &mut row), Ok(()));
    assert_eq!(row.datum, vec![Datum::Bool(false), Datum::Int32(2)]);
    assert_eq!(row.nulls, vec![true, false]);
    assert_eq!(
        convert_datum_arrow_to_pg(&column, 1, INT4OID, 2, &mut row),
        Err(StorageError::ShapeMismatch)
    );
    assert_eq!(
        convert_datum_arrow_to_pg(&column, 2, INT4OID, 0, &mut row),
        Err(StorageError::ShapeMismatch)
    );
    assert_eq!(
        convert_datum_arrow_to_pg(&column, 0, TEXTOID, 0, &mut row),
        Err(StorageError::TypeMismatch(TEXTOID))
    );
    assert_eq!(row.datum, vec![Datum::Bool(false), Datum::Int32(2)]);
}

#[test]
fn dropping_names_the_file_to_remove() {
    let mut table = Table::new(42);
    assert_eq!(table.drop(DIR), "/data/elephantduck/table_42.parquet");
}

#[test]
fn setting_the_same_schema_twice_is_setting_it_once() {
    let mut once = Table::new(1);
    let mut twice = Table::new(1);
    let mut schema = one_int_column();
    schema.where_clause = Some("(column_1) < (5)".to_string());
    assert_eq!(once.set_schema(schema), Ok(false));
    for _ in 0..2 {
        let mut schema = one_int_column();
        schema.where_clause = Some("(column_1) < (5)".to_string());
        assert_eq!(twice.set_schema(schema), Ok(false));
    }
    assert_eq!(once.get_schema(), twice.get_schema());
    assert_eq!(once.get_where_clause(), twice.get_where_clause());
    let (asked_once, _) = scan_ints(&mut once, vec![]);
    let (asked_twice, _) = scan_ints(&mut twice, vec![]);
    assert_eq!(asked_once, asked_twice);
}
