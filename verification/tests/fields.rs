use pg_elephantduck::conversion::{
    Datum, BOOLOID, DATEOID, FLOAT4OID, FLOAT8OID, INT2OID, INT4OID, INT8OID, TEXTOID, TIMEOID,
    TIMESTAMPOID,
};
use pg_elephantduck::datetime_util::{Date, Time, Timestamp};
use pg_elephantduck::registry::{
    close_tables, create_table, insert_table, read, set_schema_for_read, supply_batch,
    VirtualStorage,
};
use pg_elephantduck::storage::{Attribute, ReadStep, RecordBatch, Schema, TupleSlot};

const DIR: &str = "/data";

fn schema_of(types: &[u32]) -> Schema {
    Schema {
        fields: types
            .iter()
            .enumerate()
            .map(|(i, data_type)| Attribute { column_id: i as i16 + 1, data_type: *data_type })
            .collect(),
        where_clause: None,
        sample_clause: None,
    }
}

/// Creates a relation with the given columns, inserts one row, ends the statement
/// and reads the relation in full. The file is the record that was written.
fn insert_and_select(types: &[u32], values: Vec<Datum>) -> Vec<TupleSlot> {
    let mut storage = VirtualStorage::new();
    create_table(&mut storage, 1, schema_of(types)).unwrap();
    let row = TupleSlot { natts: values.len(), nulls: vec![false; values.len()], datum: values };
    let request = insert_table(&mut storage, DIR, 1, row).unwrap().unwrap();
    assert_eq!(request.create, Some("/data/table_1.parquet".to_string()));
    assert_eq!(close_tables(&mut storage).len(), 1);
    let file = RecordBatch {
        columns: request.record.into_iter().map(|cell| vec![cell]).collect(),
        num_rows: 1,
    };

    set_schema_for_read(&mut storage, 1, schema_of(types)).unwrap();
    let mut batches = vec![file].into_iter();
    let mut rows = Vec::new();
    loop {
        let mut buffer = TupleSlot {
            natts: types.len(),
            datum: types.iter().map(|_| Datum::Bool(false)).collect(),
            nulls: vec![true; types.len()],
        };
        match read(&mut storage, DIR, 1, &mut buffer).unwrap() {
            ReadStep::Row => rows.push(buffer),
            ReadStep::Exhausted => return rows,
            ReadStep::Open(_) | ReadStep::Fetch => {
                supply_batch(&mut storage, 1, batches.next()).unwrap()
            }
        }
    }
}

fn selected(types: &[u32], values: Vec<Datum>) -> Vec<Datum> {
    let mut rows = insert_and_select(types, values);
    assert_eq!(rows.len(), 1);
    let row = rows.remove(0);
    assert!(row.nulls.iter().all(|null| !null));
    row.datum
}

#[test]
fn test_create_table_various_integer_fields() {
    assert_eq!(
        selected(
            &[INT2OID, INT4OID, INT8OID],
            vec![Datum::Int16(-1), Datum::Int32(1), Datum::Int64(10)]
        ),
        vec![Datum::Int16(-1), Datum::Int32(1), Datum::Int64(10)]
    );
}

#[test]
fn test_create_table_various_float_fields() {
    let values = selected(
        &[FLOAT4OID, FLOAT8OID],
        vec![Datum::Float32(1.0f32.to_bits()), Datum::Float64(10.0f64.to_bits())],
    );
    match values.as_slice() {
        [Datum::Float32(real), Datum::Float64(double)] => {
            assert_eq!(f32::from_bits(*real), 1.0);
            assert_eq!(f64::from_bits(*double), 10.0);
        }
        other => panic!("not two numbers: {:?}", other),
    }
}

#[test]
fn test_create_table_various_bool_fields() {
    assert_eq!(selected(&[BOOLOID], vec![Datum::Bool(true)]), vec![Datum::Bool(true)]);
}

#[test]
fn test_create_table_various_string_fields() {
    assert_eq!(
        selected(&[TEXTOID], vec![Datum::Text("Aa".to_string())]),
        vec![Datum::Text("Aa".to_string())]
    );
}

#[test]
fn test_create_table_various_datetime_fields() {
    let date = Date { year: 2024, month: 12, day: 6 };
    let time = Time { hour: 1, minute: 23, second: 45 };
    let stamp = Timestamp { year: 2024, month: 12, day: 6, hour: 1, minute: 23, second: 45 };
    assert_eq!(
        selected(
            &[DATEOID, TIMEOID, TIMESTAMPOID],
            vec![Datum::Date(date), Datum::Time(time), Datum::Timestamp(stamp)]
        ),
        vec![Datum::Date(date), Datum::Time(time), Datum::Timestamp(stamp)]
    );
}
