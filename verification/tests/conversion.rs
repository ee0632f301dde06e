use pg_elephantduck::conversion::{
    blank_of, convert_cell_to_value, convert_datatype_pg_to_arrow, convert_datum_pg_to_arrow, Cell,
    ColumnarType, Datum, ItemPointer, StorageError, Value, BOOLOID, DATEOID, FLOAT4OID, FLOAT8OID,
    INT2OID, INT4OID, INT8OID, TEXTOID, TIDOID, TIMEOID, TIMESTAMPOID,
};
use pg_elephantduck::datetime_util::{
    epoch_day, epoch_time, midnight, Date, EpochForTime, EpochTimeZone, Time, Timestamp,
};

fn round_trip(oid: u32, datum: Datum) {
    let cell = convert_datum_pg_to_arrow(oid, &datum, false).unwrap();
    let back = convert_cell_to_value(&cell, oid).unwrap();
    assert_eq!(back, Value { raw: datum, is_null: false });
}

fn null_round_trip(oid: u32, datum: Datum) {
    let cell = convert_datum_pg_to_arrow(oid, &datum, true).unwrap();
    assert_eq!(cell, Cell::Null);
    let back = convert_cell_to_value(&cell, oid).unwrap();
    assert!(back.is_null);
}

#[test]
fn every_supported_type_has_its_columnar_type() {
    assert_eq!(convert_datatype_pg_to_arrow(BOOLOID), Ok(ColumnarType::Boolean));
    assert_eq!(convert_datatype_pg_to_arrow(INT2OID), Ok(ColumnarType::Int16));
    assert_eq!(convert_datatype_pg_to_arrow(INT4OID), Ok(ColumnarType::Int32));
    assert_eq!(convert_datatype_pg_to_arrow(INT8OID), Ok(ColumnarType::Int64));
    assert_eq!(convert_datatype_pg_to_arrow(FLOAT4OID), Ok(ColumnarType::Float32));
    assert_eq!(convert_datatype_pg_to_arrow(FLOAT8OID), Ok(ColumnarType::Float64));
    assert_eq!(convert_datatype_pg_to_arrow(DATEOID), Ok(ColumnarType::Date32));
    assert_eq!(convert_datatype_pg_to_arrow(TIMEOID), Ok(ColumnarType::Time32Second));
    assert_eq!(convert_datatype_pg_to_arrow(TIMESTAMPOID), Ok(ColumnarType::TimestampSecond));
    assert_eq!(convert_datatype_pg_to_arrow(TEXTOID), Ok(ColumnarType::Utf8));
    assert_eq!(convert_datatype_pg_to_arrow(TIDOID), Ok(ColumnarType::Int64));
}

#[test]
fn the_type_identifiers_are_the_hosts() {
    assert_eq!(
        [BOOLOID, INT8OID, INT2OID, INT4OID, TEXTOID, TIDOID],
        [16, 20, 21, 23, 25, 27]
    );
    assert_eq!([FLOAT4OID, FLOAT8OID, DATEOID, TIMEOID, TIMESTAMPOID], [700, 701, 1082, 1083, 1114]);
}

#[test]
fn any_other_type_is_unsupported() {
    // numeric, uuid, jsonb and no type at all
    for oid in [1700u32, 2950, 3802, 0] {
        assert_eq!(convert_datatype_pg_to_arrow(oid), Err(StorageError::UnsupportedType(oid)));
        assert_eq!(
            convert_datum_pg_to_arrow(oid, &Datum::Int32(1), false),
            Err(StorageError::UnsupportedType(oid))
        );
        assert_eq!(
            convert_datum_pg_to_arrow(oid, &Datum::Int32(1), true),
            Err(StorageError::UnsupportedType(oid))
        );
        assert_eq!(
            convert_cell_to_value(&Cell::Int32(1), oid),
            Err(StorageError::UnsupportedType(oid))
        );
    }
}

#[test]
fn values_become_cells() {
    assert_eq!(convert_datum_pg_to_arrow(BOOLOID, &Datum::Bool(true), false), Ok(Cell::Boolean(true)));
    assert_eq!(convert_datum_pg_to_arrow(INT2OID, &Datum::Int16(-7), false), Ok(Cell::Int16(-7)));
    assert_eq!(convert_datum_pg_to_arrow(INT4OID, &Datum::Int32(3), false), Ok(Cell::Int32(3)));
    assert_eq!(convert_datum_pg_to_arrow(INT8OID, &Datum::Int64(10), false), Ok(Cell::Int64(10)));
    assert_eq!(
        convert_datum_pg_to_arrow(FLOAT4OID, &Datum::Float32(1.0f32.to_bits()), false),
        Ok(Cell::Float32(0x3f80_0000))
    );
    assert_eq!(
        convert_datum_pg_to_arrow(FLOAT8OID, &Datum::Float64(10.0f64.to_bits()), false),
        Ok(Cell::Float64(10.0f64.to_bits()))
    );
    assert_eq!(
        convert_datum_pg_to_arrow(TEXTOID, &Datum::Text("Aa".to_string()), false),
        Ok(Cell::Utf8("Aa".to_string()))
    );
}

#[test]
fn a_date_is_stored_as_days_since_1970() {
    let date = Datum::Date(Date { year: 2024, month: 12, day: 6 });
    assert_eq!(convert_datum_pg_to_arrow(DATEOID, &date, false), Ok(Cell::Date32(20063)));
    let epoch = Datum::Date(Date { year: 1970, month: 1, day: 1 });
    assert_eq!(convert_datum_pg_to_arrow(DATEOID, &epoch, false), Ok(Cell::Date32(0)));
    let before = Datum::Date(Date { year: 1969, month: 12, day: 31 });
    assert_eq!(convert_datum_pg_to_arrow(DATEOID, &before, false), Ok(Cell::Date32(-1)));
}

#[test]
fn a_time_is_stored_as_seconds_since_midnight() {
    let time = Datum::Time(Time { hour: 1, minute: 23, second: 45 });
    assert_eq!(convert_datum_pg_to_arrow(TIMEOID, &time, false), Ok(Cell::Time32Second(5025)));
    let last = Datum::Time(Time { hour: 23, minute: 59, second: 59 });
    assert_eq!(convert_datum_pg_to_arrow(TIMEOID, &last, false), Ok(Cell::Time32Second(86_399)));
}

#[test]
fn a_timestamp_is_stored_as_seconds_since_1970() {
    let stamp = Datum::Timestamp(Timestamp {
        year: 2024,
        month: 12,
        day: 6,
        hour: 1,
        minute: 23,
        second: 45,
    });
    assert_eq!(
        convert_datum_pg_to_arrow(TIMESTAMPOID, &stamp, false),
        Ok(Cell::TimestampSecond(1_733_448_225))
    );
    let before = Datum::Timestamp(Timestamp {
        year: 1969,
        month: 12,
        day: 31,
        hour: 23,
        minute: 59,
        second: 59,
    });
    assert_eq!(
        convert_datum_pg_to_arrow(TIMESTAMPOID, &before, false),
        Ok(Cell::TimestampSecond(-1))
    );
}

#[test]
fn cells_become_values() {
    assert_eq!(
        convert_cell_to_value(&Cell::Date32(20063), DATEOID),
        Ok(Value { raw: Datum::Date(Date { year: 2024, month: 12, day: 6 }), is_null: false })
    );
    assert_eq!(
        convert_cell_to_value(&Cell::Time32Second(5025), TIMEOID),
        Ok(Value { raw: Datum::Time(Time { hour: 1, minute: 23, second: 45 }), is_null: false })
    );
    assert_eq!(
        convert_cell_to_value(&Cell::TimestampSecond(1_733_448_225), TIMESTAMPOID),
        Ok(Value {
            raw: Datum::Timestamp(Timestamp {
                year: 2024,
                month: 12,
                day: 6,
                hour: 1,
                minute: 23,
                second: 45
            }),
            is_null: false
        })
    );
    assert_eq!(
        convert_cell_to_value(&Cell::Utf8("Aa".to_string()), TEXTOID),
        Ok(Value { raw: Datum::Text("Aa".to_string()), is_null: false })
    );
}

#[test]
fn every_supported_type_round_trips() {
    round_trip(BOOLOID, Datum::Bool(true));
    round_trip(BOOLOID, Datum::Bool(false));
    round_trip(INT2OID, Datum::Int16(i16::MIN));
    round_trip(INT4OID, Datum::Int32(i32::MAX));
    round_trip(INT8OID, Datum::Int64(i64::MIN));
    round_trip(FLOAT4OID, Datum::Float32(1.5f32.to_bits()));
    round_trip(FLOAT4OID, Datum::Float32(f32::NAN.to_bits()));
    round_trip(FLOAT8OID, Datum::Float64((-0.0f64).to_bits()));
    round_trip(DATEOID, Datum::Date(Date { year: 2024, month: 2, day: 29 }));
    round_trip(DATEOID, Datum::Date(Date { year: -44, month: 3, day: 15 }));
    round_trip(TIMEOID, Datum::Time(Time { hour: 0, minute: 0, second: 0 }));
    round_trip(TIMEOID, Datum::Time(Time { hour: 23, minute: 59, second: 59 }));
    round_trip(
        TIMESTAMPOID,
        Datum::Timestamp(Timestamp { year: 1969, month: 7, day: 20, hour: 20, minute: 17, second: 40 }),
    );
    round_trip(
        TIMESTAMPOID,
        Datum::Timestamp(Timestamp { year: 2038, month: 1, day: 19, hour: 3, minute: 14, second: 8 }),
    );
    round_trip(TEXTOID, Datum::Text(String::new()));
    round_trip(TEXTOID, Datum::Text("it's".to_string()));
    round_trip(TIDOID, Datum::RowId(ItemPointer { block_hi: 0, block_lo: 0, position: 65_535 }));
}

#[test]
fn absent_values_round_trip() {
    null_round_trip(BOOLOID, Datum::Bool(true));
    null_round_trip(INT2OID, Datum::Int16(1));
    null_round_trip(INT4OID, Datum::Int32(1));
    null_round_trip(INT8OID, Datum::Int64(1));
    null_round_trip(FLOAT4OID, Datum::Float32(1));
    null_round_trip(FLOAT8OID, Datum::Float64(1));
    null_round_trip(DATEOID, Datum::Date(Date { year: 2024, month: 12, day: 6 }));
    null_round_trip(TIMEOID, Datum::Time(Time { hour: 1, minute: 2, second: 3 }));
    null_round_trip(
        TIMESTAMPOID,
        Datum::Timestamp(Timestamp { year: 2024, month: 12, day: 6, hour: 1, minute: 2, second: 3 }),
    );
    null_round_trip(TEXTOID, Datum::Text("x".to_string()));
    // whatever the raw value is, an absent value is the null cell
    assert_eq!(convert_datum_pg_to_arrow(INT4OID, &Datum::Text("x".to_string()), true), Ok(Cell::Null));
}

#[test]
fn a_null_cell_is_the_blank_of_its_type() {
    assert_eq!(
        convert_cell_to_value(&Cell::Null, INT4OID),
        Ok(Value { raw: Datum::Int32(0), is_null: true })
    );
    assert_eq!(
        convert_cell_to_value(&Cell::Null, TEXTOID),
        Ok(Value { raw: Datum::Text(String::new()), is_null: true })
    );
    assert_eq!(
        convert_cell_to_value(&Cell::Null, DATEOID),
        Ok(Value { raw: Datum::Date(Date { year: 1970, month: 1, day: 1 }), is_null: true })
    );
    assert_eq!(blank_of(ColumnarType::Boolean), Datum::Bool(false));
    assert_eq!(blank_of(ColumnarType::Time32Second), Datum::Time(midnight()));
    assert_eq!(blank_of(ColumnarType::TimestampSecond), Datum::Timestamp(epoch_time()));
    assert_eq!(blank_of(ColumnarType::Date32), Datum::Date(epoch_day()));
}

#[test]
fn the_row_identity_is_the_low_bits_of_the_row_number() {
    assert_eq!(
        convert_cell_to_value(&Cell::Int64(3), TIDOID),
        Ok(Value {
            raw: Datum::RowId(ItemPointer { block_hi: 0, block_lo: 0, position: 3 }),
            is_null: false
        })
    );
    assert_eq!(
        convert_cell_to_value(&Cell::Int64(65_536 + 9), TIDOID),
        Ok(Value {
            raw: Datum::RowId(ItemPointer { block_hi: 0, block_lo: 0, position: 9 }),
            is_null: false
        })
    );
    assert_eq!(
        convert_cell_to_value(&Cell::Int64(-1), TIDOID),
        Ok(Value {
            raw: Datum::RowId(ItemPointer { block_hi: 0, block_lo: 0, position: 65_535 }),
            is_null: false
        })
    );
    // never absent
    assert_eq!(
        convert_cell_to_value(&Cell::Null, TIDOID),
        Ok(Value {
            raw: Datum::RowId(ItemPointer { block_hi: 0, block_lo: 0, position: 0 }),
            is_null: false
        })
    );
    // the block is not stored
    let located = Datum::RowId(ItemPointer { block_hi: 1, block_lo: 2, position: 3 });
    assert_eq!(convert_datum_pg_to_arrow(TIDOID, &located, false), Ok(Cell::Int64(3)));
}

#[test]
fn a_value_of_another_kind_is_a_mismatch() {
    assert_eq!(
        convert_datum_pg_to_arrow(INT4OID, &Datum::Bool(true), false),
        Err(StorageError::TypeMismatch(INT4OID))
    );
    assert_eq!(
        convert_datum_pg_to_arrow(INT8OID, &Datum::Int32(1), false),
        Err(StorageError::TypeMismatch(INT8OID))
    );
    assert_eq!(
        convert_cell_to_value(&Cell::Int32(1), INT8OID),
        Err(StorageError::TypeMismatch(INT8OID))
    );
    assert_eq!(
        convert_cell_to_value(&Cell::Utf8("1".to_string()), TIDOID),
        Err(StorageError::TypeMismatch(TIDOID))
    );
    assert_eq!(
        convert_cell_to_value(&Cell::Date32(1), TIMESTAMPOID),
        Err(StorageError::TypeMismatch(TIMESTAMPOID))
    );
}

#[test]
fn a_date_that_does_not_exist_is_out_of_range() {
    let no_day = Datum::Date(Date { year: 2023, month: 2, day: 30 });
    assert_eq!(
        convert_datum_pg_to_arrow(DATEOID, &no_day, false),
        Err(StorageError::OutOfRange(DATEOID))
    );
    let no_time = Datum::Time(Time { hour: 24, minute: 0, second: 0 });
    assert_eq!(
        convert_datum_pg_to_arrow(TIMEOID, &no_time, false),
        Err(StorageError::OutOfRange(TIMEOID))
    );
    let no_stamp = Datum::Timestamp(Timestamp {
        year: 2024,
        month: 13,
        day: 1,
        hour: 0,
        minute: 0,
        second: 0,
    });
    assert_eq!(
        convert_datum_pg_to_arrow(TIMESTAMPOID, &no_stamp, false),
        Err(StorageError::OutOfRange(TIMESTAMPOID))
    );
    assert_eq!(
        convert_cell_to_value(&Cell::Date32(i32::MAX), DATEOID),
        Err(StorageError::OutOfRange(DATEOID))
    );
    assert_eq!(
        convert_cell_to_value(&Cell::TimestampSecond(i64::MAX), TIMESTAMPOID),
        Err(StorageError::OutOfRange(TIMESTAMPOID))
    );
}

#[test]
fn dates_count_days_from_the_epoch() {
    assert_eq!(Date::from_epoch_day(0), Some(Date { year: 1970, month: 1, day: 1 }));
    assert_eq!(Date::from_epoch_day(20063), Some(Date { year: 2024, month: 12, day: 6 }));
    assert_eq!(Date::from_epoch_day(-1), Some(Date { year: 1969, month: 12, day: 31 }));
    assert_eq!(Date::from_epoch_day(i32::MIN), None);
    assert_eq!(Date { year: 2000, month: 1, day: 1 }.to_epoch_day(), Some(10_957));
    assert_eq!(Date { year: 2000, month: 0, day: 1 }.to_epoch_day(), None);
}

#[test]
fn times_count_seconds_from_midnight_and_wrap() {
    assert_eq!(Time::from_epoch_time(0), Some(Time { hour: 0, minute: 0, second: 0 }));
    assert_eq!(Time::from_epoch_time(5025), Some(Time { hour: 1, minute: 23, second: 45 }));
    assert_eq!(Time::from_epoch_time(86_400), Some(Time { hour: 0, minute: 0, second: 0 }));
    assert_eq!(Time::from_epoch_time(86_400 + 61), Some(Time { hour: 0, minute: 1, second: 1 }));
    assert_eq!(Time::from_epoch_time(-1), Some(Time { hour: 23, minute: 59, second: 59 }));
    assert_eq!(Time::from_epoch_time(9_223_372_036_854_775), Some(Time { hour: 7, minute: 12, second: 55 }));
    assert_eq!(Time::from_epoch_time(9_223_372_036_854_776), None);
    assert_eq!(Time::from_epoch_time(-9_223_372_036_854_775), Some(Time { hour: 16, minute: 47, second: 5 }));
    assert_eq!(Time::from_epoch_time(-9_223_372_036_854_776), None);
    assert_eq!(Time { hour: 23, minute: 59, second: 59 }.to_epoch_time(), Some(86_399));
    assert_eq!(Time { hour: 0, minute: 60, second: 0 }.to_epoch_time(), None);
    assert_eq!(Time { hour: 0, minute: 0, second: 60 }.to_epoch_time(), None);
}

#[test]
fn timestamps_count_seconds_from_the_epoch() {
    assert_eq!(Timestamp::from_epoch_time(0), Some(epoch_time()));
    assert_eq!(
        Timestamp::from_epoch_time(1_733_448_225),
        Some(Timestamp { year: 2024, month: 12, day: 6, hour: 1, minute: 23, second: 45 })
    );
    assert_eq!(
        Timestamp::from_epoch_time(-86_401),
        Some(Timestamp { year: 1969, month: 12, day: 30, hour: 23, minute: 59, second: 59 })
    );
    assert_eq!(Timestamp::from_epoch_time(i64::MAX), None);
    assert_eq!(
        Timestamp { year: 2001, month: 9, day: 9, hour: 1, minute: 46, second: 40 }.to_epoch_time(),
        Some(1_000_000_000)
    );
    assert_eq!(
        Timestamp { year: 2001, month: 9, day: 31, hour: 0, minute: 0, second: 0 }.to_epoch_time(),
        None
    );
}
