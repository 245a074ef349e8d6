use power_meter::database::{classify_open_failure, float_cell, int_cell, CellType, CellValue, Database, ReadonlyDatabase, SqliteError, StoreError};
use power_meter::meter_reading::{MeterReading, ScaledValue};

fn temp_db_path(tag: &str) -> String {
    let nanos = std::time::SystemTime::now()
        .duration_since(std::time::SystemTime::UNIX_EPOCH)
        .unwrap()
        .as_nanos();
    format!("/tmp/power_meter_query_{tag}_{nanos}.sqlite3")
}

fn populated_store(tag: &str) -> (String, Database) {
    let path = temp_db_path(tag);
    let db = Database::load(&path).unwrap();
    let mut reading = MeterReading::empty();
    reading.meter_reading = Some(ScaledValue {
        raw: 123456,
        scale: -1,
    });
    reading.line_one = Some(230);
    db.insert_reading_at(&reading, 1000).unwrap();
    (path, db)
}

#[test]
fn null_and_float_cells_come_back_typed_with_matching_names() {
    let (path, _db) = populated_store("null_float");
    let ro = ReadonlyDatabase::load(&path).unwrap();
    let result = ro
        .query("SELECT MeterTime AS a, MeterReading AS b FROM Readings")
        .unwrap();
    assert_eq!(result.columns, vec!["a".to_string(), "b".to_string()]);
    assert_eq!(result.rows_count, 1);
    assert_eq!(result.rows.len(), 1);
    assert_eq!(result.rows[0].len(), 2);
    assert_eq!(result.rows[0][0], None);
    assert_eq!(
        result.rows[0][1],
        Some(CellValue::FloatBits(12345.6f64.to_bits()))
    );
}

#[test]
fn integer_cells_come_back_as_integers() {
    let (path, _db) = populated_store("ints");
    let ro = ReadonlyDatabase::load(&path).unwrap();
    let result = ro
        .query("SELECT Timestamp, LineOne, COUNT(*) FROM Readings")
        .unwrap();
    assert_eq!(result.rows_count, 1);
    assert_eq!(result.rows[0][0], Some(CellValue::I64(1000)));
    assert_eq!(result.rows[0][1], Some(CellValue::I64(230)));
    assert_eq!(result.rows[0][2], Some(CellValue::I64(1)));
}

#[test]
fn text_cells_fail_the_whole_query() {
    let (path, _db) = populated_store("text");
    let ro = ReadonlyDatabase::load(&path).unwrap();
    match ro.query("SELECT 'hello'") {
        Err(StoreError::UnexpectedColumnType(CellType::Text)) => {}
        other => panic!("expected UnexpectedColumnType, got {:?}", other.map(|_| ())),
    }
}

#[test]
fn malformed_statements_are_reported_not_fatal() {
    let (path, _db) = populated_store("malformed");
    let ro = ReadonlyDatabase::load(&path).unwrap();
    match ro.query("SELEKT nonsense") {
        Err(StoreError::Sqlite(_)) => {}
        other => panic!("expected an SQLite error, got {:?}", other.map(|_| ())),
    }
}

#[test]
fn writes_are_refused_on_the_readonly_connection() {
    let (path, _db) = populated_store("readonly");
    let ro = ReadonlyDatabase::load(&path).unwrap();
    assert!(ro.query("DELETE FROM Readings").is_err());
    assert_eq!(_db.metrics().unwrap().count_readings, 1);
}

#[test]
fn loading_a_missing_store_reports_does_not_exist() {
    let path = temp_db_path("missing");
    match ReadonlyDatabase::load(&path) {
        Err(StoreError::DoesNotExist) => {}
        other => panic!("expected DoesNotExist, got {:?}", other.map(|_| ())),
    }
}

#[test]
fn empty_result_sets_have_no_rows() {
    let (path, _db) = populated_store("empty");
    let ro = ReadonlyDatabase::load(&path).unwrap();
    let result = ro
        .query("SELECT Timestamp FROM Readings WHERE Timestamp = 77")
        .unwrap();
    assert_eq!(result.rows_count, 0);
    assert_eq!(result.rows.len(), 0);
    assert_eq!(result.columns, vec!["Timestamp".to_string()]);
}

#[test]
fn cells_are_decoded_from_their_read_results() {
    assert_eq!(int_cell(Ok(7)), Ok(Some(CellValue::I64(7))));
    assert_eq!(
        float_cell(Ok(Some(0.5f64.to_bits()))),
        Ok(Some(CellValue::FloatBits(0.5f64.to_bits())))
    );
    assert_eq!(float_cell(Ok(None)), Ok(None));
    let e = SqliteError {
        code: Some(1),
        message: None,
    };
    assert_eq!(int_cell(Err(e.clone())), Err(StoreError::Sqlite(e.clone())));
    assert_eq!(float_cell(Err(e.clone())), Err(StoreError::Sqlite(e)));
}

#[test]
fn open_failures_are_classified_exactly() {
    let missing = SqliteError {
        code: Some(14),
        message: None,
    };
    assert_eq!(classify_open_failure(missing), StoreError::DoesNotExist);
    let other = SqliteError {
        code: Some(8),
        message: Some("attempt to write a readonly database".to_string()),
    };
    assert_eq!(
        classify_open_failure(other.clone()),
        StoreError::Sqlite(other)
    );
}
