use power_meter::database::{classify_insert_outcome, stored_row_of, Database, InsertOutcome, SqliteError, StoreError};
use power_meter::meter_reading::{MeterReading, ScaledValue};

fn temp_db_path(tag: &str) -> String {
    let nanos = std::time::SystemTime::now()
        .duration_since(std::time::SystemTime::UNIX_EPOCH)
        .unwrap()
        .as_nanos();
    format!("/tmp/power_meter_store_{tag}_{nanos}.sqlite3")
}

fn sample_reading() -> MeterReading {
    let mut reading = MeterReading::empty();
    reading.meter_time = Some(900);
    reading.meter_reading = Some(ScaledValue {
        raw: 123456,
        scale: -1,
    });
    reading.line_one = Some(230);
    reading
}

#[test]
fn two_inserts_in_the_same_second_leave_one_row_and_both_succeed() {
    let path = temp_db_path("dedup");
    let db = Database::load(&path).unwrap();
    let reading = sample_reading();
    assert_eq!(
        db.insert_reading_at(&reading, 1000).unwrap(),
        InsertOutcome::Inserted
    );
    assert_eq!(
        db.insert_reading_at(&reading, 1000).unwrap(),
        InsertOutcome::DuplicateIgnored
    );
    let metrics = db.metrics().unwrap();
    assert_eq!(metrics.count_readings, 1);
}

#[test]
fn distinct_seconds_store_distinct_rows() {
    let path = temp_db_path("rows");
    let db = Database::load(&path).unwrap();
    let reading = sample_reading();
    db.insert_reading_at(&reading, 1000).unwrap();
    db.insert_reading_at(&reading, 1001).unwrap();
    let rows = db.list_readings().unwrap();
    assert_eq!(rows.len(), 2);
    assert_eq!(rows[0].timestamp, 1000);
    assert_eq!(rows[1].timestamp, 1001);
    assert_eq!(rows[0].meter_time, Some(900));
    assert_eq!(f64::from_bits(rows[0].total_energy_bits), 12345.6);
    assert_eq!(rows[0].line_one, Some(230));
    assert_eq!(rows[0].line_two, None);
    assert_eq!(rows[0].line_three, None);
}

#[test]
fn insert_with_the_wall_clock_succeeds() {
    let path = temp_db_path("clock");
    let db = Database::load(&path).unwrap();
    assert_eq!(
        db.insert_reading(&sample_reading()).unwrap(),
        InsertOutcome::Inserted
    );
    assert_eq!(db.metrics().unwrap().count_readings, 1);
}

#[test]
fn init_refuses_an_existing_store() {
    let path = temp_db_path("clobber");
    let _db = Database::load(&path).unwrap();
    match Database::init(&path) {
        Err(StoreError::AlreadyExists) => {}
        other => panic!("expected AlreadyExists, got {:?}", other.map(|_| ())),
    }
}

#[test]
fn load_reopens_an_existing_store() {
    let path = temp_db_path("reopen");
    {
        let db = Database::load(&path).unwrap();
        db.insert_reading_at(&sample_reading(), 5).unwrap();
    }
    let db = Database::load(&path).unwrap();
    let metrics = db.metrics().unwrap();
    assert_eq!(metrics.count_readings, 1);
    assert_eq!(metrics.location, path);
    assert!(metrics.file_size > 0);
}

#[test]
fn missing_energy_counter_violates_the_schema_and_is_swallowed() {
    // The energy column is NOT NULL; a reading without it trips the same
    // constraint error as a duplicate timestamp, which the store reports
    // as a no-op success, exactly as a duplicate is reported.
    let path = temp_db_path("null_energy");
    let db = Database::load(&path).unwrap();
    let reading = MeterReading::empty();
    assert_eq!(
        db.insert_reading_at(&reading, 1).unwrap(),
        InsertOutcome::DuplicateIgnored
    );
    assert_eq!(db.metrics().unwrap().count_readings, 0);
}

#[test]
fn metrics_describe_renders_the_summary() {
    let path = temp_db_path("describe");
    let db = Database::load(&path).unwrap();
    db.insert_reading_at(&sample_reading(), 10).unwrap();
    let metrics = db.metrics().unwrap();
    assert_eq!(
        metrics.describe(),
        format!(
            "Location: {}\nMetrics: 1 readings, {} bytes",
            path, metrics.file_size
        )
    );
}

fn sqlite_error(code: i64) -> SqliteError {
    SqliteError {
        code: Some(code),
        message: None,
    }
}

#[test]
fn insert_outcomes_are_classified_exactly() {
    assert_eq!(
        classify_insert_outcome(Ok(())),
        Ok(InsertOutcome::Inserted)
    );
    assert_eq!(
        classify_insert_outcome(Err(sqlite_error(19))),
        Ok(InsertOutcome::DuplicateIgnored)
    );
    assert_eq!(
        classify_insert_outcome(Err(sqlite_error(5))),
        Err(sqlite_error(5))
    );
    assert_eq!(
        classify_insert_outcome(Err(SqliteError {
            code: None,
            message: None
        })),
        Err(SqliteError {
            code: None,
            message: None
        })
    );
}

#[test]
fn listed_rows_are_decoded_from_their_column_reads() {
    let row = stored_row_of(
        Ok(Some(900)),
        Ok(1000),
        Ok(Some(12345.6f64.to_bits())),
        Ok(Some(230)),
        Ok(None),
        Ok(None),
    )
    .unwrap();
    assert_eq!(row.meter_time, Some(900));
    assert_eq!(row.timestamp, 1000);
    assert_eq!(f64::from_bits(row.total_energy_bits), 12345.6);
    assert_eq!(row.line_one, Some(230));
    assert_eq!(row.line_two, None);
    assert_eq!(row.line_three, None);

    let failed = stored_row_of(
        Ok(None),
        Err(sqlite_error(10)),
        Ok(None),
        Ok(None),
        Ok(None),
        Ok(None),
    );
    assert_eq!(failed, Err(sqlite_error(10)));
}
