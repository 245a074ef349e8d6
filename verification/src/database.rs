//! The durable store: an append-only SQLite table of readings with
//! time-based deduplication, summary metrics, and a read-only query
//! surface.
//!
//! SQLite itself is an external collaborator reached through trusted
//! wrappers; what the store promises of its own behaviour — the statement
//! text it issues, which failures it swallows, the shape of query results
//! — is verified here.

use vstd::prelude::*;

use sqlite::Connection;
use sqlite::ConnectionThreadSafe;
use sqlite::Statement;

use crate::clock::{duration_millis, duration_secs, system_now, time_since, time_since_epoch};
use crate::decimal::{ascii_chars, ascii_to_string, dec_bytes, int_bytes, lemma_dec_bytes_ascii,
    lemma_int_bytes_ascii, lemma_scaled_bytes_ascii, push_i64_dec, push_u64_dec, scaled_bytes,
    scaled_dec};
use crate::meter_reading::{MeterReading, ScaledValue};

verus! {

#[verifier::external_type_specification]
#[verifier::external_body]
pub struct ExConnection(Connection);

#[verifier::external_type_specification]
#[verifier::external_body]
pub struct ExConnectionThreadSafe(ConnectionThreadSafe);

#[verifier::external_type_specification]
#[verifier::external_body]
pub struct ExStatement<'l>(Statement<'l>);

#[verifier::external_type_specification]
#[verifier::external_body]
pub struct ExSqliteErrorRaw(sqlite::Error);

/// Moves an `sqlite::Error`'s code and message into the library's error
/// type.
#[verifier::external_body]
fn sqlite_error(e: sqlite::Error) -> SqliteError {
    SqliteError { code: e.code.map(|c| c as i64), message: e.message }
}

/// An error reported by SQLite, as a plain code and message.
#[derive(Debug, Clone, PartialEq, Eq)]
pub struct SqliteError {
    /// The SQLite result code.
    pub code: Option<i64>,
    /// The textual message, when SQLite supplied one.
    pub message: Option<String>,
}

/// The runtime type of one result cell, as SQLite reports it.
#[derive(Debug, Clone, Copy, PartialEq, Eq, Structural)]
pub enum CellType {
    Binary,
    Float,
    Integer,
    Text,
    Null,
}

/// An error of the store or of the query surface.
#[derive(Debug, Clone, PartialEq, Eq)]
pub enum StoreError {
    /// Initialization refused: a store already exists at the target.
    AlreadyExists,
    /// The read-only surface found no store at the target.
    DoesNotExist,
    /// The wall clock could not provide a usable instant.
    Clock,
    /// A statement that should yield a row yielded none.
    NoRow,
    /// A result cell had a runtime type the query surface does not decode.
    UnexpectedColumnType(CellType),
    /// Any other failure, as SQLite reported it.
    Sqlite(SqliteError),
}

/// The SQLite result code for a violated constraint, such as two rows
/// with one ingestion timestamp.
pub const UNIQUE_CONSTRAINT_ERROR: i64 = 19;

/// Relies on `sqlite::Connection::open`: opens a read-write connection,
/// creating the database when none exists.
#[verifier::external_body]
fn open_rw_create(path: &str) -> Result<Connection, SqliteError> {
    Connection::open(path).map_err(sqlite_error)
}

/// Relies on `sqlite::Connection::open_with_flags` without the create
/// flag: opens a read-write connection, failing when none exists.
#[verifier::external_body]
fn open_rw_existing(path: &str) -> Result<Connection, SqliteError> {
    let flags = sqlite::OpenFlags::new().with_read_write();
    Connection::open_with_flags(path, flags).map_err(sqlite_error)
}

/// Relies on `sqlite::Connection::open_thread_safe_with_flags` with the
/// read-only flag: opens a connection with write operations disabled.
#[verifier::external_body]
fn open_readonly(path: &str) -> Result<ConnectionThreadSafe, SqliteError> {
    let flags = sqlite::OpenFlags::new().with_read_only();
    Connection::open_thread_safe_with_flags(path, flags).map_err(sqlite_error)
}

/// Relies on `ConnectionThreadSafe`'s `Deref` to `Connection`.
#[verifier::external_body]
fn readonly_as_connection<'a>(conn: &'a ConnectionThreadSafe) -> &'a Connection {
    conn
}

/// Relies on `sqlite::Connection::execute`: runs the statement text to
/// completion.
#[verifier::external_body]
fn connection_execute(conn: &Connection, sql: &str) -> Result<(), SqliteError> {
    conn.execute(sql).map_err(sqlite_error)
}

/// Relies on `sqlite::Connection::prepare`: compiles one statement.
#[verifier::external_body]
fn connection_prepare<'a>(conn: &'a Connection, sql: &str) -> Result<Statement<'a>, SqliteError> {
    conn.prepare(sql).map_err(sqlite_error)
}

/// Relies on `sqlite::Statement::next`: advances the statement, returning
/// whether a row is available for reading.
#[verifier::external_body]
fn statement_next(stmt: &mut Statement<'_>) -> Result<bool, SqliteError> {
    match stmt.next() {
        Ok(sqlite::State::Row) => Ok(true),
        Ok(sqlite::State::Done) => Ok(false),
        Err(e) => Err(sqlite_error(e)),
    }
}

/// Relies on `sqlite::Statement::column_names`: the name of every result
/// column, in order.
#[verifier::external_body]
fn statement_column_names(stmt: &Statement<'_>) -> Vec<String> {
    stmt.column_names().to_vec()
}

/// Relies on `sqlite::Statement::column_type`: the runtime type of the
/// column's current value.
#[verifier::external_body]
fn statement_column_type(stmt: &Statement<'_>, index: usize) -> Result<CellType, SqliteError> {
    match stmt.column_type(index) {
        Ok(sqlite::Type::Binary) => Ok(CellType::Binary),
        Ok(sqlite::Type::Float) => Ok(CellType::Float),
        Ok(sqlite::Type::Integer) => Ok(CellType::Integer),
        Ok(sqlite::Type::String) => Ok(CellType::Text),
        Ok(sqlite::Type::Null) => Ok(CellType::Null),
        Err(e) => Err(sqlite_error(e)),
    }
}

/// Relies on `sqlite::Statement::read` at type `i64`: the current row's
/// integer cell at the index.
#[verifier::external_body]
fn statement_read_i64(stmt: &Statement<'_>, index: usize) -> Result<i64, SqliteError> {
    stmt.read::<i64, usize>(index).map_err(sqlite_error)
}

/// Relies on `sqlite::Statement::read` at type `sqlite::Value`: the
/// current row's cell at the index, when it is a floating-point value,
/// carried as its bit pattern.
#[verifier::external_body]
fn statement_read_float_bits(stmt: &Statement<'_>, index: usize) -> Result<
    Option<u64>,
    SqliteError,
> {
    match stmt.read::<sqlite::Value, usize>(index) {
        Ok(sqlite::Value::Float(x)) => Ok(Some(x.to_bits())),
        Ok(_) => Ok(None),
        Err(e) => Err(sqlite_error(e)),
    }
}

/// The SQL text inserted for an optional integer: its decimal form, or
/// `NULL`.
pub open spec fn spec_opt_int_sql(v: Option<int>) -> Seq<char> {
    match v {
        Some(n) => ascii_chars(int_bytes(n)),
        None => "NULL"@,
    }
}

/// The SQL text inserted for the optional energy counter: its scaled
/// decimal form, or `NULL`.
pub open spec fn spec_energy_sql(v: Option<ScaledValue>) -> Seq<char> {
    match v {
        Some(sv) => ascii_chars(scaled_bytes(sv.raw as nat, sv.scale as int)),
        None => "NULL"@,
    }
}

/// The exact statement text that persists `r` at ingestion timestamp
/// `ts`.
pub open spec fn spec_insert_sql(r: MeterReading, ts: u64) -> Seq<char> {
    "INSERT INTO Readings (MeterTime, Timestamp, MeterReading, LineOne, LineTwo, LineThree) VALUES ("@
        + spec_opt_int_sql(
        match r.meter_time {
            Some(t) => Some(t as int),
            None => None,
        },
    ) + ", "@ + ascii_chars(dec_bytes(ts as nat)) + ", "@ + spec_energy_sql(r.meter_reading)
        + ", "@ + spec_opt_int_sql(
        match r.line_one {
            Some(p) => Some(p as int),
            None => None,
        },
    ) + ", "@ + spec_opt_int_sql(
        match r.line_two {
            Some(p) => Some(p as int),
            None => None,
        },
    ) + ", "@ + spec_opt_int_sql(
        match r.line_three {
            Some(p) => Some(p as int),
            None => None,
        },
    ) + ")"@
}

/// Appends the SQL text of an optional integer value.
fn push_opt_i64_sql(s: &mut String, v: Option<i64>)
    ensures
        final(s)@ == old(s)@ + spec_opt_int_sql(
            match v {
                Some(n) => Some(n as int),
                None => None,
            },
        ),
{
    match v {
        Some(n) => {
            let mut buf: Vec<u8> = Vec::new();
            push_i64_dec(&mut buf, n);
            proof {
                lemma_int_bytes_ascii(n as int);
            }
            let txt = ascii_to_string(buf);
            s.append(txt.as_str());
        },
        None => s.append("NULL"),
    }
}

/// Builds the exact statement text that persists `r` at ingestion
/// timestamp `ts`.
pub fn build_insert_sql(r: &MeterReading, ts: u64) -> (sql: String)
    ensures
        sql@ == spec_insert_sql(*r, ts),
{
    let mut s = String::new();
    s.append(
        "INSERT INTO Readings (MeterTime, Timestamp, MeterReading, LineOne, LineTwo, LineThree) VALUES (",
    );
    push_opt_i64_sql(
        &mut s,
        match r.meter_time {
            Some(t) => Some(t as i64),
            None => None,
        },
    );
    s.append(", ");
    let mut ts_buf: Vec<u8> = Vec::new();
    push_u64_dec(&mut ts_buf, ts);
    proof {
        lemma_dec_bytes_ascii(ts as nat);
    }
    let ts_txt = ascii_to_string(ts_buf);
    s.append(ts_txt.as_str());
    s.append(", ");
    match r.meter_reading {
        Some(sv) => {
            let digits = scaled_dec(sv.raw, sv.scale);
            proof {
                lemma_scaled_bytes_ascii(sv.raw as nat, sv.scale as int);
            }
            let txt = ascii_to_string(digits);
            s.append(txt.as_str());
        },
        None => s.append("NULL"),
    }
    s.append(", ");
    push_opt_i64_sql(
        &mut s,
        match r.line_one {
            Some(p) => Some(p as i64),
            None => None,
        },
    );
    s.append(", ");
    push_opt_i64_sql(
        &mut s,
        match r.line_two {
            Some(p) => Some(p as i64),
            None => None,
        },
    );
    s.append(", ");
    push_opt_i64_sql(
        &mut s,
        match r.line_three {
            Some(p) => Some(p as i64),
            None => None,
        },
    );
    s.append(")");
    proof {
        assert(s@ =~= spec_insert_sql(*r, ts));
    }
    s
}

/// Whether an insert failure is the expected duplicate-timestamp case.
fn is_constraint_violation(e: &SqliteError) -> (r: bool)
    ensures
        r == (e.code == Some(UNIQUE_CONSTRAINT_ERROR as i64)),
{
    match &e.code {
        Some(c) => *c == UNIQUE_CONSTRAINT_ERROR,
        None => false,
    }
}

/// The outcome of persisting one reading.
#[derive(Debug, Clone, Copy, PartialEq, Eq, Structural)]
pub enum InsertOutcome {
    /// A new row was stored.
    Inserted,
    /// The insert violated a constraint (SQLite code 19) and was a no-op
    /// reported as success.  Usually this is a row with the same
    /// ingestion timestamp; a reading without an energy counter violates
    /// the NOT NULL energy column and is swallowed the same way, so such
    /// a reading is silently lost.
    DuplicateIgnored,
}

/// How the store classifies the outcome of its insert statement: success
/// stores a row; a constraint violation is a no-op reported as success
/// (see [`InsertOutcome::DuplicateIgnored`]); every other failure
/// propagates unchanged.
pub open spec fn spec_insert_outcome(res: Result<(), SqliteError>) -> Result<
    InsertOutcome,
    SqliteError,
> {
    match res {
        Ok(_) => Ok(InsertOutcome::Inserted),
        Err(e) => if e.code == Some(UNIQUE_CONSTRAINT_ERROR as i64) {
            Ok(InsertOutcome::DuplicateIgnored)
        } else {
            Err(e)
        },
    }
}

/// Classifies the outcome of the insert statement.
pub fn classify_insert_outcome(res: Result<(), SqliteError>) -> (r: Result<
    InsertOutcome,
    SqliteError,
>)
    ensures
        r == spec_insert_outcome(res),
{
    match res {
        Ok(()) => Ok(InsertOutcome::Inserted),
        Err(e) => {
            if is_constraint_violation(&e) {
                Ok(InsertOutcome::DuplicateIgnored)
            } else {
                Err(e)
            }
        },
    }
}

/// One persisted reading together with its ingestion timestamp.
#[derive(Debug, Clone, PartialEq, Eq)]
pub struct StoredRow {
    /// The meter-internal seconds counter, when the reading carried one.
    pub meter_time: Option<i64>,
    /// Wall-clock seconds at the moment the reading was persisted.
    pub timestamp: i64,
    /// The bit pattern of the stored energy counter.
    pub total_energy_bits: u64,
    /// Line one's power, when present.
    pub line_one: Option<i64>,
    /// Line two's power, when present.
    pub line_two: Option<i64>,
    /// Line three's power, when present.
    pub line_three: Option<i64>,
}

/// The row decoded from the six column reads of the listing statement:
/// the fields land in the matching columns — meter time, ingestion
/// timestamp, energy counter, the three line powers — a stored energy
/// value that is not a float decodes as a zero bit pattern, and the
/// first failed read aborts the whole row.
pub open spec fn spec_stored_row(
    meter_time: Result<Option<i64>, SqliteError>,
    timestamp: Result<i64, SqliteError>,
    energy: Result<Option<u64>, SqliteError>,
    line_one: Result<Option<i64>, SqliteError>,
    line_two: Result<Option<i64>, SqliteError>,
    line_three: Result<Option<i64>, SqliteError>,
) -> Result<StoredRow, SqliteError> {
    match meter_time {
        Err(e) => Err(e),
        Ok(mt) => match timestamp {
            Err(e) => Err(e),
            Ok(ts) => match energy {
                Err(e) => Err(e),
                Ok(en) => match line_one {
                    Err(e) => Err(e),
                    Ok(l1) => match line_two {
                        Err(e) => Err(e),
                        Ok(l2) => match line_three {
                            Err(e) => Err(e),
                            Ok(l3) => Ok(
                                StoredRow {
                                    meter_time: mt,
                                    timestamp: ts,
                                    total_energy_bits: match en {
                                        Some(bits) => bits,
                                        None => 0u64,
                                    },
                                    line_one: l1,
                                    line_two: l2,
                                    line_three: l3,
                                },
                            ),
                        },
                    },
                },
            },
        },
    }
}

/// Decodes one listed row from its six column reads.
pub fn stored_row_of(
    meter_time: Result<Option<i64>, SqliteError>,
    timestamp: Result<i64, SqliteError>,
    energy: Result<Option<u64>, SqliteError>,
    line_one: Result<Option<i64>, SqliteError>,
    line_two: Result<Option<i64>, SqliteError>,
    line_three: Result<Option<i64>, SqliteError>,
) -> (r: Result<StoredRow, SqliteError>)
    ensures
        r == spec_stored_row(meter_time, timestamp, energy, line_one, line_two, line_three),
{
    let mt = match meter_time {
        Ok(v) => v,
        Err(e) => {
            return Err(e);
        },
    };
    let ts = match timestamp {
        Ok(v) => v,
        Err(e) => {
            return Err(e);
        },
    };
    let en = match energy {
        Ok(v) => v,
        Err(e) => {
            return Err(e);
        },
    };
    let l1 = match line_one {
        Ok(v) => v,
        Err(e) => {
            return Err(e);
        },
    };
    let l2 = match line_two {
        Ok(v) => v,
        Err(e) => {
            return Err(e);
        },
    };
    let l3 = match line_three {
        Ok(v) => v,
        Err(e) => {
            return Err(e);
        },
    };
    Ok(
        StoredRow {
            meter_time: mt,
            timestamp: ts,
            total_energy_bits: match en {
                Some(bits) => bits,
                None => 0,
            },
            line_one: l1,
            line_two: l2,
            line_three: l3,
        },
    )
}

/// A derived, read-only snapshot of the store.
#[derive(Debug, Clone, PartialEq, Eq)]
pub struct DatabaseMetrics {
    /// Where the store lives.
    pub location: String,
    /// The number of persisted readings.
    pub count_readings: u64,
    /// The storage footprint in bytes.
    pub file_size: u64,
}

/// The two-line summary of a metrics snapshot.
pub open spec fn spec_metrics_text(m: DatabaseMetrics) -> Seq<char> {
    "Location: "@ + m.location@ + "\nMetrics: "@ + ascii_chars(dec_bytes(m.count_readings as nat))
        + " readings, "@ + ascii_chars(dec_bytes(m.file_size as nat)) + " bytes"@
}

impl DatabaseMetrics {
    /// Renders the snapshot as a two-line summary.
    pub fn describe(&self) -> (r: String)
        ensures
            r@ == spec_metrics_text(*self),
    {
        let mut s = String::new();
        s.append("Location: ");
        s.append(self.location.as_str());
        s.append("\nMetrics: ");
        let mut count_buf: Vec<u8> = Vec::new();
        push_u64_dec(&mut count_buf, self.count_readings);
        proof {
            lemma_dec_bytes_ascii(self.count_readings as nat);
        }
        let count_txt = ascii_to_string(count_buf);
        s.append(count_txt.as_str());
        s.append(" readings, ");
        let mut size_buf: Vec<u8> = Vec::new();
        push_u64_dec(&mut size_buf, self.file_size);
        proof {
            lemma_dec_bytes_ascii(self.file_size as nat);
        }
        let size_txt = ascii_to_string(size_buf);
        s.append(size_txt.as_str());
        s.append(" bytes");
        proof {
            assert(s@ =~= spec_metrics_text(*self));
        }
        s
    }
}

/// The single-writer connection to the durable store.
pub struct Database {
    conn: Connection,
    location: String,
}

/// `v` clamped to the non-negative range.
pub open spec fn spec_clamp_nonneg(v: i64) -> u64 {
    if v >= 0 {
        v as u64
    } else {
        0
    }
}

fn clamp_nonneg(v: i64) -> (r: u64)
    ensures
        r == spec_clamp_nonneg(v),
{
    if v >= 0 {
        v as u64
    } else {
        0
    }
}

/// The product of two page statistics, clamped into `u64`.
pub open spec fn spec_size_product(a: i64, b: i64) -> u64 {
    if a < 0 || b < 0 {
        0
    } else if a * b > u64::MAX {
        u64::MAX
    } else {
        (a * b) as u64
    }
}

fn size_product(a: i64, b: i64) -> (r: u64)
    ensures
        r == spec_size_product(a, b),
{
    if a < 0 || b < 0 {
        return 0;
    }
    proof {
        assert((a as u128) * (b as u128) <= (u64::MAX as u128) * (u64::MAX as u128)) by (nonlinear_arith)
            requires
                0 <= a as u128 <= u64::MAX as u128,
                0 <= b as u128 <= u64::MAX as u128,
        ;
    }
    let p: u128 = a as u128 * b as u128;
    if p > u64::MAX as u128 {
        u64::MAX
    } else {
        p as u64
    }
}

/// Runs a statement expected to yield one integer cell, such as an
/// aggregate count or a pragma.
fn query_single_i64(conn: &Connection, sql: &str) -> Result<i64, StoreError> {
    let mut stmt = match connection_prepare(conn, sql) {
        Ok(s) => s,
        Err(e) => {
            return Err(StoreError::Sqlite(e));
        },
    };
    let has_row = match statement_next(&mut stmt) {
        Ok(h) => h,
        Err(e) => {
            return Err(StoreError::Sqlite(e));
        },
    };
    if !has_row {
        return Err(StoreError::NoRow);
    }
    match statement_read_i64(&stmt, 0) {
        Ok(v) => Ok(v),
        Err(e) => Err(StoreError::Sqlite(e)),
    }
}

/// Reads an integer cell that may be null.
fn read_opt_i64(stmt: &Statement<'_>, index: usize) -> Result<Option<i64>, SqliteError> {
    match statement_column_type(stmt, index) {
        Ok(CellType::Null) => Ok(None),
        Ok(_) => match statement_read_i64(stmt, index) {
            Ok(v) => Ok(Some(v)),
            Err(e) => Err(e),
        },
        Err(e) => Err(e),
    }
}

/// The initialization decision on the probe of the target location: a
/// store that can already be opened is refused, never overwritten or
/// truncated; only a failed probe lets initialization go ahead.
fn refuse_existing(probe: Result<Connection, SqliteError>) -> (r: Result<(), StoreError>)
    ensures
        probe matches Ok(_) ==> r == Err::<(), StoreError>(StoreError::AlreadyExists),
        probe matches Err(_) ==> r == Ok::<(), StoreError>(()),
{
    match probe {
        Ok(_) => Err(StoreError::AlreadyExists),
        Err(_) => Ok(()),
    }
}

impl Database {
    /// Where this store lives.
    pub closed spec fn spec_location(&self) -> Seq<char> {
        self.location@
    }

    /// Initializes a fresh store with the fixed schema and the uniqueness
    /// constraint on the ingestion timestamp.
    ///
    /// Refuses to overwrite: when the probe opens an existing store, the
    /// refusal is forced by [`refuse_existing`]'s contract and nothing at
    /// the target is created or modified.
    pub fn init(path: &str) -> (r: Result<Database, StoreError>)
        ensures
            r matches Ok(db) ==> db.spec_location() == path@,
            r matches Err(e) ==> (e == StoreError::AlreadyExists || e is Sqlite),
    {
        match refuse_existing(open_rw_existing(path)) {
            Ok(()) => {},
            Err(e) => {
                return Err(e);
            },
        }
        let conn = match open_rw_create(path) {
            Ok(c) => c,
            Err(e) => {
                return Err(StoreError::Sqlite(e));
            },
        };
        let schema =
            "CREATE TABLE Readings ( MeterTime INTEGER, Timestamp DATETIME NOT NULL, MeterReading REAL NOT NULL, LineOne INTEGER, LineTwo INTEGER, LineThree INTEGER ); CREATE UNIQUE INDEX idx_timestamp ON Readings (Timestamp);";
        match connection_execute(&conn, schema) {
            Ok(()) => Ok(Database { conn, location: path.to_owned() }),
            Err(e) => Err(StoreError::Sqlite(e)),
        }
    }

    /// Opens the store at `path` when it exists; otherwise initializes a
    /// fresh one there.
    pub fn load(path: &str) -> (r: Result<Database, StoreError>)
        ensures
            r matches Ok(db) ==> db.spec_location() == path@,
    {
        match open_rw_existing(path) {
            Ok(conn) => Ok(Database { conn, location: path.to_owned() }),
            Err(_) => Self::init(path),
        }
    }

    /// Persists one reading at the given ingestion timestamp: the
    /// statement text is exactly `spec_insert_sql(*reading, timestamp)`,
    /// and its outcome is classified by [`spec_insert_outcome`] — a
    /// violated constraint, such as a second insert within the same
    /// wall-clock second, is a no-op reported as success; every error
    /// that propagates is some other failure, carried unchanged.
    pub fn insert_reading_at(&self, reading: &MeterReading, timestamp: u64) -> (r: Result<
        InsertOutcome,
        SqliteError,
    >)
        ensures
            r matches Err(e) ==> e.code != Some(UNIQUE_CONSTRAINT_ERROR as i64),
    {
        let sql = build_insert_sql(reading, timestamp);
        classify_insert_outcome(connection_execute(&self.conn, sql.as_str()))
    }

    /// Persists one reading, stamped with the wall clock's current
    /// second.
    pub fn insert_reading(&self, reading: &MeterReading) -> (r: Result<InsertOutcome, StoreError>)
        ensures
            r matches Err(StoreError::Sqlite(e)) ==> e.code != Some(UNIQUE_CONSTRAINT_ERROR as i64),
            r matches Err(e) ==> (e == StoreError::Clock || e is Sqlite),
    {
        let now = system_now();
        let timestamp = match time_since_epoch(&now) {
            Some(d) => duration_secs(&d),
            None => {
                return Err(StoreError::Clock);
            },
        };
        match self.insert_reading_at(reading, timestamp) {
            Ok(outcome) => Ok(outcome),
            Err(e) => Err(StoreError::Sqlite(e)),
        }
    }

    /// Every persisted reading, in storage order; a failed row read
    /// aborts the listing, and every failure is the SQLite error it was.
    pub fn list_readings(&self) -> (r: Result<Vec<StoredRow>, StoreError>)
        ensures
            r matches Err(e) ==> e is Sqlite,
    {
        let mut stmt = match connection_prepare(
            &self.conn,
            "SELECT MeterTime, Timestamp, MeterReading, LineOne, LineTwo, LineThree FROM Readings",
        ) {
            Ok(s) => s,
            Err(e) => {
                return Err(StoreError::Sqlite(e));
            },
        };
        let mut rows: Vec<StoredRow> = Vec::new();
        let mut remaining: u64 = u64::MAX;
        while remaining > 0
            decreases remaining,
        {
            let has_row = match statement_next(&mut stmt) {
                Ok(h) => h,
                Err(e) => {
                    return Err(StoreError::Sqlite(e));
                },
            };
            if !has_row {
                break;
            }
            let row = match Self::read_stored_row(&stmt) {
                Ok(row) => row,
                Err(e) => {
                    return Err(StoreError::Sqlite(e));
                },
            };
            rows.push(row);
            remaining = remaining - 1;
        }
        Ok(rows)
    }

    /// Reads the six columns of the current row and decodes them through
    /// [`stored_row_of`].
    fn read_stored_row(stmt: &Statement<'_>) -> (r: Result<StoredRow, SqliteError>) {
        let meter_time = read_opt_i64(stmt, 0);
        let timestamp = statement_read_i64(stmt, 1);
        let energy = statement_read_float_bits(stmt, 2);
        let line_one = read_opt_i64(stmt, 3);
        let line_two = read_opt_i64(stmt, 4);
        let line_three = read_opt_i64(stmt, 5);
        stored_row_of(meter_time, timestamp, energy, line_one, line_two, line_three)
    }

    /// A fresh snapshot of the store: row count by aggregate count, size
    /// by storage footprint (page count times page size).
    pub fn metrics(&self) -> (r: Result<DatabaseMetrics, StoreError>)
        ensures
            r matches Ok(m) ==> m.location@ == self.spec_location(),
    {
        let count = query_single_i64(&self.conn, "SELECT COUNT(*) FROM Readings")?;
        let page_count = query_single_i64(&self.conn, "PRAGMA page_count")?;
        let page_size = query_single_i64(&self.conn, "PRAGMA page_size")?;
        Ok(
            DatabaseMetrics {
                location: self.location.clone(),
                count_readings: clamp_nonneg(count),
                file_size: size_product(page_count, page_size),
            },
        )
    }
}


/// The SQLite result code reported when a database cannot be opened.
pub const CANT_OPEN_ERROR: i64 = 14;

/// Whether an open failure means that no store exists at the target.
fn is_cant_open(e: &SqliteError) -> (r: bool)
    ensures
        r == (e.code == Some(CANT_OPEN_ERROR as i64)),
{
    match &e.code {
        Some(c) => *c == CANT_OPEN_ERROR,
        None => false,
    }
}

/// How the read-only surface classifies an open failure: SQLite reports
/// a missing store as a cannot-open failure (code 14), surfaced as
/// [`StoreError::DoesNotExist`]; other causes of that code (such as
/// permissions) are not distinguishable and surface the same way; every
/// other failure is carried unchanged.
pub open spec fn spec_open_failure(e: SqliteError) -> StoreError {
    if e.code == Some(CANT_OPEN_ERROR as i64) {
        StoreError::DoesNotExist
    } else {
        StoreError::Sqlite(e)
    }
}

/// Classifies a failure of the read-only open.
pub fn classify_open_failure(e: SqliteError) -> (r: StoreError)
    ensures
        r == spec_open_failure(e),
{
    if is_cant_open(&e) {
        StoreError::DoesNotExist
    } else {
        StoreError::Sqlite(e)
    }
}

/// A nullable numeric result cell: an integer, or a floating-point value
/// carried as its bit pattern.
#[derive(Debug, Clone, Copy, PartialEq, Eq, Structural)]
pub enum CellValue {
    /// An integer cell.
    I64(i64),
    /// A floating-point cell, as the bit pattern of its value.
    FloatBits(u64),
}

/// The typed tabular result of one read-only statement.
#[derive(Debug, Clone, PartialEq, Eq)]
pub struct QueryResult {
    /// The result column names, in order.
    pub columns: Vec<String>,
    /// Wall-clock milliseconds spent executing the statement.
    pub took_ms: u64,
    /// The number of result rows.
    pub rows_count: u64,
    /// The rectangular grid of nullable cells.
    pub rows: Vec<Vec<Option<CellValue>>>,
}

/// The cell the query surface decodes from an integer column's read
/// result: the integer value, or the read's failure.
pub open spec fn spec_int_cell(res: Result<i64, SqliteError>) -> Result<
    Option<CellValue>,
    StoreError,
> {
    match res {
        Ok(v) => Ok(Some(CellValue::I64(v))),
        Err(e) => Err(StoreError::Sqlite(e)),
    }
}

/// Decodes an integer column's read result into a cell.
pub fn int_cell(res: Result<i64, SqliteError>) -> (r: Result<Option<CellValue>, StoreError>)
    ensures
        r == spec_int_cell(res),
{
    match res {
        Ok(v) => Ok(Some(CellValue::I64(v))),
        Err(e) => Err(StoreError::Sqlite(e)),
    }
}

/// The cell the query surface decodes from a floating-point column's
/// read result: the bit pattern of the value, a null cell when the
/// stored value was not a float after all, or the read's failure.
pub open spec fn spec_float_cell(res: Result<Option<u64>, SqliteError>) -> Result<
    Option<CellValue>,
    StoreError,
> {
    match res {
        Ok(Some(bits)) => Ok(Some(CellValue::FloatBits(bits))),
        Ok(None) => Ok(None),
        Err(e) => Err(StoreError::Sqlite(e)),
    }
}

/// Decodes a floating-point column's read result into a cell.
pub fn float_cell(res: Result<Option<u64>, SqliteError>) -> (r: Result<Option<CellValue>, StoreError>)
    ensures
        r == spec_float_cell(res),
{
    match res {
        Ok(Some(bits)) => Ok(Some(CellValue::FloatBits(bits))),
        Ok(None) => Ok(None),
        Err(e) => Err(StoreError::Sqlite(e)),
    }
}

/// The read-only connection used exclusively by the query surface, so
/// long-running ad-hoc reads never block the writer.
pub struct ReadonlyDatabase {
    conn: ConnectionThreadSafe,
}

impl ReadonlyDatabase {
    /// Opens the store at `path` with write operations disabled.
    ///
    /// A store that cannot be opened because none exists surfaces as
    /// [`StoreError::DoesNotExist`]; the classification of every open
    /// failure is fixed by [`spec_open_failure`].
    pub fn load(path: &str) -> (r: Result<ReadonlyDatabase, StoreError>)
        ensures
            r matches Err(StoreError::Sqlite(e)) ==> e.code != Some(CANT_OPEN_ERROR as i64),
            r matches Err(e) ==> (e == StoreError::DoesNotExist || e is Sqlite),
    {
        match open_readonly(path) {
            Ok(conn) => Ok(ReadonlyDatabase { conn }),
            Err(e) => Err(classify_open_failure(e)),
        }
    }

    /// Executes an arbitrary textual read-only statement and returns its
    /// typed tabular result.
    ///
    /// Column runtime types are read back after execution, since they may
    /// depend on the query itself.  Cells are decoded as integers,
    /// floating-point values or nulls; any other runtime type fails the
    /// whole query.  Elapsed time is measured around statement execution.
    pub fn query(&self, statement: &str) -> (r: Result<QueryResult, StoreError>)
        ensures
            r matches Ok(q) ==> q.rows_count as nat == q.rows@.len(),
            r matches Ok(q) ==> forall|i: int|
                0 <= i < q.rows@.len() ==> (#[trigger] q.rows@[i])@.len() == q.columns@.len(),
            r matches Err(StoreError::UnexpectedColumnType(t)) ==> (t == CellType::Binary || t
                == CellType::Text),
            r matches Err(e) ==> (e is Sqlite || e is UnexpectedColumnType || e
                == StoreError::Clock),
    {
        let conn = readonly_as_connection(&self.conn);
        let mut stmt = match connection_prepare(conn, statement) {
            Ok(s) => s,
            Err(e) => {
                return Err(StoreError::Sqlite(e));
            },
        };
        let columns = statement_column_names(&stmt);
        let ncols = columns.len();
        let t0 = system_now();
        let mut has_row = match statement_next(&mut stmt) {
            Ok(h) => h,
            Err(e) => {
                return Err(StoreError::Sqlite(e));
            },
        };
        // Only after execution are the column types available.
        let mut types: Vec<CellType> = Vec::new();
        let mut i: usize = 0;
        while i < ncols
            invariant
                i <= ncols,
                types@.len() == i,
            decreases ncols - i,
        {
            match statement_column_type(&stmt, i) {
                Ok(t) => types.push(t),
                Err(e) => {
                    return Err(StoreError::Sqlite(e));
                },
            }
            i = i + 1;
        }
        let mut rows: Vec<Vec<Option<CellValue>>> = Vec::new();
        let mut remaining: u64 = u64::MAX;
        while has_row && remaining > 0
            invariant
                types@.len() == ncols,
                ncols == columns@.len(),
                forall|j: int|
                    0 <= j < rows@.len() ==> (#[trigger] rows@[j])@.len() == columns@.len(),
            decreases remaining,
        {
            let mut vals: Vec<Option<CellValue>> = Vec::new();
            let mut c: usize = 0;
            while c < ncols
                invariant
                    c <= ncols,
                    vals@.len() == c,
                    types@.len() == ncols,
                decreases ncols - c,
            {
                let cell = match types[c] {
                    CellType::Integer => match int_cell(statement_read_i64(&stmt, c)) {
                        Ok(v) => v,
                        Err(e) => {
                            return Err(e);
                        },
                    },
                    CellType::Float => match float_cell(statement_read_float_bits(&stmt, c)) {
                        Ok(v) => v,
                        Err(e) => {
                            return Err(e);
                        },
                    },
                    CellType::Null => None,
                    CellType::Binary => {
                        return Err(StoreError::UnexpectedColumnType(CellType::Binary));
                    },
                    CellType::Text => {
                        return Err(StoreError::UnexpectedColumnType(CellType::Text));
                    },
                };
                vals.push(cell);
                c = c + 1;
            }
            rows.push(vals);
            has_row = match statement_next(&mut stmt) {
                Ok(h) => h,
                Err(e) => {
                    return Err(StoreError::Sqlite(e));
                },
            };
            remaining = remaining - 1;
        }
        let t1 = system_now();
        let took_ms = match time_since(&t1, &t0) {
            Some(d) => duration_millis(&d),
            None => {
                return Err(StoreError::Clock);
            },
        };
        let rows_count = rows.len() as u64;
        Ok(QueryResult { columns, took_ms, rows_count, rows })
    }
}

} // verus!
