//! Persistent detection store.
//!
//! Detection events and label-to-color mappings live in a SQLite database
//! (on the device: a file on the SD card). Two tables per reactor domain:
//! `detections` for the events, and one colors table keyed by the
//! domain's label space. The store is an external collaborator: a failing
//! or unavailable store is reported to the caller, who continues without
//! blocking the inference loop; a lookup miss is recovered locally with
//! the default gray.
//!
//! What this module hands to the store is contract-pinned: the SQL texts,
//! the seed tables and the bound parameter lists are each produced by a
//! function whose `ensures` states them exactly, so only the trusted
//! wrappers themselves stand between those values and the database.

use vstd::prelude::*;
use crate::Detection;
use crate::colors::{RgbColor, ColorTable, ColorEntry, bird_colors, object_colors, sound_colors,
    health_colors, spec_bird_table, spec_object_table, spec_sound_table, spec_health_table};
use crate::reactor::color_or_default;

verus! {

#[verifier::external_type_specification]
#[verifier::external_body]
pub struct ExConnection(rusqlite::Connection);

#[verifier::external_type_specification]
#[verifier::external_body]
pub struct ExSqlError(rusqlite::Error);

/// The one way this library reports a failing store: the pipeline treats
/// every store failure the same and continues without it.
#[derive(Clone, Copy, Debug, PartialEq, Eq, Structural)]
pub enum StoreError {
    Unavailable,
}

/// A parameter bound into a SQL statement.
pub enum SqlValue {
    Text(String),
    Int(i64),
}

/// Relies on rusqlite::Connection::open: opens the database file at
/// `path`, creating it when absent; ":memory:" opens a transient
/// in-memory database. What the call returns depends on the disk, so
/// nothing is promised of it.
#[verifier::external_body]
fn open_conn(path: &str) -> (r: Result<rusqlite::Connection, rusqlite::Error>) {
    rusqlite::Connection::open(path)
}

/// Relies on rusqlite::Connection::execute_batch: runs the semicolon-
/// separated SQL statements in order and reports the first error.
#[verifier::external_body]
fn exec_batch(conn: &rusqlite::Connection, sql: &str) -> (r: Result<(), rusqlite::Error>) {
    conn.execute_batch(sql)
}

/// Relies on rusqlite::Connection::execute: runs one parameterized SQL
/// statement; on success it returns the number of rows changed.
#[verifier::external_body]
fn exec_sql(conn: &rusqlite::Connection, sql: &str, params: &Vec<SqlValue>) -> (r: Result<
    usize,
    rusqlite::Error,
>) {
    let mut refs: Vec<&dyn rusqlite::types::ToSql> = Vec::new();
    for p in params.iter() {
        match p {
            SqlValue::Text(s) => refs.push(s),
            SqlValue::Int(i) => refs.push(i),
        }
    }
    conn.execute(sql, refs.as_slice())
}

/// Relies on rusqlite::Connection::query_row: runs the single-row SELECT
/// with the label bound as its one parameter and reads three integer
/// columns; Error::QueryReturnedNoRows (mapped to None here) means the
/// query matched nothing. What comes back depends on the database file,
/// so nothing is promised of the values.
#[verifier::external_body]
fn query_color(conn: &rusqlite::Connection, sql: &str, label: &str) -> (r: Result<
    Option<(u8, u8, u8)>,
    rusqlite::Error,
>) {
    let res = conn.query_row(sql, [label], |row| {
        Ok((row.get(0)?, row.get(1)?, row.get(2)?))
    });
    match res {
        Ok(c) => Ok(Some(c)),
        Err(rusqlite::Error::QueryReturnedNoRows) => Ok(None),
        Err(e) => Err(e),
    }
}

/// Every store failure is reported the same way.
fn store_unavailable(e: rusqlite::Error) -> (r: StoreError)
    ensures
        r is Unavailable,
{
    let _ = e;
    StoreError::Unavailable
}

/// The label domain a reactor keys its colors by. All domains reuse the
/// same RGB-triple shape.
#[derive(Clone, Copy, Debug, PartialEq, Eq, Structural)]
pub enum ColorDomain {
    BirdSpecies,
    ObjectClasses,
    SoundEvents,
    HealthStatuses,
}

/// The schema each domain's database carries: the shared detections
/// table and the domain's colors table. The confidence column holds the
/// score in hundredths, so a stored 94 stands for 0.94.
pub open spec fn spec_schema_sql(d: ColorDomain) -> Seq<char> {
    match d {
        ColorDomain::BirdSpecies =>
            "CREATE TABLE IF NOT EXISTS detections (id INTEGER PRIMARY KEY AUTOINCREMENT, species TEXT NOT NULL, confidence INTEGER NOT NULL, bbox_x INTEGER, bbox_y INTEGER, bbox_w INTEGER, bbox_h INTEGER, timestamp INTEGER NOT NULL); CREATE TABLE IF NOT EXISTS bird_led_colors (species TEXT PRIMARY KEY, r INTEGER NOT NULL, g INTEGER NOT NULL, b INTEGER NOT NULL);"@,
        ColorDomain::ObjectClasses =>
            "CREATE TABLE IF NOT EXISTS detections (id INTEGER PRIMARY KEY AUTOINCREMENT, species TEXT NOT NULL, confidence INTEGER NOT NULL, bbox_x INTEGER, bbox_y INTEGER, bbox_w INTEGER, bbox_h INTEGER, timestamp INTEGER NOT NULL); CREATE TABLE IF NOT EXISTS object_led_colors (class TEXT PRIMARY KEY, r INTEGER NOT NULL, g INTEGER NOT NULL, b INTEGER NOT NULL);"@,
        ColorDomain::SoundEvents =>
            "CREATE TABLE IF NOT EXISTS detections (id INTEGER PRIMARY KEY AUTOINCREMENT, species TEXT NOT NULL, confidence INTEGER NOT NULL, bbox_x INTEGER, bbox_y INTEGER, bbox_w INTEGER, bbox_h INTEGER, timestamp INTEGER NOT NULL); CREATE TABLE IF NOT EXISTS sound_led_colors (event TEXT PRIMARY KEY, r INTEGER NOT NULL, g INTEGER NOT NULL, b INTEGER NOT NULL);"@,
        ColorDomain::HealthStatuses =>
            "CREATE TABLE IF NOT EXISTS detections (id INTEGER PRIMARY KEY AUTOINCREMENT, species TEXT NOT NULL, confidence INTEGER NOT NULL, bbox_x INTEGER, bbox_y INTEGER, bbox_w INTEGER, bbox_h INTEGER, timestamp INTEGER NOT NULL); CREATE TABLE IF NOT EXISTS health_led_colors (status TEXT PRIMARY KEY, r INTEGER NOT NULL, g INTEGER NOT NULL, b INTEGER NOT NULL);"@,
    }
}

/// The seed INSERT for one color row of each domain.
pub open spec fn spec_seed_sql(d: ColorDomain) -> Seq<char> {
    match d {
        ColorDomain::BirdSpecies =>
            "INSERT OR IGNORE INTO bird_led_colors (species, r, g, b) VALUES (?1, ?2, ?3, ?4)"@,
        ColorDomain::ObjectClasses =>
            "INSERT OR IGNORE INTO object_led_colors (class, r, g, b) VALUES (?1, ?2, ?3, ?4)"@,
        ColorDomain::SoundEvents =>
            "INSERT OR IGNORE INTO sound_led_colors (event, r, g, b) VALUES (?1, ?2, ?3, ?4)"@,
        ColorDomain::HealthStatuses =>
            "INSERT OR IGNORE INTO health_led_colors (status, r, g, b) VALUES (?1, ?2, ?3, ?4)"@,
    }
}

/// The color lookup for one label of each domain.
pub open spec fn spec_select_sql(d: ColorDomain) -> Seq<char> {
    match d {
        ColorDomain::BirdSpecies => "SELECT r, g, b FROM bird_led_colors WHERE species = ?1"@,
        ColorDomain::ObjectClasses => "SELECT r, g, b FROM object_led_colors WHERE class = ?1"@,
        ColorDomain::SoundEvents => "SELECT r, g, b FROM sound_led_colors WHERE event = ?1"@,
        ColorDomain::HealthStatuses => "SELECT r, g, b FROM health_led_colors WHERE status = ?1"@,
    }
}

/// The INSERT every detection event is appended with.
pub open spec fn spec_insert_sql() -> Seq<char> {
    "INSERT INTO detections (species, confidence, bbox_x, bbox_y, bbox_w, bbox_h, timestamp) VALUES (?1, ?2, ?3, ?4, ?5, ?6, ?7)"@
}

impl ColorDomain {
    /// The schema for this domain, exactly as `spec_schema_sql` states
    /// it.
    pub fn schema_sql(&self) -> (s: &'static str)
        ensures
            s@ == spec_schema_sql(*self),
    {
        match self {
            ColorDomain::BirdSpecies =>
                "CREATE TABLE IF NOT EXISTS detections (id INTEGER PRIMARY KEY AUTOINCREMENT, species TEXT NOT NULL, confidence INTEGER NOT NULL, bbox_x INTEGER, bbox_y INTEGER, bbox_w INTEGER, bbox_h INTEGER, timestamp INTEGER NOT NULL); CREATE TABLE IF NOT EXISTS bird_led_colors (species TEXT PRIMARY KEY, r INTEGER NOT NULL, g INTEGER NOT NULL, b INTEGER NOT NULL);",
            ColorDomain::ObjectClasses =>
                "CREATE TABLE IF NOT EXISTS detections (id INTEGER PRIMARY KEY AUTOINCREMENT, species TEXT NOT NULL, confidence INTEGER NOT NULL, bbox_x INTEGER, bbox_y INTEGER, bbox_w INTEGER, bbox_h INTEGER, timestamp INTEGER NOT NULL); CREATE TABLE IF NOT EXISTS object_led_colors (class TEXT PRIMARY KEY, r INTEGER NOT NULL, g INTEGER NOT NULL, b INTEGER NOT NULL);",
            ColorDomain::SoundEvents =>
                "CREATE TABLE IF NOT EXISTS detections (id INTEGER PRIMARY KEY AUTOINCREMENT, species TEXT NOT NULL, confidence INTEGER NOT NULL, bbox_x INTEGER, bbox_y INTEGER, bbox_w INTEGER, bbox_h INTEGER, timestamp INTEGER NOT NULL); CREATE TABLE IF NOT EXISTS sound_led_colors (event TEXT PRIMARY KEY, r INTEGER NOT NULL, g INTEGER NOT NULL, b INTEGER NOT NULL);",
            ColorDomain::HealthStatuses =>
                "CREATE TABLE IF NOT EXISTS detections (id INTEGER PRIMARY KEY AUTOINCREMENT, species TEXT NOT NULL, confidence INTEGER NOT NULL, bbox_x INTEGER, bbox_y INTEGER, bbox_w INTEGER, bbox_h INTEGER, timestamp INTEGER NOT NULL); CREATE TABLE IF NOT EXISTS health_led_colors (status TEXT PRIMARY KEY, r INTEGER NOT NULL, g INTEGER NOT NULL, b INTEGER NOT NULL);",
        }
    }

    /// The seed INSERT for one color row of this domain, exactly as
    /// `spec_seed_sql` states it.
    pub fn seed_sql(&self) -> (s: &'static str)
        ensures
            s@ == spec_seed_sql(*self),
    {
        match self {
            ColorDomain::BirdSpecies =>
                "INSERT OR IGNORE INTO bird_led_colors (species, r, g, b) VALUES (?1, ?2, ?3, ?4)",
            ColorDomain::ObjectClasses =>
                "INSERT OR IGNORE INTO object_led_colors (class, r, g, b) VALUES (?1, ?2, ?3, ?4)",
            ColorDomain::SoundEvents =>
                "INSERT OR IGNORE INTO sound_led_colors (event, r, g, b) VALUES (?1, ?2, ?3, ?4)",
            ColorDomain::HealthStatuses =>
                "INSERT OR IGNORE INTO health_led_colors (status, r, g, b) VALUES (?1, ?2, ?3, ?4)",
        }
    }

    /// The color lookup for one label of this domain, exactly as
    /// `spec_select_sql` states it.
    pub fn select_sql(&self) -> (s: &'static str)
        ensures
            s@ == spec_select_sql(*self),
    {
        match self {
            ColorDomain::BirdSpecies => "SELECT r, g, b FROM bird_led_colors WHERE species = ?1",
            ColorDomain::ObjectClasses => "SELECT r, g, b FROM object_led_colors WHERE class = ?1",
            ColorDomain::SoundEvents => "SELECT r, g, b FROM sound_led_colors WHERE event = ?1",
            ColorDomain::HealthStatuses =>
                "SELECT r, g, b FROM health_led_colors WHERE status = ?1",
        }
    }

    /// The default label-to-color associations this domain is seeded
    /// with: exactly the table its reactor's color map defines.
    pub fn seed_table(&self) -> (t: ColorTable)
        ensures
            *self is BirdSpecies ==> spec_bird_table(t.entries()),
            *self is ObjectClasses ==> spec_object_table(t.entries()),
            *self is SoundEvents ==> spec_sound_table(t.entries()),
            *self is HealthStatuses ==> spec_health_table(t.entries()),
    {
        match self {
            ColorDomain::BirdSpecies => bird_colors(),
            ColorDomain::ObjectClasses => object_colors(),
            ColorDomain::SoundEvents => sound_colors(),
            ColorDomain::HealthStatuses => health_colors(),
        }
    }
}

/// The four bound parameters that seed one color row: the label and its
/// three channel values, in column order.
pub fn color_params(e: &ColorEntry) -> (p: Vec<SqlValue>)
    ensures
        p@.len() == 4,
        p@[0] matches SqlValue::Text(s) && s@ == e.label@,
        p@[1] matches SqlValue::Int(v) && v == e.color.r as i64,
        p@[2] matches SqlValue::Int(v) && v == e.color.g as i64,
        p@[3] matches SqlValue::Int(v) && v == e.color.b as i64,
{
    let mut p: Vec<SqlValue> = Vec::new();
    p.push(SqlValue::Text(e.label.clone()));
    p.push(SqlValue::Int(e.color.r as i64));
    p.push(SqlValue::Int(e.color.g as i64));
    p.push(SqlValue::Int(e.color.b as i64));
    p
}

/// The seven bound parameters that log one detection: species,
/// confidence in hundredths, the four box coordinates and the timestamp,
/// in column order.
pub fn detection_params(det: &Detection) -> (p: Vec<SqlValue>)
    requires
        det.timestamp_ms <= i64::MAX,
    ensures
        p@.len() == 7,
        p@[0] matches SqlValue::Text(s) && s@ == det.species@,
        p@[1] matches SqlValue::Int(v) && v == det.confidence_centi as i64,
        p@[2] matches SqlValue::Int(v) && v == det.bbox.x as i64,
        p@[3] matches SqlValue::Int(v) && v == det.bbox.y as i64,
        p@[4] matches SqlValue::Int(v) && v == det.bbox.w as i64,
        p@[5] matches SqlValue::Int(v) && v == det.bbox.h as i64,
        p@[6] matches SqlValue::Int(v) && v == det.timestamp_ms as i64,
{
    let mut p: Vec<SqlValue> = Vec::new();
    p.push(SqlValue::Text(det.species.clone()));
    p.push(SqlValue::Int(det.confidence_centi as i64));
    p.push(SqlValue::Int(det.bbox.x as i64));
    p.push(SqlValue::Int(det.bbox.y as i64));
    p.push(SqlValue::Int(det.bbox.w as i64));
    p.push(SqlValue::Int(det.bbox.h as i64));
    p.push(SqlValue::Int(det.timestamp_ms as i64));
    p
}

/// Handle to the opened detection database.
pub struct DetectDb {
    conn: rusqlite::Connection,
    domain: ColorDomain,
}

/// Open or create the detection database for one label domain: create
/// the schema when missing and seed the domain's color table, row by
/// row, with its default associations (existing rows are kept). The
/// schema text, the seed statement and every seeded row are the
/// contract-pinned values of `spec_schema_sql`, `spec_seed_sql`,
/// `seed_table` and `color_params`.
pub fn open_or_create(path: &str, domain: ColorDomain) -> (r: Result<DetectDb, StoreError>)
    ensures
        r matches Ok(db) ==> db.spec_domain() == domain,
        r matches Err(e) ==> e is Unavailable,
{
    let conn = match open_conn(path) {
        Ok(c) => c,
        Err(e) => {
            return Err(store_unavailable(e));
        },
    };
    match exec_batch(&conn, domain.schema_sql()) {
        Ok(()) => (),
        Err(e) => {
            return Err(store_unavailable(e));
        },
    }
    let seed = domain.seed_table();
    let n = seed.len();
    let mut i: usize = 0;
    while i < n
        invariant
            n == seed.entries().len(),
            i <= n,
        decreases n - i,
    {
        let params = color_params(seed.entry(i));
        match exec_sql(&conn, domain.seed_sql(), &params) {
            Ok(_) => (),
            Err(err) => {
                return Err(store_unavailable(err));
            },
        }
        i = i + 1;
    }
    Ok(DetectDb { conn, domain })
}

impl DetectDb {
    pub closed spec fn spec_domain(&self) -> ColorDomain {
        self.domain
    }

    pub fn domain(&self) -> (d: ColorDomain)
        ensures
            d == self.spec_domain(),
    {
        self.domain
    }

    /// Append one detection event to the `detections` table. What goes
    /// to the store is exactly `spec_insert_sql` with the row
    /// `detection_params` pins. A failing store is reported, never
    /// allowed to block the pipeline.
    pub fn insert_detection(&self, det: &Detection) -> (r: Result<(), StoreError>)
        requires
            det.wf(),
            det.timestamp_ms <= i64::MAX,
        ensures
            r matches Err(e) ==> e is Unavailable,
    {
        let params = detection_params(det);
        let sql = insert_sql();
        match exec_sql(&self.conn, sql, &params) {
            Ok(_) => Ok(()),
            Err(e) => Err(store_unavailable(e)),
        }
    }

    /// Look up the indicator color for a label: the query is exactly
    /// `spec_select_sql` for this domain with the label bound, and the
    /// result resolves through `color_or_default` — whatever triple the
    /// store holds, or the default gray when the label is absent. Only a
    /// failing store is an error; a miss never is.
    pub fn get_led_color(&self, label: &str) -> (r: Result<RgbColor, StoreError>)
        ensures
            r matches Err(e) ==> e is Unavailable,
    {
        match query_color(&self.conn, self.domain.select_sql(), label) {
            Ok(found) => {
                let opt = match found {
                    Option::Some((red, green, blue)) => Option::Some(
                        RgbColor { r: red, g: green, b: blue },
                    ),
                    Option::None => Option::None,
                };
                Ok(color_or_default(opt))
            },
            Err(e) => Err(store_unavailable(e)),
        }
    }
}

/// The detection INSERT text, exactly as `spec_insert_sql` states it.
pub fn insert_sql() -> (s: &'static str)
    ensures
        s@ == spec_insert_sql(),
{
    "INSERT INTO detections (species, confidence, bbox_x, bbox_y, bbox_w, bbox_h, timestamp) VALUES (?1, ?2, ?3, ?4, ?5, ?6, ?7)"
}

} // verus!
