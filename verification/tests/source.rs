//! The choice of a source and the reports of a failed opening.

use std::collections::BTreeMap;

use maxmind_db_rust::error::{DbError, EngineFailure, EngineFailureKind, ErrorKind};
use maxmind_db_rust::metadata::Metadata;
use maxmind_db_rust::reader::Reader;
use maxmind_db_rust::source::{
    choose_source, open_database, open_error, parse_mode, resolve_mode, OpenFailure, OpenMode,
    SourceKind,
};

fn refused(text: &str) -> OpenFailure {
    OpenFailure::Malformed(EngineFailure {
        kind: EngineFailureKind::InvalidDatabase,
        text: text.to_owned(),
    })
}

fn header() -> Metadata {
    Metadata {
        binary_format_major_version: 2,
        binary_format_minor_version: 0,
        build_epoch: 0,
        database_type: "Example".to_owned(),
        description: BTreeMap::new(),
        ip_version: 6,
        languages: Vec::new(),
        node_count: 0,
        record_size: 24,
    }
}

#[test]
fn mode_names_are_read() {
    assert_eq!(parse_mode("MODE_AUTO"), Ok(OpenMode::Auto));
    assert_eq!(parse_mode("MODE_MMAP"), Ok(OpenMode::Mmap));
    assert_eq!(parse_mode("MODE_MEMORY"), Ok(OpenMode::Memory));
}

#[test]
fn unknown_mode_name_is_refused() {
    for name in ["MODE_FILE", "mode_auto", "", "MODE_MMAP "] {
        assert_eq!(
            parse_mode(name),
            Err(DbError {
                kind: ErrorKind::Argument,
                message: format!("Unsupported mode: {}", name),
            })
        );
    }
}

#[test]
fn auto_resolves_to_a_mapped_source() {
    assert_eq!(resolve_mode(OpenMode::Auto), SourceKind::MemoryMapped);
    assert_eq!(resolve_mode(OpenMode::Mmap), SourceKind::MemoryMapped);
    assert_eq!(resolve_mode(OpenMode::Memory), SourceKind::FullyBuffered);
}

#[test]
fn source_is_chosen_from_the_mode_name() {
    assert_eq!(choose_source(None), Ok(SourceKind::MemoryMapped));
    assert_eq!(choose_source(Some("MODE_AUTO")), Ok(SourceKind::MemoryMapped));
    assert_eq!(choose_source(Some("MODE_MMAP")), Ok(SourceKind::MemoryMapped));
    assert_eq!(choose_source(Some("MODE_MEMORY")), Ok(SourceKind::FullyBuffered));
    assert_eq!(
        choose_source(Some("MODE_DISK")),
        Err(DbError { kind: ErrorKind::Argument, message: "Unsupported mode: MODE_DISK".to_owned() })
    );
}

#[test]
fn missing_file_is_reported_apart_from_other_failures() {
    let missing = OpenFailure::NotFound("No such file or directory (os error 2)".to_owned());
    assert_eq!(
        open_error("/tmp/none.mmdb", &missing),
        DbError {
            kind: ErrorKind::NotFound,
            message: "No such file or directory (os error 2)".to_owned(),
        }
    );
    let denied = OpenFailure::Unreadable("Permission denied (os error 13)".to_owned());
    assert_eq!(
        open_error("/tmp/none.mmdb", &denied),
        DbError { kind: ErrorKind::Io, message: "Permission denied (os error 13)".to_owned() }
    );
}

#[test]
fn failed_map_and_failed_read_are_io_failures() {
    assert_eq!(
        open_error("db", &OpenFailure::MapFailed("out of memory".to_owned())),
        DbError {
            kind: ErrorKind::Io,
            message: "Failed to memory-map database file: out of memory".to_owned(),
        }
    );
    assert_eq!(
        open_error("db", &OpenFailure::ReadFailed("interrupted".to_owned())),
        DbError {
            kind: ErrorKind::Io,
            message: "Failed to read database file: interrupted".to_owned(),
        }
    );
}

#[test]
fn malformed_file_is_reported_with_its_path() {
    assert_eq!(
        open_error("/data/GeoLite2-City.mmdb", &refused("Invalid database: no metadata")),
        DbError {
            kind: ErrorKind::InvalidDatabaseFormat,
            message: "Error opening database file (/data/GeoLite2-City.mmdb). Is this a valid \
                      MaxMind DB file?"
                .to_owned(),
        }
    );
}

#[test]
fn malformed_file_is_reported_alike_whatever_the_engine_said() {
    let expected = DbError {
        kind: ErrorKind::InvalidDatabaseFormat,
        message: "Error opening database file (db). Is this a valid MaxMind DB file?".to_owned(),
    };
    assert_eq!(open_error("db", &OpenFailure::Malformed(EngineFailure::aborted())), expected);
    let io = EngineFailure { kind: EngineFailureKind::Io, text: "I/O error: gone".to_owned() };
    assert_eq!(open_error("db", &OpenFailure::Malformed(io)), expected);
    let odd = EngineFailure {
        kind: EngineFailureKind::InvalidNetwork,
        text: "Invalid network: invalid prefix".to_owned(),
    };
    assert_eq!(open_error("db", &OpenFailure::Malformed(odd)), expected);
}

#[test]
fn opened_source_becomes_an_open_reader() {
    let reader: Reader<u64> = open_database("db", Ok((42u64, header()))).unwrap();
    assert!(!reader.closed());
    assert_eq!(*reader.begin_each(true).unwrap().0, 42);
    assert_eq!(reader.metadata(), Ok(header()));
    assert_eq!(reader.ip_version(), 6);
}

#[test]
fn failed_opening_gives_no_reader() {
    let outcome: Result<(u64, Metadata), OpenFailure> = Err(refused("Invalid database: x"));
    assert_eq!(
        open_database("db", outcome).err(),
        Some(DbError {
            kind: ErrorKind::InvalidDatabaseFormat,
            message: "Error opening database file (db). Is this a valid MaxMind DB file?".to_owned(),
        })
    );
}
