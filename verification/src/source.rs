//! Opening a database: how the bytes are to be held, and what each way of
//! failing to open one is reported as.

use crate::error::{DbError, EngineFailure, ErrorKind, Fault};
use crate::metadata::Metadata;
use crate::reader::{Reader, ReaderModel};
use vstd::prelude::*;

verus! {

/// The way of holding a database that a caller asks for.
#[derive(Debug, Clone, Copy, PartialEq, Eq, Structural)]
pub enum OpenMode {
    /// Whatever suits best.
    Auto,
    /// Map the file into memory.
    Mmap,
    /// Read the file into a buffer.
    Memory,
}

/// The way a database is held once it is open.
#[derive(Debug, Clone, Copy, PartialEq, Eq, Structural)]
pub enum SourceKind {
    /// A read-only window on the file.
    MemoryMapped,
    /// A buffer that holds a copy of the file.
    FullyBuffered,
}

/// The way in which opening a database failed.
#[derive(Debug, Clone, PartialEq, Eq)]
pub enum OpenFailure {
    /// There is no file at the path; the text is the system's wording.
    NotFound(String),
    /// The file could not be opened for another reason.
    Unreadable(String),
    /// The file could not be mapped into memory.
    MapFailed(String),
    /// The file could not be read to its end.
    ReadFailed(String),
    /// The engine found no valid header or search tree in the bytes; what it
    /// said of them comes along.
    Malformed(EngineFailure),
}

/// The mode a name stands for, if it names one.
pub open spec fn mode_named(name: Seq<char>) -> Option<OpenMode> {
    if name == "MODE_AUTO"@ {
        Some(OpenMode::Auto)
    } else if name == "MODE_MMAP"@ {
        Some(OpenMode::Mmap)
    } else if name == "MODE_MEMORY"@ {
        Some(OpenMode::Memory)
    } else {
        None
    }
}

/// The failure for a name that names no mode.
pub open spec fn unsupported_mode_fault(name: Seq<char>) -> Fault {
    Fault { kind: ErrorKind::Argument, message: "Unsupported mode: "@ + name }
}

/// How a database is held when `mode` is asked for: mapped unless the
/// caller asks for a buffer.
pub open spec fn kind_for(mode: OpenMode) -> SourceKind {
    match mode {
        OpenMode::Auto => SourceKind::MemoryMapped,
        OpenMode::Mmap => SourceKind::MemoryMapped,
        OpenMode::Memory => SourceKind::FullyBuffered,
    }
}

/// What the choice of a source comes to for the mode name a caller gave, if
/// any: no name stands for [`OpenMode::Auto`].
pub open spec fn chosen_kind(name: Option<Seq<char>>) -> Result<SourceKind, Fault> {
    match name {
        None => Ok(kind_for(OpenMode::Auto)),
        Some(name) => match mode_named(name) {
            Some(mode) => Ok(kind_for(mode)),
            None => Err(unsupported_mode_fault(name)),
        },
    }
}

/// What a failure to open the database at `path` is reported as. Whatever
/// the engine said of bytes it refused, the report names the file and asks
/// whether it is a database at all.
pub open spec fn open_fault(path: Seq<char>, failure: OpenFailure) -> Fault {
    match failure {
        OpenFailure::NotFound(text) => Fault { kind: ErrorKind::NotFound, message: text@ },
        OpenFailure::Unreadable(text) => Fault { kind: ErrorKind::Io, message: text@ },
        OpenFailure::MapFailed(text) => Fault {
            kind: ErrorKind::Io,
            message: "Failed to memory-map database file: "@ + text@,
        },
        OpenFailure::ReadFailed(text) => Fault {
            kind: ErrorKind::Io,
            message: "Failed to read database file: "@ + text@,
        },
        OpenFailure::Malformed(_) => Fault {
            kind: ErrorKind::InvalidDatabaseFormat,
            message: "Error opening database file ("@ + path
                + "). Is this a valid MaxMind DB file?"@,
        },
    }
}

/// True when `a` and `b` are the same text.
fn same_text(a: &str, b: &str) -> (same: bool)
    ensures
        same == (a@ == b@),
{
    String::from_str(a) == String::from_str(b)
}

/// Reads a mode from its name.
pub fn parse_mode(name: &str) -> (result: Result<OpenMode, DbError>)
    ensures
        match mode_named(name@) {
            Some(mode) => result == Ok::<OpenMode, DbError>(mode),
            None => result matches Err(error) && error@ == unsupported_mode_fault(name@),
        },
{
    if same_text(name, "MODE_AUTO") {
        Ok(OpenMode::Auto)
    } else if same_text(name, "MODE_MMAP") {
        Ok(OpenMode::Mmap)
    } else if same_text(name, "MODE_MEMORY") {
        Ok(OpenMode::Memory)
    } else {
        Err(DbError::prefixed(ErrorKind::Argument, "Unsupported mode: ", name))
    }
}

/// How a database is held when `mode` is asked for.
pub fn resolve_mode(mode: OpenMode) -> (kind: SourceKind)
    ensures
        kind == kind_for(mode),
{
    match mode {
        OpenMode::Auto | OpenMode::Mmap => SourceKind::MemoryMapped,
        OpenMode::Memory => SourceKind::FullyBuffered,
    }
}

/// Chooses how to hold a database from the mode name a caller gave, if any.
pub fn choose_source(name: Option<&str>) -> (result: Result<SourceKind, DbError>)
    ensures
        match chosen_kind(
            match name {
                Some(name) => Some(name@),
                None => None,
            },
        ) {
            Ok(kind) => result == Ok::<SourceKind, DbError>(kind),
            Err(fault) => result matches Err(error) && error@ == fault,
        },
{
    let mode = match name {
        Some(name) => parse_mode(name)?,
        None => OpenMode::Auto,
    };
    Ok(resolve_mode(mode))
}

/// Reports a failure to open the database at `path`.
pub fn open_error(path: &str, failure: &OpenFailure) -> (error: DbError)
    ensures
        error@ == open_fault(path@, *failure),
{
    match failure {
        OpenFailure::NotFound(text) => DbError { kind: ErrorKind::NotFound, message: text.clone() },
        OpenFailure::Unreadable(text) => DbError { kind: ErrorKind::Io, message: text.clone() },
        OpenFailure::MapFailed(text) => DbError::prefixed(
            ErrorKind::Io,
            "Failed to memory-map database file: ",
            text.as_str(),
        ),
        OpenFailure::ReadFailed(text) => DbError::prefixed(
            ErrorKind::Io,
            "Failed to read database file: ",
            text.as_str(),
        ),
        OpenFailure::Malformed(_) => DbError::framed(
            ErrorKind::InvalidDatabaseFormat,
            "Error opening database file (",
            path,
            "). Is this a valid MaxMind DB file?",
        ),
    }
}

/// Finishes opening the database at `path`. `outcome` is what reading the
/// file and its header came to: the source with its header, or the way it
/// failed. The reader is open and owns the source.
pub fn open_database<S>(path: &str, outcome: Result<(S, Metadata), OpenFailure>) -> (result: Result<
    Reader<S>,
    DbError,
>)
    ensures
        match outcome {
            Ok(opened) => result matches Ok(reader) && reader@ == (ReaderModel {
                source: Some(opened.0),
                header: opened.1@,
            }),
            Err(failure) => result matches Err(error) && error@ == open_fault(path@, failure),
        },
{
    match outcome {
        Ok((source, metadata)) => Ok(Reader::new(source, metadata)),
        Err(failure) => Err(open_error(path, &failure)),
    }
}

} // verus!
