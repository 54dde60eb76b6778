//! The failure taxonomy of the reader and the rules that sort a failure of the
//! format engine into it.

use vstd::prelude::*;

verus! {

/// The classes of failure a reader operation can end in.
#[derive(Debug, Clone, Copy, PartialEq, Eq, Structural)]
pub enum ErrorKind {
    /// The database file does not exist.
    NotFound,
    /// Opening, reading or mapping the file failed for another reason.
    Io,
    /// The header, the search tree or a record is corrupt.
    InvalidDatabaseFormat,
    /// The caller passed something unusable.
    Argument,
    /// The reader was closed before the operation.
    ClosedDatabase,
    /// The format engine failed in a way none of the other classes covers.
    Runtime,
}

/// A failure: its class and the text shown to the caller.
#[derive(Debug, Clone, PartialEq, Eq)]
pub struct DbError {
    pub kind: ErrorKind,
    pub message: String,
}

/// What a [`DbError`] says: its class and its text as a sequence of characters.
pub struct Fault {
    pub kind: ErrorKind,
    pub message: Seq<char>,
}

impl View for DbError {
    type V = Fault;

    open spec fn view(&self) -> Fault {
        Fault { kind: self.kind, message: self.message@ }
    }
}

/// The ways the format engine reports a failure.
#[derive(Debug, Clone, Copy, PartialEq, Eq, Structural)]
pub enum EngineFailureKind {
    /// The engine found the database malformed.
    InvalidDatabase,
    /// The engine could not read its input.
    Io,
    /// The engine could not map the file.
    MemoryMap,
    /// A record could not be turned into a value.
    Decoding,
    /// A prefix does not fit its address.
    InvalidNetwork,
    /// The engine broke off without an answer: it ran past the end of the
    /// data.
    Aborted,
}

/// A failure of the format engine: its kind and the engine's own wording of it.
#[derive(Debug, Clone, PartialEq, Eq)]
pub struct EngineFailure {
    pub kind: EngineFailureKind,
    pub text: String,
}

/// What an [`EngineFailure`] says.
pub struct EngineFault {
    pub kind: EngineFailureKind,
    pub text: Seq<char>,
}

impl View for EngineFailure {
    type V = EngineFault;

    open spec fn view(&self) -> EngineFault {
        EngineFault { kind: self.kind, text: self.text@ }
    }
}

/// The text of every failure caused by a closed reader.
pub open spec fn closed_message() -> Seq<char> {
    "Attempt to read from a closed MaxMind DB."@
}

/// The text of every failure caused by a corrupt record or search tree.
pub open spec fn bad_data_message() -> Seq<char> {
    "The MaxMind DB file's data section contains bad data (unknown data type or corrupt data)"@
}

/// The failure every operation on a closed reader ends in.
pub open spec fn closed_fault() -> Fault {
    Fault { kind: ErrorKind::ClosedDatabase, message: closed_message() }
}

/// The failure that stands for corrupt data, whatever the engine said of it.
pub open spec fn bad_data_fault() -> Fault {
    Fault { kind: ErrorKind::InvalidDatabaseFormat, message: bad_data_message() }
}

/// True when the engine blames the database itself: its bytes could not be
/// read, its structure is broken, or one of its values could not be decoded.
/// Such a failure is reported as corrupt data.
pub open spec fn blames_database(kind: EngineFailureKind) -> bool {
    kind == EngineFailureKind::InvalidDatabase || kind == EngineFailureKind::Io || kind
        == EngineFailureKind::Decoding || kind == EngineFailureKind::Aborted
}

/// What is said of an engine that broke off without an answer.
pub open spec fn aborted_fault() -> EngineFault {
    EngineFault {
        kind: EngineFailureKind::Aborted,
        text: "Invalid database: the data ends before the value does"@,
    }
}

/// How an engine failure surfaces: corrupt data where the engine blames the
/// database, otherwise a runtime failure whose text is `context` followed by
/// the engine's wording.
pub open spec fn engine_fault(context: Seq<char>, failure: EngineFault) -> Fault {
    if blames_database(failure.kind) {
        bad_data_fault()
    } else {
        Fault { kind: ErrorKind::Runtime, message: context + failure.text }
    }
}

/// The words put before the engine's text when a lookup fails.
pub open spec fn lookup_context() -> Seq<char> {
    "Database lookup failed: "@
}

/// The words put before the engine's text when a step of an iteration fails.
pub open spec fn iteration_context() -> Seq<char> {
    "Database iteration failed: "@
}

impl EngineFailure {
    /// The failure of an engine that broke off without an answer. Truncated
    /// data makes the engine do so; it counts as corrupt data like any other
    /// damage to the database.
    pub fn aborted() -> (failure: EngineFailure)
        ensures
            failure@ == aborted_fault(),
            blames_database(failure@.kind),
    {
        EngineFailure {
            kind: EngineFailureKind::Aborted,
            text: String::from_str("Invalid database: the data ends before the value does"),
        }
    }
}

impl DbError {
    /// Builds a failure of class `kind` whose text is `before`, `text` and
    /// `after` joined in that order.
    pub fn framed(kind: ErrorKind, before: &str, text: &str, after: &str) -> (error: DbError)
        ensures
            error@ == (Fault { kind, message: before@ + text@ + after@ }),
    {
        let mut message = String::from_str(before);
        message.append(text);
        message.append(after);
        DbError { kind, message }
    }

    /// Builds a failure of class `kind` whose text is `before` followed by
    /// `text`.
    pub fn prefixed(kind: ErrorKind, before: &str, text: &str) -> (error: DbError)
        ensures
            error@ == (Fault { kind, message: before@ + text@ }),
    {
        let mut message = String::from_str(before);
        message.append(text);
        DbError { kind, message }
    }

    /// The failure of an operation on a closed reader.
    pub fn closed() -> (error: DbError)
        ensures
            error@ == closed_fault(),
    {
        DbError {
            kind: ErrorKind::ClosedDatabase,
            message: String::from_str("Attempt to read from a closed MaxMind DB."),
        }
    }

    /// The failure that reports corrupt data.
    pub fn bad_data() -> (error: DbError)
        ensures
            error@ == bad_data_fault(),
    {
        DbError {
            kind: ErrorKind::InvalidDatabaseFormat,
            message: String::from_str(
                "The MaxMind DB file's data section contains bad data (unknown data type or corrupt data)",
            ),
        }
    }

    /// Sorts a failure of the engine into the taxonomy, with `context` put
    /// before the engine's wording where that wording is kept.
    pub fn from_engine(context: &str, failure: &EngineFailure) -> (error: DbError)
        ensures
            error@ == engine_fault(context@, failure@),
    {
        match failure.kind {
            EngineFailureKind::InvalidDatabase
            | EngineFailureKind::Io
            | EngineFailureKind::Decoding
            | EngineFailureKind::Aborted => DbError::bad_data(),
            _ => DbError::prefixed(ErrorKind::Runtime, context, failure.text.as_str()),
        }
    }

    /// The class of this failure.
    pub fn kind(&self) -> (kind: ErrorKind)
        ensures
            kind == self.kind,
    {
        self.kind
    }

    /// The text of this failure.
    pub fn message(&self) -> (text: &str)
        ensures
            text@ == self.message@,
    {
        self.message.as_str()
    }
}

} // verus!
