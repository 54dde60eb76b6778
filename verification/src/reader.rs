//! The reader handle: an explicit open/closed state around the source of a
//! database, and the rules every operation follows before and after it asks
//! the format engine.

use crate::error::{
    closed_fault, engine_fault, lookup_context, DbError, EngineFailure, ErrorKind, Fault,
};
use crate::iteration::Iteration;
use crate::metadata::{Header, Metadata};
use crate::network::{full_span_of, IpAddress, Network};
use crate::value::DecodedValue;
use std::sync::Arc;
use vstd::prelude::*;

verus! {

/// The two states of a reader. A reader starts open and can only go from
/// open to closed.
#[derive(Debug)]
pub enum ReaderState<S> {
    /// The reader holds the source of its database.
    Open(Arc<S>),
    /// The reader has given its source up.
    Closed,
}

/// A handle on one database. It holds the source `S` while it is open, and
/// lends it out share by share for the length of one operation. It keeps the
/// header that was read when the database was opened.
#[derive(Debug)]
pub struct Reader<S> {
    state: ReaderState<S>,
    metadata: Metadata,
}

/// What a [`Reader`] holds: its source while it is open, and its header.
pub struct ReaderModel<S> {
    pub source: Option<S>,
    pub header: Header,
}

/// An address to look up: its number and its standard notation.
#[derive(Debug, Clone, PartialEq, Eq)]
pub struct IpQuery {
    pub address: IpAddress,
    /// The address in the notation in which it is shown to the caller.
    pub text: String,
}

/// What an [`IpQuery`] holds.
pub struct QueryModel {
    pub address: IpAddress,
    pub text: Seq<char>,
}

impl View for IpQuery {
    type V = QueryModel;

    open spec fn view(&self) -> QueryModel {
        QueryModel { address: self.address, text: self.text@ }
    }
}

/// The view of an address that may be missing.
pub open spec fn query_model(parsed: Option<IpQuery>) -> Option<QueryModel> {
    match parsed {
        Some(query) => Some(query@),
        None => None,
    }
}

/// The failure for text that is no IP address.
pub open spec fn not_an_address_fault(literal: Seq<char>) -> Fault {
    Fault {
        kind: ErrorKind::Argument,
        message: "'"@ + literal + "' does not appear to be an IPv4 or IPv6 address"@,
    }
}

/// The failure for an IPv6 address asked of a database that holds IPv4 only.
pub open spec fn wrong_family_fault(text: Seq<char>) -> Fault {
    Fault {
        kind: ErrorKind::Argument,
        message: "Error looking up "@ + text
            + ". You attempted to look up an IPv6 address in an IPv4-only database"@,
    }
}

/// The failure for a walk that was given nothing to hand its entries to.
pub open spec fn missing_handler_fault() -> Fault {
    Fault {
        kind: ErrorKind::Argument,
        message: "Enumerator support not yet implemented, please provide a block"@,
    }
}

/// True when a database of the given IP version cannot hold `address`: the
/// database is IPv4 only and the address is IPv6.
pub open spec fn outside_family(ip_version: u16, address: IpAddress) -> bool {
    ip_version == 4 && address is V6
}

impl<S> ReaderModel<S> {
    /// True once the reader has been closed.
    pub open spec fn is_closed(self) -> bool {
        self.source is None
    }

    /// The reader after `close`: without its source, with the same header.
    pub open spec fn shut(self) -> ReaderModel<S> {
        ReaderModel { source: None, header: self.header }
    }

    /// What is decided of a lookup before the engine is asked: the address to
    /// hand to the engine, or the failure the lookup ends in without the
    /// engine being asked. A closed reader refuses first, then text that is
    /// no address, then an address outside the database's family.
    pub open spec fn admission(self, literal: Seq<char>, parsed: Option<QueryModel>) -> Result<
        IpAddress,
        Fault,
    > {
        if self.is_closed() {
            Err(closed_fault())
        } else {
            match parsed {
                None => Err(not_an_address_fault(literal)),
                Some(query) => if outside_family(self.header.ip_version, query.address) {
                    Err(wrong_family_fault(query.text))
                } else {
                    Ok(query.address)
                },
            }
        }
    }

    /// What reading the header gives: the header while the reader is open.
    pub open spec fn header_read(self) -> Result<Header, Fault> {
        if self.is_closed() {
            Err(closed_fault())
        } else {
            Ok(self.header)
        }
    }

    /// What is decided of a walk before the engine is asked: the span to
    /// walk, which is the whole address space of the database's IP version,
    /// or the failure the walk ends in. A closed reader refuses first, then a
    /// walk without a handler.
    pub open spec fn walk_start(self, has_handler: bool) -> Result<Network, Fault> {
        if self.is_closed() {
            Err(closed_fault())
        } else if !has_handler {
            Err(missing_handler_fault())
        } else {
            Ok(full_span_of(self.header.ip_version))
        }
    }
}

/// After `close` every operation fails as on a closed reader, whatever it is
/// asked: a lookup, reading the header, and starting a walk.
pub proof fn closed_reader_refuses_everything<S>(
    reader: ReaderModel<S>,
    literal: Seq<char>,
    parsed: Option<QueryModel>,
    has_handler: bool,
)
    ensures
        reader.shut().is_closed(),
        reader.shut().admission(literal, parsed) == Err::<IpAddress, Fault>(closed_fault()),
        reader.shut().header_read() == Err::<Header, Fault>(closed_fault()),
        reader.shut().walk_start(has_handler) == Err::<Network, Fault>(closed_fault()),
{
}

/// Closing twice is closing once, and a closed reader never opens again.
pub proof fn close_is_idempotent<S>(reader: ReaderModel<S>)
    ensures
        reader.shut().shut() == reader.shut(),
        reader.is_closed() ==> reader.shut() == reader,
        reader.shut().is_closed(),
{
}

/// What a reader decides of a lookup, of reading its header and of a walk
/// depends on its header and on whether it is open, and not on what its source
/// is: two readers that agree in those decide alike, however each holds its
/// database.
pub proof fn decisions_do_not_depend_on_the_source<S, T>(
    one: ReaderModel<S>,
    other: ReaderModel<T>,
    literal: Seq<char>,
    parsed: Option<QueryModel>,
    has_handler: bool,
)
    requires
        one.header == other.header,
        one.is_closed() == other.is_closed(),
    ensures
        one.admission(literal, parsed) == other.admission(literal, parsed),
        one.header_read() == other.header_read(),
        one.walk_start(has_handler) == other.walk_start(has_handler),
{
}

/// An IPv6 address asked of an IPv4-only database is refused as a bad
/// argument before the engine is asked, and no address that is let through
/// to the engine lies outside the database's family.
pub proof fn engine_sees_no_address_outside_family<S>(
    reader: ReaderModel<S>,
    literal: Seq<char>,
    query: QueryModel,
)
    ensures
        !reader.is_closed() && outside_family(reader.header.ip_version, query.address)
            ==> reader.admission(literal, Some(query)) == Err::<IpAddress, Fault>(
            wrong_family_fault(query.text),
        ),
        reader.admission(literal, Some(query)) matches Ok(address) ==> address == query.address
            && !outside_family(reader.header.ip_version, address),
{
}

/// How the engine's answer to a lookup reaches the caller: a record or its
/// absence as it stands, a failure sorted into the taxonomy.
pub open spec fn lookup_answer(
    outcome: Result<Option<DecodedValue>, EngineFailure>,
    result: Result<Option<DecodedValue>, DbError>,
) -> bool {
    match outcome {
        Ok(found) => result == Ok::<Option<DecodedValue>, DbError>(found),
        Err(failure) => result matches Err(error) && error@ == engine_fault(
            lookup_context(),
            failure@,
        ),
    }
}

/// How the engine's answer to a lookup with prefix length reaches the caller:
/// the record or its absence and the prefix length as they stand, a failure
/// sorted into the taxonomy.
pub open spec fn prefix_answer(
    outcome: Result<(Option<DecodedValue>, usize), EngineFailure>,
    result: Result<(Option<DecodedValue>, usize), DbError>,
) -> bool {
    match outcome {
        Ok(found) => result == Ok::<(Option<DecodedValue>, usize), DbError>(found),
        Err(failure) => result matches Err(error) && error@ == engine_fault(
            lookup_context(),
            failure@,
        ),
    }
}

/// A record that the engine did not find is handed on as absent: not as a
/// failure, not as an empty value and not as any record. With a prefix
/// length, the absence comes with the very prefix length the engine gave.
pub proof fn absent_record_stays_absent(
    result: Result<Option<DecodedValue>, DbError>,
    with_prefix: Result<(Option<DecodedValue>, usize), DbError>,
    prefix_len: usize,
)
    ensures
        lookup_answer(Ok(None), result) <==> result == Ok::<Option<DecodedValue>, DbError>(None),
        prefix_answer(Ok((None, prefix_len)), with_prefix) <==> with_prefix == Ok::<
            (Option<DecodedValue>, usize),
            DbError,
        >((None, prefix_len)),
{
}

/// Hands the engine's answer to a lookup on to the caller.
pub fn lookup_outcome(outcome: Result<Option<DecodedValue>, EngineFailure>) -> (result: Result<
    Option<DecodedValue>,
    DbError,
>)
    ensures
        lookup_answer(outcome, result),
{
    match outcome {
        Ok(found) => Ok(found),
        Err(failure) => Err(DbError::from_engine("Database lookup failed: ", &failure)),
    }
}

/// Hands the engine's answer to a lookup with prefix length on to the caller.
pub fn prefix_outcome(outcome: Result<(Option<DecodedValue>, usize), EngineFailure>) -> (result:
    Result<(Option<DecodedValue>, usize), DbError>)
    ensures
        prefix_answer(outcome, result),
{
    match outcome {
        Ok(found) => Ok(found),
        Err(failure) => Err(DbError::from_engine("Database lookup failed: ", &failure)),
    }
}

/// The failure for text that is no IP address.
pub fn not_an_address(literal: &str) -> (error: DbError)
    ensures
        error@ == not_an_address_fault(literal@),
{
    DbError::framed(
        ErrorKind::Argument,
        "'",
        literal,
        "' does not appear to be an IPv4 or IPv6 address",
    )
}

/// The failure for a walk that was given nothing to hand its entries to.
pub fn missing_handler() -> (error: DbError)
    ensures
        error@ == missing_handler_fault(),
{
    DbError {
        kind: ErrorKind::Argument,
        message: String::from_str("Enumerator support not yet implemented, please provide a block"),
    }
}

/// The failure for an IPv6 address asked of a database that holds IPv4 only;
/// `text` is the address in its standard notation.
pub fn ipv6_in_ipv4_error(text: &str) -> (error: DbError)
    ensures
        error@ == wrong_family_fault(text@),
{
    DbError::framed(
        ErrorKind::Argument,
        "Error looking up ",
        text,
        ". You attempted to look up an IPv6 address in an IPv4-only database",
    )
}

impl<S> View for Reader<S> {
    type V = ReaderModel<S>;

    closed spec fn view(&self) -> ReaderModel<S> {
        ReaderModel {
            source: match self.state {
                ReaderState::Open(source) => Some(*source),
                ReaderState::Closed => None,
            },
            header: self.metadata@,
        }
    }
}

/// Another share of `source`. `Arc::clone` makes a pointer to the same
/// allocation, so the new share holds the very value the old one holds.
#[verifier::external_body]
fn share<S>(source: &Arc<S>) -> (shared: Arc<S>)
    ensures
        *shared == **source,
{
    Arc::clone(source)
}

impl<S> Reader<S> {
    /// Makes an open reader that holds `source`, with the header that was read
    /// from it.
    pub fn new(source: S, metadata: Metadata) -> (reader: Reader<S>)
        ensures
            reader@ == (ReaderModel { source: Some(source), header: metadata@ }),
            !reader@.is_closed(),
    {
        Reader { state: ReaderState::Open(Arc::new(source)), metadata }
    }

    /// True once the reader has been closed.
    pub fn closed(&self) -> (yes: bool)
        ensures
            yes == self@.is_closed(),
    {
        match &self.state {
            ReaderState::Open(_) => false,
            ReaderState::Closed => true,
        }
    }

    /// Closes the reader: it gives its source up and refuses every later
    /// operation. Closing a closed reader changes nothing.
    pub fn close(&mut self)
        ensures
            final(self)@ == old(self)@.shut(),
            final(self)@.is_closed(),
    {
        self.state = ReaderState::Closed;
    }

    /// The IP version the database declares.
    pub fn ip_version(&self) -> (version: u16)
        ensures
            version == self@.header.ip_version,
    {
        self.metadata.ip_version
    }

    /// Lends a share of the source for the length of one operation, or fails
    /// where the reader is closed.
    fn get_reader(&self) -> (result: Result<Arc<S>, DbError>)
        ensures
            match self@.source {
                Some(source) => result matches Ok(lent) && *lent == source,
                None => result matches Err(error) && error@ == closed_fault(),
            },
    {
        match &self.state {
            ReaderState::Open(source) => Ok(share(source)),
            ReaderState::Closed => Err(DbError::closed()),
        }
    }

    /// A copy of the header as it was read when the database was opened, or
    /// a failure where the reader is closed.
    pub fn metadata(&self) -> (result: Result<Metadata, DbError>)
        ensures
            match self@.header_read() {
                Ok(header) => result matches Ok(copy) && copy@ == header,
                Err(fault) => result matches Err(error) && error@ == fault,
            },
    {
        if self.closed() {
            return Err(DbError::closed());
        }
        Ok(self.metadata.snapshot())
    }

    /// Decides a lookup before the engine is asked. `literal` is the text the
    /// caller gave and `parsed` the address it spells, if it spells one. The
    /// result is the source and the address to ask the engine with, or the
    /// failure the lookup ends in.
    pub fn prepare_lookup(&self, literal: &str, parsed: Option<IpQuery>) -> (result: Result<
        (Arc<S>, IpAddress),
        DbError,
    >)
        ensures
            match self@.admission(literal@, query_model(parsed)) {
                Ok(address) => result matches Ok(granted) && Some(*granted.0) == self@.source
                    && granted.1 == address,
                Err(fault) => result matches Err(error) && error@ == fault,
            },
    {
        if self.closed() {
            return Err(DbError::closed());
        }
        let query = match parsed {
            Some(query) => query,
            None => {
                return Err(not_an_address(literal));
            },
        };
        if self.metadata.ip_version == 4 && query.address.is_v6() {
            return Err(ipv6_in_ipv4_error(query.text.as_str()));
        }
        let source = self.get_reader()?;
        Ok((source, query.address))
    }

    /// Looks an address up. `literal` is the text the caller gave and `parsed`
    /// the address it spells, if it spells one. `engine` is asked only where
    /// [`Reader::prepare_lookup`] grants the lookup, with the source and the
    /// address granted, and its answer is handed on as [`lookup_outcome`]
    /// says. Every earlier failure is returned without the engine being
    /// asked.
    ///
    /// The reader is borrowed while the engine works. Where a reader is
    /// shared and may be closed meanwhile, take the two steps apart.
    pub fn get<F>(&self, literal: &str, parsed: Option<IpQuery>, engine: F) -> (result: Result<
        Option<DecodedValue>,
        DbError,
    >) where F: FnOnce(Arc<S>, IpAddress) -> Result<Option<DecodedValue>, EngineFailure>
        requires
            self@.admission(literal@, query_model(parsed)) matches Ok(address) ==> forall|
                source: Arc<S>,
            |
                Some(*source) == self@.source ==> call_requires(engine, (source, address)),
        ensures
            match self@.admission(literal@, query_model(parsed)) {
                Ok(address) => exists|
                    source: Arc<S>,
                    outcome: Result<Option<DecodedValue>, EngineFailure>,
                |
                    Some(*source) == self@.source && call_ensures(
                        engine,
                        (source, address),
                        outcome,
                    ) && lookup_answer(outcome, result),
                Err(fault) => result matches Err(error) && error@ == fault,
            },
    {
        let (source, address) = self.prepare_lookup(literal, parsed)?;
        lookup_outcome(engine(source, address))
    }

    /// Looks an address up and reports the prefix length of the network it
    /// lies in. `engine` is asked only where [`Reader::prepare_lookup`]
    /// grants the lookup, and its answer is handed on as [`prefix_outcome`]
    /// says. Every earlier failure is returned without the engine being
    /// asked.
    pub fn get_with_prefix_length<F>(
        &self,
        literal: &str,
        parsed: Option<IpQuery>,
        engine: F,
    ) -> (result: Result<(Option<DecodedValue>, usize), DbError>) where
        F: FnOnce(Arc<S>, IpAddress) -> Result<(Option<DecodedValue>, usize), EngineFailure>,

        requires
            self@.admission(literal@, query_model(parsed)) matches Ok(address) ==> forall|
                source: Arc<S>,
            |
                Some(*source) == self@.source ==> call_requires(engine, (source, address)),
        ensures
            match self@.admission(literal@, query_model(parsed)) {
                Ok(address) => exists|
                    source: Arc<S>,
                    outcome: Result<(Option<DecodedValue>, usize), EngineFailure>,
                |
                    Some(*source) == self@.source && call_ensures(
                        engine,
                        (source, address),
                        outcome,
                    ) && prefix_answer(outcome, result),
                Err(fault) => result matches Err(error) && error@ == fault,
            },
    {
        let (source, address) = self.prepare_lookup(literal, parsed)?;
        prefix_outcome(engine(source, address))
    }

    /// Decides a walk over the whole database before the engine is asked.
    /// `has_handler` says whether the caller gave something to hand the
    /// entries to. The result is the source, the span to walk and a walk to
    /// take the steps with, or the failure the walk ends in.
    pub fn begin_each(&self, has_handler: bool) -> (result: Result<
        (Arc<S>, Network, Iteration),
        DbError,
    >)
        ensures
            match self@.walk_start(has_handler) {
                Ok(span) => result matches Ok(begun) && Some(*begun.0) == self@.source && begun.1
                    == span,
                Err(fault) => result matches Err(error) && error@ == fault,
            },
    {
        if self.closed() {
            return Err(DbError::closed());
        }
        if !has_handler {
            return Err(missing_handler());
        }
        let source = self.get_reader()?;
        Ok((source, Network::full_span(self.metadata.ip_version), Iteration::start()))
    }
}

} // verus!
