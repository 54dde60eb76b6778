//! The walk, step by step, on chosen events.

use maxmind_db_rust::error::{DbError, EngineFailure, EngineFailureKind, ErrorKind};
use maxmind_db_rust::iteration::{Iteration, IterationEvent, IterationStep, WalkEnd};
use maxmind_db_rust::network::{IpAddress, Network};
use maxmind_db_rust::value::DecodedValue;

const BAD_DATA: &str =
    "The MaxMind DB file's data section contains bad data (unknown data type or corrupt data)";

type Event = IterationEvent<&'static str>;

type End = Result<WalkEnd<&'static str>, DbError>;

fn network(bits: u32, prefix_len: u8) -> Network {
    Network { address: IpAddress::V4(bits), prefix_len }
}

fn item(bits: u32, name: &str) -> Event {
    IterationEvent::Item(network(bits, 8), DecodedValue::Utf8String(name.to_owned()))
}

/// Takes a walk through `events` as long as it goes on, with the reader open
/// but for the step whose number is `closed_at`. Gives what was handed over
/// and how the walk ended, if it did.
fn run(events: Vec<Event>, closed_at: Option<usize>) -> (Vec<(Network, DecodedValue)>, Option<End>) {
    let mut walk = Iteration::start();
    let mut seen = Vec::new();
    for (at, event) in events.into_iter().enumerate() {
        match walk.advance(closed_at == Some(at), event) {
            IterationStep::Yield(rest, network, value) => {
                walk = rest;
                seen.push((network, value));
            }
            IterationStep::End(result) => return (seen, Some(result)),
        }
    }
    (seen, None)
}

fn three() -> Vec<(Network, DecodedValue)> {
    vec![
        (network(0x0a000000, 8), DecodedValue::Utf8String("ten".to_owned())),
        (network(0xac000000, 8), DecodedValue::Utf8String("private".to_owned())),
        (network(0xc0000000, 8), DecodedValue::Utf8String("home".to_owned())),
    ]
}

fn first(count: usize) -> Vec<(Network, DecodedValue)> {
    let mut entries = three();
    entries.truncate(count);
    entries
}

fn three_items() -> Vec<Event> {
    vec![item(0x0a000000, "ten"), item(0xac000000, "private"), item(0xc0000000, "home")]
}

#[test]
fn walk_over_three_networks_yields_three_entries_in_the_order_they_come() {
    let mut events = three_items();
    events.push(IterationEvent::Exhausted);
    assert_eq!(run(events, None), (three(), Some(Ok(WalkEnd::Exhausted))));
}

#[test]
fn walk_that_has_not_met_its_end_has_no_result() {
    assert_eq!(run(three_items(), None), (three(), None));
    assert_eq!(run(vec![], None), (vec![], None));
}

#[test]
fn walk_over_an_empty_database_ends_at_once() {
    assert_eq!(run(vec![IterationEvent::Exhausted], None), (vec![], Some(Ok(WalkEnd::Exhausted))));
}

#[test]
fn consumer_stop_is_handed_to_the_caller() {
    let mut events = three_items();
    events.insert(2, IterationEvent::Halted("enough"));
    let (seen, result) = run(events, None);
    assert_eq!(seen, first(2));
    assert_eq!(result, Some(Ok(WalkEnd::Stopped("enough"))));
    assert_ne!(result, Some(Ok(WalkEnd::Exhausted)));
}

#[test]
fn consumer_stop_after_the_first_entry_hands_over_one_entry() {
    let events = vec![
        item(0x0a000000, "ten"),
        IterationEvent::Halted("first"),
        item(0xac000000, "private"),
        IterationEvent::Exhausted,
    ];
    let (seen, result) = run(events, None);
    assert_eq!(seen, first(1));
    assert_eq!(result, Some(Ok(WalkEnd::Stopped("first"))));
}

#[test]
fn consumer_stop_carries_what_the_consumer_signalled() {
    let walk = Iteration::start();
    match walk.advance(false, IterationEvent::Halted(vec![7u8, 9])) {
        IterationStep::End(result) => assert_eq!(result, Ok(WalkEnd::Stopped(vec![7u8, 9]))),
        IterationStep::Yield(_, network, _) => panic!("the walk yielded {:?}", network),
    }
}

#[test]
fn closing_the_reader_ends_the_walk_at_the_next_step() {
    let mut events = three_items();
    events.push(IterationEvent::Exhausted);
    let (seen, result) = run(events, Some(1));
    assert_eq!(seen, first(1));
    assert_eq!(
        result,
        Some(Err(DbError {
            kind: ErrorKind::ClosedDatabase,
            message: "Attempt to read from a closed MaxMind DB.".to_owned(),
        }))
    );
}

#[test]
fn closed_reader_comes_before_the_end_and_before_a_stop() {
    let closed = || -> Option<End> {
        Some(Err(DbError {
            kind: ErrorKind::ClosedDatabase,
            message: "Attempt to read from a closed MaxMind DB.".to_owned(),
        }))
    };
    assert_eq!(run(vec![IterationEvent::Exhausted], Some(0)), (vec![], closed()));
    assert_eq!(run(vec![IterationEvent::Halted("stop")], Some(0)), (vec![], closed()));
    assert_eq!(run(vec![item(0, "any")], Some(0)), (vec![], closed()));
}

#[test]
fn corrupt_record_ends_the_walk_with_bad_data() {
    let failure = EngineFailure {
        kind: EngineFailureKind::InvalidDatabase,
        text: "Invalid database: Unknown data type: 12".to_owned(),
    };
    let events = vec![item(0x0a000000, "ten"), IterationEvent::Failure(failure), item(0, "late")];
    let (seen, result) = run(events, None);
    assert_eq!(seen, first(1));
    assert_eq!(
        result,
        Some(Err(DbError { kind: ErrorKind::InvalidDatabaseFormat, message: BAD_DATA.to_owned() }))
    );
}

#[test]
fn other_failure_ends_the_walk_as_a_runtime_failure() {
    let failure = EngineFailure {
        kind: EngineFailureKind::InvalidNetwork,
        text: "Invalid network: invalid prefix".to_owned(),
    };
    assert_eq!(
        run(vec![IterationEvent::Failure(failure)], None),
        (
            vec![],
            Some(Err(DbError {
                kind: ErrorKind::Runtime,
                message: "Database iteration failed: Invalid network: invalid prefix".to_owned(),
            }))
        )
    );
}

#[test]
fn refused_walk_is_reported_as_invalid_database() {
    let failure = EngineFailure {
        kind: EngineFailureKind::InvalidDatabase,
        text: "Invalid database: unknown record size: 7".to_owned(),
    };
    assert_eq!(
        run(vec![IterationEvent::Refused(failure)], None),
        (
            vec![],
            Some(Err(DbError {
                kind: ErrorKind::InvalidDatabaseFormat,
                message: "Failed to iterate: Invalid database: unknown record size: 7".to_owned(),
            }))
        )
    );
}

#[test]
fn rejected_span_is_reported_as_invalid_database() {
    assert_eq!(
        run(vec![IterationEvent::SpanRejected("invalid prefix".to_owned())], None),
        (
            vec![],
            Some(Err(DbError {
                kind: ErrorKind::InvalidDatabaseFormat,
                message: "Failed to create network: invalid prefix".to_owned(),
            }))
        )
    );
}
