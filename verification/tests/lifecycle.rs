//! The reader handle through its life, on a source that is a plain value.

use std::collections::BTreeMap;
use std::sync::Arc;

use maxmind_db_rust::error::{DbError, ErrorKind};
use maxmind_db_rust::metadata::Metadata;
use maxmind_db_rust::network::{IpAddress, Network};
use maxmind_db_rust::reader::{IpQuery, Reader};

fn header(ip_version: u16) -> Metadata {
    let mut description = BTreeMap::new();
    description.insert("en".to_owned(), "Example".to_owned());
    Metadata {
        binary_format_major_version: 2,
        binary_format_minor_version: 0,
        build_epoch: 1_600_000_000,
        database_type: "Example-Country".to_owned(),
        description,
        ip_version,
        languages: vec!["en".to_owned(), "fr".to_owned()],
        node_count: 1000,
        record_size: 28,
    }
}

fn closed_error() -> DbError {
    DbError {
        kind: ErrorKind::ClosedDatabase,
        message: "Attempt to read from a closed MaxMind DB.".to_owned(),
    }
}

fn v4(bits: u32, text: &str) -> Option<IpQuery> {
    Some(IpQuery { address: IpAddress::V4(bits), text: text.to_owned() })
}

fn v6(bits: u128, text: &str) -> Option<IpQuery> {
    Some(IpQuery { address: IpAddress::V6(bits), text: text.to_owned() })
}

#[test]
fn new_reader_is_open_and_holds_its_source() {
    let reader = Reader::new("bytes".to_owned(), header(4));
    assert!(!reader.closed());
    assert_eq!(reader.ip_version(), 4);
    assert_eq!(*reader.begin_each(true).unwrap().0, "bytes");
}

#[test]
fn lending_shares_the_source_without_copying_it() {
    let reader = Reader::new(vec![1u8, 2, 3], header(4));
    let (first, _) = reader.prepare_lookup("10.0.0.1", v4(0x0a000001, "10.0.0.1")).unwrap();
    let (second, _, _) = reader.begin_each(true).unwrap();
    assert!(Arc::ptr_eq(&first, &second));
    assert_eq!(Arc::strong_count(&first), 3);
    drop(second);
    assert_eq!(Arc::strong_count(&first), 2);
}

#[test]
fn close_releases_the_source_once_no_share_is_left() {
    let mut reader = Reader::new(7u32, header(4));
    let (lent, _, _) = reader.begin_each(true).unwrap();
    assert_eq!(Arc::strong_count(&lent), 2);
    reader.close();
    assert_eq!(Arc::strong_count(&lent), 1);
    assert_eq!(*lent, 7);
}

#[test]
fn close_is_one_way_and_may_be_repeated() {
    let mut reader = Reader::new(1u8, header(6));
    reader.close();
    assert!(reader.closed());
    reader.close();
    assert!(reader.closed());
    assert_eq!(reader.begin_each(true).err(), Some(closed_error()));
}

#[test]
fn every_operation_fails_on_a_closed_reader() {
    let mut reader = Reader::new(1u8, header(4));
    reader.close();
    assert_eq!(reader.metadata(), Err(closed_error()));
    assert_eq!(reader.prepare_lookup("1.2.3.4", v4(0x01020304, "1.2.3.4")).err(), Some(closed_error()));
    assert_eq!(reader.prepare_lookup("::1", v6(1, "::1")).err(), Some(closed_error()));
    assert_eq!(reader.prepare_lookup("nonsense", None).err(), Some(closed_error()));
    assert_eq!(reader.begin_each(true).err(), Some(closed_error()));
    assert_eq!(reader.begin_each(false).err(), Some(closed_error()));
}

#[test]
fn header_is_copied_as_it_was_at_opening() {
    let reader = Reader::new(1u8, header(6));
    let first = reader.metadata().unwrap();
    let second = reader.metadata().unwrap();
    assert_eq!(first, header(6));
    assert_eq!(second, first);
    assert_eq!(first.node_byte_size(), 7);
    assert_eq!(first.search_tree_size(), 7000);
}

#[test]
fn lookup_of_an_ipv4_address_is_let_through() {
    let reader = Reader::new(9u8, header(4));
    let (source, address) = reader.prepare_lookup("1.2.3.4", v4(0x01020304, "1.2.3.4")).unwrap();
    assert_eq!(*source, 9);
    assert_eq!(address, IpAddress::V4(0x01020304));
}

#[test]
fn ipv6_address_is_refused_by_an_ipv4_database() {
    let reader = Reader::new(9u8, header(4));
    assert_eq!(
        reader.prepare_lookup("2001:DB8::1", v6(0x20010db8_00000000_00000000_00000001, "2001:db8::1")).err(),
        Some(DbError {
            kind: ErrorKind::Argument,
            message: "Error looking up 2001:db8::1. You attempted to look up an IPv6 address in an \
                      IPv4-only database"
                .to_owned(),
        })
    );
}

#[test]
fn both_families_are_let_through_by_an_ipv6_database() {
    let reader = Reader::new(9u8, header(6));
    let (_, address) = reader.prepare_lookup("::1", v6(1, "::1")).unwrap();
    assert_eq!(address, IpAddress::V6(1));
    let (_, address) = reader.prepare_lookup("10.0.0.1", v4(0x0a000001, "10.0.0.1")).unwrap();
    assert_eq!(address, IpAddress::V4(0x0a000001));
}

#[test]
fn text_that_spells_no_address_is_refused() {
    let reader = Reader::new(9u8, header(6));
    assert_eq!(
        reader.prepare_lookup("300.1.1.1", None).err(),
        Some(DbError {
            kind: ErrorKind::Argument,
            message: "'300.1.1.1' does not appear to be an IPv4 or IPv6 address".to_owned(),
        })
    );
}

#[test]
fn walk_of_an_ipv4_database_spans_all_of_ipv4() {
    let reader = Reader::new(9u8, header(4));
    let (source, span, _) = reader.begin_each(true).unwrap();
    assert_eq!(*source, 9);
    assert_eq!(span, Network { address: IpAddress::V4(0), prefix_len: 0 });
}

#[test]
fn walk_of_an_ipv6_database_spans_all_of_ipv6() {
    let reader = Reader::new(9u8, header(6));
    let (_, span, _) = reader.begin_each(true).unwrap();
    assert_eq!(span, Network { address: IpAddress::V6(0), prefix_len: 0 });
}

#[test]
fn walk_without_a_handler_is_refused() {
    let reader = Reader::new(9u8, header(4));
    assert_eq!(
        reader.begin_each(false).err(),
        Some(DbError {
            kind: ErrorKind::Argument,
            message: "Enumerator support not yet implemented, please provide a block".to_owned(),
        })
    );
}
