//! The header snapshot of a database and the quantities derived from it.

use std::collections::BTreeMap;
use vstd::prelude::*;

verus! {

/// The header of a database, as read when the database was opened.
#[derive(Debug, PartialEq, Eq)]
pub struct Metadata {
    /// Major version of the binary format the database was written in.
    pub binary_format_major_version: u16,
    /// Minor version of the binary format the database was written in.
    pub binary_format_minor_version: u16,
    /// When the database was built, in seconds since the Unix epoch.
    pub build_epoch: u64,
    /// The name of the database type.
    pub database_type: String,
    /// A description of the database by language code.
    pub description: BTreeMap<String, String>,
    /// 4 for a database of IPv4 addresses only, 6 for one that holds both families.
    pub ip_version: u16,
    /// The language codes for which the records may hold names.
    pub languages: Vec<String>,
    /// The number of nodes in the search tree.
    pub node_count: u32,
    /// The width in bits of one record of a node.
    pub record_size: u16,
}

/// What a [`Metadata`] holds, with text as sequences of characters.
pub struct Header {
    pub binary_format_major_version: u16,
    pub binary_format_minor_version: u16,
    pub build_epoch: u64,
    pub database_type: Seq<char>,
    pub description: Map<String, String>,
    pub ip_version: u16,
    pub languages: Seq<String>,
    pub node_count: u32,
    pub record_size: u16,
}

impl View for Metadata {
    type V = Header;

    open spec fn view(&self) -> Header {
        Header {
            binary_format_major_version: self.binary_format_major_version,
            binary_format_minor_version: self.binary_format_minor_version,
            build_epoch: self.build_epoch,
            database_type: self.database_type@,
            description: self.description@,
            ip_version: self.ip_version,
            languages: self.languages@,
            node_count: self.node_count,
            record_size: self.record_size,
        }
    }
}

/// Size in bytes of one search-tree node: a node holds two records, so a
/// quarter of the record width in bits.
pub open spec fn node_bytes(record_size: u16) -> int {
    record_size as int / 4
}

/// Size in bytes of a search tree of `node_count` nodes.
pub open spec fn tree_bytes(node_count: u32, record_size: u16) -> int {
    node_count as int * node_bytes(record_size)
}

impl Metadata {
    /// Size in bytes of one search-tree node, computed from the record width.
    pub fn node_byte_size(&self) -> (size: u16)
        ensures
            size as int == node_bytes(self.record_size),
    {
        self.record_size / 4
    }

    /// Size in bytes of the whole search tree, computed from the node count
    /// and the record width.
    pub fn search_tree_size(&self) -> (size: u64)
        ensures
            size as int == tree_bytes(self.node_count, self.record_size),
            size as int == self.node_count as int * (self.record_size as int / 4),
    {
        let per_node: u64 = (self.record_size / 4) as u64;
        assert(self.node_count as int * per_node as int <= 0xffff_ffff * 0x3fff) by (nonlinear_arith)
            requires
                self.node_count <= 0xffff_ffff,
                per_node <= 0x3fff,
        ;
        self.node_count as u64 * per_node
    }

    /// Major version of the binary format.
    pub fn binary_format_major_version(&self) -> (version: u16)
        ensures
            version == self.binary_format_major_version,
    {
        self.binary_format_major_version
    }

    /// Minor version of the binary format.
    pub fn binary_format_minor_version(&self) -> (version: u16)
        ensures
            version == self.binary_format_minor_version,
    {
        self.binary_format_minor_version
    }

    /// When the database was built, in seconds since the Unix epoch.
    pub fn build_epoch(&self) -> (seconds: u64)
        ensures
            seconds == self.build_epoch,
    {
        self.build_epoch
    }

    /// The name of the database type.
    pub fn database_type(&self) -> (name: String)
        ensures
            name@ == self.database_type@,
    {
        self.database_type.clone()
    }

    /// The description of the database by language code.
    pub fn description(&self) -> (texts: BTreeMap<String, String>)
        ensures
            texts@ == self.description@,
    {
        self.description.clone()
    }

    /// The IP version of the database: 4 or 6.
    pub fn ip_version(&self) -> (version: u16)
        ensures
            version == self.ip_version,
    {
        self.ip_version
    }

    /// The language codes for which the records may hold names.
    pub fn languages(&self) -> (codes: Vec<String>)
        ensures
            codes@ == self.languages@,
    {
        self.languages.clone()
    }

    /// The number of nodes in the search tree.
    pub fn node_count(&self) -> (count: u32)
        ensures
            count == self.node_count,
    {
        self.node_count
    }

    /// The width in bits of one record of a node.
    pub fn record_size(&self) -> (bits: u16)
        ensures
            bits == self.record_size,
    {
        self.record_size
    }

    /// A copy of the header, field for field.
    pub fn snapshot(&self) -> (copy: Metadata)
        ensures
            copy@ == self@,
    {
        Metadata {
            binary_format_major_version: self.binary_format_major_version,
            binary_format_minor_version: self.binary_format_minor_version,
            build_epoch: self.build_epoch,
            database_type: self.database_type.clone(),
            description: self.description.clone(),
            ip_version: self.ip_version,
            languages: self.languages.clone(),
            node_count: self.node_count,
            record_size: self.record_size,
        }
    }
}

} // verus!
