//! Read-only access to a trie-indexed geolocation database.
//!
//! The format engine that searches the trie and decodes the records stays
//! outside this library, and so do files, memory maps and locks. What is here
//! is every decision around them, each with a proved contract:
//!
//! - [`reader`]: the handle with its open/closed state, and what is decided of
//!   a lookup or a walk before and after the engine is asked;
//! - [`iteration`]: the walk over every network of a database, step by step;
//! - [`value`] and [`ordered_map`]: the decoded values and their numeric
//!   policy;
//! - [`metadata`]: the header and the sizes derived from it;
//! - [`network`]: addresses, networks and the span of a walk;
//! - [`source`]: the choice of how a database is held, and opening one;
//! - [`error`]: the failure taxonomy.

pub mod error;
pub mod iteration;
pub mod metadata;
pub mod network;
pub mod ordered_map;
pub mod reader;
pub mod source;
pub mod value;
