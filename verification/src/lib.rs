//! A verified model of a small `book`/`author` persistence layer.
//!
//! The library models the visible state of a relational store behind a
//! bounded connection pool, and gives each entity operation an exact
//! contract: single-statement create, update and read of `Book` rows, and a
//! transactional create that inserts an `Author` row and a dependent `Book`
//! row as one atomic unit of work.
//!
//! The asynchronous plumbing (the real pool, the wire protocol) lives in the
//! host program; the library holds the decisions and the semantics.

pub mod book;
pub mod error;
pub mod store;
pub mod ops;
pub mod txn;
pub mod laws;
