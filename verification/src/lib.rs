//! Core of a PostgreSQL driver: a connection facade that turns logical
//! queries into prepared statements, a statement cache keyed on SQL text
//! plus bind-parameter type signature, a forward-only cursor over a
//! fetched result set, and a classifier that decides the recovery action
//! after a failed transaction commit.
//!
//! The wire itself is modelled explicitly: a connection handle consumes a
//! transcript of server replies, one per round trip, so every decision the
//! driver makes is verified for every reply the server could send.

pub mod commit_error;
pub mod connection;
pub mod cursor;
pub mod error;
pub mod raw;
pub mod result;
pub mod statement_cache;
pub mod stmt;
pub mod transaction_builder;
