//! Append-only record storage: a codec that frames a byte payload together
//! with a SHA-256 integrity digest, time-sortable 128-bit record identifiers,
//! and the key scheme and read-side checks of a write-ahead log kept in a
//! remote object store.

pub mod errors;
pub mod record;
pub mod wal;
