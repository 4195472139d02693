//! The error taxonomy of the log: every failure a caller can see is one of
//! these variants, and each is surfaced as-is, never recovered internally.

use vstd::prelude::*;

verus! {

/// A stored byte buffer could not be decoded into a record.
#[derive(Debug, Clone, Copy, PartialEq, Eq, Structural)]
pub enum EncodingError {
    /// The buffer is shorter than the digest width, so it cannot even hold
    /// a digest, let alone a payload.
    Truncated,
}

/// A decoded record failed integrity verification.
#[derive(Debug, Clone, Copy, PartialEq, Eq, Structural)]
pub enum IntegrityError {
    /// The digest stored alongside the payload does not match the digest
    /// recomputed over the payload: the record is corrupt or tampered with.
    Mismatch,
}

/// The object store could not serve the request.
#[derive(Debug, Clone, Copy, PartialEq, Eq, Structural)]
pub enum StoreError {
    /// No object exists under the derived key.
    NotFound,
    /// Connectivity, authentication, or service failure underneath.
    Transport,
}

/// Any failure a read of the log can surface.
#[derive(Debug, Clone, Copy, PartialEq, Eq, Structural)]
pub enum WalError {
    Encoding(EncodingError),
    Integrity(IntegrityError),
    Store(StoreError),
}

} // verus!
