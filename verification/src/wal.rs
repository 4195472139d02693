//! The log client's verified half: the key scheme that maps an identifier to
//! an object-store key, the encoding step of `append`, and the decode-and-
//! verify step of `read`. The store calls themselves (put/get over the
//! network) live outside the library and hand byte buffers in and out.

use vstd::prelude::*;
use vstd::string::StringExecFns;

use crate::errors::{EncodingError, IntegrityError, WalError};
use crate::record::{digest_part, payload_part, sha256_of, stored_layout, Record, DIGEST_WIDTH};

verus! {

/// The 26-character Crockford base32 form of a 128-bit identifier, as the
/// `ulid` crate prints it. The result depends on the identifier alone.
pub uninterp spec fn ulid_chars(id: u128) -> Seq<char>;

/// The object-store key under which the record with identifier `id` is
/// stored: `wal/<canonical id>.wal`.
pub open spec fn key_chars(id: u128) -> Seq<char> {
    "wal/"@ + ulid_chars(id) + ".wal"@
}

/// Relies on the `Display` impl of `ulid::Ulid`: an identifier prints as its
/// 26-character Crockford base32 form, determined by the 128-bit value alone.
#[verifier::external_body]
fn ulid_to_string(id: u128) -> (r: String)
    ensures
        r@ == ulid_chars(id),
        r@.len() == 26,
{
    ulid::Ulid(id).to_string()
}

/// Derives the object-store key for the record with identifier `id`.
/// Deterministic: equal identifiers always yield equal keys.
pub fn storage_key(id: u128) -> (r: String)
    ensures
        r@ == key_chars(id),
{
    let mut key = String::new();
    key.append("wal/");
    let id_str = ulid_to_string(id);
    key.append(id_str.as_str());
    key.append(".wal");
    key
}

/// The encoding half of `append`: builds a record over `data` with a fresh
/// identifier, and returns it together with the store key to write under and
/// the layout bytes to write there. The caller performs the store write and,
/// on success, hands the record's identifier to the application.
pub fn prepare_append(data: Vec<u8>) -> (r: (Record, String, Vec<u8>))
    ensures
        r.0.data@ == data@,
        r.0.checksum@ == sha256_of(data@),
        r.1@ == key_chars(r.0.ulid),
        r.2@ == stored_layout(data@, sha256_of(data@)),
{
    let record = Record::new(data);
    let key = storage_key(record.ulid);
    let bytes = record.to_bytes();
    (record, key, bytes)
}

/// The decoding half of `read`: takes the bytes fetched under the key of
/// `ulid` and either returns the decoded, integrity-checked record or says
/// exactly what is wrong with the bytes. A buffer shorter than the digest
/// width is `Truncated`; one whose trailing digest does not match the digest
/// recomputed over the rest is a `Mismatch`; anything else decodes.
pub fn read_record(ulid: u128, bytes: &[u8]) -> (r: Result<Record, WalError>)
    ensures
        match r {
            Ok(rec) => {
                &&& bytes@.len() >= DIGEST_WIDTH
                &&& rec.ulid == ulid
                &&& rec.data@ == payload_part(bytes@)
                &&& rec.checksum@ == digest_part(bytes@)
                &&& rec.checksum@ == sha256_of(rec.data@)
            },
            Err(WalError::Encoding(EncodingError::Truncated)) => bytes@.len() < DIGEST_WIDTH,
            Err(WalError::Integrity(IntegrityError::Mismatch)) => {
                &&& bytes@.len() >= DIGEST_WIDTH
                &&& digest_part(bytes@) != sha256_of(payload_part(bytes@))
            },
            Err(_) => false,
        },
{
    if bytes.len() < DIGEST_WIDTH {
        return Err(WalError::Encoding(EncodingError::Truncated));
    }
    let record = match Record::from_bytes(ulid, bytes) {
        Ok(rec) => rec,
        Err(_) => {
            return Err(WalError::Encoding(EncodingError::Truncated));
        },
    };
    if !record.validate_checksum() {
        return Err(WalError::Integrity(IntegrityError::Mismatch));
    }
    Ok(record)
}

} // verus!
