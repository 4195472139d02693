//! The record codec: a `Record` pairs an opaque payload with a 128-bit
//! identifier and a SHA-256 digest of the payload. Its storage layout is
//! `payload ++ digest`, with no length prefix: the payload length is whatever
//! is left once the fixed-width digest is split off the tail.

use vstd::prelude::*;
use vstd::std_specs::cmp::{PartialEqSpec, PartialOrdSpec};

use sha2::Digest;

use crate::errors::EncodingError;

verus! {

/// Width in bytes of the integrity digest appended to every stored payload.
pub const DIGEST_WIDTH: usize = 32;

/// The SHA-256 digest of a byte sequence, as the 32-byte sequence the `sha2`
/// crate computes. The result depends on the input bytes alone.
pub uninterp spec fn sha256_of(data: Seq<u8>) -> Seq<u8>;

/// The storage layout of a record: its payload followed by its digest.
pub open spec fn stored_layout(payload: Seq<u8>, digest: Seq<u8>) -> Seq<u8> {
    payload + digest
}

/// The payload part of a stored layout: everything but the trailing digest.
pub open spec fn payload_part(bytes: Seq<u8>) -> Seq<u8> {
    bytes.take(bytes.len() - DIGEST_WIDTH)
}

/// The digest part of a stored layout: its trailing `DIGEST_WIDTH` bytes.
pub open spec fn digest_part(bytes: Seq<u8>) -> Seq<u8> {
    bytes.skip(bytes.len() - DIGEST_WIDTH)
}

/// One record of the log. Identifier and digest are fixed at construction;
/// nothing is ever mutated afterwards.
#[derive(Debug)]
pub struct Record {
    /// 128-bit time-sortable identifier; carried in the storage key,
    /// never serialized into the stored bytes.
    pub ulid: u128,
    /// The opaque payload; zero length is allowed.
    pub data: Vec<u8>,
    /// SHA-256 digest of `data`, computed when the record was built.
    pub checksum: [u8; 32],
}

impl Record {
    /// Relies on `sha2::Sha256` through the `Digest` trait: the digest of a
    /// byte slice is exactly 32 bytes and depends on the input bytes alone.
    #[verifier::external_body]
    fn calculate_checksum(data: &[u8]) -> (r: [u8; 32])
        ensures
            r@ == sha256_of(data@),
    {
        let digest = sha2::Sha256::digest(data);
        let mut checksum = [0u8; 32];
        checksum.copy_from_slice(&digest);
        checksum
    }

    /// Relies on `ulid::Ulid::generate`: a fresh identifier built from the
    /// current wall-clock millisecond and random bits. Nothing can be
    /// promised of the value drawn.
    #[verifier::external_body]
    fn fresh_ulid() -> u128 {
        ulid::Ulid::generate().0
    }

    /// Builds a record over `data` with a fresh identifier and the digest
    /// of `data`.
    pub fn new(data: Vec<u8>) -> (r: Record)
        ensures
            r.data@ == data@,
            r.checksum@ == sha256_of(data@),
    {
        let ulid = Self::fresh_ulid();
        let checksum = Self::calculate_checksum(data.as_slice());
        Record { ulid, data, checksum }
    }

    /// Recomputes the digest over the payload and compares it with the
    /// stored one; true exactly when they agree.
    pub fn validate_checksum(&self) -> (r: bool)
        ensures
            r == (self.checksum@ == sha256_of(self.data@)),
    {
        let expected = Self::calculate_checksum(self.data.as_slice());
        let mut i: usize = 0;
        while i < 32
            invariant
                i <= 32,
                expected@ == sha256_of(self.data@),
                forall|k: int| 0 <= k < i ==> self.checksum@[k] == expected@[k],
            decreases 32 - i,
        {
            if self.checksum[i] != expected[i] {
                assert(self.checksum@[i as int] != expected@[i as int]);
                return false;
            }
            i += 1;
        }
        assert(self.checksum@ =~= expected@);
        true
    }

    /// Serializes the record into its storage layout, `data ++ checksum`.
    /// The identifier is deliberately not part of the layout.
    pub fn to_bytes(&self) -> (r: Vec<u8>)
        ensures
            r@ == stored_layout(self.data@, self.checksum@),
    {
        let mut buf: Vec<u8> = Vec::new();
        let mut i: usize = 0;
        while i < self.data.len()
            invariant
                i <= self.data@.len(),
                buf@ == self.data@.take(i as int),
            decreases self.data@.len() - i,
        {
            buf.push(self.data[i]);
            assert(buf@ =~= self.data@.take(i + 1));
            i += 1;
        }
        assert(buf@ =~= self.data@);
        let mut j: usize = 0;
        while j < 32
            invariant
                j <= 32,
                buf@ == self.data@ + self.checksum@.take(j as int),
            decreases 32 - j,
        {
            buf.push(self.checksum[j]);
            assert(buf@ =~= self.data@ + self.checksum@.take(j + 1));
            j += 1;
        }
        assert(buf@ =~= stored_layout(self.data@, self.checksum@));
        buf
    }

    /// Splits a stored layout back into a record: the trailing 32 bytes are
    /// the digest, everything before them is the payload. Fails with
    /// `Truncated` exactly when the buffer cannot hold a digest. A digest
    /// that does not match is not an error here: integrity is verified
    /// separately by `validate_checksum`.
    pub fn from_bytes(ulid: u128, bytes: &[u8]) -> (r: Result<Record, EncodingError>)
        ensures
            match r {
                Ok(rec) => {
                    &&& bytes@.len() >= DIGEST_WIDTH
                    &&& rec.ulid == ulid
                    &&& rec.data@ == payload_part(bytes@)
                    &&& rec.checksum@ == digest_part(bytes@)
                },
                Err(e) => e == EncodingError::Truncated && bytes@.len() < DIGEST_WIDTH,
            },
    {
        if bytes.len() < DIGEST_WIDTH {
            return Err(EncodingError::Truncated);
        }
        let data_len = bytes.len() - 32;
        let mut data: Vec<u8> = Vec::with_capacity(data_len);
        let mut i: usize = 0;
        while i < data_len
            invariant
                i <= data_len,
                data_len == bytes@.len() - 32,
                data@ == bytes@.take(i as int),
            decreases data_len - i,
        {
            data.push(bytes[i]);
            assert(data@ =~= bytes@.take(i + 1));
            i += 1;
        }
        let mut checksum = [0u8; 32];
        let mut j: usize = 0;
        while j < 32
            invariant
                j <= 32,
                data_len == bytes@.len() - 32,
                data_len <= usize::MAX - 32,
                forall|k: int| 0 <= k < j ==> checksum@[k] == bytes@[data_len + k],
            decreases 32 - j,
        {
            checksum[j] = bytes[data_len + j];
            j += 1;
        }
        assert(data@ =~= payload_part(bytes@));
        assert(checksum@ =~= digest_part(bytes@));
        Ok(Record { ulid, data, checksum })
    }
}

// Equality and ordering between records go solely by identifier: payload and
// digest play no part. Two records with equal identifiers compare equal even
// if their contents differ (which correct identifier generation rules out).
impl PartialEq for Record {
    fn eq(&self, other: &Record) -> bool {
        self.ulid == other.ulid
    }
}

impl vstd::std_specs::cmp::PartialEqSpecImpl for Record {
    open spec fn obeys_eq_spec() -> bool {
        true
    }

    open spec fn eq_spec(&self, other: &Record) -> bool {
        self.ulid == other.ulid
    }
}

impl Eq for Record {

}

impl PartialOrd for Record {
    fn partial_cmp(&self, other: &Record) -> Option<core::cmp::Ordering> {
        if self.ulid < other.ulid {
            Some(core::cmp::Ordering::Less)
        } else if self.ulid == other.ulid {
            Some(core::cmp::Ordering::Equal)
        } else {
            Some(core::cmp::Ordering::Greater)
        }
    }
}

impl vstd::std_specs::cmp::PartialOrdSpecImpl for Record {
    open spec fn obeys_partial_cmp_spec() -> bool {
        true
    }

    open spec fn partial_cmp_spec(&self, other: &Record) -> Option<core::cmp::Ordering> {
        if self.ulid < other.ulid {
            Some(core::cmp::Ordering::Less)
        } else if self.ulid == other.ulid {
            Some(core::cmp::Ordering::Equal)
        } else {
            Some(core::cmp::Ordering::Greater)
        }
    }
}

/// Splitting a stored layout recovers exactly the payload and digest it was
/// built from; and a layout whose digest is the digest of its payload still
/// verifies after the round trip.
pub proof fn lemma_layout_round_trip(payload: Seq<u8>, digest: Seq<u8>)
    requires
        digest.len() == DIGEST_WIDTH,
    ensures
        payload_part(stored_layout(payload, digest)) == payload,
        digest_part(stored_layout(payload, digest)) == digest,
        digest == sha256_of(payload) ==> digest_part(stored_layout(payload, digest))
            == sha256_of(payload_part(stored_layout(payload, digest))),
{
    assert(payload_part(stored_layout(payload, digest)) =~= payload);
    assert(digest_part(stored_layout(payload, digest)) =~= digest);
}

/// Corrupting a single byte in the digest region of a stored layout leaves
/// the decoded payload intact but changes the decoded digest; in particular,
/// if the layout carried the digest of its payload, the corrupted layout
/// fails integrity verification. (A corrupted payload byte is also caught in
/// practice, but that rests on SHA-256 being collision resistant, which is
/// nothing a proof can appeal to.)
pub proof fn lemma_digest_corruption_detected(
    payload: Seq<u8>,
    digest: Seq<u8>,
    corrupted: Seq<u8>,
    i: int,
)
    requires
        digest.len() == DIGEST_WIDTH,
        corrupted.len() == payload.len() + DIGEST_WIDTH,
        payload.len() <= i < corrupted.len(),
        forall|j: int|
            0 <= j < corrupted.len() && j != i ==> corrupted[j] == stored_layout(
                payload,
                digest,
            )[j],
        corrupted[i] != stored_layout(payload, digest)[i],
    ensures
        payload_part(corrupted) == payload,
        digest_part(corrupted) != digest,
        digest == sha256_of(payload) ==> digest_part(corrupted) != sha256_of(
            payload_part(corrupted),
        ),
{
    assert(payload_part(corrupted) =~= payload);
    assert(digest_part(corrupted)[i - payload.len()] != digest[i - payload.len()]);
}

/// Two records are equal exactly when their identifiers are equal: payload
/// and digest never enter the comparison.
pub proof fn lemma_record_eq_iff_id_eq(a: &Record, b: &Record)
    ensures
        a.eq_spec(b) <==> a.ulid == b.ulid,
{
}

/// Records order exactly as their identifiers do under the identifier's own
/// total order (time bits first, then random bits, as one 128-bit value):
/// payload and digest never enter the comparison.
pub proof fn lemma_record_order_is_id_order(a: &Record, b: &Record)
    ensures
        a.partial_cmp_spec(b) == Some(core::cmp::Ordering::Less) <==> a.ulid < b.ulid,
        a.partial_cmp_spec(b) == Some(core::cmp::Ordering::Equal) <==> a.ulid == b.ulid,
        a.partial_cmp_spec(b) == Some(core::cmp::Ordering::Greater) <==> a.ulid > b.ulid,
{
}

} // verus!
