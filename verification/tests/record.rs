use gulog::errors::EncodingError;
use gulog::record::Record;

/// Hex form of a byte slice, for comparing digests against known values.
fn to_hex(bytes: &[u8]) -> String {
    let mut s = String::new();
    for b in bytes {
        s.push_str(&format!("{:02x}", b));
    }
    s
}

#[test]
fn test_ulid_generation() {
    let record1 = Record::new(b"same payload".to_vec());
    let record2 = Record::new(b"same payload".to_vec());
    // Identifiers are drawn fresh per record, even for identical payloads.
    assert_ne!(record1.ulid, record2.ulid);
}

#[test]
fn test_checksum_calculation() {
    // SHA-256 of the empty input and of "abc", as published in FIPS 180-2.
    let empty = Record::new(vec![]);
    assert_eq!(
        to_hex(&empty.checksum),
        "e3b0c44298fc1c149afbf4c8996fb92427ae41e4649b934ca495991b7852b855"
    );
    let abc = Record::new(b"abc".to_vec());
    assert_eq!(
        to_hex(&abc.checksum),
        "ba7816bf8f01cfea414140de5dae2223b00361a396177a9cb410ff61f20015ad"
    );
}

#[test]
fn test_serialization() {
    let record = Record::new(b"hello".to_vec());
    let bytes = record.to_bytes();
    assert_eq!(bytes.len(), 5 + 32);
    assert_eq!(&bytes[..5], b"hello");
    assert_eq!(&bytes[5..], &record.checksum[..]);
}

#[test]
fn test_deserialization() {
    let mut buf: Vec<u8> = b"payload!".to_vec();
    buf.extend_from_slice(&[7u8; 32]);
    let record = Record::from_bytes(42, &buf).unwrap();
    assert_eq!(record.ulid, 42);
    assert_eq!(record.data, b"payload!".to_vec());
    assert_eq!(record.checksum, [7u8; 32]);
}

#[test]
fn test_deserialization_faulty() {
    // Every length from 0 through 31 is too short to hold a digest.
    for len in 0..32 {
        let buf = vec![0u8; len];
        assert_eq!(Record::from_bytes(1, &buf), Err(EncodingError::Truncated));
    }
    // Exactly 32 bytes decode to an empty payload, not an error.
    let buf = vec![0u8; 32];
    let record = Record::from_bytes(1, &buf).unwrap();
    assert!(record.data.is_empty());
}

#[test]
fn test_checksum_validation_positive() {
    let record = Record::new(b"intact".to_vec());
    assert!(record.validate_checksum());
}

#[test]
fn test_checksum_validation_negative() {
    let mut record = Record::new(b"tampered".to_vec());
    record.checksum[0] ^= 0xff;
    assert!(!record.validate_checksum());
}

#[test]
fn test_initialize_empty_payload() {
    let record = Record::new(vec![]);
    assert!(record.validate_checksum());

    let bytes = record.to_bytes();
    let deserialized_record = Record::from_bytes(record.ulid, &bytes).unwrap();
    assert_eq!(record, deserialized_record);
}

#[test]
fn test_initialize_huge_payload() {
    let record = Record::new(vec![b'B'; 1024 * 1024]);
    assert!(record.validate_checksum());

    let bytes = record.to_bytes();
    let deserialized_record = Record::from_bytes(record.ulid, &bytes).unwrap();
    assert_eq!(deserialized_record.data, vec![b'B'; 1024 * 1024]);
    assert!(deserialized_record.validate_checksum());
}

#[test]
fn test_initialize_corrupted_payload() {
    // Flipping any single byte of a valid layout must be caught, whether it
    // lands in the payload or in the digest.
    let record = Record::new(b"fragile".to_vec());
    let bytes = record.to_bytes();
    for pos in 0..bytes.len() {
        let mut corrupted = bytes.clone();
        corrupted[pos] ^= 0x01;
        let decoded = Record::from_bytes(record.ulid, &corrupted).unwrap();
        assert!(!decoded.validate_checksum());
    }
}

#[test]
fn test_round_trip_payload_sizes() {
    for size in [0usize, 1, 1024, 1024 * 1024] {
        let payload = vec![0xabu8; size];
        let record = Record::new(payload.clone());
        let bytes = record.to_bytes();
        let decoded = Record::from_bytes(record.ulid, &bytes).unwrap();
        assert_eq!(decoded.data, payload);
        assert!(decoded.validate_checksum());
    }
}

#[test]
fn test_record_equality() {
    let record1 = Record::new(b"First Record".to_vec());
    let record2 = Record::new(b"Second Record".to_vec());
    let record3 = Record::new(b"Third Record".to_vec());

    assert_ne!(record1, record2);
    assert_ne!(record1, record3);
}

#[test]
fn test_record_equality_by_id_only() {
    // Equality goes by identifier alone: same id, different contents.
    let a = Record {
        ulid: 99,
        data: b"one".to_vec(),
        checksum: [1u8; 32],
    };
    let b = Record {
        ulid: 99,
        data: b"two".to_vec(),
        checksum: [2u8; 32],
    };
    assert_eq!(a, b);
    let c = Record {
        ulid: 100,
        data: b"one".to_vec(),
        checksum: [1u8; 32],
    };
    assert_ne!(a, c);
}

#[test]
fn test_record_ordering_by_id() {
    // Ordering goes by identifier alone, payload notwithstanding.
    let early = Record {
        ulid: 5,
        data: b"zzz".to_vec(),
        checksum: [0u8; 32],
    };
    let late = Record {
        ulid: 6,
        data: b"aaa".to_vec(),
        checksum: [0u8; 32],
    };
    assert!(early < late);
    assert!(late > early);
    assert_eq!(
        early.partial_cmp(&late),
        Some(std::cmp::Ordering::Less)
    );
    let same = Record {
        ulid: 5,
        data: b"other".to_vec(),
        checksum: [9u8; 32],
    };
    assert_eq!(
        early.partial_cmp(&same),
        Some(std::cmp::Ordering::Equal)
    );
}
