use btxc::BitcoinError;
use btxc::BitcoinSerialize;
use btxc::LegacyTransaction;

#[test]
fn decode_minimum_length_happy_path() {
    let data: Vec<u8> = vec![
        0x01, 0x00, 0x00, 0x00, 0x02, 0x00, 0x00, 0x00, 0x03, 0x00, 0x00, 0x00, 0x04, 0x00, 0x00,
        0x00,
    ];
    let tx = LegacyTransaction::decode(&data).unwrap();
    assert_eq!(tx.version, 1);
    assert_eq!(tx.inputs.len(), 0);
    assert_eq!(tx.outputs.len(), 0);
    assert_eq!(tx.lock_time, 4);
}

#[test]
fn decode_below_threshold_fails() {
    let data = vec![0u8; 11];
    let r = LegacyTransaction::decode(&data);
    assert!(matches!(r, Err(BitcoinError::InvalidTransaction)));
}

#[test]
fn decode_empty_fails() {
    let r = LegacyTransaction::decode(&[]);
    assert!(matches!(r, Err(BitcoinError::InvalidTransaction)));
}

#[test]
fn decode_permissive_short_read() {
    let data = vec![0u8; 12];
    let tx = LegacyTransaction::decode(&data).unwrap();
    assert_eq!(tx.version, 0);
    assert_eq!(tx.inputs.len(), 0);
    assert_eq!(tx.outputs.len(), 0);
    assert_eq!(tx.lock_time, 0);
}

#[test]
fn decode_short_read_ignores_partial_lock_time_bytes() {
    // 14 bytes: the lock-time field needs all four of bytes 12..16, so the
    // two present ones are not read and the field keeps its zero buffer.
    let mut data = vec![0x05, 0x00, 0x00, 0x00, 0x09, 0x00, 0x00, 0x00, 0x07, 0x00, 0x00, 0x00];
    data.push(0xAA);
    data.push(0xBB);
    let tx = LegacyTransaction::decode(&data).unwrap();
    assert_eq!(tx.version, 5);
    assert_eq!(tx.lock_time, 0);
}

#[test]
fn decode_negative_version_and_trailing_bytes() {
    let mut data = vec![
        0xFF, 0xFF, 0xFF, 0xFF, 0x00, 0x00, 0x00, 0x00, 0x00, 0x00, 0x00, 0x00, 0x2A, 0x00, 0x00,
        0x00,
    ];
    data.extend(vec![0xDE, 0xAD, 0xBE, 0xEF]);
    let tx = LegacyTransaction::decode(&data).unwrap();
    assert_eq!(tx.version, -1);
    assert_eq!(tx.lock_time, 42);
}

#[test]
fn decode_huge_counts_materialize_nothing() {
    let data = vec![
        0x01, 0x00, 0x00, 0x00, 0xFF, 0xFF, 0xFF, 0xFF, 0xFF, 0xFF, 0xFF, 0xFF, 0x00, 0x00, 0x00,
        0x00,
    ];
    let tx = LegacyTransaction::decode(&data).unwrap();
    assert_eq!(tx.inputs.len(), 0);
    assert_eq!(tx.outputs.len(), 0);
}

#[test]
fn encoder_output_width() {
    let tx = LegacyTransaction::builder().version(-1).lock_time(0xFFFFFFFF).build();
    let bytes = tx.encode();
    assert_eq!(bytes, vec![0xFF, 0xFF, 0xFF, 0xFF, 0xFF, 0xFF, 0xFF, 0xFF]);
}

#[test]
fn encode_is_little_endian_and_eight_bytes() {
    let tx = LegacyTransaction::builder().version(0x01020304).lock_time(0x0A0B0C0D).build();
    let bytes = tx.encode();
    assert_eq!(bytes, vec![0x04, 0x03, 0x02, 0x01, 0x0D, 0x0C, 0x0B, 0x0A]);
}

#[test]
fn serialize_matches_encode() {
    let tx = LegacyTransaction::builder().version(7).lock_time(1000).build();
    assert_eq!(tx.serialize(), tx.encode());
    assert_eq!(tx.serialize().len(), 8);
}

#[test]
fn round_trip_needs_zero_padding_between_fields() {
    let tx = LegacyTransaction::builder().version(-7).lock_time(123456).build();
    let e = tx.encode();

    // Eight zero bytes inserted between the two fields realign the
    // encoder's output with the decoder's sixteen-byte layout.
    let mut padded = e[0..4].to_vec();
    padded.extend(vec![0u8; 8]);
    padded.extend(e[4..8].to_vec());
    let back = LegacyTransaction::decode(&padded).unwrap();
    assert_eq!(back.version, -7);
    assert_eq!(back.lock_time, 123456);

    // Appending them instead leaves the lock-time bytes beyond the window
    // the decoder reads: the formats are not compatible as they stand.
    let mut appended = e.clone();
    appended.extend(vec![0u8; 8]);
    let skewed = LegacyTransaction::decode(&appended).unwrap();
    assert_eq!(skewed.version, -7);
    assert_eq!(skewed.lock_time, 0);
}

#[test]
fn error_messages() {
    let e = LegacyTransaction::decode(&[0u8; 3]).unwrap_err();
    assert_eq!(e.message(), "Invalid transaction format");
    assert_eq!(BitcoinError::InvalidScript.message(), "Invalid script format");
    assert_eq!(BitcoinError::InvalidAmount.message(), "Invalid amount");
    assert_eq!(
        BitcoinError::ParseError("boom".to_string()).message(),
        "Parse error: boom"
    );
}
