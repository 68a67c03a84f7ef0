use unsynced::UpdateState;

fn s(text: &str) -> String {
    String::from(text)
}

#[test]
fn roundtrip_synced() {
    let bytes = UpdateState::Synced.encode();
    assert_eq!(UpdateState::decode(&bytes), Some(UpdateState::Synced));
}

#[test]
fn roundtrip_unsynced() {
    let rec = UpdateState::Unsynced(42, s("abcdef0123"));
    let bytes = rec.encode();
    assert_eq!(UpdateState::decode(&bytes), Some(rec));
}

#[test]
fn roundtrip_unsynced_non_ascii_revision() {
    let rec = UpdateState::Unsynced(7, s("rev-\u{3b1}\u{3b2}-\u{1F600}"));
    let bytes = rec.encode();
    assert_eq!(UpdateState::decode(&bytes), Some(rec));
}

#[test]
fn roundtrip_empty_revision() {
    let rec = UpdateState::Unsynced(1, s(""));
    let bytes = rec.encode();
    assert_eq!(UpdateState::decode(&bytes), Some(rec));
}

#[test]
fn roundtrip_extreme_count() {
    let rec = UpdateState::Unsynced(u32::MAX, s("deadbeef"));
    let bytes = rec.encode();
    assert_eq!(UpdateState::decode(&bytes), Some(rec));
}

#[test]
fn encode_synced_exact_bytes() {
    assert_eq!(UpdateState::Synced.encode(), vec![0u8]);
}

#[test]
fn encode_unsynced_exact_bytes() {
    let bytes = UpdateState::Unsynced(1, s("ab")).encode();
    let expected = vec![
        1u8, // tag
        1, 0, 0, 0, // count, little endian
        2, 0, 0, 0, 0, 0, 0, 0, // revision byte length, little endian
        b'a', b'b', // revision bytes
    ];
    assert_eq!(bytes, expected);
}

#[test]
fn decode_rejects_empty() {
    assert_eq!(UpdateState::decode(&vec![]), None);
}

#[test]
fn decode_rejects_unknown_tag() {
    assert_eq!(UpdateState::decode(&vec![2u8]), None);
}

#[test]
fn decode_rejects_trailing_bytes_after_synced() {
    assert_eq!(UpdateState::decode(&vec![0u8, 0u8]), None);
}

#[test]
fn decode_rejects_truncated_unsynced() {
    let mut bytes = UpdateState::Unsynced(3, s("abc")).encode();
    bytes.pop();
    assert_eq!(UpdateState::decode(&bytes), None);
}

#[test]
fn decode_rejects_overlong_length_field() {
    // A header that promises more revision bytes than follow.
    let mut bytes = vec![1u8, 3, 0, 0, 0];
    bytes.extend_from_slice(&[9, 0, 0, 0, 0, 0, 0, 0]);
    bytes.extend_from_slice(b"ab");
    assert_eq!(UpdateState::decode(&bytes), None);
}

#[test]
fn decode_rejects_invalid_utf8_revision() {
    let mut bytes = vec![1u8, 3, 0, 0, 0];
    bytes.extend_from_slice(&[2, 0, 0, 0, 0, 0, 0, 0]);
    bytes.extend_from_slice(&[0xFF, 0xFE]);
    assert_eq!(UpdateState::decode(&bytes), None);
}

#[test]
fn restore_missing_file_means_synced() {
    assert_eq!(UpdateState::restore(None), UpdateState::Synced);
}

#[test]
fn restore_corrupt_file_means_synced() {
    assert_eq!(
        UpdateState::restore(Some(vec![9u8, 9, 9])),
        UpdateState::Synced
    );
    assert_eq!(UpdateState::restore(Some(vec![])), UpdateState::Synced);
}

#[test]
fn restore_reads_back_what_was_saved() {
    let rec = UpdateState::Unsynced(5, s("0123abcd"));
    let bytes = rec.encode();
    assert_eq!(UpdateState::restore(Some(bytes)), rec);
}
