use merkle_note_envelope::envelope::{ENVELOPE_SIZE, NOTE_PLAINTEXT_SIZE};
use merkle_note_envelope::keys::incoming_key_address;
use merkle_note_envelope::{MerkleNoteHash, NativeNoteEncrypted, NoteError};

const OWNER_IVK_HEX: &str = "0400000000000000000000000000000000000000000000000000000000000000";
const OTHER_IVK_HEX: &str = "0500000000000000000000000000000000000000000000000000000000000000";
const SPENDER_OVK_HEX: &str = "0909090909090909090909090909090909090909090909090909090909090909";

fn note_plaintext(value: u64, memo: [u8; 32]) -> Vec<u8> {
    let mut plaintext = value.to_le_bytes().to_vec();
    plaintext.extend_from_slice(&memo);
    plaintext
}

fn sealed_envelope(value: u64, memo: [u8; 32]) -> NativeNoteEncrypted {
    let owner = incoming_key_address(OWNER_IVK_HEX).unwrap();
    let value_commitment = owner.clone();
    let note_commitment = [0u8; 32];
    let outgoing_key = [9u8; 32];
    let seed = [7u8; 64];
    NativeNoteEncrypted::try_seal(
        &note_plaintext(value, memo),
        &value_commitment,
        &note_commitment,
        &owner,
        &outgoing_key,
        &seed,
    )
    .unwrap()
}

#[test]
fn test_merkle_notes_are_equal() {
    let merkle_note = sealed_envelope(42, [0u8; 32]);
    let vec = merkle_note.serialize();
    let note1 = NativeNoteEncrypted::deserialize(&vec).unwrap();
    let note2 = NativeNoteEncrypted::deserialize(&vec).unwrap();
    assert!(note1.equals(&note2))
}

#[test]
fn test_can_combine_merkle_note_hashes() {
    let arr: [u8; 32] = Default::default();
    let combined_hash = NativeNoteEncrypted::combine_hash(1, &arr, &arr).unwrap();

    let expected = &[
        78, 74, 99, 96, 68, 196, 78, 82, 234, 152, 143, 34, 78, 141, 112, 9, 118, 118, 97, 40,
        219, 166, 197, 144, 93, 94, 133, 118, 88, 127, 57, 32,
    ];
    assert_eq!(&combined_hash, &expected)
}

#[test]
fn combine_is_deterministic() {
    let left = [0u8; 32];
    let right = [1u8; 32];
    let first = NativeNoteEncrypted::combine_hash(3, &left, &right).unwrap();
    let second = NativeNoteEncrypted::combine_hash(3, &left, &right).unwrap();
    assert_eq!(first, second);
}

#[test]
fn combine_separates_depths() {
    let arr = [0u8; 32];
    let depth_one = NativeNoteEncrypted::combine_hash(1, &arr, &arr).unwrap();
    let depth_two = NativeNoteEncrypted::combine_hash(2, &arr, &arr).unwrap();
    assert_ne!(depth_one, depth_two);
}

#[test]
fn combine_rejects_malformed_children() {
    let valid = [0u8; 32];
    let short = [0u8; 31];
    let non_canonical = [0xffu8; 32];
    assert_eq!(
        NativeNoteEncrypted::combine_hash(1, &short, &valid).unwrap_err(),
        NoteError::MalformedHash
    );
    assert_eq!(
        NativeNoteEncrypted::combine_hash(1, &valid, &non_canonical).unwrap_err(),
        NoteError::MalformedHash
    );
}

#[test]
fn hash_write_read_round_trip() {
    let bytes = NativeNoteEncrypted::combine_hash(5, &[0u8; 32], &[2u8; 32]).unwrap();
    let value = MerkleNoteHash::read(&bytes).unwrap();
    let written = value.write();
    assert_eq!(written.len(), 32);
    assert_eq!(written, bytes);
}

#[test]
fn hash_read_rejects_malformed_buffers() {
    assert_eq!(
        MerkleNoteHash::read(&[]).unwrap_err(),
        NoteError::MalformedHash
    );
    assert_eq!(
        MerkleNoteHash::read(&[0u8; 31]).unwrap_err(),
        NoteError::MalformedHash
    );
    assert_eq!(
        MerkleNoteHash::read(&[0u8; 33]).unwrap_err(),
        NoteError::MalformedHash
    );
    assert_eq!(
        MerkleNoteHash::read(&[0xffu8; 32]).unwrap_err(),
        NoteError::MalformedHash
    );
}

#[test]
fn serialize_round_trips_byte_identically() {
    let envelope = sealed_envelope(1234, [5u8; 32]);
    let bytes = envelope.serialize();
    assert_eq!(bytes.len(), ENVELOPE_SIZE);
    let decoded = NativeNoteEncrypted::deserialize(&bytes).unwrap();
    assert!(decoded.equals(&envelope));
    assert_eq!(decoded.serialize(), bytes);
}

#[test]
fn deserialize_rejects_malformed_buffers() {
    assert_eq!(
        NativeNoteEncrypted::deserialize(&[]).unwrap_err(),
        NoteError::MalformedEnvelope
    );
    let truncated = vec![0u8; ENVELOPE_SIZE - 1];
    assert_eq!(
        NativeNoteEncrypted::deserialize(&truncated).unwrap_err(),
        NoteError::MalformedEnvelope
    );
    let invalid_points = [0xffu8; 208];
    assert_eq!(
        NativeNoteEncrypted::deserialize(&invalid_points).unwrap_err(),
        NoteError::MalformedEnvelope
    );
}

#[test]
fn leaf_hash_is_the_note_commitment() {
    let envelope = sealed_envelope(8, [3u8; 32]);
    let leaf = envelope.merkle_hash().write();
    assert_eq!(leaf, vec![0u8; 32]);
}

#[test]
fn decrypt_note_for_owner_recovers_value_and_memo() {
    let memo = [11u8; 32];
    let envelope = sealed_envelope(42, memo);
    let plaintext = envelope.decrypt_note_for_owner(OWNER_IVK_HEX).unwrap();
    assert_eq!(plaintext.len(), NOTE_PLAINTEXT_SIZE);
    assert_eq!(u64::from_le_bytes(plaintext[0..8].try_into().unwrap()), 42);
    assert_eq!(&plaintext[8..40], &memo);
}

#[test]
fn decrypt_note_for_spender_recovers_value_and_memo() {
    let memo = [13u8; 32];
    let envelope = sealed_envelope(77, memo);
    let plaintext = envelope.decrypt_note_for_spender(SPENDER_OVK_HEX).unwrap();
    assert_eq!(u64::from_le_bytes(plaintext[0..8].try_into().unwrap()), 77);
    assert_eq!(&plaintext[8..40], &memo);
}

#[test]
fn decrypt_survives_a_serialization_round_trip() {
    let envelope = sealed_envelope(9000, [1u8; 32]);
    let decoded = NativeNoteEncrypted::deserialize(&envelope.serialize()).unwrap();
    let plaintext = decoded.decrypt_note_for_owner(OWNER_IVK_HEX).unwrap();
    assert_eq!(u64::from_le_bytes(plaintext[0..8].try_into().unwrap()), 9000);
}

#[test]
fn decrypt_note_for_owner_reports_key_mismatch() {
    let envelope = sealed_envelope(42, [0u8; 32]);
    let result = envelope.decrypt_note_for_owner(OTHER_IVK_HEX);
    assert_eq!(result.unwrap_err(), NoteError::KeyMismatch);
}

#[test]
fn decrypt_note_for_spender_reports_key_mismatch() {
    let envelope = sealed_envelope(42, [0u8; 32]);
    let wrong_ovk = "0a0a0a0a0a0a0a0a0a0a0a0a0a0a0a0a0a0a0a0a0a0a0a0a0a0a0a0a0a0a0a0a";
    assert_eq!(
        envelope.decrypt_note_for_spender(wrong_ovk).unwrap_err(),
        NoteError::KeyMismatch
    );
}

#[test]
fn decrypt_rejects_malformed_keys() {
    let envelope = sealed_envelope(42, [0u8; 32]);
    // Odd length, non-hex characters, wrong byte count, non-canonical scalar.
    for bad in [
        "0",
        "zz",
        "0400",
        "ffffffffffffffffffffffffffffffffffffffffffffffffffffffffffffffff",
    ] {
        assert_eq!(
            envelope.decrypt_note_for_owner(bad).unwrap_err(),
            NoteError::MalformedKey
        );
    }
    for bad in ["1", "g0", "09"] {
        assert_eq!(
            envelope.decrypt_note_for_spender(bad).unwrap_err(),
            NoteError::MalformedKey
        );
    }
}

#[test]
fn incoming_key_address_rejects_malformed_hex() {
    assert_eq!(
        incoming_key_address("nope").unwrap_err(),
        NoteError::MalformedKey
    );
    assert!(incoming_key_address(OWNER_IVK_HEX).is_ok());
}

#[test]
fn try_seal_rejects_invalid_commitment_material() {
    let owner = incoming_key_address(OWNER_IVK_HEX).unwrap();
    let plaintext = note_plaintext(1, [0u8; 32]);
    // An invalid owner point is refused.
    let bad_owner = NativeNoteEncrypted::try_seal(
        &plaintext,
        &owner,
        &[0u8; 32],
        &[0xffu8; 32],
        &[9u8; 32],
        &[7u8; 64],
    );
    assert!(bad_owner.is_none());
    // A wrong plaintext length is refused.
    let bad_plaintext = NativeNoteEncrypted::try_seal(
        &[0u8; 8],
        &owner,
        &[0u8; 32],
        &owner,
        &[9u8; 32],
        &[7u8; 64],
    );
    assert!(bad_plaintext.is_none());
}

#[test]
fn error_messages_are_distinct() {
    let messages = [
        NoteError::MalformedEnvelope.message(),
        NoteError::MalformedHash.message(),
        NoteError::MalformedKey.message(),
        NoteError::KeyMismatch.message(),
    ];
    for (i, a) in messages.iter().enumerate() {
        assert!(!a.is_empty());
        for b in messages.iter().skip(i + 1) {
            assert_ne!(a, b);
        }
    }
}
