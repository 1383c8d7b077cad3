use vstd::prelude::*;

use crate::bytes_util::{append_bytes, bytes_eq, slice_section, to_vec_copy};
use crate::errors::NoteError;
use crate::hash::{combined_hash, hash_bytes_valid, scalar_valid, MerkleNoteHash,
    MAX_COMBINE_DEPTH};
use crate::keys::{
    aead_open, aead_seal, blake2b_key, diffie_hellman, generator_multiply, hex_decoded,
    incoming_key_wf, key_digest, key_scalar_valid, opened_bytes, outgoing_key_wf,
    parse_incoming_key, parse_outgoing_key, point_check, point_valid, public_of, scalar_from_seed,
    scalar_of_seed, sealed_bytes, shared_secret,
};

verus! {

/// Number of bytes of a plaintext note: an 8-byte value and a 32-byte memo.
pub const NOTE_PLAINTEXT_SIZE: usize = 40;

/// Number of bytes of one sealed blob: the plaintext plus a 16-byte tag.
pub const ENCRYPTED_NOTE_SIZE: usize = 56;

/// Number of bytes of a serialized envelope: three 32-byte curve encodings
/// followed by the owner's and the spender's sealed blobs.
pub const ENVELOPE_SIZE: usize = 208;

/// Whether a byte buffer decodes to an envelope: exact length, and the three
/// leading fields are canonical curve encodings.
pub open spec fn envelope_bytes_valid(b: Seq<u8>) -> bool {
    &&& b.len() == 208
    &&& point_valid(b.subrange(0, 32))
    &&& scalar_valid(b.subrange(32, 64))
    &&& point_valid(b.subrange(64, 96))
}

/// What decrypting an envelope's wire form for its owner recovers, given the
/// 32 bytes of an incoming viewing key.
pub open spec fn owner_opens(wire: Seq<u8>, key: Seq<u8>) -> Option<Seq<u8>> {
    opened_bytes(key_digest(shared_secret(key, wire.subrange(64, 96))), wire.subrange(96, 152))
}

/// What decrypting an envelope's wire form for its spender recovers, given
/// the 32 bytes of an outgoing viewing key.
pub open spec fn spender_opens(wire: Seq<u8>, key: Seq<u8>) -> Option<Seq<u8>> {
    opened_bytes(key_digest(key + wire.subrange(64, 96)), wire.subrange(152, 208))
}

/// One encrypted note as it appears in the note-commitment tree: commitment
/// material on the curve, plus ciphertext that the owner's incoming viewing
/// key or the spender's outgoing viewing key can open. Immutable once built.
#[derive(Debug)]
pub struct NativeNoteEncrypted {
    value_commitment: Vec<u8>,
    note_commitment: Vec<u8>,
    ephemeral_public_key: Vec<u8>,
    encrypted_note: Vec<u8>,
    note_encryption_keys: Vec<u8>,
}

impl NativeNoteEncrypted {
    /// Every envelope holds fixed-width fields whose curve encodings are
    /// canonical and valid.
    #[verifier::type_invariant]
    pub closed spec fn wf(self) -> bool {
        &&& self.value_commitment@.len() == 32
        &&& point_valid(self.value_commitment@)
        &&& self.note_commitment@.len() == 32
        &&& scalar_valid(self.note_commitment@)
        &&& self.ephemeral_public_key@.len() == 32
        &&& point_valid(self.ephemeral_public_key@)
        &&& self.encrypted_note@.len() == 56
        &&& self.note_encryption_keys@.len() == 56
    }

    /// The canonical serialized form: the model of an envelope. Semantic
    /// equality of envelopes is equality of this form, since every field is
    /// kept in its canonical curve encoding.
    pub closed spec fn wire(self) -> Seq<u8> {
        self.value_commitment@ + self.note_commitment@ + self.ephemeral_public_key@
            + self.encrypted_note@ + self.note_encryption_keys@
    }

    /// The 32 bytes of the leaf commitment this envelope contributes to the
    /// tree.
    pub closed spec fn leaf_hash_bytes(self) -> Seq<u8> {
        self.note_commitment@
    }

    /// Parses an envelope from a byte buffer. Fails with `MalformedEnvelope`
    /// exactly when the buffer is truncated, oversized, or one of its curve
    /// fields does not decode; on success the envelope's canonical form is
    /// the input itself.
    pub fn deserialize(bytes: &[u8]) -> (r: Result<NativeNoteEncrypted, NoteError>)
        ensures
            r is Ok <==> envelope_bytes_valid(bytes@),
            (r matches Ok(e) ==> e.wire() == bytes@),
            (r matches Err(e) ==> e == NoteError::MalformedEnvelope),
    {
        if bytes.len() != ENVELOPE_SIZE {
            return Err(NoteError::MalformedEnvelope);
        }
        let value_commitment = slice_section(bytes, 0, 32);
        if !point_check(value_commitment.as_slice()) {
            return Err(NoteError::MalformedEnvelope);
        }
        let note_commitment = slice_section(bytes, 32, 32);
        if !crate::hash::scalar_check(note_commitment.as_slice()) {
            return Err(NoteError::MalformedEnvelope);
        }
        let ephemeral_public_key = slice_section(bytes, 64, 32);
        if !point_check(ephemeral_public_key.as_slice()) {
            return Err(NoteError::MalformedEnvelope);
        }
        let encrypted_note = slice_section(bytes, 96, ENCRYPTED_NOTE_SIZE);
        let note_encryption_keys = slice_section(bytes, 152, ENCRYPTED_NOTE_SIZE);
        let e = NativeNoteEncrypted {
            value_commitment,
            note_commitment,
            ephemeral_public_key,
            encrypted_note,
            note_encryption_keys,
        };
        proof {
            assert(e.wire() =~= bytes@);
        }
        Ok(e)
    }

    /// Serializes the envelope: always its canonical wire form, so decoding
    /// it again reproduces a semantically equal envelope.
    pub fn serialize(&self) -> (r: Vec<u8>)
        ensures
            r@ == self.wire(),
            r@.len() == ENVELOPE_SIZE,
    {
        proof {
            use_type_invariant(self);
        }
        let mut out: Vec<u8> = Vec::new();
        append_bytes(&mut out, self.value_commitment.as_slice());
        append_bytes(&mut out, self.note_commitment.as_slice());
        append_bytes(&mut out, self.ephemeral_public_key.as_slice());
        append_bytes(&mut out, self.encrypted_note.as_slice());
        append_bytes(&mut out, self.note_encryption_keys.as_slice());
        out
    }

    /// Semantic equality: two envelopes are equal exactly when their
    /// canonical forms agree, which holds exactly when every field agrees.
    pub fn equals(&self, other: &NativeNoteEncrypted) -> (r: bool)
        ensures
            r == (self.wire() == other.wire()),
    {
        proof {
            use_type_invariant(self);
            use_type_invariant(other);
            lemma_wire_sections(*self);
            lemma_wire_sections(*other);
        }
        let r = bytes_eq(self.value_commitment.as_slice(), other.value_commitment.as_slice())
            && bytes_eq(self.note_commitment.as_slice(), other.note_commitment.as_slice())
            && bytes_eq(self.ephemeral_public_key.as_slice(), other.ephemeral_public_key.as_slice())
            && bytes_eq(self.encrypted_note.as_slice(), other.encrypted_note.as_slice())
            && bytes_eq(self.note_encryption_keys.as_slice(), other.note_encryption_keys.as_slice());
        proof {
            if r {
                assert(self.wire() =~= other.wire());
            }
        }
        r
    }

    /// The commitment hash that represents this envelope as a tree leaf.
    /// Pure in the envelope's immutable state; never fails.
    pub fn merkle_hash(&self) -> (r: MerkleNoteHash)
        ensures
            r@ == self.leaf_hash_bytes(),
    {
        proof {
            use_type_invariant(self);
        }
        MerkleNoteHash::from_checked_bytes(to_vec_copy(self.note_commitment.as_slice()))
    }

    /// Hashes two serialized child tree values into the serialized parent at
    /// the given depth. Fails with `MalformedHash` exactly when a child is
    /// not a valid 32-byte tree value; the parent is always a valid tree
    /// value, so reading it back succeeds. The depth must lie below
    /// `MAX_COMBINE_DEPTH`, the domain of the hash primitive's depth
    /// personalization.
    pub fn combine_hash(depth: usize, left: &[u8], right: &[u8]) -> (r: Result<Vec<u8>, NoteError>)
        requires
            depth < MAX_COMBINE_DEPTH,
        ensures
            r is Ok <==> hash_bytes_valid(left@) && hash_bytes_valid(right@),
            (r matches Ok(v) ==> v@ == combined_hash(depth as nat, left@, right@)
                && hash_bytes_valid(v@)),
            (r matches Err(e) ==> e == NoteError::MalformedHash),
    {
        let l = match MerkleNoteHash::read(left) {
            Ok(h) => h,
            Err(e) => { return Err(e) },
        };
        let rt = match MerkleNoteHash::read(right) {
            Ok(h) => h,
            Err(e) => { return Err(e) },
        };
        Ok(MerkleNoteHash::combine(depth, &l, &rt).write())
    }

    /// Attempts to recover the plaintext note with the owner's incoming
    /// viewing key, given in hex. Fails with `MalformedKey` exactly when the
    /// key does not parse, and with `KeyMismatch` exactly when the
    /// well-formed key does not open this envelope's owner ciphertext; a
    /// plaintext is returned in no other case.
    pub fn decrypt_note_for_owner(&self, owner_hex_key: &str) -> (r: Result<Vec<u8>, NoteError>)
        ensures
            r is Ok <==> incoming_key_wf(owner_hex_key@) && owner_opens(
                self.wire(),
                hex_decoded(owner_hex_key@),
            ) is Some,
            (r matches Ok(n) ==> Some(n@) == owner_opens(
                self.wire(),
                hex_decoded(owner_hex_key@),
            )),
            !incoming_key_wf(owner_hex_key@) ==> (r matches Err(e) && e
                == NoteError::MalformedKey),
            incoming_key_wf(owner_hex_key@) && owner_opens(
                self.wire(),
                hex_decoded(owner_hex_key@),
            ) is None ==> (r matches Err(e) && e == NoteError::KeyMismatch),
    {
        let key = match parse_incoming_key(owner_hex_key) {
            Ok(k) => k,
            Err(e) => { return Err(e) },
        };
        proof {
            use_type_invariant(self);
            lemma_wire_sections(*self);
        }
        let shared = diffie_hellman(key.as_slice(), self.ephemeral_public_key.as_slice());
        let symmetric_key = blake2b_key(shared.as_slice());
        match aead_open(symmetric_key.as_slice(), self.encrypted_note.as_slice()) {
            Some(note) => Ok(note),
            None => Err(NoteError::KeyMismatch),
        }
    }

    /// Attempts to recover the plaintext note with the spender's outgoing
    /// viewing key, given in hex. Fails with `MalformedKey` exactly when the
    /// key does not parse, and with `KeyMismatch` exactly when the
    /// well-formed key does not open this envelope's spender ciphertext; a
    /// plaintext is returned in no other case.
    pub fn decrypt_note_for_spender(&self, spender_hex_key: &str) -> (r: Result<
        Vec<u8>,
        NoteError,
    >)
        ensures
            r is Ok <==> outgoing_key_wf(spender_hex_key@) && spender_opens(
                self.wire(),
                hex_decoded(spender_hex_key@),
            ) is Some,
            (r matches Ok(n) ==> Some(n@) == spender_opens(
                self.wire(),
                hex_decoded(spender_hex_key@),
            )),
            !outgoing_key_wf(spender_hex_key@) ==> (r matches Err(e) && e
                == NoteError::MalformedKey),
            outgoing_key_wf(spender_hex_key@) && spender_opens(
                self.wire(),
                hex_decoded(spender_hex_key@),
            ) is None ==> (r matches Err(e) && e == NoteError::KeyMismatch),
    {
        let key = match parse_outgoing_key(spender_hex_key) {
            Ok(k) => k,
            Err(e) => { return Err(e) },
        };
        proof {
            use_type_invariant(self);
            lemma_wire_sections(*self);
        }
        let mut key_input = key;
        append_bytes(&mut key_input, self.ephemeral_public_key.as_slice());
        let symmetric_key = blake2b_key(key_input.as_slice());
        match aead_open(symmetric_key.as_slice(), self.note_encryption_keys.as_slice()) {
            Some(note) => Ok(note),
            None => Err(NoteError::KeyMismatch),
        }
    }

    /// Builds the envelope of a plaintext note: seals the plaintext once for
    /// the owner of the given public address and once under the spender's
    /// outgoing viewing key, with a fresh secret drawn from the seed. The
    /// commitment material must already be valid curve encodings;
    /// `try_seal` checks them first.
    pub fn seal(
        note_plaintext: &[u8],
        value_commitment: &[u8],
        note_commitment: &[u8],
        owner_address: &[u8],
        outgoing_key: &[u8],
        secret_seed: &[u8],
    ) -> (r: NativeNoteEncrypted)
        requires
            note_plaintext@.len() == 40,
            value_commitment@.len() == 32,
            point_valid(value_commitment@),
            note_commitment@.len() == 32,
            scalar_valid(note_commitment@),
            owner_address@.len() == 32,
            point_valid(owner_address@),
            outgoing_key@.len() == 32,
            secret_seed@.len() == 64,
        ensures
            r.leaf_hash_bytes() == note_commitment@,
            envelope_bytes_valid(r.wire()),
            r.wire().subrange(0, 32) == value_commitment@,
            r.wire().subrange(32, 64) == note_commitment@,
            r.wire().subrange(64, 96) == public_of(scalar_of_seed(secret_seed@)),
            r.wire().subrange(96, 152) == sealed_bytes(
                key_digest(shared_secret(scalar_of_seed(secret_seed@), owner_address@)),
                note_plaintext@,
            ),
            r.wire().subrange(152, 208) == sealed_bytes(
                key_digest(outgoing_key@ + public_of(scalar_of_seed(secret_seed@))),
                note_plaintext@,
            ),
            forall|ivk: Seq<u8>|
                key_scalar_valid(ivk) && owner_address@ == public_of(ivk) ==> owner_opens(
                    r.wire(),
                    ivk,
                ) == Some(note_plaintext@),
            spender_opens(r.wire(), outgoing_key@) == Some(note_plaintext@),
    {
        let esk = scalar_from_seed(secret_seed);
        let ephemeral_public_key = generator_multiply(esk.as_slice());
        let shared = diffie_hellman(esk.as_slice(), owner_address);
        let owner_key = blake2b_key(shared.as_slice());
        let encrypted_note = aead_seal(owner_key.as_slice(), note_plaintext);
        let mut spender_input = to_vec_copy(outgoing_key);
        append_bytes(&mut spender_input, ephemeral_public_key.as_slice());
        let spender_key = blake2b_key(spender_input.as_slice());
        let note_encryption_keys = aead_seal(spender_key.as_slice(), note_plaintext);
        let e = NativeNoteEncrypted {
            value_commitment: to_vec_copy(value_commitment),
            note_commitment: to_vec_copy(note_commitment),
            ephemeral_public_key,
            encrypted_note,
            note_encryption_keys,
        };
        proof {
            lemma_wire_sections(e);
            assert forall|ivk: Seq<u8>|
                key_scalar_valid(ivk) && owner_address@ == public_of(ivk) implies owner_opens(
                e.wire(),
                ivk,
            ) == Some(note_plaintext@) by {
                assert(shared@ == shared_secret(ivk, public_of(esk@)));
            }
        }
        e
    }

    /// Builds the envelope of a plaintext note after checking every input:
    /// returns `None`, and seals nothing, exactly when a length is wrong or
    /// a curve encoding is invalid.
    pub fn try_seal(
        note_plaintext: &[u8],
        value_commitment: &[u8],
        note_commitment: &[u8],
        owner_address: &[u8],
        outgoing_key: &[u8],
        secret_seed: &[u8],
    ) -> (r: Option<NativeNoteEncrypted>)
        ensures
            r is Some <==> note_plaintext@.len() == 40 && value_commitment@.len() == 32
                && point_valid(value_commitment@) && note_commitment@.len() == 32 && scalar_valid(
                note_commitment@,
            ) && owner_address@.len() == 32 && point_valid(owner_address@)
                && outgoing_key@.len() == 32 && secret_seed@.len() == 64,
            (r matches Some(e) ==> e.leaf_hash_bytes() == note_commitment@ && envelope_bytes_valid(
                e.wire(),
            ) && e.wire().subrange(0, 32) == value_commitment@ && (forall|ivk: Seq<u8>|
                key_scalar_valid(ivk) && owner_address@ == public_of(ivk) ==> owner_opens(
                    e.wire(),
                    ivk,
                ) == Some(note_plaintext@)) && spender_opens(e.wire(), outgoing_key@) == Some(
                note_plaintext@,
            )),
    {
        if note_plaintext.len() != NOTE_PLAINTEXT_SIZE {
            return None;
        }
        if value_commitment.len() != 32 || !point_check(value_commitment) {
            return None;
        }
        if note_commitment.len() != 32 || !crate::hash::scalar_check(note_commitment) {
            return None;
        }
        if owner_address.len() != 32 || !point_check(owner_address) {
            return None;
        }
        if outgoing_key.len() != 32 {
            return None;
        }
        if secret_seed.len() != 64 {
            return None;
        }
        Some(
            NativeNoteEncrypted::seal(
                note_plaintext,
                value_commitment,
                note_commitment,
                owner_address,
                outgoing_key,
                secret_seed,
            ),
        )
    }
}

/// Law (round trip): the canonical serialization of any envelope is a valid
/// envelope buffer, so `deserialize(serialize(e))` succeeds; and since
/// `deserialize` ensures the decoded envelope's canonical form equals the
/// buffer — here `e.wire()` itself — while `equals` reports exactly equality
/// of canonical forms, the decoded envelope is semantically equal to `e`.
pub proof fn lemma_envelope_round_trip(e: NativeNoteEncrypted)
    requires
        e.wf(),
    ensures
        envelope_bytes_valid(e.wire()),
{
    lemma_wire_sections(e);
}

/// The leaf commitment of an envelope is the 32-byte note-commitment section
/// of its canonical form, so `merkle_hash` of a decoded envelope returns
/// exactly those bytes of the decoded buffer.
pub proof fn lemma_leaf_hash_in_wire(e: NativeNoteEncrypted)
    requires
        e.wf(),
    ensures
        e.leaf_hash_bytes() == e.wire().subrange(32, 64),
{
    lemma_wire_sections(e);
}

/// Law (equality reflexivity under re-decode): two envelopes decoded from
/// the same byte buffer have the same canonical form, so `equals` holds of
/// them.
pub proof fn lemma_redecode_equal(b: Seq<u8>, e1: NativeNoteEncrypted, e2: NativeNoteEncrypted)
    requires
        e1.wire() == b,
        e2.wire() == b,
    ensures
        e1.wire() == e2.wire(),
{
}

/// The sections of an envelope's wire form are exactly its fields.
proof fn lemma_wire_sections(e: NativeNoteEncrypted)
    requires
        e.wf(),
    ensures
        e.wire().len() == 208,
        e.wire().subrange(0, 32) == e.value_commitment@,
        e.wire().subrange(32, 64) == e.note_commitment@,
        e.wire().subrange(64, 96) == e.ephemeral_public_key@,
        e.wire().subrange(96, 152) == e.encrypted_note@,
        e.wire().subrange(152, 208) == e.note_encryption_keys@,
{
    assert(e.wire().subrange(0, 32) =~= e.value_commitment@);
    assert(e.wire().subrange(32, 64) =~= e.note_commitment@);
    assert(e.wire().subrange(64, 96) =~= e.ephemeral_public_key@);
    assert(e.wire().subrange(96, 152) =~= e.encrypted_note@);
    assert(e.wire().subrange(152, 208) =~= e.note_encryption_keys@);
}

} // verus!
