use vstd::prelude::*;

use crate::bytes_util::to_vec_copy;
use crate::errors::NoteError;

verus! {

/// Number of bytes in a serialized Merkle tree value.
pub const HASH_SIZE: usize = 32;

/// Whether 32 bytes are the canonical encoding of a curve-derived tree value.
pub uninterp spec fn scalar_valid(b: Seq<u8>) -> bool;

/// Relies on `bls12_381::Scalar::from_bytes`: it accepts exactly the
/// canonical little-endian encodings of field elements, and its success
/// depends on the bytes alone.
#[verifier::external_body]
pub(crate) fn scalar_check(b: &[u8]) -> (r: bool)
    requires
        b@.len() == 32,
    ensures
        r == scalar_valid(b@),
{
    let arr: [u8; 32] = b.try_into().unwrap();
    bool::from(bls12_381::Scalar::from_bytes(&arr).is_some())
}

/// The combiner's depth personalization encodes the depth in six bits, so
/// combining is defined only for depths below this bound; a deeper depth
/// would abort inside the hash primitive.
pub const MAX_COMBINE_DEPTH: usize = 63;

/// The parent tree value obtained by combining two children at a tree depth.
pub uninterp spec fn combined_hash(depth: nat, left: Seq<u8>, right: Seq<u8>) -> Seq<u8>;

/// Relies on `sapling_crypto::merkle_hash`: the Pedersen hash of the two
/// children, domain-separated by the tree depth; a pure function of its three
/// arguments, defined for depths below `MAX_COMBINE_DEPTH` (its depth
/// personalization asserts that bound). Its result is `to_repr` of a field
/// element, so it is always the canonical 32-byte encoding of a valid tree
/// value.
#[verifier::external_body]
fn merkle_hash_combine(depth: usize, left: &[u8], right: &[u8]) -> (r: Vec<u8>)
    requires
        depth < MAX_COMBINE_DEPTH,
        left@.len() == 32,
        right@.len() == 32,
    ensures
        r@ == combined_hash(depth as nat, left@, right@),
        r@.len() == 32,
        scalar_valid(r@),
{
    let l: [u8; 32] = left.try_into().unwrap();
    let rt: [u8; 32] = right.try_into().unwrap();
    sapling_crypto::merkle_hash(depth, &l, &rt).to_vec()
}

/// Whether a byte buffer reads as a tree value: exactly 32 bytes that form a
/// canonical field-element encoding.
pub open spec fn hash_bytes_valid(b: Seq<u8>) -> bool {
    b.len() == 32 && scalar_valid(b)
}

/// What `MerkleNoteHash::read` yields, over byte sequences.
pub open spec fn hash_read_model(b: Seq<u8>) -> Result<Seq<u8>, NoteError> {
    if hash_bytes_valid(b) {
        Ok(b)
    } else {
        Err(NoteError::MalformedHash)
    }
}

/// What `MerkleNoteHash::write` yields, over the value's 32 canonical bytes.
pub open spec fn hash_write_model(h: Seq<u8>) -> Seq<u8> {
    h
}

/// A 32-byte value of the note-commitment tree: a leaf commitment or an
/// internal Merkle node. Immutable and freely copyable once read or derived.
#[derive(Debug)]
pub struct MerkleNoteHash {
    bytes: Vec<u8>,
}

impl View for MerkleNoteHash {
    type V = Seq<u8>;

    /// The canonical 32-byte serialization of this value.
    closed spec fn view(&self) -> Seq<u8> {
        self.bytes@
    }
}

impl MerkleNoteHash {
    /// Every tree value holds exactly 32 bytes that decode to a valid
    /// curve-derived value.
    #[verifier::type_invariant]
    pub closed spec fn wf(self) -> bool {
        hash_bytes_valid(self.bytes@)
    }

    /// Wraps 32 bytes already known to be a valid tree value.
    pub(crate) fn from_checked_bytes(bytes: Vec<u8>) -> (r: MerkleNoteHash)
        requires
            hash_bytes_valid(bytes@),
        ensures
            r@ == bytes@,
    {
        MerkleNoteHash { bytes }
    }

    /// Reads a tree value from a byte buffer. Fails with `MalformedHash` when
    /// the buffer is not exactly 32 bytes or the bytes do not decode to a
    /// valid value; on success the value keeps the input bytes exactly.
    pub fn read(bytes: &[u8]) -> (r: Result<MerkleNoteHash, NoteError>)
        ensures
            r is Ok <==> hash_read_model(bytes@) is Ok,
            (r matches Ok(h) ==> hash_read_model(bytes@) matches Ok(m) && h@ == m),
            (r matches Err(e) ==> hash_read_model(bytes@) matches Err(m) && e == m),
    {
        if bytes.len() != HASH_SIZE {
            return Err(NoteError::MalformedHash);
        }
        if !scalar_check(bytes) {
            return Err(NoteError::MalformedHash);
        }
        Ok(MerkleNoteHash { bytes: to_vec_copy(bytes) })
    }

    /// Serializes this value: always exactly its 32 canonical bytes.
    pub fn write(&self) -> (r: Vec<u8>)
        ensures
            r@ == hash_write_model(self@),
            r@.len() == 32,
    {
        proof {
            use_type_invariant(self);
        }
        to_vec_copy(self.bytes.as_slice())
    }

    /// Combines two children of the tree into their parent value.
    /// Deterministic, and total in the children: the result is a function of
    /// the depth and the two children alone, with the depth separating the
    /// hash domains of the tree's levels. The depth must lie below
    /// `MAX_COMBINE_DEPTH`, the domain of the hash primitive's depth
    /// personalization. The parent is itself a valid tree value, so reading
    /// its serialization back always succeeds.
    pub fn combine(depth: usize, left: &MerkleNoteHash, right: &MerkleNoteHash) -> (r:
        MerkleNoteHash)
        requires
            depth < MAX_COMBINE_DEPTH,
        ensures
            r@ == combined_hash(depth as nat, left@, right@),
            hash_bytes_valid(r@),
    {
        proof {
            use_type_invariant(left);
            use_type_invariant(right);
        }
        let bytes = merkle_hash_combine(depth, left.bytes.as_slice(), right.bytes.as_slice());
        MerkleNoteHash { bytes }
    }
}

/// Law: for any valid 32-byte input, writing the value read from it returns
/// exactly those 32 bytes — `write` after `read` is the identity on valid
/// encodings, so a tree value never changes size or content through a
/// serialization round trip.
pub proof fn lemma_hash_round_trip(b: Seq<u8>)
    requires
        hash_bytes_valid(b),
    ensures
        hash_read_model(b) is Ok,
        hash_write_model(hash_read_model(b)->Ok_0) == b,
        hash_write_model(hash_read_model(b)->Ok_0).len() == 32,
{
}

/// Law (combiner determinism): combining is a pure function of the depth
/// and the two children, so any two combination results for the same triple
/// agree — `MerkleNoteHash::combine` ensures each result is the one value
/// `combined_hash(depth, left, right)`.
pub proof fn lemma_combine_deterministic(
    depth: nat,
    left: Seq<u8>,
    right: Seq<u8>,
    first: Seq<u8>,
    second: Seq<u8>,
)
    requires
        first == combined_hash(depth, left, right),
        second == combined_hash(depth, left, right),
    ensures
        first == second,
{
}

} // verus!
