//! Encrypted note envelopes for a shielded note-commitment tree.
//!
//! An envelope is the on-chain, encrypted form of a shielded note: curve
//! commitment material together with ciphertext that the note's owner (via an
//! incoming viewing key) or its spender (via an outgoing viewing key) can open
//! into the plaintext note. The crate also provides the 32-byte Merkle node
//! value used by the commitment tree and the depth-separated combiner that
//! derives a parent node from its two children.
//!
//! The combiner is the standard Sapling Pedersen combiner, bit-exact with
//! other implementations of that tree. The envelope's wire layout and its
//! viewing-key derivation are this crate's own scheme, built directly on the
//! curve, digest and authenticated-cipher primitives; they are not a wire
//! format shared with any other library.

pub mod bytes_util;
pub mod envelope;
pub mod errors;
pub mod hash;
pub mod keys;

pub use envelope::NativeNoteEncrypted;
pub use errors::NoteError;
pub use hash::MerkleNoteHash;
