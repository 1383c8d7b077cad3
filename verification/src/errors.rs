use vstd::prelude::*;

verus! {

/// Every failure an operation of this crate can report. Each is local to one
/// call; none is fatal, and a key mismatch in particular is an expected
/// outcome while scanning many envelopes with many keys.
#[derive(Clone, Copy, Debug, PartialEq, Eq, Structural)]
pub enum NoteError {
    /// A byte buffer does not decode to a valid encrypted note envelope.
    MalformedEnvelope,
    /// A byte buffer is not a valid 32-byte Merkle tree value.
    MalformedHash,
    /// A hex string does not parse into a valid viewing key.
    MalformedKey,
    /// A well-formed key does not correspond to the envelope's ciphertext.
    KeyMismatch,
}

impl NoteError {
    /// A short description, for callers that need to display the error.
    pub fn message(&self) -> (r: &'static str)
        ensures
            r@.len() > 0,
            self is MalformedEnvelope ==> r@ == "malformed envelope"@,
            self is MalformedHash ==> r@ == "malformed hash"@,
            self is MalformedKey ==> r@ == "malformed key"@,
            self is KeyMismatch ==> r@ == "key is not associated with note"@,
    {
        proof {
            reveal_strlit("malformed envelope");
            reveal_strlit("malformed hash");
            reveal_strlit("malformed key");
            reveal_strlit("key is not associated with note");
        }
        match self {
            NoteError::MalformedEnvelope => "malformed envelope",
            NoteError::MalformedHash => "malformed hash",
            NoteError::MalformedKey => "malformed key",
            NoteError::KeyMismatch => "key is not associated with note",
        }
    }
}

} // verus!
