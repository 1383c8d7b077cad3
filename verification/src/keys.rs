use vstd::prelude::*;

use crate::errors::NoteError;
use chacha20poly1305::KeyInit;
use chacha20poly1305::aead::Aead;
use group::Group;

verus! {

// --- Hex encoding of viewing keys ---

/// Whether a character is an ASCII hexadecimal digit.
pub open spec fn is_hex_digit(c: char) -> bool {
    (0x30 <= c as u32 && c as u32 <= 0x39) || (0x61 <= c as u32 && c as u32 <= 0x66) || (0x41
        <= c as u32 && c as u32 <= 0x46)
}

/// The numeric value of a hexadecimal digit.
pub open spec fn hex_digit_val(c: char) -> int {
    if 0x30 <= c as u32 && c as u32 <= 0x39 {
        c as u32 - 0x30
    } else if 0x61 <= c as u32 && c as u32 <= 0x66 {
        c as u32 - 0x61 + 10
    } else if 0x41 <= c as u32 && c as u32 <= 0x46 {
        c as u32 - 0x41 + 10
    } else {
        0
    }
}

/// Whether a string is a well-formed hex encoding: even length, hex digits only.
pub open spec fn hex_ok(s: Seq<char>) -> bool {
    s.len() % 2 == 0 && forall|i: int| 0 <= i < s.len() ==> is_hex_digit(#[trigger] s[i])
}

/// The bytes a hex string encodes, one byte per digit pair, high nibble first.
pub open spec fn hex_decoded(s: Seq<char>) -> Seq<u8>
    decreases s.len(),
{
    if s.len() < 2 {
        seq![]
    } else {
        seq![(hex_digit_val(s[0]) * 16 + hex_digit_val(s[1])) as u8] + hex_decoded(s.skip(2))
    }
}

/// Relies on `hex::decode`: it succeeds exactly on even-length strings of
/// ASCII hex digits (upper or lower case) and returns one byte per digit
/// pair, high nibble first.
#[verifier::external_body]
fn hex_decode_chars(s: &str) -> (r: Option<Vec<u8>>)
    ensures
        r is Some <==> hex_ok(s@),
        r matches Some(v) ==> v@ == hex_decoded(s@),
{
    hex::decode(s).ok()
}

// --- Curve material ---

/// Whether 32 bytes are the canonical encoding of a point on the curve.
pub uninterp spec fn point_valid(b: Seq<u8>) -> bool;

/// Relies on `jubjub::AffinePoint::from_bytes`: it accepts exactly the
/// canonical encodings of points on the curve, as a function of the bytes
/// alone.
#[verifier::external_body]
pub(crate) fn point_check(b: &[u8]) -> (r: bool)
    requires
        b@.len() == 32,
    ensures
        r == point_valid(b@),
{
    let arr: [u8; 32] = b.try_into().unwrap();
    bool::from(jubjub::AffinePoint::from_bytes(arr).is_some())
}

/// Whether 32 bytes are the canonical encoding of a scalar of the curve's
/// prime-order subgroup, the form a secret key takes.
pub uninterp spec fn key_scalar_valid(b: Seq<u8>) -> bool;

/// Relies on `jubjub::Fr::from_bytes`: it accepts exactly the canonical
/// little-endian encodings of the curve's scalar field, as a function of the
/// bytes alone.
#[verifier::external_body]
pub(crate) fn key_scalar_check(b: &[u8]) -> (r: bool)
    requires
        b@.len() == 32,
    ensures
        r == key_scalar_valid(b@),
{
    let arr: [u8; 32] = b.try_into().unwrap();
    bool::from(jubjub::Fr::from_bytes(&arr).is_some())
}

/// The canonical scalar that a 64-byte seed reduces to.
pub uninterp spec fn scalar_of_seed(seed: Seq<u8>) -> Seq<u8>;

/// Relies on `jubjub::Fr::from_bytes_wide`: it reduces 64 little-endian bytes
/// into a scalar, as a function of the seed alone, and `to_bytes` of the
/// result is a canonical scalar encoding.
#[verifier::external_body]
pub(crate) fn scalar_from_seed(seed: &[u8]) -> (r: Vec<u8>)
    requires
        seed@.len() == 64,
    ensures
        r@ == scalar_of_seed(seed@),
        r@.len() == 32,
        key_scalar_valid(r@),
{
    let arr: [u8; 64] = seed.try_into().unwrap();
    jubjub::Fr::from_bytes_wide(&arr).to_bytes().to_vec()
}

/// The public point of a secret scalar: the subgroup generator multiplied by
/// the scalar, in canonical encoding.
pub uninterp spec fn public_of(key: Seq<u8>) -> Seq<u8>;

/// Relies on jubjub's scalar multiplication of the subgroup generator: the
/// result depends on the scalar alone, and its encoding is a canonical point.
#[verifier::external_body]
pub(crate) fn generator_multiply(key: &[u8]) -> (r: Vec<u8>)
    requires
        key@.len() == 32,
        key_scalar_valid(key@),
    ensures
        r@ == public_of(key@),
        r@.len() == 32,
        point_valid(r@),
{
    let arr: [u8; 32] = key.try_into().unwrap();
    let k = jubjub::Fr::from_bytes(&arr).unwrap();
    let g = jubjub::SubgroupPoint::generator();
    let p = jubjub::ExtendedPoint::from(&g * &k);
    jubjub::AffinePoint::from(&p).to_bytes().to_vec()
}

/// The Diffie–Hellman shared point of a secret scalar and a public point, in
/// canonical encoding.
pub uninterp spec fn shared_secret(key: Seq<u8>, point: Seq<u8>) -> Seq<u8>;

/// Relies on jubjub's scalar multiplication: the result depends on the scalar
/// and the point alone. By the group law, a·(b·G) equals b·(a·G), so each
/// party's secret applied to the other's public point yields the same shared
/// point; the second clause states that law for this result.
#[verifier::external_body]
pub(crate) fn diffie_hellman(key: &[u8], point: &[u8]) -> (r: Vec<u8>)
    requires
        key@.len() == 32,
        key_scalar_valid(key@),
        point@.len() == 32,
        point_valid(point@),
    ensures
        r@ == shared_secret(key@, point@),
        forall|other: Seq<u8>|
            key_scalar_valid(other) && point@ == public_of(other) ==> r@ == shared_secret(
                other,
                public_of(key@),
            ),
{
    let karr: [u8; 32] = key.try_into().unwrap();
    let parr: [u8; 32] = point.try_into().unwrap();
    let k = jubjub::Fr::from_bytes(&karr).unwrap();
    let p = jubjub::AffinePoint::from_bytes(parr).unwrap();
    let s = &jubjub::ExtendedPoint::from(p) * &k;
    jubjub::AffinePoint::from(&s).to_bytes().to_vec()
}

// --- Symmetric layer ---

/// The 32-byte key digest of the given input bytes.
pub uninterp spec fn key_digest(data: Seq<u8>) -> Seq<u8>;

/// Relies on `blake2b_simd`: a 32-byte personalized BLAKE2b digest, a
/// function of the input bytes alone.
#[verifier::external_body]
pub(crate) fn blake2b_key(data: &[u8]) -> (r: Vec<u8>)
    ensures
        r@ == key_digest(data@),
        r@.len() == 32,
{
    blake2b_simd::Params::new().hash_length(32).personal(b"nt_envelope_kdf").hash(
        data,
    ).as_bytes().to_vec()
}

/// The ciphertext that sealing a plaintext under a 32-byte key produces.
pub uninterp spec fn sealed_bytes(key: Seq<u8>, plaintext: Seq<u8>) -> Seq<u8>;

/// What opening a ciphertext under a 32-byte key recovers, if anything.
pub uninterp spec fn opened_bytes(key: Seq<u8>, ciphertext: Seq<u8>) -> Option<Seq<u8>>;

/// Relies on chacha20poly1305's `encrypt` with an all-zero nonce (every key
/// here is derived fresh per envelope): a deterministic function of key and
/// plaintext; the output is the plaintext length plus a 16-byte tag, and the
/// same scheme's `decrypt` opens it back to exactly the plaintext.
#[verifier::external_body]
pub(crate) fn aead_seal(key: &[u8], plaintext: &[u8]) -> (r: Vec<u8>)
    requires
        key@.len() == 32,
        plaintext@.len() <= 0xffff,
    ensures
        r@ == sealed_bytes(key@, plaintext@),
        r@.len() == plaintext@.len() + 16,
        opened_bytes(key@, r@) == Some(plaintext@),
{
    let cipher = chacha20poly1305::ChaCha20Poly1305::new_from_slice(key).unwrap();
    let nonce = chacha20poly1305::Nonce::default();
    cipher.encrypt(&nonce, plaintext).unwrap()
}

/// Relies on chacha20poly1305's `decrypt` with an all-zero nonce: it returns
/// a plaintext for authentic ciphertexts and fails on all others, as a
/// function of key and ciphertext alone.
#[verifier::external_body]
pub(crate) fn aead_open(key: &[u8], ciphertext: &[u8]) -> (r: Option<Vec<u8>>)
    requires
        key@.len() == 32,
    ensures
        r is Some <==> opened_bytes(key@, ciphertext@) is Some,
        r matches Some(p) ==> opened_bytes(key@, ciphertext@) == Some(p@),
{
    let cipher = chacha20poly1305::ChaCha20Poly1305::new_from_slice(key).unwrap();
    let nonce = chacha20poly1305::Nonce::default();
    cipher.decrypt(&nonce, ciphertext).ok()
}

// --- Viewing keys ---

/// Whether a hex string parses into a valid incoming viewing key: 64 hex
/// digits whose bytes form a canonical scalar encoding.
pub open spec fn incoming_key_wf(s: Seq<char>) -> bool {
    hex_ok(s) && hex_decoded(s).len() == 32 && key_scalar_valid(hex_decoded(s))
}

/// Whether a hex string parses into a valid outgoing viewing key: 64 hex
/// digits; the 32 bytes themselves are unconstrained symmetric material.
pub open spec fn outgoing_key_wf(s: Seq<char>) -> bool {
    hex_ok(s) && hex_decoded(s).len() == 32
}

/// Parses an incoming viewing key from its hex form. Fails with
/// `MalformedKey` exactly when the string is not 64 hex digits encoding a
/// canonical scalar.
pub fn parse_incoming_key(hex_key: &str) -> (r: Result<Vec<u8>, NoteError>)
    ensures
        r is Ok <==> incoming_key_wf(hex_key@),
        r matches Ok(k) ==> k@ == hex_decoded(hex_key@),
        r matches Err(e) ==> e == NoteError::MalformedKey,
{
    match hex_decode_chars(hex_key) {
        None => Err(NoteError::MalformedKey),
        Some(bytes) => {
            if bytes.len() != 32 {
                return Err(NoteError::MalformedKey);
            }
            if !key_scalar_check(bytes.as_slice()) {
                return Err(NoteError::MalformedKey);
            }
            Ok(bytes)
        },
    }
}

/// Parses an outgoing viewing key from its hex form. Fails with
/// `MalformedKey` exactly when the string is not 64 hex digits.
pub fn parse_outgoing_key(hex_key: &str) -> (r: Result<Vec<u8>, NoteError>)
    ensures
        r is Ok <==> outgoing_key_wf(hex_key@),
        r matches Ok(k) ==> k@ == hex_decoded(hex_key@),
        r matches Err(e) ==> e == NoteError::MalformedKey,
{
    match hex_decode_chars(hex_key) {
        None => Err(NoteError::MalformedKey),
        Some(bytes) => {
            if bytes.len() != 32 {
                return Err(NoteError::MalformedKey);
            }
            Ok(bytes)
        },
    }
}

/// The public address controlled by an incoming viewing key given in hex.
/// Fails with `MalformedKey` exactly when the key itself is malformed.
pub fn incoming_key_address(hex_key: &str) -> (r: Result<Vec<u8>, NoteError>)
    ensures
        r is Ok <==> incoming_key_wf(hex_key@),
        r matches Ok(a) ==> a@ == public_of(hex_decoded(hex_key@)) && a@.len() == 32
            && point_valid(a@),
        r matches Err(e) ==> e == NoteError::MalformedKey,
{
    match parse_incoming_key(hex_key) {
        Err(e) => Err(e),
        Ok(key) => Ok(generator_multiply(key.as_slice())),
    }
}

} // verus!
