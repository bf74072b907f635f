//! Canonical byte-level codec underneath the ledger: hexadecimal encoding and
//! decoding, decimal rendering of integers, SHA-256 digests and Ed25519
//! signatures. The hexadecimal and decimal forms are specified exactly; the
//! cryptographic results are named by uninterpreted spec functions and
//! obtained through trusted wrappers around the outside crates.

use ed25519_dalek::Signer;
use ed25519_dalek::Verifier;
use sha2::Digest;
use vstd::prelude::*;

verus! {

// ---------------------------------------------------------------------------
// Hexadecimal encoding and decoding, specified exactly.
// ---------------------------------------------------------------------------

/// The numeric value of a hexadecimal digit; 16 marks a character that is no
/// hexadecimal digit at all.
pub open spec fn hex_char_val(c: char) -> nat {
    if c == '0' { 0 } else if c == '1' { 1 } else if c == '2' { 2 }
    else if c == '3' { 3 } else if c == '4' { 4 } else if c == '5' { 5 }
    else if c == '6' { 6 } else if c == '7' { 7 } else if c == '8' { 8 }
    else if c == '9' { 9 }
    else if c == 'a' || c == 'A' { 10 } else if c == 'b' || c == 'B' { 11 }
    else if c == 'c' || c == 'C' { 12 } else if c == 'd' || c == 'D' { 13 }
    else if c == 'e' || c == 'E' { 14 } else if c == 'f' || c == 'F' { 15 }
    else { 16 }
}

pub open spec fn is_hex_char(c: char) -> bool {
    hex_char_val(c) < 16
}

/// A string that `hex::decode` accepts: even length, hexadecimal digits only.
pub open spec fn is_hex_seq(s: Seq<char>) -> bool {
    s.len() % 2 == 0 && forall|i: int| 0 <= i < s.len() ==> is_hex_char(#[trigger] s[i])
}

/// The lower-case hexadecimal digit for a value below 16.
pub open spec fn hex_digit(n: nat) -> char {
    if n == 0 { '0' } else if n == 1 { '1' } else if n == 2 { '2' }
    else if n == 3 { '3' } else if n == 4 { '4' } else if n == 5 { '5' }
    else if n == 6 { '6' } else if n == 7 { '7' } else if n == 8 { '8' }
    else if n == 9 { '9' } else if n == 10 { 'a' } else if n == 11 { 'b' }
    else if n == 12 { 'c' } else if n == 13 { 'd' } else if n == 14 { 'e' }
    else { 'f' }
}

/// Lower-case hexadecimal rendering: two digits per byte, high nibble first.
pub open spec fn hex_encode_seq(b: Seq<u8>) -> Seq<char> {
    Seq::new(
        2 * b.len(),
        |i: int| if i % 2 == 0 { hex_digit((b[i / 2] as nat) / 16) } else {
            hex_digit((b[i / 2] as nat) % 16)
        },
    )
}

/// The bytes denoted by an even-length string of hexadecimal digits.
pub open spec fn hex_decode_seq(s: Seq<char>) -> Seq<u8> {
    Seq::new(
        s.len() / 2,
        |i: int| (hex_char_val(s[2 * i]) * 16 + hex_char_val(s[2 * i + 1])) as u8,
    )
}

/// Hexadecimal encoding is injective: decoding gives the bytes back, and the
/// encoded form is always a well-formed hexadecimal string.
pub proof fn lemma_hex_round_trip(b: Seq<u8>)
    ensures
        hex_encode_seq(b).len() == 2 * b.len(),
        is_hex_seq(hex_encode_seq(b)),
        hex_decode_seq(hex_encode_seq(b)) == b,
{
    let enc = hex_encode_seq(b);
    assert forall|i: int| 0 <= i < enc.len() implies is_hex_char(#[trigger] enc[i]) by {
        let byte = b[i / 2] as nat;
        assert(byte / 16 < 16);
        assert(byte % 16 < 16);
    }
    assert forall|i: int| 0 <= i < b.len() implies hex_decode_seq(enc)[i] == b[i] by {
        let byte = b[i] as nat;
        assert(enc[2 * i] == hex_digit(byte / 16));
        assert(enc[2 * i + 1] == hex_digit(byte % 16));
        assert(hex_char_val(hex_digit(byte / 16)) == byte / 16);
        assert(hex_char_val(hex_digit(byte % 16)) == byte % 16);
        assert((byte / 16) * 16 + byte % 16 == byte) by (nonlinear_arith);
    }
    assert(hex_decode_seq(enc) =~= b);
}

/// Relies on `hex::encode`: lower-case output, exactly two digits per byte,
/// high nibble first.
#[verifier::external_body]
pub(crate) fn hex_encode(b: &[u8]) -> (r: String)
    ensures
        r@ == hex_encode_seq(b@),
{
    hex::encode(b)
}

/// Relies on `hex::decode`: it succeeds exactly on even-length strings of
/// hexadecimal digits (either case) and returns the denoted bytes.
#[verifier::external_body]
pub(crate) fn hex_decode(s: &str) -> (r: Option<Vec<u8>>)
    ensures
        r is Some <==> is_hex_seq(s@),
        r matches Some(v) ==> v@ == hex_decode_seq(s@),
{
    match hex::decode(s) {
        Ok(v) => Some(v),
        Err(_) => None,
    }
}

// ---------------------------------------------------------------------------
// Decimal rendering of integers, specified exactly.
// ---------------------------------------------------------------------------

/// The decimal digit for a value below 10.
pub open spec fn dec_digit(n: nat) -> char {
    if n == 0 { '0' } else if n == 1 { '1' } else if n == 2 { '2' }
    else if n == 3 { '3' } else if n == 4 { '4' } else if n == 5 { '5' }
    else if n == 6 { '6' } else if n == 7 { '7' } else if n == 8 { '8' }
    else { '9' }
}

/// The decimal digits of a natural number, most significant first, with no
/// sign, padding or leading zeros.
pub open spec fn dec_digits(n: nat) -> Seq<char>
    decreases n,
{
    if n < 10 {
        seq![dec_digit(n)]
    } else {
        dec_digits(n / 10).push(dec_digit(n % 10))
    }
}

/// The decimal form of a signed 64-bit integer: a leading minus sign for
/// negative values, then the digits of the magnitude.
pub open spec fn i64_dec(n: i64) -> Seq<char> {
    if n >= 0 {
        dec_digits(n as nat)
    } else {
        seq!['-'] + dec_digits((-(n as int)) as nat)
    }
}

/// Relies on std's `Display` for `u64`: plain decimal digits, no sign, no
/// padding, no leading zeros.
#[verifier::external_body]
pub(crate) fn u64_to_string(n: u64) -> (r: String)
    ensures
        r@ == dec_digits(n as nat),
{
    format!("{}", n)
}

/// Relies on std's `Display` for `i64`: a minus sign for negative values,
/// then the decimal digits of the magnitude.
#[verifier::external_body]
pub(crate) fn i64_to_string(n: i64) -> (r: String)
    ensures
        r@ == i64_dec(n),
{
    format!("{}", n)
}

// ---------------------------------------------------------------------------
// SHA-256, named.
// ---------------------------------------------------------------------------

/// The SHA-256 digest of the UTF-8 bytes of a character sequence.
pub uninterp spec fn sha256_of(data: Seq<char>) -> Seq<u8>;

/// Relies on `sha2::Sha256`: a 32-byte digest of the input bytes, a function
/// of the input alone.
#[verifier::external_body]
pub(crate) fn sha256_digest(data: &str) -> (r: Vec<u8>)
    ensures
        r@ == sha256_of(data@),
        r@.len() == 32,
{
    sha2::Sha256::digest(data.as_bytes()).to_vec()
}

// ---------------------------------------------------------------------------
// Ed25519, named.
// ---------------------------------------------------------------------------

/// The 32-byte public key derived from a 32-byte Ed25519 secret key.
pub uninterp spec fn ed25519_pubkey_of(secret: Seq<u8>) -> Seq<u8>;

/// The signature produced by signing a message under a secret key; Ed25519
/// signing is deterministic, so this is a function of its arguments.
pub uninterp spec fn ed25519_sign_of(secret: Seq<u8>, msg: Seq<u8>) -> Seq<u8>;

/// Whether 32 bytes decode to a well-formed Ed25519 public key, as
/// `VerifyingKey::from_bytes` decides it.
pub uninterp spec fn ed25519_valid_pubkey(pubkey: Seq<u8>) -> bool;

/// Whether a signature verifies under a public key for a message, as
/// `VerifyingKey::verify` decides it.
pub uninterp spec fn ed25519_verifies(pubkey: Seq<u8>, msg: Seq<u8>, sig: Seq<u8>) -> bool;

/// Relies on `ed25519_dalek::SigningKey::verifying_key`: the public key is a
/// 32-byte value derived from the secret key alone, and re-parsing it with
/// `VerifyingKey::from_bytes` succeeds.
#[verifier::external_body]
pub(crate) fn ed25519_public_key(secret: &[u8]) -> (pk: Vec<u8>)
    requires
        secret@.len() == 32,
    ensures
        pk@ == ed25519_pubkey_of(secret@),
        pk@.len() == 32,
        ed25519_valid_pubkey(pk@),
{
    let bytes: [u8; 32] = secret.try_into().unwrap();
    let sk = ed25519_dalek::SigningKey::from_bytes(&bytes);
    sk.verifying_key().to_bytes().to_vec()
}

/// Relies on `ed25519_dalek::SigningKey::sign` (RFC 8032, deterministic): the
/// 64-byte signature is a function of secret key and message, and it verifies
/// under the signer's public key.
#[verifier::external_body]
pub(crate) fn ed25519_sign(secret: &[u8], msg: &[u8]) -> (sig: Vec<u8>)
    requires
        secret@.len() == 32,
    ensures
        sig@ == ed25519_sign_of(secret@, msg@),
        sig@.len() == 64,
        ed25519_verifies(ed25519_pubkey_of(secret@), msg@, sig@),
{
    let bytes: [u8; 32] = secret.try_into().unwrap();
    let sk = ed25519_dalek::SigningKey::from_bytes(&bytes);
    sk.sign(msg).to_bytes().to_vec()
}

/// Relies on `ed25519_dalek::VerifyingKey::from_bytes` (succeeds exactly on
/// well-formed key bytes) and `VerifyingKey::verify` (accepts exactly the
/// signatures valid under the key; deterministic).
#[verifier::external_body]
pub(crate) fn ed25519_check(pubkey: &[u8], msg: &[u8], sig: &[u8]) -> (r: bool)
    requires
        pubkey@.len() == 32,
        sig@.len() == 64,
    ensures
        r == (ed25519_valid_pubkey(pubkey@) && ed25519_verifies(pubkey@, msg@, sig@)),
{
    let key_bytes: [u8; 32] = pubkey.try_into().unwrap();
    let vk = match ed25519_dalek::VerifyingKey::from_bytes(&key_bytes) {
        Ok(k) => k,
        Err(_) => return false,
    };
    let signature = match ed25519_dalek::Signature::from_slice(sig) {
        Ok(s) => s,
        Err(_) => return false,
    };
    vk.verify(msg, &signature).is_ok()
}

// ---------------------------------------------------------------------------
// Wall-clock time.
// ---------------------------------------------------------------------------

/// Relies on chrono's conversion from the system clock, which handles a
/// host clock before the Unix epoch by returning a negative count instead of
/// failing: seconds since the epoch. Nothing is assumed of the value.
#[verifier::external_body]
pub(crate) fn unix_timestamp() -> i64 {
    chrono::DateTime::<chrono::Utc>::from(std::time::SystemTime::now()).timestamp()
}

} // verus!
