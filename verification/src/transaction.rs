//! A signed transfer record. Its canonical encoding is the plain
//! concatenation of sender, receiver and the decimal form of the amount; the
//! transaction hash is the SHA-256 digest of that encoding, and the signature
//! is Ed25519 over the hash, carried as lower-case hexadecimal.

use crate::codec::ed25519_check;
use crate::codec::ed25519_public_key;
use crate::codec::ed25519_pubkey_of;
use crate::codec::ed25519_sign;
use crate::codec::ed25519_sign_of;
use crate::codec::ed25519_valid_pubkey;
use crate::codec::ed25519_verifies;
use crate::codec::hex_decode;
use crate::codec::hex_decode_seq;
use crate::codec::hex_encode;
use crate::codec::hex_encode_seq;
use crate::codec::is_hex_seq;
use crate::codec::lemma_hex_round_trip;
use crate::codec::sha256_digest;
use crate::codec::sha256_of;
use vstd::prelude::*;
use vstd::string::StringExecFns;

verus! {

/// A transfer of some quantity from `sender` to `receiver`.
///
/// `sender` is the hex-encoded 32-byte Ed25519 public key of the payer, or
/// the literal sentinel `"System"` for issuance records that are trusted by
/// convention. `amount` carries the quantity in its decimal string form,
/// which is all the ledger ever reads of it. `signature` is the hex-encoded
/// 64-byte Ed25519 signature, absent until the transaction is signed.
#[derive(Clone, Debug)]
pub struct Transaction {
    pub sender: String,
    pub receiver: String,
    pub amount: String,
    pub signature: Option<String>,
}

/// The canonical encoding that is hashed and signed: the fields run together
/// with no delimiter or length prefix, exactly as the ledger has always
/// hashed them. Distinct field splits can therefore collide; that ambiguity
/// is kept deliberately for compatibility.
pub open spec fn tx_data(tx: Transaction) -> Seq<char> {
    tx.sender@ + tx.receiver@ + tx.amount@
}

/// The transaction hash: SHA-256 of the canonical encoding.
pub open spec fn tx_hash(tx: Transaction) -> Seq<u8> {
    sha256_of(tx_data(tx))
}

/// The transaction hash in lower-case hexadecimal, as the Merkle leaves
/// carry it.
pub open spec fn tx_hash_hex(tx: Transaction) -> Seq<char> {
    hex_encode_seq(tx_hash(tx))
}

/// When a transaction counts as valid: a `"System"` sender is trusted by
/// convention; any other transaction must carry a signature, its sender must
/// decode to a well-formed 32-byte public key, the signature must decode to
/// 64 bytes, and the signature must verify over the transaction hash.
pub open spec fn tx_valid(tx: Transaction) -> bool {
    ||| tx.sender@ == "System"@
    ||| match tx.signature {
        Some(sig) => {
            &&& is_hex_seq(tx.sender@)
            &&& hex_decode_seq(tx.sender@).len() == 32
            &&& ed25519_valid_pubkey(hex_decode_seq(tx.sender@))
            &&& is_hex_seq(sig@)
            &&& hex_decode_seq(sig@).len() == 64
            &&& ed25519_verifies(hex_decode_seq(tx.sender@), tx_hash(tx), hex_decode_seq(sig@))
        },
        None => false,
    }
}

/// A 32-byte secret key whose derived public key is well-formed, as every
/// key produced by the signing machinery is.
pub open spec fn key_pair_valid(secret: Seq<u8>) -> bool {
    &&& secret.len() == 32
    &&& ed25519_pubkey_of(secret).len() == 32
    &&& ed25519_valid_pubkey(ed25519_pubkey_of(secret))
}

/// The hex-encoded public key for a secret key: the value a transaction's
/// `sender` field must hold for signatures under that key to verify.
pub fn public_key_hex(secret: &[u8]) -> (r: String)
    requires
        secret@.len() == 32,
    ensures
        r@ == hex_encode_seq(ed25519_pubkey_of(secret@)),
        key_pair_valid(secret@),
{
    let pk = ed25519_public_key(secret);
    hex_encode(pk.as_slice())
}

impl Transaction {
    /// The 32-byte transaction hash that is signed and that the Merkle tree
    /// aggregates.
    pub fn calculate_hash(&self) -> (r: Vec<u8>)
        ensures
            r@ == tx_hash(*self),
            r@.len() == 32,
    {
        let mut data = self.sender.clone();
        data.append(self.receiver.as_str());
        data.append(self.amount.as_str());
        sha256_digest(data.as_str())
    }

    /// Sign the transaction hash with the given 32-byte secret key and store
    /// the signature as lower-case hexadecimal.
    ///
    /// When the sender field holds the hex-encoded public key of the same
    /// secret key, the signed transaction is valid: signing then verifying
    /// succeeds.
    pub fn sign(&mut self, secret: &[u8])
        requires
            secret@.len() == 32,
        ensures
            final(self).sender == old(self).sender,
            final(self).receiver == old(self).receiver,
            final(self).amount == old(self).amount,
            final(self).signature matches Some(sig)
                && sig@ == hex_encode_seq(ed25519_sign_of(secret@, tx_hash(*old(self)))),
            key_pair_valid(secret@)
                && old(self).sender@ == hex_encode_seq(ed25519_pubkey_of(secret@))
                ==> tx_valid(*final(self)),
    {
        let message = self.calculate_hash();
        let sig = ed25519_sign(secret, message.as_slice());
        let sig_hex = hex_encode(sig.as_slice());
        proof {
            lemma_hex_round_trip(sig@);
            lemma_hex_round_trip(ed25519_pubkey_of(secret@));
        }
        self.signature = Some(sig_hex);
    }

    /// Whether the transaction is valid, exactly as `tx_valid` states it: a
    /// pure predicate that never fails, whatever the fields hold. Malformed
    /// hexadecimal anywhere, a missing signature, an ill-formed key or a
    /// failed verification all answer `false`.
    pub fn is_valid(&self) -> (r: bool)
        ensures
            r == tx_valid(*self),
            self.sender@ == "System"@ ==> r,
            self.sender@ != "System"@ && !is_hex_seq(self.sender@) ==> !r,
            self.sender@ != "System"@ && self.signature is None ==> !r,
            self.sender@ != "System"@ && (self.signature matches Some(sig) && !is_hex_seq(sig@))
                ==> !r,
    {
        let system = String::from_str("System");
        if self.sender.eq(&system) {
            return true;
        }
        let sig_hex = match &self.signature {
            Some(s) => s,
            None => { return false; },
        };
        let pubkey = match hex_decode(self.sender.as_str()) {
            Some(v) => v,
            None => { return false; },
        };
        if pubkey.len() != 32 {
            return false;
        }
        let sig = match hex_decode(sig_hex.as_str()) {
            Some(v) => v,
            None => { return false; },
        };
        if sig.len() != 64 {
            return false;
        }
        let message = self.calculate_hash();
        ed25519_check(pubkey.as_slice(), message.as_slice(), sig.as_slice())
    }
}

} // verus!
