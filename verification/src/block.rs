//! A sealed batch of transactions. The header is hashed over the plain
//! concatenation of its fields' decimal and string forms; sealing searches
//! for a nonce whose header hash begins with the required run of `'0'`
//! characters.

use crate::codec::dec_digits;
use crate::codec::hex_encode;
use crate::codec::hex_encode_seq;
use crate::codec::i64_dec;
use crate::codec::i64_to_string;
use crate::codec::sha256_digest;
use crate::codec::sha256_of;
use crate::codec::u64_to_string;
use crate::codec::unix_timestamp;
use crate::merkle::calculate_merkle_root;
use crate::merkle::merkle_root_spec;
use crate::transaction::Transaction;
use vstd::prelude::*;
use vstd::string::StrSliceExecFns;
use vstd::string::StringExecFns;

verus! {

/// The sealed header of a block.
#[derive(Clone, Debug)]
pub struct BlockHeader {
    /// Position in the chain, sequential from 0.
    pub index: u32,
    /// Seconds since the Unix epoch, captured at block construction.
    pub timestamp: i64,
    /// Merkle root of the block's transactions, or `"0"` when it has none.
    pub merkle_root: String,
    /// Hash of the preceding block, or `"0"` for the genesis block.
    pub previous_hash: String,
    /// The proof-of-work counter, incremented during sealing.
    pub nonce: u64,
}

/// The canonical header encoding from the fields' plain forms: decimal index,
/// decimal timestamp, Merkle root, previous hash and decimal nonce, run
/// together with no delimiter.
pub open spec fn header_data_parts(
    index: nat,
    timestamp: i64,
    merkle_root: Seq<char>,
    previous_hash: Seq<char>,
    nonce: u64,
) -> Seq<char> {
    dec_digits(index) + i64_dec(timestamp) + merkle_root + previous_hash + dec_digits(
        nonce as nat,
    )
}

/// The canonical encoding of a header value.
pub open spec fn header_data(h: BlockHeader) -> Seq<char> {
    header_data_parts(h.index as nat, h.timestamp, h.merkle_root@, h.previous_hash@, h.nonce)
}

/// The header hash: SHA-256 of the canonical encoding, in lower-case
/// hexadecimal.
pub open spec fn header_hash(h: BlockHeader) -> Seq<char> {
    hex_encode_seq(sha256_of(header_data(h)))
}

/// The same header with another nonce.
pub open spec fn header_with_nonce(h: BlockHeader, nonce: u64) -> BlockHeader {
    BlockHeader { nonce, ..h }
}

/// Whether a hash meets a difficulty target: it is long enough and its first
/// `d` characters are all `'0'`.
pub open spec fn hash_meets_difficulty(hash: Seq<char>, d: nat) -> bool {
    d <= hash.len() && forall|i: int| 0 <= i < d ==> hash[i] == '0'
}

/// Whether no nonce at all gives a header with these fields a hash that
/// meets the difficulty: the condition under which sealing is hopeless.
pub open spec fn block_unsealable_at(
    index: nat,
    timestamp: i64,
    merkle_root: Seq<char>,
    previous_hash: Seq<char>,
    difficulty: nat,
) -> bool {
    forall|n: u64|
        !hash_meets_difficulty(
            #[trigger] hex_encode_seq(
                sha256_of(header_data_parts(index, timestamp, merkle_root, previous_hash, n)),
            ),
            difficulty,
        )
}

/// Whether the first `d` characters of a hash are all `'0'`; answers `false`
/// rather than failing when the hash is shorter than `d`.
pub(crate) fn check_prefix(hash: &str, d: usize) -> (r: bool)
    ensures
        r == hash_meets_difficulty(hash@, d as nat),
{
    if d > hash.unicode_len() {
        return false;
    }
    let mut i: usize = 0;
    while i < d
        invariant
            i <= d,
            d <= hash@.len(),
            forall|j: int| 0 <= j < i ==> hash@[j] == '0',
        decreases d - i,
    {
        if hash.get_char(i) != '0' {
            return false;
        }
        i = i + 1;
    }
    true
}

impl BlockHeader {
    /// The header hash under the current nonce, exactly as `header_hash`
    /// states it.
    pub fn calculate_hash(&self) -> (r: String)
        ensures
            r@ == header_hash(*self),
            r@.len() == 64,
    {
        let mut data = u64_to_string(self.index as u64);
        data.append(i64_to_string(self.timestamp).as_str());
        data.append(self.merkle_root.as_str());
        data.append(self.previous_hash.as_str());
        data.append(u64_to_string(self.nonce).as_str());
        assert(data@ =~= header_data(*self));
        let digest = sha256_digest(data.as_str());
        hex_encode(digest.as_slice())
    }
}

/// A block: its header, the cached header hash under the current nonce, and
/// the finalized ordered transaction list.
#[derive(Clone, Debug)]
pub struct Block {
    pub header: BlockHeader,
    pub hash: String,
    pub transactions: Vec<Transaction>,
}

impl Block {
    /// Build an unsealed block: the timestamp is read from the wall clock,
    /// the Merkle root is computed over the transactions, the nonce starts at
    /// 0 and the cached hash is the hash of the fresh header.
    pub fn new(index: u32, transactions: Vec<Transaction>, previous_hash: String) -> (r: Block)
        ensures
            r.header.index == index,
            r.header.merkle_root@ == merkle_root_spec(transactions@),
            r.header.previous_hash == previous_hash,
            r.header.nonce == 0,
            r.transactions == transactions,
            r.hash@ == header_hash(r.header),
            r.hash@.len() == 64,
    {
        let timestamp = unix_timestamp();
        let merkle_root = calculate_merkle_root(&transactions);
        let header = BlockHeader { index, timestamp, merkle_root, previous_hash, nonce: 0 };
        let hash = header.calculate_hash();
        Block { header, hash, transactions }
    }

    /// Seal the block: starting from the current nonce, search upward for a
    /// nonce whose header hash has its first `difficulty` characters equal to
    /// `'0'`, recomputing the cached hash at every step.
    ///
    /// Returns `true` once the cached hash meets the target — immediately,
    /// leaving the block untouched, when it already does, so at difficulty 0
    /// a fresh block seals with its nonce still 0. Returns `false`, with the
    /// block restored unchanged, only if the whole remaining nonce space is
    /// exhausted without a hit.
    pub fn mine(&mut self, difficulty: usize) -> (sealed: bool)
        ensures
            final(self).header.index == old(self).header.index,
            final(self).header.timestamp == old(self).header.timestamp,
            final(self).header.merkle_root == old(self).header.merkle_root,
            final(self).header.previous_hash == old(self).header.previous_hash,
            final(self).transactions == old(self).transactions,
            sealed ==> hash_meets_difficulty(final(self).hash@, difficulty as nat),
            sealed ==> final(self).header.nonce >= old(self).header.nonce,
            sealed ==> final(self).hash@ == header_hash(final(self).header) || *final(self)
                == *old(self),
            hash_meets_difficulty(old(self).hash@, difficulty as nat) ==> sealed && *final(self)
                == *old(self),
            !sealed ==> *final(self) == *old(self),
            !sealed ==> forall|n: u64|
                old(self).header.nonce < n ==> !hash_meets_difficulty(
                    header_hash(header_with_nonce(old(self).header, n)),
                    difficulty as nat,
                ),
            !sealed && old(self).hash@ == header_hash(old(self).header) ==> forall|n: u64|
                old(self).header.nonce <= n ==> !hash_meets_difficulty(
                    header_hash(header_with_nonce(old(self).header, n)),
                    difficulty as nat,
                ),
            old(self).hash@ == header_hash(old(self).header) && sealed ==> forall|n: u64|
                old(self).header.nonce <= n < final(self).header.nonce
                    ==> !hash_meets_difficulty(
                    header_hash(header_with_nonce(old(self).header, n)),
                    difficulty as nat,
                ),
    {
        let ghost init: Block = *self;
        let saved_nonce = self.header.nonce;
        let saved_hash = self.hash.clone();
        while !check_prefix(self.hash.as_str(), difficulty)
            invariant
                init == *old(self),
                saved_nonce == init.header.nonce,
                saved_hash == init.hash,
                self.header == header_with_nonce(init.header, self.header.nonce),
                self.transactions == init.transactions,
                self.header.nonce >= init.header.nonce,
                self.header.nonce == init.header.nonce ==> *self == init,
                self.header.nonce > init.header.nonce ==> self.hash@ == header_hash(self.header),
                self.header.nonce > init.header.nonce ==> !hash_meets_difficulty(
                    init.hash@,
                    difficulty as nat,
                ),
                forall|n: u64|
                    init.header.nonce < n < self.header.nonce ==> !hash_meets_difficulty(
                        header_hash(header_with_nonce(init.header, n)),
                        difficulty as nat,
                    ),
                init.hash@ == header_hash(init.header) ==> forall|n: u64|
                    init.header.nonce <= n < self.header.nonce ==> !hash_meets_difficulty(
                        header_hash(header_with_nonce(init.header, n)),
                        difficulty as nat,
                    ),
            decreases u64::MAX - self.header.nonce,
        {
            if self.header.nonce == u64::MAX {
                self.header.nonce = saved_nonce;
                self.hash = saved_hash;
                assert(*self == init);
                return false;
            }
            self.header.nonce = self.header.nonce + 1;
            self.hash = self.header.calculate_hash();
        }
        true
    }
}

} // verus!
