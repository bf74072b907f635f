//! The ledger engine: it owns the ordered chain of sealed blocks and the
//! pending-transaction pool, validates submitted transactions, and seals the
//! pool into a new block on request. The chain is append-only and never
//! re-checked: every operation that grows it re-establishes well-formedness.

use crate::block::block_unsealable_at;
use crate::block::check_prefix;
use crate::block::hash_meets_difficulty;
use crate::block::header_data;
use crate::block::header_data_parts;
use crate::block::header_hash;
use crate::block::header_with_nonce;
use crate::block::Block;
use crate::codec::hex_encode_seq;
use crate::codec::sha256_of;
use crate::merkle::hash_pair;
use crate::merkle::lemma_merkle_single;
use crate::merkle::merkle_root_spec;
use crate::transaction::tx_valid;
use crate::transaction::Transaction;
use vstd::prelude::*;
use vstd::string::StringExecFns;

verus! {

/// Why an engine operation was refused. Malformed hexadecimal in a
/// transaction never surfaces as an error of its own: it collapses into a
/// failed signature verification.
#[derive(Clone, Copy, Debug, PartialEq, Eq, Structural)]
pub enum LedgerError {
    /// The submitted transaction failed signature verification.
    InvalidSignature,
    /// Mining was requested while no transactions were pending.
    EmptyMempool,
    /// The difficulty cannot be met: it exceeds the 64-character hash, or no
    /// nonce seals the block, or the chain has outgrown its index type.
    ConfigurationError,
}

impl LedgerError {
    /// The human-readable reason handed to callers of the request layer.
    pub fn message(&self) -> (m: &'static str)
        ensures
            *self is InvalidSignature ==> m@ == "Invalid transaction signature"@,
            *self is EmptyMempool ==> m@ == "No transactions to mine"@,
            *self is ConfigurationError ==> m@ == "Difficulty cannot be met"@,
    {
        match self {
            LedgerError::InvalidSignature => "Invalid transaction signature",
            LedgerError::EmptyMempool => "No transactions to mine",
            LedgerError::ConfigurationError => "Difficulty cannot be met",
        }
    }
}

/// The hexadecimal transaction hash of the fixed genesis issuance record,
/// a `"System"` to `"Creator"` transfer of 50 units.
pub open spec fn genesis_leaf() -> Seq<char> {
    hex_encode_seq(sha256_of("System"@ + "Creator"@ + "50"@))
}

/// The ledger engine: the full ordered chain (index 0 is the genesis block)
/// and the pending pool, mined at a difficulty fixed at construction.
#[derive(Clone, Debug)]
pub struct Blockchain {
    pub chain: Vec<Block>,
    pub difficulty: usize,
    pub pending_transactions: Vec<Transaction>,
}

impl Blockchain {
    /// Well-formedness of the engine state: the chain is never empty, block
    /// indices are sequential from 0 and fit their 32-bit field, every cached
    /// block hash is the hash of its own header and meets the difficulty,
    /// every block names its parent's hash, and the genesis block's parent is
    /// the sentinel `"0"`.
    pub open spec fn wf(self) -> bool {
        &&& self.chain@.len() >= 1
        &&& self.chain@.len() - 1 <= u32::MAX
        &&& self.difficulty <= 64
        &&& self.chain@[0].header.previous_hash@ == "0"@
        &&& forall|i: int|
            0 <= i < self.chain@.len() ==> (#[trigger] self.chain@[i]).header.index == i as u32
        &&& forall|i: int|
            0 <= i < self.chain@.len() ==> (#[trigger] self.chain@[i]).hash@ == header_hash(
                self.chain@[i].header,
            )
        &&& forall|i: int|
            0 <= i < self.chain@.len() ==> hash_meets_difficulty(
                (#[trigger] self.chain@[i]).hash@,
                self.difficulty as nat,
            )
        &&& forall|i: int|
            1 <= i < self.chain@.len() ==> (#[trigger] self.chain@[i]).header.previous_hash@
                == self.chain@[i - 1].hash@
    }

    /// Build an engine with a fixed difficulty: a genesis block holding the
    /// one issuance record is sealed and becomes the whole chain, and the
    /// pool starts empty. A difficulty over the 64-character hash length can
    /// never be met and is refused outright; otherwise the construction fails
    /// only if no nonce at all seals the genesis block at the timestamp that
    /// was drawn.
    pub fn new(difficulty: usize) -> (r: Result<Blockchain, LedgerError>)
        ensures
            difficulty > 64 ==> r == Err::<Blockchain, LedgerError>(
                LedgerError::ConfigurationError,
            ),
            r matches Err(e) ==> e == LedgerError::ConfigurationError,
            r matches Ok(bc) ==> {
                &&& bc.wf()
                &&& bc.difficulty == difficulty
                &&& bc.chain@.len() == 1
                &&& bc.pending_transactions@.len() == 0
                &&& bc.chain@[0].transactions@.len() == 1
                &&& bc.chain@[0].transactions@[0].sender@ == "System"@
                &&& bc.chain@[0].transactions@[0].receiver@ == "Creator"@
                &&& bc.chain@[0].transactions@[0].amount@ == "50"@
                &&& bc.chain@[0].transactions@[0].signature is None
                &&& tx_valid(bc.chain@[0].transactions@[0])
                &&& bc.chain@[0].header.merkle_root@ == hash_pair(genesis_leaf(), genesis_leaf())
                &&& bc.chain@[0].hash@ == header_hash(bc.chain@[0].header)
                &&& difficulty == 0 ==> bc.chain@[0].header.nonce == 0
            },
            difficulty <= 64 && r is Err ==> exists|ts: i64|
                block_unsealable_at(
                    0,
                    ts,
                    hash_pair(genesis_leaf(), genesis_leaf()),
                    "0"@,
                    difficulty as nat,
                ),
    {
        if difficulty > 64 {
            return Err(LedgerError::ConfigurationError);
        }
        let genesis_tx = Transaction {
            sender: String::from_str("System"),
            receiver: String::from_str("Creator"),
            amount: String::from_str("50"),
            signature: None,
        };
        let mut txs: Vec<Transaction> = Vec::new();
        txs.push(genesis_tx);
        let mut genesis = Block::new(0, txs, String::from_str("0"));
        proof {
            lemma_merkle_single(genesis.transactions@);
        }
        let ghost fresh = genesis;
        if !genesis.mine(difficulty) {
            proof {
                let ts = fresh.header.timestamp;
                let root = hash_pair(genesis_leaf(), genesis_leaf());
                assert forall|n: u64|
                    !hash_meets_difficulty(
                        #[trigger] hex_encode_seq(
                            sha256_of(header_data_parts(0, ts, root, "0"@, n)),
                        ),
                        difficulty as nat,
                    ) by {
                    let probed = header_with_nonce(fresh.header, n);
                    assert(header_data(probed) == header_data_parts(0, ts, root, "0"@, n));
                }
                assert(block_unsealable_at(0, ts, root, "0"@, difficulty as nat));
            }
            return Err(LedgerError::ConfigurationError);
        }
        let mut chain: Vec<Block> = Vec::new();
        chain.push(genesis);
        Ok(Blockchain { chain, difficulty, pending_transactions: Vec::new() })
    }

    /// Validate and queue a transaction. A transaction whose signature does
    /// not verify is refused and discarded, leaving the engine exactly as it
    /// was; a valid one is appended at the pool's tail with no other effect.
    pub fn add_transaction(&mut self, transaction: Transaction) -> (r: Result<(), LedgerError>)
        requires
            old(self).wf(),
        ensures
            final(self).wf(),
            final(self).chain == old(self).chain,
            final(self).difficulty == old(self).difficulty,
            tx_valid(transaction) ==> r == Ok::<(), LedgerError>(())
                && final(self).pending_transactions@
                == old(self).pending_transactions@.push(transaction),
            !tx_valid(transaction) ==> r == Err::<(), LedgerError>(LedgerError::InvalidSignature)
                && *final(self) == *old(self),
    {
        if !transaction.is_valid() {
            return Err(LedgerError::InvalidSignature);
        }
        self.pending_transactions.push(transaction);
        Ok(())
    }

    /// Seal the pending pool into a new block and append it. Fails on an
    /// empty pool with the engine untouched. Otherwise the whole pool, in
    /// submission order, becomes the transactions of a block at the next
    /// index whose parent is the current last block; the block is sealed at
    /// the engine's difficulty, appended, and the pool is left empty. If the
    /// chain has outgrown its 32-bit index field, or no nonce seals the block
    /// at the timestamp that was drawn, the engine is left exactly as it was.
    pub fn mine_pending_transactions(&mut self) -> (r: Result<(), LedgerError>)
        requires
            old(self).wf(),
        ensures
            final(self).wf(),
            final(self).difficulty == old(self).difficulty,
            old(self).pending_transactions@.len() == 0 ==> r == Err::<(), LedgerError>(
                LedgerError::EmptyMempool,
            ),
            r matches Err(e) ==> *final(self) == *old(self) && (e == LedgerError::EmptyMempool
                <==> old(self).pending_transactions@.len() == 0),
            r is Err ==> r == Err::<(), LedgerError>(LedgerError::EmptyMempool) || r == Err::<
                (),
                LedgerError,
            >(LedgerError::ConfigurationError),
            r == Err::<(), LedgerError>(LedgerError::ConfigurationError)
                ==> old(self).pending_transactions@.len() > 0
                && (old(self).chain@.len() - 1 == u32::MAX
                || exists|ts: i64|
                block_unsealable_at(
                    old(self).chain@.len() as nat,
                    ts,
                    merkle_root_spec(old(self).pending_transactions@),
                    old(self).chain@.last().hash@,
                    old(self).difficulty as nat,
                )),
            r is Ok ==> {
                &&& old(self).pending_transactions@.len() > 0
                &&& final(self).pending_transactions@.len() == 0
                &&& final(self).chain@.len() == old(self).chain@.len() + 1
                &&& final(self).chain@ == old(self).chain@.push(final(self).chain@.last())
                &&& final(self).chain@.last().transactions@ == old(self).pending_transactions@
                &&& final(self).chain@.last().header.index as int == old(self).chain@.len()
                &&& final(self).chain@.last().header.previous_hash@
                    == old(self).chain@.last().hash@
                &&& final(self).chain@.last().header.merkle_root@ == merkle_root_spec(
                    old(self).pending_transactions@,
                )
                &&& final(self).chain@.last().hash@ == header_hash(
                    final(self).chain@.last().header,
                )
                &&& hash_meets_difficulty(
                    final(self).chain@.last().hash@,
                    old(self).difficulty as nat,
                )
                &&& (old(self).difficulty == 0 ==> final(self).chain@.last().header.nonce == 0)
            },
    {
        if self.pending_transactions.len() == 0 {
            return Err(LedgerError::EmptyMempool);
        }
        if self.chain.len() - 1 >= u32::MAX as usize {
            return Err(LedgerError::ConfigurationError);
        }
        let previous_hash = self.chain[self.chain.len() - 1].hash.clone();
        let index = self.chain.len() as u32;
        let mut txs: Vec<Transaction> = Vec::new();
        core::mem::swap(&mut txs, &mut self.pending_transactions);
        let mut new_block = Block::new(index, txs, previous_hash);
        let ghost fresh = new_block;
        if !new_block.mine(self.difficulty) {
            proof {
                let ts = fresh.header.timestamp;
                let root = merkle_root_spec(old(self).pending_transactions@);
                let prev = old(self).chain@.last().hash@;
                assert forall|n: u64|
                    !hash_meets_difficulty(
                        #[trigger] hex_encode_seq(
                            sha256_of(
                                header_data_parts(old(self).chain@.len() as nat, ts, root, prev, n),
                            ),
                        ),
                        old(self).difficulty as nat,
                    ) by {
                    let probed = header_with_nonce(fresh.header, n);
                    assert(header_data(probed) == header_data_parts(
                        old(self).chain@.len() as nat,
                        ts,
                        root,
                        prev,
                        n,
                    ));
                }
                assert(block_unsealable_at(
                    old(self).chain@.len() as nat,
                    ts,
                    root,
                    prev,
                    old(self).difficulty as nat,
                ));
            }
            core::mem::swap(&mut new_block.transactions, &mut self.pending_transactions);
            assert(*self == *old(self));
            return Err(LedgerError::ConfigurationError);
        }
        let ghost sealed_block = new_block;
        self.chain.push(new_block);
        proof {
            let oldc = old(self).chain@;
            let c = self.chain@;
            assert(c == oldc.push(sealed_block));
            assert forall|i: int|
                0 <= i < c.len() implies (#[trigger] c[i]).header.index == i as u32 by {
                if i < c.len() - 1 {
                    assert(c[i] == oldc[i]);
                }
            }
            assert forall|i: int|
                0 <= i < c.len() implies (#[trigger] c[i]).hash@ == header_hash(c[i].header) by {
                if i < c.len() - 1 {
                    assert(c[i] == oldc[i]);
                }
            }
            assert forall|i: int|
                0 <= i < c.len() implies hash_meets_difficulty(
                (#[trigger] c[i]).hash@,
                self.difficulty as nat,
            ) by {
                if i < c.len() - 1 {
                    assert(c[i] == oldc[i]);
                }
            }
            assert forall|i: int|
                1 <= i < c.len() implies (#[trigger] c[i]).header.previous_hash@ == c[i
                - 1].hash@ by {
                if i < c.len() - 1 {
                    assert(c[i] == oldc[i]);
                    assert(c[i - 1] == oldc[i - 1]);
                } else {
                    assert(c[i - 1] == oldc[i - 1]);
                }
            }
        }
        Ok(())
    }

    /// Re-check well-formedness of the whole engine state at run time: the
    /// decidable counterpart of `wf`, for callers outside the proof.
    pub fn check_well_formed(&self) -> (r: bool)
        ensures
            r == self.wf(),
    {
        if self.chain.len() == 0 {
            return false;
        }
        if self.chain.len() - 1 > u32::MAX as usize {
            return false;
        }
        if self.difficulty > 64 {
            return false;
        }
        let zero = String::from_str("0");
        if !self.chain[0].header.previous_hash.eq(&zero) {
            return false;
        }
        let mut i: usize = 0;
        while i < self.chain.len()
            invariant
                i <= self.chain@.len(),
                self.chain@.len() - 1 <= u32::MAX,
                forall|j: int|
                    0 <= j < i ==> (#[trigger] self.chain@[j]).header.index == j as u32,
                forall|j: int|
                    0 <= j < i ==> (#[trigger] self.chain@[j]).hash@ == header_hash(
                        self.chain@[j].header,
                    ),
                forall|j: int|
                    0 <= j < i ==> hash_meets_difficulty(
                        (#[trigger] self.chain@[j]).hash@,
                        self.difficulty as nat,
                    ),
                forall|j: int|
                    1 <= j < i ==> (#[trigger] self.chain@[j]).header.previous_hash@
                        == self.chain@[j - 1].hash@,
            decreases self.chain@.len() - i,
        {
            if self.chain[i].header.index != i as u32 {
                return false;
            }
            if !self.chain[i].hash.eq(&self.chain[i].header.calculate_hash()) {
                return false;
            }
            if !check_prefix(self.chain[i].hash.as_str(), self.difficulty) {
                return false;
            }
            if i >= 1 && !self.chain[i].header.previous_hash.eq(&self.chain[i - 1].hash) {
                return false;
            }
            i = i + 1;
        }
        true
    }
}

/// Chain-append invariant: in a well-formed engine every block after genesis
/// names the hash of the block before it as its parent, and block indices
/// are exactly their positions.
pub proof fn lemma_chain_linked(bc: Blockchain)
    requires
        bc.wf(),
    ensures
        bc.chain@.len() >= 1,
        forall|i: int|
            1 <= i < bc.chain@.len() ==> (#[trigger] bc.chain@[i]).header.previous_hash@
                == bc.chain@[i - 1].hash@,
        forall|i: int| 0 <= i < bc.chain@.len() ==> (#[trigger] bc.chain@[i]).header.index == i as u32,
{
}

/// Difficulty invariant: in a well-formed engine every sealed block's hash
/// has its first `difficulty` characters equal to `'0'`.
pub proof fn lemma_chain_difficulty(bc: Blockchain)
    requires
        bc.wf(),
    ensures
        forall|i: int|
            0 <= i < bc.chain@.len() ==> hash_meets_difficulty(
                (#[trigger] bc.chain@[i]).hash@,
                bc.difficulty as nat,
            ),
{
}

} // verus!

