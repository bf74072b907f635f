//! Merkle aggregation: an ordered list of hex-encoded transaction hashes is
//! reduced to a single root by repeatedly pairing adjacent hashes and hashing
//! the concatenation of each pair. A level with an odd number of nodes
//! duplicates its last node before pairing — also at the single-leaf level,
//! so the root of one transaction is the hash of its leaf concatenated with
//! itself. The root of an empty list is the sentinel `"0"`.

use crate::codec::hex_encode;
use crate::codec::hex_encode_seq;
use crate::codec::sha256_digest;
use crate::codec::sha256_of;
use crate::transaction::tx_hash_hex;
use crate::transaction::Transaction;
use vstd::prelude::*;
use vstd::string::StringExecFns;

verus! {

/// The parent of two adjacent nodes: SHA-256 over the concatenation of the
/// two hex strings, rendered in lower-case hexadecimal.
pub open spec fn hash_pair(a: Seq<char>, b: Seq<char>) -> Seq<char> {
    hex_encode_seq(sha256_of(a + b))
}

/// A level padded to even length by duplicating its last node.
pub open spec fn pad_even(level: Seq<Seq<char>>) -> Seq<Seq<char>> {
    if level.len() % 2 == 1 {
        level.push(level.last())
    } else {
        level
    }
}

/// One reduction step: pad to even length, then hash adjacent pairs.
pub open spec fn merkle_level(level: Seq<Seq<char>>) -> Seq<Seq<char>> {
    Seq::new(pad_even(level).len() / 2, |i: int| hash_pair(pad_even(level)[2 * i], pad_even(level)[2 * i + 1]))
}

/// Reduce a non-empty level to a single node by repeated reduction steps.
pub open spec fn merkle_collapse(level: Seq<Seq<char>>) -> Seq<char>
    decreases level.len(),
{
    if level.len() == 0 {
        "0"@
    } else if level.len() == 1 {
        level[0]
    } else {
        merkle_collapse(merkle_level(level))
    }
}

/// The hex-encoded transaction hashes that form the leaves.
pub open spec fn leaf_hashes(txs: Seq<Transaction>) -> Seq<Seq<char>> {
    txs.map_values(|tx: Transaction| tx_hash_hex(tx))
}

/// The Merkle root of an ordered transaction list: the sentinel `"0"` for an
/// empty list; otherwise at least one reduction step runs, so a single leaf
/// is duplicated and hashed rather than returned as it stands.
pub open spec fn merkle_root_spec(txs: Seq<Transaction>) -> Seq<char> {
    if txs.len() == 0 {
        "0"@
    } else {
        merkle_collapse(merkle_level(leaf_hashes(txs)))
    }
}

/// The views of a vector of owned hash strings.
pub open spec fn string_views(v: Seq<String>) -> Seq<Seq<char>> {
    v.map_values(|s: String| s@)
}

/// The root of an empty transaction list is the sentinel `"0"`.
pub proof fn lemma_merkle_empty(txs: Seq<Transaction>)
    requires
        txs.len() == 0,
    ensures
        merkle_root_spec(txs) == "0"@,
{
}

/// The root of a single transaction is the hash of its leaf concatenated
/// with itself: the odd level of one node duplicates that node.
pub proof fn lemma_merkle_single(txs: Seq<Transaction>)
    requires
        txs.len() == 1,
    ensures
        merkle_root_spec(txs) == hash_pair(tx_hash_hex(txs[0]), tx_hash_hex(txs[0])),
{
    let leaves = leaf_hashes(txs);
    assert(leaves.len() == 1);
    let padded = pad_even(leaves);
    assert(padded =~= seq![leaves[0], leaves[0]]);
    assert(merkle_level(leaves).len() == 1);
    assert(merkle_level(leaves)[0] == hash_pair(leaves[0], leaves[0]));
}

/// A reduction step shrinks every level of two or more nodes.
proof fn lemma_merkle_level_shrinks(level: Seq<Seq<char>>)
    requires
        level.len() >= 2,
    ensures
        merkle_level(level).len() < level.len(),
        merkle_level(level).len() >= 1,
{
}

/// One exec reduction step over owned hash strings.
fn reduce_level(level: &Vec<String>) -> (next: Vec<String>)
    requires
        level@.len() >= 1,
    ensures
        string_views(next@) == merkle_level(string_views(level@)),
        next@.len() >= 1,
{
    let n: usize = level.len();
    let half: usize = if n % 2 == 1 {
        n / 2 + 1
    } else {
        n / 2
    };
    let ghost padded = pad_even(string_views(level@));
    assert(2 * half <= level@.len() + 1);
    assert(padded.len() == 2 * half);
    let mut next: Vec<String> = Vec::new();
    let mut i: usize = 0;
    while i < half
        invariant
            level@.len() >= 1,
            n == level@.len(),
            half <= n,
            padded == pad_even(string_views(level@)),
            padded.len() == 2 * half,
            2 * half <= level@.len() + 1,
            i <= half,
            next@.len() == i as int,
            forall|j: int| 0 <= j < level@.len() ==> padded[j] == string_views(level@)[j],
            level@.len() % 2 == 1 ==> padded[level@.len() as int] == level@[level@.len() - 1]@,
            forall|j: int| 0 <= j < i ==> (#[trigger] next@[j])@ == hash_pair(padded[2 * j], padded[2 * j + 1]),
        decreases half - i,
    {
        assert(2 * (i as int) < level@.len());
        let left: &String = &level[2 * i];
        let right: &String = if 2 * i + 1 < level.len() {
            &level[2 * i + 1]
        } else {
            &level[level.len() - 1]
        };
        assert(left@ == padded[2 * i as int]);
        assert(right@ == padded[2 * i as int + 1]);
        let mut cat = left.clone();
        cat.append(right.as_str());
        let digest = sha256_digest(cat.as_str());
        next.push(hex_encode(digest.as_slice()));
        i = i + 1;
    }
    assert(string_views(next@) =~= merkle_level(string_views(level@)));
    next
}

/// The Merkle root of the ordered transaction list, exactly as
/// `merkle_root_spec` states it. The root is a function of the ordered list
/// of transaction hashes alone, so recomputing it over the same list always
/// returns the same string.
pub fn calculate_merkle_root(transactions: &Vec<Transaction>) -> (r: String)
    ensures
        r@ == merkle_root_spec(transactions@),
{
    let mut hashes: Vec<String> = Vec::new();
    let mut i: usize = 0;
    while i < transactions.len()
        invariant
            i <= transactions@.len(),
            hashes@.len() == i as int,
            forall|j: int| 0 <= j < i ==> (#[trigger] hashes@[j])@ == tx_hash_hex(transactions@[j]),
        decreases transactions@.len() - i,
    {
        let digest = transactions[i].calculate_hash();
        hashes.push(hex_encode(digest.as_slice()));
        i = i + 1;
    }
    if hashes.len() == 0 {
        return String::from_str("0");
    }
    assert(string_views(hashes@) =~= leaf_hashes(transactions@));
    let mut level = reduce_level(&hashes);
    while level.len() > 1
        invariant
            level@.len() >= 1,
            merkle_collapse(string_views(level@)) == merkle_root_spec(transactions@),
        decreases level@.len(),
    {
        proof {
            lemma_merkle_level_shrinks(string_views(level@));
        }
        level = reduce_level(&level);
    }
    assert(string_views(level@)[0] == level@[0]@);
    let root = level.pop();
    match root {
        Some(r) => r,
        None => String::from_str("0"),  // unreachable: the level holds one node
    }
}

} // verus!
