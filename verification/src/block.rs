//! Blocks: a header over a transaction list. The header hash covers
//! (index, timestamp, previous hash, merkle root, nonce, validator);
//! transactions are bound only through the merkle root. Proof-of-work
//! search increments the nonce until the hash has the required number of
//! leading zero hex digits, giving up past a fixed cap.

use vstd::prelude::*;
use vstd::string::StrSliceExecFns;
use vstd::string::StringExecFns;

use crate::clock::now_seconds;
use crate::digest::sha256_hex;
use crate::digest::sha256_hex_of;
use crate::merkle::calculate_merkle_root;
use crate::merkle::merkle_root_of;
use crate::merkle::tx_hashes;
use crate::text::dec_str;
use crate::text::push_dec;
use crate::transaction::Transaction;

verus! {

/// The mining loop gives up once the nonce would pass this cap.
pub const NONCE_CAP: u64 = 1_000_000;

/// Proof-of-work search failed to find a qualifying nonce below the cap.
#[derive(Clone, Copy, PartialEq, Eq, Debug)]
pub enum MiningError {
    Timeout,
}

/// A block of the chain. Mutated only while mining; immutable once appended.
pub struct Block {
    pub index: u64,
    pub timestamp: u64,
    pub transactions: Vec<Transaction>,
    pub previous_hash: String,
    pub hash: String,
    pub nonce: u64,
    pub merkle_root: String,
    pub validator: String,
}

/// The preimage of the header hash: the six header fields, concatenated.
pub open spec fn block_header_seq(
    index: u64,
    timestamp: u64,
    previous_hash: Seq<char>,
    merkle_root: Seq<char>,
    nonce: u64,
    validator: Seq<char>,
) -> Seq<char> {
    dec_str(index as nat) + dec_str(timestamp as nat) + previous_hash + merkle_root + dec_str(
        nonce as nat,
    ) + validator
}

/// The header hash of a block as stored. The stored `hash` field is not
/// part of the preimage.
pub open spec fn block_hash_seq(b: Block) -> Seq<char> {
    sha256_hex(
        block_header_seq(b.index, b.timestamp, b.previous_hash@, b.merkle_root@, b.nonce, b.validator@),
    )
}

/// The header hash the block would have with its nonce replaced by `n`.
pub open spec fn hash_at_nonce(b: Block, n: u64) -> Seq<char> {
    sha256_hex(
        block_header_seq(b.index, b.timestamp, b.previous_hash@, b.merkle_root@, n, b.validator@),
    )
}

/// Whether the first `d` characters of `h` are all `'0'`.
pub open spec fn leading_zeros(h: Seq<char>, d: nat) -> bool {
    d <= h.len() && (forall|i: int| 0 <= i < d ==> h[i] == '0')
}

/// The header fields that mining never touches agree between `b0` and `b1`.
pub open spec fn same_but_nonce_and_hash(b0: Block, b1: Block) -> bool {
    b1.index == b0.index && b1.timestamp == b0.timestamp && b1.transactions@ == b0.transactions@
        && b1.previous_hash@ == b0.previous_hash@ && b1.merkle_root@ == b0.merkle_root@
        && b1.validator@ == b0.validator@
}

/// Mining succeeded: `b1` is `b0` re-stamped with the least qualifying
/// nonce at or above `b0`'s, and its hash recomputed there. The search
/// only moves the nonce within the cap; a block handed in past the cap
/// can succeed only on its own nonce.
pub open spec fn mine_success(b0: Block, b1: Block, difficulty: nat) -> bool {
    same_but_nonce_and_hash(b0, b1) && b0.nonce <= b1.nonce && (b1.nonce <= NONCE_CAP || b1.nonce
        == b0.nonce) && b1.hash@ == hash_at_nonce(b0, b1.nonce) && leading_zeros(
        b1.hash@,
        difficulty,
    ) && (forall|m: u64|
        b0.nonce <= m < b1.nonce ==> !leading_zeros(hash_at_nonce(b0, m), difficulty))
}

/// Mining is doomed: neither `b0`'s own nonce nor any nonce up to the cap
/// qualifies.
pub open spec fn mine_timeout(b0: Block, difficulty: nat) -> bool {
    !leading_zeros(hash_at_nonce(b0, b0.nonce), difficulty) && (forall|m: u64|
        b0.nonce <= m <= NONCE_CAP ==> !leading_zeros(hash_at_nonce(b0, m), difficulty))
}

/// A block that came out of a successful proof-of-work search stores its
/// own recomputed header hash: re-deriving the hash from the stored header
/// fields gives back the stored hash.
pub proof fn lemma_mined_hash_recomputes(b0: Block, b1: Block, difficulty: nat)
    requires
        mine_success(b0, b1, difficulty),
    ensures
        b1.hash@ == block_hash_seq(b1),
{
}

/// Field-for-field agreement of two blocks. Block values carry a `Vec`,
/// so a copy is compared through the views of its fields.
pub open spec fn block_eq(a: Block, b: Block) -> bool {
    a.index == b.index && a.timestamp == b.timestamp && a.transactions@ == b.transactions@
        && a.previous_hash == b.previous_hash && a.hash == b.hash && a.nonce == b.nonce
        && a.merkle_root == b.merkle_root && a.validator == b.validator
}

impl Clone for Block {
    fn clone(&self) -> (res: Self)
        ensures
            block_eq(res, *self),
    {
        let mut transactions: Vec<Transaction> = Vec::new();
        let mut i: usize = 0;
        while i < self.transactions.len()
            invariant
                i <= self.transactions@.len(),
                transactions@ =~= self.transactions@.take(i as int),
            decreases self.transactions@.len() - i,
        {
            transactions.push(self.transactions[i].clone());
            proof {
                assert(transactions@ =~= self.transactions@.take(i + 1));
            }
            i = i + 1;
        }
        proof {
            assert(transactions@ =~= self.transactions@);
        }
        Block {
            index: self.index,
            timestamp: self.timestamp,
            transactions,
            previous_hash: self.previous_hash.clone(),
            hash: self.hash.clone(),
            nonce: self.nonce,
            merkle_root: self.merkle_root.clone(),
            validator: self.validator.clone(),
        }
    }
}

impl Block {
    /// Builds a draft block stamped with the current time: the merkle root
    /// commits to the transactions, the nonce starts at 0, and the stored
    /// hash is the recomputed header hash.
    pub fn new(
        index: u64,
        transactions: Vec<Transaction>,
        previous_hash: String,
        validator: String,
    ) -> (b: Block)
        ensures
            b.index == index,
            b.transactions@ == transactions@,
            b.previous_hash == previous_hash,
            b.validator == validator,
            b.nonce == 0,
            b.merkle_root@ == merkle_root_of(tx_hashes(transactions@)),
            b.hash@ == block_hash_seq(b),
    {
        let timestamp = now_seconds();
        let merkle_root = calculate_merkle_root(&transactions);
        let mut block = Block {
            index,
            timestamp,
            transactions,
            previous_hash,
            hash: String::new(),
            nonce: 0,
            merkle_root,
            validator,
        };
        let hash = block.calculate_hash();
        block.hash = hash;
        block
    }

    /// Recomputes the header hash from the six stored header fields.
    pub fn calculate_hash(&self) -> (r: String)
        ensures
            r@ == block_hash_seq(*self),
    {
        let mut data = String::new();
        push_dec(&mut data, self.index);
        push_dec(&mut data, self.timestamp);
        data.append(self.previous_hash.as_str());
        data.append(self.merkle_root.as_str());
        push_dec(&mut data, self.nonce);
        data.append(self.validator.as_str());
        proof {
            assert(data@ =~= block_header_seq(
                self.index,
                self.timestamp,
                self.previous_hash@,
                self.merkle_root@,
                self.nonce,
                self.validator@,
            ));
        }
        sha256_hex_of(data.as_str())
    }

    /// Whether the stored hash starts with `difficulty` zero hex digits.
    fn hash_meets_difficulty(&self, difficulty: u32) -> (r: bool)
        ensures
            r == leading_zeros(self.hash@, difficulty as nat),
    {
        let d = difficulty as usize;
        let n = self.hash.as_str().unicode_len();
        if d > n {
            return false;
        }
        let mut i: usize = 0;
        while i < d
            invariant
                d == difficulty as usize,
                d <= n,
                n == self.hash@.len(),
                i <= d,
                forall|k: int| 0 <= k < i ==> self.hash@[k] == '0',
            decreases d - i,
        {
            if self.hash.as_str().get_char(i) != '0' {
                proof {
                    if leading_zeros(self.hash@, difficulty as nat) {
                        assert(self.hash@[i as int] == '0');
                    }
                }
                return false;
            }
            i = i + 1;
        }
        true
    }

    /// Proof-of-work search: recomputes the hash with incrementing nonce
    /// until it gains `difficulty` leading zero hex digits, or gives up
    /// with a timeout once the nonce would pass the cap. On timeout the
    /// caller discards the block, so only the untouched header fields are
    /// promised.
    pub fn mine_block(&mut self, difficulty: u32) -> (r: Result<(), MiningError>)
        ensures
            same_but_nonce_and_hash(*old(self), *final(self)),
            match r {
                Ok(()) => mine_success(*old(self), *final(self), difficulty as nat),
                Err(MiningError::Timeout) => mine_timeout(*old(self), difficulty as nat),
            },
    {
        if self.nonce > NONCE_CAP {
            let hash = self.calculate_hash();
            self.hash = hash;
            if self.hash_meets_difficulty(difficulty) {
                return Ok(());
            }
            return Err(MiningError::Timeout);
        }
        loop
            invariant
                same_but_nonce_and_hash(*old(self), *self),
                old(self).nonce <= self.nonce <= NONCE_CAP,
                forall|m: u64|
                    old(self).nonce <= m < self.nonce ==> !leading_zeros(
                        hash_at_nonce(*old(self), m),
                        difficulty as nat,
                    ),
            decreases NONCE_CAP - self.nonce,
        {
            let hash = self.calculate_hash();
            self.hash = hash;
            proof {
                assert(self.hash@ == hash_at_nonce(*old(self), self.nonce));
            }
            if self.hash_meets_difficulty(difficulty) {
                return Ok(());
            }
            if self.nonce == NONCE_CAP {
                return Err(MiningError::Timeout);
            }
            self.nonce = self.nonce + 1;
        }
    }
}

} // verus!
