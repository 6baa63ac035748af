//! The chain: an append-only sequence of blocks starting at a fixed
//! genesis, a consensus policy (proof of work, proof of stake, or delegated
//! proof of stake), and the block-append pipeline that validates structure,
//! enforces that policy, applies the transactions in order against the ledger, and
//! only then appends. A failure partway through transaction application
//! aborts the append and leaves the earlier transfers applied, as the
//! pipeline works through the shared ledger in block order.

use vstd::prelude::*;
use vstd::string::StringExecFns;

use crate::block::block_eq;
use crate::block::block_hash_seq;
use crate::block::hash_at_nonce;
use crate::block::leading_zeros;
use crate::block::lemma_mined_hash_recomputes;
use crate::block::mine_success;
use crate::block::mine_timeout;
use crate::block::Block;
use crate::block::MiningError;
use crate::ledger::total_supply;
use crate::ledger::transfer_spec;
use crate::ledger::Account;
use crate::ledger::BlockchainState;
use crate::ledger::TransferError;
use crate::merkle::merkle_root_of;
use crate::merkle::tx_hashes;
use crate::text::str_eq;
use crate::transaction::signature_ok;
use crate::transaction::Transaction;

verus! {

/// How many pending transactions a block proposal drains at most.
pub const BLOCK_TX_LIMIT: usize = 100;

/// The consensus gate a chain is configured with.
#[derive(Clone, Copy, PartialEq, Eq, Debug)]
pub enum ConsensusType {
    ProofOfWork,
    ProofOfStake,
    DelegatedProofOfStake,
}

/// Why a block was rejected. Every rejection leaves the chain itself
/// unchanged; a transfer rejection partway through a block leaves the
/// earlier transfers of that block applied.
#[derive(Clone, Copy, PartialEq, Eq, Debug)]
pub enum ChainError {
    InvalidIndex,
    InvalidPreviousHash,
    MiningTimeout,
    InvalidValidator,
    InvalidDelegate,
    InvalidTransactionSignature,
    Transfer(TransferError),
}

/// The chain with its consensus policy, validator registry, and ledger.
pub struct Blockchain {
    pub chain: Vec<Block>,
    pub state: BlockchainState,
    pub difficulty: u32,
    pub block_time_secs: u64,
    pub validators: Vec<String>,
    pub consensus: ConsensusType,
}

/// Whole-chain validity as `validate_chain` checks it: every non-genesis
/// block stores its own recomputed header hash, links to its predecessor's
/// hash, and carries the successor index.
pub open spec fn chain_linked(chain: Seq<Block>) -> bool {
    forall|i: int|
        1 <= i < chain.len() ==> ((#[trigger] chain[i]).hash@ == block_hash_seq(chain[i])
            && chain[i].previous_hash@ == chain[i - 1].hash@ && chain[i].index == chain[i
            - 1].index + 1)
}

/// The structural part of the chain invariant: a genesis block at index 0
/// and consecutive indices after it. (Stored hashes are rechecked by
/// `validate_chain`, not assumed: a stake-gated append trusts the
/// caller's hash.)
pub open spec fn chain_indexed(chain: Seq<Block>) -> bool {
    chain.len() >= 1 && chain[0].index == 0 && (forall|i: int|
        1 <= i < chain.len() ==> (#[trigger] chain[i]).index == chain[i - 1].index + 1)
}

/// A chain holding only its genesis block always validates: there is no
/// adjacent pair to fault.
pub proof fn lemma_singleton_chain_valid(chain: Seq<Block>)
    requires
        chain.len() == 1,
    ensures
        chain_linked(chain),
{
}

/// In a structurally sound chain each block's index is its position.
pub proof fn lemma_chain_index_at(chain: Seq<Block>, i: int)
    requires
        chain_indexed(chain),
        0 <= i < chain.len(),
    ensures
        chain[i].index == i,
    decreases i,
{
    if i > 0 {
        lemma_chain_index_at(chain, i - 1);
    }
}

/// Whether `v` is a registered validator.
pub open spec fn validator_listed(validators: Seq<String>, v: Seq<char>) -> bool {
    exists|k: int| 0 <= k < validators.len() && validators[k]@ == v
}

/// The stake-based consensus checks; proof of work decides by mining instead.
pub open spec fn stake_gate_ok(
    consensus: ConsensusType,
    validators: Seq<String>,
    v: Seq<char>,
) -> bool {
    match consensus {
        ConsensusType::ProofOfWork => true,
        ConsensusType::ProofOfStake => validator_listed(validators, v),
        ConsensusType::DelegatedProofOfStake => validators.len() > 0 && validator_listed(
            validators,
            v,
        ),
    }
}

/// The structural check a block must pass against the latest block.
pub open spec fn structure_ok(latest: Block, b: Block) -> bool {
    b.index == latest.index + 1 && b.previous_hash@ == latest.hash@
}

/// Applying a block's transactions in order: each must carry a valid
/// signature and a fundable transfer. On the first failure the fold stops
/// and reports the ledger as it stands then — earlier transfers stay.
pub open spec fn apply_txs(accts: Seq<Account>, txs: Seq<Transaction>) -> Result<
    Seq<Account>,
    (Seq<Account>, ChainError),
>
    decreases txs.len(),
{
    if txs.len() == 0 {
        Ok(accts)
    } else {
        let t = txs[0];
        if !signature_ok(t) {
            Err((accts, ChainError::InvalidTransactionSignature))
        } else {
            match transfer_spec(accts, t.from@, t.to@, t.amount) {
                Ok(next) => apply_txs(next, txs.drop_first()),
                Err(e) => Err((accts, ChainError::Transfer(e))),
            }
        }
    }
}

/// The fold decomposes at any prefix length.
pub proof fn lemma_apply_txs_split(accts: Seq<Account>, txs: Seq<Transaction>, t: int)
    requires
        0 <= t <= txs.len(),
    ensures
        apply_txs(accts, txs) == (match apply_txs(accts, txs.take(t)) {
            Ok(mid) => apply_txs(mid, txs.skip(t)),
            Err(e) => Err::<Seq<Account>, (Seq<Account>, ChainError)>(e),
        }),
    decreases t,
{
    if t == 0 {
        assert(txs.take(0) =~= Seq::<Transaction>::empty());
        assert(txs.skip(0) =~= txs);
        assert(apply_txs(accts, txs.take(0)) == Ok::<Seq<Account>, (Seq<Account>, ChainError)>(
            accts,
        ));
    } else {
        let first = txs[0];
        assert(txs.take(t)[0] == first);
        assert(txs.take(t).drop_first() =~= txs.drop_first().take(t - 1));
        assert(txs.skip(t) =~= txs.drop_first().skip(t - 1));
        if signature_ok(first) {
            match transfer_spec(accts, first.from@, first.to@, first.amount) {
                Ok(next) => {
                    lemma_apply_txs_split(next, txs.drop_first(), t - 1);
                },
                Err(_) => {},
            }
        }
    }
}

impl Blockchain {
    /// The chain invariant: structural soundness of the block sequence and
    /// the ledger invariant. Established by `new`, preserved by every
    /// method.
    pub open spec fn wf(self) -> bool {
        chain_indexed(self.chain@) && self.state.wf()
    }

    /// The configuration fields never change after construction.
    pub open spec fn config_unchanged(self, o: Blockchain) -> bool {
        self.difficulty == o.difficulty && self.block_time_secs == o.block_time_secs
            && self.validators@ == o.validators@ && self.consensus == o.consensus
    }

    /// A fresh chain: a genesis block (index 0, no transactions, previous
    /// hash "0", validator "genesis"), an empty ledger, an empty validator
    /// registry, and the given consensus policy and difficulty.
    pub fn new(consensus: ConsensusType, difficulty: u32) -> (r: Blockchain)
        ensures
            r.wf(),
            r.chain@.len() == 1,
            chain_linked(r.chain@),
            ({
                let g = r.chain@[0];
                g.index == 0 && g.transactions@.len() == 0 && g.previous_hash@ == "0"@
                    && g.validator@ == "genesis"@ && g.nonce == 0 && g.merkle_root@ == "0"@
                    && g.hash@ == block_hash_seq(g)
            }),
            r.state.accounts@.len() == 0,
            r.state.pending_transactions@.len() == 0,
            total_supply(r.state.accounts@) == 0,
            r.validators@.len() == 0,
            r.consensus == consensus,
            r.difficulty == difficulty,
            r.block_time_secs == 10,
    {
        let genesis = Block::new(
            0,
            Vec::new(),
            String::from_str("0"),
            String::from_str("genesis"),
        );
        proof {
            assert(tx_hashes(genesis.transactions@) =~= Seq::<Seq<char>>::empty());
            assert(merkle_root_of(Seq::<Seq<char>>::empty()) == "0"@);
        }
        let mut chain: Vec<Block> = Vec::new();
        chain.push(genesis);
        Blockchain {
            chain,
            state: BlockchainState::new(),
            difficulty,
            block_time_secs: 10,
            validators: Vec::new(),
            consensus,
        }
    }

    /// Registers a validator.
    pub fn add_validator(&mut self, validator: String)
        requires
            old(self).wf(),
        ensures
            final(self).wf(),
            final(self).validators@ == old(self).validators@.push(validator),
            final(self).chain@ == old(self).chain@,
            final(self).state == old(self).state,
            final(self).difficulty == old(self).difficulty,
            final(self).consensus == old(self).consensus,
            final(self).block_time_secs == old(self).block_time_secs,
    {
        self.validators.push(validator);
    }

    /// Whether `v` is in the validator registry.
    fn contains_validator(&self, v: &str) -> (r: bool)
        ensures
            r == validator_listed(self.validators@, v@),
    {
        let mut k: usize = 0;
        while k < self.validators.len()
            invariant
                k <= self.validators@.len(),
                forall|j: int| 0 <= j < k ==> self.validators@[j]@ != v@,
            decreases self.validators@.len() - k,
        {
            if str_eq(self.validators[k].as_str(), v) {
                return true;
            }
            k = k + 1;
        }
        proof {
            assert forall|j: int| !(0 <= j < self.validators@.len() && self.validators@[j]@
                == v@) by {
                if 0 <= j < self.validators@.len() {
                    assert(self.validators@[j]@ != v@);
                }
            }
        }
        false
    }

    /// A copy of the newest block.
    pub fn get_latest_block(&self) -> (r: Block)
        requires
            self.wf(),
        ensures
            block_eq(r, self.chain@.last()),
    {
        self.chain[self.chain.len() - 1].clone()
    }

    /// How many blocks the chain holds.
    pub fn get_chain_length(&self) -> (r: usize)
        ensures
            r == self.chain@.len(),
    {
        self.chain.len()
    }

    /// The append pipeline. In order, and stopping at the first failure:
    /// the structural check against the latest block, the consensus policy
    /// (proof of work mines the block here; the stake policies check the
    /// validator), the in-order application of every transaction to the
    /// ledger, and only then the append. A transaction failure aborts the
    /// append but keeps the earlier transfers of the block, exactly as
    /// `apply_txs` reports.
    #[verifier::loop_isolation(false)]
    #[verifier::rlimit(100)]
    #[verifier::spinoff_prover]
    pub fn add_block(&mut self, block: Block) -> (r: Result<(), ChainError>)
        requires
            old(self).wf(),
        ensures
            final(self).wf(),
            final(self).config_unchanged(*old(self)),
            final(self).state.pending_transactions@ == old(self).state.pending_transactions@,
            total_supply(final(self).state.accounts@) == total_supply(old(self).state.accounts@),
            // Under proof of stake an unregistered validator is rejected
            // outright, whatever the block's transactions hold.
            (structure_ok(old(self).chain@.last(), block) && old(self).consensus is ProofOfStake
                && !validator_listed(old(self).validators@, block.validator@)) ==> r == Err::<
                (),
                ChainError,
            >(ChainError::InvalidValidator),
            // A sound append keeps the whole chain valid: proof of work
            // recomputes the hash itself, a stake append preserves
            // validity when the handed-in block stores its own recomputed
            // hash.
            (r is Ok && chain_linked(old(self).chain@) && (old(self).consensus is ProofOfWork
                || block.hash@ == block_hash_seq(block))) ==> chain_linked(final(self).chain@),
            ({
                let latest = old(self).chain@.last();
                let accts0 = old(self).state.accounts@;
                let vs = old(self).validators@;
                let cons = old(self).consensus;
                let d = old(self).difficulty as nat;
                match r {
                    Ok(()) => structure_ok(latest, block) && stake_gate_ok(
                        cons,
                        vs,
                        block.validator@,
                    ) && final(self).chain@.len() == old(self).chain@.len() + 1 && final(self).chain@.take(old(self).chain@.len() as int) == old(self).chain@ && (match cons {
                        ConsensusType::ProofOfWork => mine_success(
                            block,
                            final(self).chain@.last(),
                            d,
                        ),
                        _ => block_eq(final(self).chain@.last(), block),
                    }) && apply_txs(accts0, block.transactions@) == Ok::<
                        Seq<Account>,
                        (Seq<Account>, ChainError),
                    >(final(self).state.accounts@),
                    Err(ChainError::InvalidIndex) => block.index != latest.index + 1 && final(self).chain@ == old(self).chain@ && final(self).state.accounts@ == accts0,
                    Err(ChainError::InvalidPreviousHash) => block.index == latest.index + 1
                        && block.previous_hash@ != latest.hash@ && final(self).chain@ == old(self).chain@ && final(self).state.accounts@ == accts0,
                    Err(ChainError::MiningTimeout) => structure_ok(latest, block)
                        && cons is ProofOfWork && mine_timeout(block, d) && final(self).chain@
                        == old(self).chain@ && final(self).state.accounts@ == accts0,
                    Err(ChainError::InvalidValidator) => structure_ok(latest, block)
                        && cons is ProofOfStake && !validator_listed(vs, block.validator@) && final(self).chain@ == old(self).chain@ && final(self).state.accounts@ == accts0,
                    Err(ChainError::InvalidDelegate) => structure_ok(latest, block)
                        && cons is DelegatedProofOfStake && !(vs.len() > 0 && validator_listed(
                        vs,
                        block.validator@,
                    )) && final(self).chain@ == old(self).chain@ && final(self).state.accounts@
                        == accts0,
                    Err(ChainError::InvalidTransactionSignature) => structure_ok(latest, block)
                        && stake_gate_ok(cons, vs, block.validator@) && (cons is ProofOfWork
                        ==> !mine_timeout(block, d)) && final(self).chain@ == old(self).chain@
                        && apply_txs(accts0, block.transactions@) == Err::<
                        Seq<Account>,
                        (Seq<Account>, ChainError),
                    >((final(self).state.accounts@, ChainError::InvalidTransactionSignature)),
                    Err(ChainError::Transfer(e)) => structure_ok(latest, block) && stake_gate_ok(
                        cons,
                        vs,
                        block.validator@,
                    ) && (cons is ProofOfWork ==> !mine_timeout(block, d)) && final(self).chain@
                        == old(self).chain@ && apply_txs(accts0, block.transactions@) == Err::<
                        Seq<Account>,
                        (Seq<Account>, ChainError),
                    >((final(self).state.accounts@, ChainError::Transfer(e))),
                }
            }),
    {
        let mut block = block;
        let n = self.chain.len();
        proof {
            lemma_chain_index_at(self.chain@, n - 1);
        }
        let latest_index = self.chain[n - 1].index;
        if block.index != latest_index + 1 {
            return Err(ChainError::InvalidIndex);
        }
        if !str_eq(block.previous_hash.as_str(), self.chain[n - 1].hash.as_str()) {
            return Err(ChainError::InvalidPreviousHash);
        }
        let ghost block0 = block;
        match self.consensus {
            ConsensusType::ProofOfWork => {
                match block.mine_block(self.difficulty) {
                    Ok(()) => {
                        proof {
                            let d = self.difficulty as nat;
                            if mine_timeout(block0, d) {
                                assert(!leading_zeros(hash_at_nonce(block0, block.nonce), d));
                            }
                        }
                    },
                    Err(MiningError::Timeout) => {
                        return Err(ChainError::MiningTimeout);
                    },
                }
            },
            ConsensusType::ProofOfStake => {
                if !self.contains_validator(block.validator.as_str()) {
                    return Err(ChainError::InvalidValidator);
                }
            },
            ConsensusType::DelegatedProofOfStake => {
                if self.validators.len() == 0 || !self.contains_validator(
                    block.validator.as_str(),
                ) {
                    return Err(ChainError::InvalidDelegate);
                }
            },
        }
        let ghost accts0 = self.state.accounts@;
        let ghost txs = block.transactions@;
        let mut t: usize = 0;
        while t < block.transactions.len()
            invariant
                t <= txs.len(),
                block == block0 || mine_success(
                    block0,
                    block,
                    old(self).difficulty as nat,
                ),
                block.transactions@ == txs,
                self.state.wf(),
                self.chain@ == old(self).chain@,
                self.difficulty == old(self).difficulty,
                self.block_time_secs == old(self).block_time_secs,
                self.validators@ == old(self).validators@,
                self.consensus == old(self).consensus,
                self.state.pending_transactions@ == old(self).state.pending_transactions@,
                total_supply(self.state.accounts@) == total_supply(accts0),
                apply_txs(accts0, txs.take(t as int)) == Ok::<
                    Seq<Account>,
                    (Seq<Account>, ChainError),
                >(self.state.accounts@),
            decreases txs.len() - t,
        {
            let ghost mid = self.state.accounts@;
            let sig_ok = block.transactions[t].verify_signature();
            proof {
                lemma_apply_txs_split(accts0, txs, t as int);
                assert(txs.skip(t as int)[0] == txs[t as int]);
            }
            if !sig_ok {
                proof {
                    assert(apply_txs(mid, txs.skip(t as int)) == Err::<
                        Seq<Account>,
                        (Seq<Account>, ChainError),
                    >((mid, ChainError::InvalidTransactionSignature)));
                }
                return Err(ChainError::InvalidTransactionSignature);
            }
            let tx_from = block.transactions[t].from.clone();
            let tx_to = block.transactions[t].to.clone();
            let tx_amount = block.transactions[t].amount;
            match self.state.transfer(tx_from.as_str(), tx_to.as_str(), tx_amount) {
                Ok(()) => {
                    proof {
                        assert(txs.skip(t as int).drop_first() =~= txs.skip(t + 1));
                        lemma_apply_txs_split(accts0, txs, t + 1);
                        assert(txs.take(t + 1).take(t as int) =~= txs.take(t as int));
                        assert(txs.take(t + 1)[t as int] == txs[t as int]);
                        assert(txs.take(t + 1).drop_first() =~= txs.drop_first().take(t as int));
                        // One step of the fold from the prefix state.
                        lemma_apply_txs_split(accts0, txs.take(t + 1), t as int);
                        assert(txs.take(t + 1).skip(t as int) =~= seq![txs[t as int]]);
                        assert(apply_txs(self.state.accounts@, Seq::<Transaction>::empty())
                            == Ok::<Seq<Account>, (Seq<Account>, ChainError)>(
                            self.state.accounts@,
                        ));
                        assert(seq![txs[t as int]].drop_first() =~= Seq::<Transaction>::empty());
                        assert(apply_txs(accts0, txs.take(t + 1)) == Ok::<
                            Seq<Account>,
                            (Seq<Account>, ChainError),
                        >(self.state.accounts@));
                    }
                },
                Err(e) => {
                    proof {
                        assert(apply_txs(mid, txs.skip(t as int)) == Err::<
                            Seq<Account>,
                            (Seq<Account>, ChainError),
                        >((mid, ChainError::Transfer(e))));
                    }
                    return Err(ChainError::Transfer(e));
                },
            }
            t = t + 1;
        }
        proof {
            assert(txs.take(txs.len() as int) =~= txs);
        }
        let ghost pre_push = self.chain@;
        proof {
            if self.consensus is ProofOfWork {
                lemma_mined_hash_recomputes(block0, block, self.difficulty as nat);
            }
        }
        self.chain.push(block);
        proof {
            assert(self.chain@.take(pre_push.len() as int) =~= pre_push);
            assert forall|i: int|
                1 <= i < self.chain@.len() implies (#[trigger] self.chain@[i]).index
                == self.chain@[i - 1].index + 1 by {
                if i < pre_push.len() {
                    assert(pre_push[i].index == pre_push[i - 1].index + 1);
                }
            }
            if chain_linked(pre_push) && (self.consensus is ProofOfWork || block0.hash@
                == block_hash_seq(block0)) {
                assert forall|i: int|
                    1 <= i < self.chain@.len() implies ((#[trigger] self.chain@[i]).hash@
                    == block_hash_seq(self.chain@[i]) && self.chain@[i].previous_hash@
                    == self.chain@[i - 1].hash@ && self.chain@[i].index == self.chain@[i
                    - 1].index + 1) by {
                    if i < pre_push.len() {
                        assert(pre_push[i].hash@ == block_hash_seq(pre_push[i])
                            && pre_push[i].previous_hash@ == pre_push[i - 1].hash@
                            && pre_push[i].index == pre_push[i - 1].index + 1);
                    }
                }
            }
        }
        Ok(())
    }

    /// Builds a block proposal: drains up to `BLOCK_TX_LIMIT` pending
    /// transactions (oldest first) into a draft chained to the latest
    /// block's hash, stamped for `validator`.
    pub fn create_block(&mut self, validator: String) -> (r: Result<Block, ChainError>)
        requires
            old(self).wf(),
        ensures
            final(self).wf(),
            final(self).config_unchanged(*old(self)),
            final(self).chain@ == old(self).chain@,
            final(self).state.accounts@ == old(self).state.accounts@,
            r is Ok,
            ({
                let k = if BLOCK_TX_LIMIT <= old(self).state.pending_transactions@.len() {
                    BLOCK_TX_LIMIT as int
                } else {
                    old(self).state.pending_transactions@.len() as int
                };
                let latest = old(self).chain@.last();
                final(self).state.pending_transactions@ == old(self).state.pending_transactions@.skip(k) && (match r {
                    Ok(b) => b.index == latest.index + 1 && b.previous_hash@ == latest.hash@
                        && b.nonce == 0 && b.validator == validator && b.transactions@ == old(self).state.pending_transactions@.take(k) && b.merkle_root@ == merkle_root_of(
                        tx_hashes(b.transactions@),
                    ) && b.hash@ == block_hash_seq(b),
                    Err(_) => false,
                })
            }),
    {
        let n = self.chain.len();
        proof {
            lemma_chain_index_at(self.chain@, n - 1);
        }
        let latest_index = self.chain[n - 1].index;
        let latest_hash = self.chain[n - 1].hash.clone();
        let transactions = self.state.get_pending_transactions(BLOCK_TX_LIMIT);
        let block = Block::new(latest_index + 1, transactions, latest_hash, validator);
        Ok(block)
    }

    /// Whole-chain verification: recomputes every non-genesis block's
    /// hash and checks linkage and index sequencing. Read-only, and asks
    /// nothing of the chain: it reports on whatever is stored.
    pub fn validate_chain(&self) -> (r: bool)
        ensures
            r == chain_linked(self.chain@),
    {
        let mut i: usize = 1;
        while i < self.chain.len()
            invariant
                1 <= i,
                i <= self.chain@.len() || i == 1,
                forall|k: int|
                    1 <= k < i ==> ((#[trigger] self.chain@[k]).hash@ == block_hash_seq(
                        self.chain@[k],
                    ) && self.chain@[k].previous_hash@ == self.chain@[k - 1].hash@
                        && self.chain@[k].index == self.chain@[k - 1].index + 1),
            decreases self.chain@.len() - i,
        {
            let recomputed = self.chain[i].calculate_hash();
            if !(self.chain[i].hash == recomputed) {
                proof {
                    if chain_linked(self.chain@) {
                        assert(self.chain@[i as int].hash@ == block_hash_seq(
                            self.chain@[i as int],
                        ));
                    }
                }
                return false;
            }
            if !str_eq(
                self.chain[i].previous_hash.as_str(),
                self.chain[i - 1].hash.as_str(),
            ) {
                proof {
                    if chain_linked(self.chain@) {
                        assert(self.chain@[i as int].previous_hash@ == self.chain@[i - 1].hash@);
                    }
                }
                return false;
            }
            if self.chain[i - 1].index == u64::MAX || self.chain[i].index != self.chain[i
                - 1].index + 1 {
                proof {
                    if chain_linked(self.chain@) {
                        assert(self.chain@[i as int].index == self.chain@[i - 1].index + 1);
                    }
                }
                return false;
            }
            i = i + 1;
        }
        true
    }
}

} // verus!
