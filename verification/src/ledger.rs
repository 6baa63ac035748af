//! The account ledger: a map from address to account, a FIFO queue of
//! pending transactions, and the atomic balance transfer. A transfer either
//! applies in full (debit, sender nonce bump, credit) or not at all; the sum
//! of all balances never changes.

use vstd::prelude::*;

use crate::text::str_eq;
use crate::transaction::Transaction;

verus! {

/// An account entry: balance, a transfer counter, and optional contract
/// code. Never deleted once registered.
pub struct Account {
    pub address: String,
    pub balance: u64,
    pub nonce: u64,
    pub contract_code: Option<String>,
}

impl Account {
    /// A fresh account: the given starting balance, a zero nonce, and no
    /// contract code.
    pub fn new(address: String, initial_balance: u64) -> (r: Account)
        ensures
            r.address == address,
            r.balance == initial_balance,
            r.nonce == 0,
            r.contract_code is None,
    {
        Account { address, balance: initial_balance, nonce: 0, contract_code: None }
    }

    /// Whether contract code has been deployed to this account.
    pub fn is_contract(&self) -> (r: bool)
        ensures
            r == (self.contract_code is Some),
    {
        match &self.contract_code {
            Some(_) => true,
            None => false,
        }
    }

    /// Deploys (or replaces) the account's contract code.
    pub fn deploy_contract(&mut self, code: String)
        ensures
            final(self).contract_code == Some(code),
            final(self).address == old(self).address,
            final(self).balance == old(self).balance,
            final(self).nonce == old(self).nonce,
    {
        self.contract_code = Some(code);
    }
}

/// Why a transfer was refused. Refusal never mutates the ledger.
#[derive(Clone, Copy, PartialEq, Eq, Debug)]
pub enum TransferError {
    SenderNotFound,
    InsufficientBalance,
    ReceiverNotFound,
}

/// The shared ledger state: registered accounts and the pending queue.
pub struct BlockchainState {
    pub accounts: Vec<Account>,
    pub pending_transactions: Vec<Transaction>,
}

/// The sum of all balances.
pub open spec fn total_supply(accts: Seq<Account>) -> int
    decreases accts.len(),
{
    if accts.len() == 0 {
        0
    } else {
        accts[0].balance + total_supply(accts.drop_first())
    }
}

/// Whether some account is registered under `addr`.
pub open spec fn has_account(accts: Seq<Account>, addr: Seq<char>) -> bool {
    exists|k: int| 0 <= k < accts.len() && accts[k].address@ == addr
}

/// The position of the account registered under `addr`.
pub open spec fn account_index(accts: Seq<Account>, addr: Seq<char>) -> int {
    choose|k: int| 0 <= k < accts.len() && accts[k].address@ == addr
}

/// The balance registered under `addr`.
pub open spec fn balance_of(accts: Seq<Account>, addr: Seq<char>) -> u64 {
    accts[account_index(accts, addr)].balance
}

/// The transfer counter registered under `addr`.
pub open spec fn nonce_of(accts: Seq<Account>, addr: Seq<char>) -> u64 {
    accts[account_index(accts, addr)].nonce
}

/// No two accounts share an address.
pub open spec fn unique_addresses(accts: Seq<Account>) -> bool {
    forall|i: int, j: int|
        #![trigger accts[i], accts[j]]
        0 <= i < j < accts.len() ==> accts[i].address@ != accts[j].address@
}

/// The ledger invariant: addresses are unique and the total supply fits
/// a balance word, so a credit of an amount already held elsewhere in the
/// ledger cannot overflow.
pub open spec fn accounts_wf(accts: Seq<Account>) -> bool {
    unique_addresses(accts) && total_supply(accts) <= u64::MAX
}

/// The nonce bump: unchecked 64-bit wraparound, as a real counter register
/// would behave.
pub open spec fn bump_nonce(n: u64) -> u64 {
    if n == u64::MAX {
        0
    } else {
        (n + 1) as u64
    }
}

/// Whether a transfer of `amount` from `from` to `to` is owed success.
pub open spec fn can_transfer(
    accts: Seq<Account>,
    from: Seq<char>,
    to: Seq<char>,
    amount: u64,
) -> bool {
    has_account(accts, from) && balance_of(accts, from) >= amount && has_account(accts, to)
}

/// What `transfer` does: the refusals in their checking order, and on
/// success the debited sender (nonce bumped) and the credited receiver.
/// A self-transfer leaves the balance alone and still bumps the nonce.
pub open spec fn transfer_spec(
    accts: Seq<Account>,
    from: Seq<char>,
    to: Seq<char>,
    amount: u64,
) -> Result<Seq<Account>, TransferError> {
    if !has_account(accts, from) {
        Err(TransferError::SenderNotFound)
    } else if balance_of(accts, from) < amount {
        Err(TransferError::InsufficientBalance)
    } else if !has_account(accts, to) {
        Err(TransferError::ReceiverNotFound)
    } else {
        let si = account_index(accts, from);
        let s0 = accts[si];
        if from == to {
            Ok(accts.update(si, Account { nonce: bump_nonce(s0.nonce), ..s0 }))
        } else {
            let ri = account_index(accts, to);
            let r0 = accts[ri];
            Ok(
                accts.update(
                    si,
                    Account {
                        balance: (s0.balance - amount) as u64,
                        nonce: bump_nonce(s0.nonce),
                        ..s0
                    },
                ).update(ri, Account { balance: (r0.balance + amount) as u64, ..r0 }),
            )
        }
    }
}

/// Replacing one account changes the total supply by the balance delta.
pub proof fn lemma_total_supply_update(accts: Seq<Account>, i: int, a: Account)
    requires
        0 <= i < accts.len(),
    ensures
        total_supply(accts.update(i, a)) == total_supply(accts) - accts[i].balance + a.balance,
    decreases accts.len(),
{
    if i == 0 {
        assert(accts.update(0, a).drop_first() =~= accts.drop_first());
    } else {
        assert(accts.update(i, a).drop_first() =~= accts.drop_first().update(i - 1, a));
        lemma_total_supply_update(accts.drop_first(), i - 1, a);
    }
}

/// Registering one more account adds its balance to the total supply.
pub proof fn lemma_total_supply_push(accts: Seq<Account>, a: Account)
    ensures
        total_supply(accts.push(a)) == total_supply(accts) + a.balance,
    decreases accts.len(),
{
    if accts.len() == 0 {
        assert(accts.push(a)[0] == a);
        assert(accts.push(a).drop_first() =~= Seq::<Account>::empty());
        assert(total_supply(Seq::<Account>::empty()) == 0);
    } else {
        assert(accts.push(a)[0] == accts[0]);
        assert(accts.push(a).drop_first() =~= accts.drop_first().push(a));
        lemma_total_supply_push(accts.drop_first(), a);
    }
}

/// Every single balance is bounded by the total supply.
pub proof fn lemma_balance_le_total(accts: Seq<Account>, i: int)
    requires
        0 <= i < accts.len(),
    ensures
        accts[i].balance <= total_supply(accts),
        total_supply(accts) >= 0,
    decreases accts.len(),
{
    lemma_total_supply_nonneg(accts);
    if i == 0 {
        lemma_total_supply_nonneg(accts.drop_first());
    } else {
        lemma_balance_le_total(accts.drop_first(), i - 1);
    }
}

/// Balances are unsigned, so the total supply is never negative.
pub proof fn lemma_total_supply_nonneg(accts: Seq<Account>)
    ensures
        total_supply(accts) >= 0,
    decreases accts.len(),
{
    if accts.len() > 0 {
        lemma_total_supply_nonneg(accts.drop_first());
    }
}

/// Two distinct balances together are bounded by the total supply.
pub proof fn lemma_two_balances_le_total(accts: Seq<Account>, i: int, j: int)
    requires
        0 <= i < accts.len(),
        0 <= j < accts.len(),
        i != j,
    ensures
        accts[i].balance + accts[j].balance <= total_supply(accts),
    decreases accts.len(),
{
    if i == 0 {
        lemma_balance_le_total(accts.drop_first(), j - 1);
    } else if j == 0 {
        lemma_balance_le_total(accts.drop_first(), i - 1);
    } else {
        lemma_two_balances_le_total(accts.drop_first(), i - 1, j - 1);
    }
}

/// Under unique addresses, any position holding `addr` is the position
/// `account_index` picks.
pub proof fn lemma_index_unique(accts: Seq<Account>, addr: Seq<char>, k: int)
    requires
        unique_addresses(accts),
        0 <= k < accts.len(),
        accts[k].address@ == addr,
    ensures
        has_account(accts, addr),
        account_index(accts, addr) == k,
{
    assert(has_account(accts, addr));
    let c = account_index(accts, addr);
    assert(0 <= c < accts.len() && accts[c].address@ == addr);
    if c < k {
        assert(accts[c].address@ != accts[k].address@);
    } else if k < c {
        assert(accts[k].address@ != accts[c].address@);
    }
}

/// A funded transfer between two distinct accounts moves exactly
/// `amount` and nothing else: the sender's balance drops by it, the
/// receiver's rises by it, the sender's nonce is bumped, every other
/// account keeps its balance, and the sum of all balances is unchanged.
/// Chained with itself, this keeps the total supply invariant across any
/// number of successful transfers.
pub proof fn lemma_transfer_moves_amount(
    accts: Seq<Account>,
    from: Seq<char>,
    to: Seq<char>,
    amount: u64,
)
    requires
        accounts_wf(accts),
        from != to,
        can_transfer(accts, from, to, amount),
    ensures
        transfer_spec(accts, from, to, amount) is Ok,
        ({
            let after = transfer_spec(accts, from, to, amount)->Ok_0;
            accounts_wf(after) && has_account(after, from) && has_account(after, to)
                && balance_of(after, from) + amount == balance_of(accts, from) && balance_of(
                after,
                to,
            ) == balance_of(accts, to) + amount && nonce_of(after, from) == bump_nonce(
                nonce_of(accts, from),
            ) && total_supply(after) == total_supply(accts) && (forall|other: Seq<char>|
                other != from && other != to && has_account(accts, other) ==> has_account(
                    after,
                    other,
                ) && balance_of(after, other) == balance_of(accts, other))
        }),
{
    let si = account_index(accts, from);
    let ri = account_index(accts, to);
    assert(0 <= si < accts.len() && accts[si].address@ == from);
    assert(0 <= ri < accts.len() && accts[ri].address@ == to);
    assert(si != ri);
    lemma_two_balances_le_total(accts, si, ri);
    lemma_total_supply_nonneg(accts);
    let s0 = accts[si];
    let r0 = accts[ri];
    let debited = Account {
        balance: (s0.balance - amount) as u64,
        nonce: bump_nonce(s0.nonce),
        ..s0
    };
    let credited = Account { balance: (r0.balance + amount) as u64, ..r0 };
    let after = accts.update(si, debited).update(ri, credited);
    assert(transfer_spec(accts, from, to, amount) == Ok::<Seq<Account>, TransferError>(after));
    lemma_total_supply_update(accts, si, debited);
    lemma_total_supply_update(accts.update(si, debited), ri, credited);
    assert forall|p: int, q: int|
        #![trigger after[p], after[q]]
        0 <= p < q < after.len() implies after[p].address@ != after[q].address@ by {
        assert(accts[p].address@ != accts[q].address@);
    }
    lemma_index_unique(after, from, si);
    lemma_index_unique(after, to, ri);
    assert forall|other: Seq<char>|
        other != from && other != to && has_account(accts, other) implies has_account(
        after,
        other,
    ) && balance_of(after, other) == balance_of(accts, other) by {
        let j = account_index(accts, other);
        assert(0 <= j < accts.len() && accts[j].address@ == other);
        assert(j != si && j != ri);
        assert(after[j] == accts[j]);
        lemma_index_unique(after, other, j);
    }
}

/// An underfunded transfer is refused as InsufficientBalance; the spec
/// result carries no new ledger, and `transfer` itself promises the
/// ledger untouched on every refusal.
pub proof fn lemma_transfer_insufficient(
    accts: Seq<Account>,
    from: Seq<char>,
    to: Seq<char>,
    amount: u64,
)
    requires
        has_account(accts, from),
        balance_of(accts, from) < amount,
    ensures
        transfer_spec(accts, from, to, amount) == Err::<Seq<Account>, TransferError>(
            TransferError::InsufficientBalance,
        ),
{
}

/// Finds the position of the account registered under `address`.
fn find_account_index(accounts: &Vec<Account>, address: &str) -> (r: Option<usize>)
    ensures
        match r {
            Some(i) => 0 <= i < accounts@.len() && accounts@[i as int].address@ == address@,
            None => !has_account(accounts@, address@),
        },
{
    let mut k: usize = 0;
    while k < accounts.len()
        invariant
            k <= accounts@.len(),
            forall|j: int| 0 <= j < k ==> accounts@[j].address@ != address@,
        decreases accounts@.len() - k,
    {
        if str_eq(accounts[k].address.as_str(), address) {
            return Some(k);
        }
        k = k + 1;
    }
    proof {
        assert forall|j: int| !(0 <= j < accounts@.len() && accounts@[j].address@ == address@) by {
            if 0 <= j < accounts@.len() {
                assert(accounts@[j].address@ != address@);
            }
        }
    }
    None
}

impl BlockchainState {
    /// The ledger invariant; established by `new` and preserved by every
    /// method.
    pub open spec fn wf(self) -> bool {
        accounts_wf(self.accounts@)
    }

    /// An empty ledger: no accounts, nothing pending.
    pub fn new() -> (r: BlockchainState)
        ensures
            r.wf(),
            r.accounts@ =~= Seq::<Account>::empty(),
            r.pending_transactions@ =~= Seq::<Transaction>::empty(),
            total_supply(r.accounts@) == 0,
    {
        BlockchainState { accounts: Vec::new(), pending_transactions: Vec::new() }
    }

    /// Registers (or overwrites) an account under `address` with the given
    /// starting balance and a fresh nonce.
    pub fn create_account(&mut self, address: String, initial_balance: u64)
        requires
            old(self).wf(),
            total_supply(old(self).accounts@) - (if has_account(old(self).accounts@, address@) {
                balance_of(old(self).accounts@, address@) as int
            } else {
                0
            }) + initial_balance <= u64::MAX,
        ensures
            final(self).wf(),
            final(self).pending_transactions@ == old(self).pending_transactions@,
            has_account(final(self).accounts@, address@),
            total_supply(final(self).accounts@) == total_supply(old(self).accounts@) - (
            if has_account(old(self).accounts@, address@) {
                balance_of(old(self).accounts@, address@) as int
            } else {
                0
            }) + initial_balance,
            ({
                let i = account_index(final(self).accounts@, address@);
                let a = final(self).accounts@[i];
                a.address@ == address@ && a.balance == initial_balance && a.nonce == 0
                    && a.contract_code is None && (if has_account(old(self).accounts@, address@) {
                    i == account_index(old(self).accounts@, address@) && final(self).accounts@
                        == old(self).accounts@.update(i, a)
                } else {
                    i == old(self).accounts@.len() && final(self).accounts@ == old(
                        self,
                    ).accounts@.push(a)
                })
            }),
    {
        let fresh = Account::new(address, initial_balance);
        match find_account_index(&self.accounts, fresh.address.as_str()) {
            Some(i) => {
                proof {
                    lemma_index_unique(self.accounts@, fresh.address@, i as int);
                    lemma_total_supply_update(self.accounts@, i as int, fresh);
                }
                let _replaced = self.accounts.remove(i);
                self.accounts.insert(i, fresh);
                proof {
                    assert(self.accounts@ =~= old(self).accounts@.update(
                        i as int,
                        self.accounts@[i as int],
                    ));
                }
                proof {
                    let accts = self.accounts@;
                    assert forall|p: int, q: int|
                        #![trigger accts[p], accts[q]]
                        0 <= p < q < accts.len() implies accts[p].address@ != accts[q].address@ by {
                        assert(old(self).accounts@[p].address@ != old(self).accounts@[q].address@);
                    }
                    lemma_index_unique(accts, address@, i as int);
                }
            },
            None => {
                proof {
                    lemma_total_supply_push(self.accounts@, fresh);
                }
                self.accounts.push(fresh);
                proof {
                    let accts = self.accounts@;
                    let n = accts.len() - 1;
                    assert forall|p: int, q: int|
                        #![trigger accts[p], accts[q]]
                        0 <= p < q < accts.len() implies accts[p].address@ != accts[q].address@ by {
                        if q < n {
                            assert(old(self).accounts@[p].address@ != old(
                                self,
                            ).accounts@[q].address@);
                        } else {
                            assert(accts[q].address@ == address@);
                            if old(self).accounts@[p].address@ == address@ {
                                assert(has_account(old(self).accounts@, address@));
                            }
                        }
                    }
                    lemma_index_unique(accts, address@, n);
                }
            },
        }
    }

    /// Looks up the balance registered under `address`.
    pub fn get_balance(&self, address: &str) -> (r: Option<u64>)
        requires
            self.wf(),
        ensures
            r == (if has_account(self.accounts@, address@) {
                Some(balance_of(self.accounts@, address@))
            } else {
                None::<u64>
            }),
    {
        match find_account_index(&self.accounts, address) {
            Some(i) => {
                proof {
                    lemma_index_unique(self.accounts@, address@, i as int);
                }
                Some(self.accounts[i].balance)
            },
            None => None,
        }
    }

    /// Moves `amount` from `from` to `to`: debit, sender nonce bump and
    /// credit apply as one step, or — on any refusal — not at all. The sum
    /// of all balances is unchanged either way.
    pub fn transfer(&mut self, from: &str, to: &str, amount: u64) -> (r: Result<(), TransferError>)
        requires
            old(self).wf(),
        ensures
            final(self).wf(),
            final(self).pending_transactions@ == old(self).pending_transactions@,
            total_supply(final(self).accounts@) == total_supply(old(self).accounts@),
            r is Ok <==> can_transfer(old(self).accounts@, from@, to@, amount),
            match r {
                Ok(()) => transfer_spec(old(self).accounts@, from@, to@, amount) == Ok::<
                    Seq<Account>,
                    TransferError,
                >(final(self).accounts@),
                Err(e) => transfer_spec(old(self).accounts@, from@, to@, amount) == Err::<
                    Seq<Account>,
                    TransferError,
                >(e) && final(self).accounts@ == old(self).accounts@,
            },
    {
        let ghost accts0 = self.accounts@;
        let si = match find_account_index(&self.accounts, from) {
            Some(si) => si,
            None => {
                return Err(TransferError::SenderNotFound);
            },
        };
        proof {
            lemma_index_unique(accts0, from@, si as int);
        }
        if self.accounts[si].balance < amount {
            return Err(TransferError::InsufficientBalance);
        }
        let ri = match find_account_index(&self.accounts, to) {
            Some(ri) => ri,
            None => {
                return Err(TransferError::ReceiverNotFound);
            },
        };
        proof {
            lemma_index_unique(accts0, to@, ri as int);
        }
        if si == ri {
            // Self-transfer: the debit and the credit cancel out.
            let s0 = self.accounts.remove(si);
            let nonce = if s0.nonce == u64::MAX {
                0
            } else {
                s0.nonce + 1
            };
            let updated = Account { nonce, ..s0 };
            self.accounts.insert(si, updated);
            proof {
                assert(self.accounts@ =~= accts0.update(si as int, updated));
                lemma_total_supply_update(accts0, si as int, updated);
                assert forall|p: int, q: int|
                    #![trigger self.accounts@[p], self.accounts@[q]]
                    0 <= p < q < self.accounts@.len() implies self.accounts@[p].address@
                    != self.accounts@[q].address@ by {
                    assert(accts0[p].address@ != accts0[q].address@);
                }
            }
            Ok(())
        } else {
            proof {
                lemma_two_balances_le_total(accts0, si as int, ri as int);
                lemma_total_supply_nonneg(accts0);
            }
            let s0 = self.accounts.remove(si);
            let nonce = if s0.nonce == u64::MAX {
                0
            } else {
                s0.nonce + 1
            };
            let debited = Account { balance: s0.balance - amount, nonce, ..s0 };
            self.accounts.insert(si, debited);
            proof {
                assert(self.accounts@ =~= accts0.update(si as int, debited));
            }
            let r0 = self.accounts.remove(ri);
            let credited = Account { balance: r0.balance + amount, ..r0 };
            self.accounts.insert(ri, credited);
            proof {
                assert(self.accounts@ =~= accts0.update(si as int, debited).update(
                    ri as int,
                    credited,
                ));
                lemma_total_supply_update(accts0, si as int, debited);
                lemma_total_supply_update(
                    accts0.update(si as int, debited),
                    ri as int,
                    credited,
                );
                assert forall|p: int, q: int|
                    #![trigger self.accounts@[p], self.accounts@[q]]
                    0 <= p < q < self.accounts@.len() implies self.accounts@[p].address@
                    != self.accounts@[q].address@ by {
                    assert(accts0[p].address@ != accts0[q].address@);
                }
            }
            Ok(())
        }
    }

    /// Appends a transaction to the pending queue.
    pub fn add_pending_transaction(&mut self, transaction: Transaction)
        ensures
            final(self).accounts@ == old(self).accounts@,
            final(self).pending_transactions@ == old(self).pending_transactions@.push(transaction),
    {
        self.pending_transactions.push(transaction);
    }

    /// Removes and returns up to `limit` of the oldest pending
    /// transactions, in arrival order.
    pub fn get_pending_transactions(&mut self, limit: usize) -> (r: Vec<Transaction>)
        ensures
            final(self).accounts@ == old(self).accounts@,
            ({
                let k = if limit <= old(self).pending_transactions@.len() {
                    limit as int
                } else {
                    old(self).pending_transactions@.len() as int
                };
                r@ == old(self).pending_transactions@.take(k) && final(self).pending_transactions@
                    == old(self).pending_transactions@.skip(k)
            }),
    {
        let k = if limit <= self.pending_transactions.len() {
            limit
        } else {
            self.pending_transactions.len()
        };
        let mut r: Vec<Transaction> = Vec::new();
        let mut j: usize = 0;
        while j < k
            invariant
                j <= k,
                k <= old(self).pending_transactions@.len(),
                self.accounts@ == old(self).accounts@,
                r@ =~= old(self).pending_transactions@.take(j as int),
                self.pending_transactions@ =~= old(self).pending_transactions@.skip(j as int),
            decreases k - j,
        {
            let tx = self.pending_transactions.remove(0);
            r.push(tx);
            proof {
                assert(r@ =~= old(self).pending_transactions@.take(j + 1));
                assert(self.pending_transactions@ =~= old(self).pending_transactions@.skip(j + 1));
            }
            j = j + 1;
        }
        r
    }
}

} // verus!
