//! Transactions: signed transfer requests. The id is derived from the
//! (sender, recipient, amount, timestamp) composite, and the signature is a
//! placeholder digest of (id, sender) — not real public-key cryptography.

use vstd::prelude::*;
use vstd::string::StringExecFns;

use crate::clock::now_seconds;
use crate::digest::sha256_hex;
use crate::digest::sha256_hex_of;
use crate::text::dec_str;
use crate::text::push_dec;

verus! {

/// A signed transfer request. Immutable once created.
pub struct Transaction {
    pub id: String,
    pub from: String,
    pub to: String,
    pub amount: u64,
    pub timestamp: u64,
    pub signature: String,
    pub gas_fee: u64,
}

/// The derived transaction id: the four-field composite joined with `-`.
pub open spec fn tx_id_seq(from: Seq<char>, to: Seq<char>, amount: u64, timestamp: u64) -> Seq<
    char,
> {
    from + "-"@ + to + "-"@ + dec_str(amount as nat) + "-"@ + dec_str(timestamp as nat)
}

/// The placeholder signature: the digest of the id followed by the sender.
pub open spec fn tx_signature_seq(id: Seq<char>, from: Seq<char>) -> Seq<char> {
    sha256_hex(id + from)
}

/// Whether the stored signature is the one `verify_signature` recomputes.
pub open spec fn signature_ok(t: Transaction) -> bool {
    t.signature@ == tx_signature_seq(t.id@, t.from@)
}

/// The canonical serialization of a transaction: every field, joined
/// with `|`. Used as the preimage of the content hash.
pub open spec fn tx_canonical_seq(t: Transaction) -> Seq<char> {
    t.id@ + "|"@ + t.from@ + "|"@ + t.to@ + "|"@ + dec_str(t.amount as nat) + "|"@ + dec_str(
        t.timestamp as nat,
    ) + "|"@ + t.signature@ + "|"@ + dec_str(t.gas_fee as nat)
}

/// The content hash of a transaction; the Merkle leaves are these.
pub open spec fn tx_hash_seq(t: Transaction) -> Seq<char> {
    sha256_hex(tx_canonical_seq(t))
}

impl Clone for Transaction {
    fn clone(&self) -> (res: Self)
        ensures
            res == *self,
    {
        Transaction {
            id: self.id.clone(),
            from: self.from.clone(),
            to: self.to.clone(),
            amount: self.amount,
            timestamp: self.timestamp,
            signature: self.signature.clone(),
            gas_fee: self.gas_fee,
        }
    }
}

impl Transaction {
    /// Creates a transfer request stamped with the current time: the id is
    /// derived from (sender, recipient, amount, timestamp) and the signature
    /// is the digest of (id, sender). Sender funds are not checked here.
    pub fn new(from: String, to: String, amount: u64, gas_fee: u64) -> (t: Transaction)
        ensures
            t.from == from,
            t.to == to,
            t.amount == amount,
            t.gas_fee == gas_fee,
            t.id@ == tx_id_seq(from@, to@, amount, t.timestamp),
            signature_ok(t),
    {
        let timestamp = now_seconds();
        let mut id = String::new();
        id.append(from.as_str());
        id.append("-");
        id.append(to.as_str());
        id.append("-");
        push_dec(&mut id, amount);
        id.append("-");
        push_dec(&mut id, timestamp);
        proof {
            assert(id@ =~= tx_id_seq(from@, to@, amount, timestamp));
        }
        let signature = Transaction::sign(id.as_str(), from.as_str());
        Transaction { id, from, to, amount, timestamp, signature, gas_fee }
    }

    /// The placeholder signing primitive: the digest of the transaction id
    /// followed by the (private) key, which here is the sender address.
    fn sign(transaction_id: &str, key: &str) -> (r: String)
        ensures
            r@ == tx_signature_seq(transaction_id@, key@),
    {
        let mut preimage = String::new();
        preimage.append(transaction_id);
        preimage.append(key);
        proof {
            assert(preimage@ =~= transaction_id@ + key@);
        }
        sha256_hex_of(preimage.as_str())
    }

    /// Recomputes the signature and compares it to the stored one.
    pub fn verify_signature(&self) -> (r: bool)
        ensures
            r == signature_ok(*self),
    {
        let expected = Transaction::sign(self.id.as_str(), self.from.as_str());
        self.signature == expected
    }

    /// The content hash: the digest of the canonical serialization.
    pub fn calculate_hash(&self) -> (r: String)
        ensures
            r@ == tx_hash_seq(*self),
    {
        let mut s = String::new();
        s.append(self.id.as_str());
        s.append("|");
        s.append(self.from.as_str());
        s.append("|");
        s.append(self.to.as_str());
        s.append("|");
        push_dec(&mut s, self.amount);
        s.append("|");
        push_dec(&mut s, self.timestamp);
        s.append("|");
        s.append(self.signature.as_str());
        s.append("|");
        push_dec(&mut s, self.gas_fee);
        proof {
            assert(s@ =~= tx_canonical_seq(*self));
        }
        sha256_hex_of(s.as_str())
    }
}

} // verus!
