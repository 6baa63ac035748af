//! The Merkle commitment: a binary hash tree over an ordered sequence of
//! transaction content hashes. Adjacent hashes are combined pairwise level
//! by level; a lone hash at the end of a level is paired with itself. An
//! empty leaf list commits to the sentinel "0". This duplication rule is a
//! determinism choice, not a proof-compatible Merkle scheme.

use vstd::prelude::*;
use vstd::string::StringExecFns;

use crate::digest::sha256_hex;
use crate::digest::sha256_hex_of;
use crate::transaction::tx_hash_seq;
use crate::transaction::Transaction;

verus! {

/// One level of pairwise combination: each adjacent pair is hashed
/// together; a lone trailing hash is hashed with itself.
pub open spec fn merkle_pairs(hs: Seq<Seq<char>>) -> Seq<Seq<char>>
    decreases hs.len(),
{
    if hs.len() >= 2 {
        seq![sha256_hex(hs[0] + hs[1])] + merkle_pairs(hs.skip(2))
    } else if hs.len() == 1 {
        seq![sha256_hex(hs[0] + hs[0])]
    } else {
        Seq::empty()
    }
}

pub proof fn lemma_merkle_pairs_len(hs: Seq<Seq<char>>)
    ensures
        merkle_pairs(hs).len() == (hs.len() + 1) / 2,
    decreases hs.len(),
{
    if hs.len() >= 2 {
        lemma_merkle_pairs_len(hs.skip(2));
    }
}

/// Levels are combined until a single hash remains; that hash is the root.
pub open spec fn merkle_root_of(hs: Seq<Seq<char>>) -> Seq<char>
    decreases hs.len(),
    via merkle_root_of_decreases
{
    if hs.len() == 0 {
        "0"@
    } else if hs.len() == 1 {
        hs[0]
    } else {
        merkle_root_of(merkle_pairs(hs))
    }
}

#[via_fn]
proof fn merkle_root_of_decreases(hs: Seq<Seq<char>>) {
    if hs.len() >= 2 {
        lemma_merkle_pairs_len(hs);
    }
}

/// The content hashes of a transaction list, in order.
pub open spec fn tx_hashes(txs: Seq<Transaction>) -> Seq<Seq<char>> {
    Seq::new(txs.len(), |i: int| tx_hash_seq(txs[i]))
}

/// An empty leaf list commits to the sentinel "0".
pub proof fn lemma_merkle_root_empty()
    ensures
        merkle_root_of(Seq::<Seq<char>>::empty()) == "0"@,
{
}

/// A single leaf is its own root: one hash already remains, so no level
/// is built and the duplication rule never fires.
pub proof fn lemma_merkle_root_single(h: Seq<char>)
    ensures
        merkle_root_of(seq![h]) == h,
{
}

/// Three leaves: the first two pair up, the lone third is paired with
/// itself, and the two results pair for the root.
pub proof fn lemma_merkle_root_three(h0: Seq<char>, h1: Seq<char>, h2: Seq<char>)
    ensures
        merkle_root_of(seq![h0, h1, h2]) == sha256_hex(
            sha256_hex(h0 + h1) + sha256_hex(h2 + h2),
        ),
{
    let hs = seq![h0, h1, h2];
    assert(hs.skip(2) =~= seq![h2]);
    assert(merkle_pairs(seq![h2]) =~= seq![sha256_hex(h2 + h2)]);
    assert(merkle_pairs(hs) =~= seq![sha256_hex(h0 + h1), sha256_hex(h2 + h2)]);
    let level = merkle_pairs(hs);
    assert(level.skip(2) =~= Seq::<Seq<char>>::empty());
    assert(merkle_pairs(Seq::<Seq<char>>::empty()) =~= Seq::<Seq<char>>::empty());
    assert(merkle_pairs(level) =~= seq![sha256_hex(sha256_hex(h0 + h1) + sha256_hex(h2 + h2))]);
    assert(merkle_root_of(hs) == merkle_root_of(level));
    assert(level.len() == 2);
    assert(merkle_root_of(level) == merkle_root_of(merkle_pairs(level)));
    let top = merkle_pairs(level);
    assert(top.len() == 1);
    assert(merkle_root_of(top) == top[0]);
    assert(top[0] == sha256_hex(sha256_hex(h0 + h1) + sha256_hex(h2 + h2)));
}

/// Pairing distributes over concatenation at an even split point.
pub proof fn lemma_merkle_pairs_concat(s: Seq<Seq<char>>, t: Seq<Seq<char>>)
    requires
        s.len() % 2 == 0,
    ensures
        merkle_pairs(s + t) == merkle_pairs(s) + merkle_pairs(t),
    decreases s.len(),
{
    if s.len() == 0 {
        assert(s + t =~= t);
        assert(merkle_pairs(s) + merkle_pairs(t) =~= merkle_pairs(t));
    } else {
        assert((s + t).skip(2) =~= s.skip(2) + t);
        lemma_merkle_pairs_concat(s.skip(2), t);
        assert(merkle_pairs(s + t) =~= merkle_pairs(s) + merkle_pairs(t));
    }
}

/// Computes the Merkle root of a transaction list.
pub fn calculate_merkle_root(transactions: &Vec<Transaction>) -> (r: String)
    ensures
        r@ == merkle_root_of(tx_hashes(transactions@)),
{
    if transactions.len() == 0 {
        let r = String::from_str("0");
        proof {
            assert(tx_hashes(transactions@) =~= Seq::<Seq<char>>::empty());
        }
        return r;
    }
    let mut hashes: Vec<String> = Vec::new();
    let mut t: usize = 0;
    while t < transactions.len()
        invariant
            t <= transactions@.len(),
            hashes.deep_view() =~= tx_hashes(transactions@).take(t as int),
        decreases transactions@.len() - t,
    {
        proof {
            assert(tx_hashes(transactions@).len() == transactions@.len());
            assert(hashes.deep_view().len() == hashes@.len());
            assert(hashes.deep_view().len() == t as int);
        }
        let ghost prev = hashes@;
        let ghost prev_dv = hashes.deep_view();
        let h = transactions[t].calculate_hash();
        hashes.push(h);
        proof {
            assert(prev.len() == t as int);
            assert(hashes@ == prev.push(h));
            assert forall|k: int| 0 <= k < t + 1 implies hashes.deep_view()[k] == tx_hashes(
                transactions@,
            ).take(t + 1)[k] by {
                if k < t {
                    assert(hashes@[k] == prev[k]);
                    assert(prev_dv[k] == tx_hashes(transactions@).take(t as int)[k]);
                } else {
                    assert(hashes@[k] == h);
                }
            }
            assert(hashes.deep_view() =~= tx_hashes(transactions@).take(t + 1));
        }
        t = t + 1;
    }
    proof {
        assert(tx_hashes(transactions@).take(transactions@.len() as int) =~= tx_hashes(
            transactions@,
        ));
    }
    while hashes.len() > 1
        invariant
            hashes@.len() >= 1,
            merkle_root_of(hashes.deep_view()) == merkle_root_of(tx_hashes(transactions@)),
        decreases hashes@.len(),
    {
        let ghost level = hashes.deep_view();
        let mut next: Vec<String> = Vec::new();
        let mut i: usize = 0;
        while i + 1 < hashes.len()
            invariant
                hashes.deep_view() == level,
                hashes@.len() >= 2,
                i % 2 == 0,
                i <= hashes@.len(),
                next.deep_view() =~= merkle_pairs(level.take(i as int)),
            decreases hashes@.len() - i,
        {
            let mut pre = String::new();
            pre.append(hashes[i].as_str());
            pre.append(hashes[i + 1].as_str());
            proof {
                assert(pre@ =~= level[i as int] + level[i + 1]);
            }
            let combined = sha256_hex_of(pre.as_str());
            next.push(combined);
            proof {
                let taken = level.take(i as int);
                let two = seq![level[i as int], level[i + 1]];
                assert(level.take(i + 2) =~= taken + two);
                lemma_merkle_pairs_concat(taken, two);
                assert(two.skip(2) =~= Seq::<Seq<char>>::empty());
                assert(merkle_pairs(Seq::<Seq<char>>::empty()) =~= Seq::<Seq<char>>::empty());
                assert(merkle_pairs(two) =~= seq![sha256_hex(level[i as int] + level[i + 1])]);
                assert(next.deep_view() =~= merkle_pairs(level.take(i + 2)));
            }
            i = i + 2;
        }
        if i < hashes.len() {
            // A lone hash at the end of the level is paired with itself.
            let mut pre = String::new();
            pre.append(hashes[i].as_str());
            pre.append(hashes[i].as_str());
            proof {
                assert(pre@ =~= level[i as int] + level[i as int]);
            }
            let combined = sha256_hex_of(pre.as_str());
            next.push(combined);
            proof {
                let taken = level.take(i as int);
                let one = seq![level[i as int]];
                assert(level.take(i + 1) =~= taken + one);
                lemma_merkle_pairs_concat(taken, one);
                assert(next.deep_view() =~= merkle_pairs(level.take(i + 1)));
            }
            i = i + 1;
        }
        proof {
            assert(level.take(i as int) =~= level);
            lemma_merkle_pairs_len(level);
        }
        hashes = next;
        proof {
            assert(hashes.deep_view() == merkle_pairs(level));
        }
    }
    proof {
        assert(hashes.deep_view()[0] == hashes@[0]@);
        assert(merkle_root_of(hashes.deep_view()) == hashes@[0]@);
    }
    let root = hashes[0].clone();
    root
}

} // verus!
