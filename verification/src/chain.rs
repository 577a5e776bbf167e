//! Chain-side data: blocks, transactions and the three kinds of trigger.
//!
//! The block context is the read-only view of one chain block that every
//! host invoked for a trigger shares. Its one piece of behaviour is looking
//! up the transaction that produced a given log or call.

use vstd::prelude::*;

verus! {

/// A transaction of the block, identified by its hash.
#[derive(Clone, Copy, Debug)]
pub struct Transaction {
    pub hash: u64,
    pub index: u64,
}

/// A log emitted by a contract, the payload of a log trigger.
#[derive(Clone, Copy, Debug)]
pub struct Log {
    /// Address of the contract that emitted the log.
    pub address: u64,
    /// Hash of the transaction that produced the log, if the chain client
    /// attached one.
    pub transaction_hash: Option<u64>,
}

/// A contract call, the payload of a call trigger and the call context of a
/// block trigger.
#[derive(Clone, Copy, Debug)]
pub struct EthereumCall {
    /// Address of the contract that was called.
    pub to: u64,
    /// Hash of the transaction that carried the call, if the chain client
    /// attached one.
    pub transaction_hash: Option<u64>,
}

/// The read-only block context shared by all hosts invoked for one trigger.
#[derive(Debug)]
pub struct EthereumBlock {
    pub number: u64,
    /// The block's transactions, in block order.
    pub transactions: Vec<Transaction>,
}

/// One chain occurrence to be processed.
#[derive(Clone, Copy, Debug)]
pub enum EthereumTrigger {
    /// A log emission; processing it requires resolving its transaction.
    Log(Log),
    /// A contract call; processing it requires resolving its transaction.
    Call(EthereumCall),
    /// A new block, together with the call context used for block-level
    /// interest matching.
    Block(EthereumCall),
}

/// The first transaction in `txs` whose hash is `hash`, if any.
pub open spec fn find_transaction(txs: Seq<Transaction>, hash: u64) -> Option<Transaction>
    decreases txs.len(),
{
    if txs.len() == 0 {
        None
    } else if txs[0].hash == hash {
        Some(txs[0])
    } else {
        find_transaction(txs.drop_first(), hash)
    }
}

/// `find_transaction` returns a transaction with the requested hash exactly
/// when one is present.
pub proof fn lemma_find_transaction_some_iff(txs: Seq<Transaction>, hash: u64)
    ensures
        find_transaction(txs, hash) is Some <==> exists|i: int|
            0 <= i < txs.len() && txs[i].hash == hash,
        find_transaction(txs, hash) matches Some(t) ==> t.hash == hash,
    decreases txs.len(),
{
    if txs.len() > 0 && txs[0].hash != hash {
        lemma_find_transaction_some_iff(txs.drop_first(), hash);
        if find_transaction(txs.drop_first(), hash) is Some {
            let i = choose|i: int|
                0 <= i < txs.drop_first().len() && txs.drop_first()[i].hash == hash;
            assert(txs[i + 1].hash == hash);
        }
        if exists|i: int| 0 <= i < txs.len() && txs[i].hash == hash {
            let i = choose|i: int| 0 <= i < txs.len() && txs[i].hash == hash;
            assert(txs.drop_first()[i - 1].hash == hash);
        }
    }
}

impl EthereumBlock {
    /// The transaction of this block that produced the given log, at spec
    /// level: the first one whose hash matches the log's, if the log names
    /// one at all.
    pub open spec fn transaction_for_log_spec(self, log: Log) -> Option<Transaction> {
        match log.transaction_hash {
            None => None,
            Some(hash) => find_transaction(self.transactions@, hash),
        }
    }

    /// The transaction of this block that carried the given call, at spec
    /// level.
    pub open spec fn transaction_for_call_spec(self, call: EthereumCall) -> Option<Transaction> {
        match call.transaction_hash {
            None => None,
            Some(hash) => find_transaction(self.transactions@, hash),
        }
    }

    /// Looks up the transaction that produced the given log.
    pub fn transaction_for_log(&self, log: &Log) -> (r: Option<Transaction>)
        ensures
            r == self.transaction_for_log_spec(*log),
    {
        match log.transaction_hash {
            None => None,
            Some(hash) => self.find_by_hash(hash),
        }
    }

    /// Looks up the transaction that carried the given call.
    pub fn transaction_for_call(&self, call: &EthereumCall) -> (r: Option<Transaction>)
        ensures
            r == self.transaction_for_call_spec(*call),
    {
        match call.transaction_hash {
            None => None,
            Some(hash) => self.find_by_hash(hash),
        }
    }

    /// The first transaction of the block with the given hash, if any.
    fn find_by_hash(&self, hash: u64) -> (r: Option<Transaction>)
        ensures
            r == find_transaction(self.transactions@, hash),
    {
        let n = self.transactions.len();
        let mut i: usize = 0;
        proof {
            assert(self.transactions@.skip(0) =~= self.transactions@);
        }
        while i < n
            invariant
                0 <= i <= n,
                n == self.transactions@.len(),
                find_transaction(self.transactions@, hash) == find_transaction(
                    self.transactions@.skip(i as int),
                    hash,
                ),
            decreases n - i,
        {
            if self.transactions[i].hash == hash {
                proof {
                    assert(self.transactions@.skip(i as int)[0] == self.transactions@[i as int]);
                }
                return Some(self.transactions[i]);
            }
            proof {
                assert(self.transactions@.skip(i as int).drop_first() =~= self.transactions@.skip(
                    i as int + 1,
                ));
            }
            i = i + 1;
        }
        proof {
            assert(self.transactions@.skip(n as int) =~= Seq::<Transaction>::empty());
        }
        None
    }
}

} // verus!
