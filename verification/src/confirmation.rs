//! Following a transaction from the pool of pending transactions into a
//! block.

use vstd::prelude::*;
use crate::text::{holds, texts};

verus! {

/// What the node tells of a pending transaction.
#[derive(Clone, Copy, Debug, PartialEq, Eq, Structural)]
pub struct MempoolEntry {
    /// Its virtual size, in bytes.
    pub size: u64,
    /// Its fee, in satoshis.
    pub fee: u64,
    /// How many pending transactions it builds on, itself included.
    pub ancestor_count: u64,
}

/// Where a transaction stands in the pool of pending transactions.
#[derive(Clone, Copy, Debug, PartialEq, Eq, Structural)]
pub enum MempoolStatus {
    /// It is pending.
    Pending(MempoolEntry),
    /// It is not there: it may be mined already, or not have arrived yet.
    /// This is no failure.
    NotFound,
}

/// A block that was mined.
#[derive(Clone, Debug, PartialEq, Eq)]
pub struct BlockRef {
    /// The hash of the block, in hex.
    pub hash: String,
}

/// Where the transaction stands, given the pool and what the node told of
/// the transaction when asked for it.
pub open spec fn status_of(
    mempool: Seq<Seq<char>>,
    txid: Seq<char>,
    entry: Option<MempoolEntry>,
) -> MempoolStatus {
    match entry {
        Some(e) if mempool.contains(txid) => MempoolStatus::Pending(e),
        _ => MempoolStatus::NotFound,
    }
}

/// Whether the transaction is among the pending ones, so that the node is
/// to be asked for it.
pub fn in_mempool(mempool: &Vec<String>, txid: &String) -> (pending: bool)
    ensures
        pending == texts(mempool@).contains(txid@),
{
    holds(mempool, txid)
}

/// Where the transaction stands: pending, where the pool holds it and the
/// node told of it; not found in every other case.
pub fn mempool_status(mempool: &Vec<String>, txid: &String, entry: Option<MempoolEntry>) -> (status:
    MempoolStatus)
    ensures
        status == status_of(texts(mempool@), txid@, entry),
{
    match entry {
        Some(e) => if holds(mempool, txid) {
            MempoolStatus::Pending(e)
        } else {
            MempoolStatus::NotFound
        },
        None => MempoolStatus::NotFound,
    }
}

/// The block that confirms: the one block that the node mined when asked for
/// one. Nothing comes back where it mined none or several.
pub fn confirming_block(mined: &Vec<String>) -> (block: Option<BlockRef>)
    ensures
        match block {
            Some(b) => mined@.len() == 1 && b.hash@ == mined@[0]@,
            None => mined@.len() != 1,
        },
{
    if mined.len() == 1 {
        Some(BlockRef { hash: mined[0].clone() })
    } else {
        None
    }
}

} // verus!
