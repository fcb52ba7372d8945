//! What the node reports of transactions, as plain values.

use vstd::prelude::*;
use crate::script::{consensus_decode, decoded_transaction};

verus! {

/// The network whose addresses are accepted.
#[derive(Clone, Copy, Debug, PartialEq, Eq, Structural)]
pub enum Network {
    Main,
    Testnet,
    Testnet4,
    Signet,
    Regtest,
}

/// A reference to one output of an earlier transaction.
#[derive(Clone, Debug, PartialEq, Eq)]
pub struct OutPoint {
    /// The id of the earlier transaction, in hex.
    pub txid: String,
    /// The position of the output in it.
    pub vout: u32,
}

/// One output of a transaction.
#[derive(Clone, Debug, PartialEq, Eq)]
pub struct TxOutput {
    /// The amount, in satoshis.
    pub value: u64,
    /// The destination script.
    pub script: Vec<u8>,
}

/// A transaction as the node reports it.
#[derive(Clone, Debug, PartialEq, Eq)]
pub struct TxDetails {
    /// The id of the transaction, in hex.
    pub txid: String,
    /// The outputs that it spends, in order.
    pub inputs: Vec<OutPoint>,
    /// The outputs that it creates, in order.
    pub outputs: Vec<TxOutput>,
    /// The hash of the block that holds it, in hex, once it is mined.
    pub block_hash: Option<String>,
}

/// An [`OutPoint`] as a mathematical value.
pub ghost struct OutPointView {
    pub txid: Seq<char>,
    pub vout: u32,
}

/// A [`TxOutput`] as a mathematical value.
pub ghost struct TxOutputView {
    pub value: u64,
    pub script: Seq<u8>,
}

/// A [`TxDetails`] as a mathematical value.
pub ghost struct TxDetailsView {
    pub txid: Seq<char>,
    pub inputs: Seq<OutPointView>,
    pub outputs: Seq<TxOutputView>,
    pub block_hash: Option<Seq<char>>,
}

impl View for OutPoint {
    type V = OutPointView;

    open spec fn view(&self) -> OutPointView {
        OutPointView { txid: self.txid@, vout: self.vout }
    }
}

impl View for TxOutput {
    type V = TxOutputView;

    open spec fn view(&self) -> TxOutputView {
        TxOutputView { value: self.value, script: self.script@ }
    }
}

/// The references that a list holds, as mathematical values.
pub open spec fn reference_views(list: Seq<OutPoint>) -> Seq<OutPointView> {
    list.map_values(|r: OutPoint| r@)
}

/// The outputs that a list holds, as mathematical values.
pub open spec fn output_views(list: Seq<TxOutput>) -> Seq<TxOutputView> {
    list.map_values(|o: TxOutput| o@)
}

/// A hash that may be missing, as a mathematical value.
pub open spec fn hash_view(hash: Option<String>) -> Option<Seq<char>> {
    match hash {
        Some(h) => Some(h@),
        None => None,
    }
}

impl View for TxDetails {
    type V = TxDetailsView;

    open spec fn view(&self) -> TxDetailsView {
        TxDetailsView {
            txid: self.txid@,
            inputs: reference_views(self.inputs@),
            outputs: output_views(self.outputs@),
            block_hash: hash_view(self.block_hash),
        }
    }
}

impl TxDetails {
    /// What the node reports of a transaction, with the inputs and outputs
    /// read from its consensus encoding. Nothing comes back where the bytes
    /// are not exactly one transaction.
    pub fn from_raw(txid: String, raw: &Vec<u8>, block_hash: Option<String>) -> (r: Option<TxDetails>)
        ensures
            match r {
                Some(tx) => {
                    &&& decoded_transaction(raw@) == Some((tx@.inputs, tx@.outputs))
                    &&& tx@.txid == txid@
                    &&& tx@.block_hash == hash_view(block_hash)
                },
                None => decoded_transaction(raw@) is None,
            },
    {
        match consensus_decode(raw) {
            Some((inputs, outputs)) => Some(TxDetails { txid, inputs, outputs, block_hash }),
            None => None,
        }
    }
}

} // verus!
