//! Scripts, addresses and raw transactions, read with the `bitcoin` crate.

use vstd::prelude::*;
use crate::chain::{Network, OutPoint, OutPointView, TxOutput, TxOutputView};
use crate::chain::{output_views, reference_views};

verus! {

/// What the `bitcoin` crate writes for the script of these bytes when the
/// script is formatted for debugging.
pub uninterp spec fn script_repr(script: Seq<u8>) -> Seq<char>;

/// The script that pays to the address written in `address`, where the
/// `bitcoin` crate reads the text as an address of `network`.
pub uninterp spec fn address_script(address: Seq<char>, network: Network) -> Option<Seq<u8>>;

/// The inputs and outputs that the `bitcoin` crate reads from the consensus
/// encoding of a transaction, where the bytes are one.
pub uninterp spec fn decoded_transaction(raw: Seq<u8>) -> Option<(Seq<OutPointView>, Seq<TxOutputView>)>;

/// Formats `bitcoin::Script::from_bytes(script)` with `{:?}`. The contract
/// names the text that comes out and claims nothing else of it.
#[verifier::external_body]
pub(crate) fn debug_script(script: &Vec<u8>) -> (text: String)
    ensures
        text@ == script_repr(script@),
{
    format!("{:?}", bitcoin::Script::from_bytes(script))
}

/// Parses the text as a `bitcoin::Address`, checks it with
/// `Address::require_network` and takes `Address::script_pubkey` of it. The
/// contract names the bytes of that script, and says that nothing is returned
/// where the text does not parse or belongs to another network.
#[verifier::external_body]
pub(crate) fn script_pubkey(address: &String, network: Network) -> (script: Option<Vec<u8>>)
    ensures
        match script {
            Some(s) => address_script(address@, network) == Some(s@),
            None => address_script(address@, network) is None,
        },
{
    let required = match network {
        Network::Main => bitcoin::Network::Bitcoin,
        Network::Testnet => bitcoin::Network::Testnet,
        Network::Testnet4 => bitcoin::Network::Testnet4,
        Network::Signet => bitcoin::Network::Signet,
        Network::Regtest => bitcoin::Network::Regtest,
    };
    let parsed = address.parse::<bitcoin::Address<bitcoin::address::NetworkUnchecked>>().ok()?;
    Some(parsed.require_network(required).ok()?.script_pubkey().into_bytes())
}

/// Calls `bitcoin::consensus::deserialize` for a `bitcoin::Transaction` and
/// hands out, for each input, the id and position of the output it spends
/// and, for each output, its amount in satoshis and the bytes of its script.
/// The contract names what was read, and says that nothing is returned where
/// the bytes are not exactly one transaction.
#[verifier::external_body]
pub(crate) fn consensus_decode(raw: &Vec<u8>) -> (tx: Option<(Vec<OutPoint>, Vec<TxOutput>)>)
    ensures
        match tx {
            Some(t) => decoded_transaction(raw@) == Some((reference_views(t.0@), output_views(t.1@))),
            None => decoded_transaction(raw@) is None,
        },
{
    let tx: bitcoin::Transaction = bitcoin::consensus::deserialize(raw).ok()?;
    let inputs = tx.input.iter().map(|i| OutPoint {
        txid: i.previous_output.txid.to_string(),
        vout: i.previous_output.vout,
    }).collect();
    let outputs = tx.output.iter().map(|o| TxOutput {
        value: o.value.to_sat(),
        script: o.script_pubkey.to_bytes(),
    }).collect();
    Some((inputs, outputs))
}

} // verus!
