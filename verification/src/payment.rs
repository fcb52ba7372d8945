//! Issuing the payment: the request that goes to the node, and what its
//! answer means.

use vstd::prelude::*;
use crate::error::PipelineError;
use crate::wallet::Address;

verus! {

/// The code with which the node answers where the wallet cannot fund a
/// payment.
pub const INSUFFICIENT_FUNDS_CODE: i32 = -6;

/// A transfer of an amount to an address, as it is handed to the node.
#[derive(Clone, Debug, PartialEq, Eq)]
pub struct PaymentRequest {
    /// The address that is paid.
    pub destination: String,
    /// The amount, in satoshis; positive.
    pub amount: u64,
    /// A note for the paying wallet's own books. It is no part of the
    /// transaction.
    pub memo: Option<String>,
}

/// The failure that a rejection by the node stands for.
pub open spec fn rejection_of(code: i32) -> PipelineError {
    if code == INSUFFICIENT_FUNDS_CODE {
        PipelineError::InsufficientFunds
    } else {
        PipelineError::Broadcast
    }
}

impl PaymentRequest {
    /// The request that pays `amount` to `to`.
    pub fn new(to: &Address, amount: u64, memo: Option<String>) -> (request: PaymentRequest)
        requires
            amount > 0,
        ensures
            request.destination@ == to.text_of(),
            request.amount == amount,
            request.memo == memo,
    {
        PaymentRequest { destination: to.text().clone(), amount, memo }
    }
}

/// The failure that a rejection by the node stands for: the wallet cannot
/// fund the amount and its fee where the node says so, and the transaction
/// was not taken on any other code.
pub fn rejection(code: i32) -> (e: PipelineError)
    ensures
        e == rejection_of(code),
{
    if code == INSUFFICIENT_FUNDS_CODE {
        PipelineError::InsufficientFunds
    } else {
        PipelineError::Broadcast
    }
}

/// Takes in the node's answer to a payment: the id of the transaction it
/// broadcast, or the code it rejected the payment with.
pub fn settle(answer: Result<String, i32>) -> (r: Result<String, PipelineError>)
    ensures
        match answer {
            Ok(txid) => r == Ok::<String, PipelineError>(txid),
            Err(code) => r == Err::<String, PipelineError>(rejection_of(code)),
        },
{
    match answer {
        Ok(txid) => Ok(txid),
        Err(code) => Err(rejection(code)),
    }
}

/// Takes in the node's answer to a raw send: the id of the transaction where
/// the node says it is complete, and a failed broadcast where it does not.
pub fn broadcast_id(complete: bool, txid: String) -> (r: Result<String, PipelineError>)
    ensures
        complete ==> r == Ok::<String, PipelineError>(txid),
        !complete ==> r == Err::<String, PipelineError>(PipelineError::Broadcast),
{
    if complete {
        Ok(txid)
    } else {
        Err(PipelineError::Broadcast)
    }
}

} // verus!
