//! The ways in which the pipeline fails.

use vstd::prelude::*;
use vstd::string::*;

verus! {

/// The stage of the pipeline at which a failure comes up.
#[derive(Clone, Copy, Debug, PartialEq, Eq, Structural)]
pub enum Stage {
    Connection,
    Wallets,
    Maturation,
    Payment,
    Audit,
}

/// A failure that ends the pipeline.
#[derive(Clone, Copy, Debug, PartialEq, Eq, Structural)]
pub enum PipelineError {
    /// The node cannot be reached or refuses the credentials.
    Connection,
    /// The node rejects the creation of a wallet.
    WalletCreation,
    /// The attempts ran out before a spendable balance appeared.
    MaturationTimeout,
    /// The wallet cannot fund the amount and its fee.
    InsufficientFunds,
    /// The node rejects the transaction.
    Broadcast,
    /// The transaction is in no block.
    UnconfirmedTransaction,
    /// The transaction spends nothing.
    MalformedTransaction,
    /// The spent output does not exist in the transaction it names.
    InvalidReference,
    /// The node does not know the confirming block.
    BlockLookup,
}

impl Stage {
    /// The name under which the stage is reported.
    pub open spec fn name_text(self) -> Seq<char> {
        match self {
            Stage::Connection => "connection"@,
            Stage::Wallets => "wallets"@,
            Stage::Maturation => "maturation"@,
            Stage::Payment => "payment"@,
            Stage::Audit => "audit"@,
        }
    }

    /// The name under which the stage is reported.
    pub fn name(&self) -> (s: String)
        ensures
            s@ == self.name_text(),
    {
        match self {
            Stage::Connection => String::from_str("connection"),
            Stage::Wallets => String::from_str("wallets"),
            Stage::Maturation => String::from_str("maturation"),
            Stage::Payment => String::from_str("payment"),
            Stage::Audit => String::from_str("audit"),
        }
    }
}

impl PipelineError {
    /// The stage at which this failure comes up.
    pub open spec fn stage_of(self) -> Stage {
        match self {
            PipelineError::Connection => Stage::Connection,
            PipelineError::WalletCreation => Stage::Wallets,
            PipelineError::MaturationTimeout => Stage::Maturation,
            PipelineError::InsufficientFunds => Stage::Payment,
            PipelineError::Broadcast => Stage::Payment,
            PipelineError::UnconfirmedTransaction => Stage::Audit,
            PipelineError::MalformedTransaction => Stage::Audit,
            PipelineError::InvalidReference => Stage::Audit,
            PipelineError::BlockLookup => Stage::Audit,
        }
    }

    /// What the failure is, in words.
    pub open spec fn message_text(self) -> Seq<char> {
        match self {
            PipelineError::Connection => "node unreachable or credentials refused"@,
            PipelineError::WalletCreation => "node rejected wallet creation"@,
            PipelineError::MaturationTimeout => "no spendable balance after the maximum number of blocks"@,
            PipelineError::InsufficientFunds => "wallet cannot fund the amount and fee"@,
            PipelineError::Broadcast => "node rejected the transaction"@,
            PipelineError::UnconfirmedTransaction => "transaction is not in a block"@,
            PipelineError::MalformedTransaction => "transaction has no inputs"@,
            PipelineError::InvalidReference => "input refers to an output that does not exist"@,
            PipelineError::BlockLookup => "confirming block is unknown to the node"@,
        }
    }

    /// What the operator is told: the stage, the failure, and what the node said.
    pub open spec fn report_text(self, detail: Seq<char>) -> Seq<char> {
        self.stage_of().name_text() + ": "@ + self.message_text() + if detail.len() == 0 {
            Seq::<char>::empty()
        } else {
            " ("@ + detail + ")"@
        }
    }

    /// The stage at which this failure comes up.
    pub fn stage(&self) -> (stage: Stage)
        ensures
            stage == self.stage_of(),
    {
        match self {
            PipelineError::Connection => Stage::Connection,
            PipelineError::WalletCreation => Stage::Wallets,
            PipelineError::MaturationTimeout => Stage::Maturation,
            PipelineError::InsufficientFunds => Stage::Payment,
            PipelineError::Broadcast => Stage::Payment,
            PipelineError::UnconfirmedTransaction => Stage::Audit,
            PipelineError::MalformedTransaction => Stage::Audit,
            PipelineError::InvalidReference => Stage::Audit,
            PipelineError::BlockLookup => Stage::Audit,
        }
    }

    /// What the failure is, in words.
    pub fn message(&self) -> (s: String)
        ensures
            s@ == self.message_text(),
    {
        match self {
            PipelineError::Connection => String::from_str("node unreachable or credentials refused"),
            PipelineError::WalletCreation => String::from_str("node rejected wallet creation"),
            PipelineError::MaturationTimeout => String::from_str(
                "no spendable balance after the maximum number of blocks",
            ),
            PipelineError::InsufficientFunds => String::from_str("wallet cannot fund the amount and fee"),
            PipelineError::Broadcast => String::from_str("node rejected the transaction"),
            PipelineError::UnconfirmedTransaction => String::from_str("transaction is not in a block"),
            PipelineError::MalformedTransaction => String::from_str("transaction has no inputs"),
            PipelineError::InvalidReference => String::from_str(
                "input refers to an output that does not exist",
            ),
            PipelineError::BlockLookup => String::from_str("confirming block is unknown to the node"),
        }
    }

    /// What the operator is told: the stage, the failure and, where the node
    /// said something, its words in brackets.
    pub fn report(&self, detail: &String) -> (s: String)
        ensures
            s@ == self.report_text(detail@),
    {
        let mut s = self.stage().name();
        s.append(": ");
        s.append(self.message().as_str());
        if detail.as_str().unicode_len() > 0 {
            s.append(" (");
            s.append(detail.as_str());
            s.append(")");
        }
        s
    }
}

} // verus!
