//! What a deployment fixes before the pipeline runs.

use vstd::prelude::*;
use vstd::string::*;
use crate::amount::COIN;
use crate::chain::Network;

verus! {

/// How many blocks lie on a block reward before it can be spent.
pub const MATURITY_DEPTH: u32 = 100;

/// The settings of one deployment.
#[derive(Clone, Debug, PartialEq, Eq)]
pub struct Config {
    /// The endpoint of the node.
    pub endpoint: String,
    /// The user the node knows.
    pub user: String,
    /// The password of that user.
    pub password: String,
    /// The network of the node.
    pub network: Network,
    /// The name of the wallet that mines and pays.
    pub payer_wallet: String,
    /// The name of the wallet that is paid.
    pub payee_wallet: String,
    /// The label of the address that block rewards go to.
    pub reward_label: String,
    /// The label of the address that is paid.
    pub receive_label: String,
    /// The note that the paying wallet keeps with the payment.
    pub memo: String,
    /// The amount that is paid, in satoshis.
    pub amount: u64,
    /// How many blocks may be mined at most to mature funds.
    pub max_attempts: u32,
}

impl Config {
    /// Whether the settings can work: the amount is positive, and more
    /// blocks may be mined than a block reward needs to mature.
    pub open spec fn sound(self) -> bool {
        self.amount > 0 && self.max_attempts > MATURITY_DEPTH
    }

    /// Whether the settings can work.
    pub fn is_sound(&self) -> (ok: bool)
        ensures
            ok == self.sound(),
    {
        self.amount > 0 && self.max_attempts > MATURITY_DEPTH
    }

    /// The settings for a local node of the regression test network: the
    /// wallets "Miner" and "Trader", a payment of twenty coins, and at most
    /// 150 blocks to mature funds.
    pub fn regtest() -> (config: Config)
        ensures
            config.endpoint@ == "http://127.0.0.1:18443"@,
            config.user@ == "alice"@,
            config.password@ == "password"@,
            config.network == Network::Regtest,
            config.payer_wallet@ == "Miner"@,
            config.payee_wallet@ == "Trader"@,
            config.reward_label@ == "Mining Reward"@,
            config.receive_label@ == "Received"@,
            config.memo@ == "Payment to Trader"@,
            config.amount == 20 * COIN,
            config.max_attempts == 150,
            config.sound(),
    {
        Config {
            endpoint: String::from_str("http://127.0.0.1:18443"),
            user: String::from_str("alice"),
            password: String::from_str("password"),
            network: Network::Regtest,
            payer_wallet: String::from_str("Miner"),
            payee_wallet: String::from_str("Trader"),
            reward_label: String::from_str("Mining Reward"),
            receive_label: String::from_str("Received"),
            memo: String::from_str("Payment to Trader"),
            amount: 20 * COIN,
            max_attempts: 150,
        }
    }
}

} // verus!
