//! Wallets: deciding whether one has to be created, and the handle and the
//! addresses that the pipeline works with afterwards.

use vstd::prelude::*;
use vstd::string::*;
use crate::chain::Network;
use crate::error::PipelineError;
use crate::script::{address_script, script_pubkey};
use crate::text::{holds, texts};

verus! {

/// What is to be done so that a wallet exists.
#[derive(Clone, Debug, PartialEq, Eq)]
pub enum EnsureStep {
    /// The node knows the wallet: here is its handle, nothing is created.
    Ready(WalletHandle),
    /// The node does not know the wallet: it has to be created.
    Create,
}

/// A wallet that the node knows, with the endpoint that is bound to it.
#[derive(Clone, Debug, PartialEq, Eq)]
pub struct WalletHandle {
    /// The name of the wallet.
    pub name: String,
    /// The endpoint of the node for calls on this wallet.
    pub endpoint: String,
}

/// An address of a wallet, with the script that pays to it.
#[derive(Debug)]
pub struct Address {
    text: String,
    label: Option<String>,
    wallet: String,
    network: Network,
    script: Vec<u8>,
}

/// The endpoint for calls on the wallet `name` of the node at `node`.
pub open spec fn wallet_endpoint(node: Seq<char>, name: Seq<char>) -> Seq<char> {
    node + "/wallet/"@ + name
}

/// The wallets that the node knows once `name` was ensured with success:
/// those it knew, and `name` behind them where it was not among them.
pub open spec fn after_ensure(wallets: Seq<Seq<char>>, name: Seq<char>) -> Seq<Seq<char>> {
    if wallets.contains(name) {
        wallets
    } else {
        wallets.push(name)
    }
}

/// Whether the wallet has to be created: the node does not know its name.
pub open spec fn must_create(wallets: Seq<Seq<char>>, name: Seq<char>) -> bool {
    !wallets.contains(name)
}

/// How often `name` stands in `wallets`.
pub open spec fn occurrences(wallets: Seq<Seq<char>>, name: Seq<char>) -> nat
    decreases wallets.len(),
{
    if wallets.len() == 0 {
        0
    } else {
        occurrences(wallets.drop_last(), name) + if wallets.last() == name {
            1nat
        } else {
            0nat
        }
    }
}

impl WalletHandle {
    /// The handle of the wallet `name` on the node at `node`.
    pub fn open(node: &String, name: &String) -> (handle: WalletHandle)
        ensures
            handle.name@ == name@,
            handle.endpoint@ == wallet_endpoint(node@, name@),
    {
        let mut endpoint = node.clone();
        endpoint.append("/wallet/");
        endpoint.append(name.as_str());
        WalletHandle { name: name.clone(), endpoint }
    }

    /// Takes in an address that the node made for this wallet, with the
    /// label it was asked for under. Nothing comes back where the text is no
    /// address of `network`.
    pub fn address(&self, text: String, label: Option<String>, network: Network) -> (r: Option<Address>)
        ensures
            match r {
                Some(a) => {
                    &&& a.text_of() == text@
                    &&& a.wallet_of() == self.name@
                    &&& a.network_of() == network
                    &&& label is Some <==> a.label_of() is Some
                    &&& label matches Some(l) ==> a.label_of() == Some(l@)
                    &&& address_script(text@, network) == Some(a.script_of())
                },
                None => address_script(text@, network) is None,
            },
    {
        match script_pubkey(&text, network) {
            Some(script) => Some(Address { text, label, wallet: self.name.clone(), network, script }),
            None => None,
        }
    }
}

impl Address {
    #[verifier::type_invariant]
    spec fn script_fits(self) -> bool {
        address_script(self.text@, self.network) == Some(self.script@)
    }

    /// The address as text.
    pub closed spec fn text_of(self) -> Seq<char> {
        self.text@
    }

    /// The label that the address was asked for under, if any.
    pub closed spec fn label_of(self) -> Option<Seq<char>> {
        match self.label {
            Some(l) => Some(l@),
            None => None,
        }
    }

    /// The name of the wallet that owns the address.
    pub closed spec fn wallet_of(self) -> Seq<char> {
        self.wallet@
    }

    /// The network of the address.
    pub closed spec fn network_of(self) -> Network {
        self.network
    }

    /// The script that pays to the address.
    pub closed spec fn script_of(self) -> Seq<u8> {
        self.script@
    }

    /// The address as text.
    pub fn text(&self) -> (text: &String)
        ensures
            text@ == self.text_of(),
    {
        &self.text
    }

    /// The label that the address was asked for under, if any.
    pub fn label(&self) -> (label: &Option<String>)
        ensures
            label is Some <==> self.label_of() is Some,
            label matches Some(l) ==> self.label_of() == Some(l@),
    {
        &self.label
    }

    /// The name of the wallet that owns the address.
    pub fn wallet(&self) -> (name: &String)
        ensures
            name@ == self.wallet_of(),
    {
        &self.wallet
    }

    /// The network of the address.
    pub fn network(&self) -> (network: Network)
        ensures
            network == self.network_of(),
    {
        self.network
    }

    /// The script that pays to the address: the one that the address itself
    /// stands for on its network.
    pub fn script(&self) -> (script: &Vec<u8>)
        ensures
            script@ == self.script_of(),
            address_script(self.text_of(), self.network_of()) == Some(script@),
    {
        proof {
            use_type_invariant(self);
        }
        &self.script
    }
}

/// Decides what is to be done so that the wallet `name` exists, given the
/// wallets that the node knows: a known wallet is handed out as it is, and
/// only an unknown one is to be created.
pub fn ensure(node: &String, wallets: &Vec<String>, name: &String) -> (step: EnsureStep)
    ensures
        match step {
            EnsureStep::Ready(handle) => {
                &&& !must_create(texts(wallets@), name@)
                &&& handle.name@ == name@
                &&& handle.endpoint@ == wallet_endpoint(node@, name@)
            },
            EnsureStep::Create => must_create(texts(wallets@), name@),
        },
{
    if holds(wallets, name) {
        EnsureStep::Ready(WalletHandle::open(node, name))
    } else {
        EnsureStep::Create
    }
}

/// Takes in how the creation of the wallet `name` went: the handle where the
/// node accepted it, the failure where it did not.
pub fn created(node: &String, name: &String, accepted: bool) -> (r: Result<WalletHandle, PipelineError>)
    ensures
        match r {
            Ok(handle) => {
                &&& accepted
                &&& handle.name@ == name@
                &&& handle.endpoint@ == wallet_endpoint(node@, name@)
            },
            Err(e) => !accepted && e == PipelineError::WalletCreation,
        },
{
    if accepted {
        Ok(WalletHandle::open(node, name))
    } else {
        Err(PipelineError::WalletCreation)
    }
}

/// How often a name stands in a list is never negative, and it is zero
/// exactly where the list does not hold the name.
pub proof fn lemma_occurrences(wallets: Seq<Seq<char>>, name: Seq<char>)
    ensures
        occurrences(wallets, name) == 0 <==> !wallets.contains(name),
    decreases wallets.len(),
{
    if wallets.len() > 0 {
        let rest = wallets.drop_last();
        lemma_occurrences(rest, name);
        if wallets.last() == name {
            assert(wallets[wallets.len() - 1] == name);
        } else if rest.contains(name) {
            let i = choose|i: int| 0 <= i < rest.len() && rest[i] == name;
            assert(wallets[i] == name);
        } else if wallets.contains(name) {
            let i = choose|i: int| 0 <= i < wallets.len() && wallets[i] == name;
            assert(rest[i] == name);
        }
    }
}

/// Ensuring a wallet is idempotent. Once a wallet was ensured the node knows
/// it, so ensuring it again finds it and creates nothing; the second time
/// leaves the node's wallets as the first left them; and the name stands
/// among them as often as before, or once where it did not stand there.
pub proof fn lemma_ensure_idempotent(wallets: Seq<Seq<char>>, name: Seq<char>)
    ensures
        !must_create(after_ensure(wallets, name), name),
        after_ensure(after_ensure(wallets, name), name) == after_ensure(wallets, name),
        occurrences(after_ensure(wallets, name), name) == if wallets.contains(name) {
            occurrences(wallets, name)
        } else {
            1
        },
        wallets.no_duplicates() ==> after_ensure(wallets, name).no_duplicates(),
{
    lemma_occurrences(wallets, name);
    if !wallets.contains(name) {
        let grown = wallets.push(name);
        assert(grown[wallets.len() as int] == name);
        assert(grown.drop_last() =~= wallets);
    }
}

} // verus!
