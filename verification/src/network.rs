//! The networks a node can run on, their names and their RPC ports.

use crate::text::same_text;
use vstd::prelude::*;

verus! {

/// The chain a node follows.
#[derive(Clone, Copy, Debug, PartialEq, Eq, Structural)]
pub enum Network {
    /// The main network.
    Bitcoin,
    /// The public test network.
    Testnet,
    /// A private chain for local testing.
    Regtest,
    /// The signed test network.
    Signet,
}

/// The lowercase equivalent of a text, as `str::to_lowercase` returns it.
pub uninterp spec fn lowercase(text: Seq<char>) -> Seq<char>;

/// Calls `str::to_lowercase`. Trusted: the returned string is the lowercase
/// equivalent of the argument, and depends on nothing but the argument.
#[verifier::external_body]
fn to_lowercase(text: &str) -> (lowered: String)
    ensures
        lowered@ == lowercase(text@),
{
    text.to_lowercase()
}

/// The network that a name in lowercase selects, if any.
pub open spec fn network_named(lowered: Seq<char>) -> Option<Network> {
    if lowered == "bitcoin"@ {
        Some(Network::Bitcoin)
    } else if lowered == "testnet"@ {
        Some(Network::Testnet)
    } else if lowered == "regtest"@ {
        Some(Network::Regtest)
    } else if lowered == "signet"@ {
        Some(Network::Signet)
    } else {
        None
    }
}

/// The port on which a node of the given network serves RPC by default.
pub open spec fn port_of(network: Network) -> u16 {
    match network {
        Network::Bitcoin => 8332,
        Network::Testnet => 18332,
        Network::Regtest => 18443,
        Network::Signet => 38332,
    }
}

impl Network {
    /// The RPC port of this network.
    pub fn rpc_port(self) -> (port: u16)
        ensures
            port == port_of(self),
    {
        match self {
            Network::Bitcoin => 8332,
            Network::Testnet => 18332,
            Network::Regtest => 18443,
            Network::Signet => 38332,
        }
    }

    /// Selects a network by a name that is already in lowercase. Any other
    /// text selects none.
    pub fn from_lowercase_name(lowered: &str) -> (found: Option<Network>)
        ensures
            found == network_named(lowered@),
    {
        if same_text(lowered, "bitcoin") {
            Some(Network::Bitcoin)
        } else if same_text(lowered, "testnet") {
            Some(Network::Testnet)
        } else if same_text(lowered, "regtest") {
            Some(Network::Regtest)
        } else if same_text(lowered, "signet") {
            Some(Network::Signet)
        } else {
            None
        }
    }

    /// Selects a network by name, whatever the case of its letters. A name
    /// that is none of the four selects no network.
    pub fn from_name(name: &str) -> (found: Option<Network>)
        ensures
            found == network_named(lowercase(name@)),
    {
        let lowered = to_lowercase(name);
        Network::from_lowercase_name(lowered.as_str())
    }
}

} // verus!
