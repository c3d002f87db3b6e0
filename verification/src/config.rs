//! From the settings a node is reached with to the endpoint of its RPC server.

use crate::network::lowercase;
use crate::network::network_named;
use crate::network::port_of;
use crate::network::Network;
use crate::text::decimal;
use crate::text::push_decimal;
use vstd::prelude::*;
use vstd::string::StringExecFns;

verus! {

/// How to reach a node: the network it runs on, the URL of its host without
/// a port, and the credentials of its RPC server.
#[derive(Clone, Debug)]
pub struct BitcoinConfig {
    pub network: Network,
    pub network_url: String,
    pub rpc_username: String,
    pub rpc_password: String,
}

/// A fully specified RPC server: its address with the port, and the
/// credentials for basic authentication.
#[derive(Clone, Debug)]
pub struct RpcEndpoint {
    pub url: String,
    pub username: String,
    pub password: String,
}

/// The address of the RPC server of a node: the host URL, a colon, and the
/// network's RPC port in decimal.
pub open spec fn endpoint_url(host: Seq<char>, network: Network) -> Seq<char> {
    host + seq![':'] + decimal(port_of(network) as nat)
}

impl BitcoinConfig {
    /// Makes a configuration from a network given by name and the connection
    /// settings. The name is matched whatever the case of its letters; with a
    /// name that is none of the four networks there is no configuration.
    pub fn resolve(
        network: &str,
        network_url: String,
        rpc_username: String,
        rpc_password: String,
    ) -> (config: Option<BitcoinConfig>)
        ensures
            match network_named(lowercase(network@)) {
                Some(found) => config == Some(
                    BitcoinConfig { network: found, network_url, rpc_username, rpc_password },
                ),
                None => config is None,
            },
    {
        match Network::from_name(network) {
            Some(found) => Some(
                BitcoinConfig { network: found, network_url, rpc_username, rpc_password },
            ),
            None => None,
        }
    }

    /// The endpoint that this configuration selects. The port follows from
    /// the network alone; host and credentials are taken over unchanged.
    pub fn endpoint(&self) -> (endpoint: RpcEndpoint)
        ensures
            endpoint.url@ == endpoint_url(self.network_url@, self.network),
            endpoint.username@ == self.rpc_username@,
            endpoint.password@ == self.rpc_password@,
    {
        let mut url = self.network_url.clone();
        proof {
            reveal_strlit(":");
            assert(":"@ =~= seq![':']);
        }
        url.append(":");
        push_decimal(&mut url, self.network.rpc_port());
        RpcEndpoint {
            url,
            username: self.rpc_username.clone(),
            password: self.rpc_password.clone(),
        }
    }
}

} // verus!
