//! The handle on the node's RPC server that all requests share.

use crate::config::endpoint_url;
use crate::config::BitcoinConfig;
use crate::config::RpcEndpoint;
use crate::rpc::is_message_of;
use crate::rpc::open_client;
use bitcoincore_rpc::Client;
use std::sync::Arc;
use vstd::prelude::*;

verus! {

/// Why no service could be set up.
#[derive(Clone, Debug)]
pub struct ServiceError {
    /// The message of the RPC client library's error.
    pub reason: String,
}

/// A client for one endpoint, shared read-only by all requests.
pub struct BroadcastService {
    /// The client through which the node is called.
    pub bitcoin_client: Arc<Client>,
    /// The endpoint that the client was opened for.
    pub endpoint: RpcEndpoint,
}

impl BroadcastService {
    /// Makes the service from what opening a client for `endpoint` gave: the
    /// service around the client, or the error's message.
    pub fn from_opened(
        endpoint: RpcEndpoint,
        opened: Result<Client, bitcoincore_rpc::Error>,
    ) -> (made: Result<BroadcastService, ServiceError>)
        ensures
            match opened {
                Ok(client) => {
                    &&& made matches Ok(service)
                    &&& *service.bitcoin_client == client
                    &&& service.endpoint == endpoint
                },
                Err(error) => {
                    &&& made matches Err(failure)
                    &&& is_message_of(error, failure.reason)
                },
            },
    {
        match opened {
            Ok(client) => Ok(BroadcastService { bitcoin_client: Arc::new(client), endpoint }),
            Err(error) => Err(ServiceError { reason: error.to_string() }),
        }
    }

    /// Sets up the service for the endpoint that the configuration selects:
    /// host URL with the network's RPC port, and the configured credentials.
    /// The RPC client library decides whether a client is opened. A service
    /// that is made is bound to that endpoint; else the reason is its error.
    pub fn new(config: &BitcoinConfig) -> (made: Result<BroadcastService, ServiceError>)
        ensures
            match made {
                Ok(service) => {
                    &&& service.endpoint.url@ == endpoint_url(config.network_url@, config.network)
                    &&& service.endpoint.username@ == config.rpc_username@
                    &&& service.endpoint.password@ == config.rpc_password@
                },
                Err(failure) => exists|error: bitcoincore_rpc::Error| #[trigger]
                    is_message_of(error, failure.reason),
            },
    {
        let endpoint = config.endpoint();
        let opened = open_client(&endpoint);
        BroadcastService::from_opened(endpoint, opened)
    }
}

} // verus!
