//! The values that the RPC client library hands out, and what the rest of
//! the crate reads from them.

use crate::config::RpcEndpoint;
use bitcoincore_rpc::bitcoin::Txid;
use bitcoincore_rpc::Auth;
use bitcoincore_rpc::Client;
use vstd::prelude::*;
use vstd::string::to_string_from_display_ensures;

verus! {

/// The RPC client of `bitcoincore_rpc`, carried as an opaque value.
#[verifier::external_type_specification]
#[verifier::external_body]
pub struct ExClient(Client);

/// The error type of `bitcoincore_rpc`, carried as an opaque value.
#[verifier::external_type_specification]
#[verifier::external_body]
pub struct ExRpcError(bitcoincore_rpc::Error);

/// The transaction id type of `bitcoin`, carried as an opaque value.
#[verifier::external_type_specification]
#[verifier::external_body]
pub struct ExTxid(Txid);

/// The bytes that a transaction id holds, in the order in which the node
/// computes them.
pub uninterp spec fn txid_bytes(txid: Txid) -> Seq<u8>;

/// Calls `Hash::to_byte_array` of `bitcoin_hashes` on a transaction id, which
/// hands out the 32 bytes that the id wraps, as they are stored. Trusted: the
/// result is those bytes.
#[verifier::external_body]
fn internal_bytes(txid: &Txid) -> (bytes: Vec<u8>)
    ensures
        bytes@ == txid_bytes(*txid),
        bytes@.len() == 32,
{
    bitcoincore_rpc::bitcoin::hashes::Hash::to_byte_array(*txid).to_vec()
}

/// Calls `bitcoincore_rpc::Client::new` with user-name-and-password
/// authentication. Trusted, and nothing is claimed of the outcome: the
/// client library parses the address and may resolve a host name, so the
/// same endpoint can give a client on one machine and an error on another.
#[verifier::external_body]
pub(crate) fn open_client(endpoint: &RpcEndpoint) -> (opened: Result<Client, bitcoincore_rpc::Error>)
{
    Client::new(
        endpoint.url.as_str(),
        Auth::UserPass(endpoint.username.clone(), endpoint.password.clone()),
    )
}

/// Whether `text` is the message that the error displays.
pub open spec fn is_message_of(error: bitcoincore_rpc::Error, text: String) -> bool {
    to_string_from_display_ensures::<bitcoincore_rpc::Error>(&error, text)
}

/// What the height lookup gave, in plain values: the height, or the message
/// of the error.
pub fn height_outcome(
    result: Result<u64, bitcoincore_rpc::Error>,
) -> (looked_up: Result<u64, String>)
    ensures
        match result {
            Ok(height) => looked_up == Ok::<u64, String>(height),
            Err(error) => looked_up matches Err(reason) && is_message_of(error, reason),
        },
{
    match result {
        Ok(height) => Ok(height),
        Err(error) => Err(error.to_string()),
    }
}

/// What the submission gave, in plain values: the bytes of the transaction
/// id as the node reported it, or the message of the error.
pub fn submit_outcome(
    result: Result<Txid, bitcoincore_rpc::Error>,
) -> (submitted: Result<Vec<u8>, String>)
    ensures
        match result {
            Ok(txid) => submitted matches Ok(id) && id@ == txid_bytes(txid) && id@.len() == 32,
            Err(error) => submitted matches Err(reason) && is_message_of(error, reason),
        },
{
    match result {
        Ok(txid) => Ok(internal_bytes(&txid)),
        Err(error) => Err(error.to_string()),
    }
}

} // verus!
