//! What a broadcast request holds and what is answered to it.

use vstd::prelude::*;

verus! {

/// The body of a broadcast request: a signed transaction in hexadecimal. It
/// is handed to the node as it came.
#[derive(Clone, Debug)]
pub struct BroadcastRequest {
    pub raw_tx: String,
}

/// The body of the answer to a broadcast request.
#[derive(Clone, Debug)]
pub struct BroadcastResponse {
    /// `success` or `error`.
    pub status: String,
    /// The id of the transaction in display order, once the node took it.
    pub txid: Option<Vec<u8>>,
    /// The height of the chain when the request was handled, or 0 where the
    /// height could not be learned.
    pub current_block: u64,
    /// Why the request failed.
    pub error: Option<String>,
}

/// A response as a mathematical value.
pub struct ResponseView {
    pub status: Seq<char>,
    pub txid: Option<Seq<u8>>,
    pub current_block: u64,
    pub error: Option<Seq<char>>,
}

impl View for BroadcastResponse {
    type V = ResponseView;

    open spec fn view(&self) -> ResponseView {
        ResponseView {
            status: self.status@,
            txid: match self.txid {
                Some(id) => Some(id@),
                None => None,
            },
            current_block: self.current_block,
            error: match self.error {
                Some(reason) => Some(reason@),
                None => None,
            },
        }
    }
}

/// The status of a response that reports a transaction id.
pub open spec fn status_success() -> Seq<char> {
    "success"@
}

/// The status of a response that reports a failure.
pub open spec fn status_error() -> Seq<char> {
    "error"@
}

/// The response that reports a transaction id at a chain height.
pub open spec fn success_response(txid: Seq<u8>, current_block: u64) -> ResponseView {
    ResponseView { status: status_success(), txid: Some(txid), current_block, error: None }
}

/// The response that reports a failure at a chain height.
pub open spec fn error_response(reason: Seq<char>, current_block: u64) -> ResponseView {
    ResponseView { status: status_error(), txid: None, current_block, error: Some(reason) }
}

impl ResponseView {
    /// A response either succeeds and carries an id, or fails and carries a
    /// reason; it never carries both or neither.
    pub open spec fn well_formed(self) -> bool {
        &&& self.status == status_success() || self.status == status_error()
        &&& self.status == status_success() <==> self.txid is Some
        &&& self.txid is Some <==> self.error is None
    }
}

/// The two statuses are different texts.
pub proof fn lemma_statuses_differ()
    ensures
        status_success() != status_error(),
{
    reveal_strlit("success");
    reveal_strlit("error");
    assert(status_success().len() == 7);
    assert(status_error().len() == 5);
}

/// In a well-formed response the status is `success` exactly when an id is
/// present and no reason is, and `error` exactly when a reason is present and
/// no id is.
pub proof fn lemma_status_exclusive(response: ResponseView)
    requires
        response.well_formed(),
    ensures
        response.status == status_success() <==> (response.txid is Some && response.error is None),
        response.status == status_error() <==> (response.txid is None && response.error is Some),
{
    lemma_statuses_differ();
}

impl BroadcastResponse {
    /// The response to a transaction that the node took: it reports the id
    /// and the chain height, and no error.
    pub fn success(txid: Vec<u8>, current_block: u64) -> (response: BroadcastResponse)
        ensures
            response@ == success_response(txid@, current_block),
            response@.well_formed(),
    {
        proof {
            lemma_statuses_differ();
        }
        BroadcastResponse {
            status: "success".to_owned(),
            txid: Some(txid),
            current_block,
            error: None,
        }
    }

    /// The response to a request that failed: it reports the reason and the
    /// chain height, and no id.
    pub fn failure(reason: String, current_block: u64) -> (response: BroadcastResponse)
        ensures
            response@ == error_response(reason@, current_block),
            response@.well_formed(),
    {
        proof {
            lemma_statuses_differ();
        }
        BroadcastResponse {
            status: "error".to_owned(),
            txid: None,
            current_block,
            error: Some(reason),
        }
    }
}

} // verus!
