//! The decisions of the broadcast handler.
//!
//! Handling a request takes two calls to the node, one after the other: the
//! chain height is looked up, then the transaction is submitted. The caller
//! makes the calls; the functions here decide, from what each call gave,
//! what happens next and what is answered.

use crate::response::error_response;
use crate::response::lemma_status_exclusive;
use crate::response::lemma_statuses_differ;
use crate::response::status_error;
use crate::response::status_success;
use crate::response::success_response;
use crate::response::BroadcastRequest;
use crate::response::BroadcastResponse;
use crate::response::ResponseView;
use crate::txid::display_order;
use vstd::prelude::*;

verus! {

/// The HTTP status of the answer to a transaction that the node took.
pub const HTTP_OK: u16 = 200;

/// The HTTP status of the answer to a request that failed.
pub const HTTP_INTERNAL_SERVER_ERROR: u16 = 500;

/// An answer to a request: the HTTP status and the body.
#[derive(Clone, Debug)]
pub struct HttpReply {
    pub code: u16,
    pub body: BroadcastResponse,
}

/// An answer as a mathematical value.
pub struct ReplyView {
    pub code: u16,
    pub body: ResponseView,
}

impl View for HttpReply {
    type V = ReplyView;

    open spec fn view(&self) -> ReplyView {
        ReplyView { code: self.code, body: self.body@ }
    }
}

/// What the handler does once the height lookup has ended.
#[derive(Clone, Debug)]
pub enum HeightStep {
    /// Submit the transaction; the height goes into the answer.
    Submit { raw_tx: String, current_block: u64 },
    /// Answer at once, without submitting.
    Answer(HttpReply),
}

/// The outcome of a call to the node: what it gave, or the message of its
/// failure.
pub type Outcome<T> = Result<T, Seq<char>>;

/// The answer to a request as a function of what the two calls to the node
/// give: the height lookup, and the submission with the transaction id as the
/// node reports it.
///
/// Without a height the answer is an error with the lookup's message, at
/// height 0, and the submission does not count. With a height, a transaction
/// that the node took is reported under its id in display order, which is
/// the node's id reversed, and a refusal is reported with the node's message;
/// both carry the height.
pub open spec fn reply_to(looked_up: Outcome<u64>, submitted: Outcome<Seq<u8>>) -> ReplyView {
    match looked_up {
        Err(reason) => ReplyView {
            code: HTTP_INTERNAL_SERVER_ERROR,
            body: error_response(reason, 0),
        },
        Ok(height) => match submitted {
            Ok(id) => ReplyView { code: HTTP_OK, body: success_response(id.reverse(), height) },
            Err(reason) => ReplyView {
                code: HTTP_INTERNAL_SERVER_ERROR,
                body: error_response(reason, height),
            },
        },
    }
}

/// The outcome of a submission as a mathematical value.
pub open spec fn submission_view(submitted: Result<Vec<u8>, String>) -> Outcome<Seq<u8>> {
    match submitted {
        Ok(id) => Ok(id@),
        Err(reason) => Err(reason@),
    }
}

/// Decides what follows the height lookup. With a height, the request's
/// transaction is to be submitted as it came. Without one, the request is
/// answered with the lookup's failure message and nothing is submitted: the
/// answer is the one that any submission would have led to.
pub fn after_height(request: BroadcastRequest, looked_up: Result<u64, String>) -> (step: HeightStep)
    ensures
        match looked_up {
            Ok(height) => step == (HeightStep::Submit {
                raw_tx: request.raw_tx,
                current_block: height,
            }),
            Err(reason) => {
                &&& step matches HeightStep::Answer(reply)
                &&& reply@ == (ReplyView {
                    code: HTTP_INTERNAL_SERVER_ERROR,
                    body: error_response(reason@, 0),
                })
                &&& forall|submitted: Outcome<Seq<u8>>|
                    reply@ == #[trigger] reply_to(Err(reason@), submitted)
                &&& reply@.body.well_formed()
            },
        },
{
    match looked_up {
        Ok(height) => HeightStep::Submit { raw_tx: request.raw_tx, current_block: height },
        Err(reason) => HeightStep::Answer(
            HttpReply {
                code: HTTP_INTERNAL_SERVER_ERROR,
                body: BroadcastResponse::failure(reason, 0),
            },
        ),
    }
}

/// Decides the answer once the submission has ended. `current_block` is the
/// height that was looked up; `submitted` holds the transaction id as the
/// node reported it, or the node's message for refusing.
pub fn after_submit(current_block: u64, submitted: Result<Vec<u8>, String>) -> (reply: HttpReply)
    ensures
        reply@ == reply_to(Ok(current_block), submission_view(submitted)),
        reply@.body.well_formed(),
{
    match submitted {
        Ok(id) => HttpReply {
            code: HTTP_OK,
            body: BroadcastResponse::success(display_order(id.as_slice()), current_block),
        },
        Err(reason) => HttpReply {
            code: HTTP_INTERNAL_SERVER_ERROR,
            body: BroadcastResponse::failure(reason, current_block),
        },
    }
}

/// A transaction that the node takes is reported under the node's id with
/// its bytes in reverse order: as many bytes, the last one first.
pub proof fn lemma_accepted_id_is_reversed(height: u64, id: Seq<u8>)
    ensures
        reply_to(Ok(height), Ok(id)).body.txid == Some(id.reverse()),
        id.reverse().len() == id.len(),
        forall|k: int| 0 <= k < id.len() ==> id.reverse()[k] == id[id.len() - 1 - k],
{
}

/// Where the height lookup fails, the answer has height 0 and no id,
/// whatever the submission would have given.
pub proof fn lemma_height_failure_masks_submit(reason: Seq<char>, submitted: Outcome<Seq<u8>>)
    ensures
        reply_to(Err(reason), submitted).body.current_block == 0,
        reply_to(Err(reason), submitted).body.txid is None,
        reply_to(Err(reason), submitted).body.error == Some(reason),
        reply_to(Err(reason), submitted).body.status == status_error(),
        reply_to(Err(reason), submitted).code == HTTP_INTERNAL_SERVER_ERROR,
{
}

/// Where the height is learned and the submission fails, the answer carries
/// that height, no id, and the node's message.
pub proof fn lemma_submit_failure_keeps_height(height: u64, reason: Seq<char>)
    ensures
        reply_to(Ok(height), Err(reason)).body.current_block == height,
        reply_to(Ok(height), Err(reason)).body.txid is None,
        reply_to(Ok(height), Err(reason)).body.error == Some(reason),
        reply_to(Ok(height), Err(reason)).body.status == status_error(),
        reply_to(Ok(height), Err(reason)).code == HTTP_INTERNAL_SERVER_ERROR,
{
}

/// Where the height is learned, the answer carries it, whether the node
/// takes the transaction or not.
pub proof fn lemma_known_height_is_reported(height: u64, submitted: Outcome<Seq<u8>>)
    ensures
        reply_to(Ok(height), submitted).body.current_block == height,
{
}

/// Every answer is well formed: its status is `success` exactly when it
/// carries an id and no message, and `error` exactly when it carries a
/// message and no id. The HTTP status is 200 with the first and 500 with the
/// second.
pub proof fn lemma_reply_status_exclusive(looked_up: Outcome<u64>, submitted: Outcome<Seq<u8>>)
    ensures
        ({
            let reply = reply_to(looked_up, submitted);
            &&& reply.body.well_formed()
            &&& reply.body.status == status_success() <==> (reply.body.txid is Some
                && reply.body.error is None)
            &&& reply.body.status == status_error() <==> (reply.body.txid is None
                && reply.body.error is Some)
            &&& reply.code == HTTP_OK <==> reply.body.status == status_success()
            &&& reply.code == HTTP_INTERNAL_SERVER_ERROR <==> reply.body.status == status_error()
        }),
{
    lemma_statuses_differ();
    lemma_status_exclusive(reply_to(looked_up, submitted).body);
}

} // verus!
