use tx_broadcast::broadcast::after_height;
use tx_broadcast::broadcast::after_submit;
use tx_broadcast::broadcast::HeightStep;
use tx_broadcast::broadcast::HttpReply;
use tx_broadcast::broadcast::HTTP_INTERNAL_SERVER_ERROR;
use tx_broadcast::broadcast::HTTP_OK;
use tx_broadcast::response::BroadcastRequest;
use tx_broadcast::response::BroadcastResponse;
use tx_broadcast::txid::display_order;

fn request(raw_tx: &str) -> BroadcastRequest {
    BroadcastRequest { raw_tx: raw_tx.to_string() }
}

fn counting_id() -> Vec<u8> {
    (1u8..=32).collect()
}

fn answer_of(step: HeightStep) -> HttpReply {
    match step {
        HeightStep::Answer(reply) => reply,
        HeightStep::Submit { .. } => panic!("the request was not answered"),
    }
}

fn exclusive(body: &BroadcastResponse) -> bool {
    let success = body.status == "success";
    let error = body.status == "error";
    (success != error)
        && success == (body.txid.is_some() && body.error.is_none())
        && error == (body.txid.is_none() && body.error.is_some())
}

#[test]
fn accepted_transaction_reports_reversed_id_and_height() {
    let step = after_height(request("0200000001"), Ok(100));
    let (raw_tx, current_block) = match step {
        HeightStep::Submit { raw_tx, current_block } => (raw_tx, current_block),
        HeightStep::Answer(_) => panic!("answered before submitting"),
    };
    assert_eq!(raw_tx, "0200000001");
    assert_eq!(current_block, 100);

    let reply = after_submit(current_block, Ok(counting_id()));
    let expected: Vec<u8> = (1u8..=32).rev().collect();
    assert_eq!(expected[0], 0x20);
    assert_eq!(expected[30], 0x02);
    assert_eq!(expected[31], 0x01);
    assert_eq!(reply.code, 200);
    assert_eq!(reply.body.status, "success");
    assert_eq!(reply.body.txid, Some(expected));
    assert_eq!(reply.body.current_block, 100);
    assert_eq!(reply.body.error, None);
}

#[test]
fn failed_height_lookup_is_answered_with_its_message() {
    let reply = answer_of(after_height(request("0200000001"), Err("connection refused".to_string())));
    assert_eq!(reply.code, 500);
    assert_eq!(reply.body.status, "error");
    assert_eq!(reply.body.txid, None);
    assert_eq!(reply.body.current_block, 0);
    assert_eq!(reply.body.error, Some("connection refused".to_string()));
}

#[test]
fn failed_height_lookup_never_submits() {
    for raw_tx in ["", "00", "0200000001abcdef"] {
        let step = after_height(request(raw_tx), Err("timed out".to_string()));
        assert!(matches!(step, HeightStep::Answer(_)));
        let reply = answer_of(step);
        assert_eq!(reply.body.current_block, 0);
        assert_eq!(reply.body.txid, None);
    }
}

#[test]
fn height_is_handed_on_with_the_untouched_transaction() {
    let step = after_height(request("not even hex"), Ok(u64::MAX));
    match step {
        HeightStep::Submit { raw_tx, current_block } => {
            assert_eq!(raw_tx, "not even hex");
            assert_eq!(current_block, u64::MAX);
        }
        HeightStep::Answer(_) => panic!("answered before submitting"),
    }
}

#[test]
fn refused_transaction_keeps_the_height() {
    let reply = after_submit(42, Err("bad-txns-inputs-missingorspent".to_string()));
    assert_eq!(reply.code, 500);
    assert_eq!(reply.body.status, "error");
    assert_eq!(reply.body.txid, None);
    assert_eq!(reply.body.current_block, 42);
    assert_eq!(reply.body.error, Some("bad-txns-inputs-missingorspent".to_string()));
}

#[test]
fn refused_transaction_at_height_zero() {
    let reply = after_submit(0, Err(String::new()));
    assert_eq!(reply.code, 500);
    assert_eq!(reply.body.current_block, 0);
    assert_eq!(reply.body.txid, None);
    assert_eq!(reply.body.error, Some(String::new()));
}

#[test]
fn status_and_fields_exclude_each_other() {
    let taken = after_submit(7, Ok(counting_id()));
    let refused = after_submit(7, Err("rejected".to_string()));
    let unreachable = answer_of(after_height(request("00"), Err("down".to_string())));
    assert!(exclusive(&taken.body));
    assert!(exclusive(&refused.body));
    assert!(exclusive(&unreachable.body));
    assert!(exclusive(&BroadcastResponse::success(vec![1, 2], 3)));
    assert!(exclusive(&BroadcastResponse::failure("no".to_string(), 3)));
}

#[test]
fn http_status_follows_the_outcome() {
    assert_eq!(HTTP_OK, 200);
    assert_eq!(HTTP_INTERNAL_SERVER_ERROR, 500);
    assert_eq!(after_submit(1, Ok(counting_id())).code, HTTP_OK);
    assert_eq!(after_submit(1, Err("x".to_string())).code, HTTP_INTERNAL_SERVER_ERROR);
    let reply = answer_of(after_height(request("00"), Err("x".to_string())));
    assert_eq!(reply.code, HTTP_INTERNAL_SERVER_ERROR);
}

#[test]
fn response_constructors_fill_the_fields() {
    let ok = BroadcastResponse::success(vec![9, 8, 7], 650_000);
    assert_eq!(ok.status, "success");
    assert_eq!(ok.txid, Some(vec![9, 8, 7]));
    assert_eq!(ok.current_block, 650_000);
    assert_eq!(ok.error, None);

    let failed = BroadcastResponse::failure("node is warming up".to_string(), 12);
    assert_eq!(failed.status, "error");
    assert_eq!(failed.txid, None);
    assert_eq!(failed.current_block, 12);
    assert_eq!(failed.error, Some("node is warming up".to_string()));
}

#[test]
fn display_order_reverses_the_bytes() {
    assert_eq!(display_order(&[]), Vec::<u8>::new());
    assert_eq!(display_order(&[0xab]), vec![0xab]);
    assert_eq!(display_order(&[1, 2, 3]), vec![3, 2, 1]);
    assert_eq!(display_order(&[0, 0, 255]), vec![255, 0, 0]);
    let shown = display_order(&counting_id());
    assert_eq!(shown.len(), 32);
    for (at, byte) in shown.iter().enumerate() {
        assert_eq!(*byte as usize, 32 - at);
    }
}

#[test]
fn display_order_twice_gives_the_bytes_back() {
    let id = counting_id();
    assert_eq!(display_order(&display_order(&id)), id);
}

#[test]
fn accepted_id_of_any_length_is_reversed() {
    let reply = after_submit(5, Ok(vec![0xde, 0xad, 0xbe, 0xef]));
    assert_eq!(reply.body.txid, Some(vec![0xef, 0xbe, 0xad, 0xde]));
    let empty = after_submit(5, Ok(Vec::new()));
    assert_eq!(empty.body.txid, Some(Vec::new()));
    assert_eq!(empty.body.status, "success");
}
