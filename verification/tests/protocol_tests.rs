use fedimint_http::error::ErrorKind;
use fedimint_http::error::GatewayError;
use fedimint_http::frame::parse_request;
use fedimint_http::frame::recover_id;
use fedimint_http::frame::response_to_json;
use fedimint_http::frame::JSONRPC_ERROR_INVALID_REQUEST;
use fedimint_http::json::JsonValue;
use fedimint_http::methods::JsonRpcMethod;
use fedimint_http::methods::JsonRpcSingleMethod;
use fedimint_http::methods::JsonSubscriptionMethod;
use fedimint_http::session::ConnectionSession;
use fedimint_http::session::FrameDecision;
use fedimint_http::session::FrameInput;

fn obj(fields: Vec<(&str, JsonValue)>) -> JsonValue {
    JsonValue::Object(fields.into_iter().map(|(k, v)| (k.to_string(), v)).collect())
}

fn valid_frame(method: &str, id: u64) -> JsonValue {
    obj(vec![
        ("jsonrpc", JsonValue::Text("2.0".to_string())),
        ("method", JsonValue::Text(method.to_string())),
        ("params", JsonValue::Null),
        ("id", JsonValue::UInt(id)),
    ])
}

#[test]
fn parse_request_accepts_a_valid_frame() {
    let req = parse_request(valid_frame("admin-info", 7)).unwrap();
    assert_eq!(req.id, 7);
    assert_eq!(req.jsonrpc, "2.0");
    assert!(matches!(req.method, JsonRpcMethod::Single(JsonRpcSingleMethod::AdminInfo)));
    assert!(matches!(req.params, JsonValue::Null));
}

#[test]
fn parse_request_rejects_unknown_method_with_recovered_id() {
    let frame = valid_frame("bogus", 42);
    assert_eq!(parse_request(frame).unwrap_err(), 42);
}

#[test]
fn parse_request_defaults_missing_id_to_zero() {
    // a frame holding only a method: no version, no id
    let frame = obj(vec![("method", JsonValue::Text("bogus".to_string()))]);
    assert_eq!(parse_request(frame).unwrap_err(), 0);
}

#[test]
fn id_recovery_ignores_non_unsigned_ids() {
    let with_text_id = obj(vec![("id", JsonValue::Text("seven".to_string()))]);
    assert_eq!(recover_id(&with_text_id), 0);
    let with_signed_id = obj(vec![("id", JsonValue::Int(-5))]);
    assert_eq!(recover_id(&with_signed_id), 0);
    let with_id = obj(vec![("id", JsonValue::UInt(9))]);
    assert_eq!(recover_id(&with_id), 9);
    assert_eq!(recover_id(&JsonValue::Null), 0);
}

#[test]
fn method_table_round_trips_names() {
    let names = vec![
        "admin-info",
        "admin-backup",
        "admin-config",
        "admin-discover-version",
        "admin-module",
        "admin-restore",
        "admin-list-operations",
        "mint-reissue",
        "mint-spend",
        "mint-validate",
        "mint-split",
        "mint-combine",
        "ln-invoice",
        "ln-pay",
        "ln-list-gateways",
        "ln-switch-gateway",
        "wallet-deposit-address",
        "ln-await-invoice",
        "ln-await-pay",
        "wallet-await-deposit",
        "wallet-withdraw",
    ];
    for name in names {
        let method = JsonRpcMethod::from_name(name).unwrap();
        assert_eq!(method.name(), name);
    }
    assert!(JsonRpcMethod::from_name("bogus").is_none());
    assert!(JsonRpcMethod::from_name("").is_none());
}

#[test]
fn malformed_frame_yields_invalid_request_and_connection_stays_open() {
    let mut session = ConnectionSession::new();
    // the frame {"method":"bogus"}: missing version and id
    let frame = obj(vec![("method", JsonValue::Text("bogus".to_string()))]);
    match session.on_frame(FrameInput::Parsed(frame)) {
        FrameDecision::Reply(resp) => {
            assert_eq!(resp.id, 0);
            assert!(resp.result.is_none());
            assert_eq!(resp.error.unwrap().code, JSONRPC_ERROR_INVALID_REQUEST);
        }
        other => panic!("expected an immediate reply, got {:?}", other),
    }
    assert!(session.is_open());
    // a subsequent valid frame is still accepted
    match session.on_frame(FrameInput::Parsed(valid_frame("admin-info", 1))) {
        FrameDecision::RunSingle(req) => assert_eq!(req.id, 1),
        other => panic!("expected a single dispatch, got {:?}", other),
    }
}

#[test]
fn undecodable_text_yields_invalid_request_with_best_effort_id() {
    let mut session = ConnectionSession::new();
    match session.on_frame(FrameInput::Unparsed { recovered_id: Some(3) }) {
        FrameDecision::Reply(resp) => {
            assert_eq!(resp.id, 3);
            assert_eq!(resp.error.unwrap().code, JSONRPC_ERROR_INVALID_REQUEST);
        }
        other => panic!("expected an immediate reply, got {:?}", other),
    }
    match session.on_frame(FrameInput::Unparsed { recovered_id: None }) {
        FrameDecision::Reply(resp) => assert_eq!(resp.id, 0),
        other => panic!("expected an immediate reply, got {:?}", other),
    }
    assert!(session.is_open());
}

#[test]
fn concurrent_singles_complete_out_of_order() {
    let mut session = ConnectionSession::new();
    // two single requests dispatched back to back; the first is still
    // running when the second completes
    assert!(matches!(
        session.on_frame(FrameInput::Parsed(valid_frame("admin-info", 1))),
        FrameDecision::RunSingle(_)
    ));
    assert!(matches!(
        session.on_frame(FrameInput::Parsed(valid_frame("admin-config", 2))),
        FrameDecision::RunSingle(_)
    ));
    assert_eq!(session.pending_count(), 2);
    // request 2 answers first, tagged with its own id, request 1 pending
    let resp2 = session.single_response(2, Ok(JsonValue::Bool(true)));
    assert_eq!(resp2.id, 2);
    assert_eq!(session.pending_count(), 1);
    let resp1 = session.single_response(1, Ok(JsonValue::Bool(false)));
    assert_eq!(resp1.id, 1);
    assert_eq!(session.pending_count(), 0);
}

#[test]
fn handler_error_fails_only_its_own_exchange() {
    let mut session = ConnectionSession::new();
    session.on_frame(FrameInput::Parsed(valid_frame("ln-pay", 5)));
    let resp = session.single_response(
        5,
        Err(GatewayError::new(ErrorKind::Upstream, "gateway unavailable".to_string())),
    );
    assert_eq!(resp.id, 5);
    let err = resp.error.unwrap();
    assert_eq!(err.code, 502);
    assert_eq!(err.message, "gateway unavailable");
    assert!(session.is_open());
}

#[test]
fn subscription_streams_under_its_request_id() {
    let mut session = ConnectionSession::new();
    let (handle, req) = match session.on_frame(FrameInput::Parsed(valid_frame("ln-await-invoice", 11))) {
        FrameDecision::StartSubscription(handle, req) => (handle, req),
        other => panic!("expected a subscription, got {:?}", other),
    };
    assert_eq!(req.id, 11);
    assert!(matches!(handle.method, JsonSubscriptionMethod::LnAwaitInvoice));
    assert_eq!(session.subscription_count(), 1);
    let event = session.subscription_event(&handle, JsonValue::Text("update".to_string()));
    assert_eq!(event.id, 11);
    assert!(event.error.is_none());
    session.end_subscription(handle.task);
    assert_eq!(session.subscription_count(), 0);
}

#[test]
fn closing_hands_back_every_live_subscription_task() {
    let mut session = ConnectionSession::new();
    session.on_frame(FrameInput::Parsed(valid_frame("ln-await-invoice", 1)));
    session.on_frame(FrameInput::Parsed(valid_frame("wallet-await-deposit", 2)));
    session.on_frame(FrameInput::Parsed(valid_frame("wallet-withdraw", 3)));
    assert_eq!(session.subscription_count(), 3);
    session.begin_close();
    let cancelled = session.finish_close();
    // every consuming task is stopped; none is left running
    assert_eq!(cancelled.len(), 3);
    assert_eq!(session.subscription_count(), 0);
    assert!(!session.is_open());
    let mut unique = cancelled.clone();
    unique.sort();
    unique.dedup();
    assert_eq!(unique.len(), 3);
}

#[test]
fn response_document_carries_all_four_fields() {
    let mut session = ConnectionSession::new();
    session.on_frame(FrameInput::Parsed(valid_frame("admin-info", 8)));
    let resp = session.single_response(8, Ok(JsonValue::UInt(21)));
    let doc = response_to_json(resp);
    match doc {
        JsonValue::Object(fields) => {
            assert_eq!(fields.len(), 4);
            assert_eq!(fields[0].0, "jsonrpc");
            assert!(matches!(&fields[0].1, JsonValue::Text(v) if v == "2.0"));
            assert_eq!(fields[1].0, "result");
            assert!(matches!(fields[1].1, JsonValue::UInt(21)));
            assert_eq!(fields[2].0, "error");
            assert!(matches!(fields[2].1, JsonValue::Null));
            assert_eq!(fields[3].0, "id");
            assert!(matches!(fields[3].1, JsonValue::UInt(8)));
        }
        other => panic!("expected an object, got {:?}", other),
    }
}

#[test]
fn error_response_document_keeps_code_and_message() {
    let mut session = ConnectionSession::new();
    session.on_frame(FrameInput::Parsed(valid_frame("admin-info", 4)));
    let resp = session.single_response(
        4,
        Err(GatewayError::new(ErrorKind::BadRequest, "no client".to_string())),
    );
    let doc = response_to_json(resp);
    match doc {
        JsonValue::Object(fields) => {
            assert!(matches!(fields[1].1, JsonValue::Null));
            match &fields[2].1 {
                JsonValue::Object(ef) => {
                    assert_eq!(ef[0].0, "code");
                    assert!(matches!(ef[0].1, JsonValue::UInt(400)));
                    assert_eq!(ef[1].0, "message");
                    assert!(matches!(&ef[1].1, JsonValue::Text(m) if m == "no client"));
                }
                other => panic!("expected an error object, got {:?}", other),
            }
        }
        other => panic!("expected an object, got {:?}", other),
    }
}
