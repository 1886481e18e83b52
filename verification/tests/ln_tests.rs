use fedimint_http::admin::federation_ids;
use fedimint_http::admin::info_response;
use fedimint_http::admin::module_passthrough;
use fedimint_http::admin::restore;
use fedimint_http::admin::ModuleRequest;
use fedimint_http::admin::ModuleSelector;
use fedimint_http::admin::TierCount;
use fedimint_http::cashu::melt_quote;
use fedimint_http::cashu::mint_quote;
use fedimint_http::cashu::PostMintQuoteMethodRequest;
use fedimint_http::error::ErrorKind;
use fedimint_http::events::DepositEvent;
use fedimint_http::events::InternalPayEvent;
use fedimint_http::events::LnPayEvent;
use fedimint_http::events::LnReceiveEvent;
use fedimint_http::ln::await_invoice_outcome;
use fedimint_http::ln::background_pay_response;
use fedimint_http::events::WithdrawEvent;
use fedimint_http::ids::FederationIdentity;
use fedimint_http::ids::OperationId;
use fedimint_http::json::JsonValue;
use fedimint_http::ln::check_gateway_id;
use fedimint_http::ln::check_lnurl_invoice;
use fedimint_http::ln::get_invoice;
use fedimint_http::ln::handle_internal_payment;
use fedimint_http::ln::handle_lightning_payment;
use fedimint_http::ln::mark_active_gateways;
use fedimint_http::ln::mark_gateway_active;
use fedimint_http::ln::parse_invoice;
use fedimint_http::ln::parse_lnurl;
use fedimint_http::ln::trim_spaces;
use fedimint_http::ln::wait_for_ln_payment;
use fedimint_http::ln::PaymentUpdates;
use fedimint_http::ln::PaymentTarget;
use fedimint_http::ln::PayType;
use fedimint_http::registry::ClientRegistry;
use fedimint_http::registry::MultiClientPolicy;
use fedimint_http::wallet::deposit_outcome;
use fedimint_http::wallet::withdraw_all_amount;
use fedimint_http::wallet::withdraw_outcome;
use fedimint_http::waiter::WaiterOutcome;

// a well-formed bolt11 invoice over 10 millisatoshi (100 pico-bitcoin)
const INVOICE_10_MSAT: &str = "lnbc100p1psj9jhxdqud3jxktt5w46x7unfv9kz6mn0v3jsnp4q0d3p2sfluzdx45tqcsh2pu5qc7lgq0xs578ngs6s0s68ua4h7cvspp5q6rmq35js88zp5dvwrv9m459tnk2zunwj5jalqtyxqulh0l5gflssp5nf55ny5gcrfl30xuhzj3nphgj27rstekmr9fw3ny5989s300gyus9qyysgqcqpcrzjqw2sxwe993h5pcm4dxzpvttgza8zhkqxpgffcrf5v25nwpr3cmfg7z54kuqq8rgqqqqqqqq2qqqqq9qq9qrzjqd0ylaqclj9424x9m8h2vcukcgnm6s56xfgu3j78zyqzhgs4hlpzvznlugqq9vsqqqqqqqlgqqqqqeqq9qrzjqwldmj9dha74df76zhx6l9we0vjdquygcdt3kssupehe64g6yyp5yz5rhuqqwccqqyqqqqlgqqqqjcqq9qrzjqf9e58aguqr0rcun0ajlvmzq3ek63cw2w282gv3z5uupmuwvgjtq2z55qsqqg6qqqyqqqrtnqqqzq3cqygrzjqvphmsywntrrhqjcraumvc4y6r8v4z5v593trte429v4hredj7ms5z52usqq9ngqqqqqqqlgqqqqqqgq9qrzjq2v0vp62g49p7569ev48cmulecsxe59lvaw3wlxm7r982zxa9zzj7z5l0cqqxusqqyqqqqlgqqqqqzsqygarl9fh38s0gyuxjjgux34w75dnc6xp2l35j7es3jd4ugt3lu0xzre26yg5m7ke54n2d5sym4xcmxtl8238xxvw5h5h5j5r6drg6k6zcqj0fcwg";

const LNURL_BECH32: &str = "LNURL1DP68GURN8GHJ7UM9WFMXJCM99E3K7MF0V9CXJ0M385EKVCENXC6R2C35XVUKXEFCV5MKVV34X5EKZD3EV56NYD3HXQURZEPEXEJXXEPNXSCRVWFNV9NXZCN9XQ6XYEFHVGCXXCMYXYMNSERXFQ5FNS";
const LNURL_URL: &str = "https://service.com/api?q=3fc3645b439ce8e7f2553a69e5267081d96dcd340693afabe04be7b0ccd178df";

#[test]
fn parse_invoice_reads_the_encoded_amount() {
    let summary = parse_invoice(INVOICE_10_MSAT, None).unwrap();
    assert_eq!(summary.amount_msat, Some(10));
}

#[test]
fn parse_invoice_rejects_two_amounts() {
    let err = parse_invoice(INVOICE_10_MSAT, Some(10)).unwrap_err();
    assert_eq!(err.kind, ErrorKind::BadRequest);
    assert_eq!(err.message, "Amount specified in both invoice and command line");
}

#[test]
fn parse_invoice_rejects_garbage() {
    let err = parse_invoice("lnbc-not-an-invoice", None).unwrap_err();
    assert_eq!(err.kind, ErrorKind::BadRequest);
}

#[test]
fn parse_lnurl_decodes_bech32_form() {
    let url = parse_lnurl(LNURL_BECH32).unwrap();
    assert_eq!(url, LNURL_URL);
}

#[test]
fn parse_lnurl_reads_lightning_addresses() {
    let url = parse_lnurl("ben@opreturnbot.com").unwrap();
    assert_eq!(url, "https://opreturnbot.com/.well-known/lnurlp/ben");
}

#[test]
fn parse_lnurl_rejects_other_text() {
    let err = parse_lnurl("no payment info here").unwrap_err();
    assert_eq!(err.kind, ErrorKind::BadRequest);
    assert_eq!(err.message, "Invalid invoice or lnurl");
    let err = parse_lnurl("lnurl-but-not-bech32").unwrap_err();
    assert_eq!(err.message, "Invalid lnurl");
}

fn pay_request(info: &str, amount_msat: Option<u64>) -> fedimint_http::ln::LnPayRequest {
    fedimint_http::ln::LnPayRequest {
        payment_info: info.to_string(),
        amount_msat,
        finish_in_background: false,
        lnurl_comment: None,
        federeation_id: None,
    }
}

#[test]
fn get_invoice_picks_the_right_target() {
    match get_invoice(&pay_request(INVOICE_10_MSAT, None)).unwrap() {
        PaymentTarget::Bolt11 { amount_msat } => assert_eq!(amount_msat, 10),
        other => panic!("expected a direct invoice target, got {:?}", other),
    }
    match get_invoice(&pay_request(LNURL_BECH32, Some(2500))).unwrap() {
        PaymentTarget::Lnurl { url, amount_msat } => {
            assert_eq!(url, LNURL_URL);
            assert_eq!(amount_msat, 2500);
        }
        other => panic!("expected an lnurl target, got {:?}", other),
    }
    let err = get_invoice(&pay_request(LNURL_BECH32, None)).unwrap_err();
    assert_eq!(err.message, "When using a lnurl, an amount must be specified");
}

#[test]
fn lnurl_invoice_check_demands_the_exact_amount() {
    assert!(check_lnurl_invoice(INVOICE_10_MSAT, 10).is_ok());
    let err = check_lnurl_invoice(INVOICE_10_MSAT, 11).unwrap_err();
    assert_eq!(err.kind, ErrorKind::Upstream);
    assert!(check_lnurl_invoice("not an invoice", 10).is_err());
}

#[test]
fn internal_payment_reduces_to_a_response() {
    let op = OperationId { raw: 1 };
    let ptype = PayType::Internal(op);
    let events = vec![
        InternalPayEvent::Funding,
        InternalPayEvent::Preimage { preimage: "00ff".to_string() },
    ];
    let resp = handle_internal_payment(events, op, ptype, "contract".to_string(), false)
        .unwrap()
        .unwrap();
    assert_eq!(resp.operation_id, op);
    assert_eq!(resp.contract_id, "contract");
    assert_eq!(resp.fee, 0);
}

#[test]
fn internal_payment_detaches_on_funding_in_background_mode() {
    let op = OperationId { raw: 1 };
    let events = vec![
        InternalPayEvent::Funding,
        InternalPayEvent::Preimage { preimage: "00ff".to_string() },
    ];
    let resp =
        handle_internal_payment(events, op, PayType::Internal(op), "c".to_string(), true).unwrap();
    assert!(resp.is_none());
}

#[test]
fn internal_payment_failures_carry_their_reason() {
    let op = OperationId { raw: 1 };
    let events = vec![InternalPayEvent::FundingFailed { error: "no funds".to_string() }];
    let err = handle_internal_payment(events, op, PayType::Internal(op), "c".to_string(), false)
        .unwrap_err();
    assert_eq!(err.kind, ErrorKind::Upstream);
    assert_eq!(err.message, "FundingFailed: no funds");
    let err = handle_internal_payment(Vec::new(), op, PayType::Internal(op), "c".to_string(), false)
        .unwrap_err();
    assert_eq!(err.message, "Internal Payment failed");
}

#[test]
fn lightning_payment_reduces_to_a_response() {
    let op = OperationId { raw: 2 };
    let events = vec![
        LnPayEvent::Created,
        LnPayEvent::Funded,
        LnPayEvent::Success { preimage: "aa".to_string() },
    ];
    let resp = handle_lightning_payment(events, op, PayType::Lightning(op), "c".to_string(), false)
        .unwrap()
        .unwrap();
    assert_eq!(resp.operation_id, op);
    let events = vec![LnPayEvent::Canceled];
    let err = handle_lightning_payment(events, op, PayType::Lightning(op), "c".to_string(), false)
        .unwrap_err();
    assert_eq!(err.message, "Payment was canceled");
}

#[test]
fn trim_strips_surrounding_whitespace_only() {
    assert_eq!(trim_spaces("  lnurl x \r\n"), "lnurl x");
    assert_eq!(trim_spaces("plain"), "plain");
    assert_eq!(trim_spaces(" \t \n"), "");
    assert_eq!(trim_spaces(""), "");
}

#[test]
fn get_invoice_accepts_surrounding_whitespace() {
    let padded = format!("  {}\n", INVOICE_10_MSAT);
    match get_invoice(&pay_request(&padded, None)).unwrap() {
        PaymentTarget::Bolt11 { amount_msat } => assert_eq!(amount_msat, 10),
        other => panic!("expected a direct invoice target, got {:?}", other),
    }
}

#[test]
fn gateway_ids_must_be_valid_public_keys() {
    // the generator point of the signing curve, a well-formed key
    let key = "0279be667ef9dcbbac55a06295ce870b07029bfcdb2dce28d959f2815b16f81798";
    assert!(check_gateway_id(key).is_ok());
    let err = check_gateway_id("not-a-key").unwrap_err();
    assert_eq!(err.kind, ErrorKind::BadRequest);
    assert_eq!(err.message, "Invalid gateway id");
}

#[test]
fn gateway_list_marks_exactly_the_active_node() {
    let gateways = vec![
        JsonValue::Object(vec![
            ("node_pub_key".to_string(), JsonValue::Text("aaa".to_string())),
            ("fees".to_string(), JsonValue::UInt(1)),
        ]),
        JsonValue::Object(vec![(
            "node_pub_key".to_string(),
            JsonValue::Text("bbb".to_string()),
        )]),
    ];
    let marked = mark_active_gateways(gateways, "bbb");
    assert_eq!(marked.len(), 2);
    match &marked[0] {
        JsonValue::Object(f) => {
            assert_eq!(f.len(), 3);
            assert_eq!(f[2].0, "active");
            assert!(matches!(f[2].1, JsonValue::Bool(false)));
        }
        other => panic!("expected an object, got {:?}", other),
    }
    match &marked[1] {
        JsonValue::Object(f) => {
            assert_eq!(f[1].0, "active");
            assert!(matches!(f[1].1, JsonValue::Bool(true)));
        }
        other => panic!("expected an object, got {:?}", other),
    }
}

#[test]
fn switched_gateway_reports_itself_active() {
    let gateway = JsonValue::Object(vec![(
        "node_pub_key".to_string(),
        JsonValue::Text("ccc".to_string()),
    )]);
    match mark_gateway_active(gateway) {
        JsonValue::Object(f) => {
            assert_eq!(f.len(), 2);
            assert_eq!(f[1].0, "active");
            assert!(matches!(f[1].1, JsonValue::Bool(true)));
        }
        other => panic!("expected an object, got {:?}", other),
    }
}

#[test]
fn awaited_payments_follow_their_recorded_kind() {
    let op = OperationId { raw: 5 };
    assert_eq!(PayType::for_operation(op, true), PayType::Internal(op));
    assert_eq!(PayType::for_operation(op, false), PayType::Lightning(op));
}

#[test]
fn wait_for_ln_payment_follows_both_kinds() {
    let op = OperationId { raw: 3 };
    let resp = wait_for_ln_payment(
        PaymentUpdates::Internal(vec![InternalPayEvent::Preimage { preimage: "ff".to_string() }]),
        op,
        "c".to_string(),
        false,
    )
    .unwrap()
    .unwrap();
    assert_eq!(resp.payment_type, PayType::Internal(op));
    let detached = wait_for_ln_payment(
        PaymentUpdates::Lightning(vec![LnPayEvent::Funded]),
        op,
        "c".to_string(),
        true,
    )
    .unwrap();
    assert!(detached.is_none());
}

#[test]
fn background_payment_response_carries_the_quoted_fee() {
    let op = OperationId { raw: 12 };
    let resp = background_pay_response(PayType::Lightning(op), "contract".to_string(), 42);
    assert_eq!(resp.operation_id, op);
    assert_eq!(resp.payment_type, PayType::Lightning(op));
    assert_eq!(resp.contract_id, "contract");
    assert_eq!(resp.fee, 42);
}

#[test]
fn pay_type_exposes_its_operation_id() {
    let op = OperationId { raw: 77 };
    assert_eq!(PayType::Internal(op).operation_id(), op);
    assert_eq!(PayType::Lightning(op).operation_id(), op);
}

#[test]
fn withdraw_amounts_subtract_fees() {
    assert_eq!(withdraw_all_amount(1000, 30).unwrap(), 970);
    let err = withdraw_all_amount(20, 30).unwrap_err();
    assert_eq!(err.kind, ErrorKind::BadRequest);
    assert_eq!(err.message, "Insufficient balance to pay fees");
}

#[test]
fn withdraw_outcome_reports_txid_and_fees() {
    let outcome = WaiterOutcome::Success(WithdrawEvent::Succeeded { txid: "ab12".to_string() });
    let resp = withdraw_outcome(outcome, 30).unwrap();
    assert_eq!(resp.txid, "ab12");
    assert_eq!(resp.fees_sat, 30);
    let outcome = WaiterOutcome::Fatal(WithdrawEvent::Failed { error: "rbf".to_string() });
    let err = withdraw_outcome(outcome, 30).unwrap_err();
    assert_eq!(err.kind, ErrorKind::Upstream);
    assert_eq!(err.message, "Withdraw failed: rbf");
    let err = withdraw_outcome(WaiterOutcome::UnexpectedEnd, 30).unwrap_err();
    assert_eq!(err.message, "Update stream ended without outcome");
}

#[test]
fn deposit_outcome_hands_back_the_terminal_event() {
    let outcome = WaiterOutcome::Success(DepositEvent::Claimed { txid: "cd".to_string() });
    let resp = deposit_outcome(outcome).unwrap();
    assert!(matches!(resp.status, DepositEvent::Claimed { .. }));
    let err = deposit_outcome(WaiterOutcome::UnexpectedEnd).unwrap_err();
    assert_eq!(err.kind, ErrorKind::Internal);
    assert_eq!(err.message, "Unexpected end of stream");
    let err = deposit_outcome(WaiterOutcome::Fatal(DepositEvent::Failed {
        reason: "reorg".to_string(),
    }))
    .unwrap_err();
    assert_eq!(err.kind, ErrorKind::Upstream);
    assert_eq!(err.message, "reorg");
}

#[test]
fn info_response_computes_summary_totals() {
    let summary = vec![
        TierCount { amount_msat: 1, count: 3 },
        TierCount { amount_msat: 1024, count: 2 },
    ];
    let resp = info_response("signet".to_string(), Vec::new(), summary).unwrap();
    assert_eq!(resp.total_amount_msat, 2051);
    assert_eq!(resp.total_num_notes, 5);
    assert_eq!(resp.network, "signet");
    let overflow = vec![TierCount { amount_msat: u64::MAX, count: 2 }];
    let err = info_response("signet".to_string(), Vec::new(), overflow).unwrap_err();
    assert_eq!(err.kind, ErrorKind::Internal);
}

#[test]
fn federation_ids_lists_registrations_in_order() {
    let mut registry = ClientRegistry::new(MultiClientPolicy::RequireSole);
    registry.insert(FederationIdentity::from_bytes(vec![1; 32])).unwrap();
    registry.insert(FederationIdentity::from_bytes(vec![2; 32])).unwrap();
    let resp = federation_ids(&registry);
    assert_eq!(resp.federation_ids.len(), 2);
    assert_eq!(resp.federation_ids[0].bytes, vec![1; 32]);
    assert_eq!(resp.federation_ids[1].bytes, vec![2; 32]);
}

#[test]
fn operation_log_entries_format_their_creation_time() {
    let op = fedimint_http::admin::operation_output(
        OperationId { raw: 1 },
        0,
        "ln".to_string(),
        JsonValue::Null,
        None,
    )
    .unwrap();
    // the unix epoch rendered as ISO-8601 text
    assert!(op.creation_time.starts_with("1970-01-01T00:00:00"));
    let err = fedimint_http::admin::operation_output(
        OperationId { raw: 1 },
        i64::MAX,
        "ln".to_string(),
        JsonValue::Null,
        None,
    )
    .unwrap_err();
    assert_eq!(err.kind, ErrorKind::Internal);
}

#[test]
fn operation_log_page_serializes_in_order() {
    let first = fedimint_http::admin::operation_output(
        OperationId { raw: 7 },
        0,
        "ln".to_string(),
        JsonValue::Null,
        Some(JsonValue::Bool(true)),
    )
    .unwrap();
    let second = fedimint_http::admin::operation_output(
        OperationId { raw: 8 },
        86400,
        "mint".to_string(),
        JsonValue::UInt(3),
        None,
    )
    .unwrap();
    let doc = fedimint_http::admin::operations_response(vec![first, second]);
    match doc {
        JsonValue::Object(fields) => {
            assert_eq!(fields.len(), 1);
            assert_eq!(fields[0].0, "operations");
            match &fields[0].1 {
                JsonValue::Array(entries) => {
                    assert_eq!(entries.len(), 2);
                    match &entries[0] {
                        JsonValue::Object(f) => {
                            assert_eq!(f.len(), 5);
                            assert!(matches!(f[0].1, JsonValue::UInt(7)));
                            assert_eq!(f[4].0, "outcome");
                        }
                        other => panic!("expected an entry object, got {:?}", other),
                    }
                    match &entries[1] {
                        JsonValue::Object(f) => {
                            assert_eq!(f.len(), 4);
                            assert!(matches!(f[0].1, JsonValue::UInt(8)));
                            assert!(matches!(&f[1].1, JsonValue::Text(t) if t.starts_with("1970-01-02T")));
                        }
                        other => panic!("expected an entry object, got {:?}", other),
                    }
                }
                other => panic!("expected an entry array, got {:?}", other),
            }
        }
        other => panic!("expected an object, got {:?}", other),
    }
}

#[test]
fn await_invoice_outcome_signals_when_summary_is_owed() {
    assert!(await_invoice_outcome(WaiterOutcome::Success(LnReceiveEvent::Claimed)).is_ok());
    let err = await_invoice_outcome(WaiterOutcome::Fatal(LnReceiveEvent::Canceled {
        reason: "expired".to_string(),
    }))
    .unwrap_err();
    assert_eq!(err.kind, ErrorKind::Upstream);
    assert_eq!(err.message, "expired");
    let err = await_invoice_outcome(WaiterOutcome::UnexpectedEnd).unwrap_err();
    assert_eq!(err.message, "Unexpected end of stream");
}

#[test]
fn unfinished_operations_answer_not_implemented() {
    let module_req = ModuleRequest {
        module: ModuleSelector::Kind("ln".to_string()),
        args: Vec::new(),
        federation_id: None,
    };
    let err = module_passthrough(&module_req).unwrap_err();
    assert_eq!(err.kind, ErrorKind::NotImplemented);
    assert_eq!(err.status_code(), 501);
    assert_eq!(restore(&JsonValue::Null).unwrap_err().kind, ErrorKind::NotImplemented);
    let quote_req = PostMintQuoteMethodRequest {
        amount: 100,
        unit: "sat".to_string(),
        federation_id: None,
    };
    assert_eq!(mint_quote(&quote_req).unwrap_err().kind, ErrorKind::NotImplemented);
    assert_eq!(melt_quote("req", "sat").unwrap_err().kind, ErrorKind::NotImplemented);
}
