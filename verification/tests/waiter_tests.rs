use fedimint_http::events::DepositEvent;
use fedimint_http::events::InternalPayEvent;
use fedimint_http::events::LnPayEvent;
use fedimint_http::events::LnReceiveEvent;
use fedimint_http::events::ReissueEvent;
use fedimint_http::events::WithdrawEvent;
use fedimint_http::waiter::EventClass;
use fedimint_http::waiter::LifecycleEvent;
use fedimint_http::waiter::OperationWaiter;
use fedimint_http::waiter::WaiterOutcome;

#[test]
fn waiter_stops_at_sole_terminal_consuming_prefix() {
    // the sole terminal sits at position 2; positions 3 and 4 are never read
    let events = vec![
        LnReceiveEvent::Created,
        LnReceiveEvent::WaitingForPayment,
        LnReceiveEvent::Claimed,
        LnReceiveEvent::Funded,
        LnReceiveEvent::AwaitingFunds,
    ];
    let waiter = OperationWaiter::new(false);
    let (outcome, consumed) = waiter.drain(events);
    assert!(matches!(outcome, WaiterOutcome::Success(LnReceiveEvent::Claimed)));
    assert_eq!(consumed, 3);
}

#[test]
fn waiter_returns_fatal_at_failure_terminal() {
    let events = vec![
        WithdrawEvent::Created,
        WithdrawEvent::Failed { error: "tx rejected".to_string() },
        WithdrawEvent::Succeeded { txid: "unreached".to_string() },
    ];
    let waiter = OperationWaiter::new(false);
    let (outcome, consumed) = waiter.drain(events);
    match outcome {
        WaiterOutcome::Fatal(WithdrawEvent::Failed { error }) => {
            assert_eq!(error, "tx rejected");
        }
        other => panic!("expected a fatal outcome, got {:?}", other),
    }
    assert_eq!(consumed, 2);
}

#[test]
fn waiter_reports_unexpected_end_after_exhaustion() {
    let events = vec![
        DepositEvent::WaitingForTransaction,
        DepositEvent::WaitingForConfirmation,
        DepositEvent::WaitingForConfirmation,
    ];
    let waiter = OperationWaiter::new(false);
    let (outcome, consumed) = waiter.drain(events);
    assert!(matches!(outcome, WaiterOutcome::UnexpectedEnd));
    assert_eq!(consumed, 3);
}

#[test]
fn waiter_empty_stream_is_unexpected_end() {
    let events: Vec<ReissueEvent> = Vec::new();
    let waiter = OperationWaiter::new(false);
    let (outcome, consumed) = waiter.drain(events);
    assert!(matches!(outcome, WaiterOutcome::UnexpectedEnd));
    assert_eq!(consumed, 0);
}

#[test]
fn waiter_detaches_at_first_hand_off_despite_later_terminal() {
    // background mode: the funded hand-off wins even though a success
    // terminal is buffered right behind it
    let events = vec![
        LnPayEvent::Created,
        LnPayEvent::Funded,
        LnPayEvent::Success { preimage: "00".to_string() },
    ];
    let waiter = OperationWaiter::new(true);
    let (outcome, consumed) = waiter.drain(events);
    assert!(matches!(outcome, WaiterOutcome::Detached(LnPayEvent::Funded)));
    assert_eq!(consumed, 2);
}

#[test]
fn waiter_blocking_mode_runs_past_hand_off() {
    let events = vec![
        LnPayEvent::Created,
        LnPayEvent::Funded,
        LnPayEvent::Success { preimage: "00".to_string() },
    ];
    let waiter = OperationWaiter::new(false);
    let (outcome, consumed) = waiter.drain(events);
    assert!(matches!(outcome, WaiterOutcome::Success(LnPayEvent::Success { .. })));
    assert_eq!(consumed, 3);
}

#[test]
fn waiter_observe_matches_classification() {
    let waiter = OperationWaiter::new(false);
    assert!(waiter.observe(InternalPayEvent::Funding).is_none());
    let background = OperationWaiter::new(true);
    assert!(matches!(
        background.observe(InternalPayEvent::Funding),
        Some(WaiterOutcome::Detached(InternalPayEvent::Funding))
    ));
}

#[test]
fn classification_tables_match_operation_kinds() {
    assert_eq!(LnReceiveEvent::Claimed.classify(), EventClass::SuccessTerminal);
    assert_eq!(
        LnReceiveEvent::Canceled { reason: "expired".to_string() }.classify(),
        EventClass::FailTerminal
    );
    assert_eq!(LnReceiveEvent::Created.classify(), EventClass::Continue);
    assert_eq!(InternalPayEvent::Funding.classify(), EventClass::MayDetach);
    assert_eq!(LnPayEvent::Funded.classify(), EventClass::MayDetach);
    assert_eq!(LnPayEvent::Canceled.classify(), EventClass::FailTerminal);
    assert_eq!(DepositEvent::Confirmed { txid: "ab".to_string() }.classify(), EventClass::SuccessTerminal);
    assert_eq!(DepositEvent::Claimed { txid: "ab".to_string() }.classify(), EventClass::SuccessTerminal);
    assert_eq!(ReissueEvent::Done.classify(), EventClass::SuccessTerminal);
    assert_eq!(ReissueEvent::Issuing.classify(), EventClass::Continue);
    assert_eq!(WithdrawEvent::Succeeded { txid: "ab".to_string() }.classify(), EventClass::SuccessTerminal);
}
