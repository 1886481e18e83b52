use fedimint_http::error::ErrorKind;
use fedimint_http::events::ReissueEvent;
use fedimint_http::ids::IdentityPrefix;
use fedimint_http::ids::OperationId;
use fedimint_http::mint::combine;
use fedimint_http::mint::reissue_outcome;
use fedimint_http::mint::spend_response;
use fedimint_http::mint::split;
use fedimint_http::mint::CombineRequest;
use fedimint_http::mint::OobNotes;
use fedimint_http::mint::SignedNote;
use fedimint_http::mint::SplitRequest;
use fedimint_http::waiter::WaiterOutcome;

fn notes(prefix: u8, amounts: &[u64]) -> OobNotes {
    OobNotes {
        federation_id_prefix: IdentityPrefix::from_bytes(vec![prefix; 4]),
        notes: amounts
            .iter()
            .enumerate()
            .map(|(i, a)| SignedNote { amount_msat: *a, note: vec![i as u8, prefix] })
            .collect(),
    }
}

#[test]
fn total_amount_sums_denominations() {
    assert_eq!(notes(1, &[1, 2, 4, 8]).total_amount(), Some(15));
    assert_eq!(notes(1, &[]).total_amount(), Some(0));
}

#[test]
fn total_amount_detects_overflow() {
    assert_eq!(notes(1, &[u64::MAX, 1]).total_amount(), None);
}

#[test]
fn combine_concatenates_notes_of_one_federation() {
    let req = CombineRequest { notes: vec![notes(3, &[1, 2]), notes(3, &[4]), notes(3, &[8, 16])] };
    let resp = combine(req).unwrap();
    assert_eq!(resp.notes.federation_id_prefix.bytes, vec![3; 4]);
    let amounts: Vec<u64> = resp.notes.notes.iter().map(|n| n.amount_msat).collect();
    assert_eq!(amounts, vec![1, 2, 4, 8, 16]);
}

#[test]
fn combine_rejects_mixed_federations() {
    let req = CombineRequest { notes: vec![notes(3, &[1]), notes(4, &[2])] };
    let err = combine(req).unwrap_err();
    assert_eq!(err.kind, ErrorKind::BadRequest);
    assert_eq!(err.message, "E-cash notes strings from different federations");
}

#[test]
fn combine_rejects_empty_input() {
    let err = combine(CombineRequest { notes: Vec::new() }).unwrap_err();
    assert_eq!(err.kind, ErrorKind::BadRequest);
}

#[test]
fn split_keeps_one_first_note_per_denomination() {
    let req = SplitRequest { notes: notes(7, &[1, 2, 1, 4, 2]) };
    let resp = split(req);
    let amounts: Vec<u64> = resp.notes.iter().map(|(a, _)| *a).collect();
    assert_eq!(amounts, vec![1, 2, 4]);
    for (amount, single) in &resp.notes {
        assert_eq!(single.federation_id_prefix.bytes, vec![7; 4]);
        assert_eq!(single.notes.len(), 1);
        assert_eq!(single.notes[0].amount_msat, *amount);
    }
    // the first note of denomination 1 sits at input position 0
    assert_eq!(resp.notes[0].1.notes[0].note, vec![0, 7]);
    // the first note of denomination 2 sits at input position 1
    assert_eq!(resp.notes[1].1.notes[0].note, vec![1, 7]);
}

#[test]
fn split_of_empty_notes_is_empty() {
    let resp = split(SplitRequest { notes: notes(7, &[]) });
    assert!(resp.notes.is_empty());
}

#[test]
fn reissue_outcome_reports_amount_on_success() {
    let done = reissue_outcome(WaiterOutcome::Success(ReissueEvent::Done), 1500).unwrap();
    assert_eq!(done.amount_msat, 1500);
    let failed = reissue_outcome(
        WaiterOutcome::Fatal(ReissueEvent::Failed { error: "invalid notes".to_string() }),
        1500,
    )
    .unwrap_err();
    assert_eq!(failed.kind, ErrorKind::Upstream);
    assert_eq!(failed.message, "invalid notes");
    let ended = reissue_outcome(WaiterOutcome::UnexpectedEnd, 1500).unwrap_err();
    assert_eq!(ended.kind, ErrorKind::Internal);
    assert_eq!(ended.message, "Unexpected end of stream");
}

#[test]
fn spend_response_reports_overspend() {
    let op = OperationId { raw: 9 };
    let (resp, overspend) = spend_response(op, notes(2, &[8, 4]), 10).unwrap();
    assert_eq!(overspend, 2);
    assert_eq!(resp.operation, op);
    assert_eq!(resp.notes.notes.len(), 2);
    let err = spend_response(op, notes(2, &[4]), 10).unwrap_err();
    assert_eq!(err.kind, ErrorKind::Internal);
}
