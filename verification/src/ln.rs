//! Lightning operations: invoices, payments and the lnurl path.
//!
//! A payment request names its target as free text: a bolt11 invoice, a
//! bech32-encoded lnurl, or a lightning address. The decisions — which
//! of the three it is, which amounts are allowed, what each lifecycle
//! stream reduces to — are verified here. The bolt11 and lnurl decoding
//! itself is done by their own crates through the trusted wrappers
//! below; fetching an invoice from an lnurl-pay service is network work
//! and stays outside, handing its result back to `check_lnurl_invoice`.

use vstd::prelude::*;

use crate::error::ErrorKind;
use crate::error::GatewayError;
use crate::events::InternalPayEvent;
use crate::events::LnPayEvent;
use crate::events::LnReceiveEvent;
use crate::ids::FederationIdentity;
use crate::ids::OperationId;
use crate::json::JsonValue;
use crate::waiter::OperationWaiter;
use crate::waiter::WaiterOutcome;
use crate::waiter::spec_wait;

verus! {

/// How a payment is settled: inside the federation, or routed out over
/// Lightning. Either way it is tracked under one operation id.
#[derive(Clone, Copy, Debug, PartialEq, Eq, Structural)]
pub enum PayType {
    Internal(OperationId),
    Lightning(OperationId),
}

impl PayType {
    /// How an operation already in the log is awaited: under the kind
    /// the backend recorded for it.
    pub fn for_operation(operation_id: OperationId, is_internal_payment: bool) -> (r: PayType)
        ensures
            r == (if is_internal_payment {
                PayType::Internal(operation_id)
            } else {
                PayType::Lightning(operation_id)
            }),
    {
        if is_internal_payment {
            PayType::Internal(operation_id)
        } else {
            PayType::Lightning(operation_id)
        }
    }

    pub fn operation_id(&self) -> (r: OperationId)
        ensures
            r == (match *self {
                PayType::Internal(id) => id,
                PayType::Lightning(id) => id,
            }),
    {
        match self {
            PayType::Internal(id) => *id,
            PayType::Lightning(id) => *id,
        }
    }
}

#[derive(Debug)]
pub struct LnPayRequest {
    pub payment_info: String,
    pub amount_msat: Option<u64>,
    pub finish_in_background: bool,
    pub lnurl_comment: Option<String>,
    // the wire name of this field, misspelling included, is what the
    // protocol's clients already send
    pub federeation_id: Option<FederationIdentity>,
}

#[derive(Debug)]
pub struct LnPayResponse {
    pub operation_id: OperationId,
    pub payment_type: PayType,
    pub contract_id: String,
    pub fee: u64,
}

#[derive(Debug)]
pub struct LnInvoiceRequest {
    pub amount_msat: u64,
    pub description: String,
    pub expiry_time: Option<u64>,
    pub federation_id: Option<FederationIdentity>,
}

#[derive(Debug)]
pub struct LnInvoiceResponse {
    pub operation_id: OperationId,
    pub invoice: String,
}

#[derive(Debug)]
pub struct AwaitInvoiceRequest {
    pub operation_id: OperationId,
    pub federation_id: Option<FederationIdentity>,
}

#[derive(Debug)]
pub struct AwaitLnPayRequest {
    pub operation_id: OperationId,
    pub federation_id: Option<FederationIdentity>,
}

#[derive(Debug)]
pub struct ListGatewaysRequest {
    pub federation_id: Option<FederationIdentity>,
}

#[derive(Debug)]
pub struct SwitchGatewayRequest {
    pub gateway_id: String,
    pub federation_id: Option<FederationIdentity>,
}

/// What reducing an internally settled payment must yield: the preimage
/// terminal completes the payment fee-free under its operation id;
/// taking the funding hand-off means the payment goes on in the
/// background; every failure terminal carries its reason upstream; a
/// stream that ends early is the defined failure.
pub open spec fn spec_internal_pay_result(
    outcome: WaiterOutcome<InternalPayEvent>,
    operation_id: OperationId,
    payment_type: PayType,
    contract_id: Seq<char>,
    r: Result<Option<LnPayResponse>, GatewayError>,
) -> bool {
    match outcome {
        WaiterOutcome::Success(_) => match r {
            Ok(Some(resp)) => resp.operation_id == operation_id && resp.payment_type
                == payment_type && resp.contract_id@ == contract_id && resp.fee == 0,
            _ => false,
        },
        WaiterOutcome::Detached(_) => match r {
            Ok(resp) => resp is None,
            _ => false,
        },
        WaiterOutcome::Fatal(e) => match r {
            Err(err) => err.kind == ErrorKind::Upstream && match e {
                InternalPayEvent::RefundSuccess { error } => err.message@
                    == "Internal payment failed. A refund was issued. "@ + error@,
                InternalPayEvent::UnexpectedError { message } => err.message@ == message@,
                InternalPayEvent::RefundError { error_message } => err.message@
                    == "RefundError: "@ + error_message@,
                InternalPayEvent::FundingFailed { error } => err.message@ == "FundingFailed: "@
                    + error@,
                _ => true,
            },
            _ => false,
        },
        WaiterOutcome::UnexpectedEnd => match r {
            Err(err) => err.kind == ErrorKind::Upstream && err.message@
                == "Internal Payment failed"@,
            _ => false,
        },
    }
}

/// Map one internal-payment outcome to the caller's result.
pub fn internal_pay_outcome(
    outcome: WaiterOutcome<InternalPayEvent>,
    operation_id: OperationId,
    payment_type: PayType,
    contract_id: String,
) -> (r: Result<Option<LnPayResponse>, GatewayError>)
    ensures
        spec_internal_pay_result(outcome, operation_id, payment_type, contract_id@, r),
{
    match outcome {
        WaiterOutcome::Success(_) => Ok(
            Some(LnPayResponse { operation_id, payment_type, contract_id, fee: 0 }),
        ),
        WaiterOutcome::Detached(_) => Ok(None),
        WaiterOutcome::Fatal(e) => match e {
            InternalPayEvent::RefundSuccess { error } => {
                let message = "Internal payment failed. A refund was issued. ".to_owned().concat(
                    error.as_str(),
                );
                Err(GatewayError::new(ErrorKind::Upstream, message))
            },
            InternalPayEvent::UnexpectedError { message } => Err(
                GatewayError::new(ErrorKind::Upstream, message),
            ),
            InternalPayEvent::RefundError { error_message } => {
                let message = "RefundError: ".to_owned().concat(error_message.as_str());
                Err(GatewayError::new(ErrorKind::Upstream, message))
            },
            InternalPayEvent::FundingFailed { error } => {
                let message = "FundingFailed: ".to_owned().concat(error.as_str());
                Err(GatewayError::new(ErrorKind::Upstream, message))
            },
            _ => Err(GatewayError::upstream("Internal payment failed")),
        },
        WaiterOutcome::UnexpectedEnd => Err(GatewayError::upstream("Internal Payment failed")),
    }
}

/// Reduce a buffered internal-payment stream: stop at the first
/// terminal, or at the funding hand-off when the caller asked to return
/// on funding, and map what stopped the wait to the caller's result.
pub fn handle_internal_payment(
    events: Vec<InternalPayEvent>,
    operation_id: OperationId,
    payment_type: PayType,
    contract_id: String,
    return_on_funding: bool,
) -> (r: Result<Option<LnPayResponse>, GatewayError>)
    ensures
        spec_internal_pay_result(
            spec_wait(events@, return_on_funding).0,
            operation_id,
            payment_type,
            contract_id@,
            r,
        ),
{
    let waiter = OperationWaiter::new(return_on_funding);
    let reduced = waiter.drain(events);
    internal_pay_outcome(reduced.0, operation_id, payment_type, contract_id)
}

/// What reducing a gateway-routed payment must yield; as above, with
/// this kind's own terminals, and the funded state as the hand-off.
pub open spec fn spec_lightning_pay_result(
    outcome: WaiterOutcome<LnPayEvent>,
    operation_id: OperationId,
    payment_type: PayType,
    contract_id: Seq<char>,
    r: Result<Option<LnPayResponse>, GatewayError>,
) -> bool {
    match outcome {
        WaiterOutcome::Success(_) => match r {
            Ok(Some(resp)) => resp.operation_id == operation_id && resp.payment_type
                == payment_type && resp.contract_id@ == contract_id && resp.fee == 0,
            _ => false,
        },
        WaiterOutcome::Detached(_) => match r {
            Ok(resp) => resp is None,
            _ => false,
        },
        WaiterOutcome::Fatal(e) => match r {
            Err(err) => err.kind == ErrorKind::Upstream && match e {
                LnPayEvent::Refunded { gateway_error } => err.message@
                    == "Payment was refunded"@,
                LnPayEvent::Canceled => err.message@ == "Payment was canceled"@,
                LnPayEvent::UnexpectedError { error_message } => err.message@
                    == "UnexpectedError: "@ + error_message@,
                _ => true,
            },
            _ => false,
        },
        WaiterOutcome::UnexpectedEnd => match r {
            Err(err) => err.kind == ErrorKind::Upstream && err.message@
                == "Lightning Payment failed"@,
            _ => false,
        },
    }
}

/// Map one gateway-routed payment outcome to the caller's result.
pub fn lightning_pay_outcome(
    outcome: WaiterOutcome<LnPayEvent>,
    operation_id: OperationId,
    payment_type: PayType,
    contract_id: String,
) -> (r: Result<Option<LnPayResponse>, GatewayError>)
    ensures
        spec_lightning_pay_result(outcome, operation_id, payment_type, contract_id@, r),
{
    match outcome {
        WaiterOutcome::Success(_) => Ok(
            Some(LnPayResponse { operation_id, payment_type, contract_id, fee: 0 }),
        ),
        WaiterOutcome::Detached(_) => Ok(None),
        WaiterOutcome::Fatal(e) => match e {
            LnPayEvent::Refunded { gateway_error } => Err(
                GatewayError::upstream("Payment was refunded"),
            ),
            LnPayEvent::Canceled => Err(GatewayError::upstream("Payment was canceled")),
            LnPayEvent::UnexpectedError { error_message } => {
                let message = "UnexpectedError: ".to_owned().concat(error_message.as_str());
                Err(GatewayError::new(ErrorKind::Upstream, message))
            },
            _ => Err(GatewayError::upstream("Lightning payment failed")),
        },
        WaiterOutcome::UnexpectedEnd => Err(GatewayError::upstream("Lightning Payment failed")),
    }
}

/// Reduce a buffered gateway-routed payment stream, as
/// `handle_internal_payment` does for the internal kind.
pub fn handle_lightning_payment(
    events: Vec<LnPayEvent>,
    operation_id: OperationId,
    payment_type: PayType,
    contract_id: String,
    return_on_funding: bool,
) -> (r: Result<Option<LnPayResponse>, GatewayError>)
    ensures
        spec_lightning_pay_result(
            spec_wait(events@, return_on_funding).0,
            operation_id,
            payment_type,
            contract_id@,
            r,
        ),
{
    let waiter = OperationWaiter::new(return_on_funding);
    let reduced = waiter.drain(events);
    lightning_pay_outcome(reduced.0, operation_id, payment_type, contract_id)
}

/// The one decision of an invoice wait: the claimed terminal means the
/// caller is now owed the fresh note summary (fetched after this call);
/// a cancellation or a stream that ends early reports the failure.
pub fn await_invoice_outcome(outcome: WaiterOutcome<LnReceiveEvent>) -> (r: Result<
    (),
    GatewayError,
>)
    ensures
        match outcome {
            WaiterOutcome::Success(_) => r is Ok,
            WaiterOutcome::Fatal(e) => match r {
                Err(err) => err.kind == ErrorKind::Upstream && (e matches LnReceiveEvent::Canceled {
                    reason,
                } ==> err.message@ == reason@),
                Ok(_) => false,
            },
            _ => match r {
                Err(err) => err.kind == ErrorKind::Internal && err.message@
                    == "Unexpected end of stream"@,
                Ok(_) => false,
            },
        },
{
    match outcome {
        WaiterOutcome::Success(_) => Ok(()),
        WaiterOutcome::Fatal(e) => match e {
            LnReceiveEvent::Canceled { reason } => Err(
                GatewayError::new(ErrorKind::Upstream, reason),
            ),
            _ => Err(GatewayError::upstream("Invoice was canceled")),
        },
        _ => Err(GatewayError::internal("Unexpected end of stream")),
    }
}

/// What a bolt11 invoice says, as far as the gateway reads it: the
/// amount encoded in it, if any.
#[derive(Clone, Copy, Debug, PartialEq, Eq, Structural)]
pub struct Bolt11Summary {
    pub amount_msat: Option<u64>,
}

/// What decoding a text as a bolt11 invoice yields; a function of the
/// text alone.
pub uninterp spec fn bolt11_of(s: Seq<char>) -> Option<Bolt11Summary>;

/// Relies on lightning_invoice::Bolt11Invoice::from_str — whether the
/// text is a well-formed bolt11 invoice — and on
/// Bolt11Invoice::amount_milli_satoshis, the amount it encodes; both
/// depend on the text alone.
#[verifier::external_body]
fn decode_bolt11(info: &str) -> (r: Option<Bolt11Summary>)
    ensures
        r == bolt11_of(info@),
{
    match <lightning_invoice::Bolt11Invoice as core::str::FromStr>::from_str(info) {
        Ok(inv) => Some(Bolt11Summary { amount_msat: inv.amount_milli_satoshis() }),
        Err(_) => None,
    }
}

/// Accept a payment-info text as a bolt11 invoice.
///
/// The text must decode, the invoice must carry an amount, and the
/// caller must not give a second one beside it.
pub fn parse_invoice(info: &str, amount_msat: Option<u64>) -> (r: Result<
    Bolt11Summary,
    GatewayError,
>)
    ensures
        match bolt11_of(info@) {
            None => match r {
                Err(e) => e.kind == ErrorKind::BadRequest && e.message@
                    == "Invalid bolt11 invoice"@,
                Ok(_) => false,
            },
            Some(summary) => match (summary.amount_msat, amount_msat) {
                (Some(_), Some(_)) => match r {
                    Err(e) => e.kind == ErrorKind::BadRequest && e.message@
                        == "Amount specified in both invoice and command line"@,
                    Ok(_) => false,
                },
                (None, _) => match r {
                    Err(e) => e.kind == ErrorKind::BadRequest && e.message@
                        == "We don't support invoices without an amount"@,
                    Ok(_) => false,
                },
                _ => r == Ok::<Bolt11Summary, GatewayError>(summary),
            },
        },
{
    match decode_bolt11(info) {
        None => Err(GatewayError::bad_request("Invalid bolt11 invoice")),
        Some(summary) => match (summary.amount_msat, amount_msat) {
            (Some(_), Some(_)) => Err(
                GatewayError::bad_request("Amount specified in both invoice and command line"),
            ),
            (None, _) => Err(
                GatewayError::bad_request("We don't support invoices without an amount"),
            ),
            _ => Ok(summary),
        },
    }
}

/// One operation's buffered progress stream, under the kind the
/// payment was started as.
#[derive(Debug)]
pub enum PaymentUpdates {
    Internal(Vec<InternalPayEvent>),
    Lightning(Vec<LnPayEvent>),
}

/// Wait a payment out, whichever way it is settled: reduce its stream
/// under its own classification table and map the outcome to the
/// caller's result.
pub fn wait_for_ln_payment(
    updates: PaymentUpdates,
    operation_id: OperationId,
    contract_id: String,
    return_on_funding: bool,
) -> (r: Result<Option<LnPayResponse>, GatewayError>)
    ensures
        match updates {
            PaymentUpdates::Internal(events) => spec_internal_pay_result(
                spec_wait(events@, return_on_funding).0,
                operation_id,
                PayType::Internal(operation_id),
                contract_id@,
                r,
            ),
            PaymentUpdates::Lightning(events) => spec_lightning_pay_result(
                spec_wait(events@, return_on_funding).0,
                operation_id,
                PayType::Lightning(operation_id),
                contract_id@,
                r,
            ),
        },
{
    match updates {
        PaymentUpdates::Internal(events) => handle_internal_payment(
            events,
            operation_id,
            PayType::Internal(operation_id),
            contract_id,
            return_on_funding,
        ),
        PaymentUpdates::Lightning(events) => handle_lightning_payment(
            events,
            operation_id,
            PayType::Lightning(operation_id),
            contract_id,
            return_on_funding,
        ),
    }
}

/// The response of a payment left to finish in the background: the
/// hand-off was taken, so the caller gets the operation to await later,
/// under the payment's own kind, with the fee the gateway quoted.
pub fn background_pay_response(payment_type: PayType, contract_id: String, fee: u64) -> (r:
    LnPayResponse)
    ensures
        r.operation_id == (match payment_type {
            PayType::Internal(id) => id,
            PayType::Lightning(id) => id,
        }),
        r.payment_type == payment_type,
        r.contract_id == contract_id,
        r.fee == fee,
{
    let operation_id = payment_type.operation_id();
    LnPayResponse { operation_id, payment_type, contract_id, fee }
}

/// Whether `c` is whitespace stripped from the edges of payment info.
pub open spec fn spec_is_space(c: char) -> bool {
    c == ' ' || c == '\t' || c == '\n' || c == '\r'
}

/// How many whitespace characters the text starts with.
pub open spec fn spec_trim_start(s: Seq<char>) -> int
    decreases s.len(),
{
    if s.len() == 0 {
        0
    } else if spec_is_space(s[0]) {
        1 + spec_trim_start(s.drop_first())
    } else {
        0
    }
}

/// Where the text's trailing whitespace begins.
pub open spec fn spec_trim_end(s: Seq<char>) -> int
    decreases s.len(),
{
    if s.len() == 0 {
        0
    } else if spec_is_space(s.last()) {
        spec_trim_end(s.drop_last())
    } else {
        s.len() as int
    }
}

/// The text without its leading and trailing whitespace.
pub open spec fn spec_trimmed(s: Seq<char>) -> Seq<char> {
    if spec_trim_start(s) <= spec_trim_end(s) {
        s.subrange(spec_trim_start(s), spec_trim_end(s))
    } else {
        Seq::empty()
    }
}

proof fn lemma_trim_start_at(s: Seq<char>, a: int)
    requires
        0 <= a <= s.len(),
        forall|j: int| 0 <= j < a ==> spec_is_space(#[trigger] s[j]),
        a < s.len() ==> !spec_is_space(s[a]),
    ensures
        spec_trim_start(s) == a,
    decreases a,
{
    if a == 0 {
    } else {
        let rest = s.drop_first();
        assert forall|j: int| 0 <= j < a - 1 implies spec_is_space(#[trigger] rest[j]) by {
            assert(rest[j] == s[j + 1]);
        }
        if a - 1 < rest.len() {
            assert(rest[a - 1] == s[a]);
        }
        lemma_trim_start_at(rest, a - 1);
    }
}

proof fn lemma_trim_end_at(s: Seq<char>, b: int)
    requires
        0 <= b <= s.len(),
        forall|j: int| b <= j < s.len() ==> spec_is_space(#[trigger] s[j]),
        b > 0 ==> !spec_is_space(s[b - 1]),
    ensures
        spec_trim_end(s) == b,
    decreases s.len(),
{
    if b == s.len() {
        if s.len() > 0 {
            assert(s.last() == s[b - 1]);
        }
    } else {
        assert(spec_is_space(s.last()));
        let rest = s.drop_last();
        assert forall|j: int| b <= j < rest.len() implies spec_is_space(#[trigger] rest[j]) by {
            assert(rest[j] == s[j]);
        }
        if b > 0 {
            assert(rest[b - 1] == s[b - 1]);
        }
        lemma_trim_end_at(rest, b);
    }
}

fn space_at(s: &str, i: usize) -> (r: bool)
    requires
        i < s@.len(),
    ensures
        r == spec_is_space(s@[i as int]),
{
    let c = s.get_char(i);
    c == ' ' || c == '\t' || c == '\n' || c == '\r'
}

/// Strip leading and trailing whitespace, as payment info is cleaned
/// before it is read.
pub fn trim_spaces(s: &str) -> (r: String)
    ensures
        r@ == spec_trimmed(s@),
{
    let n = s.unicode_len();
    let mut a: usize = 0;
    while a < n && space_at(s, a)
        invariant
            n == s@.len(),
            a <= n,
            forall|j: int| 0 <= j < a ==> spec_is_space(#[trigger] s@[j]),
        decreases n - a,
    {
        a += 1;
    }
    proof {
        lemma_trim_start_at(s@, a as int);
    }
    let mut b: usize = n;
    while b > a && space_at(s, b - 1)
        invariant
            n == s@.len(),
            a <= b <= n,
            forall|j: int| b <= j < n ==> spec_is_space(#[trigger] s@[j]),
            forall|j: int| 0 <= j < a ==> spec_is_space(#[trigger] s@[j]),
        decreases b,
    {
        b -= 1;
    }
    if b == a {
        // the scan from the end came all the way back down: the text is
        // whitespace through and through
        let r = String::new();
        proof {
            if a < n {
                assert(spec_is_space(s@[a as int]));
            }
            assert(a == n);
            lemma_trim_end_at(s@, 0);
            assert(r@ =~= spec_trimmed(s@));
        }
        r
    } else {
        proof {
            lemma_trim_end_at(s@, b as int);
        }
        let piece = s.substring_char(a, b);
        let r = piece.to_owned();
        proof {
            assert(r@ =~= spec_trimmed(s@));
        }
        r
    }
}

/// Whether the text starts with `lnurl` in any casing.
pub open spec fn spec_lnurl_shaped(s: Seq<char>) -> bool {
    &&& s.len() >= 5
    &&& (s[0] == 'l' || s[0] == 'L')
    &&& (s[1] == 'n' || s[1] == 'N')
    &&& (s[2] == 'u' || s[2] == 'U')
    &&& (s[3] == 'r' || s[3] == 'R')
    &&& (s[4] == 'l' || s[4] == 'L')
}

fn lnurl_shaped(info: &str) -> (r: bool)
    ensures
        r == spec_lnurl_shaped(info@),
{
    if info.unicode_len() < 5 {
        return false;
    }
    let c0 = info.get_char(0);
    let c1 = info.get_char(1);
    let c2 = info.get_char(2);
    let c3 = info.get_char(3);
    let c4 = info.get_char(4);
    (c0 == 'l' || c0 == 'L') && (c1 == 'n' || c1 == 'N') && (c2 == 'u' || c2 == 'U') && (c3 == 'r'
        || c3 == 'R') && (c4 == 'l' || c4 == 'L')
}

/// Whether the text holds an at sign, the mark of a lightning address.
pub open spec fn spec_has_at_sign(s: Seq<char>) -> bool {
    exists|i: int| 0 <= i < s.len() && s[i] == '@'
}

fn has_at_sign(info: &str) -> (r: bool)
    ensures
        r == spec_has_at_sign(info@),
{
    let n = info.unicode_len();
    let mut i: usize = 0;
    while i < n
        invariant
            n == info@.len(),
            i <= n,
            forall|j: int| 0 <= j < i ==> info@[j] != '@',
        decreases n - i,
    {
        if info.get_char(i) == '@' {
            return true;
        }
        i += 1;
    }
    false
}

/// What bech32-decoding a text as an lnurl yields: the url it carries;
/// a function of the text alone.
pub uninterp spec fn lnurl_url_of(s: Seq<char>) -> Option<Seq<char>>;

/// Relies on lnurl::lnurl::LnUrl::from_str: bech32-decodes an `lnurl…`
/// text to the url it carries, a function of the text alone.
#[verifier::external_body]
fn decode_lnurl(info: &str) -> (r: Option<String>)
    ensures
        match r {
            Some(u) => lnurl_url_of(info@) == Some(u@),
            None => lnurl_url_of(info@) is None,
        },
{
    match <lnurl::lnurl::LnUrl as core::str::FromStr>::from_str(info) {
        Ok(l) => Some(l.url),
        Err(_) => None,
    }
}

/// What reading a text as a lightning address yields: the lnurl-pay url
/// serving that address; a function of the text alone.
pub uninterp spec fn lnurl_url_of_address(s: Seq<char>) -> Option<Seq<char>>;

/// Relies on lnurl::lightning_address::LightningAddress::from_str —
/// whether the text is a well-formed address — and on
/// LightningAddress::lnurl, the lnurl-pay url it is served under; both
/// depend on the text alone.
#[verifier::external_body]
fn decode_lightning_address(info: &str) -> (r: Option<String>)
    ensures
        match r {
            Some(u) => lnurl_url_of_address(info@) == Some(u@),
            None => lnurl_url_of_address(info@) is None,
        },
{
    match <lnurl::lightning_address::LightningAddress as core::str::FromStr>::from_str(info) {
        Ok(a) => Some(a.lnurl().url),
        Err(_) => None,
    }
}

/// Read a payment-info text as an lnurl: bech32 form when it is shaped
/// like one, a lightning address when it holds an at sign, anything
/// else is refused. The result is the url to fetch an invoice from.
pub fn parse_lnurl(info: &str) -> (r: Result<String, GatewayError>)
    ensures
        spec_lnurl_shaped(info@) ==> (match lnurl_url_of(info@) {
            Some(u) => r matches Ok(url) && url@ == u,
            None => r matches Err(e) && e.kind == ErrorKind::BadRequest && e.message@
                == "Invalid lnurl"@,
        }),
        !spec_lnurl_shaped(info@) && spec_has_at_sign(info@) ==> (match lnurl_url_of_address(
            info@,
        ) {
            Some(u) => r matches Ok(url) && url@ == u,
            None => r matches Err(e) && e.kind == ErrorKind::BadRequest && e.message@
                == "Invalid lightning address"@,
        }),
        !spec_lnurl_shaped(info@) && !spec_has_at_sign(info@) ==> (r matches Err(e) && e.kind
            == ErrorKind::BadRequest && e.message@ == "Invalid invoice or lnurl"@),
{
    if lnurl_shaped(info) {
        match decode_lnurl(info) {
            Some(url) => Ok(url),
            None => Err(GatewayError::bad_request("Invalid lnurl")),
        }
    } else if has_at_sign(info) {
        match decode_lightning_address(info) {
            Some(url) => Ok(url),
            None => Err(GatewayError::bad_request("Invalid lightning address")),
        }
    } else {
        Err(GatewayError::bad_request("Invalid invoice or lnurl"))
    }
}

/// Where a payment goes: straight to a bolt11 invoice carrying this
/// amount, or to an lnurl-pay service an invoice over this amount must
/// first be fetched from.
#[derive(Debug)]
pub enum PaymentTarget {
    Bolt11 { amount_msat: u64 },
    Lnurl { url: String, amount_msat: u64 },
}

/// The lnurl-pay url a payment-info text leads to, by shape: bech32
/// form when it starts with `lnurl`, a lightning address when it holds
/// an at sign.
pub open spec fn spec_lnurl_target(s: Seq<char>) -> Option<Seq<char>> {
    if spec_lnurl_shaped(s) {
        lnurl_url_of(s)
    } else if spec_has_at_sign(s) {
        lnurl_url_of_address(s)
    } else {
        None
    }
}

/// Decide where a payment request goes.
///
/// The payment info — cleaned of surrounding whitespace first — is read
/// as a bolt11 invoice; failing that, as an lnurl or lightning address,
/// which demands an explicit amount.
pub fn get_invoice(req: &LnPayRequest) -> (r: Result<PaymentTarget, GatewayError>)
    ensures
        match bolt11_of(spec_trimmed(req.payment_info@)) {
            Some(summary) => match (summary.amount_msat, req.amount_msat) {
                (Some(a), None) => match r {
                    Ok(PaymentTarget::Bolt11 { amount_msat: m }) => m == a,
                    _ => false,
                },
                _ => match r {
                    Err(e) => e.kind == ErrorKind::BadRequest,
                    _ => false,
                },
            },
            None => match spec_lnurl_target(spec_trimmed(req.payment_info@)) {
                Some(u) => match req.amount_msat {
                    Some(a) => match r {
                        Ok(PaymentTarget::Lnurl { url, amount_msat: m }) => url@ == u && m == a,
                        _ => false,
                    },
                    None => match r {
                        Err(e) => e.kind == ErrorKind::BadRequest && e.message@
                            == "When using a lnurl, an amount must be specified"@,
                        _ => false,
                    },
                },
                None => match r {
                    Err(e) => e.kind == ErrorKind::BadRequest,
                    _ => false,
                },
            },
        },
{
    let cleaned = trim_spaces(req.payment_info.as_str());
    let info = cleaned.as_str();
    match parse_invoice(info, req.amount_msat) {
        Ok(summary) => {
            match summary.amount_msat {
                Some(a) => Ok(PaymentTarget::Bolt11 { amount_msat: a }),
                None => Err(GatewayError::bad_request("We don't support invoices without an amount")),
            }
        },
        Err(first_error) => {
            if decode_bolt11(info).is_some() {
                // a real invoice whose amounts are unusable: report that,
                // not an lnurl failure
                return Err(first_error);
            }
            let url = match parse_lnurl(info) {
                Ok(url) => url,
                Err(e) => {
                    return Err(e);
                },
            };
            match req.amount_msat {
                Some(a) => Ok(PaymentTarget::Lnurl { url, amount_msat: a }),
                None => Err(
                    GatewayError::bad_request("When using a lnurl, an amount must be specified"),
                ),
            }
        },
    }
}

/// Whether a fetched gateway record names the active gateway's node.
pub open spec fn spec_gateway_is_active(g: JsonValue, key: Seq<char>) -> bool {
    match g.spec_get("node_pub_key"@) {
        Some(JsonValue::Text(t)) => t@ == key,
        _ => false,
    }
}

/// What marking one gateway record yields: an object gains one trailing
/// `active` field saying whether it is the active gateway; anything
/// else passes through untouched.
pub open spec fn spec_marked_gateway(g: JsonValue, key: Seq<char>, m: JsonValue) -> bool {
    match g {
        JsonValue::Object(f) => match m {
            JsonValue::Object(mf) => {
                &&& mf@.len() == f@.len() + 1
                &&& forall|j: int| 0 <= j < f@.len() ==> mf@[j] == f@[j]
                &&& mf@[f@.len() as int].0@ == "active"@
                &&& mf@[f@.len() as int].1 == JsonValue::Bool(spec_gateway_is_active(g, key))
            },
            _ => false,
        },
        _ => m == g,
    }
}

/// Mark the fetched gateway records: each gains an `active` flag, true
/// exactly for the record whose node public key is the active one.
pub fn mark_active_gateways(gateways: Vec<JsonValue>, active_node_pub_key: &str) -> (r: Vec<
    JsonValue,
>)
    ensures
        r@.len() == gateways@.len(),
        forall|i: int|
            0 <= i < gateways@.len() ==> spec_marked_gateway(
                gateways@[i],
                active_node_pub_key@,
                #[trigger] r@[i],
            ),
{
    let ghost orig = gateways@;
    let mut src = gateways;
    let mut out: Vec<JsonValue> = Vec::new();
    let ghost mut done: int = 0;
    while src.len() > 0
        invariant
            0 <= done <= orig.len(),
            src@ == orig.subrange(done, orig.len() as int),
            out@.len() == done,
            forall|i: int|
                0 <= i < done ==> spec_marked_gateway(
                    orig[i],
                    active_node_pub_key@,
                    #[trigger] out@[i],
                ),
        decreases src@.len(),
    {
        let ghost pre = src@;
        let g = src.remove(0);
        proof {
            assert(src@ =~= pre.drop_first());
            assert(g == orig[done]);
            assert(src@ =~= orig.subrange(done + 1, orig.len() as int));
        }
        let is_active = match g.get("node_pub_key") {
            Some(v) => match v.as_text() {
                Some(t) => crate::json::str_eq(t.as_str(), active_node_pub_key),
                None => false,
            },
            None => false,
        };
        match g {
            JsonValue::Object(fields) => {
                let ghost before = fields@;
                let mut fields = fields;
                fields.push(("active".to_owned(), JsonValue::Bool(is_active)));
                proof {
                    assert(fields@.len() == before.len() + 1);
                    assert(forall|j: int| 0 <= j < before.len() ==> fields@[j] == before[j]);
                }
                out.push(JsonValue::Object(fields));
            },
            other => {
                out.push(other);
            },
        }
        proof {
            done = done + 1;
        }
    }
    out
}

/// The answer of a gateway switch: the now-active gateway's record,
/// marked active.
pub fn mark_gateway_active(gateway: JsonValue) -> (r: JsonValue)
    ensures
        match gateway {
            JsonValue::Object(f) => match r {
                JsonValue::Object(mf) => {
                    &&& mf@.len() == f@.len() + 1
                    &&& forall|j: int| 0 <= j < f@.len() ==> mf@[j] == f@[j]
                    &&& mf@[f@.len() as int].0@ == "active"@
                    &&& mf@[f@.len() as int].1 == JsonValue::Bool(true)
                },
                _ => false,
            },
            _ => r == gateway,
        },
{
    match gateway {
        JsonValue::Object(fields) => {
            let mut fields = fields;
            fields.push(("active".to_owned(), JsonValue::Bool(true)));
            JsonValue::Object(fields)
        },
        other => other,
    }
}

/// Whether a text is a well-formed public key naming a Lightning
/// gateway node; a function of the text alone.
pub uninterp spec fn is_gateway_key(s: Seq<char>) -> bool;

/// Relies on bitcoin::secp256k1::PublicKey::from_str: whether the text
/// is a valid public key, a function of the text alone.
#[verifier::external_body]
fn decode_gateway_key(gateway_id: &str) -> (r: bool)
    ensures
        r == is_gateway_key(gateway_id@),
{
    <bitcoin::secp256k1::PublicKey as core::str::FromStr>::from_str(gateway_id).is_ok()
}

/// Accept a gateway id for switching: it must name a node by a valid
/// public key before the backend is asked to switch to it.
pub fn check_gateway_id(gateway_id: &str) -> (r: Result<(), GatewayError>)
    ensures
        is_gateway_key(gateway_id@) <==> r is Ok,
        r matches Err(e) ==> e.kind == ErrorKind::BadRequest && e.message@
            == "Invalid gateway id"@,
{
    if decode_gateway_key(gateway_id) {
        Ok(())
    } else {
        Err(GatewayError::bad_request("Invalid gateway id"))
    }
}

/// Check the invoice an lnurl-pay service answered with: it must decode
/// and carry exactly the requested amount.
pub fn check_lnurl_invoice(invoice: &str, amount_msat: u64) -> (r: Result<(), GatewayError>)
    ensures
        match bolt11_of(invoice@) {
            Some(summary) => if summary.amount_msat == Some(amount_msat) {
                r is Ok
            } else {
                r matches Err(e) && e.kind == ErrorKind::Upstream && e.message@
                    == "lnurl returned an invoice over the wrong amount"@
            },
            None => r matches Err(e) && e.kind == ErrorKind::Upstream && e.message@
                == "lnurl returned an invalid invoice"@,
        },
{
    match decode_bolt11(invoice) {
        Some(summary) => {
            let ok = match summary.amount_msat {
                Some(a) => a == amount_msat,
                None => false,
            };
            if ok {
                Ok(())
            } else {
                Err(GatewayError::upstream("lnurl returned an invoice over the wrong amount"))
            }
        },
        None => Err(GatewayError::upstream("lnurl returned an invalid invoice")),
    }
}

} // verus!
