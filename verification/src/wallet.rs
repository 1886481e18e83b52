//! On-chain wallet operations: deposit addresses, deposits, withdrawals.
//!
//! The backend quotes fees and broadcasts transactions; what is decided
//! here — and verified — is the withdrawal arithmetic (how much leaves
//! when the caller asks for everything, and when the balance cannot
//! cover the fees) and the reduction of deposit and withdrawal event
//! streams to the one response the caller sees.

use vstd::prelude::*;

use crate::error::ErrorKind;
use crate::error::GatewayError;
use crate::events::DepositEvent;
use crate::events::WithdrawEvent;
use crate::ids::FederationIdentity;
use crate::ids::OperationId;
use crate::waiter::WaiterOutcome;

verus! {

/// How much to withdraw: a fixed amount in satoshi, or the whole
/// balance.
#[derive(Clone, Copy, Debug, PartialEq, Eq, Structural)]
pub enum AmountOrAll {
    All,
    Amount(u64),
}

#[derive(Debug)]
pub struct WithdrawRequest {
    pub address: String,
    pub amount_sat: AmountOrAll,
    pub federation_id: Option<FederationIdentity>,
}

#[derive(Debug)]
pub struct WithdrawResponse {
    pub txid: String,
    pub fees_sat: u64,
}

#[derive(Debug)]
pub struct DepositAddressRequest {
    pub timeout: u64,
    pub federation_id: Option<FederationIdentity>,
}

#[derive(Debug)]
pub struct DepositAddressResponse {
    pub address: String,
    pub operation_id: OperationId,
}

#[derive(Debug)]
pub struct AwaitDepositRequest {
    pub operation_id: OperationId,
    pub federation_id: Option<FederationIdentity>,
}

#[derive(Debug)]
pub struct AwaitDepositResponse {
    pub status: DepositEvent,
}

/// The balance in whole satoshi, as the on-chain wallet counts it.
pub fn balance_sat_of_msat(balance_msat: u64) -> (r: u64)
    ensures
        r == balance_msat / 1000,
{
    balance_msat / 1000
}

/// The amount that leaves when the caller withdraws everything: the
/// balance minus the quoted fees, or a bad request when the balance
/// cannot even cover the fees.
pub fn withdraw_all_amount(balance_sat: u64, fee_sat: u64) -> (r: Result<u64, GatewayError>)
    ensures
        match r {
            Ok(amount) => fee_sat <= balance_sat && amount == balance_sat - fee_sat,
            Err(e) => fee_sat > balance_sat && e.kind == ErrorKind::BadRequest && e.message@
                == "Insufficient balance to pay fees"@,
        },
{
    if fee_sat > balance_sat {
        Err(GatewayError::bad_request("Insufficient balance to pay fees"))
    } else {
        Ok(balance_sat - fee_sat)
    }
}

/// The one response of a withdrawal: the transaction id of the success
/// terminal together with the fees paid; a failure terminal or a stream
/// that ends early reports the failure instead.
pub fn withdraw_outcome(outcome: WaiterOutcome<WithdrawEvent>, fee_sat: u64) -> (r: Result<
    WithdrawResponse,
    GatewayError,
>)
    ensures
        match outcome {
            WaiterOutcome::Success(e) => match r {
                Ok(resp) => resp.fees_sat == fee_sat && (e matches WithdrawEvent::Succeeded {
                    txid,
                } ==> resp.txid@ == txid@),
                Err(_) => false,
            },
            WaiterOutcome::Fatal(e) => match r {
                Ok(_) => false,
                Err(err) => err.kind == ErrorKind::Upstream && (e matches WithdrawEvent::Failed {
                    error,
                } ==> err.message@ == "Withdraw failed: "@ + error@),
            },
            _ => match r {
                Ok(_) => false,
                Err(err) => err.kind == ErrorKind::Internal && err.message@
                    == "Update stream ended without outcome"@,
            },
        },
{
    match outcome {
        WaiterOutcome::Success(e) => match e {
            WithdrawEvent::Succeeded { txid } => Ok(WithdrawResponse { txid, fees_sat: fee_sat }),
            _ => Ok(WithdrawResponse { txid: String::new(), fees_sat: fee_sat }),
        },
        WaiterOutcome::Fatal(e) => match e {
            WithdrawEvent::Failed { error } => {
                let message = "Withdraw failed: ".to_owned().concat(error.as_str());
                Err(GatewayError::new(ErrorKind::Upstream, message))
            },
            _ => Err(GatewayError::upstream("Withdraw failed")),
        },
        _ => Err(GatewayError::internal("Update stream ended without outcome")),
    }
}

/// The one response of a deposit wait: the success terminal — the
/// deposit confirmed or claimed — is handed back as the status; a
/// failure terminal or a stream that ends early reports the failure.
pub fn deposit_outcome(outcome: WaiterOutcome<DepositEvent>) -> (r: Result<
    AwaitDepositResponse,
    GatewayError,
>)
    ensures
        match outcome {
            WaiterOutcome::Success(e) => match r {
                Ok(resp) => resp.status == e,
                Err(_) => false,
            },
            WaiterOutcome::Fatal(e) => match r {
                Ok(_) => false,
                Err(err) => err.kind == ErrorKind::Upstream && (e matches DepositEvent::Failed {
                    reason,
                } ==> err.message@ == reason@),
            },
            _ => match r {
                Ok(_) => false,
                Err(err) => err.kind == ErrorKind::Internal && err.message@
                    == "Unexpected end of stream"@,
            },
        },
{
    match outcome {
        WaiterOutcome::Success(e) => Ok(AwaitDepositResponse { status: e }),
        WaiterOutcome::Fatal(e) => match e {
            DepositEvent::Failed { reason } => Err(GatewayError::new(ErrorKind::Upstream, reason)),
            _ => Err(GatewayError::upstream("Deposit failed")),
        },
        _ => Err(GatewayError::internal("Unexpected end of stream")),
    }
}

} // verus!
