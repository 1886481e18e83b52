//! Lifecycle events of each operation kind, and their classification.
//!
//! Each enum mirrors the progress updates the federation backend streams
//! for one kind of operation, carrying as plain values exactly what the
//! gateway reads from them. The `LifecycleEvent` impls are the per-kind
//! classification tables the waiter reduces with: one success terminal
//! per kind, the failure terminals, and — for the two payment kinds that
//! can finish in the background — the detach hand-off point.

use vstd::prelude::*;

use crate::waiter::EventClass;
use crate::waiter::LifecycleEvent;

verus! {

/// Progress of an invoice waiting to be paid.
#[derive(Debug)]
pub enum LnReceiveEvent {
    Created,
    WaitingForPayment,
    Funded,
    AwaitingFunds,
    Claimed,
    Canceled { reason: String },
}

impl LifecycleEvent for LnReceiveEvent {
    open spec fn classification(&self) -> EventClass {
        match self {
            LnReceiveEvent::Claimed => EventClass::SuccessTerminal,
            LnReceiveEvent::Canceled { .. } => EventClass::FailTerminal,
            _ => EventClass::Continue,
        }
    }

    fn classify(&self) -> (c: EventClass)
        ensures
            c == self.classification(),
    {
        match self {
            LnReceiveEvent::Claimed => EventClass::SuccessTerminal,
            LnReceiveEvent::Canceled { .. } => EventClass::FailTerminal,
            _ => EventClass::Continue,
        }
    }
}

/// Progress of an outgoing payment settled inside the federation.
///
/// `Funding` is the hand-off point: once the payment is funded it can
/// finish without the caller watching.
#[derive(Debug)]
pub enum InternalPayEvent {
    Funding,
    Preimage { preimage: String },
    RefundSuccess { error: String },
    UnexpectedError { message: String },
    RefundError { error_message: String },
    FundingFailed { error: String },
}

impl LifecycleEvent for InternalPayEvent {
    open spec fn classification(&self) -> EventClass {
        match self {
            InternalPayEvent::Preimage { .. } => EventClass::SuccessTerminal,
            InternalPayEvent::Funding => EventClass::MayDetach,
            _ => EventClass::FailTerminal,
        }
    }

    fn classify(&self) -> (c: EventClass)
        ensures
            c == self.classification(),
    {
        match self {
            InternalPayEvent::Preimage { .. } => EventClass::SuccessTerminal,
            InternalPayEvent::Funding => EventClass::MayDetach,
            _ => EventClass::FailTerminal,
        }
    }
}

/// Progress of an outgoing payment routed over Lightning via a gateway.
///
/// `Funded` is the hand-off point for background completion.
#[derive(Debug)]
pub enum LnPayEvent {
    Created,
    AwaitingChange,
    WaitingForRefund,
    Funded,
    Success { preimage: String },
    Refunded { gateway_error: String },
    Canceled,
    UnexpectedError { error_message: String },
}

impl LifecycleEvent for LnPayEvent {
    open spec fn classification(&self) -> EventClass {
        match self {
            LnPayEvent::Success { .. } => EventClass::SuccessTerminal,
            LnPayEvent::Refunded { .. } => EventClass::FailTerminal,
            LnPayEvent::Canceled => EventClass::FailTerminal,
            LnPayEvent::UnexpectedError { .. } => EventClass::FailTerminal,
            LnPayEvent::Funded => EventClass::MayDetach,
            _ => EventClass::Continue,
        }
    }

    fn classify(&self) -> (c: EventClass)
        ensures
            c == self.classification(),
    {
        match self {
            LnPayEvent::Success { .. } => EventClass::SuccessTerminal,
            LnPayEvent::Refunded { .. } => EventClass::FailTerminal,
            LnPayEvent::Canceled => EventClass::FailTerminal,
            LnPayEvent::UnexpectedError { .. } => EventClass::FailTerminal,
            LnPayEvent::Funded => EventClass::MayDetach,
            _ => EventClass::Continue,
        }
    }
}

/// Progress of an on-chain deposit to a previously issued address.
///
/// Both a confirmed and a claimed deposit end the wait with success; the
/// caller is handed the event and reports its stage.
#[derive(Debug)]
pub enum DepositEvent {
    WaitingForTransaction,
    WaitingForConfirmation,
    Confirmed { txid: String },
    Claimed { txid: String },
    Failed { reason: String },
}

impl LifecycleEvent for DepositEvent {
    open spec fn classification(&self) -> EventClass {
        match self {
            DepositEvent::Confirmed { .. } => EventClass::SuccessTerminal,
            DepositEvent::Claimed { .. } => EventClass::SuccessTerminal,
            DepositEvent::Failed { .. } => EventClass::FailTerminal,
            _ => EventClass::Continue,
        }
    }

    fn classify(&self) -> (c: EventClass)
        ensures
            c == self.classification(),
    {
        match self {
            DepositEvent::Confirmed { .. } => EventClass::SuccessTerminal,
            DepositEvent::Claimed { .. } => EventClass::SuccessTerminal,
            DepositEvent::Failed { .. } => EventClass::FailTerminal,
            _ => EventClass::Continue,
        }
    }
}

/// Progress of an on-chain withdrawal.
#[derive(Debug)]
pub enum WithdrawEvent {
    Created,
    Succeeded { txid: String },
    Failed { error: String },
}

impl LifecycleEvent for WithdrawEvent {
    open spec fn classification(&self) -> EventClass {
        match self {
            WithdrawEvent::Succeeded { .. } => EventClass::SuccessTerminal,
            WithdrawEvent::Failed { .. } => EventClass::FailTerminal,
            _ => EventClass::Continue,
        }
    }

    fn classify(&self) -> (c: EventClass)
        ensures
            c == self.classification(),
    {
        match self {
            WithdrawEvent::Succeeded { .. } => EventClass::SuccessTerminal,
            WithdrawEvent::Failed { .. } => EventClass::FailTerminal,
            _ => EventClass::Continue,
        }
    }
}

/// Progress of reissuing e-cash notes received from a third party.
#[derive(Debug)]
pub enum ReissueEvent {
    Created,
    Issuing,
    Done,
    Failed { error: String },
}

impl LifecycleEvent for ReissueEvent {
    open spec fn classification(&self) -> EventClass {
        match self {
            ReissueEvent::Done => EventClass::SuccessTerminal,
            ReissueEvent::Failed { .. } => EventClass::FailTerminal,
            _ => EventClass::Continue,
        }
    }

    fn classify(&self) -> (c: EventClass)
        ensures
            c == self.classification(),
    {
        match self {
            ReissueEvent::Done => EventClass::SuccessTerminal,
            ReissueEvent::Failed { .. } => EventClass::FailTerminal,
            _ => EventClass::Continue,
        }
    }
}

} // verus!
