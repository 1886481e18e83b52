//! Per-connection protocol state machine.
//!
//! A session is `Open` from the upgrade until a close frame or transport
//! error moves it to `Closing`, then `Closed`. While open it turns each
//! inbound document into a decision: answer at once with an
//! invalid-request error (the connection stays open), run a single
//! method, or start a subscription under a fresh task token. Single
//! exchanges complete in any order — a slow call never holds up the
//! response of a later one — and every response carries the id of its own
//! request. Closing the connection hands back the task tokens of all
//! live subscriptions so the surrounding process can stop their
//! consuming tasks; none is left running.

use vstd::prelude::*;

use crate::error::GatewayError;
use crate::error::spec_status_code;
use crate::frame::JSONRPC_ERROR_INVALID_REQUEST;
use crate::frame::JsonRpcRequest;
use crate::frame::JsonRpcResponse;
use crate::frame::invalid_request_response;
use crate::frame::parse_request;
use crate::frame::response_for;
use crate::frame::spec_parse_request;
use crate::frame::success_response;
use crate::json::JsonValue;
use crate::methods::JsonRpcMethod;
use crate::methods::JsonSubscriptionMethod;

verus! {

#[derive(Clone, Copy, Debug, PartialEq, Eq, Structural)]
pub enum SessionState {
    Open,
    Closing,
    Closed,
}

/// A live subscription: the task token the surrounding process runs its
/// stream under, and the request it answers.
#[derive(Clone, Copy, Debug, PartialEq, Eq, Structural)]
pub struct SubscriptionHandle {
    pub task: u64,
    pub request_id: u64,
    pub method: JsonSubscriptionMethod,
}

/// One inbound frame as the transport delivered it: a decoded JSON
/// document, or text that was no document at all — with whatever id the
/// decoder could still pull out of it.
#[derive(Debug)]
pub enum FrameInput {
    Parsed(JsonValue),
    Unparsed { recovered_id: Option<u64> },
}

/// What to do with one inbound frame.
#[derive(Debug)]
pub enum FrameDecision {
    /// Write this response now; nothing else to run.
    Reply(JsonRpcResponse),
    /// Run the single method and answer through `single_response`.
    RunSingle(JsonRpcRequest),
    /// Spawn the subscription's consuming task under the handle's token.
    StartSubscription(SubscriptionHandle, JsonRpcRequest),
}

/// The state of one duplex connection.
#[derive(Debug)]
pub struct ConnectionSession {
    state: SessionState,
    pending: Vec<u64>,
    subs: Vec<SubscriptionHandle>,
    next_task: u64,
}

impl ConnectionSession {
    pub closed spec fn spec_state(&self) -> SessionState {
        self.state
    }

    /// Ids of single requests dispatched and not yet answered.
    pub closed spec fn spec_pending(&self) -> Seq<u64> {
        self.pending@
    }

    /// Live subscriptions in start order.
    pub closed spec fn spec_subs(&self) -> Seq<SubscriptionHandle> {
        self.subs@
    }

    pub closed spec fn spec_task_counter(&self) -> u64 {
        self.next_task
    }

    /// Task tokens are fresh, hence pairwise distinct.
    pub open spec fn wf(&self) -> bool {
        &&& forall|i: int|
            0 <= i < self.spec_subs().len() ==> (#[trigger] self.spec_subs()[i]).task
                < self.spec_task_counter()
        &&& forall|i: int, j: int|
            0 <= i < j < self.spec_subs().len() ==> self.spec_subs()[i].task
                != self.spec_subs()[j].task
    }

    pub fn new() -> (r: ConnectionSession)
        ensures
            r.wf(),
            r.spec_state() == SessionState::Open,
            r.spec_pending() == Seq::<u64>::empty(),
            r.spec_subs() == Seq::<SubscriptionHandle>::empty(),
            r.spec_task_counter() == 0,
    {
        let r = ConnectionSession {
            state: SessionState::Open,
            pending: Vec::new(),
            subs: Vec::new(),
            next_task: 0,
        };
        proof {
            assert(r.spec_pending() =~= Seq::<u64>::empty());
            assert(r.spec_subs() =~= Seq::<SubscriptionHandle>::empty());
        }
        r
    }

    pub fn is_open(&self) -> (r: bool)
        ensures
            r == (self.spec_state() == SessionState::Open),
    {
        match self.state {
            SessionState::Open => true,
            _ => false,
        }
    }

    pub fn task_counter(&self) -> (r: u64)
        ensures
            r == self.spec_task_counter(),
    {
        self.next_task
    }

    pub fn pending_count(&self) -> (r: usize)
        ensures
            r == self.spec_pending().len(),
    {
        self.pending.len()
    }

    pub fn subscription_count(&self) -> (r: usize)
        ensures
            r == self.spec_subs().len(),
    {
        self.subs.len()
    }

    /// Decide one inbound frame.
    ///
    /// A document that is no valid request frame — or text that was no
    /// document — is answered at once with an invalid-request error under
    /// the best-effort id, and the session stays open for further frames.
    /// A single method is dispatched under its id; a subscription gets a
    /// fresh task token.
    pub fn on_frame(&mut self, input: FrameInput) -> (r: FrameDecision)
        requires
            old(self).wf(),
            old(self).spec_state() == SessionState::Open,
            old(self).spec_task_counter() < u64::MAX,
        ensures
            final(self).wf(),
            final(self).spec_state() == SessionState::Open,
            match input {
                FrameInput::Unparsed { recovered_id } => {
                    &&& *final(self) == *old(self)
                    &&& match r {
                        FrameDecision::Reply(resp) => {
                            &&& resp.id == (match recovered_id {
                                Some(i) => i,
                                None => 0,
                            })
                            &&& resp.result is None
                            &&& match resp.error {
                                Some(e) => e.code == JSONRPC_ERROR_INVALID_REQUEST && e.message@
                                    == "Invalid request"@,
                                None => false,
                            }
                        },
                        _ => false,
                    }
                },
                FrameInput::Parsed(v) => match spec_parse_request(v) {
                    Err(rid) => {
                        &&& *final(self) == *old(self)
                        &&& match r {
                            FrameDecision::Reply(resp) => {
                                &&& resp.id == rid
                                &&& resp.result is None
                                &&& match resp.error {
                                    Some(e) => e.code == JSONRPC_ERROR_INVALID_REQUEST
                                        && e.message@ == "Invalid request"@,
                                    None => false,
                                }
                            },
                            _ => false,
                        }
                    },
                    Ok(req) => match req.method {
                        JsonRpcMethod::Single(_) => {
                            &&& r == FrameDecision::RunSingle(req)
                            &&& final(self).spec_pending() == old(self).spec_pending().push(req.id)
                            &&& final(self).spec_subs() == old(self).spec_subs()
                            &&& final(self).spec_task_counter() == old(self).spec_task_counter()
                        },
                        JsonRpcMethod::Subscription(m) => {
                            &&& r == FrameDecision::StartSubscription(
                                (SubscriptionHandle {
                                    task: old(self).spec_task_counter(),
                                    request_id: req.id,
                                    method: m,
                                }),
                                req,
                            )
                            &&& final(self).spec_subs() == old(self).spec_subs().push(
                                (SubscriptionHandle {
                                    task: old(self).spec_task_counter(),
                                    request_id: req.id,
                                    method: m,
                                }),
                            )
                            &&& final(self).spec_pending() == old(self).spec_pending()
                            &&& final(self).spec_task_counter() == old(self).spec_task_counter()
                                + 1
                        },
                    },
                },
            },
    {
        match input {
            FrameInput::Unparsed { recovered_id } => {
                let id = match recovered_id {
                    Some(i) => i,
                    None => 0,
                };
                FrameDecision::Reply(invalid_request_response("Invalid request".to_owned(), id))
            },
            FrameInput::Parsed(v) => match parse_request(v) {
                Err(rid) => FrameDecision::Reply(
                    invalid_request_response("Invalid request".to_owned(), rid),
                ),
                Ok(req) => match req.method {
                    JsonRpcMethod::Single(_) => {
                        self.pending.push(req.id);
                        FrameDecision::RunSingle(req)
                    },
                    JsonRpcMethod::Subscription(m) => {
                        let handle = SubscriptionHandle {
                            task: self.next_task,
                            request_id: req.id,
                            method: m,
                        };
                        self.subs.push(handle);
                        self.next_task = self.next_task + 1;
                        FrameDecision::StartSubscription(handle, req)
                    },
                },
            },
        }
    }

    /// Answer one single exchange: the handler's result or error becomes
    /// the one response frame, under the request's own id, and that id
    /// stops being pending. Exchanges complete in any order.
    pub fn single_response(&mut self, id: u64, result: Result<JsonValue, GatewayError>) -> (r:
        JsonRpcResponse)
        requires
            old(self).wf(),
        ensures
            final(self).wf(),
            final(self).spec_state() == old(self).spec_state(),
            final(self).spec_subs() == old(self).spec_subs(),
            final(self).spec_task_counter() == old(self).spec_task_counter(),
            r.jsonrpc@ == "2.0"@,
            r.id == id,
            match result {
                Ok(v) => r.result == Some(v) && r.error is None,
                Err(e) => r.result is None && match r.error {
                    Some(err) => err.code == spec_status_code(e.kind) as i16 && err.message
                        == e.message,
                    None => false,
                },
            },
            (forall|j: int|
                0 <= j < old(self).spec_pending().len() ==> old(self).spec_pending()[j] != id)
                ==> final(self).spec_pending() == old(self).spec_pending(),
            (exists|j: int|
                0 <= j < old(self).spec_pending().len() && old(self).spec_pending()[j] == id)
                ==> exists|k: int|
                0 <= k < old(self).spec_pending().len() && old(self).spec_pending()[k] == id && (
                forall|j: int| 0 <= j < k ==> old(self).spec_pending()[j] != id)
                    && final(self).spec_pending() == old(self).spec_pending().remove(k),
    {
        let n = self.pending.len();
        let mut i: usize = 0;
        let mut found: Option<usize> = None;
        while i < n
            invariant
                self == old(self),
                n == self.pending@.len(),
                i <= n,
                match found {
                    Some(k) => k < i && self.pending@[k as int] == id && forall|j: int|
                        0 <= j < k ==> self.pending@[j] != id,
                    None => forall|j: int| 0 <= j < i ==> self.pending@[j] != id,
                },
            decreases n - i,
        {
            if found.is_none() && self.pending[i] == id {
                found = Some(i);
            }
            i += 1;
        }
        match found {
            Some(k) => {
                self.pending.remove(k);
            },
            None => {},
        }
        response_for(result, id)
    }

    /// One streamed frame of a subscription: the event as a success
    /// response under the id of the request that started the stream.
    pub fn subscription_event(&self, sub: &SubscriptionHandle, event: JsonValue) -> (r:
        JsonRpcResponse)
        ensures
            r.jsonrpc@ == "2.0"@,
            r.id == sub.request_id,
            r.result == Some(event),
            r.error is None,
    {
        success_response(event, sub.request_id)
    }

    /// A subscription's stream ended; forget its task token.
    pub fn end_subscription(&mut self, task: u64)
        requires
            old(self).wf(),
        ensures
            final(self).wf(),
            final(self).spec_state() == old(self).spec_state(),
            final(self).spec_pending() == old(self).spec_pending(),
            final(self).spec_task_counter() == old(self).spec_task_counter(),
            (forall|j: int|
                0 <= j < old(self).spec_subs().len() ==> (#[trigger] old(self).spec_subs()[j]).task
                    != task) ==> final(self).spec_subs() == old(self).spec_subs(),
            (exists|j: int|
                0 <= j < old(self).spec_subs().len() && (#[trigger] old(self).spec_subs()[j]).task
                    == task) ==> exists|k: int|
                0 <= k < old(self).spec_subs().len() && old(self).spec_subs()[k].task == task
                    && final(self).spec_subs() == old(self).spec_subs().remove(k),
    {
        let n = self.subs.len();
        let mut i: usize = 0;
        let mut found: Option<usize> = None;
        while i < n
            invariant
                self == old(self),
                n == self.subs@.len(),
                i <= n,
                match found {
                    Some(k) => k < i && self.subs@[k as int].task == task,
                    None => forall|j: int|
                        0 <= j < i ==> (#[trigger] self.subs@[j]).task != task,
                },
            decreases n - i,
        {
            if found.is_none() && self.subs[i].task == task {
                found = Some(i);
            }
            i += 1;
        }
        match found {
            Some(k) => {
                self.subs.remove(k);
            },
            None => {},
        }
    }

    /// A close frame or a transport failure: stop taking frames.
    pub fn begin_close(&mut self)
        ensures
            final(self).spec_state() == (match old(self).spec_state() {
                SessionState::Closed => SessionState::Closed,
                _ => SessionState::Closing,
            }),
            final(self).spec_pending() == old(self).spec_pending(),
            final(self).spec_subs() == old(self).spec_subs(),
            final(self).spec_task_counter() == old(self).spec_task_counter(),
            old(self).wf() ==> final(self).wf(),
    {
        match self.state {
            SessionState::Closed => {},
            _ => {
                self.state = SessionState::Closing;
            },
        }
    }

    /// Tear the connection down: the session is closed, no subscription
    /// stays live, and the returned tokens are exactly the tasks the
    /// surrounding process must stop, in start order.
    pub fn finish_close(&mut self) -> (cancelled: Vec<u64>)
        ensures
            final(self).wf(),
            final(self).spec_state() == SessionState::Closed,
            final(self).spec_pending() == Seq::<u64>::empty(),
            final(self).spec_subs() == Seq::<SubscriptionHandle>::empty(),
            cancelled@.len() == old(self).spec_subs().len(),
            forall|i: int|
                0 <= i < cancelled@.len() ==> cancelled@[i] == (#[trigger] old(
                    self,
                ).spec_subs()[i]).task,
    {
        let n = self.subs.len();
        let mut cancelled: Vec<u64> = Vec::new();
        let mut i: usize = 0;
        while i < n
            invariant
                self == old(self),
                n == self.subs@.len(),
                i <= n,
                cancelled@.len() == i,
                forall|j: int|
                    0 <= j < i ==> cancelled@[j] == (#[trigger] self.subs@[j]).task,
            decreases n - i,
        {
            cancelled.push(self.subs[i].task);
            i += 1;
        }
        self.state = SessionState::Closed;
        self.pending = Vec::new();
        self.subs = Vec::new();
        proof {
            assert(self.spec_pending() =~= Seq::<u64>::empty());
            assert(self.spec_subs() =~= Seq::<SubscriptionHandle>::empty());
        }
        cancelled
    }
}

} // verus!
