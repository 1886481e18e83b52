//! The REST face: the route table and the bearer credential check.
//!
//! REST requests run the same operations as the duplex protocol's single
//! dispatch, without the frame envelope: the route decides the
//! operation, the payload is the request body, and the HTTP status comes
//! from the error taxonomy. Every financial route demands the one shared
//! bearer credential fixed at startup; only the liveness routes are
//! open.

use vstd::prelude::*;

use crate::json::str_eq;
use crate::methods::JsonRpcMethod;
use crate::methods::JsonRpcSingleMethod;
use crate::methods::JsonSubscriptionMethod;

verus! {

#[derive(Clone, Copy, Debug, PartialEq, Eq, Structural)]
pub enum HttpVerb {
    Get,
    Post,
}

/// Everything a REST route can run.
#[derive(Clone, Copy, Debug, PartialEq, Eq, Structural)]
pub enum RestOperation {
    /// One of the shared protocol operations.
    Rpc(JsonRpcMethod),
    /// The ids of all registered federations.
    AdminFederationIds,
    /// Join a federation by invite code.
    AdminJoin,
    /// Upgrade to the duplex protocol.
    WebSocketUpgrade,
    /// Mint quote lookup of the note-token face; a capability gap.
    CashuMintQuote,
    /// Mint quote status of the note-token face; a capability gap.
    CashuMintQuoteId,
    /// Melt quote lookup of the note-token face; a capability gap.
    CashuMeltQuote,
    /// Melt quote status of the note-token face; a capability gap.
    CashuMeltQuoteId,
    /// Service banner.
    Readme,
    /// Liveness probe.
    Health,
}

/// Whether a route is financial and therefore guarded by the bearer
/// credential; only the banner and the liveness probe are open.
pub open spec fn spec_requires_auth(op: RestOperation) -> bool {
    match op {
        RestOperation::Readme => false,
        RestOperation::Health => false,
        _ => true,
    }
}

/// Whether a route is guarded by the bearer credential.
pub fn requires_auth(op: &RestOperation) -> (r: bool)
    ensures
        r == spec_requires_auth(*op),
{
    match op {
        RestOperation::Readme => false,
        RestOperation::Health => false,
        _ => true,
    }
}

/// One segment of a route pattern: a literal, or a placeholder matching
/// any one segment.
#[derive(Debug)]
pub enum PathSegment {
    Lit(String),
    Param,
}

/// One route: a verb, a segment pattern and the operation it runs.
#[derive(Debug)]
pub struct RestRoute {
    pub verb: HttpVerb,
    pub segments: Vec<PathSegment>,
    pub op: RestOperation,
}

/// Whether a request with `verb` and path `path` takes route `r`.
pub open spec fn spec_route_matches(r: RestRoute, verb: HttpVerb, path: Seq<Seq<char>>) -> bool {
    &&& r.verb == verb
    &&& r.segments@.len() == path.len()
    &&& forall|i: int|
        0 <= i < path.len() ==> match #[trigger] r.segments@[i] {
            PathSegment::Lit(s) => s@ == path[i],
            PathSegment::Param => true,
        }
}

impl RestRoute {
    /// Whether this route takes a request with `verb` and the given path
    /// segments.
    pub fn matches(&self, verb: HttpVerb, path: &Vec<String>) -> (r: bool)
        ensures
            r == spec_route_matches(*self, verb, path@.map_values(|s: String| s@)),
    {
        let ghost pathv = path@.map_values(|s: String| s@);
        if !matches!(self.verb, HttpVerb::Get) && matches!(verb, HttpVerb::Get) {
            return false;
        }
        if !matches!(self.verb, HttpVerb::Post) && matches!(verb, HttpVerb::Post) {
            return false;
        }
        assert(self.verb == verb);
        if self.segments.len() != path.len() {
            return false;
        }
        let n = self.segments.len();
        let mut i: usize = 0;
        while i < n
            invariant
                pathv == path@.map_values(|s: String| s@),
                n == self.segments@.len() == path@.len(),
                i <= n,
                self.verb == verb,
                forall|j: int|
                    0 <= j < i ==> match #[trigger] self.segments@[j] {
                        PathSegment::Lit(s) => s@ == pathv[j],
                        PathSegment::Param => true,
                    },
            decreases n - i,
        {
            match &self.segments[i] {
                PathSegment::Lit(s) => {
                    if !str_eq(s.as_str(), path[i].as_str()) {
                        assert(!(match self.segments@[i as int] {
                            PathSegment::Lit(s) => s@ == pathv[i as int],
                            PathSegment::Param => true,
                        }));
                        return false;
                    }
                },
                PathSegment::Param => {},
            }
            i += 1;
        }
        true
    }
}

/// The stateless REST router: the immutable route table built at
/// startup.
#[derive(Debug)]
pub struct RequestRouter {
    routes: Vec<RestRoute>,
}

impl RequestRouter {
    pub closed spec fn spec_routes(&self) -> Seq<RestRoute> {
        self.routes@
    }

    /// Find the route for a request: the first table entry matching the
    /// verb and path.
    pub fn route(&self, verb: HttpVerb, path: &Vec<String>) -> (r: Option<&RestRoute>)
        ensures
            match r {
                Some(route) => {
                    &&& exists|k: int|
                        0 <= k < self.spec_routes().len() && self.spec_routes()[k] == *route && (
                        forall|j: int|
                            0 <= j < k ==> !spec_route_matches(
                                #[trigger] self.spec_routes()[j],
                                verb,
                                path@.map_values(|s: String| s@),
                            ))
                    &&& spec_route_matches(*route, verb, path@.map_values(|s: String| s@))
                },
                None => forall|j: int|
                    0 <= j < self.spec_routes().len() ==> !spec_route_matches(
                        #[trigger] self.spec_routes()[j],
                        verb,
                        path@.map_values(|s: String| s@),
                    ),
            },
    {
        let n = self.routes.len();
        let mut i: usize = 0;
        while i < n
            invariant
                n == self.routes@.len(),
                i <= n,
                forall|j: int|
                    0 <= j < i ==> !spec_route_matches(
                        #[trigger] self.routes@[j],
                        verb,
                        path@.map_values(|s: String| s@),
                    ),
            decreases n - i,
        {
            if self.routes[i].matches(verb, path) {
                let r = &self.routes[i];
                proof {
                    assert(self.spec_routes()[i as int] == *r);
                    assert(exists|k: int|
                        0 <= k < self.spec_routes().len() && self.spec_routes()[k] == *r && (
                        forall|j: int|
                            0 <= j < k ==> !spec_route_matches(
                                #[trigger] self.spec_routes()[j],
                                verb,
                                path@.map_values(|s: String| s@),
                            ))) by {
                        assert(self.spec_routes()[i as int] == *r && (forall|j: int|
                            0 <= j < i as int ==> !spec_route_matches(
                                #[trigger] self.spec_routes()[j],
                                verb,
                                path@.map_values(|s: String| s@),
                            )));
                    }
                }
                return Some(r);
            }
            i += 1;
        }
        None
    }
}

fn lit(s: &str) -> (r: PathSegment)
    ensures
        r matches PathSegment::Lit(t) && t@ == s@,
{
    PathSegment::Lit(s.to_owned())
}

/// A pattern segment that is exactly the literal `name`.
pub open spec fn spec_lit_seg(seg: PathSegment, name: Seq<char>) -> bool {
    seg matches PathSegment::Lit(s) && s@ == name
}

/// A route of literal segments only: this verb, exactly these segment
/// names in order, this operation.
pub open spec fn spec_lit_route(
    r: RestRoute,
    verb: HttpVerb,
    names: Seq<Seq<char>>,
    op: RestOperation,
) -> bool {
    &&& r.verb == verb
    &&& r.op == op
    &&& r.segments@.len() == names.len()
    &&& forall|i: int| 0 <= i < names.len() ==> spec_lit_seg(#[trigger] r.segments@[i], names[i])
}

fn route_0(verb: HttpVerb, op: RestOperation) -> (r: RestRoute)
    ensures
        spec_lit_route(r, verb, Seq::<Seq<char>>::empty(), op),
{
    let r = RestRoute { verb, segments: Vec::new(), op };
    proof {
        assert(r.segments@.len() == 0);
    }
    r
}

fn route_1(verb: HttpVerb, a: &str, op: RestOperation) -> (r: RestRoute)
    ensures
        spec_lit_route(r, verb, seq![a@], op),
{
    let mut segments: Vec<PathSegment> = Vec::new();
    segments.push(lit(a));
    let r = RestRoute { verb, segments, op };
    proof {
        assert(spec_lit_seg(r.segments@[0], a@));
    }
    r
}

fn route_3(verb: HttpVerb, a: &str, b: &str, c: &str, op: RestOperation) -> (r: RestRoute)
    ensures
        spec_lit_route(r, verb, seq![a@, b@, c@], op),
{
    let mut segments: Vec<PathSegment> = Vec::new();
    segments.push(lit(a));
    segments.push(lit(b));
    segments.push(lit(c));
    let r = RestRoute { verb, segments, op };
    proof {
        assert(spec_lit_seg(r.segments@[0], a@));
        assert(spec_lit_seg(r.segments@[1], b@));
        assert(spec_lit_seg(r.segments@[2], c@));
    }
    r
}

fn route_4(verb: HttpVerb, a: &str, b: &str, c: &str, d: &str, op: RestOperation) -> (r: RestRoute)
    ensures
        spec_lit_route(r, verb, seq![a@, b@, c@, d@], op),
{
    let mut segments: Vec<PathSegment> = Vec::new();
    segments.push(lit(a));
    segments.push(lit(b));
    segments.push(lit(c));
    segments.push(lit(d));
    let r = RestRoute { verb, segments, op };
    proof {
        assert(spec_lit_seg(r.segments@[0], a@));
        assert(spec_lit_seg(r.segments@[1], b@));
        assert(spec_lit_seg(r.segments@[2], c@));
        assert(spec_lit_seg(r.segments@[3], d@));
    }
    r
}

/// A quote route: four literal segments and one placeholder — two when
/// the route also names a quote id.
fn quote_route(a: &str, b: &str, c: &str, d: &str, with_id: bool, op: RestOperation) -> (r:
    RestRoute)
    ensures
        r.verb == HttpVerb::Get,
        r.op == op,
        r.segments@.len() == (if with_id {
            6int
        } else {
            5int
        }),
        spec_lit_seg(r.segments@[0], a@),
        spec_lit_seg(r.segments@[1], b@),
        spec_lit_seg(r.segments@[2], c@),
        spec_lit_seg(r.segments@[3], d@),
        r.segments@[4] is Param,
        with_id ==> r.segments@[5] is Param,
{
    let mut segments: Vec<PathSegment> = Vec::new();
    segments.push(lit(a));
    segments.push(lit(b));
    segments.push(lit(c));
    segments.push(lit(d));
    segments.push(PathSegment::Param);
    if with_id {
        segments.push(PathSegment::Param);
    }
    let r = RestRoute { verb: HttpVerb::Get, segments, op };
    proof {
        assert(spec_lit_seg(r.segments@[0], a@));
        assert(spec_lit_seg(r.segments@[1], b@));
        assert(spec_lit_seg(r.segments@[2], c@));
        assert(spec_lit_seg(r.segments@[3], d@));
    }
    r
}

impl RequestRouter {
    /// The gateway's full route table, built once at startup: the
    /// financial operations under their REST paths, the duplex upgrade
    /// endpoint, the note-token quote routes, and the two open liveness
    /// routes. Each route's verb, full path pattern and operation are
    /// pinned below, so the table maps exactly this set and nothing
    /// else.
    #[verifier::rlimit(60)]
    pub fn standard() -> (r: RequestRouter)
        ensures
            r.spec_routes().len() == 30,
            spec_lit_route(
                r.spec_routes()[0],
                HttpVerb::Post,
                seq!["fedimint"@, "v2"@, "mint"@, "reissue"@],
                RestOperation::Rpc(JsonRpcMethod::Single(JsonRpcSingleMethod::MintReissue)),
            ),
            spec_lit_route(
                r.spec_routes()[1],
                HttpVerb::Post,
                seq!["fedimint"@, "v2"@, "mint"@, "spend"@],
                RestOperation::Rpc(JsonRpcMethod::Single(JsonRpcSingleMethod::MintSpend)),
            ),
            spec_lit_route(
                r.spec_routes()[2],
                HttpVerb::Post,
                seq!["fedimint"@, "v2"@, "mint"@, "validate"@],
                RestOperation::Rpc(JsonRpcMethod::Single(JsonRpcSingleMethod::MintValidate)),
            ),
            spec_lit_route(
                r.spec_routes()[3],
                HttpVerb::Post,
                seq!["fedimint"@, "v2"@, "mint"@, "split"@],
                RestOperation::Rpc(JsonRpcMethod::Single(JsonRpcSingleMethod::MintSplit)),
            ),
            spec_lit_route(
                r.spec_routes()[4],
                HttpVerb::Post,
                seq!["fedimint"@, "v2"@, "mint"@, "combine"@],
                RestOperation::Rpc(JsonRpcMethod::Single(JsonRpcSingleMethod::MintCombine)),
            ),
            spec_lit_route(
                r.spec_routes()[5],
                HttpVerb::Post,
                seq!["fedimint"@, "v2"@, "ln"@, "invoice"@],
                RestOperation::Rpc(JsonRpcMethod::Single(JsonRpcSingleMethod::LnInvoice)),
            ),
            spec_lit_route(
                r.spec_routes()[6],
                HttpVerb::Post,
                seq!["fedimint"@, "v2"@, "ln"@, "await-invoice"@],
                RestOperation::Rpc(JsonRpcMethod::Subscription(JsonSubscriptionMethod::LnAwaitInvoice)),
            ),
            spec_lit_route(
                r.spec_routes()[7],
                HttpVerb::Post,
                seq!["fedimint"@, "v2"@, "ln"@, "pay"@],
                RestOperation::Rpc(JsonRpcMethod::Single(JsonRpcSingleMethod::LnPay)),
            ),
            spec_lit_route(
                r.spec_routes()[8],
                HttpVerb::Post,
                seq!["fedimint"@, "v2"@, "ln"@, "await-pay"@],
                RestOperation::Rpc(JsonRpcMethod::Subscription(JsonSubscriptionMethod::LnAwaitPay)),
            ),
            spec_lit_route(
                r.spec_routes()[9],
                HttpVerb::Post,
                seq!["fedimint"@, "v2"@, "ln"@, "list-gateways"@],
                RestOperation::Rpc(JsonRpcMethod::Single(JsonRpcSingleMethod::LnListGateways)),
            ),
            spec_lit_route(
                r.spec_routes()[10],
                HttpVerb::Post,
                seq!["fedimint"@, "v2"@, "ln"@, "switch-gateway"@],
                RestOperation::Rpc(JsonRpcMethod::Single(JsonRpcSingleMethod::LnSwitchGateway)),
            ),
            spec_lit_route(
                r.spec_routes()[11],
                HttpVerb::Post,
                seq!["fedimint"@, "v2"@, "wallet"@, "deposit-address"@],
                RestOperation::Rpc(JsonRpcMethod::Single(JsonRpcSingleMethod::WalletDepositAddress)),
            ),
            spec_lit_route(
                r.spec_routes()[12],
                HttpVerb::Post,
                seq!["fedimint"@, "v2"@, "wallet"@, "await-deposit"@],
                RestOperation::Rpc(JsonRpcMethod::Subscription(JsonSubscriptionMethod::WalletAwaitDeposit)),
            ),
            spec_lit_route(
                r.spec_routes()[13],
                HttpVerb::Post,
                seq!["fedimint"@, "v2"@, "wallet"@, "withdraw"@],
                RestOperation::Rpc(JsonRpcMethod::Subscription(JsonSubscriptionMethod::WalletWithdraw)),
            ),
            spec_lit_route(
                r.spec_routes()[14],
                HttpVerb::Post,
                seq!["fedimint"@, "v2"@, "admin"@, "backup"@],
                RestOperation::Rpc(JsonRpcMethod::Single(JsonRpcSingleMethod::AdminBackup)),
            ),
            spec_lit_route(
                r.spec_routes()[15],
                HttpVerb::Get,
                seq!["fedimint"@, "v2"@, "admin"@, "discover-version"@],
                RestOperation::Rpc(JsonRpcMethod::Single(JsonRpcSingleMethod::AdminDiscoverVersion)),
            ),
            spec_lit_route(
                r.spec_routes()[16],
                HttpVerb::Get,
                seq!["fedimint"@, "v2"@, "admin"@, "federation-ids"@],
                RestOperation::AdminFederationIds,
            ),
            spec_lit_route(
                r.spec_routes()[17],
                HttpVerb::Get,
                seq!["fedimint"@, "v2"@, "admin"@, "info"@],
                RestOperation::Rpc(JsonRpcMethod::Single(JsonRpcSingleMethod::AdminInfo)),
            ),
            spec_lit_route(
                r.spec_routes()[18],
                HttpVerb::Post,
                seq!["fedimint"@, "v2"@, "admin"@, "join"@],
                RestOperation::AdminJoin,
            ),
            spec_lit_route(
                r.spec_routes()[19],
                HttpVerb::Post,
                seq!["fedimint"@, "v2"@, "admin"@, "restore"@],
                RestOperation::Rpc(JsonRpcMethod::Single(JsonRpcSingleMethod::AdminRestore)),
            ),
            spec_lit_route(
                r.spec_routes()[20],
                HttpVerb::Post,
                seq!["fedimint"@, "v2"@, "admin"@, "list-operations"@],
                RestOperation::Rpc(JsonRpcMethod::Single(JsonRpcSingleMethod::AdminListOperations)),
            ),
            spec_lit_route(
                r.spec_routes()[21],
                HttpVerb::Post,
                seq!["fedimint"@, "v2"@, "admin"@, "module"@],
                RestOperation::Rpc(JsonRpcMethod::Single(JsonRpcSingleMethod::AdminModule)),
            ),
            spec_lit_route(
                r.spec_routes()[22],
                HttpVerb::Get,
                seq!["fedimint"@, "v2"@, "admin"@, "config"@],
                RestOperation::Rpc(JsonRpcMethod::Single(JsonRpcSingleMethod::AdminConfig)),
            ),
            spec_lit_route(
                r.spec_routes()[23],
                HttpVerb::Get,
                seq!["fedimint"@, "v2"@, "ws"@],
                RestOperation::WebSocketUpgrade,
            ),
            (r.spec_routes()[24].verb == HttpVerb::Get
                && r.spec_routes()[24].op == RestOperation::CashuMintQuote
                && r.spec_routes()[24].segments@.len() == 5
                && spec_lit_seg(r.spec_routes()[24].segments@[0], "cashu"@)
                && spec_lit_seg(r.spec_routes()[24].segments@[1], "v1"@)
                && spec_lit_seg(r.spec_routes()[24].segments@[2], "mint"@)
                && spec_lit_seg(r.spec_routes()[24].segments@[3], "quote"@)
                && r.spec_routes()[24].segments@[4] is Param),
            (r.spec_routes()[25].verb == HttpVerb::Get
                && r.spec_routes()[25].op == RestOperation::CashuMintQuoteId
                && r.spec_routes()[25].segments@.len() == 6
                && spec_lit_seg(r.spec_routes()[25].segments@[0], "cashu"@)
                && spec_lit_seg(r.spec_routes()[25].segments@[1], "v1"@)
                && spec_lit_seg(r.spec_routes()[25].segments@[2], "mint"@)
                && spec_lit_seg(r.spec_routes()[25].segments@[3], "quote"@)
                && r.spec_routes()[25].segments@[4] is Param
                && r.spec_routes()[25].segments@[5] is Param),
            (r.spec_routes()[26].verb == HttpVerb::Get
                && r.spec_routes()[26].op == RestOperation::CashuMeltQuote
                && r.spec_routes()[26].segments@.len() == 5
                && spec_lit_seg(r.spec_routes()[26].segments@[0], "cashu"@)
                && spec_lit_seg(r.spec_routes()[26].segments@[1], "v1"@)
                && spec_lit_seg(r.spec_routes()[26].segments@[2], "melt"@)
                && spec_lit_seg(r.spec_routes()[26].segments@[3], "quote"@)
                && r.spec_routes()[26].segments@[4] is Param),
            (r.spec_routes()[27].verb == HttpVerb::Get
                && r.spec_routes()[27].op == RestOperation::CashuMeltQuoteId
                && r.spec_routes()[27].segments@.len() == 6
                && spec_lit_seg(r.spec_routes()[27].segments@[0], "cashu"@)
                && spec_lit_seg(r.spec_routes()[27].segments@[1], "v1"@)
                && spec_lit_seg(r.spec_routes()[27].segments@[2], "melt"@)
                && spec_lit_seg(r.spec_routes()[27].segments@[3], "quote"@)
                && r.spec_routes()[27].segments@[4] is Param
                && r.spec_routes()[27].segments@[5] is Param),
            spec_lit_route(
                r.spec_routes()[28],
                HttpVerb::Get,
                Seq::<Seq<char>>::empty(),
                RestOperation::Readme,
            ),
            spec_lit_route(
                r.spec_routes()[29],
                HttpVerb::Get,
                seq!["health"@],
                RestOperation::Health,
            ),
            forall|i: int|
                0 <= i < r.spec_routes().len() ==> (spec_requires_auth(
                    (#[trigger] r.spec_routes()[i]).op,
                ) <==> !(r.spec_routes()[i].op == RestOperation::Readme || r.spec_routes()[i].op
                    == RestOperation::Health)),
    {
        let mut routes: Vec<RestRoute> = Vec::new();
        routes.push(
            route_4(HttpVerb::Post, "fedimint", "v2", "mint", "reissue", RestOperation::Rpc(JsonRpcMethod::Single(JsonRpcSingleMethod::MintReissue))),
        );
        routes.push(
            route_4(HttpVerb::Post, "fedimint", "v2", "mint", "spend", RestOperation::Rpc(JsonRpcMethod::Single(JsonRpcSingleMethod::MintSpend))),
        );
        routes.push(
            route_4(HttpVerb::Post, "fedimint", "v2", "mint", "validate", RestOperation::Rpc(JsonRpcMethod::Single(JsonRpcSingleMethod::MintValidate))),
        );
        routes.push(
            route_4(HttpVerb::Post, "fedimint", "v2", "mint", "split", RestOperation::Rpc(JsonRpcMethod::Single(JsonRpcSingleMethod::MintSplit))),
        );
        routes.push(
            route_4(HttpVerb::Post, "fedimint", "v2", "mint", "combine", RestOperation::Rpc(JsonRpcMethod::Single(JsonRpcSingleMethod::MintCombine))),
        );
        routes.push(
            route_4(HttpVerb::Post, "fedimint", "v2", "ln", "invoice", RestOperation::Rpc(JsonRpcMethod::Single(JsonRpcSingleMethod::LnInvoice))),
        );
        routes.push(
            route_4(HttpVerb::Post, "fedimint", "v2", "ln", "await-invoice", RestOperation::Rpc(JsonRpcMethod::Subscription(JsonSubscriptionMethod::LnAwaitInvoice))),
        );
        routes.push(
            route_4(HttpVerb::Post, "fedimint", "v2", "ln", "pay", RestOperation::Rpc(JsonRpcMethod::Single(JsonRpcSingleMethod::LnPay))),
        );
        routes.push(
            route_4(HttpVerb::Post, "fedimint", "v2", "ln", "await-pay", RestOperation::Rpc(JsonRpcMethod::Subscription(JsonSubscriptionMethod::LnAwaitPay))),
        );
        routes.push(
            route_4(HttpVerb::Post, "fedimint", "v2", "ln", "list-gateways", RestOperation::Rpc(JsonRpcMethod::Single(JsonRpcSingleMethod::LnListGateways))),
        );
        routes.push(
            route_4(HttpVerb::Post, "fedimint", "v2", "ln", "switch-gateway", RestOperation::Rpc(JsonRpcMethod::Single(JsonRpcSingleMethod::LnSwitchGateway))),
        );
        routes.push(
            route_4(HttpVerb::Post, "fedimint", "v2", "wallet", "deposit-address", RestOperation::Rpc(JsonRpcMethod::Single(JsonRpcSingleMethod::WalletDepositAddress))),
        );
        routes.push(
            route_4(HttpVerb::Post, "fedimint", "v2", "wallet", "await-deposit", RestOperation::Rpc(JsonRpcMethod::Subscription(JsonSubscriptionMethod::WalletAwaitDeposit))),
        );
        routes.push(
            route_4(HttpVerb::Post, "fedimint", "v2", "wallet", "withdraw", RestOperation::Rpc(JsonRpcMethod::Subscription(JsonSubscriptionMethod::WalletWithdraw))),
        );
        routes.push(
            route_4(HttpVerb::Post, "fedimint", "v2", "admin", "backup", RestOperation::Rpc(JsonRpcMethod::Single(JsonRpcSingleMethod::AdminBackup))),
        );
        routes.push(
            route_4(HttpVerb::Get, "fedimint", "v2", "admin", "discover-version", RestOperation::Rpc(JsonRpcMethod::Single(JsonRpcSingleMethod::AdminDiscoverVersion))),
        );
        routes.push(
            route_4(HttpVerb::Get, "fedimint", "v2", "admin", "federation-ids", RestOperation::AdminFederationIds),
        );
        routes.push(
            route_4(HttpVerb::Get, "fedimint", "v2", "admin", "info", RestOperation::Rpc(JsonRpcMethod::Single(JsonRpcSingleMethod::AdminInfo))),
        );
        routes.push(
            route_4(HttpVerb::Post, "fedimint", "v2", "admin", "join", RestOperation::AdminJoin),
        );
        routes.push(
            route_4(HttpVerb::Post, "fedimint", "v2", "admin", "restore", RestOperation::Rpc(JsonRpcMethod::Single(JsonRpcSingleMethod::AdminRestore))),
        );
        routes.push(
            route_4(HttpVerb::Post, "fedimint", "v2", "admin", "list-operations", RestOperation::Rpc(JsonRpcMethod::Single(JsonRpcSingleMethod::AdminListOperations))),
        );
        routes.push(
            route_4(HttpVerb::Post, "fedimint", "v2", "admin", "module", RestOperation::Rpc(JsonRpcMethod::Single(JsonRpcSingleMethod::AdminModule))),
        );
        routes.push(
            route_4(HttpVerb::Get, "fedimint", "v2", "admin", "config", RestOperation::Rpc(JsonRpcMethod::Single(JsonRpcSingleMethod::AdminConfig))),
        );
        routes.push(route_3(HttpVerb::Get, "fedimint", "v2", "ws", RestOperation::WebSocketUpgrade));
        routes.push(quote_route("cashu", "v1", "mint", "quote", false, RestOperation::CashuMintQuote));
        routes.push(quote_route("cashu", "v1", "mint", "quote", true, RestOperation::CashuMintQuoteId));
        routes.push(quote_route("cashu", "v1", "melt", "quote", false, RestOperation::CashuMeltQuote));
        routes.push(quote_route("cashu", "v1", "melt", "quote", true, RestOperation::CashuMeltQuoteId));
        routes.push(route_0(HttpVerb::Get, RestOperation::Readme));
        routes.push(route_1(HttpVerb::Get, "health", RestOperation::Health));
        RequestRouter { routes }
    }
}

/// Whether `header` carries exactly the configured bearer credential.
pub fn authorize(header: Option<&str>, token: &str) -> (r: bool)
    ensures
        r == match header {
            Some(h) => h@ == "Bearer "@ + token@,
            None => false,
        },
{
    match header {
        Some(h) => {
            let expected: String = "Bearer ".to_owned().concat(token);
            str_eq(h, expected.as_str())
        },
        None => false,
    }
}

} // verus!
