//! Administrative operations: gateway info, federation listing, backup,
//! and the operations that are deliberate capability gaps.
//!
//! The federation backend reports balances as a tiered summary — so many
//! notes of each denomination; the totals the info endpoint publishes
//! are computed and checked here. Module passthrough and restore are
//! deliberate capability gaps and answer with a stable not-implemented
//! error rather than inventing behaviour.

use vstd::prelude::*;

use crate::error::ErrorKind;
use crate::error::GatewayError;
use crate::ids::FederationIdentity;
use crate::ids::OperationId;
use crate::json::JsonValue;
use crate::registry::ClientRegistry;

verus! {

/// One denomination tier of a note summary: how many notes of this
/// worth are held.
#[derive(Clone, Copy, Debug, PartialEq, Eq, Structural)]
pub struct TierCount {
    pub amount_msat: u64,
    pub count: u64,
}

/// What the info endpoint reports for one federation.
#[derive(Debug)]
pub struct InfoResponse {
    pub network: String,
    pub meta: Vec<(String, String)>,
    pub total_amount_msat: u64,
    pub total_num_notes: u64,
    pub denominations_msat: Vec<TierCount>,
}

/// The worth of a tiered summary: each denomination times its count.
pub open spec fn spec_tiers_total(s: Seq<TierCount>) -> int
    decreases s.len(),
{
    if s.len() == 0 {
        0
    } else {
        s[0].amount_msat * s[0].count + spec_tiers_total(s.drop_first())
    }
}

/// The number of notes in a tiered summary.
pub open spec fn spec_tiers_count(s: Seq<TierCount>) -> int
    decreases s.len(),
{
    if s.len() == 0 {
        0
    } else {
        s[0].count + spec_tiers_count(s.drop_first())
    }
}

pub proof fn lemma_tiers_push(s: Seq<TierCount>, x: TierCount)
    ensures
        spec_tiers_total(s.push(x)) == spec_tiers_total(s) + x.amount_msat * x.count,
        spec_tiers_count(s.push(x)) == spec_tiers_count(s) + x.count,
    decreases s.len(),
{
    if s.len() == 0 {
        assert(s.push(x)[0] == x);
        assert(s.push(x).drop_first() =~= Seq::<TierCount>::empty());
        assert(spec_tiers_total(Seq::<TierCount>::empty()) == 0);
        assert(spec_tiers_count(Seq::<TierCount>::empty()) == 0);
    } else {
        assert(s.push(x)[0] == s[0]);
        assert(s.push(x).drop_first() =~= s.drop_first().push(x));
        lemma_tiers_push(s.drop_first(), x);
    }
}

pub proof fn lemma_tiers_nonneg(s: Seq<TierCount>)
    ensures
        spec_tiers_total(s) >= 0,
        spec_tiers_count(s) >= 0,
    decreases s.len(),
{
    if s.len() > 0 {
        lemma_tiers_nonneg(s.drop_first());
        assert(s[0].amount_msat * s[0].count >= 0) by (nonlinear_arith)
            requires
                s[0].amount_msat >= 0,
                s[0].count >= 0,
        ;
    }
}

/// Assemble one federation's info from what the backend reports: the
/// summary's totals are computed here and refused when they do not fit
/// the wire's unsigned range.
pub fn info_response(network: String, meta: Vec<(String, String)>, summary: Vec<TierCount>) -> (r:
    Result<InfoResponse, GatewayError>)
    ensures
        match r {
            Ok(resp) => {
                &&& resp.network == network
                &&& resp.meta == meta
                &&& resp.denominations_msat == summary
                &&& resp.total_amount_msat == spec_tiers_total(summary@)
                &&& resp.total_num_notes == spec_tiers_count(summary@)
            },
            Err(e) => e.kind == ErrorKind::Internal && (spec_tiers_total(summary@) > u64::MAX
                || spec_tiers_count(summary@) > u64::MAX),
        },
{
    let n = summary.len();
    let mut total: u64 = 0;
    let mut count: u64 = 0;
    let mut i: usize = 0;
    proof {
        assert(summary@.subrange(0, 0) =~= Seq::<TierCount>::empty());
    }
    while i < n
        invariant
            n == summary@.len(),
            i <= n,
            total == spec_tiers_total(summary@.subrange(0, i as int)),
            count == spec_tiers_count(summary@.subrange(0, i as int)),
        decreases n - i,
    {
        let tier = summary[i];
        proof {
            assert(summary@.subrange(0, i + 1) =~= summary@.subrange(0, i as int).push(
                summary@[i as int],
            ));
            lemma_tiers_push(summary@.subrange(0, i as int), summary@[i as int]);
        }
        proof {
            assert(tier.amount_msat * tier.count < u128::MAX) by (nonlinear_arith)
                requires
                    tier.amount_msat <= u64::MAX,
                    tier.count <= u64::MAX,
            ;
        }
        let product: u128 = (tier.amount_msat as u128) * (tier.count as u128);
        if product > (u64::MAX - total) as u128 {
            proof {
                tail_overflow_total(summary@, i as int, total);
            }
            return Err(GatewayError::internal("Note summary total does not fit"));
        }
        if tier.count > u64::MAX - count {
            proof {
                tail_overflow_count(summary@, i as int, count);
            }
            return Err(GatewayError::internal("Note summary count does not fit"));
        }
        total = total + (product as u64);
        count = count + tier.count;
        i += 1;
    }
    proof {
        assert(summary@.subrange(0, n as int) =~= summary@);
    }
    Ok(
        InfoResponse {
            network,
            meta,
            total_amount_msat: total,
            total_num_notes: count,
            denominations_msat: summary,
        },
    )
}

proof fn tail_overflow_total(s: Seq<TierCount>, i: int, total: u64)
    requires
        0 <= i < s.len(),
        total == spec_tiers_total(s.subrange(0, i)),
        s[i].amount_msat * s[i].count > u64::MAX - total,
    ensures
        spec_tiers_total(s) > u64::MAX,
{
    lemma_tiers_split(s, i);
    assert(s.subrange(i, s.len() as int)[0] == s[i]);
    assert(s.subrange(i, s.len() as int).drop_first() =~= s.subrange(i + 1, s.len() as int));
    lemma_tiers_nonneg(s.subrange(i + 1, s.len() as int));
}

proof fn tail_overflow_count(s: Seq<TierCount>, i: int, count: u64)
    requires
        0 <= i < s.len(),
        count == spec_tiers_count(s.subrange(0, i)),
        s[i].count > u64::MAX - count,
    ensures
        spec_tiers_count(s) > u64::MAX,
{
    lemma_tiers_split(s, i);
    assert(s.subrange(i, s.len() as int)[0] == s[i]);
    assert(s.subrange(i, s.len() as int).drop_first() =~= s.subrange(i + 1, s.len() as int));
    lemma_tiers_nonneg(s.subrange(i + 1, s.len() as int));
}

pub proof fn lemma_tiers_split(s: Seq<TierCount>, i: int)
    requires
        0 <= i <= s.len(),
    ensures
        spec_tiers_total(s) == spec_tiers_total(s.subrange(0, i)) + spec_tiers_total(
            s.subrange(i, s.len() as int),
        ),
        spec_tiers_count(s) == spec_tiers_count(s.subrange(0, i)) + spec_tiers_count(
            s.subrange(i, s.len() as int),
        ),
    decreases i,
{
    if i == 0 {
        assert(s.subrange(0, 0).len() == 0);
        assert(s.subrange(0, s.len() as int) =~= s);
    } else {
        let rest = s.drop_first();
        lemma_tiers_split(rest, i - 1);
        assert(s.subrange(0, i).drop_first() =~= rest.subrange(0, i - 1));
        assert(s.subrange(0, i)[0] == s[0]);
        assert(s.subrange(i, s.len() as int) =~= rest.subrange(i - 1, rest.len() as int));
    }
}

/// The federations this gateway serves.
#[derive(Debug)]
pub struct FederationIdsResponse {
    pub federation_ids: Vec<FederationIdentity>,
}

/// List every registered federation, in registration order.
pub fn federation_ids(registry: &ClientRegistry) -> (r: FederationIdsResponse)
    ensures
        r.federation_ids@.len() == registry@.len(),
        forall|i: int|
            0 <= i < registry@.len() ==> (#[trigger] r.federation_ids@[i]).bytes@ == registry@[
                i
            ].federation.bytes@,
{
    let n = registry.len();
    let mut ids: Vec<FederationIdentity> = Vec::new();
    let mut i: usize = 0;
    while i < n
        invariant
            n == registry@.len(),
            i <= n,
            ids@.len() == i,
            forall|j: int|
                0 <= j < i ==> (#[trigger] ids@[j]).bytes@ == registry@[j].federation.bytes@,
        decreases n - i,
    {
        ids.push(registry.client_at(i).federation.duplicate());
        i += 1;
    }
    FederationIdsResponse { federation_ids: ids }
}

#[derive(Debug)]
pub struct BackupRequest {
    pub metadata: Vec<(String, String)>,
    pub federation_id: Option<FederationIdentity>,
}

#[derive(Debug)]
pub struct ListOperationsRequest {
    pub limit: u64,
    pub federation_id: Option<FederationIdentity>,
}

/// One entry of the operation log, ready to serialize.
#[derive(Debug)]
pub struct OperationOutput {
    pub id: OperationId,
    pub creation_time: String,
    pub operation_kind: String,
    pub operation_meta: JsonValue,
    pub outcome: Option<JsonValue>,
}

/// What formatting a unix timestamp as ISO-8601 text yields; a function
/// of the timestamp alone.
pub uninterp spec fn iso8601_of(unix_secs: i64) -> Option<Seq<char>>;

/// Relies on time::OffsetDateTime::from_unix_timestamp and on
/// formatting with time::format_description::well_known::Iso8601: the
/// ISO-8601 text of a unix timestamp, a function of the timestamp
/// alone; out-of-range timestamps yield nothing.
#[verifier::external_body]
fn format_iso8601(unix_secs: i64) -> (r: Option<String>)
    ensures
        match r {
            Some(s) => iso8601_of(unix_secs) == Some(s@),
            None => iso8601_of(unix_secs) is None,
        },
{
    match time::OffsetDateTime::from_unix_timestamp(unix_secs) {
        Ok(dt) => dt.format(&time::format_description::well_known::Iso8601::DEFAULT).ok(),
        Err(_) => None,
    }
}

/// Assemble one operation-log entry: the creation time becomes ISO-8601
/// text; a timestamp the calendar cannot express is reported, never a
/// crash.
pub fn operation_output(
    id: OperationId,
    creation_unix_secs: i64,
    operation_kind: String,
    operation_meta: JsonValue,
    outcome: Option<JsonValue>,
) -> (r: Result<OperationOutput, GatewayError>)
    ensures
        match iso8601_of(creation_unix_secs) {
            Some(t) => match r {
                Ok(o) => {
                    &&& o.id == id
                    &&& o.creation_time@ == t
                    &&& o.operation_kind == operation_kind
                    &&& o.operation_meta == operation_meta
                    &&& o.outcome == outcome
                },
                Err(_) => false,
            },
            None => match r {
                Err(e) => e.kind == ErrorKind::Internal && e.message@
                    == "Operation creation time cannot be formatted"@,
                Ok(_) => false,
            },
        },
{
    match format_iso8601(creation_unix_secs) {
        Some(creation_time) => Ok(
            OperationOutput { id, creation_time, operation_kind, operation_meta, outcome },
        ),
        None => Err(GatewayError::internal("Operation creation time cannot be formatted")),
    }
}

/// The document form of one operation-log entry; `outcome` appears only
/// when the operation has one.
pub open spec fn spec_operation_json(op: OperationOutput, v: JsonValue) -> bool {
    match v {
        JsonValue::Object(f) => {
            &&& f@.len() == (match op.outcome {
                Some(_) => 5int,
                None => 4int,
            })
            &&& f@[0].0@ == "id"@
            &&& f@[0].1 == JsonValue::UInt(op.id.raw)
            &&& f@[1].0@ == "creationTime"@
            &&& f@[1].1 == JsonValue::Text(op.creation_time)
            &&& f@[2].0@ == "operationKind"@
            &&& f@[2].1 == JsonValue::Text(op.operation_kind)
            &&& f@[3].0@ == "operationMeta"@
            &&& f@[3].1 == op.operation_meta
            &&& (match op.outcome {
                Some(o) => f@[4].0@ == "outcome"@ && f@[4].1 == o,
                None => true,
            })
        },
        _ => false,
    }
}

fn operation_json(op: OperationOutput) -> (r: JsonValue)
    ensures
        spec_operation_json(op, r),
{
    let mut f: Vec<(String, JsonValue)> = Vec::new();
    f.push(("id".to_owned(), JsonValue::UInt(op.id.raw)));
    f.push(("creationTime".to_owned(), JsonValue::Text(op.creation_time)));
    f.push(("operationKind".to_owned(), JsonValue::Text(op.operation_kind)));
    f.push(("operationMeta".to_owned(), op.operation_meta));
    match op.outcome {
        Some(o) => {
            f.push(("outcome".to_owned(), o));
        },
        None => {},
    }
    JsonValue::Object(f)
}

/// The document form of the whole operation-log page: an object with
/// one `operations` field holding the entries in order.
pub fn operations_response(ops: Vec<OperationOutput>) -> (r: JsonValue)
    ensures
        match r {
            JsonValue::Object(f) => {
                &&& f@.len() == 1
                &&& f@[0].0@ == "operations"@
                &&& match f@[0].1 {
                    JsonValue::Array(entries) => entries@.len() == ops@.len() && forall|i: int|
                        0 <= i < ops@.len() ==> spec_operation_json(
                            ops@[i],
                            #[trigger] entries@[i],
                        ),
                    _ => false,
                }
            },
            _ => false,
        },
{
    let ghost orig = ops@;
    let mut ops = ops;
    let mut entries: Vec<JsonValue> = Vec::new();
    let ghost mut done: int = 0;
    while ops.len() > 0
        invariant
            0 <= done <= orig.len(),
            ops@ == orig.subrange(done, orig.len() as int),
            entries@.len() == done,
            forall|i: int| 0 <= i < done ==> spec_operation_json(orig[i], #[trigger] entries@[i]),
        decreases ops@.len(),
    {
        let ghost pre = ops@;
        let op = ops.remove(0);
        proof {
            assert(ops@ =~= pre.drop_first());
            assert(op == orig[done]);
            assert(ops@ =~= orig.subrange(done + 1, orig.len() as int));
        }
        entries.push(operation_json(op));
        proof {
            done = done + 1;
        }
    }
    let mut f: Vec<(String, JsonValue)> = Vec::new();
    f.push(("operations".to_owned(), JsonValue::Array(entries)));
    JsonValue::Object(f)
}

/// Which module of a federation a passthrough call addresses.
#[derive(Debug)]
pub enum ModuleSelector {
    Id(u16),
    Kind(String),
}

#[derive(Debug)]
pub struct ModuleRequest {
    pub module: ModuleSelector,
    pub args: Vec<String>,
    pub federation_id: Option<FederationIdentity>,
}

/// Module passthrough is a stable capability gap.
pub fn module_passthrough(_req: &ModuleRequest) -> (r: Result<JsonValue, GatewayError>)
    ensures
        r matches Err(e) && e.kind == ErrorKind::NotImplemented && e.message@
            == "Not implemented"@,
{
    Err(GatewayError::not_implemented())
}

/// Restoring a backup is a stable capability gap.
pub fn restore(_params: &JsonValue) -> (r: Result<JsonValue, GatewayError>)
    ensures
        r matches Err(e) && e.kind == ErrorKind::NotImplemented && e.message@
            == "Not implemented"@,
{
    Err(GatewayError::not_implemented())
}

} // verus!
