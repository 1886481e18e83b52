//! E-cash note operations: totals, reissue, spend, validate, split and
//! combine.
//!
//! Notes are modelled as plain values: a serialized note string is the
//! federation prefix it belongs to plus the signed notes it carries, each
//! a denomination and an opaque token. The federation SDK's own note
//! codec stays outside this crate; what is verified here is everything
//! the gateway decides about notes — which federation serves them, what
//! they are worth, and how note strings are split apart and combined.

use vstd::prelude::*;

use crate::error::ErrorKind;
use crate::error::GatewayError;
use crate::events::ReissueEvent;
use crate::ids::IdentityPrefix;
use crate::ids::OperationId;
use crate::waiter::WaiterOutcome;

verus! {

/// One signed e-cash note: its denomination and its opaque token.
#[derive(Debug)]
pub struct SignedNote {
    pub amount_msat: u64,
    pub note: Vec<u8>,
}

/// A serialized out-of-band note string: the federation prefix it was
/// issued under and the notes it carries.
#[derive(Debug)]
pub struct OobNotes {
    pub federation_id_prefix: IdentityPrefix,
    pub notes: Vec<SignedNote>,
}

/// The worth of a sequence of notes, as an unbounded integer.
pub open spec fn spec_notes_total(s: Seq<SignedNote>) -> int
    decreases s.len(),
{
    if s.len() == 0 {
        0
    } else {
        s[0].amount_msat + spec_notes_total(s.drop_first())
    }
}

pub proof fn lemma_notes_total_nonneg(s: Seq<SignedNote>)
    ensures
        spec_notes_total(s) >= 0,
    decreases s.len(),
{
    if s.len() > 0 {
        lemma_notes_total_nonneg(s.drop_first());
    }
}

pub proof fn lemma_notes_total_push(s: Seq<SignedNote>, x: SignedNote)
    ensures
        spec_notes_total(s.push(x)) == spec_notes_total(s) + x.amount_msat,
    decreases s.len(),
{
    if s.len() == 0 {
        assert(s.push(x)[0] == x);
        assert(s.push(x).drop_first() =~= Seq::<SignedNote>::empty());
        assert(spec_notes_total(Seq::<SignedNote>::empty()) == 0);
    } else {
        assert(s.push(x)[0] == s[0]);
        assert(s.push(x).drop_first() =~= s.drop_first().push(x));
        lemma_notes_total_push(s.drop_first(), x);
    }
}

pub proof fn lemma_notes_total_split(s: Seq<SignedNote>, i: int)
    requires
        0 <= i <= s.len(),
    ensures
        spec_notes_total(s) == spec_notes_total(s.subrange(0, i)) + spec_notes_total(
            s.subrange(i, s.len() as int),
        ),
    decreases i,
{
    if i == 0 {
        assert(s.subrange(0, 0).len() == 0);
        assert(s.subrange(0, s.len() as int) =~= s);
    } else {
        let rest = s.drop_first();
        lemma_notes_total_split(rest, i - 1);
        assert(s.subrange(0, i).drop_first() =~= rest.subrange(0, i - 1));
        assert(s.subrange(0, i)[0] == s[0]);
        assert(s.subrange(i, s.len() as int) =~= rest.subrange(i - 1, rest.len() as int));
    }
}

impl OobNotes {
    /// The total worth of the notes, or nothing when it does not fit the
    /// wire's unsigned range.
    pub fn total_amount(&self) -> (r: Option<u64>)
        ensures
            match r {
                Some(t) => t == spec_notes_total(self.notes@),
                None => spec_notes_total(self.notes@) > u64::MAX,
            },
    {
        let n = self.notes.len();
        let mut sum: u64 = 0;
        let mut i: usize = 0;
        while i < n
            invariant
                n == self.notes@.len(),
                i <= n,
                sum == spec_notes_total(self.notes@.subrange(0, i as int)),
            decreases n - i,
        {
            let a = self.notes[i].amount_msat;
            proof {
                lemma_notes_total_split(self.notes@, i as int);
                assert(self.notes@.subrange(i as int, n as int)[0] == self.notes@[i as int]);
                assert(self.notes@.subrange(i as int, n as int).drop_first() =~= self.notes@.subrange(
                    i + 1,
                    n as int,
                ));
                lemma_notes_total_nonneg(self.notes@.subrange(i + 1, n as int));
            }
            if a > u64::MAX - sum {
                return None;
            }
            sum = sum + a;
            proof {
                assert(self.notes@.subrange(0, i + 1) =~= self.notes@.subrange(0, i as int).push(
                    self.notes@[i as int],
                ));
                lemma_notes_total_push(self.notes@.subrange(0, i as int), self.notes@[i as int]);
            }
            i += 1;
        }
        proof {
            assert(self.notes@.subrange(0, n as int) =~= self.notes@);
        }
        Some(sum)
    }
}

/// All notes of a sequence of note strings, in order.
pub open spec fn spec_flatten_notes(s: Seq<OobNotes>) -> Seq<SignedNote>
    decreases s.len(),
{
    if s.len() == 0 {
        Seq::empty()
    } else {
        s[0].notes@ + spec_flatten_notes(s.drop_first())
    }
}

#[derive(Debug)]
pub struct CombineRequest {
    pub notes: Vec<OobNotes>,
}

#[derive(Debug)]
pub struct CombineResponse {
    pub notes: OobNotes,
}

/// Combine several serialized note strings into one.
///
/// All of them must come from one federation; the result carries that
/// federation's prefix and every note of every input, in order. Inputs
/// from different federations — or no input at all — are a bad request.
#[verifier::rlimit(50)]
pub fn combine(req: CombineRequest) -> (r: Result<CombineResponse, GatewayError>)
    ensures
        match r {
            Ok(resp) => {
                &&& req.notes@.len() > 0
                &&& forall|i: int|
                    0 <= i < req.notes@.len() ==> (#[trigger] req.notes@[i]).federation_id_prefix.bytes@
                        == req.notes@[0].federation_id_prefix.bytes@
                &&& resp.notes.federation_id_prefix.bytes@
                    == req.notes@[0].federation_id_prefix.bytes@
                &&& resp.notes.notes@ == spec_flatten_notes(req.notes@)
            },
            Err(e) => {
                &&& e.kind == ErrorKind::BadRequest
                &&& e.message@ == "E-cash notes strings from different federations"@
                &&& (req.notes@.len() == 0 || exists|i: int|
                    0 <= i < req.notes@.len() && (#[trigger] req.notes@[i]).federation_id_prefix.bytes@
                        != req.notes@[0].federation_id_prefix.bytes@)
            },
        },
{
    if req.notes.len() == 0 {
        return Err(GatewayError::bad_request("E-cash notes strings from different federations"));
    }
    let prefix = req.notes[0].federation_id_prefix.duplicate();
    let n = req.notes.len();
    let mut i: usize = 0;
    while i < n
        invariant
            n == req.notes@.len(),
            i <= n,
            n > 0,
            prefix.bytes@ == req.notes@[0].federation_id_prefix.bytes@,
            forall|j: int|
                0 <= j < i ==> (#[trigger] req.notes@[j]).federation_id_prefix.bytes@
                    == req.notes@[0].federation_id_prefix.bytes@,
        decreases n - i,
    {
        if !req.notes[i].federation_id_prefix.same_as(&prefix) {
            return Err(GatewayError::bad_request(
                "E-cash notes strings from different federations",
            ));
        }
        i += 1;
    }
    let ghost orig = req.notes@;
    let mut src = req.notes;
    let mut out: Vec<SignedNote> = Vec::new();
    proof {
        assert(out@ + spec_flatten_notes(src@) =~= spec_flatten_notes(orig));
    }
    while src.len() > 0
        invariant
            out@ + spec_flatten_notes(src@) == spec_flatten_notes(orig),
        decreases src@.len(),
    {
        let ghost pre = src@;
        let mut ob = src.remove(0);
        proof {
            assert(src@ =~= pre.drop_first());
            assert(spec_flatten_notes(pre) == ob.notes@ + spec_flatten_notes(src@));
            assert(out@ + (ob.notes@ + spec_flatten_notes(src@)) =~= (out@ + ob.notes@)
                + spec_flatten_notes(src@));
        }
        let ghost target = out@ + ob.notes@;
        while ob.notes.len() > 0
            invariant
                out@ + ob.notes@ == target,
            decreases ob.notes@.len(),
        {
            let ghost opre = ob.notes@;
            let note = ob.notes.remove(0);
            out.push(note);
            proof {
                assert(ob.notes@ =~= opre.drop_first());
                assert(out@ + ob.notes@ =~= target);
            }
        }
        proof {
            assert(out@ + ob.notes@ =~= out@);
        }
    }
    proof {
        assert(out@ + spec_flatten_notes(src@) =~= out@);
    }
    Ok(CombineResponse { notes: OobNotes { federation_id_prefix: prefix, notes: out } })
}

#[derive(Debug)]
pub struct SplitRequest {
    pub notes: OobNotes,
}

#[derive(Debug)]
pub struct SplitResponse {
    pub notes: Vec<(u64, OobNotes)>,
}

/// The distinct denominations of a sequence of notes, in order of
/// first appearance.
pub open spec fn spec_distinct_amounts(s: Seq<SignedNote>) -> Seq<u64>
    decreases s.len(),
{
    if s.len() == 0 {
        Seq::empty()
    } else {
        let rest = spec_distinct_amounts(s.drop_last());
        if rest.contains(s.last().amount_msat) {
            rest
        } else {
            rest.push(s.last().amount_msat)
        }
    }
}

/// A denomination is listed exactly when some note carries it.
pub proof fn lemma_distinct_amounts_complete(s: Seq<SignedNote>, a: u64)
    ensures
        spec_distinct_amounts(s).contains(a) <==> exists|j: int|
            0 <= j < s.len() && (#[trigger] s[j]).amount_msat == a,
    decreases s.len(),
{
    if s.len() > 0 {
        let d = s.drop_last();
        lemma_distinct_amounts_complete(d, a);
        let rest = spec_distinct_amounts(d);
        let whole = spec_distinct_amounts(s);
        if whole.contains(a) {
            if rest.contains(a) {
                let j = choose|j: int| 0 <= j < d.len() && (#[trigger] d[j]).amount_msat == a;
                assert(s[j].amount_msat == a);
            } else {
                let x = choose|x: int| 0 <= x < whole.len() && whole[x] == a;
                if x < rest.len() {
                    assert(rest[x] == a);
                } else {
                    assert(a == s.last().amount_msat);
                    assert(s[s.len() - 1].amount_msat == a);
                }
            }
        }
        if exists|j: int| 0 <= j < s.len() && (#[trigger] s[j]).amount_msat == a {
            let j = choose|j: int| 0 <= j < s.len() && (#[trigger] s[j]).amount_msat == a;
            if j < s.len() - 1 {
                assert(d[j].amount_msat == a);
                assert(rest.contains(a));
                let x = choose|x: int| 0 <= x < rest.len() && rest[x] == a;
                assert(whole[x] == a);
                assert(whole.contains(a));
            } else {
                if rest.contains(a) {
                    let x = choose|x: int| 0 <= x < rest.len() && rest[x] == a;
                    assert(whole[x] == a);
                    assert(whole.contains(a));
                } else {
                    assert(whole[rest.len() as int] == a);
                    assert(whole.contains(a));
                }
            }
        }
    }
}

/// No denomination is listed twice.
pub proof fn lemma_distinct_amounts_unique(s: Seq<SignedNote>)
    ensures
        forall|i: int, j: int|
            0 <= i < j < spec_distinct_amounts(s).len() ==> spec_distinct_amounts(s)[i]
                != spec_distinct_amounts(s)[j],
    decreases s.len(),
{
    if s.len() > 0 {
        lemma_distinct_amounts_unique(s.drop_last());
        let rest = spec_distinct_amounts(s.drop_last());
        let whole = spec_distinct_amounts(s);
        if !rest.contains(s.last().amount_msat) {
            assert forall|i: int, j: int| 0 <= i < j < whole.len() implies whole[i]
                != whole[j] by {
                if j == whole.len() - 1 {
                    assert(whole[i] == rest[i]);
                    assert(rest.contains(rest[i]));
                }
            }
        }
    }
}

/// The first note carrying denomination `a`.
pub open spec fn spec_first_note(s: Seq<SignedNote>, a: u64) -> SignedNote
    decreases s.len(),
{
    if s.len() == 0 {
        arbitrary()
    } else if s[0].amount_msat == a {
        s[0]
    } else {
        spec_first_note(s.drop_first(), a)
    }
}

pub proof fn lemma_first_note_at(s: Seq<SignedNote>, k: int)
    requires
        0 <= k < s.len(),
        forall|j: int| 0 <= j < k ==> (#[trigger] s[j]).amount_msat != s[k].amount_msat,
    ensures
        spec_first_note(s, s[k].amount_msat) == s[k],
    decreases k,
{
    if k > 0 {
        let rest = s.drop_first();
        assert forall|j: int| 0 <= j < k - 1 implies (#[trigger] rest[j]).amount_msat != rest[k
            - 1].amount_msat by {
            assert(rest[j] == s[j + 1]);
        }
        assert(rest[k - 1] == s[k]);
        lemma_first_note_at(rest, k - 1);
    }
}

/// Split a note string into one single-note string per denomination.
///
/// The result holds one entry per denomination that occurs in the input,
/// in order of first appearance — no denomination twice, none invented,
/// none forgotten — and each entry carries the input's federation prefix
/// and exactly the first note of its denomination.
#[verifier::rlimit(50)]
pub fn split(req: SplitRequest) -> (r: SplitResponse)
    ensures
        r.notes@.map_values(|p: (u64, OobNotes)| p.0) == spec_distinct_amounts(req.notes.notes@),
        forall|i: int|
            0 <= i < r.notes@.len() ==> (#[trigger] r.notes@[i]).1.federation_id_prefix.bytes@
                == req.notes.federation_id_prefix.bytes@,
        forall|i: int|
            0 <= i < r.notes@.len() ==> (#[trigger] r.notes@[i]).1.notes@ == seq![
                spec_first_note(req.notes.notes@, r.notes@[i].0),
            ],
{
    let prefix = req.notes.federation_id_prefix;
    let ghost orig = req.notes.notes@;
    let mut src = req.notes.notes;
    let mut out: Vec<(u64, OobNotes)> = Vec::new();
    let ghost mut done: int = 0;
    proof {
        assert(src@ =~= orig.subrange(0, orig.len() as int));
        assert(orig.subrange(0, 0) =~= Seq::<SignedNote>::empty());
        assert(out@.map_values(|p: (u64, OobNotes)| p.0) =~= Seq::<u64>::empty());
    }
    while src.len() > 0
        invariant
            0 <= done <= orig.len(),
            src@ == orig.subrange(done, orig.len() as int),
            out@.map_values(|p: (u64, OobNotes)| p.0) == spec_distinct_amounts(
                orig.subrange(0, done),
            ),
            forall|i: int|
                0 <= i < out@.len() ==> (#[trigger] out@[i]).1.federation_id_prefix.bytes@
                    == prefix.bytes@,
            forall|i: int|
                0 <= i < out@.len() ==> (#[trigger] out@[i]).1.notes@ == seq![
                    spec_first_note(orig, out@[i].0),
                ],
        decreases src@.len(),
    {
        let ghost pre = src@;
        let ghost amounts = out@.map_values(|p: (u64, OobNotes)| p.0);
        let note = src.remove(0);
        proof {
            assert(src@ =~= pre.drop_first());
            assert(note == orig[done]);
            assert(src@ =~= orig.subrange(done + 1, orig.len() as int));
            assert(orig.subrange(0, done + 1).drop_last() =~= orig.subrange(0, done));
            assert(orig.subrange(0, done + 1).last() == orig[done]);
        }
        let amt = note.amount_msat;
        let m = out.len();
        let mut i: usize = 0;
        let mut found: bool = false;
        while i < m
            invariant
                m == out@.len(),
                i <= m,
                amounts == out@.map_values(|p: (u64, OobNotes)| p.0),
                found ==> amounts.contains(amt),
                !found ==> forall|x: int| 0 <= x < i ==> (#[trigger] out@[x]).0 != amt,
            decreases m - i,
        {
            if out[i].0 == amt {
                found = true;
                proof {
                    assert(amounts[i as int] == amt);
                }
            }
            i += 1;
        }
        let ghost before = out@;
        if found {
            proof {
                done = done + 1;
                assert(spec_distinct_amounts(orig.subrange(0, done)) == amounts);
            }
        } else {
            proof {
                // the denomination is new: no entry lists it
                assert forall|x: int| 0 <= x < amounts.len() implies amounts[x] != amt by {
                    assert(out@[x].0 != amt);
                }
                assert(!amounts.contains(amt));
                // and no earlier note carries it
                lemma_distinct_amounts_complete(orig.subrange(0, done), amt);
                assert forall|j: int| 0 <= j < done implies (#[trigger] orig[j]).amount_msat
                    != amt by {
                    if orig[j].amount_msat == amt {
                        assert(orig.subrange(0, done)[j].amount_msat == amt);
                        assert(spec_distinct_amounts(orig.subrange(0, done)).contains(amt));
                    }
                }
                lemma_first_note_at(orig, done);
            }
            let mut single: Vec<SignedNote> = Vec::new();
            single.push(note);
            out.push((amt, OobNotes { federation_id_prefix: prefix.duplicate(), notes: single }));
            proof {
                done = done + 1;
                assert(out@ =~= before.push(out@[before.len() as int]));
                assert(out@.map_values(|p: (u64, OobNotes)| p.0) =~= amounts.push(amt));
                assert(spec_distinct_amounts(orig.subrange(0, done)) == amounts.push(amt));
                assert(out@[before.len() as int].1.notes@ =~= seq![
                    spec_first_note(orig, amt),
                ]);
            }
        }
    }
    proof {
        assert(orig.subrange(0, done) =~= orig);
        assert(orig == req.notes.notes@);
    }
    SplitResponse { notes: out }
}

#[derive(Debug)]
pub struct ReissueRequest {
    pub notes: OobNotes,
}

#[derive(Debug)]
pub struct ReissueResponse {
    pub amount_msat: u64,
}

/// The single outcome of a reissue operation: the stream's success
/// terminal completes the exchange with the worth of the reissued notes,
/// a failure terminal or a stream that ends early reports the failure.
pub fn reissue_outcome(outcome: WaiterOutcome<ReissueEvent>, amount_msat: u64) -> (r: Result<
    ReissueResponse,
    GatewayError,
>)
    ensures
        match outcome {
            WaiterOutcome::Success(_) => match r {
                Ok(resp) => resp.amount_msat == amount_msat,
                Err(_) => false,
            },
            WaiterOutcome::Fatal(e) => match r {
                Ok(_) => false,
                Err(err) => err.kind == ErrorKind::Upstream && (e matches ReissueEvent::Failed {
                    error,
                } ==> err.message@ == error@),
            },
            _ => match r {
                Ok(_) => false,
                Err(err) => err.kind == ErrorKind::Internal && err.message@
                    == "Unexpected end of stream"@,
            },
        },
{
    match outcome {
        WaiterOutcome::Success(_) => Ok(ReissueResponse { amount_msat }),
        WaiterOutcome::Fatal(e) => match e {
            ReissueEvent::Failed { error } => Err(
                GatewayError::new(ErrorKind::Upstream, error),
            ),
            _ => Err(GatewayError::upstream("Reissue failed")),
        },
        _ => Err(GatewayError::internal("Unexpected end of stream")),
    }
}

#[derive(Debug)]
pub struct SpendRequest {
    pub amount_msat: u64,
    pub allow_overpay: bool,
    pub timeout: u64,
    pub federation_id: Option<crate::ids::FederationIdentity>,
}

#[derive(Debug)]
pub struct SpendResponse {
    pub operation: OperationId,
    pub notes: OobNotes,
}

/// Finish a spend: the backend selected `notes` worth at least the
/// requested amount; the response hands them out together with how far
/// they overshoot the request.
pub fn spend_response(operation: OperationId, notes: OobNotes, requested_msat: u64) -> (r: Result<
    (SpendResponse, u64),
    GatewayError,
>)
    ensures
        match r {
            Ok((resp, overspend)) => {
                &&& spec_notes_total(notes.notes@) >= requested_msat
                &&& overspend == spec_notes_total(notes.notes@) - requested_msat
                &&& resp.operation == operation
                &&& resp.notes == notes
            },
            Err(e) => e.kind == ErrorKind::Internal && (spec_notes_total(notes.notes@)
                > u64::MAX || spec_notes_total(notes.notes@) < requested_msat),
        },
{
    let total = match notes.total_amount() {
        Some(t) => t,
        None => {
            return Err(GatewayError::internal("Selected notes total does not fit"));
        },
    };
    if total < requested_msat {
        return Err(GatewayError::internal("Selected notes worth less than requested"));
    }
    let overspend = total - requested_msat;
    Ok((SpendResponse { operation, notes }, overspend))
}

#[derive(Debug)]
pub struct ValidateRequest {
    pub notes: OobNotes,
}

#[derive(Debug)]
pub struct ValidateResponse {
    pub amount_msat: u64,
}

} // verus!
