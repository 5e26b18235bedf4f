use vstd::prelude::*;
use vstd::string::*;
use crate::any::Any;
use crate::bytes::bytes_to_vec;
use crate::decimal::{dec_digits, push_decimal};
use crate::height::Height;
use crate::kv::{WriteSet, clone_opt_bytes};
use crate::vecmap::{VecMap, distinct_keys, entries_map, lemma_entries_map_drop_last};
use crate::speculative::permit::PermitGate;
use crate::speculative::stream::SpeculativeHeaderMemoryBudget;
use crate::speculative::types::{
    EnclaveError, ExplicitStateRef, MsgUpdateClient, MsgUpdateClientResponse, ObservedStateTransition,
    SpeculativeBatchFailure, SpeculativeBatchFailureKind, SpeculativeUpdateClientBatch,
    SpeculativeUpdateClientBatchResult, SpeculativeUpdateClientRequest, SpeculativeUpdateClientResult,
    StitchedUpdateClientBatchResult, StitchedUpdateClientResult, opt_string_view, opt_vec_view,
    MAX_SPECULATIVE_BATCH_HEADER_BYTES,
};
use crate::speculative::validation::{
    base_state_mismatch, batch_admits, batch_fault_at, chain_links, dependency_detail, transition_follows,
    validate_linear_batch_requests, validate_linear_transitions,
};

verus! {

broadcast use vstd::string::group_string_axioms;

/// The state an update runs against: a height, and the client and
/// consensus states stored at it.
pub struct SpeculativeBaseState {
    pub prev_height: Height,
    pub client_state: Any,
    pub consensus_state: Any,
}

/// What the enclave receives to run one update speculatively.
pub struct SpeculativeUpdateClientInput {
    pub update: MsgUpdateClient,
    pub base_state: SpeculativeBaseState,
}

/// The content of an update-state commitment.
pub struct UpdateStateProxyMessage {
    pub prev_height: Option<Height>,
    pub prev_state_id: Option<Vec<u8>>,
    pub post_height: Height,
    pub post_state_id: Vec<u8>,
}

/// The message that a commitment of the enclave carries.
pub enum ProxyMessage {
    UpdateState(UpdateStateProxyMessage),
    Misbehaviour,
    VerifyMembership,
}

/// What the enclave answers to a speculative update: the signed commitment,
/// the message it commits to, and the writes the update would make.
pub struct SpeculativeUpdateClientResponse {
    pub response: MsgUpdateClientResponse,
    pub message: ProxyMessage,
    pub write_set: WriteSet,
}

/// The enclave side of speculative execution. Whoever hosts the enclave
/// implements it; nothing is assumed of what it returns.
pub trait SpeculativeEnclave {
    /// Runs one update against the given base state without applying it.
    fn speculative_update_client(&self, input: SpeculativeUpdateClientInput) -> Result<
        SpeculativeUpdateClientResponse,
        EnclaveError,
    >;

    /// Applies a write set, provided the stored state of the client is the
    /// expected base.
    fn apply_write_set_with_expected_base(
        &self,
        client_id: String,
        prev_height: Height,
        client_state: &Any,
        consensus_state: &Any,
        prev_state_id: Option<Vec<u8>>,
        write_set: WriteSet,
    ) -> Result<(), EnclaveError>;
}

/// A call made on the enclave through a session, with the enclave's answer.
pub enum EnclaveCall {
    /// A speculative update run on `input`.
    Speculative { input: SpeculativeUpdateClientInput, answer: Result<SpeculativeUpdateClientResponse, EnclaveError> },
    /// A write set applied against an expected base state.
    Apply {
        client_id: Seq<char>,
        base: SpeculativeBaseState,
        prev_state_id: Option<Vec<u8>>,
        write_set: WriteSet,
        answer: Result<(), EnclaveError>,
    },
}

/// The enclave as the service uses it, with a record of the calls made on
/// it through this session, in order, and of their answers.
pub struct EnclaveSession<'a, E: SpeculativeEnclave> {
    enclave: &'a E,
    calls: Ghost<Seq<EnclaveCall>>,
}

impl<'a, E: SpeculativeEnclave> EnclaveSession<'a, E> {
    /// The calls made through the session, oldest first.
    pub closed spec fn calls(&self) -> Seq<EnclaveCall> {
        self.calls@
    }

    /// A session on `enclave` with no calls made yet.
    pub fn new(enclave: &'a E) -> (r: Self)
        ensures
            r.calls() == Seq::<EnclaveCall>::empty(),
    {
        EnclaveSession { enclave, calls: Ghost(Seq::empty()) }
    }

    /// Runs one update speculatively in the enclave.
    pub fn speculative_update_client(&mut self, input: SpeculativeUpdateClientInput) -> (r: Result<
        SpeculativeUpdateClientResponse,
        EnclaveError,
    >)
        ensures
            final(self).calls() == old(self).calls().push(EnclaveCall::Speculative { input, answer: r }),
    {
        let ghost recorded = input;
        let r = self.enclave.speculative_update_client(input);
        let ghost answer = r;
        proof {
            self.calls@ = self.calls@.push(EnclaveCall::Speculative { input: recorded, answer });
        }
        r
    }

    /// Asks the enclave to apply a write set, provided the stored state of
    /// the client is the expected base.
    pub fn apply_write_set_with_expected_base(
        &mut self,
        client_id: String,
        base: &SpeculativeBaseState,
        prev_state_id: Option<Vec<u8>>,
        write_set: WriteSet,
    ) -> (r: Result<(), EnclaveError>)
        ensures
            final(self).calls() == old(self).calls().push(EnclaveCall::Apply {
                client_id: client_id@,
                base: *base,
                prev_state_id,
                write_set,
                answer: r,
            }),
    {
        let ghost cid = client_id@;
        let ghost psi = prev_state_id;
        let ghost ws = write_set;
        let r = self.enclave.apply_write_set_with_expected_base(
            client_id,
            base.prev_height,
            &base.client_state,
            &base.consensus_state,
            prev_state_id,
            write_set,
        );
        let ghost answer = r;
        proof {
            self.calls@ = self.calls@.push(EnclaveCall::Apply { client_id: cid, base: *base, prev_state_id: psi, write_set: ws, answer });
        }
        r
    }
}

/// Why an explicit state reference cannot serve as a base state.
pub open spec fn base_state_fault(b: ExplicitStateRef) -> Option<Seq<char>> {
    if b.prev_height is None {
        Some("speculative base_state prev_height must be provided"@)
    } else if b.client_state is None {
        Some("speculative base_state client_state must be provided"@)
    } else if b.consensus_state is None {
        Some("speculative base_state consensus_state must be provided"@)
    } else {
        None
    }
}

/// A base state carries exactly the parts of a complete state reference.
pub open spec fn base_matches(p: SpeculativeBaseState, b: ExplicitStateRef) -> bool {
    &&& b.prev_height == Some(p.prev_height)
    &&& b.client_state matches Some(c) && c@ == p.client_state@
    &&& b.consensus_state matches Some(c) && c@ == p.consensus_state@
}

/// A base state reference is accepted exactly when it is complete: its
/// height, client state and consensus state are all present. A refusal
/// names the first part missing.
pub proof fn lemma_base_state_accepted_iff_complete(b: ExplicitStateRef)
    ensures
        base_state_fault(b) is None <==> b.is_complete(),
        b.prev_height is None ==> base_state_fault(b) == Some("speculative base_state prev_height must be provided"@),
        b.prev_height is Some && b.client_state is None
            ==> base_state_fault(b) == Some("speculative base_state client_state must be provided"@),
        b.prev_height is Some && b.client_state is Some && b.consensus_state is None
            ==> base_state_fault(b) == Some("speculative base_state consensus_state must be provided"@),
{
}

/// A base state drawn from a reference carries the reference's own height,
/// client state and consensus state, none of them made up.
pub proof fn lemma_base_matches_parts(p: SpeculativeBaseState, b: ExplicitStateRef)
    requires
        base_matches(p, b),
    ensures
        b.is_complete(),
        b.prev_height == Some(p.prev_height),
        b.client_state->0@ == p.client_state@,
        b.consensus_state->0@ == p.consensus_state@,
{
}

/// Takes the base state out of an explicit state reference; every part of
/// it must be present.
pub fn base_state_payload_from_ref(base_state: &ExplicitStateRef) -> (r: Result<SpeculativeBaseState, EnclaveError>)
    ensures
        r is Ok <==> base_state_fault(*base_state) is None,
        r is Ok <==> base_state.is_complete(),
        r matches Ok(p) ==> base_matches(p, *base_state),
        r matches Ok(p) ==> base_state.prev_height == Some(p.prev_height)
            && base_state.client_state->0@ == p.client_state@
            && base_state.consensus_state->0@ == p.consensus_state@,
        r matches Err(e) ==> e is InvalidArgument && Some(e.descr()) == base_state_fault(*base_state),
{
    let prev_height = match base_state.prev_height {
        Some(h) => h,
        None => {
            return Err(EnclaveError::InvalidArgument {
                descr: String::from_str("speculative base_state prev_height must be provided"),
            });
        },
    };
    let client_state = match &base_state.client_state {
        Some(c) => c.duplicate(),
        None => {
            return Err(EnclaveError::InvalidArgument {
                descr: String::from_str("speculative base_state client_state must be provided"),
            });
        },
    };
    let consensus_state = match &base_state.consensus_state {
        Some(c) => c.duplicate(),
        None => {
            return Err(EnclaveError::InvalidArgument {
                descr: String::from_str("speculative base_state consensus_state must be provided"),
            });
        },
    };
    Ok(SpeculativeBaseState { prev_height, client_state, consensus_state })
}

/// The name of a proxy message's kind.
pub open spec fn proxy_message_kind(m: ProxyMessage) -> Seq<char> {
    match m {
        ProxyMessage::UpdateState(_) => "UpdateState"@,
        ProxyMessage::Misbehaviour => "Misbehaviour"@,
        ProxyMessage::VerifyMembership => "VerifyMembership"@,
    }
}

/// A transition carries the heights and state ids of an update-state message.
pub open spec fn transition_of(t: ObservedStateTransition, m: UpdateStateProxyMessage) -> bool {
    &&& t.prev_height == m.prev_height
    &&& opt_vec_view(t.prev_state_id) == opt_vec_view(m.prev_state_id)
    &&& t.post_height == m.post_height
    &&& t.post_state_id@ == m.post_state_id@
}

/// Reads the state transition out of the enclave's message, which must be
/// an update-state message.
pub fn decode_observed_transition(message: &ProxyMessage) -> (r: Result<ObservedStateTransition, EnclaveError>)
    ensures
        *message matches ProxyMessage::UpdateState(m) ==> (r matches Ok(t) && transition_of(t, m)),
        !(*message is UpdateState) ==> (r matches Err(e) && e is InvalidArgument
            && e.descr() == "expected UpdateState proxy message, got "@ + proxy_message_kind(*message)),
{
    match message {
        ProxyMessage::UpdateState(m) => Ok(ObservedStateTransition {
            prev_height: m.prev_height,
            prev_state_id: clone_opt_bytes(&m.prev_state_id),
            post_height: m.post_height,
            post_state_id: bytes_to_vec(m.post_state_id.as_slice()),
        }),
        ProxyMessage::Misbehaviour => {
            let mut descr = String::from_str("expected UpdateState proxy message, got ");
            descr.append("Misbehaviour");
            Err(EnclaveError::InvalidArgument { descr })
        },
        ProxyMessage::VerifyMembership => {
            let mut descr = String::from_str("expected UpdateState proxy message, got ");
            descr.append("VerifyMembership");
            Err(EnclaveError::InvalidArgument { descr })
        },
    }
}

/// What the enclave is handed for one request: its update message and the
/// base state taken out of its state reference.
pub fn speculative_update_client_input(update: MsgUpdateClient, base_state: &ExplicitStateRef) -> (r: Result<
    SpeculativeUpdateClientInput,
    EnclaveError,
>)
    ensures
        r is Ok <==> base_state_fault(*base_state) is None,
        r matches Ok(i) ==> i.update == update && base_matches(i.base_state, *base_state),
        r matches Err(e) ==> e is InvalidArgument && Some(e.descr()) == base_state_fault(*base_state),
{
    let base = base_state_payload_from_ref(base_state)?;
    Ok(SpeculativeUpdateClientInput { update, base_state: base })
}

/// The result of one speculative unit, from the base state it named and the
/// enclave's answer.
pub fn speculative_result_from_response(base_state: ExplicitStateRef, res: SpeculativeUpdateClientResponse) -> (r:
    Result<SpeculativeUpdateClientResult, EnclaveError>)
    ensures
        res.message matches ProxyMessage::UpdateState(m) ==> (r matches Ok(u) && {
            &&& u.response == res.response
            &&& u.write_set == res.write_set
            &&& u.base_state == base_state
            &&& transition_of(u.observed_transition, m)
        }),
        !(res.message is UpdateState) ==> (r matches Err(e) && e is InvalidArgument
            && e.descr() == "expected UpdateState proxy message, got "@ + proxy_message_kind(res.message)),
{
    let observed_transition = decode_observed_transition(&res.message)?;
    Ok(SpeculativeUpdateClientResult {
        response: res.response,
        write_set: res.write_set,
        base_state,
        observed_transition,
    })
}

/// What a unit's run gives, from the base state it named and the enclave's
/// answer: the enclave's error as it is; a result from an update-state
/// answer; an error for any other commitment.
pub open spec fn speculative_outcome(
    base_state: ExplicitStateRef,
    answer: Result<SpeculativeUpdateClientResponse, EnclaveError>,
    r: Result<SpeculativeUpdateClientResult, EnclaveError>,
) -> bool {
    match answer {
        Err(e) => r == Err::<SpeculativeUpdateClientResult, EnclaveError>(e),
        Ok(res) => match res.message {
            ProxyMessage::UpdateState(m) => r matches Ok(u) && u.response == res.response && u.write_set == res.write_set
                && u.base_state == base_state && transition_of(u.observed_transition, m),
            _ => r matches Err(e) && e is InvalidArgument
                && e.descr() == "expected UpdateState proxy message, got "@ + proxy_message_kind(res.message),
        },
    }
}

/// Everything a batch is stitched from, once it has been checked: the
/// client, the first unit and its base state, the merged writes, and the
/// outcome of each unit.
pub struct StitchPlan {
    pub client_id: String,
    pub first_unit_id: String,
    pub base: SpeculativeBaseState,
    pub prev_state_id: Option<Vec<u8>>,
    pub write_set: WriteSet,
    pub units: Vec<StitchedUpdateClientResult>,
}

/// The writes of `s` applied in order on top of `m`: a later write of a key
/// wins over an earlier one.
pub open spec fn insert_all(m: Map<Seq<u8>, Option<Seq<u8>>>, s: Seq<(Vec<u8>, Option<Vec<u8>>)>) -> Map<
    Seq<u8>,
    Option<Seq<u8>>,
>
    decreases s.len(),
{
    if s.len() == 0 {
        m
    } else {
        insert_all(m, s.drop_last()).insert(s.last().0@, s.last().1.deep_view())
    }
}

/// The write sets of the first `n` results merged in unit order.
pub open spec fn merged_writes(results: Seq<SpeculativeUpdateClientResult>, n: int) -> Map<Seq<u8>, Option<Seq<u8>>>
    decreases n,
{
    if n <= 0 {
        Map::empty()
    } else {
        insert_all(merged_writes(results, n - 1), results[n - 1].write_set.entries_seq())
    }
}

/// Writes with distinct keys applied in order on top of `m` give `m` with
/// their map laid over it.
proof fn lemma_insert_all(m: Map<Seq<u8>, Option<Seq<u8>>>, s: Seq<(Vec<u8>, Option<Vec<u8>>)>)
    requires
        distinct_keys(s),
    ensures
        insert_all(m, s) == m.union_prefer_right(entries_map(s)),
    decreases s.len(),
{
    if s.len() == 0 {
        assert(entries_map(s) =~= Map::<Seq<u8>, Option<Seq<u8>>>::empty());
        assert(m.union_prefer_right(entries_map(s)) =~= m);
    } else {
        lemma_entries_map_drop_last(s);
        lemma_insert_all(m, s.drop_last());
        assert(insert_all(m, s) =~= m.union_prefer_right(entries_map(s)));
    }
}

/// Merging the write sets of a batch's units, the last unit that writes a
/// key decides its value: a key is written exactly when some unit writes
/// it, and then holds what the last such unit wrote.
pub proof fn lemma_merged_writes_last_wins(results: Seq<SpeculativeUpdateClientResult>, n: int, k: Seq<u8>)
    requires
        0 <= n <= results.len(),
        forall|j: int| 0 <= j < n ==> (#[trigger] results[j]).write_set.wf(),
    ensures
        merged_writes(results, n).contains_key(k) <==> exists|j: int| 0 <= j < n
            && (#[trigger] results[j]).write_set.map().contains_key(k),
        forall|j: int| 0 <= j < n && (#[trigger] results[j]).write_set.map().contains_key(k)
            && (forall|l: int| j < l < n ==> !(#[trigger] results[l]).write_set.map().contains_key(k))
            ==> merged_writes(results, n)[k] == results[j].write_set.map()[k],
    decreases n,
{
    if n > 0 {
        lemma_merged_writes_last_wins(results, n - 1, k);
        let w = results[n - 1].write_set;
        w.lemma_entries();
        lemma_insert_all(merged_writes(results, n - 1), w.entries_seq());
        assert(merged_writes(results, n) == merged_writes(results, n - 1).union_prefer_right(w.map()));
        if !merged_writes(results, n).contains_key(k) {
            assert forall|j: int| 0 <= j < n implies !(#[trigger] results[j]).write_set.map().contains_key(k) by {
                if j < n - 1 {
                    assert(!results[j].write_set.map().contains_key(k));
                }
            }
        }
        assert forall|j: int| 0 <= j < n && (#[trigger] results[j]).write_set.map().contains_key(k)
            && (forall|l: int| j < l < n ==> !(#[trigger] results[l]).write_set.map().contains_key(k))
            implies merged_writes(results, n)[k] == results[j].write_set.map()[k] by {
            if j < n - 1 {
                assert(!results[n - 1].write_set.map().contains_key(k));
                assert(forall|l: int| j < l < n - 1 ==> !(#[trigger] results[l]).write_set.map().contains_key(k));
            }
        }
    }
}

/// The message when a result belongs to another client.
pub open spec fn client_mismatch_detail(expected: Seq<char>, observed: Seq<char>) -> Seq<char> {
    "batch result client_id mismatch: expected="@ + expected + " observed="@ + observed
}

/// The message when requests and results differ in number.
pub open spec fn size_mismatch_detail(requests: nat, results: nat) -> Seq<char> {
    "batch size mismatch: requests="@ + dec_digits(requests) + " results="@ + dec_digits(results)
}

/// The first `n` results observed the base states their requests named.
pub open spec fn bases_match(results: Seq<SpeculativeUpdateClientResult>, n: int) -> bool {
    forall|j: int| 0 <= j < n ==> base_state_mismatch(#[trigger] results[j]) is None
}

/// The checks on a batch and its results before any unit's base state is
/// compared: the requests admit, the results are the batch's own, as many
/// as the requests, in one chain, at least one, and the first unit names a
/// complete base state.
pub open spec fn stitch_prechecks(batch: SpeculativeUpdateClientBatch, results: SpeculativeUpdateClientBatchResult) -> bool {
    let n = batch.units@.len() as int;
    &&& batch_admits(batch.client_id@, batch.units@, n)
    &&& batch.client_id@ == results.client_id@
    &&& results.units@.len() == n
    &&& chain_links(results.units@, n)
    &&& n > 0
    &&& base_state_fault(batch.units@[0].base_state) is None
}

/// The error a batch and its results are refused with, for each check that
/// fails first, in the order the checks run: the requests as a linear
/// batch; the results' client; their number; the chain of transitions; that
/// there is a unit; the first unit's base state; each unit's observed base.
pub open spec fn stitch_refusals<T>(
    batch: SpeculativeUpdateClientBatch,
    results: SpeculativeUpdateClientBatchResult,
    r: Result<T, SpeculativeBatchFailure>,
) -> bool {
    let cid = batch.client_id@;
    let bu = batch.units@;
    let ru = results.units@;
    let n = bu.len() as int;
    &&& !batch_admits(cid, bu, n) ==> (r matches Err(f) && exists|i: int| 0 <= i < n && batch_admits(cid, bu, i)
        && #[trigger] batch_fault_at(cid, bu, i) == Some(f.kind) && opt_string_view(f.unit_id) == Some(bu[i].unit_id@))
    &&& batch_admits(cid, bu, n) && cid != results.client_id@ ==> (r matches Err(f)
        && f.kind == SpeculativeBatchFailureKind::ResultClientMismatch && f.unit_id is None
        && f.detail@ == client_mismatch_detail(cid, results.client_id@))
    &&& batch_admits(cid, bu, n) && cid == results.client_id@ && ru.len() != n ==> (r matches Err(f)
        && f.kind == SpeculativeBatchFailureKind::BatchSizeMismatch && f.unit_id is None
        && f.detail@ == size_mismatch_detail(n as nat, ru.len()))
    &&& batch_admits(cid, bu, n) && cid == results.client_id@ && ru.len() == n && !chain_links(ru, n) ==> (
        r matches Err(f) && exists|i: int| 1 <= i < n && chain_links(ru, i)
        && !transition_follows(ru[i - 1].observed_transition, #[trigger] ru[i].observed_transition)
        && f.kind == SpeculativeBatchFailureKind::DependencyStateMismatch
        && opt_string_view(f.unit_id) == Some(bu[i].unit_id@) && f.detail@ == dependency_detail(bu[i].unit_id@))
    &&& batch_admits(cid, bu, n) && cid == results.client_id@ && ru.len() == n && chain_links(ru, n) && n == 0
        ==> (r matches Err(f) && f.kind == SpeculativeBatchFailureKind::BatchSizeMismatch && f.unit_id is None
        && f.detail@ == "speculative batch must contain at least one unit"@)
    &&& batch_admits(cid, bu, n) && cid == results.client_id@ && ru.len() == n && chain_links(ru, n) && n > 0
        && base_state_fault(bu[0].base_state) is Some ==> (r matches Err(f)
        && f.kind == SpeculativeBatchFailureKind::BaseStateMismatch
        && opt_string_view(f.unit_id) == Some(bu[0].unit_id@)
        && Some(f.detail@) == base_state_fault(bu[0].base_state))
    &&& stitch_prechecks(batch, results) && !bases_match(ru, n) ==> (r matches Err(f) && exists|i: int| 0 <= i < n
        && bases_match(ru, i) && #[trigger] base_state_mismatch(ru[i]) == Some(f.detail@)
        && f.kind == SpeculativeBatchFailureKind::BaseStateMismatch
        && opt_string_view(f.unit_id) == Some(bu[i].unit_id@))
}

/// A unit is stitched as its result's response and observed transition.
pub open spec fn stitched_from(s: StitchedUpdateClientResult, r: SpeculativeUpdateClientResult) -> bool {
    s.response == r.response && s.observed_transition == r.observed_transition
}

fn failure(kind: SpeculativeBatchFailureKind, unit_id: Option<String>, detail: String) -> (f: SpeculativeBatchFailure)
    ensures
        f.kind == kind,
        f.unit_id == unit_id,
        f.detail == detail,
{
    SpeculativeBatchFailure { kind, unit_id, detail }
}

/// Adds the entries of one write set to the merged writes, in order.
fn merge_write_set(merged: &mut WriteSet, write_set: WriteSet)
    requires
        old(merged).wf(),
    ensures
        final(merged).wf(),
        final(merged).map() == insert_all(old(merged).map(), write_set.entries_seq()),
{
    let entries = write_set.into_entries();
    let ghost s = entries@;
    let ghost m0 = merged.map();
    assert(s.take(0) =~= Seq::<(Vec<u8>, Option<Vec<u8>>)>::empty());
    for e in it: entries
        invariant
            it.seq() == s,
            it.index() <= s.len(),
            merged.wf(),
            merged.map() == insert_all(m0, s.take(it.index() as int)),
    {
        let ghost i = it.index() as int;
        assert(s.take(i + 1).drop_last() =~= s.take(i));
        assert(s.take(i + 1).last() == s[i]);
        let (k, v) = e;
        merged.insert(k, v);
    }
    assert(s.take(s.len() as int) =~= s);
}

/// Checks a batch against its results, with the errors of
/// `stitch_refusals`, and gathers what stitching needs.
pub fn plan_stitch(batch: SpeculativeUpdateClientBatch, results: SpeculativeUpdateClientBatchResult) -> (r: Result<
    StitchPlan,
    SpeculativeBatchFailure,
>)
    ensures
        ({
            let cid = batch.client_id@;
            let bu = batch.units@;
            let ru = results.units@;
            let n = bu.len() as int;
            &&& r is Ok <==> stitch_prechecks(batch, results) && bases_match(ru, n)
            &&& stitch_refusals(batch, results, r)
            &&& r matches Ok(p) ==> {
                &&& p.client_id@ == cid
                &&& p.first_unit_id@ == bu[0].unit_id@
                &&& base_matches(p.base, bu[0].base_state)
                &&& opt_vec_view(p.prev_state_id) == opt_vec_view(ru[0].observed_transition.prev_state_id)
                &&& p.write_set.wf()
                &&& p.write_set.map() == merged_writes(ru, n)
                &&& p.units@.len() == n
                &&& forall|j: int| 0 <= j < n ==> stitched_from(#[trigger] p.units@[j], ru[j])
            }
        }),
{
    validate_linear_batch_requests(batch.client_id.as_str(), batch.units.as_slice())?;
    if batch.client_id != results.client_id {
        let mut detail = String::from_str("batch result client_id mismatch: expected=");
        detail.append(batch.client_id.as_str());
        detail.append(" observed=");
        detail.append(results.client_id.as_str());
        return Err(failure(SpeculativeBatchFailureKind::ResultClientMismatch, None, detail));
    }
    let n = batch.units.len();
    if n != results.units.len() {
        let mut detail = String::from_str("batch size mismatch: requests=");
        push_decimal(&mut detail, n as u64);
        detail.append(" results=");
        push_decimal(&mut detail, results.units.len() as u64);
        return Err(failure(SpeculativeBatchFailureKind::BatchSizeMismatch, None, detail));
    }
    validate_linear_transitions(batch.units.as_slice(), results.units.as_slice())?;
    if n == 0 {
        return Err(failure(
            SpeculativeBatchFailureKind::BatchSizeMismatch,
            None,
            String::from_str("speculative batch must contain at least one unit"),
        ));
    }
    let base = match base_state_payload_from_ref(&batch.units[0].base_state) {
        Ok(b) => b,
        Err(e) => {
            let detail = e.message().clone();
            return Err(failure(
                SpeculativeBatchFailureKind::BaseStateMismatch,
                Some(batch.units[0].unit_id.clone()),
                detail,
            ));
        },
    };
    let prev_state_id = clone_opt_bytes(&results.units[0].observed_transition.prev_state_id);
    let ghost ru = results.units@;
    let ghost bu = batch.units@;
    let mut merged: WriteSet = VecMap::new();
    let mut units: Vec<StitchedUpdateClientResult> = Vec::new();
    let SpeculativeUpdateClientBatchResult { client_id: _, units: result_units } = results;
    for result in it: result_units
        invariant
            it.seq() == ru,
            ru.len() == n,
            bu == batch.units@,
            bu.len() == n,
            it.index() <= n,
            merged.wf(),
            merged.map() == merged_writes(ru, it.index() as int),
            units@.len() == it.index(),
            forall|j: int| 0 <= j < it.index() ==> stitched_from(#[trigger] units@[j], ru[j]),
            bases_match(ru, it.index() as int),
            stitch_prechecks(batch, results),
            ru == results.units@,
    {
        let ghost i = it.index() as int;
        let idx = units.len();
        match result.validate_base_state() {
            Ok(()) => {},
            Err(e) => {
                let detail = e.message().clone();
                assert(result == ru[i]);
                assert(base_state_mismatch(ru[i]) == Some(detail@));
                assert(!bases_match(ru, n as int));
                return Err(failure(
                    SpeculativeBatchFailureKind::BaseStateMismatch,
                    Some(batch.units[idx].unit_id.clone()),
                    detail,
                ));
            },
        }
        let SpeculativeUpdateClientResult { response, write_set, base_state: _, observed_transition } = result;
        merge_write_set(&mut merged, write_set);
        units.push(StitchedUpdateClientResult { response, observed_transition });
        assert(stitched_from(units@[i], ru[i]));
    }
    Ok(StitchPlan {
        client_id: batch.client_id,
        first_unit_id: batch.units[0].unit_id.clone(),
        base,
        prev_state_id,
        write_set: merged,
        units,
    })
}

/// The stitched batch once the enclave has been asked to apply the merged
/// writes: the planned units when it accepted them; when it did not, a
/// base-state failure of the first unit with the enclave's message.
pub fn finish_stitch(
    client_id: String,
    first_unit_id: String,
    units: Vec<StitchedUpdateClientResult>,
    applied: Result<(), EnclaveError>,
) -> (r: Result<StitchedUpdateClientBatchResult, SpeculativeBatchFailure>)
    ensures
        applied is Ok ==> (r matches Ok(b) && b.client_id == client_id && b.units == units),
        applied matches Err(e) ==> (r matches Err(f) && f.kind == SpeculativeBatchFailureKind::BaseStateMismatch
            && opt_string_view(f.unit_id) == Some(first_unit_id@) && f.detail@ == e.descr()),
{
    match applied {
        Ok(()) => Ok(StitchedUpdateClientBatchResult { client_id, units }),
        Err(e) => {
            let detail = e.message().clone();
            Err(failure(SpeculativeBatchFailureKind::BaseStateMismatch, Some(first_unit_id), detail))
        },
    }
}

/// Executes speculative updates and stitches their results, within a limit
/// on concurrent executions and a budget of resident header bytes.
pub struct SpeculativeService {
    speculative_concurrency_limit: usize,
    speculative_request_permits: PermitGate,
    header_memory_budget: SpeculativeHeaderMemoryBudget,
}

impl SpeculativeService {
    pub closed spec fn spec_limit(&self) -> nat {
        self.speculative_concurrency_limit as nat
    }

    pub closed spec fn spec_permits(&self) -> PermitGate {
        self.speculative_request_permits
    }

    pub closed spec fn spec_budget(&self) -> SpeculativeHeaderMemoryBudget {
        self.header_memory_budget
    }

    /// A service that runs at most `speculative_concurrency_limit` units at
    /// once (at least one), with the batch-wide header budget.
    pub fn new(speculative_concurrency_limit: usize) -> (r: Self)
        ensures
            r.spec_limit() == if speculative_concurrency_limit == 0 { 1 } else { speculative_concurrency_limit as nat },
            r.spec_permits().wf(),
            r.spec_permits().spec_capacity() == r.spec_limit(),
            r.spec_permits().spec_available() == r.spec_limit(),
            r.spec_budget().wf(),
            r.spec_budget().max() == MAX_SPECULATIVE_BATCH_HEADER_BYTES,
            r.spec_budget().used() == 0,
    {
        let limit = if speculative_concurrency_limit == 0 { 1 } else { speculative_concurrency_limit };
        SpeculativeService {
            speculative_concurrency_limit: limit,
            speculative_request_permits: PermitGate::new(speculative_concurrency_limit),
            header_memory_budget: SpeculativeHeaderMemoryBudget::new(MAX_SPECULATIVE_BATCH_HEADER_BYTES),
        }
    }

    pub fn speculative_concurrency_limit(&self) -> (r: usize)
        ensures
            r == self.spec_limit(),
    {
        self.speculative_concurrency_limit
    }

    /// The budget of resident header bytes.
    pub fn header_memory_budget(&self) -> (r: &SpeculativeHeaderMemoryBudget)
        ensures
            *r == self.spec_budget(),
    {
        &self.header_memory_budget
    }

    /// The permits that bound concurrent executions.
    pub fn speculative_request_permits(&self) -> (r: &PermitGate)
        ensures
            *r == self.spec_permits(),
    {
        &self.speculative_request_permits
    }

    /// Runs `f` under one of the permits that bound concurrent executions;
    /// `None`, with `f` not run, when all of them are held.
    pub fn with_speculative_request_permit<T, F: FnOnce() -> Result<T, EnclaveError>>(&mut self, f: F) -> (r: Option<Result<T, EnclaveError>>)
        requires
            old(self).spec_permits().wf(),
            f.requires(()),
        ensures
            final(self).spec_limit() == old(self).spec_limit(),
            final(self).spec_budget() == old(self).spec_budget(),
            final(self).spec_permits().wf(),
            final(self).spec_permits().spec_capacity() == old(self).spec_permits().spec_capacity(),
            final(self).spec_permits().spec_available() == old(self).spec_permits().spec_available(),
            r is None <==> old(self).spec_permits().spec_available() == 0,
            r matches Some(v) ==> f.ensures((), v),
    {
        self.speculative_request_permits.with_permit(f)
    }

    /// Runs one unit in the enclave. A unit whose base state is incomplete
    /// is refused before the enclave is asked; otherwise the enclave is asked
    /// once, with `speculative_update_client_input` of the request, and its
    /// answer is read by `speculative_result_from_response`.
    pub fn speculative_update_client<E: SpeculativeEnclave>(
        &self,
        enclave: &mut EnclaveSession<E>,
        req: SpeculativeUpdateClientRequest,
    ) -> (r: Result<SpeculativeUpdateClientResult, EnclaveError>)
        ensures
            base_state_fault(req.base_state) matches Some(m) ==> (r matches Err(e) && e is InvalidArgument
                && e.descr() == m && final(enclave).calls() == old(enclave).calls()),
            base_state_fault(req.base_state) is None ==> ({
                &&& final(enclave).calls().len() == old(enclave).calls().len() + 1
                &&& final(enclave).calls().drop_last() == old(enclave).calls()
                &&& final(enclave).calls().last() matches EnclaveCall::Speculative { input, answer }
                    && input.update == req.update && base_matches(input.base_state, req.base_state)
                    && speculative_outcome(req.base_state, answer, r)
            }),
    {
        let SpeculativeUpdateClientRequest { unit_id: _, update, base_state } = req;
        let input = match speculative_update_client_input(update, &base_state) {
            Ok(i) => i,
            Err(e) => return Err(e),
        };
        let res = match enclave.speculative_update_client(input) {
            Ok(res) => res,
            Err(e) => return Err(e),
        };
        speculative_result_from_response(base_state, res)
    }

    /// Checks a batch against its results, asks the enclave once to apply
    /// the merged writes of all units against the first unit's base state,
    /// and returns the stitched units. A refused batch never reaches the
    /// enclave. What is checked, and what the enclave is handed, is
    /// `plan_stitch`'s; what comes back is `finish_stitch`'s.
    pub fn stitch_speculative_update_client_batch<E: SpeculativeEnclave>(
        &self,
        enclave: &mut EnclaveSession<E>,
        batch: SpeculativeUpdateClientBatch,
        results: SpeculativeUpdateClientBatchResult,
    ) -> (r: Result<StitchedUpdateClientBatchResult, SpeculativeBatchFailure>)
        ensures
            stitch_refusals(batch, results, r),
            !(stitch_prechecks(batch, results) && bases_match(results.units@, batch.units@.len() as int)) ==> (r is Err
                && final(enclave).calls() == old(enclave).calls()),
            r matches Ok(b) ==> b.client_id@ == batch.client_id@ && b.units@.len() == batch.units@.len()
                && forall|j: int| 0 <= j < b.units@.len() ==> stitched_from(#[trigger] b.units@[j], results.units@[j]),
            stitch_prechecks(batch, results) && bases_match(results.units@, batch.units@.len() as int) ==> ({
                let n = batch.units@.len() as int;
                &&& final(enclave).calls().len() == old(enclave).calls().len() + 1
                &&& final(enclave).calls().drop_last() == old(enclave).calls()
                &&& final(enclave).calls().last() matches EnclaveCall::Apply { client_id, base, prev_state_id, write_set, answer }
                    && client_id == batch.client_id@
                    && base_matches(base, batch.units@[0].base_state)
                    && opt_vec_view(prev_state_id) == opt_vec_view(results.units@[0].observed_transition.prev_state_id)
                    && write_set.wf() && write_set.map() == merged_writes(results.units@, n)
                    && (answer is Ok ==> r is Ok)
                    && (answer matches Err(e) ==> (r matches Err(f) && f.kind == SpeculativeBatchFailureKind::BaseStateMismatch
                        && opt_string_view(f.unit_id) == Some(batch.units@[0].unit_id@) && f.detail@ == e.descr()))
            }),
    {
        let plan = match plan_stitch(batch, results) {
            Ok(p) => p,
            Err(f) => return Err(f),
        };
        let StitchPlan { client_id, first_unit_id, base, prev_state_id, write_set, units } = plan;
        let applied = enclave.apply_write_set_with_expected_base(client_id.clone(), &base, prev_state_id, write_set);
        finish_stitch(client_id, first_unit_id, units, applied)
    }
}

} // verus!
