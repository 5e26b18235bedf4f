use vstd::prelude::*;
use vstd::string::*;
use crate::bytes::bytes_eq;
use crate::client_id::str_eq;
use crate::height::Height;
use crate::speculative::text::{opt_bytes_debug, opt_height_debug, push_opt_bytes_debug, push_opt_height_debug};
use crate::speculative::types::{
    EnclaveError, ObservedStateTransition, SpeculativeBatchFailure, SpeculativeBatchFailureKind,
    SpeculativeUpdateClientRequest, SpeculativeUpdateClientResult, UnitIdSet, opt_string_view, opt_vec_view,
    MAX_SPECULATIVE_BATCH_UNITS, MAX_SPECULATIVE_UNIT_HEADER_BYTES,
};

verus! {

broadcast use vstd::string::group_string_axioms;

/// The first check that a unit fails when it is admitted at position `index`
/// into a batch for `client_id` that already holds the units `seen`.
pub open spec fn request_fault(
    client_id: Seq<char>,
    index: int,
    seen: Set<Seq<char>>,
    req: SpeculativeUpdateClientRequest,
) -> Option<SpeculativeBatchFailureKind> {
    if req.update.client_id@ != client_id {
        Some(SpeculativeBatchFailureKind::MixedClientId)
    } else if index >= MAX_SPECULATIVE_BATCH_UNITS {
        Some(SpeculativeBatchFailureKind::BatchSizeMismatch)
    } else if seen.contains(req.unit_id@) {
        Some(SpeculativeBatchFailureKind::DuplicateUnitId)
    } else if !req.base_state.is_complete() {
        Some(SpeculativeBatchFailureKind::BaseStateMismatch)
    } else if req.header_len() > MAX_SPECULATIVE_UNIT_HEADER_BYTES {
        Some(SpeculativeBatchFailureKind::BatchSizeMismatch)
    } else {
        None
    }
}

/// The message of the first failing admission check.
pub open spec fn request_fault_detail(
    client_id: Seq<char>,
    index: int,
    seen: Set<Seq<char>>,
    req: SpeculativeUpdateClientRequest,
) -> Seq<char> {
    if req.update.client_id@ != client_id {
        "mixed client_id batch is not allowed: batch="@ + client_id + " unit="@ + req.update.client_id@
    } else if index >= MAX_SPECULATIVE_BATCH_UNITS {
        "speculative batch too large: units exceed 256"@
    } else if seen.contains(req.unit_id@) {
        "duplicate unit_id in speculative batch: "@ + req.unit_id@
    } else if !req.base_state.is_complete() {
        "speculative unit requires complete base_state payload: unit_id="@ + req.unit_id@
    } else {
        "speculative unit header payload too large"@
    }
}

/// The unit identifiers recorded after admitting a unit: it is recorded once
/// it has passed the client and size checks.
pub open spec fn seen_after(
    client_id: Seq<char>,
    index: int,
    seen: Set<Seq<char>>,
    req: SpeculativeUpdateClientRequest,
) -> Set<Seq<char>> {
    if req.update.client_id@ == client_id && index < MAX_SPECULATIVE_BATCH_UNITS {
        seen.insert(req.unit_id@)
    } else {
        seen
    }
}

/// Checks one unit as it is admitted into a linear batch: same client as the
/// batch, room left in the batch, a new unit identifier, a complete base
/// state, and a header of bounded size.
pub fn validate_next_linear_request(
    client_id: &str,
    index: usize,
    seen_unit_ids: &mut UnitIdSet,
    req: &SpeculativeUpdateClientRequest,
) -> (r: Result<(), SpeculativeBatchFailure>)
    requires
        old(seen_unit_ids).wf(),
    ensures
        final(seen_unit_ids).wf(),
        final(seen_unit_ids).set() == seen_after(client_id@, index as int, old(seen_unit_ids).set(), *req),
        match request_fault(client_id@, index as int, old(seen_unit_ids).set(), *req) {
            None => r is Ok,
            Some(k) => r matches Err(f) && f.kind == k && opt_string_view(f.unit_id) == Some(req.unit_id@)
                && f.detail@ == request_fault_detail(client_id@, index as int, old(seen_unit_ids).set(), *req),
        },
{
    if !str_eq(req.update.client_id.as_str(), client_id) {
        let mut detail = String::from_str("mixed client_id batch is not allowed: batch=");
        detail.append(client_id);
        detail.append(" unit=");
        detail.append(req.update.client_id.as_str());
        return Err(SpeculativeBatchFailure {
            kind: SpeculativeBatchFailureKind::MixedClientId,
            unit_id: Some(req.unit_id.clone()),
            detail,
        });
    }
    if index >= MAX_SPECULATIVE_BATCH_UNITS {
        return Err(SpeculativeBatchFailure {
            kind: SpeculativeBatchFailureKind::BatchSizeMismatch,
            unit_id: Some(req.unit_id.clone()),
            detail: String::from_str("speculative batch too large: units exceed 256"),
        });
    }
    if !seen_unit_ids.insert(req.unit_id.clone()) {
        let mut detail = String::from_str("duplicate unit_id in speculative batch: ");
        detail.append(req.unit_id.as_str());
        return Err(SpeculativeBatchFailure {
            kind: SpeculativeBatchFailureKind::DuplicateUnitId,
            unit_id: Some(req.unit_id.clone()),
            detail,
        });
    }
    if !req.base_state.has_complete_base_state_payload() {
        let mut detail = String::from_str("speculative unit requires complete base_state payload: unit_id=");
        detail.append(req.unit_id.as_str());
        return Err(SpeculativeBatchFailure {
            kind: SpeculativeBatchFailureKind::BaseStateMismatch,
            unit_id: Some(req.unit_id.clone()),
            detail,
        });
    }
    let header_len = match &req.update.header {
        Some(header) => header.value.len(),
        None => 0,
    };
    if header_len > MAX_SPECULATIVE_UNIT_HEADER_BYTES {
        return Err(SpeculativeBatchFailure {
            kind: SpeculativeBatchFailureKind::BatchSizeMismatch,
            unit_id: Some(req.unit_id.clone()),
            detail: String::from_str("speculative unit header payload too large"),
        });
    }
    Ok(())
}

/// The identifiers of the first `n` units.
pub open spec fn prefix_unit_ids(units: Seq<SpeculativeUpdateClientRequest>, n: int) -> Set<Seq<char>> {
    units.take(n).map_values(|u: SpeculativeUpdateClientRequest| u.unit_id@).to_set()
}

/// The admission check of unit `i` of a batch, all earlier units admitted.
pub open spec fn batch_fault_at(client_id: Seq<char>, units: Seq<SpeculativeUpdateClientRequest>, i: int) -> Option<SpeculativeBatchFailureKind> {
    request_fault(client_id, i, prefix_unit_ids(units, i), units[i])
}

/// The first `n` units are all admitted.
pub open spec fn batch_admits(client_id: Seq<char>, units: Seq<SpeculativeUpdateClientRequest>, n: int) -> bool {
    forall|i: int| 0 <= i < n ==> (#[trigger] batch_fault_at(client_id, units, i)) is None
}

proof fn lemma_prefix_unit_ids_step(units: Seq<SpeculativeUpdateClientRequest>, i: int)
    requires
        0 <= i < units.len(),
    ensures
        prefix_unit_ids(units, i + 1) == prefix_unit_ids(units, i).insert(units[i].unit_id@),
{
    let f = |u: SpeculativeUpdateClientRequest| u.unit_id@;
    let a = units.take(i + 1).map_values(f);
    let b = units.take(i).map_values(f);
    assert(a =~= b.push(units[i].unit_id@));
    assert forall|x: Seq<char>| a.to_set().contains(x) <==> b.to_set().insert(units[i].unit_id@).contains(x) by {
        if a.contains(x) {
            let j = choose|j: int| 0 <= j < a.len() && a[j] == x;
            if j < b.len() {
                assert(b[j] == x);
            }
        }
        if b.contains(x) {
            let j = choose|j: int| 0 <= j < b.len() && b[j] == x;
            assert(a[j] == x);
        }
        if x == units[i].unit_id@ {
            assert(a[i] == x);
        }
    }
    assert(a.to_set() =~= b.to_set().insert(units[i].unit_id@));
}

/// An earlier unit's identifier is among the identifiers of a longer prefix.
proof fn lemma_prefix_unit_ids_contains(units: Seq<SpeculativeUpdateClientRequest>, i: int, j: int)
    requires
        0 <= i < j <= units.len(),
    ensures
        prefix_unit_ids(units, j).contains(units[i].unit_id@),
{
    let f = |u: SpeculativeUpdateClientRequest| u.unit_id@;
    let a = units.take(j).map_values(f);
    assert(a[i] == units[i].unit_id@);
    assert(a.contains(units[i].unit_id@));
}

/// What an admitted batch is: all of its units are for the batch's client,
/// there are at most `MAX_SPECULATIVE_BATCH_UNITS` of them, no unit
/// identifier occurs twice, every unit names a complete base state, and no
/// header exceeds `MAX_SPECULATIVE_UNIT_HEADER_BYTES`.
pub proof fn lemma_admitted_batch(client_id: Seq<char>, units: Seq<SpeculativeUpdateClientRequest>, n: int)
    requires
        0 <= n <= units.len(),
        batch_admits(client_id, units, n),
    ensures
        n <= MAX_SPECULATIVE_BATCH_UNITS,
        forall|i: int| 0 <= i < n ==> (#[trigger] units[i]).update.client_id@ == client_id
            && units[i].base_state.is_complete() && units[i].header_len() <= MAX_SPECULATIVE_UNIT_HEADER_BYTES,
        forall|i: int, j: int| 0 <= i < j < n ==> (#[trigger] units[i]).unit_id@ != (#[trigger] units[j]).unit_id@,
{
    if n > MAX_SPECULATIVE_BATCH_UNITS {
        assert(batch_fault_at(client_id, units, MAX_SPECULATIVE_BATCH_UNITS as int) is None);
    }
    assert forall|i: int| 0 <= i < n implies (#[trigger] units[i]).update.client_id@ == client_id
        && units[i].base_state.is_complete() && units[i].header_len() <= MAX_SPECULATIVE_UNIT_HEADER_BYTES by {
        assert(batch_fault_at(client_id, units, i) is None);
    }
    assert forall|i: int, j: int| 0 <= i < j < n implies (#[trigger] units[i]).unit_id@ != (#[trigger] units[j]).unit_id@ by {
        assert(batch_fault_at(client_id, units, j) is None);
        lemma_prefix_unit_ids_contains(units, i, j);
    }
}

/// Checks every unit of an assembled batch in order, as if admitting them
/// one by one; the first unit that fails decides the error.
pub fn validate_linear_batch_requests(
    client_id: &str,
    units: &[SpeculativeUpdateClientRequest],
) -> (r: Result<(), SpeculativeBatchFailure>)
    ensures
        r is Ok <==> batch_admits(client_id@, units@, units@.len() as int),
        r is Ok ==> forall|i: int, j: int| 0 <= i < j < units@.len()
            ==> (#[trigger] units@[i]).unit_id@ != (#[trigger] units@[j]).unit_id@,
        r matches Err(f) ==> exists|i: int| 0 <= i < units@.len() && batch_admits(client_id@, units@, i)
            && #[trigger] batch_fault_at(client_id@, units@, i) == Some(f.kind)
            && opt_string_view(f.unit_id) == Some(units@[i].unit_id@),
{
    let mut seen_unit_ids = UnitIdSet::new();
    assert(prefix_unit_ids(units@, 0) =~= Set::<Seq<char>>::empty());
    let mut index: usize = 0;
    while index < units.len()
        invariant
            index <= units@.len(),
            seen_unit_ids.wf(),
            seen_unit_ids.set() == prefix_unit_ids(units@, index as int),
            batch_admits(client_id@, units@, index as int),
        decreases units@.len() - index,
    {
        let res = validate_next_linear_request(client_id, index, &mut seen_unit_ids, &units[index]);
        match res {
            Ok(()) => {},
            Err(f) => {
                assert(batch_fault_at(client_id@, units@, index as int) == Some(f.kind));
                return Err(f);
            },
        }
        proof {
            lemma_prefix_unit_ids_step(units@, index as int);
            assert(batch_fault_at(client_id@, units@, index as int) is None);
            assert forall|i: int| 0 <= i < index + 1 implies (#[trigger] batch_fault_at(client_id@, units@, i)) is None by {
                if i < index {
                }
            }
        }
        index = index + 1;
    }
    proof { lemma_admitted_batch(client_id@, units@, units@.len() as int); }
    Ok(())
}

/// The current unit starts where the previous one ended: its base height and
/// state id are the previous unit's post height and post state id.
pub open spec fn transition_follows(previous: ObservedStateTransition, current: ObservedStateTransition) -> bool {
    current.prev_height == Some(previous.post_height) && opt_vec_view(current.prev_state_id) == Some(previous.post_state_id@)
}

/// Each of the first `n` results extends the one before it.
pub open spec fn chain_links(results: Seq<SpeculativeUpdateClientResult>, n: int) -> bool {
    forall|i: int| 1 <= i < n ==> transition_follows(results[i - 1].observed_transition, #[trigger] results[i].observed_transition)
}

/// The message of a broken link.
pub open spec fn dependency_detail(unit_id: Seq<char>) -> Seq<char> {
    "unit "@ + unit_id + " base state does not match previous unit post state"@
}

fn opt_height_eq(a: &Option<Height>, b: &Height) -> (r: bool)
    ensures
        r == (*a == Some(*b)),
{
    match a {
        Some(h) => {
            proof { crate::height::lemma_height_eq(*h, *b); }
            h.revision_number() == b.revision_number() && h.revision_height() == b.revision_height()
        },
        None => false,
    }
}

/// Checks that a unit's observed transition extends the previous unit's.
fn validate_observed_transition_follows(
    unit_id: &str,
    previous: Option<&ObservedStateTransition>,
    result: &SpeculativeUpdateClientResult,
) -> (r: Result<(), SpeculativeBatchFailure>)
    ensures
        match previous {
            None => r is Ok,
            Some(p) => if transition_follows(*p, result.observed_transition) {
                r is Ok
            } else {
                r matches Err(f) && f.kind == SpeculativeBatchFailureKind::DependencyStateMismatch
                    && opt_string_view(f.unit_id) == Some(unit_id@) && f.detail@ == dependency_detail(unit_id@)
            },
        },
{
    let previous = match previous {
        Some(p) => p,
        None => return Ok(()),
    };
    let id_ok = match &result.observed_transition.prev_state_id {
        Some(id) => bytes_eq(id.as_slice(), previous.post_state_id.as_slice()),
        None => false,
    };
    if !opt_height_eq(&result.observed_transition.prev_height, &previous.post_height) || !id_ok {
        let mut detail = String::from_str("unit ");
        detail.append(unit_id);
        detail.append(" base state does not match previous unit post state");
        return Err(SpeculativeBatchFailure {
            kind: SpeculativeBatchFailureKind::DependencyStateMismatch,
            unit_id: Some(unit_id.to_owned()),
            detail,
        });
    }
    Ok(())
}

/// Checks that the results of a batch form one chain in unit order: every
/// unit's base state is its predecessor's post state. Requests and results
/// are paired up to the shorter of the two.
pub fn validate_linear_transitions(
    requests: &[SpeculativeUpdateClientRequest],
    results: &[SpeculativeUpdateClientResult],
) -> (r: Result<(), SpeculativeBatchFailure>)
    ensures
        ({
            let n = if requests@.len() < results@.len() { requests@.len() as int } else { results@.len() as int };
            &&& r is Ok <==> chain_links(results@, n)
            &&& r matches Err(f) ==> exists|i: int| 1 <= i < n && chain_links(results@, i)
                && !transition_follows(results@[i - 1].observed_transition, #[trigger] results@[i].observed_transition)
                && f.kind == SpeculativeBatchFailureKind::DependencyStateMismatch
                && opt_string_view(f.unit_id) == Some(requests@[i].unit_id@)
                && f.detail@ == dependency_detail(requests@[i].unit_id@)
        }),
{
    let n = if requests.len() < results.len() { requests.len() } else { results.len() };
    let mut i: usize = 0;
    while i < n
        invariant
            n == (if requests@.len() < results@.len() { requests@.len() as int } else { results@.len() as int }),
            i <= n,
            chain_links(results@, i as int),
        decreases n - i,
    {
        let previous = if i == 0 { None } else { Some(&results[i - 1].observed_transition) };
        match validate_observed_transition_follows(requests[i].unit_id.as_str(), previous, &results[i]) {
            Ok(()) => {},
            Err(f) => {
                assert(!transition_follows(results@[i - 1].observed_transition, results@[i as int].observed_transition));
                return Err(f);
            },
        }
        assert forall|k: int| 1 <= k < i + 1 implies transition_follows(results@[k - 1].observed_transition, #[trigger] results@[k].observed_transition) by {
            if k < i {
            }
        }
        i = i + 1;
    }
    Ok(())
}

/// The message when the requested base height differs from the observed one.
pub open spec fn prev_height_mismatch_detail(expected: Option<Height>, observed: Option<Height>) -> Seq<char> {
    "base prev_height mismatch: expected="@ + opt_height_debug(expected) + " observed="@ + opt_height_debug(observed)
}

/// The message when the requested base state id differs from the observed one.
pub open spec fn prev_state_id_mismatch_detail(expected: Option<Seq<u8>>, observed: Option<Seq<u8>>) -> Seq<char> {
    "base prev_state_id mismatch: expected="@ + opt_bytes_debug(expected) + " observed="@ + opt_bytes_debug(observed)
}

/// Why a result's observed base differs from the base its request named,
/// as the message that reports it; `None` when they agree.
pub open spec fn base_state_mismatch(r: SpeculativeUpdateClientResult) -> Option<Seq<char>> {
    if r.base_state.prev_height is Some && r.base_state.prev_height != r.observed_transition.prev_height {
        Some(prev_height_mismatch_detail(r.base_state.prev_height, r.observed_transition.prev_height))
    } else if r.base_state.prev_state_id is Some
        && opt_vec_view(r.base_state.prev_state_id) != opt_vec_view(r.observed_transition.prev_state_id) {
        Some(prev_state_id_mismatch_detail(
            opt_vec_view(r.base_state.prev_state_id), opt_vec_view(r.observed_transition.prev_state_id)))
    } else {
        None
    }
}

impl SpeculativeUpdateClientResult {
    /// Where the request named a base height or base state id, the enclave
    /// must have observed the same one.
    pub fn validate_base_state(&self) -> (r: Result<(), EnclaveError>)
        ensures
            r is Ok <==> base_state_mismatch(*self) is None,
            r matches Err(e) ==> e is InvalidArgument && Some(e.descr()) == base_state_mismatch(*self),
            self.base_state.prev_height is Some && self.base_state.prev_height != self.observed_transition.prev_height
                ==> (r matches Err(EnclaveError::InvalidArgument { descr }) && descr@ == prev_height_mismatch_detail(
                    self.base_state.prev_height, self.observed_transition.prev_height)),
            !(self.base_state.prev_height is Some && self.base_state.prev_height != self.observed_transition.prev_height)
                && self.base_state.prev_state_id is Some
                && opt_vec_view(self.base_state.prev_state_id) != opt_vec_view(self.observed_transition.prev_state_id)
                ==> (r matches Err(EnclaveError::InvalidArgument { descr }) && descr@ == prev_state_id_mismatch_detail(
                    opt_vec_view(self.base_state.prev_state_id), opt_vec_view(self.observed_transition.prev_state_id))),
            !(self.base_state.prev_height is Some && self.base_state.prev_height != self.observed_transition.prev_height)
                && !(self.base_state.prev_state_id is Some
                && opt_vec_view(self.base_state.prev_state_id) != opt_vec_view(self.observed_transition.prev_state_id))
                ==> r is Ok,
    {
        let height_mismatch = match &self.base_state.prev_height {
            Some(h) => !opt_height_eq(&self.observed_transition.prev_height, h),
            None => false,
        };
        if height_mismatch {
            let mut descr = String::from_str("base prev_height mismatch: expected=");
            push_opt_height_debug(&mut descr, &self.base_state.prev_height);
            descr.append(" observed=");
            push_opt_height_debug(&mut descr, &self.observed_transition.prev_height);
            return Err(EnclaveError::InvalidArgument { descr });
        }
        let id_mismatch = match &self.base_state.prev_state_id {
            Some(expected) => match &self.observed_transition.prev_state_id {
                Some(observed) => !bytes_eq(expected.as_slice(), observed.as_slice()),
                None => true,
            },
            None => false,
        };
        if id_mismatch {
            let mut descr = String::from_str("base prev_state_id mismatch: expected=");
            push_opt_bytes_debug(&mut descr, &self.base_state.prev_state_id);
            descr.append(" observed=");
            push_opt_bytes_debug(&mut descr, &self.observed_transition.prev_state_id);
            return Err(EnclaveError::InvalidArgument { descr });
        }
        Ok(())
    }
}

} // verus!
