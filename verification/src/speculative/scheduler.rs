use vstd::prelude::*;
use vstd::string::*;
use crate::decimal::{dec_digits, push_decimal};
use crate::digest::{hex_lower, sha256, sha256_hex};
use crate::speculative::stream::{header_emptied, ResidentSpeculativeUpdateClientRequest, SpeculativeHeaderMemoryReservation};
use crate::speculative::types::{
    EnclaveError, SpeculativeBatchFailure, SpeculativeBatchFailureKind, SpeculativeUpdateClientBatchResult,
    SpeculativeUpdateClientRequest, SpeculativeUpdateClientResult, UnitIdSet, opt_string_view,
    MAX_SPECULATIVE_BATCH_UNITS,
};
use crate::speculative::validation::{request_fault, request_fault_detail, seen_after, validate_next_linear_request};

verus! {

broadcast use vstd::string::group_string_axioms;

/// The requests of a streamed batch in input order, with their results.
#[derive(Debug)]
pub struct StreamingSpeculativeBatchResult {
    pub requests: Vec<SpeculativeUpdateClientRequest>,
    pub results: SpeculativeUpdateClientBatchResult,
}

/// What a worker is to do next.
pub enum WorkerStep {
    /// Execute the unit at this stream index.
    Run { index: usize, unit: ResidentSpeculativeUpdateClientRequest },
    /// Nothing to run yet; wait for more input or for running units.
    Wait,
    /// The batch has failed, or all input has arrived and nothing runs.
    Stop,
}

/// The length of a request's header payload, when it has a header.
pub fn speculative_request_header_len(req: &SpeculativeUpdateClientRequest) -> (r: Option<usize>)
    ensures
        req.update.header matches Some(h) ==> r == Some(h.value@.len() as usize),
        req.update.header is None ==> r is None,
{
    match &req.update.header {
        Some(h) => Some(h.value.len()),
        None => None,
    }
}

/// The length of a request's header payload and its SHA-256 digest in
/// hexadecimal, when it has a header.
pub fn speculative_request_header_digest(req: &SpeculativeUpdateClientRequest) -> (r: Option<(usize, String)>)
    ensures
        req.update.header matches Some(h) ==> (r matches Some(p) && p.0 == h.value@.len()
            && p.1@ == hex_lower(sha256(h.value@))),
        req.update.header is None ==> r is None,
{
    match &req.update.header {
        Some(h) => Some((h.value.len(), sha256_hex(h.value.as_slice()))),
        None => None,
    }
}

/// The message of a unit whose execution failed: the enclave's message,
/// followed by the header's size and digest when the unit has a header.
pub open spec fn execution_failure_detail(req: SpeculativeUpdateClientRequest, e: EnclaveError) -> Seq<char> {
    match req.update.header {
        Some(h) => e.descr() + "; header_bytes="@ + dec_digits(h.value@.len()) + " header_sha256="@
            + hex_lower(sha256(h.value@)),
        None => e.descr(),
    }
}

/// The failure reported for a unit the enclave could not execute.
pub fn execution_failure(req: &SpeculativeUpdateClientRequest, e: &EnclaveError) -> (f: SpeculativeBatchFailure)
    ensures
        f.kind == SpeculativeBatchFailureKind::SpeculativeExecutionFailed,
        opt_string_view(f.unit_id) == Some(req.unit_id@),
        f.detail@ == execution_failure_detail(*req, *e),
{
    let detail = match speculative_request_header_digest(req) {
        Some((header_bytes, header_sha256)) => {
            let mut d = e.message().clone();
            d.append("; header_bytes=");
            push_decimal(&mut d, header_bytes as u64);
            d.append(" header_sha256=");
            d.append(header_sha256.as_str());
            d
        },
        None => e.message().clone(),
    };
    SpeculativeBatchFailure {
        kind: SpeculativeBatchFailureKind::SpeculativeExecutionFailed,
        unit_id: Some(req.unit_id.clone()),
        detail,
    }
}

/// The state of one streamed batch while its units execute. Units get
/// stream indexes in arrival order and are admitted as in a linear batch;
/// finished units are kept by index, so the batch comes out in input order
/// whatever order they finish in. The first failure is kept and stops the
/// batch.
pub struct StreamingSchedulerState {
    client_id: String,
    ready: Vec<(usize, ResidentSpeculativeUpdateClientRequest)>,
    request_by_index: Vec<Option<SpeculativeUpdateClientRequest>>,
    result_by_index: Vec<Option<SpeculativeUpdateClientResult>>,
    seen_unit_ids: UnitIdSet,
    unit_count: usize,
    in_flight: usize,
    observed_max_in_flight: usize,
    closed: bool,
    failure: Option<SpeculativeBatchFailure>,
}

/// A unit waiting to run, by index and request.
pub open spec fn ready_view(r: Seq<(usize, ResidentSpeculativeUpdateClientRequest)>) -> Seq<(usize, SpeculativeUpdateClientRequest)> {
    r.map_values(|e: (usize, ResidentSpeculativeUpdateClientRequest)| (e.0, e.1.spec_request()))
}

/// The message when the input ends without the batch's end marker.
pub open spec fn input_closed_detail() -> Seq<char> {
    "speculative batch input stream closed before batch_end"@
}

impl StreamingSchedulerState {
    pub closed spec fn spec_client_id(&self) -> Seq<char> {
        self.client_id@
    }

    pub closed spec fn spec_ready(&self) -> Seq<(usize, SpeculativeUpdateClientRequest)> {
        ready_view(self.ready@)
    }

    /// The request and result of each stream index; `None` where the unit
    /// has not finished.
    pub closed spec fn spec_completed(&self, i: int) -> Option<(SpeculativeUpdateClientRequest, SpeculativeUpdateClientResult)> {
        match (self.request_by_index@[i], self.result_by_index@[i]) {
            (Some(q), Some(r)) => Some((q, r)),
            _ => None,
        }
    }

    pub closed spec fn spec_seen(&self) -> Set<Seq<char>> {
        self.seen_unit_ids.set()
    }

    pub closed spec fn spec_unit_count(&self) -> nat {
        self.unit_count as nat
    }

    pub closed spec fn spec_in_flight(&self) -> nat {
        self.in_flight as nat
    }

    pub closed spec fn spec_max_in_flight(&self) -> nat {
        self.observed_max_in_flight as nat
    }

    pub closed spec fn spec_closed(&self) -> bool {
        self.closed
    }

    pub closed spec fn spec_failure(&self) -> Option<SpeculativeBatchFailure> {
        self.failure
    }

    /// Every index below the unit count has a slot; units waiting or running
    /// are counted among the admitted ones; no more than the largest batch.
    pub closed spec fn wf(&self) -> bool {
        &&& self.seen_unit_ids.wf()
        &&& self.request_by_index@.len() == self.unit_count
        &&& self.result_by_index@.len() == self.unit_count
        &&& self.unit_count <= MAX_SPECULATIVE_BATCH_UNITS
        &&& self.in_flight + self.ready@.len() <= self.unit_count
        &&& self.in_flight <= self.observed_max_in_flight <= MAX_SPECULATIVE_BATCH_UNITS
        &&& forall|j: int| 0 <= j < self.ready@.len() ==> (#[trigger] self.ready@[j]).0 < self.unit_count
    }

    pub fn new(client_id: String) -> (r: Self)
        ensures
            r.wf(),
            r.spec_client_id() == client_id@,
            r.spec_ready().len() == 0,
            r.spec_seen() == Set::<Seq<char>>::empty(),
            r.spec_unit_count() == 0,
            r.spec_in_flight() == 0,
            r.spec_max_in_flight() == 0,
            !r.spec_closed(),
            r.spec_failure() is None,
    {
        let r = StreamingSchedulerState {
            client_id,
            ready: Vec::new(),
            request_by_index: Vec::new(),
            result_by_index: Vec::new(),
            seen_unit_ids: UnitIdSet::new(),
            unit_count: 0,
            in_flight: 0,
            observed_max_in_flight: 0,
            closed: false,
            failure: None,
        };
        assert(r.spec_ready() =~= Seq::<(usize, SpeculativeUpdateClientRequest)>::empty());
        r
    }

    /// Units are waiting or running.
    pub fn has_unfinished_work(&self) -> (r: bool)
        ensures
            r == (self.spec_in_flight() > 0 || self.spec_ready().len() > 0),
    {
        self.in_flight > 0 || self.ready.len() > 0
    }

    pub fn observed_max_in_flight(&self) -> (r: usize)
        ensures
            r == self.spec_max_in_flight(),
    {
        self.observed_max_in_flight
    }

    pub fn is_closed(&self) -> (r: bool)
        ensures
            r == self.spec_closed(),
    {
        self.closed
    }

    pub fn failure(&self) -> (r: &Option<SpeculativeBatchFailure>)
        ensures
            *r == self.spec_failure(),
    {
        &self.failure
    }

    /// Admits the next unit of the stream under the next index, as a linear
    /// batch admits it; an admitted unit waits to run.
    pub fn enqueue(&mut self, req: ResidentSpeculativeUpdateClientRequest) -> (r: Result<(), SpeculativeBatchFailure>)
        requires
            old(self).wf(),
        ensures
            final(self).wf(),
            final(self).spec_client_id() == old(self).spec_client_id(),
            final(self).spec_in_flight() == old(self).spec_in_flight(),
            final(self).spec_max_in_flight() == old(self).spec_max_in_flight(),
            final(self).spec_closed() == old(self).spec_closed(),
            final(self).spec_failure() == old(self).spec_failure(),
            final(self).spec_seen() == seen_after(
                old(self).spec_client_id(), old(self).spec_unit_count() as int, old(self).spec_seen(), req.spec_request()),
            match request_fault(old(self).spec_client_id(), old(self).spec_unit_count() as int, old(self).spec_seen(),
                req.spec_request()) {
                None => r is Ok && final(self).spec_unit_count() == old(self).spec_unit_count() + 1
                    && final(self).spec_ready() == old(self).spec_ready().push(
                        (old(self).spec_unit_count() as usize, req.spec_request()))
                    && (forall|i: int| 0 <= i < old(self).spec_unit_count() ==>
                        #[trigger] final(self).spec_completed(i) == old(self).spec_completed(i))
                    && final(self).spec_completed(old(self).spec_unit_count() as int) is None,
                Some(k) => r matches Err(f) && f.kind == k && opt_string_view(f.unit_id) == Some(req.spec_request().unit_id@)
                    && f.detail@ == request_fault_detail(old(self).spec_client_id(), old(self).spec_unit_count() as int,
                        old(self).spec_seen(), req.spec_request())
                    && final(self).spec_unit_count() == old(self).spec_unit_count()
                    && final(self).spec_ready() == old(self).spec_ready()
                    && forall|i: int| 0 <= i < old(self).spec_unit_count() ==>
                        #[trigger] final(self).spec_completed(i) == old(self).spec_completed(i),
            },
    {
        let index = self.unit_count;
        validate_next_linear_request(self.client_id.as_str(), index, &mut self.seen_unit_ids, req.request())?;
        self.unit_count = self.unit_count + 1;
        self.request_by_index.push(None);
        self.result_by_index.push(None);
        let ghost old_ready = self.ready@;
        self.ready.push((index, req));
        proof {
            assert(ready_view(self.ready@) =~= ready_view(old_ready).push((index, req.spec_request())));
            assert forall|j: int| 0 <= j < self.ready@.len() implies (#[trigger] self.ready@[j]).0 < self.unit_count by {
                if j < old_ready.len() {
                    assert(self.ready@[j] == old_ready[j]);
                }
            }
        }
        Ok(())
    }

    /// Decides what a free worker does: nothing more once the batch has
    /// failed; otherwise the earliest waiting unit, which then counts as
    /// running; when none waits, stop if all input has arrived and nothing
    /// runs, else wait.
    pub fn next_step(&mut self) -> (r: WorkerStep)
        requires
            old(self).wf(),
        ensures
            final(self).wf(),
            final(self).spec_client_id() == old(self).spec_client_id(),
            final(self).spec_unit_count() == old(self).spec_unit_count(),
            final(self).spec_closed() == old(self).spec_closed(),
            final(self).spec_failure() == old(self).spec_failure(),
            final(self).spec_seen() == old(self).spec_seen(),
            forall|i: int| 0 <= i < old(self).spec_unit_count() ==>
                #[trigger] final(self).spec_completed(i) == old(self).spec_completed(i),
            old(self).spec_failure() is Some ==> r is Stop && *final(self) == *old(self),
            old(self).spec_failure() is None && old(self).spec_ready().len() > 0 ==> (r matches WorkerStep::Run { index, unit } && {
                &&& (index, unit.spec_request()) == old(self).spec_ready()[0]
                &&& final(self).spec_ready() == old(self).spec_ready().drop_first()
                &&& final(self).spec_in_flight() == old(self).spec_in_flight() + 1
                &&& final(self).spec_max_in_flight() == if old(self).spec_max_in_flight() < old(self).spec_in_flight() + 1 {
                    old(self).spec_in_flight() + 1
                } else {
                    old(self).spec_max_in_flight()
                }
            }),
            old(self).spec_failure() is None && old(self).spec_ready().len() == 0 ==> *final(self) == *old(self) && (
                if old(self).spec_closed() && old(self).spec_in_flight() == 0 { r is Stop } else { r is Wait }),
    {
        if self.failure.is_some() {
            return WorkerStep::Stop;
        }
        if self.ready.len() > 0 {
            let ghost old_ready = self.ready@;
            let (index, unit) = self.ready.remove(0);
            proof {
                assert(ready_view(self.ready@) =~= ready_view(old_ready).drop_first());
                assert forall|j: int| 0 <= j < self.ready@.len() implies (#[trigger] self.ready@[j]).0 < self.unit_count by {
                    assert(self.ready@[j] == old_ready[j + 1]);
                }
                assert(old_ready[0].0 < self.unit_count);
            }
            self.in_flight = self.in_flight + 1;
            if self.observed_max_in_flight < self.in_flight {
                self.observed_max_in_flight = self.in_flight;
            }
            return WorkerStep::Run { index, unit };
        }
        if self.closed && self.in_flight == 0 {
            WorkerStep::Stop
        } else {
            WorkerStep::Wait
        }
    }

    /// Records the outcome of a unit that was running: a result is kept
    /// under the unit's index, with the request stripped of its header; a
    /// failure is kept unless an earlier one was. The unit's header memory
    /// is handed back to the caller to release.
    pub fn finish_unit(
        &mut self,
        index: usize,
        unit: ResidentSpeculativeUpdateClientRequest,
        outcome: Result<SpeculativeUpdateClientResult, SpeculativeBatchFailure>,
    ) -> (reservation: SpeculativeHeaderMemoryReservation)
        requires
            old(self).wf(),
            old(self).spec_in_flight() > 0,
            index < old(self).spec_unit_count(),
        ensures
            final(self).wf(),
            reservation.spec_bytes() == unit.spec_reserved(),
            final(self).spec_client_id() == old(self).spec_client_id(),
            final(self).spec_unit_count() == old(self).spec_unit_count(),
            final(self).spec_ready() == old(self).spec_ready(),
            final(self).spec_in_flight() == old(self).spec_in_flight() - 1,
            final(self).spec_max_in_flight() == old(self).spec_max_in_flight(),
            final(self).spec_closed() == old(self).spec_closed(),
            final(self).spec_seen() == old(self).spec_seen(),
            forall|i: int| 0 <= i < old(self).spec_unit_count() && i != index ==>
                #[trigger] final(self).spec_completed(i) == old(self).spec_completed(i),
            outcome matches Ok(res) ==> (final(self).spec_failure() == old(self).spec_failure()
                && (final(self).spec_completed(index as int) matches Some(c) && c.1 == res
                && header_emptied(c.0, unit.spec_request()))),
            outcome matches Err(e) ==> (final(self).spec_completed(index as int) == old(self).spec_completed(index as int)
                && final(self).spec_failure() == if old(self).spec_failure() is None { Some(e) } else { old(self).spec_failure() }),
    {
        self.in_flight = self.in_flight - 1;
        let (request, reservation) = unit.into_request_without_header_payload();
        match outcome {
            Ok(result) => {
                self.request_by_index.set(index, Some(request));
                self.result_by_index.set(index, Some(result));
            },
            Err(e) => {
                if self.failure.is_none() {
                    self.failure = Some(e);
                }
            },
        }
        reservation
    }

    /// Records a failure unless an earlier one was.
    pub fn fail(&mut self, failure: SpeculativeBatchFailure)
        requires
            old(self).wf(),
        ensures
            final(self).wf(),
            final(self).spec_failure() == if old(self).spec_failure() is None { Some(failure) } else { old(self).spec_failure() },
            final(self).spec_client_id() == old(self).spec_client_id(),
            final(self).spec_unit_count() == old(self).spec_unit_count(),
            final(self).spec_ready() == old(self).spec_ready(),
            final(self).spec_in_flight() == old(self).spec_in_flight(),
            final(self).spec_closed() == old(self).spec_closed(),
            forall|i: int| 0 <= i < old(self).spec_unit_count() ==>
                #[trigger] final(self).spec_completed(i) == old(self).spec_completed(i),
    {
        if self.failure.is_none() {
            self.failure = Some(failure);
        }
    }

    /// Marks the input as finished. Input that ended without the batch's end
    /// marker fails the batch, unless it had already failed.
    pub fn close(&mut self, input_completed: bool)
        requires
            old(self).wf(),
        ensures
            final(self).wf(),
            final(self).spec_closed(),
            input_completed ==> final(self).spec_failure() == old(self).spec_failure(),
            !input_completed && old(self).spec_failure() is Some ==> final(self).spec_failure() == old(self).spec_failure(),
            !input_completed && old(self).spec_failure() is None ==> (final(self).spec_failure() matches Some(f)
                && f.kind == SpeculativeBatchFailureKind::BatchSizeMismatch && f.unit_id is None
                && f.detail@ == input_closed_detail()),
            final(self).spec_client_id() == old(self).spec_client_id(),
            final(self).spec_unit_count() == old(self).spec_unit_count(),
            final(self).spec_ready() == old(self).spec_ready(),
            final(self).spec_in_flight() == old(self).spec_in_flight(),
            forall|i: int| 0 <= i < old(self).spec_unit_count() ==>
                #[trigger] final(self).spec_completed(i) == old(self).spec_completed(i),
    {
        if !input_completed && self.failure.is_none() {
            self.failure = Some(SpeculativeBatchFailure {
                kind: SpeculativeBatchFailureKind::BatchSizeMismatch,
                unit_id: None,
                detail: String::from_str("speculative batch input stream closed before batch_end"),
            });
        }
        self.closed = true;
    }

    /// The batch in input order once every unit has run: the kept failure if
    /// there is one; otherwise each index's request and result, and an error
    /// for the first index that has none.
    pub fn into_batch_result(self) -> (r: Result<StreamingSpeculativeBatchResult, SpeculativeBatchFailure>)
        requires
            self.wf(),
        ensures
            self.spec_failure() matches Some(f) ==> r == Err::<StreamingSpeculativeBatchResult, _>(f),
            r is Ok <==> self.spec_failure() is None
                && forall|i: int| 0 <= i < self.spec_unit_count() ==> (#[trigger] self.spec_completed(i)) is Some,
            r matches Ok(b) ==> {
                &&& b.results.client_id@ == self.spec_client_id()
                &&& b.requests@.len() == self.spec_unit_count()
                &&& b.results.units@.len() == self.spec_unit_count()
                &&& forall|i: int| 0 <= i < self.spec_unit_count() ==>
                    (#[trigger] self.spec_completed(i)) == Some((b.requests@[i], b.results.units@[i]))
            },
            self.spec_failure() is None ==> (r matches Err(f) ==> f.kind == SpeculativeBatchFailureKind::BatchSizeMismatch),
    {
        let StreamingSchedulerState {
            client_id,
            ready: _,
            request_by_index,
            result_by_index,
            seen_unit_ids: _,
            unit_count,
            in_flight: _,
            observed_max_in_flight: _,
            closed: _,
            failure,
        } = self;
        if let Some(f) = failure {
            return Err(f);
        }
        let ghost qs = request_by_index@;
        let ghost rs = result_by_index@;
        let mut requests: Vec<SpeculativeUpdateClientRequest> = Vec::new();
        for slot in it: request_by_index
            invariant
                it.seq() == qs,
                qs.len() == unit_count,
                qs == self.request_by_index@,
                rs == self.result_by_index@,
                unit_count == self.unit_count,
                self.failure is None,
                self.wf(),
                requests@.len() == it.index(),
                forall|j: int| 0 <= j < it.index() ==> qs[j] == Some(#[trigger] requests@[j]),
        {
            match slot {
                Some(q) => requests.push(q),
                None => {
                    assert(self.spec_completed(it.index() as int) is None);
                    let mut detail = String::from_str("unit index ");
                    push_decimal(&mut detail, requests.len() as u64);
                    detail.append(" missing from executed requests");
                    return Err(SpeculativeBatchFailure {
                        kind: SpeculativeBatchFailureKind::BatchSizeMismatch,
                        unit_id: None,
                        detail,
                    });
                },
            }
        }
        let mut units: Vec<SpeculativeUpdateClientResult> = Vec::new();
        for slot in it: result_by_index
            invariant
                it.seq() == rs,
                rs.len() == unit_count,
                qs == self.request_by_index@,
                rs == self.result_by_index@,
                unit_count == self.unit_count,
                self.failure is None,
                self.wf(),
                requests@.len() == unit_count,
                forall|j: int| 0 <= j < unit_count ==> qs[j] == Some(#[trigger] requests@[j]),
                units@.len() == it.index(),
                forall|j: int| 0 <= j < it.index() ==> rs[j] == Some(#[trigger] units@[j]),
        {
            match slot {
                Some(u) => units.push(u),
                None => {
                    let index = units.len();
                    assert(self.spec_completed(index as int) is None);
                    let mut detail = String::from_str("unit index ");
                    push_decimal(&mut detail, index as u64);
                    detail.append(" missing from execution results");
                    return Err(SpeculativeBatchFailure {
                        kind: SpeculativeBatchFailureKind::BatchSizeMismatch,
                        unit_id: Some(requests[index].unit_id.clone()),
                        detail,
                    });
                },
            }
        }
        assert forall|i: int| 0 <= i < self.spec_unit_count() implies
            (#[trigger] self.spec_completed(i)) == Some((requests@[i], units@[i])) by {
            assert(qs[i] == Some(requests@[i]));
            assert(rs[i] == Some(units@[i]));
        }
        Ok(StreamingSpeculativeBatchResult {
            requests,
            results: SpeculativeUpdateClientBatchResult { client_id, units },
        })
    }
}

} // verus!
