use lcp::any::Any;
use lcp::elc::{
    batch_failure_status, decode_update_client_stream_init, idle_timeout_status, scheduler_stopped_status,
    SchedulerStopPoint, SPECULATIVE_BATCH_STREAM_IDLE_TIMEOUT_SECS, MsgUpdateClientStreamChunk, UpdateClientChunk,
    UpdateClientHeaderChunk, UpdateClientStreamDecoder, UpdateClientStreamInit,
};
use lcp::height::Height;
use lcp::kv::{KVStore, WriteSet};
use lcp::memory::MemStore;
use lcp::speculative::permit::PermitGate;
use lcp::speculative::scheduler::{execution_failure, StreamingSchedulerState, WorkerStep};
use lcp::speculative::service::{
    base_state_payload_from_ref, decode_observed_transition, EnclaveSession, ProxyMessage, SpeculativeEnclave,
    SpeculativeService, SpeculativeUpdateClientInput, SpeculativeUpdateClientResponse, UpdateStateProxyMessage,
};
use lcp::speculative::stream::{
    decode_speculative_batch, validate_speculative_batch_stream_init, validate_speculative_unit_header_payload_len,
    BatchChunk, Code, DecodedSpeculativeBatchRequest, ProtoExplicitStateRef, ReserveDecision,
    ResidentSpeculativeUpdateClientRequest, SpeculativeBatchStreamDecoder, SpeculativeHeaderMemoryBudget,
    SpeculativeHeaderMemoryReservation, SpeculativeUpdateClientBatchEnd, SpeculativeUpdateClientBatchStreamInit,
    SpeculativeUpdateClientUnitEnd, SpeculativeUpdateClientUnitHeaderChunk, SpeculativeUpdateClientUnitInit,
    Status, MAX_SPECULATIVE_BATCH_HEADER_CHUNK_BYTES,
};
use lcp::speculative::types::{
    EnclaveError, ExplicitStateRef, MsgUpdateClient, MsgUpdateClientResponse, ObservedStateTransition,
    SpeculativeBatchFailureKind, SpeculativeUpdateClientBatch, SpeculativeUpdateClientBatchResult,
    SpeculativeUpdateClientRequest, SpeculativeUpdateClientResult, MAX_SPECULATIVE_BATCH_HEADER_BYTES,
    MAX_SPECULATIVE_BATCH_UNITS, MAX_SPECULATIVE_UNIT_HEADER_BYTES,
};
use lcp::speculative::validation::validate_linear_transitions;
use std::cell::RefCell;

fn make_unit(unit_id: usize, header_len: usize) -> SpeculativeUpdateClientRequest {
    SpeculativeUpdateClientRequest {
        unit_id: format!("unit-{unit_id:04}"),
        update: MsgUpdateClient {
            client_id: "client-0".to_string(),
            header: Some(Any { type_url: "/test.Header".to_string(), value: vec![0u8; header_len] }),
            include_state: false,
            signer: Vec::new(),
        },
        base_state: ExplicitStateRef { prev_height: None, prev_state_id: None, client_state: None, consensus_state: None },
    }
}

fn make_unit_init(unit_id: &str) -> SpeculativeUpdateClientUnitInit {
    SpeculativeUpdateClientUnitInit {
        unit_id: unit_id.to_string(),
        type_url: "/test.Header".to_string(),
        include_state: false,
        signer: Vec::new(),
        base_state: Some(ProtoExplicitStateRef {
            prev_height: None,
            prev_state_id: Vec::new(),
            client_state: None,
            consensus_state: None,
        }),
    }
}

fn decode_stream_chunks(chunks: impl IntoIterator<Item = BatchChunk>) -> Result<DecodedSpeculativeBatchRequest, Status> {
    let mut decoder = SpeculativeBatchStreamDecoder::new("client-0".to_string());
    let mut units = Vec::new();
    for chunk in chunks {
        if let Some(unit) = decoder.push_chunk(Some(chunk), SpeculativeHeaderMemoryReservation::empty())? {
            units.push(unit.request().clone());
        }
    }
    decoder.finish()?;
    Ok(DecodedSpeculativeBatchRequest { client_id: decoder.client_id().clone(), units })
}

fn assert_invalid_argument_contains(err: Status, expected_message: &str) {
    assert_eq!(err.code(), Code::InvalidArgument);
    assert!(err.message().contains(expected_message), "unexpected error message: {}", err.message());
}

fn assert_resource_exhausted_contains(err: Status, expected_message: &str) {
    assert_eq!(err.code(), Code::ResourceExhausted);
    assert!(err.message().contains(expected_message), "unexpected error message: {}", err.message());
}

fn header_chunk(unit_id: &str, data: Vec<u8>) -> BatchChunk {
    BatchChunk::UnitHeaderChunk(SpeculativeUpdateClientUnitHeaderChunk { unit_id: unit_id.to_string(), data })
}

fn unit_end(unit_id: &str) -> BatchChunk {
    BatchChunk::UnitEnd(SpeculativeUpdateClientUnitEnd { unit_id: unit_id.to_string() })
}

fn reserve(budget: &mut SpeculativeHeaderMemoryBudget, bytes: usize) -> Result<SpeculativeHeaderMemoryReservation, Status> {
    match budget.try_reserve(bytes) {
        ReserveDecision::Reserved(r) => Ok(r),
        ReserveDecision::TooLarge(s) => Err(s),
        ReserveDecision::MustWait => Err(budget.timeout_status(bytes)),
    }
}

#[test]
fn header_memory_reservation_is_held_by_decoded_unit_until_drop() {
    let mut budget = SpeculativeHeaderMemoryBudget::new(10);
    let mut decoder = SpeculativeBatchStreamDecoder::new("client-0".to_string());

    decoder
        .push_chunk(Some(BatchChunk::UnitInit(make_unit_init("unit-0000"))), SpeculativeHeaderMemoryReservation::empty())
        .expect("unit init");
    let header_memory = reserve(&mut budget, 3).expect("header memory");
    assert_eq!(budget.used_bytes(), 3);
    decoder.push_chunk(Some(header_chunk("unit-0000", b"abc".to_vec())), header_memory).expect("header chunk");
    assert_eq!(budget.used_bytes(), 3);

    let unit = decoder
        .push_chunk(Some(unit_end("unit-0000")), SpeculativeHeaderMemoryReservation::empty())
        .expect("unit end")
        .expect("decoded unit");
    assert_eq!(budget.used_bytes(), 3);
    let (_request, reservation) = unit.into_request_without_header_payload();
    assert_eq!(reservation.bytes(), 3);
    budget.release(reservation);
    assert_eq!(budget.used_bytes(), 0);
}

#[test]
fn header_memory_reservation_wait_times_out_instead_of_deadlocking() {
    let mut budget = SpeculativeHeaderMemoryBudget::new(10);
    let held = reserve(&mut budget, 8).expect("first reservation");

    let err = reserve(&mut budget, 8).expect_err("reservation exceeding the budget must time out");
    assert_resource_exhausted_contains(err, "timed out waiting for speculative header memory budget");

    budget.release(held);
    reserve(&mut budget, 8).expect("reservation after release");
}

#[test]
fn header_memory_budget_refuses_more_than_it_holds() {
    let mut budget = SpeculativeHeaderMemoryBudget::new(10);
    let err = reserve(&mut budget, 11).expect_err("larger than the whole budget");
    assert_resource_exhausted_contains(err, "speculative resident header payload too large: bytes=11 max=10");
    assert_eq!(budget.used_bytes(), 0);
}

#[test]
fn decode_speculative_batch_rejects_too_many_units() {
    let request = DecodedSpeculativeBatchRequest {
        client_id: "client-0".to_string(),
        units: (0..=MAX_SPECULATIVE_BATCH_UNITS).map(|i| make_unit(i, 1)).collect(),
    };
    let err = decode_speculative_batch(request).unwrap_err();
    assert!(err.message().contains("speculative batch too large"));
}

#[test]
fn validate_speculative_unit_header_payload_len_rejects_excessive_payload() {
    let err = validate_speculative_unit_header_payload_len("unit-0000", MAX_SPECULATIVE_UNIT_HEADER_BYTES + 1).unwrap_err();
    assert_resource_exhausted_contains(err, "speculative unit header payload too large");
}

#[test]
fn validate_speculative_batch_stream_init_rejects_empty_client_id() {
    let err = validate_speculative_batch_stream_init(SpeculativeUpdateClientBatchStreamInit { client_id: String::new() })
        .unwrap_err();
    assert_invalid_argument_contains(err, "requires client_id");
}

#[test]
fn decode_speculative_batch_stream_chunks_decodes_units() {
    let request = decode_stream_chunks([
        BatchChunk::UnitInit(make_unit_init("unit-0000")),
        header_chunk("unit-0000", b"abc".to_vec()),
        unit_end("unit-0000"),
        BatchChunk::BatchEnd(SpeculativeUpdateClientBatchEnd {}),
    ])
    .unwrap();

    assert_eq!(request.units.len(), 1);
    assert_eq!(request.units[0].unit_id, "unit-0000");
    assert_eq!(request.units[0].update.header.as_ref().unwrap().value, b"abc");
}

#[test]
fn decode_speculative_batch_stream_chunks_rejects_second_init() {
    let err = decode_stream_chunks([BatchChunk::Init(SpeculativeUpdateClientBatchStreamInit {
        client_id: "client-0".to_string(),
    })])
    .unwrap_err();
    assert_invalid_argument_contains(err, "Init must only appear");
}

#[test]
fn decode_speculative_batch_stream_chunks_rejects_nested_unit_init() {
    let err = decode_stream_chunks([
        BatchChunk::UnitInit(make_unit_init("unit-0000")),
        BatchChunk::UnitInit(make_unit_init("unit-0001")),
    ])
    .unwrap_err();
    assert_invalid_argument_contains(err, "unit_init received before previous unit_end");
}

#[test]
fn decode_speculative_batch_stream_chunks_rejects_header_chunk_before_unit_init() {
    let err = decode_stream_chunks([header_chunk("unit-0000", b"abc".to_vec())]).unwrap_err();
    assert_invalid_argument_contains(err, "unit_header_chunk received before unit_init");
}

#[test]
fn decode_speculative_batch_stream_chunks_rejects_chunk_unit_id_mismatch() {
    let err = decode_stream_chunks([
        BatchChunk::UnitInit(make_unit_init("unit-0000")),
        header_chunk("unit-0001", b"abc".to_vec()),
    ])
    .unwrap_err();
    assert_invalid_argument_contains(err, "unit_header_chunk unit_id mismatch");
}

#[test]
fn decode_speculative_batch_stream_chunks_rejects_end_unit_id_mismatch() {
    let err = decode_stream_chunks([
        BatchChunk::UnitInit(make_unit_init("unit-0000")),
        header_chunk("unit-0000", b"abc".to_vec()),
        unit_end("unit-0001"),
    ])
    .unwrap_err();
    assert_invalid_argument_contains(err, "unit_end unit_id mismatch");
}

#[test]
fn decode_speculative_batch_stream_chunks_rejects_oversized_chunk() {
    let err = decode_stream_chunks([
        BatchChunk::UnitInit(make_unit_init("unit-0000")),
        header_chunk("unit-0000", vec![0u8; MAX_SPECULATIVE_BATCH_HEADER_CHUNK_BYTES + 1]),
    ])
    .unwrap_err();
    assert_resource_exhausted_contains(err, "unit_header_chunk too large");
}

#[test]
fn decode_speculative_batch_stream_chunks_rejects_eof_with_open_unit() {
    let err = decode_stream_chunks([BatchChunk::UnitInit(make_unit_init("unit-0000"))]).unwrap_err();
    assert_invalid_argument_contains(err, "stream ended while chunked unit is open");
}

#[test]
fn decode_speculative_batch_stream_chunks_rejects_eof_without_batch_end() {
    let err = decode_stream_chunks([
        BatchChunk::UnitInit(make_unit_init("unit-0000")),
        header_chunk("unit-0000", b"abc".to_vec()),
        unit_end("unit-0000"),
    ])
    .unwrap_err();
    assert_invalid_argument_contains(err, "stream ended without batch_end");
}

#[test]
fn decode_speculative_batch_stream_chunks_rejects_empty_header() {
    let err = decode_stream_chunks([BatchChunk::UnitInit(make_unit_init("unit-0000")), unit_end("unit-0000")]).unwrap_err();
    assert_invalid_argument_contains(err, "speculative unit header is empty");
}

#[test]
fn decode_speculative_batch_stream_chunks_rejects_duplicate_unit_id() {
    let err = decode_stream_chunks([
        BatchChunk::UnitInit(make_unit_init("unit-0000")),
        header_chunk("unit-0000", b"abc".to_vec()),
        unit_end("unit-0000"),
        BatchChunk::UnitInit(make_unit_init("unit-0000")),
    ])
    .unwrap_err();
    assert_invalid_argument_contains(err, "duplicate speculative unit_id");
}

fn mk_req(unit_id: &str, client_id: &str, prev_height: Option<Height>, prev_state_id: Option<&[u8]>) -> SpeculativeUpdateClientRequest {
    SpeculativeUpdateClientRequest {
        unit_id: unit_id.to_string(),
        update: MsgUpdateClient {
            client_id: client_id.to_string(),
            header: Some(Any { type_url: "/ibc.mock.Header".to_string(), value: vec![1] }),
            ..Default::default()
        },
        base_state: ExplicitStateRef {
            prev_height,
            prev_state_id: prev_state_id.map(|v| v.to_vec()),
            client_state: None,
            consensus_state: None,
        },
    }
}

fn with_explicit_base_state_payload(mut req: SpeculativeUpdateClientRequest) -> SpeculativeUpdateClientRequest {
    req.base_state.client_state = Some(Any { type_url: "/ibc.mock.ClientState".to_string(), value: vec![1] });
    req.base_state.consensus_state = Some(Any { type_url: "/ibc.mock.ConsensusState".to_string(), value: vec![2] });
    req
}

fn mk_result(prev_height: Option<Height>, prev_state_id: Option<&[u8]>, post_height: Height, post_state_id: &[u8]) -> SpeculativeUpdateClientResult {
    SpeculativeUpdateClientResult {
        response: MsgUpdateClientResponse::default(),
        write_set: WriteSet::default(),
        base_state: ExplicitStateRef {
            prev_height,
            prev_state_id: prev_state_id.map(|v| v.to_vec()),
            client_state: None,
            consensus_state: None,
        },
        observed_transition: ObservedStateTransition {
            prev_height,
            prev_state_id: prev_state_id.map(|v| v.to_vec()),
            post_height,
            post_state_id: post_state_id.to_vec(),
        },
    }
}

#[test]
fn validates_linear_state_transitions() {
    let requests = vec![
        mk_req("unit-0000", "client", None, None),
        mk_req("unit-0001", "client", Some(Height::new(0, 11)), Some(b"post-0")),
    ];
    let results = vec![
        mk_result(None, None, Height::new(0, 11), b"post-0"),
        mk_result(Some(Height::new(0, 11)), Some(b"post-0"), Height::new(0, 12), b"post-1"),
    ];

    assert!(validate_linear_transitions(&requests, &results).is_ok());
}

#[test]
fn rejects_base_state_prev_height_mismatch_when_provided() {
    let mut result = mk_result(Some(Height::new(0, 11)), None, Height::new(0, 12), b"post-1");
    result.base_state.prev_height = Some(Height::new(0, 10));

    let err = result.validate_base_state().unwrap_err();
    assert!(err.message().contains("base prev_height mismatch"));
}

#[test]
fn rejects_linear_state_mismatch() {
    let requests = vec![
        mk_req("unit-0000", "client", None, None),
        mk_req("unit-0001", "client", Some(Height::new(0, 11)), Some(b"wrong")),
    ];
    let results = vec![
        mk_result(None, None, Height::new(0, 11), b"post-0"),
        mk_result(Some(Height::new(0, 11)), Some(b"wrong"), Height::new(0, 12), b"post-1"),
    ];

    let err = validate_linear_transitions(&requests, &results).unwrap_err();
    assert_eq!(err.kind, SpeculativeBatchFailureKind::DependencyStateMismatch);
    assert_eq!(err.unit_id.as_deref(), Some("unit-0001"));
}

#[test]
fn permit_gate_limits_concurrency() {
    let mut gate = PermitGate::new(2);
    let mut observed_max = 0usize;
    let mut in_flight = 0usize;
    let mut waiting = 0usize;
    for _ in 0..6 {
        if gate.try_acquire() {
            in_flight += 1;
            observed_max = observed_max.max(in_flight);
        } else {
            waiting += 1;
        }
    }
    while in_flight > 0 {
        gate.release();
        in_flight -= 1;
        while waiting > 0 && gate.try_acquire() {
            waiting -= 1;
            in_flight += 1;
            observed_max = observed_max.max(in_flight);
        }
    }
    assert_eq!(observed_max, 2);
    assert_eq!(gate.available(), 2);
    assert_eq!(PermitGate::new(0).capacity(), 1);
}

/// An enclave that answers every unit with a transition one height up and a
/// one-entry write set, and keeps applied writes in a memory store.
struct FakeEnclave {
    store: RefCell<MemStore>,
    fail_apply: bool,
}

impl FakeEnclave {
    fn new() -> Self {
        FakeEnclave { store: RefCell::new(MemStore::default()), fail_apply: false }
    }
}

impl SpeculativeEnclave for FakeEnclave {
    fn speculative_update_client(&self, input: SpeculativeUpdateClientInput) -> Result<SpeculativeUpdateClientResponse, EnclaveError> {
        let idx = input.update.header.as_ref().map(|h| h.value[0]).unwrap_or(0);
        let prev = input.base_state.prev_height;
        let mut write_set = WriteSet::default();
        write_set.insert(vec![idx], Some(vec![idx]));
        Ok(SpeculativeUpdateClientResponse {
            response: MsgUpdateClientResponse { message: vec![idx], signer: vec![], signature: vec![] },
            message: ProxyMessage::UpdateState(UpdateStateProxyMessage {
                prev_height: Some(prev),
                prev_state_id: Some(vec![idx]),
                post_height: prev.add(1).unwrap(),
                post_state_id: vec![idx + 1],
            }),
            write_set,
        })
    }

    fn apply_write_set_with_expected_base(
        &self,
        _client_id: String,
        _prev_height: Height,
        _client_state: &Any,
        _consensus_state: &Any,
        _prev_state_id: Option<Vec<u8>>,
        write_set: WriteSet,
    ) -> Result<(), EnclaveError> {
        if self.fail_apply {
            return Err(EnclaveError::Other { descr: "stored base state differs".to_string() });
        }
        let mut store = self.store.borrow_mut();
        for (k, v) in write_set.into_entries() {
            match v {
                Some(v) => store.set(k, v),
                None => store.remove(&k),
            }
        }
        Ok(())
    }
}

fn linear_unit(i: u8, client_id: &str) -> SpeculativeUpdateClientRequest {
    let mut req = with_explicit_base_state_payload(mk_req(
        &format!("unit-{:04}", i),
        client_id,
        Some(Height::new(0, 10 + i as u64)),
        Some(&[i]),
    ));
    req.update.header = Some(Any { type_url: "/ibc.mock.Header".to_string(), value: vec![i] });
    req
}

fn run_scheduler(service: &SpeculativeService, enclave: &FakeEnclave, state: &mut StreamingSchedulerState) {
    loop {
        match state.next_step() {
            WorkerStep::Run { index, unit } => {
                let outcome = service
                    .speculative_update_client(&mut EnclaveSession::new(enclave), unit.request().clone())
                    .map_err(|e| execution_failure(unit.request(), &e));
                let _ = state.finish_unit(index, unit, outcome);
            }
            WorkerStep::Wait | WorkerStep::Stop => break,
        }
    }
}

#[test]
fn streaming_speculative_batch_execution_does_not_apply_until_stitched() {
    let client_id = "07-tendermint-0";
    let enclave = FakeEnclave::new();
    let service = SpeculativeService::new(1);
    let mut state = StreamingSchedulerState::new(client_id.to_string());
    for i in 0..2u8 {
        state.enqueue(ResidentSpeculativeUpdateClientRequest::unmetered(linear_unit(i, client_id))).unwrap();
        run_scheduler(&service, &enclave, &mut state);
    }
    state.close(true);
    assert!(!state.has_unfinished_work());
    let executed = state.into_batch_result().expect("streaming speculative batch execution");
    assert_eq!(executed.requests.len(), 2);
    assert_eq!(enclave.store.borrow().get(&[0]), None, "execution alone must not apply speculative write set");

    let batch = SpeculativeUpdateClientBatch { client_id: client_id.to_string(), units: executed.requests };
    let stitched = service
        .stitch_speculative_update_client_batch(&mut EnclaveSession::new(&enclave), batch, executed.results)
        .expect("stitch executed stream");
    assert_eq!(stitched.units.len(), 2);
    assert_eq!(enclave.store.borrow().get(&[0]), Some(vec![0]), "stitch should apply speculative write set");
    assert_eq!(enclave.store.borrow().get(&[1]), Some(vec![1]));
}

#[test]
fn streaming_speculative_batch_rejects_channel_close_without_complete() {
    let client_id = "07-tendermint-0";
    let enclave = FakeEnclave::new();
    let service = SpeculativeService::new(1);
    let mut state = StreamingSchedulerState::new(client_id.to_string());
    state.enqueue(ResidentSpeculativeUpdateClientRequest::unmetered(linear_unit(0, client_id))).unwrap();
    run_scheduler(&service, &enclave, &mut state);
    state.close(false);
    let err = match state.into_batch_result() {
        Err(e) => e,
        Ok(_) => panic!("missing batch completion should fail"),
    };
    assert_eq!(err.kind, SpeculativeBatchFailureKind::BatchSizeMismatch);
    assert!(err.detail.contains("closed before batch_end"), "unexpected error detail: {}", err.detail);
    assert_eq!(enclave.store.borrow().get(&[0]), None, "truncated stream must not apply speculative write set");
}

#[test]
fn streaming_speculative_batch_rejects_incomplete_base_state() {
    let mut state = StreamingSchedulerState::new("07-tendermint-0".to_string());
    let err = state
        .enqueue(ResidentSpeculativeUpdateClientRequest::unmetered(mk_req("unit-0000", "07-tendermint-0", None, None)))
        .unwrap_err();
    assert_eq!(err.kind, SpeculativeBatchFailureKind::BaseStateMismatch);
    assert_eq!(err.unit_id.as_deref(), Some("unit-0000"));
    assert!(err.detail.contains("complete base_state payload"), "unexpected error detail: {}", err.detail);
}

#[test]
fn scheduler_keeps_input_order_when_units_finish_out_of_order() {
    let client_id = "c-1";
    let mut state = StreamingSchedulerState::new(client_id.to_string());
    for i in 0..3u8 {
        state.enqueue(ResidentSpeculativeUpdateClientRequest::unmetered(linear_unit(i, client_id))).unwrap();
    }
    let mut running = Vec::new();
    for _ in 0..3 {
        match state.next_step() {
            WorkerStep::Run { index, unit } => running.push((index, unit)),
            _ => panic!("a waiting unit must run"),
        }
    }
    assert_eq!(state.observed_max_in_flight(), 3);
    assert!(matches!(state.next_step(), WorkerStep::Wait));
    while let Some((index, unit)) = running.pop() {
        let h = Height::new(0, 10 + index as u64);
        let result = mk_result(Some(h), Some(&[index as u8]), h.add(1).unwrap(), &[index as u8 + 1]);
        let _ = state.finish_unit(index, unit, Ok(result));
    }
    state.close(true);
    assert!(matches!(state.next_step(), WorkerStep::Stop));
    let out = state.into_batch_result().unwrap();
    let ids: Vec<&str> = out.requests.iter().map(|r| r.unit_id.as_str()).collect();
    assert_eq!(ids, vec!["unit-0000", "unit-0001", "unit-0002"]);
    assert!(out.requests.iter().all(|r| r.update.header.as_ref().unwrap().value.is_empty()));
    assert_eq!(out.results.units[2].observed_transition.post_height, Height::new(0, 13));
}

#[test]
fn scheduler_keeps_first_failure() {
    let mut state = StreamingSchedulerState::new("c-1".to_string());
    state.enqueue(ResidentSpeculativeUpdateClientRequest::unmetered(linear_unit(0, "c-1"))).unwrap();
    let (index, unit) = match state.next_step() {
        WorkerStep::Run { index, unit } => (index, unit),
        _ => panic!("a waiting unit must run"),
    };
    let failure = execution_failure(unit.request(), &EnclaveError::Other { descr: "boom".to_string() });
    assert_eq!(failure.kind, SpeculativeBatchFailureKind::SpeculativeExecutionFailed);
    assert_eq!(
        failure.detail,
        "boom; header_bytes=1 header_sha256=6e340b9cffb37a989ca544e6bb780a2c78901d3fb33738768511a30617afa01d"
    );
    let _ = state.finish_unit(index, unit, Err(failure));
    state.close(false);
    assert!(matches!(state.next_step(), WorkerStep::Stop));
    let err = match state.into_batch_result() {
        Err(e) => e,
        Ok(_) => panic!("a failed unit fails the batch"),
    };
    assert_eq!(err.kind, SpeculativeBatchFailureKind::SpeculativeExecutionFailed);
    assert!(err.detail.starts_with("boom"));
}

#[test]
fn stitch_merges_writes_and_reports_apply_failure_on_first_unit() {
    let client_id = "c-1";
    let mut enclave = FakeEnclave::new();
    enclave.fail_apply = true;
    let service = SpeculativeService::new(2);
    let reqs: Vec<_> = (0..2u8).map(|i| linear_unit(i, client_id)).collect();
    let results: Vec<_> = reqs.iter().map(|r| service.speculative_update_client(&mut EnclaveSession::new(&enclave), r.clone()).unwrap()).collect();
    let batch = SpeculativeUpdateClientBatch { client_id: client_id.to_string(), units: reqs };
    let err = service
        .stitch_speculative_update_client_batch(
            &mut EnclaveSession::new(&enclave),
            batch,
            SpeculativeUpdateClientBatchResult { client_id: client_id.to_string(), units: results },
        )
        .unwrap_err();
    assert_eq!(err.kind, SpeculativeBatchFailureKind::BaseStateMismatch);
    assert_eq!(err.unit_id.as_deref(), Some("unit-0000"));
    assert_eq!(err.detail, "stored base state differs");
}

#[test]
fn stitch_rejects_mismatched_client_and_size() {
    let enclave = FakeEnclave::new();
    let service = SpeculativeService::new(1);
    let req = linear_unit(0, "c-1");
    let res = service.speculative_update_client(&mut EnclaveSession::new(&enclave), req.clone()).unwrap();
    let err = service
        .stitch_speculative_update_client_batch(
            &mut EnclaveSession::new(&enclave),
            SpeculativeUpdateClientBatch { client_id: "c-1".to_string(), units: vec![req.clone()] },
            SpeculativeUpdateClientBatchResult { client_id: "c-2".to_string(), units: vec![res] },
        )
        .unwrap_err();
    assert_eq!(err.kind, SpeculativeBatchFailureKind::ResultClientMismatch);
    assert_eq!(err.detail, "batch result client_id mismatch: expected=c-1 observed=c-2");

    let err = service
        .stitch_speculative_update_client_batch(
            &mut EnclaveSession::new(&enclave),
            SpeculativeUpdateClientBatch { client_id: "c-1".to_string(), units: vec![req] },
            SpeculativeUpdateClientBatchResult { client_id: "c-1".to_string(), units: vec![] },
        )
        .unwrap_err();
    assert_eq!(err.kind, SpeculativeBatchFailureKind::BatchSizeMismatch);
    assert_eq!(err.detail, "batch size mismatch: requests=1 results=0");
    assert_eq!(enclave.store.borrow().get(&[0]), None);
}

#[test]
fn speculative_service_limits_and_base_state() {
    let service = SpeculativeService::new(0);
    assert_eq!(service.speculative_concurrency_limit(), 1);
    assert_eq!(service.speculative_request_permits().capacity(), 1);
    assert_eq!(SpeculativeService::new(4).speculative_concurrency_limit(), 4);
    assert_eq!(service.header_memory_budget().used_bytes(), 0);
    let _ = MAX_SPECULATIVE_BATCH_HEADER_BYTES;

    let base = ExplicitStateRef { prev_height: Some(Height::new(0, 1)), prev_state_id: None, client_state: None, consensus_state: None };
    let err = base_state_payload_from_ref(&base).err().unwrap();
    assert_eq!(err.message(), "speculative base_state client_state must be provided");
    let enclave = FakeEnclave::new();
    let err = service.speculative_update_client(&mut EnclaveSession::new(&enclave), mk_req("u", "c", None, None)).unwrap_err();
    assert_eq!(err.message(), "speculative base_state prev_height must be provided");

    let err = decode_observed_transition(&ProxyMessage::Misbehaviour).unwrap_err();
    assert_eq!(err.message(), "expected UpdateState proxy message, got Misbehaviour");
}

#[test]
fn update_client_stream_collects_header_chunks() {
    let init = UpdateClientStreamInit {
        client_id: "c-1".to_string(),
        include_state: true,
        signer: vec![9],
        type_url: "/h".to_string(),
    };
    let first = MsgUpdateClientStreamChunk { chunk: Some(UpdateClientChunk::Init(init)) };
    let init = decode_update_client_stream_init(Some(first)).unwrap();
    let mut decoder = UpdateClientStreamDecoder::new(init);
    decoder.push_chunk(Some(UpdateClientChunk::HeaderChunk(UpdateClientHeaderChunk { data: vec![1, 2] }))).unwrap();
    decoder.push_chunk(Some(UpdateClientChunk::HeaderChunk(UpdateClientHeaderChunk { data: vec![3] }))).unwrap();
    let err = decoder.push_chunk(None).unwrap_err();
    assert_eq!(err.message(), "received empty chunk message");
    let msg = decoder.finish().unwrap();
    assert_eq!(msg.client_id, "c-1");
    assert!(msg.include_state);
    assert_eq!(msg.header.unwrap().value, vec![1, 2, 3]);

    let err = decode_update_client_stream_init(None).unwrap_err();
    assert_eq!(err.message(), "expected Init message as the first message");
    let empty = UpdateClientStreamDecoder::new(UpdateClientStreamInit::default());
    assert_eq!(empty.finish().unwrap_err().message(), "no header data received");
}

#[test]
fn failed_batch_is_answered_as_aborted() {
    let mut state = StreamingSchedulerState::new("c".to_string());
    state.close(false);
    let err = state.into_batch_result().err().unwrap();
    let status = batch_failure_status(&err);
    assert_eq!(status.code(), Code::Aborted);
    assert_eq!(status.message(), "BatchSizeMismatch: speculative batch input stream closed before batch_end");
}

#[test]
fn with_permit_runs_under_a_permit_and_gives_it_back() {
    let mut gate = PermitGate::new(1);
    let seen = gate.with_permit(|| 41 + 1);
    assert_eq!(seen, Some(42));
    assert_eq!(gate.available(), 1);
    assert!(gate.try_acquire());
    let mut ran = false;
    assert_eq!(gate.with_permit(|| { ran = true; 0 }), None);
    assert!(!ran);
    gate.release();
    assert_eq!(gate.available(), 1);
}

#[test]
fn speculative_service_runs_requests_under_its_permits() {
    let mut service = SpeculativeService::new(1);
    let r: Option<Result<u32, EnclaveError>> = service.with_speculative_request_permit(|| Ok(7));
    assert!(matches!(r, Some(Ok(7))));
    assert_eq!(service.speculative_request_permits().available(), 1);
}

#[test]
fn closing_a_unit_does_not_end_the_batch() {
    let mut decoder = SpeculativeBatchStreamDecoder::new("client-0".to_string());
    let empty = SpeculativeHeaderMemoryReservation::empty;
    assert!(decoder.push_chunk(Some(BatchChunk::UnitInit(make_unit_init("unit-0000"))), empty()).unwrap().is_none());
    assert!(decoder.push_chunk(Some(header_chunk("unit-0000", b"abc".to_vec())), empty()).unwrap().is_none());
    assert!(decoder.push_chunk(Some(unit_end("unit-0000")), empty()).unwrap().is_some());
    assert_invalid_argument_contains(decoder.finish().unwrap_err(), "stream ended without batch_end");
}

#[test]
fn refused_unit_end_keeps_seen_ids() {
    let mut decoder = SpeculativeBatchStreamDecoder::new("client-0".to_string());
    let empty = SpeculativeHeaderMemoryReservation::empty;
    decoder.push_chunk(Some(BatchChunk::UnitInit(make_unit_init("unit-0000"))), empty()).unwrap();
    assert_invalid_argument_contains(
        decoder.push_chunk(Some(unit_end("unit-0000")), empty()).unwrap_err(),
        "speculative unit header is empty",
    );
    decoder.push_chunk(Some(BatchChunk::UnitInit(make_unit_init("unit-0000"))), empty()).unwrap();
    decoder.push_chunk(Some(header_chunk("unit-0000", vec![1])), empty()).unwrap();
    assert!(decoder.push_chunk(Some(unit_end("unit-0000")), empty()).unwrap().is_some());
}

#[test]
fn stream_stop_statuses() {
    let s = idle_timeout_status(SPECULATIVE_BATCH_STREAM_IDLE_TIMEOUT_SECS);
    assert_eq!(s.code(), Code::DeadlineExceeded);
    assert_eq!(s.message(), "speculative update client batch stream idle timeout after 60 seconds");
    let s = scheduler_stopped_status(SchedulerStopPoint::BeforeStreamEnd, None);
    assert_eq!(s.code(), Code::Aborted);
    assert_eq!(s.message(), "speculative batch scheduler stopped before stream ended");
    let s = scheduler_stopped_status(SchedulerStopPoint::BeforeBatchEnd, None);
    assert_eq!(s.message(), "speculative batch scheduler stopped before batch_end");
    let f = lcp::speculative::types::SpeculativeBatchFailure {
        kind: SpeculativeBatchFailureKind::SpeculativeExecutionFailed,
        unit_id: Some("unit-0".to_string()),
        detail: "boom".to_string(),
    };
    let s = scheduler_stopped_status(SchedulerStopPoint::BeforeBatchEnd, Some(&f));
    assert_eq!(s.message(), batch_failure_status(&f).message());
}

#[test]
fn refused_stitch_leaves_the_store_untouched_and_accepted_stitch_applies_merged_writes() {
    let client_id = "c-1";
    let enclave = FakeEnclave::new();
    let service = SpeculativeService::new(1);
    let reqs: Vec<_> = (0..2u8).map(|i| linear_unit(i, client_id)).collect();
    let results: Vec<_> = reqs
        .iter()
        .map(|r| service.speculative_update_client(&mut EnclaveSession::new(&enclave), r.clone()).unwrap())
        .collect();
    assert_eq!(enclave.store.borrow().get(&[0]), None);
    let refused = service.stitch_speculative_update_client_batch(
        &mut EnclaveSession::new(&enclave),
        SpeculativeUpdateClientBatch { client_id: client_id.to_string(), units: vec![] },
        SpeculativeUpdateClientBatchResult { client_id: client_id.to_string(), units: vec![] },
    );
    let err = refused.unwrap_err();
    assert_eq!(err.kind, SpeculativeBatchFailureKind::BatchSizeMismatch);
    assert_eq!(err.detail, "speculative batch must contain at least one unit");
    assert_eq!(enclave.store.borrow().get(&[0]), None);
    let stitched = service
        .stitch_speculative_update_client_batch(
            &mut EnclaveSession::new(&enclave),
            SpeculativeUpdateClientBatch { client_id: client_id.to_string(), units: reqs },
            SpeculativeUpdateClientBatchResult { client_id: client_id.to_string(), units: results },
        )
        .unwrap();
    assert_eq!(stitched.units.len(), 2);
    assert_eq!(enclave.store.borrow().get(&[0]), Some(vec![0]));
    assert_eq!(enclave.store.borrow().get(&[1]), Some(vec![1]));
}
