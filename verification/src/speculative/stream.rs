use vstd::prelude::*;
use vstd::string::*;
use crate::any::{Any, duplicate_opt_any, opt_any_view};
use crate::client_id::str_eq;
use crate::decimal::{dec_digits, push_decimal};
use crate::height::{Height, RawHeight};
use crate::speculative::types::{
    ExplicitStateRef, MsgUpdateClient, MsgUpdateClientResponse, ObservedStateTransition,
    SpeculativeUpdateClientBatch, SpeculativeUpdateClientRequest, StitchedUpdateClientBatchResult,
    StitchedUpdateClientResult, UnitIdSet, opt_vec_view, MAX_SPECULATIVE_BATCH_UNITS,
    MAX_SPECULATIVE_UNIT_HEADER_BYTES,
};

verus! {

broadcast use vstd::string::group_string_axioms;

/// Most bytes that one header chunk may carry.
pub const MAX_SPECULATIVE_BATCH_HEADER_CHUNK_BYTES: usize = 4_194_304;

/// The kind of a stream error, as a gRPC status code.
#[derive(Debug, Clone, Copy, PartialEq, Eq, Structural)]
pub enum Code {
    InvalidArgument,
    ResourceExhausted,
    Aborted,
    DeadlineExceeded,
}

/// A stream error: a status code and a message.
#[derive(Debug, Clone)]
pub struct Status {
    pub code: Code,
    pub message: String,
}

impl Status {
    pub fn invalid_argument(message: String) -> (r: Status)
        ensures
            r.code == Code::InvalidArgument,
            r.message@ == message@,
    {
        Status { code: Code::InvalidArgument, message }
    }

    pub fn resource_exhausted(message: String) -> (r: Status)
        ensures
            r.code == Code::ResourceExhausted,
            r.message@ == message@,
    {
        Status { code: Code::ResourceExhausted, message }
    }

    pub fn code(&self) -> (r: Code)
        ensures
            r == self.code,
    {
        self.code
    }

    pub fn message(&self) -> (r: &str)
        ensures
            r@ == self.message@,
    {
        self.message.as_str()
    }
}

/// The wire form of a base state reference; an empty state id means none.
#[derive(Clone, Debug, Default)]
pub struct ProtoExplicitStateRef {
    pub prev_height: Option<RawHeight>,
    pub prev_state_id: Vec<u8>,
    pub client_state: Option<Any>,
    pub consensus_state: Option<Any>,
}

/// The first message of a batch stream.
#[derive(Clone, Debug, Default)]
pub struct SpeculativeUpdateClientBatchStreamInit {
    pub client_id: String,
}

/// Opens a unit.
#[derive(Clone, Debug, Default)]
pub struct SpeculativeUpdateClientUnitInit {
    pub unit_id: String,
    pub type_url: String,
    pub include_state: bool,
    pub signer: Vec<u8>,
    pub base_state: Option<ProtoExplicitStateRef>,
}

/// A piece of the open unit's header.
#[derive(Clone, Debug, Default)]
pub struct SpeculativeUpdateClientUnitHeaderChunk {
    pub unit_id: String,
    pub data: Vec<u8>,
}

/// Closes a unit.
#[derive(Clone, Debug, Default)]
pub struct SpeculativeUpdateClientUnitEnd {
    pub unit_id: String,
}

/// Ends the batch.
#[derive(Clone, Debug, Default)]
pub struct SpeculativeUpdateClientBatchEnd {}

/// One message of a batch stream.
#[derive(Clone, Debug)]
pub enum BatchChunk {
    Init(SpeculativeUpdateClientBatchStreamInit),
    UnitInit(SpeculativeUpdateClientUnitInit),
    UnitHeaderChunk(SpeculativeUpdateClientUnitHeaderChunk),
    UnitEnd(SpeculativeUpdateClientUnitEnd),
    BatchEnd(SpeculativeUpdateClientBatchEnd),
}

/// A stream message, whose payload may be missing.
#[derive(Clone, Debug)]
pub struct MsgSpeculativeUpdateClientBatchStreamChunk {
    pub chunk: Option<BatchChunk>,
}

/// Header bytes reserved against the shared memory budget; they are handed
/// back to the budget when the unit holding them is done.
#[derive(Debug)]
pub struct SpeculativeHeaderMemoryReservation {
    bytes: usize,
}

impl SpeculativeHeaderMemoryReservation {
    pub closed spec fn spec_bytes(&self) -> nat {
        self.bytes as nat
    }

    /// A reservation of nothing.
    pub fn empty() -> (r: Self)
        ensures
            r.spec_bytes() == 0,
    {
        SpeculativeHeaderMemoryReservation { bytes: 0 }
    }

    /// The reserved bytes.
    pub fn bytes(&self) -> (r: usize)
        ensures
            r == self.spec_bytes(),
    {
        self.bytes
    }

    /// Takes over the bytes of `other`.
    pub fn merge(&mut self, other: Self)
        requires
            old(self).spec_bytes() + other.spec_bytes() <= usize::MAX,
        ensures
            final(self).spec_bytes() == old(self).spec_bytes() + other.spec_bytes(),
    {
        if other.bytes == 0 {
            return;
        }
        self.bytes = self.bytes + other.bytes;
    }
}

/// The shared budget of resident header bytes.
#[derive(Debug)]
pub struct SpeculativeHeaderMemoryBudget {
    max_bytes: usize,
    used_bytes: usize,
}

/// What a reservation attempt decides.
#[derive(Debug)]
pub enum ReserveDecision {
    /// The bytes are reserved.
    Reserved(SpeculativeHeaderMemoryReservation),
    /// More bytes than the whole budget: refused for good.
    TooLarge(Status),
    /// Not enough room now: wait for releases and try again.
    MustWait,
}

/// The message for a chunk larger than the whole budget.
pub open spec fn too_large_message(bytes: nat, max: nat) -> Seq<char> {
    "speculative resident header payload too large: bytes="@ + dec_digits(bytes) + " max="@ + dec_digits(max)
}

/// The message when waiting for room ran out of time.
pub open spec fn timeout_message(bytes: nat, used: nat, max: nat) -> Seq<char> {
    "timed out waiting for speculative header memory budget: requested_bytes="@ + dec_digits(bytes)
        + " used_bytes="@ + dec_digits(used) + " max_bytes="@ + dec_digits(max)
}

impl SpeculativeHeaderMemoryBudget {
    pub closed spec fn max(&self) -> nat {
        self.max_bytes as nat
    }

    pub closed spec fn used(&self) -> nat {
        self.used_bytes as nat
    }

    /// The budget never holds more than its maximum.
    pub open spec fn wf(&self) -> bool {
        self.used() <= self.max()
    }

    /// An unused budget of `max_bytes`.
    pub fn new(max_bytes: usize) -> (r: Self)
        ensures
            r.wf(),
            r.max() == max_bytes,
            r.used() == 0,
    {
        SpeculativeHeaderMemoryBudget { max_bytes, used_bytes: 0 }
    }

    /// Bytes reserved now.
    pub fn used_bytes(&self) -> (r: usize)
        ensures
            r == self.used(),
    {
        self.used_bytes
    }

    /// The bytes a stream message asks to reserve: the data of a header chunk,
    /// nothing for any other message.
    pub fn chunk_bytes(chunk: &MsgSpeculativeUpdateClientBatchStreamChunk) -> (r: usize)
        ensures
            r == match chunk.chunk {
                Some(BatchChunk::UnitHeaderChunk(h)) => h.data@.len(),
                _ => 0,
            },
    {
        match &chunk.chunk {
            Some(BatchChunk::UnitHeaderChunk(header_chunk)) => header_chunk.data.len(),
            _ => 0,
        }
    }

    /// Tries to reserve `bytes`: nothing to do for zero bytes, refused for more
    /// than the whole budget, reserved when they fit next to what is in use,
    /// and otherwise the caller must wait.
    pub fn try_reserve(&mut self, bytes: usize) -> (r: ReserveDecision)
        requires
            old(self).wf(),
        ensures
            final(self).wf(),
            final(self).max() == old(self).max(),
            bytes == 0 ==> (r matches ReserveDecision::Reserved(res) && res.spec_bytes() == 0 && final(self).used() == old(self).used()),
            bytes > 0 && bytes > old(self).max() ==> (r matches ReserveDecision::TooLarge(s) && s.code == Code::ResourceExhausted
                && s.message@ == too_large_message(bytes as nat, old(self).max()) && final(self).used() == old(self).used()),
            bytes > 0 && bytes <= old(self).max() && old(self).used() + bytes <= old(self).max()
                ==> (r matches ReserveDecision::Reserved(res) && res.spec_bytes() == bytes && final(self).used() == old(self).used() + bytes),
            bytes > 0 && bytes <= old(self).max() && old(self).used() + bytes > old(self).max()
                ==> (r is MustWait && final(self).used() == old(self).used()),
    {
        if bytes == 0 {
            return ReserveDecision::Reserved(SpeculativeHeaderMemoryReservation::empty());
        }
        if bytes > self.max_bytes {
            let mut m = String::from_str("speculative resident header payload too large: bytes=");
            push_decimal(&mut m, bytes as u64);
            m.append(" max=");
            push_decimal(&mut m, self.max_bytes as u64);
            return ReserveDecision::TooLarge(Status::resource_exhausted(m));
        }
        if self.used_bytes > self.max_bytes - bytes {
            return ReserveDecision::MustWait;
        }
        self.used_bytes = self.used_bytes + bytes;
        ReserveDecision::Reserved(SpeculativeHeaderMemoryReservation { bytes })
    }

    /// The error when waiting for `bytes` of room timed out.
    pub fn timeout_status(&self, bytes: usize) -> (r: Status)
        ensures
            r.code == Code::ResourceExhausted,
            r.message@ == timeout_message(bytes as nat, self.used(), self.max()),
    {
        let mut m = String::from_str("timed out waiting for speculative header memory budget: requested_bytes=");
        push_decimal(&mut m, bytes as u64);
        m.append(" used_bytes=");
        push_decimal(&mut m, self.used_bytes as u64);
        m.append(" max_bytes=");
        push_decimal(&mut m, self.max_bytes as u64);
        Status::resource_exhausted(m)
    }

    /// Hands reserved bytes back.
    pub fn release(&mut self, reservation: SpeculativeHeaderMemoryReservation)
        requires
            old(self).wf(),
        ensures
            final(self).wf(),
            final(self).max() == old(self).max(),
            final(self).used() == if old(self).used() >= reservation.spec_bytes() {
                (old(self).used() - reservation.spec_bytes()) as nat
            } else {
                0
            },
    {
        let bytes = reservation.bytes;
        if bytes == 0 {
            return;
        }
        self.used_bytes = self.used_bytes.saturating_sub(bytes);
    }
}

/// Reserving bytes that fit and handing the reservation back leaves the
/// budget as it was: `before` is the budget before `try_reserve`, `reserved`
/// after it, `released` after `release` of the reservation it returned.
pub proof fn lemma_reserve_release(
    before: SpeculativeHeaderMemoryBudget,
    reserved: SpeculativeHeaderMemoryBudget,
    released: SpeculativeHeaderMemoryBudget,
    bytes: nat,
)
    requires
        before.wf(),
        0 < bytes,
        before.used() + bytes <= before.max(),
        reserved.max() == before.max(),
        reserved.used() == before.used() + bytes,
        released.max() == reserved.max(),
        released.used() == if reserved.used() >= bytes { (reserved.used() - bytes) as nat } else { 0 },
    ensures
        released.wf(),
        released.used() == before.used(),
        released.max() == before.max(),
{
}

/// The most bytes that may have been reserved for a stream message: the
/// data of a header chunk, nothing for any other message.
pub open spec fn chunk_reservation_limit(chunk: Option<BatchChunk>) -> nat {
    match chunk {
        Some(BatchChunk::UnitHeaderChunk(h)) => h.data@.len(),
        _ => 0,
    }
}

/// `stored` is `request` with its header's bytes emptied: every other part,
/// the header's type included, is the same.
pub open spec fn header_emptied(stored: SpeculativeUpdateClientRequest, request: SpeculativeUpdateClientRequest) -> bool {
    &&& stored.unit_id == request.unit_id
    &&& stored.base_state == request.base_state
    &&& stored.update.client_id == request.update.client_id
    &&& stored.update.include_state == request.update.include_state
    &&& stored.update.signer == request.update.signer
    &&& request.update.header is None ==> stored.update.header is None
    &&& request.update.header matches Some(h) ==> (stored.update.header matches Some(h2)
        && h2.type_url == h.type_url && h2.value@.len() == 0)
}

/// A decoded unit together with the header memory it holds.
#[derive(Debug)]
pub struct ResidentSpeculativeUpdateClientRequest {
    request: SpeculativeUpdateClientRequest,
    header_memory: SpeculativeHeaderMemoryReservation,
}

impl ResidentSpeculativeUpdateClientRequest {
    pub closed spec fn spec_request(&self) -> SpeculativeUpdateClientRequest {
        self.request
    }

    pub closed spec fn spec_reserved(&self) -> nat {
        self.header_memory.spec_bytes()
    }

    pub fn new(request: SpeculativeUpdateClientRequest, header_memory: SpeculativeHeaderMemoryReservation) -> (r: Self)
        ensures
            r.spec_request() == request,
            r.spec_reserved() == header_memory.spec_bytes(),
    {
        ResidentSpeculativeUpdateClientRequest { request, header_memory }
    }

    /// A unit that holds no budget.
    pub fn unmetered(request: SpeculativeUpdateClientRequest) -> (r: Self)
        ensures
            r.spec_request() == request,
            r.spec_reserved() == 0,
    {
        Self::new(request, SpeculativeHeaderMemoryReservation::empty())
    }

    pub fn request(&self) -> (r: &SpeculativeUpdateClientRequest)
        ensures
            *r == self.spec_request(),
    {
        &self.request
    }

    /// The request with its header payload emptied, and the reservation that
    /// can now be handed back.
    pub fn into_request_without_header_payload(self) -> (r: (SpeculativeUpdateClientRequest, SpeculativeHeaderMemoryReservation))
        ensures
            header_emptied(r.0, self.spec_request()),
            r.1.spec_bytes() == self.spec_reserved(),
    {
        let ResidentSpeculativeUpdateClientRequest { request, header_memory } = self;
        let SpeculativeUpdateClientRequest { unit_id, update, base_state } = request;
        let MsgUpdateClient { client_id, header, include_state, signer } = update;
        let header = match header {
            Some(h) => {
                let Any { type_url, value } = h;
                let mut value = value;
                value.clear();
                Some(Any { type_url, value })
            },
            None => None,
        };
        (SpeculativeUpdateClientRequest { unit_id, update: MsgUpdateClient { client_id, header, include_state, signer }, base_state }, header_memory)
    }
}

/// A unit being received: its opening message and the header bytes so far.
pub struct OpenSpeculativeUnit {
    pub init: SpeculativeUpdateClientUnitInit,
    pub header_bytes: Vec<u8>,
    pub header_memory: SpeculativeHeaderMemoryReservation,
}

/// Decodes a batch stream into units: each unit is opened by a unit init,
/// carries its header in chunks, and is closed by a unit end; a batch end
/// closes the stream.
pub struct SpeculativeBatchStreamDecoder {
    client_id: String,
    open_unit: Option<OpenSpeculativeUnit>,
    seen_unit_ids: UnitIdSet,
    closed: bool,
}

/// A base state reference from its wire form; an empty state id means none.
pub open spec fn state_ref_matches(r: ExplicitStateRef, p: ProtoExplicitStateRef) -> bool {
    &&& (match p.prev_height {
        Some(h) => r.prev_height matches Some(x) && x.rn() == h.revision_number && x.rh() == h.revision_height,
        None => r.prev_height is None,
    })
    &&& (if p.prev_state_id@.len() == 0 { r.prev_state_id is None } else { opt_vec_view(r.prev_state_id) == Some(p.prev_state_id@) })
    &&& opt_any_view(r.client_state) == opt_any_view(p.client_state)
    &&& opt_any_view(r.consensus_state) == opt_any_view(p.consensus_state)
}

/// Reads a base state reference; a missing one is an invalid argument.
pub fn decode_explicit_state_ref(base_state: Option<ProtoExplicitStateRef>) -> (r: Result<ExplicitStateRef, Status>)
    ensures
        match base_state {
            None => r matches Err(s) && s.code == Code::InvalidArgument && s.message@ == "missing speculative base_state"@,
            Some(p) => r matches Ok(x) && state_ref_matches(x, p),
        },
{
    let base_state = match base_state {
        Some(b) => b,
        None => return Err(Status::invalid_argument(String::from_str("missing speculative base_state"))),
    };
    let ProtoExplicitStateRef { prev_height, prev_state_id, client_state, consensus_state } = base_state;
    let prev_height = match prev_height {
        Some(h) => Some(Height::from_raw(h)),
        None => None,
    };
    let prev_state_id = if prev_state_id.len() == 0 { None } else { Some(prev_state_id) };
    Ok(ExplicitStateRef { prev_height, prev_state_id, client_state, consensus_state })
}

/// Checks the first message of a batch stream: it must name a client.
pub fn validate_speculative_batch_stream_init(init: SpeculativeUpdateClientBatchStreamInit) -> (r: Result<SpeculativeUpdateClientBatchStreamInit, Status>)
    ensures
        init.client_id@.len() == 0 ==> (r matches Err(s) && s.code == Code::InvalidArgument
            && s.message@ == "speculative batch stream init requires client_id"@),
        init.client_id@.len() > 0 ==> (r matches Ok(i) && i.client_id@ == init.client_id@),
{
    if init.client_id.as_str().unicode_len() == 0 {
        return Err(Status::invalid_argument(String::from_str("speculative batch stream init requires client_id")));
    }
    Ok(init)
}

/// The first message must be an init naming a client.
pub fn decode_speculative_batch_stream_init(first: Option<MsgSpeculativeUpdateClientBatchStreamChunk>) -> (r: Result<SpeculativeUpdateClientBatchStreamInit, Status>)
    ensures
        first is None ==> (r matches Err(s) && s.code == Code::InvalidArgument
            && s.message@ == "expected Init message as the first message"@),
        first matches Some(c) && !(c.chunk matches Some(BatchChunk::Init(_))) ==> (r matches Err(s)
            && s.code == Code::InvalidArgument && s.message@ == "first message must be of type Init"@),
        first matches Some(c) ==> (c.chunk matches Some(BatchChunk::Init(i)) ==> (
            (i.client_id@.len() == 0 ==> (r matches Err(s) && s.code == Code::InvalidArgument
                && s.message@ == "speculative batch stream init requires client_id"@)) && (
            i.client_id@.len() > 0 ==> (r matches Ok(ii) && ii.client_id@ == i.client_id@)))),
{
    match first {
        Some(chunk) => match chunk.chunk {
            Some(BatchChunk::Init(init)) => validate_speculative_batch_stream_init(init),
            _ => Err(Status::invalid_argument(String::from_str("first message must be of type Init"))),
        },
        None => Err(Status::invalid_argument(String::from_str("expected Init message as the first message"))),
    }
}

/// The first failing check of a unit init, as a message.
pub open spec fn unit_init_fault(u: SpeculativeUpdateClientUnitInit) -> Option<Seq<char>> {
    if u.unit_id@.len() == 0 {
        Some("speculative unit_init requires unit_id"@)
    } else if u.type_url@.len() == 0 {
        Some("speculative unit_init requires type_url"@)
    } else if u.base_state is None {
        Some("speculative unit_init requires base_state"@)
    } else {
        None
    }
}

/// Checks that a unit init names the unit, the header type and a base state.
pub fn validate_speculative_unit_init(unit_init: &SpeculativeUpdateClientUnitInit) -> (r: Result<(), Status>)
    ensures
        match unit_init_fault(*unit_init) {
            None => r is Ok,
            Some(m) => r matches Err(s) && s.code == Code::InvalidArgument && s.message@ == m,
        },
{
    if unit_init.unit_id.as_str().unicode_len() == 0 {
        return Err(Status::invalid_argument(String::from_str("speculative unit_init requires unit_id")));
    }
    if unit_init.type_url.as_str().unicode_len() == 0 {
        return Err(Status::invalid_argument(String::from_str("speculative unit_init requires type_url")));
    }
    if unit_init.base_state.is_none() {
        return Err(Status::invalid_argument(String::from_str("speculative unit_init requires base_state")));
    }
    Ok(())
}

/// The message for a unit header over the limit.
pub open spec fn payload_too_large_message(unit_id: Seq<char>, bytes: nat) -> Seq<char> {
    "speculative unit header payload too large: unit_id="@ + unit_id + " bytes="@ + dec_digits(bytes)
        + " max="@ + dec_digits(MAX_SPECULATIVE_UNIT_HEADER_BYTES as nat)
}

/// A unit header may hold at most `MAX_SPECULATIVE_UNIT_HEADER_BYTES`.
pub fn validate_speculative_unit_header_payload_len(unit_id: &str, header_bytes: usize) -> (r: Result<(), Status>)
    ensures
        header_bytes <= MAX_SPECULATIVE_UNIT_HEADER_BYTES ==> r is Ok,
        header_bytes > MAX_SPECULATIVE_UNIT_HEADER_BYTES ==> (r matches Err(s) && s.code == Code::ResourceExhausted
            && s.message@ == payload_too_large_message(unit_id@, header_bytes as nat)),
{
    if header_bytes > MAX_SPECULATIVE_UNIT_HEADER_BYTES {
        let mut m = String::from_str("speculative unit header payload too large: unit_id=");
        m.append(unit_id);
        m.append(" bytes=");
        push_decimal(&mut m, header_bytes as u64);
        m.append(" max=");
        push_decimal(&mut m, MAX_SPECULATIVE_UNIT_HEADER_BYTES as u64);
        return Err(Status::resource_exhausted(m));
    }
    Ok(())
}

/// The message for a header chunk over the chunk limit.
pub open spec fn chunk_too_large_message(bytes: nat) -> Seq<char> {
    "speculative unit_header_chunk too large: bytes="@ + dec_digits(bytes) + " max="@
        + dec_digits(MAX_SPECULATIVE_BATCH_HEADER_CHUNK_BYTES as nat)
}

/// Adds a header chunk to the open unit: the chunk must carry data, stay
/// within the chunk limit, and belong to the open unit; the header grown by
/// it must stay within the unit limit.
pub fn append_speculative_unit_header_chunk(
    open_unit: &mut Option<OpenSpeculativeUnit>,
    header_chunk: SpeculativeUpdateClientUnitHeaderChunk,
    header_memory: SpeculativeHeaderMemoryReservation,
) -> (r: Result<(), Status>)
    requires
        *old(open_unit) matches Some(o) ==> o.header_memory.spec_bytes() <= o.header_bytes@.len(),
        header_memory.spec_bytes() <= header_chunk.data@.len(),
    ensures
        header_chunk.data@.len() == 0 ==> (r matches Err(s) && s.code == Code::InvalidArgument
            && s.message@ == "speculative unit_header_chunk data must not be empty"@ && *final(open_unit) == *old(open_unit)),
        header_chunk.data@.len() > MAX_SPECULATIVE_BATCH_HEADER_CHUNK_BYTES ==> (r matches Err(s) && s.code == Code::ResourceExhausted
            && s.message@ == chunk_too_large_message(header_chunk.data@.len()) && *final(open_unit) == *old(open_unit)),
        0 < header_chunk.data@.len() <= MAX_SPECULATIVE_BATCH_HEADER_CHUNK_BYTES && *old(open_unit) is None ==> (r matches Err(s)
            && s.code == Code::InvalidArgument && s.message@ == "speculative unit_header_chunk received before unit_init"@
            && *final(open_unit) is None),
        *old(open_unit) matches Some(o) ==> (0 < header_chunk.data@.len() <= MAX_SPECULATIVE_BATCH_HEADER_CHUNK_BYTES
            && header_chunk.unit_id@ != o.init.unit_id@ ==> (r matches Err(s) && s.code == Code::InvalidArgument
            && s.message@ == "speculative unit_header_chunk unit_id mismatch: open="@ + o.init.unit_id@ + " chunk="@ + header_chunk.unit_id@
            && *final(open_unit) == *old(open_unit))),
        *old(open_unit) matches Some(o) ==> (0 < header_chunk.data@.len() <= MAX_SPECULATIVE_BATCH_HEADER_CHUNK_BYTES
            && header_chunk.unit_id@ == o.init.unit_id@ ==> (*final(open_unit) matches Some(n)
            && n.init == o.init
            && n.header_bytes@ == o.header_bytes@ + header_chunk.data@
            && n.header_memory.spec_bytes() == o.header_memory.spec_bytes() + header_memory.spec_bytes()
            && (n.header_bytes@.len() <= MAX_SPECULATIVE_UNIT_HEADER_BYTES ==> r is Ok)
            && (n.header_bytes@.len() > MAX_SPECULATIVE_UNIT_HEADER_BYTES ==> (r matches Err(s) && s.code == Code::ResourceExhausted
                && s.message@ == payload_too_large_message(o.init.unit_id@, n.header_bytes@.len()))))),
{
    if header_chunk.data.len() == 0 {
        return Err(Status::invalid_argument(String::from_str("speculative unit_header_chunk data must not be empty")));
    }
    if header_chunk.data.len() > MAX_SPECULATIVE_BATCH_HEADER_CHUNK_BYTES {
        let mut m = String::from_str("speculative unit_header_chunk too large: bytes=");
        push_decimal(&mut m, header_chunk.data.len() as u64);
        m.append(" max=");
        push_decimal(&mut m, MAX_SPECULATIVE_BATCH_HEADER_CHUNK_BYTES as u64);
        return Err(Status::resource_exhausted(m));
    }
    let mut open = match open_unit.take() {
        Some(o) => o,
        None => {
            return Err(Status::invalid_argument(String::from_str("speculative unit_header_chunk received before unit_init")));
        },
    };
    if !str_eq(header_chunk.unit_id.as_str(), open.init.unit_id.as_str()) {
        let mut m = String::from_str("speculative unit_header_chunk unit_id mismatch: open=");
        m.append(open.init.unit_id.as_str());
        m.append(" chunk=");
        m.append(header_chunk.unit_id.as_str());
        *open_unit = Some(open);
        return Err(Status::invalid_argument(m));
    }
    let SpeculativeUpdateClientUnitHeaderChunk { unit_id: _, data } = header_chunk;
    let mut data = data;
    open.header_bytes.append(&mut data);
    let len = open.header_bytes.len();
    open.header_memory.merge(header_memory);
    let res = validate_speculative_unit_header_payload_len(open.init.unit_id.as_str(), len);
    *open_unit = Some(open);
    res
}

/// A request assembled from a closed unit.
pub open spec fn unit_request_matches(req: SpeculativeUpdateClientRequest, client_id: Seq<char>, o: OpenSpeculativeUnit) -> bool {
    &&& req.unit_id@ == o.init.unit_id@
    &&& req.update.client_id@ == client_id
    &&& req.update.header matches Some(h) && h.type_url@ == o.init.type_url@ && h.value@ == o.header_bytes@
    &&& req.update.include_state == o.init.include_state
    &&& req.update.signer@ == o.init.signer@
    &&& o.init.base_state matches Some(p) && state_ref_matches(req.base_state, p)
}

/// A unit closed into a request keeps what its unit init declared and the
/// header bytes it received: its identifier, the header's type and bytes,
/// whether to include state, the signer, the batch's client, and the base
/// state it named.
pub proof fn lemma_decoded_unit(req: SpeculativeUpdateClientRequest, client_id: Seq<char>, o: OpenSpeculativeUnit)
    requires
        unit_request_matches(req, client_id, o),
    ensures
        req.unit_id@ == o.init.unit_id@,
        req.update.client_id@ == client_id,
        req.update.header is Some,
        req.update.header->0.type_url@ == o.init.type_url@,
        req.update.header->0.value@ == o.header_bytes@,
        req.update.include_state == o.init.include_state,
        req.update.signer@ == o.init.signer@,
        o.init.base_state is Some,
        req.base_state.prev_height is Some <==> o.init.base_state->0.prev_height is Some,
        opt_any_view(req.base_state.client_state) == opt_any_view(o.init.base_state->0.client_state),
        opt_any_view(req.base_state.consensus_state) == opt_any_view(o.init.base_state->0.consensus_state),
{
}

/// Closes the open unit into a request: the end must name the open unit and
/// the unit must have received header bytes.
pub fn close_speculative_unit(
    client_id: &str,
    open_unit: Option<OpenSpeculativeUnit>,
    unit_id: String,
) -> (r: Result<ResidentSpeculativeUpdateClientRequest, Status>)
    ensures
        open_unit is None ==> (r matches Err(s) && s.code == Code::InvalidArgument
            && s.message@ == "speculative unit_end received before unit_init"@),
        open_unit matches Some(o) ==> (unit_id@ != o.init.unit_id@ ==> (r matches Err(s) && s.code == Code::InvalidArgument
            && s.message@ == "speculative unit_end unit_id mismatch: open="@ + o.init.unit_id@ + " end="@ + unit_id@)),
        open_unit matches Some(o) ==> (unit_id@ == o.init.unit_id@ && o.header_bytes@.len() == 0 ==> (r matches Err(s)
            && s.code == Code::InvalidArgument && s.message@ == "speculative unit header is empty: unit_id="@ + o.init.unit_id@)),
        open_unit matches Some(o) ==> (unit_id@ == o.init.unit_id@ && o.header_bytes@.len() > 0 && o.init.base_state is None
            ==> (r matches Err(s) && s.code == Code::InvalidArgument && s.message@ == "missing speculative base_state"@)),
        open_unit matches Some(o) ==> (unit_id@ == o.init.unit_id@ && o.header_bytes@.len() > 0 && o.init.base_state is Some
            ==> (r matches Ok(u) && unit_request_matches(u.spec_request(), client_id@, o)
            && u.spec_request().unit_id@ == o.init.unit_id@
            && u.spec_request().update.signer@ == o.init.signer@
            && u.spec_request().update.include_state == o.init.include_state
            && u.spec_reserved() == o.header_memory.spec_bytes())),
{
    let open = match open_unit {
        Some(o) => o,
        None => return Err(Status::invalid_argument(String::from_str("speculative unit_end received before unit_init"))),
    };
    if !str_eq(unit_id.as_str(), open.init.unit_id.as_str()) {
        let mut m = String::from_str("speculative unit_end unit_id mismatch: open=");
        m.append(open.init.unit_id.as_str());
        m.append(" end=");
        m.append(unit_id.as_str());
        return Err(Status::invalid_argument(m));
    }
    if open.header_bytes.len() == 0 {
        let mut m = String::from_str("speculative unit header is empty: unit_id=");
        m.append(open.init.unit_id.as_str());
        return Err(Status::invalid_argument(m));
    }
    let OpenSpeculativeUnit { init, header_bytes, header_memory } = open;
    let SpeculativeUpdateClientUnitInit { unit_id: open_id, type_url, include_state, signer, base_state } = init;
    let base_state = decode_explicit_state_ref(base_state)?;
    let request = SpeculativeUpdateClientRequest {
        unit_id: open_id,
        update: MsgUpdateClient {
            client_id: client_id.to_owned(),
            header: Some(Any { type_url, value: header_bytes }),
            include_state,
            signer,
        },
        base_state,
    };
    Ok(ResidentSpeculativeUpdateClientRequest::new(request, header_memory))
}

impl SpeculativeBatchStreamDecoder {
    pub closed spec fn spec_client_id(&self) -> Seq<char> {
        self.client_id@
    }

    pub closed spec fn spec_open(&self) -> Option<OpenSpeculativeUnit> {
        self.open_unit
    }

    pub closed spec fn spec_seen(&self) -> Set<Seq<char>> {
        self.seen_unit_ids.set()
    }

    pub closed spec fn spec_closed(&self) -> bool {
        self.closed
    }

    /// Consistency: the seen set is well formed and the open unit's
    /// reservation covers no more than the header bytes it holds.
    pub closed spec fn wf(&self) -> bool {
        &&& self.seen_unit_ids.wf()
        &&& self.open_unit matches Some(o) ==> o.header_memory.spec_bytes() <= o.header_bytes@.len()
    }

    /// A decoder for the batch of `client_id`, with no unit open.
    pub fn new(client_id: String) -> (r: Self)
        ensures
            r.wf(),
            r.spec_client_id() == client_id@,
            r.spec_open() is None,
            r.spec_seen() == Set::<Seq<char>>::empty(),
            !r.spec_closed(),
    {
        SpeculativeBatchStreamDecoder { client_id, open_unit: None, seen_unit_ids: UnitIdSet::new(), closed: false }
    }

    /// The client whose batch this is.
    pub fn client_id(&self) -> (r: &String)
        ensures
            r@ == self.spec_client_id(),
    {
        &self.client_id
    }

    /// Takes the next stream message. Returns a unit when a unit end closes
    /// it; every other accepted message returns nothing. Only an accepted
    /// batch end closes the stream, and a refused message leaves the seen
    /// unit ids as they were.
    pub fn push_chunk(
        &mut self,
        chunk: Option<BatchChunk>,
        header_memory: SpeculativeHeaderMemoryReservation,
    ) -> (r: Result<Option<ResidentSpeculativeUpdateClientRequest>, Status>)
        requires
            old(self).wf(),
            header_memory.spec_bytes() <= chunk_reservation_limit(chunk),
        ensures
            final(self).wf(),
            final(self).spec_client_id() == old(self).spec_client_id(),
            old(self).spec_seen().subset_of(final(self).spec_seen()),
            !(chunk matches Some(BatchChunk::BatchEnd(_))) ==> final(self).spec_closed() == old(self).spec_closed(),
            r is Err ==> final(self).spec_seen() == old(self).spec_seen() && final(self).spec_closed() == old(self).spec_closed(),
            old(self).spec_closed() ==> (r matches Err(s) && s.code == Code::InvalidArgument
                && s.message@ == "speculative batch stream received chunk after batch_end"@
                && *final(self) == *old(self)),
            r matches Ok(Some(u)) ==> ({
                &&& old(self).spec_open() matches Some(o)
                &&& chunk matches Some(BatchChunk::UnitEnd(e)) && e.unit_id@ == o.init.unit_id@
                &&& unit_request_matches(u.spec_request(), old(self).spec_client_id(), o)
                &&& u.spec_request().update.signer@ == o.init.signer@
                &&& u.spec_request().update.include_state == o.init.include_state
                &&& 0 < o.header_bytes@.len()
                &&& !old(self).spec_seen().contains(o.init.unit_id@)
                &&& final(self).spec_seen() == old(self).spec_seen().insert(o.init.unit_id@)
                &&& final(self).spec_open() is None
                &&& u.spec_reserved() == o.header_memory.spec_bytes()
            }),
            !old(self).spec_closed() && chunk is None ==> (r matches Err(s) && s.code == Code::InvalidArgument
                && s.message@ == "received empty chunk message"@),
            chunk matches Some(BatchChunk::Init(_)) ==> (!old(self).spec_closed() ==> (r matches Err(s)
                && s.code == Code::InvalidArgument && s.message@ == "Init must only appear as the first message"@)),
            chunk matches Some(BatchChunk::UnitInit(u)) ==> (!old(self).spec_closed() ==> (
                (old(self).spec_open() is Some ==> (r matches Err(s) && s.code == Code::InvalidArgument
                    && s.message@ == "speculative unit_init received before previous unit_end"@))
                && (old(self).spec_open() is None && old(self).spec_seen().contains(u.unit_id@) ==> (r matches Err(s)
                    && s.code == Code::InvalidArgument && s.message@ == "duplicate speculative unit_id: "@ + u.unit_id@))
                && (old(self).spec_open() is None && !old(self).spec_seen().contains(u.unit_id@) ==> (
                    match unit_init_fault(u) {
                        Some(m) => r matches Err(s) && s.code == Code::InvalidArgument && s.message@ == m,
                        None => r matches Ok(None) && final(self).spec_open() matches Some(o) && o.init == u
                            && o.header_bytes@.len() == 0 && o.header_memory.spec_bytes() == 0
                            && final(self).spec_seen() == old(self).spec_seen() && !final(self).spec_closed(),
                    })))),
            chunk matches Some(BatchChunk::UnitHeaderChunk(h)) ==> (!old(self).spec_closed() ==> (
                (h.data@.len() == 0 ==> (r matches Err(s) && s.code == Code::InvalidArgument
                    && s.message@ == "speculative unit_header_chunk data must not be empty"@))
                && (h.data@.len() > MAX_SPECULATIVE_BATCH_HEADER_CHUNK_BYTES ==> (r matches Err(s)
                    && s.code == Code::ResourceExhausted && s.message@ == chunk_too_large_message(h.data@.len())))
                && (0 < h.data@.len() <= MAX_SPECULATIVE_BATCH_HEADER_CHUNK_BYTES && old(self).spec_open() is None ==> (
                    r matches Err(s) && s.code == Code::InvalidArgument
                    && s.message@ == "speculative unit_header_chunk received before unit_init"@))
                && (old(self).spec_open() matches Some(o) ==> (0 < h.data@.len() <= MAX_SPECULATIVE_BATCH_HEADER_CHUNK_BYTES
                    && h.unit_id@ != o.init.unit_id@ ==> (r matches Err(s) && s.code == Code::InvalidArgument
                    && s.message@ == "speculative unit_header_chunk unit_id mismatch: open="@ + o.init.unit_id@ + " chunk="@ + h.unit_id@)))
                && (old(self).spec_open() matches Some(o) ==> (0 < h.data@.len() <= MAX_SPECULATIVE_BATCH_HEADER_CHUNK_BYTES
                    && h.unit_id@ == o.init.unit_id@ && o.header_bytes@.len() + h.data@.len() > MAX_SPECULATIVE_UNIT_HEADER_BYTES
                    ==> (r matches Err(s) && s.code == Code::ResourceExhausted
                    && s.message@ == payload_too_large_message(o.init.unit_id@, o.header_bytes@.len() + h.data@.len()))))
                && (r is Ok <==> (0 < h.data@.len() <= MAX_SPECULATIVE_BATCH_HEADER_CHUNK_BYTES
                    && old(self).spec_open() is Some && h.unit_id@ == old(self).spec_open()->0.init.unit_id@
                    && old(self).spec_open()->0.header_bytes@.len() + h.data@.len() <= MAX_SPECULATIVE_UNIT_HEADER_BYTES))
                && (r is Ok ==> (r matches Ok(None) && final(self).spec_open() is Some
                    && final(self).spec_open()->0.init == old(self).spec_open()->0.init
                    && final(self).spec_open()->0.header_bytes@ == old(self).spec_open()->0.header_bytes@ + h.data@
                    && final(self).spec_open()->0.header_memory.spec_bytes() == old(self).spec_open()->0.header_memory.spec_bytes() + header_memory.spec_bytes()
                    && final(self).spec_seen() == old(self).spec_seen() && !final(self).spec_closed())))),
            chunk matches Some(BatchChunk::UnitEnd(e)) ==> (!old(self).spec_closed() ==> (
                final(self).spec_open() is None
                && (old(self).spec_open() is None ==> (r matches Err(s) && s.code == Code::InvalidArgument
                    && s.message@ == "speculative unit_end received before unit_init"@))
                && (old(self).spec_open() matches Some(o) ==> (
                    (e.unit_id@ != o.init.unit_id@ ==> (r matches Err(s) && s.code == Code::InvalidArgument
                        && s.message@ == "speculative unit_end unit_id mismatch: open="@ + o.init.unit_id@ + " end="@ + e.unit_id@))
                    && (e.unit_id@ == o.init.unit_id@ && o.header_bytes@.len() == 0 ==> (r matches Err(s)
                        && s.code == Code::InvalidArgument && s.message@ == "speculative unit header is empty: unit_id="@ + o.init.unit_id@))
                    && (e.unit_id@ == o.init.unit_id@ && o.header_bytes@.len() > 0 && o.init.base_state is None ==> (r matches Err(s)
                        && s.code == Code::InvalidArgument && s.message@ == "missing speculative base_state"@))
                    && (e.unit_id@ == o.init.unit_id@ && o.header_bytes@.len() > 0 && o.init.base_state is Some
                        && old(self).spec_seen().contains(o.init.unit_id@) ==> (r matches Err(s)
                        && s.code == Code::InvalidArgument && s.message@ == "duplicate speculative unit_id: "@ + o.init.unit_id@))
                    && (e.unit_id@ == o.init.unit_id@ && o.header_bytes@.len() > 0 && o.init.base_state is Some
                        && !old(self).spec_seen().contains(o.init.unit_id@) ==> r matches Ok(Some(_))))))),
            chunk matches Some(BatchChunk::BatchEnd(_)) ==> (!old(self).spec_closed() ==> (
                (old(self).spec_open() is Some ==> (r matches Err(s) && s.code == Code::InvalidArgument
                    && s.message@ == "speculative batch_end received while chunked unit is open"@
                    && !final(self).spec_closed()))
                && (old(self).spec_open() is None ==> (r matches Ok(None) && final(self).spec_closed()
                    && final(self).spec_seen() == old(self).spec_seen() && final(self).spec_open() is None)))),
    {
        if self.closed {
            return Err(Status::invalid_argument(String::from_str("speculative batch stream received chunk after batch_end")));
        }
        match chunk {
            Some(BatchChunk::Init(_)) => Err(Status::invalid_argument(String::from_str("Init must only appear as the first message"))),
            Some(BatchChunk::UnitInit(unit_init)) => {
                if self.open_unit.is_some() {
                    return Err(Status::invalid_argument(String::from_str("speculative unit_init received before previous unit_end")));
                }
                if self.seen_unit_ids.contains(unit_init.unit_id.as_str()) {
                    let mut m = String::from_str("duplicate speculative unit_id: ");
                    m.append(unit_init.unit_id.as_str());
                    return Err(Status::invalid_argument(m));
                }
                validate_speculative_unit_init(&unit_init)?;
                self.open_unit = Some(OpenSpeculativeUnit {
                    init: unit_init,
                    header_bytes: Vec::new(),
                    header_memory: SpeculativeHeaderMemoryReservation::empty(),
                });
                Ok(None)
            },
            Some(BatchChunk::UnitHeaderChunk(header_chunk)) => {
                append_speculative_unit_header_chunk(&mut self.open_unit, header_chunk, header_memory)?;
                Ok(None)
            },
            Some(BatchChunk::UnitEnd(unit_end)) => {
                let open = self.open_unit.take();
                let unit = close_speculative_unit(self.client_id.as_str(), open, unit_end.unit_id)?;
                if !self.seen_unit_ids.insert(unit.request().unit_id.clone()) {
                    let mut m = String::from_str("duplicate speculative unit_id: ");
                    m.append(unit.request().unit_id.as_str());
                    return Err(Status::invalid_argument(m));
                }
                Ok(Some(unit))
            },
            Some(BatchChunk::BatchEnd(_)) => {
                if self.open_unit.is_some() {
                    return Err(Status::invalid_argument(String::from_str("speculative batch_end received while chunked unit is open")));
                }
                self.closed = true;
                Ok(None)
            },
            None => Err(Status::invalid_argument(String::from_str("received empty chunk message"))),
        }
    }

    /// The stream may end only after the batch end, with no unit open.
    pub fn finish(&self) -> (r: Result<(), Status>)
        ensures
            self.spec_open() is Some ==> (r matches Err(s) && s.code == Code::InvalidArgument
                && s.message@ == "speculative batch stream ended while chunked unit is open"@),
            self.spec_open() is None && !self.spec_closed() ==> (r matches Err(s) && s.code == Code::InvalidArgument
                && s.message@ == "speculative batch stream ended without batch_end"@),
            self.spec_open() is None && self.spec_closed() ==> r is Ok,
    {
        if self.open_unit.is_some() {
            return Err(Status::invalid_argument(String::from_str("speculative batch stream ended while chunked unit is open")));
        }
        if !self.closed {
            return Err(Status::invalid_argument(String::from_str("speculative batch stream ended without batch_end")));
        }
        Ok(())
    }
}

/// Over a run of a decoder, no unit id is returned twice. The run is given
/// by the seen sets before and after each call, which only grow (as
/// `push_chunk` ensures), and by the calls that returned a unit, in order,
/// with the id returned: each was unseen before its call and seen after it
/// (as `push_chunk` ensures of a returned unit).
pub proof fn lemma_stream_unit_ids_distinct(seen: Seq<Set<Seq<char>>>, steps: Seq<int>, ids: Seq<Seq<char>>)
    requires
        steps.len() == ids.len(),
        forall|i: int, j: int| 0 <= i <= j < seen.len() ==> (#[trigger] seen[i]).subset_of(#[trigger] seen[j]),
        forall|a: int, b: int| 0 <= a < b < steps.len() ==> #[trigger] steps[a] < #[trigger] steps[b],
        forall|a: int| 0 <= a < steps.len() ==> {
            &&& 0 <= #[trigger] steps[a]
            &&& steps[a] + 1 < seen.len()
            &&& !seen[steps[a]].contains(ids[a])
            &&& seen[steps[a] + 1].contains(ids[a])
        },
    ensures
        forall|a: int, b: int| 0 <= a < b < ids.len() ==> #[trigger] ids[a] != #[trigger] ids[b],
{
    assert forall|a: int, b: int| 0 <= a < b < ids.len() implies #[trigger] ids[a] != #[trigger] ids[b] by {
        let sa = steps[a];
        let sb = steps[b];
        assert(sa < sb);
        assert(seen[sa + 1].subset_of(seen[sb]));
        assert(seen[sb].contains(ids[a]));
    }
}

/// Units decoded from a whole stream, for checks on an assembled batch.
#[derive(Debug)]
pub struct DecodedSpeculativeBatchRequest {
    pub client_id: String,
    pub units: Vec<SpeculativeUpdateClientRequest>,
}

/// The header length of a request, zero without a header.
fn request_header_len(req: &SpeculativeUpdateClientRequest) -> (r: usize)
    ensures
        r == req.header_len(),
{
    match &req.update.header {
        Some(header) => header.value.len(),
        None => 0,
    }
}

/// An assembled batch holds at most `MAX_SPECULATIVE_BATCH_UNITS` units,
/// each with a header within the unit limit.
pub fn validate_speculative_batch_limits(request: &DecodedSpeculativeBatchRequest) -> (r: Result<(), Status>)
    ensures
        r is Ok <==> (request.units@.len() <= MAX_SPECULATIVE_BATCH_UNITS
            && forall|i: int| 0 <= i < request.units@.len() ==> (#[trigger] request.units@[i]).header_len() <= MAX_SPECULATIVE_UNIT_HEADER_BYTES),
        request.units@.len() > MAX_SPECULATIVE_BATCH_UNITS ==> (r matches Err(s) && s.code == Code::InvalidArgument
            && s.message@ == "speculative batch too large: units="@ + dec_digits(request.units@.len() as nat) + " max=256"@),
{
    if request.units.len() > MAX_SPECULATIVE_BATCH_UNITS {
        let mut m = String::from_str("speculative batch too large: units=");
        push_decimal(&mut m, request.units.len() as u64);
        m.append(" max=256");
        return Err(Status::invalid_argument(m));
    }
    let mut i: usize = 0;
    while i < request.units.len()
        invariant
            i <= request.units@.len(),
            request.units@.len() <= MAX_SPECULATIVE_BATCH_UNITS,
            forall|j: int| 0 <= j < i ==> (#[trigger] request.units@[j]).header_len() <= MAX_SPECULATIVE_UNIT_HEADER_BYTES,
        decreases request.units@.len() - i,
    {
        let unit = &request.units[i];
        validate_speculative_unit_header_payload_len(unit.unit_id.as_str(), request_header_len(unit))?;
        i = i + 1;
    }
    Ok(())
}

/// An assembled batch that respects the limits.
pub fn decode_speculative_batch(request: DecodedSpeculativeBatchRequest) -> (r: Result<SpeculativeUpdateClientBatch, Status>)
    ensures
        r is Ok <==> (request.units@.len() <= MAX_SPECULATIVE_BATCH_UNITS
            && forall|i: int| 0 <= i < request.units@.len() ==> (#[trigger] request.units@[i]).header_len() <= MAX_SPECULATIVE_UNIT_HEADER_BYTES),
        r matches Ok(b) ==> b.client_id == request.client_id && b.units == request.units,
{
    validate_speculative_batch_limits(&request)?;
    Ok(SpeculativeUpdateClientBatch { client_id: request.client_id, units: request.units })
}

/// The wire form of an observed transition; no state id is sent as empty.
#[derive(Clone, Debug, Default)]
pub struct ProtoObservedStateTransition {
    pub prev_height: Option<RawHeight>,
    pub prev_state_id: Vec<u8>,
    pub post_height: Option<RawHeight>,
    pub post_state_id: Vec<u8>,
}

/// The wire form of a stitched unit.
#[derive(Clone, Debug, Default)]
pub struct StitchedSpeculativeUpdateClientUnitResult {
    pub response: Option<MsgUpdateClientResponse>,
    pub observed_transition: Option<ProtoObservedStateTransition>,
}

/// The wire form of a stitched batch.
#[derive(Clone, Debug, Default)]
pub struct ExecuteSpeculativeUpdateClientBatchResponse {
    pub client_id: String,
    pub units: Vec<StitchedSpeculativeUpdateClientUnitResult>,
}

/// An observed transition in wire form.
pub open spec fn observed_encodes(p: ProtoObservedStateTransition, t: ObservedStateTransition) -> bool {
    &&& (match t.prev_height {
        Some(h) => p.prev_height matches Some(x) && x.revision_number == h.rn() && x.revision_height == h.rh(),
        None => p.prev_height is None,
    })
    &&& p.prev_state_id@ == (match t.prev_state_id { Some(v) => v@, None => Seq::<u8>::empty() })
    &&& p.post_height matches Some(x) && x.revision_number == t.post_height.rn() && x.revision_height == t.post_height.rh()
    &&& p.post_state_id@ == t.post_state_id@
}

/// The wire form of a transition keeps its heights and post state id: the
/// previous height is there exactly when the transition has one, and both
/// heights read back as they were.
pub proof fn lemma_observed_encoding_keeps_heights(p: ProtoObservedStateTransition, t: ObservedStateTransition)
    requires
        observed_encodes(p, t),
    ensures
        p.prev_height is Some <==> t.prev_height is Some,
        t.prev_height matches Some(h) ==> p.prev_height == Some(RawHeight { revision_number: h.rn(), revision_height: h.rh() }),
        p.post_height == Some(RawHeight { revision_number: t.post_height.rn(), revision_height: t.post_height.rh() }),
        p.post_state_id@ == t.post_state_id@,
{
}

/// Two transitions with the same wire form have the same heights and post
/// state id: the wire form loses only the difference between no previous
/// state id and an empty one.
pub proof fn lemma_observed_encoding_distinguishes(
    p: ProtoObservedStateTransition,
    t1: ObservedStateTransition,
    t2: ObservedStateTransition,
)
    requires
        observed_encodes(p, t1),
        observed_encodes(p, t2),
    ensures
        t1.prev_height == t2.prev_height,
        t1.post_height == t2.post_height,
        t1.post_state_id@ == t2.post_state_id@,
        opt_vec_view(t1.prev_state_id) == opt_vec_view(t2.prev_state_id)
            || (opt_vec_view(t1.prev_state_id) matches Some(a) && a.len() == 0 && t2.prev_state_id is None)
            || (opt_vec_view(t2.prev_state_id) matches Some(b) && b.len() == 0 && t1.prev_state_id is None),
{
    crate::height::lemma_height_eq(t1.post_height, t2.post_height);
    if let Some(h1) = t1.prev_height {
        if let Some(h2) = t2.prev_height {
            crate::height::lemma_height_eq(h1, h2);
        }
    }
}

pub fn encode_observed_transition(transition: ObservedStateTransition) -> (r: ProtoObservedStateTransition)
    ensures
        observed_encodes(r, transition),
        r.prev_height is Some <==> transition.prev_height is Some,
        transition.prev_height matches Some(h) ==> r.prev_height == Some(RawHeight { revision_number: h.rn(), revision_height: h.rh() }),
        r.post_height == Some(RawHeight { revision_number: transition.post_height.rn(), revision_height: transition.post_height.rh() }),
        r.post_state_id@ == transition.post_state_id@,
{
    let ObservedStateTransition { prev_height, prev_state_id, post_height, post_state_id } = transition;
    ProtoObservedStateTransition {
        prev_height: match prev_height {
            Some(h) => Some(h.to_raw()),
            None => None,
        },
        prev_state_id: match prev_state_id {
            Some(v) => v,
            None => Vec::new(),
        },
        post_height: Some(post_height.to_raw()),
        post_state_id,
    }
}

pub fn encode_stitched_unit_result(result: StitchedUpdateClientResult) -> (r: StitchedSpeculativeUpdateClientUnitResult)
    ensures
        r.response == Some(result.response),
        r.observed_transition matches Some(p) && observed_encodes(p, result.observed_transition),
{
    let StitchedUpdateClientResult { response, observed_transition } = result;
    StitchedSpeculativeUpdateClientUnitResult {
        response: Some(response),
        observed_transition: Some(encode_observed_transition(observed_transition)),
    }
}

/// The wire form of a stitched batch, units in the same order.
pub fn encode_stitched_batch_result(result: StitchedUpdateClientBatchResult) -> (r: ExecuteSpeculativeUpdateClientBatchResponse)
    ensures
        r.client_id == result.client_id,
        r.units@.len() == result.units@.len(),
        forall|i: int| 0 <= i < r.units@.len() ==> (#[trigger] r.units@[i]).response == Some(result.units@[i].response)
            && (r.units@[i].observed_transition matches Some(p) && observed_encodes(p, result.units@[i].observed_transition)),
{
    let StitchedUpdateClientBatchResult { client_id, units } = result;
    let ghost src = units@;
    let mut out: Vec<StitchedSpeculativeUpdateClientUnitResult> = Vec::new();
    for u in it: units
        invariant
            it.seq() == src,
            out@.len() == it.index(),
            forall|i: int| 0 <= i < out@.len() ==> (#[trigger] out@[i]).response == Some(src[i].response)
                && (out@[i].observed_transition matches Some(p) && observed_encodes(p, src[i].observed_transition)),
    {
        out.push(encode_stitched_unit_result(u));
    }
    ExecuteSpeculativeUpdateClientBatchResponse { client_id, units: out }
}

} // verus!
