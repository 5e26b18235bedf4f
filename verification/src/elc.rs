use vstd::prelude::*;
use vstd::string::*;
use crate::any::Any;
use crate::decimal::{dec_digits, push_decimal};
use crate::speculative::stream::{Code, Status};
use crate::speculative::types::{MsgUpdateClient, SpeculativeBatchFailure, SpeculativeBatchFailureKind};

verus! {

broadcast use vstd::string::group_string_axioms;

/// The opening message of an update-client stream: everything of the
/// update but the header's bytes.
#[derive(Clone, Debug, Default)]
pub struct UpdateClientStreamInit {
    pub client_id: String,
    pub include_state: bool,
    pub signer: Vec<u8>,
    pub type_url: String,
}

/// A piece of the header's bytes.
#[derive(Clone, Debug, Default)]
pub struct UpdateClientHeaderChunk {
    pub data: Vec<u8>,
}

/// One message of an update-client stream.
#[derive(Clone, Debug)]
pub enum UpdateClientChunk {
    Init(UpdateClientStreamInit),
    HeaderChunk(UpdateClientHeaderChunk),
}

/// One message of an update-client stream, as received.
#[derive(Clone, Debug)]
pub struct MsgUpdateClientStreamChunk {
    pub chunk: Option<UpdateClientChunk>,
}

impl Status {
    /// An aborted request with this message.
    pub fn aborted(message: String) -> (r: Status)
        ensures
            r.code == Code::Aborted,
            r.message@ == message@,
    {
        Status { code: Code::Aborted, message }
    }

    /// A request that ran out of time, with this message.
    pub fn deadline_exceeded(message: String) -> (r: Status)
        ensures
            r.code == Code::DeadlineExceeded,
            r.message@ == message@,
    {
        Status { code: Code::DeadlineExceeded, message }
    }
}

/// Reads the opening message of an update-client stream, which must be an
/// `Init`.
pub fn decode_update_client_stream_init(first: Option<MsgUpdateClientStreamChunk>) -> (r: Result<
    UpdateClientStreamInit,
    Status,
>)
    ensures
        first is None ==> (r matches Err(s) && s.code == Code::InvalidArgument
            && s.message@ == "expected Init message as the first message"@),
        first matches Some(c) ==> match c.chunk {
            Some(UpdateClientChunk::Init(i)) => r == Ok::<UpdateClientStreamInit, Status>(i),
            _ => r matches Err(s) && s.code == Code::InvalidArgument && s.message@ == "first message must be of type Init"@,
        },
{
    match first {
        Some(c) => match c.chunk {
            Some(UpdateClientChunk::Init(init)) => Ok(init),
            _ => Err(Status::invalid_argument(String::from_str("first message must be of type Init"))),
        },
        None => Err(Status::invalid_argument(String::from_str("expected Init message as the first message"))),
    }
}

/// An update-client stream after its opening message: the header bytes
/// received so far.
pub struct UpdateClientStreamDecoder {
    init: UpdateClientStreamInit,
    header_bytes: Vec<u8>,
}

impl UpdateClientStreamDecoder {
    pub closed spec fn spec_init(&self) -> UpdateClientStreamInit {
        self.init
    }

    pub closed spec fn spec_header(&self) -> Seq<u8> {
        self.header_bytes@
    }

    pub fn new(init: UpdateClientStreamInit) -> (r: Self)
        ensures
            r.spec_init() == init,
            r.spec_header() == Seq::<u8>::empty(),
    {
        UpdateClientStreamDecoder { init, header_bytes: Vec::new() }
    }

    /// Takes the next message: a header chunk adds its bytes; a second
    /// `Init` or an empty message is refused.
    pub fn push_chunk(&mut self, chunk: Option<UpdateClientChunk>) -> (r: Result<(), Status>)
        ensures
            final(self).spec_init() == old(self).spec_init(),
            match chunk {
                Some(UpdateClientChunk::HeaderChunk(h)) => r is Ok && final(self).spec_header() == old(self).spec_header() + h.data@,
                Some(UpdateClientChunk::Init(_)) => r matches Err(s) && s.code == Code::InvalidArgument
                    && s.message@ == "Init must only appear as the first message"@,
                None => r matches Err(s) && s.code == Code::InvalidArgument && s.message@ == "received empty chunk message"@,
            },
    {
        match chunk {
            Some(UpdateClientChunk::HeaderChunk(h)) => {
                let mut data = h.data;
                self.header_bytes.append(&mut data);
                Ok(())
            },
            Some(UpdateClientChunk::Init(_)) => Err(
                Status::invalid_argument(String::from_str("Init must only appear as the first message")),
            ),
            None => Err(Status::invalid_argument(String::from_str("received empty chunk message"))),
        }
    }

    /// The update that the stream carried, once it has ended; refused when no
    /// header bytes came.
    pub fn finish(self) -> (r: Result<MsgUpdateClient, Status>)
        ensures
            self.spec_header().len() == 0 ==> (r matches Err(s) && s.code == Code::InvalidArgument
                && s.message@ == "no header data received"@),
            self.spec_header().len() > 0 ==> (r matches Ok(m) && {
                &&& m.client_id == self.spec_init().client_id
                &&& m.include_state == self.spec_init().include_state
                &&& m.signer == self.spec_init().signer
                &&& m.header matches Some(h) && h.type_url == self.spec_init().type_url && h.value@ == self.spec_header()
            }),
    {
        if self.header_bytes.len() == 0 {
            return Err(Status::invalid_argument(String::from_str("no header data received")));
        }
        let UpdateClientStreamDecoder { init, header_bytes } = self;
        let UpdateClientStreamInit { client_id, include_state, signer, type_url } = init;
        Ok(MsgUpdateClient {
            client_id,
            include_state,
            signer,
            header: Some(Any { type_url, value: header_bytes }),
        })
    }
}

/// The name of a failure kind, as it is printed.
pub open spec fn failure_kind_name(k: SpeculativeBatchFailureKind) -> Seq<char> {
    match k {
        SpeculativeBatchFailureKind::MixedClientId => "MixedClientId"@,
        SpeculativeBatchFailureKind::DuplicateUnitId => "DuplicateUnitId"@,
        SpeculativeBatchFailureKind::DependencyStateMismatch => "DependencyStateMismatch"@,
        SpeculativeBatchFailureKind::SpeculativeExecutionFailed => "SpeculativeExecutionFailed"@,
        SpeculativeBatchFailureKind::ResultClientMismatch => "ResultClientMismatch"@,
        SpeculativeBatchFailureKind::BatchSizeMismatch => "BatchSizeMismatch"@,
        SpeculativeBatchFailureKind::BaseStateMismatch => "BaseStateMismatch"@,
        SpeculativeBatchFailureKind::StitchApplyFailed => "StitchApplyFailed"@,
    }
}

/// The name of a failure kind.
pub fn failure_kind_str(k: SpeculativeBatchFailureKind) -> (r: &'static str)
    ensures
        r@ == failure_kind_name(k),
{
    match k {
        SpeculativeBatchFailureKind::MixedClientId => "MixedClientId",
        SpeculativeBatchFailureKind::DuplicateUnitId => "DuplicateUnitId",
        SpeculativeBatchFailureKind::DependencyStateMismatch => "DependencyStateMismatch",
        SpeculativeBatchFailureKind::SpeculativeExecutionFailed => "SpeculativeExecutionFailed",
        SpeculativeBatchFailureKind::ResultClientMismatch => "ResultClientMismatch",
        SpeculativeBatchFailureKind::BatchSizeMismatch => "BatchSizeMismatch",
        SpeculativeBatchFailureKind::BaseStateMismatch => "BaseStateMismatch",
        SpeculativeBatchFailureKind::StitchApplyFailed => "StitchApplyFailed",
    }
}

/// How a failed speculative batch is answered: aborted, with the failure's
/// kind and detail.
pub fn batch_failure_status(f: &SpeculativeBatchFailure) -> (r: Status)
    ensures
        r.code == Code::Aborted,
        r.message@ == failure_kind_name(f.kind) + ": "@ + f.detail@,
{
    let mut m = String::from_str(failure_kind_str(f.kind));
    m.append(": ");
    m.append(f.detail.as_str());
    Status::aborted(m)
}

/// How long a batch stream may stay silent before it is given up.
pub const SPECULATIVE_BATCH_STREAM_IDLE_TIMEOUT_SECS: u64 = 60;

/// The message when a batch stream stays silent too long.
pub open spec fn idle_timeout_message(secs: nat) -> Seq<char> {
    "speculative update client batch stream idle timeout after "@ + dec_digits(secs) + " seconds"@
}

/// How a batch stream that stayed silent for `timeout_secs` seconds is
/// answered: deadline exceeded.
pub fn idle_timeout_status(timeout_secs: u64) -> (r: Status)
    ensures
        r.code == Code::DeadlineExceeded,
        r.message@ == idle_timeout_message(timeout_secs as nat),
{
    let mut m = String::from_str("speculative update client batch stream idle timeout after ");
    push_decimal(&mut m, timeout_secs);
    m.append(" seconds");
    Status::deadline_exceeded(m)
}

/// Where the stream's reader found that the scheduler no longer takes
/// units: while units were still coming, or when it handed over the end of
/// the batch.
#[derive(Clone, Copy, Debug, PartialEq, Eq, Structural)]
pub enum SchedulerStopPoint {
    BeforeStreamEnd,
    BeforeBatchEnd,
}

/// The message when the scheduler stopped with no failure of its own.
pub open spec fn scheduler_stopped_message(at: SchedulerStopPoint) -> Seq<char> {
    match at {
        SchedulerStopPoint::BeforeStreamEnd => "speculative batch scheduler stopped before stream ended"@,
        SchedulerStopPoint::BeforeBatchEnd => "speculative batch scheduler stopped before batch_end"@,
    }
}

/// How a batch stream whose scheduler stopped taking units is answered,
/// given the scheduler's failure, if it had one: aborted, with that
/// failure, or with where it stopped.
pub fn scheduler_stopped_status(at: SchedulerStopPoint, failure: Option<&SpeculativeBatchFailure>) -> (r: Status)
    ensures
        r.code == Code::Aborted,
        failure matches Some(f) ==> r.message@ == failure_kind_name(f.kind) + ": "@ + f.detail@,
        failure is None ==> r.message@ == scheduler_stopped_message(at),
{
    match failure {
        Some(f) => batch_failure_status(f),
        None => match at {
            SchedulerStopPoint::BeforeStreamEnd => {
                Status::aborted(String::from_str("speculative batch scheduler stopped before stream ended"))
            },
            SchedulerStopPoint::BeforeBatchEnd => {
                Status::aborted(String::from_str("speculative batch scheduler stopped before batch_end"))
            },
        },
    }
}

} // verus!
