use vstd::prelude::*;
use crate::any::{Any, opt_any_view};
use crate::height::{Height, RawHeight};
use crate::kv::WriteSet;

verus! {

/// Most units a speculative batch may hold.
pub const MAX_SPECULATIVE_BATCH_UNITS: usize = 256;

/// Most resident header bytes, summed over all batch streams.
pub const MAX_SPECULATIVE_BATCH_HEADER_BYTES: usize = 536_870_912;

/// Most header bytes of one unit.
pub const MAX_SPECULATIVE_UNIT_HEADER_BYTES: usize = 268_435_456;

/// An update-client message: the client, its header, and who signs.
#[derive(Clone, Debug, Default)]
pub struct MsgUpdateClient {
    pub client_id: String,
    pub header: Option<Any>,
    pub include_state: bool,
    pub signer: Vec<u8>,
}

/// The response to an update-client message: the signed commitment.
#[derive(Clone, Debug, Default, PartialEq, Eq)]
pub struct MsgUpdateClientResponse {
    pub message: Vec<u8>,
    pub signer: Vec<u8>,
    pub signature: Vec<u8>,
}

/// The state a speculative unit starts from, as far as the caller knows it.
#[derive(Clone, Debug)]
pub struct ExplicitStateRef {
    pub prev_height: Option<Height>,
    pub prev_state_id: Option<Vec<u8>>,
    pub client_state: Option<Any>,
    pub consensus_state: Option<Any>,
}

/// The state transition that the enclave reports for one update.
#[derive(Clone, Debug)]
pub struct ObservedStateTransition {
    pub prev_height: Option<Height>,
    pub prev_state_id: Option<Vec<u8>>,
    pub post_height: Height,
    pub post_state_id: Vec<u8>,
}

/// One unit of a speculative batch.
#[derive(Clone, Debug)]
pub struct SpeculativeUpdateClientRequest {
    pub unit_id: String,
    pub update: MsgUpdateClient,
    pub base_state: ExplicitStateRef,
}

/// The outcome of executing one unit speculatively.
#[derive(Debug)]
pub struct SpeculativeUpdateClientResult {
    pub response: MsgUpdateClientResponse,
    pub write_set: WriteSet,
    pub base_state: ExplicitStateRef,
    pub observed_transition: ObservedStateTransition,
}

/// A unit's outcome once its batch has been stitched.
#[derive(Clone, Debug)]
pub struct StitchedUpdateClientResult {
    pub response: MsgUpdateClientResponse,
    pub observed_transition: ObservedStateTransition,
}

/// A batch of units for one client.
#[derive(Clone, Debug)]
pub struct SpeculativeUpdateClientBatch {
    pub client_id: String,
    pub units: Vec<SpeculativeUpdateClientRequest>,
}

/// The outcomes of a batch's units, in unit order.
#[derive(Debug)]
pub struct SpeculativeUpdateClientBatchResult {
    pub client_id: String,
    pub units: Vec<SpeculativeUpdateClientResult>,
}

/// The stitched outcomes of a batch.
#[derive(Clone, Debug)]
pub struct StitchedUpdateClientBatchResult {
    pub client_id: String,
    pub units: Vec<StitchedUpdateClientResult>,
}

/// Why a speculative batch was refused.
#[derive(Debug, Clone, Copy, PartialEq, Eq, Structural)]
pub enum SpeculativeBatchFailureKind {
    MixedClientId,
    DuplicateUnitId,
    DependencyStateMismatch,
    SpeculativeExecutionFailed,
    ResultClientMismatch,
    BatchSizeMismatch,
    BaseStateMismatch,
    StitchApplyFailed,
}

/// A refused batch: the reason, the unit concerned if any, and a message.
#[derive(Debug, Clone)]
pub struct SpeculativeBatchFailure {
    pub kind: SpeculativeBatchFailureKind,
    pub unit_id: Option<String>,
    pub detail: String,
}

/// An error reported by the enclave side.
#[derive(Debug, Clone)]
pub enum EnclaveError {
    InvalidArgument { descr: String },
    Other { descr: String },
}

impl EnclaveError {
    /// The message of the error.
    pub fn message(&self) -> (r: &String)
        ensures
            r@ == self.descr(),
    {
        match self {
            EnclaveError::InvalidArgument { descr } => descr,
            EnclaveError::Other { descr } => descr,
        }
    }

    pub open spec fn descr(&self) -> Seq<char> {
        match self {
            EnclaveError::InvalidArgument { descr } => descr@,
            EnclaveError::Other { descr } => descr@,
        }
    }
}

/// The view of an optional byte string.
pub open spec fn opt_vec_view(o: Option<Vec<u8>>) -> Option<Seq<u8>> {
    match o {
        Some(v) => Some(v@),
        None => None,
    }
}

/// The view of an optional string.
pub open spec fn opt_string_view(o: Option<String>) -> Option<Seq<char>> {
    match o {
        Some(v) => Some(v@),
        None => None,
    }
}

impl ExplicitStateRef {
    /// Prev height, client state and consensus state are all present.
    pub open spec fn is_complete(&self) -> bool {
        self.prev_height is Some && self.client_state is Some && self.consensus_state is Some
    }

    pub fn has_complete_base_state_payload(&self) -> (r: bool)
        ensures
            r == self.is_complete(),
    {
        self.prev_height.is_some() && self.client_state.is_some() && self.consensus_state.is_some()
    }
}

impl SpeculativeUpdateClientRequest {
    /// The key that orders updates: the client identifier.
    pub fn update_key(&self) -> (r: String)
        ensures
            r@ == self.update.client_id@,
    {
        self.update.client_id.clone()
    }

    /// The length of the header payload, zero when there is none.
    pub open spec fn header_len(&self) -> nat {
        match self.update.header {
            Some(h) => h.value@.len(),
            None => 0,
        }
    }
}

/// A set of unit identifiers, kept as a vector without repetitions.
pub struct UnitIdSet {
    ids: Vec<String>,
}

impl UnitIdSet {
    pub closed spec fn set(&self) -> Set<Seq<char>> {
        self.ids@.map_values(|s: String| s@).to_set()
    }

    pub closed spec fn wf(&self) -> bool {
        self.ids@.map_values(|s: String| s@).no_duplicates()
    }

    pub fn new() -> (r: Self)
        ensures
            r.wf(),
            r.set() == Set::<Seq<char>>::empty(),
    {
        let r = UnitIdSet { ids: Vec::new() };
        assert(r.ids@.map_values(|s: String| s@) =~= Seq::<Seq<char>>::empty());
        r
    }

    pub fn contains(&self, id: &str) -> (r: bool)
        ensures
            r == self.set().contains(id@),
    {
        let ghost vs = self.ids@.map_values(|s: String| s@);
        let mut i: usize = 0;
        while i < self.ids.len()
            invariant
                i <= self.ids@.len(),
                vs == self.ids@.map_values(|s: String| s@),
                forall|j: int| 0 <= j < i ==> vs[j] != id@,
            decreases self.ids@.len() - i,
        {
            if crate::client_id::str_eq(self.ids[i].as_str(), id) {
                assert(vs[i as int] == id@);
                return true;
            }
            i = i + 1;
        }
        false
    }

    /// Adds an identifier; false when it was already present.
    pub fn insert(&mut self, id: String) -> (r: bool)
        requires
            old(self).wf(),
        ensures
            final(self).wf(),
            r == !old(self).set().contains(id@),
            final(self).set() == old(self).set().insert(id@),
    {
        if self.contains(id.as_str()) {
            assert(self.set() =~= self.set().insert(id@));
            return false;
        }
        let ghost old_vs = self.ids@.map_values(|s: String| s@);
        self.ids.push(id);
        proof {
            let vs = self.ids@.map_values(|s: String| s@);
            assert(vs =~= old_vs.push(id@));
            assert(!old_vs.contains(id@));
            assert forall|x: Seq<char>| vs.to_set().contains(x) <==> old_vs.to_set().insert(id@).contains(x) by {
                if vs.contains(x) {
                    let j = choose|j: int| 0 <= j < vs.len() && vs[j] == x;
                    if j < old_vs.len() {
                        assert(old_vs[j] == x);
                    }
                }
                if old_vs.contains(x) {
                    let j = choose|j: int| 0 <= j < old_vs.len() && old_vs[j] == x;
                    assert(vs[j] == x);
                }
                if x == id@ {
                    assert(vs[old_vs.len() as int] == x);
                }
            }
            assert(vs.to_set() =~= old_vs.to_set().insert(id@));
        }
        true
    }
}

} // verus!
