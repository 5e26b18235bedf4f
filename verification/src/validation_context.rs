use vstd::prelude::*;
use crate::rlpcodec::{
    concat, plain_item, plain_items, rlp_encode_list, rlp_encode_uint, rlp_item_at, rlp_list, rlp_list_item,
    rlp_list_u64, rlp_u64_at, rlp_uint, uints, lemma_rlp_uint_u128_len,
};
use crate::time::{Duration, Time};

verus! {

/// What a validation runs against: the current time.
#[derive(Clone, Copy, Debug, PartialEq, Eq)]
pub struct ValidationContext {
    pub current_timestamp: Time,
}

impl ValidationContext {
    pub fn new(current_timestamp: Time) -> (r: Self)
        ensures
            r.current_timestamp == current_timestamp,
    {
        ValidationContext { current_timestamp }
    }
}

/// How long a trusted state stays trusted, and how far behind a header's
/// time the local clock may drift.
#[derive(Copy, Clone, Debug, PartialEq)]
pub struct TendermintValidationOptions {
    pub trusting_period: Duration,
    pub clock_drift: Duration,
}

/// The timestamps and options a Tendermint update is validated with.
#[derive(Clone, Debug, PartialEq)]
pub struct TendermintValidationParams {
    pub options: TendermintValidationOptions,
    pub untrusted_header_timestamp: u64,
    pub trusted_consensus_state_timestamp: u64,
}

/// The encoding of Tendermint validation parameters: an RLP list of the
/// list of the two option durations in nanoseconds, then the untrusted
/// header timestamp and the trusted consensus state timestamp.
pub open spec fn tm_params_bytes(p: TendermintValidationParams) -> Seq<u8> {
    rlp_list(
        rlp_list(rlp_uint(p.options.trusting_period.total_nanos()) + rlp_uint(p.options.clock_drift.total_nanos()))
            + rlp_uint(p.untrusted_header_timestamp as nat) + rlp_uint(p.trusted_consensus_state_timestamp as nat),
    )
}

/// The four numbers that the RLP decoder reads back from such an encoding,
/// in order: trusting period and clock drift in nanoseconds, untrusted
/// header timestamp, trusted consensus state timestamp; `None` when any of
/// them cannot be read.
pub open spec fn tm_params_decode(bz: Seq<u8>) -> Option<(u64, u64, u64, u64)> {
    match rlp_list_item(bz, 0) {
        None => None,
        Some(o) => match (rlp_list_u64(o, 0), rlp_list_u64(o, 1), rlp_list_u64(bz, 1), rlp_list_u64(bz, 2)) {
            (Some(a), Some(b), Some(c), Some(d)) => Some((a, b, c, d)),
            _ => None,
        },
    }
}

/// Parameters carry the four numbers read back.
pub open spec fn tm_params_from(p: TendermintValidationParams, v: (u64, u64, u64, u64)) -> bool {
    &&& p.options.trusting_period.wf()
    &&& p.options.trusting_period.total_nanos() == v.0
    &&& p.options.clock_drift.wf()
    &&& p.options.clock_drift.total_nanos() == v.1
    &&& p.untrusted_header_timestamp == v.2
    &&& p.trusted_consensus_state_timestamp == v.3
}

/// Both option periods can be read back as `u64` nanoseconds.
pub open spec fn tm_params_fit(p: TendermintValidationParams) -> bool {
    p.options.trusting_period.total_nanos() <= u64::MAX && p.options.clock_drift.total_nanos() <= u64::MAX
}

/// The numbers that parameters encode.
pub open spec fn tm_params_numbers(p: TendermintValidationParams) -> (u64, u64, u64, u64) {
    (
        p.options.trusting_period.total_nanos() as u64,
        p.options.clock_drift.total_nanos() as u64,
        p.untrusted_header_timestamp,
        p.trusted_consensus_state_timestamp,
    )
}

/// The encoding of parameters whose periods fit, as a list of plain items:
/// the list of the two periods, then the two timestamps.
proof fn lemma_tm_params_items(p: TendermintValidationParams)
    requires
        tm_params_fit(p),
    ensures
        ({
            let opts = rlp_list(rlp_uint(p.options.trusting_period.total_nanos()) + rlp_uint(p.options.clock_drift.total_nanos()));
            let items = seq![
                opts,
                rlp_uint(p.untrusted_header_timestamp as nat),
                rlp_uint(p.trusted_consensus_state_timestamp as nat),
            ];
            let inner = seq![
                rlp_uint(p.options.trusting_period.total_nanos()),
                rlp_uint(p.options.clock_drift.total_nanos()),
            ];
            &&& tm_params_bytes(p) == rlp_list(concat(items))
            &&& plain_items(items)
            &&& opts == rlp_list(concat(inner))
            &&& plain_items(inner)
        }),
{
    let tp = p.options.trusting_period.total_nanos();
    let cd = p.options.clock_drift.total_nanos();
    let u = p.untrusted_header_timestamp as nat;
    let t = p.trusted_consensus_state_timestamp as nat;
    let opts = rlp_list(rlp_uint(tp) + rlp_uint(cd));
    let items = seq![opts, rlp_uint(u), rlp_uint(t)];
    let inner = seq![rlp_uint(tp), rlp_uint(cd)];
    reveal_with_fuel(concat, 4);
    reveal_with_fuel(uints, 3);
    assert(concat(items) =~= opts + rlp_uint(u) + rlp_uint(t));
    assert(concat(inner) =~= rlp_uint(tp) + rlp_uint(cd));
    let ns = seq![tp as u128, cd as u128];
    assert(uints(ns) =~= rlp_uint(tp) + rlp_uint(cd));
    assert(plain_item(items[0]));
    assert(items[1] == rlp_uint((u as u128) as nat));
    assert(plain_item(items[1]));
    assert(items[2] == rlp_uint((t as u128) as nat));
    assert(plain_item(items[2]));
    assert(inner[0] == rlp_uint((tp as u128) as nat));
    assert(plain_item(inner[0]));
    assert(inner[1] == rlp_uint((cd as u128) as nat));
    assert(plain_item(inner[1]));
}

/// Reads the four numbers of an encoding, `tm_params_decode`; on the
/// encoding of parameters whose periods fit, those parameters' numbers.
fn tm_params_decode_exec(bz: &[u8]) -> (r: Option<(u64, u64, u64, u64)>)
    ensures
        r == tm_params_decode(bz@),
        forall|p: TendermintValidationParams| #[trigger] tm_params_bytes(p) == bz@ && tm_params_fit(p)
            ==> r == Some(tm_params_numbers(p)),
{
    let options = match rlp_item_at(bz, 0) {
        Some(o) => o,
        None => {
            assert forall|p: TendermintValidationParams| #[trigger] tm_params_bytes(p) == bz@ && tm_params_fit(p)
                implies false by {
                lemma_tm_params_items(p);
            }
            return None;
        },
    };
    let trusting = rlp_u64_at(options.as_slice(), 0);
    let drift = rlp_u64_at(options.as_slice(), 1);
    let untrusted = rlp_u64_at(bz, 1);
    let trusted = rlp_u64_at(bz, 2);
    assert forall|p: TendermintValidationParams| #[trigger] tm_params_bytes(p) == bz@ && tm_params_fit(p)
        implies trusting == Some(tm_params_numbers(p).0) && drift == Some(tm_params_numbers(p).1)
            && untrusted == Some(tm_params_numbers(p).2) && trusted == Some(tm_params_numbers(p).3) by {
        lemma_tm_params_items(p);
        let tp = p.options.trusting_period.total_nanos();
        let cd = p.options.clock_drift.total_nanos();
        let opts = rlp_list(rlp_uint(tp) + rlp_uint(cd));
        let items = seq![opts, rlp_uint(p.untrusted_header_timestamp as nat), rlp_uint(p.trusted_consensus_state_timestamp as nat)];
        let inner = seq![rlp_uint(tp), rlp_uint(cd)];
        assert(options@ == items[0]);
        assert(options@ == rlp_list(concat(inner)));
        assert(inner[0] == rlp_uint((tp as u128) as nat));
        assert(inner[1] == rlp_uint((cd as u128) as nat));
        assert(items[1] == rlp_uint((p.untrusted_header_timestamp as u128) as nat));
        assert(items[2] == rlp_uint((p.trusted_consensus_state_timestamp as u128) as nat));
    }
    match (trusting, drift, untrusted, trusted) {
        (Some(a), Some(b), Some(c), Some(d)) => Some((a, b, c, d)),
        _ => None,
    }
}

impl TendermintValidationParams {
    /// The encoding `tm_params_bytes`, made with the RLP encoder.
    pub fn to_vec(&self) -> (r: Vec<u8>)
        ensures
            r@ == tm_params_bytes(*self),
    {
        let tp = self.options.trusting_period.as_nanos();
        let cd = self.options.clock_drift.as_nanos();
        proof {
            lemma_rlp_uint_u128_len(tp);
            lemma_rlp_uint_u128_len(cd);
            lemma_rlp_uint_u128_len(self.untrusted_header_timestamp as u128);
            lemma_rlp_uint_u128_len(self.trusted_consensus_state_timestamp as u128);
        }
        let mut inner = rlp_encode_uint(tp);
        let mut drift = rlp_encode_uint(cd);
        inner.append(&mut drift);
        let mut payload = rlp_encode_list(inner.as_slice(), 2);
        let mut untrusted = rlp_encode_uint(self.untrusted_header_timestamp as u128);
        let mut trusted = rlp_encode_uint(self.trusted_consensus_state_timestamp as u128);
        payload.append(&mut untrusted);
        payload.append(&mut trusted);
        assert(payload@.len() <= 36 + 34);
        let r = rlp_encode_list(payload.as_slice(), 3);
        assert(payload@ =~= rlp_list(rlp_uint(self.options.trusting_period.total_nanos())
            + rlp_uint(self.options.clock_drift.total_nanos())) + rlp_uint(self.untrusted_header_timestamp as nat)
            + rlp_uint(self.trusted_consensus_state_timestamp as nat));
        r
    }

    /// Reads parameters back from their encoding, which must be readable
    /// (the decoder's answers are unwrapped). Encoding parameters whose
    /// periods fit in `u64` nanoseconds and reading them back gives the same
    /// numbers.
    pub fn from_bytes(bz: &[u8]) -> (r: Self)
        requires
            tm_params_decode(bz@) is Some,
        ensures
            tm_params_from(r, tm_params_decode(bz@)->0),
            forall|p: TendermintValidationParams| #[trigger] tm_params_bytes(p) == bz@ && tm_params_fit(p)
                ==> tm_params_from(r, tm_params_numbers(p)),
    {
        let (a, b, c, d) = match tm_params_decode_exec(bz) {
            Some(v) => v,
            None => {
                assert(false);
                (0, 0, 0, 0)
            },
        };
        TendermintValidationParams {
            options: TendermintValidationOptions {
                trusting_period: Duration::from_nanos(a),
                clock_drift: Duration::from_nanos(b),
            },
            untrusted_header_timestamp: c,
            trusted_consensus_state_timestamp: d,
        }
    }

    /// Reads parameters back from their encoding; `None` when a number
    /// cannot be read. Encoding parameters whose periods fit in `u64`
    /// nanoseconds and reading them back gives the same numbers.
    pub fn try_from_bytes(bz: &[u8]) -> (r: Option<Self>)
        ensures
            match tm_params_decode(bz@) {
                None => r is None,
                Some(v) => r matches Some(p) && tm_params_from(p, v),
            },
            forall|p: TendermintValidationParams| #[trigger] tm_params_bytes(p) == bz@ && tm_params_fit(p)
                ==> (r matches Some(q) && tm_params_from(q, tm_params_numbers(p))),
    {
        match tm_params_decode_exec(bz) {
            Some(_) => Some(Self::from_bytes(bz)),
            None => None,
        }
    }
}

/// The parameters of a validation, by light client kind.
#[derive(Clone, Debug, PartialEq)]
pub enum ValidationParams {
    Empty,
    Tendermint(TendermintValidationParams),
}

impl Default for ValidationParams {
    fn default() -> (r: Self)
        ensures
            r is Empty,
    {
        ValidationParams::Empty
    }
}

/// The encoding of validation parameters: a tag byte, zero for none and one
/// for Tendermint, then the Tendermint encoding.
pub open spec fn validation_params_bytes(p: ValidationParams) -> Seq<u8> {
    match p {
        ValidationParams::Empty => seq![0u8],
        ValidationParams::Tendermint(t) => seq![1u8] + tm_params_bytes(t),
    }
}

/// The encodings that can be read back: the tag of none, or the tag of
/// Tendermint followed by readable Tendermint parameters.
pub open spec fn validation_params_readable(bz: Seq<u8>) -> bool {
    bz.len() > 0 && (bz[0] == 0 || (bz[0] == 1 && tm_params_decode(bz.subrange(1, bz.len() as int)) is Some))
}

/// What is read back from a readable encoding.
pub open spec fn validation_params_from(r: ValidationParams, bz: Seq<u8>) -> bool {
    if bz[0] == 0 {
        r is Empty
    } else {
        r matches ValidationParams::Tendermint(t) && tm_params_from(t, tm_params_decode(bz.subrange(1, bz.len() as int))->0)
    }
}

impl ValidationParams {
    /// The encoding `validation_params_bytes`.
    pub fn to_vec(&self) -> (r: Vec<u8>)
        ensures
            r@ == validation_params_bytes(*self),
    {
        match self {
            ValidationParams::Empty => {
                let mut v: Vec<u8> = Vec::new();
                v.push(0);
                v
            },
            ValidationParams::Tendermint(params) => {
                let mut bz: Vec<u8> = Vec::new();
                bz.push(1);
                let mut t = params.to_vec();
                bz.append(&mut t);
                bz
            },
        }
    }

    /// Reads parameters back from a readable encoding. Encoding parameters
    /// (with Tendermint periods that fit in `u64` nanoseconds) and reading
    /// them back gives the same content.
    pub fn from_bytes(bz: &[u8]) -> (r: Self)
        requires
            validation_params_readable(bz@),
        ensures
            validation_params_from(r, bz@),
            forall|p: ValidationParams| #[trigger] validation_params_bytes(p) == bz@
                && (p matches ValidationParams::Tendermint(t) ==> tm_params_fit(t))
                ==> match p {
                    ValidationParams::Empty => r is Empty,
                    ValidationParams::Tendermint(t) => r matches ValidationParams::Tendermint(t2)
                        && tm_params_from(t2, tm_params_numbers(t)),
                },
    {
        if bz[0] == 0 {
            ValidationParams::Empty
        } else {
            let rest = vstd::slice::slice_subrange(bz, 1, bz.len());
            let t = TendermintValidationParams::from_bytes(rest);
            assert forall|p: ValidationParams| #[trigger] validation_params_bytes(p) == bz@
                && (p matches ValidationParams::Tendermint(t) ==> tm_params_fit(t))
                implies (p matches ValidationParams::Tendermint(pt) && tm_params_bytes(pt) == rest@) by {
                if let ValidationParams::Tendermint(pt) = p {
                    assert(rest@ =~= tm_params_bytes(pt));
                }
            }
            ValidationParams::Tendermint(t)
        }
    }

    /// Reads parameters back; `None` when the input is not a readable
    /// encoding. Encoding parameters (with Tendermint periods that fit in
    /// `u64` nanoseconds) and reading them back gives the same content.
    pub fn try_from_bytes(bz: &[u8]) -> (r: Option<Self>)
        ensures
            r is Some <==> validation_params_readable(bz@),
            r matches Some(p) ==> validation_params_from(p, bz@),
            forall|p: ValidationParams| #[trigger] validation_params_bytes(p) == bz@
                && (p matches ValidationParams::Tendermint(t) ==> tm_params_fit(t))
                ==> (r matches Some(q) && match p {
                    ValidationParams::Empty => q is Empty,
                    ValidationParams::Tendermint(t) => q matches ValidationParams::Tendermint(t2)
                        && tm_params_from(t2, tm_params_numbers(t)),
                }),
    {
        if bz.len() == 0 {
            return None;
        }
        if bz[0] == 0 {
            return Some(Self::from_bytes(bz));
        }
        if bz[0] != 1 {
            return None;
        }
        let rest = vstd::slice::slice_subrange(bz, 1, bz.len());
        let decoded = TendermintValidationParams::try_from_bytes(rest);
        assert forall|p: ValidationParams| #[trigger] validation_params_bytes(p) == bz@
            && (p matches ValidationParams::Tendermint(t) ==> tm_params_fit(t))
            implies (p matches ValidationParams::Tendermint(t) && tm_params_bytes(t) == rest@) by {
            if let ValidationParams::Tendermint(t) = p {
                assert(rest@ =~= tm_params_bytes(t));
            }
        }
        match decoded {
            Some(_) => Some(Self::from_bytes(bz)),
            None => None,
        }
    }
}

/// The time a validation runs at, in whole seconds since the epoch, as the
/// predicate compares it with timestamps and periods in seconds.
pub open spec fn context_now(vctx: ValidationContext) -> int {
    vctx.current_timestamp.spec_nanos() as int / 1_000_000_000
}

/// The Tendermint checks: the trusted consensus state is still within its
/// trusting period, and the header is not from the future beyond the
/// allowed clock drift. Sums that would overflow `u64` are left out.
pub open spec fn tm_predicate_holds(now: int, p: TendermintValidationParams) -> bool {
    &&& p.trusted_consensus_state_timestamp + p.options.trusting_period.spec_secs() <= u64::MAX
    &&& now + p.options.clock_drift.spec_secs() <= u64::MAX
    &&& p.trusted_consensus_state_timestamp + p.options.trusting_period.spec_secs() > now
    &&& p.untrusted_header_timestamp < now + p.options.clock_drift.spec_secs()
}

/// The checks of a validation: none for empty parameters, the Tendermint
/// checks otherwise.
pub open spec fn validation_holds(vctx: ValidationContext, params: ValidationParams) -> bool {
    match params {
        ValidationParams::Empty => true,
        ValidationParams::Tendermint(p) => tm_predicate_holds(context_now(vctx), p),
    }
}

/// Validates a Tendermint update against the current time.
pub struct TendermintValidationPredicate;

impl TendermintValidationPredicate {
    /// The trusted state has not outlived its trusting period.
    pub fn is_within_trust_period(trusted_state_time: u64, trusting_period: u64, now: u64) -> (r: bool)
        requires
            trusted_state_time + trusting_period <= u64::MAX,
        ensures
            r == (trusted_state_time + trusting_period > now),
    {
        trusted_state_time + trusting_period > now
    }

    /// The header is not from the future beyond the clock drift.
    pub fn is_header_from_past(untrusted_header_time: u64, clock_drift: u64, now: u64) -> (r: bool)
        requires
            now + clock_drift <= u64::MAX,
        ensures
            r == (untrusted_header_time < now + clock_drift),
    {
        untrusted_header_time < now + clock_drift
    }

    /// Whether the Tendermint checks hold, without failing on any input.
    pub fn holds(vctx: &ValidationContext, params: &TendermintValidationParams) -> (r: bool)
        ensures
            r == tm_predicate_holds(context_now(*vctx), *params),
    {
        let now = vctx.current_timestamp.as_unix_timestamp_secs();
        let period = params.options.trusting_period.as_secs();
        let drift = params.options.clock_drift.as_secs();
        if params.trusted_consensus_state_timestamp > u64::MAX - period || now > u64::MAX - drift {
            return false;
        }
        Self::is_within_trust_period(params.trusted_consensus_state_timestamp, period, now)
            && Self::is_header_from_past(params.untrusted_header_timestamp, drift, now)
    }

    /// Validates Tendermint parameters, which must pass the checks; the
    /// answer is then `Ok(true)`.
    pub fn predicate(vctx: &ValidationContext, params: &ValidationParams) -> (r: Result<bool, ()>)
        requires
            params is Tendermint,
            validation_holds(*vctx, *params),
        ensures
            r == Ok::<bool, ()>(true),
    {
        match params {
            ValidationParams::Tendermint(p) => {
                let now = vctx.current_timestamp.as_unix_timestamp_secs();
                let within = Self::is_within_trust_period(
                    p.trusted_consensus_state_timestamp,
                    p.options.trusting_period.as_secs(),
                    now,
                );
                let from_past = Self::is_header_from_past(p.untrusted_header_timestamp, p.options.clock_drift.as_secs(), now);
                assert(within && from_past);
                Ok(true)
            },
            ValidationParams::Empty => Ok(true),
        }
    }
}

/// Validates parameters against the context: empty parameters always pass;
/// Tendermint parameters must pass their checks, and the answer is then
/// `Ok(true)`.
pub fn validation_predicate(vctx: &ValidationContext, params: &ValidationParams) -> (r: Result<bool, ()>)
    requires
        validation_holds(*vctx, *params),
    ensures
        r == Ok::<bool, ()>(true),
{
    match params {
        ValidationParams::Empty => Ok(true),
        ValidationParams::Tendermint(_) => TendermintValidationPredicate::predicate(vctx, params),
    }
}

} // verus!
