//! The per-request admission state machine.
//!
//! On header receipt the filter decides, from the `:path` pseudo-header,
//! the `Authorization` header and the current cache blob, whether to
//! reject the request locally, admit it upstream (consuming quota), or
//! defer it behind an asynchronous authorization call. When the deferred
//! response arrives, a second decision maps the backend's status to the
//! request's terminal outcome. Exactly one terminal action is taken per
//! request: each decision value names exactly one.

use vstd::prelude::*;
use crate::codec::{decode_blob, encode_blob, spec_decode_blob, spec_encode_blob};
use crate::json::{encode_auth_request, extract_status_field, spec_auth_request, spec_status_field};
use crate::records::{
    find_record_index, increment_used, spec_find_record, spec_increment_first, QuotaRecordModel,
};

verus! {

/// The client-facing responses the filter produces itself, with their
/// fixed status/body pairs.
#[derive(PartialEq, Eq, Structural, Clone, Copy, Debug)]
pub enum LocalResponse {
    /// 403, on a request without an `Authorization` header.
    Forbidden,
    /// 429, on a locally exhausted quota.
    QuotaExhausted,
    /// 401, mapped from the authorization backend.
    Unauthorized,
    /// 429, mapped from the authorization backend.
    UpstreamQuotaExhausted,
    /// 500, on a failed, empty or malformed backend response.
    Unavailable,
}

/// The decision taken on header receipt.
pub enum HeaderDecision {
    /// Answer the client locally with the named response; no upstream
    /// call, no cache write.
    Reject(LocalResponse),
    /// Forward the request upstream at once and write `new_blob` (the
    /// cache with this route's `used` raised by one) back to the shared
    /// store; no authorization dispatch.
    Admit { new_blob: Vec<u8> },
    /// Suspend the request and dispatch `body` to the authorization
    /// backend; no cache write.
    DispatchAuth { body: Vec<u8> },
}

/// Mathematical model of a `HeaderDecision`.
pub enum DecisionModel {
    Reject(LocalResponse),
    Admit(Seq<u8>),
    DispatchAuth(Seq<u8>),
}

impl HeaderDecision {
    pub open spec fn model(&self) -> DecisionModel {
        match self {
            HeaderDecision::Reject(r) => DecisionModel::Reject(*r),
            HeaderDecision::Admit { new_blob } => DecisionModel::Admit(new_blob@),
            HeaderDecision::DispatchAuth { body } => DecisionModel::DispatchAuth(body@),
        }
    }
}

/// Whether `path` is one of the quota-tracked paths.
pub open spec fn spec_tracked_contains(tracked_paths: Seq<Seq<u8>>, path: Seq<u8>) -> bool {
    exists|i: int| 0 <= i < tracked_paths.len() && tracked_paths[i] == path
}

/// The view of an optional blob read from the shared store.
pub open spec fn spec_blob_view(blob: Option<&Vec<u8>>) -> Option<Seq<u8>> {
    match blob {
        Some(b) => Some(b@),
        None => None,
    }
}

/// The record the cache holds for `path`: none when the store is
/// uninitialized, the blob is malformed, or the path is unknown.
pub open spec fn spec_cache_lookup(blob: Option<Seq<u8>>, path: Seq<u8>) -> Option<
    QuotaRecordModel,
> {
    match blob {
        None => None,
        Some(b) => match spec_decode_blob(b) {
            None => None,
            Some(rs) => spec_find_record(rs, path),
        },
    }
}

/// The header-receipt decision, in full:
/// no `Authorization` header rejects with 403 whatever the cache holds;
/// an untracked path dispatches an authorization call without consulting
/// the cache; a tracked path with a cached record admits under quota
/// (raising `used` by one in the written-back blob) and rejects with 429
/// at quota; a tracked path without a usable record (uninitialized store,
/// malformed blob, unknown path) falls back to the authorization call.
pub open spec fn spec_decide(
    tracked_paths: Seq<Seq<u8>>,
    blob: Option<Seq<u8>>,
    path: Seq<u8>,
    token: Option<Seq<u8>>,
) -> DecisionModel {
    match token {
        None => DecisionModel::Reject(LocalResponse::Forbidden),
        Some(t) => if !spec_tracked_contains(tracked_paths, path) {
            DecisionModel::DispatchAuth(spec_auth_request(t, path))
        } else {
            match spec_cache_lookup(blob, path) {
                None => DecisionModel::DispatchAuth(spec_auth_request(t, path)),
                Some(rec) => if rec.used < rec.quota {
                    DecisionModel::Admit(
                        spec_encode_blob(
                            spec_increment_first(spec_decode_blob(blob->Some_0)->Some_0, path),
                        ),
                    )
                } else {
                    DecisionModel::Reject(LocalResponse::QuotaExhausted)
                },
            }
        },
    }
}

/// Whether `path` is one of the quota-tracked paths.
pub fn is_tracked_path(tracked_paths: &Vec<Vec<u8>>, path: &[u8]) -> (r: bool)
    ensures
        r == spec_tracked_contains(tracked_paths.deep_view(), path@),
{
    let ghost tp = tracked_paths.deep_view();
    let mut i: usize = 0;
    while i < tracked_paths.len()
        invariant
            0 <= i <= tracked_paths@.len(),
            tp == tracked_paths.deep_view(),
            tp.len() == tracked_paths@.len(),
            forall|j: int| 0 <= j < tracked_paths@.len() ==> tp[j] == tracked_paths@[j]@,
            forall|j: int| 0 <= j < i ==> tp[j] != path@,
        decreases tracked_paths@.len() - i,
    {
        if crate::records::bytes_eq(tracked_paths[i].as_slice(), path) {
            assert(0 <= i < tp.len() && tp[i as int] == path@);
            return true;
        }
        i = i + 1;
    }
    false
}

/// The decision taken on header receipt, per `spec_decide`.
pub fn decide_request(
    tracked_paths: &Vec<Vec<u8>>,
    blob: Option<&Vec<u8>>,
    path: &Vec<u8>,
    token: Option<&Vec<u8>>,
) -> (d: HeaderDecision)
    ensures
        d.model() == spec_decide(
            tracked_paths.deep_view(),
            spec_blob_view(blob),
            path@,
            match token {
                Some(t) => Some(t@),
                None => None,
            },
        ),
{
    let t = match token {
        None => {
            return HeaderDecision::Reject(LocalResponse::Forbidden);
        },
        Some(t) => t,
    };
    if !is_tracked_path(tracked_paths, path.as_slice()) {
        return HeaderDecision::DispatchAuth {
            body: encode_auth_request(t.as_slice(), path.as_slice()),
        };
    }
    let b = match blob {
        None => {
            return HeaderDecision::DispatchAuth {
                body: encode_auth_request(t.as_slice(), path.as_slice()),
            };
        },
        Some(b) => b,
    };
    let mut records = match decode_blob(b.as_slice()) {
        None => {
            return HeaderDecision::DispatchAuth {
                body: encode_auth_request(t.as_slice(), path.as_slice()),
            };
        },
        Some(records) => records,
    };
    let i = match find_record_index(&records, path.as_slice()) {
        None => {
            return HeaderDecision::DispatchAuth {
                body: encode_auth_request(t.as_slice(), path.as_slice()),
            };
        },
        Some(i) => i,
    };
    if records[i].used < records[i].quota {
        increment_used(&mut records, path.as_slice());
        let new_blob = encode_blob(&records);
        HeaderDecision::Admit { new_blob }
    } else {
        HeaderDecision::Reject(LocalResponse::QuotaExhausted)
    }
}

/// The cached record for a quota-tracked path: `None` for a path outside
/// the tracked set (the cache is not even consulted there), for an
/// uninitialized or malformed blob, and for a path the blob does not
/// know — a reader must never synthesize a record for an unknown path.
pub fn get_cache_record(
    tracked_paths: &Vec<Vec<u8>>,
    blob: Option<&Vec<u8>>,
    path: &Vec<u8>,
) -> (r: Option<crate::records::QuotaRecord>)
    ensures
        match r {
            Some(rec) => spec_tracked_contains(tracked_paths.deep_view(), path@)
                && spec_cache_lookup(spec_blob_view(blob), path@) == Some(rec@),
            None => !spec_tracked_contains(tracked_paths.deep_view(), path@)
                || spec_cache_lookup(spec_blob_view(blob), path@) is None,
        },
{
    if !is_tracked_path(tracked_paths, path.as_slice()) {
        return None;
    }
    let b = match blob {
        None => {
            return None;
        },
        Some(b) => b,
    };
    let mut records = match decode_blob(b.as_slice()) {
        None => {
            return None;
        },
        Some(records) => records,
    };
    match find_record_index(&records, path.as_slice()) {
        None => None,
        Some(i) => Some(records.remove(i)),
    }
}

/// The blob to write back after an admitted request to `path`: the given
/// blob with that record's `used` raised by one. `None` when the blob
/// does not decode, holds no record for `path`, or that record's `used`
/// cannot be raised.
pub open spec fn spec_update_blob(b: Seq<u8>, path: Seq<u8>) -> Option<Seq<u8>> {
    match spec_decode_blob(b) {
        None => None,
        Some(rs) => match spec_find_record(rs, path) {
            None => None,
            Some(rec) => if rec.used < u64::MAX {
                Some(spec_encode_blob(spec_increment_first(rs, path)))
            } else {
                None
            },
        },
    }
}

/// Re-encodes `blob` with one more call consumed on `path`, per
/// `spec_update_blob`.
pub fn update_cache_record(blob: &Vec<u8>, path: &Vec<u8>) -> (r: Option<Vec<u8>>)
    ensures
        match r {
            Some(nb) => spec_update_blob(blob@, path@) == Some(nb@),
            None => spec_update_blob(blob@, path@) is None,
        },
{
    let mut records = match decode_blob(blob.as_slice()) {
        None => {
            return None;
        },
        Some(records) => records,
    };
    let i = match find_record_index(&records, path.as_slice()) {
        None => {
            return None;
        },
        Some(i) => i,
    };
    if records[i].used == u64::MAX {
        return None;
    }
    increment_used(&mut records, path.as_slice());
    Some(encode_blob(&records))
}

/// The terminal outcome of a request that was deferred behind an
/// authorization call.
#[derive(PartialEq, Eq, Structural, Clone, Copy, Debug)]
pub enum AuthOutcome {
    /// Resume the original request upstream.
    Resume,
    /// Answer the client with the named local response.
    Reject(LocalResponse),
}

/// The documented mapping from the backend's status to the request's
/// terminal outcome: 200 resumes, 401 and 429 map to the like-numbered
/// rejections, anything else — a missing, empty or unparsable body
/// included — rejects with 500.
pub open spec fn spec_auth_outcome(status: Option<u64>) -> AuthOutcome {
    match status {
        None => AuthOutcome::Reject(LocalResponse::Unavailable),
        Some(s) => if s == 200 {
            AuthOutcome::Resume
        } else if s == 401 {
            AuthOutcome::Reject(LocalResponse::Unauthorized)
        } else if s == 429 {
            AuthOutcome::Reject(LocalResponse::UpstreamQuotaExhausted)
        } else {
            AuthOutcome::Reject(LocalResponse::Unavailable)
        },
    }
}

/// Maps a backend status, as read out of the response body, to the
/// request's terminal outcome, per `spec_auth_outcome`.
pub fn auth_status_outcome(status: Option<u64>) -> (o: AuthOutcome)
    ensures
        o == spec_auth_outcome(status),
{
    match status {
        None => AuthOutcome::Reject(LocalResponse::Unavailable),
        Some(s) => if s == 200 {
            AuthOutcome::Resume
        } else if s == 401 {
            AuthOutcome::Reject(LocalResponse::Unauthorized)
        } else if s == 429 {
            AuthOutcome::Reject(LocalResponse::UpstreamQuotaExhausted)
        } else {
            AuthOutcome::Reject(LocalResponse::Unavailable)
        },
    }
}

/// The decision on arrival of the deferred authorization response: the
/// outcome of the status the body carries; a missing body (failed call,
/// timeout) rejects with 500.
pub fn on_auth_response(body: Option<&Vec<u8>>) -> (o: AuthOutcome)
    ensures
        match body {
            Some(b) => o == spec_auth_outcome(spec_status_field(b@)),
            None => o == AuthOutcome::Reject(LocalResponse::Unavailable),
        },
{
    match body {
        Some(b) => auth_status_outcome(extract_status_field(b.as_slice())),
        None => AuthOutcome::Reject(LocalResponse::Unavailable),
    }
}

/// The status code of a client-facing response.
pub fn response_status(r: &LocalResponse) -> (s: u16)
    ensures
        s == match r {
            LocalResponse::Forbidden => 403u16,
            LocalResponse::QuotaExhausted => 429u16,
            LocalResponse::Unauthorized => 401u16,
            LocalResponse::UpstreamQuotaExhausted => 429u16,
            LocalResponse::Unavailable => 500u16,
        },
{
    match r {
        LocalResponse::Forbidden => 403,
        LocalResponse::QuotaExhausted => 429,
        LocalResponse::Unauthorized => 401,
        LocalResponse::UpstreamQuotaExhausted => 429,
        LocalResponse::Unavailable => 500,
    }
}

/// The fixed body of a client-facing response.
pub fn response_body(r: &LocalResponse) -> (b: &'static str)
    ensures
        b@ == match r {
            LocalResponse::Forbidden => "Access forbidden.\n"@,
            LocalResponse::QuotaExhausted => "Service quota reached.\n"@,
            LocalResponse::Unauthorized => "Unauthorized\n"@,
            LocalResponse::UpstreamQuotaExhausted => "Service Quota Reached\n"@,
            LocalResponse::Unavailable => "Service Unavailable\n"@,
        },
{
    match r {
        LocalResponse::Forbidden => "Access forbidden.\n",
        LocalResponse::QuotaExhausted => "Service quota reached.\n",
        LocalResponse::Unauthorized => "Unauthorized\n",
        LocalResponse::UpstreamQuotaExhausted => "Service Quota Reached\n",
        LocalResponse::Unavailable => "Service Unavailable\n",
    }
}

/// The fixed diagnostic response header identifying the filter, as a
/// name/value pair.
pub fn diagnostic_header() -> (h: (&'static str, &'static str))
    ensures
        h.0@ == "x-powered-by"@,
        h.1@ == "cache-filter"@,
{
    ("x-powered-by", "cache-filter")
}

/// The quota-tracked paths of the reference deployment: the byte strings
/// `/foo` and `/bar`.
pub open spec fn spec_default_tracked_paths() -> Seq<Seq<u8>> {
    seq![seq![0x2fu8, 0x66u8, 0x6fu8, 0x6fu8], seq![0x2fu8, 0x62u8, 0x61u8, 0x72u8]]
}

/// The quota-tracked paths used when no deployment configures its own:
/// `/foo` and `/bar`.
pub fn default_tracked_paths() -> (r: Vec<Vec<u8>>)
    ensures
        r.deep_view() == spec_default_tracked_paths(),
{
    let mut first: Vec<u8> = Vec::new();
    first.push(0x2f);
    first.push(0x66);
    first.push(0x6f);
    first.push(0x6f);
    let mut second: Vec<u8> = Vec::new();
    second.push(0x2f);
    second.push(0x62);
    second.push(0x61);
    second.push(0x72);
    let mut r: Vec<Vec<u8>> = Vec::new();
    assert(first@ =~= spec_default_tracked_paths()[0]);
    assert(second@ =~= spec_default_tracked_paths()[1]);
    r.push(first);
    r.push(second);
    assert(r.deep_view() =~~= spec_default_tracked_paths());
    r
}

// ---------------------------------------------------------------------
// Laws of the admission decision.
// ---------------------------------------------------------------------
/// A request without an `Authorization` header is rejected with 403,
/// whatever the cache holds and whatever the path.
pub proof fn lemma_missing_authorization_rejected(
    tracked_paths: Seq<Seq<u8>>,
    blob: Option<Seq<u8>>,
    path: Seq<u8>,
)
    ensures
        spec_decide(tracked_paths, blob, path, None) == DecisionModel::Reject(
            LocalResponse::Forbidden,
        ),
{
}

/// A request to a path outside the quota-tracked set, carrying an
/// `Authorization` header, dispatches exactly one authorization call —
/// and the decision is the same whatever the cache holds, so the cache is
/// neither read nor written for such a path.
pub proof fn lemma_untracked_path_dispatches(
    tracked_paths: Seq<Seq<u8>>,
    blob: Option<Seq<u8>>,
    other_blob: Option<Seq<u8>>,
    path: Seq<u8>,
    token: Seq<u8>,
)
    requires
        !spec_tracked_contains(tracked_paths, path),
    ensures
        spec_decide(tracked_paths, blob, path, Some(token)) == DecisionModel::DispatchAuth(
            spec_auth_request(token, path),
        ),
        spec_decide(tracked_paths, blob, path, Some(token)) == spec_decide(
            tracked_paths,
            other_blob,
            path,
            Some(token),
        ),
{
}

/// A request admitted against a cached record with `used < quota` issues
/// no authorization dispatch, and the blob it writes back raises exactly
/// that record's `used` by one: the same path then reads one higher, and
/// every other path reads exactly what it did before.
pub proof fn lemma_admitted_request_increments_used(
    tracked_paths: Seq<Seq<u8>>,
    blob: Seq<u8>,
    path: Seq<u8>,
    token: Seq<u8>,
)
    requires
        spec_tracked_contains(tracked_paths, path),
        spec_cache_lookup(Some(blob), path) is Some,
        (spec_cache_lookup(Some(blob), path)->Some_0).used < (spec_cache_lookup(
            Some(blob),
            path,
        )->Some_0).quota,
    ensures
        spec_decide(tracked_paths, Some(blob), path, Some(token)) is Admit,
        ({
            let new_blob = spec_decide(tracked_paths, Some(blob), path, Some(token))->Admit_0;
            let rec = spec_cache_lookup(Some(blob), path)->Some_0;
            &&& spec_cache_lookup(Some(new_blob), path) == Some(
                crate::records::spec_inc_used(rec),
            )
            &&& (spec_cache_lookup(Some(new_blob), path)->Some_0).used == rec.used + 1
            &&& forall|q: Seq<u8>|
                q != path ==> #[trigger] spec_cache_lookup(Some(new_blob), q)
                    == spec_cache_lookup(Some(blob), q)
        }),
{
    let rs = spec_decode_blob(blob)->Some_0;
    let rec = spec_cache_lookup(Some(blob), path)->Some_0;
    let rs2 = spec_increment_first(rs, path);
    crate::codec::lemma_decoded_blob_encodable(blob);
    crate::records::lemma_increment_shape(rs, path);
    assert(crate::codec::records_encodable(rs2));
    crate::codec::lemma_blob_round_trip(rs2);
    crate::records::lemma_find_same_after_increment(rs, path);
    assert(rec.used + 1 <= u64::MAX);
    assert forall|q: Seq<u8>| q != path implies #[trigger] spec_cache_lookup(
        Some(spec_encode_blob(rs2)),
        q,
    ) == spec_cache_lookup(Some(blob), q) by {
        crate::records::lemma_find_other_after_increment(rs, path, q);
    }
}

/// A request against a cached record with `used >= quota` is rejected
/// with 429: no authorization dispatch and no cache write.
pub proof fn lemma_exhausted_quota_rejected(
    tracked_paths: Seq<Seq<u8>>,
    blob: Option<Seq<u8>>,
    path: Seq<u8>,
    token: Seq<u8>,
)
    requires
        spec_tracked_contains(tracked_paths, path),
        spec_cache_lookup(blob, path) is Some,
        (spec_cache_lookup(blob, path)->Some_0).used >= (spec_cache_lookup(blob, path)->Some_0).quota,
    ensures
        spec_decide(tracked_paths, blob, path, Some(token)) == DecisionModel::Reject(
            LocalResponse::QuotaExhausted,
        ),
{
}

} // verus!
