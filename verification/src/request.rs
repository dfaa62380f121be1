//! The lifecycle of one in-flight request.
//!
//! A request starts awaiting its headers, either resolves at once
//! (admitted or rejected locally) or suspends pending the asynchronous
//! authorization response, and is resolved exactly once: the contracts
//! admit no second header decision and no authorization response without
//! a pending call, so no request is ever resumed and then rejected, or
//! resolved twice.

use vstd::prelude::*;
use vstd::slice::slice_to_vec;
use crate::admission::{
    decide_request, on_auth_response, spec_auth_outcome, spec_blob_view, spec_decide, AuthOutcome,
    HeaderDecision,
};
use crate::json::spec_status_field;

verus! {

/// Where a request stands in its lifecycle.
#[derive(PartialEq, Eq, Structural, Clone, Copy, Debug)]
pub enum RequestPhase {
    /// Created; the header decision has not been taken yet.
    AwaitingHeaders,
    /// Suspended behind a dispatched authorization call.
    PendingAuth,
    /// A terminal action (admit, resume or reject) has been taken.
    Resolved,
}

/// The transient authorization message for one request: the client's
/// token and the path it asked for. Never persisted; it lives only while
/// its request does.
pub struct AuthRequest {
    pub token: Vec<u8>,
    pub path: Vec<u8>,
}

/// The state of one in-flight request, owned exclusively by that
/// request's execution context. While an authorization call is pending it
/// holds the original token and path, long enough to resolve the request
/// when the response arrives.
pub struct RequestContext {
    phase: RequestPhase,
    pending: Option<AuthRequest>,
}

impl RequestContext {
    /// Where this request stands.
    pub closed spec fn spec_phase(&self) -> RequestPhase {
        self.phase
    }

    /// The token and path of the pending authorization call, if one is.
    pub closed spec fn spec_pending(&self) -> Option<(Seq<u8>, Seq<u8>)> {
        match self.pending {
            Some(a) => Some((a.token@, a.path@)),
            None => None,
        }
    }

    /// A context holds a pending message exactly while it is suspended.
    pub open spec fn wf(&self) -> bool {
        (self.spec_phase() is PendingAuth) <==> (self.spec_pending() is Some)
    }

    /// A fresh context for a request whose headers are yet to arrive.
    pub fn new() -> (c: RequestContext)
        ensures
            c.spec_phase() is AwaitingHeaders,
            c.wf(),
    {
        RequestContext { phase: RequestPhase::AwaitingHeaders, pending: None }
    }

    /// Where this request stands, for callers outside the proof.
    pub fn phase(&self) -> (p: RequestPhase)
        ensures
            p == self.spec_phase(),
    {
        self.phase
    }

    /// Takes the header decision for this request, per `spec_decide`, and
    /// advances the lifecycle: a dispatched authorization call suspends
    /// the request (keeping its token and path), everything else resolves
    /// it on the spot.
    pub fn on_request_headers(
        &mut self,
        tracked_paths: &Vec<Vec<u8>>,
        blob: Option<&Vec<u8>>,
        path: &Vec<u8>,
        token: Option<&Vec<u8>>,
    ) -> (d: HeaderDecision)
        requires
            old(self).spec_phase() is AwaitingHeaders,
        ensures
            final(self).wf(),
            d.model() == spec_decide(
                tracked_paths.deep_view(),
                spec_blob_view(blob),
                path@,
                match token {
                    Some(t) => Some(t@),
                    None => None,
                },
            ),
            d.model() is DispatchAuth ==> final(self).spec_phase() is PendingAuth
                && token is Some && final(self).spec_pending() == Some(
                (token->Some_0@, path@),
            ),
            !(d.model() is DispatchAuth) ==> final(self).spec_phase() is Resolved
                && final(self).spec_pending() is None,
    {
        let d = decide_request(tracked_paths, blob, path, token);
        match (&d, token) {
            (HeaderDecision::DispatchAuth { .. }, Some(t)) => {
                self.phase = RequestPhase::PendingAuth;
                self.pending = Some(
                    AuthRequest {
                        token: slice_to_vec(t.as_slice()),
                        path: slice_to_vec(path.as_slice()),
                    },
                );
            },
            _ => {
                // A dispatch decision always carries a token: without one
                // the decision is the 403 rejection.
                self.phase = RequestPhase::Resolved;
                self.pending = None;
            },
        }
        d
    }

    /// Resolves the request from the deferred authorization response, per
    /// `spec_auth_outcome`. Only a suspended request can be resolved this
    /// way, and only once.
    pub fn on_authorization_response(&mut self, body: Option<&Vec<u8>>) -> (o: AuthOutcome)
        requires
            old(self).spec_phase() is PendingAuth,
        ensures
            final(self).spec_phase() is Resolved,
            final(self).spec_pending() is None,
            final(self).wf(),
            match body {
                Some(b) => o == spec_auth_outcome(spec_status_field(b@)),
                None => o == AuthOutcome::Reject(crate::admission::LocalResponse::Unavailable),
            },
    {
        self.phase = RequestPhase::Resolved;
        self.pending = None;
        on_auth_response(body)
    }
}

} // verus!
