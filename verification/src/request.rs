//! The behaviour every sync request shares on the requester side: a
//! timeout, a resend against another capable peer, a required peer
//! capability, and inflight-key bookkeeping hooks.

use vstd::prelude::*;

use crate::message::SnapshotManifestRequest;
use crate::types::Hash256;

verus! {

/// The request-type-specific timeouts of the sync protocol, in
/// milliseconds.
#[derive(Clone, Copy, PartialEq, Eq, Structural, Debug)]
pub struct ProtocolConfiguration {
    pub headers_request_timeout_ms: u64,
}

/// A capability a peer advertises; only capable peers receive a request.
#[derive(Clone, Copy, PartialEq, Eq, Structural, Debug)]
pub enum DynamicCapability {
    /// The peer serves snapshot data for this checkpoint (for every
    /// checkpoint it has, when `None`).
    ServeCheckpoint(Option<Hash256>),
}

/// The keys of requests currently in flight, for request types that
/// deduplicate by key.
pub struct KeyContainer {
    pub keys: Vec<u64>,
}

/// What every sync request must provide so that the request manager can
/// issue it, time it out, and reissue it against a different capable peer.
/// Each executable method is pinned to its spec-level counterpart, so an
/// implementation's behaviour is fixed by its spec functions alone.
pub trait RetryableRequest: Sized {
    /// The timeout after which the request counts as lost.
    spec fn spec_timeout_ms(&self, conf: &ProtocolConfiguration) -> u64;

    fn timeout_ms(&self, conf: &ProtocolConfiguration) -> (t: u64)
        ensures
            t == self.spec_timeout_ms(conf),
    ;

    /// The fresh copy reissued against another peer, when the request is
    /// still worth reissuing.
    spec fn spec_resend(&self) -> Option<Self>;

    fn resend(&self) -> (r: Option<Self>)
        ensures
            r == self.spec_resend(),
    ;

    /// The capability a recipient peer must advertise, if any.
    spec fn spec_required_capability(&self) -> Option<DynamicCapability>;

    fn required_capability(&self) -> (r: Option<DynamicCapability>)
        ensures
            r == self.spec_required_capability(),
    ;

    /// Whether the request is already satisfied without a round trip.
    spec fn spec_is_empty(&self) -> bool;

    fn is_empty(&self) -> (r: bool)
        ensures
            r == self.spec_is_empty(),
    ;

    /// The inflight keys after this request is dropped from flight.
    spec fn spec_on_removed(&self, keys: Seq<u64>) -> Seq<u64>;

    fn on_removed(&self, inflight_keys: &mut KeyContainer)
        ensures
            final(inflight_keys).keys@ == self.spec_on_removed(old(inflight_keys).keys@),
    ;

    /// The request and the inflight keys after the request registers
    /// itself as in flight.
    spec fn spec_with_inflight(&self, keys: Seq<u64>) -> (Self, Seq<u64>);

    fn with_inflight(&mut self, inflight_keys: &mut KeyContainer)
        ensures
            (*final(self), final(inflight_keys).keys@) == old(self).spec_with_inflight(
                old(inflight_keys).keys@,
            ),
    ;
}

impl RetryableRequest for SnapshotManifestRequest {
    /// The manifest request reuses the header-request timeout.
    open spec fn spec_timeout_ms(&self, conf: &ProtocolConfiguration) -> u64 {
        conf.headers_request_timeout_ms
    }

    fn timeout_ms(&self, conf: &ProtocolConfiguration) -> (t: u64) {
        conf.headers_request_timeout_ms
    }

    /// Resending produces a copy with the same checkpoint, start chunk and
    /// trusted anchor.
    open spec fn spec_resend(&self) -> Option<SnapshotManifestRequest> {
        Some(*self)
    }

    fn resend(&self) -> (r: Option<SnapshotManifestRequest>) {
        Some(self.clone())
    }

    /// Only peers serving this specific checkpoint may receive the request.
    open spec fn spec_required_capability(&self) -> Option<DynamicCapability> {
        Some(DynamicCapability::ServeCheckpoint(Some(self.checkpoint)))
    }

    fn required_capability(&self) -> (r: Option<DynamicCapability>) {
        Some(DynamicCapability::ServeCheckpoint(Some(self.checkpoint)))
    }

    /// A manifest request is never satisfied without a round trip.
    open spec fn spec_is_empty(&self) -> bool {
        false
    }

    fn is_empty(&self) -> (r: bool) {
        false
    }

    /// This request type keeps no per-key inflight state.
    open spec fn spec_on_removed(&self, keys: Seq<u64>) -> Seq<u64> {
        keys
    }

    fn on_removed(&self, inflight_keys: &mut KeyContainer) {
    }

    /// This request type keeps no per-key inflight state.
    open spec fn spec_with_inflight(&self, keys: Seq<u64>) -> (SnapshotManifestRequest, Seq<u64>) {
        (*self, keys)
    }

    fn with_inflight(&mut self, inflight_keys: &mut KeyContainer) {
    }
}

/// Resending a snapshot-manifest request changes none of its fields: the
/// copy reissued to another peer carries the same checkpoint, the same
/// start chunk and the same trusted anchor.
pub proof fn lemma_resend_preserves_request(req: SnapshotManifestRequest)
    ensures
        req.spec_resend() == Some(req),
        req.spec_resend()->0.checkpoint == req.checkpoint,
        req.spec_resend()->0.start_chunk == req.start_chunk,
        req.spec_resend()->0.trusted_blame_block == req.trusted_blame_block,
{
}

} // verus!
