//! The plain value types that cross the agent's boundary: requests, replies
//! and the per-message payloads of the streaming variants.
//!
//! Vector components and distances travel through this crate untouched: the
//! coordinator never computes on them, it only hands them to the engine and
//! back. They are therefore carried as opaque 32-bit patterns (callers use
//! the bit representation of their single-precision components), which keeps
//! every field a plain value.

use vstd::prelude::*;

verus! {

/// One vector to register: a caller-chosen identifier and the component
/// patterns.
pub struct ObjectVector {
    pub id: String,
    pub vector: Vec<u32>,
}

/// A request to register one vector. The payload is optional on the wire;
/// an absent payload is rejected, never dereferenced.
pub struct InsertRequest {
    pub vector: Option<ObjectVector>,
}

/// Where a registered vector lives: the agent's name, the echoed
/// identifier, and the replica addresses.
pub struct Location {
    pub name: String,
    pub uuid: String,
    pub ips: Vec<String>,
}

/// The tunable part of a search request.
pub struct SearchConfig {
    pub request_id: String,
    /// How many neighbors to return at most.
    pub num: u32,
    /// Search-quality parameter for the engine, as a 32-bit pattern.
    pub epsilon: u32,
}

/// A nearest-neighbor query: the query vector's component patterns and the
/// optional configuration. An absent configuration is rejected.
pub struct SearchRequest {
    pub vector: Vec<u32>,
    pub config: Option<SearchConfig>,
}

/// A search by a previously registered identifier instead of a vector.
/// Defined by the service surface; not implemented by this agent.
pub struct SearchIdRequest {
    pub id: String,
    pub config: Option<SearchConfig>,
}

/// One raw engine result: the engine-assigned handle and the distance
/// pattern, exactly as the engine reported them.
#[derive(Clone, Copy, Debug, PartialEq, Eq, Structural)]
pub struct EngineHit {
    pub id: u32,
    pub distance: u32,
}

/// One ranked neighbor, caller-visible: the external identifier (empty when
/// the handle is not mapped yet) and the distance pattern.
pub struct Distance {
    pub id: String,
    pub distance: u32,
}

/// The reply to one search: the echoed request identifier and the ranked
/// neighbors, nearest first.
pub struct SearchResponse {
    pub request_id: String,
    pub results: Vec<Distance>,
}

/// An error descriptor embedded in a stream reply, so that one bad request
/// never tears the stream down.
pub struct ReplyStatus {
    pub code: u32,
    pub message: String,
}

/// The payload of one streamed insert reply: a location on success, an
/// embedded error descriptor otherwise.
pub enum LocationPayload {
    Location(Location),
    Status(ReplyStatus),
}

/// One streamed insert reply.
pub struct StreamLocation {
    pub payload: Option<LocationPayload>,
}

/// The payload of one streamed search reply.
pub enum ResponsePayload {
    Response(SearchResponse),
    Status(ReplyStatus),
}

/// One streamed search reply.
pub struct StreamResponse {
    pub payload: Option<ResponsePayload>,
}

/// Copy a component list, pattern for pattern.
pub fn copy_components(v: &Vec<u32>) -> (r: Vec<u32>)
    ensures
        r@ == v@,
{
    let n = v.len();
    let mut r: Vec<u32> = Vec::new();
    for i in 0..n
        invariant
            n == v@.len(),
            r@ == v@.take(i as int),
    {
        r.push(v[i]);
        proof {
            assert(r@ =~= v@.take(i + 1 as int));
        }
    }
    proof {
        assert(r@ =~= v@);
    }
    r
}

} // verus!
