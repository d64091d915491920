//! The service layer over the coordinator: request validation, reply
//! shaping, and the per-message halves of the streaming endpoints.
//!
//! Transport concerns — decoding wire messages, running streams, locking the
//! shared agent across worker threads — live with the caller. Each method
//! here is one request's worth of decision: it validates, drives the
//! coordinator, and shapes the reply. Endpoints of the service surface that
//! are out of scope refuse with `Unimplemented` and leave the agent healthy,
//! rather than tearing anything down.

use vstd::prelude::*;

use crate::ngt::NGT;
use crate::payload::EngineHit;
use crate::payload::InsertRequest;
use crate::payload::Location;
use crate::payload::LocationPayload;
use crate::payload::ReplyStatus;
use crate::payload::ResponsePayload;
use crate::payload::SearchIdRequest;
use crate::payload::SearchRequest;
use crate::payload::SearchResponse;
use crate::payload::StreamLocation;
use crate::payload::StreamResponse;
use crate::payload::copy_components;
use crate::status::Status;

verus! {

/// What a successful insert reply promises: this agent's name, the echoed
/// identifier, and the single replica address.
pub open spec fn located(loc: Location, uuid: Seq<char>) -> bool {
    &&& loc.name@ == "vald-agent-ngt-rs"@
    &&& loc.uuid@ == uuid
    &&& loc.ips@.len() == 1
    &&& loc.ips@[0]@ == "192.168.1.1"@
}

/// The agent's service implementation: one coordinator, driven one request
/// at a time. Callers that serve concurrent traffic put the whole value
/// behind one lock, so every method sees and leaves a consistent state.
pub struct ValdImpl {
    ngt: NGT,
}

impl ValdImpl {
    /// The coordinator inside.
    pub closed spec fn inner(&self) -> NGT {
        self.ngt
    }

    /// Whether one insert request will be accepted against this coordinator
    /// state.
    pub open spec fn insert_ok(pre: NGT, request: InsertRequest) -> bool {
        &&& request.vector is Some
        &&& pre.spec_ready()
        &&& pre.accepts(request.vector->Some_0.id@, request.vector->Some_0.vector@)
    }

    /// Which refusal a rejected insert request gets: an absent payload is
    /// malformed, a coordinator without an engine is not ready, and
    /// everything else failed validation.
    pub open spec fn insert_err(pre: NGT, request: InsertRequest) -> Status {
        if request.vector is None {
            Status::InvalidArgument
        } else if !pre.spec_ready() {
            Status::NotInitialized
        } else {
            Status::InvalidArgument
        }
    }

    /// Whether one search request will be answered against this coordinator
    /// state.
    pub open spec fn search_ok(pre: NGT, request: SearchRequest) -> bool {
        request.config is Some && pre.spec_ready()
    }

    /// Which refusal a rejected search request gets.
    pub open spec fn search_err(pre: NGT, request: SearchRequest) -> Status {
        if request.config is None {
            Status::InvalidArgument
        } else {
            Status::NotInitialized
        }
    }

    pub fn new(ngt: NGT) -> (r: ValdImpl)
        ensures
            r.inner() == ngt,
    {
        ValdImpl { ngt }
    }

    /// Borrow the coordinator, for driving the engine protocol.
    pub fn agent(&self) -> (r: &NGT)
        ensures
            *r == self.inner(),
    {
        &self.ngt
    }

    /// Move the coordinator to `Ready` once the engine has been created.
    pub fn initialize(&mut self)
        ensures
            final(self).inner().spec_ready(),
            final(self).inner().pending() == old(self).inner().pending(),
            final(self).inner().forward() == old(self).inner().forward(),
            final(self).inner().reverse() == old(self).inner().reverse(),
            final(self).inner().spec_config() == old(self).inner().spec_config(),
            old(self).inner().wf() ==> final(self).inner().wf(),
    {
        self.ngt.initialize();
    }

    /// Serve one insert request: refuse an absent payload without touching
    /// any state, otherwise buffer the vector and answer with this agent's
    /// location.
    pub fn insert_impl(&mut self, request: &InsertRequest) -> (r: Result<Location, Status>)
        requires
            old(self).inner().wf(),
        ensures
            final(self).inner().wf(),
            request.vector is None ==> r == Err::<Location, Status>(Status::InvalidArgument)
                && *final(self) == *old(self),
            !ValdImpl::insert_ok(old(self).inner(), *request) ==> r == Err::<Location, Status>(
                ValdImpl::insert_err(old(self).inner(), *request),
            ) && *final(self) == *old(self),
            ValdImpl::insert_ok(old(self).inner(), *request) ==> {
                &&& r matches Ok(loc) && located(loc, request.vector->Some_0.id@)
                &&& final(self).inner().pending() == old(self).inner().pending().push(
                    (request.vector->Some_0.id@, request.vector->Some_0.vector@),
                )
                &&& final(self).inner().forward() == old(self).inner().forward()
                &&& final(self).inner().reverse() == old(self).inner().reverse()
                &&& final(self).inner().spec_ready()
                &&& final(self).inner().spec_config() == old(self).inner().spec_config()
            },
    {
        let obj = match &request.vector {
            Some(o) => o,
            None => {
                return Err(Status::InvalidArgument);
            },
        };
        let components = copy_components(&obj.vector);
        match self.ngt.insert(obj.id.as_str(), components) {
            Ok(_) => {
                let mut ips: Vec<String> = Vec::new();
                ips.push("192.168.1.1".to_string());
                Ok(
                    Location {
                        name: "vald-agent-ngt-rs".to_string(),
                        uuid: obj.id.clone(),
                        ips,
                    },
                )
            },
            Err(status) => Err(status),
        }
    }

    /// Serve one search request: refuse an absent configuration, otherwise
    /// translate the engine's raw hits and echo the request identifier.
    /// Running the query against the engine is the caller's step.
    pub fn search_impl(&self, request: &SearchRequest, hits: &Vec<EngineHit>) -> (r: Result<
        SearchResponse,
        Status,
    >)
        requires
            self.inner().wf(),
        ensures
            !ValdImpl::search_ok(self.inner(), *request) ==> r == Err::<SearchResponse, Status>(
                ValdImpl::search_err(self.inner(), *request),
            ),
            ValdImpl::search_ok(self.inner(), *request) ==> {
                &&& r matches Ok(resp)
                &&& resp.request_id@ == request.config->Some_0.request_id@
                &&& self.inner().resolves(hits@, resp.results@)
            },
    {
        let config = match &request.config {
            Some(c) => c,
            None => {
                return Err(Status::InvalidArgument);
            },
        };
        match self.ngt.search(hits) {
            Ok(results) => Ok(
                SearchResponse { request_id: config.request_id.clone(), results },
            ),
            Err(status) => Err(status),
        }
    }

    /// Trigger one index build over the drained pending registrations; the
    /// handles come from the caller's engine submissions, in drain order.
    pub fn create_index(&mut self, oids: &Vec<u32>) -> (r: Result<(), Status>)
        requires
            old(self).inner().wf(),
        ensures
            final(self).inner().wf(),
            !old(self).inner().spec_ready() ==> r == Err::<(), Status>(Status::NotInitialized)
                && *final(self) == *old(self),
            old(self).inner().spec_ready() && !old(self).inner().build_applies(oids@) ==> r
                == Err::<(), Status>(Status::Internal) && *final(self) == *old(self),
            old(self).inner().spec_ready() && old(self).inner().build_applies(oids@) ==> r
                == Ok::<(), Status>(()) && NGT::build_post(
                old(self).inner(),
                final(self).inner(),
                oids@,
            ),
    {
        self.ngt.create_index(oids)
    }

    /// One streamed insert message: the same decision as `insert_impl`, but
    /// shaped as a stream reply — a location on success, an embedded error
    /// descriptor otherwise, never a torn-down stream.
    pub fn stream_insert_reply(&mut self, request: &InsertRequest) -> (r: StreamLocation)
        requires
            old(self).inner().wf(),
        ensures
            final(self).inner().wf(),
            ValdImpl::insert_ok(old(self).inner(), *request) ==> {
                &&& r.payload matches Some(LocationPayload::Location(loc)) && located(
                    loc,
                    request.vector->Some_0.id@,
                )
                &&& final(self).inner().pending() == old(self).inner().pending().push(
                    (request.vector->Some_0.id@, request.vector->Some_0.vector@),
                )
                &&& final(self).inner().forward() == old(self).inner().forward()
                &&& final(self).inner().reverse() == old(self).inner().reverse()
                &&& final(self).inner().spec_ready()
                &&& final(self).inner().spec_config() == old(self).inner().spec_config()
            },
            !ValdImpl::insert_ok(old(self).inner(), *request) ==> {
                &&& r.payload matches Some(LocationPayload::Status(st)) && st.code == 0
                    && st.message@ == ValdImpl::insert_err(
                    old(self).inner(),
                    *request,
                ).spec_message()
                &&& *final(self) == *old(self)
            },
    {
        match self.insert_impl(request) {
            Ok(loc) => StreamLocation { payload: Some(LocationPayload::Location(loc)) },
            Err(status) => StreamLocation {
                payload: Some(
                    LocationPayload::Status(ReplyStatus { code: 0, message: status.message() }),
                ),
            },
        }
    }

    /// One streamed search message, shaped as a stream reply.
    pub fn stream_search_reply(&self, request: &SearchRequest, hits: &Vec<EngineHit>) -> (r:
        StreamResponse)
        requires
            self.inner().wf(),
        ensures
            ValdImpl::search_ok(self.inner(), *request) ==> {
                &&& r.payload matches Some(ResponsePayload::Response(resp))
                &&& resp.request_id@ == request.config->Some_0.request_id@
                &&& self.inner().resolves(hits@, resp.results@)
            },
            !ValdImpl::search_ok(self.inner(), *request) ==> {
                &&& r.payload matches Some(ResponsePayload::Status(st)) && st.code == 0
                    && st.message@ == ValdImpl::search_err(self.inner(), *request).spec_message()
            },
    {
        match self.search_impl(request, hits) {
            Ok(resp) => StreamResponse { payload: Some(ResponsePayload::Response(resp)) },
            Err(status) => StreamResponse {
                payload: Some(
                    ResponsePayload::Status(ReplyStatus { code: 0, message: status.message() }),
                ),
            },
        }
    }

    /// Search by a registered identifier: on the service surface, not built
    /// here. Always refused; the agent stays available.
    pub fn search_by_id(&self, _request: &SearchIdRequest) -> (r: Result<SearchResponse, Status>)
        ensures
            r == Err::<SearchResponse, Status>(Status::Unimplemented),
    {
        Err(Status::Unimplemented)
    }

    /// Batch insert: on the service surface, not built here.
    pub fn multi_insert(&self, _requests: &Vec<InsertRequest>) -> (r: Result<Vec<Location>, Status>)
        ensures
            r == Err::<Vec<Location>, Status>(Status::Unimplemented),
    {
        Err(Status::Unimplemented)
    }

    /// Batch search: on the service surface, not built here.
    pub fn multi_search(&self, _requests: &Vec<SearchRequest>) -> (r: Result<
        Vec<SearchResponse>,
        Status,
    >)
        ensures
            r == Err::<Vec<SearchResponse>, Status>(Status::Unimplemented),
    {
        Err(Status::Unimplemented)
    }

    /// Batch search by identifier: on the service surface, not built here.
    pub fn multi_search_by_id(&self, _requests: &Vec<SearchIdRequest>) -> (r: Result<
        Vec<SearchResponse>,
        Status,
    >)
        ensures
            r == Err::<Vec<SearchResponse>, Status>(Status::Unimplemented),
    {
        Err(Status::Unimplemented)
    }

    /// Persist the index: on the service surface, not built here.
    pub fn save_index(&self) -> (r: Result<(), Status>)
        ensures
            r == Err::<(), Status>(Status::Unimplemented),
    {
        Err(Status::Unimplemented)
    }

    /// Build and persist in one call: on the service surface, not built
    /// here.
    pub fn create_and_save_index(&self, _oids: &Vec<u32>) -> (r: Result<(), Status>)
        ensures
            r == Err::<(), Status>(Status::Unimplemented),
    {
        Err(Status::Unimplemented)
    }

    /// Report index statistics: on the service surface, not built here.
    pub fn index_info(&self) -> (r: Result<(), Status>)
        ensures
            r == Err::<(), Status>(Status::Unimplemented),
    {
        Err(Status::Unimplemented)
    }
}

impl Default for ValdImpl {
    /// An agent around a stock-configured coordinator, not yet initialized.
    fn default() -> (r: ValdImpl)
        ensures
            r.inner().wf(),
            !r.inner().spec_ready(),
            r.inner().pending() == Seq::<(Seq<char>, Seq<u32>)>::empty(),
            r.inner().forward() == Map::<Seq<char>, u32>::empty(),
            r.inner().reverse() == Map::<u32, Seq<char>>::empty(),
            r.inner().spec_dimension() == 784,
    {
        ValdImpl { ngt: NGT::default() }
    }
}

} // verus!
