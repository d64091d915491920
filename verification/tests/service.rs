use vald_agent::ngt::{DistanceMetric, ElementType, NGT};
use vald_agent::payload::{
    EngineHit, InsertRequest, LocationPayload, ObjectVector, ResponsePayload, SearchConfig,
    SearchIdRequest, SearchRequest,
};
use vald_agent::status::Status;
use vald_agent::vald::ValdImpl;

fn small_service() -> ValdImpl {
    let mut v = ValdImpl::new(NGT::new(
        2,
        DistanceMetric::L2,
        ElementType::Float,
        "index".to_string(),
    ));
    v.initialize();
    v
}

fn insert_request(id: &str, vector: Vec<u32>) -> InsertRequest {
    InsertRequest {
        vector: Some(ObjectVector {
            id: id.to_string(),
            vector,
        }),
    }
}

fn search_request(vector: Vec<u32>, request_id: &str) -> SearchRequest {
    SearchRequest {
        vector,
        config: Some(SearchConfig {
            request_id: request_id.to_string(),
            num: 2,
            epsilon: 1.0f32.to_bits(),
        }),
    }
}

#[test]
fn insert_absent_payload_is_invalid_argument() {
    let mut v = small_service();
    let r = v.insert_impl(&InsertRequest { vector: None });
    assert!(matches!(r, Err(Status::InvalidArgument)));
    // No buffer mutation happened.
    assert_eq!(v.agent().pending_len(), 0);
}

#[test]
fn insert_reply_echoes_the_identifier() {
    let mut v = small_service();
    let loc = v.insert_impl(&insert_request("a", vec![1, 2])).unwrap();
    assert_eq!(loc.name.as_str(), "vald-agent-ngt-rs");
    assert_eq!(loc.uuid.as_str(), "a");
    assert_eq!(loc.ips.len(), 1);
    assert_eq!(loc.ips[0].as_str(), "192.168.1.1");
    assert_eq!(v.agent().pending_len(), 1);
}

#[test]
fn search_absent_config_is_invalid_argument() {
    let v = small_service();
    let req = SearchRequest {
        vector: vec![1, 2],
        config: None,
    };
    let r = v.search_impl(&req, &Vec::new());
    assert!(matches!(r, Err(Status::InvalidArgument)));
}

#[test]
fn search_echoes_the_request_id() {
    let mut v = small_service();
    v.insert_impl(&insert_request("a", vec![1, 2])).unwrap();
    v.create_index(&vec![5]).unwrap();
    let hits = vec![EngineHit {
        id: 5,
        distance: 3,
    }];
    let resp = v.search_impl(&search_request(vec![1, 2], "req-1"), &hits).unwrap();
    assert_eq!(resp.request_id.as_str(), "req-1");
    assert_eq!(resp.results.len(), 1);
    assert_eq!(resp.results[0].id.as_str(), "a");
    assert_eq!(resp.results[0].distance, 3);
}

#[test]
fn stream_insert_reply_embeds_success_and_error() {
    let mut v = small_service();
    let ok = v.stream_insert_reply(&insert_request("a", vec![1, 2]));
    match ok.payload {
        Some(LocationPayload::Location(loc)) => {
            assert_eq!(loc.uuid.as_str(), "a");
        }
        _ => panic!("expected a location payload"),
    }
    let err = v.stream_insert_reply(&InsertRequest { vector: None });
    match err.payload {
        Some(LocationPayload::Status(st)) => {
            assert_eq!(st.code, 0);
            assert_eq!(st.message.as_str(), "invalid argument");
        }
        _ => panic!("expected a status payload"),
    }
    // The bad message left the stream's agent untouched.
    assert_eq!(v.agent().pending_len(), 1);
}

#[test]
fn stream_search_reply_embeds_success_and_error() {
    let v = small_service();
    let ok = v.stream_search_reply(&search_request(vec![1, 2], "req-2"), &Vec::new());
    match ok.payload {
        Some(ResponsePayload::Response(resp)) => {
            assert_eq!(resp.request_id.as_str(), "req-2");
            assert_eq!(resp.results.len(), 0);
        }
        _ => panic!("expected a response payload"),
    }
    let no_config = SearchRequest {
        vector: vec![1, 2],
        config: None,
    };
    let err = v.stream_search_reply(&no_config, &Vec::new());
    match err.payload {
        Some(ResponsePayload::Status(st)) => {
            assert_eq!(st.code, 0);
            assert_eq!(st.message.as_str(), "invalid argument");
        }
        _ => panic!("expected a status payload"),
    }
}

#[test]
fn out_of_scope_operations_return_unimplemented() {
    let v = small_service();
    let id_req = SearchIdRequest {
        id: "a".to_string(),
        config: None,
    };
    assert!(matches!(v.search_by_id(&id_req), Err(Status::Unimplemented)));
    assert!(matches!(v.multi_insert(&Vec::new()), Err(Status::Unimplemented)));
    assert!(matches!(v.multi_search(&Vec::new()), Err(Status::Unimplemented)));
    assert!(matches!(v.multi_search_by_id(&Vec::new()), Err(Status::Unimplemented)));
    assert_eq!(v.save_index(), Err(Status::Unimplemented));
    assert_eq!(v.create_and_save_index(&Vec::new()), Err(Status::Unimplemented));
    assert_eq!(v.index_info(), Err(Status::Unimplemented));
}

#[test]
fn service_stays_available_after_unimplemented_call() {
    let mut v = small_service();
    let id_req = SearchIdRequest {
        id: "a".to_string(),
        config: None,
    };
    assert!(matches!(v.search_by_id(&id_req), Err(Status::Unimplemented)));
    // The refusal did not tear the service down: the normal flow still runs.
    v.insert_impl(&insert_request("a", vec![1, 2])).unwrap();
    v.create_index(&vec![8]).unwrap();
    let hits = vec![EngineHit {
        id: 8,
        distance: 0,
    }];
    let resp = v.search_impl(&search_request(vec![1, 2], "after"), &hits).unwrap();
    assert_eq!(resp.results[0].id.as_str(), "a");
}

#[test]
fn status_messages() {
    assert_eq!(Status::InvalidArgument.message().as_str(), "invalid argument");
    assert_eq!(
        Status::NotInitialized.message().as_str(),
        "index is not initialized"
    );
    assert_eq!(Status::Internal.message().as_str(), "internal error");
    assert_eq!(Status::Unimplemented.message().as_str(), "not implemented");
}

#[test]
fn default_service_is_uninitialized() {
    let v = ValdImpl::default();
    assert!(!v.agent().is_ready());
    assert_eq!(v.agent().dimension(), 784);
}
