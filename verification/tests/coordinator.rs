use vald_agent::idmap::IdentityMap;
use vald_agent::ngt::{DistanceMetric, ElementType, NGT};
use vald_agent::payload::EngineHit;
use vald_agent::status::Status;

fn small_coordinator() -> NGT {
    NGT::new(
        2,
        DistanceMetric::L2,
        ElementType::Float,
        "index".to_string(),
    )
}

#[test]
fn default_configuration() {
    let n = NGT::default();
    assert_eq!(n.dimension(), 784);
    assert_eq!(n.distance_type(), DistanceMetric::L2);
    assert_eq!(n.object_type(), ElementType::Float);
    assert_eq!(n.index_path().as_str(), "index");
    assert!(!n.is_ready());
    assert_eq!(n.pending_len(), 0);
}

#[test]
fn insert_before_initialize_is_refused() {
    let mut n = small_coordinator();
    let r = n.insert("a", vec![1, 2]);
    assert_eq!(r, Err(Status::NotInitialized));
    assert_eq!(n.pending_len(), 0);
}

#[test]
fn insert_buffers_in_order() {
    let mut n = small_coordinator();
    n.initialize();
    assert_eq!(n.insert("a", vec![1, 2]), Ok(()));
    assert_eq!(n.insert("b", vec![3, 4]), Ok(()));
    assert_eq!(n.pending_len(), 2);
    let entries = n.pending_entries();
    assert_eq!(entries[0].id.as_str(), "a");
    assert_eq!(entries[0].vector, vec![1, 2]);
    assert_eq!(entries[1].id.as_str(), "b");
    assert_eq!(entries[1].vector, vec![3, 4]);
}

#[test]
fn insert_rejects_wrong_dimension() {
    let mut n = small_coordinator();
    n.initialize();
    assert_eq!(n.insert("a", vec![1]), Err(Status::InvalidArgument));
    assert_eq!(n.insert("a", vec![1, 2, 3]), Err(Status::InvalidArgument));
    assert_eq!(n.pending_len(), 0);
}

#[test]
fn insert_rejects_duplicate_identifier() {
    let mut n = small_coordinator();
    n.initialize();
    assert_eq!(n.insert("a", vec![1, 2]), Ok(()));
    // Already pending.
    assert_eq!(n.insert("a", vec![5, 6]), Err(Status::InvalidArgument));
    assert_eq!(n.create_index(&vec![10]), Ok(()));
    // Already built.
    assert_eq!(n.insert("a", vec![5, 6]), Err(Status::InvalidArgument));
}

#[test]
fn create_index_before_initialize_is_refused() {
    let mut n = small_coordinator();
    assert_eq!(n.create_index(&Vec::new()), Err(Status::NotInitialized));
}

#[test]
fn create_index_refuses_bad_handle_batches() {
    let mut n = small_coordinator();
    n.initialize();
    assert_eq!(n.insert("a", vec![1, 2]), Ok(()));
    assert_eq!(n.insert("b", vec![3, 4]), Ok(()));
    // Wrong batch size.
    assert_eq!(n.create_index(&vec![7]), Err(Status::Internal));
    // Repeated handle.
    assert_eq!(n.create_index(&vec![7, 7]), Err(Status::Internal));
    // Nothing was applied by the refusals.
    assert_eq!(n.pending_len(), 2);
    assert_eq!(n.create_index(&vec![7, 8]), Ok(()));
    assert_eq!(n.pending_len(), 0);
    // A handle that is already bound is refused on the next batch.
    assert_eq!(n.insert("c", vec![5, 6]), Ok(()));
    assert_eq!(n.create_index(&vec![7]), Err(Status::Internal));
    assert_eq!(n.pending_len(), 1);
    assert_eq!(n.create_index(&vec![9]), Ok(()));
}

#[test]
fn create_index_drains_everything() {
    let mut n = small_coordinator();
    n.initialize();
    assert_eq!(n.insert("a", vec![1, 2]), Ok(()));
    assert_eq!(n.insert("b", vec![3, 4]), Ok(()));
    assert_eq!(n.create_index(&vec![10, 11]), Ok(()));
    assert_eq!(n.pending_len(), 0);
    // Both drained registrations resolve, in both directions, through the
    // raw-hit translation.
    let hits = vec![
        EngineHit { id: 10, distance: 1 },
        EngineHit { id: 11, distance: 2 },
    ];
    let results = n.search(&hits).unwrap();
    assert_eq!(results.len(), 2);
    assert_eq!(results[0].id.as_str(), "a");
    assert_eq!(results[1].id.as_str(), "b");
    // An empty build batch is fine.
    assert_eq!(n.create_index(&Vec::new()), Ok(()));
}

#[test]
fn search_before_initialize_is_refused() {
    let n = small_coordinator();
    let r = n.search(&Vec::new());
    assert!(matches!(r, Err(Status::NotInitialized)));
}

#[test]
fn search_keeps_distances_and_degrades_misses() {
    let mut n = small_coordinator();
    n.initialize();
    assert_eq!(n.insert("a", vec![1, 2]), Ok(()));
    assert_eq!(n.create_index(&vec![42]), Ok(()));
    let hits = vec![
        EngineHit { id: 42, distance: 17 },
        // A handle the coordinator never saw: degrades to an empty
        // identifier with the distance passed through, never an error.
        EngineHit { id: 12345, distance: 99 },
    ];
    let results = n.search(&hits).unwrap();
    assert_eq!(results.len(), 2);
    assert_eq!(results[0].id.as_str(), "a");
    assert_eq!(results[0].distance, 17);
    assert_eq!(results[1].id.as_str(), "");
    assert_eq!(results[1].distance, 99);
}

#[test]
fn identity_map_is_a_bijection() {
    let mut m = IdentityMap::new();
    m.insert_pair("a".to_string(), 1);
    m.insert_pair("b".to_string(), 2);
    assert_eq!(m.lookup_internal(&"a".to_string()), Some(1));
    assert_eq!(m.lookup_internal(&"b".to_string()), Some(2));
    assert_eq!(m.lookup_internal(&"c".to_string()), None);
    assert_eq!(m.lookup_external(1).unwrap().as_str(), "a");
    assert_eq!(m.lookup_external(2).unwrap().as_str(), "b");
    assert_eq!(m.lookup_external(3), None);
    // Following one direction and then the other returns the start.
    for id in ["a", "b"] {
        let oid = m.lookup_internal(&id.to_string()).unwrap();
        assert_eq!(m.lookup_external(oid).unwrap().as_str(), id);
    }
}
