//! The index coordinator. It owns the pending-insert buffer and the
//! identity map, and runs the bookkeeping half of every operation; the
//! nearest-neighbor engine itself is an external collaborator that the
//! caller drives.
//!
//! The engine protocol, from the caller's side:
//! - create the engine from this coordinator's configuration, then call
//!   [`NGT::initialize`] once, to move the coordinator from `Uninitialized`
//!   to `Ready`;
//! - to build: walk [`NGT::pending_entries`], submit each vector to the
//!   engine to obtain its handle, hand the handles in the same order to
//!   [`NGT::create_index`], then have the engine materialize the batch;
//! - to search: pass the query to the engine, then hand the raw hits to
//!   [`NGT::search`] for translation into caller-visible identifiers.
//!
//! Between a drain and the next build, the engine only assigns fresh
//! handles, so the batch handed to `create_index` is distinct and unbound —
//! the coordinator still re-checks this at run time and refuses a bad batch
//! without touching its state.

use vstd::prelude::*;

use crate::buffer::PendingBuffer;
use crate::buffer::PendingEntry;
use crate::idmap::IdentityMap;
use crate::idmap::lemma_maps_mutual_inverses;
use crate::payload::Distance;
use crate::payload::EngineHit;
use crate::status::Status;

verus! {

/// How the engine measures distance between vectors.
#[derive(Clone, Copy, Debug, PartialEq, Eq, Structural)]
pub enum DistanceMetric {
    L1,
    L2,
    Angle,
    Cosine,
}

/// How the engine stores vector components.
#[derive(Clone, Copy, Debug, PartialEq, Eq, Structural)]
pub enum ElementType {
    Float,
    Uint8,
}

/// The coordinator around the external nearest-neighbor engine: the
/// engine's configuration, the buffer of not-yet-built registrations, and
/// the identifier/handle bijection.
pub struct NGT {
    ready: bool,
    insert_vecs: PendingBuffer,
    id_map: IdentityMap,
    dimension: usize,
    distance_type: DistanceMetric,
    object_type: ElementType,
    index_path: String,
}

impl NGT {
    /// Whether the engine has been created (`Ready` in the coordinator's
    /// lifecycle).
    pub closed spec fn spec_ready(&self) -> bool {
        self.ready
    }

    /// The buffered registrations, in insertion order.
    pub closed spec fn pending(&self) -> Seq<(Seq<char>, Seq<u32>)> {
        self.insert_vecs@
    }

    /// External identifier to engine handle, for everything built so far.
    pub closed spec fn forward(&self) -> Map<Seq<char>, u32> {
        self.id_map.forward()
    }

    /// Engine handle back to external identifier.
    pub closed spec fn reverse(&self) -> Map<u32, Seq<char>> {
        self.id_map.reverse()
    }

    /// The fixed engine configuration, as one value.
    pub closed spec fn spec_config(&self) -> (usize, DistanceMetric, ElementType, Seq<char>) {
        (self.dimension, self.distance_type, self.object_type, self.index_path@)
    }

    pub open spec fn spec_dimension(&self) -> usize {
        self.spec_config().0
    }

    /// Whether some pending registration carries this identifier.
    pub open spec fn pending_has(&self, id: Seq<char>) -> bool {
        exists|i: int| 0 <= i < self.pending().len() && (#[trigger] self.pending()[i]).0 == id
    }

    /// The identity map's own invariant: its entries form a bijection.
    pub closed spec fn id_map_wf(&self) -> bool {
        self.id_map.wf()
    }

    /// The coordinator's invariant: the identity map is a bijection, the
    /// dimension is meaningful, and every pending registration has a fresh
    /// identifier and a vector of the configured dimension. A vector is
    /// either pending or mapped, never both.
    pub open spec fn wf(&self) -> bool {
        &&& self.id_map_wf()
        &&& self.spec_dimension() >= 1
        &&& forall|i: int, j: int|
            0 <= i < self.pending().len() && 0 <= j < self.pending().len() && i != j ==> (
            #[trigger] self.pending()[i]).0 != (#[trigger] self.pending()[j]).0
        &&& forall|i: int|
            0 <= i < self.pending().len() ==> !self.forward().contains_key(
                (#[trigger] self.pending()[i]).0,
            )
        &&& forall|i: int|
            0 <= i < self.pending().len() ==> (#[trigger] self.pending()[i]).1.len()
                == self.spec_dimension()
    }

    /// What a single registration must satisfy to be accepted: the vector
    /// has the configured dimension and the identifier is not yet taken,
    /// neither by a pending registration nor by a built one.
    pub open spec fn accepts(&self, id: Seq<char>, v: Seq<u32>) -> bool {
        &&& v.len() == self.spec_dimension()
        &&& !self.pending_has(id)
        &&& !self.forward().contains_key(id)
    }

    pub fn new(
        dimension: usize,
        distance_type: DistanceMetric,
        object_type: ElementType,
        index_path: String,
    ) -> (r: NGT)
        requires
            dimension >= 1,
        ensures
            r.wf(),
            !r.spec_ready(),
            r.pending() == Seq::<(Seq<char>, Seq<u32>)>::empty(),
            r.forward() == Map::<Seq<char>, u32>::empty(),
            r.reverse() == Map::<u32, Seq<char>>::empty(),
            r.spec_config() == (dimension, distance_type, object_type, index_path@),
    {
        NGT {
            ready: false,
            insert_vecs: PendingBuffer::new(),
            id_map: IdentityMap::new(),
            dimension,
            distance_type,
            object_type,
            index_path,
        }
    }

    /// Record that the engine has been created. Every later operation
    /// requires this `Ready` state and reports `NotInitialized` without it.
    pub fn initialize(&mut self)
        ensures
            final(self).spec_ready(),
            final(self).pending() == old(self).pending(),
            final(self).forward() == old(self).forward(),
            final(self).reverse() == old(self).reverse(),
            final(self).spec_config() == old(self).spec_config(),
            old(self).wf() ==> final(self).wf(),
    {
        self.ready = true;
    }

    /// Buffer one registration. No engine handle is assigned here — that is
    /// deferred to the next build — so the vector stays invisible to
    /// `search` until then.
    pub fn insert(&mut self, id: &str, vec: Vec<u32>) -> (r: Result<(), Status>)
        requires
            old(self).wf(),
        ensures
            final(self).wf(),
            !old(self).spec_ready() ==> r == Err::<(), Status>(Status::NotInitialized)
                && *final(self) == *old(self),
            old(self).spec_ready() && !old(self).accepts(id@, vec@) ==> r == Err::<(), Status>(
                Status::InvalidArgument,
            ) && *final(self) == *old(self),
            old(self).spec_ready() && old(self).accepts(id@, vec@) ==> {
                &&& r == Ok::<(), Status>(())
                &&& final(self).pending() == old(self).pending().push((id@, vec@))
                &&& final(self).forward() == old(self).forward()
                &&& final(self).reverse() == old(self).reverse()
                &&& final(self).spec_ready()
                &&& final(self).spec_config() == old(self).spec_config()
            },
    {
        if !self.ready {
            return Err(Status::NotInitialized);
        }
        let id_string = id.to_string();
        if vec.len() != self.dimension {
            return Err(Status::InvalidArgument);
        }
        if self.insert_vecs.contains_id(&id_string) {
            proof {
                // The buffer's witness is a pending entry with this
                // identifier, so the registration is not acceptable.
                let w = choose|k: int|
                    0 <= k < self.insert_vecs@.len() && (#[trigger] self.insert_vecs@[k]).0
                        == id_string@;
                assert((self.pending()[w]).0 == id@);
            }
            return Err(Status::InvalidArgument);
        }
        if self.id_map.lookup_internal(&id_string).is_some() {
            return Err(Status::InvalidArgument);
        }
        let ghost old_pending = self.pending();
        self.insert_vecs.push(id_string, vec);
        proof {
            assert forall|i: int, j: int|
                0 <= i < self.pending().len() && 0 <= j < self.pending().len() && i
                    != j implies (#[trigger] self.pending()[i]).0 != (
            #[trigger] self.pending()[j]).0 by {
                if i < old_pending.len() && j < old_pending.len() {
                    assert(self.pending()[i] == old_pending[i]);
                    assert(self.pending()[j] == old_pending[j]);
                }
            }
        }
        Ok(())
    }

    /// Whether `results` is the correct caller-visible translation of the
    /// raw engine hits under this coordinator's reverse map: same length,
    /// each distance passed through unchanged, each mapped handle replaced
    /// by its identifier, and each unmapped handle — never an error —
    /// yielding an empty identifier in that one slot.
    pub open spec fn resolves(&self, hits: Seq<EngineHit>, results: Seq<Distance>) -> bool {
        &&& results.len() == hits.len()
        &&& forall|i: int|
            0 <= i < hits.len() ==> {
                &&& (#[trigger] results[i]).distance == hits[i].distance
                &&& (self.reverse().contains_key(hits[i].id) ==> results[i].id@
                    == self.reverse()[hits[i].id])
                &&& (!self.reverse().contains_key(hits[i].id) ==> results[i].id@
                    == Seq::<char>::empty())
            }
    }

    /// Translate the engine's raw hit list into caller-visible results.
    /// Running the query is the caller's step; this resolves what came
    /// back. A handle with no mapping yet (a build still in flight, or a
    /// never-built handle) degrades to an empty identifier.
    pub fn search(&self, hits: &Vec<EngineHit>) -> (r: Result<Vec<Distance>, Status>)
        requires
            self.wf(),
        ensures
            !self.spec_ready() ==> r == Err::<Vec<Distance>, Status>(Status::NotInitialized),
            self.spec_ready() ==> (r matches Ok(results) && self.resolves(hits@, results@)),
    {
        if !self.ready {
            return Err(Status::NotInitialized);
        }
        let n = hits.len();
        let mut results: Vec<Distance> = Vec::new();
        for i in 0..n
            invariant
                n == hits@.len(),
                self.wf(),
                self.spec_ready(),
                results@.len() == i,
                forall|j: int|
                    0 <= j < i ==> {
                        &&& (#[trigger] results@[j]).distance == hits@[j].distance
                        &&& (self.reverse().contains_key(hits@[j].id) ==> results@[j].id@
                            == self.reverse()[hits@[j].id])
                        &&& (!self.reverse().contains_key(hits@[j].id) ==> results@[j].id@ == Seq::<
                            char,
                        >::empty())
                    },
        {
            let hit = hits[i];
            let id = match self.id_map.lookup_external(hit.id) {
                Some(found) => found,
                None => String::new(),
            };
            results.push(Distance { id, distance: hit.distance });
        }
        Ok(results)
    }

    /// Whether a handle batch can be applied to this coordinator's pending
    /// registrations: one handle per entry, pairwise distinct, none already
    /// bound. The engine's promise that handles are unique for its lifetime
    /// makes every honestly obtained batch satisfy this.
    pub open spec fn build_applies(&self, oids: Seq<u32>) -> bool {
        &&& oids.len() == self.pending().len()
        &&& forall|i: int, j: int|
            0 <= i < oids.len() && 0 <= j < oids.len() && i != j ==> #[trigger] oids[i]
                != #[trigger] oids[j]
        &&& forall|i: int| 0 <= i < oids.len() ==> !self.reverse().contains_key(#[trigger] oids[i])
    }

    /// How a completed build relates the coordinator's state before the
    /// drain to the state after it: the buffer is empty, every previously
    /// built binding survives unchanged, the i-th drained registration is
    /// bound to the i-th handle in both directions, and nothing else was
    /// added.
    pub open spec fn build_post(pre: NGT, post: NGT, oids: Seq<u32>) -> bool {
        &&& post.pending().len() == 0
        &&& post.spec_ready() == pre.spec_ready()
        &&& post.spec_config() == pre.spec_config()
        &&& forall|id: Seq<char>| #[trigger]
            pre.forward().contains_key(id) ==> post.forward().contains_key(id)
                && post.forward()[id] == pre.forward()[id]
        &&& forall|o: u32| #[trigger]
            pre.reverse().contains_key(o) ==> post.reverse().contains_key(o) && post.reverse()[o]
                == pre.reverse()[o]
        &&& forall|i: int|
            0 <= i < pre.pending().len() ==> {
                &&& post.forward().contains_key((#[trigger] pre.pending()[i]).0)
                &&& post.forward()[pre.pending()[i].0] == oids[i]
                &&& post.reverse().contains_key(oids[i])
                &&& post.reverse()[oids[i]] == pre.pending()[i].0
            }
        &&& forall|id: Seq<char>| #[trigger]
            post.forward().contains_key(id) ==> pre.forward().contains_key(id)
                || pre.pending_has(id)
        &&& forall|o: u32| #[trigger]
            post.reverse().contains_key(o) ==> pre.reverse().contains_key(o) || oids.contains(o)
    }

    /// Apply one build: drain every pending registration and bind the i-th
    /// of them to `oids[i]`, the handle the engine assigned when the caller
    /// submitted that vector. The whole batch is applied or none of it: a
    /// batch of the wrong size, with a repeated handle, or with a handle
    /// that is already bound is refused with `Internal` and the state is
    /// left untouched. After `Ok`, the caller has the engine materialize
    /// the batch.
    pub fn create_index(&mut self, oids: &Vec<u32>) -> (r: Result<(), Status>)
        requires
            old(self).wf(),
        ensures
            final(self).wf(),
            !old(self).spec_ready() ==> r == Err::<(), Status>(Status::NotInitialized)
                && *final(self) == *old(self),
            old(self).spec_ready() && !old(self).build_applies(oids@) ==> r == Err::<(), Status>(
                Status::Internal,
            ) && *final(self) == *old(self),
            old(self).spec_ready() && old(self).build_applies(oids@) ==> r == Ok::<(), Status>(())
                && NGT::build_post(*old(self), *final(self), oids@),
    {
        if !self.ready {
            return Err(Status::NotInitialized);
        }
        let n = self.insert_vecs.len();
        if oids.len() != n {
            return Err(Status::Internal);
        }
        // Refuse the batch before touching anything, so a bad batch leaves
        // no partial state behind.
        for i in 0..n
            invariant
                *self == *old(self),
                self.wf(),
                self.spec_ready(),
                n == oids@.len(),
                n == self.pending().len(),
                forall|j: int| 0 <= j < i ==> !self.reverse().contains_key(#[trigger] oids@[j]),
                forall|j: int, k: int|
                    0 <= j < i && 0 <= k < i && j != k ==> #[trigger] oids@[j] != #[trigger] oids@[k],
        {
            if self.id_map.lookup_external(oids[i]).is_some() {
                return Err(Status::Internal);
            }
            for j in 0..i
                invariant
                    *self == *old(self),
                    self.wf(),
                    self.spec_ready(),
                    n == oids@.len(),
                    n == self.pending().len(),
                    i < n,
                    forall|k: int| 0 <= k < j ==> #[trigger] oids@[k] != oids@[i as int],
            {
                if oids[j] == oids[i] {
                    return Err(Status::Internal);
                }
            }
        }
        let ghost pre = *self;
        let entry_count = self.insert_vecs.len();
        let mut i: usize = 0;
        while i < entry_count
            invariant
                entry_count == pre.pending().len(),
                i <= entry_count,
                pre.wf(),
                pre.spec_ready(),
                pre.build_applies(oids@),
                oids@.len() == entry_count,
                self.id_map.wf(),
                self.insert_vecs == pre.insert_vecs,
                self.ready == pre.ready,
                self.dimension == pre.dimension,
                self.distance_type == pre.distance_type,
                self.object_type == pre.object_type,
                self.index_path == pre.index_path,
                forall|id: Seq<char>| #[trigger]
                    pre.forward().contains_key(id) ==> self.forward().contains_key(id)
                        && self.forward()[id] == pre.forward()[id],
                forall|o: u32| #[trigger]
                    pre.reverse().contains_key(o) ==> self.reverse().contains_key(o)
                        && self.reverse()[o] == pre.reverse()[o],
                forall|j: int|
                    0 <= j < i ==> {
                        &&& self.forward().contains_key((#[trigger] pre.pending()[j]).0)
                        &&& self.forward()[pre.pending()[j].0] == oids@[j]
                        &&& self.reverse().contains_key(oids@[j])
                        &&& self.reverse()[oids@[j]] == pre.pending()[j].0
                    },
                forall|id: Seq<char>| #[trigger]
                    self.forward().contains_key(id) ==> pre.forward().contains_key(id) || exists|
                        j: int,
                    | 0 <= j < i && (#[trigger] pre.pending()[j]).0 == id,
                forall|o: u32| #[trigger]
                    self.reverse().contains_key(o) ==> pre.reverse().contains_key(o) || exists|
                        j: int,
                    | 0 <= j < i && #[trigger] oids@[j] == o,
            decreases entry_count - i,
        {
            let entries = self.insert_vecs.entries();
            let id = entries[i].id.clone();
            let oid = oids[i];
            proof {
                assert(pre.pending()[i as int].0 == id@);
                // The identifier is fresh for the map: it was not built
                // before, and no earlier drained entry carries it.
                assert(!self.forward().contains_key(id@));
                assert(!self.reverse().contains_key(oid));
            }
            self.id_map.insert_pair(id, oid);
            i = i + 1;
            proof {
                assert forall|j: int|
                    0 <= j < i implies {
                    &&& self.forward().contains_key((#[trigger] pre.pending()[j]).0)
                    &&& self.forward()[pre.pending()[j].0] == oids@[j]
                    &&& self.reverse().contains_key(oids@[j])
                    &&& self.reverse()[oids@[j]] == pre.pending()[j].0
                } by {
                    if j < i - 1 {
                        assert(pre.pending()[j].0 != pre.pending()[i - 1].0);
                        assert(oids@[j] != oids@[i - 1]);
                    }
                }
            }
        }
        let ghost mid = *self;
        proof {
            assert forall|id: Seq<char>| #[trigger]
                mid.forward().contains_key(id) implies pre.forward().contains_key(id)
                || pre.pending_has(id) by {
                if !pre.forward().contains_key(id) {
                    let j = choose|j: int| 0 <= j < i && (#[trigger] pre.pending()[j]).0 == id;
                    assert(0 <= j < pre.pending().len() && pre.pending()[j].0 == id);
                }
            }
            assert forall|o: u32| #[trigger]
                mid.reverse().contains_key(o) implies pre.reverse().contains_key(o)
                || oids@.contains(o) by {
                if !pre.reverse().contains_key(o) {
                    let j = choose|j: int| 0 <= j < i && #[trigger] oids@[j] == o;
                    assert(0 <= j < oids@.len() && oids@[j] == o);
                }
            }
        }
        self.insert_vecs.clear();
        proof {
            // Draining the buffer leaves the maps as the loop built them.
            assert(self.forward() == mid.forward());
            assert(self.reverse() == mid.reverse());
        }
        Ok(())
    }

    /// Whether the engine has been created yet.
    pub fn is_ready(&self) -> (b: bool)
        ensures
            b == self.spec_ready(),
    {
        self.ready
    }

    /// Borrow the pending registrations, in insertion order. The build
    /// protocol walks these to submit each vector to the engine.
    pub fn pending_entries(&self) -> (r: &Vec<PendingEntry>)
        ensures
            r@.len() == self.pending().len(),
            forall|i: int| 0 <= i < self.pending().len() ==> r@[i]@ == self.pending()[i],
    {
        self.insert_vecs.entries()
    }

    /// How many registrations await the next build.
    pub fn pending_len(&self) -> (n: usize)
        ensures
            n == self.pending().len(),
    {
        self.insert_vecs.len()
    }

    /// The vector dimension the engine was configured with.
    pub fn dimension(&self) -> (d: usize)
        ensures
            d == self.spec_dimension(),
    {
        self.dimension
    }

    /// The configured distance metric.
    pub fn distance_type(&self) -> (m: DistanceMetric)
        ensures
            m == self.spec_config().1,
    {
        self.distance_type
    }

    /// The configured component representation.
    pub fn object_type(&self) -> (t: ElementType)
        ensures
            t == self.spec_config().2,
    {
        self.object_type
    }

    /// Where the engine persists the index.
    pub fn index_path(&self) -> (p: &String)
        ensures
            p@ == self.spec_config().3,
    {
        &self.index_path
    }
}

impl Default for NGT {
    /// The stock configuration: 784-dimensional single-precision vectors
    /// under the Euclidean metric, persisted under "index".
    fn default() -> (r: NGT)
        ensures
            r.wf(),
            !r.spec_ready(),
            r.pending() == Seq::<(Seq<char>, Seq<u32>)>::empty(),
            r.forward() == Map::<Seq<char>, u32>::empty(),
            r.reverse() == Map::<u32, Seq<char>>::empty(),
            r.spec_dimension() == 784,
            r.spec_config().1 == DistanceMetric::L2,
            r.spec_config().2 == ElementType::Float,
            r.spec_config().3 == "index"@,
    {
        NGT::new(784, DistanceMetric::L2, ElementType::Float, "index".to_string())
    }
}

/// For every identifier successfully built, the coordinator's forward and
/// reverse maps are mutual inverses: the reverse map sends the identifier's
/// handle back to the identifier, and the forward map sends a handle's
/// identifier back to the handle.
pub proof fn lemma_coordinator_maps_mutual_inverses(n: &NGT)
    requires
        n.wf(),
    ensures
        forall|id: Seq<char>| #[trigger]
            n.forward().contains_key(id) ==> n.reverse().contains_key(n.forward()[id])
                && n.reverse()[n.forward()[id]] == id,
        forall|o: u32| #[trigger]
            n.reverse().contains_key(o) ==> n.forward().contains_key(n.reverse()[o])
                && n.forward()[n.reverse()[o]] == o,
{
    lemma_maps_mutual_inverses(&n.id_map);
}

/// A registration that is still pending is invisible to search: as long as
/// a (nonempty) identifier waits in the buffer, no correctly resolved
/// result list contains it. (An empty pending identifier is the one
/// exception: an unresolved slot is reported as the empty identifier, which
/// would collide with it.)
pub proof fn lemma_pending_invisible(n: &NGT, hits: Seq<EngineHit>, results: Seq<Distance>, i: int)
    requires
        n.wf(),
        n.resolves(hits, results),
        0 <= i < n.pending().len(),
        n.pending()[i].0.len() > 0,
    ensures
        forall|j: int| 0 <= j < results.len() ==> (#[trigger] results[j]).id@ != n.pending()[i].0,
{
    let id = n.pending()[i].0;
    lemma_maps_mutual_inverses(&n.id_map);
    assert forall|j: int| 0 <= j < results.len() implies (#[trigger] results[j]).id@ != id by {
        if n.reverse().contains_key(hits[j].id) {
            // A resolved slot carries an identifier from the reverse map;
            // such an identifier is a forward key, and pending identifiers
            // are not.
            assert(n.forward().contains_key(results[j].id@));
        } else {
            assert(results[j].id@.len() == 0);
        }
    }
}

/// The identifier half of the nearest-neighbor round trip: after a build, a
/// hit on the handle assigned to a drained registration resolves to that
/// registration's identifier, with the engine's distance passed through.
/// (That the engine ranks the registration's own vector nearest, at
/// distance about zero, is the engine's promise, not the coordinator's.)
pub proof fn lemma_built_id_resolves(
    pre: NGT,
    post: NGT,
    oids: Seq<u32>,
    hits: Seq<EngineHit>,
    results: Seq<Distance>,
    i: int,
    j: int,
)
    requires
        pre.wf(),
        NGT::build_post(pre, post, oids),
        post.resolves(hits, results),
        0 <= i < pre.pending().len(),
        0 <= j < hits.len(),
        hits[j].id == oids[i],
    ensures
        results[j].id@ == pre.pending()[i].0,
        results[j].distance == hits[j].distance,
{
}

/// No insert is silently dropped by a build: every registration that was
/// pending when the drain began is bound in the index afterwards, to
/// exactly the handle the engine assigned for it, and findable in both
/// directions.
pub proof fn lemma_no_insert_dropped(pre: NGT, post: NGT, oids: Seq<u32>, i: int)
    requires
        pre.wf(),
        NGT::build_post(pre, post, oids),
        0 <= i < pre.pending().len(),
    ensures
        post.forward().contains_key(pre.pending()[i].0),
        post.forward()[pre.pending()[i].0] == oids[i],
        post.reverse().contains_key(oids[i]),
        post.reverse()[oids[i]] == pre.pending()[i].0,
{
}

} // verus!
