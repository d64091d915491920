//! The ordered buffer of vectors that are registered but not yet
//! materialized into the engine. Entries wait here between `insert` and the
//! next index build, in insertion order.

use vstd::prelude::*;

verus! {

/// One buffered registration: the caller's identifier and the vector's
/// component patterns.
pub struct PendingEntry {
    pub id: String,
    pub vector: Vec<u32>,
}

impl View for PendingEntry {
    type V = (Seq<char>, Seq<u32>);

    open spec fn view(&self) -> (Seq<char>, Seq<u32>) {
        (self.id@, self.vector@)
    }
}

/// The ordered collection of pending registrations.
pub struct PendingBuffer {
    entries: Vec<PendingEntry>,
}

impl View for PendingBuffer {
    type V = Seq<(Seq<char>, Seq<u32>)>;

    closed spec fn view(&self) -> Seq<(Seq<char>, Seq<u32>)> {
        self.entries@.map_values(|e: PendingEntry| e@)
    }
}

impl PendingBuffer {
    pub fn new() -> (r: PendingBuffer)
        ensures
            r@ == Seq::<(Seq<char>, Seq<u32>)>::empty(),
    {
        let r = PendingBuffer { entries: Vec::new() };
        proof {
            assert(r@ =~= Seq::<(Seq<char>, Seq<u32>)>::empty());
        }
        r
    }

    pub fn len(&self) -> (n: usize)
        ensures
            n == self@.len(),
    {
        self.entries.len()
    }

    /// Append one registration at the end, keeping insertion order.
    pub fn push(&mut self, id: String, vector: Vec<u32>)
        ensures
            final(self)@ == old(self)@.push((id@, vector@)),
    {
        let ghost old_view = self@;
        let ghost id_view = id@;
        let ghost vec_view = vector@;
        self.entries.push(PendingEntry { id, vector });
        proof {
            assert(self@ =~= old_view.push((id_view, vec_view)));
        }
    }

    /// Whether some pending entry carries this identifier.
    pub fn contains_id(&self, id: &String) -> (r: bool)
        ensures
            r <==> exists|i: int| 0 <= i < self@.len() && (#[trigger] self@[i]).0 == id@,
    {
        let n = self.entries.len();
        for i in 0..n
            invariant
                n == self@.len(),
                forall|j: int| 0 <= j < i ==> (#[trigger] self@[j]).0 != id@,
        {
            if self.entries[i].id == *id {
                proof {
                    assert(self@[i as int].0 == id@);
                }
                return true;
            }
            proof {
                assert(self@[i as int].0 != id@);
            }
        }
        false
    }

    /// Borrow the entries, for walking them in order.
    pub fn entries(&self) -> (r: &Vec<PendingEntry>)
        ensures
            r@.len() == self@.len(),
            forall|i: int| 0 <= i < self@.len() ==> r@[i]@ == self@[i],
    {
        &self.entries
    }

    /// Drop every entry. The build step calls this after each drained entry
    /// has been recorded in the identity map.
    pub fn clear(&mut self)
        ensures
            final(self)@ == Seq::<(Seq<char>, Seq<u32>)>::empty(),
    {
        self.entries.clear();
        proof {
            assert(self@ =~= Seq::<(Seq<char>, Seq<u32>)>::empty());
        }
    }
}

} // verus!
