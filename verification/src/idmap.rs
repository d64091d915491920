//! The bidirectional mapping between caller-supplied string identifiers and
//! engine-assigned numeric handles.
//!
//! The map is stored as one list of pairs, so the two lookup directions can
//! never drift apart: both are views of the same entries. Well-formedness
//! (`wf`) says the entries form a bijection — no external identifier and no
//! internal handle occurs twice.

use vstd::prelude::*;

verus! {

/// One binding of a caller-visible identifier to an engine handle.
struct IdPair {
    external: String,
    internal: u32,
}

/// The caller-facing identifier/handle bijection.
pub struct IdentityMap {
    pairs: Vec<IdPair>,
}

/// The forward map (external identifier to internal handle) induced by a
/// list of entries. A later entry for the same identifier would win; under
/// `pairwise_distinct` there is no such entry.
pub open spec fn fwd_of(s: Seq<(Seq<char>, u32)>) -> Map<Seq<char>, u32>
    decreases s.len(),
{
    if s.len() == 0 {
        Map::empty()
    } else {
        fwd_of(s.drop_last()).insert(s.last().0, s.last().1)
    }
}

/// The reverse map (internal handle to external identifier) induced by a
/// list of entries.
pub open spec fn rev_of(s: Seq<(Seq<char>, u32)>) -> Map<u32, Seq<char>>
    decreases s.len(),
{
    if s.len() == 0 {
        Map::empty()
    } else {
        rev_of(s.drop_last()).insert(s.last().1, s.last().0)
    }
}

/// No external identifier and no internal handle occurs in two entries.
pub open spec fn pairwise_distinct(s: Seq<(Seq<char>, u32)>) -> bool {
    forall|i: int, j: int|
        0 <= i < s.len() && 0 <= j < s.len() && i != j ==> (#[trigger] s[i]).0 != (
        #[trigger] s[j]).0 && s[i].1 != s[j].1
}

pub proof fn lemma_fwd_contains(s: Seq<(Seq<char>, u32)>, id: Seq<char>)
    ensures
        fwd_of(s).contains_key(id) <==> exists|i: int| 0 <= i < s.len() && (#[trigger] s[i]).0 == id,
    decreases s.len(),
{
    if s.len() == 0 {
    } else {
        lemma_fwd_contains(s.drop_last(), id);
        if fwd_of(s).contains_key(id) {
            if id == s.last().0 {
                assert(s[s.len() - 1].0 == id);
            } else {
                let i = choose|i: int| 0 <= i < s.drop_last().len() && (#[trigger] s.drop_last()[i]).0 == id;
                assert(s[i].0 == id);
            }
        }
        if exists|i: int| 0 <= i < s.len() && (#[trigger] s[i]).0 == id {
            let i = choose|i: int| 0 <= i < s.len() && (#[trigger] s[i]).0 == id;
            if i < s.len() - 1 {
                assert(s.drop_last()[i].0 == id);
            }
        }
    }
}

pub proof fn lemma_rev_contains(s: Seq<(Seq<char>, u32)>, o: u32)
    ensures
        rev_of(s).contains_key(o) <==> exists|i: int| 0 <= i < s.len() && (#[trigger] s[i]).1 == o,
    decreases s.len(),
{
    if s.len() == 0 {
    } else {
        lemma_rev_contains(s.drop_last(), o);
        if rev_of(s).contains_key(o) {
            if o == s.last().1 {
                assert(s[s.len() - 1].1 == o);
            } else {
                let i = choose|i: int| 0 <= i < s.drop_last().len() && (#[trigger] s.drop_last()[i]).1 == o;
                assert(s[i].1 == o);
            }
        }
        if exists|i: int| 0 <= i < s.len() && (#[trigger] s[i]).1 == o {
            let i = choose|i: int| 0 <= i < s.len() && (#[trigger] s[i]).1 == o;
            if i < s.len() - 1 {
                assert(s.drop_last()[i].1 == o);
            }
        }
    }
}

/// Under distinctness, the forward map sends each entry's identifier to that
/// entry's handle.
pub proof fn lemma_fwd_at(s: Seq<(Seq<char>, u32)>, i: int)
    requires
        pairwise_distinct(s),
        0 <= i < s.len(),
    ensures
        fwd_of(s).contains_key(s[i].0),
        fwd_of(s)[s[i].0] == s[i].1,
    decreases s.len(),
{
    if i == s.len() - 1 {
    } else {
        assert(s.drop_last()[i] == s[i]);
        lemma_fwd_at(s.drop_last(), i);
        assert(s[i].0 != s.last().0);
    }
}

/// Under distinctness, the reverse map sends each entry's handle to that
/// entry's identifier.
pub proof fn lemma_rev_at(s: Seq<(Seq<char>, u32)>, i: int)
    requires
        pairwise_distinct(s),
        0 <= i < s.len(),
    ensures
        rev_of(s).contains_key(s[i].1),
        rev_of(s)[s[i].1] == s[i].0,
    decreases s.len(),
{
    if i == s.len() - 1 {
    } else {
        assert(s.drop_last()[i] == s[i]);
        lemma_rev_at(s.drop_last(), i);
        assert(s[i].1 != s.last().1);
    }
}

impl IdentityMap {
    /// The entries as a mathematical sequence of (identifier, handle) pairs,
    /// in insertion order.
    pub closed spec fn entries(&self) -> Seq<(Seq<char>, u32)> {
        self.pairs@.map_values(|p: IdPair| (p.external@, p.internal))
    }

    /// External identifier to internal handle.
    pub open spec fn forward(&self) -> Map<Seq<char>, u32> {
        fwd_of(self.entries())
    }

    /// Internal handle to external identifier.
    pub open spec fn reverse(&self) -> Map<u32, Seq<char>> {
        rev_of(self.entries())
    }

    /// The entries form a bijection.
    pub open spec fn wf(&self) -> bool {
        pairwise_distinct(self.entries())
    }

    pub fn new() -> (r: IdentityMap)
        ensures
            r.wf(),
            r.entries() == Seq::<(Seq<char>, u32)>::empty(),
            r.forward() == Map::<Seq<char>, u32>::empty(),
            r.reverse() == Map::<u32, Seq<char>>::empty(),
    {
        let r = IdentityMap { pairs: Vec::new() };
        proof {
            assert(r.entries() =~= Seq::<(Seq<char>, u32)>::empty());
        }
        r
    }

    /// Look an external identifier up in the forward direction.
    pub fn lookup_internal(&self, external: &String) -> (r: Option<u32>)
        requires
            self.wf(),
        ensures
            match r {
                Some(o) => self.forward().contains_key(external@) && self.forward()[external@]
                    == o,
                None => !self.forward().contains_key(external@),
            },
    {
        let n = self.pairs.len();
        for i in 0..n
            invariant
                n == self.pairs.len(),
                self.wf(),
                forall|j: int| 0 <= j < i ==> (#[trigger] self.entries()[j]).0 != external@,
        {
            if self.pairs[i].external == *external {
                proof {
                    assert(self.entries()[i as int].0 == external@);
                    lemma_fwd_at(self.entries(), i as int);
                }
                return Some(self.pairs[i].internal);
            }
            proof {
                assert(self.entries()[i as int].0 != external@);
            }
        }
        proof {
            lemma_fwd_contains(self.entries(), external@);
        }
        None
    }

    /// Look an internal handle up in the reverse direction. The returned
    /// identifier is a copy of the stored one.
    pub fn lookup_external(&self, internal: u32) -> (r: Option<String>)
        requires
            self.wf(),
        ensures
            match r {
                Some(id) => self.reverse().contains_key(internal) && self.reverse()[internal]
                    == id@,
                None => !self.reverse().contains_key(internal),
            },
    {
        let n = self.pairs.len();
        for i in 0..n
            invariant
                n == self.pairs.len(),
                self.wf(),
                forall|j: int| 0 <= j < i ==> (#[trigger] self.entries()[j]).1 != internal,
        {
            if self.pairs[i].internal == internal {
                proof {
                    assert(self.entries()[i as int].1 == internal);
                    lemma_rev_at(self.entries(), i as int);
                }
                return Some(self.pairs[i].external.clone());
            }
            proof {
                assert(self.entries()[i as int].1 != internal);
            }
        }
        proof {
            lemma_rev_contains(self.entries(), internal);
        }
        None
    }

    /// Record one fresh binding. Freshness on both sides keeps the entries a
    /// bijection.
    pub fn insert_pair(&mut self, external: String, internal: u32)
        requires
            old(self).wf(),
            !old(self).forward().contains_key(external@),
            !old(self).reverse().contains_key(internal),
        ensures
            final(self).wf(),
            final(self).entries() == old(self).entries().push((external@, internal)),
            final(self).forward() == old(self).forward().insert(external@, internal),
            final(self).reverse() == old(self).reverse().insert(internal, external@),
    {
        let ghost old_entries = self.entries();
        let ghost ext_view = external@;
        self.pairs.push(IdPair { external, internal });
        proof {
            assert(self.entries() =~= old_entries.push((ext_view, internal)));
            assert(self.entries().drop_last() =~= old_entries);
            lemma_fwd_contains(old_entries, ext_view);
            lemma_rev_contains(old_entries, internal);
            assert forall|i: int, j: int|
                0 <= i < self.entries().len() && 0 <= j < self.entries().len() && i != j implies (
            #[trigger] self.entries()[i]).0 != (#[trigger] self.entries()[j]).0
                && self.entries()[i].1 != self.entries()[j].1 by {
                if i < old_entries.len() && j < old_entries.len() {
                    assert(old_entries[i] == self.entries()[i]);
                    assert(old_entries[j] == self.entries()[j]);
                }
            }
        }
    }
}

/// For every identifier successfully built, the two directions are mutual
/// inverses: following the forward map and then the reverse map returns the
/// identifier, and following the reverse map and then the forward map
/// returns the handle.
pub proof fn lemma_maps_mutual_inverses(m: &IdentityMap)
    requires
        m.wf(),
    ensures
        forall|id: Seq<char>| #[trigger]
            m.forward().contains_key(id) ==> m.reverse().contains_key(m.forward()[id])
                && m.reverse()[m.forward()[id]] == id,
        forall|o: u32| #[trigger]
            m.reverse().contains_key(o) ==> m.forward().contains_key(m.reverse()[o])
                && m.forward()[m.reverse()[o]] == o,
{
    let s = m.entries();
    assert forall|id: Seq<char>| #[trigger] m.forward().contains_key(id) implies m.reverse()
        .contains_key(m.forward()[id]) && m.reverse()[m.forward()[id]] == id by {
        lemma_fwd_contains(s, id);
        let i = choose|i: int| 0 <= i < s.len() && (#[trigger] s[i]).0 == id;
        lemma_fwd_at(s, i);
        lemma_rev_at(s, i);
    }
    assert forall|o: u32| #[trigger] m.reverse().contains_key(o) implies m.forward().contains_key(
        m.reverse()[o],
    ) && m.forward()[m.reverse()[o]] == o by {
        lemma_rev_contains(s, o);
        let i = choose|i: int| 0 <= i < s.len() && (#[trigger] s[i]).1 == o;
        lemma_rev_at(s, i);
        lemma_fwd_at(s, i);
    }
}

} // verus!
