//! The entity store: an addressable arena keyed by derived addresses.
//!
//! Creation at an occupied address fails, which is what enforces every
//! uniqueness guarantee of the scheme. The store is modelled as the map from
//! addresses to record views that its entries hold.

use vstd::prelude::*;
use crate::records::Record;
use crate::records::RecordV;
use crate::records::SocialMediaError;

verus! {

/// One slot of the store: a record at its derived address.
pub struct Entry {
    pub addr: Vec<u8>,
    pub rec: Record,
}

/// The entity store.
pub struct Store {
    pub entries: Vec<Entry>,
}

/// No two entries share an address.
pub open spec fn distinct_addrs(s: Seq<Entry>) -> bool {
    forall|i: int, j: int| 0 <= i < j < s.len() ==> s[i].addr@ != s[j].addr@
}

/// The map from addresses to record views that a sequence of entries holds.
pub open spec fn map_of(s: Seq<Entry>) -> Map<Seq<u8>, RecordV>
    decreases s.len(),
{
    if s.len() == 0 {
        Map::empty()
    } else {
        map_of(s.drop_last()).insert(s.last().addr@, s.last().rec@)
    }
}

/// An entry of the sequence is in its map, with its record.
pub proof fn lemma_map_of_entry(s: Seq<Entry>, i: int)
    requires
        0 <= i < s.len(),
        forall|j: int| i < j < s.len() ==> s[j].addr@ != s[i].addr@,
    ensures
        map_of(s).contains_key(s[i].addr@),
        map_of(s)[s[i].addr@] == s[i].rec@,
    decreases s.len(),
{
    if i == s.len() - 1 {
    } else {
        lemma_map_of_entry(s.drop_last(), i);
    }
}

/// An address held by no entry is not in the map.
pub proof fn lemma_map_of_absent(s: Seq<Entry>, a: Seq<u8>)
    requires
        forall|i: int| 0 <= i < s.len() ==> s[i].addr@ != a,
    ensures
        !map_of(s).contains_key(a),
    decreases s.len(),
{
    if s.len() > 0 {
        lemma_map_of_absent(s.drop_last(), a);
    }
}

/// Appending an entry inserts its record into the map.
pub proof fn lemma_map_of_push(s: Seq<Entry>, e: Entry)
    ensures
        map_of(s.push(e)) == map_of(s).insert(e.addr@, e.rec@),
{
    assert(s.push(e).drop_last() =~= s);
    assert(s.push(e).last() == e);
}

/// Replacing the entry at an index with one at the same address updates the
/// map at that address.
pub proof fn lemma_map_of_update(s: Seq<Entry>, i: int, e: Entry)
    requires
        distinct_addrs(s),
        0 <= i < s.len(),
        e.addr@ == s[i].addr@,
    ensures
        map_of(s.update(i, e)) == map_of(s).insert(e.addr@, e.rec@),
    decreases s.len(),
{
    if i == s.len() - 1 {
        assert(s.update(i, e).drop_last() =~= s.drop_last());
        assert(map_of(s.drop_last()).insert(s[i].addr@, s[i].rec@).insert(e.addr@, e.rec@)
            =~= map_of(s.drop_last()).insert(e.addr@, e.rec@));
    } else {
        assert(s.update(i, e).drop_last() =~= s.drop_last().update(i, e));
        lemma_map_of_update(s.drop_last(), i, e);
        assert(s.last().addr@ != e.addr@);
        assert(map_of(s.drop_last()).insert(e.addr@, e.rec@).insert(s.last().addr@, s.last().rec@)
            =~= map_of(s.drop_last()).insert(s.last().addr@, s.last().rec@).insert(
            e.addr@,
            e.rec@,
        ));
        assert(s.update(i, e).last() == s.last());
    }
}

/// Removing the entry at an index removes its address from the map.
pub proof fn lemma_map_of_remove(s: Seq<Entry>, i: int)
    requires
        distinct_addrs(s),
        0 <= i < s.len(),
    ensures
        map_of(s.remove(i)) == map_of(s).remove(s[i].addr@),
    decreases s.len(),
{
    if i == s.len() - 1 {
        assert(s.remove(i) =~= s.drop_last());
        assert(forall|j: int| 0 <= j < s.drop_last().len() ==> s.drop_last()[j].addr@ != s[i].addr@);
        lemma_map_of_absent(s.drop_last(), s[i].addr@);
        assert(map_of(s.drop_last()) =~= map_of(s.drop_last()).insert(
            s.last().addr@,
            s.last().rec@,
        ).remove(s[i].addr@));
    } else {
        assert(s.remove(i).drop_last() =~= s.drop_last().remove(i));
        lemma_map_of_remove(s.drop_last(), i);
        assert(s.remove(i).last() == s.last());
        assert(s.last().addr@ != s[i].addr@);
        assert(map_of(s.drop_last()).remove(s[i].addr@).insert(s.last().addr@, s.last().rec@)
            =~= map_of(s.drop_last()).insert(s.last().addr@, s.last().rec@).remove(s[i].addr@));
    }
}

/// Entry sequences that agree pointwise on address and record views hold the
/// same map.
pub proof fn lemma_map_of_congruent(s1: Seq<Entry>, s2: Seq<Entry>)
    requires
        s1.len() == s2.len(),
        forall|i: int|
            0 <= i < s1.len() ==> s1[i].addr@ == s2[i].addr@ && s1[i].rec@ == s2[i].rec@,
    ensures
        map_of(s1) == map_of(s2),
    decreases s1.len(),
{
    if s1.len() > 0 {
        lemma_map_of_congruent(s1.drop_last(), s2.drop_last());
        assert(s1.last().addr@ == s2.last().addr@ && s1.last().rec@ == s2.last().rec@);
    }
}

/// Byte-string equality.
pub fn bytes_eq(a: &Vec<u8>, b: &Vec<u8>) -> (r: bool)
    ensures
        r == (a@ == b@),
{
    if a.len() != b.len() {
        return false;
    }
    let mut i: usize = 0;
    while i < a.len()
        invariant
            i <= a.len(),
            a@.len() == b@.len(),
            forall|j: int| 0 <= j < i ==> a@[j] == b@[j],
        decreases a.len() - i,
    {
        if a[i] != b[i] {
            return false;
        }
        i = i + 1;
    }
    proof {
        assert(a@ =~= b@);
    }
    true
}

impl Store {
    /// No two entries share an address.
    pub open spec fn wf(self) -> bool {
        distinct_addrs(self.entries@)
    }

    /// The store as a map from addresses to record views.
    pub open spec fn as_map(self) -> Map<Seq<u8>, RecordV> {
        map_of(self.entries@)
    }

    /// The record view at an address, if any.
    pub open spec fn rec_at(self, a: Seq<u8>) -> Option<RecordV> {
        if self.as_map().contains_key(a) {
            Some(self.as_map()[a])
        } else {
            None
        }
    }

    /// An empty store.
    pub fn new() -> (s: Store)
        ensures
            s.wf(),
            s.as_map() == Map::<Seq<u8>, RecordV>::empty(),
    {
        Store { entries: Vec::new() }
    }

    /// The index of the entry at an address, if any.
    pub fn find_index(&self, a: &Vec<u8>) -> (r: Option<usize>)
        requires
            self.wf(),
        ensures
            (match r {
                Some(i) => i < self.entries@.len() && self.entries@[i as int].addr@ == a@
                    && self.rec_at(a@) == Some(self.entries@[i as int].rec@),
                None => self.rec_at(a@) is None && (forall|j: int|
                    0 <= j < self.entries@.len() ==> self.entries@[j].addr@ != a@),
            }),
    {
        let mut i: usize = 0;
        while i < self.entries.len()
            invariant
                self.wf(),
                i <= self.entries@.len(),
                forall|j: int| 0 <= j < i ==> self.entries@[j].addr@ != a@,
            decreases self.entries@.len() - i,
        {
            if bytes_eq(&self.entries[i].addr, a) {
                proof {
                    lemma_map_of_entry(self.entries@, i as int);
                }
                return Some(i);
            }
            i = i + 1;
        }
        proof {
            lemma_map_of_absent(self.entries@, a@);
        }
        None
    }

    /// A reference to the record at an address, if any.
    pub fn get(&self, a: &Vec<u8>) -> (r: Option<&Record>)
        requires
            self.wf(),
        ensures
            (match r {
                Some(rec) => self.rec_at(a@) == Some(rec@),
                None => self.rec_at(a@) is None,
            }),
    {
        match self.find_index(a) {
            Some(i) => Some(&self.entries[i].rec),
            None => None,
        }
    }

    /// Create a record at an address; fails, changing nothing, if the
    /// address is already occupied.
    pub fn create(&mut self, a: Vec<u8>, r: Record) -> (res: Result<(), SocialMediaError>)
        requires
            old(self).wf(),
        ensures
            final(self).wf(),
            (match res {
                Ok(_) => old(self).rec_at(a@) is None && final(self).as_map() == old(
                    self,
                ).as_map().insert(a@, r@) && final(self).entries@ == old(self).entries@.push(
                    (Entry { addr: a, rec: r }),
                ),
                Err(e) => e == SocialMediaError::AddressAlreadyInUse && old(self).rec_at(a@)
                    is Some && *final(self) == *old(self),
            }),
    {
        match self.find_index(&a) {
            Some(_) => Err(SocialMediaError::AddressAlreadyInUse),
            None => {
                proof {
                    lemma_map_of_push(self.entries@, Entry { addr: a, rec: r });
                }
                self.entries.push(Entry { addr: a, rec: r });
                Ok(())
            },
        }
    }

    /// Replace the record at entry `i`, keeping its address.
    pub fn replace_at(&mut self, i: usize, r: Record)
        requires
            old(self).wf(),
            i < old(self).entries@.len(),
        ensures
            final(self).wf(),
            final(self).as_map() == old(self).as_map().insert(
                old(self).entries@[i as int].addr@,
                r@,
            ),
            final(self).entries@ == old(self).entries@.update(
                i as int,
                (Entry { addr: old(self).entries@[i as int].addr, rec: r }),
            ),
    {
        let e = self.entries.remove(i);
        let ghost pre = old(self).entries@;
        let ghost mid = self.entries@;
        self.entries.insert(i, Entry { addr: e.addr, rec: r });
        proof {
            assert(self.entries@ =~= pre.update(
                i as int,
                Entry { addr: pre[i as int].addr, rec: r },
            )) by {
                assert(mid =~= pre.remove(i as int));
                assert forall|j: int| 0 <= j < pre.len() implies self.entries@[j]
                    == pre.update(i as int, Entry { addr: pre[i as int].addr, rec: r })[j] by {
                    if j < i as int {
                        assert(self.entries@[j] == mid[j]);
                    } else if j > i as int {
                        assert(self.entries@[j] == mid[j - 1]);
                    }
                }
            }
            lemma_map_of_update(pre, i as int, Entry { addr: pre[i as int].addr, rec: r });
        }
    }

    /// Remove the entry at index `i`, freeing its address.
    pub fn remove_entry(&mut self, i: usize)
        requires
            old(self).wf(),
            i < old(self).entries@.len(),
        ensures
            final(self).wf(),
            final(self).as_map() == old(self).as_map().remove(
                old(self).entries@[i as int].addr@,
            ),
    {
        proof {
            lemma_map_of_remove(self.entries@, i as int);
        }
        let _ = self.entries.remove(i);
        proof {
            let pre = old(self).entries@;
            assert forall|p: int, q: int|
                0 <= p < q < self.entries@.len() implies self.entries@[p].addr@
                != self.entries@[q].addr@ by {
                let p0 = if p < i as int {
                    p
                } else {
                    p + 1
                };
                let q0 = if q < i as int {
                    q
                } else {
                    q + 1
                };
                assert(self.entries@[p] == pre[p0]);
                assert(self.entries@[q] == pre[q0]);
            }
        }
    }
}

} // verus!
