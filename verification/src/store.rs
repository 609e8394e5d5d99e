//! The record store: a transactional key-value view of the ledger,
//! keyed by derived address.
//!
//! The store offers exactly the primitive the host ledger offers:
//! `allocate` succeeds only at an address that holds nothing yet, and a
//! failing allocation changes nothing.  All uniqueness guarantees of the
//! registry reduce to this allocate-or-fail semantics combined with the
//! determinism of address derivation.

use vstd::prelude::*;
use vstd::set::axiom_set_insert_len;
use crate::address::Address;
use crate::bytes::bytes_eq;
use crate::state::Record;
use crate::state::RecordV;

verus! {

/// No two entries share an address.
pub open spec fn unique_keys(s: Seq<(Address, Record)>) -> bool {
    forall|i: int, j: int| 0 <= i < j < s.len() ==> s[i].0@ != s[j].0@
}

/// The map that a sequence of (address, record) entries denotes.
pub open spec fn entries_map(s: Seq<(Address, Record)>) -> Map<Seq<u8>, RecordV>
    decreases s.len(),
{
    if s.len() == 0 {
        Map::empty()
    } else {
        entries_map(s.drop_last()).insert(s.last().0@, s.last().1@)
    }
}

proof fn lemma_entries_map_domain(s: Seq<(Address, Record)>, k: Seq<u8>)
    ensures
        entries_map(s).contains_key(k) <==> exists|i: int| 0 <= i < s.len() && s[i].0@ == k,
    decreases s.len(),
{
    if s.len() > 0 {
        let s0 = s.drop_last();
        lemma_entries_map_domain(s0, k);
        if entries_map(s).contains_key(k) {
            if k == s.last().0@ {
                assert(s[s.len() - 1].0@ == k);
            } else {
                let i = choose|i: int| 0 <= i < s0.len() && s0[i].0@ == k;
                assert(s[i].0@ == k);
            }
        }
        if exists|i: int| 0 <= i < s.len() && s[i].0@ == k {
            let i = choose|i: int| 0 <= i < s.len() && s[i].0@ == k;
            if i < s.len() - 1 {
                assert(s0[i].0@ == k);
            }
        }
    }
}

proof fn lemma_entries_map_value(s: Seq<(Address, Record)>, i: int)
    requires
        unique_keys(s),
        0 <= i < s.len(),
    ensures
        entries_map(s)[s[i].0@] == s[i].1@,
    decreases s.len(),
{
    if i < s.len() - 1 {
        let s0 = s.drop_last();
        assert(unique_keys(s0)) by {
            assert(forall|p: int, q: int| 0 <= p < q < s0.len() ==> s[p].0@ != s[q].0@);
        }
        lemma_entries_map_value(s0, i);
        assert(s.last().0@ != s[i].0@);
    }
}

proof fn lemma_entries_map_push(s: Seq<(Address, Record)>, a: Address, rec: Record)
    ensures
        entries_map(s.push((a, rec))) == entries_map(s).insert(a@, rec@),
{
    assert(s.push((a, rec)).drop_last() =~= s);
    assert(s.push((a, rec)).last() == (a, rec));
}

proof fn lemma_entries_map_dom_len(s: Seq<(Address, Record)>)
    requires
        unique_keys(s),
    ensures
        entries_map(s).dom().finite(),
        entries_map(s).dom().len() == s.len(),
    decreases s.len(),
{
    if s.len() == 0 {
        assert(entries_map(s).dom() =~= Set::<Seq<u8>>::empty());
    } else {
        let s0 = s.drop_last();
        assert(unique_keys(s0)) by {
            assert(forall|p: int, q: int| 0 <= p < q < s0.len() ==> s[p].0@ != s[q].0@);
        }
        lemma_entries_map_dom_len(s0);
        assert(!entries_map(s0).contains_key(s.last().0@)) by {
            lemma_entries_map_domain(s0, s.last().0@);
            if entries_map(s0).contains_key(s.last().0@) {
                let i = choose|i: int| 0 <= i < s0.len() && s0[i].0@ == s.last().0@;
                assert(s[i].0@ == s[s.len() - 1].0@);
            }
        }
        axiom_set_insert_len(entries_map(s0).dom(), s.last().0@);
        assert(entries_map(s).dom() =~= entries_map(s0).dom().insert(s.last().0@));
    }
}

/// The record store keyed by derived address.
pub struct Store {
    entries: Vec<(Address, Record)>,
}

impl View for Store {
    type V = Map<Seq<u8>, RecordV>;

    closed spec fn view(&self) -> Map<Seq<u8>, RecordV> {
        entries_map(self.entries@)
    }
}

impl Store {
    /// A well-formed store holds at most one record per address.
    pub closed spec fn wf(&self) -> bool {
        unique_keys(self.entries@)
    }

    /// An empty store.
    pub fn new() -> (r: Store)
        ensures
            r.wf(),
            r@ == Map::<Seq<u8>, RecordV>::empty(),
    {
        Store { entries: Vec::new() }
    }

    /// The number of records the store holds.
    pub fn len(&self) -> (r: usize)
        requires
            self.wf(),
        ensures
            r == self@.dom().len(),
    {
        proof {
            lemma_entries_map_dom_len(self.entries@);
        }
        self.entries.len()
    }

    /// The record stored at `addr`, if any.
    pub fn get(&self, addr: &Address) -> (r: Option<&Record>)
        requires
            self.wf(),
        ensures
            match r {
                Some(rec) => self@.contains_key(addr@) && rec@ == self@[addr@],
                None => !self@.contains_key(addr@),
            },
    {
        let n: usize = self.entries.len();
        let mut i: usize = 0;
        while i < n
            invariant
                self.wf(),
                n == self.entries@.len(),
                0 <= i <= n,
                forall|j: int| 0 <= j < i ==> (#[trigger] self.entries@[j]).0@ != addr@,
            decreases n - i,
        {
            if bytes_eq(&self.entries[i].0.bytes, &addr.bytes) {
                proof {
                    lemma_entries_map_domain(self.entries@, addr@);
                    lemma_entries_map_value(self.entries@, i as int);
                }
                return Some(&self.entries[i].1);
            }
            i += 1;
        }
        proof {
            lemma_entries_map_domain(self.entries@, addr@);
        }
        None
    }

    /// True iff some record is stored at `addr`.
    pub fn contains(&self, addr: &Address) -> (r: bool)
        requires
            self.wf(),
        ensures
            r == self@.contains_key(addr@),
    {
        self.get(addr).is_some()
    }

    /// Atomic allocate-or-fail: stores `record` at `addr` and returns
    /// true iff the address held nothing yet; otherwise leaves the store
    /// untouched and returns false.
    pub fn allocate(&mut self, addr: &Address, record: Record) -> (r: bool)
        requires
            old(self).wf(),
        ensures
            final(self).wf(),
            r == !old(self)@.contains_key(addr@),
            r ==> final(self)@ == old(self)@.insert(addr@, record@),
            !r ==> *final(self) == *old(self),
    {
        if self.contains(addr) {
            return false;
        }
        proof {
            lemma_entries_map_domain(self.entries@, addr@);
        }
        let a = addr.duplicate();
        let ghost entries0 = self.entries@;
        let ghost a0 = a;
        let ghost record0 = record;
        self.entries.push((a, record));
        proof {
            assert forall|i: int, j: int| 0 <= i < j < self.entries@.len()
                implies self.entries@[i].0@ != self.entries@[j].0@ by {
                if j == self.entries@.len() - 1 {
                    assert(entries0[i].0@ != addr@);
                }
            }
            lemma_entries_map_push(entries0, a0, record0);
        }
        true
    }
}

} // verus!
