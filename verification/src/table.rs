//! A table of values keyed by request id, in which every id occurs at most
//! once: the consumer keeps its pending requests in one, the producer the
//! abort switches of its running tasks. It is a `HashMap`; what it hands out
//! in bulk is a sequence of slots with distinct ids.

use vstd::prelude::*;
use vstd::std_specs::iter::IteratorSpec;
use std::collections::HashMap;

verus! {

/// The ids of a sequence of slots are pairwise distinct.
pub open spec fn unique_ids<T>(s: Seq<(usize, T)>) -> bool {
    forall|i: int, j: int| 0 <= i < s.len() && 0 <= j < s.len() && i != j ==> #[trigger] s[i].0 != #[trigger] s[j].0
}

/// The map that a sequence of slots stands for: later slots win.
pub open spec fn slots_map<T>(s: Seq<(usize, T)>) -> Map<usize, T>
    decreases s.len(),
{
    if s.len() == 0 {
        Map::empty()
    } else {
        slots_map(s.drop_last()).insert(s.last().0, s.last().1)
    }
}

/// Of slots with distinct ids: the map holds exactly their ids, each with the
/// value of its slot, and its domain is finite.
pub proof fn lemma_slots_map<T>(s: Seq<(usize, T)>)
    requires
        unique_ids(s),
    ensures
        forall|k: usize| #[trigger] slots_map(s).contains_key(k) <==> exists|i: int| 0 <= i < s.len() && #[trigger] s[i].0 == k,
        forall|i: int| 0 <= i < s.len() ==> #[trigger] slots_map(s)[s[i].0] == s[i].1,
        slots_map(s).dom().finite(),
        slots_map(s).dom().len() == s.len(),
    decreases s.len(),
{
    if s.len() > 0 {
        let p = s.drop_last();
        assert(unique_ids(p)) by {
            assert forall|i: int, j: int| 0 <= i < p.len() && 0 <= j < p.len() && i != j implies #[trigger] p[i].0 != #[trigger] p[j].0 by {
                assert(p[i] == s[i] && p[j] == s[j]);
            }
        }
        lemma_slots_map(p);
        let last = s.last();
        assert(!slots_map(p).contains_key(last.0)) by {
            if slots_map(p).contains_key(last.0) {
                let i = choose|i: int| 0 <= i < p.len() && #[trigger] p[i].0 == last.0;
                assert(s[i].0 == s[s.len() - 1].0);
            }
        }
        assert forall|k: usize| #[trigger] slots_map(s).contains_key(k) <==> exists|i: int| 0 <= i < s.len() && #[trigger] s[i].0 == k by {
            if slots_map(s).contains_key(k) {
                if k == last.0 {
                    assert(s[s.len() - 1].0 == k);
                } else {
                    let i = choose|i: int| 0 <= i < p.len() && #[trigger] p[i].0 == k;
                    assert(s[i].0 == k);
                }
            }
            if exists|i: int| 0 <= i < s.len() && #[trigger] s[i].0 == k {
                let i = choose|i: int| 0 <= i < s.len() && #[trigger] s[i].0 == k;
                if i < s.len() - 1 {
                    assert(p[i].0 == k);
                }
            }
        }
        assert forall|i: int| 0 <= i < s.len() implies #[trigger] slots_map(s)[s[i].0] == s[i].1 by {
            if i < s.len() - 1 {
                assert(p[i] == s[i]);
                assert(s[i].0 != last.0);
            }
        }
    }
}

/// A table from request ids to values.
#[derive(Debug)]
pub struct IdTable<T> {
    map: HashMap<usize, T>,
}

/// The ids of a map, in some order, each once.
fn keys_of<T>(m: &HashMap<usize, T>) -> (r: Vec<usize>)
    ensures
        r@.to_set() == m@.dom(),
        r@.no_duplicates(),
        r@.len() == m@.dom().len(),
{
    broadcast use vstd::std_specs::hash::group_hash_axioms;
    let ghost all = vstd::std_specs::hash::spec_keys_iter(m).remaining().map_values(|k: &usize| *k);
    let mut keys: Vec<usize> = Vec::new();
    for k in it: m.keys()
        invariant
            it.seq().map_values(|k: &usize| *k) == all,
            keys@ == all.take(it.index() as int),
            it.index() <= all.len(),
        ensures
            keys@ == all,
    {
        keys.push(*k);
        assert(keys@ =~= all.take(it.index() as int + 1));
    }
    proof {
        let rem = vstd::std_specs::hash::spec_keys_iter(m).remaining();
        assert(all.to_set() =~= m@.dom()) by {
            assert forall|x: usize| all.to_set().contains(x) <==> m@.dom().contains(x) by {
                if m@.dom().contains(x) {
                    assert(rem.unref().to_set().contains(x));
                    let i = choose|i: int| 0 <= i < rem.unref().len() && rem.unref()[i] == x;
                    assert(all[i] == x);
                }
                if all.to_set().contains(x) {
                    let i = choose|i: int| 0 <= i < all.len() && all[i] == x;
                    assert(rem.unref()[i] == x);
                    assert(rem.unref().to_set().contains(x));
                }
            }
        }
    }
    keys
}

impl<T> IdTable<T> {
    /// The table as a map from ids to values.
    pub closed spec fn view(&self) -> Map<usize, T> {
        self.map@
    }

    /// The table is well formed: it holds finitely many ids.
    pub closed spec fn wf(&self) -> bool {
        self.map@.dom().finite()
    }

    /// A well formed table has a finite domain.
    pub proof fn lemma_finite(&self)
        requires
            self.wf(),
        ensures
            self@.dom().finite(),
    {
    }

    /// An empty table.
    pub fn new() -> (r: Self)
        ensures
            r.wf(),
            r@ == Map::<usize, T>::empty(),
    {
        IdTable { map: HashMap::new() }
    }

    /// Number of ids in the table.
    pub fn len(&self) -> (r: usize)
        requires
            self.wf(),
        ensures
            r == self@.len(),
    {
        broadcast use vstd::std_specs::hash::group_hash_axioms;
        self.map.len()
    }

    /// Whether the table holds no id.
    pub fn is_empty(&self) -> (r: bool)
        requires
            self.wf(),
        ensures
            r == (self@.dom() =~= Set::<usize>::empty()),
    {
        broadcast use vstd::std_specs::hash::group_hash_axioms;
        let r = self.map.is_empty();
        proof {
            if !r {
                assert(self.map@.dom().len() > 0 || !self.map@.is_empty());
                if self.map@.dom() =~= Set::<usize>::empty() {
                    assert(self.map@ =~= Map::<usize, T>::empty());
                }
            } else {
                assert(self.map@ =~= Map::<usize, T>::empty());
            }
        }
        r
    }

    /// Whether the table holds the id.
    pub fn contains(&self, id: usize) -> (r: bool)
        requires
            self.wf(),
        ensures
            r == self@.contains_key(id),
    {
        broadcast use vstd::std_specs::hash::group_hash_axioms;
        self.map.contains_key(&id)
    }

    /// The value held for the id.
    pub fn get(&self, id: usize) -> (r: Option<&T>)
        requires
            self.wf(),
        ensures
            match r {
                Some(v) => self@.contains_key(id) && *v == self@[id],
                None => !self@.contains_key(id),
            },
    {
        broadcast use vstd::std_specs::hash::group_hash_axioms;
        self.map.get(&id)
    }

    /// Holds the value for the id, and hands back the value it replaced.
    pub fn insert(&mut self, id: usize, value: T) -> (r: Option<T>)
        requires
            old(self).wf(),
        ensures
            final(self).wf(),
            final(self)@ == old(self)@.insert(id, value),
            match r {
                Some(v) => old(self)@.contains_key(id) && v == old(self)@[id],
                None => !old(self)@.contains_key(id),
            },
    {
        broadcast use vstd::std_specs::hash::group_hash_axioms;
        self.map.insert(id, value)
    }

    /// Drops the id from the table, and hands back the value it held.
    pub fn remove(&mut self, id: usize) -> (r: Option<T>)
        requires
            old(self).wf(),
        ensures
            final(self).wf(),
            final(self)@ == old(self)@.remove(id),
            match r {
                Some(v) => old(self)@.contains_key(id) && v == old(self)@[id],
                None => !old(self)@.contains_key(id),
            },
    {
        broadcast use vstd::std_specs::hash::group_hash_axioms;
        self.map.remove(&id)
    }

    /// Empties the table, and hands back what it held: each id once, with
    /// its value.
    pub fn take_all(&mut self) -> (r: Vec<(usize, T)>)
        requires
            old(self).wf(),
        ensures
            final(self).wf(),
            final(self)@ == Map::<usize, T>::empty(),
            unique_ids(r@),
            slots_map(r@) == old(self)@,
    {
        broadcast use vstd::std_specs::hash::group_hash_axioms;
        let mut taken: HashMap<usize, T> = HashMap::new();
        std::mem::swap(&mut taken, &mut self.map);
        let ghost m0 = taken@;
        let keys = keys_of(&taken);
        let mut out: Vec<(usize, T)> = Vec::new();
        let mut i: usize = 0;
        while i < keys.len()
            invariant
                i <= keys@.len(),
                keys@.to_set() == m0.dom(),
                keys@.no_duplicates(),
                unique_ids(out@),
                out@.len() == i,
                forall|j: int| 0 <= j < i ==> #[trigger] out@[j].0 == keys@[j],
                forall|j: int| 0 <= j < i ==> #[trigger] out@[j].1 == m0[keys@[j]],
                taken@ == m0.remove_keys(keys@.take(i as int).to_set()),
            decreases keys@.len() - i,
        {
            let k = keys[i];
            proof {
                assert(keys@.to_set().contains(k));
                assert(!keys@.take(i as int).to_set().contains(k)) by {
                    if keys@.take(i as int).to_set().contains(k) {
                        let j = choose|j: int| 0 <= j < i && keys@.take(i as int)[j] == k;
                        assert(keys@[j] == keys@[i as int]);
                    }
                }
                assert(taken@.contains_key(k));
            }
            let v = taken.remove(&k);
            match v {
                Some(v) => {
                    proof {
                        assert(v == m0[k]);
                    }
                    let ghost before = out@;
                    out.push((k, v));
                    proof {
                        assert(unique_ids(out@)) by {
                            assert forall|a: int, b: int| 0 <= a < out@.len() && 0 <= b < out@.len() && a != b implies #[trigger] out@[a].0 != #[trigger] out@[b].0 by {
                                assert(out@[a].0 == keys@[a] && out@[b].0 == keys@[b]);
                            }
                        }
                        assert(keys@.take(i as int + 1).to_set() =~= keys@.take(i as int).to_set().insert(k)) by {
                            let a = keys@.take(i as int + 1);
                            let b = keys@.take(i as int);
                            assert(a =~= b.push(k));
                            assert forall|x: usize| a.contains(x) <==> b.contains(x) || x == k by {
                                if a.contains(x) {
                                    let j = choose|j: int| 0 <= j < a.len() && a[j] == x;
                                    if j < b.len() {
                                        assert(b[j] == x);
                                    }
                                }
                                if b.contains(x) {
                                    let j = choose|j: int| 0 <= j < b.len() && b[j] == x;
                                    assert(a[j] == x);
                                }
                                if x == k {
                                    assert(a[i as int] == x);
                                }
                            }
                        }
                        assert(taken@ =~= m0.remove_keys(keys@.take(i as int + 1).to_set()));
                    }
                },
                None => {
                    proof {
                        assert(false);
                    }
                },
            }
            i = i + 1;
        }
        proof {
            assert(keys@.take(keys@.len() as int) =~= keys@);
            lemma_slots_map(out@);
            assert(slots_map(out@) =~= m0) by {
                assert forall|k: usize| #[trigger] slots_map(out@).contains_key(k) <==> m0.contains_key(k) by {
                    if m0.contains_key(k) {
                        assert(keys@.to_set().contains(k));
                        let j = choose|j: int| 0 <= j < keys@.len() && keys@[j] == k;
                        assert(out@[j].0 == k);
                    }
                    if slots_map(out@).contains_key(k) {
                        let j = choose|j: int| 0 <= j < out@.len() && #[trigger] out@[j].0 == k;
                        assert(keys@[j] == k);
                        assert(keys@.to_set().contains(k));
                    }
                }
                assert forall|k: usize| #[trigger] slots_map(out@).contains_key(k) implies slots_map(out@)[k] == m0[k] by {
                    let j = choose|j: int| 0 <= j < out@.len() && #[trigger] out@[j].0 == k;
                    assert(slots_map(out@)[out@[j].0] == out@[j].1);
                }
            }
        }
        out
    }
}

} // verus!
