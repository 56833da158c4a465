//! A finite map keyed by bare JIDs.
//!
//! Keys are compared by their text, so two [`Id`] values that name the same
//! bare JID are the same key. Entries keep the order in which their keys were
//! first inserted.

use vstd::prelude::*;
use crate::common::id::Id;

verus! {

/// The map that the key texts `ks` and the values `vs` (taken pairwise) make,
/// a later pair overriding an earlier one with the same key.
pub open spec fn map_of<W>(ks: Seq<Seq<char>>, vs: Seq<W>) -> Map<Seq<char>, W>
    decreases ks.len(),
{
    if ks.len() == 0 || vs.len() == 0 {
        Map::empty()
    } else {
        map_of(ks.drop_last(), vs.drop_last()).insert(ks.last(), vs.last())
    }
}

/// The texts of `ids`, in order.
pub open spec fn id_texts(ids: Seq<Id>) -> Seq<Seq<char>> {
    ids.map_values(|i: Id| i@)
}

/// No key text occurs twice in `ks`.
pub open spec fn no_duplicates(ks: Seq<Seq<char>>) -> bool {
    forall|i: int, j: int| 0 <= i < ks.len() && 0 <= j < ks.len() && i != j ==> ks[i] != ks[j]
}

/// `j` is the last place of `k` in `ks`.
pub open spec fn last_place(ks: Seq<Seq<char>>, k: Seq<char>, j: int) -> bool {
    &&& 0 <= j < ks.len()
    &&& ks[j] == k
    &&& forall|l: int| j < l < ks.len() ==> ks[l] != k
}

proof fn lemma_map_of_dom<W>(ks: Seq<Seq<char>>, vs: Seq<W>, k: Seq<char>)
    requires
        ks.len() == vs.len(),
    ensures
        map_of(ks, vs).contains_key(k) <==> ks.contains(k),
    decreases ks.len(),
{
    if ks.len() != 0 {
        lemma_map_of_dom(ks.drop_last(), vs.drop_last(), k);
        if ks.contains(k) && k != ks.last() {
            let i = choose|i: int| 0 <= i < ks.len() && ks[i] == k;
            assert(ks.drop_last()[i] == k);
        }
        if ks.drop_last().contains(k) {
            let i = choose|i: int| 0 <= i < ks.drop_last().len() && ks.drop_last()[i] == k;
            assert(ks[i] == k);
        }
        if k == ks.last() {
            assert(ks[ks.len() - 1] == k);
        }
    }
}

proof fn lemma_map_of_value<W>(ks: Seq<Seq<char>>, vs: Seq<W>, k: Seq<char>, j: int)
    requires
        ks.len() == vs.len(),
        last_place(ks, k, j),
    ensures
        map_of(ks, vs).contains_key(k),
        map_of(ks, vs)[k] == vs[j],
    decreases ks.len(),
{
    if j != ks.len() - 1 {
        let ks2 = ks.drop_last();
        let vs2 = vs.drop_last();
        assert(ks[ks.len() - 1] != k);
        assert(last_place(ks2, k, j));
        lemma_map_of_value(ks2, vs2, k, j);
    }
}

proof fn lemma_last_place_exists(ks: Seq<Seq<char>>, k: Seq<char>) -> (j: int)
    requires
        ks.contains(k),
    ensures
        last_place(ks, k, j),
    decreases ks.len(),
{
    if ks.last() == k {
        (ks.len() - 1) as int
    } else {
        let i = choose|i: int| 0 <= i < ks.len() && ks[i] == k;
        assert(ks.drop_last()[i] == k);
        let j = lemma_last_place_exists(ks.drop_last(), k);
        assert(ks[j] == k);
        assert forall|l: int| j < l < ks.len() implies ks[l] != k by {
            if l < ks.len() - 1 {
                assert(ks.drop_last()[l] == ks[l]);
            }
        }
        j
    }
}

proof fn lemma_map_of_update<W>(ks: Seq<Seq<char>>, vs: Seq<W>, j: int, x: W)
    requires
        ks.len() == vs.len(),
        last_place(ks, ks[j], j),
    ensures
        map_of(ks, vs.update(j, x)) == map_of(ks, vs).insert(ks[j], x),
{
    let vs2 = vs.update(j, x);
    let m1 = map_of(ks, vs2);
    let m2 = map_of(ks, vs).insert(ks[j], x);
    assert forall|k: Seq<char>| m1.contains_key(k) <==> m2.contains_key(k) by {
        lemma_map_of_dom(ks, vs2, k);
        lemma_map_of_dom(ks, vs, k);
        if k == ks[j] {
            assert(ks.contains(k));
        }
    }
    assert forall|k: Seq<char>| #[trigger] m1.contains_key(k) implies m1[k] == m2[k] by {
        lemma_map_of_dom(ks, vs2, k);
        let l = lemma_last_place_exists(ks, k);
        lemma_map_of_value(ks, vs2, k, l);
        lemma_map_of_value(ks, vs, k, l);
        if k == ks[j] {
            assert(l == j);
        }
    }
    assert(m1 =~= m2);
}

/// The property of a map of maps that each inner map holds no key twice.
pub open spec fn inner_wf<W: View>() -> spec_fn(IdMap<W>) -> bool {
    |m: IdMap<W>| m.wf()
}

/// A map from bare JIDs to values of type `V`.
pub struct IdMap<V> {
    entries: Vec<(Id, V)>,
}

impl<V: View> View for IdMap<V> {
    type V = Map<Seq<char>, V::V>;

    closed spec fn view(&self) -> Map<Seq<char>, V::V> {
        map_of(self.key_seq(), self.val_seq())
    }
}

impl<V: View> IdMap<V> {
    /// The key texts, in the order of the entries.
    pub closed spec fn key_seq(&self) -> Seq<Seq<char>> {
        self.entries@.map_values(|e: (Id, V)| e.0@)
    }

    /// The abstract values, in the order of the entries.
    closed spec fn val_seq(&self) -> Seq<V::V> {
        self.entries@.map_values(|e: (Id, V)| e.1@)
    }

    /// No key twice: what the map keeps from its construction on.
    pub closed spec fn wf(&self) -> bool {
        no_duplicates(self.key_seq())
    }

    /// Every value of the map satisfies `p`.
    pub closed spec fn all(&self, p: spec_fn(V) -> bool) -> bool {
        forall|i: int| 0 <= i < self.entries@.len() ==> p(#[trigger] self.entries@[i].1)
    }

    /// An empty map.
    pub fn new() -> (res: Self)
        ensures
            res.wf(),
            forall|p: spec_fn(V) -> bool| #[trigger] res.all(p),
            res@ == Map::<Seq<char>, V::V>::empty(),
    {
        let res = IdMap { entries: Vec::new() };
        assert(res.key_seq() =~= Seq::<Seq<char>>::empty());
        res
    }

    /// The last place of `key` among the entries, if it is there.
    fn position(&self, key: &Id) -> (res: Option<usize>)
        ensures
            match res {
                Some(i) => last_place(self.key_seq(), key@, i as int),
                None => !self.key_seq().contains(key@),
            },
    {
        let mut i: usize = self.entries.len();
        while i > 0
            invariant
                i <= self.entries@.len(),
                forall|l: int| i <= l < self.entries@.len() ==> self.key_seq()[l] != key@,
            decreases i,
        {
            i = i - 1;
            if self.entries[i].0.same(key) {
                return Some(i);
            }
        }
        proof {
            if self.key_seq().contains(key@) {
                let j = choose|j: int| 0 <= j < self.key_seq().len() && self.key_seq()[j] == key@;
                assert(self.key_seq()[j] != key@);
            }
        }
        None
    }

    /// Whether `key` has a value.
    pub fn contains_key(&self, key: &Id) -> (res: bool)
        ensures
            res == self@.contains_key(key@),
    {
        proof { lemma_map_of_dom(self.key_seq(), self.val_seq(), key@); }
        self.position(key).is_some()
    }

    /// The value of `key`, if it has one.
    pub fn get(&self, key: &Id) -> (res: Option<&V>)
        ensures
            match res {
                Some(v) => self@.contains_key(key@) && v@ == self@[key@],
                None => !self@.contains_key(key@),
            },
            forall|p: spec_fn(V) -> bool| #[trigger] self.all(p) ==> (res matches Some(v) ==> p(*v)),
    {
        proof { lemma_map_of_dom(self.key_seq(), self.val_seq(), key@); }
        match self.position(key) {
            Some(i) => {
                proof { lemma_map_of_value(self.key_seq(), self.val_seq(), key@, i as int); }
                Some(&self.entries[i].1)
            },
            None => None,
        }
    }

    /// Gives `key` the value `value`; hands back the value it had before.
    pub fn insert(&mut self, key: Id, value: V) -> (res: Option<V>)
        ensures
            old(self).wf() ==> final(self).wf(),
            forall|p: spec_fn(V) -> bool| #[trigger] old(self).all(p) && p(value) ==> final(self).all(p),
            final(self)@ == old(self)@.insert(key@, value@),
            match res {
                Some(v) => old(self)@.contains_key(key@) && v@ == old(self)@[key@],
                None => !old(self)@.contains_key(key@),
            },
    {
        proof { lemma_map_of_dom(self.key_seq(), self.val_seq(), key@); }
        match self.position(&key) {
            Some(i) => {
                proof {
                    lemma_map_of_value(self.key_seq(), self.val_seq(), key@, i as int);
                    lemma_map_of_update(self.key_seq(), self.val_seq(), i as int, value@);
                }
                let ghost vv = value@;
                let mut tmp = value;
                std::mem::swap(&mut tmp, &mut self.entries[i].1);
                proof {
                    assert(self.key_seq() =~= old(self).key_seq());
                    assert(self.val_seq() =~= old(self).val_seq().update(i as int, vv));
                }
                Some(tmp)
            },
            None => {
                let ghost kv = key@;
                let ghost vv = value@;
                self.entries.push((key, value));
                proof {
                    assert(self.key_seq() =~= old(self).key_seq().push(kv));
                    assert(self.val_seq() =~= old(self).val_seq().push(vv));
                    assert(self.key_seq().drop_last() =~= old(self).key_seq());
                    assert(self.val_seq().drop_last() =~= old(self).val_seq());
                }
                None
            },
        }
    }

    /// The value of `key`, to be changed in place.
    pub fn get_mut(&mut self, key: &Id) -> (res: &mut V)
        requires
            old(self)@.contains_key(key@),
        ensures
            res@ == old(self)@[key@],
            old(self).wf() ==> final(self).wf(),
            forall|p: spec_fn(V) -> bool| #[trigger] old(self).all(p) ==> p(*res),
            forall|p: spec_fn(V) -> bool| #[trigger] old(self).all(p) && p(*final(res)) ==> final(self).all(p),
            final(self).key_seq() == old(self).key_seq(),
            final(self)@ == old(self)@.insert(key@, final(res)@),
    {
        proof { lemma_map_of_dom(self.key_seq(), self.val_seq(), key@); }
        let i = self.position(key).unwrap();
        proof {
            lemma_map_of_value(self.key_seq(), self.val_seq(), key@, i as int);
            assert forall|x: V| #[trigger] map_of(self.key_seq(), self.val_seq().update(i as int, x@))
                == self@.insert(key@, x@) by {
                lemma_map_of_update(self.key_seq(), self.val_seq(), i as int, x@);
            }
            let k0 = self.entries@[i as int].0;
            assert forall|x: V| (#[trigger] self.entries@.update(i as int, (k0, x))).map_values(|e: (Id, V)| e.1@)
                == self.val_seq().update(i as int, x@) by {
                assert(self.entries@.update(i as int, (k0, x)).map_values(|e: (Id, V)| e.1@)
                    =~= self.val_seq().update(i as int, x@));
            }
            assert forall|x: V| (#[trigger] self.entries@.update(i as int, (k0, x))).map_values(|e: (Id, V)| e.0@)
                == self.key_seq() by {
                assert(self.entries@.update(i as int, (k0, x)).map_values(|e: (Id, V)| e.0@)
                    =~= self.key_seq());
            }
        }
        let entry = &mut self.entries[i];
        &mut entry.1
    }

    /// The keys, in the order in which they were first inserted.
    pub fn keys(&self) -> (res: Vec<Id>)
        ensures
            id_texts(res@) == self.key_seq(),
            forall|k: Seq<char>| self@.contains_key(k) <==> #[trigger] self.key_seq().contains(k),
            self.wf() ==> no_duplicates(self.key_seq()),
    {
        proof {
            assert forall|k: Seq<char>| self@.contains_key(k) <==> #[trigger] self.key_seq().contains(k) by {
                lemma_map_of_dom(self.key_seq(), self.val_seq(), k);
            }
        }
        let mut res: Vec<Id> = Vec::new();
        let n = self.entries.len();
        let mut i: usize = 0;
        while i < n
            invariant
                n == self.entries@.len(),
                i <= n,
                res@.len() == i,
                forall|l: int| 0 <= l < i ==> res@[l]@ == #[trigger] self.entries@[l].0@,
            decreases n - i,
        {
            res.push(self.entries[i].0.clone());
            i = i + 1;
        }
        assert(id_texts(res@) =~= self.key_seq());
        res
    }
}

} // verus!
