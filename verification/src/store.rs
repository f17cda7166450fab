//! A map from text keys to values that also remembers the order in which its
//! keys were first inserted, so that its contents can be walked.
use vstd::prelude::*;
use vstd::hash_map::StringHashMap;

verus! {

/// String-keyed map with a walkable list of its keys.
#[verifier::reject_recursive_types(V)]
pub struct KeyedStore<V> {
    map: StringHashMap<V>,
    order: Vec<String>,
}

impl<V> View for KeyedStore<V> {
    type V = Map<Seq<char>, V>;

    closed spec fn view(&self) -> Map<Seq<char>, V> {
        self.map@
    }
}

impl<V> KeyedStore<V> {
    /// The keys, in the order they were first inserted.
    pub closed spec fn keys(&self) -> Seq<Seq<char>> {
        self.order@.map_values(|s: String| s@)
    }

    /// Each key is listed once, and the listed keys are exactly the map's domain.
    pub closed spec fn wf(&self) -> bool {
        &&& forall|i: int| 0 <= i < self.order@.len() ==> self.map@.contains_key(#[trigger] self.order@[i]@)
        &&& forall|k: Seq<char>| self.map@.contains_key(k) ==> exists|i: int| 0 <= i < self.order@.len() && #[trigger] self.order@[i]@ == k
        &&& forall|i: int, j: int| 0 <= i < j < self.order@.len() ==> self.order@[i]@ != self.order@[j]@
    }

    /// The listed keys are exactly the domain, each once.
    pub proof fn lemma_keys(&self)
        requires
            self.wf(),
        ensures
            forall|i: int| 0 <= i < self.keys().len() ==> self@.contains_key(#[trigger] self.keys()[i]),
            forall|k: Seq<char>| self@.contains_key(k) ==> self.keys().contains(k),
            self.keys().no_duplicates(),
    {
        assert forall|k: Seq<char>| self@.contains_key(k) implies self.keys().contains(k) by {
            let i = choose|i: int| 0 <= i < self.order@.len() && #[trigger] self.order@[i]@ == k;
            assert(self.keys()[i] == k);
        }
    }

    /// An empty store.
    pub fn new() -> (r: Self)
        ensures
            r.wf(),
            r@ == Map::<Seq<char>, V>::empty(),
            r.keys() == Seq::<Seq<char>>::empty(),
    {
        let r = KeyedStore { map: StringHashMap::new(), order: Vec::new() };
        assert(r.keys() =~= Seq::<Seq<char>>::empty());
        r
    }

    /// The number of keys.
    pub fn key_count(&self) -> (r: usize)
        ensures
            r == self.keys().len(),
    {
        self.order.len()
    }

    /// The key listed at position `i`.
    pub fn key_at(&self, i: usize) -> (r: &String)
        requires
            i < self.keys().len(),
        ensures
            r@ == self.keys()[i as int],
    {
        &self.order[i]
    }

    /// Whether `k` is a key.
    pub fn contains_key(&self, k: &str) -> (r: bool)
        ensures
            r == self@.contains_key(k@),
    {
        self.map.contains_key(k)
    }

    /// The value stored under `k`, if any.
    pub fn get(&self, k: &str) -> (r: Option<&V>)
        ensures
            match r {
                Some(v) => self@.contains_key(k@) && *v == self@[k@],
                None => !self@.contains_key(k@),
            },
    {
        self.map.get(k)
    }

    /// Stores `v` under `k`, replacing any value stored there before.
    pub fn insert(&mut self, k: String, v: V)
        requires
            old(self).wf(),
        ensures
            final(self).wf(),
            final(self)@ == old(self)@.insert(k@, v),
            old(self)@.contains_key(k@) ==> final(self).keys() == old(self).keys(),
            !old(self)@.contains_key(k@) ==> final(self).keys() == old(self).keys().push(k@),
    {
        let ghost old_order = self.order@;
        if !self.map.contains_key(k.as_str()) {
            let k2 = k.clone();
            self.order.push(k2);
            assert(self.keys() =~= old(self).keys().push(k@));
            assert forall|i: int, j: int| 0 <= i < j < self.order@.len() implies self.order@[i]@ != self.order@[j]@ by {
                if j == old_order.len() {
                    assert(old(self).map@.contains_key(old_order[i]@));
                }
            }
        }
        self.map.insert(k, v);
        assert forall|kk: Seq<char>| self.map@.contains_key(kk) implies exists|i: int| 0 <= i < self.order@.len() && #[trigger] self.order@[i]@ == kk by {
            if kk != k@ {
                assert(old(self).map@.contains_key(kk));
                let i = choose|i: int| 0 <= i < old_order.len() && #[trigger] old_order[i]@ == kk;
                assert(self.order@[i]@ == kk);
            } else if old(self).map@.contains_key(kk) {
                let i = choose|i: int| 0 <= i < old_order.len() && #[trigger] old_order[i]@ == kk;
                assert(self.order@[i]@ == kk);
            } else {
                assert(self.order@[old_order.len() as int]@ == kk);
            }
        }
    }

    /// Removes `k`; tells whether it was there.
    pub fn remove(&mut self, k: &str) -> (r: bool)
        requires
            old(self).wf(),
        ensures
            final(self).wf(),
            r == old(self)@.contains_key(k@),
            final(self)@ == old(self)@.remove(k@),
            !r ==> final(self).keys() == old(self).keys(),
            r ==> exists|i: int| 0 <= i < old(self).keys().len() && old(self).keys()[i] == k@ && final(self).keys()
                == old(self).keys().remove(i),
    {
        if !self.map.contains_key(k) {
            assert(self.map@ =~= old(self).map@.remove(k@));
            return false;
        }
        let n = self.order.len();
        let mut i: usize = 0;
        while i < n && !crate::text::str_eq(self.order[i].as_str(), k)
            invariant
                n == self.order@.len(),
                *self == *old(self),
                old(self).wf(),
                old(self).map@.contains_key(k@),
                i <= n,
                forall|j: int| 0 <= j < i ==> self.order@[j]@ != k@,
            decreases n - i,
        {
            i += 1;
        }
        proof {
            if i == n {
                let j = choose|j: int| 0 <= j < self.order@.len() && #[trigger] self.order@[j]@ == k@;
                assert(false);
            }
        }
        assert(i < n && self.order@[i as int]@ == k@);
        let ghost old_order = self.order@;
        self.order.remove(i);
        assert(self.keys() =~= old(self).keys().remove(i as int));
        assert(old(self).keys()[i as int] == k@);
        self.map.remove(k);
        assert forall|a: int| 0 <= a < self.order@.len() implies self.map@.contains_key(#[trigger] self.order@[a]@) by {
            if a < i {
                assert(self.order@[a] == old_order[a]);
                assert(old_order[a]@ != old_order[i as int]@);
            } else {
                assert(self.order@[a] == old_order[a + 1]);
                assert(old_order[a + 1]@ != old_order[i as int]@);
            }
        }
        assert forall|kk: Seq<char>| self.map@.contains_key(kk) implies exists|a: int| 0 <= a < self.order@.len() && #[trigger] self.order@[a]@ == kk by {
            let b = choose|b: int| 0 <= b < old_order.len() && #[trigger] old_order[b]@ == kk;
            if b < i {
                assert(self.order@[b]@ == kk);
            } else {
                assert(b != i);
                assert(self.order@[b - 1]@ == kk);
            }
        }
        assert forall|a: int, c: int| 0 <= a < c < self.order@.len() implies self.order@[a]@ != self.order@[c]@ by {
            let a2 = if a < i { a } else { a + 1 };
            let c2 = if c < i { c } else { c + 1 };
            assert(self.order@[a] == old_order[a2]);
            assert(self.order@[c] == old_order[c2]);
        }
        true
    }
}

} // verus!
