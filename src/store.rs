use vstd::prelude::*;

verus! {

/// A map keyed by account-like strings, held as a list of pairs with unique keys.
pub struct Store<V> {
    entries: Vec<(String, V)>,
    contents: Ghost<Map<Seq<char>, V>>,
}

impl<V> View for Store<V> {
    type V = Map<Seq<char>, V>;

    closed spec fn view(&self) -> Map<Seq<char>, V> {
        self.contents@
    }
}

impl<V> Store<V> {
    /// Keys are unique, and the pairs are exactly the entries of the map.
    pub closed spec fn wf(&self) -> bool {
        &&& forall|i: int, j: int|
            0 <= i < j < self.entries@.len() ==> self.entries@[i].0@ != self.entries@[j].0@
        &&& forall|i: int|
            0 <= i < self.entries@.len() ==> {
                &&& #[trigger] self.contents@.contains_key(self.entries@[i].0@)
                &&& self.contents@[self.entries@[i].0@] == self.entries@[i].1
            }
        &&& forall|k: Seq<char>|
            #[trigger] self.contents@.contains_key(k) ==> exists|i: int|
                0 <= i < self.entries@.len() && self.entries@[i].0@ == k
    }

    pub fn new() -> (r: Self)
        ensures
            r.wf(),
            r@ == Map::<Seq<char>, V>::empty(),
    {
        Store { entries: Vec::new(), contents: Ghost(Map::empty()) }
    }

    fn find(&self, key: &String) -> (r: Option<usize>)
        requires
            self.wf(),
        ensures
            match r {
                Some(i) => i < self.entries@.len() && self.entries@[i as int].0@ == key@,
                None => !self@.contains_key(key@),
            },
    {
        let mut i: usize = 0;
        while i < self.entries.len()
            invariant
                self.wf(),
                i <= self.entries@.len(),
                forall|j: int| 0 <= j < i ==> self.entries@[j].0@ != key@,
            decreases self.entries@.len() - i,
        {
            if self.entries[i].0 == *key {
                return Some(i);
            }
            i = i + 1;
        }
        None
    }

    pub fn get(&self, key: &String) -> (r: Option<&V>)
        requires
            self.wf(),
        ensures
            match r {
                Some(v) => self@.contains_key(key@) && *v == self@[key@],
                None => !self@.contains_key(key@),
            },
    {
        match self.find(key) {
            Some(i) => {
                assert(self.contents@.contains_key(self.entries@[i as int].0@));
                Some(&self.entries[i].1)
            },
            None => None,
        }
    }

    pub fn contains_key(&self, key: &String) -> (r: bool)
        requires
            self.wf(),
        ensures
            r == self@.contains_key(key@),
    {
        self.find(key).is_some()
    }

    /// Drops the pair at `i`; the remaining pairs keep their order.
    fn remove_at(&mut self, i: usize)
        requires
            old(self).wf(),
            i < old(self).entries@.len(),
        ensures
            final(self).wf(),
            final(self)@ == old(self)@.remove(old(self).entries@[i as int].0@),
    {
        let ghost key = self.entries@[i as int].0@;
        let ghost before = self.entries@;
        self.entries.remove(i);
        self.contents = Ghost(self.contents@.remove(key));
        assert forall|k: Seq<char>| #[trigger] self.contents@.contains_key(k) implies exists|j: int|
            0 <= j < self.entries@.len() && self.entries@[j].0@ == k by {
            let j0 = choose|j: int| 0 <= j < before.len() && before[j].0@ == k;
            if j0 < i {
                assert(self.entries@[j0].0@ == k);
            } else {
                assert(self.entries@[j0 - 1].0@ == k);
            }
        }
        assert forall|j: int| 0 <= j < self.entries@.len() implies {
            &&& #[trigger] self.contents@.contains_key(self.entries@[j].0@)
            &&& self.contents@[self.entries@[j].0@] == self.entries@[j].1
        } by {
            if j < i {
                assert(self.entries@[j] == before[j]);
            } else {
                assert(self.entries@[j] == before[j + 1]);
            }
        }
    }

    pub fn insert(&mut self, key: String, value: V)
        requires
            old(self).wf(),
        ensures
            final(self).wf(),
            final(self)@ == old(self)@.insert(key@, value),
    {
        let ghost start = self@;
        match self.find(&key) {
            Some(i) => {
                self.remove_at(i);
            },
            None => {},
        }
        assert(!self@.contains_key(key@));
        assert(self@.insert(key@, value) =~= start.insert(key@, value));
        let ghost before = self.entries@;
        let ghost k = key@;
        self.entries.push((key, value));
        self.contents = Ghost(self.contents@.insert(k, value));
        assert forall|j: int| 0 <= j < self.entries@.len() implies {
            &&& #[trigger] self.contents@.contains_key(self.entries@[j].0@)
            &&& self.contents@[self.entries@[j].0@] == self.entries@[j].1
        } by {
            if j < before.len() {
                assert(self.entries@[j] == before[j]);
            }
        }
        assert forall|k2: Seq<char>| #[trigger] self.contents@.contains_key(k2) implies exists|j: int|
            0 <= j < self.entries@.len() && self.entries@[j].0@ == k2 by {
            if k2 == k {
                assert(self.entries@[before.len() as int].0@ == k2);
            } else {
                let j0 = choose|j: int| 0 <= j < before.len() && before[j].0@ == k2;
                assert(self.entries@[j0].0@ == k2);
            }
        }
        assert forall|a: int, b: int| 0 <= a < b < self.entries@.len() implies
            self.entries@[a].0@ != self.entries@[b].0@ by {
            if b == before.len() {
                assert(self.entries@[a] == before[a]);
            }
        }
    }

    pub fn remove(&mut self, key: &String)
        requires
            old(self).wf(),
        ensures
            final(self).wf(),
            final(self)@ == old(self)@.remove(key@),
    {
        match self.find(key) {
            Some(i) => {
                self.remove_at(i);
            },
            None => {
                assert(self@.remove(key@) =~= self@);
            },
        }
    }
}

} // verus!
